//! The `secrets` commands of the command-line tool: the agent endpoints
//! they call, the requests they send, and what they print of the replies.
use vstd::prelude::*;
use std::fmt::Write;
use vstd::string::*;
use crate::secrets::{SecretMetadata, SecretWithValue, tag_views};
use crate::secrets_api::{
    DeleteSecretRequest, GetAllSecretsRequest, GetSecretRequest, ListSecretsRequest, SetSecretRequest,
};
use crate::text::{push_str, string_views};
use crate::webhooks::get_api_url;

verus! {

// ---------------------------------------------------------------------------
// Endpoints and requests
// ---------------------------------------------------------------------------

/// The agent's secrets endpoint: `http://<host>:17670/api/v1/secrets`.
pub open spec fn secrets_base(host: Seq<char>) -> Seq<char> {
    "http://"@ + host + ":17670"@ + "/api/v1/secrets"@
}

fn base_url(host: &str) -> (r: String)
    ensures
        r@ == secrets_base(host@),
{
    let mut r = get_api_url(host);
    r.append("/api/v1/secrets");
    r
}

/// Where a secret is set.
pub fn set_secret_url(host: &str) -> (r: String)
    ensures
        r@ == secrets_base(host@),
{
    base_url(host)
}

/// Where a secret is read.
pub fn get_secret_url(host: &str, name: &str) -> (r: String)
    ensures
        r@ == secrets_base(host@) + "/"@ + name@,
{
    let mut r = base_url(host);
    r.append("/");
    r.append(name);
    r
}

/// Where all secrets are read with their values.
pub fn all_secrets_url(host: &str) -> (r: String)
    ensures
        r@ == secrets_base(host@) + "/all"@,
{
    let mut r = base_url(host);
    r.append("/all");
    r
}

/// Where the secrets are listed.
pub fn list_secrets_url(host: &str) -> (r: String)
    ensures
        r@ == secrets_base(host@) + "/list"@,
{
    let mut r = base_url(host);
    r.append("/list");
    r
}

/// Where a secret is deleted.
pub fn delete_secret_url(host: &str, name: &str) -> (r: String)
    ensures
        r@ == secrets_base(host@) + "/"@ + name@ + "/delete"@,
{
    let mut r = base_url(host);
    r.append("/");
    r.append(name);
    r.append("/delete");
    r
}

/// The request that sets a secret of the project (named by the project's
/// name): no tags when none are given, performed by `cli`.
pub fn set_request(project_name: &str, name: String, value: String, tags: Vec<String>) -> (r: SetSecretRequest)
    ensures
        r.project_id@ == project_name@,
        r.project_name@ == project_name@,
        r.name == name,
        r.value == value,
        r.tags == (if tags@.len() == 0 {
            None
        } else {
            Some(tags)
        }),
        r.performed_by@ == "cli"@,
{
    SetSecretRequest {
        project_id: String::from_str(project_name),
        project_name: String::from_str(project_name),
        name,
        value,
        tags: if tags.len() == 0 {
            None
        } else {
            Some(tags)
        },
        performed_by: String::from_str("cli"),
    }
}

/// The request that reads a secret of the project.
pub fn get_request(project_name: &str) -> (r: GetSecretRequest)
    ensures
        r.project_id@ == project_name@ && r.project_name@ == project_name@ && r.performed_by@ == "cli"@,
{
    GetSecretRequest {
        project_id: String::from_str(project_name),
        project_name: String::from_str(project_name),
        performed_by: String::from_str("cli"),
    }
}

/// The request that lists the project's secrets.
pub fn list_request(project_name: &str) -> (r: ListSecretsRequest)
    ensures
        r.project_id@ == project_name@,
{
    ListSecretsRequest { project_id: String::from_str(project_name) }
}

/// The request that reads all of the project's secrets.
pub fn all_request(project_name: &str) -> (r: GetAllSecretsRequest)
    ensures
        r.project_id@ == project_name@ && r.project_name@ == project_name@ && r.performed_by@ == "cli"@,
{
    GetAllSecretsRequest {
        project_id: String::from_str(project_name),
        project_name: String::from_str(project_name),
        performed_by: String::from_str("cli"),
    }
}

/// The request that deletes a secret of the project.
pub fn delete_request(project_name: &str) -> (r: DeleteSecretRequest)
    ensures
        r.project_id@ == project_name@ && r.performed_by@ == "cli"@,
{
    DeleteSecretRequest { project_id: String::from_str(project_name), performed_by: String::from_str("cli") }
}

/// The question asked before a deletion.
pub fn delete_prompt(name: &str) -> (r: String)
    ensures
        r@ == "Are you sure you want to delete secret '"@ + name@ + "'?"@,
{
    let mut r = String::from_str("Are you sure you want to delete secret '");
    r.append(name);
    r.append("'?");
    r
}

// ---------------------------------------------------------------------------
// Output
// ---------------------------------------------------------------------------

/// The UTC date and time of a Unix timestamp written with a chrono format
/// pattern, when the timestamp is in chrono's range and the pattern can be
/// written.
pub uninterp spec fn utc_text(timestamp: i64, pattern: Seq<char>) -> Option<Seq<char>>;

/// `chrono::DateTime::from_timestamp(timestamp, 0)`, written with `format`
/// and the pattern into a `String`; `None` when the timestamp is out of
/// chrono's range or the pattern cannot be written (an unknown specifier).
/// The contract names the result.
#[verifier::external_body]
fn format_utc(timestamp: i64, pattern: &str) -> (r: Option<String>)
    ensures
        utc_text(timestamp, pattern@) == (match r {
            Some(s) => Some(s@),
            None => None,
        }),
{
    match chrono::DateTime::from_timestamp(timestamp, 0) {
        Some(dt) => {
            let mut out = String::new();
            match write!(out, "{}", dt.format(pattern)) {
                Ok(()) => Some(out),
                Err(_) => None,
            }
        },
        None => None,
    }
}

/// A timestamp as shown: its UTC date and time, else "Unknown".
pub open spec fn shown_time(timestamp: i64, pattern: Seq<char>) -> Seq<char> {
    match utc_text(timestamp, pattern) {
        Some(t) => t,
        None => "Unknown"@,
    }
}

/// A timestamp as shown with a chrono pattern (see `shown_time`).
pub fn timestamp_text(timestamp: i64, pattern: &str) -> (r: String)
    ensures
        r@ == shown_time(timestamp, pattern@),
{
    match format_utc(timestamp, pattern) {
        Some(t) => t,
        None => String::from_str("Unknown"),
    }
}

/// `n` spaces.
pub open spec fn spaces(n: nat) -> Seq<char> {
    Seq::new(n, |i: int| ' ')
}

/// A text padded with spaces to a width (`{:<width}`).
pub open spec fn padded(s: Seq<char>, width: nat) -> Seq<char> {
    if s.len() < width {
        s + spaces((width - s.len()) as nat)
    } else {
        s
    }
}

/// A text padded with spaces to a width (`{:<width}`).
pub fn pad_right(s: &str, width: usize) -> (r: String)
    ensures
        r@ == padded(s@, width as nat),
{
    let mut r = String::from_str(s);
    let n = s.unicode_len();
    if n < width {
        let mut k: usize = n;
        while k < width
            invariant
                n <= k <= width,
                n == s@.len(),
                r@ == s@ + spaces((k - n) as nat),
            decreases width - k,
        {
            let ghost r0 = r@;
            r.append(" ");
            proof {
                reveal_strlit(" ");
                assert(r@ =~= s@ + spaces((k + 1 - n) as nat));
            }
            k = k + 1;
        }
    }
    r
}

/// Texts joined with a separator (`[String]::join`).
pub open spec fn joined(ps: Seq<Seq<char>>, sep: Seq<char>) -> Seq<char>
    decreases ps.len(),
{
    if ps.len() == 0 {
        Seq::empty()
    } else if ps.len() == 1 {
        ps[0]
    } else {
        joined(ps.drop_last(), sep) + sep + ps.last()
    }
}

/// Texts joined with a separator.
pub fn join_strings(ps: &Vec<String>, sep: &str) -> (r: String)
    ensures
        r@ == joined(string_views(ps@), sep@),
{
    let mut r = String::new();
    let mut i: usize = 0;
    while i < ps.len()
        invariant
            i <= ps@.len(),
            r@ == joined(string_views(ps@).subrange(0, i as int), sep@),
        decreases ps@.len() - i,
    {
        let ghost sub = string_views(ps@).subrange(0, i + 1);
        assert(sub.drop_last() =~= string_views(ps@).subrange(0, i as int));
        if i > 0 {
            r.append(sep);
        }
        r.append(ps[i].as_str());
        i = i + 1;
    }
    assert(string_views(ps@).subrange(0, ps@.len() as int) =~= string_views(ps@));
    r
}

/// The heading of a listing of the project's secrets, with blank lines.
pub open spec fn listing_heading(project: Seq<char>) -> Seq<Seq<char>> {
    seq![""@, "🔐 Secrets for project '"@ + project + "':"@, ""@]
}

/// `name=value` lines.
pub open spec fn value_lines(ss: Seq<SecretWithValue>, indent: Seq<char>) -> Seq<Seq<char>>
    decreases ss.len(),
{
    if ss.len() == 0 {
        Seq::empty()
    } else {
        value_lines(ss.drop_last(), indent).push(indent + ss.last().name@ + "="@ + ss.last().value@)
    }
}

fn push_value_lines(out: &mut Vec<String>, ss: &Vec<SecretWithValue>, indent: &str)
    ensures
        string_views(final(out)@) == string_views(old(out)@) + value_lines(ss@, indent@),
{
    let ghost o0 = string_views(out@);
    let mut i: usize = 0;
    while i < ss.len()
        invariant
            i <= ss@.len(),
            string_views(out@) == o0 + value_lines(ss@.subrange(0, i as int), indent@),
        decreases ss@.len() - i,
    {
        let ghost sub = ss@.subrange(0, i + 1);
        assert(sub.drop_last() =~= ss@.subrange(0, i as int));
        let mut l = String::from_str(indent);
        l.append(ss[i].name.as_str());
        l.append("=");
        l.append(ss[i].value.as_str());
        let ghost out0 = string_views(out@);
        out.push(l);
        assert(string_views(out@) =~= out0.push(l@));
        i = i + 1;
    }
    assert(ss@.subrange(0, ss@.len() as int) =~= ss@);
}

/// What `secrets list --values` prints: a note when there are no secrets,
/// else the heading, `name=value` lines and a blank line.
pub open spec fn values_listing(project: Seq<char>, ss: Seq<SecretWithValue>) -> Seq<Seq<char>> {
    if ss.len() == 0 {
        seq!["📭 No secrets configured for this project"@]
    } else {
        listing_heading(project) + value_lines(ss, "   "@) + seq![""@]
    }
}

/// What `secrets list --values` prints (see `values_listing`).
pub fn list_values_output(project: &str, secrets: &Vec<SecretWithValue>) -> (r: Vec<String>)
    ensures
        string_views(r@) == values_listing(project@, secrets@),
{
    let mut out: Vec<String> = Vec::new();
    if secrets.len() == 0 {
        push_str(&mut out, "📭 No secrets configured for this project");
        assert(string_views(out@) =~= values_listing(project@, secrets@));
        return out;
    }
    push_str(&mut out, "");
    let mut h = String::from_str("🔐 Secrets for project '");
    h.append(project);
    h.append("':");
    let ghost o0 = string_views(out@);
    out.push(h);
    assert(string_views(out@) =~= o0.push(h@));
    push_str(&mut out, "");
    let ghost o1 = string_views(out@);
    assert(o1 =~= listing_heading(project@));
    push_value_lines(&mut out, secrets, "   ");
    push_str(&mut out, "");
    assert(string_views(out@) =~= values_listing(project@, secrets@));
    out
}

/// The row of a secret in the listing, and its tags when it has some.
pub open spec fn metadata_rows(s: SecretMetadata) -> Seq<Seq<char>> {
    let row = "   "@ + padded(s.name@, 30) + " "@ + padded(shown_time(s.created_at, "%Y-%m-%d %H:%M"@), 20) + " "@
        + padded(shown_time(s.updated_at, "%Y-%m-%d %H:%M"@), 20);
    match tag_views(s.tags) {
        Some(t) => if t.len() > 0 {
            seq![row, "   └─ Tags: "@ + joined(t, ", "@)]
        } else {
            seq![row]
        },
        None => seq![row],
    }
}

/// The rows of secrets in the listing.
pub open spec fn metadata_table(ss: Seq<SecretMetadata>) -> Seq<Seq<char>>
    decreases ss.len(),
{
    if ss.len() == 0 {
        Seq::empty()
    } else {
        metadata_table(ss.drop_last()) + metadata_rows(ss.last())
    }
}

/// The header of the listing: the column names and a rule.
pub open spec fn table_header() -> Seq<Seq<char>> {
    seq![
        "   "@ + padded("NAME"@, 30) + " "@ + padded("CREATED"@, 20) + " "@ + padded("UPDATED"@, 20),
        "   "@ + Seq::new(70, |i: int| '-'),
    ]
}

/// What `secrets list` prints: a note when there are no secrets, else the
/// heading, the table and a blank line.
pub open spec fn metadata_listing(project: Seq<char>, ss: Seq<SecretMetadata>) -> Seq<Seq<char>> {
    if ss.len() == 0 {
        seq!["📭 No secrets configured for this project"@]
    } else {
        listing_heading(project) + table_header() + metadata_table(ss) + seq![""@]
    }
}

fn metadata_row_lines(out: &mut Vec<String>, s: &SecretMetadata)
    ensures
        string_views(final(out)@) == string_views(old(out)@) + metadata_rows(*s),
{
    let mut row = String::from_str("   ");
    row.append(pad_right(s.name.as_str(), 30).as_str());
    row.append(" ");
    row.append(pad_right(timestamp_text(s.created_at, "%Y-%m-%d %H:%M").as_str(), 20).as_str());
    row.append(" ");
    row.append(pad_right(timestamp_text(s.updated_at, "%Y-%m-%d %H:%M").as_str(), 20).as_str());
    let ghost o0 = string_views(out@);
    out.push(row);
    assert(string_views(out@) =~= o0.push(row@));
    match &s.tags {
        Some(t) => {
            if t.len() > 0 {
                let mut l = String::from_str("   └─ Tags: ");
                l.append(join_strings(t, ", ").as_str());
                let ghost o1 = string_views(out@);
                out.push(l);
                assert(string_views(out@) =~= o1.push(l@));
            }
        },
        None => {},
    }
    assert(string_views(out@) =~= o0 + metadata_rows(*s));
}

/// What `secrets list` prints (see `metadata_listing`).
pub fn list_metadata_output(project: &str, secrets: &Vec<SecretMetadata>) -> (r: Vec<String>)
    ensures
        string_views(r@) == metadata_listing(project@, secrets@),
{
    let mut out: Vec<String> = Vec::new();
    if secrets.len() == 0 {
        push_str(&mut out, "📭 No secrets configured for this project");
        assert(string_views(out@) =~= metadata_listing(project@, secrets@));
        return out;
    }
    push_str(&mut out, "");
    let mut h = String::from_str("🔐 Secrets for project '");
    h.append(project);
    h.append("':");
    let ghost o0 = string_views(out@);
    out.push(h);
    assert(string_views(out@) =~= o0.push(h@));
    push_str(&mut out, "");
    let mut head = String::from_str("   ");
    head.append(pad_right("NAME", 30).as_str());
    head.append(" ");
    head.append(pad_right("CREATED", 20).as_str());
    head.append(" ");
    head.append(pad_right("UPDATED", 20).as_str());
    let ghost o1 = string_views(out@);
    out.push(head);
    assert(string_views(out@) =~= o1.push(head@));
    let mut rule = String::from_str("   ");
    let mut k: usize = 0;
    while k < 70
        invariant
            k <= 70,
            rule@ == "   "@ + Seq::new(k as nat, |i: int| '-'),
        decreases 70 - k,
    {
        rule.append("-");
        proof {
            reveal_strlit("-");
            assert(rule@ =~= "   "@ + Seq::new((k + 1) as nat, |i: int| '-'));
        }
        k = k + 1;
    }
    let ghost o2 = string_views(out@);
    out.push(rule);
    assert(string_views(out@) =~= o2.push(rule@));
    let ghost start = string_views(out@);
    assert(start =~= listing_heading(project@) + table_header());
    let mut i: usize = 0;
    while i < secrets.len()
        invariant
            i <= secrets@.len(),
            string_views(out@) == start + metadata_table(secrets@.subrange(0, i as int)),
        decreases secrets@.len() - i,
    {
        let ghost sub = secrets@.subrange(0, i + 1);
        assert(sub.drop_last() =~= secrets@.subrange(0, i as int));
        metadata_row_lines(&mut out, &secrets[i]);
        assert(string_views(out@) =~= start + metadata_table(sub));
        i = i + 1;
    }
    assert(secrets@.subrange(0, secrets@.len() as int) =~= secrets@);
    push_str(&mut out, "");
    assert(string_views(out@) =~= metadata_listing(project@, secrets@));
    out
}

/// What `secrets get` prints of a secret: its name, its value or a mask,
/// when it was created and updated, and its tags when it has them.
pub open spec fn secret_details(s: SecretWithValue, show_value: bool) -> Seq<Seq<char>> {
    let lines = seq![
        ""@,
        "🔐 Secret: "@ + s.name@,
        if show_value {
            "   Value: "@ + s.value@
        } else {
            "   Value: ********** (use --show to reveal)"@
        },
        "   Created: "@ + shown_time(s.created_at, "%Y-%m-%d %H:%M:%S"@),
        "   Updated: "@ + shown_time(s.updated_at, "%Y-%m-%d %H:%M:%S"@),
    ];
    match tag_views(s.tags) {
        Some(t) => lines.push("   Tags: "@ + joined(t, ", "@)),
        None => lines,
    }
}

/// What `secrets get` prints (see `secret_details`).
pub fn secret_output(s: &SecretWithValue, show_value: bool) -> (r: Vec<String>)
    ensures
        string_views(r@) == secret_details(*s, show_value),
{
    let mut out: Vec<String> = Vec::new();
    push_str(&mut out, "");
    let mut l1 = String::from_str("🔐 Secret: ");
    l1.append(s.name.as_str());
    let l2 = if show_value {
        let mut v = String::from_str("   Value: ");
        v.append(s.value.as_str());
        v
    } else {
        String::from_str("   Value: ********** (use --show to reveal)")
    };
    let mut l3 = String::from_str("   Created: ");
    l3.append(timestamp_text(s.created_at, "%Y-%m-%d %H:%M:%S").as_str());
    let mut l4 = String::from_str("   Updated: ");
    l4.append(timestamp_text(s.updated_at, "%Y-%m-%d %H:%M:%S").as_str());
    let ghost o0 = string_views(out@);
    out.push(l1);
    out.push(l2);
    out.push(l3);
    out.push(l4);
    assert(string_views(out@) =~= o0.push(l1@).push(l2@).push(l3@).push(l4@));
    match &s.tags {
        Some(t) => {
            let mut l5 = String::from_str("   Tags: ");
            l5.append(join_strings(t, ", ").as_str());
            let ghost o1 = string_views(out@);
            out.push(l5);
            assert(string_views(out@) =~= o1.push(l5@));
        },
        None => {},
    }
    assert(string_views(out@) =~= secret_details(*s, show_value));
    out
}

/// What `secrets export` prints: a comment when there are no secrets, else
/// a heading comment, the export time, a blank line and `name=value` lines.
pub open spec fn export_listing(project: Seq<char>, exported_at: Seq<char>, ss: Seq<SecretWithValue>) -> Seq<
    Seq<char>,
> {
    if ss.len() == 0 {
        seq!["# No secrets configured"@]
    } else {
        seq!["# Secrets for project '"@ + project + "'"@, "# Exported at: "@ + exported_at, ""@] + value_lines(
            ss,
            ""@,
        )
    }
}

/// What `secrets export` prints (see `export_listing`).
pub fn export_output(project: &str, exported_at: &str, secrets: &Vec<SecretWithValue>) -> (r: Vec<String>)
    ensures
        string_views(r@) == export_listing(project@, exported_at@, secrets@),
{
    let mut out: Vec<String> = Vec::new();
    if secrets.len() == 0 {
        push_str(&mut out, "# No secrets configured");
        assert(string_views(out@) =~= export_listing(project@, exported_at@, secrets@));
        return out;
    }
    let mut h = String::from_str("# Secrets for project '");
    h.append(project);
    h.append("'");
    let mut t = String::from_str("# Exported at: ");
    t.append(exported_at);
    out.push(h);
    out.push(t);
    push_str(&mut out, "");
    let ghost o0 = string_views(out@);
    assert(o0 =~= seq!["# Secrets for project '"@ + project@ + "'"@, "# Exported at: "@ + exported_at@, ""@]);
    push_value_lines(&mut out, secrets, "");
    assert(string_views(out@) =~= export_listing(project@, exported_at@, secrets@));
    out
}

} // verus!
