//! Checks that the environment variables a compose file refers to are set
//! in the project's `.env` file.
use vstd::prelude::*;
use vstd::string::*;
use crate::text::{chars_of, find_char, first_index_of, lines, push_str, push_string, slice_chars, split_lines, str_eq, string_of, string_views, trim, trim_both, trim_chars, views};

verus! {

/// A required variable that is missing or empty.
#[derive(Debug, Clone)]
pub struct EnvVarIssue {
    pub var_name: String,
    pub issue_type: IssueType,
    /// The services that refer to the variable.
    pub found_in: Vec<String>,
}

/// What is wrong with a variable.
#[derive(Debug, Clone, Copy, PartialEq, Eq, Structural)]
pub enum IssueType {
    Missing,
    Empty,
}

/// The outcome of a validation.
#[derive(Debug)]
pub struct ValidationReport {
    pub issues: Vec<EnvVarIssue>,
    pub total_vars_checked: usize,
    pub env_file_path: String,
}

/// Why a compose file could not be read for variables.
#[derive(Debug, Clone, Copy, PartialEq, Eq, Structural)]
pub enum ComposeError {
    /// The file is not valid YAML.
    InvalidYaml,
    /// The file has no `services` mapping.
    NoServices,
}

impl ComposeError {
    /// The message of the error.
    pub fn message(&self) -> (r: String)
        ensures
            *self == ComposeError::InvalidYaml ==> r@ == "Failed to parse docker-compose YAML"@,
            *self == ComposeError::NoServices ==> r@ == "No services found in docker-compose file"@,
    {
        match self {
            ComposeError::InvalidYaml => String::from_str("Failed to parse docker-compose YAML"),
            ComposeError::NoServices => String::from_str("No services found in docker-compose file"),
        }
    }
}

// ---------------------------------------------------------------------------
// The report
// ---------------------------------------------------------------------------

/// Words describing an issue.
pub open spec fn issue_words(t: IssueType) -> Seq<char> {
    match t {
        IssueType::Missing => "is not set"@,
        IssueType::Empty => "is empty"@,
    }
}

/// Strings joined with `", "`.
pub open spec fn join_comma(v: Seq<Seq<char>>) -> Seq<char>
    decreases v.len(),
{
    if v.len() == 0 {
        Seq::empty()
    } else if v.len() == 1 {
        v[0]
    } else {
        join_comma(v.drop_last()) + ", "@ + v.last()
    }
}

/// The lines describing one issue.
pub open spec fn issue_text(i: EnvVarIssue) -> Seq<char> {
    "  • "@ + i.var_name@ + " "@ + issue_words(i.issue_type) + "\n"@ + if i.found_in@.len() > 0 {
        "    Required by: "@ + join_comma(string_views(i.found_in@)) + "\n"@
    } else {
        Seq::empty()
    }
}

/// The descriptions of the issues, in order.
pub open spec fn issues_text(v: Seq<EnvVarIssue>) -> Seq<char>
    decreases v.len(),
{
    if v.len() == 0 {
        Seq::empty()
    } else {
        issues_text(v.drop_last()) + issue_text(v.last())
    }
}

/// The advice that closes a failed report.
pub open spec fn fix_advice(env_file_path: Seq<char>) -> Seq<char> {
    "\n📝 Please update your .env file at: "@ + env_file_path + "\n"@ + "\n🔧 To fix this issue:\n"@
        + "  1. SSH to your VPS or update .env file remotely\n"@
        + "  2. Add the missing variables to your .env file\n"@
        + "  3. For sensitive values, use: shipwright secrets set <VAR_NAME>\n"@
        + "  4. Check .env.example for reference values\n"@ + "\n🔄 After fixing:\n"@
        + "  • Run 'shipwright retry' to retry this deployment\n"@
        + "  • No need to push new code - retry uses existing code\n"@
}

/// The message of a report: empty when it has no issues.
pub open spec fn report_message(r: ValidationReport) -> Seq<char> {
    if r.issues@.len() == 0 {
        Seq::empty()
    } else {
        "❌ Environment variable validation failed:\n\n"@ + issues_text(r.issues@) + fix_advice(r.env_file_path@)
    }
}

/// `[String]::join(", ")`.
pub fn join_with_comma(v: &Vec<String>) -> (r: String)
    ensures
        r@ == join_comma(string_views(v@)),
{
    let mut r = String::new();
    let mut i: usize = 0;
    while i < v.len()
        invariant
            i <= v@.len(),
            r@ == join_comma(string_views(v@).subrange(0, i as int)),
        decreases v@.len() - i,
    {
        let ghost next = string_views(v@).subrange(0, i + 1);
        proof {
            assert(next.drop_last() =~= string_views(v@).subrange(0, i as int));
            assert(next.last() == v@[i as int]@);
        }
        if i > 0 {
            r.append(", ");
        }
        r.append(v[i].as_str());
        proof {
            if i == 0 {
                assert(r@ =~= next[0]);
            }
        }
        i = i + 1;
    }
    assert(string_views(v@).subrange(0, v@.len() as int) =~= string_views(v@));
    r
}

impl ValidationReport {
    /// The validation passed: no issues.
    pub fn is_valid(&self) -> (r: bool)
        ensures
            r == (self.issues@.len() == 0),
    {
        self.issues.len() == 0
    }

    /// A human-readable explanation of the issues and how to fix them;
    /// empty when the validation passed.
    pub fn error_message(&self) -> (r: String)
        ensures
            r@ == report_message(*self),
    {
        if self.is_valid() {
            return String::new();
        }
        let mut msg = String::from_str("❌ Environment variable validation failed:\n\n");
        let ghost head = msg@;
        let mut i: usize = 0;
        while i < self.issues.len()
            invariant
                i <= self.issues@.len(),
                head == "❌ Environment variable validation failed:\n\n"@,
                msg@ == head + issues_text(self.issues@.subrange(0, i as int)),
            decreases self.issues@.len() - i,
        {
            let ghost next = self.issues@.subrange(0, i + 1);
            proof {
                assert(next.drop_last() =~= self.issues@.subrange(0, i as int));
            }
            let issue = &self.issues[i];
            let ghost m0 = msg@;
            msg.append("  • ");
            msg.append(issue.var_name.as_str());
            msg.append(" ");
            match issue.issue_type {
                IssueType::Missing => msg.append("is not set"),
                IssueType::Empty => msg.append("is empty"),
            }
            msg.append("\n");
            if issue.found_in.len() > 0 {
                msg.append("    Required by: ");
                let j = join_with_comma(&issue.found_in);
                msg.append(j.as_str());
                msg.append("\n");
            }
            assert(msg@ =~= m0 + issue_text(*issue));
            i = i + 1;
        }
        assert(self.issues@.subrange(0, self.issues@.len() as int) =~= self.issues@);
        msg.append("\n📝 Please update your .env file at: ");
        msg.append(self.env_file_path.as_str());
        msg.append("\n");
        msg.append("\n🔧 To fix this issue:\n");
        msg.append("  1. SSH to your VPS or update .env file remotely\n");
        msg.append("  2. Add the missing variables to your .env file\n");
        msg.append("  3. For sensitive values, use: shipwright secrets set <VAR_NAME>\n");
        msg.append("  4. Check .env.example for reference values\n");
        msg.append("\n🔄 After fixing:\n");
        msg.append("  • Run 'shipwright retry' to retry this deployment\n");
        msg.append("  • No need to push new code - retry uses existing code\n");
        assert(msg@ =~= report_message(*self));
        msg
    }
}

// ---------------------------------------------------------------------------
// The .env file
// ---------------------------------------------------------------------------

/// A `KEY=VALUE` line of a `.env` file as a pair (key and value trimmed,
/// then the value without surrounding double and single quotes); comments,
/// empty lines and lines without `=` set nothing.
pub open spec fn env_entry(line: Seq<char>) -> Option<(Seq<char>, Seq<char>)> {
    let l = trim(line);
    if l.len() == 0 || l[0] == '#' {
        None
    } else {
        match first_index_of(l, '=') {
            Some(i) => Some(
                (
                    trim(l.subrange(0, i)),
                    trim_both(trim_both(trim(l.subrange(i + 1, l.len() as int)), Some('"')), Some('\'')),
                ),
            ),
            None => None,
        }
    }
}

/// A key as written in a `.env` file: not empty, not a comment, without
/// `=` and without surrounding whitespace.
pub open spec fn plain_key(k: Seq<char>) -> bool {
    &&& k.len() > 0
    &&& k[0] != '#'
    &&& !crate::text::is_ws(k[0])
    &&& !crate::text::is_ws(k.last())
    &&& forall|j: int| 0 <= j < k.len() ==> k[j] != '='
}

/// A text without quote characters.
pub open spec fn unquoted(v: Seq<char>) -> bool {
    forall|j: int| 0 <= j < v.len() ==> v[j] != '\'' && v[j] != '"'
}

proof fn lemma_trim_keeps(s: Seq<char>, q: Option<char>)
    requires
        s.len() > 0,
        !crate::text::trims(s[0], q),
        !crate::text::trims(s.last(), q),
    ensures
        trim_both(s, q) == s,
{
    assert(crate::text::trim_start(s, q) == s);
    assert(crate::text::trim_end(s, q) == s);
}

proof fn lemma_strip_single_quotes(v: Seq<char>)
    requires
        unquoted(v),
    ensures
        trim_both(seq!['\''] + v + seq!['\''], Some('\'')) == v,
{
    let q = Some('\'');
    let w = seq!['\''] + v + seq!['\''];
    assert(w.drop_first() =~= v + seq!['\'']);
    if v.len() > 0 {
        assert((v + seq!['\''])[0] == v[0]);
        assert(crate::text::trim_start(v + seq!['\''], q) == v + seq!['\'']);
        assert(crate::text::trim_start(w, q) == v + seq!['\'']);
        assert((v + seq!['\'']).drop_last() =~= v);
        assert(crate::text::trim_end(v, q) == v);
        assert(crate::text::trim_end(v + seq!['\''], q) == v);
    } else {
        assert(v + seq!['\''] =~= seq!['\'']);
        assert(seq!['\''].drop_first() =~= Seq::<char>::empty());
        assert(crate::text::trim_start(Seq::<char>::empty(), q) == Seq::<char>::empty());
        assert(crate::text::trim_start(seq!['\''], q) == Seq::<char>::empty());
        assert(crate::text::trim_start(w, q) == Seq::<char>::empty());
        assert(crate::text::trim_end(Seq::<char>::empty(), q) == Seq::<char>::empty());
        assert(v =~= Seq::<char>::empty());
    }
}

/// A line `KEY='value'` sets the key to the value without its quotes (so
/// `KEY=''` sets it to the empty text).
pub proof fn lemma_single_quoted_value(k: Seq<char>, v: Seq<char>)
    requires
        plain_key(k),
        unquoted(v),
    ensures
        env_entry(k + seq!['=', '\''] + v + seq!['\'']) == Some((k, v)),
        env_map(seq![k + seq!['=', '\''] + v + seq!['\'']]) == Map::<Seq<char>, Seq<char>>::empty().insert(k, v),
{
    let line = k + seq!['=', '\''] + v + seq!['\''];
    let n = k.len() as int;
    assert(line[0] == k[0]);
    assert(line.last() == '\'');
    lemma_trim_keeps(line, None);
    assert(trim(line) == line);
    assert(line[n] == '=');
    assert forall|j: int| 0 <= j < n implies line[j] != '=' by {
        assert(line[j] == k[j]);
    }
    let i = first_index_of(line, '=');
    assert(i is Some);
    let w = i->0;
    assert(w == n) by {
        if w < n {
            assert(line[w] == k[w]);
        } else if w > n {
            assert(line[n] == '=');
        }
    }
    assert(line.subrange(0, n) =~= k);
    lemma_trim_keeps(k, None);
    let rest = line.subrange(n + 1, line.len() as int);
    assert(rest =~= seq!['\''] + v + seq!['\'']);
    lemma_trim_keeps(rest, None);
    lemma_trim_keeps(rest, Some('"'));
    lemma_strip_single_quotes(v);
    assert(env_entry(line) == Some((k, v)));
    let ls = seq![line];
    assert(ls.last() == line);
    assert(ls.drop_last() =~= Seq::<Seq<char>>::empty());
    assert(env_map(ls.drop_last()) == Map::<Seq<char>, Seq<char>>::empty());
}

/// The variables a `.env` file's lines set; a later line for a key
/// overrides an earlier one.
pub open spec fn env_map(ls: Seq<Seq<char>>) -> Map<Seq<char>, Seq<char>>
    decreases ls.len(),
{
    if ls.len() == 0 {
        Map::empty()
    } else {
        match env_entry(ls.last()) {
            Some(e) => env_map(ls.drop_last()).insert(e.0, e.1),
            None => env_map(ls.drop_last()),
        }
    }
}

/// The map held by a list of pairs.
pub open spec fn pairs_map(v: Seq<(String, String)>) -> Map<Seq<char>, Seq<char>>
    decreases v.len(),
{
    if v.len() == 0 {
        Map::empty()
    } else {
        pairs_map(v.drop_last()).insert(v.last().0@, v.last().1@)
    }
}

/// No key occurs twice.
pub open spec fn keys_unique(v: Seq<(String, String)>) -> bool {
    forall|i: int, j: int| 0 <= i < j < v.len() ==> v[i].0@ != v[j].0@
}

proof fn lemma_pairs_map_find(v: Seq<(String, String)>, k: int)
    requires
        keys_unique(v),
        0 <= k < v.len(),
    ensures
        pairs_map(v).contains_key(v[k].0@),
        pairs_map(v)[v[k].0@] == v[k].1@,
    decreases v.len(),
{
    if k < v.len() - 1 {
        lemma_pairs_map_find(v.drop_last(), k);
    }
}

proof fn lemma_pairs_map_absent(v: Seq<(String, String)>, key: Seq<char>)
    requires
        forall|j: int| 0 <= j < v.len() ==> v[j].0@ != key,
    ensures
        !pairs_map(v).contains_key(key),
    decreases v.len(),
{
    if v.len() > 0 {
        lemma_pairs_map_absent(v.drop_last(), key);
    }
}

proof fn lemma_pairs_map_update(v: Seq<(String, String)>, k: int, val: String)
    requires
        keys_unique(v),
        0 <= k < v.len(),
    ensures
        pairs_map(v.update(k, (v[k].0, val))) == pairs_map(v).insert(v[k].0@, val@),
    decreases v.len(),
{
    let w = v.update(k, (v[k].0, val));
    if k == v.len() - 1 {
        assert(w.drop_last() =~= v.drop_last());
        lemma_pairs_map_absent(v.drop_last(), v[k].0@);
        assert(pairs_map(w) =~= pairs_map(v).insert(v[k].0@, val@));
    } else {
        lemma_pairs_map_update(v.drop_last(), k, val);
        assert(w.drop_last() =~= v.drop_last().update(k, (v[k].0, val)));
        assert(pairs_map(w) =~= pairs_map(v).insert(v[k].0@, val@));
    }
}

fn position_of_key(v: &Vec<(String, String)>, key: &str) -> (r: Option<usize>)
    ensures
        r matches Some(i) ==> i < v@.len() && v@[i as int].0@ == key@,
        r is None ==> forall|j: int| 0 <= j < v@.len() ==> v@[j].0@ != key@,
{
    let mut i: usize = 0;
    while i < v.len()
        invariant
            i <= v@.len(),
            forall|j: int| 0 <= j < i ==> v@[j].0@ != key@,
        decreases v@.len() - i,
    {
        if str_eq(v[i].0.as_str(), key) {
            return Some(i);
        }
        i = i + 1;
    }
    None
}

/// Sets a variable: its value is replaced in place when it is set, else it
/// is added at the end.
pub fn set_pair(v: &mut Vec<(String, String)>, key: String, value: String)
    requires
        keys_unique(old(v)@),
    ensures
        keys_unique(final(v)@),
        pairs_map(final(v)@) == pairs_map(old(v)@).insert(key@, value@),
        (exists|i: int| 0 <= i < old(v)@.len() && old(v)@[i].0@ == key@) ==> final(v)@.len() == old(v)@.len(),
        (forall|i: int| 0 <= i < old(v)@.len() ==> old(v)@[i].0@ != key@) ==> final(v)@ == old(v)@.push((key, value)),
{
    match position_of_key(v, key.as_str()) {
        Some(i) => {
            let ghost v0 = v@;
            let k = v[i].0.clone();
            v.set(i, (k, value));
            proof {
                assert(v@ == v0.update(i as int, (v0[i as int].0, value)));
                lemma_pairs_map_update(v0, i as int, value);
                assert forall|a: int, b: int| 0 <= a < b < v@.len() implies v@[a].0@ != v@[b].0@ by {
                    assert(v@[a].0@ == v0[a].0@);
                    assert(v@[b].0@ == v0[b].0@);
                }
            }
        },
        None => {
            let ghost v0 = v@;
            v.push((key, value));
            proof {
                assert(v@.drop_last() =~= v0);
            }
        },
    }
}

fn entry_of_line(line: &Vec<char>) -> (r: Option<(String, String)>)
    ensures
        (match env_entry(line@) {
            Some(e) => r matches Some(p) && p.0@ == e.0 && p.1@ == e.1,
            None => r is None,
        }),
{
    let l = trim_chars(line, None);
    if l.len() == 0 || l[0] == '#' {
        return None;
    }
    match find_char(&l, '=') {
        Some(eq) => {
            let k = trim_chars(&slice_chars(&l, 0, eq), None);
            let v1 = trim_chars(&slice_chars(&l, eq + 1, l.len()), None);
            let v2 = trim_chars(&v1, Some('"'));
            let v3 = trim_chars(&v2, Some('\''));
            Some((string_of(&k), string_of(&v3)))
        },
        None => None,
    }
}

/// The variables set by the content of a `.env` file, each once (a later
/// line for a key overrides an earlier one).
pub fn read_env_file(content: &str) -> (r: Vec<(String, String)>)
    ensures
        keys_unique(r@),
        pairs_map(r@) == env_map(lines(content@)),
{
    let ls = split_lines(&chars_of(content));
    let mut r: Vec<(String, String)> = Vec::new();
    let mut i: usize = 0;
    while i < ls.len()
        invariant
            views(ls@) == lines(content@),
            i <= ls@.len(),
            keys_unique(r@),
            pairs_map(r@) == env_map(views(ls@).subrange(0, i as int)),
        decreases ls@.len() - i,
    {
        let ghost next = views(ls@).subrange(0, i + 1);
        proof {
            assert(next.drop_last() =~= views(ls@).subrange(0, i as int));
            assert(next.last() == ls@[i as int]@);
        }
        match entry_of_line(&ls[i]) {
            Some((k, v)) => set_pair(&mut r, k, v),
            None => {},
        }
        i = i + 1;
    }
    assert(views(ls@).subrange(0, ls@.len() as int) =~= views(ls@));
    r
}

/// The value of a variable, if set.
pub fn env_get<'a>(vars: &'a Vec<(String, String)>, key: &str) -> (r: Option<&'a String>)
    requires
        keys_unique(vars@),
    ensures
        pairs_map(vars@).contains_key(key@) ==> (r matches Some(v) && v@ == pairs_map(vars@)[key@]),
        !pairs_map(vars@).contains_key(key@) ==> r is None,
{
    match position_of_key(vars, key) {
        Some(i) => {
            proof {
                lemma_pairs_map_find(vars@, i as int);
            }
            Some(&vars[i].1)
        },
        None => {
            proof {
                lemma_pairs_map_absent(vars@, key@);
            }
            None
        },
    }
}


// ---------------------------------------------------------------------------
// Variables a compose file refers to
// ---------------------------------------------------------------------------

/// A compose file's `services` mapping as the serde_yaml crate reads it:
/// `None` when the text is not YAML, `Some(None)` when it has no `services`
/// mapping, else each service's key (when it is a string) and its
/// configuration written back as YAML (when that succeeds), in order.
pub uninterp spec fn compose_services(content: Seq<char>) -> Option<
    Option<Seq<(Option<Seq<char>>, Option<Seq<char>>)>>,
>;

/// The variable names the pattern
/// `\$\{([A-Z_][A-Z0-9_]*)\}|\$([A-Z_][A-Z0-9_]*)` of the regex crate finds
/// in a text, in order (the first group, else the second, else empty).
pub uninterp spec fn variable_references(text: Seq<char>) -> Seq<Seq<char>>;

/// Services as plain values.
pub open spec fn service_entries(v: Seq<(Option<String>, Option<String>)>) -> Seq<
    (Option<Seq<char>>, Option<Seq<char>>),
> {
    v.map_values(
        |p: (Option<String>, Option<String>)|
            (
                match p.0 {
                    Some(s) => Some(s@),
                    None => None,
                },
                match p.1 {
                    Some(s) => Some(s@),
                    None => None,
                },
            ),
    )
}

/// Reads a compose file with serde_yaml (`from_str` into a `Value`, then
/// `get("services")`, `as_mapping`, and for each entry `as_str` of the key
/// and `to_string` of the value).  The contract names the result.
#[verifier::external_body]
pub(crate) fn read_compose_services(content: &str) -> (r: Option<Option<Vec<(Option<String>, Option<String>)>>>)
    ensures
        compose_services(content@) == (match r {
            None => None,
            Some(None) => Some(None),
            Some(Some(v)) => Some(Some(service_entries(v@))),
        }),
{
    let yaml: serde_yaml::Value = match serde_yaml::from_str(content) {
        Ok(v) => v,
        Err(_) => return None,
    };
    let services = match yaml.get("services").and_then(|s| s.as_mapping()) {
        Some(m) => m,
        None => return Some(None),
    };
    Some(Some(services.iter().map(|(k, v)| (k.as_str().map(|n| n.to_string()), serde_yaml::to_string(v).ok())).collect()))
}

/// Runs the pattern `\$\{([A-Z_][A-Z0-9_]*)\}|\$([A-Z_][A-Z0-9_]*)` (regex
/// crate, `captures_iter`) on a text and returns, for each match, its first
/// group, else its second, else an empty string.  The contract names the
/// result.
#[verifier::external_body]
fn find_variable_references(text: &str) -> (r: Vec<String>)
    ensures
        string_views(r@) == variable_references(text@),
{
    let re = match regex::Regex::new(r"\$\{([A-Z_][A-Z0-9_]*)\}|\$([A-Z_][A-Z0-9_]*)") {
        Ok(re) => re,
        Err(_) => return Vec::new(),
    };
    re.captures_iter(text).map(|c| c.get(1).or_else(|| c.get(2)).map(|m| m.as_str().to_string()).unwrap_or_default()).collect()
}

/// Variable usage: each variable with the services that refer to it.
pub type Usage = Seq<(Seq<char>, Seq<Seq<char>>)>;

/// Variable usage as plain values.
pub open spec fn usage_view(v: Seq<(String, Vec<String>)>) -> Usage {
    v.map_values(|p: (String, Vec<String>)| (p.0@, string_views(p.1@)))
}

/// No variable occurs twice.
pub open spec fn usage_unique(u: Usage) -> bool {
    forall|i: int, j: int| 0 <= i < j < u.len() ==> u[i].0 != u[j].0
}

/// The position of a variable in the usage.
pub open spec fn usage_position(u: Usage, var: Seq<char>) -> Option<int> {
    if exists|i: int| 0 <= i < u.len() && u[i].0 == var {
        Some(choose|i: int| 0 <= i < u.len() && u[i].0 == var)
    } else {
        None
    }
}

/// The usage after `service` is found referring to `var`.
pub open spec fn usage_add(u: Usage, var: Seq<char>, service: Seq<char>) -> Usage {
    match usage_position(u, var) {
        Some(i) => u.update(i, (var, u[i].1.push(service))),
        None => u.push((var, seq![service])),
    }
}

/// The usage after a service's references (empty names are skipped).
pub open spec fn add_references(u: Usage, refs: Seq<Seq<char>>, service: Seq<char>) -> Usage
    decreases refs.len(),
{
    if refs.len() == 0 {
        u
    } else {
        let u1 = add_references(u, refs.drop_last(), service);
        if refs.last().len() > 0 {
            usage_add(u1, refs.last(), service)
        } else {
            u1
        }
    }
}

/// The name of a service (`unknown` when its key is no string).
pub open spec fn service_name_of(e: (Option<Seq<char>>, Option<Seq<char>>)) -> Seq<char> {
    match e.0 {
        Some(n) => n,
        None => "unknown"@,
    }
}

/// The YAML of a service's configuration (empty when it could not be
/// written).
pub open spec fn service_text_of(e: (Option<Seq<char>>, Option<Seq<char>>)) -> Seq<char> {
    match e.1 {
        Some(t) => t,
        None => Seq::empty(),
    }
}

/// The usage after the references of each service, in order.
pub open spec fn add_services(u: Usage, ss: Seq<(Option<Seq<char>>, Option<Seq<char>>)>) -> Usage
    decreases ss.len(),
{
    if ss.len() == 0 {
        u
    } else {
        add_references(
            add_services(u, ss.drop_last()),
            variable_references(service_text_of(ss.last())),
            service_name_of(ss.last()),
        )
    }
}

/// The usage after the references of the whole file: variables not seen
/// in a service are attributed to `docker-compose.yml`.
pub open spec fn add_file_references(u: Usage, refs: Seq<Seq<char>>) -> Usage
    decreases refs.len(),
{
    if refs.len() == 0 {
        u
    } else {
        let u1 = add_file_references(u, refs.drop_last());
        if refs.last().len() > 0 && usage_position(u1, refs.last()) is None {
            u1.push((refs.last(), seq!["docker-compose.yml"@]))
        } else {
            u1
        }
    }
}

/// The variables a compose file refers to, each with the services that
/// refer to it, or why the file could not be read.
pub open spec fn compose_usage(content: Seq<char>) -> Result<Usage, ComposeError> {
    match compose_services(content) {
        None => Err(ComposeError::InvalidYaml),
        Some(None) => Err(ComposeError::NoServices),
        Some(Some(ss)) => Ok(add_file_references(add_services(Seq::empty(), ss), variable_references(content))),
    }
}

fn usage_find(u: &Vec<(String, Vec<String>)>, var: &str) -> (r: Option<usize>)
    requires
        usage_unique(usage_view(u@)),
    ensures
        (match r {
            Some(i) => usage_position(usage_view(u@), var@) == Some(i as int),
            None => usage_position(usage_view(u@), var@) is None,
        }),
{
    let ghost uv = usage_view(u@);
    let mut i: usize = 0;
    while i < u.len()
        invariant
            uv == usage_view(u@),
            usage_unique(uv),
            i <= u@.len(),
            forall|j: int| 0 <= j < i ==> uv[j].0 != var@,
        decreases u@.len() - i,
    {
        if str_eq(u[i].0.as_str(), var) {
            proof {
                assert(uv[i as int].0 == var@);
                let w = choose|k: int| 0 <= k < uv.len() && uv[k].0 == var@;
                if w != i {
                    assert(uv[w].0 == uv[i as int].0);
                }
            }
            return Some(i);
        }
        i = i + 1;
    }
    None
}

fn copy_strings(v: &Vec<String>) -> (r: Vec<String>)
    ensures
        string_views(r@) == string_views(v@),
{
    let mut r: Vec<String> = Vec::new();
    let mut i: usize = 0;
    while i < v.len()
        invariant
            i <= v@.len(),
            string_views(r@) == string_views(v@).subrange(0, i as int),
        decreases v@.len() - i,
    {
        push_string(&mut r, v[i].clone());
        assert(string_views(r@) =~= string_views(v@).subrange(0, i + 1));
        i = i + 1;
    }
    assert(string_views(v@).subrange(0, v@.len() as int) =~= string_views(v@));
    r
}

fn add_usage(u: &mut Vec<(String, Vec<String>)>, var: &str, service: &str)
    requires
        usage_unique(usage_view(old(u)@)),
    ensures
        usage_unique(usage_view(final(u)@)),
        usage_view(final(u)@) == usage_add(usage_view(old(u)@), var@, service@),
{
    let ghost u0 = usage_view(u@);
    match usage_find(u, var) {
        Some(i) => {
            let (k, mut list) = u.remove(i);
            push_str(&mut list, service);
            u.insert(i, (k, list));
            proof {
                assert(usage_view(u@) =~= u0.update(i as int, (var@, u0[i as int].1.push(service@))));
            }
        },
        None => {
            let mut list: Vec<String> = Vec::new();
            assert(string_views(list@) =~= Seq::<Seq<char>>::empty());
            push_str(&mut list, service);
            assert(string_views(list@) =~= seq![service@]);
            let ghost uu = u@;
            let key = String::from_str(var);
            let ghost pair_view = (key@, string_views(list@));
            u.push((key, list));
            proof {
                assert(usage_view(u@) =~= usage_view(uu).push(pair_view));
                assert(usage_view(u@) =~= u0.push((var@, seq![service@])));
                assert(forall|j: int| 0 <= j < u0.len() ==> u0[j].0 != var@);
            }
        },
    }
}

fn add_references_exec(u: &mut Vec<(String, Vec<String>)>, refs: &Vec<String>, service: &str)
    requires
        usage_unique(usage_view(old(u)@)),
    ensures
        usage_unique(usage_view(final(u)@)),
        usage_view(final(u)@) == add_references(usage_view(old(u)@), string_views(refs@), service@),
{
    let ghost u0 = usage_view(u@);
    let mut i: usize = 0;
    while i < refs.len()
        invariant
            i <= refs@.len(),
            usage_unique(usage_view(u@)),
            usage_view(u@) == add_references(u0, string_views(refs@).subrange(0, i as int), service@),
        decreases refs@.len() - i,
    {
        let ghost next = string_views(refs@).subrange(0, i + 1);
        proof {
            assert(next.drop_last() =~= string_views(refs@).subrange(0, i as int));
            assert(next.last() == refs@[i as int]@);
        }
        if refs[i].as_str().unicode_len() > 0 {
            add_usage(u, refs[i].as_str(), service);
        }
        i = i + 1;
    }
    assert(string_views(refs@).subrange(0, refs@.len() as int) =~= string_views(refs@));
}

/// The variables a compose file refers to (`${NAME}` or `$NAME`), each once
/// with the services that refer to it, in order of first reference;
/// variables referred to only outside the services are attributed to
/// `docker-compose.yml`.
pub fn extract_env_vars_from_compose(content: &str) -> (r: Result<Vec<(String, Vec<String>)>, ComposeError>)
    ensures
        (match (r, compose_usage(content@)) {
            (Ok(v), Ok(u)) => usage_view(v@) == u && usage_unique(u),
            (Err(e), Err(f)) => e == f,
            _ => false,
        }),
{
    let services = match read_compose_services(content) {
        None => return Err(ComposeError::InvalidYaml),
        Some(None) => return Err(ComposeError::NoServices),
        Some(Some(v)) => v,
    };
    let ghost ss = service_entries(services@);
    let mut usage: Vec<(String, Vec<String>)> = Vec::new();
    let mut i: usize = 0;
    assert(usage_view(usage@) =~= Seq::<(Seq<char>, Seq<Seq<char>>)>::empty());
    assert(ss.subrange(0, 0) =~= Seq::<(Option<Seq<char>>, Option<Seq<char>>)>::empty());
    while i < services.len()
        invariant
            ss == service_entries(services@),
            i <= services@.len(),
            usage_unique(usage_view(usage@)),
            usage_view(usage@) == add_services(Seq::empty(), ss.subrange(0, i as int)),
        decreases services@.len() - i,
    {
        let ghost next = ss.subrange(0, i + 1);
        proof {
            assert(next.drop_last() =~= ss.subrange(0, i as int));
            assert(next.last() == ss[i as int]);
        }
        let name = match &services[i].0 {
            Some(n) => n.clone(),
            None => String::from_str("unknown"),
        };
        let text = match &services[i].1 {
            Some(t) => t.clone(),
            None => String::new(),
        };
        let refs = find_variable_references(text.as_str());
        add_references_exec(&mut usage, &refs, name.as_str());
        i = i + 1;
    }
    assert(ss.subrange(0, ss.len() as int) =~= ss);
    let ghost after_services = usage_view(usage@);
    let file_refs = find_variable_references(content);
    let mut j: usize = 0;
    while j < file_refs.len()
        invariant
            j <= file_refs@.len(),
            usage_unique(usage_view(usage@)),
            usage_view(usage@) == add_file_references(after_services, string_views(file_refs@).subrange(0, j as int)),
        decreases file_refs@.len() - j,
    {
        let ghost next = string_views(file_refs@).subrange(0, j + 1);
        proof {
            assert(next.drop_last() =~= string_views(file_refs@).subrange(0, j as int));
            assert(next.last() == file_refs@[j as int]@);
        }
        if file_refs[j].as_str().unicode_len() > 0 {
            match usage_find(&usage, file_refs[j].as_str()) {
                Some(_) => {},
                None => {
                    let ghost u0 = usage_view(usage@);
                    let mut list: Vec<String> = Vec::new();
                    assert(string_views(list@) =~= Seq::<Seq<char>>::empty());
                    push_str(&mut list, "docker-compose.yml");
                    assert(string_views(list@) =~= seq!["docker-compose.yml"@]);
                    let ghost uu = usage@;
                    let key = file_refs[j].clone();
                    let ghost pair_view = (key@, string_views(list@));
                    usage.push((key, list));
                    proof {
                        assert(usage_view(usage@) =~= usage_view(uu).push(pair_view));
                        assert(usage_view(usage@) =~= u0.push((file_refs@[j as int]@, seq!["docker-compose.yml"@])));
                        assert(forall|k: int| 0 <= k < u0.len() ==> u0[k].0 != file_refs@[j as int]@);
                    }
                },
            }
        }
        j = j + 1;
    }
    assert(string_views(file_refs@).subrange(0, file_refs@.len() as int) =~= string_views(file_refs@));
    Ok(usage)
}

// ---------------------------------------------------------------------------
// Validation
// ---------------------------------------------------------------------------

/// The issue of a required variable, if any: not set, or set to the empty
/// text.
pub open spec fn issue_of_var(var: Seq<char>, env: Map<Seq<char>, Seq<char>>) -> Option<IssueType> {
    if !env.contains_key(var) {
        Some(IssueType::Missing)
    } else if env[var].len() == 0 {
        Some(IssueType::Empty)
    } else {
        None
    }
}

/// The issues of the required variables, in order, each with the services
/// that need the variable.
pub open spec fn issues_of(required: Usage, env: Map<Seq<char>, Seq<char>>) -> Seq<
    (Seq<char>, IssueType, Seq<Seq<char>>),
>
    decreases required.len(),
{
    if required.len() == 0 {
        Seq::empty()
    } else {
        let rest = issues_of(required.drop_last(), env);
        let (var, found_in) = required.last();
        match issue_of_var(var, env) {
            Some(t) => rest.push((var, t, found_in)),
            None => rest,
        }
    }
}

/// Issues as plain values.
pub open spec fn issue_views(v: Seq<EnvVarIssue>) -> Seq<(Seq<char>, IssueType, Seq<Seq<char>>)> {
    v.map_values(|i: EnvVarIssue| (i.var_name@, i.issue_type, string_views(i.found_in@)))
}

/// The report on the required variables (`required`, as
/// `extract_env_vars_from_compose` gives them) against the variables set in
/// the `.env` file (`env`, as `read_env_file` gives them): one issue per
/// variable that is not set or empty, in order.
pub fn validate_env_vars(
    required: &Vec<(String, Vec<String>)>,
    env: &Vec<(String, String)>,
    env_file_path: String,
) -> (r: ValidationReport)
    requires
        usage_unique(usage_view(required@)),
        keys_unique(env@),
    ensures
        issue_views(r.issues@) == issues_of(usage_view(required@), pairs_map(env@)),
        r.total_vars_checked == required@.len(),
        r.env_file_path == env_file_path,
{
    let ghost req = usage_view(required@);
    let mut issues: Vec<EnvVarIssue> = Vec::new();
    let mut i: usize = 0;
    while i < required.len()
        invariant
            req == usage_view(required@),
            keys_unique(env@),
            i <= required@.len(),
            issue_views(issues@) == issues_of(req.subrange(0, i as int), pairs_map(env@)),
        decreases required@.len() - i,
    {
        let ghost next = req.subrange(0, i + 1);
        proof {
            assert(next.drop_last() =~= req.subrange(0, i as int));
            assert(next.last() == req[i as int]);
        }
        let (var, found_in) = (&required[i].0, &required[i].1);
        let t = match env_get(env, var.as_str()) {
            None => Some(IssueType::Missing),
            Some(v) => if v.as_str().unicode_len() == 0 {
                Some(IssueType::Empty)
            } else {
                None
            },
        };
        match t {
            Some(t) => {
                let ghost i0 = issues@;
                let issue = EnvVarIssue { var_name: var.clone(), issue_type: t, found_in: copy_strings(found_in) };
                issues.push(issue);
                assert(issue_views(issues@) =~= issue_views(i0).push(
                    (issue.var_name@, issue.issue_type, string_views(issue.found_in@)),
                ));
            },
            None => {},
        }
        i = i + 1;
    }
    assert(req.subrange(0, req.len() as int) =~= req);
    ValidationReport { issues, total_vars_checked: required.len(), env_file_path }
}

} // verus!
