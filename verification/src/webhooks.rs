//! The agent's HTTP endpoints: GitHub push webhooks (signature, branch,
//! trigger), self-update, project registration, health, and the deployment
//! retry and status API.  Statuses are HTTP status codes.
use vstd::prelude::*;
use vstd::string::*;
use vstd::utf8::*;
use hmac::Mac;
use crate::deployment_tracking::{
    DeploymentAttempt, DeploymentStatus, DeploymentTracker, attempt_position, latest_named, spec_retry_attempt,
    status_debug_name, status_name,
};
use crate::crypto::generate_agent_id;
use crate::secrets::now_timestamp;
use crate::text::{chars_of, decimal, decimal_int, push_decimal, push_int, slice_chars, starts_with, starts_with_chars,
    str_eq, string_of};

verus! {

// ---------------------------------------------------------------------------
// GitHub signatures
// ---------------------------------------------------------------------------

/// HMAC-SHA256 of `msg` under `key`.
pub uninterp spec fn hmac_sha256_tag(key: Seq<u8>, msg: Seq<u8>) -> Seq<u8>;

/// `Hmac::<Sha256>::new_from_slice(key)`, `update(msg)`, `finalize()`: the
/// named tag, 32 bytes long.  As the hmac source shows, `new_from_slice`
/// accepts keys of every length.
#[verifier::external_body]
fn hmac_sha256(key: &[u8], msg: &[u8]) -> (r: Vec<u8>)
    ensures
        r@ == hmac_sha256_tag(key@, msg@),
        r@.len() == 32,
{
    let mut mac = match hmac::Hmac::<sha2::Sha256>::new_from_slice(key) {
        Ok(m) => m,
        Err(_) => return Vec::new(),
    };
    mac.update(msg);
    mac.finalize().into_bytes().to_vec()
}

/// The lowercase hexadecimal digit of `d < 16`.
pub open spec fn hex_digit(d: u8) -> char {
    if d < 10 {
        (('0' as u8) + d) as char
    } else {
        (('a' as u8) + d - 10) as char
    }
}

/// Bytes in lowercase hexadecimal, two digits each, high nibble first.
pub open spec fn lower_hex(b: Seq<u8>) -> Seq<char>
    decreases b.len(),
{
    if b.len() == 0 {
        Seq::empty()
    } else {
        lower_hex(b.drop_last()) + seq![hex_digit(b.last() / 16), hex_digit(b.last() % 16)]
    }
}

/// `hex::encode`: the bytes in lowercase hexadecimal.
#[verifier::external_body]
fn hex_encode(bytes: &[u8]) -> (r: String)
    ensures
        r@ == lower_hex(bytes@),
{
    hex::encode(bytes)
}

/// A signature header is valid for a body: it is `sha256=` followed by the
/// lowercase hex HMAC-SHA256 of the body under the webhook secret.
pub open spec fn signature_valid(secret: Seq<char>, header: Seq<char>, body: Seq<u8>) -> bool {
    starts_with(header, "sha256="@) && header.subrange(7, header.len() as int) == lower_hex(
        hmac_sha256_tag(encode_utf8(secret), body),
    )
}

/// Whether a GitHub `X-Hub-Signature-256` header authenticates a body.
pub fn verify_github_signature(secret: &str, signature_header: &str, body: &[u8]) -> (r: bool)
    ensures
        r == signature_valid(secret@, signature_header@, body@),
{
    proof {
        reveal_strlit("sha256=");
    }
    let h = chars_of(signature_header);
    if !starts_with_chars(&h, &chars_of("sha256=")) {
        return false;
    }
    let received = slice_chars(&h, 7, h.len());
    let tag = hmac_sha256(secret.as_bytes(), body);
    let expected = hex_encode(tag.as_slice());
    same_signature(&chars_of(expected.as_str()), &received)
}

/// Equality of two signatures that, when their lengths agree, compares
/// every character (it does not stop at the first difference).
fn same_signature(a: &Vec<char>, b: &Vec<char>) -> (r: bool)
    ensures
        r == (a@ == b@),
{
    if a.len() != b.len() {
        return false;
    }
    let mut same = true;
    let mut i: usize = 0;
    while i < a.len()
        invariant
            i <= a@.len(),
            a@.len() == b@.len(),
            same == (forall|j: int| 0 <= j < i ==> a@[j] == b@[j]),
        decreases a@.len() - i,
    {
        let here = a[i] == b[i];
        same = same && here;
        i = i + 1;
    }
    proof {
        if same {
            assert(a@ =~= b@);
        }
    }
    same
}

// ---------------------------------------------------------------------------
// Push webhooks
// ---------------------------------------------------------------------------

/// The repository of a push.
#[derive(Debug)]
pub struct Repository {
    pub name: String,
    pub full_name: String,
    pub clone_url: String,
}

/// The head commit of a push.
#[derive(Debug)]
pub struct Commit {
    pub id: String,
    pub message: String,
}

/// A GitHub push event.
#[derive(Debug)]
pub struct GitHubPushEvent {
    /// The pushed ref (`ref` in the payload).
    pub reference: String,
    pub repository: Repository,
    pub head_commit: Option<Commit>,
}

/// A project registration request.
#[derive(Debug)]
pub struct ProjectRegistration {
    pub name: String,
    pub repo_url: String,
    pub webhook_secret: String,
    pub deploy_branch: Option<String>,
}

/// The branch a ref names (`refs/heads/<branch>`), or the ref itself.
pub open spec fn branch_of(reference: Seq<char>) -> Seq<char> {
    if starts_with(reference, "refs/heads/"@) {
        reference.subrange("refs/heads/"@.len() as int, reference.len() as int)
    } else {
        reference
    }
}

/// The branch a pushed ref names.
pub fn pushed_branch(reference: &str) -> (r: String)
    ensures
        r@ == branch_of(reference@),
{
    proof {
        reveal_strlit("refs/heads/");
    }
    let v = chars_of(reference);
    if starts_with_chars(&v, &chars_of("refs/heads/")) {
        string_of(&slice_chars(&v, 11, v.len()))
    } else {
        String::from_str(reference)
    }
}

/// An HTTP reply: status code, text, and whether a deployment (or update)
/// is to be started.
#[derive(Debug)]
pub struct WebhookReply {
    pub status: u16,
    pub message: String,
    pub trigger: bool,
}

/// The registered project a push concerns: id, webhook secret and deploy
/// branch.
#[derive(Debug)]
pub struct RegisteredProject {
    pub id: String,
    pub webhook_secret: String,
    pub deploy_branch: String,
}

/// The signature header of a request: absent, not text, or its text.
#[derive(Debug)]
pub enum SignatureHeader {
    Missing,
    Invalid,
    Present(String),
}

/// The reply to a push on a project: 404 for an unregistered project; 401
/// without a signature or with a wrong one; 400 for a header that is not
/// text; 200 ignoring a push to another branch; else 200, starting a
/// deployment when the push has a head commit.
pub open spec fn push_reply(
    project: Option<RegisteredProject>,
    signature: SignatureHeader,
    body: Seq<u8>,
    reference: Seq<char>,
    has_commit: bool,
) -> (u16, Seq<char>, bool) {
    match project {
        None => (404, "Project not registered"@, false),
        Some(p) => match signature {
            SignatureHeader::Missing => (401, "Missing signature header"@, false),
            SignatureHeader::Invalid => (400, "Invalid signature header"@, false),
            SignatureHeader::Present(h) => if !signature_valid(p.webhook_secret@, h@, body) {
                (401, "Signature verification failed"@, false)
            } else if branch_of(reference) != p.deploy_branch@ {
                (200, "Ignoring push to branch '"@ + branch_of(reference) + "'"@, false)
            } else if has_commit {
                (200, "Deployment triggered"@, true)
            } else {
                (200, "No commit to deploy"@, false)
            },
        },
    }
}

/// The reply to a GitHub push (see `push_reply`); `project` is the
/// registered project named like the pushed repository.
pub fn github_webhook_reply(
    project: &Option<RegisteredProject>,
    signature: &SignatureHeader,
    body: &[u8],
    event: &GitHubPushEvent,
) -> (r: WebhookReply)
    ensures
        (r.status, r.message@, r.trigger) == push_reply(
            *project,
            *signature,
            body@,
            event.reference@,
            event.head_commit is Some,
        ),
{
    let p = match project {
        None => return WebhookReply { status: 404, message: String::from_str("Project not registered"), trigger: false },
        Some(p) => p,
    };
    let header = match signature {
        SignatureHeader::Missing => return WebhookReply {
            status: 401,
            message: String::from_str("Missing signature header"),
            trigger: false,
        },
        SignatureHeader::Invalid => return WebhookReply {
            status: 400,
            message: String::from_str("Invalid signature header"),
            trigger: false,
        },
        SignatureHeader::Present(h) => h,
    };
    if !verify_github_signature(p.webhook_secret.as_str(), header.as_str(), body) {
        return WebhookReply { status: 401, message: String::from_str("Signature verification failed"), trigger: false };
    }
    let branch = pushed_branch(event.reference.as_str());
    if !str_eq(branch.as_str(), p.deploy_branch.as_str()) {
        let mut m = String::from_str("Ignoring push to branch '");
        m.append(branch.as_str());
        m.append("'");
        return WebhookReply { status: 200, message: m, trigger: false };
    }
    if event.head_commit.is_some() {
        WebhookReply { status: 200, message: String::from_str("Deployment triggered"), trigger: true }
    } else {
        WebhookReply { status: 200, message: String::from_str("No commit to deploy"), trigger: false }
    }
}

/// The reply to a self-update push: updates follow pushes to `main` only,
/// in Docker or systemd mode.
pub open spec fn self_update_reply(reference: Seq<char>, in_docker: bool) -> (u16, Seq<char>, bool) {
    if branch_of(reference) != "main"@ {
        (200, "Ignoring push to branch '"@ + branch_of(reference) + "'"@, false)
    } else if in_docker {
        (200, "Self-update triggered (Docker mode)"@, true)
    } else {
        (200, "Self-update triggered (systemd mode)"@, true)
    }
}

/// The reply to a push on the agent's own repository; `in_docker` tells
/// whether the agent runs in a container.
pub fn self_update_webhook_reply(event: &GitHubPushEvent, in_docker: bool) -> (r: WebhookReply)
    ensures
        (r.status, r.message@, r.trigger) == self_update_reply(event.reference@, in_docker),
{
    let branch = pushed_branch(event.reference.as_str());
    if !str_eq(branch.as_str(), "main") {
        let mut m = String::from_str("Ignoring push to branch '");
        m.append(branch.as_str());
        m.append("'");
        return WebhookReply { status: 200, message: m, trigger: false };
    }
    if in_docker {
        WebhookReply { status: 200, message: String::from_str("Self-update triggered (Docker mode)"), trigger: true }
    } else {
        WebhookReply { status: 200, message: String::from_str("Self-update triggered (systemd mode)"), trigger: true }
    }
}

/// The branch a registration deploys: the requested one, else `main`.
pub fn registration_branch(registration: &ProjectRegistration) -> (r: String)
    ensures
        r@ == (match registration.deploy_branch {
            Some(b) => b@,
            None => "main"@,
        }),
{
    match &registration.deploy_branch {
        Some(b) => b.clone(),
        None => String::from_str("main"),
    }
}

/// The reply to a registration: 201 once stored, else 500 with the error.
pub fn registration_reply(stored: Result<(), String>) -> (r: WebhookReply)
    ensures
        !r.trigger,
        stored is Ok ==> r.status == 201 && r.message@ == "Project registered successfully"@,
        stored matches Err(e) ==> r.status == 500 && r.message@ == "Failed to register project: "@ + e@,
{
    match stored {
        Ok(()) => WebhookReply { status: 201, message: String::from_str("Project registered successfully"), trigger: false },
        Err(e) => {
            let mut m = String::from_str("Failed to register project: ");
            m.append(e.as_str());
            WebhookReply { status: 500, message: m, trigger: false }
        },
    }
}

/// The body of the health endpoint.
#[derive(Debug)]
pub struct HealthResponse {
    pub status: String,
    pub version: String,
    pub uptime: String,
}

/// The health of the agent: `healthy`, its version, and the seconds since
/// the Unix epoch followed by `s`.
pub fn health_response(version: &str, epoch_secs: u64) -> (r: HealthResponse)
    ensures
        r.status@ == "healthy"@,
        r.version@ == version@,
        r.uptime@ == decimal(epoch_secs as nat) + "s"@,
{
    let mut uptime = String::new();
    push_decimal(&mut uptime, epoch_secs);
    uptime.append("s");
    HealthResponse { status: String::from_str("healthy"), version: String::from_str(version), uptime }
}

// ---------------------------------------------------------------------------
// Retry and status API
// ---------------------------------------------------------------------------

/// A retry or status request; `project_id` holds the project's name.
#[derive(Debug)]
pub struct RetryRequest {
    pub project_id: String,
}

/// The reply to a retry request.
#[derive(Debug)]
pub struct RetryResponse {
    pub success: bool,
    pub message: String,
    pub attempt_id: Option<String>,
}

/// The reply to a status request.
#[derive(Debug)]
pub struct StatusResponse {
    pub success: bool,
    pub deployment: Option<DeploymentStatusInfo>,
}

/// The state of a project's latest deployment.
#[derive(Debug)]
pub struct DeploymentStatusInfo {
    pub id: String,
    pub project_name: String,
    pub commit_sha: String,
    pub status: String,
    pub started_at: i64,
    pub completed_at: Option<i64>,
    pub failure_reason: Option<String>,
    pub retry_count: i32,
}

/// The first decision on a retry request, given the project's latest
/// attempt (or the error reading it): the failed attempt to retry, or the
/// reply — 404 without any attempt, 500 when the history cannot be read,
/// 400 when the latest attempt did not fail.
pub open spec fn retry_check(latest: Result<Option<DeploymentAttempt>, String>) -> Result<
    DeploymentAttempt,
    (u16, Seq<char>),
> {
    match latest {
        Ok(None) => Err((404, "No deployment found for this project"@)),
        Err(e) => Err((500, "Failed to retrieve deployment history: "@ + e@)),
        Ok(Some(a)) => if a.status != DeploymentStatus::Failed {
            Err(
                (
                    400,
                    "Last deployment did not fail (status: "@ + status_debug_name(a.status)
                        + "). Nothing to retry."@,
                ),
            )
        } else {
            Ok(a)
        },
    }
}

/// Checks a retry request against the project's latest attempt (see
/// `retry_check`); a failure comes with the reply to send.
pub fn check_retry(latest: Result<Option<DeploymentAttempt>, String>) -> (r: Result<
    DeploymentAttempt,
    (u16, RetryResponse),
>)
    ensures
        (match (r, retry_check(latest)) {
            (Ok(a), Ok(b)) => a == b,
            (Err((s, resp)), Err((t, m))) => s == t && !resp.success && resp.message@ == m && resp.attempt_id is None,
            _ => false,
        }),
{
    match latest {
        Ok(None) => Err(
            (
                404,
                RetryResponse {
                    success: false,
                    message: String::from_str("No deployment found for this project"),
                    attempt_id: None,
                },
            ),
        ),
        Err(e) => {
            let mut m = String::from_str("Failed to retrieve deployment history: ");
            m.append(e.as_str());
            Err((500, RetryResponse { success: false, message: m, attempt_id: None }))
        },
        Ok(Some(a)) => {
            if a.status != DeploymentStatus::Failed {
                let mut m = String::from_str("Last deployment did not fail (status: ");
                m.append(a.status.debug_name());
                m.append("). Nothing to retry.");
                Err((400, RetryResponse { success: false, message: m, attempt_id: None }))
            } else {
                Ok(a)
            }
        },
    }
}

/// Bytes taken by a character in UTF-8.
pub open spec fn char_bytes(c: char) -> nat {
    if (c as u32) < 0x80 {
        1
    } else if (c as u32) < 0x800 {
        2
    } else if (c as u32) < 0x10000 {
        3
    } else {
        4
    }
}

/// Bytes taken by a text in UTF-8.
pub open spec fn text_bytes(s: Seq<char>) -> nat
    decreases s.len(),
{
    if s.len() == 0 {
        0
    } else {
        text_bytes(s.drop_last()) + char_bytes(s.last())
    }
}

/// The text's first `k` characters fill exactly 8 bytes (`&s[..8]` is
/// defined).
pub open spec fn short_sha_len(s: Seq<char>, k: int) -> bool {
    0 <= k <= s.len() && text_bytes(s.subrange(0, k)) == 8
}

fn char_width(c: char) -> (r: usize)
    ensures
        r == char_bytes(c),
{
    let n = c as u32;
    if n < 0x80 {
        1
    } else if n < 0x800 {
        2
    } else if n < 0x10000 {
        3
    } else {
        4
    }
}

proof fn lemma_text_bytes_grows(s: Seq<char>, j: int, k: int)
    requires
        0 <= j <= k <= s.len(),
    ensures
        text_bytes(s.subrange(0, j)) + (k - j) <= text_bytes(s.subrange(0, k)),
    decreases k - j,
{
    if j < k {
        lemma_text_bytes_grows(s, j, k - 1);
        assert(s.subrange(0, k).drop_last() =~= s.subrange(0, k - 1));
    }
}

/// The first 8 bytes of a commit hash, as text (`&sha[..8]`).
pub fn short_sha(sha: &str) -> (r: String)
    requires
        exists|k: int| short_sha_len(sha@, k),
    ensures
        exists|k: int| short_sha_len(sha@, k) && r@ == sha@.subrange(0, k),
{
    let v = chars_of(sha);
    let mut acc: usize = 0;
    let mut k: usize = 0;
    while acc < 8
        invariant
            v@ == sha@,
            exists|m: int| short_sha_len(sha@, m),
            k <= v@.len(),
            acc == text_bytes(v@.subrange(0, k as int)),
            acc <= 8,
        decreases 8 - acc,
    {
        proof {
            let m = choose|m: int| short_sha_len(sha@, m);
            if k as int >= m {
                lemma_text_bytes_grows(sha@, m, k as int);
            }
            assert(v@.subrange(0, k + 1).drop_last() =~= v@.subrange(0, k as int));
        }
        let w = char_width(v[k]);
        proof {
            let m = choose|m: int| short_sha_len(sha@, m);
            lemma_text_bytes_grows(sha@, k + 1, m);
        }
        acc = acc + w;
        k = k + 1;
    }
    proof {
        assert(short_sha_len(sha@, k as int));
    }
    string_of(&slice_chars(&v, 0, k))
}

/// Whether the first 8 bytes of a commit hash end at a character boundary
/// (so that `short_sha` is defined).
pub fn short_sha_defined(sha: &str) -> (r: bool)
    ensures
        r == exists|k: int| short_sha_len(sha@, k),
{
    let v = chars_of(sha);
    let mut acc: usize = 0;
    let mut k: usize = 0;
    while acc < 8 && k < v.len()
        invariant
            v@ == sha@,
            k <= v@.len(),
            acc == text_bytes(v@.subrange(0, k as int)),
            acc <= 11,
            forall|m: int| 0 <= m < k ==> text_bytes(#[trigger] v@.subrange(0, m)) < 8,
        decreases v@.len() - k,
    {
        proof {
            assert(v@.subrange(0, k + 1).drop_last() =~= v@.subrange(0, k as int));
        }
        let w = char_width(v[k]);
        acc = acc + w;
        k = k + 1;
    }
    if acc == 8 {
        assert(short_sha_len(sha@, k as int));
        true
    } else {
        proof {
            assert forall|m: int| #![auto] !short_sha_len(sha@, m) by {
                if 0 <= m <= sha@.len() {
                    if m < k {
                    } else {
                        lemma_text_bytes_grows(sha@, k as int, m);
                    }
                }
            }
        }
        false
    }
}

/// The reply once a retry attempt was (or could not be) created: 500 with
/// the error, else 200 naming the attempt's number and short commit hash.
pub fn retry_started_reply(created: Result<DeploymentAttempt, String>) -> (r: (u16, RetryResponse))
    requires
        created matches Ok(a) ==> exists|k: int| short_sha_len(a.commit_sha@, k),
    ensures
        created matches Err(e) ==> r.0 == 500 && !r.1.success && r.1.message@ == "Failed to create retry attempt: "@
            + e@ && r.1.attempt_id is None,
        created matches Ok(a) ==> r.0 == 200 && r.1.success && r.1.attempt_id == Some(a.id) && exists|k: int|
            short_sha_len(a.commit_sha@, k) && r.1.message@ == "Retry deployment started (attempt #"@ + decimal_int(
                a.retry_count as int,
            ) + ", commit: "@ + a.commit_sha@.subrange(0, k) + ")"@,
{
    match created {
        Err(e) => {
            let mut m = String::from_str("Failed to create retry attempt: ");
            m.append(e.as_str());
            (500, RetryResponse { success: false, message: m, attempt_id: None })
        },
        Ok(a) => {
            let sha = short_sha(a.commit_sha.as_str());
            let mut m = String::from_str("Retry deployment started (attempt #");
            push_int(&mut m, a.retry_count as i64);
            m.append(", commit: ");
            m.append(sha.as_str());
            m.append(")");
            (200, RetryResponse { success: true, message: m, attempt_id: Some(a.id) })
        },
    }
}

/// The reply to a status request: 200 with the latest attempt, 404 without
/// one, 500 when it cannot be read.
pub fn status_reply(latest: Result<Option<DeploymentAttempt>, String>) -> (r: (u16, StatusResponse))
    ensures
        latest matches Ok(None) ==> r.0 == 404 && !r.1.success && r.1.deployment is None,
        latest is Err ==> r.0 == 500 && !r.1.success && r.1.deployment is None,
        latest matches Ok(Some(a)) ==> r.0 == 200 && r.1.success && (r.1.deployment matches Some(d) && d.id == a.id
            && d.project_name == a.project_name && d.commit_sha == a.commit_sha && d.status@ == status_name(a.status)
            && d.started_at == a.started_at && d.completed_at == a.completed_at && d.failure_reason
            == a.failure_reason && d.retry_count == a.retry_count),
{
    match latest {
        Ok(Some(a)) => {
            let status = String::from_str(a.status.to_string());
            (
                200,
                StatusResponse {
                    success: true,
                    deployment: Some(
                        DeploymentStatusInfo {
                            id: a.id,
                            project_name: a.project_name,
                            commit_sha: a.commit_sha,
                            status,
                            started_at: a.started_at,
                            completed_at: a.completed_at,
                            failure_reason: a.failure_reason,
                            retry_count: a.retry_count,
                        },
                    ),
                },
            )
        },
        Ok(None) => (404, StatusResponse { success: false, deployment: None }),
        Err(_) => (500, StatusResponse { success: false, deployment: None }),
    }
}

/// The agent's HTTP API address on a host.
pub fn get_api_url(host: &str) -> (r: String)
    ensures
        r@ == "http://"@ + host@ + ":17670"@,
{
    let mut r = String::from_str("http://");
    r.append(host);
    r.append(":17670");
    r
}

/// Who performed a secret operation when the request does not say: `cli`.
pub fn default_performed_by() -> (r: String)
    ensures
        r@ == "cli"@,
{
    String::from_str("cli")
}

/// Handles a retry request for a project (named by the client as its id),
/// recording the retry under the given id and start time: the project's
/// latest attempt must have failed; its retry is refused (500) when its retry
/// count is at its limit or the id is taken; otherwise the retry is recorded
/// and returned, to be run.  Otherwise the reply to send.
pub fn retry_deployment_with(
    tracker: &mut DeploymentTracker,
    project_name: &str,
    id: String,
    started_at: i64,
) -> (r: Result<DeploymentAttempt, (u16, RetryResponse)>)
    requires
        old(tracker).wf(),
    ensures
        final(tracker).wf(),
        match retry_check(Ok(latest_named(old(tracker).table(), project_name@))) {
            Err((s, m)) => r matches Err((t, resp)) && t == s && !resp.success && resp.message@ == m
                && resp.attempt_id is None && final(tracker).table() == old(tracker).table(),
            Ok(a) => if a.retry_count == i32::MAX || attempt_position(old(tracker).table(), id@) is Some {
                r matches Err((t, resp)) && t == 500 && !resp.success && resp.message@
                    == "Failed to create retry attempt: "@ + "Failed to create retry attempt"@ && resp.attempt_id is None
                    && final(tracker).table() == old(tracker).table()
            } else {
                r matches Ok(b) && spec_retry_attempt(a, a.id@, id@, started_at, b) && final(tracker).table()
                    == old(tracker).table().push(b)
            },
        },
{
    let latest = tracker.get_latest_attempt_by_name(project_name);
    let last = match check_retry(latest) {
        Ok(a) => a,
        Err(reply) => return Err(reply),
    };
    proof {
        let t = old(tracker).table();
        let w = choose|i: int| crate::deployment_tracking::is_latest_by(t, true, project_name@, i);
        assert(latest_named(t, project_name@) == Some(t[w]));
        assert(last == t[w]);
        crate::deployment_tracking::lemma_position_of_member(t, w);
        assert(attempt_position(t, last.id@) == Some(w));
    }
    match tracker.create_retry_attempt_with(last.id.as_str(), id, started_at) {
        Ok(b) => Ok(b),
        Err(e) => {
            let mut m = String::from_str("Failed to create retry attempt: ");
            m.append(e.as_str());
            Err((500, RetryResponse { success: false, message: m, attempt_id: None }))
        },
    }
}

/// Handles a retry request for a project (named by the client as its id),
/// recording the retry under a fresh id and the current time (see
/// `retry_deployment_with`): a retry count at its limit is refused with 500;
/// otherwise whether the retry is recorded depends on the fresh id.
pub fn retry_deployment(tracker: &mut DeploymentTracker, project_name: &str) -> (r: Result<
    DeploymentAttempt,
    (u16, RetryResponse),
>)
    requires
        old(tracker).wf(),
    ensures
        final(tracker).wf(),
        match retry_check(Ok(latest_named(old(tracker).table(), project_name@))) {
            Err((s, m)) => r matches Err((t, resp)) && t == s && !resp.success && resp.message@ == m
                && resp.attempt_id is None && final(tracker).table() == old(tracker).table(),
            Ok(a) => {
                &&& a.retry_count == i32::MAX ==> r is Err
                &&& match r {
                    Ok(b) => {
                        &&& spec_retry_attempt(a, a.id@, b.id@, b.started_at, b)
                        &&& attempt_position(old(tracker).table(), b.id@) is None
                        &&& final(tracker).table() == old(tracker).table().push(b)
                    },
                    Err((t, resp)) => t == 500 && !resp.success && resp.message@
                        == "Failed to create retry attempt: "@ + "Failed to create retry attempt"@ && resp.attempt_id
                        is None && final(tracker).table() == old(tracker).table(),
                }
            },
        },
{
    let id = generate_agent_id();
    let started_at = now_timestamp();
    retry_deployment_with(tracker, project_name, id, started_at)
}

/// Handles a status request for a project (named by the client as its id):
/// the reply for its latest attempt.
pub fn get_deployment_status(tracker: &DeploymentTracker, project_name: &str) -> (r: (u16, StatusResponse))
    ensures
        latest_named(tracker.table(), project_name@) is None ==> r.0 == 404 && !r.1.success && r.1.deployment is None,
        latest_named(tracker.table(), project_name@) matches Some(a) ==> r.0 == 200 && r.1.success && (
        r.1.deployment matches Some(d) && d.id == a.id && d.project_name == a.project_name && d.commit_sha
            == a.commit_sha && d.status@ == status_name(a.status) && d.started_at == a.started_at && d.completed_at
            == a.completed_at && d.failure_reason == a.failure_reason && d.retry_count == a.retry_count),
{
    status_reply(tracker.get_latest_attempt_by_name(project_name))
}

} // verus!
