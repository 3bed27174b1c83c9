//! The `status` command of the command-line tool: how it shows the latest
//! deployment of the project.
use vstd::prelude::*;
use vstd::string::*;
use crate::text::{decimal_int, push_int, push_str, push_string, str_eq, string_views};
use crate::webhooks::{DeploymentStatusInfo, short_sha, short_sha_len};

verus! {

/// The time from `earlier` to `later`, in seconds, fits in an `i64`.
pub open spec fn span_fits(earlier: i64, later: i64) -> bool {
    i64::MIN <= later - earlier <= i64::MAX
}

/// How long ago a moment was, in the largest unit under which it is less
/// than the next: seconds under a minute, minutes under an hour, hours
/// under a day, else days (whole units, rounded down).
pub open spec fn ago(timestamp: i64, now: i64) -> Seq<char> {
    let secs = now - timestamp;
    if secs < 60 {
        decimal_int(secs) + " seconds ago"@
    } else if secs / 60 < 60 {
        decimal_int(secs / 60) + " minutes ago"@
    } else if secs / 3600 < 24 {
        decimal_int(secs / 3600) + " hours ago"@
    } else {
        decimal_int(secs / 86400) + " days ago"@
    }
}

/// How long ago a moment was, seen at `now` (see `ago`).
pub fn relative_time(timestamp: i64, now: i64) -> (r: String)
    requires
        span_fits(timestamp, now),
    ensures
        r@ == ago(timestamp, now),
{
    let secs = now - timestamp;
    let mut r = String::new();
    if secs < 60 {
        push_int(&mut r, secs);
        r.append(" seconds ago");
    } else if secs / 60 < 60 {
        push_int(&mut r, secs / 60);
        r.append(" minutes ago");
    } else if secs / 3600 < 24 {
        push_int(&mut r, secs / 3600);
        r.append(" hours ago");
    } else {
        push_int(&mut r, secs / 86400);
        r.append(" days ago");
    }
    r
}

/// The icon and word a status is shown with.
pub open spec fn status_badge(status: Seq<char>) -> (Seq<char>, Seq<char>) {
    if status == "success"@ {
        ("✅"@, "SUCCESS"@)
    } else if status == "failed"@ {
        ("❌"@, "FAILED"@)
    } else if status == "running"@ {
        ("🔄"@, "RUNNING"@)
    } else if status == "pending"@ {
        ("⏳"@, "PENDING"@)
    } else {
        ("❓"@, "UNKNOWN"@)
    }
}

/// The icon and word a status is shown with.
pub fn status_display(status: &str) -> (r: (&'static str, &'static str))
    ensures
        (r.0@, r.1@) == status_badge(status@),
{
    if str_eq(status, "success") {
        ("✅", "SUCCESS")
    } else if str_eq(status, "failed") {
        ("❌", "FAILED")
    } else if str_eq(status, "running") {
        ("🔄", "RUNNING")
    } else if str_eq(status, "pending") {
        ("⏳", "PENDING")
    } else {
        ("❓", "UNKNOWN")
    }
}

/// The rule that closes the report.
pub open spec fn rule() -> Seq<char> {
    "═══════════════════════════════════════════════════════"@
}

/// The first lines of a report: status, project, commit, start.
pub open spec fn report_head(d: DeploymentStatusInfo, sha8: Seq<char>, now: i64) -> Seq<Seq<char>> {
    let badge = status_badge(d.status@);
    seq![
        "Status:        "@ + badge.0 + " "@ + badge.1,
        "Project:       "@ + d.project_name@,
        "Commit:        "@ + sha8,
        "Started:       "@ + ago(d.started_at, now),
    ]
}

/// When a completed deployment completed, and how long it took.
pub open spec fn report_completion(d: DeploymentStatusInfo, now: i64) -> Seq<Seq<char>> {
    match d.completed_at {
        Some(c) => seq!["Completed:     "@ + ago(c, now), "Duration:      "@ + decimal_int(c - d.started_at) + "s"@],
        None => Seq::empty(),
    }
}

/// How often a retried deployment was retried.
pub open spec fn report_retries(d: DeploymentStatusInfo) -> Seq<Seq<char>> {
    if d.retry_count > 0 {
        seq!["Retry Count:   "@ + decimal_int(d.retry_count as int)]
    } else {
        Seq::empty()
    }
}

/// Why a deployment failed, and how to retry it.
pub open spec fn report_failure(d: DeploymentStatusInfo) -> Seq<Seq<char>> {
    match d.failure_reason {
        Some(reason) => seq![
            ""@,
            "❌ Failure Reason:"@,
            "   "@ + reason@,
            ""@,
            "🔧 To fix and retry:"@,
            "   1. Fix the issue (update .env, set secrets, or fix code)"@,
            "   2. Run: shipwright retry"@,
        ],
        None => Seq::empty(),
    }
}

/// The next steps after a failed or a healthy deployment.
pub open spec fn report_next(status: Seq<char>) -> Seq<Seq<char>> {
    if status == "failed"@ {
        seq![
            ""@,
            "💡 Next Steps:"@,
            "   • Review error details above"@,
            "   • Fix configuration or code issues"@,
            "   • Run 'shipwright retry' to retry deployment"@,
        ]
    } else if status == "success"@ {
        seq![""@, "💡 Deployment is healthy!"@, "   • View logs: shipwright logs"@, "   • Watch live: shipwright watch"@]
    } else {
        Seq::empty()
    }
}

/// The report of a deployment seen at `now`, whose commit starts with the
/// text `sha8`: status, project, commit, start (and completion with the
/// duration), retries, the failure's reason with how to retry, the rule,
/// and next steps for a failed or healthy deployment.
pub open spec fn deployment_report(d: DeploymentStatusInfo, sha8: Seq<char>, now: i64) -> Seq<Seq<char>> {
    report_head(d, sha8, now) + report_completion(d, now) + report_retries(d) + report_failure(d) + seq![rule()]
        + report_next(d.status@)
}

fn head_lines(d: &DeploymentStatusInfo, sha8: &str, now: i64) -> (r: Vec<String>)
    requires
        span_fits(d.started_at, now),
    ensures
        string_views(r@) == report_head(*d, sha8@, now),
{
    let (icon, word) = status_display(d.status.as_str());
    let mut out: Vec<String> = Vec::new();
    let mut l1 = String::from_str("Status:        ");
    l1.append(icon);
    l1.append(" ");
    l1.append(word);
    let mut l2 = String::from_str("Project:       ");
    l2.append(d.project_name.as_str());
    let mut l3 = String::from_str("Commit:        ");
    l3.append(sha8);
    let mut l4 = String::from_str("Started:       ");
    l4.append(relative_time(d.started_at, now).as_str());
    out.push(l1);
    out.push(l2);
    out.push(l3);
    out.push(l4);
    assert(string_views(out@) =~= report_head(*d, sha8@, now));
    out
}

fn completion_lines(d: &DeploymentStatusInfo, now: i64) -> (r: Vec<String>)
    requires
        span_fits(d.started_at, now),
        d.completed_at matches Some(c) ==> (span_fits(c, now) && span_fits(d.started_at, c)),
    ensures
        string_views(r@) == report_completion(*d, now),
{
    let mut out: Vec<String> = Vec::new();
    match d.completed_at {
        Some(c) => {
            let mut l1 = String::from_str("Completed:     ");
            l1.append(relative_time(c, now).as_str());
            let mut l2 = String::from_str("Duration:      ");
            push_int(&mut l2, c - d.started_at);
            l2.append("s");
            out.push(l1);
            out.push(l2);
        },
        None => {},
    }
    assert(string_views(out@) =~= report_completion(*d, now));
    out
}

fn retry_lines(d: &DeploymentStatusInfo) -> (r: Vec<String>)
    ensures
        string_views(r@) == report_retries(*d),
{
    let mut out: Vec<String> = Vec::new();
    if d.retry_count > 0 {
        let mut l = String::from_str("Retry Count:   ");
        push_int(&mut l, d.retry_count as i64);
        out.push(l);
    }
    assert(string_views(out@) =~= report_retries(*d));
    out
}

fn failure_lines(d: &DeploymentStatusInfo) -> (r: Vec<String>)
    ensures
        string_views(r@) == report_failure(*d),
{
    let mut out: Vec<String> = Vec::new();
    match &d.failure_reason {
        Some(reason) => {
            push_str(&mut out, "");
            push_str(&mut out, "❌ Failure Reason:");
            let mut l = String::from_str("   ");
            l.append(reason.as_str());
            push_string(&mut out, l);
            push_str(&mut out, "");
            push_str(&mut out, "🔧 To fix and retry:");
            push_str(&mut out, "   1. Fix the issue (update .env, set secrets, or fix code)");
            push_str(&mut out, "   2. Run: shipwright retry");
        },
        None => {},
    }
    assert(string_views(out@) =~= report_failure(*d));
    out
}

fn next_lines(status: &str) -> (r: Vec<String>)
    ensures
        string_views(r@) == report_next(status@),
{
    let mut out: Vec<String> = Vec::new();
    if str_eq(status, "failed") {
        push_str(&mut out, "");
        push_str(&mut out, "💡 Next Steps:");
        push_str(&mut out, "   • Review error details above");
        push_str(&mut out, "   • Fix configuration or code issues");
        push_str(&mut out, "   • Run 'shipwright retry' to retry deployment");
    } else if str_eq(status, "success") {
        push_str(&mut out, "");
        push_str(&mut out, "💡 Deployment is healthy!");
        push_str(&mut out, "   • View logs: shipwright logs");
        push_str(&mut out, "   • Watch live: shipwright watch");
    }
    assert(string_views(out@) =~= report_next(status@));
    out
}

fn append_lines(out: &mut Vec<String>, more: Vec<String>)
    ensures
        string_views(final(out)@) == string_views(old(out)@) + string_views(more@),
{
    let mut more = more;
    let ghost o0 = string_views(out@);
    let ghost m0 = string_views(more@);
    out.append(&mut more);
    assert(string_views(out@) =~= o0 + m0);
}

/// The report of a deployment seen at `now` (see `deployment_report`);
/// its commit hash must have 8 bytes at a character boundary.
pub fn deployment_lines(d: &DeploymentStatusInfo, now: i64) -> (r: Vec<String>)
    requires
        exists|k: int| short_sha_len(d.commit_sha@, k),
        span_fits(d.started_at, now),
        d.completed_at matches Some(c) ==> (span_fits(c, now) && span_fits(d.started_at, c)),
    ensures
        exists|k: int|
            short_sha_len(d.commit_sha@, k) && string_views(r@) == deployment_report(
                *d,
                d.commit_sha@.subrange(0, k),
                now,
            ),
{
    let sha = short_sha(d.commit_sha.as_str());
    let mut out = head_lines(d, sha.as_str(), now);
    append_lines(&mut out, completion_lines(d, now));
    append_lines(&mut out, retry_lines(d));
    append_lines(&mut out, failure_lines(d));
    push_str(&mut out, "═══════════════════════════════════════════════════════");
    append_lines(&mut out, next_lines(d.status.as_str()));
    assert(string_views(out@) =~= deployment_report(*d, sha@, now));
    out
}

/// What the status command shows without a deployment.
pub fn no_deployment_lines() -> (r: Vec<String>)
    ensures
        string_views(r@) == seq![
            "Status:        ❓ NO DEPLOYMENT HISTORY"@,
            ""@,
            "💡 No deployments found for this project."@,
            "   Run 'shipwright up' to create your first deployment."@,
        ],
{
    let mut out: Vec<String> = Vec::new();
    push_str(&mut out, "Status:        ❓ NO DEPLOYMENT HISTORY");
    push_str(&mut out, "");
    push_str(&mut out, "💡 No deployments found for this project.");
    push_str(&mut out, "   Run 'shipwright up' to create your first deployment.");
    out
}

} // verus!
