//! Storage of rollback snapshots, deployed services and rollback events,
//! and the bookkeeping of the rollback manager around it: recording a new
//! snapshot, and the status changes of a rollback.
//!
//! The names under which statuses, strategies and reasons are stored are
//! those of the agent's database.
use vstd::prelude::*;
use vstd::string::*;
use crate::crypto::generate_agent_id;
use crate::rollback::{rollback_started, DeploymentSnapshot, HealthStatus, RollbackEvent, RollbackReason, RollbackStrategy, ServiceDeployment, SnapshotStatus};
use crate::secrets::now_timestamp;
use crate::text::{chars_of, eq_chars, str_eq};

verus! {

// ---------------------------------------------------------------------------
// Stored names
// ---------------------------------------------------------------------------

/// The stored name of a snapshot status.
pub open spec fn snapshot_status_name(s: SnapshotStatus) -> Seq<char> {
    match s {
        SnapshotStatus::Active => "active"@,
        SnapshotStatus::RolledBack => "rolled_back"@,
        SnapshotStatus::Failed => "failed"@,
        SnapshotStatus::Superseded => "superseded"@,
    }
}

/// The snapshot status a stored name denotes; unknown names count as failed.
pub open spec fn snapshot_status_of_name(t: Seq<char>) -> SnapshotStatus {
    if t == "active"@ {
        SnapshotStatus::Active
    } else if t == "rolled_back"@ {
        SnapshotStatus::RolledBack
    } else if t == "superseded"@ {
        SnapshotStatus::Superseded
    } else {
        SnapshotStatus::Failed
    }
}

/// The stored name of a rollback strategy.
pub open spec fn strategy_stored_name(s: RollbackStrategy) -> Seq<char> {
    match s {
        RollbackStrategy::ImageTagging => "image-tagging"@,
        RollbackStrategy::GitCommit => "git-commit"@,
        RollbackStrategy::Snapshot => "snapshot"@,
        RollbackStrategy::Hybrid => "hybrid"@,
    }
}

/// The strategy a stored name denotes; unknown names count as hybrid.
pub open spec fn strategy_of_name(t: Seq<char>) -> RollbackStrategy {
    if t == "image-tagging"@ {
        RollbackStrategy::ImageTagging
    } else if t == "git-commit"@ {
        RollbackStrategy::GitCommit
    } else if t == "snapshot"@ {
        RollbackStrategy::Snapshot
    } else {
        RollbackStrategy::Hybrid
    }
}

/// The stored name of a service's health.
pub open spec fn health_stored_name(h: HealthStatus) -> Seq<char> {
    match h {
        HealthStatus::Healthy => "healthy"@,
        HealthStatus::Unhealthy => "unhealthy"@,
        HealthStatus::Starting => "starting"@,
        HealthStatus::Failed => "failed"@,
    }
}

/// The stored name of a rollback reason.
pub open spec fn reason_stored_name(r: RollbackReason) -> Seq<char> {
    match r {
        RollbackReason::SmokeTestFailure => "smoke_test_failure"@,
        RollbackReason::Manual => "manual"@,
        RollbackReason::HealthCheckFailure => "health_check_failure"@,
    }
}

/// The reason a stored name denotes; unknown names count as manual.
pub open spec fn reason_of_name(t: Seq<char>) -> RollbackReason {
    if t == "smoke_test_failure"@ {
        RollbackReason::SmokeTestFailure
    } else if t == "health_check_failure"@ {
        RollbackReason::HealthCheckFailure
    } else {
        RollbackReason::Manual
    }
}

/// The stored name of a snapshot status.
pub fn snapshot_status_str(s: SnapshotStatus) -> (r: &'static str)
    ensures
        r@ == snapshot_status_name(s),
{
    match s {
        SnapshotStatus::Active => "active",
        SnapshotStatus::RolledBack => "rolled_back",
        SnapshotStatus::Failed => "failed",
        SnapshotStatus::Superseded => "superseded",
    }
}

/// The snapshot status of a stored name (see `snapshot_status_of_name`).
pub fn parse_snapshot_status(t: &str) -> (r: SnapshotStatus)
    ensures
        r == snapshot_status_of_name(t@),
{
    let v = chars_of(t);
    if eq_chars(&v, &chars_of("active")) {
        SnapshotStatus::Active
    } else if eq_chars(&v, &chars_of("rolled_back")) {
        SnapshotStatus::RolledBack
    } else if eq_chars(&v, &chars_of("superseded")) {
        SnapshotStatus::Superseded
    } else {
        SnapshotStatus::Failed
    }
}

/// The stored name of a strategy.
pub fn strategy_str(s: RollbackStrategy) -> (r: &'static str)
    ensures
        r@ == strategy_stored_name(s),
{
    match s {
        RollbackStrategy::ImageTagging => "image-tagging",
        RollbackStrategy::GitCommit => "git-commit",
        RollbackStrategy::Snapshot => "snapshot",
        RollbackStrategy::Hybrid => "hybrid",
    }
}

/// The strategy of a stored name (see `strategy_of_name`).
pub fn parse_strategy(t: &str) -> (r: RollbackStrategy)
    ensures
        r == strategy_of_name(t@),
{
    let v = chars_of(t);
    if eq_chars(&v, &chars_of("image-tagging")) {
        RollbackStrategy::ImageTagging
    } else if eq_chars(&v, &chars_of("git-commit")) {
        RollbackStrategy::GitCommit
    } else if eq_chars(&v, &chars_of("snapshot")) {
        RollbackStrategy::Snapshot
    } else {
        RollbackStrategy::Hybrid
    }
}

/// The stored name of a service's health.
pub fn health_status_str(h: HealthStatus) -> (r: &'static str)
    ensures
        r@ == health_stored_name(h),
{
    match h {
        HealthStatus::Healthy => "healthy",
        HealthStatus::Unhealthy => "unhealthy",
        HealthStatus::Starting => "starting",
        HealthStatus::Failed => "failed",
    }
}

/// The health of a service stored under a name, if any.
pub fn parse_health_status(t: &str) -> (r: Option<HealthStatus>)
    ensures
        match r {
            Some(h) => health_stored_name(h) == t@,
            None => forall|h: HealthStatus| health_stored_name(h) != t@,
        },
{
    if str_eq(t, "healthy") {
        Some(HealthStatus::Healthy)
    } else if str_eq(t, "unhealthy") {
        Some(HealthStatus::Unhealthy)
    } else if str_eq(t, "starting") {
        Some(HealthStatus::Starting)
    } else if str_eq(t, "failed") {
        Some(HealthStatus::Failed)
    } else {
        None
    }
}

/// The stored name of a rollback reason.
pub fn reason_str(r: RollbackReason) -> (t: &'static str)
    ensures
        t@ == reason_stored_name(r),
{
    match r {
        RollbackReason::SmokeTestFailure => "smoke_test_failure",
        RollbackReason::Manual => "manual",
        RollbackReason::HealthCheckFailure => "health_check_failure",
    }
}

/// The reason of a stored name (see `reason_of_name`).
pub fn parse_reason(t: &str) -> (r: RollbackReason)
    ensures
        r == reason_of_name(t@),
{
    let v = chars_of(t);
    if eq_chars(&v, &chars_of("smoke_test_failure")) {
        RollbackReason::SmokeTestFailure
    } else if eq_chars(&v, &chars_of("health_check_failure")) {
        RollbackReason::HealthCheckFailure
    } else {
        RollbackReason::Manual
    }
}

/// A stored status, strategy or reason reads back as itself.
pub proof fn lemma_stored_names_roundtrip(s: SnapshotStatus, g: RollbackStrategy, r: RollbackReason)
    ensures
        snapshot_status_of_name(snapshot_status_name(s)) == s,
        strategy_of_name(strategy_stored_name(g)) == g,
        reason_of_name(reason_stored_name(r)) == r,
{
    reveal_strlit("active");
    reveal_strlit("rolled_back");
    reveal_strlit("failed");
    reveal_strlit("superseded");
    reveal_strlit("image-tagging");
    reveal_strlit("git-commit");
    reveal_strlit("snapshot");
    reveal_strlit("hybrid");
    reveal_strlit("smoke_test_failure");
    reveal_strlit("manual");
    reveal_strlit("health_check_failure");
    assert("failed"@[0] != "active"@[0]);
    assert("failed"@[0] != "rolled_back"@[0]);
    assert("failed"@[0] != "superseded"@[0]);
    assert("hybrid"@[0] != "image-tagging"@[0]);
    assert("hybrid"@[0] != "git-commit"@[0]);
    assert("hybrid"@[0] != "snapshot"@[0]);
    assert("manual"@[0] != "smoke_test_failure"@[0]);
    assert("manual"@[0] != "health_check_failure"@[0]);
}

// ---------------------------------------------------------------------------
// Copies
// ---------------------------------------------------------------------------

/// The rollback tags of a snapshot as plain values.
pub open spec fn tags_view(o: Option<Vec<(String, String)>>) -> Option<Seq<(String, String)>> {
    match o {
        Some(v) => Some(v@),
        None => None,
    }
}

/// Two snapshots hold the same values (their tag lists compared by
/// content).
pub open spec fn same_snapshot(a: DeploymentSnapshot, b: DeploymentSnapshot) -> bool {
    &&& DeploymentSnapshot { image_tags: b.image_tags, ..a } == b
    &&& tags_view(a.image_tags) == tags_view(b.image_tags)
}

fn copy_opt(s: &Option<String>) -> (r: Option<String>)
    ensures
        r == *s,
{
    match s {
        Some(t) => Some(t.clone()),
        None => None,
    }
}

fn copy_tags(v: &Vec<(String, String)>) -> (r: Vec<(String, String)>)
    ensures
        r@ == v@,
{
    let mut r: Vec<(String, String)> = Vec::new();
    let mut i: usize = 0;
    while i < v.len()
        invariant
            i <= v@.len(),
            r@ == v@.subrange(0, i as int),
        decreases v@.len() - i,
    {
        r.push((v[i].0.clone(), v[i].1.clone()));
        i = i + 1;
    }
    assert(v@.subrange(0, v@.len() as int) =~= v@);
    r
}

/// A copy of a snapshot.
pub fn copy_snapshot(s: &DeploymentSnapshot) -> (r: DeploymentSnapshot)
    ensures
        same_snapshot(r, *s),
{
    DeploymentSnapshot {
        id: s.id.clone(),
        project_id: s.project_id.clone(),
        commit_sha: s.commit_sha.clone(),
        deployed_at: s.deployed_at,
        status: s.status,
        strategy: s.strategy,
        image_tags: match &s.image_tags {
            Some(v) => Some(copy_tags(v)),
            None => None,
        },
        git_branch: copy_opt(&s.git_branch),
        git_message: copy_opt(&s.git_message),
        snapshot_path: copy_opt(&s.snapshot_path),
        database_backup_path: copy_opt(&s.database_backup_path),
        smoke_test_passed: s.smoke_test_passed,
        smoke_test_results: copy_opt(&s.smoke_test_results),
        triggered_by: s.triggered_by.clone(),
        rollback_from_id: copy_opt(&s.rollback_from_id),
    }
}

/// A copy of a deployed service.
pub fn copy_service_deployment(s: &ServiceDeployment) -> (r: ServiceDeployment)
    ensures
        r == *s,
{
    ServiceDeployment {
        id: s.id.clone(),
        snapshot_id: s.snapshot_id.clone(),
        service_name: s.service_name.clone(),
        container_id: copy_opt(&s.container_id),
        image_name: copy_opt(&s.image_name),
        image_tag: copy_opt(&s.image_tag),
        health_status: s.health_status,
        health_check_output: copy_opt(&s.health_check_output),
        rollback_strategy: s.rollback_strategy,
        startup_time_ms: s.startup_time_ms,
        memory_usage_mb: s.memory_usage_mb,
    }
}

/// A copy of a rollback event.
pub fn copy_event(e: &RollbackEvent) -> (r: RollbackEvent)
    ensures
        r == *e,
{
    RollbackEvent {
        id: e.id.clone(),
        project_id: e.project_id.clone(),
        from_snapshot_id: e.from_snapshot_id.clone(),
        to_snapshot_id: e.to_snapshot_id.clone(),
        reason: e.reason,
        failure_details: copy_opt(&e.failure_details),
        rollback_started_at: e.rollback_started_at,
        rollback_completed_at: e.rollback_completed_at,
        rollback_success: e.rollback_success,
        performed_by: e.performed_by.clone(),
    }
}

// ---------------------------------------------------------------------------
// Newest first
// ---------------------------------------------------------------------------

/// Position `i` comes before position `j` when rows are listed newest
/// first: a later time first, and of equal times the row saved first.
pub open spec fn newer_first(keys: Seq<i64>, i: int, j: int) -> bool {
    keys[i] > keys[j] || (keys[i] == keys[j] && i < j)
}

/// `p` is where a row with time `key` goes in the listing `o`: after every
/// row that is not older, before the first older one.
pub open spec fn slot_ok(keys: Seq<i64>, o: Seq<usize>, key: i64, p: int) -> bool {
    &&& 0 <= p <= o.len()
    &&& forall|k: int| 0 <= k < p ==> keys[#[trigger] o[k] as int] >= key
    &&& p < o.len() ==> keys[o[p] as int] < key
}

/// Where a row with time `key` goes in the listing `o`.
pub open spec fn slot(keys: Seq<i64>, o: Seq<usize>, key: i64) -> int {
    choose|p: int| slot_ok(keys, o, key, p)
}

/// The positions `0..n` that `sel` selects, newest first (see
/// `newer_first`).
pub open spec fn newest_first(keys: Seq<i64>, sel: Seq<bool>, n: nat) -> Seq<usize>
    decreases n,
{
    if n == 0 {
        Seq::empty()
    } else {
        let o = newest_first(keys, sel, (n - 1) as nat);
        if sel[n - 1] {
            o.insert(slot(keys, o, keys[n - 1]), (n - 1) as usize)
        } else {
            o
        }
    }
}

proof fn lemma_slot_unique(keys: Seq<i64>, o: Seq<usize>, key: i64, p: int, q: int)
    requires
        slot_ok(keys, o, key, p),
        slot_ok(keys, o, key, q),
    ensures
        p == q,
{
    if p < q {
        assert(keys[o[p] as int] >= key);
    } else if q < p {
        assert(keys[o[q] as int] >= key);
    }
}

proof fn lemma_slot_exists(keys: Seq<i64>, o: Seq<usize>, key: i64)
    ensures
        slot_ok(keys, o, key, slot(keys, o, key)),
    decreases o.len(),
{
    if o.len() == 0 {
        assert(slot_ok(keys, o, key, 0));
    } else {
        let pre = o.drop_last();
        lemma_slot_exists(keys, pre, key);
        let q = slot(keys, pre, key);
        if q < pre.len() {
            assert(slot_ok(keys, o, key, q)) by {
                assert forall|k: int| 0 <= k < q implies keys[#[trigger] o[k] as int] >= key by {
                    assert(o[k] == pre[k]);
                }
                assert(o[q] == pre[q]);
            }
        } else if keys[o[o.len() - 1] as int] < key {
            assert(slot_ok(keys, o, key, q)) by {
                assert forall|k: int| 0 <= k < q implies keys[#[trigger] o[k] as int] >= key by {
                    assert(o[k] == pre[k]);
                }
            }
        } else {
            assert(slot_ok(keys, o, key, o.len() as int)) by {
                assert forall|k: int| 0 <= k < o.len() implies keys[#[trigger] o[k] as int] >= key by {
                    if k < q {
                        assert(o[k] == pre[k]);
                    }
                }
            }
        }
    }
}

/// The listing of the selected positions below `n`, newest first: it
/// holds every selected position below `n` and nothing else, in
/// `newer_first` order.
pub proof fn lemma_newest_first_sorted(keys: Seq<i64>, sel: Seq<bool>, n: nat)
    requires
        n <= keys.len(),
        keys.len() == sel.len(),
        keys.len() <= usize::MAX,
    ensures
        forall|k: int|
            0 <= k < newest_first(keys, sel, n).len() ==> (#[trigger] newest_first(keys, sel, n)[k]) < n && sel[newest_first(
                keys,
                sel,
                n,
            )[k] as int],
        forall|i: int| 0 <= i < n && sel[i] ==> newest_first(keys, sel, n).contains(i as usize),
        forall|a: int, b: int|
            0 <= a < b < newest_first(keys, sel, n).len() ==> newer_first(
                keys,
                #[trigger] newest_first(keys, sel, n)[a] as int,
                #[trigger] newest_first(keys, sel, n)[b] as int,
            ),
    decreases n,
{
    if n > 0 {
        let m = (n - 1) as nat;
        lemma_newest_first_sorted(keys, sel, m);
        let o = newest_first(keys, sel, m);
        if sel[m as int] {
            let key = keys[m as int];
            lemma_slot_exists(keys, o, key);
            let p = slot(keys, o, key);
            let o1 = o.insert(p, m as usize);
            assert(newest_first(keys, sel, n) == o1);
            assert(o1[p] == m);
            assert forall|k: int| 0 <= k < o1.len() implies (#[trigger] o1[k]) < n && sel[o1[k] as int] by {
                if k < p {
                    assert(o1[k] == o[k]);
                } else if k > p {
                    assert(o1[k] == o[k - 1]);
                }
            }
            assert forall|i: int| 0 <= i < n && sel[i] implies o1.contains(i as usize) by {
                if i == m {
                    assert(o1[p] == m as usize);
                } else {
                    assert(o.contains(i as usize));
                    let k = choose|k: int| 0 <= k < o.len() && o[k] == i as usize;
                    if k < p {
                        assert(o1[k] == o[k]);
                    } else {
                        assert(o1[k + 1] == o[k]);
                    }
                }
            }
            assert forall|a: int, b: int| 0 <= a < b < o1.len() implies newer_first(
                keys,
                #[trigger] o1[a] as int,
                #[trigger] o1[b] as int,
            ) by {
                if b < p {
                    assert(o1[a] == o[a] && o1[b] == o[b]);
                } else if a > p {
                    assert(o1[a] == o[a - 1] && o1[b] == o[b - 1]);
                } else if a < p && b > p {
                    assert(o1[a] == o[a] && o1[b] == o[b - 1]);
                } else if a == p {
                    assert(o1[b] == o[b - 1]);
                    assert(keys[o[p] as int] < key);
                    if b - 1 > p {
                        assert(newer_first(keys, o[p] as int, o[b - 1] as int));
                    }
                } else {
                    assert(b == p);
                    assert(o1[a] == o[a]);
                    assert(keys[o[a] as int] >= key);
                }
            }
        }
    }
}

/// The positions that `sel` selects, newest first by `keys` (see
/// `newest_first`).
pub fn order_newest_first(keys: &Vec<i64>, sel: &Vec<bool>) -> (order: Vec<usize>)
    requires
        keys@.len() == sel@.len(),
    ensures
        order@ == newest_first(keys@, sel@, keys@.len()),
{
    let mut order: Vec<usize> = Vec::new();
    let mut j: usize = 0;
    while j < keys.len()
        invariant
            keys@.len() == sel@.len(),
            j <= keys@.len(),
            order@ == newest_first(keys@, sel@, j as nat),
        decreases keys@.len() - j,
    {
        proof {
            lemma_newest_first_sorted(keys@, sel@, j as nat);
        }
        if sel[j] {
            let mut p: usize = 0;
            while p < order.len() && keys[order[p]] >= keys[j]
                invariant
                    j < keys@.len(),
                    p <= order@.len(),
                    forall|k: int| 0 <= k < order@.len() ==> (#[trigger] order@[k]) < j,
                    forall|k: int| 0 <= k < p ==> keys@[#[trigger] order@[k] as int] >= keys@[j as int],
                decreases order@.len() - p,
            {
                p = p + 1;
            }
            proof {
                assert(slot_ok(keys@, order@, keys@[j as int], p as int));
                lemma_slot_exists(keys@, order@, keys@[j as int]);
                lemma_slot_unique(keys@, order@, keys@[j as int], p as int, slot(keys@, order@, keys@[j as int]));
            }
            order.insert(p, j);
        }
        j = j + 1;
    }
    order
}

// ---------------------------------------------------------------------------
// Tables
// ---------------------------------------------------------------------------

/// No two rows share a key.
pub open spec fn keys_unique<T>(t: Seq<T>, key: spec_fn(T) -> Seq<char>) -> bool {
    forall|i: int, j: int| 0 <= i < j < t.len() ==> key(t[i]) != key(t[j])
}

/// Some row has the key.
pub open spec fn key_taken<T>(t: Seq<T>, key: spec_fn(T) -> Seq<char>, k: Seq<char>) -> bool {
    exists|i: int| 0 <= i < t.len() && key(t[i]) == k
}

/// The id of a snapshot.
pub open spec fn snapshot_key() -> spec_fn(DeploymentSnapshot) -> Seq<char> {
    |s: DeploymentSnapshot| s.id@
}

/// The id of a deployed service.
pub open spec fn service_key() -> spec_fn(ServiceDeployment) -> Seq<char> {
    |s: ServiceDeployment| s.id@
}

/// The id of a rollback event.
pub open spec fn event_key() -> spec_fn(RollbackEvent) -> Seq<char> {
    |e: RollbackEvent| e.id@
}

/// Adding a row under a fresh key keeps the keys unique.
pub proof fn lemma_fresh_key_stays_unique<T>(t: Seq<T>, key: spec_fn(T) -> Seq<char>, x: T)
    requires
        keys_unique(t, key),
        !key_taken(t, key, key(x)),
    ensures
        keys_unique(t.push(x), key),
{
    assert forall|i: int, j: int| 0 <= i < j < t.push(x).len() implies key(t.push(x)[i]) != key(t.push(x)[j]) by {
        if j == t.len() {
            assert(key(t[i]) != key(x));
        }
    }
}

/// A snapshot with its status set when it has the id.
pub open spec fn with_status_if(s: DeploymentSnapshot, id: Seq<char>, status: SnapshotStatus) -> DeploymentSnapshot {
    if s.id@ == id {
        DeploymentSnapshot { status, ..s }
    } else {
        s
    }
}

/// A snapshot superseded when it is an active one of the project other
/// than `except_id`.
pub open spec fn superseded_unless(s: DeploymentSnapshot, project_id: Seq<char>, except_id: Seq<char>) -> DeploymentSnapshot {
    if s.project_id@ == project_id && s.status == SnapshotStatus::Active && s.id@ != except_id {
        DeploymentSnapshot { status: SnapshotStatus::Superseded, ..s }
    } else {
        s
    }
}

/// An event marked complete, at a time and with an outcome, when it has the
/// id.
pub open spec fn completed_if(e: RollbackEvent, id: Seq<char>, at: i64, success: bool) -> RollbackEvent {
    if e.id@ == id {
        RollbackEvent { rollback_completed_at: Some(at), rollback_success: Some(success), ..e }
    } else {
        e
    }
}

/// A snapshot counts as the project's current one: active, and with its
/// smoke tests passed when `passed_only`.
pub open spec fn in_scope(s: DeploymentSnapshot, project_id: Seq<char>, passed_only: bool) -> bool {
    &&& s.project_id@ == project_id
    &&& s.status == SnapshotStatus::Active
    &&& passed_only ==> s.smoke_test_passed == Some(true)
}

/// The snapshot at `i` is the newest that counts (see `in_scope`): none
/// that counts was deployed later, and those saved before it were deployed
/// earlier.
pub open spec fn is_newest(t: Seq<DeploymentSnapshot>, project_id: Seq<char>, passed_only: bool, i: int) -> bool {
    &&& 0 <= i < t.len()
    &&& in_scope(t[i], project_id, passed_only)
    &&& forall|j: int|
        0 <= j < t.len() && in_scope(t[j], project_id, passed_only) ==> t[j].deployed_at <= t[i].deployed_at
    &&& forall|j: int| 0 <= j < i && in_scope(t[j], project_id, passed_only) ==> t[j].deployed_at < t[i].deployed_at
}

/// Some snapshot counts (see `in_scope`).
pub open spec fn has_in_scope(t: Seq<DeploymentSnapshot>, project_id: Seq<char>, passed_only: bool) -> bool {
    exists|j: int| 0 <= j < t.len() && in_scope(t[j], project_id, passed_only)
}

/// The newest snapshot that counts, if any (see `is_newest`).
pub open spec fn newest_snapshot(t: Seq<DeploymentSnapshot>, project_id: Seq<char>, passed_only: bool) -> Option<
    DeploymentSnapshot,
> {
    if exists|i: int| is_newest(t, project_id, passed_only, i) {
        Some(t[choose|i: int| is_newest(t, project_id, passed_only, i)])
    } else {
        None
    }
}

/// Both are absent, or both hold the same snapshot.
pub open spec fn same_opt_snapshot(a: Option<DeploymentSnapshot>, b: Option<DeploymentSnapshot>) -> bool {
    match (a, b) {
        (Some(x), Some(y)) => same_snapshot(x, y),
        (None, None) => true,
        _ => false,
    }
}

/// A project has at most one newest snapshot.
pub proof fn lemma_newest_unique(t: Seq<DeploymentSnapshot>, project_id: Seq<char>, passed_only: bool, i: int, j: int)
    requires
        is_newest(t, project_id, passed_only, i),
        is_newest(t, project_id, passed_only, j),
    ensures
        i == j,
{
    if i < j {
        assert(t[i].deployed_at < t[j].deployed_at);
    } else if j < i {
        assert(t[j].deployed_at < t[i].deployed_at);
    }
}

/// The newest snapshot that counts is one of the project's, active (and
/// passed, when asked), deployed no earlier than any other that counts;
/// there is none only when no snapshot counts.
pub proof fn lemma_newest_snapshot(t: Seq<DeploymentSnapshot>, project_id: Seq<char>, passed_only: bool)
    ensures
        match newest_snapshot(t, project_id, passed_only) {
            Some(s) => in_scope(s, project_id, passed_only) && forall|j: int|
                0 <= j < t.len() && in_scope(t[j], project_id, passed_only) ==> t[j].deployed_at <= s.deployed_at,
            None => !has_in_scope(t, project_id, passed_only),
        },
{
    lemma_newest_exists(t, project_id, passed_only);
}

proof fn lemma_newest_exists(t: Seq<DeploymentSnapshot>, project_id: Seq<char>, passed_only: bool)
    ensures
        has_in_scope(t, project_id, passed_only) ==> exists|i: int| is_newest(t, project_id, passed_only, i),
    decreases t.len(),
{
    if t.len() > 0 && has_in_scope(t, project_id, passed_only) {
        let q = t.drop_last();
        let last = t.len() - 1;
        lemma_newest_exists(q, project_id, passed_only);
        if has_in_scope(q, project_id, passed_only) {
            let m = choose|i: int| is_newest(q, project_id, passed_only, i);
            assert forall|j: int| 0 <= j < last implies t[j] == q[j] by {}
            if in_scope(t[last], project_id, passed_only) && t[m].deployed_at < t[last].deployed_at {
                assert(is_newest(t, project_id, passed_only, last));
            } else {
                assert(is_newest(t, project_id, passed_only, m));
            }
        } else {
            assert forall|j: int| 0 <= j < last implies t[j] == q[j] by {}
            assert(is_newest(t, project_id, passed_only, last));
        }
    }
}

/// The times at which the snapshots were deployed.
pub open spec fn snapshot_times(t: Seq<DeploymentSnapshot>) -> Seq<i64> {
    t.map_values(|s: DeploymentSnapshot| s.deployed_at)
}

/// Which snapshots belong to a project.
pub open spec fn snapshot_of_project(t: Seq<DeploymentSnapshot>, project_id: Seq<char>) -> Seq<bool> {
    t.map_values(|s: DeploymentSnapshot| s.project_id@ == project_id)
}

/// The positions of a project's snapshots, newest first.
pub open spec fn snapshot_listing(t: Seq<DeploymentSnapshot>, project_id: Seq<char>) -> Seq<usize> {
    newest_first(snapshot_times(t), snapshot_of_project(t, project_id), t.len())
}

/// The times at which the rollbacks started.
pub open spec fn event_times(t: Seq<RollbackEvent>) -> Seq<i64> {
    t.map_values(|e: RollbackEvent| e.rollback_started_at)
}

/// Which rollback events belong to a project.
pub open spec fn event_of_project(t: Seq<RollbackEvent>, project_id: Seq<char>) -> Seq<bool> {
    t.map_values(|e: RollbackEvent| e.project_id@ == project_id)
}

/// A project's rollback events, newest first.
pub open spec fn rollback_history(t: Seq<RollbackEvent>, project_id: Seq<char>) -> Seq<RollbackEvent> {
    newest_first(event_times(t), event_of_project(t, project_id), t.len()).map_values(|i: usize| t[i as int])
}

/// A project's snapshots are listed newest first: the listing holds each of
/// them once and nothing else, later deployments first and, of equal times,
/// the one saved first.
pub proof fn lemma_snapshot_listing(t: Seq<DeploymentSnapshot>, project_id: Seq<char>)
    requires
        t.len() <= usize::MAX,
    ensures
        forall|k: int|
            0 <= k < snapshot_listing(t, project_id).len() ==> t[#[trigger] snapshot_listing(t, project_id)[k] as int].project_id@
                == project_id,
        forall|i: int| 0 <= i < t.len() && t[i].project_id@ == project_id ==> snapshot_listing(t, project_id).contains(i as usize),
        forall|a: int, b: int|
            0 <= a < b < snapshot_listing(t, project_id).len() ==> newer_first(
                snapshot_times(t),
                #[trigger] snapshot_listing(t, project_id)[a] as int,
                #[trigger] snapshot_listing(t, project_id)[b] as int,
            ),
{
    lemma_newest_first_sorted(snapshot_times(t), snapshot_of_project(t, project_id), t.len());
    let l = snapshot_listing(t, project_id);
    assert forall|k: int| 0 <= k < l.len() implies t[#[trigger] l[k] as int].project_id@ == project_id by {
        assert(snapshot_of_project(t, project_id)[l[k] as int]);
    }
    assert forall|i: int| 0 <= i < t.len() && t[i].project_id@ == project_id implies l.contains(i as usize) by {
        assert(snapshot_of_project(t, project_id)[i]);
    }
}

/// `n` is `o` marked complete at some time with an outcome when it has the
/// id, else `o` itself.
pub open spec fn completed_sometime(o: RollbackEvent, n: RollbackEvent, id: Seq<char>, success: bool) -> bool {
    match n.rollback_completed_at {
        Some(at) => n == completed_if(o, id, at, success),
        None => n == o && o.id@ != id,
    }
}

/// The rollback records of the agent: snapshots, the services deployed with
/// them and rollback events, each in the order they were saved.
pub struct RollbackStorage {
    snapshots: Vec<DeploymentSnapshot>,
    services: Vec<ServiceDeployment>,
    events: Vec<RollbackEvent>,
}

impl RollbackStorage {
    /// The saved snapshots, oldest first.
    pub closed spec fn snapshots(self) -> Seq<DeploymentSnapshot> {
        self.snapshots@
    }

    /// The saved service deployments, oldest first.
    pub closed spec fn services(self) -> Seq<ServiceDeployment> {
        self.services@
    }

    /// The saved rollback events, oldest first.
    pub closed spec fn events(self) -> Seq<RollbackEvent> {
        self.events@
    }

    /// Ids are unique in each table.
    pub open spec fn wf(self) -> bool {
        &&& keys_unique(self.snapshots(), snapshot_key())
        &&& keys_unique(self.services(), service_key())
        &&& keys_unique(self.events(), event_key())
    }

    /// Empty storage.
    pub fn new() -> (r: RollbackStorage)
        ensures
            r.wf(),
            r.snapshots().len() == 0,
            r.services().len() == 0,
            r.events().len() == 0,
    {
        RollbackStorage { snapshots: Vec::new(), services: Vec::new(), events: Vec::new() }
    }

    /// The saved snapshots, oldest first.
    pub fn snapshot_rows(&self) -> (r: &Vec<DeploymentSnapshot>)
        ensures
            r@ == self.snapshots(),
    {
        &self.snapshots
    }

    /// The saved service deployments, oldest first.
    pub fn service_rows(&self) -> (r: &Vec<ServiceDeployment>)
        ensures
            r@ == self.services(),
    {
        &self.services
    }

    /// The saved rollback events, oldest first.
    pub fn event_rows(&self) -> (r: &Vec<RollbackEvent>)
        ensures
            r@ == self.events(),
    {
        &self.events
    }

    fn snapshot_taken(&self, id: &str) -> (r: bool)
        ensures
            r == key_taken(self.snapshots(), snapshot_key(), id@),
    {
        let mut i: usize = 0;
        while i < self.snapshots.len()
            invariant
                i <= self.snapshots@.len(),
                forall|j: int| 0 <= j < i ==> self.snapshots@[j].id@ != id@,
            decreases self.snapshots@.len() - i,
        {
            if str_eq(self.snapshots[i].id.as_str(), id) {
                assert(snapshot_key()(self.snapshots@[i as int]) == id@);
                return true;
            }
            i = i + 1;
        }
        false
    }

    /// Saves a snapshot; a snapshot with the same id is refused.
    pub fn save_snapshot(&mut self, snapshot: &DeploymentSnapshot) -> (r: Result<(), String>)
        requires
            old(self).wf(),
        ensures
            final(self).wf(),
            final(self).services() == old(self).services(),
            final(self).events() == old(self).events(),
            !key_taken(old(self).snapshots(), snapshot_key(), snapshot.id@) ==> {
                &&& r is Ok
                &&& final(self).snapshots().len() == old(self).snapshots().len() + 1
                &&& final(self).snapshots().drop_last() == old(self).snapshots()
                &&& same_snapshot(final(self).snapshots().last(), *snapshot)
            },
            key_taken(old(self).snapshots(), snapshot_key(), snapshot.id@) ==> {
                &&& r matches Err(e) && e@ == "Failed to save deployment snapshot"@
                &&& final(self).snapshots() == old(self).snapshots()
            },
    {
        if self.snapshot_taken(snapshot.id.as_str()) {
            return Err(String::from_str("Failed to save deployment snapshot"));
        }
        let c = copy_snapshot(snapshot);
        proof {
            lemma_fresh_key_stays_unique(self.snapshots@, snapshot_key(), c);
        }
        self.snapshots.push(c);
        assert(self.snapshots@.drop_last() =~= old(self).snapshots@);
        Ok(())
    }

    /// Saves a deployed service; a service with the same id is refused.
    pub fn save_service_deployment(&mut self, service: &ServiceDeployment) -> (r: Result<(), String>)
        requires
            old(self).wf(),
        ensures
            final(self).wf(),
            final(self).snapshots() == old(self).snapshots(),
            final(self).events() == old(self).events(),
            !key_taken(old(self).services(), service_key(), service.id@) ==> (r is Ok && final(self).services()
                == old(self).services().push(*service)),
            key_taken(old(self).services(), service_key(), service.id@) ==> (r matches Err(e) && e@
                == "Failed to save service deployment"@ && final(self).services() == old(self).services()),
    {
        let mut i: usize = 0;
        while i < self.services.len()
            invariant
                self.wf(),
                i <= self.services@.len(),
                forall|j: int| 0 <= j < i ==> self.services@[j].id@ != service.id@,
            decreases self.services@.len() - i,
        {
            if str_eq(self.services[i].id.as_str(), service.id.as_str()) {
                assert(service_key()(self.services@[i as int]) == service.id@);
                return Err(String::from_str("Failed to save service deployment"));
            }
            i = i + 1;
        }
        let c = copy_service_deployment(service);
        proof {
            lemma_fresh_key_stays_unique(self.services@, service_key(), c);
        }
        self.services.push(c);
        Ok(())
    }

    /// Saves a rollback event; an event with the same id is refused.
    pub fn save_rollback_event(&mut self, event: &RollbackEvent) -> (r: Result<(), String>)
        requires
            old(self).wf(),
        ensures
            final(self).wf(),
            final(self).snapshots() == old(self).snapshots(),
            final(self).services() == old(self).services(),
            !key_taken(old(self).events(), event_key(), event.id@) ==> (r is Ok && final(self).events() == old(self).events().push(*event)),
            key_taken(old(self).events(), event_key(), event.id@) ==> (r matches Err(e) && e@
                == "Failed to save rollback event"@ && final(self).events() == old(self).events()),
    {
        let mut i: usize = 0;
        while i < self.events.len()
            invariant
                self.wf(),
                i <= self.events@.len(),
                forall|j: int| 0 <= j < i ==> self.events@[j].id@ != event.id@,
            decreases self.events@.len() - i,
        {
            if str_eq(self.events[i].id.as_str(), event.id.as_str()) {
                assert(event_key()(self.events@[i as int]) == event.id@);
                return Err(String::from_str("Failed to save rollback event"));
            }
            i = i + 1;
        }
        let c = copy_event(event);
        proof {
            lemma_fresh_key_stays_unique(self.events@, event_key(), c);
        }
        self.events.push(c);
        Ok(())
    }

    fn set_status_where_id(&mut self, id: &str, status: SnapshotStatus)
        requires
            old(self).wf(),
        ensures
            final(self).wf(),
            final(self).snapshots() == old(self).snapshots().map_values(
                |s: DeploymentSnapshot| with_status_if(s, id@, status),
            ),
            final(self).services() == old(self).services(),
            final(self).events() == old(self).events(),
    {
        let ghost t0 = self.snapshots@;
        let mut i: usize = 0;
        while i < self.snapshots.len()
            invariant
                i <= self.snapshots@.len(),
                self.snapshots@.len() == t0.len(),
                keys_unique(t0, snapshot_key()),
                forall|j: int| 0 <= j < i ==> self.snapshots@[j] == with_status_if(t0[j], id@, status),
                forall|j: int| i <= j < t0.len() ==> self.snapshots@[j] == t0[j],
                self.services@ == old(self).services@,
                self.events@ == old(self).events@,
                keys_unique(self.services@, service_key()),
                keys_unique(self.events@, event_key()),
            decreases t0.len() - i,
        {
            if str_eq(self.snapshots[i].id.as_str(), id) {
                self.snapshots[i].status = status;
            }
            i = i + 1;
        }
        assert(self.snapshots@ =~= t0.map_values(|s: DeploymentSnapshot| with_status_if(s, id@, status)));
        assert forall|x: int, y: int| 0 <= x < y < self.snapshots@.len() implies snapshot_key()(self.snapshots@[x])
            != snapshot_key()(self.snapshots@[y]) by {
            assert(snapshot_key()(t0[x]) != snapshot_key()(t0[y]));
        }
    }

    /// Marks the snapshot with an id active.
    pub fn mark_snapshot_as_active(&mut self, snapshot_id: &str) -> (r: Result<(), String>)
        requires
            old(self).wf(),
        ensures
            final(self).wf(),
            r is Ok,
            final(self).snapshots() == old(self).snapshots().map_values(
                |s: DeploymentSnapshot| with_status_if(s, snapshot_id@, SnapshotStatus::Active),
            ),
            final(self).services() == old(self).services(),
            final(self).events() == old(self).events(),
    {
        self.set_status_where_id(snapshot_id, SnapshotStatus::Active);
        Ok(())
    }

    /// Marks the snapshot with an id rolled back.
    pub fn mark_snapshot_as_rolled_back(&mut self, snapshot_id: &str) -> (r: Result<(), String>)
        requires
            old(self).wf(),
        ensures
            final(self).wf(),
            r is Ok,
            final(self).snapshots() == old(self).snapshots().map_values(
                |s: DeploymentSnapshot| with_status_if(s, snapshot_id@, SnapshotStatus::RolledBack),
            ),
            final(self).services() == old(self).services(),
            final(self).events() == old(self).events(),
    {
        self.set_status_where_id(snapshot_id, SnapshotStatus::RolledBack);
        Ok(())
    }

    /// Marks every active snapshot of a project but `except_id` superseded.
    pub fn supersede_previous_snapshots(&mut self, project_id: &str, except_id: &str) -> (r: Result<(), String>)
        requires
            old(self).wf(),
        ensures
            final(self).wf(),
            r is Ok,
            final(self).snapshots() == old(self).snapshots().map_values(
                |s: DeploymentSnapshot| superseded_unless(s, project_id@, except_id@),
            ),
            final(self).services() == old(self).services(),
            final(self).events() == old(self).events(),
    {
        let ghost t0 = self.snapshots@;
        let mut i: usize = 0;
        while i < self.snapshots.len()
            invariant
                i <= self.snapshots@.len(),
                self.snapshots@.len() == t0.len(),
                keys_unique(t0, snapshot_key()),
                forall|j: int| 0 <= j < i ==> self.snapshots@[j] == superseded_unless(t0[j], project_id@, except_id@),
                forall|j: int| i <= j < t0.len() ==> self.snapshots@[j] == t0[j],
                self.services@ == old(self).services@,
                self.events@ == old(self).events@,
                keys_unique(self.services@, service_key()),
                keys_unique(self.events@, event_key()),
            decreases t0.len() - i,
        {
            if str_eq(self.snapshots[i].project_id.as_str(), project_id) && self.snapshots[i].status
                == SnapshotStatus::Active && !str_eq(self.snapshots[i].id.as_str(), except_id) {
                self.snapshots[i].status = SnapshotStatus::Superseded;
            }
            i = i + 1;
        }
        assert(self.snapshots@ =~= t0.map_values(
            |s: DeploymentSnapshot| superseded_unless(s, project_id@, except_id@),
        ));
        assert forall|x: int, y: int| 0 <= x < y < self.snapshots@.len() implies snapshot_key()(self.snapshots@[x])
            != snapshot_key()(self.snapshots@[y]) by {
            assert(snapshot_key()(t0[x]) != snapshot_key()(t0[y]));
        }
        Ok(())
    }

    /// Marks the rollback event with an id complete at `completed_at`, with
    /// its outcome.
    pub fn complete_rollback_event_at(&mut self, event_id: &str, success: bool, completed_at: i64) -> (r: Result<
        (),
        String,
    >)
        requires
            old(self).wf(),
        ensures
            final(self).wf(),
            r is Ok,
            final(self).events() == old(self).events().map_values(
                |e: RollbackEvent| completed_if(e, event_id@, completed_at, success),
            ),
            final(self).snapshots() == old(self).snapshots(),
            final(self).services() == old(self).services(),
    {
        let ghost t0 = self.events@;
        let mut i: usize = 0;
        while i < self.events.len()
            invariant
                i <= self.events@.len(),
                self.events@.len() == t0.len(),
                keys_unique(t0, event_key()),
                forall|j: int| 0 <= j < i ==> self.events@[j] == completed_if(t0[j], event_id@, completed_at, success),
                forall|j: int| i <= j < t0.len() ==> self.events@[j] == t0[j],
                self.services@ == old(self).services@,
                self.snapshots@ == old(self).snapshots@,
                keys_unique(self.services@, service_key()),
                keys_unique(self.snapshots@, snapshot_key()),
            decreases t0.len() - i,
        {
            if str_eq(self.events[i].id.as_str(), event_id) {
                self.events[i].rollback_completed_at = Some(completed_at);
                self.events[i].rollback_success = Some(success);
            }
            i = i + 1;
        }
        assert(self.events@ =~= t0.map_values(|e: RollbackEvent| completed_if(e, event_id@, completed_at, success)));
        assert forall|x: int, y: int| 0 <= x < y < self.events@.len() implies event_key()(self.events@[x])
            != event_key()(self.events@[y]) by {
            assert(event_key()(t0[x]) != event_key()(t0[y]));
        }
        Ok(())
    }

    /// Marks the rollback event with an id complete now, with its outcome.
    pub fn complete_rollback_event(&mut self, event_id: &str, success: bool) -> (r: Result<(), String>)
        requires
            old(self).wf(),
        ensures
            final(self).wf(),
            r is Ok,
            final(self).events().len() == old(self).events().len(),
            forall|i: int|
                0 <= i < old(self).events().len() ==> completed_sometime(
                    old(self).events()[i],
                    #[trigger] final(self).events()[i],
                    event_id@,
                    success,
                ),
            final(self).snapshots() == old(self).snapshots(),
            final(self).services() == old(self).services(),
    {
        let now = now_timestamp();
        self.complete_rollback_event_at(event_id, success, now)
    }

    fn newest(&self, project_id: &str, passed_only: bool) -> (r: Option<usize>)
        ensures
            match r {
                Some(m) => is_newest(self.snapshots(), project_id@, passed_only, m as int),
                None => !has_in_scope(self.snapshots(), project_id@, passed_only),
            },
    {
        let mut best: Option<usize> = None;
        let mut i: usize = 0;
        while i < self.snapshots.len()
            invariant
                i <= self.snapshots@.len(),
                match best {
                    Some(m) => is_newest(self.snapshots@.subrange(0, i as int), project_id@, passed_only, m as int),
                    None => !has_in_scope(self.snapshots@.subrange(0, i as int), project_id@, passed_only),
                },
            decreases self.snapshots@.len() - i,
        {
            let ghost p = self.snapshots@.subrange(0, i as int);
            let ghost q = self.snapshots@.subrange(0, i + 1);
            assert(q.drop_last() =~= p);
            let s = &self.snapshots[i];
            let counts = str_eq(s.project_id.as_str(), project_id) && s.status == SnapshotStatus::Active && (!passed_only
                || s.smoke_test_passed == Some(true));
            if counts {
                match best {
                    Some(m) => {
                        if self.snapshots[m].deployed_at < s.deployed_at {
                            best = Some(i);
                        }
                    },
                    None => {
                        best = Some(i);
                    },
                }
            }
            proof {
                assert(counts == in_scope(q[i as int], project_id@, passed_only));
                match best {
                    Some(m) => {
                        assert forall|j: int|
                            0 <= j < q.len() && in_scope(q[j], project_id@, passed_only) implies q[j].deployed_at
                            <= q[m as int].deployed_at by {
                            if j < i {
                                assert(p[j] == q[j]);
                            }
                        }
                        assert forall|j: int| 0 <= j < m && in_scope(q[j], project_id@, passed_only) implies q[j].deployed_at
                            < q[m as int].deployed_at by {
                            if j < i {
                                assert(p[j] == q[j]);
                            }
                        }
                    },
                    None => {
                        assert forall|j: int| 0 <= j < q.len() implies !in_scope(q[j], project_id@, passed_only) by {
                            if j < i {
                                assert(p[j] == q[j]);
                            }
                        }
                    },
                }
            }
            i = i + 1;
        }
        assert(self.snapshots@.subrange(0, self.snapshots@.len() as int) =~= self.snapshots@);
        best
    }

    fn newest_copy(&self, project_id: &str, passed_only: bool) -> (r: Option<DeploymentSnapshot>)
        ensures
            same_opt_snapshot(r, newest_snapshot(self.snapshots(), project_id@, passed_only)),
    {
        match self.newest(project_id, passed_only) {
            Some(m) => {
                proof {
                    let w = choose|i: int| is_newest(self.snapshots@, project_id@, passed_only, i);
                    lemma_newest_unique(self.snapshots@, project_id@, passed_only, w, m as int);
                }
                Some(copy_snapshot(&self.snapshots[m]))
            },
            None => {
                assert(!exists|i: int| is_newest(self.snapshots@, project_id@, passed_only, i));
                None
            },
        }
    }

    /// The project's newest active snapshot whose smoke tests passed (of
    /// those deployed at the same time, the first saved), if any.
    pub fn get_last_successful_snapshot(&self, project_id: &str) -> (r: Result<Option<DeploymentSnapshot>, String>)
        ensures
            r matches Ok(o) && same_opt_snapshot(o, newest_snapshot(self.snapshots(), project_id@, true)),
    {
        Ok(self.newest_copy(project_id, true))
    }

    /// The project's newest active snapshot (of those deployed at the same
    /// time, the first saved), if any.
    pub fn get_active_snapshot(&self, project_id: &str) -> (r: Result<Option<DeploymentSnapshot>, String>)
        ensures
            r matches Ok(o) && same_opt_snapshot(o, newest_snapshot(self.snapshots(), project_id@, false)),
    {
        Ok(self.newest_copy(project_id, false))
    }

    /// The project's snapshots, newest first (see `snapshot_listing`).
    pub fn list_snapshots(&self, project_id: &str) -> (r: Result<Vec<DeploymentSnapshot>, String>)
        ensures
            r matches Ok(v) && v@.len() == snapshot_listing(self.snapshots(), project_id@).len() && forall|k: int|
                0 <= k < v@.len() ==> same_snapshot(
                    #[trigger] v@[k],
                    self.snapshots()[snapshot_listing(self.snapshots(), project_id@)[k] as int],
                ),
    {
        let mut keys: Vec<i64> = Vec::new();
        let mut sel: Vec<bool> = Vec::new();
        let mut i: usize = 0;
        while i < self.snapshots.len()
            invariant
                i <= self.snapshots@.len(),
                keys@ == snapshot_times(self.snapshots@).subrange(0, i as int),
                sel@ == snapshot_of_project(self.snapshots@, project_id@).subrange(0, i as int),
            decreases self.snapshots@.len() - i,
        {
            keys.push(self.snapshots[i].deployed_at);
            sel.push(str_eq(self.snapshots[i].project_id.as_str(), project_id));
            i = i + 1;
        }
        assert(keys@ =~= snapshot_times(self.snapshots@));
        assert(sel@ =~= snapshot_of_project(self.snapshots@, project_id@));
        let order = order_newest_first(&keys, &sel);
        proof {
            lemma_newest_first_sorted(keys@, sel@, keys@.len());
        }
        let mut v: Vec<DeploymentSnapshot> = Vec::new();
        let mut k: usize = 0;
        while k < order.len()
            invariant
                order@ == snapshot_listing(self.snapshots@, project_id@),
                forall|x: int| 0 <= x < order@.len() ==> (#[trigger] order@[x]) < self.snapshots@.len(),
                k <= order@.len(),
                v@.len() == k,
                forall|x: int| 0 <= x < k ==> same_snapshot(#[trigger] v@[x], self.snapshots@[order@[x] as int]),
            decreases order@.len() - k,
        {
            v.push(copy_snapshot(&self.snapshots[order[k]]));
            k = k + 1;
        }
        Ok(v)
    }

    /// The project's rollback events, newest first (see `rollback_history`).
    pub fn get_rollback_history(&self, project_id: &str) -> (r: Result<Vec<RollbackEvent>, String>)
        ensures
            r matches Ok(v) && v@ == rollback_history(self.events(), project_id@),
    {
        let mut keys: Vec<i64> = Vec::new();
        let mut sel: Vec<bool> = Vec::new();
        let mut i: usize = 0;
        while i < self.events.len()
            invariant
                i <= self.events@.len(),
                keys@ == event_times(self.events@).subrange(0, i as int),
                sel@ == event_of_project(self.events@, project_id@).subrange(0, i as int),
            decreases self.events@.len() - i,
        {
            keys.push(self.events[i].rollback_started_at);
            sel.push(str_eq(self.events[i].project_id.as_str(), project_id));
            i = i + 1;
        }
        assert(keys@ =~= event_times(self.events@));
        assert(sel@ =~= event_of_project(self.events@, project_id@));
        let order = order_newest_first(&keys, &sel);
        proof {
            lemma_newest_first_sorted(keys@, sel@, keys@.len());
        }
        let mut v: Vec<RollbackEvent> = Vec::new();
        let mut k: usize = 0;
        while k < order.len()
            invariant
                order@ == newest_first(event_times(self.events@), event_of_project(self.events@, project_id@), self.events@.len()),
                forall|x: int| 0 <= x < order@.len() ==> (#[trigger] order@[x]) < self.events@.len(),
                k <= order@.len(),
                v@ == order@.subrange(0, k as int).map_values(|i: usize| self.events@[i as int]),
            decreases order@.len() - k,
        {
            v.push(copy_event(&self.events[order[k]]));
            assert(order@.subrange(0, k + 1).map_values(|i: usize| self.events@[i as int]) =~= order@.subrange(
                0,
                k as int,
            ).map_values(|i: usize| self.events@[i as int]).push(self.events@[order@[k as int] as int]));
            k = k + 1;
        }
        assert(order@.subrange(0, order@.len() as int) =~= order@);
        Ok(v)
    }
}

// ---------------------------------------------------------------------------
// The rollback manager's bookkeeping
// ---------------------------------------------------------------------------

/// `e` is the record of a rollback as it starts: from the `from_id`
/// snapshot to the `to_id` one, not yet complete.
pub open spec fn event_opened(
    e: RollbackEvent,
    id: Seq<char>,
    project_id: Seq<char>,
    from_id: Seq<char>,
    to_id: Seq<char>,
    reason: RollbackReason,
    started_at: i64,
    performed_by: Seq<char>,
) -> bool {
    &&& e.id@ == id
    &&& e.project_id@ == project_id
    &&& e.from_snapshot_id@ == from_id
    &&& e.to_snapshot_id@ == to_id
    &&& e.reason == reason
    &&& e.failure_details is None
    &&& e.rollback_started_at == started_at
    &&& e.rollback_completed_at is None
    &&& e.rollback_success is None
    &&& e.performed_by@ == performed_by
}

/// A rollback under way: its record, the snapshot it returns to and the one
/// it leaves.
pub struct RollbackStart {
    pub event: RollbackEvent,
    pub target: DeploymentSnapshot,
    pub current: DeploymentSnapshot,
}

/// The rollback manager: the records of snapshots and rollbacks, kept as
/// snapshots are taken and rollbacks run.
pub struct RollbackManager {
    storage: RollbackStorage,
}

impl RollbackManager {
    /// The records.
    pub closed spec fn records(self) -> RollbackStorage {
        self.storage
    }

    /// The records are well formed.
    pub open spec fn wf(self) -> bool {
        self.records().wf()
    }

    /// A manager keeping its records in `storage`.
    pub fn new(storage: RollbackStorage) -> (r: RollbackManager)
        requires
            storage.wf(),
        ensures
            r.wf(),
            r.records() == storage,
    {
        RollbackManager { storage }
    }

    /// The records.
    pub fn storage(&self) -> (r: &RollbackStorage)
        ensures
            *r == self.records(),
    {
        &self.storage
    }

    /// Records a snapshot taken with the strategy actually used and
    /// supersedes the project's other active snapshots; returns the snapshot
    /// as recorded.  A snapshot whose id is taken is refused.
    pub fn record_snapshot(&mut self, snapshot: DeploymentSnapshot, strategy: RollbackStrategy) -> (r: Result<
        DeploymentSnapshot,
        String,
    >)
        requires
            old(self).wf(),
        ensures
            final(self).wf(),
            final(self).records().events() == old(self).records().events(),
            key_taken(old(self).records().snapshots(), snapshot_key(), snapshot.id@) ==> (r matches Err(e) && e@
                == "Failed to save deployment snapshot"@ && final(self).records().snapshots() == old(self).records().snapshots()),
            !key_taken(old(self).records().snapshots(), snapshot_key(), snapshot.id@) ==> {
                &&& r matches Ok(s) && s == (DeploymentSnapshot { strategy, ..snapshot })
                &&& final(self).records().snapshots().len() == old(self).records().snapshots().len() + 1
                &&& final(self).records().snapshots().drop_last() == old(self).records().snapshots().map_values(
                    |x: DeploymentSnapshot| superseded_unless(x, snapshot.project_id@, snapshot.id@),
                )
                &&& same_snapshot(final(self).records().snapshots().last(), DeploymentSnapshot { strategy, ..snapshot })
            },
            !key_taken(old(self).records().snapshots(), snapshot_key(), snapshot.id@) && snapshot.status
                == SnapshotStatus::Active ==> {
                &&& forall|i: int|
                    0 <= i < final(self).records().snapshots().len() && in_scope(
                        #[trigger] final(self).records().snapshots()[i],
                        snapshot.project_id@,
                        false,
                    ) ==> i == final(self).records().snapshots().len() - 1
                &&& newest_snapshot(final(self).records().snapshots(), snapshot.project_id@, false) matches Some(n)
                    && same_snapshot(n, DeploymentSnapshot { strategy, ..snapshot })
            },
    {
        let mut snapshot = snapshot;
        snapshot.strategy = strategy;
        let ghost t0 = self.storage.snapshots@;
        match self.storage.save_snapshot(&snapshot) {
            Err(e) => Err(e),
            Ok(()) => {
                let ghost t1 = self.storage.snapshots@;
                let _ = self.storage.supersede_previous_snapshots(snapshot.project_id.as_str(), snapshot.id.as_str());
                proof {
                    let t2 = self.storage.snapshots@;
                    let last = t1.len() - 1;
                    assert(t1.drop_last() == t0);
                    assert(t2[last] == superseded_unless(t1[last], snapshot.project_id@, snapshot.id@));
                    assert(t1[last].id@ == snapshot.id@);
                    assert(t2.drop_last() =~= t0.map_values(
                        |x: DeploymentSnapshot| superseded_unless(x, snapshot.project_id@, snapshot.id@),
                    ));
                    if snapshot.status == SnapshotStatus::Active {
                        assert forall|i: int| 0 <= i < t2.len() && in_scope(#[trigger] t2[i], snapshot.project_id@, false)
                            implies i == last by {
                            if i < last {
                                assert(t2[i] == superseded_unless(t0[i], snapshot.project_id@, snapshot.id@));
                                assert(snapshot_key()(t0[i]) != snapshot.id@);
                            }
                        }
                        assert(is_newest(t2, snapshot.project_id@, false, last));
                        let w = choose|i: int| is_newest(t2, snapshot.project_id@, false, i);
                        lemma_newest_unique(t2, snapshot.project_id@, false, w, last);
                    }
                }
                Ok(snapshot)
            },
        }
    }

    /// Starts a rollback of a project to its last successful snapshot,
    /// under a given event id and start time: records the rollback event and
    /// returns what the rollback works with.  Fails when there is no
    /// successful or no active snapshot, when the event id is taken, and
    /// (after recording the event) when the target's strategy has no
    /// implementation (hybrid).
    pub fn begin_rollback_at(
        &mut self,
        project_id: &str,
        reason: RollbackReason,
        performed_by: &str,
        event_id: String,
        started_at: i64,
    ) -> (r: Result<RollbackStart, String>)
        requires
            old(self).wf(),
        ensures
            final(self).wf(),
            final(self).records().snapshots() == old(self).records().snapshots(),
            match (
                newest_snapshot(old(self).records().snapshots(), project_id@, true),
                newest_snapshot(old(self).records().snapshots(), project_id@, false),
            ) {
                (None, _) => r matches Err(e) && e@ == "No previous successful deployment found"@ && final(self).records().events() == old(self).records().events(),
                (Some(_), None) => r matches Err(e) && e@ == "No active deployment found"@ && final(self).records().events() == old(self).records().events(),
                (Some(t), Some(c)) => if key_taken(old(self).records().events(), event_key(), event_id@) {
                    r matches Err(e) && e@ == "Failed to save rollback event"@ && final(self).records().events() == old(self).records().events()
                } else {
                    &&& final(self).records().events().len() == old(self).records().events().len() + 1
                    &&& final(self).records().events().drop_last() == old(self).records().events()
                    &&& event_opened(
                        final(self).records().events().last(),
                        event_id@,
                        project_id@,
                        c.id@,
                        t.id@,
                        reason,
                        started_at,
                        performed_by@,
                    )
                    &&& t.strategy == RollbackStrategy::Hybrid ==> (r matches Err(e) && e@ == "Strategy not implemented"@)
                    &&& t.strategy != RollbackStrategy::Hybrid ==> (r matches Ok(st) && same_snapshot(st.target, t)
                        && same_snapshot(st.current, c) && st.event == final(self).records().events().last())
                },
            },
    {
        let target = match self.storage.get_last_successful_snapshot(project_id) {
            Ok(Some(t)) => t,
            _ => return Err(String::from_str("No previous successful deployment found")),
        };
        let current = match self.storage.get_active_snapshot(project_id) {
            Ok(Some(c)) => c,
            _ => return Err(String::from_str("No active deployment found")),
        };
        let event = rollback_started(event_id, project_id, &current, &target, reason, started_at, performed_by);
        match self.storage.save_rollback_event(&event) {
            Err(e) => return Err(e),
            Ok(()) => {},
        }
        assert(self.storage.events@.drop_last() =~= old(self).storage.events@);
        if target.strategy == RollbackStrategy::Hybrid {
            return Err(String::from_str("Strategy not implemented"));
        }
        Ok(RollbackStart { event, target, current })
    }

    /// Starts a rollback of a project to its last successful snapshot (see
    /// `begin_rollback_at`), under a fresh event id, now.
    pub fn begin_rollback(&mut self, project_id: &str, reason: RollbackReason, performed_by: &str) -> (r: Result<
        RollbackStart,
        String,
    >)
        requires
            old(self).wf(),
        ensures
            final(self).wf(),
            final(self).records().snapshots() == old(self).records().snapshots(),
            newest_snapshot(old(self).records().snapshots(), project_id@, true) is None ==> (r matches Err(e) && e@
                == "No previous successful deployment found"@),
            r matches Ok(st) ==> {
                &&& newest_snapshot(old(self).records().snapshots(), project_id@, true) matches Some(t)
                &&& same_snapshot(st.target, t)
                &&& newest_snapshot(old(self).records().snapshots(), project_id@, false) matches Some(c)
                &&& same_snapshot(st.current, c)
                &&& final(self).records().events() == old(self).records().events().push(st.event)
                &&& event_opened(st.event, st.event.id@, project_id@, c.id@, t.id@, reason, st.event.rollback_started_at, performed_by@)
            },
    {
        let event_id = generate_agent_id();
        let started_at = now_timestamp();
        let r = self.begin_rollback_at(project_id, reason, performed_by, event_id, started_at);
        proof {
            if r is Ok {
                assert(self.storage.events@ =~= old(self).storage.events@.push(self.storage.events@.last()));
            }
        }
        r
    }

    /// Ends a rollback at `completed_at`: when it succeeded, its target
    /// becomes active and the snapshot it left is marked rolled back; the
    /// event records the outcome either way.
    pub fn finish_rollback_at(&mut self, start: &RollbackStart, success: bool, completed_at: i64) -> (r: Result<
        (),
        String,
    >)
        requires
            old(self).wf(),
        ensures
            final(self).wf(),
            r is Ok,
            final(self).records().events() == old(self).records().events().map_values(
                |e: RollbackEvent| completed_if(e, start.event.id@, completed_at, success),
            ),
            success ==> final(self).records().snapshots() == old(self).records().snapshots().map_values(
                |s: DeploymentSnapshot| with_status_if(s, start.target.id@, SnapshotStatus::Active),
            ).map_values(|s: DeploymentSnapshot| with_status_if(s, start.current.id@, SnapshotStatus::RolledBack)),
            !success ==> final(self).records().snapshots() == old(self).records().snapshots(),
            success && start.target.id@ != start.current.id@ ==> forall|i: int|
                0 <= i < final(self).records().snapshots().len() ==> {
                    &&& (#[trigger] final(self).records().snapshots()[i]).id@ == start.target.id@ ==> final(self).records().snapshots()[i].status == SnapshotStatus::Active
                    &&& final(self).records().snapshots()[i].id@ == start.current.id@ ==> final(self).records().snapshots()[i].status == SnapshotStatus::RolledBack
                },
    {
        if success {
            let _ = self.storage.mark_snapshot_as_active(start.target.id.as_str());
            let _ = self.storage.mark_snapshot_as_rolled_back(start.current.id.as_str());
        }
        self.storage.complete_rollback_event_at(start.event.id.as_str(), success, completed_at)
    }

    /// Ends a rollback now (see `finish_rollback_at`).
    pub fn finish_rollback(&mut self, start: &RollbackStart, success: bool) -> (r: Result<(), String>)
        requires
            old(self).wf(),
        ensures
            final(self).wf(),
            r is Ok,
            final(self).records().events().len() == old(self).records().events().len(),
            forall|i: int|
                0 <= i < old(self).records().events().len() ==> completed_sometime(
                    old(self).records().events()[i],
                    #[trigger] final(self).records().events()[i],
                    start.event.id@,
                    success,
                ),
            success ==> final(self).records().snapshots() == old(self).records().snapshots().map_values(
                |s: DeploymentSnapshot| with_status_if(s, start.target.id@, SnapshotStatus::Active),
            ).map_values(|s: DeploymentSnapshot| with_status_if(s, start.current.id@, SnapshotStatus::RolledBack)),
            !success ==> final(self).records().snapshots() == old(self).records().snapshots(),
    {
        let now = now_timestamp();
        let r = self.finish_rollback_at(start, success, now);
        proof {
            assert forall|i: int| 0 <= i < old(self).storage.events@.len() implies completed_sometime(
                old(self).storage.events@[i],
                #[trigger] self.storage.events@[i],
                start.event.id@,
                success,
            ) by {
                assert(self.storage.events@[i] == completed_if(old(self).storage.events@[i], start.event.id@, now, success));
            }
        }
        r
    }

    /// The project's snapshots, newest first.
    pub fn list_snapshots(&self, project_id: &str) -> (r: Result<Vec<DeploymentSnapshot>, String>)
        ensures
            r matches Ok(v) && v@.len() == snapshot_listing(self.records().snapshots(), project_id@).len()
                && forall|k: int|
                0 <= k < v@.len() ==> same_snapshot(
                    #[trigger] v@[k],
                    self.records().snapshots()[snapshot_listing(self.records().snapshots(), project_id@)[k] as int],
                ),
    {
        self.storage.list_snapshots(project_id)
    }

    /// The project's rollback events, newest first.
    pub fn get_rollback_history(&self, project_id: &str) -> (r: Result<Vec<RollbackEvent>, String>)
        ensures
            r matches Ok(v) && v@ == rollback_history(self.records().events(), project_id@),
    {
        self.storage.get_rollback_history(project_id)
    }
}

} // verus!
