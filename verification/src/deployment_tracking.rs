//! Deployment attempts and their status, as recorded for retries.
use vstd::prelude::*;
use vstd::string::*;
use crate::crypto::generate_agent_id;
use crate::secrets::now_timestamp;
use crate::text::{chars_of, eq_chars, str_eq};

verus! {

/// One deployment attempt.
#[derive(Debug, Clone)]
pub struct DeploymentAttempt {
    pub id: String,
    pub project_id: String,
    pub project_name: String,
    pub commit_sha: String,
    pub deploy_dir: String,
    pub config_path: String,
    pub triggered_by: String,
    pub status: DeploymentStatus,
    pub started_at: i64,
    pub completed_at: Option<i64>,
    pub failure_reason: Option<String>,
    pub failure_details: Option<String>,
    pub retry_count: i32,
    pub original_attempt_id: Option<String>,
}

/// Status of a deployment attempt.
#[derive(Debug, Clone, Copy, PartialEq, Eq, Structural)]
pub enum DeploymentStatus {
    Pending,
    Running,
    Success,
    Failed,
}

/// The stored name of a status.
pub open spec fn status_name(s: DeploymentStatus) -> Seq<char> {
    match s {
        DeploymentStatus::Pending => "pending"@,
        DeploymentStatus::Running => "running"@,
        DeploymentStatus::Success => "success"@,
        DeploymentStatus::Failed => "failed"@,
    }
}

/// The status a stored name denotes; unknown names count as failed.
pub open spec fn status_from_name(t: Seq<char>) -> DeploymentStatus {
    if t == "pending"@ {
        DeploymentStatus::Pending
    } else if t == "running"@ {
        DeploymentStatus::Running
    } else if t == "success"@ {
        DeploymentStatus::Success
    } else {
        DeploymentStatus::Failed
    }
}

/// The name under which `{:?}` shows a status.
pub open spec fn status_debug_name(s: DeploymentStatus) -> Seq<char> {
    match s {
        DeploymentStatus::Pending => "Pending"@,
        DeploymentStatus::Running => "Running"@,
        DeploymentStatus::Success => "Success"@,
        DeploymentStatus::Failed => "Failed"@,
    }
}

impl DeploymentStatus {
    /// The stored name of this status.
    pub fn to_string(&self) -> (r: &'static str)
        ensures
            r@ == status_name(*self),
    {
        match self {
            DeploymentStatus::Pending => "pending",
            DeploymentStatus::Running => "running",
            DeploymentStatus::Success => "success",
            DeploymentStatus::Failed => "failed",
        }
    }

    /// The status a stored name denotes; unknown names count as failed.
    pub fn from_string(s: &str) -> (r: Self)
        ensures
            r == status_from_name(s@),
    {
        let v = chars_of(s);
        if eq_chars(&v, &chars_of("pending")) {
            DeploymentStatus::Pending
        } else if eq_chars(&v, &chars_of("running")) {
            DeploymentStatus::Running
        } else if eq_chars(&v, &chars_of("success")) {
            DeploymentStatus::Success
        } else {
            DeploymentStatus::Failed
        }
    }

    /// The name under which `{:?}` shows this status.
    pub fn debug_name(&self) -> (r: &'static str)
        ensures
            r@ == status_debug_name(*self),
    {
        match self {
            DeploymentStatus::Pending => "Pending",
            DeploymentStatus::Running => "Running",
            DeploymentStatus::Success => "Success",
            DeploymentStatus::Failed => "Failed",
        }
    }
}

/// Reading back the stored name of a status gives the status again.
pub proof fn lemma_status_name_roundtrip(s: DeploymentStatus)
    ensures
        status_from_name(status_name(s)) == s,
{
    reveal_strlit("pending");
    reveal_strlit("running");
    reveal_strlit("success");
    reveal_strlit("failed");
    assert("running"@[0] != "pending"@[0]);
    assert("success"@[0] != "pending"@[0]);
    assert("success"@[0] != "running"@[0]);
    assert("failed"@ != "pending"@);
    assert("failed"@ != "running"@);
    assert("failed"@ != "success"@);
}

/// The attempt recorded when a deployment starts: pending, not retried.
pub open spec fn spec_new_attempt(
    id: Seq<char>,
    project_id: Seq<char>,
    project_name: Seq<char>,
    commit_sha: Seq<char>,
    deploy_dir: Seq<char>,
    config_path: Seq<char>,
    triggered_by: Seq<char>,
    started_at: i64,
    a: DeploymentAttempt,
) -> bool {
    &&& a.id@ == id
    &&& a.project_id@ == project_id
    &&& a.project_name@ == project_name
    &&& a.commit_sha@ == commit_sha
    &&& a.deploy_dir@ == deploy_dir
    &&& a.config_path@ == config_path
    &&& a.triggered_by@ == triggered_by
    &&& a.status == DeploymentStatus::Pending
    &&& a.started_at == started_at
    &&& a.completed_at is None
    &&& a.failure_reason is None
    &&& a.failure_details is None
    &&& a.retry_count == 0
    &&& a.original_attempt_id is None
}

/// The record of a new deployment attempt with the given identity.
pub fn new_attempt(
    id: String,
    project_id: &str,
    project_name: &str,
    commit_sha: &str,
    deploy_dir: &str,
    config_path: &str,
    triggered_by: &str,
    started_at: i64,
) -> (a: DeploymentAttempt)
    ensures
        spec_new_attempt(id@, project_id@, project_name@, commit_sha@, deploy_dir@, config_path@, triggered_by@, started_at, a),
{
    DeploymentAttempt {
        id,
        project_id: String::from_str(project_id),
        project_name: String::from_str(project_name),
        commit_sha: String::from_str(commit_sha),
        deploy_dir: String::from_str(deploy_dir),
        config_path: String::from_str(config_path),
        triggered_by: String::from_str(triggered_by),
        status: DeploymentStatus::Pending,
        started_at,
        completed_at: None,
        failure_reason: None,
        failure_details: None,
        retry_count: 0,
        original_attempt_id: None,
    }
}

/// The retry of `original`: same project, commit and directories, triggered
/// by "retry", pending, one more retry than the original, pointing back at it.
pub open spec fn spec_retry_attempt(
    original: DeploymentAttempt,
    original_attempt_id: Seq<char>,
    id: Seq<char>,
    started_at: i64,
    a: DeploymentAttempt,
) -> bool {
    &&& a.id@ == id
    &&& a.project_id@ == original.project_id@
    &&& a.project_name@ == original.project_name@
    &&& a.commit_sha@ == original.commit_sha@
    &&& a.deploy_dir@ == original.deploy_dir@
    &&& a.config_path@ == original.config_path@
    &&& a.triggered_by@ == "retry"@
    &&& a.status == DeploymentStatus::Pending
    &&& a.started_at == started_at
    &&& a.completed_at is None
    &&& a.failure_reason is None
    &&& a.failure_details is None
    &&& a.retry_count == original.retry_count + 1
    &&& a.original_attempt_id matches Some(o) && o@ == original_attempt_id
}

/// The record of a retry of `original` (looked up by `original_attempt_id`).
pub fn retry_attempt(original: &DeploymentAttempt, original_attempt_id: &str, id: String, started_at: i64) -> (a: DeploymentAttempt)
    requires
        original.retry_count < i32::MAX,
    ensures
        spec_retry_attempt(*original, original_attempt_id@, id@, started_at, a),
{
    DeploymentAttempt {
        id,
        project_id: original.project_id.clone(),
        project_name: original.project_name.clone(),
        commit_sha: original.commit_sha.clone(),
        deploy_dir: original.deploy_dir.clone(),
        config_path: original.config_path.clone(),
        triggered_by: String::from_str("retry"),
        status: DeploymentStatus::Pending,
        started_at,
        completed_at: None,
        failure_reason: None,
        failure_details: None,
        retry_count: original.retry_count + 1,
        original_attempt_id: Some(String::from_str(original_attempt_id)),
    }
}

fn copy_opt(s: &Option<String>) -> (r: Option<String>)
    ensures
        r == *s,
{
    match s {
        Some(t) => Some(t.clone()),
        None => None,
    }
}

/// A copy of an attempt.
pub fn copy_attempt(a: &DeploymentAttempt) -> (r: DeploymentAttempt)
    ensures
        r == *a,
{
    DeploymentAttempt {
        id: a.id.clone(),
        project_id: a.project_id.clone(),
        project_name: a.project_name.clone(),
        commit_sha: a.commit_sha.clone(),
        deploy_dir: a.deploy_dir.clone(),
        config_path: a.config_path.clone(),
        triggered_by: a.triggered_by.clone(),
        status: a.status,
        started_at: a.started_at,
        completed_at: a.completed_at,
        failure_reason: copy_opt(&a.failure_reason),
        failure_details: copy_opt(&a.failure_details),
        retry_count: a.retry_count,
        original_attempt_id: copy_opt(&a.original_attempt_id),
    }
}

// ---------------------------------------------------------------------------
// The table of attempts
// ---------------------------------------------------------------------------

/// No two attempts share an id.
pub open spec fn ids_unique(t: Seq<DeploymentAttempt>) -> bool {
    forall|i: int, j: int| 0 <= i < j < t.len() ==> t[i].id@ != t[j].id@
}

/// The position of the attempt with an id, if any.
pub open spec fn attempt_position(t: Seq<DeploymentAttempt>, id: Seq<char>) -> Option<int> {
    if exists|i: int| 0 <= i < t.len() && t[i].id@ == id {
        Some(choose|i: int| 0 <= i < t.len() && t[i].id@ == id)
    } else {
        None
    }
}

/// The project an attempt belongs to, by id or by name.
pub open spec fn project_key(a: DeploymentAttempt, by_name: bool) -> Seq<char> {
    if by_name {
        a.project_name@
    } else {
        a.project_id@
    }
}

/// The attempt at `i` is the project's latest: no attempt of the project
/// started later, and those recorded before it started earlier.
pub open spec fn is_latest_by(t: Seq<DeploymentAttempt>, by_name: bool, project: Seq<char>, i: int) -> bool {
    &&& 0 <= i < t.len()
    &&& project_key(t[i], by_name) == project
    &&& forall|j: int|
        0 <= j < t.len() && project_key(t[j], by_name) == project ==> t[j].started_at <= t[i].started_at
    &&& forall|j: int| 0 <= j < i && project_key(t[j], by_name) == project ==> t[j].started_at < t[i].started_at
}

/// The attempt at `i` is the latest of the project with this id.
pub open spec fn is_latest(t: Seq<DeploymentAttempt>, project_id: Seq<char>, i: int) -> bool {
    is_latest_by(t, false, project_id, i)
}

/// A project has at most one latest attempt.
pub proof fn lemma_latest_unique(t: Seq<DeploymentAttempt>, by_name: bool, project: Seq<char>, i: int, j: int)
    requires
        is_latest_by(t, by_name, project, i),
        is_latest_by(t, by_name, project, j),
    ensures
        i == j,
{
    if i < j {
        assert(t[i].started_at < t[j].started_at);
    } else if j < i {
        assert(t[j].started_at < t[i].started_at);
    }
}

/// The project has an attempt.
pub open spec fn has_attempt_by(t: Seq<DeploymentAttempt>, by_name: bool, project: Seq<char>) -> bool {
    exists|j: int| 0 <= j < t.len() && project_key(t[j], by_name) == project
}

/// The project with this id has an attempt.
pub open spec fn has_attempt(t: Seq<DeploymentAttempt>, project_id: Seq<char>) -> bool {
    has_attempt_by(t, false, project_id)
}

/// The latest attempt of the project with this name, if any.
pub open spec fn latest_named(t: Seq<DeploymentAttempt>, project_name: Seq<char>) -> Option<DeploymentAttempt> {
    if exists|i: int| is_latest_by(t, true, project_name, i) {
        Some(t[choose|i: int| is_latest_by(t, true, project_name, i)])
    } else {
        None
    }
}

/// An attempt with its status set.
pub open spec fn with_status(a: DeploymentAttempt, status: DeploymentStatus) -> DeploymentAttempt {
    DeploymentAttempt { status, ..a }
}

/// An attempt marked complete.
pub open spec fn completed(
    a: DeploymentAttempt,
    status: DeploymentStatus,
    at: i64,
    failure_reason: Option<String>,
    failure_details: Option<String>,
) -> DeploymentAttempt {
    DeploymentAttempt { status, completed_at: Some(at), failure_reason, failure_details, ..a }
}

proof fn lemma_attempt_position(t: Seq<DeploymentAttempt>, id: Seq<char>, i: int)
    requires
        ids_unique(t),
        0 <= i < t.len(),
        t[i].id@ == id,
    ensures
        attempt_position(t, id) == Some(i),
{
    let w = attempt_position(t, id)->0;
    if w < i {
        assert(t[w].id@ != t[i].id@);
    } else if w > i {
        assert(t[i].id@ != t[w].id@);
    }
}

/// With unique ids, an attempt of the table is found by its id at its
/// position.
pub proof fn lemma_position_of_member(t: Seq<DeploymentAttempt>, i: int)
    requires
        ids_unique(t),
        0 <= i < t.len(),
    ensures
        attempt_position(t, t[i].id@) == Some(i),
{
    lemma_attempt_position(t, t[i].id@, i);
}

/// An attempt recorded under a fresh id is found again by that id, at the
/// end of the table.
pub proof fn lemma_recorded_attempt_found(t: Seq<DeploymentAttempt>, a: DeploymentAttempt)
    requires
        ids_unique(t),
        attempt_position(t, a.id@) is None,
    ensures
        ids_unique(t.push(a)),
        attempt_position(t.push(a), a.id@) == Some(t.len() as int),
{
    assert forall|i: int, j: int| 0 <= i < j < t.push(a).len() implies t.push(a)[i].id@ != t.push(a)[j].id@ by {
        if j == t.len() {
            assert(t[i].id@ != a.id@);
        }
    }
    lemma_attempt_position(t.push(a), a.id@, t.len() as int);
}

/// The deployment attempts, in the order they were recorded.
pub struct DeploymentTracker {
    attempts: Vec<DeploymentAttempt>,
}

impl DeploymentTracker {
    /// The recorded attempts, oldest first.
    pub closed spec fn table(self) -> Seq<DeploymentAttempt> {
        self.attempts@
    }

    /// No two recorded attempts share an id.
    pub open spec fn wf(self) -> bool {
        ids_unique(self.table())
    }

    /// A tracker with no attempts.
    pub fn new() -> (r: DeploymentTracker)
        ensures
            r.wf(),
            r.table().len() == 0,
    {
        DeploymentTracker { attempts: Vec::new() }
    }

    /// The recorded attempts, oldest first.
    pub fn attempts(&self) -> (r: &Vec<DeploymentAttempt>)
        ensures
            r@ == self.table(),
    {
        &self.attempts
    }

    /// Attempts read back from the agent's database; refused (`None`) when
    /// two share an id.
    pub fn restore(attempts: Vec<DeploymentAttempt>) -> (r: Option<DeploymentTracker>)
        ensures
            match r {
                Some(t) => t.wf() && t.table() == attempts@,
                None => !ids_unique(attempts@),
            },
    {
        let mut i: usize = 0;
        while i < attempts.len()
            invariant
                i <= attempts@.len(),
                forall|a: int, b: int| 0 <= a < i && a < b < attempts@.len() ==> attempts@[a].id@ != attempts@[b].id@,
            decreases attempts@.len() - i,
        {
            let mut j: usize = i + 1;
            while j < attempts.len()
                invariant
                    i < j <= attempts@.len(),
                    forall|a: int, b: int| 0 <= a < i && a < b < attempts@.len() ==> attempts@[a].id@ != attempts@[b].id@,
                    forall|b: int| i < b < j ==> attempts@[i as int].id@ != attempts@[b].id@,
                decreases attempts@.len() - j,
            {
                if str_eq(attempts[i].id.as_str(), attempts[j].id.as_str()) {
                    return None;
                }
                j = j + 1;
            }
            i = i + 1;
        }
        Some(DeploymentTracker { attempts })
    }

    fn find(&self, id: &str) -> (r: Option<usize>)
        requires
            self.wf(),
        ensures
            r matches Some(i) ==> i < self.attempts@.len() && attempt_position(self.attempts@, id@) == Some(i as int),
            r is None ==> attempt_position(self.attempts@, id@) is None,
    {
        let mut i: usize = 0;
        while i < self.attempts.len()
            invariant
                ids_unique(self.attempts@),
                i <= self.attempts@.len(),
                forall|j: int| 0 <= j < i ==> self.attempts@[j].id@ != id@,
            decreases self.attempts@.len() - i,
        {
            if str_eq(self.attempts[i].id.as_str(), id) {
                proof {
                    lemma_attempt_position(self.attempts@, id@, i as int);
                }
                return Some(i);
            }
            i = i + 1;
        }
        None
    }

    fn record(&mut self, a: DeploymentAttempt) -> (r: bool)
        requires
            old(self).wf(),
        ensures
            final(self).wf(),
            r == (attempt_position(old(self).table(), a.id@) is None),
            r ==> final(self).table() == old(self).table().push(a),
            !r ==> final(self).table() == old(self).table(),
    {
        match self.find(a.id.as_str()) {
            Some(_) => false,
            None => {
                proof {
                    lemma_recorded_attempt_found(self.attempts@, a);
                }
                self.attempts.push(a);
                true
            },
        }
    }

    /// Records a new pending attempt of a project with the given id and start
    /// time and returns it; refused when the id is taken.
    pub fn create_attempt_with(
        &mut self,
        id: String,
        project_id: &str,
        project_name: &str,
        commit_sha: &str,
        deploy_dir: &str,
        config_path: &str,
        triggered_by: &str,
        started_at: i64,
    ) -> (r: Result<DeploymentAttempt, String>)
        requires
            old(self).wf(),
        ensures
            final(self).wf(),
            attempt_position(old(self).table(), id@) is Some ==> (r matches Err(e) && e@
                == "Failed to create deployment attempt"@ && final(self).table() == old(self).table()),
            attempt_position(old(self).table(), id@) is None ==> (r matches Ok(a) && spec_new_attempt(id@, project_id@,
                project_name@, commit_sha@, deploy_dir@, config_path@, triggered_by@, started_at, a)
                && final(self).table() == old(self).table().push(a)),
    {
        let a = new_attempt(id, project_id, project_name, commit_sha, deploy_dir, config_path, triggered_by, started_at);
        let c = copy_attempt(&a);
        if self.record(c) {
            Ok(a)
        } else {
            Err(String::from_str("Failed to create deployment attempt"))
        }
    }

    /// Records a new pending attempt of a project under a fresh id, started
    /// now (see `create_attempt_with`); the outcome depends on whether the
    /// fresh id is taken.
    pub fn create_attempt(
        &mut self,
        project_id: &str,
        project_name: &str,
        commit_sha: &str,
        deploy_dir: &str,
        config_path: &str,
        triggered_by: &str,
    ) -> (r: Result<DeploymentAttempt, String>)
        requires
            old(self).wf(),
        ensures
            final(self).wf(),
            match r {
                Ok(a) => {
                    &&& spec_new_attempt(a.id@, project_id@, project_name@, commit_sha@, deploy_dir@, config_path@,
                        triggered_by@, a.started_at, a)
                    &&& attempt_position(old(self).table(), a.id@) is None
                    &&& final(self).table() == old(self).table().push(a)
                },
                Err(e) => e@ == "Failed to create deployment attempt"@ && final(self).table() == old(self).table(),
            },
    {
        let id = generate_agent_id();
        let started_at = now_timestamp();
        self.create_attempt_with(id, project_id, project_name, commit_sha, deploy_dir, config_path, triggered_by, started_at)
    }

    /// Sets the status of the attempt with an id (no attempt changes when
    /// none has it).
    pub fn update_status(&mut self, attempt_id: &str, status: DeploymentStatus) -> (r: Result<(), String>)
        requires
            old(self).wf(),
        ensures
            final(self).wf(),
            r is Ok,
            final(self).table() == (match attempt_position(old(self).table(), attempt_id@) {
                Some(i) => old(self).table().update(i, with_status(old(self).table()[i], status)),
                None => old(self).table(),
            }),
    {
        match self.find(attempt_id) {
            Some(i) => {
                let mut a = copy_attempt(&self.attempts[i]);
                a.status = status;
                let ghost t0 = self.attempts@;
                self.attempts.set(i, a);
                proof {
                    assert forall|x: int, y: int| 0 <= x < y < self.attempts@.len() implies self.attempts@[x].id@
                        != self.attempts@[y].id@ by {
                        assert(self.attempts@[x].id == t0[x].id);
                        assert(self.attempts@[y].id == t0[y].id);
                    }
                }
            },
            None => {},
        }
        Ok(())
    }

    /// Marks the attempt with an id complete (now), with its final status
    /// and the failure's reason and details (no attempt changes when none
    /// has the id).
    pub fn complete_attempt(
        &mut self,
        attempt_id: &str,
        status: DeploymentStatus,
        failure_reason: Option<String>,
        failure_details: Option<String>,
    ) -> (r: Result<(), String>)
        requires
            old(self).wf(),
        ensures
            final(self).wf(),
            r is Ok,
            final(self).table().len() == old(self).table().len(),
            match attempt_position(old(self).table(), attempt_id@) {
                Some(i) => final(self).table()[i].completed_at matches Some(at) && final(self).table()
                    == old(self).table().update(
                    i,
                    completed(old(self).table()[i], status, at, failure_reason, failure_details),
                ),
                None => final(self).table() == old(self).table(),
            },
    {
        let now = now_timestamp();
        match self.find(attempt_id) {
            Some(i) => {
                let mut a = copy_attempt(&self.attempts[i]);
                a.status = status;
                a.completed_at = Some(now);
                a.failure_reason = failure_reason;
                a.failure_details = failure_details;
                let ghost t0 = self.attempts@;
                self.attempts.set(i, a);
                proof {
                    assert forall|x: int, y: int| 0 <= x < y < self.attempts@.len() implies self.attempts@[x].id@
                        != self.attempts@[y].id@ by {
                        assert(self.attempts@[x].id == t0[x].id);
                        assert(self.attempts@[y].id == t0[y].id);
                    }
                    assert(self.attempts@ == t0.update(
                        i as int,
                        completed(t0[i as int], status, now, failure_reason, failure_details),
                    ));
                }
            },
            None => {},
        }
        Ok(())
    }

    fn latest_by(&self, by_name: bool, project: &str) -> (r: Option<usize>)
        ensures
            match r {
                Some(m) => is_latest_by(self.attempts@, by_name, project@, m as int),
                None => !has_attempt_by(self.attempts@, by_name, project@),
            },
    {
        let mut best: Option<usize> = None;
        let mut i: usize = 0;
        while i < self.attempts.len()
            invariant
                i <= self.attempts@.len(),
                match best {
                    Some(m) => is_latest_by(self.attempts@.subrange(0, i as int), by_name, project@, m as int),
                    None => !has_attempt_by(self.attempts@.subrange(0, i as int), by_name, project@),
                },
            decreases self.attempts@.len() - i,
        {
            let ghost p = self.attempts@.subrange(0, i as int);
            let ghost q = self.attempts@.subrange(0, i + 1);
            assert(q.drop_last() =~= p);
            let key = if by_name {
                self.attempts[i].project_name.as_str()
            } else {
                self.attempts[i].project_id.as_str()
            };
            if str_eq(key, project) {
                match best {
                    Some(m) => {
                        if self.attempts[m].started_at < self.attempts[i].started_at {
                            best = Some(i);
                        }
                    },
                    None => {
                        best = Some(i);
                    },
                }
            }
            proof {
                match best {
                    Some(m) => {
                        assert forall|j: int|
                            0 <= j < q.len() && project_key(q[j], by_name) == project@ implies q[j].started_at
                            <= q[m as int].started_at by {
                            if j < i {
                                assert(p[j] == q[j]);
                            }
                        }
                        assert forall|j: int| 0 <= j < m && project_key(q[j], by_name) == project@ implies q[j].started_at
                            < q[m as int].started_at by {
                            if j < i {
                                assert(p[j] == q[j]);
                            }
                        }
                    },
                    None => {
                        assert forall|j: int| 0 <= j < q.len() implies project_key(q[j], by_name) != project@ by {
                            if j < i {
                                assert(p[j] == q[j]);
                            }
                        }
                    },
                }
            }
            i = i + 1;
        }
        assert(self.attempts@.subrange(0, self.attempts@.len() as int) =~= self.attempts@);
        best
    }

    /// The project's latest attempt (the one that started last; of those
    /// that started in the same second, the first recorded), if any.
    pub fn get_latest_attempt(&self, project_id: &str) -> (r: Result<Option<DeploymentAttempt>, String>)
        ensures
            match r {
                Ok(Some(a)) => exists|i: int| is_latest(self.table(), project_id@, i) && a == self.table()[i],
                Ok(None) => !has_attempt(self.table(), project_id@),
                Err(_) => false,
            },
    {
        match self.latest_by(false, project_id) {
            Some(m) => {
                let a = copy_attempt(&self.attempts[m]);
                assert(is_latest(self.table(), project_id@, m as int) && a == self.table()[m as int]);
                Ok(Some(a))
            },
            None => Ok(None),
        }
    }

    /// The latest attempt of the project with this name (see
    /// `get_latest_attempt`), if any.
    pub fn get_latest_attempt_by_name(&self, project_name: &str) -> (r: Result<Option<DeploymentAttempt>, String>)
        ensures
            r == Ok::<Option<DeploymentAttempt>, String>(latest_named(self.table(), project_name@)),
    {
        match self.latest_by(true, project_name) {
            Some(m) => {
                let a = copy_attempt(&self.attempts[m]);
                proof {
                    let w = choose|i: int| is_latest_by(self.attempts@, true, project_name@, i);
                    lemma_latest_unique(self.attempts@, true, project_name@, w, m as int);
                }
                Ok(Some(a))
            },
            None => {
                assert(!exists|i: int| is_latest_by(self.attempts@, true, project_name@, i));
                Ok(None)
            },
        }
    }

    /// The attempt with an id, if any.
    pub fn get_attempt(&self, attempt_id: &str) -> (r: Result<Option<DeploymentAttempt>, String>)
        requires
            self.wf(),
        ensures
            match r {
                Ok(Some(a)) => attempt_position(self.table(), attempt_id@) matches Some(i) && a == self.table()[i],
                Ok(None) => attempt_position(self.table(), attempt_id@) is None,
                Err(_) => false,
            },
    {
        match self.find(attempt_id) {
            Some(i) => Ok(Some(copy_attempt(&self.attempts[i]))),
            None => Ok(None),
        }
    }

    /// Records a retry of the attempt with an id, with the given id and start
    /// time: refused when the original is unknown, when its retry count is at
    /// its limit, or when the id is taken; else the retry is recorded and
    /// returned.
    pub fn create_retry_attempt_with(
        &mut self,
        original_attempt_id: &str,
        id: String,
        started_at: i64,
    ) -> (r: Result<DeploymentAttempt, String>)
        requires
            old(self).wf(),
        ensures
            final(self).wf(),
            match attempt_position(old(self).table(), original_attempt_id@) {
                None => r matches Err(e) && e@ == "Original deployment attempt not found"@ && final(self).table()
                    == old(self).table(),
                Some(k) => if old(self).table()[k].retry_count == i32::MAX || attempt_position(
                    old(self).table(),
                    id@,
                ) is Some {
                    r matches Err(e) && e@ == "Failed to create retry attempt"@ && final(self).table()
                        == old(self).table()
                } else {
                    r matches Ok(a) && spec_retry_attempt(old(self).table()[k], original_attempt_id@, id@, started_at, a)
                        && final(self).table() == old(self).table().push(a)
                },
            },
            r matches Ok(a) ==> a.id@ != original_attempt_id@,
    {
        let original = match self.find(original_attempt_id) {
            Some(k) => copy_attempt(&self.attempts[k]),
            None => return Err(String::from_str("Original deployment attempt not found")),
        };
        if original.retry_count == i32::MAX {
            return Err(String::from_str("Failed to create retry attempt"));
        }
        let a = retry_attempt(&original, original_attempt_id, id, started_at);
        let c = copy_attempt(&a);
        if self.record(c) {
            Ok(a)
        } else {
            Err(String::from_str("Failed to create retry attempt"))
        }
    }

    /// Records a retry of the attempt with an id, under a fresh id and the
    /// current time (see `create_retry_attempt_with`): the original must be
    /// known; a retry count at its limit is refused; otherwise the outcome
    /// depends on whether the fresh id is taken.
    pub fn create_retry_attempt(&mut self, original_attempt_id: &str) -> (r: Result<DeploymentAttempt, String>)
        requires
            old(self).wf(),
        ensures
            final(self).wf(),
            match attempt_position(old(self).table(), original_attempt_id@) {
                None => r matches Err(e) && e@ == "Original deployment attempt not found"@ && final(self).table()
                    == old(self).table(),
                Some(k) => {
                    &&& old(self).table()[k].retry_count == i32::MAX ==> (r matches Err(e) && e@
                        == "Failed to create retry attempt"@)
                    &&& match r {
                        Ok(a) => {
                            &&& spec_retry_attempt(old(self).table()[k], original_attempt_id@, a.id@, a.started_at, a)
                            &&& attempt_position(old(self).table(), a.id@) is None
                            &&& final(self).table() == old(self).table().push(a)
                        },
                        Err(e) => e@ == "Failed to create retry attempt"@ && final(self).table() == old(self).table(),
                    }
                },
            },
            r matches Ok(a) ==> a.id@ != original_attempt_id@,
    {
        let id = generate_agent_id();
        let started_at = now_timestamp();
        self.create_retry_attempt_with(original_attempt_id, id, started_at)
    }
}

} // verus!
