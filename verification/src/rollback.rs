//! Rollback of deployments: the strategies, the snapshots taken before a
//! deployment, and the decisions of the rollback manager.
use vstd::prelude::*;
use vstd::string::*;
use crate::text::{
    chars_of, contains, decimal_int, lowercase, push_int, push_str, slice_chars, str_contains, string_of,
    string_views, to_lowercase, trim, trim_chars, trim_start, trim_start_chars,
};

verus! {

// ---------------------------------------------------------------------------
// Rollback settings
// ---------------------------------------------------------------------------

/// How a deployment is snapshotted for rollback.
#[derive(Debug, Clone, Copy, PartialEq, Eq, Structural)]
pub enum RollbackStrategy {
    ImageTagging,
    GitCommit,
    Snapshot,
    /// Chosen per project.
    Hybrid,
}

/// `{:?}` of a rollback strategy.
pub open spec fn strategy_name(s: RollbackStrategy) -> Seq<char> {
    match s {
        RollbackStrategy::ImageTagging => "ImageTagging"@,
        RollbackStrategy::GitCommit => "GitCommit"@,
        RollbackStrategy::Snapshot => "Snapshot"@,
        RollbackStrategy::Hybrid => "Hybrid"@,
    }
}

impl RollbackStrategy {
    /// The strategy's name, as `{:?}` prints it.
    pub fn debug_name(&self) -> (r: String)
        ensures
            r@ == strategy_name(*self),
    {
        match self {
            RollbackStrategy::ImageTagging => String::from_str("ImageTagging"),
            RollbackStrategy::GitCommit => String::from_str("GitCommit"),
            RollbackStrategy::Snapshot => String::from_str("Snapshot"),
            RollbackStrategy::Hybrid => String::from_str("Hybrid"),
        }
    }
}

/// Rollback settings of a project.
#[derive(Debug, Clone, Copy)]
pub struct RollbackConfig {
    pub enabled: bool,
    pub strategy: RollbackStrategy,
    pub auto_rollback_on_test_failure: bool,
}

impl RollbackConfig {
    /// Rollback disabled, hybrid strategy, automatic rollback on failure.
    pub fn default() -> (r: RollbackConfig)
        ensures
            !r.enabled,
            r.strategy == RollbackStrategy::Hybrid,
            r.auto_rollback_on_test_failure,
    {
        RollbackConfig { enabled: false, strategy: RollbackStrategy::Hybrid, auto_rollback_on_test_failure: true }
    }
}

/// Why a rollback is made.
#[derive(Debug, Clone, Copy, PartialEq, Eq, Structural)]
pub enum RollbackReason {
    SmokeTestFailure,
    Manual,
    HealthCheckFailure,
}


// ---------------------------------------------------------------------------
// Snapshots
// ---------------------------------------------------------------------------

/// The state of a snapshot.
#[derive(Debug, Clone, Copy, PartialEq, Eq, Structural)]
pub enum SnapshotStatus {
    Active,
    RolledBack,
    Failed,
    Superseded,
}

/// The health of a deployed service.
#[derive(Debug, Clone, Copy, PartialEq, Eq, Structural)]
pub enum HealthStatus {
    Healthy,
    Unhealthy,
    Starting,
    Failed,
}

/// What is kept of a deployment to return to it.
#[derive(Debug, Clone)]
pub struct DeploymentSnapshot {
    pub id: String,
    pub project_id: String,
    pub commit_sha: String,
    pub deployed_at: i64,
    pub status: SnapshotStatus,
    pub strategy: RollbackStrategy,
    /// Rollback image tag of each service (image tagging).
    pub image_tags: Option<Vec<(String, String)>>,
    /// Branch and commit message (git commit).
    pub git_branch: Option<String>,
    pub git_message: Option<String>,
    /// Volume and database backups (snapshot).
    pub snapshot_path: Option<String>,
    pub database_backup_path: Option<String>,
    pub smoke_test_passed: Option<bool>,
    pub smoke_test_results: Option<String>,
    pub triggered_by: String,
    pub rollback_from_id: Option<String>,
}

/// A service as deployed with a snapshot.
#[derive(Debug, Clone)]
pub struct ServiceDeployment {
    pub id: String,
    pub snapshot_id: String,
    pub service_name: String,
    pub container_id: Option<String>,
    pub image_name: Option<String>,
    pub image_tag: Option<String>,
    pub health_status: HealthStatus,
    pub health_check_output: Option<String>,
    pub rollback_strategy: RollbackStrategy,
    pub startup_time_ms: Option<i64>,
    pub memory_usage_mb: Option<i64>,
}

/// A rollback, for the audit trail.
#[derive(Debug, Clone)]
pub struct RollbackEvent {
    pub id: String,
    pub project_id: String,
    pub from_snapshot_id: String,
    pub to_snapshot_id: String,
    pub reason: RollbackReason,
    pub failure_details: Option<String>,
    pub rollback_started_at: i64,
    pub rollback_completed_at: Option<i64>,
    pub rollback_success: Option<bool>,
    pub performed_by: String,
}

/// How long a rollback with a strategy takes, in seconds (hybrid rollbacks
/// take the time of the strategy chosen).
pub fn estimated_rollback_time(strategy: RollbackStrategy) -> (r: Option<u64>)
    ensures
        r == (match strategy {
            RollbackStrategy::ImageTagging => Some(10u64),
            RollbackStrategy::GitCommit => Some(180u64),
            RollbackStrategy::Snapshot => Some(45u64),
            RollbackStrategy::Hybrid => None::<u64>,
        }),
{
    match strategy {
        RollbackStrategy::ImageTagging => Some(10),
        RollbackStrategy::GitCommit => Some(180),
        RollbackStrategy::Snapshot => Some(45),
        RollbackStrategy::Hybrid => None,
    }
}

/// The directories whose presence shows database migrations.
pub fn migration_paths() -> (r: Vec<String>)
    ensures
        string_views(r@) == seq![
            "migrations"@,
            "db/migrations"@,
            "database/migrations"@,
            "alembic/versions"@,
            "prisma/migrations"@,
        ],
{
    let mut r: Vec<String> = Vec::new();
    push_str(&mut r, "migrations");
    push_str(&mut r, "db/migrations");
    push_str(&mut r, "database/migrations");
    push_str(&mut r, "alembic/versions");
    push_str(&mut r, "prisma/migrations");
    assert(string_views(r@) =~= seq![
        "migrations"@,
        "db/migrations"@,
        "database/migrations"@,
        "alembic/versions"@,
        "prisma/migrations"@,
    ]);
    r
}

/// The strategy of a hybrid rollback: snapshots for projects with
/// migrations or a database, git commits for frontends (`frontend`, `web`
/// or `ui` in the name), image tags otherwise.
pub open spec fn hybrid_choice(project_name: Seq<char>, has_migrations: bool, has_database: bool) -> RollbackStrategy {
    if has_migrations || has_database {
        RollbackStrategy::Snapshot
    } else if contains(project_name, "frontend"@) || contains(project_name, "web"@) || contains(project_name, "ui"@) {
        RollbackStrategy::GitCommit
    } else {
        RollbackStrategy::ImageTagging
    }
}

/// Projects with migrations or a database are rolled back from snapshots;
/// otherwise a project whose name mentions `frontend`, `web` or `ui` is
/// rolled back to a git commit, and any other by image tags.
pub proof fn lemma_hybrid_choice(project_name: Seq<char>, has_migrations: bool, has_database: bool)
    ensures
        has_migrations || has_database ==> hybrid_choice(project_name, has_migrations, has_database)
            == RollbackStrategy::Snapshot,
        !has_migrations && !has_database && (contains(project_name, "frontend"@) || contains(project_name, "web"@)
            || contains(project_name, "ui"@)) ==> hybrid_choice(project_name, has_migrations, has_database)
            == RollbackStrategy::GitCommit,
        !has_migrations && !has_database && !contains(project_name, "frontend"@) && !contains(project_name, "web"@)
            && !contains(project_name, "ui"@) ==> hybrid_choice(project_name, has_migrations, has_database)
            == RollbackStrategy::ImageTagging,
{
}

/// The strategy a hybrid rollback uses for a project (see `hybrid_choice`).
pub fn determine_hybrid_strategy(project_name: &str, has_migrations: bool, has_database: bool) -> (r: RollbackStrategy)
    ensures
        r == hybrid_choice(project_name@, has_migrations, has_database),
        has_migrations || has_database ==> r == RollbackStrategy::Snapshot,
        !has_migrations && !has_database && (contains(project_name@, "frontend"@) || contains(project_name@, "web"@)
            || contains(project_name@, "ui"@)) ==> r == RollbackStrategy::GitCommit,
        !has_migrations && !has_database && !contains(project_name@, "frontend"@) && !contains(project_name@, "web"@)
            && !contains(project_name@, "ui"@) ==> r == RollbackStrategy::ImageTagging,
{
    proof {
        lemma_hybrid_choice(project_name@, has_migrations, has_database);
    }
    if has_migrations || has_database {
        RollbackStrategy::Snapshot
    } else if str_contains(project_name, "frontend") || str_contains(project_name, "web") || str_contains(
        project_name,
        "ui",
    ) {
        RollbackStrategy::GitCommit
    } else {
        RollbackStrategy::ImageTagging
    }
}

/// The strategy a snapshot is taken with: the hybrid choice for `Hybrid`,
/// the configured one otherwise.
pub fn actual_strategy(strategy: RollbackStrategy, project_name: &str, has_migrations: bool, has_database: bool) -> (r:
    RollbackStrategy)
    ensures
        strategy == RollbackStrategy::Hybrid ==> r == hybrid_choice(project_name@, has_migrations, has_database),
        strategy != RollbackStrategy::Hybrid ==> r == strategy,
        r != RollbackStrategy::Hybrid,
{
    match strategy {
        RollbackStrategy::Hybrid => determine_hybrid_strategy(project_name, has_migrations, has_database),
        other => other,
    }
}

/// The last position of `c` in `s` (`str::rfind`).
pub open spec fn last_index_of(s: Seq<char>, c: char) -> Option<int> {
    if exists|i: int| 0 <= i < s.len() && s[i] == c {
        Some(choose|i: int| 0 <= i < s.len() && s[i] == c && forall|j: int| i < j < s.len() ==> s[j] != c)
    } else {
        None
    }
}

proof fn lemma_last_index(s: Seq<char>, c: char, i: int)
    requires
        0 <= i < s.len(),
        s[i] == c,
        forall|j: int| i < j < s.len() ==> s[j] != c,
    ensures
        last_index_of(s, c) == Some(i),
{
    assert(0 <= i < s.len() && s[i] == c && forall|j: int| i < j < s.len() ==> s[j] != c);
    let w = last_index_of(s, c)->0;
    if w < i {
        assert(s[i] != c);
    } else if w > i {
        assert(s[w] != c);
    }
}

/// An image reference split at its last `:` into name and tag; without a
/// `:`, the tag is `latest`.
pub open spec fn image_parts(image: Seq<char>) -> (Seq<char>, Seq<char>) {
    match last_index_of(image, ':') {
        Some(p) => (image.subrange(0, p), image.subrange(p + 1, image.len() as int)),
        None => (image, "latest"@),
    }
}

/// An image reference's name and tag (see `image_parts`).
pub fn split_image_ref(image: &str) -> (r: (String, String))
    ensures
        (r.0@, r.1@) == image_parts(image@),
{
    let v = chars_of(image);
    let mut i = v.len();
    while i > 0
        invariant
            i <= v@.len(),
            v@ == image@,
            forall|j: int| i <= j < v@.len() ==> v@[j] != ':',
        decreases i,
    {
        if v[i - 1] == ':' {
            proof {
                lemma_last_index(v@, ':', i - 1);
            }
            return (string_of(&slice_chars(&v, 0, i - 1)), string_of(&slice_chars(&v, i, v.len())));
        }
        i = i - 1;
    }
    (String::from_str(image), String::from_str("latest"))
}

/// The service a container runs: its name without leading `/`s, then
/// without leading `<project>-`s.
pub open spec fn service_of_container(name: Seq<char>, project: Seq<char>) -> Seq<char> {
    strip_all(trim_start(name, Some('/')), project + "-"@)
}

/// `s` without every leading copy of `p` (`str::trim_start_matches`).
pub open spec fn strip_all(s: Seq<char>, p: Seq<char>) -> Seq<char>
    decreases s.len(),
{
    if p.len() > 0 && p.len() <= s.len() && s.subrange(0, p.len() as int) == p {
        strip_all(s.subrange(p.len() as int, s.len() as int), p)
    } else {
        s
    }
}

/// The service a container runs (see `service_of_container`).
pub fn container_service_name(name: &str, project_name: &str) -> (r: String)
    ensures
        r@ == service_of_container(name@, project_name@),
{
    let a = trim_start_chars(&chars_of(name), Some('/'));
    let mut pfx = String::from_str(project_name);
    pfx.append("-");
    let p = chars_of(pfx.as_str());
    let mut start: usize = 0;
    assert(a@.subrange(0, a@.len() as int) =~= a@);
    while p.len() > 0 && start <= a.len() && p.len() <= a.len() - start && crate::text::matches_at(&a, &p, start)
        invariant
            start <= a@.len(),
            strip_all(a@, p@) == strip_all(a@.subrange(start as int, a@.len() as int), p@),
        decreases a@.len() - start,
    {
        proof {
            let rest = a@.subrange(start as int, a@.len() as int);
            assert(rest.subrange(0, p@.len() as int) =~= a@.subrange(start as int, start + p@.len()));
            assert(rest.subrange(p@.len() as int, rest.len() as int) =~= a@.subrange(start + p@.len(), a@.len() as int));
        }
        start = start + p.len();
    }
    proof {
        let rest = a@.subrange(start as int, a@.len() as int);
        if p@.len() > 0 && p@.len() <= rest.len() {
            assert(rest.subrange(0, p@.len() as int) =~= a@.subrange(start as int, start + p@.len()));
        }
    }
    string_of(&slice_chars(&a, start, a.len()))
}

/// The rollback tag of an image tagged at a time: `rollback-<seconds>`.
pub fn rollback_tag(timestamp: i64) -> (r: String)
    ensures
        r@ == "rollback-"@ + decimal_int(timestamp as int),
{
    let mut r = String::from_str("rollback-");
    push_int(&mut r, timestamp);
    r
}

/// Some local image tag mentions `tag`.
pub open spec fn tag_present(repo_tags: Seq<String>, tag: Seq<char>) -> bool {
    exists|j: int| 0 <= j < repo_tags.len() && contains(repo_tags[j]@, tag)
}

/// Every rollback tag is still among the local image tags.
pub fn snapshot_tags_present(image_tags: &Vec<(String, String)>, repo_tags: &Vec<String>) -> (r: bool)
    ensures
        r == forall|i: int| 0 <= i < image_tags@.len() ==> tag_present(repo_tags@, #[trigger] image_tags@[i].1@),
{
    let mut i: usize = 0;
    while i < image_tags.len()
        invariant
            i <= image_tags@.len(),
            forall|k: int| 0 <= k < i ==> tag_present(repo_tags@, #[trigger] image_tags@[k].1@),
        decreases image_tags@.len() - i,
    {
        let tag = image_tags[i].1.as_str();
        let mut found = false;
        let mut j: usize = 0;
        while j < repo_tags.len()
            invariant
                j <= repo_tags@.len(),
                found == exists|m: int| 0 <= m < j && contains(repo_tags@[m]@, tag@),
            decreases repo_tags@.len() - j,
        {
            if str_contains(repo_tags[j].as_str(), tag) {
                found = true;
            }
            j = j + 1;
        }
        if !found {
            return false;
        }
        i = i + 1;
    }
    assert(i == image_tags@.len());
    true
}

/// The snapshots a rollback goes between: from the active one to the last
/// successful one.
pub fn rollback_plan(
    last_successful: Option<DeploymentSnapshot>,
    active: Option<DeploymentSnapshot>,
) -> (r: Result<(DeploymentSnapshot, DeploymentSnapshot), String>)
    ensures
        last_successful is None ==> (r matches Err(e) && e@ == "No previous successful deployment found"@),
        last_successful is Some && active is None ==> (r matches Err(e) && e@ == "No active deployment found"@),
        last_successful matches Some(t) ==> (active matches Some(c) ==> r == Ok::<
            (DeploymentSnapshot, DeploymentSnapshot),
            String,
        >((t, c))),
{
    match last_successful {
        None => Err(String::from_str("No previous successful deployment found")),
        Some(t) => match active {
            None => Err(String::from_str("No active deployment found")),
            Some(c) => Ok((t, c)),
        },
    }
}

/// The audit record of a rollback as it starts.
pub fn rollback_started(
    id: String,
    project_id: &str,
    from: &DeploymentSnapshot,
    to: &DeploymentSnapshot,
    reason: RollbackReason,
    started_at: i64,
    performed_by: &str,
) -> (r: RollbackEvent)
    ensures
        r.id == id,
        r.project_id@ == project_id@,
        r.from_snapshot_id == from.id,
        r.to_snapshot_id == to.id,
        r.reason == reason,
        r.failure_details is None,
        r.rollback_started_at == started_at,
        r.rollback_completed_at is None,
        r.rollback_success is None,
        r.performed_by@ == performed_by@,
{
    RollbackEvent {
        id,
        project_id: String::from_str(project_id),
        from_snapshot_id: from.id.clone(),
        to_snapshot_id: to.id.clone(),
        reason,
        failure_details: None,
        rollback_started_at: started_at,
        rollback_completed_at: None,
        rollback_success: None,
        performed_by: String::from_str(performed_by),
    }
}

/// The directory a git-commit rollback works in.
pub fn git_rollback_dir(project_id: &str) -> (r: String)
    ensures
        r@ == "/home/user/apps/"@ + project_id@,
{
    let mut r = String::from_str("/home/user/apps/");
    r.append(project_id);
    r
}

// ---------------------------------------------------------------------------
// The strategies
// ---------------------------------------------------------------------------

/// Rollback by re-tagging the images kept before the deployment.
pub struct ImageTaggingStrategy;

/// Rollback by checking out the previous commit and rebuilding.
pub struct GitCommitStrategy;

/// Rollback by restoring volume and database backups.
pub struct SnapshotStrategy;

/// The fields a fresh snapshot of any strategy shares: active, taken
/// automatically, no smoke-test results, not a rollback.
pub open spec fn fresh_snapshot(
    s: DeploymentSnapshot,
    id: Seq<char>,
    project_name: Seq<char>,
    deployed_at: i64,
    strategy: RollbackStrategy,
) -> bool {
    &&& s.id@ == id
    &&& s.project_id@ == project_name
    &&& s.deployed_at == deployed_at
    &&& s.status == SnapshotStatus::Active
    &&& s.strategy == strategy
    &&& s.smoke_test_passed is None
    &&& s.smoke_test_results is None
    &&& s.triggered_by@ == "auto"@
    &&& s.rollback_from_id is None
}

/// The commit of a snapshot: the deployment's, else "unknown".
pub open spec fn commit_or_unknown(commit_sha: Option<String>) -> Seq<char> {
    match commit_sha {
        Some(c) => c@,
        None => "unknown"@,
    }
}

fn commit_text(commit_sha: Option<String>) -> (r: String)
    ensures
        r@ == commit_or_unknown(commit_sha),
{
    match commit_sha {
        Some(c) => c,
        None => String::from_str("unknown"),
    }
}

impl ImageTaggingStrategy {
    /// Seconds a rollback takes.
    pub fn estimated_rollback_time(&self) -> (r: u64)
        ensures
            r == 10,
    {
        10
    }

    /// The snapshot of a deployment whose services' images were tagged for
    /// rollback (each service with its rollback tag).
    pub fn snapshot(
        &self,
        id: String,
        project_name: &str,
        commit_sha: Option<String>,
        deployed_at: i64,
        image_tags: Vec<(String, String)>,
    ) -> (r: DeploymentSnapshot)
        ensures
            fresh_snapshot(r, id@, project_name@, deployed_at, RollbackStrategy::ImageTagging),
            r.commit_sha@ == commit_or_unknown(commit_sha),
            r.image_tags == Some(image_tags),
            r.git_branch is None && r.git_message is None,
            r.snapshot_path is None && r.database_backup_path is None,
    {
        DeploymentSnapshot {
            id,
            project_id: String::from_str(project_name),
            commit_sha: commit_text(commit_sha),
            deployed_at,
            status: SnapshotStatus::Active,
            strategy: RollbackStrategy::ImageTagging,
            image_tags: Some(image_tags),
            git_branch: None,
            git_message: None,
            snapshot_path: None,
            database_backup_path: None,
            smoke_test_passed: None,
            smoke_test_results: None,
            triggered_by: String::from_str("auto"),
            rollback_from_id: None,
        }
    }
}

impl GitCommitStrategy {
    /// Seconds a rollback takes.
    pub fn estimated_rollback_time(&self) -> (r: u64)
        ensures
            r == 180,
    {
        180
    }

    /// The snapshot of a deployment at a commit of a branch.
    pub fn snapshot(
        &self,
        id: String,
        project_name: &str,
        commit_sha: String,
        deployed_at: i64,
        branch: String,
        message: String,
    ) -> (r: DeploymentSnapshot)
        ensures
            fresh_snapshot(r, id@, project_name@, deployed_at, RollbackStrategy::GitCommit),
            r.commit_sha == commit_sha,
            r.image_tags is None,
            r.git_branch == Some(branch) && r.git_message == Some(message),
            r.snapshot_path is None && r.database_backup_path is None,
    {
        DeploymentSnapshot {
            id,
            project_id: String::from_str(project_name),
            commit_sha,
            deployed_at,
            status: SnapshotStatus::Active,
            strategy: RollbackStrategy::GitCommit,
            image_tags: None,
            git_branch: Some(branch),
            git_message: Some(message),
            snapshot_path: None,
            database_backup_path: None,
            smoke_test_passed: None,
            smoke_test_results: None,
            triggered_by: String::from_str("auto"),
            rollback_from_id: None,
        }
    }
}

impl SnapshotStrategy {
    /// Seconds a rollback takes.
    pub fn estimated_rollback_time(&self) -> (r: u64)
        ensures
            r == 45,
    {
        45
    }

    /// The directory the backups of a snapshot go to.
    pub fn snapshot_dir(&self, snapshot_id: &str) -> (r: String)
        ensures
            r@ == "/var/lib/shipwright/snapshots/"@ + snapshot_id@,
    {
        let mut r = String::from_str("/var/lib/shipwright/snapshots/");
        r.append(snapshot_id);
        r
    }

    /// The snapshot of a deployment whose volumes (and database, when its
    /// backup succeeded) were saved under a directory.
    pub fn snapshot(
        &self,
        id: String,
        project_name: &str,
        commit_sha: Option<String>,
        deployed_at: i64,
        snapshot_path: String,
        database_backup_path: Option<String>,
    ) -> (r: DeploymentSnapshot)
        ensures
            fresh_snapshot(r, id@, project_name@, deployed_at, RollbackStrategy::Snapshot),
            r.commit_sha@ == commit_or_unknown(commit_sha),
            r.image_tags is None,
            r.git_branch is None && r.git_message is None,
            r.snapshot_path == Some(snapshot_path),
            r.database_backup_path == database_backup_path,
    {
        DeploymentSnapshot {
            id,
            project_id: String::from_str(project_name),
            commit_sha: commit_text(commit_sha),
            deployed_at,
            status: SnapshotStatus::Active,
            strategy: RollbackStrategy::Snapshot,
            image_tags: None,
            git_branch: None,
            git_message: None,
            snapshot_path: Some(snapshot_path),
            database_backup_path,
            smoke_test_passed: None,
            smoke_test_results: None,
            triggered_by: String::from_str("auto"),
            rollback_from_id: None,
        }
    }
}

// ---------------------------------------------------------------------------
// Volume and database backups (snapshot strategy)
// ---------------------------------------------------------------------------

/// The kind of database a container runs.
#[derive(Debug, Clone, Copy, PartialEq, Eq, Structural)]
pub enum DatabaseKind {
    Postgres,
    MySql,
    MongoDb,
}

/// The database an image runs: `postgres`, then `mysql` or `mariadb`, then
/// `mongo` in its name.
pub open spec fn kind_of_image(image: Seq<char>) -> Option<DatabaseKind> {
    if contains(image, "postgres"@) {
        Some(DatabaseKind::Postgres)
    } else if contains(image, "mysql"@) || contains(image, "mariadb"@) {
        Some(DatabaseKind::MySql)
    } else if contains(image, "mongo"@) {
        Some(DatabaseKind::MongoDb)
    } else {
        None
    }
}

/// The database an image runs (see `kind_of_image`).
pub fn database_kind(image: &str) -> (r: Option<DatabaseKind>)
    ensures
        r == kind_of_image(image@),
{
    if str_contains(image, "postgres") {
        Some(DatabaseKind::Postgres)
    } else if str_contains(image, "mysql") || str_contains(image, "mariadb") {
        Some(DatabaseKind::MySql)
    } else if str_contains(image, "mongo") {
        Some(DatabaseKind::MongoDb)
    } else {
        None
    }
}

/// Where a backup of a database kind is written in the snapshot directory.
pub open spec fn backup_entry(kind: DatabaseKind) -> Seq<char> {
    match kind {
        DatabaseKind::Postgres => "postgres_backup.sql"@,
        DatabaseKind::MySql => "mysql_backup.sql"@,
        DatabaseKind::MongoDb => "mongodb_backup"@,
    }
}

/// Where a backup of a database kind is written in the snapshot directory.
pub fn backup_file_name(kind: DatabaseKind) -> (r: &'static str)
    ensures
        r@ == backup_entry(kind),
{
    match kind {
        DatabaseKind::Postgres => "postgres_backup.sql",
        DatabaseKind::MySql => "mysql_backup.sql",
        DatabaseKind::MongoDb => "mongodb_backup",
    }
}

/// The `docker` arguments that dump a database of a kind from a container.
pub open spec fn backup_args(kind: DatabaseKind, container: Seq<char>) -> Seq<Seq<char>> {
    match kind {
        DatabaseKind::Postgres => seq!["exec"@, container, "pg_dumpall"@, "-U"@, "postgres"@],
        DatabaseKind::MySql => seq!["exec"@, container, "mysqldump"@, "--all-databases"@, "-u"@, "root"@],
        DatabaseKind::MongoDb => seq!["exec"@, container, "mongodump"@, "--out"@, "/backup"@],
    }
}

/// The `docker` arguments that dump a database of a kind from a container.
pub fn backup_command(kind: DatabaseKind, container: &str) -> (r: Vec<String>)
    ensures
        string_views(r@) == backup_args(kind, container@),
{
    let mut r: Vec<String> = Vec::new();
    push_str(&mut r, "exec");
    push_str(&mut r, container);
    match kind {
        DatabaseKind::Postgres => {
            push_str(&mut r, "pg_dumpall");
            push_str(&mut r, "-U");
            push_str(&mut r, "postgres");
        },
        DatabaseKind::MySql => {
            push_str(&mut r, "mysqldump");
            push_str(&mut r, "--all-databases");
            push_str(&mut r, "-u");
            push_str(&mut r, "root");
        },
        DatabaseKind::MongoDb => {
            push_str(&mut r, "mongodump");
            push_str(&mut r, "--out");
            push_str(&mut r, "/backup");
        },
    }
    assert(string_views(r@) =~= backup_args(kind, container@));
    r
}

/// The `docker` arguments that restore a database of a kind into a
/// container (SQL dumps are fed on standard input).
pub open spec fn restore_args(kind: DatabaseKind, container: Seq<char>, backup: Seq<char>) -> Seq<Seq<char>> {
    match kind {
        DatabaseKind::Postgres => seq!["exec"@, "-i"@, container, "psql"@, "-U"@, "postgres"@],
        DatabaseKind::MySql => seq!["exec"@, "-i"@, container, "mysql"@, "-u"@, "root"@],
        DatabaseKind::MongoDb => seq!["exec"@, container, "mongorestore"@, backup],
    }
}

/// The `docker` arguments that restore a database of a kind into a
/// container.
pub fn restore_command(kind: DatabaseKind, container: &str, backup: &str) -> (r: Vec<String>)
    ensures
        string_views(r@) == restore_args(kind, container@, backup@),
{
    let mut r: Vec<String> = Vec::new();
    push_str(&mut r, "exec");
    match kind {
        DatabaseKind::Postgres => {
            push_str(&mut r, "-i");
            push_str(&mut r, container);
            push_str(&mut r, "psql");
            push_str(&mut r, "-U");
            push_str(&mut r, "postgres");
        },
        DatabaseKind::MySql => {
            push_str(&mut r, "-i");
            push_str(&mut r, container);
            push_str(&mut r, "mysql");
            push_str(&mut r, "-u");
            push_str(&mut r, "root");
        },
        DatabaseKind::MongoDb => {
            push_str(&mut r, container);
            push_str(&mut r, "mongorestore");
            push_str(&mut r, backup);
        },
    }
    assert(string_views(r@) =~= restore_args(kind, container@, backup@));
    r
}

/// A container as listed by Docker: its names and its image.
pub type ContainerListing = (Vec<String>, Option<String>);

/// The database containers a backup is tried from, in order: each name of
/// a container whose image runs a database, when the name mentions the
/// project.
pub open spec fn backup_candidates_of(cs: Seq<ContainerListing>, project: Seq<char>) -> Seq<(Seq<char>, DatabaseKind)>
    decreases cs.len(),
{
    if cs.len() == 0 {
        Seq::empty()
    } else {
        backup_candidates_of(cs.drop_last(), project) + names_with_kind(cs.last(), project)
    }
}

/// The names of one container that mention the project, each with the
/// database its image runs, when it runs one.
pub open spec fn names_with_kind(c: ContainerListing, project: Seq<char>) -> Seq<(Seq<char>, DatabaseKind)> {
    match c.1 {
        Some(image) => match kind_of_image(image@) {
            Some(kind) => names_of_project(c.0@, project).map_values(|n: Seq<char>| (n, kind)),
            None => Seq::empty(),
        },
        None => Seq::empty(),
    }
}

/// The names that mention the project, in order.
pub open spec fn names_of_project(names: Seq<String>, project: Seq<char>) -> Seq<Seq<char>>
    decreases names.len(),
{
    if names.len() == 0 {
        Seq::empty()
    } else {
        let p = names_of_project(names.drop_last(), project);
        if contains(names.last()@, project) {
            p.push(names.last()@)
        } else {
            p
        }
    }
}

/// The database containers a backup is tried from, in order (see
/// `backup_candidates_of`); the first whose dump succeeds is kept.
pub fn backup_candidates(containers: &Vec<ContainerListing>, project_name: &str) -> (r: Vec<(String, DatabaseKind)>)
    ensures
        r@.map_values(|p: (String, DatabaseKind)| (p.0@, p.1)) == backup_candidates_of(containers@, project_name@),
{
    let mut r: Vec<(String, DatabaseKind)> = Vec::new();
    let mut i: usize = 0;
    while i < containers.len()
        invariant
            i <= containers@.len(),
            r@.map_values(|p: (String, DatabaseKind)| (p.0@, p.1)) == backup_candidates_of(
                containers@.subrange(0, i as int),
                project_name@,
            ),
        decreases containers@.len() - i,
    {
        let ghost r0 = r@.map_values(|p: (String, DatabaseKind)| (p.0@, p.1));
        assert(containers@.subrange(0, i + 1).drop_last() =~= containers@.subrange(0, i as int));
        match &containers[i].1 {
            Some(image) => match database_kind(image.as_str()) {
                Some(kind) => {
                    let names = &containers[i].0;
                    let mut k: usize = 0;
                    while k < names.len()
                        invariant
                            k <= names@.len(),
                            r@.map_values(|p: (String, DatabaseKind)| (p.0@, p.1)) == r0 + names_of_project(
                                names@.subrange(0, k as int),
                                project_name@,
                            ).map_values(|n: Seq<char>| (n, kind)),
                        decreases names@.len() - k,
                    {
                        let ghost before = r@;
                        assert(names@.subrange(0, k + 1).drop_last() =~= names@.subrange(0, k as int));
                        if str_contains(names[k].as_str(), project_name) {
                            r.push((names[k].clone(), kind));
                            assert(r@.map_values(|p: (String, DatabaseKind)| (p.0@, p.1)) =~= before.map_values(
                                |p: (String, DatabaseKind)| (p.0@, p.1),
                            ).push((names@[k as int]@, kind)));
                        }
                        proof {
                            let np = names_of_project(names@.subrange(0, k as int), project_name@);
                            let nq = names_of_project(names@.subrange(0, k + 1), project_name@);
                            if contains(names@[k as int]@, project_name@) {
                                assert(nq == np.push(names@[k as int]@));
                                assert(nq.map_values(|n: Seq<char>| (n, kind)) =~= np.map_values(
                                    |n: Seq<char>| (n, kind),
                                ).push((names@[k as int]@, kind)));
                            } else {
                                assert(nq == np);
                            }
                        }
                        k = k + 1;
                    }
                    assert(names@.subrange(0, names@.len() as int) =~= names@);
                },
                None => {
                    assert(r0 + Seq::<(Seq<char>, DatabaseKind)>::empty() =~= r0);
                },
            },
            None => {
                assert(r0 + Seq::<(Seq<char>, DatabaseKind)>::empty() =~= r0);
            },
        }
        i = i + 1;
    }
    assert(containers@.subrange(0, containers@.len() as int) =~= containers@);
    r
}

/// A lowercased image names a database.
pub open spec fn db_image_word(image: Seq<char>) -> bool {
    contains(image, "postgres"@) || contains(image, "mysql"@) || contains(image, "mariadb"@) || contains(image, "mongo"@)
}

/// A lowercased container name suggests a database.
pub open spec fn db_name_word(name: Seq<char>) -> bool {
    contains(name, "db"@) || contains(name, "postgres"@) || contains(name, "mysql"@) || contains(name, "mongo"@)
}

/// The `k`-th name of the `i`-th container is taken as the project's
/// database container: without its leading `/`s it mentions the project,
/// and the image or the name suggests a database.
pub open spec fn is_db_container_at(cs: Seq<ContainerListing>, project: Seq<char>, i: int, k: int) -> bool {
    &&& 0 <= i < cs.len()
    &&& 0 <= k < cs[i].0@.len()
    &&& contains(trim_start(cs[i].0@[k]@, Some('/')), project)
    &&& (cs[i].1 matches Some(image) && db_image_word(lowercase(image@))) || db_name_word(
        lowercase(trim_start(cs[i].0@[k]@, Some('/'))),
    )
}

fn db_image_exec(image: &str) -> (r: bool)
    ensures
        r == db_image_word(lowercase(image@)),
{
    let l = to_lowercase(image);
    str_contains(l.as_str(), "postgres") || str_contains(l.as_str(), "mysql") || str_contains(l.as_str(), "mariadb")
        || str_contains(l.as_str(), "mongo")
}

/// The project's database container: the first name (without its leading
/// `/`s), container by container, that `is_db_container_at` takes.
pub fn find_db_container(containers: &Vec<ContainerListing>, project_name: &str) -> (r: Result<String, String>)
    ensures
        match r {
            Ok(n) => exists|i: int, k: int|
                {
                    &&& #[trigger] is_db_container_at(containers@, project_name@, i, k)
                    &&& n@ == trim_start(containers@[i].0@[k]@, Some('/'))
                    &&& forall|i1: int, k1: int| 0 <= i1 < i ==> !is_db_container_at(containers@, project_name@, i1, k1)
                    &&& forall|k1: int| 0 <= k1 < k ==> !is_db_container_at(containers@, project_name@, i, k1)
                },
            Err(e) => e@ == "No database container found"@ && forall|i: int, k: int|
                !is_db_container_at(containers@, project_name@, i, k),
        },
{
    let mut i: usize = 0;
    while i < containers.len()
        invariant
            i <= containers@.len(),
            forall|i1: int, k1: int| 0 <= i1 < i ==> !is_db_container_at(containers@, project_name@, i1, k1),
        decreases containers@.len() - i,
    {
        let names = &containers[i].0;
        let image_db = match &containers[i].1 {
            Some(image) => db_image_exec(image.as_str()),
            None => false,
        };
        let mut k: usize = 0;
        while k < names.len()
            invariant
                i < containers@.len(),
                names@ == containers@[i as int].0@,
                image_db == (containers@[i as int].1 matches Some(image) && db_image_word(lowercase(image@))),
                k <= names@.len(),
                forall|i1: int, k1: int| 0 <= i1 < i ==> !is_db_container_at(containers@, project_name@, i1, k1),
                forall|k1: int| 0 <= k1 < k ==> !is_db_container_at(containers@, project_name@, i as int, k1),
            decreases names@.len() - k,
        {
            let n = string_of(&trim_start_chars(&chars_of(names[k].as_str()), Some('/')));
            if str_contains(n.as_str(), project_name) {
                let name_db = {
                    let l = to_lowercase(n.as_str());
                    str_contains(l.as_str(), "db") || str_contains(l.as_str(), "postgres") || str_contains(
                        l.as_str(),
                        "mysql",
                    ) || str_contains(l.as_str(), "mongo")
                };
                if image_db || name_db {
                    assert(is_db_container_at(containers@, project_name@, i as int, k as int));
                    return Ok(n);
                }
            }
            k = k + 1;
        }
        proof {
            assert forall|i1: int, k1: int| 0 <= i1 < i + 1 implies !is_db_container_at(
                containers@,
                project_name@,
                i1,
                k1,
            ) by {
                if i1 == i && 0 <= k1 < names@.len() {
                    assert(!is_db_container_at(containers@, project_name@, i as int, k1));
                }
            }
        }
        i = i + 1;
    }
    Err(String::from_str("No database container found"))
}

/// The database restored from a snapshot's backup directory, and into
/// which container: the found database container gets the first backup
/// present (PostgreSQL, MySQL, MongoDB); without one, a PostgreSQL backup
/// goes to `<project>-db`.
pub open spec fn restore_choice(
    found: Option<Seq<char>>,
    project: Seq<char>,
    has_postgres: bool,
    has_mysql: bool,
    has_mongo: bool,
) -> Option<(DatabaseKind, Seq<char>)> {
    match found {
        Some(c) => if has_postgres {
            Some((DatabaseKind::Postgres, c))
        } else if has_mysql {
            Some((DatabaseKind::MySql, c))
        } else if has_mongo {
            Some((DatabaseKind::MongoDb, c))
        } else {
            None
        },
        None => if has_postgres {
            Some((DatabaseKind::Postgres, project + "-db"@))
        } else {
            None
        },
    }
}

/// The database restored and its container (see `restore_choice`); the
/// flags say which backups are present.
pub fn restore_target(
    found: Option<String>,
    project_name: &str,
    has_postgres: bool,
    has_mysql: bool,
    has_mongo: bool,
) -> (r: Option<(DatabaseKind, String)>)
    ensures
        match r {
            Some((k, c)) => restore_choice(
                match found {
                    Some(f) => Some(f@),
                    None => None,
                },
                project_name@,
                has_postgres,
                has_mysql,
                has_mongo,
            ) == Some((k, c@)),
            None => restore_choice(
                match found {
                    Some(f) => Some(f@),
                    None => None,
                },
                project_name@,
                has_postgres,
                has_mysql,
                has_mongo,
            ) is None,
        },
{
    match found {
        Some(c) => if has_postgres {
            Some((DatabaseKind::Postgres, c))
        } else if has_mysql {
            Some((DatabaseKind::MySql, c))
        } else if has_mongo {
            Some((DatabaseKind::MongoDb, c))
        } else {
            None
        },
        None => if has_postgres {
            let mut c = String::from_str(project_name);
            c.append("-db");
            Some((DatabaseKind::Postgres, c))
        } else {
            None
        },
    }
}

/// The Docker volumes whose name mentions the project, in order; these are
/// saved with a snapshot.
pub fn project_volumes(volumes: &Vec<String>, project_name: &str) -> (r: Vec<String>)
    ensures
        string_views(r@) == names_of_project(volumes@, project_name@),
{
    let mut r: Vec<String> = Vec::new();
    let mut i: usize = 0;
    while i < volumes.len()
        invariant
            i <= volumes@.len(),
            string_views(r@) == names_of_project(volumes@.subrange(0, i as int), project_name@),
        decreases volumes@.len() - i,
    {
        assert(volumes@.subrange(0, i + 1).drop_last() =~= volumes@.subrange(0, i as int));
        if str_contains(volumes[i].as_str(), project_name) {
            crate::text::push_string(&mut r, volumes[i].clone());
        }
        i = i + 1;
    }
    assert(volumes@.subrange(0, volumes@.len() as int) =~= volumes@);
    r
}

/// The `docker` arguments that archive a volume into a backup directory.
pub open spec fn volume_backup_args(volume: Seq<char>, backup_dir: Seq<char>) -> Seq<Seq<char>> {
    seq![
        "run"@,
        "--rm"@,
        "-v"@,
        volume + ":/source"@,
        "-v"@,
        backup_dir + ":/backup"@,
        "alpine"@,
        "sh"@,
        "-c"@,
        "cd /source && tar czf /backup/data.tar.gz ."@,
    ]
}

/// The `docker` arguments that unpack a backup directory into a volume.
pub open spec fn volume_restore_args(volume: Seq<char>, backup_dir: Seq<char>) -> Seq<Seq<char>> {
    seq![
        "run"@,
        "--rm"@,
        "-v"@,
        volume + ":/target"@,
        "-v"@,
        backup_dir + ":/backup"@,
        "alpine"@,
        "sh"@,
        "-c"@,
        "cd /target && tar xzf /backup/data.tar.gz"@,
    ]
}

fn joined(a: &str, b: &str) -> (r: String)
    ensures
        r@ == a@ + b@,
{
    let mut r = String::from_str(a);
    r.append(b);
    r
}

/// The `docker` arguments that archive a volume, or (with `restore`) unpack
/// it again.
pub fn volume_archive_command(volume: &str, backup_dir: &str, restore: bool) -> (r: Vec<String>)
    ensures
        restore ==> string_views(r@) == volume_restore_args(volume@, backup_dir@),
        !restore ==> string_views(r@) == volume_backup_args(volume@, backup_dir@),
{
    let mut r: Vec<String> = Vec::new();
    push_str(&mut r, "run");
    push_str(&mut r, "--rm");
    push_str(&mut r, "-v");
    crate::text::push_string(&mut r, joined(volume, if restore { ":/target" } else { ":/source" }));
    push_str(&mut r, "-v");
    crate::text::push_string(&mut r, joined(backup_dir, ":/backup"));
    push_str(&mut r, "alpine");
    push_str(&mut r, "sh");
    push_str(&mut r, "-c");
    if restore {
        push_str(&mut r, "cd /target && tar xzf /backup/data.tar.gz");
        assert(string_views(r@) =~= volume_restore_args(volume@, backup_dir@));
    } else {
        push_str(&mut r, "cd /source && tar czf /backup/data.tar.gz .");
        assert(string_views(r@) =~= volume_backup_args(volume@, backup_dir@));
    }
    r
}

/// The paths whose presence a snapshot's verification checks: none when it
/// has no snapshot directory (it then fails), else the directory and the
/// database backup, when there is one.
pub fn snapshot_files(snapshot: &DeploymentSnapshot) -> (r: Option<Vec<String>>)
    ensures
        match snapshot.snapshot_path {
            None => r is None,
            Some(p) => r matches Some(v) && string_views(v@) == (match snapshot.database_backup_path {
                Some(d) => seq![p@, d@],
                None => seq![p@],
            }),
        },
{
    match &snapshot.snapshot_path {
        None => None,
        Some(p) => {
            let mut v: Vec<String> = Vec::new();
            crate::text::push_string(&mut v, p.clone());
            match &snapshot.database_backup_path {
                Some(d) => {
                    crate::text::push_string(&mut v, d.clone());
                },
                None => {},
            }
            Some(v)
        },
    }
}

// ---------------------------------------------------------------------------
// Image tagging and git commit rollbacks
// ---------------------------------------------------------------------------

/// The container of a project's service: `<project>-<service>`.
pub fn service_container_name(project_id: &str, service_name: &str) -> (r: String)
    ensures
        r@ == project_id@ + "-"@ + service_name@,
{
    let mut r = String::from_str(project_id);
    r.append("-");
    r.append(service_name);
    r
}

/// What rolling a service back re-tags: the image its container runs, at
/// the rollback tag, becomes the image's `latest`.  Returns the rollback
/// image and the repository to tag.
pub fn retag_for_rollback(container_image: &str, rollback_tag: &str) -> (r: (String, String))
    ensures
        r.0@ == image_parts(container_image@).0 + ":"@ + rollback_tag@,
        r.1@ == image_parts(container_image@).0,
{
    let (name, _) = split_image_ref(container_image);
    let mut image = name.clone();
    image.append(":");
    image.append(rollback_tag);
    (image, name)
}

/// The rollback tags of an image-tagging snapshot, or why there are none.
pub fn rollback_image_tags(snapshot: &DeploymentSnapshot) -> (r: Result<&Vec<(String, String)>, String>)
    ensures
        match snapshot.image_tags {
            Some(v) => r == Ok::<&Vec<(String, String)>, String>(&v),
            None => r matches Err(e) && e@ == "No image tags found in snapshot"@,
        },
{
    match &snapshot.image_tags {
        Some(v) => Ok(v),
        None => Err(String::from_str("No image tags found in snapshot")),
    }
}

/// A git command's trimmed output, or `Git rev-parse failed` when it did
/// not succeed (the current commit and branch of a deployment).
pub fn rev_parse_output(succeeded: bool, stdout: &str) -> (r: Result<String, String>)
    ensures
        succeeded ==> (r matches Ok(t) && t@ == trim(stdout@)),
        !succeeded ==> (r matches Err(e) && e@ == "Git rev-parse failed"@),
{
    if succeeded {
        Ok(string_of(&trim_chars(&chars_of(stdout), None)))
    } else {
        Err(String::from_str("Git rev-parse failed"))
    }
}

/// A commit's trimmed message, or `No commit message` when `git log` did
/// not succeed.
pub fn commit_message_output(succeeded: bool, stdout: &str) -> (r: String)
    ensures
        succeeded ==> r@ == trim(stdout@),
        !succeeded ==> r@ == "No commit message"@,
{
    if succeeded {
        string_of(&trim_chars(&chars_of(stdout), None))
    } else {
        String::from_str("No commit message")
    }
}

} // verus!
