//! The decisions of a deployment from the command line: what `deploy_image`
//! does for a configuration, the remote commands of a compose deployment,
//! which mounted files are uploaded, how an unhealthy start is handled,
//! which services get domains, and which custom images are built.
use vstd::prelude::*;
use vstd::string::*;
use crate::caddy::DetectedService;
use crate::vps_deploy::CustomImage;
use crate::config::{Config, ServiceConfig};
use crate::diagnostics::{DiagnosticResult, has_password_issue, password_issue};
use crate::text::{
    chars_of, contains, lowercase, push_str, push_string, str_contains, str_eq, string_views, to_lowercase,
};

verus! {

// ---------------------------------------------------------------------------
// What a deployment does
// ---------------------------------------------------------------------------

/// What `deploy_image` does for a configuration.
#[derive(Debug)]
pub enum ImagePlan {
    /// Deploy the compose project to the server, then route the domain (if
    /// one is set) to port 8080.
    Compose { caddy_domain: Option<String> },
    /// Tag the local image for the registry and push it; then, when there
    /// is a server, run it there and route the domain (if one is set).
    Registry { local_image: String, remote_image: String, deploy_to_vps: bool, caddy_domain: Option<String> },
    /// No registry: the agent builds from the repository.
    MiniPaas,
}

/// The domain to route, when the server has a non-empty one.
pub open spec fn routed_domain(domain: Option<String>) -> Option<Seq<char>> {
    match domain {
        Some(d) => if d@.len() > 0 {
            Some(d@)
        } else {
            None
        },
        None => None,
    }
}

fn domain_to_route(domain: &Option<String>) -> (r: Option<String>)
    ensures
        (match r {
            Some(d) => routed_domain(*domain) == Some(d@),
            None => routed_domain(*domain) is None,
        }),
{
    match domain {
        Some(d) => if d.unicode_len() > 0 {
            Some(d.clone())
        } else {
            None
        },
        None => None,
    }
}

/// What `deploy_image` does for a configuration: compose deployments need
/// a server ("VPS configuration required for docker-compose deployment");
/// others push `<project>:latest` as `<registry>/<project>:latest` when
/// there is a registry, else leave the build to the agent.
pub fn deploy_image_plan(config: &Config) -> (r: Result<ImagePlan, String>)
    ensures
        config.deploy.deploy_type@ == "docker-compose"@ ==> match config.deploy.vps {
            None => r matches Err(e) && e@ == "VPS configuration required for docker-compose deployment"@,
            Some(v) => r matches Ok(ImagePlan::Compose { caddy_domain }) && (match caddy_domain {
                Some(d) => routed_domain(v.domain) == Some(d@),
                None => routed_domain(v.domain) is None,
            }),
        },
        config.deploy.deploy_type@ != "docker-compose"@ ==> match config.deploy.registry {
            None => r matches Ok(ImagePlan::MiniPaas),
            Some(g) => r matches Ok(ImagePlan::Registry { local_image, remote_image, deploy_to_vps, caddy_domain })
                && local_image@ == config.project.name@ + ":latest"@ && remote_image@ == g.url@ + "/"@
                + config.project.name@ + ":latest"@ && deploy_to_vps == (config.deploy.vps is Some) && (
            match config.deploy.vps {
                Some(v) => match caddy_domain {
                    Some(d) => routed_domain(v.domain) == Some(d@),
                    None => routed_domain(v.domain) is None,
                },
                None => caddy_domain is None,
            }),
        },
{
    if str_eq(config.deploy.deploy_type.as_str(), "docker-compose") {
        return match &config.deploy.vps {
            None => Err(String::from_str("VPS configuration required for docker-compose deployment")),
            Some(v) => Ok(ImagePlan::Compose { caddy_domain: domain_to_route(&v.domain) }),
        };
    }
    match &config.deploy.registry {
        None => Ok(ImagePlan::MiniPaas),
        Some(g) => {
            let mut local_image = config.project.name.clone();
            local_image.append(":latest");
            let mut remote_image = g.url.clone();
            remote_image.append("/");
            remote_image.append(config.project.name.as_str());
            remote_image.append(":latest");
            let (deploy_to_vps, caddy_domain) = match &config.deploy.vps {
                Some(v) => (true, domain_to_route(&v.domain)),
                None => (false, None),
            };
            Ok(ImagePlan::Registry { local_image, remote_image, deploy_to_vps, caddy_domain })
        },
    }
}

// ---------------------------------------------------------------------------
// Remote commands of a compose deployment
// ---------------------------------------------------------------------------

/// The command that creates the project's directories on the server.
pub fn compose_dirs_command(remote_dir: &str) -> (r: String)
    ensures
        r@ == "mkdir -p "@ + remote_dir@ + "/docker/keys "@ + remote_dir@
            + "/monitoring/grafana/provisioning/datasources"@,
{
    let mut r = String::from_str("mkdir -p ");
    r.append(remote_dir);
    r.append("/docker/keys ");
    r.append(remote_dir);
    r.append("/monitoring/grafana/provisioning/datasources");
    r
}

/// Where `scp` copies a file: `<user>@<host>:<path>`.
pub fn remote_destination(user: &str, host: &str, remote_path: &str) -> (r: String)
    ensures
        r@ == user@ + "@"@ + host@ + ":"@ + remote_path@,
{
    let mut r = String::from_str(user);
    r.append("@");
    r.append(host);
    r.append(":");
    r.append(remote_path);
    r
}

/// A path under the project's directory on the server.
pub fn remote_path(remote_dir: &str, name: &str) -> (r: String)
    ensures
        r@ == remote_dir@ + "/"@ + name@,
{
    let mut r = String::from_str(remote_dir);
    r.append("/");
    r.append(name);
    r
}

/// The command that pulls the project's images.
pub fn compose_pull_command(remote_dir: &str) -> (r: String)
    ensures
        r@ == "cd "@ + remote_dir@ + " && docker compose pull"@,
{
    let mut r = String::from_str("cd ");
    r.append(remote_dir);
    r.append(" && docker compose pull");
    r
}

/// The command that restarts services of the project (`services` names
/// them, separated by spaces).
pub fn compose_restart_command(remote_dir: &str, services: &str) -> (r: String)
    ensures
        r@ == "cd "@ + remote_dir@ + " && docker compose restart "@ + services@,
{
    let mut r = String::from_str("cd ");
    r.append(remote_dir);
    r.append(" && docker compose restart ");
    r.append(services);
    r
}

/// The services restarted after the database passwords are reset.
pub const PASSWORD_FIX_SERVICES: &'static str = "student-backend admin-backend harness";

/// The command that prints the project's `.env` file on the server.
pub fn remote_env_command(remote_dir: &str) -> (r: String)
    ensures
        r@ == "cat "@ + remote_dir@ + "/.env"@,
{
    let mut r = String::from_str("cat ");
    r.append(remote_dir);
    r.append("/.env");
    r
}

/// The command that starts the project's containers.
pub fn compose_start_command(remote_dir: &str) -> (r: String)
    ensures
        r@ == "cd "@ + remote_dir@ + " && docker compose up -d"@,
{
    let mut r = String::from_str("cd ");
    r.append(remote_dir);
    r.append(" && docker compose up -d");
    r
}

/// The command that lists the project's containers with their state.
pub fn compose_ps_command(remote_dir: &str) -> (r: String)
    ensures
        r@ == "cd "@ + remote_dir@ + " && docker compose ps --format 'table {{.Name}}\\t{{.Status}}\\t{{.Health}}'"@,
{
    let mut r = String::from_str("cd ");
    r.append(remote_dir);
    r.append(" && docker compose ps --format 'table {{.Name}}\\t{{.Status}}\\t{{.Health}}'");
    r
}

/// What the container listing says after a start.
#[derive(Debug, PartialEq, Eq, Structural)]
pub enum ContainersVerdict {
    /// Some container exited or restarts.
    Unhealthy,
    /// The containers are up.
    Running,
    /// Neither shows.
    Unclear,
}

/// The verdict on a container listing (case-insensitively): an exit or a
/// restart is unhealthy, else "up" or "running" shows the containers run.
pub open spec fn containers_verdict(output: Seq<char>) -> ContainersVerdict {
    let l = lowercase(output);
    if contains(l, "exit"@) || contains(l, "restarting"@) {
        ContainersVerdict::Unhealthy
    } else if contains(l, "up"@) || contains(l, "running"@) {
        ContainersVerdict::Running
    } else {
        ContainersVerdict::Unclear
    }
}

/// The verdict on a container listing (see `containers_verdict`).
pub fn verify_containers(output: &str) -> (r: ContainersVerdict)
    ensures
        r == containers_verdict(output@),
{
    let l = to_lowercase(output);
    if str_contains(l.as_str(), "exit") || str_contains(l.as_str(), "restarting") {
        ContainersVerdict::Unhealthy
    } else if str_contains(l.as_str(), "up") || str_contains(l.as_str(), "running") {
        ContainersVerdict::Running
    } else {
        ContainersVerdict::Unclear
    }
}

/// What follows the start of a compose project.
#[derive(Debug, PartialEq, Eq, Structural)]
pub enum Recovery {
    /// All healthy and started: list the containers.
    Verify,
    /// Nothing diagnosed: only note that the deployment has warnings.
    NoteOnly,
    /// A database password mismatch: offer to reset the passwords.
    OfferPasswordFix,
    /// Offer to restart the unhealthy containers.
    OfferRestart,
}

/// What follows the start: verification when all is healthy and the start
/// succeeded; else, by the diagnoses, a password fix, a restart, or a note.
pub open spec fn recovery_for(all_healthy: bool, started: bool, diagnoses: Seq<DiagnosticResult>) -> Recovery {
    if all_healthy && started {
        Recovery::Verify
    } else if diagnoses.len() == 0 {
        Recovery::NoteOnly
    } else if password_issue(diagnoses) {
        Recovery::OfferPasswordFix
    } else {
        Recovery::OfferRestart
    }
}

/// What follows the start (see `recovery_for`).
pub fn recovery_plan(all_healthy: bool, started: bool, diagnoses: &Vec<DiagnosticResult>) -> (r: Recovery)
    ensures
        r == recovery_for(all_healthy, started, diagnoses@),
{
    if all_healthy && started {
        Recovery::Verify
    } else if diagnoses.len() == 0 {
        Recovery::NoteOnly
    } else if has_password_issue(diagnoses) {
        Recovery::OfferPasswordFix
    } else {
        Recovery::OfferRestart
    }
}

// ---------------------------------------------------------------------------
// Files mounted into containers
// ---------------------------------------------------------------------------

/// The files a compose project may mount, each with where it goes under
/// the project's directory and where it may be found locally, in order.
pub open spec fn volume_files() -> Seq<(Seq<char>, Seq<Seq<char>>)> {
    seq![
        ("docker/init-db.sql"@, seq!["docker/init-db.sql"@]),
        ("docker/keys/jwt_private.pem"@, seq!["docker/keys/jwt_private.pem"@]),
        ("docker/keys/jwt_public.pem"@, seq!["docker/keys/jwt_public.pem"@]),
        ("litellm_config.yaml"@, seq!["litellm_config.yaml"@, "AGENTIC_HARNESS/litellm_config.yaml"@]),
        ("monitoring/prometheus.yml"@, seq!["monitoring/prometheus.yml"@]),
        ("monitoring/alerts.yml"@, seq!["monitoring/alerts.yml"@]),
        (
            "monitoring/grafana/provisioning/datasources/datasources.yml"@,
            seq!["monitoring/grafana/provisioning/datasources/datasources.yml"@],
        ),
    ]
}

/// The compose file refers to a mounted file: to one of its local paths
/// (as is or after `./`), or to `./<remote name>`.
pub open spec fn referenced(content: Seq<char>, remote: Seq<char>, locals: Seq<Seq<char>>) -> bool {
    ||| exists|i: int| 0 <= i < locals.len() && (contains(content, #[trigger] locals[i]) || contains(content, "./"@ + locals[i]))
    ||| contains(content, "./"@ + remote)
}

/// The directory part of a relative path: up to its last `/`, or nothing.
pub open spec fn parent_dir(p: Seq<char>) -> Seq<char>
    decreases p.len(),
{
    if p.len() == 0 {
        Seq::empty()
    } else if p.last() == '/' {
        p.drop_last()
    } else {
        parent_dir(p.drop_last())
    }
}

/// What happens to a mounted file the compose file refers to.
#[derive(Debug)]
pub enum VolumeUpload {
    /// Upload the local file to the remote path, after creating the
    /// remote directory when the file lies in one.
    Upload { local_path: String, remote_path: String, mkdir: Option<String> },
    /// No local copy exists (a warning).
    NotFound(String),
}

/// The upload of the `k`-th mounted file, if the compose file refers to it:
/// from its first local path that exists (`present[j]` tells whether the
/// `j`-th does) to its place under the remote directory, after creating
/// its directory there; else the warning naming it.
pub open spec fn volume_upload(content: Seq<char>, remote_dir: Seq<char>, k: int, present: Seq<bool>) -> Option<
    (Option<(Seq<char>, Seq<char>, Option<Seq<char>>)>, Seq<char>),
> {
    let (remote, locals) = volume_files()[k];
    if !referenced(content, remote, locals) {
        None
    } else if exists|j: int| 0 <= j < locals.len() && present[j] {
        let j = choose|j: int| 0 <= j < locals.len() && present[j] && forall|m: int| 0 <= m < j ==> !present[m];
        let parent = parent_dir(remote);
        Some((
            Some((
                locals[j],
                remote_dir + "/"@ + remote,
                if parent.len() > 0 {
                    Some("mkdir -p "@ + remote_dir + "/"@ + parent)
                } else {
                    None
                },
            )),
            Seq::empty(),
        ))
    } else {
        Some((None, remote))
    }
}

/// An upload as plain values.
pub open spec fn upload_view(u: VolumeUpload) -> (Option<(Seq<char>, Seq<char>, Option<Seq<char>>)>, Seq<char>) {
    match u {
        VolumeUpload::Upload { local_path, remote_path, mkdir } => (
            Some((
                local_path@,
                remote_path@,
                match mkdir {
                    Some(m) => Some(m@),
                    None => None,
                },
            )),
            Seq::empty(),
        ),
        VolumeUpload::NotFound(n) => (None, n@),
    }
}

fn parent_of(p: &str) -> (r: String)
    ensures
        r@ == parent_dir(p@),
{
    let v = chars_of(p);
    let mut k: usize = v.len();
    assert(v@.subrange(0, v@.len() as int) =~= v@);
    while k > 0 && v[k - 1] != '/'
        invariant
            k <= v@.len(),
            parent_dir(v@) == parent_dir(v@.subrange(0, k as int)),
        decreases k,
    {
        let ghost s = v@.subrange(0, k as int);
        assert(s.drop_last() =~= v@.subrange(0, k - 1));
        k = k - 1;
    }
    assert(v@.subrange(0, v@.len() as int) =~= v@);
    if k == 0 {
        assert(v@.subrange(0, 0) =~= Seq::<char>::empty());
        String::new()
    } else {
        let ghost s = v@.subrange(0, k as int);
        assert(s.drop_last() =~= v@.subrange(0, k - 1));
        crate::text::string_of(&crate::text::slice_chars(&v, 0, k - 1))
    }
}

fn is_referenced(content: &str, remote: &str, locals: &Vec<String>) -> (r: bool)
    ensures
        r == referenced(content@, remote@, string_views(locals@)),
{
    let mut i: usize = 0;
    while i < locals.len()
        invariant
            i <= locals@.len(),
            forall|j: int|
                0 <= j < i ==> !(contains(content@, #[trigger] string_views(locals@)[j]) || contains(
                    content@,
                    "./"@ + string_views(locals@)[j],
                )),
        decreases locals@.len() - i,
    {
        let mut dotted = String::from_str("./");
        dotted.append(locals[i].as_str());
        if str_contains(content, locals[i].as_str()) || str_contains(content, dotted.as_str()) {
            assert(string_views(locals@)[i as int] == locals@[i as int]@);
            return true;
        }
        assert(string_views(locals@)[i as int] == locals@[i as int]@);
        i = i + 1;
    }
    let mut dotted = String::from_str("./");
    dotted.append(remote);
    str_contains(content, dotted.as_str())
}

fn volume_table() -> (r: Vec<(String, Vec<String>)>)
    ensures
        r@.len() == volume_files().len(),
        forall|k: int|
            0 <= k < r@.len() ==> (#[trigger] r@[k]).0@ == volume_files()[k].0 && string_views(r@[k].1@)
                == volume_files()[k].1,
{
    let mut t: Vec<(String, Vec<String>)> = Vec::new();
    let mut a: Vec<String> = Vec::new();
    push_str(&mut a, "docker/init-db.sql");
    t.push((String::from_str("docker/init-db.sql"), a));
    let mut b: Vec<String> = Vec::new();
    push_str(&mut b, "docker/keys/jwt_private.pem");
    t.push((String::from_str("docker/keys/jwt_private.pem"), b));
    let mut c: Vec<String> = Vec::new();
    push_str(&mut c, "docker/keys/jwt_public.pem");
    t.push((String::from_str("docker/keys/jwt_public.pem"), c));
    let mut d: Vec<String> = Vec::new();
    push_str(&mut d, "litellm_config.yaml");
    push_str(&mut d, "AGENTIC_HARNESS/litellm_config.yaml");
    t.push((String::from_str("litellm_config.yaml"), d));
    let mut e: Vec<String> = Vec::new();
    push_str(&mut e, "monitoring/prometheus.yml");
    t.push((String::from_str("monitoring/prometheus.yml"), e));
    let mut f: Vec<String> = Vec::new();
    push_str(&mut f, "monitoring/alerts.yml");
    t.push((String::from_str("monitoring/alerts.yml"), f));
    let mut g: Vec<String> = Vec::new();
    push_str(&mut g, "monitoring/grafana/provisioning/datasources/datasources.yml");
    t.push((String::from_str("monitoring/grafana/provisioning/datasources/datasources.yml"), g));
    t
}

/// The local paths each mounted file may be found at (see `volume_files`),
/// for the caller to check which exist.
pub fn volume_local_paths() -> (r: Vec<Vec<String>>)
    ensures
        r@.len() == volume_files().len(),
        forall|k: int| 0 <= k < r@.len() ==> string_views((#[trigger] r@[k])@) == volume_files()[k].1,
{
    let t = volume_table();
    let mut r: Vec<Vec<String>> = Vec::new();
    let mut k: usize = 0;
    while k < t.len()
        invariant
            k <= t@.len(),
            t@.len() == volume_files().len(),
            forall|j: int|
                0 <= j < t@.len() ==> (#[trigger] t@[j]).0@ == volume_files()[j].0 && string_views(t@[j].1@)
                    == volume_files()[j].1,
            r@.len() == k,
            forall|j: int| 0 <= j < k ==> string_views((#[trigger] r@[j])@) == volume_files()[j].1,
        decreases t@.len() - k,
    {
        let mut copy: Vec<String> = Vec::new();
        let mut i: usize = 0;
        while i < t[k].1.len()
            invariant
                k < t@.len(),
                i <= t@[k as int].1@.len(),
                string_views(copy@) == string_views(t@[k as int].1@).subrange(0, i as int),
            decreases t@[k as int].1@.len() - i,
        {
            let ghost c0 = string_views(copy@);
            let x = t[k].1[i].clone();
            copy.push(x);
            assert(string_views(copy@) =~= c0.push(x@));
            assert(string_views(copy@) =~= string_views(t@[k as int].1@).subrange(0, i + 1));
            i = i + 1;
        }
        assert(string_views(copy@) =~= string_views(t@[k as int].1@));
        r.push(copy);
        k = k + 1;
    }
    r
}

/// The uploads of the mounted files the compose file refers to, in order
/// (`present[k][j]` tells whether the `j`-th local path of the `k`-th file
/// exists).
pub fn volume_uploads(content: &str, remote_dir: &str, present: &Vec<Vec<bool>>) -> (r: Vec<VolumeUpload>)
    requires
        present@.len() == volume_files().len(),
        forall|k: int| 0 <= k < present@.len() ==> (#[trigger] present@[k])@.len() == volume_files()[k].1.len(),
    ensures
        r@.map_values(|u: VolumeUpload| upload_view(u)) == volume_plan(content@, remote_dir@, present@.map_values(
            |p: Vec<bool>| p@,
        ), 7),
{
    let t = volume_table();
    let ghost pv = present@.map_values(|p: Vec<bool>| p@);
    let mut r: Vec<VolumeUpload> = Vec::new();
    let mut k: usize = 0;
    while k < 7
        invariant
            k <= 7,
            t@.len() == 7,
            volume_files().len() == 7,
            present@.len() == 7,
            pv == present@.map_values(|p: Vec<bool>| p@),
            forall|j: int|
                0 <= j < t@.len() ==> (#[trigger] t@[j]).0@ == volume_files()[j].0 && string_views(t@[j].1@)
                    == volume_files()[j].1,
            forall|j: int| 0 <= j < present@.len() ==> (#[trigger] present@[j])@.len() == volume_files()[j].1.len(),
            r@.map_values(|u: VolumeUpload| upload_view(u)) == volume_plan(content@, remote_dir@, pv, k as int),
        decreases 7 - k,
    {
        let remote = &t[k].0;
        let locals = &t[k].1;
        let ghost before = r@.map_values(|u: VolumeUpload| upload_view(u));
        assert(pv[k as int] == present@[k as int]@);
        if is_referenced(content, remote.as_str(), locals) {
            let mut found: Option<usize> = None;
            let mut j: usize = 0;
            while j < locals.len()
                invariant
                    j <= locals@.len(),
                    locals@.len() == present@[k as int]@.len(),
                    k < present@.len(),
                    found is None ==> forall|m: int| 0 <= m < j ==> !present@[k as int]@[m],
                    found matches Some(x) ==> x < locals@.len() && present@[k as int]@[x as int] && forall|m: int|
                        0 <= m < x ==> !present@[k as int]@[m],
                decreases locals@.len() - j,
            {
                if found.is_none() && present[k][j] {
                    found = Some(j);
                }
                j = j + 1;
            }
            let item = match found {
                Some(x) => {
                    let parent = parent_of(remote.as_str());
                    let mkdir = if parent.unicode_len() > 0 {
                        let mut m = String::from_str("mkdir -p ");
                        m.append(remote_dir);
                        m.append("/");
                        m.append(parent.as_str());
                        Some(m)
                    } else {
                        None
                    };
                    proof {
                        let w = choose|w: int|
                            0 <= w < locals@.len() && present@[k as int]@[w] && forall|m: int|
                                0 <= m < w ==> !present@[k as int]@[m];
                        if w < x {
                            assert(!present@[k as int]@[w]);
                        } else if w > x {
                            assert(!present@[k as int]@[x as int]);
                        }
                        assert(string_views(locals@)[x as int] == locals@[x as int]@);
                    }
                    VolumeUpload::Upload {
                        local_path: locals[x].clone(),
                        remote_path: remote_path(remote_dir, remote.as_str()),
                        mkdir,
                    }
                },
                None => VolumeUpload::NotFound(remote.clone()),
            };
            assert(volume_upload(content@, remote_dir@, k as int, pv[k as int]) == Some(upload_view(item)));
            r.push(item);
            assert(r@.map_values(|u: VolumeUpload| upload_view(u)) =~= before.push(upload_view(item)));
        } else {
            assert(volume_upload(content@, remote_dir@, k as int, pv[k as int]) is None);
            assert(r@.map_values(|u: VolumeUpload| upload_view(u)) =~= before);
        }
        k = k + 1;
    }
    r
}

/// The uploads of the first `k` mounted files (see `volume_upload`).
pub open spec fn volume_plan(content: Seq<char>, remote_dir: Seq<char>, present: Seq<Seq<bool>>, k: int) -> Seq<
    (Option<(Seq<char>, Seq<char>, Option<Seq<char>>)>, Seq<char>),
>
    decreases k,
{
    if k <= 0 {
        Seq::empty()
    } else {
        let rest = volume_plan(content, remote_dir, present, k - 1);
        match volume_upload(content, remote_dir, k - 1, present[k - 1]) {
            Some(u) => rest.push(u),
            None => rest,
        }
    }
}

// ---------------------------------------------------------------------------
// Domains of the services
// ---------------------------------------------------------------------------

/// A detected service that still needs a domain: a frontend or a backend
/// (by name) that the server's configuration does not list.
pub open spec fn unconfigured(s: DetectedService, existing: Seq<ServiceConfig>) -> bool {
    &&& s.is_frontend || contains(s.name@, "backend"@)
    &&& !exists|j: int| 0 <= j < existing.len() && (#[trigger] existing[j]).name@ == s.name@
}

/// How the services' domains are set up.
#[derive(Debug, PartialEq, Eq, Structural)]
pub enum DomainPlan {
    /// Some services need domains: ask whether to configure them.
    Ask,
    /// Use the server's configured services.
    UseExisting,
    /// Nothing to route.
    Skip,
}

/// How domains are set up: nothing without detected services; asking when
/// some need domains; else the configured services when there are some.
pub open spec fn domain_plan_for(detected: Seq<DetectedService>, existing: Seq<ServiceConfig>) -> DomainPlan {
    if detected.len() == 0 {
        DomainPlan::Skip
    } else if exists|i: int| 0 <= i < detected.len() && unconfigured(#[trigger] detected[i], existing) {
        DomainPlan::Ask
    } else if existing.len() > 0 {
        DomainPlan::UseExisting
    } else {
        DomainPlan::Skip
    }
}

fn is_unconfigured(s: &DetectedService, existing: &Vec<ServiceConfig>) -> (r: bool)
    ensures
        r == unconfigured(*s, existing@),
{
    if !(s.is_frontend || str_contains(s.name.as_str(), "backend")) {
        return false;
    }
    let mut j: usize = 0;
    while j < existing.len()
        invariant
            j <= existing@.len(),
            forall|m: int| 0 <= m < j ==> (#[trigger] existing@[m]).name@ != s.name@,
        decreases existing@.len() - j,
    {
        if str_eq(existing[j].name.as_str(), s.name.as_str()) {
            return false;
        }
        j = j + 1;
    }
    true
}

/// How domains are set up (see `domain_plan_for`).
pub fn domain_plan(detected: &Vec<DetectedService>, existing: &Vec<ServiceConfig>) -> (r: DomainPlan)
    ensures
        r == domain_plan_for(detected@, existing@),
{
    if detected.len() == 0 {
        return DomainPlan::Skip;
    }
    let mut i: usize = 0;
    while i < detected.len()
        invariant
            i <= detected@.len(),
            forall|m: int| 0 <= m < i ==> !unconfigured(#[trigger] detected@[m], existing@),
        decreases detected@.len() - i,
    {
        if is_unconfigured(&detected[i], existing) {
            return DomainPlan::Ask;
        }
        i = i + 1;
    }
    if existing.len() > 0 {
        DomainPlan::UseExisting
    } else {
        DomainPlan::Skip
    }
}

/// The lines of an exposed service in the hint for the configuration file.
pub open spec fn hint_entry(c: ServiceConfig) -> Seq<Seq<char>> {
    if c.expose {
        let head = seq!["         - name: "@ + c.name@];
        let dom = match c.domain {
            Some(d) => seq!["           domain: "@ + d@],
            None => Seq::empty(),
        };
        head + dom + seq!["           port: "@ + crate::text::decimal(c.port as nat)]
    } else {
        Seq::empty()
    }
}

/// The hint lines of services.
pub open spec fn hint_entries(cs: Seq<ServiceConfig>) -> Seq<Seq<char>>
    decreases cs.len(),
{
    if cs.len() == 0 {
        Seq::empty()
    } else {
        hint_entries(cs.drop_last()) + hint_entry(cs.last())
    }
}

/// The hint that shows how to keep new service settings in the
/// configuration file.
pub open spec fn config_hint(cs: Seq<ServiceConfig>) -> Seq<Seq<char>> {
    seq![
        ""@,
        "💡 Tip: Add these to your .shipwright.yml to skip prompts next time:"@,
        "   deploy:"@,
        "     vps:"@,
        "       services:"@,
    ] + hint_entries(cs)
}

/// The hint for keeping service settings (see `config_hint`).
pub fn service_configs_hint(configs: &Vec<ServiceConfig>) -> (r: Vec<String>)
    ensures
        string_views(r@) == config_hint(configs@),
{
    let mut out: Vec<String> = Vec::new();
    push_str(&mut out, "");
    push_str(&mut out, "💡 Tip: Add these to your .shipwright.yml to skip prompts next time:");
    push_str(&mut out, "   deploy:");
    push_str(&mut out, "     vps:");
    push_str(&mut out, "       services:");
    let ghost start = string_views(out@);
    let mut i: usize = 0;
    while i < configs.len()
        invariant
            i <= configs@.len(),
            string_views(out@) == start + hint_entries(configs@.subrange(0, i as int)),
        decreases configs@.len() - i,
    {
        let ghost sub = configs@.subrange(0, i + 1);
        assert(sub.drop_last() =~= configs@.subrange(0, i as int));
        let ghost o0 = string_views(out@);
        let c = &configs[i];
        if c.expose {
            let mut l1 = String::from_str("         - name: ");
            l1.append(c.name.as_str());
            push_string(&mut out, l1);
            match &c.domain {
                Some(d) => {
                    let mut l2 = String::from_str("           domain: ");
                    l2.append(d.as_str());
                    push_string(&mut out, l2);
                },
                None => {},
            }
            let mut l3 = String::from_str("           port: ");
            crate::text::push_decimal(&mut l3, c.port as u64);
            push_string(&mut out, l3);
        }
        assert(string_views(out@) =~= o0 + hint_entry(*c));
        assert(string_views(out@) =~= start + hint_entries(sub));
        i = i + 1;
    }
    assert(configs@.subrange(0, configs@.len() as int) =~= configs@);
    out
}

// ---------------------------------------------------------------------------
// Custom images
// ---------------------------------------------------------------------------

/// The registry custom images are pushed to, from the `.env` file's
/// `DOCKER_REGISTRY`: it must be set and not empty.
pub fn docker_registry(value: Option<&String>) -> (r: Result<String, String>)
    ensures
        (match value {
            Some(v) => v@.len() > 0,
            None => false,
        }) ==> r == Ok::<String, String>(*value->0),
        !(match value {
            Some(v) => v@.len() > 0,
            None => false,
        }) ==> (r matches Err(e) && e@
            == "DOCKER_REGISTRY not set in .env file. Please set it to your Docker Hub username."@),
{
    match value {
        Some(v) => if v.unicode_len() > 0 {
            return Ok(v.clone());
        },
        None => {},
    }
    Err(String::from_str("DOCKER_REGISTRY not set in .env file. Please set it to your Docker Hub username."))
}

/// Which custom images are built: of those missing from the registry
/// (`on_hub[i]` tells whether the `i`-th exists there), the positions of
/// those with a build context, and of those without one, in order.
pub fn images_to_build(images: &Vec<CustomImage>, on_hub: &Vec<bool>) -> (r: (Vec<usize>, Vec<usize>))
    requires
        on_hub@.len() == images@.len(),
    ensures
        forall|j: int| 0 <= j < r.0@.len() ==> (#[trigger] r.0@[j]) < images@.len(),
        forall|j: int| 0 <= j < r.1@.len() ==> (#[trigger] r.1@[j]) < images@.len(),
        r.0@.map_values(|x: usize| x as int) == Seq::new(images@.len() as nat, |i: int| i).filter(
            |i: int| !on_hub@[i] && images@[i].build_context is Some,
        ),
        r.1@.map_values(|x: usize| x as int) == Seq::new(images@.len() as nat, |i: int| i).filter(
            |i: int| !on_hub@[i] && images@[i].build_context is None,
        ),
{
    let ghost all = Seq::new(images@.len() as nat, |i: int| i);
    let ghost f = |i: int| !on_hub@[i] && images@[i].build_context is Some;
    let ghost g = |i: int| !on_hub@[i] && images@[i].build_context is None;
    let mut build: Vec<usize> = Vec::new();
    let mut skip: Vec<usize> = Vec::new();
    let mut i: usize = 0;
    while i < images.len()
        invariant
            i <= images@.len(),
            on_hub@.len() == images@.len(),
            all == Seq::new(images@.len() as nat, |i: int| i),
            f == (|i: int| !on_hub@[i] && images@[i].build_context is Some),
            g == (|i: int| !on_hub@[i] && images@[i].build_context is None),
            forall|j: int| 0 <= j < build@.len() ==> (#[trigger] build@[j]) < i,
            forall|j: int| 0 <= j < skip@.len() ==> (#[trigger] skip@[j]) < i,
            build@.map_values(|x: usize| x as int) == all.subrange(0, i as int).filter(f),
            skip@.map_values(|x: usize| x as int) == all.subrange(0, i as int).filter(g),
        decreases images@.len() - i,
    {
        let ghost sub = all.subrange(0, i + 1);
        proof {
            assert(sub.drop_last() =~= all.subrange(0, i as int));
            assert(sub.last() == i as int);
            reveal(Seq::filter);
        }
        let ghost b0 = build@.map_values(|x: usize| x as int);
        let ghost s0 = skip@.map_values(|x: usize| x as int);
        if !on_hub[i] {
            if images[i].build_context.is_some() {
                build.push(i);
                assert(build@.map_values(|x: usize| x as int) =~= b0.push(i as int));
            } else {
                skip.push(i);
                assert(skip@.map_values(|x: usize| x as int) =~= s0.push(i as int));
            }
        }
        proof {
            reveal(Seq::filter);
            assert(build@.map_values(|x: usize| x as int) == sub.filter(f));
            assert(skip@.map_values(|x: usize| x as int) == sub.filter(g));
        }
        i = i + 1;
    }
    assert(all.subrange(0, images@.len() as int) =~= all);
    (build, skip)
}

/// The `docker` arguments that build a custom image from its context (with
/// its Dockerfile, by default `Dockerfile`, under the context).
pub fn docker_build_args(image: &CustomImage) -> (r: Option<Vec<String>>)
    ensures
        (match image.build_context {
            Some(ctx) => r matches Some(v) && string_views(v@) == seq![
                "build"@,
                "-t"@,
                image.full_image@,
                "-f"@,
                ctx@ + "/"@ + (match image.dockerfile {
                    Some(d) => d@,
                    None => "Dockerfile"@,
                }),
                ctx@,
            ],
            None => r is None,
        }),
{
    match &image.build_context {
        None => None,
        Some(ctx) => {
            let mut v: Vec<String> = Vec::new();
            push_str(&mut v, "build");
            push_str(&mut v, "-t");
            push_str(&mut v, image.full_image.as_str());
            push_str(&mut v, "-f");
            let mut path = ctx.clone();
            path.append("/");
            match &image.dockerfile {
                Some(d) => path.append(d.as_str()),
                None => path.append("Dockerfile"),
            }
            push_string(&mut v, path);
            push_str(&mut v, ctx.as_str());
            Some(v)
        },
    }
}

/// The message when no compose file exists: the candidates as a list of
/// quoted names.
pub fn compose_not_found_message() -> (r: String)
    ensures
        r@ == "No docker-compose file found. Expected one of: [\"docker-compose.production.yml\", \"docker-compose.prod.yml\", \"docker-compose.yml\", \"docker-compose.yaml\", \"compose.yml\", \"compose.yaml\"]"@,
{
    String::from_str(
        "No docker-compose file found. Expected one of: [\"docker-compose.production.yml\", \"docker-compose.prod.yml\", \"docker-compose.yml\", \"docker-compose.yaml\", \"compose.yml\", \"compose.yaml\"]",
    )
}

/// Which follow-ups missing critical files get: generating JWT keys (when a
/// `jwt_` file is missing) and creating an init script (when an `init-db`
/// file is missing).
pub fn critical_file_followups(missing: &Vec<(String, String)>) -> (r: (bool, bool))
    ensures
        r.0 == exists|i: int| 0 <= i < missing@.len() && contains((#[trigger] missing@[i]).0@, "jwt_"@),
        r.1 == exists|i: int| 0 <= i < missing@.len() && contains((#[trigger] missing@[i]).0@, "init-db"@),
{
    let mut jwt = false;
    let mut init = false;
    let mut i: usize = 0;
    while i < missing.len()
        invariant
            i <= missing@.len(),
            jwt == exists|j: int| 0 <= j < i && contains((#[trigger] missing@[j]).0@, "jwt_"@),
            init == exists|j: int| 0 <= j < i && contains((#[trigger] missing@[j]).0@, "init-db"@),
        decreases missing@.len() - i,
    {
        if str_contains(missing[i].0.as_str(), "jwt_") {
            jwt = true;
        }
        if str_contains(missing[i].0.as_str(), "init-db") {
            init = true;
        }
        i = i + 1;
    }
    (jwt, init)
}

/// The database initialization script created when the project lacks one.
pub const INIT_DB_SQL: &'static str = "-- Database initialization script\n-- Created by Shipwright\n\n-- Create databases if they don't exist\nSELECT 'CREATE DATABASE hbec_student' WHERE NOT EXISTS (SELECT FROM pg_database WHERE datname = 'hbec_student')\\gexec\nSELECT 'CREATE DATABASE hbec_admin' WHERE NOT EXISTS (SELECT FROM pg_database WHERE datname = 'hbec_admin')\\gexec\n\n-- Grant privileges\nGRANT ALL PRIVILEGES ON DATABASE hbec_student TO hbec;\nGRANT ALL PRIVILEGES ON DATABASE hbec_admin TO hbec;\n";

} // verus!
