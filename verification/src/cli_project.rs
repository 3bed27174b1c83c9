//! The project commands of the command-line tool that prepare a project and
//! a server: `init` (the configuration file it writes), `register` (the
//! repository and the agent's endpoints), `setup` (the server commands),
//! `retry` (what the agent's answer means) and `logs`.
use vstd::prelude::*;
use vstd::string::*;
use crate::text::{
    chars_of, contains, ends_with, ends_with_chars, lowercase, push_str, replace_all, replace_chars, starts_with,
    starts_with_chars, str_contains, string_of, string_views, to_lowercase, trim, trim_chars,
};

verus! {

// ---------------------------------------------------------------------------
// init
// ---------------------------------------------------------------------------

/// A project name as Docker takes it: lowercase, spaces written `-`.
pub open spec fn docker_project_name(name: Seq<char>) -> Seq<char> {
    replace_all(lowercase(name), " "@, "-"@)
}

/// The project name as Docker takes it (see `docker_project_name`).
pub fn normalize_project_name(name: &str) -> (r: String)
    ensures
        r@ == docker_project_name(name@),
{
    let l = to_lowercase(name);
    proof {
        reveal_strlit(" ");
    }
    string_of(&replace_chars(&chars_of(l.as_str()), &chars_of(" "), &chars_of("-")))
}

/// The registry chosen during `init`: the GitHub registry (`0`) or Docker
/// Hub (`1`) of the user, else the URL entered.
pub fn registry_url_for(choice: usize, user: &str, entered: &str) -> (r: String)
    ensures
        choice == 0 ==> r@ == "ghcr.io/"@ + user@,
        choice == 1 ==> r@ == "docker.io/"@ + user@,
        choice > 1 ==> r@ == entered@,
{
    if choice == 0 {
        let mut r = String::from_str("ghcr.io/");
        r.append(user);
        r
    } else if choice == 1 {
        let mut r = String::from_str("docker.io/");
        r.append(user);
        r
    } else {
        String::from_str(entered)
    }
}

/// A file of `~/.ssh` that is offered as a private key: `id_…`, not `.pub`.
pub fn is_private_key_name(name: &str) -> (r: bool)
    ensures
        r == (starts_with(name@, "id_"@) && !ends_with(name@, ".pub"@)),
{
    let v = chars_of(name);
    starts_with_chars(&v, &chars_of("id_")) && !ends_with_chars(&v, &chars_of(".pub"))
}

/// The path written for a key chosen from `~/.ssh`.
pub fn ssh_key_path(name: &str) -> (r: String)
    ensures
        r@ == "~/.ssh/"@ + name@,
{
    let mut r = String::from_str("~/.ssh/");
    r.append(name);
    r
}

/// The `.gitignore` with the credentials directory added, or `None` when
/// it already mentions `.shipwright`.
pub fn gitignore_with_credentials(content: &str) -> (r: Option<String>)
    ensures
        contains(content@, ".shipwright"@) ==> r is None,
        !contains(content@, ".shipwright"@) ==> (r matches Some(t) && t@ == content@
            + "\n# Shipwright credentials\n.shipwright/\n"@),
{
    if str_contains(content, ".shipwright") {
        None
    } else {
        let mut t = String::from_str(content);
        t.append("\n# Shipwright credentials\n.shipwright/\n");
        Some(t)
    }
}

/// The answers given during `init`.
pub struct InitAnswers {
    pub project_name: String,
    pub registry_url: String,
    pub registry_user: String,
    pub vps_host: String,
    pub vps_user: String,
    pub vps_key: String,
    pub domain: String,
}

/// The `build` section `init` writes: a Docker build when the project has
/// a Dockerfile, else a placeholder step.
pub open spec fn init_build_section(has_dockerfile: bool) -> Seq<char> {
    if has_dockerfile {
        "build:\n  image: auto-detected\n  steps:\n    - docker build -t ${PROJECT_NAME} ."@
    } else {
        "build:\n  image: alpine:latest\n  steps:\n    - echo \"Building...\""@
    }
}

/// The `deploy` section `init` writes (a compose deployment when the
/// project has a compose file).
pub open spec fn init_deploy_section(a: InitAnswers, has_compose: bool) -> Seq<char> {
    "deploy:\n  type: "@ + (if has_compose {
        "docker-compose"@
    } else {
        "docker"@
    }) + "\n  registry:\n    url: "@ + a.registry_url@ + "\n    auth:\n      username: "@ + a.registry_user@
        + "\n      token_file: .shipwright/token\n  vps:\n    host: "@ + a.vps_host@ + "\n    user: "@ + a.vps_user@
        + "\n    ssh_key: "@ + a.vps_key@ + "\n    domain: "@ + a.domain@ + "\n  replicas: 1"@
}

/// The `.shipwright.yml` that `init` writes.
pub open spec fn init_config_text(a: InitAnswers, has_compose: bool, has_dockerfile: bool) -> Seq<char> {
    "version: 1\n\nproject:\n  name: "@ + a.project_name@ + "\n  framework: auto\n\n"@ + init_build_section(
        has_dockerfile,
    ) + "\n\n"@ + init_deploy_section(a, has_compose)
        + "\n  \n  health:\n    http:\n      path: /\n      expect: 200\n      timeout: 30s\n"@
}

fn deploy_section(a: &InitAnswers, has_compose: bool) -> (r: String)
    ensures
        r@ == init_deploy_section(*a, has_compose),
{
    let mut t = String::from_str("deploy:\n  type: ");
    t.append(if has_compose { "docker-compose" } else { "docker" });
    t.append("\n  registry:\n    url: ");
    t.append(a.registry_url.as_str());
    t.append("\n    auth:\n      username: ");
    t.append(a.registry_user.as_str());
    t.append("\n      token_file: .shipwright/token\n  vps:\n    host: ");
    t.append(a.vps_host.as_str());
    t.append("\n    user: ");
    t.append(a.vps_user.as_str());
    t.append("\n    ssh_key: ");
    t.append(a.vps_key.as_str());
    t.append("\n    domain: ");
    t.append(a.domain.as_str());
    t.append("\n  replicas: 1");
    t
}

/// The `.shipwright.yml` that `init` writes (see `init_config_text`).
pub fn init_config(a: &InitAnswers, has_compose: bool, has_dockerfile: bool) -> (r: String)
    ensures
        r@ == init_config_text(*a, has_compose, has_dockerfile),
{
    let mut t = String::from_str("version: 1\n\nproject:\n  name: ");
    t.append(a.project_name.as_str());
    t.append("\n  framework: auto\n\n");
    if has_dockerfile {
        t.append("build:\n  image: auto-detected\n  steps:\n    - docker build -t ${PROJECT_NAME} .");
    } else {
        t.append("build:\n  image: alpine:latest\n  steps:\n    - echo \"Building...\"");
    }
    t.append("\n\n");
    let d = deploy_section(a, has_compose);
    t.append(d.as_str());
    t.append("\n  \n  health:\n    http:\n      path: /\n      expect: 200\n      timeout: 30s\n");
    t
}

// ---------------------------------------------------------------------------
// register
// ---------------------------------------------------------------------------

/// The owner and repository the pattern
/// `github\.com[:/]([^/]+)/([^/.]+)(\.git)?$` (regex crate, `captures`)
/// finds in a remote URL, if it matches.
pub uninterp spec fn github_repo_parts(url: Seq<char>) -> Option<(Seq<char>, Seq<char>)>;

/// Runs the pattern of `github_repo_parts` on a remote URL; the contract
/// names the result.
#[verifier::external_body]
fn github_repo_capture(url: &str) -> (r: Option<(String, String)>)
    ensures
        github_repo_parts(url@) == (match r {
            Some((o, n)) => Some((o@, n@)),
            None => None,
        }),
{
    let re = regex::Regex::new(r"github\.com[:/]([^/]+)/([^/.]+)(\.git)?$").ok()?;
    re.captures(url).map(|c| (c[1].to_string(), c[2].to_string()))
}

/// The owner and name of the GitHub repository of a remote URL (trimmed),
/// or why it is not one.
pub fn parse_github_repo(remote_output: &str) -> (r: Result<(String, String), String>)
    ensures
        match github_repo_parts(trim(remote_output@)) {
            Some((o, n)) => r matches Ok((a, b)) && a@ == o && b@ == n,
            None => r matches Err(e) && e@
                == "Failed to parse GitHub repository from remote URL. Ensure your origin is a GitHub URL."@,
        },
{
    let url = string_of(&trim_chars(&chars_of(remote_output), None));
    match github_repo_capture(url.as_str()) {
        Some(p) => Ok(p),
        None => Err(
            String::from_str("Failed to parse GitHub repository from remote URL. Ensure your origin is a GitHub URL."),
        ),
    }
}

/// The branch a project deploys from: the current one (trimmed), else
/// `main`.
pub fn deploy_branch_of(current_branch_output: &str) -> (r: String)
    ensures
        trim(current_branch_output@).len() == 0 ==> r@ == "main"@,
        trim(current_branch_output@).len() > 0 ==> r@ == trim(current_branch_output@),
{
    let b = trim_chars(&chars_of(current_branch_output), None);
    if b.len() == 0 {
        String::from_str("main")
    } else {
        string_of(&b)
    }
}

/// The agent endpoint projects are registered at.
pub fn projects_url(host: &str) -> (r: String)
    ensures
        r@ == "http://"@ + host@ + ":17670/projects"@,
{
    let mut r = String::from_str("http://");
    r.append(host);
    r.append(":17670/projects");
    r
}

/// The agent endpoint GitHub sends pushes to.
pub fn github_webhook_url(host: &str) -> (r: String)
    ensures
        r@ == "http://"@ + host@ + ":17670/webhooks/github"@,
{
    let mut r = String::from_str("http://");
    r.append(host);
    r.append(":17670/webhooks/github");
    r
}

/// The GitHub API route of a repository's webhooks.
pub fn hooks_route(owner: &str, repo: &str) -> (r: String)
    ensures
        r@ == "/repos/"@ + owner@ + "/"@ + repo@ + "/hooks"@,
{
    let mut r = String::from_str("/repos/");
    r.append(owner);
    r.append("/");
    r.append(repo);
    r.append("/hooks");
    r
}

/// A failed webhook creation that only means the hook exists already.
pub fn hook_already_exists(error: &str) -> (r: bool)
    ensures
        r == contains(error@, "already exists"@),
{
    str_contains(error, "already exists")
}

// ---------------------------------------------------------------------------
// retry
// ---------------------------------------------------------------------------

/// What a refused retry request means.
#[derive(Debug, PartialEq, Eq)]
pub enum RetryRefusal {
    /// The project has no deployment yet (404).
    NoHistory,
    /// The last deployment did not fail (400).
    NothingToRetry,
    /// Any other status, with the error the command reports.
    ApiError(String),
}

/// What a refused retry request means, from its status and body.
pub fn retry_refusal(status: u16, body: &str, status_text: &str) -> (r: RetryRefusal)
    ensures
        status == 404 ==> r == RetryRefusal::NoHistory,
        status == 400 ==> r == RetryRefusal::NothingToRetry,
        status != 404 && status != 400 ==> (r matches RetryRefusal::ApiError(e) && e@ == "API error ("@
            + status_text@ + "): "@ + body@),
{
    if status == 404 {
        RetryRefusal::NoHistory
    } else if status == 400 {
        RetryRefusal::NothingToRetry
    } else {
        let mut e = String::from_str("API error (");
        e.append(status_text);
        e.append("): ");
        e.append(body);
        RetryRefusal::ApiError(e)
    }
}

// ---------------------------------------------------------------------------
// setup and logs
// ---------------------------------------------------------------------------

/// The commands that install Docker on the server.
pub fn docker_install_commands() -> (r: Vec<String>)
    ensures
        string_views(r@) == seq![
            "sudo apt-get update -y"@,
            "curl -fsSL https://get.docker.com -o get-docker.sh && sudo sh get-docker.sh"@,
            "sudo usermod -aG docker $USER"@,
        ],
{
    let mut r: Vec<String> = Vec::new();
    push_str(&mut r, "sudo apt-get update -y");
    push_str(&mut r, "curl -fsSL https://get.docker.com -o get-docker.sh && sudo sh get-docker.sh");
    push_str(&mut r, "sudo usermod -aG docker $USER");
    r
}

/// The commands that enable the firewall for SSH, HTTP, HTTPS and the
/// agent's WebSocket.
pub fn firewall_commands() -> (r: Vec<String>)
    ensures
        string_views(r@) == seq![
            "sudo ufw allow 22/tcp"@,
            "sudo ufw allow 80/tcp"@,
            "sudo ufw allow 443/tcp"@,
            "sudo ufw allow 8081/tcp"@,
            "sudo ufw --force enable"@,
        ],
{
    let mut r: Vec<String> = Vec::new();
    push_str(&mut r, "sudo ufw allow 22/tcp");
    push_str(&mut r, "sudo ufw allow 80/tcp");
    push_str(&mut r, "sudo ufw allow 443/tcp");
    push_str(&mut r, "sudo ufw allow 8081/tcp");
    push_str(&mut r, "sudo ufw --force enable");
    r
}

/// The commands that install Caddy from its package repository.
pub fn caddy_install_commands() -> (r: Vec<String>)
    ensures
        string_views(r@) == seq![
            "sudo apt-get install -y debian-keyring debian-archive-keyring apt-transport-https"@,
            "curl -1sLf 'https://dl.cloudsmith.io/public/caddy/stable/gpg.key' | sudo gpg --dearmor -o /usr/share/keyrings/caddy-stable-archive-keyring.gpg"@,
            "curl -1sLf 'https://dl.cloudsmith.io/public/caddy/stable/debian.deb.txt' | sudo tee /etc/apt/sources.list.d/caddy-stable.list"@,
            "sudo apt-get update"@,
            "sudo apt-get install caddy -y"@,
        ],
{
    let mut r: Vec<String> = Vec::new();
    push_str(&mut r, "sudo apt-get install -y debian-keyring debian-archive-keyring apt-transport-https");
    push_str(
        &mut r,
        "curl -1sLf 'https://dl.cloudsmith.io/public/caddy/stable/gpg.key' | sudo gpg --dearmor -o /usr/share/keyrings/caddy-stable-archive-keyring.gpg",
    );
    push_str(
        &mut r,
        "curl -1sLf 'https://dl.cloudsmith.io/public/caddy/stable/debian.deb.txt' | sudo tee /etc/apt/sources.list.d/caddy-stable.list",
    );
    push_str(&mut r, "sudo apt-get update");
    push_str(&mut r, "sudo apt-get install caddy -y");
    r
}

/// The systemd unit of the agent.
pub const AGENT_SERVICE_UNIT: &'static str = "[Unit]\nDescription=Shipwright Agent Daemon\nAfter=network.target docker.service\n\n[Service]\nType=simple\nUser=root\nExecStart=/usr/local/bin/shipwright-agent\nRestart=always\nRestartSec=5\n\n[Install]\nWantedBy=multi-user.target\n";

/// The commands that install the uploaded agent as a service and open its
/// ports.
pub fn agent_service_commands() -> (r: Vec<String>)
    ensures
        string_views(r@) == seq![
            "sudo mv /tmp/shipwright-agent /usr/local/bin/shipwright-agent"@,
            "sudo chmod +x /usr/local/bin/shipwright-agent"@,
            "echo '"@ + AGENT_SERVICE_UNIT@ + "' | sudo tee /etc/systemd/system/shipwright-agent.service"@,
            "sudo systemctl daemon-reload"@,
            "sudo systemctl enable shipwright-agent"@,
            "sudo systemctl restart shipwright-agent"@,
            "sudo ufw allow 8081:8090/tcp"@,
            "sudo mkdir -p /etc/shipwright"@,
        ],
{
    let mut r: Vec<String> = Vec::new();
    push_str(&mut r, "sudo mv /tmp/shipwright-agent /usr/local/bin/shipwright-agent");
    push_str(&mut r, "sudo chmod +x /usr/local/bin/shipwright-agent");
    let mut unit = String::from_str("echo '");
    unit.append(AGENT_SERVICE_UNIT);
    unit.append("' | sudo tee /etc/systemd/system/shipwright-agent.service");
    crate::text::push_string(&mut r, unit);
    push_str(&mut r, "sudo systemctl daemon-reload");
    push_str(&mut r, "sudo systemctl enable shipwright-agent");
    push_str(&mut r, "sudo systemctl restart shipwright-agent");
    push_str(&mut r, "sudo ufw allow 8081:8090/tcp");
    push_str(&mut r, "sudo mkdir -p /etc/shipwright");
    r
}

/// The command that records the server's CPU flags (the output of reading
/// them, trimmed, spaces written `,`) for builds.
pub fn cpu_flags_command(flags_output: &str) -> (r: String)
    ensures
        r@ == "echo 'SHIPWRIGHT_CPU_FLAGS="@ + replace_all(trim(flags_output@), " "@, ","@)
            + "' | sudo tee /etc/shipwright/hardware.env"@,
{
    proof {
        reveal_strlit(" ");
    }
    let flags = replace_chars(&trim_chars(&chars_of(flags_output), None), &chars_of(" "), &chars_of(","));
    let mut r = String::from_str("echo 'SHIPWRIGHT_CPU_FLAGS=");
    r.append(string_of(&flags).as_str());
    r.append("' | sudo tee /etc/shipwright/hardware.env");
    r
}

/// The remote command that streams a project's logs.
pub fn logs_command(project_name: &str) -> (r: String)
    ensures
        r@ == "docker logs -f "@ + project_name@,
{
    let mut r = String::from_str("docker logs -f ");
    r.append(project_name);
    r
}

/// The git pre-push hook that checks the deployment before a push.
pub const PRE_PUSH_HOOK: &'static str = "#!/bin/sh\n# Shipwright Pre-push Hook\n# Verifies deployment configuration before pushing\n\necho \"🚢 Shipwright: Verifying deployment configuration...\"\n\n# Check if shipwright is installed\nif ! command -v shipwright >/dev/null 2>&1; then\n    echo \"⚠️  Shipwright CLI not found in PATH. Skipping verification.\"\n    exit 0\nfi\n\n# Run dry-run deployment\nif ! shipwright up --dry-run; then\n    echo \"❌ Shipwright: Deployment verification failed. Push aborted.\"\n    exit 1\nfi\n\necho \"✅ Shipwright: Configuration verified.\"\nexit 0\n";

} // verus!
