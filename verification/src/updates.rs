//! Self-updates of the agent and the command-line tool: which release is
//! newer, which asset of a release fits the platform, and the steps of
//! replacing the agent on a server.
use vstd::prelude::*;
use vstd::string::*;
use crate::text::{chars_of, str_eq, string_of, string_views, trim_start, trim_start_chars, push_str};

verus! {

/// The version a release tag names: the tag without its leading `v`s.
pub open spec fn tag_version(tag: Seq<char>) -> Seq<char> {
    trim_start(tag, Some('v'))
}

/// The version a release tag names (see `tag_version`).
pub fn release_version(tag: &str) -> (r: String)
    ensures
        r@ == tag_version(tag@),
{
    string_of(&trim_start_chars(&chars_of(tag), Some('v')))
}

/// A release is announced when its version differs from the running one.
pub fn update_available(tag: &str, current: &str) -> (r: bool)
    ensures
        r == (tag_version(tag@) != current@),
{
    !str_eq(release_version(tag).as_str(), current)
}

/// Which program is updated.
#[derive(Debug, Clone, Copy, PartialEq, Eq, Structural)]
pub enum Binary {
    Agent,
    Cli,
}

/// The release asset of a binary for a platform (`std::env::consts::OS`
/// and `ARCH`), if the platform is supported.
pub open spec fn asset_for(binary: Binary, os: Seq<char>, arch: Seq<char>) -> Option<Seq<char>> {
    let prefix = match binary {
        Binary::Agent => "shipwright-agent-"@,
        Binary::Cli => "shipwright-"@,
    };
    if os == "linux"@ && arch == "x86_64"@ {
        Some(prefix + "linux-x86_64"@)
    } else if os == "macos"@ && arch == "x86_64"@ {
        Some(prefix + "macos-x86_64"@)
    } else if os == "macos"@ && arch == "aarch64"@ {
        Some(prefix + "macos-aarch64"@)
    } else if os == "windows"@ && arch == "x86_64"@ {
        Some(prefix + "windows-x86_64.exe"@)
    } else {
        None
    }
}

/// The release asset of a binary for a platform, or
/// "Unsupported platform: <os>-<arch>".
pub fn asset_name(binary: Binary, os: &str, arch: &str) -> (r: Result<String, String>)
    ensures
        (match asset_for(binary, os@, arch@) {
            Some(n) => r matches Ok(s) && s@ == n,
            None => r matches Err(e) && e@ == "Unsupported platform: "@ + os@ + "-"@ + arch@,
        }),
{
    let suffix = if str_eq(os, "linux") && str_eq(arch, "x86_64") {
        "linux-x86_64"
    } else if str_eq(os, "macos") && str_eq(arch, "x86_64") {
        "macos-x86_64"
    } else if str_eq(os, "macos") && str_eq(arch, "aarch64") {
        "macos-aarch64"
    } else if str_eq(os, "windows") && str_eq(arch, "x86_64") {
        "windows-x86_64.exe"
    } else {
        let mut e = String::from_str("Unsupported platform: ");
        e.append(os);
        e.append("-");
        e.append(arch);
        return Err(e);
    };
    let mut n = match binary {
        Binary::Agent => String::from_str("shipwright-agent-"),
        Binary::Cli => String::from_str("shipwright-"),
    };
    n.append(suffix);
    Ok(n)
}

/// The first asset (by name) that has the name, or
/// "Could not find asset '<name>' in the latest release".
pub fn find_asset(asset_names: &Vec<String>, name: &str) -> (r: Result<usize, String>)
    ensures
        (match r {
            Ok(i) => i < asset_names@.len() && asset_names@[i as int]@ == name@ && forall|j: int|
                0 <= j < i ==> asset_names@[j]@ != name@,
            Err(e) => e@ == "Could not find asset '"@ + name@ + "' in the latest release"@ && forall|j: int|
                0 <= j < asset_names@.len() ==> asset_names@[j]@ != name@,
        }),
{
    let mut i: usize = 0;
    while i < asset_names.len()
        invariant
            i <= asset_names@.len(),
            forall|j: int| 0 <= j < i ==> asset_names@[j]@ != name@,
        decreases asset_names@.len() - i,
    {
        if str_eq(asset_names[i].as_str(), name) {
            return Ok(i);
        }
        i = i + 1;
    }
    let mut e = String::from_str("Could not find asset '");
    e.append(name);
    e.append("' in the latest release");
    Err(e)
}

/// The command-line tool checks for a release at most once a day: when the
/// last check's age is unknown or at least 86400 seconds.
pub fn update_check_due(last_check_age_secs: Option<u64>) -> (r: bool)
    ensures
        r == (match last_check_age_secs {
            Some(a) => a >= 86400,
            None => true,
        }),
{
    match last_check_age_secs {
        Some(a) => a >= 86400,
        None => true,
    }
}

/// The note printed when a newer release exists.
pub fn update_notice(latest: &str, current: &str) -> (r: String)
    ensures
        r@ == "✨ A new version of Shipwright is available: v"@ + latest@ + " (current: v"@ + current@ + ")"@,
{
    let mut r = String::from_str("✨ A new version of Shipwright is available: v");
    r.append(latest);
    r.append(" (current: v");
    r.append(current);
    r.append(")");
    r
}

/// Where the new agent binary is copied on the server.
pub fn agent_upload_target(user: &str, host: &str) -> (r: String)
    ensures
        r@ == user@ + "@"@ + host@ + ":/tmp/shipwright-agent"@,
{
    let mut r = String::from_str(user);
    r.append("@");
    r.append(host);
    r.append(":/tmp/shipwright-agent");
    r
}

/// The commands that install an uploaded agent binary and restart the
/// service, in order (the stop before the upload is the first).
pub open spec fn agent_install_commands() -> Seq<Seq<char>> {
    seq![
        "sudo systemctl stop shipwright-agent"@,
        "sudo mv /tmp/shipwright-agent /usr/local/bin/shipwright-agent"@,
        "sudo chmod +x /usr/local/bin/shipwright-agent"@,
        "sudo systemctl daemon-reload"@,
        "sudo systemctl start shipwright-agent"@,
        "sudo systemctl is-active shipwright-agent"@,
    ]
}

/// The commands of an agent update on the server, in order: stop, then
/// (after the upload) move, make executable, reload, start, check.
pub fn agent_update_commands() -> (r: Vec<String>)
    ensures
        string_views(r@) == agent_install_commands(),
{
    let mut v: Vec<String> = Vec::new();
    push_str(&mut v, "sudo systemctl stop shipwright-agent");
    push_str(&mut v, "sudo mv /tmp/shipwright-agent /usr/local/bin/shipwright-agent");
    push_str(&mut v, "sudo chmod +x /usr/local/bin/shipwright-agent");
    push_str(&mut v, "sudo systemctl daemon-reload");
    push_str(&mut v, "sudo systemctl start shipwright-agent");
    push_str(&mut v, "sudo systemctl is-active shipwright-agent");
    v
}

// ---------------------------------------------------------------------------
// Self-update from the agent's own repository
// ---------------------------------------------------------------------------

/// One command of a self-update: the program, its arguments, whether it
/// runs in the repository, and the message it fails with.
pub struct UpdateStep {
    pub program: String,
    pub args: Vec<String>,
    pub in_repo: bool,
    pub failure: String,
}

/// A step as plain values.
pub type StepView = (Seq<char>, Seq<Seq<char>>, bool, Seq<char>);

/// A step as plain values.
pub open spec fn step_view(s: UpdateStep) -> StepView {
    (s.program@, string_views(s.args@), s.in_repo, s.failure@)
}

/// The steps of a self-update from the repository at `repo`: pull, build
/// the agent, then install the binary and restart the service, or (in a
/// container) rebuild the image and restart the container.  The agent
/// waits five seconds before the last step.
pub open spec fn self_update_plan(in_docker: bool, repo: Seq<char>) -> Seq<StepView> {
    let pull = ("git"@, seq!["pull"@, "origin"@, "main"@], true, "Failed to pull latest code"@);
    let build = (
        "cargo"@,
        seq!["build"@, "--release"@, "--package"@, "shipwright-agent"@],
        true,
        "Failed to build binary"@,
    );
    if in_docker {
        seq![
            pull,
            build,
            (
                "docker"@,
                seq!["build"@, "-f"@, "agent/Dockerfile.runtime"@, "-t"@, "shipwright-agent:latest"@, "."@],
                true,
                "Failed to build Docker image"@,
            ),
            ("docker"@, seq!["restart"@, "shipwright-agent"@], false, "Failed to restart container"@),
        ]
    } else {
        seq![
            pull,
            build,
            (
                "install"@,
                seq!["-m"@, "755"@, repo + "/target/release/shipwright-agent"@, "/usr/local/bin/shipwright-agent"@],
                false,
                "Failed to install binary"@,
            ),
            ("systemctl"@, seq!["restart"@, "shipwright-agent"@], false, "Failed to restart service"@),
        ]
    }
}

fn step(program: &str, args: Vec<String>, in_repo: bool, failure: &str) -> (r: UpdateStep)
    ensures
        r.program@ == program@,
        r.args == args,
        r.in_repo == in_repo,
        r.failure@ == failure@,
{
    UpdateStep { program: String::from_str(program), args, in_repo, failure: String::from_str(failure) }
}

/// The steps of a self-update (see `self_update_plan`).
pub fn self_update_steps(in_docker: bool, repo_path: &str) -> (r: Vec<UpdateStep>)
    ensures
        r@.map_values(|s: UpdateStep| step_view(s)) == self_update_plan(in_docker, repo_path@),
{
    let mut pull_args: Vec<String> = Vec::new();
    push_str(&mut pull_args, "pull");
    push_str(&mut pull_args, "origin");
    push_str(&mut pull_args, "main");
    assert(string_views(pull_args@) =~= seq!["pull"@, "origin"@, "main"@]);
    let mut build_args: Vec<String> = Vec::new();
    push_str(&mut build_args, "build");
    push_str(&mut build_args, "--release");
    push_str(&mut build_args, "--package");
    push_str(&mut build_args, "shipwright-agent");
    assert(string_views(build_args@) =~= seq!["build"@, "--release"@, "--package"@, "shipwright-agent"@]);
    let mut third: Vec<String> = Vec::new();
    let mut last: Vec<String> = Vec::new();
    push_str(&mut last, "restart");
    push_str(&mut last, "shipwright-agent");
    assert(string_views(last@) =~= seq!["restart"@, "shipwright-agent"@]);
    let mut r: Vec<UpdateStep> = Vec::new();
    r.push(step("git", pull_args, true, "Failed to pull latest code"));
    r.push(step("cargo", build_args, true, "Failed to build binary"));
    if in_docker {
        push_str(&mut third, "build");
        push_str(&mut third, "-f");
        push_str(&mut third, "agent/Dockerfile.runtime");
        push_str(&mut third, "-t");
        push_str(&mut third, "shipwright-agent:latest");
        push_str(&mut third, ".");
        assert(string_views(third@) =~= seq![
            "build"@,
            "-f"@,
            "agent/Dockerfile.runtime"@,
            "-t"@,
            "shipwright-agent:latest"@,
            "."@,
        ]);
        r.push(step("docker", third, true, "Failed to build Docker image"));
        r.push(step("docker", last, false, "Failed to restart container"));
    } else {
        let mut binary = String::from_str(repo_path);
        binary.append("/target/release/shipwright-agent");
        push_str(&mut third, "-m");
        push_str(&mut third, "755");
        crate::text::push_string(&mut third, binary);
        push_str(&mut third, "/usr/local/bin/shipwright-agent");
        assert(string_views(third@) =~= seq![
            "-m"@,
            "755"@,
            repo_path@ + "/target/release/shipwright-agent"@,
            "/usr/local/bin/shipwright-agent"@,
        ]);
        r.push(step("install", third, false, "Failed to install binary"));
        r.push(step("systemctl", last, false, "Failed to restart service"));
    }
    assert(r@.map_values(|s: UpdateStep| step_view(s)) =~= self_update_plan(in_docker, repo_path@));
    r
}

/// The repository a self-update builds from: the configured path; in a
/// container, without one, `/home/shipwright/.shipwright/repo`.  A service
/// outside a container must have the path configured (`None`).
pub fn self_update_repo(in_docker: bool, configured: Option<String>) -> (r: Option<String>)
    ensures
        match configured {
            Some(p) => r == Some(p),
            None => if in_docker {
                r matches Some(p) && p@ == "/home/shipwright/.shipwright/repo"@
            } else {
                r is None
            },
        },
{
    match configured {
        Some(p) => Some(p),
        None => if in_docker {
            Some(String::from_str("/home/shipwright/.shipwright/repo"))
        } else {
            None
        },
    }
}

} // verus!
