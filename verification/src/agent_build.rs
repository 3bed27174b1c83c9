//! Building a project: where the agent gets the source, how it builds it
//! (compose file or Dockerfile), the `.env` file it makes sure of, the
//! events of a pipeline run, and what the command-line tool packs into a
//! build context.
use vstd::prelude::*;
use vstd::string::*;
use crate::cli_deploy::first_present;
use crate::deployment_tracking::DeploymentStatus;
use crate::protocol::{AgentMessage, BuildEvent};
use crate::text::{chars_of, push_str, starts_with, starts_with_chars, str_eq, string_of_range, string_views};

verus! {

// ---------------------------------------------------------------------------
// Source
// ---------------------------------------------------------------------------

/// The URL the agent clones: an HTTPS GitHub URL is rewritten to SSH (for
/// private repositories), any other URL is kept.
pub open spec fn clone_url(url: Seq<char>) -> Seq<char> {
    if starts_with(url, "https://github.com/"@) {
        "git@github.com:"@ + url.subrange(19, url.len() as int)
    } else {
        url
    }
}

/// The URL the agent clones (see `clone_url`).
pub fn convert_to_ssh_url(url: &str) -> (r: String)
    ensures
        r@ == clone_url(url@),
{
    proof {
        reveal_strlit("https://github.com/");
    }
    let v = chars_of(url);
    if starts_with_chars(&v, &chars_of("https://github.com/")) {
        let mut r = String::from_str("git@github.com:");
        r.append(string_of_range(&v, 19, v.len()).as_str());
        r
    } else {
        String::from_str(url)
    }
}

// ---------------------------------------------------------------------------
// Build method
// ---------------------------------------------------------------------------

/// The compose files the agent builds with when the configuration names
/// none, in order of preference.
pub open spec fn build_compose_candidates() -> Seq<Seq<char>> {
    seq![
        "docker-compose.deploy.yml"@,
        "docker-compose.vps.yml"@,
        "docker-compose.production.yml"@,
        "docker-compose.yml"@,
        "infra/docker-compose.deploy.yml"@,
        "infra/docker-compose.yml"@,
    ]
}

/// The compose files the agent builds with when the configuration names
/// none (see `build_compose_candidates`).
pub fn build_compose_file_candidates() -> (r: Vec<String>)
    ensures
        string_views(r@) == build_compose_candidates(),
{
    let mut r: Vec<String> = Vec::new();
    push_str(&mut r, "docker-compose.deploy.yml");
    push_str(&mut r, "docker-compose.vps.yml");
    push_str(&mut r, "docker-compose.production.yml");
    push_str(&mut r, "docker-compose.yml");
    push_str(&mut r, "infra/docker-compose.deploy.yml");
    push_str(&mut r, "infra/docker-compose.yml");
    assert(string_views(r@) =~= build_compose_candidates());
    r
}

/// How the agent builds a project.
#[derive(Debug, PartialEq, Eq)]
pub enum BuildMethod {
    /// `docker compose -f <file> build`.
    Compose(String),
    /// A Docker build of the project's Dockerfile.
    Dockerfile,
}

/// How the agent builds a project: with the configured compose file, else
/// the first candidate present (`present[i]` for the `i`-th of
/// `build_compose_candidates`), else with the Dockerfile when there is one.
pub fn build_method(configured: &Option<String>, present: &Vec<bool>, has_dockerfile: bool) -> (r: Result<
    BuildMethod,
    String,
>)
    requires
        present@.len() == build_compose_candidates().len(),
    ensures
        configured matches Some(c) ==> (r matches Ok(BuildMethod::Compose(f)) && f@ == c@),
        configured is None && (exists|i: int| 0 <= i < present@.len() && present@[i]) ==> exists|i: int|
            0 <= i < present@.len() && present@[i] && (forall|j: int| 0 <= j < i ==> !present@[j]) && (r matches Ok(
                BuildMethod::Compose(f),
            ) && f@ == build_compose_candidates()[i]),
        configured is None && (forall|i: int| 0 <= i < present@.len() ==> !present@[i]) ==> if has_dockerfile {
            r matches Ok(BuildMethod::Dockerfile)
        } else {
            r matches Err(e) && e@ == "No Dockerfile or docker-compose.yml found"@
        },
{
    match configured {
        Some(c) => Ok(BuildMethod::Compose(c.clone())),
        None => {
            let names = build_compose_file_candidates();
            match first_present(present) {
                Some(i) => {
                    assert(names@[i as int]@ == string_views(names@)[i as int]);
                    Ok(BuildMethod::Compose(names[i].clone()))
                },
                None => if has_dockerfile {
                    Ok(BuildMethod::Dockerfile)
                } else {
                    Err(String::from_str("No Dockerfile or docker-compose.yml found"))
                },
            }
        },
    }
}

/// The command that builds with a compose file, run in the build
/// directory.
pub fn compose_build_args(compose_file: &str) -> (r: Vec<String>)
    ensures
        string_views(r@) == seq!["compose"@, "-f"@, compose_file@, "build"@],
{
    let mut r: Vec<String> = Vec::new();
    push_str(&mut r, "compose");
    push_str(&mut r, "-f");
    push_str(&mut r, compose_file);
    push_str(&mut r, "build");
    assert(string_views(r@) =~= seq!["compose"@, "-f"@, compose_file@, "build"@]);
    r
}

// ---------------------------------------------------------------------------
// The .env file of a compose build
// ---------------------------------------------------------------------------

/// What the agent does about a build directory's `.env` file.
#[derive(Debug, PartialEq, Eq)]
pub enum EnvFileAction {
    /// It exists: keep it.
    Keep,
    /// Write it with this content.
    Write(String),
    /// Copy `.env.example` to it.
    CopyExample,
    /// Copy `.env.template` to it.
    CopyTemplate,
}

/// `KEY=value` lines of the variables, in order.
pub open spec fn env_lines(vars: Seq<(String, String)>) -> Seq<char>
    decreases vars.len(),
{
    if vars.len() == 0 {
        Seq::empty()
    } else {
        env_lines(vars.drop_last()) + vars.last().0@ + "="@ + vars.last().1@ + "\n"@
    }
}

/// What the agent does about the `.env` file, in this order of priority:
/// keep an existing one; else copy `.env.example`, else `.env.template`,
/// when there is one; else write the configured variables (when there are
/// some); else write a placeholder.
pub fn env_file_action(
    env_exists: bool,
    environment: &Option<Vec<(String, String)>>,
    example_exists: bool,
    template_exists: bool,
) -> (r: EnvFileAction)
    ensures
        env_exists ==> r == EnvFileAction::Keep,
        !env_exists && example_exists ==> r == EnvFileAction::CopyExample,
        !env_exists && !example_exists && template_exists ==> r == EnvFileAction::CopyTemplate,
        !env_exists && !example_exists && !template_exists && (environment matches Some(v) && v@.len() > 0) ==> (
        r matches EnvFileAction::Write(t) && t@ == env_lines(environment->0@)),
        !env_exists && !example_exists && !template_exists && !(environment matches Some(v) && v@.len() > 0) ==> (
        r matches EnvFileAction::Write(t) && t@ == "# Auto-generated by Shipwright - Please update with your values\n"@),
{
    if env_exists {
        return EnvFileAction::Keep;
    }
    if example_exists {
        return EnvFileAction::CopyExample;
    }
    if template_exists {
        return EnvFileAction::CopyTemplate;
    }
    match environment {
        Some(v) => {
            if v.len() > 0 {
                let mut t = String::new();
                let mut i: usize = 0;
                while i < v.len()
                    invariant
                        i <= v@.len(),
                        t@ == env_lines(v@.subrange(0, i as int)),
                    decreases v@.len() - i,
                {
                    assert(v@.subrange(0, i + 1).drop_last() =~= v@.subrange(0, i as int));
                    t.append(v[i].0.as_str());
                    t.append("=");
                    t.append(v[i].1.as_str());
                    t.append("\n");
                    i = i + 1;
                }
                assert(v@.subrange(0, v@.len() as int) =~= v@);
                return EnvFileAction::Write(t);
            }
        },
        None => {},
    }
    EnvFileAction::Write(String::from_str("# Auto-generated by Shipwright - Please update with your values\n"))
}

// ---------------------------------------------------------------------------
// A pipeline run
// ---------------------------------------------------------------------------

/// The stage of a pipeline run that failed.
#[derive(Debug, Clone, Copy, PartialEq, Eq, Structural)]
pub enum RunStage {
    Clone,
    Build,
    Deploy,
}

/// The event a failed stage broadcasts, and the status its attempt gets
/// (a failed clone leaves the attempt as it is).
pub fn stage_failure(stage: RunStage, project_name: &str, error: &str) -> (r: (AgentMessage, Option<DeploymentStatus>))
    ensures
        r.0 matches AgentMessage::BuildUpdate { project_name: p, event: BuildEvent::Failed(m) } && p@ == project_name@
            && m@ == (match stage {
            RunStage::Clone => "Clone failed: "@,
            RunStage::Build => "Build failed: "@,
            RunStage::Deploy => "Deployment failed: "@,
        }) + error@,
        stage == RunStage::Clone ==> r.1 is None,
        stage != RunStage::Clone ==> r.1 == Some(DeploymentStatus::Failed),
{
    let mut m = String::from_str(
        match stage {
            RunStage::Clone => "Clone failed: ",
            RunStage::Build => "Build failed: ",
            RunStage::Deploy => "Deployment failed: ",
        },
    );
    m.append(error);
    let status = match stage {
        RunStage::Clone => None,
        _ => Some(DeploymentStatus::Failed),
    };
    (AgentMessage::BuildUpdate { project_name: String::from_str(project_name), event: BuildEvent::Failed(m) }, status)
}

/// The event a build of an image broadcasts for a line of Docker's output.
pub fn build_output_event(project_name: &str, line: &str) -> (r: AgentMessage)
    ensures
        r matches AgentMessage::BuildUpdate { project_name: p, event: BuildEvent::Log(l) } && p@ == project_name@
            && l@ == crate::text::trim(line@),
{
    let l = crate::text::string_of(&crate::text::trim_chars(&chars_of(line), None));
    AgentMessage::BuildUpdate { project_name: String::from_str(project_name), event: BuildEvent::Log(l) }
}

// ---------------------------------------------------------------------------
// A build on the developer's machine
// ---------------------------------------------------------------------------

/// Whether the command-line tool builds an image: only with a Dockerfile;
/// without one a compose deployment skips the build, anything else fails.
pub fn local_build_needed(has_dockerfile: bool, deploy_type: &str) -> (r: Result<bool, String>)
    ensures
        has_dockerfile ==> r == Ok::<bool, String>(true),
        !has_dockerfile && deploy_type@ == "docker-compose"@ ==> r == Ok::<bool, String>(false),
        !has_dockerfile && deploy_type@ != "docker-compose"@ ==> (r matches Err(e) && e@
            == "Dockerfile not found. Run 'shipwright init' or create a Dockerfile."@),
{
    if has_dockerfile {
        Ok(true)
    } else if str_eq(deploy_type, "docker-compose") {
        Ok(false)
    } else {
        Err(String::from_str("Dockerfile not found. Run 'shipwright init' or create a Dockerfile."))
    }
}

/// Entries of the project directory left out of the build context.
pub open spec fn context_skipped(name: Seq<char>) -> bool {
    name == "node_modules"@ || name == "target"@ || name == ".git"@ || name == ".shipwright"@ || name == "venv"@
        || name == "context.tar.gz"@
}

/// Whether an entry of the project directory is left out of the build
/// context (see `context_skipped`).
pub fn skip_context_entry(name: &str) -> (r: bool)
    ensures
        r == context_skipped(name@),
{
    str_eq(name, "node_modules") || str_eq(name, "target") || str_eq(name, ".git") || str_eq(name, ".shipwright")
        || str_eq(name, "venv") || str_eq(name, "context.tar.gz")
}

} // verus!
