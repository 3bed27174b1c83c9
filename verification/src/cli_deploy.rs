//! The decisions of the `deploy` command: the environment's overrides of
//! the configuration, which compose file is built, the steps of a
//! deployment, and the smoke tests and health checks run after it.
use vstd::prelude::*;
use vstd::string::*;
use crate::config::{Config, RegistryConfig, VpsConfig};
use crate::smoke_checks::{split_words, words};
use crate::text::{chars_of, digits_value, parse_unsigned, parse_unsigned_chars, replace_all, replace_chars, starts_with, starts_with_chars, string_of, string_views, views};

verus! {

// ---------------------------------------------------------------------------
// Configuration
// ---------------------------------------------------------------------------

/// The configuration with the environment's overrides: the VPS host (when
/// there is a VPS) and the registry URL (when there is a registry).
pub open spec fn overridden(c: Config, vps_host: Option<String>, registry_url: Option<String>, d: Config) -> bool {
    &&& d.version == c.version
    &&& d.project == c.project
    &&& d.build == c.build
    &&& d.infrastructure == c.infrastructure
    &&& d.notifications == c.notifications
    &&& d.smoke_tests == c.smoke_tests
    &&& d.deploy.deploy_type == c.deploy.deploy_type
    &&& d.deploy.replicas == c.deploy.replicas
    &&& d.deploy.health == c.deploy.health
    &&& d.deploy.resources == c.deploy.resources
    &&& d.deploy.smoke_tests == c.deploy.smoke_tests
    &&& d.deploy.vps == (match (c.deploy.vps, vps_host) {
        (Some(v), Some(h)) => Some(VpsConfig { host: h, ..v }),
        (v, _) => v,
    })
    &&& d.deploy.registry == (match (c.deploy.registry, registry_url) {
        (Some(g), Some(u)) => Some(RegistryConfig { url: u, ..g }),
        (g, _) => g,
    })
}

/// Applies the overrides of `SHIPWRIGHT_VPS_HOST` and
/// `SHIPWRIGHT_REGISTRY_URL` (given when they are set).
pub fn apply_env_overrides(config: Config, vps_host: Option<String>, registry_url: Option<String>) -> (r: Config)
    ensures
        overridden(config, vps_host, registry_url, r),
{
    let mut c = config;
    let ghost vh = vps_host;
    let ghost ru = registry_url;
    match vps_host {
        Some(h) => match c.deploy.vps {
            Some(v) => {
                c.deploy.vps = Some(VpsConfig { host: h, ..v });
            },
            None => {},
        },
        None => {},
    }
    match registry_url {
        Some(u) => match c.deploy.registry {
            Some(g) => {
                c.deploy.registry = Some(RegistryConfig { url: u, ..g });
            },
            None => {},
        },
        None => {},
    }
    c
}

/// The compose files a deployment looks for, in order.
pub open spec fn deploy_compose_names() -> Seq<Seq<char>> {
    seq![
        "docker-compose.production.yml"@,
        "docker-compose.prod.yml"@,
        "docker-compose.yml"@,
        "docker-compose.yaml"@,
        "compose.yml"@,
        "compose.yaml"@,
    ]
}

/// The compose files a deployment looks for, in order.
pub fn deploy_compose_candidates() -> (r: Vec<String>)
    ensures
        string_views(r@) == deploy_compose_names(),
{
    let mut v: Vec<String> = Vec::new();
    v.push(String::from_str("docker-compose.production.yml"));
    v.push(String::from_str("docker-compose.prod.yml"));
    v.push(String::from_str("docker-compose.yml"));
    v.push(String::from_str("docker-compose.yaml"));
    v.push(String::from_str("compose.yml"));
    v.push(String::from_str("compose.yaml"));
    assert(string_views(v@) =~= deploy_compose_names());
    v
}

/// The position of the first candidate that is present, if any.
pub fn first_present(present: &Vec<bool>) -> (r: Option<usize>)
    ensures
        r matches Some(i) ==> i < present@.len() && present@[i as int] && forall|j: int| 0 <= j < i ==> !present@[j],
        r is None ==> forall|j: int| 0 <= j < present@.len() ==> !present@[j],
{
    let mut i: usize = 0;
    while i < present.len()
        invariant
            i <= present@.len(),
            forall|j: int| 0 <= j < i ==> !present@[j],
        decreases present@.len() - i,
    {
        if present[i] {
            return Some(i);
        }
        i = i + 1;
    }
    None
}

// ---------------------------------------------------------------------------
// Steps of a deployment
// ---------------------------------------------------------------------------

/// A step of a deployment.
#[derive(Debug, Clone, PartialEq, Eq)]
pub enum DeployStep {
    /// Build and push the services of a compose file.
    BuildServices(String),
    /// Build the one image.
    BuildImage,
    /// Deploy to the server.
    Deploy,
    /// Check the application's health.
    CheckHealth,
    /// Run the smoke tests.
    RunSmokeTests,
}

/// The steps of a deployment: for compose deployments, building the
/// services of the compose file found when it has buildable services; else
/// building the image; then deploying; then the health check and the smoke
/// tests when they are configured and there is a server.
pub open spec fn deploy_steps(
    deploy_type: Seq<char>,
    compose_file: Option<Seq<char>>,
    buildable: nat,
    has_health: bool,
    has_smoke_tests: bool,
    has_vps: bool,
) -> Seq<Seq<char>> {
    let build: Seq<Seq<char>> = if deploy_type == "docker-compose"@ {
        match compose_file {
            Some(f) => if buildable > 0 {
                seq!["build-services:"@ + f]
            } else {
                Seq::empty()
            },
            None => Seq::empty(),
        }
    } else {
        seq!["build-image"@]
    };
    build + seq!["deploy"@] + (if has_health && has_vps {
        seq!["check-health"@]
    } else {
        Seq::empty()
    }) + (if has_smoke_tests && has_vps {
        seq!["smoke-tests"@]
    } else {
        Seq::empty()
    })
}

/// A step as text, as `deploy_steps` names it.
pub open spec fn step_name(s: DeployStep) -> Seq<char> {
    match s {
        DeployStep::BuildServices(f) => "build-services:"@ + f@,
        DeployStep::BuildImage => "build-image"@,
        DeployStep::Deploy => "deploy"@,
        DeployStep::CheckHealth => "check-health"@,
        DeployStep::RunSmokeTests => "smoke-tests"@,
    }
}

/// Steps as text.
pub open spec fn step_names(v: Seq<DeployStep>) -> Seq<Seq<char>> {
    v.map_values(|s: DeployStep| step_name(s))
}

/// The steps of a deployment with this configuration, given the compose
/// file found (if any) and how many buildable services it has.
pub fn deploy_plan(config: &Config, compose_file: Option<String>, buildable: usize) -> (r: Vec<DeployStep>)
    ensures
        step_names(r@) == deploy_steps(
            config.deploy.deploy_type@,
            match compose_file {
                Some(f) => Some(f@),
                None => None,
            },
            buildable as nat,
            config.deploy.health is Some,
            config.deploy.smoke_tests is Some,
            config.deploy.vps is Some,
        ),
{
    let mut v: Vec<DeployStep> = Vec::new();
    let ghost cf = match &compose_file {
        Some(f) => Some(f@),
        None => None::<Seq<char>>,
    };
    if crate::text::str_eq(config.deploy.deploy_type.as_str(), "docker-compose") {
        match compose_file {
            Some(f) => {
                if buildable > 0 {
                    v.push(DeployStep::BuildServices(f));
                }
            },
            None => {},
        }
    } else {
        v.push(DeployStep::BuildImage);
    }
    let ghost v0 = step_names(v@);
    v.push(DeployStep::Deploy);
    let has_vps = config.deploy.vps.is_some();
    let ghost v1 = step_names(v@);
    assert(v1 =~= v0 + seq!["deploy"@]);
    if config.deploy.health.is_some() && has_vps {
        v.push(DeployStep::CheckHealth);
    }
    let ghost v2 = step_names(v@);
    if config.deploy.smoke_tests.is_some() && has_vps {
        v.push(DeployStep::RunSmokeTests);
    }
    assert(step_names(v@) =~= deploy_steps(
        config.deploy.deploy_type@,
        cf,
        buildable as nat,
        config.deploy.health is Some,
        config.deploy.smoke_tests is Some,
        config.deploy.vps is Some,
    ));
    v
}

// ---------------------------------------------------------------------------
// Smoke tests and health checks
// ---------------------------------------------------------------------------

/// All characters are ASCII digits.
pub open spec fn all_digits(s: Seq<char>) -> bool {
    forall|i: int| 0 <= i < s.len() ==> '0' <= #[trigger] s[i] && s[i] <= '9'
}

proof fn lemma_digits_value_some(s: Seq<char>)
    ensures
        (digits_value(s) is Some) == all_digits(s),
    decreases s.len(),
{
    if s.len() > 0 {
        lemma_digits_value_some(s.drop_last());
        if all_digits(s) {
            assert(all_digits(s.drop_last()));
        } else if all_digits(s.drop_last()) {
            let i = choose|i: int| 0 <= i < s.len() && !('0' <= #[trigger] s[i] && s[i] <= '9');
            if i < s.len() - 1 {
                assert(s.drop_last()[i] == s[i]);
            }
        }
    }
}

/// The message `str::parse` gives when it rejects an unsigned integer.
pub open spec fn int_error(s: Seq<char>) -> Seq<char> {
    if s.len() == 0 {
        "cannot parse integer from empty string"@
    } else {
        let body = if s[0] == '+' {
            s.drop_first()
        } else {
            s
        };
        if body.len() == 0 || !all_digits(body) {
            "invalid digit found in string"@
        } else {
            "number too large to fit in target type"@
        }
    }
}

/// The status a smoke test expects, from the words after its method and
/// path: 200, or the number of the last word that starts with `expect=`
/// (with each `expect=` removed), or the error of the first such word that
/// is not a status.
pub open spec fn expected_status(ws: Seq<Seq<char>>) -> Result<nat, Seq<char>>
    decreases ws.len(),
{
    if ws.len() == 0 {
        Ok(200)
    } else {
        match expected_status(ws.drop_last()) {
            Err(e) => Err(e),
            Ok(v) => {
                let w = ws.last();
                if starts_with(w, "expect="@) {
                    let t = replace_all(w, "expect="@, ""@);
                    match parse_unsigned(t, 65535) {
                        Some(n) => Ok(n),
                        None => Err(int_error(t)),
                    }
                } else {
                    Ok(v)
                }
            },
        }
    }
}

proof fn lemma_expected_error_stays(ws: Seq<Seq<char>>, i: int)
    requires
        0 <= i <= ws.len(),
        expected_status(ws.subrange(0, i)) is Err,
    ensures
        expected_status(ws) == expected_status(ws.subrange(0, i)),
    decreases ws.len() - i,
{
    if i < ws.len() {
        let sub = ws.subrange(0, i + 1);
        assert(sub.drop_last() =~= ws.subrange(0, i));
        lemma_expected_error_stays(ws, i + 1);
    } else {
        assert(ws.subrange(0, i) =~= ws);
    }
}

/// A smoke test line `METHOD PATH [expect=STATUS]...`: nothing when it has
/// fewer than two words, else its method, path and expected status, or why
/// the status cannot be read.
pub open spec fn smoke_line(line: Seq<char>) -> Result<Option<(Seq<char>, Seq<char>, nat)>, Seq<char>> {
    let ws = words(line);
    if ws.len() < 2 {
        Ok(None)
    } else {
        match expected_status(ws.subrange(2, ws.len() as int)) {
            Ok(n) => Ok(Some((ws[0], ws[1], n))),
            Err(e) => Err(e),
        }
    }
}

/// A smoke test of the deploy command.
pub struct SmokeRequest {
    pub method: String,
    pub path: String,
    pub expected_status: u16,
}

impl SmokeRequest {
    /// The test passes when the response has the expected status.
    pub fn passes(&self, status: u16) -> (r: bool)
        ensures
            r == (status == self.expected_status),
    {
        status == self.expected_status
    }
}

fn int_error_text(t: &Vec<char>) -> (r: String)
    requires
        parse_unsigned(t@, 65535) is None,
    ensures
        r@ == int_error(t@),
{
    if t.len() == 0 {
        return String::from_str("cannot parse integer from empty string");
    }
    let start: usize = if t[0] == '+' { 1 } else { 0 };
    let ghost body = if t@[0] == '+' { t@.drop_first() } else { t@ };
    assert(body =~= t@.subrange(start as int, t@.len() as int));
    let mut ok = start < t.len();
    let mut i = start;
    while i < t.len()
        invariant
            start <= i <= t@.len(),
            body =~= t@.subrange(start as int, t@.len() as int),
            ok == (start < t@.len() && forall|j: int| start <= j < i ==> '0' <= #[trigger] t@[j] && t@[j] <= '9'),
        decreases t@.len() - i,
    {
        if !('0' <= t[i] && t[i] <= '9') {
            ok = false;
        }
        i = i + 1;
    }
    proof {
        if ok {
            assert forall|k: int| 0 <= k < body.len() implies '0' <= #[trigger] body[k] && body[k] <= '9' by {
                assert(body[k] == t@[start + k]);
            }
        } else if body.len() > 0 {
            let j = choose|j: int| start <= j < t@.len() && !('0' <= #[trigger] t@[j] && t@[j] <= '9');
            assert(body[j - start] == t@[j]);
        }
    }
    if ok {
        String::from_str("number too large to fit in target type")
    } else {
        String::from_str("invalid digit found in string")
    }
}

/// Reads a smoke test line (see `smoke_line`).
pub fn parse_smoke_test(line: &str) -> (r: Result<Option<SmokeRequest>, String>)
    ensures
        (match (smoke_line(line@), r) {
            (Ok(None), Ok(None)) => true,
            (Ok(Some((m, p, n))), Ok(Some(q))) => q.method@ == m && q.path@ == p && q.expected_status == n,
            (Err(e), Err(f)) => f@ == e,
            _ => false,
        }),
{
    let ws = split_words(&chars_of(line));
    let ghost wv = words(line@);
    if ws.len() < 2 {
        return Ok(None);
    }
    let pre = chars_of("expect=");
    let none: Vec<char> = Vec::new();
    proof {
        reveal_strlit("expect=");
        reveal_strlit("");
    }
    let ghost rest = wv.subrange(2, wv.len() as int);
    let mut expected: u16 = 200;
    let mut k: usize = 2;
    while k < ws.len()
        invariant
            2 <= k <= ws@.len(),
            views(ws@) == wv,
            wv == words(line@),
            rest == wv.subrange(2, wv.len() as int),
            pre@ == "expect="@,
            pre@.len() == 7,
            none@ == ""@,
            expected_status(rest.subrange(0, k - 2)) == Ok::<nat, Seq<char>>(expected as nat),
        decreases ws@.len() - k,
    {
        let ghost sub = rest.subrange(0, k - 1);
        proof {
            assert(sub.drop_last() =~= rest.subrange(0, k - 2));
            assert(sub.last() == ws@[k as int]@);
        }
        if starts_with_chars(&ws[k], &pre) {
            let t = replace_chars(&ws[k], &pre, &none);
            match parse_unsigned_chars(&t, 65535) {
                Some(n) => {
                    expected = n as u16;
                },
                None => {
                    let e = int_error_text(&t);
                    proof {
                        assert(sub =~= rest.subrange(0, k - 1));
                        assert(expected_status(sub) == Err::<nat, Seq<char>>(int_error(t@)));
                        lemma_expected_error_stays(rest, k - 1);
                        assert(smoke_line(line@) == Err::<Option<(Seq<char>, Seq<char>, nat)>, Seq<char>>(int_error(t@)));
                    }
                    return Err(e);
                },
            }
        }
        k = k + 1;
    }
    assert(rest.subrange(0, ws@.len() - 2) =~= rest);
    Ok(Some(SmokeRequest { method: string_of(&ws[0]), path: string_of(&ws[1]), expected_status: expected }))
}

/// The URL a smoke test or health check requests: `http://<host><path>`.
pub fn probe_url(host: &str, path: &str) -> (r: String)
    ensures
        r@ == "http://"@ + host@ + path@,
{
    let mut r = String::from_str("http://");
    r.append(host);
    r.append(path);
    r
}

/// What a health probe got: a response status, or no response.
pub enum ProbeResult {
    Status(u16),
    Unreachable,
}

/// What follows a health probe.
#[derive(Debug, PartialEq, Eq, Structural)]
pub enum HealthVerdict {
    /// The application answered as expected.
    Healthy,
    /// Probe again.
    Retry,
    /// The fifth probe failed too: "Health check failed after 5 attempts".
    Unhealthy,
}

/// The verdict after the `attempt`-th probe (counting from 1) of at most 5.
pub fn health_step(attempt: u32, result: ProbeResult, expect: u16) -> (r: HealthVerdict)
    ensures
        r == (if result matches ProbeResult::Status(s) && s == expect {
            HealthVerdict::Healthy
        } else if attempt >= 5 {
            HealthVerdict::Unhealthy
        } else {
            HealthVerdict::Retry
        }),
{
    match result {
        ProbeResult::Status(s) => {
            if s == expect {
                return HealthVerdict::Healthy;
            }
        },
        ProbeResult::Unreachable => {},
    }
    if attempt >= 5 {
        HealthVerdict::Unhealthy
    } else {
        HealthVerdict::Retry
    }
}

} // verus!
