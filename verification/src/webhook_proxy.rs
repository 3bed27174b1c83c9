//! Routing of HTTPS webhooks through a reverse proxy already running on the
//! server: which proxy it is, and the configuration written into it.
use vstd::prelude::*;
use vstd::string::*;
use crate::infrastructure::ContainerSummary;
use crate::text::{chars_of, contains, str_contains, string_of, trim_start, trim_start_chars};

verus! {

/// The proxy webhooks are routed through, with its container's name.
#[derive(Debug)]
pub enum WebhookProxy {
    Caddy(String),
    Nginx(String),
    NoProxy,
}

/// The container runs an image whose name has `kind` and has a name.
pub open spec fn runs(c: ContainerSummary, kind: Seq<char>) -> bool {
    &&& c.image matches Some(i) && contains(i@, kind)
    &&& c.first_name is Some
}

/// The position of the first container that runs a `kind` image and has a
/// name, if any.
pub open spec fn first_running(cs: Seq<ContainerSummary>, kind: Seq<char>) -> Option<int> {
    if exists|i: int| 0 <= i < cs.len() && runs(#[trigger] cs[i], kind) {
        Some(choose|i: int| 0 <= i < cs.len() && runs(#[trigger] cs[i], kind) && forall|j: int| 0 <= j < i ==> !runs(#[trigger] cs[j], kind))
    } else {
        None
    }
}

/// The name a container is known by: its first name without leading `/`.
pub open spec fn proxy_name(c: ContainerSummary) -> Seq<char> {
    match c.first_name {
        Some(n) => trim_start(n@, Some('/')),
        None => Seq::empty(),
    }
}

fn find_running(cs: &Vec<ContainerSummary>, kind: &str) -> (r: Option<usize>)
    ensures
        (match r {
            Some(i) => i < cs@.len() && runs(cs@[i as int], kind@) && forall|j: int|
                0 <= j < i ==> !runs(#[trigger] cs@[j], kind@),
            None => forall|j: int| 0 <= j < cs@.len() ==> !runs(#[trigger] cs@[j], kind@),
        }),
{
    let mut i: usize = 0;
    while i < cs.len()
        invariant
            i <= cs@.len(),
            forall|j: int| 0 <= j < i ==> !runs(#[trigger] cs@[j], kind@),
        decreases cs@.len() - i,
    {
        let hit = match &cs[i].image {
            Some(img) => str_contains(img.as_str(), kind) && cs[i].first_name.is_some(),
            None => false,
        };
        if hit {
            return Some(i);
        }
        i = i + 1;
    }
    None
}

proof fn lemma_first_running(cs: Seq<ContainerSummary>, kind: Seq<char>, i: int)
    requires
        0 <= i < cs.len(),
        runs(cs[i], kind),
        forall|j: int| 0 <= j < i ==> !runs(#[trigger] cs[j], kind),
    ensures
        first_running(cs, kind) == Some(i),
{
    assert(runs(cs[i], kind) && forall|j: int| 0 <= j < i ==> !runs(#[trigger] cs[j], kind));
    let w = first_running(cs, kind)->0;
    if w < i {
        assert(!runs(cs[w], kind));
    } else if w > i {
        assert(!runs(cs[i], kind));
    }
}

/// The proxy webhooks go through: the first named Caddy container, else
/// the first named Nginx container, else none.
pub open spec fn webhook_proxy_of(cs: Seq<ContainerSummary>) -> (u8, Seq<char>) {
    match first_running(cs, "caddy"@) {
        Some(i) => (1, proxy_name(cs[i])),
        None => match first_running(cs, "nginx"@) {
            Some(i) => (2, proxy_name(cs[i])),
            None => (0, Seq::empty()),
        },
    }
}

fn name_without_slashes(c: &ContainerSummary) -> (r: String)
    ensures
        r@ == proxy_name(*c),
{
    match &c.first_name {
        Some(n) => string_of(&trim_start_chars(&chars_of(n.as_str()), Some('/'))),
        None => String::new(),
    }
}

/// The proxy among the running containers that webhooks go through (see
/// `webhook_proxy_of`: 1 is Caddy, 2 Nginx, 0 none).
pub fn detect_webhook_proxy(containers: &Vec<ContainerSummary>) -> (r: WebhookProxy)
    ensures
        (match r {
            WebhookProxy::Caddy(n) => webhook_proxy_of(containers@) == (1u8, n@),
            WebhookProxy::Nginx(n) => webhook_proxy_of(containers@) == (2u8, n@),
            WebhookProxy::NoProxy => webhook_proxy_of(containers@).0 == 0,
        }),
{
    match find_running(containers, "caddy") {
        Some(i) => {
            proof {
                lemma_first_running(containers@, "caddy"@, i as int);
            }
            WebhookProxy::Caddy(name_without_slashes(&containers[i]))
        },
        None => match find_running(containers, "nginx") {
            Some(i) => {
                proof {
                    lemma_first_running(containers@, "nginx"@, i as int);
                }
                WebhookProxy::Nginx(name_without_slashes(&containers[i]))
            },
            None => WebhookProxy::NoProxy,
        },
    }
}

/// The Caddy site that routes a domain's webhooks and health checks to the
/// agent.
pub open spec fn caddy_webhook_site(domain: Seq<char>) -> Seq<char> {
    "\n# Shipwright webhook routing (auto-generated)\n"@ + domain
        + " {\n    # Webhook endpoints\n    handle /shipwright/webhooks/* {\n        reverse_proxy shipwright-agent:8084\n    }\n\n    # Health check\n    handle /shipwright/health {\n        reverse_proxy shipwright-agent:8084\n    }\n\n    # Fallback for other routes\n    handle {\n        respond \"Shipwright Agent\" 200\n    }\n}\n"@
}

/// The Caddy site for a domain's webhooks (see `caddy_webhook_site`).
pub fn caddy_webhook_config(domain: &str) -> (r: String)
    ensures
        r@ == caddy_webhook_site(domain@),
{
    let mut r = String::from_str("\n# Shipwright webhook routing (auto-generated)\n");
    r.append(domain);
    r.append(
        " {\n    # Webhook endpoints\n    handle /shipwright/webhooks/* {\n        reverse_proxy shipwright-agent:8084\n    }\n\n    # Health check\n    handle /shipwright/health {\n        reverse_proxy shipwright-agent:8084\n    }\n\n    # Fallback for other routes\n    handle {\n        respond \"Shipwright Agent\" 200\n    }\n}\n",
    );
    r
}

/// The Nginx server that routes a domain's webhooks and health checks to
/// the agent.
pub open spec fn nginx_webhook_server(domain: Seq<char>) -> Seq<char> {
    "\n# Shipwright webhook routing (auto-generated)\nserver {\n    listen 80;\n    listen [::]:80;\n    server_name "@
        + domain
        + ";\n\n    # Webhook endpoints\n    location /shipwright/webhooks/ {\n        proxy_pass http://shipwright-agent:8084/webhooks/;\n        proxy_set_header Host $host;\n        proxy_set_header X-Real-IP $remote_addr;\n        proxy_set_header X-Forwarded-For $proxy_add_x_forwarded_for;\n        proxy_set_header X-Forwarded-Proto $scheme;\n    }\n\n    # Health check\n    location /shipwright/health {\n        proxy_pass http://shipwright-agent:8084/health;\n        proxy_set_header Host $host;\n    }\n}\n"@
}

/// The Nginx server for a domain's webhooks (see `nginx_webhook_server`).
pub fn nginx_webhook_config(domain: &str) -> (r: String)
    ensures
        r@ == nginx_webhook_server(domain@),
{
    let mut r = String::from_str(
        "\n# Shipwright webhook routing (auto-generated)\nserver {\n    listen 80;\n    listen [::]:80;\n    server_name ",
    );
    r.append(domain);
    r.append(
        ";\n\n    # Webhook endpoints\n    location /shipwright/webhooks/ {\n        proxy_pass http://shipwright-agent:8084/webhooks/;\n        proxy_set_header Host $host;\n        proxy_set_header X-Real-IP $remote_addr;\n        proxy_set_header X-Forwarded-For $proxy_add_x_forwarded_for;\n        proxy_set_header X-Forwarded-Proto $scheme;\n    }\n\n    # Health check\n    location /shipwright/health {\n        proxy_pass http://shipwright-agent:8084/health;\n        proxy_set_header Host $host;\n    }\n}\n",
    );
    r
}

/// The shell command that writes a configuration file through a heredoc.
pub fn write_config_command(path: &str, config: &str) -> (r: String)
    ensures
        r@ == "cat > "@ + path@ + " << 'EOF'\n"@ + config@ + "\nEOF"@,
{
    let mut r = String::from_str("cat > ");
    r.append(path);
    r.append(" << 'EOF'\n");
    r.append(config);
    r.append("\nEOF");
    r
}

/// Where a proxy keeps the webhook configuration.
pub fn webhook_config_path(proxy: &WebhookProxy) -> (r: Option<&'static str>)
    ensures
        (match proxy {
            WebhookProxy::Caddy(_) => r matches Some(p) && p@ == "/etc/caddy/Caddyfile.d/shipwright-webhooks.conf"@,
            WebhookProxy::Nginx(_) => r matches Some(p) && p@ == "/etc/nginx/conf.d/shipwright-webhooks.conf"@,
            WebhookProxy::NoProxy => r is None,
        }),
{
    match proxy {
        WebhookProxy::Caddy(_) => Some("/etc/caddy/Caddyfile.d/shipwright-webhooks.conf"),
        WebhookProxy::Nginx(_) => Some("/etc/nginx/conf.d/shipwright-webhooks.conf"),
        WebhookProxy::NoProxy => None,
    }
}

/// The GitHub webhook URL of a domain.
pub fn webhook_url(domain: &str) -> (r: String)
    ensures
        r@ == "https://"@ + domain@ + "/shipwright/webhooks/github"@,
{
    let mut r = String::from_str("https://");
    r.append(domain);
    r.append("/shipwright/webhooks/github");
    r
}

} // verus!
