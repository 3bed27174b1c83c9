//! Reverse proxy adapters: the configuration text the agent writes for Caddy
//! and Nginx, the labels it suggests for Traefik, and how it edits an
//! existing Caddyfile.
use vstd::prelude::*;
use vstd::string::*;
use crate::text::{chars_of, contains, contains_chars, decimal, eq_chars, lines, push_chars, push_decimal, split_lines, views};

verus! {

/// Routing of one service through the proxy.
#[derive(Debug, Clone)]
pub struct RouteConfig {
    pub domain: String,
    pub service_name: String,
    pub port: u16,
    pub path: Option<String>,
    pub enable_cors: bool,
    pub enable_tls: bool,
}

/// Caddy proxy adapter.
pub struct CaddyAdapter {
    pub container_name: String,
    pub config_path: String,
}

/// Nginx proxy adapter.
pub struct NginxAdapter {
    pub container_name: String,
    pub config_dir: String,
}

/// Traefik proxy adapter.
pub struct TraefikAdapter {
    pub container_name: String,
}

/// The adapter for a detected proxy.
pub enum ProxyAdapter {
    Caddy(CaddyAdapter),
    Nginx(NginxAdapter),
    Traefik(TraefikAdapter),
}

/// An optional path, as text.
pub open spec fn opt_view(o: Option<String>) -> Option<Seq<char>> {
    match o {
        Some(s) => Some(s@),
        None => None,
    }
}

/// `<service>:<port>`, the upstream of a route.
pub open spec fn upstream(c: RouteConfig) -> Seq<char> {
    c.service_name@ + ":"@ + decimal(c.port as nat)
}

/// The marker line that starts the Caddy block of a service.
pub open spec fn caddy_marker(service_name: Seq<char>) -> Seq<char> {
    "# --- "@ + service_name + " (Shipwright) ---"@
}

/// The Caddy site block of a route.
pub open spec fn caddy_block(c: RouteConfig) -> Seq<char> {
    "\n# --- "@ + c.service_name@ + " (Shipwright) ---\n"@ + c.domain@ + " {\n"@ + "    import security\n"@ + (if c.enable_cors {
        "    import cors_handle\n"@
    } else {
        Seq::<char>::empty()
    }) + (match opt_view(c.path) {
        Some(p) => "    handle "@ + p + "/* {\n"@ + "        reverse_proxy "@ + upstream(c) + "\n"@ + "    }\n"@,
        None => "    reverse_proxy "@ + upstream(c) + "\n"@,
    }) + "}\n"@
}

/// The Nginx server block of a route.
pub open spec fn nginx_block(c: RouteConfig) -> Seq<char> {
    "# "@ + c.service_name@ + " (Shipwright)\n"@ + "server {\n"@ + "    listen 80;\n"@ + "    server_name "@ + c.domain@
        + ";\n\n"@ + (if c.enable_cors {
        "    add_header 'Access-Control-Allow-Origin' '$http_origin' always;\n"@
            + "    add_header 'Access-Control-Allow-Credentials' 'true' always;\n"@
            + "    add_header 'Access-Control-Allow-Methods' 'GET, POST, PUT, DELETE, OPTIONS' always;\n\n"@
    } else {
        Seq::<char>::empty()
    }) + "    location "@ + (match opt_view(c.path) {
        Some(p) => p + "/*"@,
        None => "/"@,
    }) + " {\n"@ + "        proxy_pass http://"@ + upstream(c) + ";\n"@ + "        proxy_set_header Host $host;\n"@
        + "        proxy_set_header X-Real-IP $remote_addr;\n"@
        + "        proxy_set_header X-Forwarded-For $proxy_add_x_forwarded_for;\n"@ + "    }\n"@ + "}\n"@
}

fn push_upstream(s: &mut String, c: &RouteConfig)
    ensures
        final(s)@ == old(s)@ + upstream(*c),
{
    let ghost s0 = s@;
    s.append(c.service_name.as_str());
    s.append(":");
    push_decimal(s, c.port as u64);
    assert(s@ =~= s0 + upstream(*c));
}

impl CaddyAdapter {
    /// An adapter for the Caddy container `container_name`, whose
    /// configuration is `/etc/caddy/Caddyfile`.
    pub fn new(container_name: String) -> (r: CaddyAdapter)
        ensures
            r.container_name == container_name,
            r.config_path@ == "/etc/caddy/Caddyfile"@,
    {
        CaddyAdapter { container_name, config_path: String::from_str("/etc/caddy/Caddyfile") }
    }

    /// The Caddy site block of a route.
    pub fn generate_caddy_block(&self, config: &RouteConfig) -> (r: String)
        ensures
            r@ == caddy_block(*config),
    {
        let mut b = String::from_str("\n# --- ");
        b.append(config.service_name.as_str());
        b.append(" (Shipwright) ---\n");
        b.append(config.domain.as_str());
        b.append(" {\n");
        b.append("    import security\n");
        let ghost head = b@;
        if config.enable_cors {
            b.append("    import cors_handle\n");
        }
        let ghost with_cors = b@;
        match &config.path {
            Some(path) => {
                b.append("    handle ");
                b.append(path.as_str());
                b.append("/* {\n");
                b.append("        reverse_proxy ");
                push_upstream(&mut b, config);
                b.append("\n");
                b.append("    }\n");
            },
            None => {
                b.append("    reverse_proxy ");
                push_upstream(&mut b, config);
                b.append("\n");
            },
        }
        b.append("}\n");
        assert(b@ =~= caddy_block(*config));
        b
    }

    /// The Caddyfile after adding a route, or `None` when the service already
    /// has a block (the route is then left as it is).
    pub fn with_route(&self, caddyfile: &str, config: &RouteConfig) -> (r: Option<String>)
        ensures
            contains(caddyfile@, caddy_marker(config.service_name@)) ==> r is None,
            !contains(caddyfile@, caddy_marker(config.service_name@)) ==> (r matches Some(t) && t@ == caddyfile@
                + caddy_block(*config)),
    {
        let mut marker = String::from_str("# --- ");
        marker.append(config.service_name.as_str());
        marker.append(" (Shipwright) ---");
        if contains_chars(&chars_of(caddyfile), &chars_of(marker.as_str())) {
            return None;
        }
        let mut t = String::from_str(caddyfile);
        let block = self.generate_caddy_block(config);
        t.append(block.as_str());
        Some(t)
    }
}

impl NginxAdapter {
    /// An adapter for the Nginx container `container_name`, whose site
    /// configurations live in `/etc/nginx/conf.d`.
    pub fn new(container_name: String) -> (r: NginxAdapter)
        ensures
            r.container_name == container_name,
            r.config_dir@ == "/etc/nginx/conf.d"@,
    {
        NginxAdapter { container_name, config_dir: String::from_str("/etc/nginx/conf.d") }
    }

    /// The Nginx server block of a route.
    pub fn generate_nginx_block(&self, config: &RouteConfig) -> (r: String)
        ensures
            r@ == nginx_block(*config),
    {
        let mut b = String::from_str("# ");
        b.append(config.service_name.as_str());
        b.append(" (Shipwright)\n");
        b.append("server {\n");
        b.append("    listen 80;\n");
        b.append("    server_name ");
        b.append(config.domain.as_str());
        b.append(";\n\n");
        if config.enable_cors {
            b.append("    add_header 'Access-Control-Allow-Origin' '$http_origin' always;\n");
            b.append("    add_header 'Access-Control-Allow-Credentials' 'true' always;\n");
            b.append("    add_header 'Access-Control-Allow-Methods' 'GET, POST, PUT, DELETE, OPTIONS' always;\n\n");
        }
        b.append("    location ");
        match &config.path {
            Some(p) => {
                b.append(p.as_str());
                b.append("/*");
            },
            None => {
                b.append("/");
            },
        }
        b.append(" {\n");
        b.append("        proxy_pass http://");
        push_upstream(&mut b, config);
        b.append(";\n");
        b.append("        proxy_set_header Host $host;\n");
        b.append("        proxy_set_header X-Real-IP $remote_addr;\n");
        b.append("        proxy_set_header X-Forwarded-For $proxy_add_x_forwarded_for;\n");
        b.append("    }\n");
        b.append("}\n");
        assert(b@ =~= nginx_block(*config));
        b
    }

    /// The file name of a service's server block: `<service>.conf`.
    pub fn config_file_name(&self, config: &RouteConfig) -> (r: String)
        ensures
            r@ == config.service_name@ + ".conf"@,
    {
        let mut r = config.service_name.clone();
        r.append(".conf");
        r
    }
}

impl TraefikAdapter {
    /// An adapter for the Traefik container `container_name`.
    pub fn new(container_name: String) -> (r: TraefikAdapter)
        ensures
            r.container_name == container_name,
    {
        TraefikAdapter { container_name }
    }

    /// The Docker labels Traefik needs for a route, one per line, as the
    /// adapter prints them for the user to add.
    pub fn route_labels(&self, config: &RouteConfig) -> (r: Vec<String>)
        ensures
            r@.len() == if config.enable_tls { 5nat } else { 3nat },
            r@[0]@ == "  - \"traefik.enable=true\""@,
            r@[1]@ == "  - \"traefik.http.routers."@ + config.service_name@ + ".rule=Host(`"@ + config.domain@ + "`)\""@,
            r@[2]@ == "  - \"traefik.http.services."@ + config.service_name@ + ".loadbalancer.server.port="@ + decimal(
                config.port as nat,
            ) + "\""@,
            config.enable_tls ==> r@[3]@ == "  - \"traefik.http.routers."@ + config.service_name@ + ".tls=true\""@,
            config.enable_tls ==> r@[4]@ == "  - \"traefik.http.routers."@ + config.service_name@
                + ".tls.certresolver=letsencrypt\""@,
    {
        let mut r: Vec<String> = Vec::new();
        r.push(String::from_str("  - \"traefik.enable=true\""));
        let mut l1 = String::from_str("  - \"traefik.http.routers.");
        l1.append(config.service_name.as_str());
        l1.append(".rule=Host(`");
        l1.append(config.domain.as_str());
        l1.append("`)\"");
        r.push(l1);
        let mut l2 = String::from_str("  - \"traefik.http.services.");
        l2.append(config.service_name.as_str());
        l2.append(".loadbalancer.server.port=");
        push_decimal(&mut l2, config.port as u64);
        l2.append("\"");
        r.push(l2);
        if config.enable_tls {
            let mut l3 = String::from_str("  - \"traefik.http.routers.");
            l3.append(config.service_name.as_str());
            l3.append(".tls=true\"");
            r.push(l3);
            let mut l4 = String::from_str("  - \"traefik.http.routers.");
            l4.append(config.service_name.as_str());
            l4.append(".tls.certresolver=letsencrypt\"");
            r.push(l4);
        }
        r
    }
}

/// The adapter kind a proxy type name selects: "nginx" and "traefik" select
/// their adapters, anything else selects Caddy.
pub open spec fn adapter_kind(proxy_type: Seq<char>) -> int {
    if proxy_type == "nginx"@ {
        1
    } else if proxy_type == "traefik"@ {
        2
    } else {
        0
    }
}

/// The adapter for a proxy type (Caddy unless the type is "nginx" or
/// "traefik").
pub fn create_adapter(proxy_type: &str, container_name: String) -> (r: ProxyAdapter)
    ensures
        adapter_kind(proxy_type@) == 0 ==> (r matches ProxyAdapter::Caddy(a) && a.container_name == container_name
            && a.config_path@ == "/etc/caddy/Caddyfile"@),
        adapter_kind(proxy_type@) == 1 ==> (r matches ProxyAdapter::Nginx(a) && a.container_name == container_name
            && a.config_dir@ == "/etc/nginx/conf.d"@),
        adapter_kind(proxy_type@) == 2 ==> (r matches ProxyAdapter::Traefik(a) && a.container_name
            == container_name),
{
    let t = chars_of(proxy_type);
    if eq_chars(&t, &chars_of("caddy")) {
        proof {
            reveal_strlit("caddy");
            reveal_strlit("nginx");
            reveal_strlit("traefik");
            assert("caddy"@[0] != "nginx"@[0]);
        }
        ProxyAdapter::Caddy(CaddyAdapter::new(container_name))
    } else if eq_chars(&t, &chars_of("nginx")) {
        ProxyAdapter::Nginx(NginxAdapter::new(container_name))
    } else if eq_chars(&t, &chars_of("traefik")) {
        ProxyAdapter::Traefik(TraefikAdapter::new(container_name))
    } else {
        ProxyAdapter::Caddy(CaddyAdapter::new(container_name))
    }
}

// ---------------------------------------------------------------------------
// Removing routes from a Caddyfile
// ---------------------------------------------------------------------------

/// Whether a line holds the character `c`.
pub open spec fn has_char(l: Seq<char>, c: char) -> bool {
    exists|i: int| 0 <= i < l.len() && l[i] == c
}

/// The scanner state after one line: (inside a managed block, open braces).
pub open spec fn removal_next(st: (bool, int), l: Seq<char>) -> (bool, int) {
    if contains(l, "(Shipwright)"@) {
        (true, st.1)
    } else if st.0 {
        let opened = st.1 + if has_char(l, '{') { 1int } else { 0int };
        if has_char(l, '}') {
            (opened - 1 != 0, opened - 1)
        } else {
            (true, opened)
        }
    } else {
        st
    }
}

/// The line is kept: it is neither a marker nor inside a managed block.
pub open spec fn removal_keeps(st: (bool, int), l: Seq<char>) -> bool {
    !contains(l, "(Shipwright)"@) && !st.0
}

/// The scanner state after the lines `ls`.
pub open spec fn removal_state(ls: Seq<Seq<char>>) -> (bool, int)
    decreases ls.len(),
{
    if ls.len() == 0 {
        (false, 0)
    } else {
        removal_next(removal_state(ls.drop_last()), ls.last())
    }
}

/// The lines of `ls` that stay.
pub open spec fn kept_lines(ls: Seq<Seq<char>>) -> Seq<Seq<char>>
    decreases ls.len(),
{
    if ls.len() == 0 {
        Seq::empty()
    } else if removal_keeps(removal_state(ls.drop_last()), ls.last()) {
        kept_lines(ls.drop_last()).push(ls.last())
    } else {
        kept_lines(ls.drop_last())
    }
}

/// Lines joined with `"\n"` (`[&str]::join("\n")`).
pub open spec fn join_lines(ls: Seq<Seq<char>>) -> Seq<char>
    decreases ls.len(),
{
    if ls.len() == 0 {
        Seq::empty()
    } else if ls.len() == 1 {
        ls[0]
    } else {
        join_lines(ls.drop_last()) + "\n"@ + ls.last()
    }
}

/// A Caddyfile without the blocks the agent manages: from every line that
/// holds "(Shipwright)" through the line that closes the braces opened after it.
pub open spec fn without_managed_blocks(caddyfile: Seq<char>) -> Seq<char> {
    join_lines(kept_lines(lines(caddyfile)))
}

fn has_char_exec(l: &Vec<char>, c: char) -> (r: bool)
    ensures
        r == has_char(l@, c),
{
    let mut i: usize = 0;
    while i < l.len()
        invariant
            i <= l@.len(),
            forall|j: int| 0 <= j < i ==> l@[j] != c,
        decreases l@.len() - i,
    {
        if l[i] == c {
            return true;
        }
        i = i + 1;
    }
    false
}

proof fn lemma_removal_count_bound(ls: Seq<Seq<char>>)
    ensures
        -(ls.len() as int) <= removal_state(ls).1 <= ls.len(),
    decreases ls.len(),
{
    if ls.len() > 0 {
        lemma_removal_count_bound(ls.drop_last());
    }
}

impl CaddyAdapter {
    /// The Caddyfile after removing the blocks the agent manages.
    pub fn without_routes(&self, caddyfile: &str) -> (r: String)
        ensures
            r@ == without_managed_blocks(caddyfile@),
    {
        let text = chars_of(caddyfile);
        let ls = split_lines(&text);
        let marker = chars_of("(Shipwright)");
        let mut kept: Vec<Vec<char>> = Vec::new();
        let mut skip_block = false;
        let mut brace_count: i128 = 0;
        let mut i: usize = 0;
        while i < ls.len()
            invariant
                views(ls@) == lines(caddyfile@),
                marker@ == "(Shipwright)"@,
                i <= ls@.len(),
                (skip_block, brace_count as int) == removal_state(views(ls@).subrange(0, i as int)),
                views(kept@) == kept_lines(views(ls@).subrange(0, i as int)),
            decreases ls@.len() - i,
        {
            let ghost pre = views(ls@).subrange(0, i as int);
            let ghost next = views(ls@).subrange(0, i + 1);
            proof {
                assert(next.drop_last() =~= pre);
                assert(next.last() == ls@[i as int]@);
                lemma_removal_count_bound(pre);
            }
            let line = &ls[i];
            if contains_chars(line, &marker) {
                skip_block = true;
            } else if skip_block {
                if has_char_exec(line, '{') {
                    brace_count = brace_count + 1;
                }
                if has_char_exec(line, '}') {
                    brace_count = brace_count - 1;
                    if brace_count == 0 {
                        skip_block = false;
                    }
                }
            } else {
                let ghost k0 = kept@;
                kept.push(slice_all(line));
                assert(views(kept@) =~= views(k0).push(ls@[i as int]@));
            }
            i = i + 1;
        }
        assert(views(ls@).subrange(0, ls@.len() as int) =~= views(ls@));
        join_all(&kept)
    }
}

fn slice_all(v: &Vec<char>) -> (r: Vec<char>)
    ensures
        r@ == v@,
{
    crate::text::slice_chars(v, 0, v.len())
}

/// Lines joined with `"\n"`.
pub fn join_all(ls: &Vec<Vec<char>>) -> (r: String)
    ensures
        r@ == join_lines(views(ls@)),
{
    let mut r = String::new();
    let mut i: usize = 0;
    while i < ls.len()
        invariant
            i <= ls@.len(),
            r@ == join_lines(views(ls@).subrange(0, i as int)),
        decreases ls@.len() - i,
    {
        let ghost pre = views(ls@).subrange(0, i as int);
        let ghost next = views(ls@).subrange(0, i + 1);
        proof {
            assert(next.drop_last() =~= pre);
        }
        if i > 0 {
            r.append("\n");
        }
        let ghost r0 = r@;
        push_chars(&mut r, &ls[i]);
        proof {
            if i == 0 {
                assert(r@ =~= next[0]);
            } else {
                assert(r@ =~= join_lines(pre) + "\n"@ + next.last());
            }
        }
        i = i + 1;
    }
    assert(views(ls@).subrange(0, ls@.len() as int) =~= views(ls@));
    r
}

} // verus!
