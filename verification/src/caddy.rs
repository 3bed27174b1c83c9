//! Caddy reverse-proxy configuration for a project: the services a compose
//! file exposes, the per-project Caddyfile, and the commands that install it.
use vstd::prelude::*;
use vstd::string::*;
use crate::config::ServiceConfig;
use crate::text::{chars_of, contains, contains_chars, decimal, ends_with, ends_with_chars, lines, parse_unsigned, parse_unsigned_chars, push_decimal, slice_chars, split_chars, split_lines, split_on, starts_with, starts_with_chars, string_of, trim, trim_both, trim_chars, trim_end, trim_end_chars, trim_start, trim_start_chars, views};

verus! {

/// A compose service that publishes ports.
#[derive(Debug, Clone)]
pub struct DetectedService {
    pub name: String,
    pub container_name: Option<String>,
    pub ports: Vec<u16>,
    pub is_frontend: bool,
}

/// A detected service as plain values: name, container name, ports, and
/// whether it looks like a frontend.
pub type ServiceView = (Seq<char>, Option<Seq<char>>, Seq<u16>, bool);

/// An optional text.
pub open spec fn opt_text(o: Option<String>) -> Option<Seq<char>> {
    match o {
        Some(s) => Some(s@),
        None => None,
    }
}

/// A detected service as plain values.
pub open spec fn service_view(s: DetectedService) -> ServiceView {
    (s.name@, opt_text(s.container_name), s.ports@, s.is_frontend)
}

/// Detected services as plain values.
pub open spec fn service_views(s: Seq<DetectedService>) -> Seq<ServiceView> {
    s.map_values(|x: DetectedService| service_view(x))
}

// ---------------------------------------------------------------------------
// Ports
// ---------------------------------------------------------------------------

/// The first run of digits in `s`, as the pattern `\d+` of the regex crate
/// finds it.
pub uninterp spec fn digit_run(s: Seq<char>) -> Option<Seq<char>>;

/// Runs the pattern `\d+` (regex crate) on `s` and returns the first match.
/// The contract names the result, and states that a match is non-empty and
/// occurs in `s`.
#[verifier::external_body]
fn first_digit_run(s: &str) -> (r: Option<String>)
    ensures
        (match r {
            Some(m) => digit_run(s@) == Some(m@) && m@.len() > 0 && contains(s@, m@),
            None => digit_run(s@) is None,
        }),
{
    let re = regex::Regex::new(r"\d+").ok()?;
    re.find(s).map(|m| m.as_str().to_string())
}

/// The port of a digit run (`str::parse::<u16>`).
pub open spec fn port_of_run(run: Option<Seq<char>>) -> Option<nat> {
    match run {
        Some(d) => parse_unsigned(d, 65535),
        None => None,
    }
}

/// The container port of a mapping such as `"8080:80"`, `"80"` or
/// `"${PREFIX}80:80"`: the first digits after the last `:`, or of the whole
/// text when it has no `:`.
pub open spec fn container_port_of(port_str: Seq<char>) -> Option<nat> {
    let p = trim(port_str);
    if contains(p, ":"@) {
        port_of_run(digit_run(split_on(p, ':').last()))
    } else {
        port_of_run(digit_run(p))
    }
}

/// `str::parse::<u16>` of a digit run.
pub fn port_from_run(run: Option<String>) -> (r: Option<u16>)
    ensures
        (match port_of_run(
            match run {
                Some(d) => Some(d@),
                None => None,
            },
        ) {
            Some(v) => r == Some(v as u16),
            None => r is None,
        }),
{
    match run {
        Some(d) => match parse_unsigned_chars(&chars_of(d.as_str()), 65535) {
            Some(v) => Some(v as u16),
            None => None,
        },
        None => None,
    }
}

/// The container port of a port mapping (see `container_port_of`).
pub fn parse_container_port(port_str: &str) -> (r: Option<u16>)
    ensures
        (match container_port_of(port_str@) {
            Some(v) => r == Some(v as u16),
            None => r is None,
        }),
{
    let p = trim_chars(&chars_of(port_str), None);
    proof {
        reveal_strlit(":");
    }
    if contains_chars(&p, &chars_of(":")) {
        let parts = split_chars(&p, ':');
        proof {
            assert(views(parts@).len() == parts@.len());
            assert(split_on(p@, ':').len() > 0) by {
                lemma_split_on_nonempty(p@, ':');
            }
        }
        let last = string_of(&parts[parts.len() - 1]);
        proof {
            assert(views(parts@)[parts@.len() - 1] == parts@[parts@.len() - 1]@);
        }
        port_from_run(first_digit_run(last.as_str()))
    } else {
        let s = string_of(&p);
        port_from_run(first_digit_run(s.as_str()))
    }
}

proof fn lemma_split_on_nonempty(s: Seq<char>, c: char)
    ensures
        split_on(s, c).len() > 0,
    decreases s.len(),
{
    if s.len() > 0 {
        lemma_split_on_nonempty(s.drop_last(), c);
    }
}

// ---------------------------------------------------------------------------
// Scanning a compose file
// ---------------------------------------------------------------------------

/// Bytes taken by a character in UTF-8.
pub open spec fn utf8_width(c: char) -> nat {
    if (c as u32) < 0x80 {
        1
    } else if (c as u32) < 0x800 {
        2
    } else if (c as u32) < 0x10000 {
        3
    } else {
        4
    }
}

/// Length of a text in UTF-8 bytes (`str::len`).
pub open spec fn byte_len(s: Seq<char>) -> nat
    decreases s.len(),
{
    if s.len() == 0 {
        0
    } else {
        byte_len(s.drop_last()) + utf8_width(s.last())
    }
}

/// The indentation of a line: the bytes of its leading whitespace.
pub open spec fn indent_of(line: Seq<char>) -> nat {
    byte_len(line.subrange(0, line.len() - trim_start(line, None).len()))
}

/// The scanner's state after some lines of a compose file.
pub struct ServiceScan {
    /// The `services:` section has started.
    pub in_services: bool,
    /// Inside a `ports:` or `expose:` list.
    pub in_ports: bool,
    /// The current service's name (empty before the first one).
    pub current: Seq<char>,
    /// The current service's `container_name`.
    pub container: Option<Seq<char>>,
    /// The current service's ports so far.
    pub ports: Seq<u16>,
    /// The services completed so far.
    pub found: Seq<ServiceView>,
}

/// A service looks like a frontend: its name says so, or it serves 80, 443
/// or 3000.
pub open spec fn frontend_like(name: Seq<char>, ports: Seq<u16>) -> bool {
    contains(name, "frontend"@) || ports.contains(80) || ports.contains(443) || ports.contains(3000)
}

/// The services found, with the current one added when it has a name and
/// ports.
pub open spec fn flush(st: ServiceScan) -> Seq<ServiceView> {
    if st.current.len() > 0 && st.ports.len() > 0 {
        st.found.push((st.current, st.container, st.ports, frontend_like(st.current, st.ports)))
    } else {
        st.found
    }
}

/// The port of a list item line such as `- "8080:80"`.
pub open spec fn item_port(t: Seq<char>) -> Option<nat> {
    container_port_of(trim_both(trim(trim_start(t, Some('-'))), Some('"')))
}

/// A line `name:` at indentation 2 starts a service.
pub open spec fn starts_service(line: Seq<char>) -> bool {
    let t = trim(line);
    indent_of(line) == 2 && ends_with(t, ":"@) && !contains(t, " "@)
}

/// The scanner's state after one more line.
pub open spec fn scan_line(st: ServiceScan, line: Seq<char>) -> ServiceScan {
    let t = trim(line);
    if t == "services:"@ {
        ServiceScan { in_services: true, ..st }
    } else if !st.in_services {
        st
    } else if starts_service(line) {
        ServiceScan {
            in_services: true,
            in_ports: false,
            current: trim_end(t, Some(':')),
            container: None,
            ports: Seq::empty(),
            found: flush(st),
        }
    } else {
        let st1 = if starts_with(t, "container_name:"@) {
            ServiceScan {
                container: Some(trim(t.subrange("container_name:"@.len() as int, t.len() as int))),
                ..st
            }
        } else {
            st
        };
        if t == "ports:"@ {
            ServiceScan { in_ports: true, ..st1 }
        } else {
            let st2 = if st1.in_ports && starts_with(t, "-"@) {
                match item_port(t) {
                    Some(p) => ServiceScan { ports: st1.ports.push(p as u16), ..st1 },
                    None => st1,
                }
            } else {
                st1
            };
            let st3 = if st2.in_ports && !starts_with(t, "-"@) && t.len() > 0 {
                ServiceScan { in_ports: false, ..st2 }
            } else {
                st2
            };
            if starts_with(t, "expose:"@) {
                ServiceScan { in_ports: true, ..st3 }
            } else {
                st3
            }
        }
    }
}

/// The state before any line.
pub open spec fn scan_start() -> ServiceScan {
    ServiceScan {
        in_services: false,
        in_ports: false,
        current: Seq::empty(),
        container: None,
        ports: Seq::empty(),
        found: Seq::empty(),
    }
}

/// The state after the lines `ls`.
pub open spec fn scan_lines(ls: Seq<Seq<char>>) -> ServiceScan
    decreases ls.len(),
{
    if ls.len() == 0 {
        scan_start()
    } else {
        scan_line(scan_lines(ls.drop_last()), ls.last())
    }
}

/// The services of a compose file that publish or expose ports, in order.
pub open spec fn exposed_services(compose: Seq<char>) -> Seq<ServiceView> {
    flush(scan_lines(lines(compose)))
}

proof fn lemma_trim_start_len(s: Seq<char>, q: Option<char>)
    ensures
        trim_start(s, q).len() <= s.len(),
    decreases s.len(),
{
    if s.len() > 0 {
        lemma_trim_start_len(s.drop_first(), q);
    }
}

proof fn lemma_byte_len_grows(s: Seq<char>, j: int, k: int)
    requires
        0 <= j <= k <= s.len(),
    ensures
        byte_len(s.subrange(0, j)) <= byte_len(s.subrange(0, k)),
    decreases k - j,
{
    if j < k {
        lemma_byte_len_grows(s, j, k - 1);
        assert(s.subrange(0, k).drop_last() =~= s.subrange(0, k - 1));
    }
}

fn width(c: char) -> (r: usize)
    ensures
        r == utf8_width(c),
{
    let n = c as u32;
    if n < 0x80 {
        1
    } else if n < 0x800 {
        2
    } else if n < 0x10000 {
        3
    } else {
        4
    }
}

pub(crate) fn is_indent_two(line: &Vec<char>) -> (r: bool)
    ensures
        r == (indent_of(line@) == 2),
{
    let ts = trim_start_chars(line, None);
    proof {
        lemma_trim_start_len(line@, None);
    }
    let k = line.len() - ts.len();
    assert(indent_of(line@) == byte_len(line@.subrange(0, k as int)));
    let mut acc: usize = 0;
    let mut j: usize = 0;
    while j < k
        invariant
            k <= line@.len(),
            indent_of(line@) == byte_len(line@.subrange(0, k as int)),
            j <= k,
            acc == byte_len(line@.subrange(0, j as int)),
            acc <= 2,
        decreases k - j,
    {
        proof {
            assert(line@.subrange(0, j + 1).drop_last() =~= line@.subrange(0, j as int));
        }
        acc = acc + width(line[j]);
        j = j + 1;
        if acc > 2 {
            proof {
                lemma_byte_len_grows(line@, j as int, k as int);
            }
            return false;
        }
    }
    acc == 2
}

fn copy_opt(o: &Option<Vec<char>>) -> (r: Option<String>)
    ensures
        opt_text(r) == (match o {
            Some(v) => Some(v@),
            None => None::<Seq<char>>,
        }),
{
    match o {
        Some(v) => Some(string_of(v)),
        None => None,
    }
}

fn copy_ports(p: &Vec<u16>) -> (r: Vec<u16>)
    ensures
        r@ == p@,
{
    let mut r: Vec<u16> = Vec::new();
    let mut i: usize = 0;
    while i < p.len()
        invariant
            i <= p@.len(),
            r@ == p@.subrange(0, i as int),
        decreases p@.len() - i,
    {
        r.push(p[i]);
        i = i + 1;
        assert(r@ =~= p@.subrange(0, i as int));
    }
    assert(r@ =~= p@);
    r
}

fn has_port(p: &Vec<u16>, x: u16) -> (r: bool)
    ensures
        r == p@.contains(x),
{
    let mut i: usize = 0;
    while i < p.len()
        invariant
            i <= p@.len(),
            forall|j: int| 0 <= j < i ==> p@[j] != x,
        decreases p@.len() - i,
    {
        if p[i] == x {
            assert(p@[i as int] == x);
            return true;
        }
        i = i + 1;
    }
    false
}

fn opt_chars_view(o: &Option<Vec<char>>) -> (r: Ghost<Option<Seq<char>>>)
    ensures
        r@ == (match o {
            Some(v) => Some(v@),
            None => None::<Seq<char>>,
        }),
{
    Ghost(
        match o {
            Some(v) => Some(v@),
            None => None,
        },
    )
}

/// The open service, as the scanner holds it.
struct OpenService {
    current: Vec<char>,
    container: Option<Vec<char>>,
    ports: Vec<u16>,
}

spec fn open_container(o: Option<Vec<char>>) -> Option<Seq<char>> {
    match o {
        Some(v) => Some(v@),
        None => None,
    }
}

fn flush_into(found: &mut Vec<DetectedService>, cur: &OpenService)
    ensures
        service_views(final(found)@) == flush(
            ServiceScan {
                in_services: true,
                in_ports: false,
                current: cur.current@,
                container: open_container(cur.container),
                ports: cur.ports@,
                found: service_views(old(found)@),
            },
        ),
{
    if cur.current.len() > 0 && cur.ports.len() > 0 {
        let is_frontend = contains_chars(&cur.current, &chars_of("frontend")) || has_port(&cur.ports, 80)
            || has_port(&cur.ports, 443) || has_port(&cur.ports, 3000);
        let s = DetectedService {
            name: string_of(&cur.current),
            container_name: copy_opt(&cur.container),
            ports: copy_ports(&cur.ports),
            is_frontend,
        };
        let ghost f0 = found@;
        found.push(s);
        assert(service_views(found@) =~= service_views(f0).push(service_view(s)));
    }
}

/// The services of a compose file that publish (`ports:`) or expose
/// (`expose:`) ports, in order, each with its `container_name` and whether
/// it looks like a frontend (see `scan_line`).
pub fn detect_exposed_services(compose_content: &str) -> (r: Vec<DetectedService>)
    ensures
        service_views(r@) == exposed_services(compose_content@),
{
    let ls = split_lines(&chars_of(compose_content));
    let ghost all = lines(compose_content@);
    let mut found: Vec<DetectedService> = Vec::new();
    let mut cur = OpenService { current: Vec::new(), container: None, ports: Vec::new() };
    let mut in_services = false;
    let mut in_ports = false;
    let mut i: usize = 0;
    proof {
        reveal_strlit("services:");
        reveal_strlit(":");
        reveal_strlit(" ");
        reveal_strlit("container_name:");
        reveal_strlit("ports:");
        reveal_strlit("-");
        reveal_strlit("expose:");
    }
    let services_kw = chars_of("services:");
    let colon = chars_of(":");
    let space = chars_of(" ");
    let cname = chars_of("container_name:");
    let ports_kw = chars_of("ports:");
    let dash = chars_of("-");
    let expose_kw = chars_of("expose:");
    assert(all.subrange(0, 0) =~= Seq::<Seq<char>>::empty());
    assert(service_views(found@) =~= Seq::<ServiceView>::empty());
    assert(cur.ports@ =~= Seq::<u16>::empty());
    assert(cur.current@ =~= Seq::<char>::empty());
    while i < ls.len()
        invariant
            views(ls@) == all,
            all == lines(compose_content@),
            i <= ls@.len(),
            services_kw@ == "services:"@,
            colon@ == ":"@,
            space@ == " "@,
            cname@ == "container_name:"@,
            cname@.len() == 15,
            ports_kw@ == "ports:"@,
            dash@ == "-"@,
            expose_kw@ == "expose:"@,
            scan_lines(all.subrange(0, i as int)) == (ServiceScan {
                in_services,
                in_ports,
                current: cur.current@,
                container: open_container(cur.container),
                ports: cur.ports@,
                found: service_views(found@),
            }),
        decreases ls@.len() - i,
    {
        let ghost pre = all.subrange(0, i as int);
        let ghost next = all.subrange(0, i + 1);
        let ghost st = scan_lines(pre);
        proof {
            assert(next.drop_last() =~= pre);
            assert(next.last() == ls@[i as int]@);
        }
        let line = &ls[i];
        let t = trim_chars(line, None);
        if crate::text::eq_chars(&t, &services_kw) {
            in_services = true;
        } else if !in_services {
        } else if is_indent_two(line) && ends_with_chars(&t, &colon) && !contains_chars(&t, &space) {
            flush_into(&mut found, &cur);
            let name = trim_end_chars(&t, Some(':'));
            cur = OpenService { current: name, container: None, ports: Vec::new() };
            in_ports = false;
        } else {
            if starts_with_chars(&t, &cname) {
                let rest = slice_chars(&t, 15, t.len());
                let v = trim_chars(&rest, None);
                cur.container = Some(v);
            }
            if crate::text::eq_chars(&t, &ports_kw) {
                in_ports = true;
            } else {
                let is_item = starts_with_chars(&t, &dash);
                if in_ports && is_item {
                    let a = trim_start_chars(&t, Some('-'));
                    let b = trim_chars(&a, None);
                    let c = trim_chars(&b, Some('"'));
                    let s = string_of(&c);
                    match parse_container_port(s.as_str()) {
                        Some(p) => {
                            cur.ports.push(p);
                        },
                        None => {},
                    }
                }
                if in_ports && !is_item && t.len() > 0 {
                    in_ports = false;
                }
                if starts_with_chars(&t, &expose_kw) {
                    in_ports = true;
                }
            }
        }
        proof {
            assert(scan_lines(next) == scan_line(st, ls@[i as int]@));
        }
        i = i + 1;
    }
    assert(all.subrange(0, all.len() as int) =~= all);
    flush_into(&mut found, &cur);
    found
}


// ---------------------------------------------------------------------------
// Domains
// ---------------------------------------------------------------------------

/// A service may need a domain: it looks like a frontend, or its name
/// mentions `backend` or `api`.
pub open spec fn wants_domain(s: DetectedService) -> bool {
    s.is_frontend || contains(s.name@, "backend"@) || contains(s.name@, "api"@)
}

/// A service is offered a domain exactly when it is a frontend or its name
/// mentions `backend` or `api`.
pub proof fn lemma_wants_domain(s: DetectedService)
    ensures
        wants_domain(s) <==> (s.is_frontend || contains(s.name@, "backend"@) || contains(s.name@, "api"@)),
        contains(s.name@, "backend"@) ==> wants_domain(s),
        contains(s.name@, "api"@) ==> wants_domain(s),
        s.is_frontend ==> wants_domain(s),
{
}

/// Whether a detected service may need a domain.
pub fn needs_domain(s: &DetectedService) -> (r: bool)
    ensures
        r == wants_domain(*s),
        r <==> (s.is_frontend || contains(s.name@, "backend"@) || contains(s.name@, "api"@)),
{
    proof {
        lemma_wants_domain(*s);
    }
    s.is_frontend || contains_chars(&chars_of(s.name.as_str()), &chars_of("backend")) || contains_chars(
        &chars_of(s.name.as_str()),
        &chars_of("api"),
    )
}

/// The wildcard-DNS domain of a service: its name without `-`, then the
/// host, under `nip.io`.
pub open spec fn wildcard_domain_of(service_name: Seq<char>, host: Seq<char>) -> Seq<char> {
    crate::text::replace_all(service_name, "-"@, Seq::empty()) + "."@ + host + ".nip.io"@
}

/// The wildcard-DNS domain of a service on a host.
pub fn wildcard_domain(service_name: &str, host: &str) -> (r: String)
    ensures
        r@ == wildcard_domain_of(service_name@, host@),
{
    proof {
        reveal_strlit("-");
    }
    let name = crate::text::replace_chars(&chars_of(service_name), &chars_of("-"), &Vec::new());
    let mut r = string_of(&name);
    r.append(".");
    r.append(host);
    r.append(".nip.io");
    r
}

/// The port a service is reached on: its first port, else 80.
pub open spec fn default_port_of(s: DetectedService) -> u16 {
    if s.ports@.len() > 0 {
        s.ports@[0]
    } else {
        80
    }
}

/// The configuration for a service after the user's choice: 0, a custom
/// domain (given as `custom_domain`); 1, the wildcard-DNS domain; anything
/// else (IP only, skip), no domain and not exposed.
pub fn service_config_for_choice(
    service: &DetectedService,
    choice: usize,
    custom_domain: Option<String>,
    host: &str,
) -> (r: ServiceConfig)
    ensures
        r.name@ == service.name@,
        r.port == default_port_of(*service),
        r.path is None,
        choice == 0 ==> r.domain == custom_domain && r.expose == (custom_domain is Some),
        choice == 1 ==> r.expose && (r.domain matches Some(d) && d@ == wildcard_domain_of(service.name@, host@)),
        choice >= 2 ==> r.domain is None && !r.expose,
{
    let port = if service.ports.len() > 0 {
        service.ports[0]
    } else {
        80
    };
    let (domain, expose) = if choice == 0 {
        let e = custom_domain.is_some();
        (custom_domain, e)
    } else if choice == 1 {
        (Some(wildcard_domain(service.name.as_str(), host)), true)
    } else {
        (None, false)
    };
    ServiceConfig { name: service.name.clone(), domain, port, path: None, expose }
}

/// The position of the first configuration of a service named `name`.
pub fn find_service_config(configs: &Vec<ServiceConfig>, name: &str) -> (r: Option<usize>)
    ensures
        r matches Some(i) ==> i < configs@.len() && configs@[i as int].name@ == name@ && forall|j: int|
            0 <= j < i ==> configs@[j].name@ != name@,
        r is None ==> forall|j: int| 0 <= j < configs@.len() ==> configs@[j].name@ != name@,
{
    let mut i: usize = 0;
    while i < configs.len()
        invariant
            i <= configs@.len(),
            forall|j: int| 0 <= j < i ==> configs@[j].name@ != name@,
        decreases configs@.len() - i,
    {
        if crate::text::str_eq(configs[i].name.as_str(), name) {
            return Some(i);
        }
        i = i + 1;
    }
    None
}

/// The domain a line of a site file declares, as the pattern
/// `^([a-zA-Z0-9][a-zA-Z0-9\-\.]+)\s*\{` of the regex crate captures it.
pub uninterp spec fn site_domain(line: Seq<char>) -> Option<Seq<char>>;

/// Runs the pattern `^([a-zA-Z0-9][a-zA-Z0-9\-\.]+)\s*\{` (regex crate) on a
/// line and returns its capture.  The contract names the result, and states
/// that a capture starts the line.
#[verifier::external_body]
fn site_domain_of(line: &str) -> (r: Option<String>)
    ensures
        (match r {
            Some(d) => site_domain(line@) == Some(d@) && starts_with(line@, d@),
            None => site_domain(line@) is None,
        }),
{
    let re = regex::Regex::new(r"^([a-zA-Z0-9][a-zA-Z0-9\-\.]+)\s*\{").ok()?;
    re.captures(line).map(|cap| cap[1].to_string())
}

/// The message for a domain already used by another project.
pub open spec fn conflict_message(domain: Seq<char>) -> Seq<char> {
    "Domain '"@ + domain + "' is already configured for another project"@
}

/// The conflicts of one domain with the site files' lines (lines naming
/// the project's own file are skipped).
pub open spec fn domain_conflicts(domain: Seq<char>, ls: Seq<Seq<char>>, own_file: Seq<char>) -> Seq<Seq<char>>
    decreases ls.len(),
{
    if ls.len() == 0 {
        Seq::empty()
    } else {
        let rest = domain_conflicts(domain, ls.drop_last(), own_file);
        let l = ls.last();
        if !contains(l, own_file) && site_domain(l) == Some(domain) {
            rest.push(conflict_message(domain))
        } else {
            rest
        }
    }
}

/// The conflicts of all services' domains, in order.
pub open spec fn all_conflicts(services: Seq<ServiceConfig>, ls: Seq<Seq<char>>, own_file: Seq<char>) -> Seq<
    Seq<char>,
>
    decreases services.len(),
{
    if services.len() == 0 {
        Seq::empty()
    } else {
        all_conflicts(services.drop_last(), ls, own_file) + match opt_text(services.last().domain) {
            Some(d) => domain_conflicts(d, ls, own_file),
            None => Seq::empty(),
        }
    }
}

/// The command that prints every site file of the server, each after a
/// `=== <path> ===` line.
pub fn site_listing_command() -> (r: String)
    ensures
        r@ == "ls /etc/caddy/sites/*.caddy 2>/dev/null | xargs -I {} sh -c 'echo \"=== {} ===\"  && cat {}'"@,
{
    String::from_str("ls /etc/caddy/sites/*.caddy 2>/dev/null | xargs -I {} sh -c 'echo \"=== {} ===\"  && cat {}'")
}

fn conflicts_of_domain(domain: &String, ls: &Vec<Vec<char>>, own_file: &Vec<char>) -> (r: Vec<String>)
    ensures
        crate::text::string_views(r@) == domain_conflicts(domain@, views(ls@), own_file@),
{
    let mut r: Vec<String> = Vec::new();
    let mut i: usize = 0;
    while i < ls.len()
        invariant
            i <= ls@.len(),
            crate::text::string_views(r@) == domain_conflicts(domain@, views(ls@).subrange(0, i as int), own_file@),
        decreases ls@.len() - i,
    {
        let ghost next = views(ls@).subrange(0, i + 1);
        proof {
            assert(next.drop_last() =~= views(ls@).subrange(0, i as int));
            assert(next.last() == ls@[i as int]@);
        }
        if !contains_chars(&ls[i], own_file) {
            let line = string_of(&ls[i]);
            match site_domain_of(line.as_str()) {
                Some(d) => {
                    if crate::text::str_eq(d.as_str(), domain.as_str()) {
                        let mut m = String::from_str("Domain '");
                        m.append(domain.as_str());
                        m.append("' is already configured for another project");
                        crate::text::push_string(&mut r, m);
                    }
                },
                None => {},
            }
        }
        i = i + 1;
    }
    assert(views(ls@).subrange(0, ls@.len() as int) =~= views(ls@));
    r
}

/// The domains of `new_domains` that the site files of other projects
/// already serve (`existing_configs` is the output of
/// `site_listing_command`; lines naming `<project>.caddy` are skipped).
pub fn check_domain_conflicts(existing_configs: &str, new_domains: &Vec<ServiceConfig>, project_name: &str) -> (r:
    Vec<String>)
    ensures
        crate::text::string_views(r@) == all_conflicts(
            new_domains@,
            lines(existing_configs@),
            project_name@ + ".caddy"@,
        ),
{
    let ls = split_lines(&chars_of(existing_configs));
    let mut own = String::from_str(project_name);
    own.append(".caddy");
    let own_file = chars_of(own.as_str());
    let mut r: Vec<String> = Vec::new();
    let mut i: usize = 0;
    while i < new_domains.len()
        invariant
            views(ls@) == lines(existing_configs@),
            own_file@ == project_name@ + ".caddy"@,
            i <= new_domains@.len(),
            crate::text::string_views(r@) == all_conflicts(
                new_domains@.subrange(0, i as int),
                lines(existing_configs@),
                own_file@,
            ),
        decreases new_domains@.len() - i,
    {
        let ghost next = new_domains@.subrange(0, i + 1);
        proof {
            assert(next.drop_last() =~= new_domains@.subrange(0, i as int));
            assert(next.last() == new_domains@[i as int]);
        }
        match &new_domains[i].domain {
            Some(d) => {
                let c = conflicts_of_domain(d, &ls, &own_file);
                crate::text::append_strings(&mut r, c);
            },
            None => {
                assert(crate::text::string_views(r@) =~= crate::text::string_views(r@) + Seq::<Seq<char>>::empty());
            },
        }
        i = i + 1;
    }
    assert(new_domains@.subrange(0, new_domains@.len() as int) =~= new_domains@);
    r
}

// ---------------------------------------------------------------------------
// Site files
// ---------------------------------------------------------------------------

/// The site block of one service: only for an exposed service with a
/// domain, proxying to `<prefix>-<service>:<port>`, under its path if it
/// has one.
pub open spec fn site_block(s: ServiceConfig, prefix: Seq<char>) -> Seq<char> {
    if s.expose {
        match opt_text(s.domain) {
            Some(d) => {
                let upstream = prefix + "-"@ + s.name@ + ":"@ + decimal(s.port as nat);
                d + " {\n"@ + (match opt_text(s.path) {
                    Some(p) => "    handle "@ + p + " {\n        reverse_proxy "@ + upstream + "\n    }\n"@,
                    None => "    reverse_proxy "@ + upstream + "\n"@,
                }) + "}\n\n"@
            },
            None => Seq::empty(),
        }
    } else {
        Seq::empty()
    }
}

/// The site blocks of the services, in order.
pub open spec fn site_blocks(ss: Seq<ServiceConfig>, prefix: Seq<char>) -> Seq<char>
    decreases ss.len(),
{
    if ss.len() == 0 {
        Seq::empty()
    } else {
        site_blocks(ss.drop_last(), prefix) + site_block(ss.last(), prefix)
    }
}

/// The header of a project's site file.
pub open spec fn caddyfile_header(project_name: Seq<char>) -> Seq<char> {
    "# Managed by Shipwright - Project: "@ + project_name + "\n# Do not edit manually - changes will be overwritten\n\n"@
}

fn push_site_block(content: &mut String, s: &ServiceConfig, prefix: &str)
    ensures
        final(content)@ == old(content)@ + site_block(*s, prefix@),
{
    let ghost c0 = content@;
    if s.expose {
        match &s.domain {
            Some(d) => {
                let mut upstream = String::from_str(prefix);
                upstream.append("-");
                upstream.append(s.name.as_str());
                upstream.append(":");
                push_decimal(&mut upstream, s.port as u64);
                content.append(d.as_str());
                content.append(" {\n");
                match &s.path {
                    Some(p) => {
                        content.append("    handle ");
                        content.append(p.as_str());
                        content.append(" {\n        reverse_proxy ");
                        content.append(upstream.as_str());
                        content.append("\n    }\n");
                    },
                    None => {
                        content.append("    reverse_proxy ");
                        content.append(upstream.as_str());
                        content.append("\n");
                    },
                }
                content.append("}\n\n");
                assert(content@ =~= c0 + site_block(*s, prefix@));
            },
            None => {
                assert(content@ =~= c0 + site_block(*s, prefix@));
            },
        }
    } else {
        assert(content@ =~= c0 + site_block(*s, prefix@));
    }
}

/// The site file of a project: a header, then one block per exposed
/// service with a domain.
pub fn generate_caddyfile(project_name: &str, services: &Vec<ServiceConfig>, container_prefix: &str) -> (r: String)
    ensures
        r@ == caddyfile_header(project_name@) + site_blocks(services@, container_prefix@),
{
    let mut content = String::from_str("# Managed by Shipwright - Project: ");
    content.append(project_name);
    content.append("\n# Do not edit manually - changes will be overwritten\n\n");
    let ghost head = content@;
    let mut i: usize = 0;
    assert(head =~= head + site_blocks(services@.subrange(0, 0), container_prefix@));
    while i < services.len()
        invariant
            i <= services@.len(),
            head == caddyfile_header(project_name@),
            content@ == head + site_blocks(services@.subrange(0, i as int), container_prefix@),
        decreases services@.len() - i,
    {
        let ghost next = services@.subrange(0, i + 1);
        proof {
            assert(next.drop_last() =~= services@.subrange(0, i as int));
            assert(next.last() == services@[i as int]);
        }
        let ghost c0 = content@;
        push_site_block(&mut content, &services[i], container_prefix);
        assert(content@ =~= head + site_blocks(next, container_prefix@));
        i = i + 1;
    }
    assert(services@.subrange(0, services@.len() as int) =~= services@);
    content
}

/// A site file configures something: after trimming it has more than the
/// three header lines.
pub open spec fn has_sites(content: Seq<char>) -> bool {
    lines(trim(content)).len() > 3
}

/// Whether a site file configures any service.
pub fn has_site_config(content: &str) -> (r: bool)
    ensures
        r == has_sites(content@),
{
    let t = trim_chars(&chars_of(content), None);
    let ls = split_lines(&t);
    assert(views(ls@).len() == ls@.len());
    ls.len() > 3
}

/// The command that writes a project's site file.
pub open spec fn site_write_command(project_name: Seq<char>, content: Seq<char>) -> Seq<char> {
    "cat > /etc/caddy/sites/"@ + project_name + ".caddy << 'CADDY_EOF'\n"@ + content + "\nCADDY_EOF"@
}

/// The command that writes a project's site file.
pub fn site_deploy_command(project_name: &str, content: &str) -> (r: String)
    ensures
        r@ == site_write_command(project_name@, content@),
{
    let mut r = String::from_str("cat > /etc/caddy/sites/");
    r.append(project_name);
    r.append(".caddy << 'CADDY_EOF'\n");
    r.append(content);
    r.append("\nCADDY_EOF");
    r
}

/// The command that sets the ACME account email in the main Caddyfile.
pub fn acme_email_command(email: &str) -> (r: String)
    ensures
        r@ == "sed -i 's/email .*/email "@ + email@ + "/' /etc/caddy/Caddyfile"@,
{
    let mut r = String::from_str("sed -i 's/email .*/email ");
    r.append(email);
    r.append("/' /etc/caddy/Caddyfile");
    r
}

/// The domain a site line opens, if it ends with `{` and is no comment.
pub open spec fn opened_domain(line: Seq<char>) -> Option<Seq<char>> {
    if ends_with(line, "{"@) && !starts_with(line, "#"@) {
        let d = trim(trim_end(trim(line), Some('{')));
        if d.len() > 0 {
            Some(d)
        } else {
            None
        }
    } else {
        None
    }
}

/// The domains opened by the lines `ls`, in order.
pub open spec fn opened_domains(ls: Seq<Seq<char>>) -> Seq<Seq<char>>
    decreases ls.len(),
{
    if ls.len() == 0 {
        Seq::empty()
    } else {
        match opened_domain(ls.last()) {
            Some(d) => opened_domains(ls.drop_last()).push(d),
            None => opened_domains(ls.drop_last()),
        }
    }
}

/// The domains a site file configures, in order.
pub fn configured_domains(content: &str) -> (r: Vec<String>)
    ensures
        crate::text::string_views(r@) == opened_domains(lines(content@)),
{
    proof {
        reveal_strlit("{");
        reveal_strlit("#");
    }
    let open = chars_of("{");
    let hash = chars_of("#");
    let ls = split_lines(&chars_of(content));
    let mut r: Vec<String> = Vec::new();
    let mut i: usize = 0;
    while i < ls.len()
        invariant
            open@ == "{"@,
            hash@ == "#"@,
            views(ls@) == lines(content@),
            i <= ls@.len(),
            crate::text::string_views(r@) == opened_domains(views(ls@).subrange(0, i as int)),
        decreases ls@.len() - i,
    {
        let ghost next = views(ls@).subrange(0, i + 1);
        proof {
            assert(next.drop_last() =~= views(ls@).subrange(0, i as int));
            assert(next.last() == ls@[i as int]@);
        }
        let line = &ls[i];
        if ends_with_chars(line, &open) && !starts_with_chars(line, &hash) {
            let a = trim_chars(line, None);
            let b = trim_end_chars(&a, Some('{'));
            let d = trim_chars(&b, None);
            if d.len() > 0 {
                crate::text::push_string(&mut r, string_of(&d));
            }
        }
        i = i + 1;
    }
    assert(views(ls@).subrange(0, ls@.len() as int) =~= views(ls@));
    r
}

/// The command that creates the shared network through which Caddy reaches
/// the containers (it succeeds when the network exists).
pub fn ensure_caddy_network() -> (r: String)
    ensures
        r@ == "docker network create caddy-proxy 2>/dev/null || true"@,
{
    String::from_str("docker network create caddy-proxy 2>/dev/null || true")
}

/// The privileged commands that remove a project's site file and reload
/// Caddy, in order.
pub fn remove_caddy_config(project_name: &str) -> (r: Vec<String>)
    ensures
        crate::text::string_views(r@) == seq![
            "rm -f /etc/caddy/sites/"@ + project_name@ + ".caddy"@,
            "systemctl reload caddy"@,
        ],
{
    let mut rm = String::from_str("rm -f /etc/caddy/sites/");
    rm.append(project_name);
    rm.append(".caddy");
    let mut r: Vec<String> = Vec::new();
    crate::text::push_string(&mut r, rm);
    crate::text::push_str(&mut r, "systemctl reload caddy");
    assert(crate::text::string_views(r@) =~= seq![
        "rm -f /etc/caddy/sites/"@ + project_name@ + ".caddy"@,
        "systemctl reload caddy"@,
    ]);
    r
}

/// A check on the server reports `missing`, or could not be run.
pub open spec fn reports_missing(output: Option<Seq<char>>) -> bool {
    match output {
        Some(o) => trim(o) == "missing"@,
        None => true,
    }
}

/// Whether a check (`... && echo installed || echo missing`) reports
/// `missing` or could not be run (`None`).
pub fn check_reports_missing(output: Option<&str>) -> (r: bool)
    ensures
        r == reports_missing(
            match output {
                Some(o) => Some(o@),
                None => None,
            },
        ),
{
    match output {
        Some(o) => crate::text::eq_chars(&trim_chars(&chars_of(o), None), &chars_of("missing")),
        None => true,
    }
}

/// The privileged commands that prepare Caddy on a server, in order: the
/// sites directory; the main Caddyfile when it is missing; the Caddy package
/// and its repository when Caddy is missing; then enabling the service.
pub fn caddy_setup_commands(caddyfile_missing: bool, caddy_missing: bool) -> (r: Vec<String>)
    ensures
        crate::text::string_views(r@) == seq!["mkdir -p /etc/caddy/sites"@] + (if caddyfile_missing {
            seq![
                "cat > /etc/caddy/Caddyfile << 'CADDY_EOF'\n{\n    # Global options\n    email admin@localhost\n}\n\n# Import all site configurations\nimport sites/*\n\nCADDY_EOF"@,
            ]
        } else {
            Seq::empty()
        }) + (if caddy_missing {
            seq![
                "apt-get update -qq"@,
                "DEBIAN_FRONTEND=noninteractive apt-get install -y -qq debian-keyring debian-archive-keyring apt-transport-https curl"@,
                "curl -1sLf 'https://dl.cloudsmith.io/public/caddy/stable/gpg.key' | sudo gpg --dearmor -o /usr/share/keyrings/caddy-stable-archive-keyring.gpg --yes"@,
                "curl -1sLf 'https://dl.cloudsmith.io/public/caddy/stable/debian.deb.txt' | sudo tee /etc/apt/sources.list.d/caddy-stable.list > /dev/null"@,
                "apt-get update -qq && DEBIAN_FRONTEND=noninteractive apt-get install -y -qq caddy"@,
            ]
        } else {
            Seq::empty()
        }) + seq!["systemctl enable caddy && systemctl start caddy"@],
{
    let mut r: Vec<String> = Vec::new();
    crate::text::push_str(&mut r, "mkdir -p /etc/caddy/sites");
    if caddyfile_missing {
        crate::text::push_str(
            &mut r,
            "cat > /etc/caddy/Caddyfile << 'CADDY_EOF'\n{\n    # Global options\n    email admin@localhost\n}\n\n# Import all site configurations\nimport sites/*\n\nCADDY_EOF",
        );
    }
    if caddy_missing {
        crate::text::push_str(&mut r, "apt-get update -qq");
        crate::text::push_str(
            &mut r,
            "DEBIAN_FRONTEND=noninteractive apt-get install -y -qq debian-keyring debian-archive-keyring apt-transport-https curl",
        );
        crate::text::push_str(
            &mut r,
            "curl -1sLf 'https://dl.cloudsmith.io/public/caddy/stable/gpg.key' | sudo gpg --dearmor -o /usr/share/keyrings/caddy-stable-archive-keyring.gpg --yes",
        );
        crate::text::push_str(
            &mut r,
            "curl -1sLf 'https://dl.cloudsmith.io/public/caddy/stable/debian.deb.txt' | sudo tee /etc/apt/sources.list.d/caddy-stable.list > /dev/null",
        );
        crate::text::push_str(&mut r, "apt-get update -qq && DEBIAN_FRONTEND=noninteractive apt-get install -y -qq caddy");
    }
    crate::text::push_str(&mut r, "systemctl enable caddy && systemctl start caddy");
    assert(crate::text::string_views(r@) =~= seq!["mkdir -p /etc/caddy/sites"@] + (if caddyfile_missing {
        seq![
            "cat > /etc/caddy/Caddyfile << 'CADDY_EOF'\n{\n    # Global options\n    email admin@localhost\n}\n\n# Import all site configurations\nimport sites/*\n\nCADDY_EOF"@,
        ]
    } else {
        Seq::empty()
    }) + (if caddy_missing {
        seq![
            "apt-get update -qq"@,
            "DEBIAN_FRONTEND=noninteractive apt-get install -y -qq debian-keyring debian-archive-keyring apt-transport-https curl"@,
            "curl -1sLf 'https://dl.cloudsmith.io/public/caddy/stable/gpg.key' | sudo gpg --dearmor -o /usr/share/keyrings/caddy-stable-archive-keyring.gpg --yes"@,
            "curl -1sLf 'https://dl.cloudsmith.io/public/caddy/stable/debian.deb.txt' | sudo tee /etc/apt/sources.list.d/caddy-stable.list > /dev/null"@,
            "apt-get update -qq && DEBIAN_FRONTEND=noninteractive apt-get install -y -qq caddy"@,
        ]
    } else {
        Seq::empty()
    }) + seq!["systemctl enable caddy && systemctl start caddy"@]);
    r
}

} // verus!
