//! What the agent learns of a server: its reverse proxy, Docker networks,
//! shared databases and project directories, and the recommendations drawn
//! from them.
use vstd::prelude::*;
use vstd::string::*;
use crate::text::{chars_of, contains, lowercase, push_str, push_string, str_contains, str_eq, string_of, string_views, to_lowercase, trim_start, trim_start_chars};

verus! {

/// What was detected on the server.
#[derive(Debug, Clone)]
pub struct InfrastructureInfo {
    /// Detected proxy type and container name.
    pub proxy: Option<(String, String)>,
    /// Available Docker networks.
    pub networks: Vec<NetworkInfo>,
    /// Shared resources detected.
    pub shared_resources: SharedResources,
    /// Existing deployment directories.
    pub deploy_directories: Vec<String>,
    /// Whether this appears to be a multi-project setup.
    pub is_multi_project: bool,
}

/// A Docker network.
#[derive(Debug, Clone)]
pub struct NetworkInfo {
    pub name: String,
    pub id: String,
    pub driver: String,
    pub scope: String,
}

/// Databases, caches and queues shared between projects.
#[derive(Debug, Clone)]
pub struct SharedResources {
    pub postgres: Option<ServiceInfo>,
    pub redis: Option<ServiceInfo>,
    pub rabbitmq: Option<ServiceInfo>,
    pub other: Vec<ServiceInfo>,
}

/// A running container offering a service.
#[derive(Debug, Clone)]
pub struct ServiceInfo {
    pub container_name: String,
    pub image: String,
    pub networks: Vec<String>,
    pub ports: Vec<u16>,
}

/// A running container as Docker lists it: its first name, image, networks
/// and private ports.
pub struct ContainerSummary {
    pub first_name: Option<String>,
    pub image: Option<String>,
    pub networks: Vec<String>,
    pub ports: Vec<u16>,
}

/// The name of a listed container: its first name without leading `/`.
pub open spec fn container_name_of(c: ContainerSummary) -> Seq<char> {
    match c.first_name {
        Some(n) => trim_start(n@, Some('/')),
        None => Seq::empty(),
    }
}

/// The image of a listed container (empty when unknown).
pub open spec fn image_of(c: ContainerSummary) -> Seq<char> {
    match c.image {
        Some(i) => i@,
        None => Seq::empty(),
    }
}

/// The proxy a container is, if any: Caddy by image or name; Nginx by image
/// when the name mentions `proxy` or `nginx`; Traefik by image.  The image
/// is compared lowercased.
pub open spec fn proxy_kind(c: ContainerSummary) -> Option<Seq<char>> {
    let name = container_name_of(c);
    let image = lowercase(image_of(c));
    if contains(image, "caddy"@) || contains(name, "caddy"@) {
        Some("caddy"@)
    } else if contains(image, "nginx"@) && (contains(name, "proxy"@) || contains(name, "nginx"@)) {
        Some("nginx"@)
    } else if contains(image, "traefik"@) {
        Some("traefik"@)
    } else {
        None
    }
}

/// The proxy of the first container that is one, with its name.
pub open spec fn first_proxy(cs: Seq<ContainerSummary>) -> Option<(Seq<char>, Seq<char>)>
    decreases cs.len(),
{
    if cs.len() == 0 {
        None
    } else {
        match proxy_kind(cs[0]) {
            Some(k) => Some((k, container_name_of(cs[0]))),
            None => first_proxy(cs.drop_first()),
        }
    }
}

fn name_of(c: &ContainerSummary) -> (r: String)
    ensures
        r@ == container_name_of(*c),
{
    match &c.first_name {
        Some(n) => string_of(&trim_start_chars(&chars_of(n.as_str()), Some('/'))),
        None => String::new(),
    }
}

fn kind_of(c: &ContainerSummary, name: &String) -> (r: Option<String>)
    requires
        name@ == container_name_of(*c),
    ensures
        (match proxy_kind(*c) {
            Some(k) => r matches Some(x) && x@ == k,
            None => r is None,
        }),
{
    let image = match &c.image {
        Some(i) => to_lowercase(i.as_str()),
        None => to_lowercase(""),
    };
    proof {
        assert(image_of(*c) == (match c.image {
            Some(i) => i@,
            None => ""@,
        })) by {
            reveal_strlit("");
        }
    }
    if str_contains(image.as_str(), "caddy") || str_contains(name.as_str(), "caddy") {
        Some(String::from_str("caddy"))
    } else if str_contains(image.as_str(), "nginx") && (str_contains(name.as_str(), "proxy") || str_contains(
        name.as_str(),
        "nginx",
    )) {
        Some(String::from_str("nginx"))
    } else if str_contains(image.as_str(), "traefik") {
        Some(String::from_str("traefik"))
    } else {
        None
    }
}

/// The reverse proxy among the running containers: the first that is one,
/// with its type (`caddy`, `nginx` or `traefik`) and name.
pub fn detect_proxy(containers: &Vec<ContainerSummary>) -> (r: Option<(String, String)>)
    ensures
        (match first_proxy(containers@) {
            Some(p) => r matches Some(x) && x.0@ == p.0 && x.1@ == p.1,
            None => r is None,
        }),
{
    let mut i: usize = 0;
    assert(containers@.subrange(0, containers@.len() as int) =~= containers@);
    while i < containers.len()
        invariant
            i <= containers@.len(),
            first_proxy(containers@) == first_proxy(containers@.subrange(i as int, containers@.len() as int)),
        decreases containers@.len() - i,
    {
        let ghost rest = containers@.subrange(i as int, containers@.len() as int);
        proof {
            assert(rest[0] == containers@[i as int]);
            assert(rest.drop_first() =~= containers@.subrange(i + 1, containers@.len() as int));
        }
        let name = name_of(&containers[i]);
        match kind_of(&containers[i], &name) {
            Some(k) => {
                return Some((k, name));
            },
            None => {},
        }
        i = i + 1;
    }
    None
}

/// A listed network with every field known.
pub fn network_of(
    name: Option<String>,
    id: Option<String>,
    driver: Option<String>,
    scope: Option<String>,
) -> (r: Option<NetworkInfo>)
    ensures
        (name is Some && id is Some && driver is Some && scope is Some) <==> r is Some,
        r matches Some(n) ==> Some(n.name) == name && Some(n.id) == id && Some(n.driver) == driver && Some(
            n.scope,
        ) == scope,
{
    match (name, id, driver, scope) {
        (Some(name), Some(id), Some(driver), Some(scope)) => Some(NetworkInfo { name, id, driver, scope }),
        _ => None,
    }
}

/// The shared resources the scan has found after some containers.
pub struct SharedScan {
    pub postgres: Option<int>,
    pub redis: Option<int>,
    pub rabbitmq: Option<int>,
}

/// A container's name or image mentions `what`.
pub open spec fn offers(c: ContainerSummary, what: Seq<char>) -> bool {
    contains(container_name_of(c), what) || contains(image_of(c), what)
}

/// The positions of the containers chosen as shared resources after the
/// containers `cs`: a PostgreSQL or Redis container replaces an earlier one
/// only when its name mentions `shared`; the last RabbitMQ container wins.
pub open spec fn shared_scan(cs: Seq<ContainerSummary>) -> SharedScan
    decreases cs.len(),
{
    if cs.len() == 0 {
        SharedScan { postgres: None, redis: None, rabbitmq: None }
    } else {
        let st = shared_scan(cs.drop_last());
        let c = cs.last();
        let i = cs.len() - 1;
        let shared = contains(container_name_of(c), "shared"@);
        SharedScan {
            postgres: if offers(c, "postgres"@) && (shared || st.postgres is None) {
                Some(i)
            } else {
                st.postgres
            },
            redis: if offers(c, "redis"@) && (shared || st.redis is None) {
                Some(i)
            } else {
                st.redis
            },
            rabbitmq: if offers(c, "rabbitmq"@) {
                Some(i)
            } else {
                st.rabbitmq
            },
        }
    }
}

/// The service a container offers, as detected.
pub open spec fn service_of(s: ServiceInfo, c: ContainerSummary) -> bool {
    &&& s.container_name@ == container_name_of(c)
    &&& s.image@ == image_of(c)
    &&& string_views(s.networks@) == string_views(c.networks@)
    &&& s.ports@ == c.ports@
}

/// The chosen container of a kind, as a service.
pub open spec fn chosen(s: Option<ServiceInfo>, pos: Option<int>, cs: Seq<ContainerSummary>) -> bool {
    match pos {
        Some(i) => s matches Some(x) && service_of(x, cs[i]),
        None => s is None,
    }
}

fn copy_strings(v: &Vec<String>) -> (r: Vec<String>)
    ensures
        string_views(r@) == string_views(v@),
{
    let mut r: Vec<String> = Vec::new();
    let mut i: usize = 0;
    while i < v.len()
        invariant
            i <= v@.len(),
            string_views(r@) == string_views(v@).subrange(0, i as int),
        decreases v@.len() - i,
    {
        push_string(&mut r, v[i].clone());
        assert(string_views(r@) =~= string_views(v@).subrange(0, i + 1));
        i = i + 1;
    }
    assert(string_views(v@).subrange(0, v@.len() as int) =~= string_views(v@));
    r
}

fn copy_ports(p: &Vec<u16>) -> (r: Vec<u16>)
    ensures
        r@ == p@,
{
    let mut r: Vec<u16> = Vec::new();
    let mut i: usize = 0;
    while i < p.len()
        invariant
            i <= p@.len(),
            r@ == p@.subrange(0, i as int),
        decreases p@.len() - i,
    {
        r.push(p[i]);
        i = i + 1;
        assert(r@ =~= p@.subrange(0, i as int));
    }
    assert(r@ =~= p@);
    r
}

fn service_info_of(c: &ContainerSummary) -> (r: ServiceInfo)
    ensures
        service_of(r, *c),
{
    let image = match &c.image {
        Some(i) => i.clone(),
        None => String::new(),
    };
    ServiceInfo {
        container_name: name_of(c),
        image,
        networks: copy_strings(&c.networks),
        ports: copy_ports(&c.ports),
    }
}

/// The shared PostgreSQL, Redis and RabbitMQ among the running containers
/// (see `shared_scan`); `other` stays empty.
pub fn detect_shared_resources(containers: &Vec<ContainerSummary>) -> (r: SharedResources)
    ensures
        chosen(r.postgres, shared_scan(containers@).postgres, containers@),
        chosen(r.redis, shared_scan(containers@).redis, containers@),
        chosen(r.rabbitmq, shared_scan(containers@).rabbitmq, containers@),
        r.other@.len() == 0,
{
    let mut postgres: Option<ServiceInfo> = None;
    let mut redis: Option<ServiceInfo> = None;
    let mut rabbitmq: Option<ServiceInfo> = None;
    let mut i: usize = 0;
    while i < containers.len()
        invariant
            i <= containers@.len(),
            chosen(postgres, shared_scan(containers@.subrange(0, i as int)).postgres, containers@),
            chosen(redis, shared_scan(containers@.subrange(0, i as int)).redis, containers@),
            chosen(rabbitmq, shared_scan(containers@.subrange(0, i as int)).rabbitmq, containers@),
            shared_scan(containers@.subrange(0, i as int)).postgres matches Some(k) ==> 0 <= k < i,
            shared_scan(containers@.subrange(0, i as int)).redis matches Some(k) ==> 0 <= k < i,
            shared_scan(containers@.subrange(0, i as int)).rabbitmq matches Some(k) ==> 0 <= k < i,
        decreases containers@.len() - i,
    {
        let ghost pre = containers@.subrange(0, i as int);
        let ghost next = containers@.subrange(0, i + 1);
        proof {
            assert(next.drop_last() =~= pre);
            assert(next.last() == containers@[i as int]);
        }
        let c = &containers[i];
        let name = name_of(c);
        let image = match &c.image {
            Some(im) => im.clone(),
            None => String::new(),
        };
        let shared = str_contains(name.as_str(), "shared");
        if (str_contains(name.as_str(), "postgres") || str_contains(image.as_str(), "postgres")) && (shared
            || postgres.is_none()) {
            postgres = Some(service_info_of(c));
        }
        if (str_contains(name.as_str(), "redis") || str_contains(image.as_str(), "redis")) && (shared
            || redis.is_none()) {
            redis = Some(service_info_of(c));
        }
        if str_contains(name.as_str(), "rabbitmq") || str_contains(image.as_str(), "rabbitmq") {
            rabbitmq = Some(service_info_of(c));
        }
        i = i + 1;
    }
    assert(containers@.subrange(0, containers@.len() as int) =~= containers@);
    SharedResources { postgres, redis, rabbitmq, other: Vec::new() }
}

/// The directories that may hold projects: `/opt/apps`, `/var/www`, then
/// `apps` and `projects` under each user home, then under `home`.
pub fn deploy_directory_candidates(user_homes: &Vec<String>, home: &str) -> (r: Vec<String>)
    ensures
        string_views(r@).len() == 4 + 2 * user_homes@.len(),
        string_views(r@)[0] == "/opt/apps"@,
        string_views(r@)[1] == "/var/www"@,
        forall|k: int|
            0 <= k < user_homes@.len() ==> string_views(r@)[2 + 2 * k] == user_homes@[k]@ + "/apps"@
                && string_views(r@)[3 + 2 * k] == user_homes@[k]@ + "/projects"@,
        string_views(r@)[2 + 2 * user_homes@.len() as int] == home@ + "/apps"@,
        string_views(r@)[3 + 2 * user_homes@.len() as int] == home@ + "/projects"@,
{
    let mut r: Vec<String> = Vec::new();
    push_str(&mut r, "/opt/apps");
    push_str(&mut r, "/var/www");
    let mut i: usize = 0;
    while i < user_homes.len()
        invariant
            i <= user_homes@.len(),
            string_views(r@).len() == 2 + 2 * i,
            string_views(r@)[0] == "/opt/apps"@,
            string_views(r@)[1] == "/var/www"@,
            forall|k: int|
                0 <= k < i ==> string_views(r@)[2 + 2 * k] == user_homes@[k]@ + "/apps"@ && string_views(r@)[3
                    + 2 * k] == user_homes@[k]@ + "/projects"@,
        decreases user_homes@.len() - i,
    {
        let mut a = user_homes[i].clone();
        a.append("/apps");
        push_string(&mut r, a);
        let mut p = user_homes[i].clone();
        p.append("/projects");
        push_string(&mut r, p);
        i = i + 1;
    }
    let mut a = String::from_str(home);
    a.append("/apps");
    push_string(&mut r, a);
    let mut p = String::from_str(home);
    p.append("/projects");
    push_string(&mut r, p);
    r
}

/// The detected infrastructure; it is a multi-project setup when more than
/// one deployment directory holds projects.
pub fn infrastructure_info(
    proxy: Option<(String, String)>,
    networks: Vec<NetworkInfo>,
    shared_resources: SharedResources,
    deploy_directories: Vec<String>,
) -> (r: InfrastructureInfo)
    ensures
        r.proxy == proxy,
        r.networks == networks,
        r.shared_resources == shared_resources,
        r.deploy_directories == deploy_directories,
        r.is_multi_project == (deploy_directories@.len() > 1),
{
    let is_multi_project = deploy_directories.len() > 1;
    InfrastructureInfo { proxy, networks, shared_resources, deploy_directories, is_multi_project }
}

/// The recommended strategy: `compose` for a multi-project setup or when a
/// proxy runs, else `standalone`.
pub open spec fn strategy_for(info: InfrastructureInfo) -> Seq<char> {
    if info.is_multi_project || info.proxy is Some {
        "compose"@
    } else {
        "standalone"@
    }
}

/// The recommended deployment strategy.
pub fn recommend_strategy(info: &InfrastructureInfo) -> (r: String)
    ensures
        r@ == strategy_for(*info),
{
    if info.is_multi_project {
        String::from_str("compose")
    } else if info.proxy.is_some() {
        String::from_str("compose")
    } else {
        String::from_str("standalone")
    }
}

/// The first network satisfying `p` (by name), if any.
pub open spec fn first_network(nets: Seq<NetworkInfo>, proxy: bool) -> Option<int> {
    if exists|i: int| 0 <= i < nets.len() && network_matches(nets[i], proxy) {
        Some(choose|i: int| 0 <= i < nets.len() && network_matches(nets[i], proxy) && forall|j: int|
            0 <= j < i ==> !network_matches(nets[j], proxy))
    } else {
        None
    }
}

/// A proxy network (`proxy` in its name, or `proxy-tier`) or, for `false`,
/// a shared one (`shared` or `internal` in its name).
pub open spec fn network_matches(n: NetworkInfo, proxy: bool) -> bool {
    if proxy {
        contains(n.name@, "proxy"@) || n.name@ == "proxy-tier"@
    } else {
        contains(n.name@, "shared"@) || contains(n.name@, "internal"@)
    }
}

/// The first proxy network, when a proxy runs.
pub open spec fn proxy_part(info: InfrastructureInfo) -> Seq<Seq<char>> {
    if info.proxy is Some {
        match first_network(info.networks@, true) {
            Some(i) => seq![info.networks@[i].name@],
            None => Seq::empty(),
        }
    } else {
        Seq::empty()
    }
}

/// `a` with `name` added at the end unless it is there.
pub open spec fn with_name(a: Seq<Seq<char>>, name: Seq<char>) -> Seq<Seq<char>> {
    if a.contains(name) {
        a
    } else {
        a.push(name)
    }
}

/// The networks a new project joins: the first proxy network when a proxy
/// runs, then the first shared network when a shared PostgreSQL or Redis
/// runs (once).
pub open spec fn networks_for(info: InfrastructureInfo) -> Seq<Seq<char>> {
    if info.shared_resources.postgres is Some || info.shared_resources.redis is Some {
        match first_network(info.networks@, false) {
            Some(i) => with_name(proxy_part(info), info.networks@[i].name@),
            None => proxy_part(info),
        }
    } else {
        proxy_part(info)
    }
}

proof fn lemma_first_network(nets: Seq<NetworkInfo>, proxy: bool, i: int)
    requires
        0 <= i < nets.len(),
        network_matches(nets[i], proxy),
        forall|j: int| 0 <= j < i ==> !network_matches(#[trigger] nets[j], proxy),
    ensures
        first_network(nets, proxy) == Some(i),
{
    assert(0 <= i < nets.len() && network_matches(nets[i], proxy) && forall|j: int|
        0 <= j < i ==> !network_matches(nets[j], proxy));
    let w = first_network(nets, proxy)->0;
    if w < i {
        assert(!network_matches(nets[w], proxy));
    } else if w > i {
        assert(!network_matches(nets[i], proxy));
    }
}

proof fn lemma_deploy_dir_configured(
    dirs: Seq<Seq<char>>,
    project_name: Seq<char>,
    configured: Seq<bool>,
    home: Seq<char>,
    i: int,
)
    requires
        0 <= i < dirs.len(),
        configured[i],
        forall|j: int| 0 <= j < i ==> !configured[j],
    ensures
        deploy_dir_for(dirs, project_name, configured, home) == dirs[i] + "/"@ + project_name,
{
    assert(0 <= i < dirs.len() && configured[i] && forall|j: int| 0 <= j < i ==> !configured[j]);
    let w = choose|k: int| 0 <= k < dirs.len() && configured[k] && forall|j: int| 0 <= j < k ==> !configured[j];
    if w < i {
        assert(!configured[w]);
    } else if w > i {
        assert(!configured[i]);
    }
}

fn find_network(nets: &Vec<NetworkInfo>, proxy: bool) -> (r: Option<usize>)
    ensures
        r matches Some(i) ==> i < nets@.len() && first_network(nets@, proxy) == Some(i as int),
        r is None ==> first_network(nets@, proxy) is None,
{
    let mut i: usize = 0;
    while i < nets.len()
        invariant
            i <= nets@.len(),
            forall|j: int| 0 <= j < i ==> !network_matches(#[trigger] nets@[j], proxy),
        decreases nets@.len() - i,
    {
        let n = &nets[i].name;
        let m = if proxy {
            str_contains(n.as_str(), "proxy") || str_eq(n.as_str(), "proxy-tier")
        } else {
            str_contains(n.as_str(), "shared") || str_contains(n.as_str(), "internal")
        };
        if m {
            proof {
                lemma_first_network(nets@, proxy, i as int);
            }
            return Some(i);
        }
        i = i + 1;
    }
    None
}

fn proxy_networks(info: &InfrastructureInfo) -> (r: Vec<String>)
    ensures
        string_views(r@) == proxy_part(*info),
        r@.len() <= 1,
{
    let mut r: Vec<String> = Vec::new();
    assert(string_views(r@) =~= Seq::<Seq<char>>::empty());
    if info.proxy.is_some() {
        match find_network(&info.networks, true) {
            Some(i) => {
                let n = info.networks[i].name.clone();
                assert(n@ == info.networks@[i as int].name@);
                push_string(&mut r, n);
                assert(string_views(r@) =~= seq![info.networks@[i as int].name@]);
            },
            None => {
                assert(first_network(info.networks@, true) is None);
            },
        }
    }
    assert(string_views(r@) =~= proxy_part(*info));
    r
}

fn add_unless_present(r: &mut Vec<String>, name: &String)
    requires
        old(r)@.len() <= 1,
    ensures
        string_views(final(r)@) == with_name(string_views(old(r)@), name@),
{
    let mut present = false;
    if r.len() == 1 {
        present = str_eq(r[0].as_str(), name.as_str());
    }
    proof {
        if r@.len() == 1 {
            assert(string_views(r@)[0] == r@[0]@);
            if string_views(r@).contains(name@) {
                let k = choose|k: int| 0 <= k < string_views(r@).len() && string_views(r@)[k] == name@;
                assert(k == 0);
            }
        } else {
            assert(string_views(r@).len() == 0);
        }
    }
    if !present {
        push_string(r, name.clone());
    }
}

/// The networks a new project should join.
pub fn recommend_networks(info: &InfrastructureInfo) -> (r: Vec<String>)
    ensures
        string_views(r@) == networks_for(*info),
{
    let mut r = proxy_networks(info);
    assert(string_views(r@).len() == r@.len());
    if info.shared_resources.postgres.is_some() || info.shared_resources.redis.is_some() {
        match find_network(&info.networks, false) {
            Some(i) => {
                add_unless_present(&mut r, &info.networks[i].name);
            },
            None => {},
        }
    }
    r
}

/// The directory of a project: `<dir>/<project>` under the first deployment
/// directory that already holds its `.shipwright.yml`, else under the first
/// deployment directory, else `<home>/apps/<project>`.
pub open spec fn deploy_dir_for(
    dirs: Seq<Seq<char>>,
    project_name: Seq<char>,
    configured: Seq<bool>,
    home: Seq<char>,
) -> Seq<char> {
    if exists|i: int| 0 <= i < dirs.len() && configured[i] {
        let i = choose|i: int| 0 <= i < dirs.len() && configured[i] && forall|j: int| 0 <= j < i ==> !configured[j];
        dirs[i] + "/"@ + project_name
    } else if dirs.len() > 0 {
        dirs[0] + "/"@ + project_name
    } else {
        home + "/apps/"@ + project_name
    }
}

/// The recommended directory of a project; `configured[i]` tells whether
/// `<deploy_directories[i]>/<project>/.shipwright.yml` exists, `home` is the
/// user's home (`/root` when unset).
pub fn recommend_deploy_dir(info: &InfrastructureInfo, project_name: &str, configured: &Vec<bool>, home: &str) -> (r:
    String)
    requires
        configured@.len() == info.deploy_directories@.len(),
    ensures
        r@ == deploy_dir_for(string_views(info.deploy_directories@), project_name@, configured@, home@),
{
    let dirs = &info.deploy_directories;
    let ghost dv = string_views(dirs@);
    let mut i: usize = 0;
    while i < dirs.len()
        invariant
            configured@.len() == dirs@.len(),
            dirs@ == info.deploy_directories@,
            dv == string_views(dirs@),
            i <= dirs@.len(),
            forall|j: int| 0 <= j < i ==> !configured@[j],
        decreases dirs@.len() - i,
    {
        if configured[i] {
            let mut r = dirs[i].clone();
            r.append("/");
            r.append(project_name);
            proof {
                lemma_deploy_dir_configured(dv, project_name@, configured@, home@, i as int);
                assert(dv[i as int] == dirs@[i as int]@);
            }
            return r;
        }
        i = i + 1;
    }
    if dirs.len() > 0 {
        let mut r = dirs[0].clone();
        r.append("/");
        r.append(project_name);
        assert(dv[0] == dirs@[0]@);
        r
    } else {
        let mut r = String::from_str(home);
        r.append("/apps/");
        r.append(project_name);
        r
    }
}

} // verus!
