//! The verdicts of the smoke tests: what the outputs of `df`, Docker and
//! the probes run inside containers mean for a deployment.
use vstd::prelude::*;
use vstd::string::*;
use crate::text::{chars_of, contains, decimal, is_whitespace, is_ws, lines, parse_unsigned, parse_unsigned_chars, push_decimal, push_string, replace_all, replace_chars, split_lines, starts_with, starts_with_chars, str_contains, string_of, string_views, trim_end, trim_end_chars, trim_start, trim_start_chars, views};

verus! {

/// Disk space a deployment needs, in gigabytes.
pub const MIN_REQUIRED_GB: u64 = 5;

/// `str::split_whitespace`: the maximal runs of non-whitespace characters.
pub open spec fn words(s: Seq<char>) -> Seq<Seq<char>>
    decreases s.len(),
{
    if s.len() == 0 {
        Seq::empty()
    } else {
        let w = words(s.drop_last());
        let c = s.last();
        if is_ws(c) {
            w
        } else if s.len() >= 2 && !is_ws(s[s.len() - 2]) {
            w.update(w.len() - 1, w.last().push(c))
        } else {
            w.push(seq![c])
        }
    }
}

proof fn lemma_words_nonempty(s: Seq<char>)
    ensures
        s.len() > 0 && !is_ws(s.last()) ==> words(s).len() > 0,
    decreases s.len(),
{
    if s.len() > 0 {
        lemma_words_nonempty(s.drop_last());
    }
}

/// `str::split_whitespace`.
pub fn split_words(s: &Vec<char>) -> (r: Vec<Vec<char>>)
    ensures
        views(r@) == words(s@),
{
    let mut r: Vec<Vec<char>> = Vec::new();
    let mut i: usize = 0;
    assert(s@.subrange(0, 0) =~= Seq::<char>::empty());
    while i < s.len()
        invariant
            i <= s@.len(),
            views(r@) == words(s@.subrange(0, i as int)),
        decreases s@.len() - i,
    {
        let ghost pre = s@.subrange(0, i as int);
        let ghost next = s@.subrange(0, i + 1);
        proof {
            assert(next.drop_last() =~= pre);
            assert(next.last() == s@[i as int]);
        }
        let c = s[i];
        if is_whitespace(c) {
        } else if i >= 1 && !is_whitespace(s[i - 1]) {
            proof {
                assert(next[next.len() - 2] == s@[i - 1]);
                lemma_words_nonempty(pre);
                assert(pre.last() == s@[i - 1]);
            }
            let ghost r0 = views(r@);
            let mut last = r.pop().unwrap();
            last.push(c);
            r.push(last);
            proof {
                assert(views(r@) =~= r0.update(r0.len() - 1, r0.last().push(c)));
            }
        } else {
            let ghost r0 = views(r@);
            let mut w: Vec<char> = Vec::new();
            w.push(c);
            r.push(w);
            proof {
                assert(w@ =~= seq![c]);
                assert(views(r@) =~= r0.push(seq![c]));
            }
        }
        i = i + 1;
    }
    assert(s@.subrange(0, s@.len() as int) =~= s@);
    r
}

/// The gigabytes `df -BG` reports available (the fourth field of its
/// second line, without the trailing `G`s), or why it could not be read.
pub open spec fn available_gb(df_output: Seq<char>) -> Result<nat, Seq<char>> {
    let ls = lines(df_output);
    if ls.len() < 2 {
        Err("Unexpected df output"@)
    } else {
        let parts = words(ls[1]);
        if parts.len() < 4 {
            Err("Could not parse df output"@)
        } else {
            match parse_unsigned(trim_end(parts[3], Some('G')), 0xffff_ffff_ffff_ffff) {
                Some(v) => Ok(v),
                None => Err("Could not parse available space"@),
            }
        }
    }
}

/// The verdict of the disk space check on `df -BG` output: the gigabytes
/// available when there are more than `MIN_REQUIRED_GB`.
pub fn check_disk_space(df_output: &str) -> (r: Result<u64, String>)
    ensures
        (match available_gb(df_output@) {
            Err(e) => r matches Err(x) && x@ == e,
            Ok(v) => if v <= MIN_REQUIRED_GB {
                r matches Err(x) && x@ == "Insufficient disk space: "@ + decimal(v) + "GB available, "@ + decimal(
                    MIN_REQUIRED_GB as nat,
                ) + "GB required"@
            } else {
                r == Ok::<u64, String>(v as u64)
            },
        }),
{
    let ls = split_lines(&chars_of(df_output));
    assert(views(ls@).len() == ls@.len());
    if ls.len() < 2 {
        return Err(String::from_str("Unexpected df output"));
    }
    let parts = split_words(&ls[1]);
    proof {
        assert(views(ls@)[1] == ls@[1]@);
        assert(views(parts@).len() == parts@.len());
    }
    if parts.len() < 4 {
        return Err(String::from_str("Could not parse df output"));
    }
    let field = trim_end_chars(&parts[3], Some('G'));
    proof {
        assert(views(parts@)[3] == parts@[3]@);
    }
    match parse_unsigned_chars(&field, 0xffff_ffff_ffff_ffff) {
        None => Err(String::from_str("Could not parse available space")),
        Some(available) => {
            if available <= MIN_REQUIRED_GB {
                let mut m = String::from_str("Insufficient disk space: ");
                push_decimal(&mut m, available);
                m.append("GB available, ");
                push_decimal(&mut m, MIN_REQUIRED_GB);
                m.append("GB required");
                Err(m)
            } else {
                Ok(available)
            }
        },
    }
}

/// A Windows line ending (`\r\n`) starts at position `i`.
pub open spec fn crlf_at(s: Seq<u8>, i: int) -> bool {
    0 <= i < s.len() - 1 && s[i] == 13 && s[i + 1] == 10
}

/// The file holds a Windows line ending (`\r\n`).
pub fn has_crlf(content: &[u8]) -> (r: bool)
    ensures
        r == exists|i: int| crlf_at(content@, i),
{
    let mut i: usize = 0;
    while i < content.len() && i + 1 < content.len()
        invariant
            i <= content@.len(),
            forall|j: int| 0 <= j < i ==> !crlf_at(content@, j),
        decreases content@.len() - i,
    {
        if content[i] == 13 && content[i + 1] == 10 {
            assert(crlf_at(content@, i as int));
            return true;
        }
        i = i + 1;
    }
    false
}

/// The name Docker lists a container under: its first name without leading
/// `/`, else `unknown`.
pub fn listed_name(first_name: &Option<String>) -> (r: String)
    ensures
        r@ == (match first_name {
            Some(n) => trim_start(n@, Some('/')),
            None => "unknown"@,
        }),
{
    match first_name {
        Some(n) => string_of(&trim_start_chars(&chars_of(n.as_str()), Some('/'))),
        None => String::from_str("unknown"),
    }
}

/// Strings joined with `", "`.
pub open spec fn joined(v: Seq<Seq<char>>) -> Seq<char>
    decreases v.len(),
{
    if v.len() == 0 {
        Seq::empty()
    } else if v.len() == 1 {
        v[0]
    } else {
        joined(v.drop_last()) + ", "@ + v.last()
    }
}

fn join_names(v: &Vec<String>) -> (r: String)
    ensures
        r@ == joined(string_views(v@)),
{
    let mut r = String::new();
    let mut i: usize = 0;
    while i < v.len()
        invariant
            i <= v@.len(),
            r@ == joined(string_views(v@).subrange(0, i as int)),
        decreases v@.len() - i,
    {
        let ghost next = string_views(v@).subrange(0, i + 1);
        proof {
            assert(next.drop_last() =~= string_views(v@).subrange(0, i as int));
            assert(next.last() == v@[i as int]@);
        }
        if i > 0 {
            r.append(", ");
        }
        r.append(v[i].as_str());
        proof {
            if i == 0 {
                assert(r@ =~= next[0]);
            }
        }
        i = i + 1;
    }
    assert(string_views(v@).subrange(0, v@.len() as int) =~= string_views(v@));
    r
}

/// The names of the containers whose status satisfies the test: for
/// `restarting`, `Restarting`; otherwise `Exited` or `Created` (and not
/// `Restarting`).
pub open spec fn names_where(cs: Seq<(Seq<char>, Seq<char>)>, restarting: bool) -> Seq<Seq<char>>
    decreases cs.len(),
{
    if cs.len() == 0 {
        Seq::empty()
    } else {
        let rest = names_where(cs.drop_last(), restarting);
        let (name, status) = cs.last();
        let hit = if restarting {
            contains(status, "Restarting"@)
        } else {
            !contains(status, "Restarting"@) && (contains(status, "Exited"@) || contains(status, "Created"@))
        };
        if hit {
            rest.push(name)
        } else {
            rest
        }
    }
}

/// The verdict on a project's containers (name and status each): none at
/// all, some in a crash loop, or some not running fail the check.
pub open spec fn running_verdict(project: Seq<char>, cs: Seq<(Seq<char>, Seq<char>)>) -> Result<(), Seq<char>> {
    if cs.len() == 0 {
        Err("No containers found for project "@ + project)
    } else if names_where(cs, true).len() > 0 {
        Err(
            "Containers in crash loop: "@ + joined(names_where(cs, true))
                + "\nRemediation:\n1. Check logs: docker logs <container-name>\n2. Check environment variables\n3. Verify database connectivity\n4. Check for permission errors"@,
        )
    } else if names_where(cs, false).len() > 0 {
        Err(
            "Containers not running: "@ + joined(names_where(cs, false))
                + "\nRemediation:\n1. Check logs: docker logs <container-name>\n2. Review container startup command\n3. Check for missing dependencies"@,
        )
    } else {
        Ok(())
    }
}

/// Pairs of strings as plain values.
pub open spec fn pair_texts(v: Seq<(String, String)>) -> Seq<(Seq<char>, Seq<char>)> {
    v.map_values(|p: (String, String)| (p.0@, p.1@))
}

fn collect_names(cs: &Vec<(String, String)>, restarting: bool) -> (r: Vec<String>)
    ensures
        string_views(r@) == names_where(pair_texts(cs@), restarting),
{
    let ghost pv = pair_texts(cs@);
    let mut r: Vec<String> = Vec::new();
    let mut i: usize = 0;
    while i < cs.len()
        invariant
            pv == pair_texts(cs@),
            i <= cs@.len(),
            string_views(r@) == names_where(pv.subrange(0, i as int), restarting),
        decreases cs@.len() - i,
    {
        let ghost next = pv.subrange(0, i + 1);
        proof {
            assert(next.drop_last() =~= pv.subrange(0, i as int));
            assert(next.last() == pv[i as int]);
        }
        let status = cs[i].1.as_str();
        let hit = if restarting {
            str_contains(status, "Restarting")
        } else {
            !str_contains(status, "Restarting") && (str_contains(status, "Exited") || str_contains(
                status,
                "Created",
            ))
        };
        if hit {
            crate::text::push_string(&mut r, cs[i].0.clone());
        }
        i = i + 1;
    }
    assert(pv.subrange(0, pv.len() as int) =~= pv);
    r
}

/// The verdict of the running-containers check (see `running_verdict`);
/// `containers` lists each container's name and status.
pub fn check_containers_running(project_name: &str, containers: &Vec<(String, String)>) -> (r: Result<(), String>)
    ensures
        (match (r, running_verdict(project_name@, pair_texts(containers@))) {
            (Ok(()), Ok(())) => true,
            (Err(e), Err(f)) => e@ == f,
            _ => false,
        }),
{
    if containers.len() == 0 {
        let mut m = String::from_str("No containers found for project ");
        m.append(project_name);
        return Err(m);
    }
    let restarting = collect_names(containers, true);
    if restarting.len() > 0 {
        let mut m = String::from_str("Containers in crash loop: ");
        m.append(join_names(&restarting).as_str());
        m.append(
            "\nRemediation:\n1. Check logs: docker logs <container-name>\n2. Check environment variables\n3. Verify database connectivity\n4. Check for permission errors",
        );
        assert(string_views(restarting@).len() == restarting@.len());
        return Err(m);
    }
    let exited = collect_names(containers, false);
    assert(string_views(restarting@).len() == restarting@.len());
    assert(string_views(exited@).len() == exited@.len());
    if exited.len() > 0 {
        let mut m = String::from_str("Containers not running: ");
        m.append(join_names(&exited).as_str());
        m.append(
            "\nRemediation:\n1. Check logs: docker logs <container-name>\n2. Review container startup command\n3. Check for missing dependencies",
        );
        return Err(m);
    }
    Ok(())
}

/// The verdict of the second look at the containers: the first one that
/// restarts fails the check.
pub fn check_still_running(containers: &Vec<(String, String)>) -> (r: Result<(), String>)
    ensures
        (forall|i: int| 0 <= i < containers@.len() ==> !contains(#[trigger] containers@[i].1@, "Restarting"@))
            <==> r is Ok,
        r matches Err(e) ==> exists|i: int|
            0 <= i < containers@.len() && contains(containers@[i].1@, "Restarting"@) && (forall|j: int|
                0 <= j < i ==> !contains(#[trigger] containers@[j].1@, "Restarting"@)) && e@ == "Container "@
                + containers@[i].0@
                + " started crashing after initial startup\nThis often indicates:\n1. Database connection failures\n2. Missing environment variables\n3. Permission errors\n4. Application startup errors"@,
{
    let mut i: usize = 0;
    while i < containers.len()
        invariant
            i <= containers@.len(),
            forall|j: int| 0 <= j < i ==> !contains(#[trigger] containers@[j].1@, "Restarting"@),
        decreases containers@.len() - i,
    {
        if str_contains(containers[i].1.as_str(), "Restarting") {
            let mut m = String::from_str("Container ");
            m.append(containers[i].0.as_str());
            m.append(
                " started crashing after initial startup\nThis often indicates:\n1. Database connection failures\n2. Missing environment variables\n3. Permission errors\n4. Application startup errors",
            );
            return Err(m);
        }
        i = i + 1;
    }
    Ok(())
}

/// The verdict of the DNS probe for the shared database.
pub fn database_dns_verdict(probe_output: &str) -> (r: Result<(), String>)
    ensures
        contains(probe_output@, "DNS_FAILED"@) ==> (r matches Err(e) && e@
            == "Cannot resolve shared-postgres hostname\nRemediation:\n1. Check that shared-postgres container is running\n2. Verify container is on correct network\n3. Check docker network: docker network inspect core_shared-internal"@),
        !contains(probe_output@, "DNS_FAILED"@) ==> r is Ok,
{
    if str_contains(probe_output, "DNS_FAILED") {
        Err(
            String::from_str(
                "Cannot resolve shared-postgres hostname\nRemediation:\n1. Check that shared-postgres container is running\n2. Verify container is on correct network\n3. Check docker network: docker network inspect core_shared-internal",
            ),
        )
    } else {
        Ok(())
    }
}

/// The verdict of the port probe for the shared database.
pub fn database_port_verdict(probe_output: &str) -> (r: Result<(), String>)
    ensures
        contains(probe_output@, "PORT_FAILED"@) ==> (r matches Err(e) && e@
            == "Cannot connect to PostgreSQL port 5432\nRemediation:\n1. Check shared-postgres is running: docker ps | grep postgres\n2. Verify PostgreSQL is listening: docker exec shared-postgres pg_isready\n3. Check network connectivity"@),
        !contains(probe_output@, "PORT_FAILED"@) ==> r is Ok,
{
    if str_contains(probe_output, "PORT_FAILED") {
        Err(
            String::from_str(
                "Cannot connect to PostgreSQL port 5432\nRemediation:\n1. Check shared-postgres is running: docker ps | grep postgres\n2. Verify PostgreSQL is listening: docker exec shared-postgres pg_isready\n3. Check network connectivity",
            ),
        )
    } else {
        Ok(())
    }
}

/// A mount is probed for writability when its destination mentions
/// `static` or `media`.
pub fn needs_write_test(destination: &str) -> (r: bool)
    ensures
        r == (contains(destination@, "static"@) || contains(destination@, "media"@)),
{
    str_contains(destination, "static") || str_contains(destination, "media")
}

/// The probe that tells whether a mount is writable.
pub fn write_test_command(destination: &str) -> (r: String)
    ensures
        r@ == "touch "@ + destination@ + "/.write_test 2>/dev/null && rm "@ + destination@
            + "/.write_test && echo 'WRITABLE' || echo 'NOT_WRITABLE'"@,
{
    let mut r = String::from_str("touch ");
    r.append(destination);
    r.append("/.write_test 2>/dev/null && rm ");
    r.append(destination);
    r.append("/.write_test && echo 'WRITABLE' || echo 'NOT_WRITABLE'");
    r
}

/// The verdict of the writability probe of a mount in a container.
pub fn volume_write_verdict(destination: &str, container: &str, probe_output: &str) -> (r: Result<(), String>)
    ensures
        contains(probe_output@, "NOT_WRITABLE"@) ==> (r matches Err(e) && e@ == "Volume "@ + destination@
            + " is not writable in container "@ + container@
            + "\nRemediation:\n1. Check volume ownership: docker volume inspect <volume-name>\n2. Fix permissions: docker run --rm -v <volume>:/vol alpine chmod -R 777 /vol\n3. Check container user matches volume owner"@),
        !contains(probe_output@, "NOT_WRITABLE"@) ==> r is Ok,
{
    if str_contains(probe_output, "NOT_WRITABLE") {
        let mut m = String::from_str("Volume ");
        m.append(destination);
        m.append(" is not writable in container ");
        m.append(container);
        m.append(
            "\nRemediation:\n1. Check volume ownership: docker volume inspect <volume-name>\n2. Fix permissions: docker run --rm -v <volume>:/vol alpine chmod -R 777 /vol\n3. Check container user matches volume owner",
        );
        Err(m)
    } else {
        Ok(())
    }
}

/// What inspecting the proxy container gave: its running flag (when the
/// state is known), or the inspection error.
pub enum ProxyInspection {
    Running(Option<bool>),
    StateUnknown,
    Failed(String),
}

/// The verdict on the proxy container: a stopped proxy, or one that cannot
/// be inspected, fails the check.
pub fn proxy_verdict(proxy_type: &str, proxy_container: &str, inspection: &ProxyInspection) -> (r: Result<(), String>)
    ensures
        (match inspection {
            ProxyInspection::Running(Some(true)) => r is Ok,
            ProxyInspection::StateUnknown => r is Ok,
            ProxyInspection::Running(_) => r matches Err(e) && e@ == "Proxy container "@ + proxy_container@
                + " is not running\nRemediation:\n1. Start proxy: docker start "@ + proxy_container@
                + "\n2. Check proxy logs: docker logs "@ + proxy_container@,
            ProxyInspection::Failed(err) => r matches Err(e) && e@ == "Cannot inspect proxy container "@
                + proxy_container@ + ": "@ + err@
                + "\nRemediation:\n1. Verify proxy container exists: docker ps -a | grep "@ + proxy_type@
                + "\n2. Check proxy is properly configured"@,
        }),
{
    match inspection {
        ProxyInspection::Running(Some(true)) => Ok(()),
        ProxyInspection::StateUnknown => Ok(()),
        ProxyInspection::Running(_) => {
            let mut m = String::from_str("Proxy container ");
            m.append(proxy_container);
            m.append(" is not running\nRemediation:\n1. Start proxy: docker start ");
            m.append(proxy_container);
            m.append("\n2. Check proxy logs: docker logs ");
            m.append(proxy_container);
            Err(m)
        },
        ProxyInspection::Failed(err) => {
            let mut m = String::from_str("Cannot inspect proxy container ");
            m.append(proxy_container);
            m.append(": ");
            m.append(err.as_str());
            m.append("\nRemediation:\n1. Verify proxy container exists: docker ps -a | grep ");
            m.append(proxy_type);
            m.append("\n2. Check proxy is properly configured");
            Err(m)
        },
    }
}

/// The verdict of the image check for a standalone deployment: some local
/// image tag mentions the project.
pub fn images_built_verdict(project_name: &str, repo_tags: &Vec<String>) -> (r: Result<(), String>)
    ensures
        (exists|i: int| 0 <= i < repo_tags@.len() && contains(repo_tags@[i]@, project_name@)) <==> r is Ok,
        r matches Err(e) ==> e@ == "Expected image not found: "@ + project_name@ + ":latest"@,
{
    let mut i: usize = 0;
    while i < repo_tags.len()
        invariant
            i <= repo_tags@.len(),
            forall|j: int| 0 <= j < i ==> !contains(#[trigger] repo_tags@[j]@, project_name@),
        decreases repo_tags@.len() - i,
    {
        if str_contains(repo_tags[i].as_str(), project_name) {
            return Ok(());
        }
        i = i + 1;
    }
    let mut m = String::from_str("Expected image not found: ");
    m.append(project_name);
    m.append(":latest");
    Err(m)
}

// ---------------------------------------------------------------------------
// Container logs and environment
// ---------------------------------------------------------------------------

/// The texts whose presence in a container's recent logs is reported.
pub open spec fn log_error_patterns() -> Seq<Seq<char>> {
    seq![
        "Error:"@,
        "ERROR"@,
        "CRITICAL"@,
        "connection refused"@,
        "Connection refused"@,
        "Authentication failed"@,
        "permission denied"@,
        "Permission denied"@,
        "No such file"@,
        "cannot import"@,
        "ModuleNotFoundError"@,
        "Fatal"@,
    ]
}

/// The finding reported for a pattern in a container's logs.
pub open spec fn log_finding(container: Seq<char>, pattern: Seq<char>) -> Seq<char> {
    container + ": found '"@ + pattern + "'"@
}

/// The findings for the patterns `pats` that occur in a container's logs,
/// in the patterns' order.
pub open spec fn log_findings_for(container: Seq<char>, logs: Seq<char>, pats: Seq<Seq<char>>) -> Seq<Seq<char>>
    decreases pats.len(),
{
    if pats.len() == 0 {
        Seq::empty()
    } else {
        let f = log_findings_for(container, logs, pats.drop_last());
        if contains(logs, pats.last()) {
            f.push(log_finding(container, pats.last()))
        } else {
            f
        }
    }
}

fn error_patterns() -> (r: Vec<String>)
    ensures
        string_views(r@) == log_error_patterns(),
{
    let mut r: Vec<String> = Vec::new();
    crate::text::push_str(&mut r, "Error:");
    crate::text::push_str(&mut r, "ERROR");
    crate::text::push_str(&mut r, "CRITICAL");
    crate::text::push_str(&mut r, "connection refused");
    crate::text::push_str(&mut r, "Connection refused");
    crate::text::push_str(&mut r, "Authentication failed");
    crate::text::push_str(&mut r, "permission denied");
    crate::text::push_str(&mut r, "Permission denied");
    crate::text::push_str(&mut r, "No such file");
    crate::text::push_str(&mut r, "cannot import");
    crate::text::push_str(&mut r, "ModuleNotFoundError");
    crate::text::push_str(&mut r, "Fatal");
    assert(string_views(r@) =~= log_error_patterns());
    r
}

/// What the log check reports of one container's recent logs: a finding
/// per error pattern that occurs (see `log_error_patterns`).  The check
/// itself never fails a deployment.
pub fn log_findings(container: &str, logs: &str) -> (r: Vec<String>)
    ensures
        string_views(r@) == log_findings_for(container@, logs@, log_error_patterns()),
{
    let pats = error_patterns();
    let mut r: Vec<String> = Vec::new();
    let mut i: usize = 0;
    while i < pats.len()
        invariant
            i <= pats@.len(),
            string_views(pats@) == log_error_patterns(),
            string_views(r@) == log_findings_for(container@, logs@, string_views(pats@).subrange(0, i as int)),
        decreases pats@.len() - i,
    {
        let ghost sub = string_views(pats@).subrange(0, i + 1);
        assert(sub.drop_last() =~= string_views(pats@).subrange(0, i as int));
        assert(sub.last() == pats@[i as int]@);
        if str_contains(logs, pats[i].as_str()) {
            let mut m = String::from_str(container);
            m.append(": found '");
            m.append(pats[i].as_str());
            m.append("'");
            push_string(&mut r, m);
        }
        i = i + 1;
    }
    assert(string_views(pats@).subrange(0, pats@.len() as int) =~= string_views(pats@));
    r
}

/// Values that look like placeholders left in an environment.
pub open spec fn placeholder_markers() -> Seq<Seq<char>> {
    seq!["changeme"@, "your-"@, "CHANGE"@, "TODO"@, "localhost"@]
}

/// The warning for a variable that looks like a placeholder.
pub open spec fn placeholder_warning(env_var: Seq<char>) -> Seq<char> {
    "Possible placeholder value in environment: "@ + env_var
}

/// The warnings for the markers `ms` that a `NAME=value` entry holds
/// (entries starting with `PATH` are not checked), in order.
pub open spec fn placeholder_warnings_for(env_var: Seq<char>, ms: Seq<Seq<char>>) -> Seq<Seq<char>>
    decreases ms.len(),
{
    if ms.len() == 0 {
        Seq::empty()
    } else {
        let w = placeholder_warnings_for(env_var, ms.drop_last());
        if contains(env_var, ms.last()) && !starts_with(env_var, "PATH"@) {
            w.push(placeholder_warning(env_var))
        } else {
            w
        }
    }
}

/// The warnings the environment check gives for one `NAME=value` entry of
/// a container: one per placeholder marker it holds, then one when it
/// points at the local host.
pub open spec fn env_warnings(env_var: Seq<char>) -> Seq<Seq<char>> {
    let w = placeholder_warnings_for(env_var, placeholder_markers());
    if contains(env_var, "://localhost"@) || contains(env_var, "127.0.0.1"@) {
        w.push("localhost reference in environment: "@ + env_var)
    } else {
        w
    }
}

/// The warnings the environment check gives for one `NAME=value` entry
/// (see `env_warnings`).  The check itself never fails a deployment.
pub fn env_var_warnings(env_var: &str) -> (r: Vec<String>)
    ensures
        string_views(r@) == env_warnings(env_var@),
{
    let mut ms: Vec<String> = Vec::new();
    crate::text::push_str(&mut ms, "changeme");
    crate::text::push_str(&mut ms, "your-");
    crate::text::push_str(&mut ms, "CHANGE");
    crate::text::push_str(&mut ms, "TODO");
    crate::text::push_str(&mut ms, "localhost");
    assert(string_views(ms@) =~= placeholder_markers());
    let is_path = starts_with_chars(&chars_of(env_var), &chars_of("PATH"));
    let mut r: Vec<String> = Vec::new();
    let mut i: usize = 0;
    while i < ms.len()
        invariant
            i <= ms@.len(),
            string_views(ms@) == placeholder_markers(),
            is_path == starts_with(env_var@, "PATH"@),
            string_views(r@) == placeholder_warnings_for(env_var@, string_views(ms@).subrange(0, i as int)),
        decreases ms@.len() - i,
    {
        let ghost sub = string_views(ms@).subrange(0, i + 1);
        assert(sub.drop_last() =~= string_views(ms@).subrange(0, i as int));
        assert(sub.last() == ms@[i as int]@);
        if str_contains(env_var, ms[i].as_str()) && !is_path {
            let mut m = String::from_str("Possible placeholder value in environment: ");
            m.append(env_var);
            push_string(&mut r, m);
        }
        i = i + 1;
    }
    assert(string_views(ms@).subrange(0, ms@.len() as int) =~= string_views(ms@));
    if str_contains(env_var, "://localhost") || str_contains(env_var, "127.0.0.1") {
        let mut m = String::from_str("localhost reference in environment: ");
        m.append(env_var);
        push_string(&mut r, m);
    }
    r
}

/// The container whose environment is checked: `<project>-backend`, with
/// `_` written `-` as Docker does.
pub fn backend_container_name(project_name: &str) -> (r: String)
    ensures
        r@ == replace_all(project_name@ + "-backend"@, "_"@, "-"@),
{
    let mut n = String::from_str(project_name);
    n.append("-backend");
    proof {
        reveal_strlit("_");
    }
    string_of(&replace_chars(&chars_of(n.as_str()), &chars_of("_"), &chars_of("-")))
}

// ---------------------------------------------------------------------------
// Database connectivity
// ---------------------------------------------------------------------------

/// The probe run in a project container to resolve the shared database's
/// host name; its output holds `DNS_FAILED` when that fails.
pub const DATABASE_DNS_PROBE: &'static str = "getent hosts shared-postgres || echo 'DNS_FAILED'";

/// The probe run in a project container to reach the shared database's
/// port; its output holds `PORT_FAILED` when that fails.
pub const DATABASE_PORT_PROBE: &'static str =
    "timeout 2 nc -z shared-postgres 5432 2>/dev/null && echo 'PORT_OK' || echo 'PORT_FAILED'";

/// An environment entry configures a database.
pub open spec fn configures_database(env_var: Seq<char>) -> bool {
    contains(env_var, "DATABASE_URL"@) || contains(env_var, "POSTGRES_"@) || contains(env_var, "DB_HOST"@)
}

/// Whether some entry of a container's environment configures a database
/// (the check warns when none does).
pub fn has_database_config(env: &Vec<String>) -> (r: bool)
    ensures
        r == exists|i: int| 0 <= i < env@.len() && configures_database(#[trigger] env@[i]@),
{
    let mut i: usize = 0;
    while i < env.len()
        invariant
            i <= env@.len(),
            forall|j: int| 0 <= j < i ==> !configures_database(#[trigger] env@[j]@),
        decreases env@.len() - i,
    {
        let e = env[i].as_str();
        if str_contains(e, "DATABASE_URL") || str_contains(e, "POSTGRES_") || str_contains(e, "DB_HOST") {
            assert(configures_database(env@[i as int]@));
            return true;
        }
        i = i + 1;
    }
    false
}

/// How often `c` occurs in `s`.
pub open spec fn count_char(s: Seq<char>, c: char) -> nat
    decreases s.len(),
{
    if s.len() == 0 {
        0
    } else {
        count_char(s.drop_last(), c) + if s.last() == c {
            1nat
        } else {
            0nat
        }
    }
}

/// A database URL or password entry holds an `@` that is not URL-encoded
/// (it has no `%40` and more than one `@`).
pub open spec fn raw_at_in_password(env_var: Seq<char>) -> bool {
    &&& contains(env_var, "DATABASE_URL"@) || contains(env_var, "POSTGRES_PASSWORD"@)
    &&& contains(env_var, "@"@)
    &&& !contains(env_var, "%40"@)
    &&& count_char(env_var, '@') >= 2
}

/// Whether the check warns that an entry's `@` should be written `%40` (see
/// `raw_at_in_password`).
pub fn needs_at_encoding(env_var: &str) -> (r: bool)
    ensures
        r == raw_at_in_password(env_var@),
{
    let v = chars_of(env_var);
    let mut n: usize = 0;
    let mut i: usize = 0;
    while i < v.len()
        invariant
            i <= v@.len(),
            n == count_char(v@.subrange(0, i as int), '@'),
            n <= i,
        decreases v@.len() - i,
    {
        assert(v@.subrange(0, i + 1).drop_last() =~= v@.subrange(0, i as int));
        if v[i] == '@' {
            n = n + 1;
        }
        i = i + 1;
    }
    assert(v@.subrange(0, v@.len() as int) =~= v@);
    (str_contains(env_var, "DATABASE_URL") || str_contains(env_var, "POSTGRES_PASSWORD")) && str_contains(
        env_var,
        "@",
    ) && !str_contains(env_var, "%40") && n >= 2
}

// ---------------------------------------------------------------------------
// Compose file validation
// ---------------------------------------------------------------------------

/// The verdict of `docker-compose config --quiet` on the compose file:
/// `None` when the tool could not be run (the check then passes), else
/// whether it succeeded and what it wrote to standard error.
pub fn compose_validation_verdict(run: Option<(bool, String)>) -> (r: Result<(), String>)
    ensures
        match run {
            None => r is Ok,
            Some((true, _)) => r is Ok,
            Some((false, stderr)) => r matches Err(e) && e@ == "docker-compose.yml validation failed:\n"@ + stderr@,
        },
{
    match run {
        None => Ok(()),
        Some((true, _)) => Ok(()),
        Some((false, stderr)) => {
            let mut m = String::from_str("docker-compose.yml validation failed:\n");
            m.append(stderr.as_str());
            Err(m)
        },
    }
}

} // verus!
