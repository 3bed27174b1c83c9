//! Diagnosis of failed containers: parsing `docker compose ps` output,
//! classifying containers, and the suggestions derived from their logs.
use vstd::prelude::*;
use vstd::string::*;
use crate::text::{
    append_strings, chars_of, contains, contains_chars, lines, parse_i32, parse_i32_chars, push_str,
    push_string, replace_all, replace_chars, split_chars, split_lines, split_on, str_contains, string_views,
    to_lowercase, lowercase, trim, trim_both, trim_chars, starts_with, starts_with_chars, find_char,
    slice_chars, string_of, views, first_index_of,
};

verus! {

/// Status of one container of a project.
#[derive(Debug)]
pub struct ContainerStatus {
    pub name: String,
    pub status: String,
    pub health: String,
    pub exit_code: Option<i32>,
}

/// A failed container with its logs and what to try.
#[derive(Debug)]
pub struct DiagnosticResult {
    pub container: String,
    pub issue: String,
    pub logs: String,
    pub suggestions: Vec<String>,
}

// ---------------------------------------------------------------------------
// Container statuses
// ---------------------------------------------------------------------------

/// The command that lists a project's containers, one per line, as
/// `name|status|health`.
pub open spec fn status_command(remote_dir: Seq<char>) -> Seq<char> {
    "cd "@ + remote_dir + " && docker compose ps -a --format '{{.Name}}|{{.Status}}|{{.Health}}'"@
}

/// The command that lists a project's containers.
pub fn container_status_command(remote_dir: &str) -> (r: String)
    ensures
        r@ == status_command(remote_dir@),
{
    let mut r = String::from_str("cd ");
    r.append(remote_dir);
    r.append(" && docker compose ps -a --format '{{.Name}}|{{.Status}}|{{.Health}}'");
    r
}

/// The digits of the first `Exited (<digits>)` in a status, as the pattern
/// `Exited \((\d+)\)` of the regex crate captures them.
pub uninterp spec fn exited_capture(status: Seq<char>) -> Option<Seq<char>>;

/// Runs the pattern `Exited \((\d+)\)` (regex crate) on `status` and returns
/// its first capture group.  The contract names the result, and states that
/// a capture is non-empty and occurs in the status between `Exited (` and `)`.
#[verifier::external_body]
fn exited_digits(status: &str) -> (r: Option<String>)
    ensures
        (match r {
            Some(c) => exited_capture(status@) == Some(c@) && c@.len() > 0 && contains(
                status@,
                "Exited ("@ + c@ + ")"@,
            ),
            None => exited_capture(status@) is None,
        }),
{
    let re = regex::Regex::new(r"Exited \((\d+)\)").ok()?;
    re.captures(status).map(|cap| cap[1].to_string())
}

/// The exit code read from a captured digit string (`str::parse::<i32>`).
pub open spec fn code_of_capture(cap: Option<Seq<char>>) -> Option<int> {
    match cap {
        Some(c) => parse_i32(c),
        None => None,
    }
}

/// The exit code of a status such as `Exited (1) 3 minutes ago`.
pub open spec fn exit_code_of(status: Seq<char>) -> Option<int> {
    if contains(status, "Exited"@) {
        code_of_capture(exited_capture(status))
    } else {
        None
    }
}

/// `str::parse::<i32>` of a captured digit string.
pub fn exit_code_from_capture(cap: Option<String>) -> (r: Option<i32>)
    ensures
        (match code_of_capture(
            match cap {
                Some(c) => Some(c@),
                None => None,
            },
        ) {
            Some(v) => r == Some(v as i32),
            None => r is None,
        }),
{
    match cap {
        Some(c) => parse_i32_chars(&chars_of(c.as_str())),
        None => None,
    }
}

/// The exit code of a status such as `Exited (1) 3 minutes ago`.
pub fn extract_exit_code(status: &str) -> (r: Option<i32>)
    ensures
        (match exit_code_of(status@) {
            Some(v) => r == Some(v as i32),
            None => r is None,
        }),
{
    if str_contains(status, "Exited") {
        let cap = exited_digits(status);
        exit_code_from_capture(cap)
    } else {
        None
    }
}

/// The fields of a `ps` line: name, status and health, for a line with at
/// least two `|`-separated fields.
pub open spec fn status_fields(line: Seq<char>) -> Option<(Seq<char>, Seq<char>, Seq<char>)> {
    let parts = split_on(line, '|');
    if parts.len() >= 2 {
        Some((parts[0], parts[1], if parts.len() > 2 { parts[2] } else { Seq::<char>::empty() }))
    } else {
        None
    }
}

/// The status rows of `ps` output lines.
pub open spec fn status_rows(ls: Seq<Seq<char>>) -> Seq<(Seq<char>, Seq<char>, Seq<char>)>
    decreases ls.len(),
{
    if ls.len() == 0 {
        Seq::empty()
    } else {
        match status_fields(ls.last()) {
            Some(f) => status_rows(ls.drop_last()).push(f),
            None => status_rows(ls.drop_last()),
        }
    }
}

/// The status matches a row: its texts, and the exit code read from the
/// status text.
pub open spec fn status_matches(s: ContainerStatus, row: (Seq<char>, Seq<char>, Seq<char>)) -> bool {
    &&& s.name@ == row.0
    &&& s.status@ == row.1
    &&& s.health@ == row.2
    &&& (match exit_code_of(row.1) {
        Some(v) => s.exit_code == Some(v as i32),
        None => s.exit_code is None,
    })
}

fn status_of_line(line: &Vec<char>) -> (r: Option<ContainerStatus>)
    ensures
        (match status_fields(line@) {
            Some(f) => r matches Some(s) && status_matches(s, f),
            None => r is None,
        }),
{
    let parts = split_chars(line, '|');
    proof {
        assert(views(parts@).len() == parts@.len());
    }
    if parts.len() >= 2 {
        let name = string_of(&parts[0]);
        let status = string_of(&parts[1]);
        let health = if parts.len() > 2 {
            string_of(&parts[2])
        } else {
            String::new()
        };
        let exit_code = extract_exit_code(status.as_str());
        proof {
            assert(views(parts@)[0] == parts@[0]@);
            assert(views(parts@)[1] == parts@[1]@);
            if parts@.len() > 2 {
                assert(views(parts@)[2] == parts@[2]@);
            }
        }
        Some(ContainerStatus { name, status, health, exit_code })
    } else {
        None
    }
}

/// The container statuses in the output of `container_status_command`:
/// one per line with at least two `|`-separated fields; a missing health is
/// empty.
pub fn get_container_statuses(ps_output: &str) -> (r: Vec<ContainerStatus>)
    ensures
        r@.len() == status_rows(lines(ps_output@)).len(),
        forall|i: int| 0 <= i < r@.len() ==> status_matches(#[trigger] r@[i], status_rows(lines(ps_output@))[i]),
{
    let ls = split_lines(&chars_of(ps_output));
    let ghost all = lines(ps_output@);
    let mut r: Vec<ContainerStatus> = Vec::new();
    let mut i: usize = 0;
    while i < ls.len()
        invariant
            views(ls@) == all,
            all == lines(ps_output@),
            i <= ls@.len(),
            r@.len() == status_rows(all.subrange(0, i as int)).len(),
            forall|k: int|
                0 <= k < r@.len() ==> status_matches(#[trigger] r@[k], status_rows(all.subrange(0, i as int))[k]),
        decreases ls@.len() - i,
    {
        let ghost pre = all.subrange(0, i as int);
        let ghost next = all.subrange(0, i + 1);
        proof {
            assert(next.drop_last() =~= pre);
            assert(next.last() == ls@[i as int]@);
        }
        match status_of_line(&ls[i]) {
            Some(s) => {
                r.push(s);
            },
            None => {},
        }
        i = i + 1;
    }
    assert(all.subrange(0, all.len() as int) =~= all);
    r
}

// ---------------------------------------------------------------------------
// Classification
// ---------------------------------------------------------------------------

/// The container's health check fails.
pub open spec fn is_unhealthy(s: ContainerStatus) -> bool {
    contains(lowercase(s.health@), "unhealthy"@)
}

/// The container has exited.
pub open spec fn is_exited(s: ContainerStatus) -> bool {
    contains(lowercase(s.status@), "exited"@)
}

/// The container keeps restarting.
pub open spec fn is_restarting(s: ContainerStatus) -> bool {
    contains(lowercase(s.status@), "restarting"@)
}

/// The container is unhealthy, exited or restarting.
pub open spec fn is_failing(s: ContainerStatus) -> bool {
    is_unhealthy(s) || is_exited(s) || is_restarting(s)
}

/// The container is up and its health check does not fail.
pub open spec fn is_healthy(s: ContainerStatus) -> bool {
    contains(lowercase(s.status@), "up"@) && !is_unhealthy(s)
}

fn lower_contains(s: &String, p: &str) -> (r: bool)
    ensures
        r == contains(lowercase(s@), p@),
{
    let l = to_lowercase(s.as_str());
    str_contains(l.as_str(), p)
}

/// Whether a container needs a diagnosis (it is unhealthy, exited or
/// restarting).
pub fn needs_diagnosis(s: &ContainerStatus) -> (r: bool)
    ensures
        r == is_failing(*s),
{
    let u = lower_contains(&s.health, "unhealthy");
    let e = lower_contains(&s.status, "exited");
    let t = lower_contains(&s.status, "restarting");
    u || e || t
}

/// Whether a container counts as healthy in the summary.
pub fn counts_as_healthy(s: &ContainerStatus) -> (r: bool)
    ensures
        r == is_healthy(*s),
{
    let up = lower_contains(&s.status, "up");
    let u = lower_contains(&s.health, "unhealthy");
    up && !u
}

/// `{:?}` of an `Option<i32>`.
pub open spec fn debug_opt_i32(o: Option<i32>) -> Seq<char> {
    match o {
        Some(v) => "Some("@ + crate::text::decimal_int(v as int) + ")"@,
        None => "None"@,
    }
}

/// The issue reported for a failing container.
pub open spec fn issue_of(s: ContainerStatus) -> Seq<char> {
    if is_unhealthy(s) {
        "Container is unhealthy (health check failing)"@
    } else if is_restarting(s) {
        "Container is in restart loop"@
    } else {
        "Container exited with code "@ + debug_opt_i32(s.exit_code)
    }
}

/// The issue reported for a failing container.
pub fn issue_text(s: &ContainerStatus) -> (r: String)
    ensures
        r@ == issue_of(*s),
{
    if lower_contains(&s.health, "unhealthy") {
        String::from_str("Container is unhealthy (health check failing)")
    } else if lower_contains(&s.status, "restarting") {
        String::from_str("Container is in restart loop")
    } else {
        let mut r = String::from_str("Container exited with code ");
        match s.exit_code {
            Some(v) => {
                r.append("Some(");
                crate::text::push_int(&mut r, v as i64);
                r.append(")");
            },
            None => {
                r.append("None");
            },
        }
        r
    }
}

// ---------------------------------------------------------------------------
// Suggestions from logs
// ---------------------------------------------------------------------------

/// Suggestions for a database password mismatch.
pub open spec fn password_suggestions(container: Seq<char>, low: Seq<char>) -> Seq<Seq<char>> {
    seq![
        "🔑 PASSWORD MISMATCH DETECTED!"@,
        "The database password in .env doesn't match the existing database."@,
        ""@,
        "Fix Option 1 - Update password in database (keeps data):"@,
    ] + (if contains(low, "user \"hbec\""@) || contains(container, "student"@) || contains(container, "admin"@) {
        seq![
            "  docker exec -it hbec-postgres psql -U postgres -c \"ALTER USER hbec WITH PASSWORD 'YOUR_POSTGRES_PASSWORD';\""@,
        ]
    } else {
        Seq::empty()
    }) + (if contains(low, "user \"harness\""@) || contains(container, "harness"@) {
        seq![
            "  docker exec -it hbec-harness-db psql -U postgres -c \"ALTER USER harness WITH PASSWORD 'YOUR_HARNESS_DB_PASSWORD';\""@,
        ]
    } else {
        Seq::empty()
    }) + seq![
        "  Then restart: docker compose restart"@,
        ""@,
        "Fix Option 2 - Reset database (LOSES ALL DATA):"@,
        "  docker compose down -v && docker compose up -d"@,
    ]
}

/// Suggestions for refused database or cache connections.
pub open spec fn connection_suggestions(low: Seq<char>) -> Seq<Seq<char>> {
    if contains(low, "connection refused"@) || contains(low, "could not connect"@) {
        (if contains(low, "postgres"@) || contains(low, "5432"@) {
            seq![
                "Database connection failed. Check that postgres container is healthy."@,
                "Verify POSTGRES_PASSWORD matches between services."@,
                "Run: docker logs hbec-postgres"@,
            ]
        } else {
            Seq::empty()
        }) + (if contains(low, "redis"@) || contains(low, "6379"@) {
            seq![
                "Redis connection failed. Check that redis container is running."@,
                "Run: docker logs hbec-redis"@,
            ]
        } else {
            Seq::empty()
        })
    } else {
        Seq::empty()
    }
}

/// Suggestions for failed migrations.
pub open spec fn migration_suggestions(container: Seq<char>, low: Seq<char>) -> Seq<Seq<char>> {
    if (contains(low, "migration"@) || contains(low, "migrate"@)) && (contains(low, "error"@) || contains(
        low,
        "failed"@,
    )) {
        seq![
            "Database migration failed. Try running migrations manually:"@,
            "  docker exec -it "@ + container + " python manage.py migrate"@,
        ]
    } else {
        Seq::empty()
    }
}

/// Suggestions for permission errors, missing modules and killed containers.
pub open spec fn runtime_suggestions(low: Seq<char>) -> Seq<Seq<char>> {
    (if contains(low, "permission denied"@) || contains(low, "eacces"@) {
        seq![
            "Permission error detected. Check file/directory permissions."@,
            "For volume mounts, ensure the container user has access."@,
        ]
    } else {
        Seq::empty()
    }) + (if contains(low, "modulenotfounderror"@) || contains(low, "importerror"@) {
        seq![
            "Python module not found. The image may need rebuilding."@,
            "Try: docker compose build --no-cache <service>"@,
        ]
    } else {
        Seq::empty()
    }) + (if contains(low, "out of memory"@) || contains(low, "oom"@) || contains(low, "killed"@) {
        seq![
            "Container was killed, possibly due to memory limits."@,
            "Increase memory limits in docker-compose.yml or VPS resources."@,
        ]
    } else {
        Seq::empty()
    })
}

/// Suggestions for a failing health check.
pub open spec fn health_suggestions(container: Seq<char>, health_low: Seq<char>) -> Seq<Seq<char>> {
    if contains(health_low, "unhealthy"@) {
        (if contains(container, "backend"@) {
            seq![
                "Backend health check failing. Common causes:"@,
                "  1. Application not started yet (check start_period in healthcheck)"@,
                "  2. Database not ready when app started"@,
                "  3. Missing environment variables"@,
                "Check detailed logs: docker logs "@ + container + " --tail 100"@,
            ]
        } else {
            Seq::empty()
        }) + (if contains(container, "frontend"@) {
            seq![
                "Frontend health check failing. Nginx may not be serving content."@,
                "Check if the build produced files in /usr/share/nginx/html"@,
            ]
        } else {
            Seq::empty()
        })
    } else {
        Seq::empty()
    }
}

/// Suggestions for configuration problems: environment, secrets, network.
pub open spec fn config_suggestions(low: Seq<char>) -> Seq<Seq<char>> {
    (if contains(low, "keyerror"@) || contains(low, "environment variable"@) || contains(low, "not set"@)
        || contains(low, "missing"@) {
        seq![
            "Missing environment variable. Check .env file on VPS:"@,
            "  cat /home/administrator/hbec/.env"@,
        ]
    } else {
        Seq::empty()
    }) + (if contains(low, "jwt"@) || contains(low, "token"@) || contains(low, "secret"@) {
        seq![
            "JWT/Authentication error. Verify JWT keys and secrets:"@,
            "  - Check JWT_SECRET in .env matches across services"@,
            "  - Verify jwt_private.pem and jwt_public.pem exist in docker/keys/"@,
        ]
    } else {
        Seq::empty()
    }) + (if contains(low, "network"@) || contains(low, "dns"@) || contains(low, "resolve"@) {
        seq![
            "Network/DNS issue. Check Docker network configuration:"@,
            "  docker network ls"@,
            "  docker network inspect hbec_hbec-network"@,
        ]
    } else {
        Seq::empty()
    })
}

/// What to try when nothing specific was recognised.
pub open spec fn default_suggestions(container: Seq<char>) -> Seq<Seq<char>> {
    seq![
        "Check full logs: docker logs "@ + container + " --tail 200"@,
        "Try restarting: docker compose restart "@ + replace_all(container, "hbec-"@, Seq::empty()),
        "Check container shell: docker exec -it <container> sh"@,
    ]
}

/// The specific suggestions, in the order they are checked.
pub open spec fn specific_suggestions(container: Seq<char>, low: Seq<char>, health_low: Seq<char>) -> Seq<
    Seq<char>,
> {
    connection_suggestions(low) + migration_suggestions(container, low) + runtime_suggestions(low)
        + health_suggestions(container, health_low) + config_suggestions(low)
}

/// The suggestions for a container, from its lowercased logs and health: a
/// password mismatch is reported alone; otherwise every recognised problem
/// is reported, and general advice is given when none is.
pub open spec fn log_suggestions(container: Seq<char>, low: Seq<char>, health_low: Seq<char>) -> Seq<Seq<char>> {
    if contains(low, "password authentication failed"@) {
        password_suggestions(container, low)
    } else if specific_suggestions(container, low, health_low).len() == 0 {
        default_suggestions(container)
    } else {
        specific_suggestions(container, low, health_low)
    }
}

fn has(low: &Vec<char>, p: &str) -> (r: bool)
    ensures
        r == contains(low@, p@),
{
    contains_chars(low, &chars_of(p))
}

fn password_part(container: &str, low: &Vec<char>) -> (r: Vec<String>)
    ensures
        string_views(r@) == password_suggestions(container@, low@),
{
    let c = chars_of(container);
    let mut r: Vec<String> = Vec::new();
    push_str(&mut r, "🔑 PASSWORD MISMATCH DETECTED!");
    push_str(&mut r, "The database password in .env doesn't match the existing database.");
    push_str(&mut r, "");
    push_str(&mut r, "Fix Option 1 - Update password in database (keeps data):");
    if has(low, "user \"hbec\"") || has(&c, "student") || has(&c, "admin") {
        push_str(
            &mut r,
            "  docker exec -it hbec-postgres psql -U postgres -c \"ALTER USER hbec WITH PASSWORD 'YOUR_POSTGRES_PASSWORD';\"",
        );
    }
    if has(low, "user \"harness\"") || has(&c, "harness") {
        push_str(
            &mut r,
            "  docker exec -it hbec-harness-db psql -U postgres -c \"ALTER USER harness WITH PASSWORD 'YOUR_HARNESS_DB_PASSWORD';\"",
        );
    }
    push_str(&mut r, "  Then restart: docker compose restart");
    push_str(&mut r, "");
    push_str(&mut r, "Fix Option 2 - Reset database (LOSES ALL DATA):");
    push_str(&mut r, "  docker compose down -v && docker compose up -d");
    assert(string_views(r@) =~= password_suggestions(container@, low@));
    r
}

fn connection_part(low: &Vec<char>) -> (r: Vec<String>)
    ensures
        string_views(r@) == connection_suggestions(low@),
{
    let mut r: Vec<String> = Vec::new();
    if has(low, "connection refused") || has(low, "could not connect") {
        if has(low, "postgres") || has(low, "5432") {
            push_str(&mut r, "Database connection failed. Check that postgres container is healthy.");
            push_str(&mut r, "Verify POSTGRES_PASSWORD matches between services.");
            push_str(&mut r, "Run: docker logs hbec-postgres");
        }
        if has(low, "redis") || has(low, "6379") {
            push_str(&mut r, "Redis connection failed. Check that redis container is running.");
            push_str(&mut r, "Run: docker logs hbec-redis");
        }
    }
    assert(string_views(r@) =~= connection_suggestions(low@));
    r
}

fn migration_part(container: &str, low: &Vec<char>) -> (r: Vec<String>)
    ensures
        string_views(r@) == migration_suggestions(container@, low@),
{
    let mut r: Vec<String> = Vec::new();
    if (has(low, "migration") || has(low, "migrate")) && (has(low, "error") || has(low, "failed")) {
        push_str(&mut r, "Database migration failed. Try running migrations manually:");
        let mut s = String::from_str("  docker exec -it ");
        s.append(container);
        s.append(" python manage.py migrate");
        push_string(&mut r, s);
    }
    assert(string_views(r@) =~= migration_suggestions(container@, low@));
    r
}

fn runtime_part(low: &Vec<char>) -> (r: Vec<String>)
    ensures
        string_views(r@) == runtime_suggestions(low@),
{
    let mut r: Vec<String> = Vec::new();
    if has(low, "permission denied") || has(low, "eacces") {
        push_str(&mut r, "Permission error detected. Check file/directory permissions.");
        push_str(&mut r, "For volume mounts, ensure the container user has access.");
    }
    if has(low, "modulenotfounderror") || has(low, "importerror") {
        push_str(&mut r, "Python module not found. The image may need rebuilding.");
        push_str(&mut r, "Try: docker compose build --no-cache <service>");
    }
    if has(low, "out of memory") || has(low, "oom") || has(low, "killed") {
        push_str(&mut r, "Container was killed, possibly due to memory limits.");
        push_str(&mut r, "Increase memory limits in docker-compose.yml or VPS resources.");
    }
    assert(string_views(r@) =~= runtime_suggestions(low@));
    r
}

fn health_part(container: &str, health_low: &Vec<char>) -> (r: Vec<String>)
    ensures
        string_views(r@) == health_suggestions(container@, health_low@),
{
    let c = chars_of(container);
    let mut r: Vec<String> = Vec::new();
    if has(health_low, "unhealthy") {
        if has(&c, "backend") {
            push_str(&mut r, "Backend health check failing. Common causes:");
            push_str(&mut r, "  1. Application not started yet (check start_period in healthcheck)");
            push_str(&mut r, "  2. Database not ready when app started");
            push_str(&mut r, "  3. Missing environment variables");
            let mut s = String::from_str("Check detailed logs: docker logs ");
            s.append(container);
            s.append(" --tail 100");
            push_string(&mut r, s);
        }
        if has(&c, "frontend") {
            push_str(&mut r, "Frontend health check failing. Nginx may not be serving content.");
            push_str(&mut r, "Check if the build produced files in /usr/share/nginx/html");
        }
    }
    assert(string_views(r@) =~= health_suggestions(container@, health_low@));
    r
}

fn config_part(low: &Vec<char>) -> (r: Vec<String>)
    ensures
        string_views(r@) == config_suggestions(low@),
{
    let mut r: Vec<String> = Vec::new();
    if has(low, "keyerror") || has(low, "environment variable") || has(low, "not set") || has(low, "missing") {
        push_str(&mut r, "Missing environment variable. Check .env file on VPS:");
        push_str(&mut r, "  cat /home/administrator/hbec/.env");
    }
    if has(low, "jwt") || has(low, "token") || has(low, "secret") {
        push_str(&mut r, "JWT/Authentication error. Verify JWT keys and secrets:");
        push_str(&mut r, "  - Check JWT_SECRET in .env matches across services");
        push_str(&mut r, "  - Verify jwt_private.pem and jwt_public.pem exist in docker/keys/");
    }
    if has(low, "network") || has(low, "dns") || has(low, "resolve") {
        push_str(&mut r, "Network/DNS issue. Check Docker network configuration:");
        push_str(&mut r, "  docker network ls");
        push_str(&mut r, "  docker network inspect hbec_hbec-network");
    }
    assert(string_views(r@) =~= config_suggestions(low@));
    r
}

fn default_part(container: &str) -> (r: Vec<String>)
    ensures
        string_views(r@) == default_suggestions(container@),
{
    let mut r: Vec<String> = Vec::new();
    let mut s1 = String::from_str("Check full logs: docker logs ");
    s1.append(container);
    s1.append(" --tail 200");
    push_string(&mut r, s1);
    let mut s2 = String::from_str("Try restarting: docker compose restart ");
    proof {
        reveal_strlit("hbec-");
    }
    let short = replace_chars(&chars_of(container), &chars_of("hbec-"), &Vec::new());
    crate::text::push_chars(&mut s2, &short);
    push_string(&mut r, s2);
    push_str(&mut r, "Check container shell: docker exec -it <container> sh");
    assert(string_views(r@) =~= default_suggestions(container@));
    r
}

/// Suggestions for a failing container from its logs and status (see
/// `log_suggestions`).
pub fn analyze_logs_for_suggestions(container: &str, logs: &str, status: &ContainerStatus) -> (r: Vec<String>)
    ensures
        string_views(r@) == log_suggestions(container@, lowercase(logs@), lowercase(status.health@)),
{
    let low = chars_of(to_lowercase(logs).as_str());
    if has(&low, "password authentication failed") {
        return password_part(container, &low);
    }
    let health_low = chars_of(to_lowercase(status.health.as_str()).as_str());
    let mut r = connection_part(&low);
    append_strings(&mut r, migration_part(container, &low));
    append_strings(&mut r, runtime_part(&low));
    append_strings(&mut r, health_part(container, &health_low));
    append_strings(&mut r, config_part(&low));
    if r.len() == 0 {
        return default_part(container);
    }
    r
}


// ---------------------------------------------------------------------------
// Diagnosis of a project
// ---------------------------------------------------------------------------

/// The command that prints the last `n` lines of a container's logs.
pub open spec fn logs_command(container_name: Seq<char>, n: u32) -> Seq<char> {
    "docker logs --tail "@ + crate::text::decimal(n as nat) + " "@ + container_name + " 2>&1"@
}

/// The command that prints the last `lines` lines of a container's logs.
pub fn container_logs_command(container_name: &str, lines: u32) -> (r: String)
    ensures
        r@ == logs_command(container_name@, lines),
{
    let mut r = String::from_str("docker logs --tail ");
    crate::text::push_decimal(&mut r, lines as u64);
    r.append(" ");
    r.append(container_name);
    r.append(" 2>&1");
    r
}

/// The positions of the failing containers, in order.
pub open spec fn failing_positions(s: Seq<ContainerStatus>) -> Seq<int>
    decreases s.len(),
{
    if s.len() == 0 {
        Seq::empty()
    } else if is_failing(s.last()) {
        failing_positions(s.drop_last()).push(s.len() - 1)
    } else {
        failing_positions(s.drop_last())
    }
}

/// The diagnosis of a failing container with logs `logs`.
pub open spec fn diagnosis_of(d: DiagnosticResult, s: ContainerStatus, logs: Seq<char>) -> bool {
    &&& d.container@ == s.name@
    &&& d.issue@ == issue_of(s)
    &&& d.logs@ == logs
    &&& string_views(d.suggestions@) == log_suggestions(s.name@, lowercase(logs), lowercase(s.health@))
}

proof fn lemma_failing_positions_bound(s: Seq<ContainerStatus>)
    ensures
        forall|k: int| 0 <= k < failing_positions(s).len() ==> 0 <= #[trigger] failing_positions(s)[k] < s.len(),
    decreases s.len(),
{
    if s.len() > 0 {
        lemma_failing_positions_bound(s.drop_last());
        let p0 = failing_positions(s.drop_last());
        assert forall|k: int| 0 <= k < failing_positions(s).len() implies 0 <= #[trigger] failing_positions(s)[k]
            < s.len() by {
            if k < p0.len() {
                assert(failing_positions(s)[k] == p0[k]);
            }
        }
    }
}

/// The failing containers of a listing (unhealthy, exited or restarting),
/// in their order.
pub open spec fn failing_of(s: Seq<ContainerStatus>) -> Seq<ContainerStatus> {
    s.filter(|c: ContainerStatus| is_failing(c))
}

/// The positions of the failing containers pick out exactly the failing
/// containers, in order.
pub proof fn lemma_failing_positions_filter(s: Seq<ContainerStatus>)
    ensures
        failing_positions(s).len() == failing_of(s).len(),
        forall|k: int|
            0 <= k < failing_positions(s).len() ==> s[#[trigger] failing_positions(s)[k]] == failing_of(s)[k],
    decreases s.len(),
{
    reveal(Seq::filter);
    if s.len() > 0 {
        let t = s.drop_last();
        lemma_failing_positions_filter(t);
        lemma_failing_positions_bound(t);
        let p0 = failing_positions(t);
        assert(failing_of(s) == (if is_failing(s.last()) {
            failing_of(t).push(s.last())
        } else {
            failing_of(t)
        }));
        assert forall|k: int| 0 <= k < failing_positions(s).len() implies s[#[trigger] failing_positions(s)[k]]
            == failing_of(s)[k] by {
            if k < p0.len() {
                assert(failing_positions(s)[k] == p0[k]);
                assert(s[p0[k]] == t[p0[k]]);
            }
        }
    }
}

/// The diagnosis of one failing container, given its logs.
pub fn diagnose_container(s: &ContainerStatus, logs: String) -> (r: DiagnosticResult)
    ensures
        diagnosis_of(r, *s, logs@),
{
    let issue = issue_text(s);
    let suggestions = analyze_logs_for_suggestions(s.name.as_str(), logs.as_str(), s);
    DiagnosticResult { container: s.name.clone(), issue, logs, suggestions }
}

/// The diagnoses of the failing containers (unhealthy, exited or
/// restarting), in order; `logs[i]` holds the logs of `statuses[i]`.
pub fn diagnose_failures(statuses: &Vec<ContainerStatus>, logs: &Vec<String>) -> (r: Vec<DiagnosticResult>)
    requires
        logs@.len() == statuses@.len(),
    ensures
        r@.len() == failing_positions(statuses@).len(),
        forall|k: int|
            0 <= k < r@.len() ==> diagnosis_of(
                #[trigger] r@[k],
                statuses@[failing_positions(statuses@)[k]],
                logs@[failing_positions(statuses@)[k]]@,
            ),
        r@.len() == failing_of(statuses@).len(),
        forall|k: int| 0 <= k < r@.len() ==> (#[trigger] r@[k]).container@ == failing_of(statuses@)[k].name@,
{
    proof {
        lemma_failing_positions_filter(statuses@);
    }
    let mut r: Vec<DiagnosticResult> = Vec::new();
    let mut i: usize = 0;
    while i < statuses.len()
        invariant
            logs@.len() == statuses@.len(),
            i <= statuses@.len(),
            r@.len() == failing_positions(statuses@.subrange(0, i as int)).len(),
            forall|k: int|
                0 <= k < r@.len() ==> diagnosis_of(
                    #[trigger] r@[k],
                    statuses@[failing_positions(statuses@.subrange(0, i as int))[k]],
                    logs@[failing_positions(statuses@.subrange(0, i as int))[k]]@,
                ),
        decreases statuses@.len() - i,
    {
        let ghost pre = statuses@.subrange(0, i as int);
        let ghost next = statuses@.subrange(0, i + 1);
        proof {
            assert(next.drop_last() =~= pre);
            assert(next.last() == statuses@[i as int]);
            lemma_failing_positions_bound(pre);
        }
        if needs_diagnosis(&statuses[i]) {
            let d = diagnose_container(&statuses[i], logs[i].clone());
            r.push(d);
        }
        i = i + 1;
    }
    assert(statuses@.subrange(0, statuses@.len() as int) =~= statuses@);
    r
}

/// How many containers satisfy `healthy` (or, for `false`, are failing).
pub open spec fn count_where(s: Seq<ContainerStatus>, healthy: bool) -> nat
    decreases s.len(),
{
    if s.len() == 0 {
        0
    } else {
        count_where(s.drop_last(), healthy) + if (if healthy { is_healthy(s.last()) } else { is_failing(s.last()) }) {
            1nat
        } else {
            0nat
        }
    }
}

proof fn lemma_count_where_bound(s: Seq<ContainerStatus>, healthy: bool)
    ensures
        count_where(s, healthy) <= s.len(),
    decreases s.len(),
{
    if s.len() > 0 {
        lemma_count_where_bound(s.drop_last(), healthy);
    }
}

/// The numbers of healthy and of failing containers; the project is healthy
/// when the second is zero.
pub fn health_summary(statuses: &Vec<ContainerStatus>) -> (r: (usize, usize))
    ensures
        r.0 == count_where(statuses@, true),
        r.1 == count_where(statuses@, false),
{
    let mut healthy: usize = 0;
    let mut failing: usize = 0;
    let mut i: usize = 0;
    while i < statuses.len()
        invariant
            i <= statuses@.len(),
            healthy == count_where(statuses@.subrange(0, i as int), true),
            failing == count_where(statuses@.subrange(0, i as int), false),
        decreases statuses@.len() - i,
    {
        let ghost next = statuses@.subrange(0, i + 1);
        proof {
            assert(next.drop_last() =~= statuses@.subrange(0, i as int));
            lemma_count_where_bound(statuses@.subrange(0, i as int), true);
            lemma_count_where_bound(statuses@.subrange(0, i as int), false);
        }
        if counts_as_healthy(&statuses[i]) {
            healthy = healthy + 1;
        }
        if needs_diagnosis(&statuses[i]) {
            failing = failing + 1;
        }
        i = i + 1;
    }
    assert(statuses@.subrange(0, statuses@.len() as int) =~= statuses@);
    (healthy, failing)
}

// ---------------------------------------------------------------------------
// Fixes
// ---------------------------------------------------------------------------

/// Some diagnosed container reports a database password mismatch.
pub open spec fn password_issue(results: Seq<DiagnosticResult>) -> bool {
    exists|i: int| 0 <= i < results.len() && contains(lowercase(results[i].logs@), "password authentication failed"@)
}

/// Whether some diagnosed container reports a database password mismatch
/// (which needs manual intervention).
pub fn has_password_issue(results: &Vec<DiagnosticResult>) -> (r: bool)
    ensures
        r == password_issue(results@),
{
    let mut i: usize = 0;
    while i < results.len()
        invariant
            i <= results@.len(),
            forall|j: int|
                0 <= j < i ==> !contains(lowercase(#[trigger] results@[j].logs@), "password authentication failed"@),
        decreases results@.len() - i,
    {
        if lower_contains(&results[i].logs, "password authentication failed") {
            return true;
        }
        i = i + 1;
    }
    false
}

/// The service of a container: its name without `hbec-`.
pub open spec fn service_of(container: Seq<char>) -> Seq<char> {
    replace_all(container, "hbec-"@, Seq::empty())
}

/// The services to restart: those of unhealthy containers whose logs do not
/// mention `error`.
pub open spec fn restart_services(results: Seq<DiagnosticResult>) -> Seq<Seq<char>>
    decreases results.len(),
{
    if results.len() == 0 {
        Seq::empty()
    } else {
        let d = results.last();
        if contains(d.issue@, "unhealthy"@) && !contains(d.logs@, "error"@) {
            restart_services(results.drop_last()).push(service_of(d.container@))
        } else {
            restart_services(results.drop_last())
        }
    }
}

/// The services to try restarting.
pub fn services_to_restart(results: &Vec<DiagnosticResult>) -> (r: Vec<String>)
    ensures
        string_views(r@) == restart_services(results@),
{
    proof {
        reveal_strlit("hbec-");
    }
    let pat = chars_of("hbec-");
    let mut r: Vec<String> = Vec::new();
    let mut i: usize = 0;
    while i < results.len()
        invariant
            pat@ == "hbec-"@,
            pat@.len() == 5,
            i <= results@.len(),
            string_views(r@) == restart_services(results@.subrange(0, i as int)),
        decreases results@.len() - i,
    {
        let ghost next = results@.subrange(0, i + 1);
        proof {
            assert(next.drop_last() =~= results@.subrange(0, i as int));
        }
        let d = &results[i];
        if str_contains(d.issue.as_str(), "unhealthy") && !str_contains(d.logs.as_str(), "error") {
            let name = replace_chars(&chars_of(d.container.as_str()), &pat, &Vec::new());
            push_string(&mut r, string_of(&name));
        }
        i = i + 1;
    }
    assert(results@.subrange(0, results@.len() as int) =~= results@);
    r
}

/// The value of a line `KEY=value` (trimmed, then without surrounding
/// double and single quotes) when the trimmed line starts with `key` and
/// holds `=`.
pub open spec fn env_line_value(line: Seq<char>, key: Seq<char>) -> Option<Seq<char>> {
    let t = trim(line);
    match first_index_of(t, '=') {
        Some(i) => if starts_with(t, key) {
            Some(trim_both(trim_both(trim(t.subrange(i + 1, t.len() as int)), Some('"')), Some('\'')))
        } else {
            None
        },
        None => None,
    }
}

/// The value of the first line of `ls` that sets `key`.
pub open spec fn env_value(ls: Seq<Seq<char>>, key: Seq<char>) -> Option<Seq<char>>
    decreases ls.len(),
{
    if ls.len() == 0 {
        None
    } else {
        match env_line_value(ls[0], key) {
            Some(v) => Some(v),
            None => env_value(ls.drop_first(), key),
        }
    }
}

/// The value given to `key` in `.env` content (the first line that starts
/// with `key` and holds `=`).
pub fn extract_env_value(content: &str, key: &str) -> (r: Option<String>)
    ensures
        (match env_value(lines(content@), key@) {
            Some(v) => r matches Some(x) && x@ == v,
            None => r is None,
        }),
{
    let ls = split_lines(&chars_of(content));
    let k = chars_of(key);
    let ghost all = lines(content@);
    let mut i: usize = 0;
    assert(all.subrange(0, all.len() as int) =~= all);
    while i < ls.len()
        invariant
            views(ls@) == all,
            all == lines(content@),
            k@ == key@,
            i <= ls@.len(),
            env_value(all, key@) == env_value(all.subrange(i as int, all.len() as int), key@),
        decreases ls@.len() - i,
    {
        let ghost rest = all.subrange(i as int, all.len() as int);
        proof {
            assert(rest[0] == ls@[i as int]@);
            assert(rest.drop_first() =~= all.subrange(i + 1, all.len() as int));
        }
        let t = trim_chars(&ls[i], None);
        if starts_with_chars(&t, &k) {
            match find_char(&t, '=') {
                Some(eq) => {
                    let after = slice_chars(&t, eq + 1, t.len());
                    let v1 = trim_chars(&after, None);
                    let v2 = trim_chars(&v1, Some('"'));
                    let v3 = trim_chars(&v2, Some('\''));
                    proof {
                        assert(t@ == trim(rest[0]));
                        assert(first_index_of(t@, '=') == Some(eq as int));
                        assert(env_line_value(rest[0], key@) == Some(v3@));
                        assert(rest.len() > 0);
                        assert(env_value(rest, key@) == Some(v3@));
                    }
                    return Some(string_of(&v3));
                },
                None => {},
            }
        }
        i = i + 1;
    }
    None
}

/// A password for a single-quoted SQL string: quotes doubled.
pub fn escape_sql_password(password: &str) -> (r: String)
    ensures
        r@ == replace_all(password@, "'"@, "''"@),
        replace_all(r@, "''"@, "'"@) == password@,
{
    proof {
        reveal_strlit("'");
        lemma_escaped_password_restores(password@);
    }
    let v = replace_chars(&chars_of(password), &chars_of("'"), &chars_of("''"));
    string_of(&v)
}

proof fn lemma_undo_quote_doubling(p: Seq<char>)
    ensures
        replace_all(replace_all(p, seq!['\''], seq!['\'', '\'']), seq!['\'', '\''], seq!['\'']) == p,
    decreases p.len(),
{
    let q = seq!['\''];
    let qq = seq!['\'', '\''];
    if p.len() > 0 {
        let rest = p.drop_first();
        lemma_undo_quote_doubling(rest);
        let e_rest = replace_all(rest, q, qq);
        assert(p.subrange(1, p.len() as int) =~= rest);
        if p[0] == '\'' {
            assert(p.subrange(0, 1) =~= q);
            let e = qq + e_rest;
            assert(replace_all(p, q, qq) == e);
            assert(e.subrange(0, 2) =~= qq);
            assert(e.subrange(2, e.len() as int) =~= e_rest);
            assert(replace_all(e, qq, q) == q + rest);
            assert(q + rest =~= p);
        } else {
            assert(p.subrange(0, 1) != q) by {
                assert(p.subrange(0, 1)[0] == p[0]);
            }
            let e = seq![p[0]] + e_rest;
            assert(replace_all(p, q, qq) == e);
            if e.len() >= 2 {
                assert(e.subrange(0, 2)[0] == p[0]);
                assert(e.subrange(0, 2) != qq);
                assert(e.drop_first() =~= e_rest);
                assert(e[0] == p[0]);
            } else {
                assert(e_rest.len() == 0);
                assert(replace_all(e_rest, qq, q) == e_rest);
            }
            assert(seq![p[0]] + rest =~= p);
        }
    }
}

/// Turning every `''` of an escaped password back into `'` gives the
/// password back.
pub proof fn lemma_escaped_password_restores(password: Seq<char>)
    ensures
        replace_all(replace_all(password, "'"@, "''"@), "''"@, "'"@) == password,
{
    reveal_strlit("'");
    reveal_strlit("''");
    assert("'"@ =~= seq!['\'']);
    assert("''"@ =~= seq!['\'', '\'']);
    lemma_undo_quote_doubling(password);
}

/// An argument for a double-quoted shell string: backslash, double quote,
/// dollar and backquote escaped with a backslash, in that order.
pub open spec fn shell_escaped(arg: Seq<char>) -> Seq<char> {
    replace_all(
        replace_all(replace_all(replace_all(arg, "\\"@, "\\\\"@), "\""@, "\\\""@), "$"@, "\\$"@),
        "`"@,
        "\\`"@,
    )
}

/// An argument for a double-quoted shell string.
pub fn escape_shell_arg(arg: &str) -> (r: String)
    ensures
        r@ == shell_escaped(arg@),
{
    proof {
        reveal_strlit("\\");
        reveal_strlit("\"");
        reveal_strlit("$");
        reveal_strlit("`");
    }
    let a = replace_chars(&chars_of(arg), &chars_of("\\"), &chars_of("\\\\"));
    let b = replace_chars(&a, &chars_of("\""), &chars_of("\\\""));
    let c = replace_chars(&b, &chars_of("$"), &chars_of("\\$"));
    let d = replace_chars(&c, &chars_of("`"), &chars_of("\\`"));
    string_of(&d)
}

/// The command that sets a database user's password inside its container,
/// the password escaped for SQL and then for the shell.
pub open spec fn password_command(db_container: Seq<char>, user: Seq<char>, password: Seq<char>) -> Seq<char> {
    "docker exec "@ + db_container + " psql -U "@ + user + " -c \"ALTER USER "@ + user + " WITH PASSWORD '"@
        + shell_escaped(replace_all(password, "'"@, "''"@)) + "';\""@
}

/// The command that sets a database user's password inside its container.
pub fn password_fix_command(db_container: &str, user: &str, password: &str) -> (r: String)
    ensures
        r@ == password_command(db_container@, user@, password@),
{
    let sql = escape_sql_password(password);
    let shell = escape_shell_arg(sql.as_str());
    let mut r = String::from_str("docker exec ");
    r.append(db_container);
    r.append(" psql -U ");
    r.append(user);
    r.append(" -c \"ALTER USER ");
    r.append(user);
    r.append(" WITH PASSWORD '");
    r.append(shell.as_str());
    r.append("';\"");
    r
}

} // verus!
