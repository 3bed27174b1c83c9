//! Deploying a compose project to a server from the command line: the
//! `.env` file, required files, registries, custom images and their build
//! contexts, and the remote commands.
use vstd::prelude::*;
use vstd::string::*;
use crate::caddy::{indent_of, is_indent_two, starts_service};
use crate::env_validator::{env_map, keys_unique, pairs_map, read_env_file};
use crate::text::{chars_of, contains, contains_chars, ends_with, ends_with_chars, find_char, find_first, first_index_of, first_occurrence, lines, lowercase, push_string, replace_all, replace_chars, slice_chars, split_lines, starts_with, starts_with_chars, str_contains, str_eq, string_of, string_views, to_lowercase, trim, trim_chars, trim_end, trim_end_chars, trim_start, trim_start_chars, views};

verus! {

// ---------------------------------------------------------------------------
// Remote commands
// ---------------------------------------------------------------------------

/// A text inside single quotes of a shell command: each `'` becomes `'\''`.
pub open spec fn single_quoted(s: Seq<char>) -> Seq<char> {
    replace_all(s, "'"@, "'\\''"@)
}

fn quote_single(s: &str) -> (r: String)
    ensures
        r@ == single_quoted(s@),
{
    proof {
        reveal_strlit("'");
    }
    string_of(&replace_chars(&chars_of(s), &chars_of("'"), &chars_of("'\\''")))
}

/// The command that runs `command` as root on the server, the sudo password
/// fed to `sudo -S` (the caller sends it over SSH).
pub fn execute_sudo_command(sudo_password: &str, command: &str) -> (r: String)
    ensures
        r@ == "echo '"@ + single_quoted(sudo_password@) + "' | sudo -S bash -c '"@ + single_quoted(command@) + "'"@,
{
    let mut r = String::from_str("echo '");
    r.append(quote_single(sudo_password).as_str());
    r.append("' | sudo -S bash -c '");
    r.append(quote_single(command).as_str());
    r.append("'");
    r
}

/// The directory of a project on the server: `/home/<user>/<project>`.
pub fn remote_project_dir(user: &str, project_name: &str) -> (r: String)
    ensures
        r@ == "/home/"@ + user@ + "/"@ + project_name@,
{
    let mut r = String::from_str("/home/");
    r.append(user);
    r.append("/");
    r.append(project_name);
    r
}

/// The commands that replace a single container on the server with one
/// running `image`, in order.
pub fn deploy_to_vps(image: &str, container_name: &str) -> (r: Vec<String>)
    ensures
        string_views(r@) == seq![
            "docker pull "@ + image@,
            "docker stop "@ + container_name@ + " || true"@,
            "docker rm "@ + container_name@ + " || true"@,
            "docker run -d --name "@ + container_name@ + " "@ + image@ + " "@,
        ],
{
    let mut r: Vec<String> = Vec::new();
    let mut a = String::from_str("docker pull ");
    a.append(image);
    push_string(&mut r, a);
    let mut b = String::from_str("docker stop ");
    b.append(container_name);
    b.append(" || true");
    push_string(&mut r, b);
    let mut c = String::from_str("docker rm ");
    c.append(container_name);
    c.append(" || true");
    push_string(&mut r, c);
    let mut d = String::from_str("docker run -d --name ");
    d.append(container_name);
    d.append(" ");
    d.append(image);
    d.append(" ");
    push_string(&mut r, d);
    assert(string_views(r@) =~= seq![
        "docker pull "@ + image@,
        "docker stop "@ + container_name@ + " || true"@,
        "docker rm "@ + container_name@ + " || true"@,
        "docker run -d --name "@ + container_name@ + " "@ + image@ + " "@,
    ]);
    r
}

/// The site file of the single-domain setup: the service `app` of the
/// project `default`, exposed on `domain` and proxied to `-app:<port>`.
pub fn setup_caddy_proxy(domain: &str, port: u16) -> (r: String)
    ensures
        r@ == crate::caddy::caddyfile_header("default"@) + domain@ + " {\n"@ + "    reverse_proxy "@ + "-"@ + "app"@
            + ":"@ + crate::text::decimal(port as nat) + "\n"@ + "}\n\n"@,
{
    let mut services: Vec<crate::config::ServiceConfig> = Vec::new();
    services.push(
        crate::config::ServiceConfig {
            name: String::from_str("app"),
            domain: Some(String::from_str(domain)),
            port,
            path: None,
            expose: true,
        },
    );
    let r = crate::caddy::generate_caddyfile("default", &services, "");
    proof {
        reveal_strlit("");
        let ss = services@;
        assert(ss.drop_last() =~= Seq::<crate::config::ServiceConfig>::empty());
        assert(crate::caddy::site_blocks(ss.drop_last(), ""@) == Seq::<char>::empty());
        assert(ss.last() == ss[0]);
        assert(crate::caddy::site_blocks(ss, ""@) =~= crate::caddy::site_block(ss[0], ""@));
        assert(""@ + "-"@ =~= "-"@);
    }
    r
}

// ---------------------------------------------------------------------------
// The .env file
// ---------------------------------------------------------------------------

/// The `${NAME:?hint}` references of a compose file, as the pattern
/// `\$\{([A-Z_][A-Z0-9_]*):(\?[^}]*)\}` of the regex crate captures them
/// (name, and `?hint`), in order.
pub uninterp spec fn required_references(compose: Seq<char>) -> Seq<(Seq<char>, Seq<char>)>;

/// Runs the pattern `\$\{([A-Z_][A-Z0-9_]*):(\?[^}]*)\}` (regex crate,
/// `captures_iter`) on a compose file and returns both groups of each match.
/// The contract names the result.
#[verifier::external_body]
fn find_required_references(compose: &str) -> (r: Vec<(String, String)>)
    ensures
        r@.map_values(|p: (String, String)| (p.0@, p.1@)) == required_references(compose@),
{
    let re = match regex::Regex::new(r"\$\{([A-Z_][A-Z0-9_]*):(\?[^}]*)\}") {
        Ok(re) => re,
        Err(_) => return Vec::new(),
    };
    re.captures_iter(compose).map(|c| (c[1].to_string(), c[2].to_string())).collect()
}

/// The required variables: each referenced name once (its first hint, the
/// leading `?`s removed), in order.
pub open spec fn required_vars(refs: Seq<(Seq<char>, Seq<char>)>) -> Seq<(Seq<char>, Seq<char>)>
    decreases refs.len(),
{
    if refs.len() == 0 {
        Seq::empty()
    } else {
        let rest = required_vars(refs.drop_last());
        let (name, hint) = refs.last();
        if exists|i: int| 0 <= i < rest.len() && rest[i].0 == name {
            rest
        } else {
            rest.push((name, trim_start(hint, Some('?'))))
        }
    }
}

/// Pairs of strings as plain values.
pub open spec fn pair_views(v: Seq<(String, String)>) -> Seq<(Seq<char>, Seq<char>)> {
    v.map_values(|p: (String, String)| (p.0@, p.1@))
}

/// The variables a compose file requires (`${NAME:?hint}`), each once with
/// its hint, in order.
pub fn parse_required_env_vars(compose_content: &str) -> (r: Vec<(String, String)>)
    ensures
        pair_views(r@) == required_vars(required_references(compose_content@)),
{
    let refs = find_required_references(compose_content);
    let ghost rv = pair_views(refs@);
    let mut r: Vec<(String, String)> = Vec::new();
    let mut i: usize = 0;
    while i < refs.len()
        invariant
            rv == pair_views(refs@),
            rv == required_references(compose_content@),
            i <= refs@.len(),
            pair_views(r@) == required_vars(rv.subrange(0, i as int)),
        decreases refs@.len() - i,
    {
        let ghost next = rv.subrange(0, i + 1);
        proof {
            assert(next.drop_last() =~= rv.subrange(0, i as int));
            assert(next.last() == rv[i as int]);
        }
        let name = &refs[i].0;
        let mut seen = false;
        let mut j: usize = 0;
        while j < r.len()
            invariant
                j <= r@.len(),
                seen == exists|k: int| 0 <= k < j && r@[k].0@ == name@,
            decreases r@.len() - j,
        {
            if str_eq(r[j].0.as_str(), name.as_str()) {
                seen = true;
            }
            j = j + 1;
        }
        proof {
            let pv = pair_views(r@);
            if seen {
                let k = choose|k: int| 0 <= k < j && r@[k].0@ == name@;
                assert(pv[k].0 == name@);
            } else {
                assert forall|k: int| 0 <= k < pv.len() implies pv[k].0 != name@ by {
                    assert(pv[k].0 == r@[k].0@);
                }
            }
        }
        if !seen {
            let hint = string_of(&trim_start_chars(&chars_of(refs[i].1.as_str()), Some('?')));
            let ghost r0 = r@;
            r.push((name.clone(), hint));
            assert(pair_views(r@) =~= pair_views(r0).push((name@, hint@)));
        }
        i = i + 1;
    }
    assert(rv.subrange(0, rv.len() as int) =~= rv);
    r
}

/// The variables an `.env` file sets (see `read_env_file`).
pub fn parse_env_file(content: &str) -> (r: Vec<(String, String)>)
    ensures
        keys_unique(r@),
        pairs_map(r@) == env_map(lines(content@)),
{
    read_env_file(content)
}

/// The `.env` file used: `.env` when it exists, else `.env.production`
/// when that exists, else `.env`.
pub fn env_file_choice(env_exists: bool, production_exists: bool) -> (r: String)
    ensures
        r@ == (if env_exists {
            ".env"@
        } else if production_exists {
            ".env.production"@
        } else {
            ".env"@
        }),
{
    if env_exists {
        String::from_str(".env")
    } else if production_exists {
        String::from_str(".env.production")
    } else {
        String::from_str(".env")
    }
}

/// The required variables that are not set, or set to the empty text.
pub open spec fn missing_vars(
    required: Seq<(Seq<char>, Seq<char>)>,
    env: Map<Seq<char>, Seq<char>>,
) -> Seq<(Seq<char>, Seq<char>)>
    decreases required.len(),
{
    if required.len() == 0 {
        Seq::empty()
    } else {
        let rest = missing_vars(required.drop_last(), env);
        let (name, hint) = required.last();
        if !env.contains_key(name) || env[name].len() == 0 {
            rest.push((name, hint))
        } else {
            rest
        }
    }
}

/// The required variables (with their hints) that the `.env` file does not
/// set, or sets to the empty text, in order.
pub fn missing_env_vars(required: &Vec<(String, String)>, env: &Vec<(String, String)>) -> (r: Vec<(String, String)>)
    requires
        keys_unique(env@),
    ensures
        pair_views(r@) == missing_vars(pair_views(required@), pairs_map(env@)),
{
    let ghost req = pair_views(required@);
    let mut r: Vec<(String, String)> = Vec::new();
    let mut i: usize = 0;
    while i < required.len()
        invariant
            req == pair_views(required@),
            keys_unique(env@),
            i <= required@.len(),
            pair_views(r@) == missing_vars(req.subrange(0, i as int), pairs_map(env@)),
        decreases required@.len() - i,
    {
        let ghost next = req.subrange(0, i + 1);
        proof {
            assert(next.drop_last() =~= req.subrange(0, i as int));
            assert(next.last() == req[i as int]);
        }
        let missing = match crate::env_validator::env_get(env, required[i].0.as_str()) {
            None => true,
            Some(v) => v.as_str().unicode_len() == 0,
        };
        if missing {
            let ghost r0 = r@;
            r.push((required[i].0.clone(), required[i].1.clone()));
            assert(pair_views(r@) =~= pair_views(r0).push(req[i as int]));
        }
        i = i + 1;
    }
    assert(req.subrange(0, req.len() as int) =~= req);
    r
}

/// A variable's value is asked for hidden: its lowercased name mentions a
/// password, secret, key or token.
pub fn is_sensitive_var(name: &str) -> (r: bool)
    ensures
        r == (contains(lowercase(name@), "password"@) || contains(lowercase(name@), "secret"@) || contains(
            lowercase(name@),
            "key"@,
        ) || contains(lowercase(name@), "token"@)),
{
    let l = to_lowercase(name);
    str_contains(l.as_str(), "password") || str_contains(l.as_str(), "secret") || str_contains(l.as_str(), "key")
        || str_contains(l.as_str(), "token")
}

/// The prompt for a variable: its name, with the hint in parentheses when
/// there is one.
pub fn var_prompt(name: &str, hint: &str) -> (r: String)
    ensures
        r@ == (if hint@.len() == 0 {
            name@
        } else {
            name@ + " ("@ + hint@ + ")"@
        }),
{
    let mut r = String::from_str(name);
    if hint.unicode_len() > 0 {
        r.append(" (");
        r.append(hint);
        r.append(")");
    }
    r
}

/// The line that sets a variable: the value in double quotes when it holds
/// a space, `$` or `#`.
pub open spec fn assignment(key: Seq<char>, value: Seq<char>) -> Seq<char> {
    if contains(value, " "@) || contains(value, "$"@) || contains(value, "#"@) {
        key + "=\""@ + value + "\"\n"@
    } else {
        key + "="@ + value + "\n"@
    }
}

fn push_assignment(out: &mut String, key: &str, value: &str)
    ensures
        final(out)@ == old(out)@ + assignment(key@, value@),
{
    if str_contains(value, " ") || str_contains(value, "$") || str_contains(value, "#") {
        out.append(key);
        out.append("=\"");
        out.append(value);
        out.append("\"\n");
    } else {
        out.append(key);
        out.append("=");
        out.append(value);
        out.append("\n");
    }
}

/// The value of `key` among the pairs, if any.
pub open spec fn assoc_get(v: Seq<(Seq<char>, Seq<char>)>, key: Seq<char>) -> Option<int> {
    if exists|i: int| 0 <= i < v.len() && v[i].0 == key {
        Some(choose|i: int| 0 <= i < v.len() && v[i].0 == key)
    } else {
        None
    }
}

/// No key occurs twice among the pairs.
pub open spec fn assoc_unique(v: Seq<(Seq<char>, Seq<char>)>) -> bool {
    forall|i: int, j: int| 0 <= i < j < v.len() ==> v[i].0 != v[j].0
}

/// The rewriter's state after some lines: the text so far and the
/// variables not yet written.
pub open spec fn rewrite_lines(ls: Seq<Seq<char>>, vars: Seq<(Seq<char>, Seq<char>)>) -> (Seq<char>, Seq<
    (Seq<char>, Seq<char>),
>)
    decreases ls.len(),
{
    if ls.len() == 0 {
        (Seq::empty(), vars)
    } else {
        let (out, left) = rewrite_lines(ls.drop_last(), vars);
        let line = ls.last();
        let t = trim(line);
        if t.len() == 0 || t[0] == '#' {
            (out + line + "\n"@, left)
        } else {
            match first_index_of(t, '=') {
                Some(eq) => {
                    let key = trim(t.subrange(0, eq));
                    match assoc_get(left, key) {
                        Some(k) => (out + assignment(key, left[k].1), left.remove(k)),
                        None => (out + line + "\n"@, left),
                    }
                },
                None => (out, left),
            }
        }
    }
}

/// The assignments of the pairs, in order.
pub open spec fn assignments(v: Seq<(Seq<char>, Seq<char>)>) -> Seq<char>
    decreases v.len(),
{
    if v.len() == 0 {
        Seq::empty()
    } else {
        assignments(v.drop_last()) + assignment(v.last().0, v.last().1)
    }
}

/// The rewritten `.env` file: comments and blank lines kept; a line that
/// sets a variable of `vars` set to its value (the first such line only);
/// other lines with `=` kept; lines without `=` dropped; then the variables
/// not met, under `# Added by Shipwright`.
pub open spec fn rewritten_env(original: Seq<char>, vars: Seq<(Seq<char>, Seq<char>)>) -> Seq<char> {
    let (out, left) = rewrite_lines(lines(original), vars);
    if left.len() == 0 {
        out
    } else {
        out + "\n# Added by Shipwright\n"@ + assignments(left)
    }
}

fn assoc_find(v: &Vec<(String, String)>, key: &Vec<char>) -> (r: Option<usize>)
    requires
        assoc_unique(pair_views(v@)),
    ensures
        (match r {
            Some(i) => assoc_get(pair_views(v@), key@) == Some(i as int),
            None => assoc_get(pair_views(v@), key@) is None,
        }),
{
    let ghost pv = pair_views(v@);
    let mut i: usize = 0;
    while i < v.len()
        invariant
            pv == pair_views(v@),
            assoc_unique(pv),
            i <= v@.len(),
            forall|j: int| 0 <= j < i ==> pv[j].0 != key@,
        decreases v@.len() - i,
    {
        if crate::text::eq_chars(&chars_of(v[i].0.as_str()), key) {
            proof {
                assert(pv[i as int].0 == key@);
                let w = choose|k: int| 0 <= k < pv.len() && pv[k].0 == key@;
                if w != i {
                    assert(pv[w].0 == pv[i as int].0);
                }
            }
            return Some(i);
        }
        i = i + 1;
    }
    None
}

/// The `.env` file rewritten with the values of `vars` (see
/// `rewritten_env`); `vars` sets each variable once.
pub fn rewrite_env_file(original: &str, vars: Vec<(String, String)>) -> (r: String)
    requires
        assoc_unique(pair_views(vars@)),
    ensures
        r@ == rewritten_env(original@, pair_views(vars@)),
{
    let ls = split_lines(&chars_of(original));
    let ghost all = lines(original@);
    let ghost v0 = pair_views(vars@);
    let mut left = vars;
    let mut out = String::new();
    let mut i: usize = 0;
    assert(all.subrange(0, 0) =~= Seq::<Seq<char>>::empty());
    while i < ls.len()
        invariant
            views(ls@) == all,
            all == lines(original@),
            i <= ls@.len(),
            assoc_unique(pair_views(left@)),
            (out@, pair_views(left@)) == rewrite_lines(all.subrange(0, i as int), v0),
        decreases ls@.len() - i,
    {
        let ghost next = all.subrange(0, i + 1);
        proof {
            assert(next.drop_last() =~= all.subrange(0, i as int));
            assert(next.last() == ls@[i as int]@);
        }
        let line = &ls[i];
        let t = trim_chars(line, None);
        if t.len() == 0 || t[0] == '#' {
            crate::text::push_chars(&mut out, line);
            out.append("\n");
        } else {
            match find_char(&t, '=') {
                Some(eq) => {
                    let key = trim_chars(&slice_chars(&t, 0, eq), None);
                    match assoc_find(&left, &key) {
                        Some(k) => {
                            let ghost l0 = pair_views(left@);
                            let (kname, kval) = left.remove(k);
                            let ks = string_of(&key);
                            push_assignment(&mut out, ks.as_str(), kval.as_str());
                            proof {
                                assert(pair_views(left@) =~= l0.remove(k as int));
                                assert forall|a: int, b: int|
                                    0 <= a < b < pair_views(left@).len() implies pair_views(left@)[a].0
                                    != pair_views(left@)[b].0 by {
                                    let x = if a < k { a } else { a + 1 };
                                    let y = if b < k { b } else { b + 1 };
                                    assert(pair_views(left@)[a] == l0[x]);
                                    assert(pair_views(left@)[b] == l0[y]);
                                }
                            }
                        },
                        None => {
                            crate::text::push_chars(&mut out, line);
                            out.append("\n");
                        },
                    }
                },
                None => {},
            }
        }
        i = i + 1;
    }
    assert(all.subrange(0, all.len() as int) =~= all);
    if left.len() > 0 {
        out.append("\n# Added by Shipwright\n");
        let ghost head = out@;
        let ghost lv = pair_views(left@);
        let mut j: usize = 0;
        while j < left.len()
            invariant
                lv == pair_views(left@),
                j <= left@.len(),
                out@ == head + assignments(lv.subrange(0, j as int)),
            decreases left@.len() - j,
        {
            let ghost nx = lv.subrange(0, j + 1);
            proof {
                assert(nx.drop_last() =~= lv.subrange(0, j as int));
                assert(nx.last() == lv[j as int]);
            }
            push_assignment(&mut out, left[j].0.as_str(), left[j].1.as_str());
            assert(out@ =~= head + assignments(nx));
            j = j + 1;
        }
        assert(lv.subrange(0, lv.len() as int) =~= lv);
    }
    out
}

// ---------------------------------------------------------------------------
// Files the services mount
// ---------------------------------------------------------------------------

/// The files a deployment cannot do without, each with its description.
pub open spec fn critical_files() -> Seq<(Seq<char>, Seq<char>)> {
    seq![
        ("docker/keys/jwt_private.pem"@, "JWT private key for authentication"@),
        ("docker/keys/jwt_public.pem"@, "JWT public key for authentication"@),
        ("docker/init-db.sql"@, "Database initialization script"@),
    ]
}

/// The local paths of the critical files, in the order `missing_critical_files`
/// takes their presence.
pub fn critical_file_paths() -> (r: Vec<String>)
    ensures
        string_views(r@) == critical_files().map_values(|f: (Seq<char>, Seq<char>)| f.0),
{
    let mut r: Vec<String> = Vec::new();
    r.push(String::from_str("docker/keys/jwt_private.pem"));
    r.push(String::from_str("docker/keys/jwt_public.pem"));
    r.push(String::from_str("docker/init-db.sql"));
    proof {
        reveal_strlit("docker/keys/jwt_private.pem");
        reveal_strlit("docker/keys/jwt_public.pem");
        reveal_strlit("docker/init-db.sql");
    }
    assert(string_views(r@) =~= critical_files().map_values(|f: (Seq<char>, Seq<char>)| f.0));
    r
}

/// The files the compose file refers to (by path or `./path`) that do not
/// exist locally, with their descriptions, in order.
pub open spec fn missing_files(content: Seq<char>, exists: Seq<bool>, k: int) -> Seq<(Seq<char>, Seq<char>)>
    decreases k,
{
    if k <= 0 {
        Seq::empty()
    } else {
        let rest = missing_files(content, exists, k - 1);
        let (path, desc) = critical_files()[k - 1];
        if (contains(content, path) || contains(content, "./"@ + path)) && !exists[k - 1] {
            rest.push((path, desc))
        } else {
            rest
        }
    }
}

/// The critical files the compose file refers to that are missing locally
/// (`exists[i]` tells whether the `i`-th critical file exists), with their
/// descriptions.
pub fn missing_critical_files(content: &str, exists: &Vec<bool>) -> (r: Vec<(String, String)>)
    requires
        exists@.len() == 3,
    ensures
        pair_views(r@) == missing_files(content@, exists@, 3),
{
    let c = chars_of(content);
    let mut r: Vec<(String, String)> = Vec::new();
    let mut files: Vec<(String, String)> = Vec::new();
    files.push((String::from_str("docker/keys/jwt_private.pem"), String::from_str("JWT private key for authentication")));
    files.push((String::from_str("docker/keys/jwt_public.pem"), String::from_str("JWT public key for authentication")));
    files.push((String::from_str("docker/init-db.sql"), String::from_str("Database initialization script")));
    assert(pair_views(files@) =~= critical_files());
    let mut i: usize = 0;
    while i < 3
        invariant
            exists@.len() == 3,
            c@ == content@,
            pair_views(files@) == critical_files(),
            files@.len() == 3,
            i <= 3,
            pair_views(r@) == missing_files(content@, exists@, i as int),
        decreases 3 - i,
    {
        let path = &files[i].0;
        let mut dotted = String::from_str("./");
        dotted.append(path.as_str());
        let referenced = contains_chars(&c, &chars_of(path.as_str())) || contains_chars(&c, &chars_of(dotted.as_str()));
        proof {
            assert(pair_views(files@)[i as int] == (files@[i as int].0@, files@[i as int].1@));
        }
        if referenced && !exists[i] {
            let ghost r0 = r@;
            r.push((path.clone(), files[i].1.clone()));
            assert(pair_views(r@) =~= pair_views(r0).push(critical_files()[i as int]));
        }
        i = i + 1;
    }
    r
}

// ---------------------------------------------------------------------------
// Registries
// ---------------------------------------------------------------------------

/// The images a compose file names, as the pattern
/// `image:\s*["']?([^"'\s\n]+)["']?` of the regex crate captures them.
pub uninterp spec fn image_references(compose: Seq<char>) -> Seq<Seq<char>>;

/// Runs the pattern `image:\s*["']?([^"'\s\n]+)["']?` (regex crate,
/// `captures_iter`) on a compose file and returns the first group of each
/// match.  The contract names the result.
#[verifier::external_body]
fn find_image_references(compose: &str) -> (r: Vec<String>)
    ensures
        string_views(r@) == image_references(compose@),
{
    let re = match regex::Regex::new(r#"image:\s*["']?([^"'\s\n]+)["']?"#) {
        Ok(re) => re,
        Err(_) => return Vec::new(),
    };
    re.captures_iter(compose).map(|c| c[1].to_string()).collect()
}

/// The private registry an image comes from: `ghcr.io`, or the first path
/// part of an Azure or AWS registry image; public Docker Hub images need
/// none.
pub open spec fn registry_of(image: Seq<char>) -> Option<Seq<char>> {
    if starts_with(image, "ghcr.io/"@) {
        Some("ghcr.io"@)
    } else if contains(image, ".azurecr.io"@) || contains(image, ".dkr.ecr."@) {
        Some(crate::text::split_on(image, '/')[0])
    } else {
        None
    }
}

/// The registries of the images, each once, in order of first use.
pub open spec fn registries_of(images: Seq<Seq<char>>) -> Seq<Seq<char>>
    decreases images.len(),
{
    if images.len() == 0 {
        Seq::empty()
    } else {
        let rest = registries_of(images.drop_last());
        match registry_of(images.last()) {
            Some(r) => if rest.contains(r) {
                rest
            } else {
                rest.push(r)
            },
            None => rest,
        }
    }
}

proof fn lemma_split_nonempty(s: Seq<char>, c: char)
    ensures
        crate::text::split_on(s, c).len() > 0,
    decreases s.len(),
{
    if s.len() > 0 {
        lemma_split_nonempty(s.drop_last(), c);
    }
}

fn registry_of_image(image: &String) -> (r: Option<String>)
    ensures
        (match registry_of(image@) {
            Some(x) => r matches Some(y) && y@ == x,
            None => r is None,
        }),
{
    let v = chars_of(image.as_str());
    if starts_with_chars(&v, &chars_of("ghcr.io/")) {
        Some(String::from_str("ghcr.io"))
    } else if contains_chars(&v, &chars_of(".azurecr.io")) || contains_chars(&v, &chars_of(".dkr.ecr.")) {
        let parts = crate::text::split_chars(&v, '/');
        proof {
            lemma_split_nonempty(v@, '/');
            assert(views(parts@).len() == parts@.len());
            assert(views(parts@)[0] == parts@[0]@);
        }
        Some(string_of(&parts[0]))
    } else {
        None
    }
}

/// The private registries a compose file's images come from, each once, in
/// order of first use.
pub fn registries_in_compose(compose: &str) -> (r: Vec<String>)
    ensures
        string_views(r@) == registries_of(image_references(compose@)),
{
    let images = find_image_references(compose);
    let ghost iv = string_views(images@);
    let mut r: Vec<String> = Vec::new();
    let mut i: usize = 0;
    while i < images.len()
        invariant
            iv == string_views(images@),
            iv == image_references(compose@),
            i <= images@.len(),
            string_views(r@) == registries_of(iv.subrange(0, i as int)),
        decreases images@.len() - i,
    {
        let ghost next = iv.subrange(0, i + 1);
        proof {
            assert(next.drop_last() =~= iv.subrange(0, i as int));
            assert(next.last() == images@[i as int]@);
        }
        match registry_of_image(&images[i]) {
            Some(reg) => {
                let mut seen = false;
                let mut j: usize = 0;
                while j < r.len()
                    invariant
                        j <= r@.len(),
                        seen == exists|k: int| 0 <= k < j && r@[k]@ == reg@,
                    decreases r@.len() - j,
                {
                    if str_eq(r[j].as_str(), reg.as_str()) {
                        seen = true;
                    }
                    j = j + 1;
                }
                proof {
                    let sv = string_views(r@);
                    if seen {
                        let k = choose|k: int| 0 <= k < j && r@[k]@ == reg@;
                        assert(sv[k] == reg@);
                    } else {
                        assert forall|k: int| 0 <= k < sv.len() implies sv[k] != reg@ by {
                            assert(sv[k] == r@[k]@);
                        }
                    }
                }
                if !seen {
                    push_string(&mut r, reg);
                }
            },
            None => {},
        }
        i = i + 1;
    }
    assert(iv.subrange(0, iv.len() as int) =~= iv);
    r
}

/// The command that tells whether the server is logged in to a registry.
pub fn registry_login_check_command(registry: &str) -> (r: String)
    ensures
        r@ == "cat ~/.docker/config.json 2>/dev/null | grep -q '"@ + registry@
            + "' && echo 'logged_in' || echo 'not_logged_in'"@,
{
    let mut r = String::from_str("cat ~/.docker/config.json 2>/dev/null | grep -q '");
    r.append(registry);
    r.append("' && echo 'logged_in' || echo 'not_logged_in'");
    r
}

/// The command that logs the server in to a registry.
pub fn registry_login_command(registry: &str, username: &str, token: &str) -> (r: String)
    ensures
        r@ == "echo '"@ + token@ + "' | docker login "@ + registry@ + " -u "@ + username@ + " --password-stdin"@,
{
    let mut r = String::from_str("echo '");
    r.append(token);
    r.append("' | docker login ");
    r.append(registry);
    r.append(" -u ");
    r.append(username);
    r.append(" --password-stdin");
    r
}


// ---------------------------------------------------------------------------
// Custom images and their build contexts
// ---------------------------------------------------------------------------

/// A service image published under the `DOCKER_REGISTRY` of the `.env`
/// file, which may have to be built.
#[derive(Debug, Clone)]
pub struct CustomImage {
    pub service_name: String,
    /// The image's name, e.g. `hbec-student-backend`.
    pub image_name: String,
    /// The full reference, e.g. `user/hbec-student-backend:latest`.
    pub full_image: String,
    pub build_context: Option<String>,
    pub dockerfile: Option<String>,
}

/// The scanner's state while looking for a service's build settings.
pub struct BuildScan {
    pub in_target: bool,
    pub in_build: bool,
    pub context: Option<Seq<char>>,
    pub dockerfile: Option<Seq<char>>,
    /// The next service started: the rest is ignored.
    pub stopped: bool,
}

/// The build scanner's state after one more line.
pub open spec fn scan_build_line(st: BuildScan, line: Seq<char>, service: Seq<char>) -> BuildScan {
    let t = trim(line);
    let at_two = indent_of(line) == 2;
    if st.stopped {
        st
    } else if t == service + ":"@ && at_two {
        BuildScan { in_target: true, ..st }
    } else if st.in_target && at_two && ends_with(t, ":"@) && !contains(t, " "@) {
        BuildScan { stopped: true, ..st }
    } else if !st.in_target {
        st
    } else if starts_with(t, "build:"@) {
        let c = trim(t.subrange("build:"@.len() as int, t.len() as int));
        BuildScan { in_build: true, context: if c.len() > 0 { Some(c) } else { st.context }, ..st }
    } else if st.in_build {
        BuildScan {
            context: if starts_with(t, "context:"@) {
                Some(trim(t.subrange("context:"@.len() as int, t.len() as int)))
            } else {
                st.context
            },
            dockerfile: if starts_with(t, "dockerfile:"@) {
                Some(trim(t.subrange("dockerfile:"@.len() as int, t.len() as int)))
            } else {
                st.dockerfile
            },
            ..st
        }
    } else {
        st
    }
}

/// The build scanner's state after the lines `ls`.
pub open spec fn scan_build(ls: Seq<Seq<char>>, service: Seq<char>) -> BuildScan
    decreases ls.len(),
{
    if ls.len() == 0 {
        BuildScan { in_target: false, in_build: false, context: None, dockerfile: None, stopped: false }
    } else {
        scan_build_line(scan_build(ls.drop_last(), service), ls.last(), service)
    }
}

/// A service's build context and Dockerfile in a compose file: within the
/// service's block (a line `<service>:` at indentation 2, up to the next
/// service), `build: <context>` or the `context:` and `dockerfile:` lines
/// of its `build:` section.
pub open spec fn build_context_of(compose: Seq<char>, service: Seq<char>) -> Option<(Seq<char>, Option<Seq<char>>)> {
    let st = scan_build(lines(compose), service);
    match st.context {
        Some(c) => Some((c, st.dockerfile)),
        None => None,
    }
}

fn opt_chars(o: &Option<Vec<char>>) -> (r: Option<String>)
    ensures
        (match o {
            Some(v) => r matches Some(s) && s@ == v@,
            None => r is None,
        }),
{
    match o {
        Some(v) => Some(string_of(v)),
        None => None,
    }
}

spec fn opt_seq(o: Option<Vec<char>>) -> Option<Seq<char>> {
    match o {
        Some(v) => Some(v@),
        None => None,
    }
}

/// The build context (and Dockerfile, if given) of a service in a compose
/// file (see `build_context_of`).
pub fn find_build_context_for_service(compose_content: &str, service_name: &str) -> (r: Option<(String, Option<String>)>)
    ensures
        (match build_context_of(compose_content@, service_name@) {
            Some((c, d)) => r matches Some((x, y)) && x@ == c && (match d {
                Some(dd) => y matches Some(yy) && yy@ == dd,
                None => y is None,
            }),
            None => r is None,
        }),
{
    proof {
        reveal_strlit(":");
        reveal_strlit(" ");
        reveal_strlit("build:");
        reveal_strlit("context:");
        reveal_strlit("dockerfile:");
    }
    let ls = split_lines(&chars_of(compose_content));
    let ghost all = lines(compose_content@);
    let mut header = String::from_str(service_name);
    header.append(":");
    let header = chars_of(header.as_str());
    let colon = chars_of(":");
    let space = chars_of(" ");
    let build_kw = chars_of("build:");
    let context_kw = chars_of("context:");
    let dockerfile_kw = chars_of("dockerfile:");
    let mut in_target = false;
    let mut in_build = false;
    let mut context: Option<Vec<char>> = None;
    let mut dockerfile: Option<Vec<char>> = None;
    let mut stopped = false;
    let mut i: usize = 0;
    assert(all.subrange(0, 0) =~= Seq::<Seq<char>>::empty());
    while i < ls.len()
        invariant
            views(ls@) == all,
            all == lines(compose_content@),
            header@ == service_name@ + ":"@,
            colon@ == ":"@,
            space@ == " "@,
            build_kw@ == "build:"@,
            build_kw@.len() == 6,
            context_kw@ == "context:"@,
            context_kw@.len() == 8,
            dockerfile_kw@ == "dockerfile:"@,
            dockerfile_kw@.len() == 11,
            i <= ls@.len(),
            scan_build(all.subrange(0, i as int), service_name@) == (BuildScan {
                in_target,
                in_build,
                context: opt_seq(context),
                dockerfile: opt_seq(dockerfile),
                stopped,
            }),
        decreases ls@.len() - i,
    {
        let ghost next = all.subrange(0, i + 1);
        proof {
            assert(next.drop_last() =~= all.subrange(0, i as int));
            assert(next.last() == ls@[i as int]@);
        }
        if !stopped {
            let line = &ls[i];
            let t = trim_chars(line, None);
            let at_two = is_indent_two(line);
            if crate::text::eq_chars(&t, &header) && at_two {
                in_target = true;
            } else if in_target && at_two && ends_with_chars(&t, &colon) && !contains_chars(&t, &space) {
                stopped = true;
            } else if !in_target {
            } else if starts_with_chars(&t, &build_kw) {
                in_build = true;
                let c = trim_chars(&slice_chars(&t, 6, t.len()), None);
                if c.len() > 0 {
                    context = Some(c);
                }
            } else if in_build {
                if starts_with_chars(&t, &context_kw) {
                    context = Some(trim_chars(&slice_chars(&t, 8, t.len()), None));
                }
                if starts_with_chars(&t, &dockerfile_kw) {
                    dockerfile = Some(trim_chars(&slice_chars(&t, 11, t.len()), None));
                }
            }
        }
        i = i + 1;
    }
    assert(all.subrange(0, all.len() as int) =~= all);
    match context {
        Some(c) => Some((string_of(&c), opt_chars(&dockerfile))),
        None => None,
    }
}

/// The image name in an image reference such as
/// `${DOCKER_REGISTRY:-ghcr.io/x}/name:${TAG:-latest}`: what follows the
/// first `}/`, up to its first `:`.
pub open spec fn image_name_in(p: Seq<char>) -> Option<Seq<char>> {
    match first_occurrence(p, "}/"@) {
        Some(k) => {
            let after = p.subrange(k + 2, p.len() as int);
            Some(
                match first_index_of(after, ':') {
                    Some(c) => after.subrange(0, c),
                    None => after,
                },
            )
        },
        None => None,
    }
}

/// The image scanner's state: inside `services:`, the current service, and
/// the (service, image name) pairs found.
pub struct ImageScan {
    pub in_services: bool,
    pub current: Seq<char>,
    pub images: Seq<(Seq<char>, Seq<char>)>,
}

/// The image scanner's state after one more line.
pub open spec fn scan_image_line(st: ImageScan, line: Seq<char>) -> ImageScan {
    let t = trim(line);
    if t == "services:"@ {
        ImageScan { in_services: true, ..st }
    } else if !st.in_services {
        st
    } else if starts_service(line) {
        ImageScan { current: trim_end(t, Some(':')), ..st }
    } else if starts_with(t, "image:"@) && contains(t, "DOCKER_REGISTRY"@) {
        match image_name_in(trim(t.subrange("image:"@.len() as int, t.len() as int))) {
            Some(n) => ImageScan { images: st.images.push((st.current, n)), ..st },
            None => st,
        }
    } else {
        st
    }
}

/// The image scanner's state after the lines `ls`.
pub open spec fn scan_images(ls: Seq<Seq<char>>) -> ImageScan
    decreases ls.len(),
{
    if ls.len() == 0 {
        ImageScan { in_services: false, current: Seq::empty(), images: Seq::empty() }
    } else {
        scan_image_line(scan_images(ls.drop_last()), ls.last())
    }
}

fn name_in_image_line(t: &Vec<char>, brace_slash: &Vec<char>) -> (r: Option<Vec<char>>)
    requires
        brace_slash@ == "}/"@,
        brace_slash@.len() == 2,
        t@.len() >= 6,
    ensures
        (match image_name_in(trim(t@.subrange(6, t@.len() as int))) {
            Some(n) => r matches Some(v) && v@ == n,
            None => r is None,
        }),
{
    let p = trim_chars(&slice_chars(t, 6, t.len()), None);
    match find_first(&p, brace_slash) {
        Some(k) => {
            let n = p.len();
            assert(k + 2 <= n);
            let after = slice_chars(&p, k + 2, n);
            let name = match find_char(&after, ':') {
                Some(c) => slice_chars(&after, 0, c),
                None => slice_chars(&after, 0, after.len()),
            };
            proof {
                assert(after@.subrange(0, after@.len() as int) =~= after@);
            }
            Some(name)
        },
        None => None,
    }
}

fn registry_images(compose: &str) -> (r: Vec<(String, String)>)
    ensures
        pair_views(r@) == scan_images(lines(compose@)).images,
{
    proof {
        reveal_strlit("services:");
        reveal_strlit("image:");
        reveal_strlit("}/");
    }
    let ls = split_lines(&chars_of(compose));
    let ghost all = lines(compose@);
    let services_kw = chars_of("services:");
    let image_kw = chars_of("image:");
    let registry_kw = chars_of("DOCKER_REGISTRY");
    let brace_slash = chars_of("}/");
    let colon = chars_of(":");
    let space = chars_of(" ");
    proof {
        reveal_strlit(":");
        reveal_strlit(" ");
    }
    let mut in_services = false;
    let mut current: Vec<char> = Vec::new();
    let mut images: Vec<(String, String)> = Vec::new();
    let mut i: usize = 0;
    assert(all.subrange(0, 0) =~= Seq::<Seq<char>>::empty());
    assert(pair_views(images@) =~= Seq::<(Seq<char>, Seq<char>)>::empty());
    assert(current@ =~= Seq::<char>::empty());
    while i < ls.len()
        invariant
            views(ls@) == all,
            all == lines(compose@),
            services_kw@ == "services:"@,
            image_kw@ == "image:"@,
            image_kw@.len() == 6,
            registry_kw@ == "DOCKER_REGISTRY"@,
            brace_slash@ == "}/"@,
            brace_slash@.len() == 2,
            colon@ == ":"@,
            space@ == " "@,
            i <= ls@.len(),
            scan_images(all.subrange(0, i as int)) == (ImageScan {
                in_services,
                current: current@,
                images: pair_views(images@),
            }),
        decreases ls@.len() - i,
    {
        let ghost next = all.subrange(0, i + 1);
        proof {
            assert(next.drop_last() =~= all.subrange(0, i as int));
            assert(next.last() == ls@[i as int]@);
        }
        let line = &ls[i];
        let t = trim_chars(line, None);
        if crate::text::eq_chars(&t, &services_kw) {
            in_services = true;
        } else if !in_services {
        } else if is_indent_two(line) && ends_with_chars(&t, &colon) && !contains_chars(&t, &space) {
            current = trim_end_chars(&t, Some(':'));
        } else if starts_with_chars(&t, &image_kw) && contains_chars(&t, &registry_kw) {
            match name_in_image_line(&t, &brace_slash) {
                Some(name) => {
                    let ghost i0 = images@;
                    let sv = string_of(&current);
                    let nv = string_of(&name);
                    images.push((sv, nv));
                    assert(pair_views(images@) =~= pair_views(i0).push((current@, name@)));
                },
                None => {},
            }
        }
        i = i + 1;
    }
    assert(all.subrange(0, all.len() as int) =~= all);
    images
}

/// A custom image as plain values: service, image name, full reference,
/// build context and Dockerfile.
pub open spec fn custom_image_view(c: CustomImage) -> (Seq<char>, Seq<char>, Seq<char>, Option<Seq<char>>, Option<
    Seq<char>,
>) {
    (
        c.service_name@,
        c.image_name@,
        c.full_image@,
        match c.build_context {
            Some(x) => Some(x@),
            None => None,
        },
        match c.dockerfile {
            Some(x) => Some(x@),
            None => None,
        },
    )
}

/// The full reference of an image: `<registry>/<name>:<tag>`, or
/// `<name>:<tag>` without a registry.
pub open spec fn full_image_of(registry: Seq<char>, name: Seq<char>, tag: Seq<char>) -> Seq<char> {
    if registry.len() == 0 {
        name + ":"@ + tag
    } else {
        registry + "/"@ + name + ":"@ + tag
    }
}

/// The custom images found, before removing repeated names.
pub open spec fn found_images(
    found: Seq<(Seq<char>, Seq<char>)>,
    registry: Seq<char>,
    tag: Seq<char>,
    dev: Option<Seq<char>>,
) -> Seq<(Seq<char>, Seq<char>, Seq<char>, Option<Seq<char>>, Option<Seq<char>>)> {
    Seq::new(
        found.len(),
        |i: int|
            {
                let (service, name) = found[i];
                let ctx = match dev {
                    Some(d) => build_context_of(d, service),
                    None => None,
                };
                (
                    service,
                    name,
                    full_image_of(registry, name, tag),
                    match ctx {
                        Some((c, _)) => Some(c),
                        None => None,
                    },
                    match ctx {
                        Some((_, df)) => df,
                        None => None,
                    },
                )
            },
    )
}

/// The images with the first of each name kept, in order.
pub open spec fn first_of_each_name(
    v: Seq<(Seq<char>, Seq<char>, Seq<char>, Option<Seq<char>>, Option<Seq<char>>)>,
) -> Seq<(Seq<char>, Seq<char>, Seq<char>, Option<Seq<char>>, Option<Seq<char>>)>
    decreases v.len(),
{
    if v.len() == 0 {
        Seq::empty()
    } else {
        let rest = first_of_each_name(v.drop_last());
        if exists|i: int| 0 <= i < rest.len() && rest[i].1 == v.last().1 {
            rest
        } else {
            rest.push(v.last())
        }
    }
}

/// The custom images of a compose file: services whose image is named under
/// `${DOCKER_REGISTRY...}/`, with the registry (empty by default) and tag
/// (`latest` by default) of the `.env` variables, and the build context the
/// development compose file (`dev_compose`, when readable) gives; one per
/// image name.
pub open spec fn custom_images_of(
    compose: Seq<char>,
    env: Map<Seq<char>, Seq<char>>,
    dev: Option<Seq<char>>,
) -> Seq<(Seq<char>, Seq<char>, Seq<char>, Option<Seq<char>>, Option<Seq<char>>)> {
    let registry = if env.contains_key("DOCKER_REGISTRY"@) { env["DOCKER_REGISTRY"@] } else { Seq::empty() };
    let tag = if env.contains_key("TAG"@) { env["TAG"@] } else { "latest"@ };
    first_of_each_name(found_images(scan_images(lines(compose)).images, registry, tag, dev))
}

/// The custom images of a compose file (see `custom_images_of`); `env` are
/// the `.env` variables, `dev_compose` the development compose file.
pub fn extract_custom_images(compose_content: &str, env: &Vec<(String, String)>, dev_compose: &Option<String>) -> (r:
    Vec<CustomImage>)
    requires
        keys_unique(env@),
    ensures
        r@.map_values(|c: CustomImage| custom_image_view(c)) == custom_images_of(
            compose_content@,
            pairs_map(env@),
            match dev_compose {
                Some(d) => Some(d@),
                None => None,
            },
        ),
{
    let found = registry_images(compose_content);
    let registry = match crate::env_validator::env_get(env, "DOCKER_REGISTRY") {
        Some(v) => v.clone(),
        None => String::new(),
    };
    let tag = match crate::env_validator::env_get(env, "TAG") {
        Some(v) => v.clone(),
        None => String::from_str("latest"),
    };
    let ghost dev = match dev_compose {
        Some(d) => Some(d@),
        None => None::<Seq<char>>,
    };
    let ghost all = found_images(pair_views(found@), registry@, tag@, dev);
    let mut r: Vec<CustomImage> = Vec::new();
    let mut i: usize = 0;
    while i < found.len()
        invariant
            all == found_images(pair_views(found@), registry@, tag@, dev),
            dev == (match dev_compose {
                Some(d) => Some(d@),
                None => None::<Seq<char>>,
            }),
            i <= found@.len(),
            r@.map_values(|c: CustomImage| custom_image_view(c)) == first_of_each_name(all.subrange(0, i as int)),
        decreases found@.len() - i,
    {
        let ghost next = all.subrange(0, i + 1);
        proof {
            assert(next.drop_last() =~= all.subrange(0, i as int));
            assert(pair_views(found@)[i as int] == (found@[i as int].0@, found@[i as int].1@));
        }
        let (service, name) = (&found[i].0, &found[i].1);
        let mut seen = false;
        let mut j: usize = 0;
        while j < r.len()
            invariant
                j <= r@.len(),
                seen == exists|k: int| 0 <= k < j && r@[k].image_name@ == name@,
            decreases r@.len() - j,
        {
            if str_eq(r[j].image_name.as_str(), name.as_str()) {
                seen = true;
            }
            j = j + 1;
        }
        proof {
            let rv = r@.map_values(|c: CustomImage| custom_image_view(c));
            if seen {
                let k = choose|k: int| 0 <= k < j && r@[k].image_name@ == name@;
                assert(rv[k].1 == name@);
            } else {
                assert forall|k: int| 0 <= k < rv.len() implies rv[k].1 != name@ by {
                    assert(rv[k].1 == r@[k].image_name@);
                }
            }
        }
        if !seen {
            let mut full = String::new();
            if registry.as_str().unicode_len() > 0 {
                full.append(registry.as_str());
                full.append("/");
            }
            full.append(name.as_str());
            full.append(":");
            full.append(tag.as_str());
            let ctx = match dev_compose {
                Some(d) => find_build_context_for_service(d.as_str(), service.as_str()),
                None => None,
            };
            let (build_context, dockerfile) = match ctx {
                Some((c, df)) => (Some(c), df),
                None => (None, None),
            };
            let img = CustomImage {
                service_name: service.clone(),
                image_name: name.clone(),
                full_image: full,
                build_context,
                dockerfile,
            };
            let ghost r0 = r@;
            r.push(img);
            proof {
                assert(r@.map_values(|c: CustomImage| custom_image_view(c)) =~= r0.map_values(
                    |c: CustomImage| custom_image_view(c),
                ).push(custom_image_view(img)));
                assert(custom_image_view(img) == all[i as int]);
            }
        }
        i = i + 1;
    }
    assert(all.subrange(0, all.len() as int) =~= all);
    r
}

} // verus!
