//! Images built from a compose file: the services that have a build
//! context, the tags their images get, and which files of a build context
//! are sent with it.
use vstd::prelude::*;
use vstd::string::*;
use crate::env_validator::{compose_services, read_compose_services, service_entries, ComposeError};
use crate::text::{
    chars_of, contains, contains_chars, ends_with, ends_with_chars, lines, push_chars, replace_all, replace_chars,
    split_lines, starts_with, str_eq, string_of, string_views, trim, trim_chars, trim_end, trim_end_chars,
};

verus! {

/// A service built from a compose file.
#[derive(Debug)]
pub struct Service {
    pub name: String,
    pub context: String,
    pub dockerfile: String,
    pub image_name: String,
}

/// A service as plain values: name, context, Dockerfile, image name.
pub type ServiceView = (Seq<char>, Seq<char>, Seq<char>, Seq<char>);

/// A service as plain values.
pub open spec fn service_view(s: Service) -> ServiceView {
    (s.name@, s.context@, s.dockerfile@, s.image_name@)
}

/// Services as plain values.
pub open spec fn service_views(v: Seq<Service>) -> Seq<ServiceView> {
    v.map_values(|s: Service| service_view(s))
}

/// The `build` setting of a compose service: none, a context path, a
/// mapping (with its `context` and `dockerfile` texts, if any), or anything
/// else.
pub enum BuildSpec {
    Absent,
    Path(String),
    Settings(Option<String>, Option<String>),
    Unsupported,
}

/// A `build` setting as plain values.
pub enum BuildShape {
    Absent,
    Path(Seq<char>),
    Settings(Option<Seq<char>>, Option<Seq<char>>),
    Unsupported,
}

/// A compose service as plain values: its name (when the key is a string),
/// its `build` setting and its `image` (when it is a string).
pub type EntryView = (Option<Seq<char>>, BuildShape, Option<Seq<char>>);

/// An optional text as a plain value.
pub open spec fn opt_view(o: Option<String>) -> Option<Seq<char>> {
    match o {
        Some(s) => Some(s@),
        None => None,
    }
}

/// A `build` setting as plain values.
pub open spec fn shape_of(b: BuildSpec) -> BuildShape {
    match b {
        BuildSpec::Absent => BuildShape::Absent,
        BuildSpec::Path(p) => BuildShape::Path(p@),
        BuildSpec::Settings(c, d) => BuildShape::Settings(opt_view(c), opt_view(d)),
        BuildSpec::Unsupported => BuildShape::Unsupported,
    }
}

/// What serde_yaml reads of one service's configuration, written as YAML:
/// nothing when it does not parse, else its `image` (when it is a string)
/// and its `build` setting.
pub uninterp spec fn service_build(service_yaml: Seq<char>) -> Option<(Option<Seq<char>>, BuildShape)>;

/// The `image` and `build` settings as plain values.
pub open spec fn fields_view(f: Option<(Option<String>, BuildSpec)>) -> Option<(Option<Seq<char>>, BuildShape)> {
    match f {
        Some((i, b)) => Some((opt_view(i), shape_of(b))),
        None => None,
    }
}

/// Reads one service's configuration with serde_yaml (`from_str` into a
/// `Value`; `get("image")` with `as_str`; `get("build")` told apart by
/// `as_str` and `is_mapping`, with `get` of `context` and `dockerfile`).
/// The contract names the result.
#[verifier::external_body]
fn read_service_build(service_yaml: &str) -> (r: Option<(Option<String>, BuildSpec)>)
    ensures
        service_build(service_yaml@) == fields_view(r),
{
    let c: serde_yaml::Value = serde_yaml::from_str(service_yaml).ok()?;
    let text = |v: Option<&serde_yaml::Value>| Some(v?.as_str()?.to_string());
    let build = match c.get("build") {
        None => BuildSpec::Absent,
        Some(b) => match (text(Some(b)), b.is_mapping()) {
            (Some(t), _) => BuildSpec::Path(t),
            (None, true) => BuildSpec::Settings(text(b.get("context")), text(b.get("dockerfile"))),
            (None, false) => BuildSpec::Unsupported,
        },
    };
    Some((text(c.get("image")), build))
}

/// A compose service as plain values, from its name and what was read of
/// its configuration; a configuration that could not be read has no build.
pub open spec fn entry_from(name: Option<Seq<char>>, fields: Option<(Option<Seq<char>>, BuildShape)>) -> EntryView {
    match fields {
        Some((image, build)) => (name, build, image),
        None => (name, BuildShape::Unsupported, None),
    }
}

/// A service of `compose_services` as plain values.
pub open spec fn entry_of(p: (Option<Seq<char>>, Option<Seq<char>>)) -> EntryView {
    entry_from(
        p.0,
        match p.1 {
            Some(t) => service_build(t),
            None => None,
        },
    )
}

/// The text, else a default.
pub open spec fn or_default(o: Option<Seq<char>>, d: Seq<char>) -> Seq<char> {
    match o {
        Some(s) => s,
        None => d,
    }
}

/// The service a compose entry builds, if it has a context path or a
/// `build` mapping: unnamed keys count as "", the context defaults to ".",
/// the Dockerfile to "Dockerfile", the image name to the service's name.
pub open spec fn buildable(e: EntryView) -> Option<ServiceView> {
    let name = or_default(e.0, ""@);
    let image = or_default(e.2, name);
    match e.1 {
        BuildShape::Path(c) => Some((name, c, "Dockerfile"@, image)),
        BuildShape::Settings(c, d) => Some((name, or_default(c, "."@), or_default(d, "Dockerfile"@), image)),
        _ => None,
    }
}

/// The services that are built, in the file's order.
pub open spec fn buildable_services(es: Seq<EntryView>) -> Seq<ServiceView>
    decreases es.len(),
{
    if es.len() == 0 {
        Seq::empty()
    } else {
        let p = buildable_services(es.drop_last());
        match buildable(es.last()) {
            Some(s) => p.push(s),
            None => p,
        }
    }
}

/// The key a build is known by: `<context>:<dockerfile>`.
pub open spec fn build_key(s: ServiceView) -> Seq<char> {
    s.1 + ":"@ + s.2
}

/// A service before the `i`-th has the same build key.
pub open spec fn key_seen(ss: Seq<ServiceView>, i: int) -> bool {
    exists|j: int| 0 <= j < i && #[trigger] build_key(ss[j]) == build_key(ss[i])
}

/// One of the texts is `k`.
pub open spec fn key_listed(keys: Seq<String>, k: Seq<char>) -> bool {
    exists|x: int| 0 <= x < keys.len() && (#[trigger] keys[x])@ == k
}

/// One of the first `n` services has build key `k`.
pub open spec fn key_among(ss: Seq<ServiceView>, n: int, k: Seq<char>) -> bool {
    exists|t: int| 0 <= t < n && #[trigger] build_key(ss[t]) == k
}

/// The services whose build key no earlier service has, in order.
pub open spec fn first_of_each_key(ss: Seq<ServiceView>) -> Seq<ServiceView>
    decreases ss.len(),
{
    if ss.len() == 0 {
        Seq::empty()
    } else {
        let p = first_of_each_key(ss.drop_last());
        if key_seen(ss, ss.len() - 1) {
            p
        } else {
            p.push(ss.last())
        }
    }
}

/// The services of a compose file that are built, one per build key, or
/// why the file could not be read.
pub open spec fn discovered(content: Seq<char>) -> Result<Seq<ServiceView>, ComposeError> {
    match compose_services(content) {
        None => Err(ComposeError::InvalidYaml),
        Some(None) => Ok(Seq::empty()),
        Some(Some(ss)) => Ok(first_of_each_key(buildable_services(ss.map_values(|p| entry_of(p))))),
    }
}

fn text_or(o: &Option<String>, d: &str) -> (r: String)
    ensures
        r@ == or_default(opt_view(*o), d@),
{
    match o {
        Some(s) => s.clone(),
        None => String::from_str(d),
    }
}

fn service_of(name: &Option<String>, fields: &Option<(Option<String>, BuildSpec)>) -> (r: Option<Service>)
    ensures
        (match r {
            Some(s) => buildable(entry_from(opt_view(*name), fields_view(*fields))) == Some(service_view(s)),
            None => buildable(entry_from(opt_view(*name), fields_view(*fields))) is None,
        }),
{
    let name = text_or(name, "");
    match fields {
        None => None,
        Some((image, build)) => {
            let image_name = match image {
                Some(i) => i.clone(),
                None => name.clone(),
            };
            match build {
                BuildSpec::Path(c) => Some(
                    Service { name, context: c.clone(), dockerfile: String::from_str("Dockerfile"), image_name },
                ),
                BuildSpec::Settings(c, d) => Some(
                    Service { name, context: text_or(c, "."), dockerfile: text_or(d, "Dockerfile"), image_name },
                ),
                _ => None,
            }
        },
    }
}

fn key_text(s: &Service) -> (r: String)
    ensures
        r@ == build_key(service_view(*s)),
{
    let mut k = s.context.clone();
    k.append(":");
    k.append(s.dockerfile.as_str());
    k
}

/// The services of a compose file that have a build context, in the file's
/// order, keeping the first of those that share a context and Dockerfile.
pub fn discover_services(content: &str) -> (r: Result<Vec<Service>, ComposeError>)
    ensures
        (match r {
            Ok(v) => discovered(content@) == Ok::<Seq<ServiceView>, ComposeError>(service_views(v@)),
            Err(e) => discovered(content@) == Err::<Seq<ServiceView>, ComposeError>(e),
        }),
{
    let entries = match read_compose_services(content) {
        None => return Err(ComposeError::InvalidYaml),
        Some(None) => {
            let none: Vec<Service> = Vec::new();
            assert(service_views(none@) =~= Seq::<ServiceView>::empty());
            return Ok(none);
        },
        Some(Some(v)) => v,
    };
    let ghost es = service_entries(entries@).map_values(|p| entry_of(p));
    let mut cands: Vec<Service> = Vec::new();
    let mut i: usize = 0;
    while i < entries.len()
        invariant
            es == service_entries(entries@).map_values(|p| entry_of(p)),
            i <= entries@.len(),
            service_views(cands@) == buildable_services(es.subrange(0, i as int)),
        decreases entries@.len() - i,
    {
        let ghost sub = es.subrange(0, i + 1);
        assert(sub.drop_last() =~= es.subrange(0, i as int));
        let fields = match &entries[i].1 {
            Some(t) => read_service_build(t.as_str()),
            None => None,
        };
        proof {
            assert(es[i as int] == entry_from(opt_view(entries@[i as int].0), fields_view(fields)));
        }
        let ghost c0 = cands@;
        match service_of(&entries[i].0, &fields) {
            Some(s) => {
                cands.push(s);
                assert(service_views(cands@) =~= service_views(c0).push(service_view(s)));
            },
            None => {},
        }
        i = i + 1;
    }
    assert(es.subrange(0, entries@.len() as int) =~= es);
    let ghost cv = service_views(cands@);
    let mut kept: Vec<Service> = Vec::new();
    let mut keys: Vec<String> = Vec::new();
    let mut j: usize = 0;
    while j < cands.len()
        invariant
            cv == service_views(cands@),
            j <= cands@.len(),
            service_views(kept@) == first_of_each_key(cv.subrange(0, j as int)),
            keys@.len() == kept@.len(),
            forall|t: int| 0 <= t < j ==> key_listed(keys@, #[trigger] build_key(cv[t])),
            forall|m: int| 0 <= m < keys@.len() ==> key_among(cv, j as int, (#[trigger] keys@[m])@),
        decreases cands@.len() - j,
    {
        let k = key_text(&cands[j]);
        let mut seen = false;
        let mut m: usize = 0;
        while m < keys.len()
            invariant
                m <= keys@.len(),
                seen == key_listed(keys@.subrange(0, m as int), k@),
            decreases keys@.len() - m,
        {
            proof {
                let a = keys@.subrange(0, m as int);
                let b = keys@.subrange(0, m + 1);
                if key_listed(a, k@) {
                    let x = choose|x: int| 0 <= x < a.len() && (#[trigger] a[x])@ == k@;
                    assert(b[x] == a[x]);
                }
                if key_listed(b, k@) {
                    let x = choose|x: int| 0 <= x < b.len() && (#[trigger] b[x])@ == k@;
                    if x < m {
                        assert(b[x] == a[x]);
                    }
                }
            }
            if str_eq(keys[m].as_str(), k.as_str()) {
                seen = true;
                assert(keys@.subrange(0, m + 1)[m as int] == keys@[m as int]);
            }
            m = m + 1;
        }
        assert(keys@.subrange(0, keys@.len() as int) =~= keys@);
        let ghost sub = cv.subrange(0, j + 1);
        proof {
            assert(sub.drop_last() =~= cv.subrange(0, j as int));
            assert(k@ == build_key(cv[j as int]));
            if seen {
                let x = choose|x: int| 0 <= x < keys@.len() && (#[trigger] keys@[x])@ == k@;
                assert(key_among(cv, j as int, keys@[x]@));
                let t = choose|t: int| 0 <= t < j && #[trigger] build_key(cv[t]) == keys@[x]@;
                assert(sub[t] == cv[t]);
                assert(build_key(sub[t]) == build_key(sub[j as int]));
                assert(key_seen(sub, j as int));
            } else {
                assert forall|t: int| 0 <= t < j implies #[trigger] build_key(sub[t]) != build_key(sub[j as int]) by {
                    assert(sub[t] == cv[t]);
                    assert(key_listed(keys@, build_key(cv[t])));
                }
            }
        }
        if !seen {
            let ghost k0 = kept@;
            let ghost keys0 = keys@;
            let s = copy_service(&cands[j]);
            kept.push(s);
            keys.push(k);
            proof {
                assert(service_views(kept@) =~= service_views(k0).push(service_view(s)));
                assert forall|t: int| 0 <= t < j + 1 implies key_listed(keys@, #[trigger] build_key(cv[t])) by {
                    if t < j {
                        assert(key_listed(keys0, build_key(cv[t])));
                        let x = choose|x: int| 0 <= x < keys0.len() && (#[trigger] keys0[x])@ == build_key(cv[t]);
                        assert(keys@[x] == keys0[x]);
                    } else {
                        assert(keys@[keys0.len() as int]@ == build_key(cv[t]));
                    }
                }
                assert forall|m: int| 0 <= m < keys@.len() implies key_among(cv, j + 1, (#[trigger] keys@[m])@) by {
                    if m < keys0.len() {
                        assert(keys@[m] == keys0[m]);
                        assert(key_among(cv, j as int, keys0[m]@));
                        let t = choose|t: int| 0 <= t < j && #[trigger] build_key(cv[t]) == keys0[m]@;
                        assert(build_key(cv[t]) == keys@[m]@);
                    } else {
                        assert(build_key(cv[j as int]) == keys@[m]@);
                    }
                }
            }
        } else {
            proof {
                assert forall|t: int| 0 <= t < j + 1 implies key_listed(keys@, #[trigger] build_key(cv[t])) by {
                    if t == j {
                        let x = choose|x: int| 0 <= x < keys@.len() && (#[trigger] keys@[x])@ == k@;
                        assert(keys@[x]@ == build_key(cv[t]));
                    }
                }
                assert forall|m: int| 0 <= m < keys@.len() implies key_among(cv, j + 1, (#[trigger] keys@[m])@) by {
                    assert(key_among(cv, j as int, keys@[m]@));
                    let t = choose|t: int| 0 <= t < j && #[trigger] build_key(cv[t]) == keys@[m]@;
                    assert(build_key(cv[t]) == keys@[m]@);
                }
            }
        }
        j = j + 1;
    }
    assert(cv.subrange(0, cands@.len() as int) =~= cv);
    Ok(kept)
}

/// A copy of a service.
pub fn copy_service(s: &Service) -> (r: Service)
    ensures
        r == *s,
{
    Service {
        name: s.name.clone(),
        context: s.context.clone(),
        dockerfile: s.dockerfile.clone(),
        image_name: s.image_name.clone(),
    }
}

// ---------------------------------------------------------------------------
// Tags
// ---------------------------------------------------------------------------

/// The local tag of a service's image: `<name>:latest`.
pub fn local_image_tag(service_name: &str) -> (r: String)
    ensures
        r@ == service_name@ + ":latest"@,
{
    let mut r = String::from_str(service_name);
    r.append(":latest");
    r
}

/// The registry tag of a service's image: `<registry>/hbec-<name>:latest`.
pub fn registry_image_tag(registry_url: &str, service_name: &str) -> (r: String)
    ensures
        r@ == registry_url@ + "/hbec-"@ + service_name@ + ":latest"@,
{
    let mut r = String::from_str(registry_url);
    r.append("/hbec-");
    r.append(service_name);
    r.append(":latest");
    r
}

// ---------------------------------------------------------------------------
// What a build context sends
// ---------------------------------------------------------------------------

/// The patterns ignored without a `.dockerignore`.
pub open spec fn default_ignores() -> Seq<Seq<char>> {
    seq![
        "node_modules"@,
        ".git"@,
        "__pycache__"@,
        "*.pyc"@,
        ".env"@,
        "venv"@,
        ".venv"@,
        "target"@,
    ]
}

/// The patterns of `.dockerignore` lines: each line that is neither empty
/// nor starts with `#`, trimmed.
pub open spec fn pattern_lines(ls: Seq<Seq<char>>) -> Seq<Seq<char>>
    decreases ls.len(),
{
    if ls.len() == 0 {
        Seq::empty()
    } else {
        let p = pattern_lines(ls.drop_last());
        let l = ls.last();
        if l.len() > 0 && !starts_with(l, "#"@) {
            p.push(trim(l))
        } else {
            p
        }
    }
}

/// The ignore patterns of a build context, from its `.dockerignore` when
/// it has one.
pub open spec fn ignore_patterns(dockerignore: Option<Seq<char>>) -> Seq<Seq<char>> {
    match dockerignore {
        Some(c) => pattern_lines(lines(c)),
        None => default_ignores(),
    }
}

/// The ignore patterns of a build context, from the text of its
/// `.dockerignore` when it has one.
pub fn dockerignore_patterns(dockerignore: Option<&str>) -> (r: Vec<String>)
    ensures
        string_views(r@) == ignore_patterns(match dockerignore {
            Some(c) => Some(c@),
            None => None,
        }),
{
    match dockerignore {
        None => {
            let mut v: Vec<String> = Vec::new();
            v.push(String::from_str("node_modules"));
            v.push(String::from_str(".git"));
            v.push(String::from_str("__pycache__"));
            v.push(String::from_str("*.pyc"));
            v.push(String::from_str(".env"));
            v.push(String::from_str("venv"));
            v.push(String::from_str(".venv"));
            v.push(String::from_str("target"));
            assert(string_views(v@) =~= default_ignores());
            v
        },
        Some(c) => {
            let ls = split_lines(&chars_of(c));
            let ghost lv = lines(c@);
            let hash = chars_of("#");
            let mut out: Vec<String> = Vec::new();
            let mut i: usize = 0;
            while i < ls.len()
                invariant
                    i <= ls@.len(),
                    crate::text::views(ls@) == lv,
                    hash@ == "#"@,
                    string_views(out@) == pattern_lines(lv.subrange(0, i as int)),
                decreases ls@.len() - i,
            {
                let ghost sub = lv.subrange(0, i + 1);
                assert(sub.drop_last() =~= lv.subrange(0, i as int));
                assert(sub.last() == ls@[i as int]@);
                if ls[i].len() > 0 && !crate::text::starts_with_chars(&ls[i], &hash) {
                    let ghost o0 = out@;
                    out.push(string_of(&trim_chars(&ls[i], None)));
                    assert(string_views(out@) =~= string_views(o0).push(trim(ls@[i as int]@)));
                }
                i = i + 1;
            }
            assert(lv.subrange(0, lv.len() as int) =~= lv);
            out
        },
    }
}

/// Whether a regular expression (regex crate) matches somewhere in a text;
/// nothing when the expression does not compile.
pub uninterp spec fn regex_match(re: Seq<char>, text: Seq<char>) -> Option<bool>;

/// Compiles `re` with the regex crate (`Regex::new`) and runs `is_match`
/// on `text`.  The contract names the result.
#[verifier::external_body]
fn regex_is_match(re: &str, text: &str) -> (r: Option<bool>)
    ensures
        r == regex_match(re@, text@),
{
    match regex::Regex::new(re) {
        Ok(x) => Some(x.is_match(text)),
        Err(_) => None,
    }
}

/// The anchored expression a glob pattern stands for: dots escaped, each
/// `*` any run of characters.
pub open spec fn glob_regex(pattern: Seq<char>) -> Seq<char> {
    "^"@ + replace_all(replace_all(pattern, "."@, "\\."@), "*"@, ".*"@) + "$"@
}

/// A pattern ignores a file or directory name: a pattern ending in `/`
/// names it without the slashes, one with `*` is a glob, others name it.
pub open spec fn pattern_ignores(pattern: Seq<char>, name: Seq<char>) -> bool {
    if ends_with(pattern, "/"@) {
        name == trim_end(pattern, Some('/'))
    } else if contains(pattern, "*"@) {
        regex_match(glob_regex(pattern), name) == Some(true)
    } else {
        name == pattern
    }
}

/// Some pattern ignores the name.
pub open spec fn ignored(name: Seq<char>, patterns: Seq<Seq<char>>) -> bool {
    exists|i: int| 0 <= i < patterns.len() && pattern_ignores(#[trigger] patterns[i], name)
}

fn glob_to_regex(p: &Vec<char>) -> (r: String)
    ensures
        r@ == glob_regex(p@),
{
    let dot = chars_of(".");
    let star = chars_of("*");
    proof {
        reveal_strlit(".");
        reveal_strlit("*");
    }
    let escaped = replace_chars(p, &dot, &chars_of("\\."));
    let wild = replace_chars(&escaped, &star, &chars_of(".*"));
    let mut r = String::from_str("^");
    push_chars(&mut r, &wild);
    r.append("$");
    r
}

/// Whether one of the patterns ignores a file or directory name.
pub fn is_ignored(name: &str, patterns: &Vec<String>) -> (r: bool)
    ensures
        r == ignored(name@, string_views(patterns@)),
{
    let slash = chars_of("/");
    let star = chars_of("*");
    let mut i: usize = 0;
    while i < patterns.len()
        invariant
            i <= patterns@.len(),
            slash@ == "/"@,
            star@ == "*"@,
            forall|j: int| 0 <= j < i ==> !pattern_ignores(#[trigger] string_views(patterns@)[j], name@),
        decreases patterns@.len() - i,
    {
        let p = chars_of(patterns[i].as_str());
        let hit = if ends_with_chars(&p, &slash) {
            str_eq(name, string_of(&trim_end_chars(&p, Some('/'))).as_str())
        } else if contains_chars(&p, &star) {
            let re = glob_to_regex(&p);
            match regex_is_match(re.as_str(), name) {
                Some(m) => m,
                None => false,
            }
        } else {
            str_eq(name, patterns[i].as_str())
        };
        assert(string_views(patterns@)[i as int] == patterns@[i as int]@);
        if hit {
            assert(pattern_ignores(string_views(patterns@)[i as int], name@));
            return true;
        }
        i = i + 1;
    }
    false
}

/// Where a file of a build context goes in its archive: its name under the
/// directory's path, if any.
pub fn archive_path(prefix: &str, name: &str) -> (r: String)
    ensures
        r@ == (if prefix@.len() == 0 {
            name@
        } else {
            prefix@ + "/"@ + name@
        }),
{
    if prefix.unicode_len() == 0 {
        String::from_str(name)
    } else {
        let mut r = String::from_str(prefix);
        r.append("/");
        r.append(name);
        r
    }
}

} // verus!
