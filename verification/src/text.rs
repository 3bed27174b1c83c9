//! Character-level text utilities with specifications.
//!
//! Text is modelled as `Seq<char>` (the view of `String` and `str`).  The
//! functions here mirror the behaviour of the standard string operations
//! the deployment tooling relies on (`trim`, `contains`, `starts_with`,
//! `replace`, `lines`, integer formatting and parsing), each stated by a
//! short spec function.
use vstd::prelude::*;
use vstd::string::*;

verus! {

// ---------------------------------------------------------------------------
// Specifications
// ---------------------------------------------------------------------------

/// The Unicode `White_Space` property, which `char::is_whitespace` tests.
pub open spec fn is_ws(c: char) -> bool {
    ||| ('\u{9}' <= c && c <= '\u{d}')
    ||| c == ' '
    ||| c == '\u{85}'
    ||| c == '\u{a0}'
    ||| c == '\u{1680}'
    ||| ('\u{2000}' <= c && c <= '\u{200a}')
    ||| c == '\u{2028}'
    ||| c == '\u{2029}'
    ||| c == '\u{202f}'
    ||| c == '\u{205f}'
    ||| c == '\u{3000}'
}

/// Characters removed by a trim: whitespace (`None`) or one given character.
pub open spec fn trims(c: char, q: Option<char>) -> bool {
    match q {
        None => is_ws(c),
        Some(x) => c == x,
    }
}

/// `s` without its leading characters selected by `q`.
pub open spec fn trim_start(s: Seq<char>, q: Option<char>) -> Seq<char>
    decreases s.len(),
{
    if s.len() > 0 && trims(s[0], q) {
        trim_start(s.drop_first(), q)
    } else {
        s
    }
}

/// `s` without its trailing characters selected by `q`.
pub open spec fn trim_end(s: Seq<char>, q: Option<char>) -> Seq<char>
    decreases s.len(),
{
    if s.len() > 0 && trims(s.last(), q) {
        trim_end(s.drop_last(), q)
    } else {
        s
    }
}

/// `s` without leading and trailing characters selected by `q`
/// (`str::trim` for `None`, `str::trim_matches(c)` for `Some(c)`).
pub open spec fn trim_both(s: Seq<char>, q: Option<char>) -> Seq<char> {
    trim_end(trim_start(s, q), q)
}

/// `str::trim`.
pub open spec fn trim(s: Seq<char>) -> Seq<char> {
    trim_both(s, None)
}

/// The texts held by a sequence of character vectors.
pub open spec fn views(v: Seq<Vec<char>>) -> Seq<Seq<char>> {
    v.map_values(|x: Vec<char>| x@)
}

/// The texts held by a sequence of strings.
pub open spec fn string_views(v: Seq<String>) -> Seq<Seq<char>> {
    v.map_values(|x: String| x@)
}

/// `str::split(c)`: the pieces of `s` between occurrences of `c` (always at
/// least one).
pub open spec fn split_on(s: Seq<char>, c: char) -> Seq<Seq<char>>
    decreases s.len(),
{
    if s.len() == 0 {
        seq![Seq::<char>::empty()]
    } else {
        let p = split_on(s.drop_last(), c);
        if s.last() == c {
            p.push(Seq::<char>::empty())
        } else {
            p.update(p.len() - 1, p.last().push(s.last()))
        }
    }
}

/// `FromStr` for `i32`: an optional sign, then one or more ASCII digits,
/// with the value in range.
pub open spec fn parse_i32(s: Seq<char>) -> Option<int> {
    if s.len() > 0 && s[0] == '-' {
        let body = s.drop_first();
        if body.len() == 0 {
            None
        } else {
            match digits_value(body) {
                Some(v) => if v <= 0x8000_0000 { Some(-v) } else { None },
                None => None,
            }
        }
    } else {
        match parse_unsigned(s, 0x7fff_ffff) {
            Some(v) => Some(v as int),
            None => None,
        }
    }
}

/// `p` occurs in `s` at position `i`.
pub open spec fn occurs_at(s: Seq<char>, p: Seq<char>, i: int) -> bool {
    0 <= i && i + p.len() <= s.len() && s.subrange(i, i + p.len()) == p
}

/// Position of the first occurrence of `p` in `s` (`str::find`).
pub open spec fn first_occurrence(s: Seq<char>, p: Seq<char>) -> Option<int> {
    if exists|i: int| occurs_at(s, p, i) {
        Some(choose|i: int| occurs_at(s, p, i) && forall|j: int| 0 <= j < i ==> !occurs_at(s, p, j))
    } else {
        None
    }
}

/// `str::contains` with a string pattern.
pub open spec fn contains(s: Seq<char>, p: Seq<char>) -> bool {
    exists|i: int| occurs_at(s, p, i)
}

/// `str::starts_with`.
pub open spec fn starts_with(s: Seq<char>, p: Seq<char>) -> bool {
    p.len() <= s.len() && s.subrange(0, p.len() as int) == p
}

/// `str::ends_with`.
pub open spec fn ends_with(s: Seq<char>, p: Seq<char>) -> bool {
    p.len() <= s.len() && s.subrange(s.len() - p.len(), s.len() as int) == p
}

/// Index of the first occurrence of `c` in `s`.
pub open spec fn first_index_of(s: Seq<char>, c: char) -> Option<int> {
    if exists|i: int| 0 <= i < s.len() && s[i] == c {
        Some(choose|i: int| 0 <= i < s.len() && s[i] == c && forall|j: int| 0 <= j < i ==> s[j] != c)
    } else {
        None
    }
}

/// `str::replace(from, to)` for a non-empty pattern: every non-overlapping
/// occurrence of `from`, scanning from the left, is replaced by `to`.
pub open spec fn replace_all(s: Seq<char>, from: Seq<char>, to: Seq<char>) -> Seq<char>
    decreases s.len(),
{
    if from.len() == 0 || s.len() < from.len() {
        s
    } else if starts_with(s, from) {
        to + replace_all(s.subrange(from.len() as int, s.len() as int), from, to)
    } else {
        seq![s[0]] + replace_all(s.drop_first(), from, to)
    }
}

/// The pieces of `s` between `'\n'` separators (always at least one).
pub open spec fn split_nl(s: Seq<char>) -> Seq<Seq<char>>
    decreases s.len(),
{
    if s.len() == 0 {
        seq![Seq::<char>::empty()]
    } else {
        let p = split_nl(s.drop_last());
        if s.last() == '\n' {
            p.push(Seq::<char>::empty())
        } else {
            p.update(p.len() - 1, p.last().push(s.last()))
        }
    }
}

/// A line that was followed by `'\n'` loses one trailing `'\r'`.
pub open spec fn strip_cr(l: Seq<char>) -> Seq<char> {
    if l.len() > 0 && l.last() == '\r' {
        l.drop_last()
    } else {
        l
    }
}

/// `str::lines`: the pieces between line endings (`"\n"` or `"\r\n"`); a
/// final line ending does not start an empty line.
pub open spec fn lines(s: Seq<char>) -> Seq<Seq<char>> {
    let p = split_nl(s);
    let n = if p.last().len() == 0 { p.len() - 1 } else { p.len() as int };
    Seq::new(n as nat, |j: int| if j < p.len() - 1 { strip_cr(p[j]) } else { p[j] })
}

/// The ASCII digit for `d < 10`.
pub open spec fn digit_char(d: nat) -> char {
    if d == 0 { '0' }
    else if d == 1 { '1' }
    else if d == 2 { '2' }
    else if d == 3 { '3' }
    else if d == 4 { '4' }
    else if d == 5 { '5' }
    else if d == 6 { '6' }
    else if d == 7 { '7' }
    else if d == 8 { '8' }
    else { '9' }
}

/// Decimal representation of a natural number (`Display` for integers).
pub open spec fn decimal(n: nat) -> Seq<char>
    decreases n,
{
    if n < 10 {
        seq![digit_char(n)]
    } else {
        decimal(n / 10).push(digit_char(n % 10))
    }
}

/// Decimal representation of an integer, with a leading `'-'` when negative.
pub open spec fn decimal_int(n: int) -> Seq<char> {
    if n < 0 { seq!['-'] + decimal((-n) as nat) } else { decimal(n as nat) }
}

/// Value of an ASCII decimal digit.
pub open spec fn digit_value(c: char) -> Option<nat> {
    if '0' <= c && c <= '9' { Some((c as u32 - '0' as u32) as nat) } else { None }
}

/// Value of a sequence of ASCII digits (`None` if some character is not one).
pub open spec fn digits_value(s: Seq<char>) -> Option<nat>
    decreases s.len(),
{
    if s.len() == 0 {
        Some(0)
    } else {
        match (digits_value(s.drop_last()), digit_value(s.last())) {
            (Some(v), Some(d)) => Some(v * 10 + d),
            _ => None,
        }
    }
}

/// `FromStr` for an unsigned integer type whose largest value is `max`: an
/// optional `'+'`, then one or more ASCII digits, with value at most `max`.
pub open spec fn parse_unsigned(s: Seq<char>, max: nat) -> Option<nat> {
    let body = if s.len() > 0 && s[0] == '+' { s.drop_first() } else { s };
    if body.len() == 0 {
        None
    } else {
        match digits_value(body) {
            Some(v) => if v <= max { Some(v) } else { None },
            None => None,
        }
    }
}

// ---------------------------------------------------------------------------
// Lemmas
// ---------------------------------------------------------------------------

proof fn lemma_trim_start_step(s: Seq<char>, i: int, q: Option<char>)
    requires
        0 <= i < s.len(),
        trims(s[i], q),
    ensures
        trim_start(s.subrange(i, s.len() as int), q) == trim_start(s.subrange(i + 1, s.len() as int), q),
{
    assert(s.subrange(i, s.len() as int).drop_first() =~= s.subrange(i + 1, s.len() as int));
}

proof fn lemma_trim_end_step(s: Seq<char>, j: int, q: Option<char>)
    requires
        0 < j <= s.len(),
        trims(s[j - 1], q),
    ensures
        trim_end(s.subrange(0, j), q) == trim_end(s.subrange(0, j - 1), q),
{
    assert(s.subrange(0, j).drop_last() =~= s.subrange(0, j - 1));
}

proof fn lemma_digits_value_bound(s: Seq<char>)
    ensures
        digits_value(s) matches Some(v) ==> v >= 0,
{
}

// ---------------------------------------------------------------------------
// Executable functions
// ---------------------------------------------------------------------------

proof fn lemma_digits_prefix(t: Seq<char>, k: int)
    requires
        0 <= k <= t.len(),
        digits_value(t) is Some,
    ensures
        digits_value(t.subrange(0, k)) is Some,
        digits_value(t.subrange(0, k))->0 <= digits_value(t)->0,
    decreases t.len(),
{
    if k == t.len() {
        assert(t.subrange(0, k) =~= t);
    } else {
        lemma_digits_prefix(t.drop_last(), k);
        assert(t.drop_last().subrange(0, k) =~= t.subrange(0, k));
    }
}

fn digit_of(d: u64) -> (c: char)
    requires
        d < 10,
    ensures
        c == digit_char(d as nat),
{
    if d == 0 { '0' }
    else if d == 1 { '1' }
    else if d == 2 { '2' }
    else if d == 3 { '3' }
    else if d == 4 { '4' }
    else if d == 5 { '5' }
    else if d == 6 { '6' }
    else if d == 7 { '7' }
    else if d == 8 { '8' }
    else { '9' }
}

/// Decimal digits of `n` (`u64::to_string`).
pub fn decimal_chars(n: u64) -> (r: Vec<char>)
    ensures
        r@ == decimal(n as nat),
    decreases n,
{
    if n < 10 {
        let mut v = Vec::new();
        v.push(digit_of(n));
        assert(v@ =~= seq![digit_char(n as nat)]);
        v
    } else {
        let mut v = decimal_chars(n / 10);
        v.push(digit_of(n % 10));
        v
    }
}

/// Appends the decimal digits of `n`.
pub fn push_decimal(s: &mut String, n: u64)
    ensures
        final(s)@ == old(s)@ + decimal(n as nat),
{
    let d = decimal_chars(n);
    push_chars(s, &d);
}

/// Appends the decimal representation of a signed integer.
pub fn push_int(s: &mut String, n: i64)
    ensures
        final(s)@ == old(s)@ + decimal_int(n as int),
{
    if n < 0 {
        let ghost s0 = s@;
        push_char(s, '-');
        let m: u64 = if n == i64::MIN { 9223372036854775808u64 } else { (-n) as u64 };
        push_decimal(s, m);
        assert(s@ =~= s0 + (seq!['-'] + decimal((-n) as nat)));
    } else {
        push_decimal(s, n as u64);
    }
}

fn digit_value_exec(c: char) -> (r: Option<u64>)
    ensures
        (match digit_value(c) {
            Some(d) => r == Some(d as u64),
            None => r is None,
        }),
{
    if '0' <= c && c <= '9' {
        Some(((c as u32) - ('0' as u32)) as u64)
    } else {
        None
    }
}

/// `FromStr` for an unsigned integer type whose largest value is `max`.
pub fn parse_unsigned_chars(s: &Vec<char>, max: u64) -> (r: Option<u64>)
    ensures
        (match parse_unsigned(s@, max as nat) {
            Some(v) => r == Some(v as u64),
            None => r is None,
        }),
{
    let start: usize = if s.len() > 0 && s[0] == '+' { 1 } else { 0 };
    let ghost body = if s@.len() > 0 && s@[0] == '+' { s@.drop_first() } else { s@ };
    assert(body =~= s@.subrange(start as int, s@.len() as int));
    if start == s.len() {
        return None;
    }
    let mut acc: u64 = 0;
    let mut k = start;
    assert(body.subrange(0, 0) =~= Seq::<char>::empty());
    while k < s.len()
        invariant
            start <= k <= s@.len(),
            body =~= s@.subrange(start as int, s@.len() as int),
            body == (if s@.len() > 0 && s@[0] == '+' { s@.drop_first() } else { s@ }),
            digits_value(body.subrange(0, k - start)) == Some(acc as nat),
            acc <= max,
        decreases s@.len() - k,
    {
        let ghost pre = body.subrange(0, k - start);
        let ghost next = body.subrange(0, k + 1 - start);
        assert(next.drop_last() =~= pre);
        assert(next.last() == s@[k as int]);
        match digit_value_exec(s[k]) {
            None => {
                proof {
                    if digits_value(body) is Some {
                        lemma_digits_prefix(body, k + 1 - start);
                        assert(digits_value(next) is Some);
                        assert(digit_value(next.last()) is None);
                        assert(false);
                    }
                }
                return None;
            },
            Some(d) => {
                if d > max || acc > (max - d) / 10 {
                    proof {
                        assert(acc * 10 + d > max) by (nonlinear_arith)
                            requires d > max || acc > (max - d) / 10, d <= 9;
                        assert(digits_value(next) == Some((acc * 10 + d) as nat));
                        if digits_value(body) is Some {
                            lemma_digits_prefix(body, k + 1 - start);
                            assert(digits_value(body)->0 > max);
                        }

                    }
                    return None;
                }
                proof {
                    assert(acc * 10 + d <= max) by (nonlinear_arith)
                        requires acc <= (max - d) / 10, d <= max;
                }
                acc = acc * 10 + d;
            },
        }
        k = k + 1;
    }
    assert(body.subrange(0, body.len() as int) =~= body);
    Some(acc)
}

/// `str::to_lowercase` (full Unicode lowercase mapping).
pub uninterp spec fn lowercase(s: Seq<char>) -> Seq<char>;

/// `str::to_lowercase`; the result is named.
#[verifier::external_body]
pub(crate) fn to_lowercase(s: &str) -> (r: String)
    ensures
        r@ == lowercase(s@),
{
    s.to_lowercase()
}

/// Appends one character (`String::push`).
#[verifier::external_body]
pub(crate) fn push_char(s: &mut String, c: char)
    ensures
        final(s)@ == old(s)@.push(c),
{
    s.push(c)
}

/// The characters of `s`.
pub fn chars_of(s: &str) -> (r: Vec<char>)
    ensures
        r@ == s@,
{
    let n = s.unicode_len();
    let mut r: Vec<char> = Vec::new();
    let mut i: usize = 0;
    while i < n
        invariant
            n == s@.len(),
            i <= n,
            r@ == s@.subrange(0, i as int),
        decreases n - i,
    {
        let c = s.get_char(i);
        r.push(c);
        i = i + 1;
        assert(r@ =~= s@.subrange(0, i as int));
    }
    assert(r@ =~= s@);
    r
}

/// A `String` holding the characters `v[from..to]`.
pub fn string_of_range(v: &Vec<char>, from: usize, to: usize) -> (r: String)
    requires
        from <= to <= v@.len(),
    ensures
        r@ == v@.subrange(from as int, to as int),
{
    let mut r = String::new();
    let mut i = from;
    while i < to
        invariant
            from <= i <= to <= v@.len(),
            r@ == v@.subrange(from as int, i as int),
        decreases to - i,
    {
        push_char(&mut r, v[i]);
        i = i + 1;
        assert(r@ =~= v@.subrange(from as int, i as int));
    }
    r
}

/// A `String` holding the characters of `v`.
pub fn string_of(v: &Vec<char>) -> (r: String)
    ensures
        r@ == v@,
{
    let r = string_of_range(v, 0, v.len());
    assert(v@.subrange(0, v@.len() as int) =~= v@);
    r
}

/// Appends the characters of `v` to `s`.
pub fn push_chars(s: &mut String, v: &Vec<char>)
    ensures
        final(s)@ == old(s)@ + v@,
{
    let ghost s0 = s@;
    let mut i: usize = 0;
    while i < v.len()
        invariant
            i <= v@.len(),
            s@ == s0 + v@.subrange(0, i as int),
        decreases v@.len() - i,
    {
        push_char(s, v[i]);
        i = i + 1;
        assert(s@ =~= s0 + v@.subrange(0, i as int));
    }
    assert(v@.subrange(0, v@.len() as int) =~= v@);
}

/// `char::is_whitespace`.
pub fn is_whitespace(c: char) -> (r: bool)
    ensures
        r == is_ws(c),
{
    ('\u{9}' <= c && c <= '\u{d}') || c == ' ' || c == '\u{85}' || c == '\u{a0}' || c == '\u{1680}'
        || ('\u{2000}' <= c && c <= '\u{200a}') || c == '\u{2028}' || c == '\u{2029}' || c
        == '\u{202f}' || c == '\u{205f}' || c == '\u{3000}'
}

fn trims_exec(c: char, q: Option<char>) -> (r: bool)
    ensures
        r == trims(c, q),
{
    match q {
        None => is_whitespace(c),
        Some(x) => c == x,
    }
}

/// Bounds `(a, b)` of `trim_both(v[from..to], q)` inside `v`.
pub fn trim_bounds(v: &Vec<char>, from: usize, to: usize, q: Option<char>) -> (r: (usize, usize))
    requires
        from <= to <= v@.len(),
    ensures
        from <= r.0 <= r.1 <= to,
        v@.subrange(r.0 as int, r.1 as int) == trim_both(v@.subrange(from as int, to as int), q),
{
    let ghost s = v@.subrange(from as int, to as int);
    let mut a = from;
    while a < to && trims_exec(v[a], q)
        invariant
            from <= a <= to <= v@.len(),
            s == v@.subrange(from as int, to as int),
            trim_start(s, q) == trim_start(v@.subrange(a as int, to as int), q),
        decreases to - a,
    {
        proof {
            let t = v@.subrange(a as int, to as int);
            assert(t.drop_first() =~= v@.subrange(a + 1, to as int));
        }
        a = a + 1;
    }
    assert(trim_start(v@.subrange(a as int, to as int), q) == v@.subrange(a as int, to as int));
    let ghost u = v@.subrange(a as int, to as int);
    let mut b = to;
    while b > a && trims_exec(v[b - 1], q)
        invariant
            from <= a <= b <= to <= v@.len(),
            u == v@.subrange(a as int, to as int),
            trim_end(u, q) == trim_end(v@.subrange(a as int, b as int), q),
        decreases b - a,
    {
        proof {
            let t = v@.subrange(a as int, b as int);
            assert(t.drop_last() =~= v@.subrange(a as int, b - 1));
        }
        b = b - 1;
    }
    (a, b)
}

/// `trim_both` of a whole character vector.
pub fn trim_chars(v: &Vec<char>, q: Option<char>) -> (r: Vec<char>)
    ensures
        r@ == trim_both(v@, q),
{
    let (a, b) = trim_bounds(v, 0, v.len(), q);
    assert(v@.subrange(0, v@.len() as int) =~= v@);
    slice_chars(v, a, b)
}

/// `trim_start` of a whole character vector.
pub fn trim_start_chars(v: &Vec<char>, q: Option<char>) -> (r: Vec<char>)
    ensures
        r@ == trim_start(v@, q),
{
    let mut a: usize = 0;
    assert(v@.subrange(0, v@.len() as int) =~= v@);
    while a < v.len() && trims_exec(v[a], q)
        invariant
            a <= v@.len(),
            trim_start(v@, q) == trim_start(v@.subrange(a as int, v@.len() as int), q),
        decreases v@.len() - a,
    {
        proof {
            let t = v@.subrange(a as int, v@.len() as int);
            assert(t.drop_first() =~= v@.subrange(a + 1, v@.len() as int));
        }
        a = a + 1;
    }
    slice_chars(v, a, v.len())
}

/// `trim_end` of a whole character vector.
pub fn trim_end_chars(v: &Vec<char>, q: Option<char>) -> (r: Vec<char>)
    ensures
        r@ == trim_end(v@, q),
{
    let mut b: usize = v.len();
    assert(v@.subrange(0, v@.len() as int) =~= v@);
    while b > 0 && trims_exec(v[b - 1], q)
        invariant
            b <= v@.len(),
            trim_end(v@, q) == trim_end(v@.subrange(0, b as int), q),
        decreases b,
    {
        proof {
            let t = v@.subrange(0, b as int);
            assert(t.drop_last() =~= v@.subrange(0, b - 1));
        }
        b = b - 1;
    }
    slice_chars(v, 0, b)
}

/// The characters `v[from..to]`.
pub fn slice_chars(v: &Vec<char>, from: usize, to: usize) -> (r: Vec<char>)
    requires
        from <= to <= v@.len(),
    ensures
        r@ == v@.subrange(from as int, to as int),
{
    let mut r: Vec<char> = Vec::new();
    let mut i = from;
    while i < to
        invariant
            from <= i <= to <= v@.len(),
            r@ == v@.subrange(from as int, i as int),
        decreases to - i,
    {
        r.push(v[i]);
        i = i + 1;
        assert(r@ =~= v@.subrange(from as int, i as int));
    }
    r
}

proof fn lemma_first_occurrence(s: Seq<char>, p: Seq<char>, i: int)
    requires
        occurs_at(s, p, i),
        forall|j: int| 0 <= j < i ==> !occurs_at(s, p, j),
    ensures
        first_occurrence(s, p) == Some(i),
{
    assert(occurs_at(s, p, i) && forall|j: int| 0 <= j < i ==> !occurs_at(s, p, j));
    let w = first_occurrence(s, p)->0;
    if w < i {
        assert(!occurs_at(s, p, w));
    } else if w > i {
        assert(0 <= i);
        assert(!occurs_at(s, p, i));
    }
}

/// Position of the first occurrence of `p` in `s` (`str::find`).
pub fn find_first(s: &Vec<char>, p: &Vec<char>) -> (r: Option<usize>)
    ensures
        r matches Some(k) ==> first_occurrence(s@, p@) == Some(k as int) && k + p@.len() <= s@.len(),
        r is None ==> first_occurrence(s@, p@) is None,
{
    match find_from(s, p, 0) {
        Some(i) => {
            proof {
                lemma_first_occurrence(s@, p@, i as int);
            }
            Some(i)
        },
        None => {
            proof {
                if exists|i: int| occurs_at(s@, p@, i) {
                    let w = choose|i: int| occurs_at(s@, p@, i);
                    assert(0 <= w);
                }
            }
            None
        },
    }
}

/// Whether `p` occurs in `s` at position `i`.
pub fn matches_at(s: &Vec<char>, p: &Vec<char>, i: usize) -> (r: bool)
    ensures
        r == occurs_at(s@, p@, i as int),
{
    if i > s.len() || p.len() > s.len() - i {
        return false;
    }
    let mut k: usize = 0;
    while k < p.len()
        invariant
            i + p@.len() <= s@.len(),
            s@.len() <= usize::MAX,
            k <= p@.len(),
            forall|j: int| 0 <= j < k ==> s@[i + j] == p@[j],
        decreases p@.len() - k,
    {
        if s[i + k] != p[k] {
            assert(s@.subrange(i as int, i + p@.len())[k as int] != p@[k as int]);
            return false;
        }
        k = k + 1;
    }
    assert(s@.subrange(i as int, i + p@.len()) =~= p@);
    true
}

/// The first position at or after `from` where `p` occurs in `s`.
pub fn find_from(s: &Vec<char>, p: &Vec<char>, from: usize) -> (r: Option<usize>)
    ensures
        r matches Some(i) ==> from <= i && occurs_at(s@, p@, i as int) && forall|j: int|
            from <= j < i ==> !occurs_at(s@, p@, j),
        r is None ==> forall|j: int| from <= j ==> !occurs_at(s@, p@, j),
{
    if from > s.len() {
        return None;
    }
    let mut i = from;
    while i < s.len()
        invariant
            from <= i <= s@.len(),
            forall|j: int| from <= j < i ==> !occurs_at(s@, p@, j),
        decreases s@.len() - i,
    {
        if matches_at(s, p, i) {
            return Some(i);
        }
        i = i + 1;
    }
    if matches_at(s, p, i) {
        return Some(i);
    }
    None
}

/// `str::contains`.
pub fn contains_chars(s: &Vec<char>, p: &Vec<char>) -> (r: bool)
    ensures
        r == contains(s@, p@),
{
    match find_from(s, p, 0) {
        Some(i) => true,
        None => {
            false
        },
    }
}

/// `str::contains` for string slices.
pub fn str_contains(s: &str, p: &str) -> (r: bool)
    ensures
        r == contains(s@, p@),
{
    let sv = chars_of(s);
    let pv = chars_of(p);
    contains_chars(&sv, &pv)
}

/// String equality, character by character.
pub fn str_eq(a: &str, b: &str) -> (r: bool)
    ensures
        r == (a@ == b@),
{
    eq_chars(&chars_of(a), &chars_of(b))
}

/// `str::starts_with`.
pub fn starts_with_chars(s: &Vec<char>, p: &Vec<char>) -> (r: bool)
    ensures
        r == starts_with(s@, p@),
{
    matches_at(s, p, 0)
}

/// `str::ends_with`.
pub fn ends_with_chars(s: &Vec<char>, p: &Vec<char>) -> (r: bool)
    ensures
        r == ends_with(s@, p@),
{
    if p.len() > s.len() {
        return false;
    }
    matches_at(s, p, s.len() - p.len())
}

/// Character-wise equality.
pub fn eq_chars(a: &Vec<char>, b: &Vec<char>) -> (r: bool)
    ensures
        r == (a@ == b@),
{
    if a.len() != b.len() {
        return false;
    }
    let r = matches_at(a, b, 0);
    proof {
        if r {
            assert(a@.subrange(0, b@.len() as int) =~= a@);
        } else {
            if a@ == b@ {
                assert(a@.subrange(0, b@.len() as int) =~= a@);
            }
        }
    }
    r
}

/// Position of the first `c` in `s`.
pub fn find_char(s: &Vec<char>, c: char) -> (r: Option<usize>)
    ensures
        r matches Some(i) ==> i < s@.len() && s@[i as int] == c && forall|j: int| 0 <= j < i ==> s@[j] != c,
        r is None ==> forall|j: int| 0 <= j < s@.len() ==> s@[j] != c,
        r matches Some(i) ==> first_index_of(s@, c) == Some(i as int),
        r is None ==> first_index_of(s@, c) is None,
{
    let mut i: usize = 0;
    while i < s.len()
        invariant
            i <= s@.len(),
            forall|j: int| 0 <= j < i ==> s@[j] != c,
        decreases s@.len() - i,
    {
        if s[i] == c {
            proof {
                let w = choose|k: int| 0 <= k < s@.len() && s@[k] == c && forall|j: int| 0 <= j < k ==> s@[j] != c;
                assert(0 <= i < s@.len() && s@[i as int] == c && forall|j: int| 0 <= j < i ==> s@[j] != c);
                if w < i {
                } else if w > i {
                }
            }
            return Some(i);
        }
        i = i + 1;
    }
    None
}

/// `str::replace(from, to)` for a non-empty pattern.
pub fn replace_chars(s: &Vec<char>, from: &Vec<char>, to: &Vec<char>) -> (r: Vec<char>)
    requires
        from@.len() > 0,
    ensures
        r@ == replace_all(s@, from@, to@),
{
    let mut r: Vec<char> = Vec::new();
    let mut i: usize = 0;
    assert(s@.subrange(0, s@.len() as int) =~= s@);
    while i < s.len()
        invariant
            from@.len() > 0,
            i <= s@.len(),
            r@ + replace_all(s@.subrange(i as int, s@.len() as int), from@, to@) == replace_all(s@, from@, to@),
        decreases s@.len() - i,
    {
        let ghost rest = s@.subrange(i as int, s@.len() as int);
        if matches_at(s, from, i) {
            proof {
                assert(rest.subrange(0, from@.len() as int) =~= s@.subrange(i as int, i + from@.len()));
                assert(rest.subrange(from@.len() as int, rest.len() as int) =~= s@.subrange(i + from@.len(), s@.len() as int));
            }
            let mut k: usize = 0;
            let ghost r0 = r@;
            while k < to.len()
                invariant
                    k <= to@.len(),
                    r@ == r0 + to@.subrange(0, k as int),
                decreases to@.len() - k,
            {
                r.push(to[k]);
                k = k + 1;
                assert(r@ =~= r0 + to@.subrange(0, k as int));
            }
            assert(to@.subrange(0, to@.len() as int) =~= to@);
            assert(r0 + (to@ + replace_all(s@.subrange(i + from@.len(), s@.len() as int), from@, to@)) =~= r@ + replace_all(s@.subrange(i + from@.len(), s@.len() as int), from@, to@));
            i = i + from.len();
        } else {
            proof {
                if rest.len() >= from@.len() {
                    assert(rest.subrange(0, from@.len() as int) =~= s@.subrange(i as int, i + from@.len()));
                }
                assert(rest.drop_first() =~= s@.subrange(i + 1, s@.len() as int));
            }
            let ghost r0 = r@;
            r.push(s[i]);
            assert(r0 + (seq![s@[i as int]] + replace_all(s@.subrange(i + 1, s@.len() as int), from@, to@)) =~= r@ + replace_all(s@.subrange(i + 1, s@.len() as int), from@, to@));
            i = i + 1;
        }
    }
    assert(r@ + replace_all(s@.subrange(i as int, s@.len() as int), from@, to@) =~= r@);
    r
}

/// `str::split(c)`.
pub fn split_chars(s: &Vec<char>, c: char) -> (r: Vec<Vec<char>>)
    ensures
        views(r@) == split_on(s@, c),
{
    let mut done: Vec<Vec<char>> = Vec::new();
    let mut cur: Vec<char> = Vec::new();
    let mut i: usize = 0;
    assert(s@.subrange(0, 0) =~= Seq::<char>::empty());
    while i < s.len()
        invariant
            i <= s@.len(),
            views(done@) + seq![cur@] == split_on(s@.subrange(0, i as int), c),
        decreases s@.len() - i,
    {
        let x = s[i];
        let ghost p = split_on(s@.subrange(0, i as int), c);
        proof {
            assert(s@.subrange(0, i + 1).drop_last() =~= s@.subrange(0, i as int));
            assert(s@.subrange(0, i + 1).last() == x);
        }
        let ghost d0 = done@;
        if x == c {
            let piece = slice_chars(&cur, 0, cur.len());
            assert(piece@ =~= cur@);
            done.push(piece);
            cur = Vec::new();
            assert(views(done@) =~= views(d0).push(piece@));
            assert(views(done@) + seq![cur@] =~= p.push(Seq::<char>::empty()));
        } else {
            let ghost c0 = cur@;
            cur.push(x);
            assert(views(done@) + seq![cur@] =~= p.update(p.len() - 1, p.last().push(x)));
        }
        i = i + 1;
    }
    assert(s@.subrange(0, s@.len() as int) =~= s@);
    let ghost d1 = done@;
    done.push(cur);
    assert(views(done@) =~= views(d1) + seq![done@.last()@]);
    done
}

/// `str::parse::<i32>`.
pub fn parse_i32_chars(s: &Vec<char>) -> (r: Option<i32>)
    ensures
        (match parse_i32(s@) {
            Some(v) => r == Some(v as i32),
            None => r is None,
        }),
{
    if s.len() > 0 && s[0] == '-' {
        let body = slice_chars(s, 1, s.len());
        assert(body@ =~= s@.drop_first());
        if body.len() == 0 {
            return None;
        }
        if body[0] == '+' {
            proof {
                assert(digit_value(body@[0]) is None);
                if digits_value(body@) is Some {
                    lemma_digits_prefix(body@, 1);
                    assert(body@.subrange(0, 1).drop_last() =~= Seq::<char>::empty());
                    assert(body@.subrange(0, 1).last() == body@[0]);
                }
            }
            return None;
        }
        match parse_unsigned_chars(&body, 0x8000_0000) {
            Some(v) => {
                let n: i64 = 0i64 - (v as i64);
                Some(n as i32)
            },
            None => None,
        }
    } else {
        match parse_unsigned_chars(s, 0x7fff_ffff) {
            Some(v) => Some(v as i32),
            None => None,
        }
    }
}

/// Appends a copy of `s` to a vector of strings.
pub fn push_str(v: &mut Vec<String>, s: &str)
    ensures
        string_views(final(v)@) == string_views(old(v)@).push(s@),
{
    let ghost v0 = v@;
    v.push(String::from_str(s));
    assert(string_views(v@) =~= string_views(v0).push(s@));
}

/// Appends a string to a vector of strings.
pub fn push_string(v: &mut Vec<String>, s: String)
    ensures
        string_views(final(v)@) == string_views(old(v)@).push(s@),
{
    let ghost v0 = v@;
    let ghost sv = s@;
    v.push(s);
    assert(string_views(v@) =~= string_views(v0).push(sv));
}

/// Appends all strings of `w` to `v`.
pub fn append_strings(v: &mut Vec<String>, w: Vec<String>)
    ensures
        string_views(final(v)@) == string_views(old(v)@) + string_views(w@),
{
    let ghost v0 = v@;
    let ghost w0 = w@;
    let mut w = w;
    v.append(&mut w);
    assert(string_views(v@) =~= string_views(v0) + string_views(w0));
}

/// `str::lines`.
pub fn split_lines(s: &Vec<char>) -> (r: Vec<Vec<char>>)
    ensures
        views(r@) == lines(s@),
{
    // closed pieces (already stripped of a trailing '\r'), and the open piece
    let mut done: Vec<Vec<char>> = Vec::new();
    let mut cur: Vec<char> = Vec::new();
    let mut i: usize = 0;
    assert(s@.subrange(0, 0) =~= Seq::<char>::empty());
    while i < s.len()
        invariant
            i <= s@.len(),
            views(done@).len() == split_nl(s@.subrange(0, i as int)).len() - 1,
            forall|j: int|
                0 <= j < views(done@).len() ==> #[trigger] views(done@)[j] == strip_cr(
                    split_nl(s@.subrange(0, i as int))[j],
                ),
            cur@ == split_nl(s@.subrange(0, i as int)).last(),
        decreases s@.len() - i,
    {
        let c = s[i];
        let ghost p = split_nl(s@.subrange(0, i as int));
        proof {
            assert(s@.subrange(0, i + 1).drop_last() =~= s@.subrange(0, i as int));
            assert(s@.subrange(0, i + 1).last() == c);
        }
        if c == '\n' {
            let line = strip_trailing_cr(&cur);
            let ghost old_done = views(done@);
            let ghost old_v = done@;
            done.push(line);
            assert(done@ =~= old_v.push(line));
            cur = Vec::new();
            proof {
                let p2 = split_nl(s@.subrange(0, i + 1));
                assert(p2 == p.push(Seq::<char>::empty()));
                assert(views(done@) =~= old_done.push(line@));
                assert forall|j: int| 0 <= j < views(done@).len() implies #[trigger] views(done@)[j] == strip_cr(p2[j]) by {
                    if j < old_done.len() {
                    }
                }
            }
        } else {
            cur.push(c);
            proof {
                let p2 = split_nl(s@.subrange(0, i + 1));
                assert(p2 == p.update(p.len() - 1, p.last().push(c)));
                assert forall|j: int| 0 <= j < views(done@).len() implies #[trigger] views(done@)[j] == strip_cr(p2[j]) by {
                }
            }
        }
        i = i + 1;
    }
    assert(s@.subrange(0, s@.len() as int) =~= s@);
    let ghost p = split_nl(s@);
    let ghost d0 = views(done@);
    let ghost v0 = done@;
    if cur.len() > 0 {
        let ghost c0 = cur@;
        done.push(cur);
        assert(done@ =~= v0.push(done@.last()));
        assert(done@.last()@ == c0);
        assert(views(done@) =~= d0.push(p.last()));
    }
    assert(views(done@) =~= lines(s@));
    done
}

fn strip_trailing_cr(v: &Vec<char>) -> (r: Vec<char>)
    ensures
        r@ == strip_cr(v@),
{
    if v.len() > 0 && v[v.len() - 1] == '\r' {
        let r = slice_chars(v, 0, v.len() - 1);
        assert(r@ =~= v@.drop_last());
        r
    } else {
        let r = slice_chars(v, 0, v.len());
        assert(r@ =~= v@);
        r
    }
}

} // verus!
