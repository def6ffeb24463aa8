//! Character-level text operations over the `Seq<char>` view of strings.
//!
//! The spec functions here say what `str::trim`, `str::starts_with`,
//! `str::trim_end_matches`, `str::to_ascii_lowercase` and the splitting
//! methods compute, and the executable functions are proved against them.
use vstd::prelude::*;
use vstd::string::*;

verus! {

/// The Unicode `White_Space` property, which is what `char::is_whitespace`
/// (and so `str::trim` and `str::split_whitespace`) tests.
pub open spec fn is_ws(c: char) -> bool {
    let u = c as u32;
    ||| 0x09 <= u <= 0x0d
    ||| u == 0x20
    ||| u == 0x85
    ||| u == 0xa0
    ||| u == 0x1680
    ||| 0x2000 <= u <= 0x200a
    ||| u == 0x2028
    ||| u == 0x2029
    ||| u == 0x202f
    ||| u == 0x205f
    ||| u == 0x3000
}

/// Executable whitespace test.
pub fn char_is_ws(c: char) -> (r: bool)
    ensures
        r == is_ws(c),
{
    let u = c as u32;
    (0x09 <= u && u <= 0x0d) || u == 0x20 || u == 0x85 || u == 0xa0 || u == 0x1680 || (0x2000 <= u
        && u <= 0x200a) || u == 0x2028 || u == 0x2029 || u == 0x202f || u == 0x205f || u == 0x3000
}

/// The characters of a string slice, in order.
pub fn chars_of(s: &str) -> (v: Vec<char>)
    ensures
        v@ == s@,
{
    let n = s.unicode_len();
    let mut v: Vec<char> = Vec::new();
    let mut i: usize = 0;
    while i < n
        invariant
            n == s@.len(),
            i <= n,
            v@ == s@.subrange(0, i as int),
        decreases n - i,
    {
        let c = s.get_char(i);
        v.push(c);
        i = i + 1;
    }
    v
}

/// Appends one character to a `String`: `String::push`.
#[verifier::external_body]
fn push_char(s: &mut String, c: char)
    ensures
        final(s)@ == old(s)@.push(c),
{
    s.push(c);
}

/// Builds a `String` from characters.
pub fn string_from(v: &Vec<char>) -> (s: String)
    ensures
        s@ == v@,
{
    let mut s = String::new();
    let mut i: usize = 0;
    while i < v.len()
        invariant
            i <= v.len(),
            s@ == v@.subrange(0, i as int),
        decreases v.len() - i,
    {
        push_char(&mut s, v[i]);
        i = i + 1;
    }
    s
}

/// Builds a `String` from a slice of characters `v[from..to]`.
pub fn string_from_range(v: &Vec<char>, from: usize, to: usize) -> (s: String)
    requires
        from <= to <= v.len(),
    ensures
        s@ == v@.subrange(from as int, to as int),
{
    let mut s = String::new();
    let mut i: usize = from;
    while i < to
        invariant
            from <= i <= to <= v.len(),
            s@ == v@.subrange(from as int, i as int),
        decreases to - i,
    {
        push_char(&mut s, v[i]);
        i = i + 1;
    }
    s
}

/// An owned copy of a string slice.
pub fn owned(s: &str) -> (r: String)
    ensures
        r@ == s@,
{
    s.to_owned()
}

/// Character-wise equality of two string slices.
pub fn str_eq(a: &str, b: &str) -> (r: bool)
    ensures
        r == (a@ == b@),
{
    let x = chars_of(a);
    let y = chars_of(b);
    if x.len() != y.len() {
        return false;
    }
    let mut i: usize = 0;
    while i < x.len()
        invariant
            x@ == a@,
            y@ == b@,
            x.len() == y.len(),
            i <= x.len(),
            forall|k: int| 0 <= k < i ==> x@[k] == y@[k],
        decreases x.len() - i,
    {
        if x[i] != y[i] {
            return false;
        }
        i = i + 1;
    }
    assert(x@ =~= y@);
    true
}

// ---------------------------------------------------------------- trimming

/// `s` without its leading whitespace.
pub open spec fn trim_start(s: Seq<char>) -> Seq<char>
    decreases s.len(),
{
    if s.len() > 0 && is_ws(s[0]) {
        trim_start(s.drop_first())
    } else {
        s
    }
}

/// `s` without its trailing whitespace.
pub open spec fn trim_end(s: Seq<char>) -> Seq<char>
    decreases s.len(),
{
    if s.len() > 0 && is_ws(s.last()) {
        trim_end(s.drop_last())
    } else {
        s
    }
}

/// `s` without leading and trailing whitespace: what `str::trim` returns.
pub open spec fn trim(s: Seq<char>) -> Seq<char> {
    trim_end(trim_start(s))
}

/// `trim_start(s)` is a suffix of `s` that is empty or starts with a non-space.
pub proof fn lemma_trim_start_shape(s: Seq<char>)
    ensures
        exists|k: int| 0 <= k <= s.len() && trim_start(s) == s.subrange(k, s.len() as int),
        trim_start(s).len() == 0 || !is_ws(trim_start(s)[0]),
    decreases s.len(),
{
    if s.len() > 0 && is_ws(s[0]) {
        lemma_trim_start_shape(s.drop_first());
        let k = choose|k: int|
            0 <= k <= s.drop_first().len() && trim_start(s.drop_first()) == s.drop_first().subrange(
                k,
                s.drop_first().len() as int,
            );
        assert(s.drop_first().subrange(k, s.drop_first().len() as int) =~= s.subrange(
            k + 1,
            s.len() as int,
        ));
    } else {
        assert(s.subrange(0, s.len() as int) =~= s);
    }
}

/// `trim_end(s)` is a prefix of `s` that is empty or ends with a non-space.
pub proof fn lemma_trim_end_shape(s: Seq<char>)
    ensures
        exists|k: int| 0 <= k <= s.len() && trim_end(s) == s.subrange(0, k),
        trim_end(s).len() == 0 || !is_ws(trim_end(s).last()),
    decreases s.len(),
{
    if s.len() > 0 && is_ws(s.last()) {
        lemma_trim_end_shape(s.drop_last());
        let k = choose|k: int|
            0 <= k <= s.drop_last().len() && trim_end(s.drop_last()) == s.drop_last().subrange(
                0,
                k,
            );
        assert(s.drop_last().subrange(0, k) =~= s.subrange(0, k));
    } else {
        assert(s.subrange(0, s.len() as int) =~= s);
    }
}

/// Trimming twice is trimming once.
pub proof fn lemma_trim_idempotent(s: Seq<char>)
    ensures
        trim(trim(s)) == trim(s),
{
    let t = trim_start(s);
    lemma_trim_start_shape(s);
    lemma_trim_end_shape(t);
    let u = trim_end(t);
    let k = choose|k: int| 0 <= k <= t.len() && trim_end(t) == t.subrange(0, k);
    if u.len() > 0 {
        assert(u[0] == t[0]);
        assert(trim_start(u) == u);
    } else {
        assert(trim_start(u) == u);
    }
    assert(trim_end(u) == u);
}

/// Positions `[lo, hi)` of the trimmed part of `v`.
fn trim_bounds(v: &Vec<char>) -> (r: (usize, usize))
    ensures
        r.0 <= r.1 <= v.len(),
        trim(v@) == v@.subrange(r.0 as int, r.1 as int),
{
    let n = v.len();
    let mut i: usize = 0;
    assert(v@.subrange(0, n as int) =~= v@);
    while i < n && char_is_ws(v[i])
        invariant
            n == v.len(),
            i <= n,
            trim_start(v@) == trim_start(v@.subrange(i as int, n as int)),
        decreases n - i,
    {
        assert(v@.subrange(i as int, n as int).drop_first() =~= v@.subrange(i + 1, n as int));
        i = i + 1;
    }
    assert(trim_start(v@.subrange(i as int, n as int)) == v@.subrange(i as int, n as int));
    let mut j: usize = n;
    while j > i && char_is_ws(v[j - 1])
        invariant
            n == v.len(),
            i <= j <= n,
            trim_end(v@.subrange(i as int, n as int)) == trim_end(v@.subrange(i as int, j as int)),
        decreases j,
    {
        assert(v@.subrange(i as int, j as int).drop_last() =~= v@.subrange(i as int, j - 1));
        j = j - 1;
    }
    assert(trim_end(v@.subrange(i as int, j as int)) == v@.subrange(i as int, j as int));
    (i, j)
}

/// `str::trim`, as an owned string.
pub fn trim_str(s: &str) -> (r: String)
    ensures
        r@ == trim(s@),
{
    let v = chars_of(s);
    let (i, j) = trim_bounds(&v);
    string_from_range(&v, i, j)
}

/// Whether `str::trim` of `s` is empty.
pub fn is_blank(s: &str) -> (r: bool)
    ensures
        r == (trim(s@).len() == 0),
{
    let v = chars_of(s);
    let (i, j) = trim_bounds(&v);
    i == j
}

// ---------------------------------------------------------------- prefixes

/// `p` is a prefix of `s`: what `str::starts_with` tests.
pub open spec fn has_prefix(s: Seq<char>, p: Seq<char>) -> bool {
    p.len() <= s.len() && s.subrange(0, p.len() as int) == p
}

/// `str::starts_with` for a string prefix.
pub fn starts_with(s: &str, p: &str) -> (r: bool)
    ensures
        r == has_prefix(s@, p@),
{
    let x = chars_of(s);
    let y = chars_of(p);
    if y.len() > x.len() {
        return false;
    }
    let mut i: usize = 0;
    while i < y.len()
        invariant
            x@ == s@,
            y@ == p@,
            y.len() <= x.len(),
            i <= y.len(),
            forall|k: int| 0 <= k < i ==> x@[k] == y@[k],
        decreases y.len() - i,
    {
        if x[i] != y[i] {
            assert(x@.subrange(0, y@.len() as int)[i as int] != y@[i as int]);
            return false;
        }
        i = i + 1;
    }
    assert(x@.subrange(0, y@.len() as int) =~= y@);
    true
}

/// `str::strip_prefix`: the rest of `s` after `p`, when `s` starts with `p`.
pub fn strip_prefix(s: &str, p: &str) -> (r: Option<String>)
    ensures
        has_prefix(s@, p@) == r is Some,
        r matches Some(rest) ==> rest@ == s@.subrange(p@.len() as int, s@.len() as int),
{
    if starts_with(s, p) {
        let v = chars_of(s);
        let n = p.unicode_len();
        Some(string_from_range(&v, n, v.len()))
    } else {
        None
    }
}

/// Appends `b` to `a`.
pub fn push_str(a: &mut String, b: &str)
    ensures
        final(a)@ == old(a)@ + b@,
{
    a.append(b);
}

/// Appends one character to `a`.
pub fn push(a: &mut String, c: char)
    ensures
        final(a)@ == old(a)@.push(c),
{
    push_char(a, c);
}

/// `s` with every trailing `c` removed: what `str::trim_end_matches(c)` returns.
pub open spec fn strip_trailing(s: Seq<char>, c: char) -> Seq<char>
    decreases s.len(),
{
    if s.len() > 0 && s.last() == c {
        strip_trailing(s.drop_last(), c)
    } else {
        s
    }
}

/// `str::trim_end_matches` for one character.
pub fn trim_end_char(s: &str, c: char) -> (r: String)
    ensures
        r@ == strip_trailing(s@, c),
{
    let v = chars_of(s);
    let mut j: usize = v.len();
    assert(v@.subrange(0, v.len() as int) =~= v@);
    while j > 0 && v[j - 1] == c
        invariant
            j <= v.len(),
            strip_trailing(v@, c) == strip_trailing(v@.subrange(0, j as int), c),
        decreases j,
    {
        assert(v@.subrange(0, j as int).drop_last() =~= v@.subrange(0, j - 1));
        j = j - 1;
    }
    assert(v@.subrange(0, v.len() as int) =~= v@);
    string_from_range(&v, 0, j)
}

/// Whether `c` occurs in `s`: `str::contains(c)`.
pub fn contains_char(s: &str, c: char) -> (r: bool)
    ensures
        r == s@.contains(c),
{
    let v = chars_of(s);
    let mut i: usize = 0;
    while i < v.len()
        invariant
            v@ == s@,
            i <= v.len(),
            forall|k: int| 0 <= k < i ==> v@[k] != c,
        decreases v.len() - i,
    {
        if v[i] == c {
            assert(s@[i as int] == c);
            return true;
        }
        i = i + 1;
    }
    false
}


// ---------------------------------------------------------------- case

/// ASCII upper-case letters become lower-case; every other character stays.
pub open spec fn ascii_lower_char(c: char) -> char {
    if 'A' <= c <= 'Z' {
        ((c as u32) + 32) as char
    } else {
        c
    }
}

/// What `str::to_ascii_lowercase` returns.
pub open spec fn ascii_lower(s: Seq<char>) -> Seq<char> {
    s.map_values(|c: char| ascii_lower_char(c))
}

/// Lower-casing twice is lower-casing once.
pub proof fn lemma_ascii_lower_idempotent(s: Seq<char>)
    ensures
        ascii_lower(ascii_lower(s)) == ascii_lower(s),
{
    assert forall|i: int| 0 <= i < s.len() implies ascii_lower_char(ascii_lower_char(s[i]))
        == ascii_lower_char(s[i]) by {
        let c = s[i];
        if 'A' <= c <= 'Z' {
            assert(((c as u32) + 32) as char > 'Z');
        }
    }
    assert(ascii_lower(ascii_lower(s)) =~= ascii_lower(s));
}

fn lower_char(c: char) -> (r: char)
    ensures
        r == ascii_lower_char(c),
{
    if 'A' <= c && c <= 'Z' {
        ((c as u8) + 32) as char
    } else {
        c
    }
}

/// `to_ascii_lowercase` of a sequence of characters.
pub fn lower_chars(v: &Vec<char>) -> (r: Vec<char>)
    ensures
        r@ == ascii_lower(v@),
{
    let mut r: Vec<char> = Vec::new();
    let mut i: usize = 0;
    while i < v.len()
        invariant
            i <= v.len(),
            r@ == ascii_lower(v@.subrange(0, i as int)),
        decreases v.len() - i,
    {
        r.push(lower_char(v[i]));
        i = i + 1;
        assert(ascii_lower(v@.subrange(0, i as int)) =~= r@);
    }
    assert(v@.subrange(0, v.len() as int) =~= v@);
    r
}


// ---------------------------------------------------------------- searching

/// The character is `a` or `b`.
pub open spec fn is_either(a: char, b: char) -> spec_fn(char) -> bool {
    |x: char| x == a || x == b
}

/// Index of the first character satisfying `f`, or the length when none does.
pub open spec fn first_index(s: Seq<char>, f: spec_fn(char) -> bool) -> int
    decreases s.len(),
{
    if s.len() == 0 {
        0
    } else if f(s[0]) {
        0
    } else {
        1 + first_index(s.drop_first(), f)
    }
}

/// Index of the last character satisfying `f`, or -1 when none does.
pub open spec fn last_index(s: Seq<char>, f: spec_fn(char) -> bool) -> int
    decreases s.len(),
{
    if s.len() == 0 {
        -1
    } else if f(s.last()) {
        s.len() - 1
    } else {
        last_index(s.drop_last(), f)
    }
}

/// The part of `s` before its first character satisfying `f`: what
/// `s.split(pattern).next()` gives.
pub open spec fn before_first(s: Seq<char>, f: spec_fn(char) -> bool) -> Seq<char> {
    s.subrange(0, first_index(s, f))
}

/// The part of `s` after its last character satisfying `f` (all of `s` when
/// none does): what `s.rsplit(pattern).next()` gives.
pub open spec fn after_last(s: Seq<char>, f: spec_fn(char) -> bool) -> Seq<char> {
    s.subrange(last_index(s, f) + 1, s.len() as int)
}

/// `first_index` is the first position that satisfies `f`.
pub proof fn lemma_first_index(s: Seq<char>, f: spec_fn(char) -> bool, i: int)
    requires
        0 <= i <= s.len(),
        forall|k: int| 0 <= k < i ==> !f(#[trigger] s[k]),
        i == s.len() || f(s[i]),
    ensures
        first_index(s, f) == i,
    decreases i,
{
    if i > 0 {
        assert(!f(s[0]));
        assert forall|k: int| 0 <= k < i - 1 implies !f(#[trigger] s.drop_first()[k]) by {
            assert(s.drop_first()[k] == s[k + 1]);
        }
        lemma_first_index(s.drop_first(), f, i - 1);
    }
}

/// Every character before `first_index` fails `f`.
pub proof fn lemma_first_index_prefix(s: Seq<char>, f: spec_fn(char) -> bool)
    ensures
        0 <= first_index(s, f) <= s.len(),
        forall|i: int| 0 <= i < first_index(s, f) ==> !f(#[trigger] s[i]),
    decreases s.len(),
{
    if s.len() > 0 && !f(s[0]) {
        lemma_first_index_prefix(s.drop_first(), f);
        assert forall|i: int| 0 <= i < first_index(s, f) implies !f(#[trigger] s[i]) by {
            if i > 0 {
                assert(s[i] == s.drop_first()[i - 1]);
            }
        }
    }
}

/// `last_index` is the last position that satisfies `f`.
pub proof fn lemma_last_index(s: Seq<char>, f: spec_fn(char) -> bool, j: int)
    requires
        -1 <= j < s.len(),
        forall|k: int| j < k < s.len() ==> !f(#[trigger] s[k]),
        j == -1 || f(s[j]),
    ensures
        last_index(s, f) == j,
    decreases s.len(),
{
    if s.len() > 0 && j < s.len() - 1 {
        assert(!f(s[s.len() - 1]));
        assert forall|k: int| j < k < s.drop_last().len() implies !f(
            #[trigger] s.drop_last()[k],
        ) by {
            assert(s.drop_last()[k] == s[k]);
        }
        lemma_last_index(s.drop_last(), f, j);
    }
}

/// Position of the first `a` or `b` in `v`, or its length.
pub fn find_first(v: &Vec<char>, a: char, b: char) -> (r: usize)
    ensures
        r <= v.len(),
        r == first_index(v@, is_either(a, b)),
{
    let mut i: usize = 0;
    while i < v.len() && v[i] != a && v[i] != b
        invariant
            i <= v.len(),
            forall|k: int| 0 <= k < i ==> !is_either(a, b)(#[trigger] v@[k]),
        decreases v.len() - i,
    {
        i = i + 1;
    }
    proof {
        lemma_first_index(v@, is_either(a, b), i as int);
    }
    i
}

/// One past the position of the last `a` or `b` in `v`, or 0 when there is none.
pub fn find_last_end(v: &Vec<char>, a: char, b: char) -> (r: usize)
    ensures
        r <= v.len(),
        r == last_index(v@, is_either(a, b)) + 1,
{
    let mut j: usize = v.len();
    while j > 0 && v[j - 1] != a && v[j - 1] != b
        invariant
            j <= v.len(),
            forall|k: int| j <= k < v.len() ==> !is_either(a, b)(#[trigger] v@[k]),
        decreases j,
    {
        j = j - 1;
    }
    proof {
        lemma_last_index(v@, is_either(a, b), j - 1);
    }
    j
}

// ---------------------------------------------------------------- words

/// The maximal runs of non-whitespace characters of `s`, in order: what
/// `str::split_whitespace` yields. Defined character by character from the
/// left: a space ends the current word, and a non-space either extends the
/// current word or starts a new one.
pub open spec fn words(s: Seq<char>) -> Seq<Seq<char>>
    decreases s.len(),
{
    if s.len() == 0 {
        Seq::empty()
    } else {
        let prev = words(s.drop_last());
        let c = s.last();
        if is_ws(c) {
            prev
        } else if s.len() > 1 && !is_ws(s[s.len() - 2]) {
            prev.update(prev.len() - 1, prev.last().push(c))
        } else {
            prev.push(seq![c])
        }
    }
}

/// The views of a vector of strings.
pub open spec fn views(v: Seq<String>) -> Seq<Seq<char>> {
    v.map_values(|s: String| s@)
}

/// `str::split_whitespace`, collected.
pub fn split_whitespace(s: &str) -> (r: Vec<String>)
    ensures
        views(r@) == words(s@),
{
    let v = chars_of(s);
    let mut done: Vec<String> = Vec::new();
    let mut current: Vec<char> = Vec::new();
    let mut i: usize = 0;
    while i < v.len()
        invariant
            v@ == s@,
            i <= v.len(),
            (i > 0 && !is_ws(v@[i - 1])) ==> words(v@.subrange(0, i as int)) == views(done@).push(
                current@,
            ),
            !(i > 0 && !is_ws(v@[i - 1])) ==> words(v@.subrange(0, i as int)) == views(done@)
                && current@.len() == 0,
        decreases v.len() - i,
    {
        let c = v[i];
        let in_word = i > 0 && !char_is_ws(v[i - 1]);
        let ghost before = v@.subrange(0, i as int);
        let ghost after = v@.subrange(0, i + 1);
        assert(after.drop_last() =~= before);
        if char_is_ws(c) {
            if in_word {
                let w = string_from(&current);
                done.push(w);
                current = Vec::new();
                assert(views(done@) =~= words(before));
            }
        } else {
            current.push(c);
            if in_word {
                assert(after[after.len() - 2] == v@[i - 1]);
                assert(words(after) =~= views(done@).push(current@));
            } else {
                if i > 0 {
                    assert(after[after.len() - 2] == v@[i - 1]);
                }
                assert(current@ =~= seq![c]);
                assert(words(after) =~= views(done@).push(current@));
            }
        }
        i = i + 1;
    }
    assert(v@.subrange(0, v.len() as int) =~= v@);
    if v.len() > 0 && !char_is_ws(v[v.len() - 1]) {
        let w = string_from(&current);
        done.push(w);
        assert(views(done@) =~= words(s@));
    }
    done
}

} // verus!
