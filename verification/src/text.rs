//! Character-level string operations with their mathematical meaning.
//!
//! Strings are viewed as `Seq<char>`. The functions here are the small
//! building blocks (trimming, prefixes, searching, decimal numbers) that the
//! mail engine composes; each states exactly which sequence it produces.
use vstd::prelude::*;
use vstd::utf8::{decode_utf8, valid_utf8};

verus! {

// ---------------------------------------------------------------------------
// Conversions between `str`, `String` and `Vec<char>`
// ---------------------------------------------------------------------------

/// The characters of a string slice, in order.
pub fn chars_of(s: &str) -> (v: Vec<char>)
    ensures
        v@ == s@,
{
    let mut v: Vec<char> = Vec::new();
    for c in it: s.chars()
        invariant
            v@ == it.seq().take(it.index() as int),
            it.seq() == s@,
    {
        v.push(c);
    }
    v
}

/// Appends one character to a string (`String::push`).
#[verifier::external_body]
pub(crate) fn push_char(s: &mut String, c: char)
    ensures
        final(s)@ == old(s)@.push(c),
{
    s.push(c);
}

/// A string holding exactly the given characters.
pub fn string_of(v: &Vec<char>) -> (s: String)
    ensures
        s@ == v@,
{
    let mut s = String::new();
    let mut i: usize = 0;
    while i < v.len()
        invariant
            i <= v.len(),
            s@ == v@.take(i as int),
        decreases v.len() - i,
    {
        push_char(&mut s, v[i]);
        i = i + 1;
        assert(v@.take(i as int) =~= v@.take(i - 1).push(v@[i - 1]));
    }
    assert(v@.take(v.len() as int) =~= v@);
    s
}

/// The texts of a list of strings.
pub open spec fn string_views(v: Seq<String>) -> Seq<Seq<char>> {
    v.map_values(|s: String| s@)
}

/// The text of an optional string.
pub open spec fn opt_view(o: Option<String>) -> Option<Seq<char>> {
    match o {
        Some(s) => Some(s@),
        None => None,
    }
}

/// The text of an optional string slice.
pub open spec fn opt_str_view(o: Option<&str>) -> Option<Seq<char>> {
    match o {
        Some(s) => Some(s@),
        None => None,
    }
}

/// The text of an optional string, or the empty text.
pub open spec fn text_or_empty(o: Option<Seq<char>>) -> Seq<char> {
    match o {
        Some(s) => s,
        None => Seq::empty(),
    }
}

/// The text of an optional string slice, or the empty text.
pub fn str_or_empty(o: Option<&str>) -> (r: &str)
    ensures
        r@ == text_or_empty(opt_str_view(o)),
{
    match o {
        Some(s) => s,
        None => {
            proof {
                reveal_strlit("");
            }
            ""
        },
    }
}

/// A copy of a string slice as an owned string.
pub fn owned(s: &str) -> (r: String)
    ensures
        r@ == s@,
{
    s.to_owned()
}

/// A copy of a string.
pub fn copy(s: &String) -> (r: String)
    ensures
        r@ == s@,
{
    owned(s.as_str())
}

/// A copy of an optional string.
pub fn copy_opt(s: &Option<String>) -> (r: Option<String>)
    ensures
        opt_view(r) == opt_view(*s),
{
    match s {
        Some(x) => Some(copy(x)),
        None => None,
    }
}

/// The concatenation of two strings.
pub fn concat2(a: &str, b: &str) -> (r: String)
    ensures
        r@ == a@ + b@,
{
    let mut r = s_owned(a);
    r.append(b);
    r
}

fn s_owned(a: &str) -> (r: String)
    ensures
        r@ == a@,
{
    a.to_owned()
}

/// The concatenation of three strings.
pub fn concat3(a: &str, b: &str, c: &str) -> (r: String)
    ensures
        r@ == a@ + b@ + c@,
{
    let mut r = s_owned(a);
    r.append(b);
    r.append(c);
    r
}

/// Whether two string slices hold the same characters.
pub fn str_eq(a: &str, b: &str) -> (r: bool)
    ensures
        r == (a@ == b@),
{
    let va = chars_of(a);
    let vb = chars_of(b);
    vec_eq(&va, &vb)
}

/// Whether two character vectors are equal.
pub fn vec_eq(a: &Vec<char>, b: &Vec<char>) -> (r: bool)
    ensures
        r == (a@ == b@),
{
    if a.len() != b.len() {
        return false;
    }
    let mut i: usize = 0;
    while i < a.len()
        invariant
            a.len() == b.len(),
            i <= a.len(),
            forall|j: int| 0 <= j < i ==> a@[j] == b@[j],
        decreases a.len() - i,
    {
        if a[i] != b[i] {
            return false;
        }
        i = i + 1;
    }
    assert(a@ =~= b@);
    true
}

// ---------------------------------------------------------------------------
// White space and trimming
// ---------------------------------------------------------------------------

/// The Unicode `White_Space` property, which is what `char::is_whitespace`
/// tests: U+0009..U+000D, U+0020, U+0085, U+00A0, U+1680, U+2000..U+200A,
/// U+2028, U+2029, U+202F, U+205F and U+3000.
pub open spec fn is_white_space(c: char) -> bool {
    let u = c as u32;
    ||| 0x9 <= u <= 0xd
    ||| u == 0x20
    ||| u == 0x85
    ||| u == 0xa0
    ||| u == 0x1680
    ||| 0x2000 <= u <= 0x200a
    ||| u == 0x2028
    ||| u == 0x2029
    ||| u == 0x202f
    ||| u == 0x205f
    ||| u == 0x3000
}

/// Whether a character is white space (same set as `char::is_whitespace`).
pub fn is_whitespace_char(c: char) -> (r: bool)
    ensures
        r == is_white_space(c),
{
    let u = c as u32;
    (0x9 <= u && u <= 0xd) || u == 0x20 || u == 0x85 || u == 0xa0 || u == 0x1680 || (0x2000 <= u
        && u <= 0x200a) || u == 0x2028 || u == 0x2029 || u == 0x202f || u == 0x205f || u == 0x3000
}

/// `s` without its leading white space.
pub open spec fn trim_start_ws(s: Seq<char>) -> Seq<char>
    decreases s.len(),
{
    if s.len() > 0 && is_white_space(s[0]) {
        trim_start_ws(s.drop_first())
    } else {
        s
    }
}

/// `s` without its trailing white space.
pub open spec fn trim_end_ws(s: Seq<char>) -> Seq<char>
    decreases s.len(),
{
    if s.len() > 0 && is_white_space(s.last()) {
        trim_end_ws(s.drop_last())
    } else {
        s
    }
}

/// `s` without leading and trailing white space (what `str::trim` returns).
pub open spec fn trim_ws(s: Seq<char>) -> Seq<char> {
    trim_end_ws(trim_start_ws(s))
}

/// A sequence that neither starts nor ends with white space is its own trim.
pub proof fn lemma_trim_no_edge_ws(s: Seq<char>)
    requires
        s.len() > 0 ==> !is_white_space(s[0]) && !is_white_space(s.last()),
    ensures
        trim_ws(s) == s,
{
}

/// `v` without leading and trailing white space, as `str::trim` gives it.
pub fn trim_chars(v: &Vec<char>) -> (r: Vec<char>)
    ensures
        r@ == trim_ws(v@),
{
    let n = v.len();
    let mut i: usize = 0;
    assert(v@.skip(0) =~= v@);
    while i < n && is_whitespace_char(v[i])
        invariant
            n == v.len(),
            i <= n,
            trim_start_ws(v@) == trim_start_ws(v@.skip(i as int)),
        decreases n - i,
    {
        assert(v@.skip(i as int).drop_first() =~= v@.skip(i + 1));
        i = i + 1;
    }
    let ghost front = v@.skip(i as int);
    assert(trim_start_ws(v@) == front);
    let mut j: usize = n;
    while j > i && is_whitespace_char(v[j - 1])
        invariant
            n == v.len(),
            i <= j <= n,
            front == v@.skip(i as int),
            trim_end_ws(front) == trim_end_ws(v@.subrange(i as int, j as int)),
        decreases j,
    {
        assert(v@.subrange(i as int, j as int).drop_last() =~= v@.subrange(i as int, j - 1));
        j = j - 1;
    }
    assert(trim_end_ws(v@.subrange(i as int, j as int)) == v@.subrange(i as int, j as int));
    let r = slice_chars(v, i, j);
    r
}

/// The characters of `v` from position `i` up to (not including) `j`.
pub fn slice_chars(v: &Vec<char>, i: usize, j: usize) -> (r: Vec<char>)
    requires
        i <= j <= v.len(),
    ensures
        r@ == v@.subrange(i as int, j as int),
{
    let mut r: Vec<char> = Vec::new();
    let mut k: usize = i;
    while k < j
        invariant
            i <= k <= j <= v.len(),
            r@ == v@.subrange(i as int, k as int),
        decreases j - k,
    {
        r.push(v[k]);
        k = k + 1;
        assert(r@ =~= v@.subrange(i as int, k as int));
    }
    r
}

/// The trimmed text of a string slice.
pub fn trim_str(s: &str) -> (r: String)
    ensures
        r@ == trim_ws(s@),
{
    let v = chars_of(s);
    let t = trim_chars(&v);
    string_of(&t)
}

// ---------------------------------------------------------------------------
// Prefixes
// ---------------------------------------------------------------------------

/// Whether `p` occurs in `v` starting at position `at`.
pub fn has_prefix_at(v: &Vec<char>, at: usize, p: &Vec<char>) -> (r: bool)
    requires
        at <= v.len(),
    ensures
        r == p@.is_prefix_of(v@.skip(at as int)),
{
    if p.len() > v.len() - at {
        return false;
    }
    let mut k: usize = 0;
    while k < p.len()
        invariant
            at + p.len() <= v.len(),
            k <= p.len(),
            forall|m: int| 0 <= m < k ==> p@[m] == v@[at + m],
        decreases p.len() - k,
    {
        if p[k] != v[at + k] {
            return false;
        }
        k = k + 1;
    }
    assert(p@ =~= v@.skip(at as int).subrange(0, p.len() as int));
    true
}

/// Whether `v` starts with `p`.
pub fn has_prefix(v: &Vec<char>, p: &Vec<char>) -> (r: bool)
    ensures
        r == p@.is_prefix_of(v@),
{
    assert(v@.skip(0) =~= v@);
    has_prefix_at(v, 0, p)
}

/// Whether the string `s` starts with the string `p` (`str::starts_with`).
pub fn str_starts_with(s: &str, p: &str) -> (r: bool)
    ensures
        r == p@.is_prefix_of(s@),
{
    let v = chars_of(s);
    let q = chars_of(p);
    has_prefix(&v, &q)
}

/// `s` with every leading copy of `p` removed (what `str::trim_start_matches`
/// returns for a string pattern; an empty pattern removes nothing).
pub open spec fn strip_all_prefix(s: Seq<char>, p: Seq<char>) -> Seq<char>
    decreases s.len(),
{
    if p.len() > 0 && p.is_prefix_of(s) {
        strip_all_prefix(s.skip(p.len() as int), p)
    } else {
        s
    }
}

/// A sequence that does not start with `p` keeps all of it.
pub proof fn lemma_strip_all_prefix_absent(s: Seq<char>, p: Seq<char>)
    requires
        !p.is_prefix_of(s),
    ensures
        strip_all_prefix(s, p) == s,
{
}

/// `v` with every leading copy of `p` removed.
pub fn strip_all_prefix_chars(v: &Vec<char>, p: &Vec<char>) -> (r: Vec<char>)
    ensures
        r@ == strip_all_prefix(v@, p@),
{
    let n = v.len();
    let mut i: usize = 0;
    assert(v@.skip(0) =~= v@);
    if p.len() == 0 {
        return slice_chars(v, 0, n);
    }
    while i < n && has_prefix_at(v, i, p)
        invariant
            n == v.len(),
            p.len() > 0,
            i <= n,
            strip_all_prefix(v@, p@) == strip_all_prefix(v@.skip(i as int), p@),
        decreases n - i,
    {
        assert(v@.skip(i as int).skip(p.len() as int) =~= v@.skip(i + p.len()));
        i = i + p.len();
    }
    if i == n {
        assert(!p@.is_prefix_of(v@.skip(i as int)));
    }
    let r = slice_chars(v, i, n);
    assert(r@ =~= v@.skip(i as int));
    r
}

// ---------------------------------------------------------------------------
// Searching and rewriting
// ---------------------------------------------------------------------------

/// Whether `c` occurs in `v`.
pub fn contains_char(v: &Vec<char>, c: char) -> (r: bool)
    ensures
        r == v@.contains(c),
{
    let mut i: usize = 0;
    while i < v.len()
        invariant
            i <= v.len(),
            forall|j: int| 0 <= j < i ==> v@[j] != c,
        decreases v.len() - i,
    {
        if v[i] == c {
            assert(v@[i as int] == c);
            return true;
        }
        i = i + 1;
    }
    false
}

/// Whether `c` occurs in the string `s` (`str::contains` with a `char`).
pub fn str_contains_char(s: &str, c: char) -> (r: bool)
    ensures
        r == s@.contains(c),
{
    let v = chars_of(s);
    contains_char(&v, c)
}

/// Whether `p` occurs as a contiguous piece of `s`.
pub open spec fn contains_seq(s: Seq<char>, p: Seq<char>) -> bool {
    exists|i: int| 0 <= i <= s.len() - p.len() && #[trigger] s.subrange(i, i + p.len()) == p
}

/// Whether `p` occurs as a contiguous piece of `v` (`str::contains` with a
/// string pattern).
pub fn contains_chars(v: &Vec<char>, p: &Vec<char>) -> (r: bool)
    ensures
        r == contains_seq(v@, p@),
{
    if p.len() > v.len() {
        return false;
    }
    let mut i: usize = 0;
    while i <= v.len() - p.len()
        invariant
            p.len() <= v.len(),
            i <= v.len() - p.len() + 1,
            forall|j: int| 0 <= j < i ==> #[trigger] v@.subrange(j, j + p.len()) != p@,
        decreases v.len() - p.len() + 1 - i,
    {
        if has_prefix_at(v, i, p) {
            assert(v@.subrange(i as int, i + p.len()) =~= v@.skip(i as int).subrange(
                0,
                p.len() as int,
            ));
            return true;
        }
        assert(v@.subrange(i as int, i + p.len()) =~= v@.skip(i as int).subrange(
            0,
            p.len() as int,
        ));
        i = i + 1;
    }
    false
}

/// Whether the string `s` contains the string `p`.
pub fn str_contains(s: &str, p: &str) -> (r: bool)
    ensures
        r == contains_seq(s@, p@),
{
    let v = chars_of(s);
    let q = chars_of(p);
    contains_chars(&v, &q)
}

/// `s` with each `from` replaced by `to`.
pub open spec fn replace_char_spec(s: Seq<char>, from: char, to: char) -> Seq<char> {
    s.map_values(|c: char| if c == from { to } else { c })
}

/// `v` with each `from` replaced by `to` (`str::replace` with one-character
/// patterns).
pub fn replace_char(v: &Vec<char>, from: char, to: char) -> (r: Vec<char>)
    ensures
        r@ == replace_char_spec(v@, from, to),
{
    let mut r: Vec<char> = Vec::new();
    let mut i: usize = 0;
    while i < v.len()
        invariant
            i <= v.len(),
            r@ == replace_char_spec(v@.take(i as int), from, to),
        decreases v.len() - i,
    {
        let c = v[i];
        if c == from {
            r.push(to);
        } else {
            r.push(c);
        }
        i = i + 1;
        assert(r@ =~= replace_char_spec(v@.take(i as int), from, to));
    }
    assert(v@.take(v.len() as int) =~= v@);
    r
}

/// `s` without any occurrence of `c`.
pub open spec fn remove_char_spec(s: Seq<char>, c: char) -> Seq<char> {
    s.filter(|x: char| x != c)
}

/// `v` without any occurrence of `c` (`str::replace(c, "")`).
pub fn remove_char(v: &Vec<char>, c: char) -> (r: Vec<char>)
    ensures
        r@ == remove_char_spec(v@, c),
{
    let mut r: Vec<char> = Vec::new();
    let mut i: usize = 0;
    while i < v.len()
        invariant
            i <= v.len(),
            r@ == remove_char_spec(v@.take(i as int), c),
        decreases v.len() - i,
    {
        assert(v@.take(i + 1).drop_last() =~= v@.take(i as int));
        assert(v@.take(i + 1).last() == v@[i as int]);
        reveal(Seq::filter);
        if v[i] != c {
            r.push(v[i]);
        }
        i = i + 1;
    }
    assert(v@.take(v.len() as int) =~= v@);
    r
}

// ---------------------------------------------------------------------------
// Splitting and joining
// ---------------------------------------------------------------------------

/// Position of the first `c` in `s`, if any.
pub open spec fn first_index(s: Seq<char>, c: char) -> Option<int>
    decreases s.len(),
{
    if s.len() == 0 {
        None
    } else if s[0] == c {
        Some(0)
    } else {
        match first_index(s.drop_first(), c) {
            Some(i) => Some(i + 1),
            None => None,
        }
    }
}

/// Facts about `first_index`.
pub proof fn lemma_first_index(s: Seq<char>, c: char)
    ensures
        first_index(s, c) is None <==> !s.contains(c),
        first_index(s, c) matches Some(i) ==> 0 <= i < s.len() && s[i] == c && forall|j: int|
            0 <= j < i ==> s[j] != c,
    decreases s.len(),
{
    if s.len() > 0 {
        lemma_first_index(s.drop_first(), c);
        if s[0] != c {
            if s.contains(c) {
                let k = choose|k: int| 0 <= k < s.len() && s[k] == c;
                assert(s.drop_first()[k - 1] == c);
            }
            if s.drop_first().contains(c) {
                let k = choose|k: int| 0 <= k < s.drop_first().len() && s.drop_first()[k] == c;
                assert(s[k + 1] == c);
            }
            if let Some(i) = first_index(s.drop_first(), c) {
                assert forall|j: int| 0 <= j < i + 1 implies s[j] != c by {
                    if j > 0 {
                        assert(s[j] == s.drop_first()[j - 1]);
                    }
                }
            }
        } else {
            assert(s[0] == c);
        }
    }
}

/// A first occurrence found by position is the one `first_index` names.
pub proof fn lemma_first_index_at(s: Seq<char>, c: char, i: int)
    requires
        0 <= i < s.len(),
        s[i] == c,
        forall|j: int| 0 <= j < i ==> s[j] != c,
    ensures
        first_index(s, c) == Some(i),
    decreases s.len(),
{
    if i > 0 {
        assert(s.drop_first()[i - 1] == c);
        assert forall|j: int| 0 <= j < i - 1 implies s.drop_first()[j] != c by {
            assert(s.drop_first()[j] == s[j + 1]);
        }
        lemma_first_index_at(s.drop_first(), c, i - 1);
    }
}

/// A sequence without `c` has no first `c`.
pub proof fn lemma_first_index_none(s: Seq<char>, c: char)
    requires
        forall|j: int| 0 <= j < s.len() ==> s[j] != c,
    ensures
        first_index(s, c) is None,
{
    lemma_first_index(s, c);
}

/// The first position of `c` in `v` at or after `from`.
pub fn find_char_from(v: &Vec<char>, c: char, from: usize) -> (r: Option<usize>)
    requires
        from <= v.len(),
    ensures
        r matches Some(k) ==> from <= k < v.len() && v@[k as int] == c && first_index(
            v@.skip(from as int),
            c,
        ) == Some(k - from),
        r is None ==> first_index(v@.skip(from as int), c) is None,
{
    let mut i: usize = from;
    while i < v.len()
        invariant
            from <= i <= v.len(),
            forall|j: int| from <= j < i ==> v@[j] != c,
        decreases v.len() - i,
    {
        if v[i] == c {
            proof {
                let t = v@.skip(from as int);
                assert forall|j: int| 0 <= j < i - from implies t[j] != c by {
                    assert(t[j] == v@[j + from]);
                }
                lemma_first_index_at(t, c, i - from);
            }
            return Some(i);
        }
        i = i + 1;
    }
    proof {
        let t = v@.skip(from as int);
        assert forall|j: int| 0 <= j < t.len() implies t[j] != c by {
            assert(t[j] == v@[j + from]);
        }
        lemma_first_index_none(t, c);
    }
    None
}

/// The parts of `s` before and after the first `c` (`str::split_once` with
/// a `char`).
pub open spec fn split_once_spec(s: Seq<char>, c: char) -> Option<(Seq<char>, Seq<char>)> {
    match first_index(s, c) {
        Some(i) => Some((s.take(i), s.skip(i + 1))),
        None => None,
    }
}

/// `v` split at its first `c`.
pub fn split_once_chars(v: &Vec<char>, c: char) -> (r: Option<(Vec<char>, Vec<char>)>)
    ensures
        r matches Some((a, b)) ==> split_once_spec(v@, c) == Some((a@, b@)),
        r is None ==> split_once_spec(v@, c) is None,
{
    assert(v@.skip(0) =~= v@);
    proof {
        lemma_first_index(v@, c);
    }
    match find_char_from(v, c, 0) {
        Some(i) => {

            let a = slice_chars(v, 0, i);
            let b = slice_chars(v, i + 1, v.len());
            assert(a@ =~= v@.take(i as int));
            assert(b@ =~= v@.skip(i + 1));
            Some((a, b))
        },
        None => None,
    }
}

/// The pieces of `s` between occurrences of `c` (`str::split` with a
/// `char`); an empty `s` gives one empty piece.
pub open spec fn split_on(s: Seq<char>, c: char) -> Seq<Seq<char>>
    decreases s.len(),
{
    match first_index(s, c) {
        Some(i) => {
            if 0 <= i < s.len() {
                seq![s.take(i)] + split_on(s.skip(i + 1), c)
            } else {
                seq![s]
            }
        },
        None => seq![s],
    }
}

/// `v` split at every `c`.
pub fn split_chars(v: &Vec<char>, c: char) -> (r: Vec<Vec<char>>)
    ensures
        r@.len() == split_on(v@, c).len(),
        forall|k: int| 0 <= k < r@.len() ==> #[trigger] r@[k]@ == split_on(v@, c)[k],
{
    let mut r: Vec<Vec<char>> = Vec::new();
    let mut start: usize = 0;
    let ghost done: Seq<Seq<char>> = Seq::empty();
    assert(v@.skip(0) =~= v@);
    loop
        invariant
            start <= v.len(),
            r@.len() == done.len(),
            forall|k: int| 0 <= k < r@.len() ==> #[trigger] r@[k]@ == done[k],
            done + split_on(v@.skip(start as int), c) == split_on(v@, c),
        decreases v.len() - start,
    {
        let ghost rest = v@.skip(start as int);
        proof {
            lemma_first_index(rest, c);
        }
        match find_char_from(v, c, start) {
            Some(i) => {
                let piece = slice_chars(v, start, i);
                assert(piece@ =~= rest.take(i - start));
                assert(rest.skip(i - start + 1) =~= v@.skip(i + 1));
                proof {
                    assert(split_on(rest, c) == seq![rest.take(i - start)] + split_on(
                        rest.skip(i - start + 1),
                        c,
                    ));
                    done = done.push(piece@);
                    assert(done + split_on(v@.skip(i + 1), c) =~= split_on(v@, c));
                }
                r.push(piece);
                start = i + 1;
            },
            None => {
                let piece = slice_chars(v, start, v.len());
                assert(piece@ =~= rest);
                proof {
                    done = done.push(piece@);
                    assert(done =~= split_on(v@, c));
                }
                r.push(piece);
                return r;
            },
        }
    }
}

/// The lines of `s` as `str::lines` yields them: pieces ending at each
/// `\n` (a `\r` right before the `\n` is dropped too); a final line ending
/// adds no empty line, and an empty `s` has no lines.
pub open spec fn lines_spec(s: Seq<char>) -> Seq<Seq<char>>
    decreases s.len(),
{
    if s.len() == 0 {
        Seq::empty()
    } else {
        match first_index(s, '\n') {
            Some(i) => {
                if 0 <= i < s.len() {
                    let line = s.take(i);
                    let line = if line.len() > 0 && line.last() == '\r' {
                        line.drop_last()
                    } else {
                        line
                    };
                    seq![line] + lines_spec(s.skip(i + 1))
                } else {
                    seq![s]
                }
            },
            None => seq![s],
        }
    }
}

/// The lines of `v`.
pub fn lines_chars(v: &Vec<char>) -> (r: Vec<Vec<char>>)
    ensures
        r@.len() == lines_spec(v@).len(),
        forall|k: int| 0 <= k < r@.len() ==> #[trigger] r@[k]@ == lines_spec(v@)[k],
{
    let mut r: Vec<Vec<char>> = Vec::new();
    let mut start: usize = 0;
    let ghost done: Seq<Seq<char>> = Seq::empty();
    assert(v@.skip(0) =~= v@);
    while start < v.len()
        invariant
            start <= v.len(),
            r@.len() == done.len(),
            forall|k: int| 0 <= k < r@.len() ==> #[trigger] r@[k]@ == done[k],
            done + lines_spec(v@.skip(start as int)) == lines_spec(v@),
        decreases v.len() - start,
    {
        let ghost rest = v@.skip(start as int);
        proof {
            lemma_first_index(rest, '\n');
        }
        match find_char_from(v, '\n', start) {
            Some(i) => {
                let end = if i > start && v[i - 1] == '\r' {
                    i - 1
                } else {
                    i
                };
                let piece = slice_chars(v, start, end);
                proof {
                    let line = rest.take(i - start);
                    if i > start && v@[i - 1] == '\r' {
                        assert(piece@ =~= line.drop_last());
                    } else {
                        assert(piece@ =~= line);
                    }
                    assert(rest.skip(i - start + 1) =~= v@.skip(i + 1));
                    done = done.push(piece@);
                    assert(done + lines_spec(v@.skip(i + 1)) =~= lines_spec(v@));
                }
                r.push(piece);
                start = i + 1;
            },
            None => {
                let piece = slice_chars(v, start, v.len());
                assert(piece@ =~= rest);
                proof {
                    done = done.push(piece@);
                    assert(done =~= lines_spec(v@));
                }
                r.push(piece);
                return r;
            },
        }
    }
    assert(v@.skip(start as int) =~= Seq::<char>::empty());
    assert(done =~= lines_spec(v@));
    r
}

/// The pieces joined with `sep` between each two (`[T]::join`).
pub open spec fn join_spec(parts: Seq<Seq<char>>, sep: Seq<char>) -> Seq<char>
    decreases parts.len(),
{
    if parts.len() == 0 {
        Seq::empty()
    } else if parts.len() == 1 {
        parts[0]
    } else {
        join_spec(parts.drop_last(), sep) + sep + parts.last()
    }
}

/// The strings joined with `sep` between each two.
pub fn join_strings(parts: &Vec<String>, sep: &str) -> (r: String)
    ensures
        r@ == join_spec(parts@.map_values(|p: String| p@), sep@),
{
    let ghost views = parts@.map_values(|p: String| p@);
    let mut r = String::new();
    let mut i: usize = 0;
    while i < parts.len()
        invariant
            i <= parts.len(),
            views == parts@.map_values(|p: String| p@),
            r@ == join_spec(views.take(i as int), sep@),
        decreases parts.len() - i,
    {
        assert(views.take(i + 1).drop_last() =~= views.take(i as int));
        if i > 0 {
            r.append(sep);
        }
        r.append(parts[i].as_str());
        i = i + 1;
        assert(views.take(i as int).last() == parts@[i - 1]@);
    }
    assert(views.take(parts.len() as int) =~= views);
    r
}

// ---------------------------------------------------------------------------
// Decimal numbers
// ---------------------------------------------------------------------------

/// Whether `c` is one of `0`..`9`.
pub open spec fn is_digit(c: char) -> bool {
    48 <= (c as u32) <= 57
}

/// The value of a digit character.
pub open spec fn digit_value(c: char) -> int {
    (c as u32) - 48
}

/// Whether every character of `s` is a digit.
pub open spec fn all_digits(s: Seq<char>) -> bool {
    forall|i: int| 0 <= i < s.len() ==> is_digit(#[trigger] s[i])
}

/// The number that the digits `s` write in base ten.
pub open spec fn decimal_value(s: Seq<char>) -> int
    decreases s.len(),
{
    if s.len() == 0 {
        0
    } else {
        decimal_value(s.drop_last()) * 10 + digit_value(s.last())
    }
}

/// What `str::parse` gives for an unsigned integer type whose largest value
/// is `max`: an optional `+`, then one or more digits whose value is at most
/// `max`; anything else is refused.
pub open spec fn parse_unsigned_spec(s: Seq<char>, max: int) -> Option<int> {
    let d = unsigned_digits(s);
    if d.len() > 0 && all_digits(d) && decimal_value(d) <= max {
        Some(decimal_value(d))
    } else {
        None
    }
}

/// `s` without the one `+` sign that may lead it.
pub open spec fn unsigned_digits(s: Seq<char>) -> Seq<char> {
    if s.len() > 0 && s[0] == '+' {
        s.drop_first()
    } else {
        s
    }
}

/// Digits never make a smaller number when more digits follow.
pub proof fn lemma_decimal_prefix(s: Seq<char>, k: int)
    requires
        all_digits(s),
        0 <= k <= s.len(),
    ensures
        0 <= decimal_value(s.take(k)) <= decimal_value(s),
    decreases s.len(),
{
    if s.len() > 0 {
        assert(all_digits(s.drop_last()));
        if k < s.len() {
            assert(s.drop_last().take(k) =~= s.take(k));
            lemma_decimal_prefix(s.drop_last(), k);
        } else {
            assert(s.take(k) =~= s);
            lemma_decimal_prefix(s.drop_last(), 0);
            assert(s.drop_last().take(0) =~= s.take(0));
        }
    } else {
        assert(s.take(k) =~= s);
    }
}

/// Parses the digits `v` (with an optional `+` first) as a number of at most
/// `max`.
pub fn parse_unsigned(v: &Vec<char>, max: u64) -> (r: Option<u64>)
    requires
        max <= u32::MAX,
    ensures
        r matches Some(n) ==> parse_unsigned_spec(v@, max as int) == Some(n as int),
        r is None ==> parse_unsigned_spec(v@, max as int) is None,
{
    let start: usize = if v.len() > 0 && v[0] == '+' {
        1
    } else {
        0
    };
    let ghost d = unsigned_digits(v@);
    assert(d =~= v@.skip(start as int));
    if start >= v.len() {
        return None;
    }
    let mut acc: u64 = 0;
    let mut i: usize = start;
    while i < v.len()
        invariant
            start <= i <= v.len(),
            d == v@.skip(start as int),
            d == unsigned_digits(v@),
            max <= u32::MAX,
            all_digits(d.take(i - start)),
            acc == decimal_value(d.take(i - start)),
            acc <= max,
        decreases v.len() - i,
    {
        let c = v[i];
        let u = c as u32;
        assert(d.take(i - start + 1).drop_last() =~= d.take(i - start));
        assert(d[i - start] == c);
        if u < 48 || u > 57 {
            assert(!is_digit(d[i - start]));
            assert(!all_digits(d));
            assert(parse_unsigned_spec(v@, max as int) is None);
            return None;
        }
        let next = acc * 10 + (u - 48) as u64;
        proof {
            let t = d.take(i - start + 1);
            assert(t.last() == c);
            assert(decimal_value(t) == decimal_value(t.drop_last()) * 10 + digit_value(t.last()));
            assert(next == decimal_value(t));
            assert forall|m: int| 0 <= m < t.len() implies is_digit(#[trigger] t[m]) by {
                if m < i - start {
                    assert(t[m] == d.take(i - start)[m]);
                }
            }
        }
        if next > max {
            proof {
                if all_digits(d) {
                    lemma_decimal_prefix(d, i - start + 1);
                }
                assert(parse_unsigned_spec(v@, max as int) is None);
            }
            return None;
        }
        acc = next;
        i = i + 1;
    }
    assert(d.take(i - start) =~= d);
    Some(acc)
}

/// The character of a digit value below ten.
pub open spec fn digit_char(d: int) -> char {
    ((d + 48) as u8) as char
}

/// The base-ten digits of `n`, without leading zeros.
pub open spec fn decimal_text(n: nat) -> Seq<char>
    decreases n,
{
    if n < 10 {
        seq![digit_char(n as int)]
    } else {
        decimal_text(n / 10).push(digit_char((n % 10) as int))
    }
}

/// Digit characters and digit values correspond.
pub proof fn lemma_digit_char(d: int)
    requires
        0 <= d < 10,
    ensures
        is_digit(digit_char(d)),
        digit_value(digit_char(d)) == d,
        digit_char(d) != '+',
{
    assert(((d + 48) as u8) as char as u32 == (d + 48) as u8);
}

/// The digits of a number spell that number.
pub proof fn lemma_decimal_text(n: nat)
    ensures
        decimal_text(n).len() > 0,
        all_digits(decimal_text(n)),
        decimal_value(decimal_text(n)) == n,
        decimal_text(n)[0] != '+',
    decreases n,
{
    lemma_digit_char((n % 10) as int);
    if n >= 10 {
        lemma_decimal_text(n / 10);
        let t = decimal_text(n);
        assert forall|m: int| 0 <= m < t.len() implies is_digit(#[trigger] t[m]) by {
            if m < t.len() - 1 {
                assert(t[m] == decimal_text(n / 10)[m]);
            }
        }
        assert(t.drop_last() =~= decimal_text(n / 10));
        assert(t[0] == decimal_text(n / 10)[0]);
        assert(decimal_value(t) == decimal_value(t.drop_last()) * 10 + digit_value(t.last()));
        assert(n == (n / 10) * 10 + n % 10);
        assert(t.last() == digit_char((n % 10) as int));
        assert(decimal_value(t.drop_last()) == n / 10);
    } else {
        let t = decimal_text(n);
        assert(t.drop_last() =~= Seq::<char>::empty());
        assert(decimal_value(t) == decimal_value(t.drop_last()) * 10 + digit_value(t.last()));
        assert(t.last() == digit_char(n as int));
        assert(n % 10 == n);
    }
}

/// Writing a number in decimal and parsing it back gives the number.
pub proof fn lemma_parse_decimal_text(n: nat, max: int)
    requires
        n <= max,
    ensures
        parse_unsigned_spec(decimal_text(n), max) == Some(n as int),
{
    lemma_decimal_text(n);
}

/// The decimal text of `n` (`u64::to_string`).
pub fn decimal_string(n: u64) -> (r: String)
    ensures
        r@ == decimal_text(n as nat),
    decreases n,
{
    if n < 10 {
        let mut s = String::new();
        push_char(&mut s, ((n as u8) + 48) as char);
        assert(s@ =~= seq![digit_char(n as int)]);
        s
    } else {
        let mut s = decimal_string(n / 10);
        push_char(&mut s, (((n % 10) as u8) + 48) as char);
        s
    }
}

// ---------------------------------------------------------------------------
// Letter case
// ---------------------------------------------------------------------------

/// Whether every character of `s` is ASCII.
pub open spec fn is_ascii_seq(s: Seq<char>) -> bool {
    forall|i: int| 0 <= i < s.len() ==> (#[trigger] s[i] as u32) < 128
}

/// The ASCII lowercase of a character (`A`..`Z` become `a`..`z`).
pub open spec fn ascii_lower(c: char) -> char {
    if 65 <= (c as u32) <= 90 {
        ((c as u32 + 32) as u8) as char
    } else {
        c
    }
}

/// The ASCII uppercase of a character (`a`..`z` become `A`..`Z`).
pub open spec fn ascii_upper(c: char) -> char {
    if 97 <= (c as u32) <= 122 {
        ((c as u32 - 32) as u8) as char
    } else {
        c
    }
}

/// `s` with each character lowered as ASCII.
pub open spec fn ascii_lower_seq(s: Seq<char>) -> Seq<char> {
    s.map_values(|c: char| ascii_lower(c))
}

/// `s` with each character raised as ASCII.
pub open spec fn ascii_upper_seq(s: Seq<char>) -> Seq<char> {
    s.map_values(|c: char| ascii_upper(c))
}

/// What `str::to_lowercase` returns: the Unicode lowercase of `s`.
pub uninterp spec fn unicode_lowercase(s: Seq<char>) -> Seq<char>;

/// What `str::to_uppercase` returns: the Unicode uppercase of `s`.
pub uninterp spec fn unicode_uppercase(s: Seq<char>) -> Seq<char>;

/// `str::to_lowercase`. Its result is named by `unicode_lowercase`; for
/// text made only of ASCII characters the Unicode mapping lowers exactly the
/// letters `A`..`Z`, one character each.
#[verifier::external_body]
pub(crate) fn to_lowercase(s: &str) -> (r: String)
    ensures
        r@ == unicode_lowercase(s@),
        is_ascii_seq(s@) ==> r@ == ascii_lower_seq(s@),
{
    s.to_lowercase()
}

/// `str::to_uppercase`. Its result is named by `unicode_uppercase`; for
/// text made only of ASCII characters the Unicode mapping raises exactly the
/// letters `a`..`z`, one character each.
#[verifier::external_body]
pub(crate) fn to_uppercase(s: &str) -> (r: String)
    ensures
        r@ == unicode_uppercase(s@),
        is_ascii_seq(s@) ==> r@ == ascii_upper_seq(s@),
{
    s.to_uppercase()
}

// ---------------------------------------------------------------------------
// UTF-8
// ---------------------------------------------------------------------------

/// What `String::from_utf8_lossy` gives for `bytes`: the decoded text, with
/// each invalid sequence replaced by U+FFFD.
pub uninterp spec fn utf8_lossy_text(bytes: Seq<u8>) -> Seq<char>;

/// `String::from_utf8_lossy(bytes).to_string()`. Its result is named by
/// `utf8_lossy_text`; for valid UTF-8 it is the decoded text.
#[verifier::external_body]
pub(crate) fn utf8_lossy(bytes: &[u8]) -> (r: String)
    ensures
        r@ == utf8_lossy_text(bytes@),
        valid_utf8(bytes@) ==> r@ == decode_utf8(bytes@),
{
    String::from_utf8_lossy(bytes).to_string()
}

/// `String::from_utf8(bytes.to_vec()).ok()`: the decoded text exactly when
/// the bytes are valid UTF-8.
#[verifier::external_body]
pub(crate) fn utf8_decode(bytes: &[u8]) -> (r: Option<String>)
    ensures
        r is Some <==> valid_utf8(bytes@),
        r matches Some(s) ==> s@ == decode_utf8(bytes@),
{
    String::from_utf8(bytes.to_vec()).ok()
}

} // verus!
