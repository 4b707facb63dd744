//! Character-level text utilities shared by the rest of the library.
//!
//! Strings are modelled by their `Seq<char>` views.  Whitespace follows
//! the Unicode `White_Space` property, which is what `char::is_whitespace`
//! (and therefore `str::trim` and `str::split_whitespace`) uses.
use vstd::prelude::*;

verus! {

// ---------------------------------------------------------------------
// Conversions between `str`, `String` and `Vec<char>`.
// ---------------------------------------------------------------------

/// The view of an optional string.
pub open spec fn opt_view(o: Option<String>) -> Option<Seq<char>> {
    match o {
        Some(s) => Some(s@),
        None => None,
    }
}

/// Membership after a push.
pub proof fn lemma_contains_push<A>(s: Seq<A>, x: A, y: A)
    ensures
        s.push(x).contains(y) <==> (s.contains(y) || x == y),
{
    let t = s.push(x);
    if s.contains(y) {
        let k = choose|k: int| 0 <= k < s.len() && s[k] == y;
        assert(t[k] == y);
    }
    if x == y {
        assert(t[s.len() as int] == y);
    }
    if t.contains(y) {
        let k = choose|k: int| 0 <= k < t.len() && t[k] == y;
        if k < s.len() {
            assert(s[k] == y);
        }
    }
}

/// Copies the characters of `s` into a vector.
pub fn chars_of(s: &str) -> (out: Vec<char>)
    ensures
        out@ == s@,
{
    let mut out: Vec<char> = Vec::new();
    for c in it: s.chars()
        invariant
            out@ == it.seq().take(it.index() as int),
            it.seq() == s@,
    {
        out.push(c);
    }
    out
}

/// Appends one character to a string (`String::push`).
#[verifier::external_body]
pub(crate) fn push_char(s: &mut String, c: char)
    ensures
        final(s)@ == old(s)@.push(c),
{
    s.push(c);
}

/// Appends `v[lo..hi]` to `out`.
pub fn push_range(out: &mut String, v: &Vec<char>, lo: usize, hi: usize)
    requires
        lo <= hi <= v@.len(),
    ensures
        final(out)@ == old(out)@ + v@.subrange(lo as int, hi as int),
{
    let mut i: usize = lo;
    while i < hi
        invariant
            lo <= i <= hi <= v@.len(),
            out@ == old(out)@ + v@.subrange(lo as int, i as int),
        decreases hi - i,
    {
        push_char(out, v[i]);
        i = i + 1;
        assert(out@ =~= old(out)@ + v@.subrange(lo as int, i as int));
    }
}

/// Builds a string from `v[lo..hi]`.
pub fn string_of_range(v: &Vec<char>, lo: usize, hi: usize) -> (s: String)
    requires
        lo <= hi <= v@.len(),
    ensures
        s@ == v@.subrange(lo as int, hi as int),
{
    let mut s = String::new();
    push_range(&mut s, v, lo, hi);
    assert(s@ =~= v@.subrange(lo as int, hi as int));
    s
}

/// Builds a string from all characters of `v`.
pub fn string_of(v: &Vec<char>) -> (s: String)
    ensures
        s@ == v@,
{
    let s = string_of_range(v, 0, v.len());
    assert(v@.subrange(0, v@.len() as int) =~= v@);
    s
}

/// Copies a string slice into an owned string.
pub fn owned(s: &str) -> (r: String)
    ensures
        r@ == s@,
{
    let v = chars_of(s);
    string_of(&v)
}

/// Appends a string slice to a string.
pub fn push_str(out: &mut String, s: &str)
    ensures
        final(out)@ == old(out)@ + s@,
{
    let v = chars_of(s);
    push_range(out, &v, 0, v.len());
    assert(v@.subrange(0, v@.len() as int) =~= v@);
}

/// Concatenation of two string slices.
pub fn concat(a: &str, b: &str) -> (r: String)
    ensures
        r@ == a@ + b@,
{
    let mut r = owned(a);
    push_str(&mut r, b);
    r
}

/// String equality by characters.
pub fn str_eq(a: &str, b: &str) -> (r: bool)
    ensures
        r == (a@ == b@),
{
    let x = chars_of(a);
    let y = chars_of(b);
    seq_eq(&x, &y)
}

/// Sequence equality of two character vectors.
pub fn seq_eq(x: &Vec<char>, y: &Vec<char>) -> (r: bool)
    ensures
        r == (x@ == y@),
{
    if x.len() != y.len() {
        return false;
    }
    let mut i: usize = 0;
    while i < x.len()
        invariant
            x@.len() == y@.len(),
            i <= x@.len(),
            forall|j: int| 0 <= j < i ==> x@[j] == y@[j],
        decreases x.len() - i,
    {
        if x[i] != y[i] {
            return false;
        }
        i = i + 1;
    }
    assert(x@ =~= y@);
    true
}

// ---------------------------------------------------------------------
// Whitespace.
// ---------------------------------------------------------------------

/// Unicode `White_Space`, as used by `char::is_whitespace`.
pub open spec fn is_ws(c: char) -> bool {
    ||| ('\u{9}' <= c && c <= '\u{d}')
    ||| c == ' '
    ||| c == '\u{85}'
    ||| c == '\u{a0}'
    ||| c == '\u{1680}'
    ||| ('\u{2000}' <= c && c <= '\u{200a}')
    ||| c == '\u{2028}'
    ||| c == '\u{2029}'
    ||| c == '\u{202f}'
    ||| c == '\u{205f}'
    ||| c == '\u{3000}'
}

pub fn is_whitespace(c: char) -> (r: bool)
    ensures
        r == is_ws(c),
{
    ('\u{9}' <= c && c <= '\u{d}') || c == ' ' || c == '\u{85}' || c == '\u{a0}' || c == '\u{1680}'
        || ('\u{2000}' <= c && c <= '\u{200a}') || c == '\u{2028}' || c == '\u{2029}' || c
        == '\u{202f}' || c == '\u{205f}' || c == '\u{3000}'
}

/// Every character of `s` is whitespace (so `s.trim()` is empty).
pub open spec fn all_ws(s: Seq<char>) -> bool {
    forall|i: int| 0 <= i < s.len() ==> is_ws(#[trigger] s[i])
}

/// `s` without its trailing whitespace (`str::trim_end`).
pub open spec fn trim_end_seq(s: Seq<char>) -> Seq<char>
    decreases s.len(),
{
    if s.len() > 0 && is_ws(s.last()) {
        trim_end_seq(s.drop_last())
    } else {
        s
    }
}

/// `s` without its leading whitespace (`str::trim_start`).
pub open spec fn trim_start_seq(s: Seq<char>) -> Seq<char>
    decreases s.len(),
{
    if s.len() > 0 && is_ws(s[0]) {
        trim_start_seq(s.drop_first())
    } else {
        s
    }
}

/// `s` without leading and trailing whitespace (`str::trim`).
pub open spec fn trim_seq(s: Seq<char>) -> Seq<char> {
    trim_start_seq(trim_end_seq(s))
}

/// The length of `trim_end_seq(v)`, which is a prefix of `v`.
pub fn trim_end_len(v: &Vec<char>) -> (k: usize)
    ensures
        k <= v@.len(),
        trim_end_seq(v@) == v@.take(k as int),
{
    let mut k: usize = v.len();
    assert(v@.take(k as int) =~= v@);
    while k > 0 && is_whitespace(v[k - 1])
        invariant
            k <= v@.len(),
            trim_end_seq(v@) == trim_end_seq(v@.take(k as int)),
        decreases k,
    {
        assert(v@.take(k as int).drop_last() =~= v@.take(k - 1));
        k = k - 1;
    }
    k
}

/// The index of the first non-whitespace character of `v[..hi]`.
pub fn trim_start_index(v: &Vec<char>, hi: usize) -> (k: usize)
    requires
        hi <= v@.len(),
    ensures
        k <= hi,
        trim_start_seq(v@.take(hi as int)) == v@.subrange(k as int, hi as int),
{
    let mut k: usize = 0;
    assert(v@.take(hi as int) =~= v@.subrange(0, hi as int));
    while k < hi && is_whitespace(v[k])
        invariant
            k <= hi <= v@.len(),
            trim_start_seq(v@.take(hi as int)) == trim_start_seq(v@.subrange(k as int, hi as int)),
        decreases hi - k,
    {
        assert(v@.subrange(k as int, hi as int).drop_first() =~= v@.subrange(k + 1, hi as int));
        k = k + 1;
    }
    k
}

/// `trim_end_seq(s)` is a prefix of `s`.
pub proof fn lemma_trim_end_prefix(s: Seq<char>)
    ensures
        exists|k: int| 0 <= k <= s.len() && trim_end_seq(s) == s.take(k),
    decreases s.len(),
{
    if s.len() > 0 && is_ws(s.last()) {
        lemma_trim_end_prefix(s.drop_last());
        let k = choose|k: int| 0 <= k <= s.drop_last().len() && trim_end_seq(s.drop_last()) == s.drop_last().take(k);
        assert(s.drop_last().take(k) =~= s.take(k));
    } else {
        assert(s.take(s.len() as int) =~= s);
    }
}

/// `str::trim`.
pub fn trim(s: &str) -> (r: String)
    ensures
        r@ == trim_seq(s@),
{
    let v = chars_of(s);
    let hi = trim_end_len(&v);
    let lo = trim_start_index(&v, hi);
    string_of_range(&v, lo, hi)
}

/// `str::trim_end`.
pub fn trim_end(s: &str) -> (r: String)
    ensures
        r@ == trim_end_seq(s@),
{
    let v = chars_of(s);
    let hi = trim_end_len(&v);
    let r = string_of_range(&v, 0, hi);
    assert(v@.subrange(0, hi as int) =~= v@.take(hi as int));
    r
}

/// Whether `s.trim().is_empty()`.
pub fn is_blank(s: &str) -> (r: bool)
    ensures
        r == all_ws(s@),
{
    let v = chars_of(s);
    let mut i: usize = 0;
    while i < v.len()
        invariant
            v@ == s@,
            i <= v@.len(),
            forall|j: int| 0 <= j < i ==> is_ws(#[trigger] v@[j]),
        decreases v.len() - i,
    {
        if !is_whitespace(v[i]) {
            return false;
        }
        i = i + 1;
    }
    true
}

// ---------------------------------------------------------------------
// ASCII case.
// ---------------------------------------------------------------------

pub open spec fn is_ascii_upper(c: char) -> bool {
    'A' <= c && c <= 'Z'
}

pub open spec fn is_ascii_lower(c: char) -> bool {
    'a' <= c && c <= 'z'
}

pub open spec fn is_ascii_alpha(c: char) -> bool {
    is_ascii_upper(c) || is_ascii_lower(c)
}

pub open spec fn is_ascii_digit(c: char) -> bool {
    '0' <= c && c <= '9'
}

pub open spec fn is_ascii_alnum(c: char) -> bool {
    is_ascii_alpha(c) || is_ascii_digit(c)
}

/// `char::to_ascii_lowercase`.
pub open spec fn ascii_lower(c: char) -> char {
    if is_ascii_upper(c) {
        ((c as u32) + 32) as char
    } else {
        c
    }
}

pub fn ascii_alpha(c: char) -> (r: bool)
    ensures
        r == is_ascii_alpha(c),
{
    ('a' <= c && c <= 'z') || ('A' <= c && c <= 'Z')
}

pub fn ascii_digit(c: char) -> (r: bool)
    ensures
        r == is_ascii_digit(c),
{
    '0' <= c && c <= '9'
}

pub fn ascii_alnum(c: char) -> (r: bool)
    ensures
        r == is_ascii_alnum(c),
{
    ascii_alpha(c) || ascii_digit(c)
}

pub fn to_ascii_lower(c: char) -> (r: char)
    ensures
        r == ascii_lower(c),
{
    if 'A' <= c && c <= 'Z' {
        let u = (c as u32) + 32;
        assert(0x61 <= u <= 0x7a);
        char_from_ascii(u)
    } else {
        c
    }
}

/// Converts a code point below 0x80 to its character.
fn char_from_ascii(u: u32) -> (c: char)
    requires
        u < 0x80,
    ensures
        c == u as char,
{
    let b = u as u8;
    b as char
}

/// `str::eq_ignore_ascii_case` on character sequences.
pub open spec fn eq_ignore_ascii_case(a: Seq<char>, b: Seq<char>) -> bool {
    a.len() == b.len() && forall|i: int| 0 <= i < a.len() ==> ascii_lower(#[trigger] a[i])
        == ascii_lower(b[i])
}

/// `str::eq_ignore_ascii_case`.
pub fn str_eq_ignore_ascii_case(a: &str, b: &str) -> (r: bool)
    ensures
        r == eq_ignore_ascii_case(a@, b@),
{
    let x = chars_of(a);
    let y = chars_of(b);
    if x.len() != y.len() {
        return false;
    }
    let mut i: usize = 0;
    while i < x.len()
        invariant
            x@ == a@,
            y@ == b@,
            x@.len() == y@.len(),
            i <= x@.len(),
            forall|j: int| 0 <= j < i ==> ascii_lower(#[trigger] x@[j]) == ascii_lower(y@[j]),
        decreases x.len() - i,
    {
        if to_ascii_lower(x[i]) != to_ascii_lower(y[i]) {
            return false;
        }
        i = i + 1;
    }
    true
}

// ---------------------------------------------------------------------
// Unicode case mapping (std).
// ---------------------------------------------------------------------

/// The characters that `str::to_lowercase` produces for a string.
pub uninterp spec fn unicode_lowercase(s: Seq<char>) -> Seq<char>;

/// The characters that `char::to_uppercase` produces for a character.
pub uninterp spec fn unicode_uppercase_char(c: char) -> Seq<char>;

/// `str::to_lowercase`: the result is named by `unicode_lowercase` of the
/// input's characters; the Unicode case tables themselves are not stated.
#[verifier::external_body]
pub(crate) fn to_lowercase(s: &str) -> (r: String)
    ensures
        r@ == unicode_lowercase(s@),
{
    s.to_lowercase()
}

/// `char::to_uppercase`, collected into a string: the result is named by
/// `unicode_uppercase_char` of the input; the tables are not stated.
#[verifier::external_body]
pub(crate) fn char_to_uppercase(c: char) -> (r: String)
    ensures
        r@ == unicode_uppercase_char(c),
{
    c.to_uppercase().collect()
}

// ---------------------------------------------------------------------
// Substrings.
// ---------------------------------------------------------------------

/// `p` occurs in `s` starting at index `i`.
pub open spec fn occurs_at(s: Seq<char>, p: Seq<char>, i: int) -> bool {
    0 <= i && i + p.len() <= s.len() && s.subrange(i, i + p.len()) == p
}

/// No character of `s` is `<`.
pub open spec fn has_no_lt(s: Seq<char>) -> bool {
    forall|i: int| 0 <= i < s.len() ==> s[i] != '<'
}

/// `str::contains` with a string pattern.
pub open spec fn contains_seq(s: Seq<char>, p: Seq<char>) -> bool {
    exists|i: int| occurs_at(s, p, i)
}

/// `str::starts_with`.
pub open spec fn starts_with(s: Seq<char>, p: Seq<char>) -> bool {
    p.len() <= s.len() && s.take(p.len() as int) == p
}

/// `str::ends_with`.
pub open spec fn ends_with(s: Seq<char>, p: Seq<char>) -> bool {
    p.len() <= s.len() && s.skip(s.len() - p.len()) == p
}

/// The first index at or after `i` where `p` occurs in `s` (`str::find`).
pub open spec fn find_from(s: Seq<char>, p: Seq<char>, i: int) -> Option<int>
    decreases s.len() + 1 - i,
{
    if i < 0 || i + p.len() > s.len() {
        None
    } else if occurs_at(s, p, i) {
        Some(i)
    } else {
        find_from(s, p, i + 1)
    }
}

/// The last index below `i` (exclusive) where `p` occurs (`str::rfind`
/// for `i == s.len() - p.len() + 1`).
pub open spec fn rfind_below(s: Seq<char>, p: Seq<char>, i: int) -> Option<int>
    decreases i,
{
    if i <= 0 {
        None
    } else if occurs_at(s, p, i - 1) {
        Some(i - 1)
    } else {
        rfind_below(s, p, i - 1)
    }
}

/// `str::rfind`.
pub open spec fn rfind_seq(s: Seq<char>, p: Seq<char>) -> Option<int> {
    rfind_below(s, p, s.len() - p.len() + 1)
}

pub proof fn lemma_find_from_props(s: Seq<char>, p: Seq<char>, i: int)
    requires
        0 <= i,
    ensures
        find_from(s, p, i) matches Some(k) ==> i <= k && occurs_at(s, p, k) && forall|j: int|
            i <= j < k ==> !occurs_at(s, p, j),
        find_from(s, p, i) is None ==> forall|j: int| i <= j ==> !occurs_at(s, p, j),
    decreases s.len() + 1 - i,
{
    if i + p.len() > s.len() {
    } else if occurs_at(s, p, i) {
    } else {
        lemma_find_from_props(s, p, i + 1);
    }
}

pub proof fn lemma_rfind_below_props(s: Seq<char>, p: Seq<char>, i: int)
    ensures
        rfind_below(s, p, i) matches Some(k) ==> k < i && occurs_at(s, p, k) && forall|j: int|
            k < j < i ==> !occurs_at(s, p, j),
        rfind_below(s, p, i) is None ==> forall|j: int| j < i ==> !occurs_at(s, p, j),
    decreases i,
{
    if i <= 0 {
    } else if occurs_at(s, p, i - 1) {
    } else {
        lemma_rfind_below_props(s, p, i - 1);
    }
}

/// Whether `p` occurs in `s` at index `i`.
pub fn occurs_at_exec(s: &Vec<char>, p: &Vec<char>, i: usize) -> (r: bool)
    ensures
        r == occurs_at(s@, p@, i as int),
{
    let n = s.len();
    if i > n || p.len() > n - i {
        return false;
    }
    let mut j: usize = 0;
    while j < p.len()
        invariant
            n == s@.len(),
            i + p@.len() <= n,
            j <= p@.len(),
            forall|k: int| 0 <= k < j ==> s@[i + k] == p@[k],
        decreases p.len() - j,
    {
        if s[i + j] != p[j] {
            assert(s@.subrange(i as int, i + p@.len())[j as int] != p@[j as int]);
            return false;
        }
        j = j + 1;
    }
    assert(s@.subrange(i as int, i + p@.len()) =~= p@);
    true
}

/// The first occurrence of `p` in `s` at or after `from`.
pub fn find_vec(s: &Vec<char>, p: &Vec<char>, from: usize) -> (r: Option<usize>)
    ensures
        r matches Some(k) ==> find_from(s@, p@, from as int) == Some(k as int) && k + p@.len()
            <= s@.len(),
        r is None ==> find_from(s@, p@, from as int) is None,
{
    if p.len() > s.len() || from > s.len() - p.len() {
        return None;
    }
    let last = s.len() - p.len();
    let mut i = from;
    loop
        invariant
            from <= i <= last,
            last + p@.len() == s@.len(),
            find_from(s@, p@, from as int) == find_from(s@, p@, i as int),
        decreases last - i,
    {
        if occurs_at_exec(s, p, i) {
            return Some(i);
        }
        if i == last {
            assert(find_from(s@, p@, i + 1) is None);
            return None;
        }
        i = i + 1;
    }
}

/// The last occurrence of `p` in `s`.
pub fn rfind_vec(s: &Vec<char>, p: &Vec<char>) -> (r: Option<usize>)
    ensures
        r matches Some(k) ==> rfind_seq(s@, p@) == Some(k as int) && k + p@.len() <= s@.len(),
        r is None ==> rfind_seq(s@, p@) is None,
{
    if p.len() > s.len() {
        proof {
            lemma_rfind_below_props(s@, p@, s@.len() - p@.len() + 1);
        }
        return None;
    }
    let mut i = s.len() - p.len();
    loop
        invariant
            i + p@.len() <= s@.len(),
            rfind_seq(s@, p@) == rfind_below(s@, p@, i + 1),
        decreases i,
    {
        if occurs_at_exec(s, p, i) {
            return Some(i);
        }
        if i == 0 {
            assert(rfind_below(s@, p@, 0) is None);
            return None;
        }
        i = i - 1;
    }
}

/// `str::contains`.
pub fn contains(s: &str, p: &str) -> (r: bool)
    ensures
        r == contains_seq(s@, p@),
{
    let x = chars_of(s);
    let y = chars_of(p);
    let r = find_vec(&x, &y, 0);
    proof {
        lemma_find_from_props(x@, y@, 0);
    }
    r.is_some()
}

/// `str::starts_with`.
pub fn starts_with_vec(s: &Vec<char>, p: &Vec<char>) -> (r: bool)
    ensures
        r == starts_with(s@, p@),
{
    let r = occurs_at_exec(s, p, 0);
    proof {
        if r {
            assert(s@.subrange(0, p@.len() as int) =~= s@.take(p@.len() as int));
        } else if p@.len() <= s@.len() {
            assert(s@.subrange(0, p@.len() as int) =~= s@.take(p@.len() as int));
        }
    }
    r
}

/// `str::ends_with`.
pub fn ends_with_vec(s: &Vec<char>, p: &Vec<char>) -> (r: bool)
    ensures
        r == ends_with(s@, p@),
{
    if p.len() > s.len() {
        return false;
    }
    let r = occurs_at_exec(s, p, s.len() - p.len());
    assert(s@.subrange(s@.len() - p@.len(), s@.len() as int) =~= s@.skip(s@.len() - p@.len()));
    r
}

/// `str::starts_with`.
pub fn str_starts_with(s: &str, p: &str) -> (r: bool)
    ensures
        r == starts_with(s@, p@),
{
    starts_with_vec(&chars_of(s), &chars_of(p))
}

/// `str::ends_with`.
pub fn str_ends_with(s: &str, p: &str) -> (r: bool)
    ensures
        r == ends_with(s@, p@),
{
    ends_with_vec(&chars_of(s), &chars_of(p))
}

/// `str::strip_prefix`.
pub fn strip_prefix(s: &str, p: &str) -> (r: Option<String>)
    ensures
        r matches Some(rest) ==> starts_with(s@, p@) && rest@ == s@.skip(p@.len() as int),
        r is None ==> !starts_with(s@, p@),
{
    let x = chars_of(s);
    let y = chars_of(p);
    if starts_with_vec(&x, &y) {
        let rest = string_of_range(&x, y.len(), x.len());
        assert(x@.subrange(y@.len() as int, x@.len() as int) =~= x@.skip(y@.len() as int));
        Some(rest)
    } else {
        None
    }
}

// ---------------------------------------------------------------------
// Padding and truncation.
// ---------------------------------------------------------------------

pub open spec fn spaces(n: nat) -> Seq<char> {
    Seq::new(n, |i: int| ' ')
}

/// `format!("{:<w$}", s)`: left-aligned in a field of `w` characters.
pub open spec fn pad_right_seq(s: Seq<char>, w: nat) -> Seq<char> {
    if s.len() >= w {
        s
    } else {
        s + spaces((w - s.len()) as nat)
    }
}

/// `format!("{:>w$}", s)`: right-aligned in a field of `w` characters.
pub open spec fn pad_left_seq(s: Seq<char>, w: nat) -> Seq<char> {
    if s.len() >= w {
        s
    } else {
        spaces((w - s.len()) as nat) + s
    }
}

fn push_spaces(out: &mut String, n: usize)
    ensures
        final(out)@ == old(out)@ + spaces(n as nat),
{
    let mut i: usize = 0;
    while i < n
        invariant
            i <= n,
            out@ == old(out)@ + spaces(i as nat),
        decreases n - i,
    {
        push_char(out, ' ');
        i = i + 1;
        assert(out@ =~= old(out)@ + spaces(i as nat));
    }
}

/// Left-aligns `s` in a field of `w` characters.
pub fn pad_right(s: &str, w: usize) -> (r: String)
    ensures
        r@ == pad_right_seq(s@, w as nat),
{
    let v = chars_of(s);
    let mut r = string_of(&v);
    if v.len() < w {
        push_spaces(&mut r, w - v.len());
    }
    r
}

/// Right-aligns `s` in a field of `w` characters.
pub fn pad_left(s: &str, w: usize) -> (r: String)
    ensures
        r@ == pad_left_seq(s@, w as nat),
{
    let v = chars_of(s);
    let mut r = String::new();
    if v.len() < w {
        push_spaces(&mut r, w - v.len());
    }
    push_range(&mut r, &v, 0, v.len());
    assert(v@.subrange(0, v@.len() as int) =~= v@);
    assert(r@ =~= pad_left_seq(s@, w as nat));
    r
}

/// Shortens `s` to at most `max` characters, ending in `...` when cut;
/// values are left alone when `max < 4`.
pub open spec fn clamp_seq(s: Seq<char>, max: nat) -> Seq<char> {
    if max < 4 || s.len() <= max {
        s
    } else {
        s.take(max - 3) + seq!['.', '.', '.']
    }
}

/// Shortens a display value to `max` characters.
pub fn clamp(value: &str, max: usize) -> (r: String)
    ensures
        r@ == clamp_seq(value@, max as nat),
        max >= 4 ==> r@.len() <= max,
{
    let v = chars_of(value);
    if max < 4 || v.len() <= max {
        return string_of(&v);
    }
    let mut r = string_of_range(&v, 0, max - 3);
    push_char(&mut r, '.');
    push_char(&mut r, '.');
    push_char(&mut r, '.');
    assert(v@.subrange(0, max - 3) =~= v@.take(max - 3));
    assert(r@ =~= clamp_seq(value@, max as nat));
    r
}

// ---------------------------------------------------------------------
// Joining and splitting.
// ---------------------------------------------------------------------

/// `slice::join` with a separator.
pub open spec fn join_seq(parts: Seq<Seq<char>>, sep: Seq<char>) -> Seq<char>
    decreases parts.len(),
{
    if parts.len() == 0 {
        Seq::empty()
    } else if parts.len() == 1 {
        parts[0]
    } else {
        join_seq(parts.drop_last(), sep) + sep + parts.last()
    }
}

pub open spec fn views(v: Seq<String>) -> Seq<Seq<char>> {
    v.map_values(|s: String| s@)
}

/// A pattern without `c` that occurs in `x`, `c`, `y` occurs in `x` or in
/// `y`.
pub proof fn lemma_split_at_char(x: Seq<char>, c: char, y: Seq<char>, p: Seq<char>)
    requires
        !p.contains(c),
        contains_seq(x + seq![c] + y, p),
    ensures
        contains_seq(x, p) || contains_seq(y, p),
{
    let s = x + seq![c] + y;
    let i = choose|i: int| occurs_at(s, p, i);
    if i + p.len() <= x.len() {
        assert(x.subrange(i, i + p.len()) =~= s.subrange(i, i + p.len()));
        assert(occurs_at(x, p, i));
    } else if i > x.len() {
        let j = i - x.len() - 1;
        assert(y.subrange(j, j + p.len()) =~= s.subrange(i, i + p.len()));
        assert(occurs_at(y, p, j));
    } else {
        let k = x.len() - i;
        assert(s.subrange(i, i + p.len())[k] == s[x.len() as int]);
        assert(p[k] == c);
    }
}

/// A pattern that occurs in `x` occurs in `x + y` and in `y + x`.
pub proof fn lemma_contains_concat(x: Seq<char>, y: Seq<char>, p: Seq<char>)
    requires
        contains_seq(x, p),
    ensures
        contains_seq(x + y, p),
        contains_seq(y + x, p),
{
    let i = choose|i: int| occurs_at(x, p, i);
    assert((x + y).subrange(i, i + p.len()) =~= x.subrange(i, i + p.len()));
    assert(occurs_at(x + y, p, i));
    assert((y + x).subrange(y.len() + i, y.len() + i + p.len()) =~= x.subrange(i, i + p.len()));
    assert(occurs_at(y + x, p, y.len() + i));
}

/// Some part holds the pattern.
pub open spec fn some_part_contains(parts: Seq<Seq<char>>, p: Seq<char>) -> bool {
    exists|j: int| 0 <= j < parts.len() && contains_seq(#[trigger] parts[j], p)
}

/// A non-empty pattern without `c` that occurs in parts joined with `c`
/// occurs in one of the parts.
pub proof fn lemma_join_split(parts: Seq<Seq<char>>, c: char, p: Seq<char>)
    requires
        p.len() > 0,
        !p.contains(c),
        contains_seq(join_seq(parts, seq![c]), p),
    ensures
        some_part_contains(parts, p),
    decreases parts.len(),
{
    if parts.len() == 0 {
        let i = choose|i: int| occurs_at(join_seq(parts, seq![c]), p, i);
        assert(false);
    } else if parts.len() == 1 {
        assert(contains_seq(parts[0], p));
    } else {
        let front = join_seq(parts.drop_last(), seq![c]);
        assert(join_seq(parts, seq![c]) =~= front + seq![c] + parts.last());
        lemma_split_at_char(front, c, parts.last(), p);
        if contains_seq(front, p) {
            lemma_join_split(parts.drop_last(), c, p);
            let j = choose|j: int|
                0 <= j < parts.drop_last().len() && contains_seq(#[trigger] parts.drop_last()[j], p);
            assert(parts.drop_last()[j] == parts[j]);
        } else {
            assert(contains_seq(parts[parts.len() - 1], p));
        }
    }
}

/// What a closed or open token of a scan holds, the scanned text holds;
/// the open token is a suffix of the text.
pub proof fn lemma_scan_tokens_within(s: Seq<char>, k: Splitter, p: Seq<char>)
    ensures
        scan_tokens(s, k).1.len() <= s.len(),
        s.skip(s.len() - scan_tokens(s, k).1.len()) == scan_tokens(s, k).1,
        some_part_contains(scan_tokens(s, k).0, p) ==> contains_seq(s, p),
    decreases s.len(),
{
    if s.len() > 0 {
        let s0 = s.drop_last();
        let c = s.last();
        lemma_scan_tokens_within(s0, k, p);
        let (done, cur) = scan_tokens(s0, k);
        assert(s =~= s0 + seq![c]);
        if contains_seq(s0, p) {
            lemma_contains_concat(s0, seq![c], p);
        }
        if contains_seq(cur, p) {
            assert(s0 =~= s0.take(s0.len() - cur.len()) + cur);
            lemma_contains_concat(cur, s0.take(s0.len() - cur.len()), p);
        }
        if is_separator(k, c) {
            assert(s.skip(s.len() as int) =~= Seq::<char>::empty());
            if cur.len() > 0 {
                let d = done.push(cur);
                if some_part_contains(d, p) {
                    let j = choose|j: int| 0 <= j < d.len() && contains_seq(#[trigger] d[j], p);
                    if j < done.len() {
                        assert(d[j] == done[j]);
                    }
                }
            }
        } else {
            assert(s.skip(s.len() - (cur.len() + 1)) =~= cur.push(c));
        }
    }
}

/// What a token holds, the tokenised text holds.
pub proof fn lemma_tokens_within(s: Seq<char>, k: Splitter, p: Seq<char>)
    ensures
        some_part_contains(tokens(s, k), p) ==> contains_seq(s, p),
{
    lemma_scan_tokens_within(s, k, p);
    let (done, cur) = scan_tokens(s, k);
    if some_part_contains(tokens(s, k), p) && cur.len() > 0 {
        let t = done.push(cur);
        let j = choose|j: int| 0 <= j < t.len() && contains_seq(#[trigger] t[j], p);
        if j < done.len() {
            assert(t[j] == done[j]);
        } else {
            assert(s =~= s.take(s.len() - cur.len()) + cur);
            lemma_contains_concat(cur, s.take(s.len() - cur.len()), p);
        }
    }
}

/// Joins strings with a separator.
pub fn join(parts: &Vec<String>, sep: &str) -> (r: String)
    ensures
        r@ == join_seq(views(parts@), sep@),
{
    let mut r = String::new();
    let mut i: usize = 0;
    while i < parts.len()
        invariant
            i <= parts@.len(),
            r@ == join_seq(views(parts@.take(i as int)), sep@),
        decreases parts.len() - i,
    {
        if i > 0 {
            push_str(&mut r, sep);
        }
        push_str(&mut r, parts[i].as_str());
        proof {
            assert(views(parts@.take(i + 1)).drop_last() =~= views(parts@.take(i as int)));
            if i == 0 {
                assert(r@ =~= views(parts@.take(1))[0]);
            }
        }
        i = i + 1;
    }
    assert(parts@.take(parts@.len() as int) =~= parts@);
    r
}

/// How a string is cut into tokens.
#[derive(Clone, Copy, PartialEq, Eq, Debug, Structural)]
pub enum Splitter {
    /// Runs of whitespace separate tokens (`str::split_whitespace`).
    Whitespace,
    /// A single character separates tokens, and empty tokens are dropped
    /// (`str::split(c).filter(|t| !t.is_empty())`).
    Char(char),
    /// Path separators (`/` and `\\`) separate path segments.
    PathSep,
}

pub open spec fn is_separator(k: Splitter, c: char) -> bool {
    match k {
        Splitter::Whitespace => is_ws(c),
        Splitter::Char(d) => c == d,
        Splitter::PathSep => c == '/' || c == '\\',
    }
}

/// Left-to-right scan state of tokenising `s`: the tokens already closed
/// and the token being read.
pub open spec fn scan_tokens(s: Seq<char>, k: Splitter) -> (Seq<Seq<char>>, Seq<char>)
    decreases s.len(),
{
    if s.len() == 0 {
        (Seq::empty(), Seq::empty())
    } else {
        let (done, cur) = scan_tokens(s.drop_last(), k);
        if is_separator(k, s.last()) {
            if cur.len() > 0 {
                (done.push(cur), Seq::empty())
            } else {
                (done, cur)
            }
        } else {
            (done, cur.push(s.last()))
        }
    }
}

/// The maximal non-empty runs of non-separator characters of `s`, in order.
pub open spec fn tokens(s: Seq<char>, k: Splitter) -> Seq<Seq<char>> {
    let (done, cur) = scan_tokens(s, k);
    if cur.len() > 0 {
        done.push(cur)
    } else {
        done
    }
}

pub fn separator(k: Splitter, c: char) -> (r: bool)
    ensures
        r == is_separator(k, c),
{
    match k {
        Splitter::Whitespace => is_whitespace(c),
        Splitter::Char(d) => c == d,
        Splitter::PathSep => c == '/' || c == '\\',
    }
}

/// Cuts `s` into tokens.
pub fn split_tokens(s: &str, k: Splitter) -> (r: Vec<String>)
    ensures
        views(r@) == tokens(s@, k),
{
    let v = chars_of(s);
    let mut done: Vec<String> = Vec::new();
    let mut cur: Vec<char> = Vec::new();
    let mut i: usize = 0;
    assert(v@.take(0) =~= Seq::<char>::empty());
    assert(views(done@) =~= Seq::<Seq<char>>::empty());
    while i < v.len()
        invariant
            v@ == s@,
            i <= v@.len(),
            (views(done@), cur@) == scan_tokens(v@.take(i as int), k),
        decreases v.len() - i,
    {
        let c = v[i];
        assert(v@.take(i + 1).drop_last() =~= v@.take(i as int));
        let ghost old_done = done@;
        if separator(k, c) {
            if cur.len() > 0 {
                let token = string_of(&cur);
                cur = Vec::new();
                done.push(token);
                assert(views(done@) =~= views(old_done).push(token@));
            }
        } else {
            cur.push(c);
        }
        i = i + 1;
    }
    assert(v@.take(v@.len() as int) =~= v@);
    if cur.len() > 0 {
        let ghost old_done = done@;
        let token = string_of(&cur);
        done.push(token);
        assert(views(done@) =~= views(old_done).push(token@));
    }
    done
}

/// A list without repetitions whose items all occur in `within` is no
/// longer than `within`.
pub proof fn lemma_distinct_within<A>(c: Seq<A>, within: Seq<A>)
    requires
        c.no_duplicates(),
        forall|i: int| 0 <= i < c.len() ==> within.contains(#[trigger] c[i]),
    ensures
        c.len() <= within.len(),
{
    broadcast use vstd::seq_lib::seq_to_set_is_finite;

    c.unique_seq_to_set();
    within.lemma_cardinality_of_set();
    assert(c.to_set().subset_of(within.to_set())) by {
        assert forall|x: A| c.to_set().contains(x) implies within.to_set().contains(x) by {
            let i = choose|i: int| 0 <= i < c.len() && c[i] == x;
            assert(within.contains(c[i]));
        }
    }
    vstd::set_lib::lemma_len_subset(c.to_set(), within.to_set());
}

/// The two texts, lowercased and joined by a space, contain `filter`
/// (which the caller has lowercased already).
pub open spec fn pair_matches_seq(a: Seq<char>, b: Seq<char>, filter: Seq<char>) -> bool {
    contains_seq(unicode_lowercase(a) + seq![' '] + unicode_lowercase(b), filter)
}

/// Whether `"<a> <b>"`, lowercased, contains the lowercased `filter`.
pub fn pair_matches(a: &str, b: &str, filter: &str) -> (r: bool)
    ensures
        r == pair_matches_seq(a@, b@, filter@),
{
    let a_lower = to_lowercase(a);
    let b_lower = to_lowercase(b);
    lowered_pair_matches(a_lower.as_str(), b_lower.as_str(), filter)
}

/// Whether `"<a_lower> <b_lower>"` contains `filter`: the test of
/// `pair_matches` once both texts are lowercased.
pub fn lowered_pair_matches(a_lower: &str, b_lower: &str, filter: &str) -> (r: bool)
    ensures
        r == contains_seq(a_lower@ + seq![' '] + b_lower@, filter@),
{
    let mut haystack = owned(a_lower);
    push_char(&mut haystack, ' ');
    push_str(&mut haystack, b_lower);
    assert(haystack@ =~= a_lower@ + seq![' '] + b_lower@);
    contains(haystack.as_str(), filter)
}

} // verus!
