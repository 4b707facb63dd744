//! Path text handling.
//!
//! Paths are handled as text with Windows conventions, the platform this
//! program targets: both `/` and `\` separate segments (only `\` after a
//! verbatim `\\?\` prefix), `.` segments are ignored, and a prefix such as
//! `C:` or `\\server\share` names no file.
use vstd::prelude::*;

use crate::text::{
    all_ws, ascii_alpha, chars_of, eq_ignore_ascii_case, is_ascii_alpha, is_blank, join, join_seq,
    owned, push_char, push_str, rfind_seq, rfind_vec, split_tokens, starts_with, str_eq,
    str_eq_ignore_ascii_case, string_of, string_of_range, strip_prefix, to_lowercase, tokens,
    unicode_lowercase, views, Splitter, contains_seq, has_no_lt, occurs_at, some_part_contains,
    lemma_contains_concat, lemma_join_split, lemma_split_at_char, lemma_tokens_within,
};

verus! {

pub open spec fn is_path_sep(c: char) -> bool {
    c == '/' || c == '\\'
}

/// The segments of a path: maximal runs of non-separator characters.
pub open spec fn path_segments(s: Seq<char>) -> Seq<Seq<char>> {
    tokens(s, Splitter::PathSep)
}

pub open spec fn is_dot(t: Seq<char>) -> bool {
    t == seq!['.']
}

pub open spec fn is_dot_dot(t: Seq<char>) -> bool {
    t == seq!['.', '.']
}

/// A drive designator such as `C:`.
pub open spec fn is_drive(t: Seq<char>) -> bool {
    t.len() == 2 && is_ascii_alpha(t[0]) && t[1] == ':'
}

/// The segments that are not `.`.
pub open spec fn non_dot_segments(segs: Seq<Seq<char>>) -> Seq<Seq<char>>
    decreases segs.len(),
{
    if segs.len() == 0 {
        Seq::empty()
    } else if is_dot(segs.last()) {
        non_dot_segments(segs.drop_last())
    } else {
        non_dot_segments(segs.drop_last()).push(segs.last())
    }
}

/// The segments that name directories or files (neither `.` nor `..`).
pub open spec fn named_segments(segs: Seq<Seq<char>>) -> Seq<Seq<char>>
    decreases segs.len(),
{
    if segs.len() == 0 {
        Seq::empty()
    } else if is_dot(segs.last()) || is_dot_dot(segs.last()) {
        named_segments(segs.drop_last())
    } else {
        named_segments(segs.drop_last()).push(segs.last())
    }
}

/// The end of the path component that starts at `i`: the next separator
/// (only `\` in a verbatim path), or the end of the text.
pub open spec fn comp_end(s: Seq<char>, i: int, verbatim: bool) -> int
    decreases s.len() - i,
{
    if i < 0 || i >= s.len() {
        s.len() as int
    } else if (verbatim && s[i] == '\\') || (!verbatim && is_path_sep(s[i])) {
        i
    } else {
        comp_end(s, i + 1, verbatim)
    }
}

/// A verbatim path: `\\?\`, written with backslashes only.
pub open spec fn is_verbatim(s: Seq<char>) -> bool {
    s.len() >= 4 && s[0] == '\\' && s[1] == '\\' && s[2] == '?' && s[3] == '\\'
}

/// A verbatim UNC path: `\\?\UNC\`.
pub open spec fn is_verbatim_unc(s: Seq<char>) -> bool {
    is_verbatim(s) && s.len() >= 8 && s[4] == 'U' && s[5] == 'N' && s[6] == 'C' && is_path_sep(s[7])
}

/// The length of the Windows prefix of a path, 0 when it has none: a drive
/// (`C:`), a UNC share (`\\server\share`, both parts not empty), a device
/// (`\\.\name`), or a verbatim prefix (`\\?\name`, `\\?\C:`,
/// `\\?\UNC\server\share`).
pub open spec fn prefix_len(s: Seq<char>) -> int {
    if is_verbatim_unc(s) {
        let a = comp_end(s, 8, true);
        if a < s.len() && comp_end(s, a + 1, true) > a + 1 {
            comp_end(s, a + 1, true)
        } else {
            a
        }
    } else if is_verbatim(s) {
        comp_end(s, 4, true)
    } else if s.len() >= 4 && is_path_sep(s[0]) && is_path_sep(s[1]) && s[2] == '.' && is_path_sep(
        s[3],
    ) {
        comp_end(s, 4, false)
    } else if s.len() >= 2 && is_path_sep(s[0]) && is_path_sep(s[1]) {
        let a = comp_end(s, 2, false);
        if a > 2 && a < s.len() && comp_end(s, a + 1, false) > a + 1 {
            comp_end(s, a + 1, false)
        } else {
            0
        }
    } else if s.len() >= 2 && is_ascii_alpha(s[0]) && s[1] == ':' {
        2
    } else {
        0
    }
}

/// The components of a path after its prefix that can name something:
/// split at separators (only `\` in a verbatim path), without the `.`
/// components that a non-verbatim path drops.
pub open spec fn name_components(s: Seq<char>) -> Seq<Seq<char>> {
    let rest = s.skip(prefix_len(s));
    if is_verbatim(s) {
        tokens(rest, Splitter::Char('\\'))
    } else {
        non_dot_segments(path_segments(rest))
    }
}

/// The final component of a path, if it names a file or directory
/// (`Path::file_name` with Windows prefixes): a path that is only a prefix,
/// or ends in `.` or `..`, has none.
pub open spec fn file_name_seq(s: Seq<char>) -> Option<Seq<char>> {
    let segs = name_components(s);
    if segs.len() == 0 {
        None
    } else if is_dot(segs.last()) || is_dot_dot(segs.last()) {
        None
    } else {
        Some(segs.last())
    }
}

/// A file name without its extension (`Path::file_stem` on a file name):
/// everything before the last `.`, unless that `.` is the first character.
pub open spec fn stem_seq(name: Seq<char>) -> Seq<char> {
    match rfind_seq(name, seq!['.']) {
        Some(k) => if k == 0 {
            name
        } else {
            name.take(k)
        },
        None => name,
    }
}

fn segments_without_dots(path: &str) -> (r: Vec<String>)
    ensures
        views(r@) == non_dot_segments(path_segments(path@)),
{
    let segs = split_tokens(path, Splitter::PathSep);
    let mut out: Vec<String> = Vec::new();
    let mut i: usize = 0;
    while i < segs.len()
        invariant
            views(segs@) == path_segments(path@),
            i <= segs@.len(),
            views(out@) == non_dot_segments(views(segs@).take(i as int)),
        decreases segs.len() - i,
    {
        let t = &segs[i];
        let is_dot_seg = str_eq(t.as_str(), ".");
        proof {
            reveal_strlit(".");
            let vs = views(segs@);
            assert(vs.take(i + 1).drop_last() =~= vs.take(i as int));
            assert(vs.take(i + 1).last() == t@);
            assert("."@ =~= seq!['.']);
        }
        if !is_dot_seg {
            let ghost old_out = out@;
            let c = owned(t.as_str());
            out.push(c);
            assert(views(out@) =~= views(old_out).push(t@));
        }
        i = i + 1;
    }
    assert(views(segs@).take(segs@.len() as int) =~= views(segs@));
    out
}

/// Whether a segment is exactly `..`.
fn dot_dot(t: &str) -> (r: bool)
    ensures
        r == is_dot_dot(t@),
{
    proof {
        reveal_strlit("..");
    }
    assert(".."@ =~= seq!['.', '.']);
    str_eq(t, "..")
}

/// Whether a segment is a drive designator.
fn drive(t: &str) -> (r: bool)
    ensures
        r == is_drive(t@),
{
    let v = chars_of(t);
    v.len() == 2 && ascii_alpha(v[0]) && v[1] == ':'
}

fn comp_end_exec(v: &Vec<char>, i: usize, verbatim: bool) -> (r: usize)
    ensures
        r as int == comp_end(v@, i as int, verbatim),
    decreases v@.len() - i,
{
    if i >= v.len() {
        v.len()
    } else if (verbatim && v[i] == '\\') || (!verbatim && (v[i] == '/' || v[i] == '\\')) {
        i
    } else {
        comp_end_exec(v, i + 1, verbatim)
    }
}

proof fn lemma_comp_end_range(s: Seq<char>, i: int, verbatim: bool)
    requires
        0 <= i,
    ensures
        (if i <= s.len() { i } else { s.len() as int }) <= comp_end(s, i, verbatim) <= s.len(),
    decreases s.len() - i,
{
    if i < s.len() && !((verbatim && s[i] == '\\') || (!verbatim && is_path_sep(s[i]))) {
        lemma_comp_end_range(s, i + 1, verbatim);
    }
}

fn sep_at(v: &Vec<char>, i: usize) -> (r: bool)
    requires
        i < v@.len(),
    ensures
        r == is_path_sep(v@[i as int]),
{
    v[i] == '/' || v[i] == '\\'
}

fn verbatim_exec(v: &Vec<char>) -> (r: bool)
    ensures
        r == is_verbatim(v@),
{
    v.len() >= 4 && v[0] == '\\' && v[1] == '\\' && v[2] == '?' && v[3] == '\\'
}

/// The length of the Windows prefix of a path.
pub fn prefix_length(path: &str) -> (r: usize)
    ensures
        r as int == prefix_len(path@),
        r <= path@.len(),
{
    let v = chars_of(path);
    prefix_len_exec(&v)
}

fn prefix_len_exec(v: &Vec<char>) -> (r: usize)
    ensures
        r as int == prefix_len(v@),
        r <= v@.len(),
{
    let n = v.len();
    proof {
        lemma_comp_end_range(v@, 8, true);
        lemma_comp_end_range(v@, 4, true);
        lemma_comp_end_range(v@, 4, false);
        lemma_comp_end_range(v@, 2, false);
    }
    if verbatim_exec(v) {
        if n >= 8 && v[4] == 'U' && v[5] == 'N' && v[6] == 'C' && sep_at(v, 7) {
            let a = comp_end_exec(v, 8, true);
            if a < n {
                let b = comp_end_exec(v, a + 1, true);
                proof {
                    lemma_comp_end_range(v@, a + 1, true);
                }
                if b > a + 1 {
                    return b;
                }
            }
            return a;
        }
        return comp_end_exec(v, 4, true);
    }
    if n >= 4 && sep_at(v, 0) && sep_at(v, 1) && v[2] == '.' && sep_at(v, 3) {
        return comp_end_exec(v, 4, false);
    }
    if n >= 2 && sep_at(v, 0) && sep_at(v, 1) {
        let a = comp_end_exec(v, 2, false);
        if a > 2 && a < n {
            let b = comp_end_exec(v, a + 1, false);
            proof {
                lemma_comp_end_range(v@, a + 1, false);
            }
            if b > a + 1 {
                return b;
            }
        }
        return 0;
    }
    if n >= 2 && ascii_alpha(v[0]) && v[1] == ':' {
        return 2;
    }
    0
}

/// `Path::file_name`, as text.
pub fn file_name(path: &str) -> (r: Option<String>)
    ensures
        r matches Some(n) ==> file_name_seq(path@) == Some(n@),
        r is None ==> file_name_seq(path@) is None,
{
    let v = chars_of(path);
    let k = prefix_len_exec(&v);
    let rest = string_of_range(&v, k, v.len());
    assert(v@.subrange(k as int, v@.len() as int) =~= path@.skip(k as int));
    let segs = if verbatim_exec(&v) {
        split_tokens(rest.as_str(), Splitter::Char('\\'))
    } else {
        segments_without_dots(rest.as_str())
    };
    assert(views(segs@) == name_components(path@));
    if segs.len() == 0 {
        return None;
    }
    let last = &segs[segs.len() - 1];
    assert(views(segs@).last() == last@);
    proof {
        reveal_strlit(".");
    }
    assert("."@ =~= seq!['.']);
    if dot_dot(last.as_str()) || str_eq(last.as_str(), ".") {
        None
    } else {
        Some(owned(last.as_str()))
    }
}

/// A file name without its extension.
pub fn stem(name: &str) -> (r: String)
    ensures
        r@ == stem_seq(name@),
{
    let v = chars_of(name);
    let mut dot: Vec<char> = Vec::new();
    dot.push('.');
    assert(dot@ =~= seq!['.']);
    match rfind_vec(&v, &dot) {
        Some(k) => if k == 0 {
            string_of(&v)
        } else {
            let r = string_of_range(&v, 0, k);
            assert(v@.subrange(0, k as int) =~= v@.take(k as int));
            r
        },
        None => string_of(&v),
    }
}

/// The name shown for a path: its file name, or the whole path when it
/// has none or the name is blank.
pub open spec fn path_name_seq(path: Seq<char>) -> Seq<char> {
    match file_name_seq(path) {
        Some(n) => if all_ws(n) {
            path
        } else {
            n
        },
        None => path,
    }
}

/// The file name of `path`, or the whole path when there is none.
pub fn path_name(path: &str) -> (r: String)
    ensures
        r@ == path_name_seq(path@),
{
    match file_name(path) {
        Some(n) => if is_blank(n.as_str()) {
            owned(path)
        } else {
            n
        },
        None => owned(path),
    }
}

/// A process name without directories or extension, as long as that
/// leaves something that is not blank; otherwise the name as given.
pub open spec fn clean_process_name_seq(name: Seq<char>) -> Seq<char> {
    match file_name_seq(name) {
        Some(n) => if all_ws(stem_seq(n)) {
            name
        } else {
            stem_seq(n)
        },
        None => name,
    }
}

/// `Path::file_stem` of a process name, falling back to the name itself.
pub fn clean_process_name(name: &str) -> (r: String)
    ensures
        r@ == clean_process_name_seq(name@),
{
    match file_name(name) {
        Some(n) => {
            let s = stem(n.as_str());
            if is_blank(s.as_str()) {
                owned(name)
            } else {
                s
            }
        },
        None => owned(name),
    }
}

pub open spec fn unc_prefix() -> Seq<char> {
    seq!['\\', '\\', '?', '\\', 'U', 'N', 'C', '\\']
}

pub open spec fn verbatim_prefix() -> Seq<char> {
    seq!['\\', '\\', '?', '\\']
}

/// The path without a Windows extended-length prefix: `\\?\UNC\server`
/// becomes `\\server` and `\\?\C:\x` becomes `C:\x`; `None` when the path
/// has no such prefix.
pub open spec fn strip_extended_prefix_seq(s: Seq<char>) -> Option<Seq<char>> {
    if starts_with(s, unc_prefix()) {
        Some(seq!['\\', '\\'] + s.skip(8))
    } else if starts_with(s, verbatim_prefix()) {
        Some(s.skip(4))
    } else {
        None
    }
}

/// Removes a Windows extended-length path prefix.
pub fn strip_windows_extended_prefix(path: &str) -> (r: Option<String>)
    ensures
        r matches Some(p) ==> strip_extended_prefix_seq(path@) == Some(p@),
        r is None ==> strip_extended_prefix_seq(path@) is None,
{
    let unc = "\\\\?\\UNC\\";
    let verbatim = "\\\\?\\";
    proof {
        reveal_strlit("\\\\?\\UNC\\");
        reveal_strlit("\\\\?\\");
    }
    assert(unc@ =~= unc_prefix());
    assert(verbatim@ =~= verbatim_prefix());
    match strip_prefix(path, unc) {
        Some(rest) => {
            let mut r = String::new();
            push_char(&mut r, '\\');
            push_char(&mut r, '\\');
            push_str(&mut r, rest.as_str());
            assert(r@ =~= seq!['\\', '\\'] + path@.skip(8));
            Some(r)
        },
        None => strip_prefix(path, verbatim),
    }
}

/// The path text with any extended-length prefix removed.
pub open spec fn normalize_path_text_seq(s: Seq<char>) -> Seq<char> {
    match strip_extended_prefix_seq(s) {
        Some(p) => p,
        None => s,
    }
}

/// Removes any extended-length prefix from path text.
pub fn normalize_path_text(path: &str) -> (r: String)
    ensures
        r@ == normalize_path_text_seq(path@),
{
    match strip_windows_extended_prefix(path) {
        Some(p) => p,
        None => owned(path),
    }
}

/// The form in which two paths are compared: without extended prefix, and
/// lowercased where paths ignore case.
pub open spec fn normalize_for_compare_seq(s: Seq<char>, ignore_case: bool) -> Seq<char> {
    if ignore_case {
        unicode_lowercase(normalize_path_text_seq(s))
    } else {
        normalize_path_text_seq(s)
    }
}

/// The comparable form of a path.
pub fn normalize_for_compare(path: &str, ignore_case: bool) -> (r: String)
    ensures
        r@ == normalize_for_compare_seq(path@, ignore_case),
{
    let n = normalize_path_text(path);
    if ignore_case {
        to_lowercase(n.as_str())
    } else {
        n
    }
}

/// Two saved paths are the same: equal, ignoring ASCII case where paths
/// ignore case.
pub open spec fn same_path_seq(a: Seq<char>, b: Seq<char>, ignore_case: bool) -> bool {
    if ignore_case {
        eq_ignore_ascii_case(a, b)
    } else {
        a == b
    }
}

/// Whether two path strings name the same path.
pub fn same_path(a: &str, b: &str, ignore_case: bool) -> (r: bool)
    ensures
        r == same_path_seq(a@, b@, ignore_case),
{
    if ignore_case {
        str_eq_ignore_ascii_case(a, b)
    } else {
        str_eq(a, b)
    }
}

/// A component added to the components of a verbatim path: `..` removes
/// the last one if it is a name; anything else is added.
pub open spec fn push_component(comps: Seq<Seq<char>>, c: Seq<char>) -> Seq<Seq<char>> {
    if is_dot_dot(c) {
        if comps.len() > 0 && !is_dot(comps.last()) && !is_dot_dot(comps.last()) {
            comps.drop_last()
        } else {
            comps
        }
    } else {
        comps.push(c)
    }
}

pub open spec fn push_components(comps: Seq<Seq<char>>, cs: Seq<Seq<char>>) -> Seq<Seq<char>>
    decreases cs.len(),
{
    if cs.len() == 0 {
        comps
    } else {
        push_component(push_components(comps, cs.drop_last()), cs.last())
    }
}

/// `PathBuf::join` of a `rest` without prefix onto a verbatim base: the
/// base's components, or only its prefix and a root when `rest` starts with
/// a separator, then the components of `rest` (`.` dropped, `..` taking a
/// name back), written out after the prefix with `\` between them.
pub open spec fn verbatim_join_seq(base: Seq<char>, rest: Seq<char>) -> Seq<char> {
    let p = prefix_len(base);
    let rooted = rest.len() > 0 && is_path_sep(rest[0]);
    let start = if rooted {
        Seq::empty()
    } else {
        tokens(base.skip(p), Splitter::Char('\\'))
    };
    let comps = push_components(start, non_dot_segments(path_segments(rest)));
    if rooted || base.len() > p || comps.len() > 0 {
        base.take(p) + seq!['\\'] + join_seq(comps, seq!['\\'])
    } else {
        base.take(p)
    }
}

/// `PathBuf::join` on Windows: a `rest` with a prefix replaces `base`; a
/// verbatim (`\\?\`) base is rebuilt from components as
/// `verbatim_join_seq` says; a `rest` that starts with a separator keeps
/// only the prefix of `base`; otherwise `rest` follows `base` after a
/// backslash, unless `base` is empty, ends in a separator, or is a bare
/// drive such as `C:`.
pub open spec fn join_path_seq(base: Seq<char>, rest: Seq<char>) -> Seq<char> {
    if prefix_len(rest) > 0 {
        rest
    } else if is_verbatim(base) && rest.len() > 0 {
        verbatim_join_seq(base, rest)
    } else if rest.len() > 0 && is_path_sep(rest[0]) {
        base.take(prefix_len(base)) + rest
    } else if base.len() == 0 || is_path_sep(base.last()) || is_drive(base) {
        base + rest
    } else {
        base + seq!['\\'] + rest
    }
}

fn verbatim_join(b: &Vec<char>, rest: &str) -> (r: String)
    requires
        rest@.len() > 0,
    ensures
        r@ == verbatim_join_seq(b@, rest@),
{
    let rv = chars_of(rest);
    let p = prefix_len_exec(b);
    let rooted = sep_at(&rv, 0);
    let tail = string_of_range(b, p, b.len());
    assert(b@.subrange(p as int, b@.len() as int) =~= b@.skip(p as int));
    let mut comps: Vec<String> = Vec::new();
    assert(views(comps@) =~= Seq::<Seq<char>>::empty());
    if !rooted {
        comps = split_tokens(tail.as_str(), Splitter::Char('\\'));
    }
    let ghost start = views(comps@);
    let rc = segments_without_dots(rest);
    let mut i: usize = 0;
    while i < rc.len()
        invariant
            i <= rc@.len(),
            views(comps@) == push_components(start, views(rc@).take(i as int)),
        decreases rc.len() - i,
    {
        let c = &rc[i];
        let ghost before = views(comps@);
        proof {
            reveal_strlit(".");
        }
        assert("."@ =~= seq!['.']);
        assert(views(rc@).take(i + 1).drop_last() =~= views(rc@).take(i as int));
        assert(views(rc@).take(i + 1).last() == c@);
        if dot_dot(c.as_str()) {
            if comps.len() > 0 {
                let n = comps.len();
                let named = !dot_dot(comps[n - 1].as_str()) && !str_eq(comps[n - 1].as_str(), ".");
                assert(before.last() == comps@[n - 1]@);
                if named {
                    comps.pop();
                    assert(views(comps@) =~= before.drop_last());
                }
            }
        } else {
            comps.push(owned(c.as_str()));
            assert(views(comps@) =~= before.push(c@));
        }
        i = i + 1;
    }
    assert(views(rc@).take(rc@.len() as int) =~= views(rc@));
    assert(rv@ == rest@);
    assert(rooted == (rest@.len() > 0 && is_path_sep(rest@[0])));
    assert(start == (if rooted {
        Seq::<Seq<char>>::empty()
    } else {
        tokens(b@.skip(p as int), Splitter::Char('\\'))
    }));
    assert(views(comps@) == push_components(start, non_dot_segments(path_segments(rest@))));
    let mut r = string_of_range(b, 0, p);
    assert(b@.subrange(0, p as int) =~= b@.take(p as int));
    if rooted || b.len() > p || comps.len() > 0 {
        push_char(&mut r, '\\');
        let j = join(&comps, "\\");
        proof {
            reveal_strlit("\\");
        }
        assert("\\"@ =~= seq!['\\']);
        push_str(&mut r, j.as_str());
        assert(r@ =~= b@.take(p as int) + seq!['\\'] + join_seq(views(comps@), seq!['\\']));
    }
    r
}

proof fn lemma_prefix_len_range(s: Seq<char>)
    ensures
        0 <= prefix_len(s) <= s.len(),
{
    lemma_comp_end_range(s, 8, true);
    lemma_comp_end_range(s, 4, true);
    lemma_comp_end_range(s, 4, false);
    lemma_comp_end_range(s, 2, false);
    if is_verbatim_unc(s) {
        let a = comp_end(s, 8, true);
        if a < s.len() {
            lemma_comp_end_range(s, a + 1, true);
        }
    } else if !is_verbatim(s) && s.len() >= 2 && is_path_sep(s[0]) && is_path_sep(s[1]) {
        let a = comp_end(s, 2, false);
        if a < s.len() {
            lemma_comp_end_range(s, a + 1, false);
        }
    }
}

proof fn lemma_push_components_within(comps: Seq<Seq<char>>, cs: Seq<Seq<char>>, p: Seq<char>)
    ensures
        some_part_contains(push_components(comps, cs), p) ==> some_part_contains(comps, p)
            || some_part_contains(cs, p),
    decreases cs.len(),
{
    if cs.len() > 0 {
        lemma_push_components_within(comps, cs.drop_last(), p);
        let prev = push_components(comps, cs.drop_last());
        let r = push_components(comps, cs);
        if some_part_contains(r, p) {
            let j = choose|j: int| 0 <= j < r.len() && contains_seq(#[trigger] r[j], p);
            if j < prev.len() && r[j] == prev[j] {
                assert(some_part_contains(prev, p));
            } else {
                assert(r[j] == cs.last());
                assert(contains_seq(cs[cs.len() - 1], p));
            }
            if some_part_contains(cs.drop_last(), p) {
                let k = choose|k: int|
                    0 <= k < cs.drop_last().len() && contains_seq(#[trigger] cs.drop_last()[k], p);
                assert(cs.drop_last()[k] == cs[k]);
            }
        }
    }
}

proof fn lemma_non_dot_within(segs: Seq<Seq<char>>, p: Seq<char>)
    ensures
        some_part_contains(non_dot_segments(segs), p) ==> some_part_contains(segs, p),
    decreases segs.len(),
{
    if segs.len() > 0 {
        lemma_non_dot_within(segs.drop_last(), p);
        let prev = non_dot_segments(segs.drop_last());
        let r = non_dot_segments(segs);
        if some_part_contains(r, p) {
            let j = choose|j: int| 0 <= j < r.len() && contains_seq(#[trigger] r[j], p);
            if j < prev.len() && r[j] == prev[j] {
                assert(some_part_contains(prev, p));
                let k = choose|k: int|
                    0 <= k < segs.drop_last().len() && contains_seq(#[trigger] segs.drop_last()[k], p);
                assert(segs.drop_last()[k] == segs[k]);
            } else {
                assert(r[j] == segs.last());
                assert(contains_seq(segs[segs.len() - 1], p));
            }
        }
    }
}

proof fn lemma_lt_pattern_absent(x: Seq<char>, p: Seq<char>)
    requires
        has_no_lt(x),
        p.len() > 0,
        p.last() == '<',
    ensures
        !contains_seq(x, p),
{
    if contains_seq(x, p) {
        let i = choose|i: int| occurs_at(x, p, i);
        assert(x.subrange(i, i + p.len())[p.len() - 1] == x[i + p.len() - 1]);
    }
}

proof fn lemma_contains_within_parts(s: Seq<char>, k: int, p: Seq<char>)
    requires
        0 <= k <= s.len(),
        contains_seq(s.take(k), p) || contains_seq(s.skip(k), p),
    ensures
        contains_seq(s, p),
{
    assert(s =~= s.take(k) + s.skip(k));
    if contains_seq(s.take(k), p) {
        lemma_contains_concat(s.take(k), s.skip(k), p);
    } else {
        lemma_contains_concat(s.skip(k), s.take(k), p);
    }
}

/// A pattern that ends in `<` and holds no separator, found in `base`
/// joined with a `rest` that holds no `<`, is found in `base`.
pub proof fn lemma_join_pattern_from_base(base: Seq<char>, rest: Seq<char>, p: Seq<char>)
    requires
        p.len() > 0,
        p.last() == '<',
        !p.contains('\\'),
        !p.contains('/'),
        has_no_lt(rest),
        contains_seq(join_path_seq(base, rest), p),
    ensures
        contains_seq(base, p),
{
    lemma_lt_pattern_absent(rest, p);
    lemma_prefix_len_range(base);
    let k = prefix_len(base);
    if prefix_len(rest) > 0 {
    } else if is_verbatim(base) && rest.len() > 0 {
        let rooted = rest.len() > 0 && is_path_sep(rest[0]);
        let start = if rooted {
            Seq::<Seq<char>>::empty()
        } else {
            tokens(base.skip(k), Splitter::Char('\\'))
        };
        let rc = non_dot_segments(path_segments(rest));
        let comps = push_components(start, rc);
        if rooted || base.len() > k || comps.len() > 0 {
            let j = join_seq(comps, seq!['\\']);
            lemma_split_at_char(base.take(k), '\\', j, p);
            if contains_seq(j, p) {
                lemma_join_split(comps, '\\', p);
                lemma_push_components_within(start, rc, p);
                lemma_tokens_within(base.skip(k), Splitter::Char('\\'), p);
                lemma_non_dot_within(path_segments(rest), p);
                lemma_tokens_within(rest, Splitter::PathSep, p);
            }
        }
        lemma_contains_within_parts(base, k, p);
    } else if rest.len() > 0 && is_path_sep(rest[0]) {
        assert(base.take(k) + rest =~= base.take(k) + seq![rest[0]] + rest.skip(1));
        lemma_split_at_char(base.take(k), rest[0], rest.skip(1), p);
        if contains_seq(rest.skip(1), p) {
            lemma_contains_concat(rest.skip(1), seq![rest[0]], p);
            assert(seq![rest[0]] + rest.skip(1) =~= rest);
        }
        lemma_contains_within_parts(base, k, p);
    } else if base.len() == 0 || is_path_sep(base.last()) || is_drive(base) {
        let s = base + rest;
        let i = choose|i: int| occurs_at(s, p, i);
        if i + p.len() <= base.len() {
            assert(base.subrange(i, i + p.len()) =~= s.subrange(i, i + p.len()));
            assert(occurs_at(base, p, i));
        } else {
            assert(s.subrange(i, i + p.len())[p.len() - 1] == s[i + p.len() - 1]);
            assert(s[i + p.len() - 1] == rest[i + p.len() - 1 - base.len()]);
        }
    } else {
        lemma_split_at_char(base, '\\', rest, p);
    }
}

/// Joins a path onto a base directory.
pub fn join_path(base: &str, rest: &str) -> (r: String)
    ensures
        r@ == join_path_seq(base@, rest@),
{
    let rv = chars_of(rest);
    if prefix_len_exec(&rv) > 0 {
        return owned(rest);
    }
    let b = chars_of(base);
    if verbatim_exec(&b) && rv.len() > 0 {
        return verbatim_join(&b, rest);
    }
    if rv.len() > 0 && sep_at(&rv, 0) {
        let k = prefix_len_exec(&b);
        let mut r = string_of_range(&b, 0, k);
        push_str(&mut r, rest);
        assert(b@.subrange(0, k as int) =~= base@.take(k as int));
        return r;
    }
    let mut r = string_of(&b);
    let n = b.len();
    let drive = n == 2 && ascii_alpha(b[0]) && b[1] == ':';
    if !(n == 0 || b[n - 1] == '/' || b[n - 1] == '\\' || drive) {
        push_char(&mut r, '\\');
    }
    push_str(&mut r, rest);
    assert(r@ =~= join_path_seq(base@, rest@));
    r
}

/// `~` and paths under `~/` or `~\` are taken from the home directory,
/// when one is known.
pub open spec fn expand_path_seq(path: Seq<char>, home: Option<Seq<char>>) -> Seq<char> {
    if path == seq!['~'] {
        match home {
            Some(h) => h,
            None => path,
        }
    } else if (starts_with(path, seq!['~', '/']) || starts_with(path, seq!['~', '\\']))
        && home is Some {
        join_path_seq(home->0, path.skip(2))
    } else {
        path
    }
}

/// Expands a leading `~` to the home directory.
pub fn expand_path(path: &str, home: Option<&str>) -> (r: String)
    ensures
        r@ == expand_path_seq(path@, match home {
            Some(h) => Some(h@),
            None => None,
        }),
{
    let v = chars_of(path);
    if v.len() == 1 && v[0] == '~' {
        assert(v@ =~= seq!['~']);
        return match home {
            Some(h) => owned(h),
            None => owned(path),
        };
    }
    assert(v@ != seq!['~']);
    let tilde_prefix = v.len() >= 2 && v[0] == '~' && (v[1] == '/' || v[1] == '\\');
    proof {
        if v@.len() >= 2 {
            assert(v@.take(2) =~= seq![v@[0], v@[1]]);
        }
    }
    assert(tilde_prefix == (starts_with(path@, seq!['~', '/']) || starts_with(
        path@,
        seq!['~', '\\'],
    )));
    match home {
        Some(h) => if tilde_prefix {
            let rest = string_of_range(&v, 2, v.len());
            assert(v@.subrange(2, v@.len() as int) =~= v@.skip(2));
            join_path(h, rest.as_str())
        } else {
            owned(path)
        },
        None => owned(path),
    }
}

/// The archive entry name of a relative path: its named segments joined
/// with `/`.
pub open spec fn zip_entry_name_seq(relative: Seq<char>) -> Seq<char> {
    join_seq(named_segments(path_segments(relative)), seq!['/'])
}

/// The entry name that a file at `relative` gets in a zip archive.
pub fn zip_entry_name(relative: &str) -> (r: String)
    ensures
        r@ == zip_entry_name_seq(relative@),
{
    let segs = split_tokens(relative, Splitter::PathSep);
    let mut named: Vec<String> = Vec::new();
    let mut i: usize = 0;
    while i < segs.len()
        invariant
            views(segs@) == path_segments(relative@),
            i <= segs@.len(),
            views(named@) == named_segments(views(segs@).take(i as int)),
        decreases segs.len() - i,
    {
        let t = &segs[i];
        let skip = str_eq(t.as_str(), ".") || dot_dot(t.as_str());
        proof {
            reveal_strlit(".");
            let vs = views(segs@);
            assert(vs.take(i + 1).drop_last() =~= vs.take(i as int));
            assert(vs.take(i + 1).last() == t@);
            assert("."@ =~= seq!['.']);
        }
        if !skip {
            let ghost old_named = named@;
            let c = owned(t.as_str());
            named.push(c);
            assert(views(named@) =~= views(old_named).push(t@));
        }
        i = i + 1;
    }
    assert(views(segs@).take(segs@.len() as int) =~= views(segs@));
    let slash = "/";
    proof {
        reveal_strlit("/");
    }
    assert(slash@ =~= seq!['/']);
    join(&named, slash)
}

} // verus!
