//! The managed profile block: its text, the profile files it goes into,
//! and how a refreshed block replaces the earlier one.
use vstd::prelude::*;

use crate::config::{config_path, config_path_seq, ConfigFile};
use crate::paths::{is_path_sep, is_verbatim, join_path, join_path_seq};
use crate::profile_text::{
    PROFILE_AFTER_COMMANDS, PROFILE_AFTER_EXE, PROFILE_AFTER_PATHS, PROFILE_AFTER_START,
    PROFILE_FROM_CONFIRM_CLEAR_SAVED_PATHS, PROFILE_FROM_INVOKE_PATH_MENU,
    PROFILE_FROM_INVOKE_SETTINGS_MENU, PROFILE_FROM_LOAD_SETTINGS_CONFIG,
    PROFILE_FROM_MARK_SESSIONS_RESTORED, PROFILE_FROM_MOVE_MENU_SELECTION_VERTICAL,
    PROFILE_FROM_PATH_MENU_ENTRIES, PROFILE_FROM_PROCESS_START_UNIX_SECONDS,
    PROFILE_FROM_PROMPT_PATH_TEXT, PROFILE_FROM_RELOAD, PROFILE_FROM_RENDER_PATH_MENU,
    PROFILE_FROM_RENDER_PATH_SELECTION_CHANGE, PROFILE_FROM_RENDER_SETTINGS_ENTRY_LINE,
    PROFILE_FROM_SETTINGS_MENU_ENTRIES, PROFILE_PRELUDE,
};
use crate::quote::{ps_quote, ps_quote_seq};
use crate::quote::escape_quotes;
use crate::text::{
    chars_of, contains_seq, find_from, has_no_lt, find_vec, is_ws, lemma_find_from_props,
    lemma_trim_end_prefix, occurs_at, owned, push_char, push_range, push_str, starts_with,
    string_of_range, trim, trim_end, trim_end_seq, trim_seq, views,
};

verus! {

/// The first line of the managed block.
pub const START_MARKER: &'static str = "# >>> ps cli >>>";

/// The last line of the managed block.
pub const END_MARKER: &'static str = "# <<< ps cli <<<";

/// Which PowerShell profiles `ps init` manages.
#[derive(Clone, Copy, PartialEq, Eq, Debug, Structural)]
pub enum ShellTarget {
    All,
    Pwsh,
    WindowsPowerShell,
}

/// One profile file and whether installing changed it.
#[derive(Clone, Debug)]
pub struct InstallResult {
    pub path: String,
    pub changed: bool,
}

/// The script between the settings file path and the end marker.
pub open spec fn profile_body_seq() -> Seq<char> {
    PROFILE_PRELUDE@ + PROFILE_FROM_LOAD_SETTINGS_CONFIG@ + PROFILE_FROM_PROMPT_PATH_TEXT@
        + PROFILE_FROM_PROCESS_START_UNIX_SECONDS@ + PROFILE_FROM_MARK_SESSIONS_RESTORED@
        + PROFILE_FROM_PATH_MENU_ENTRIES@ + PROFILE_FROM_SETTINGS_MENU_ENTRIES@
        + PROFILE_FROM_RENDER_SETTINGS_ENTRY_LINE@ + PROFILE_FROM_INVOKE_SETTINGS_MENU@
        + PROFILE_FROM_RENDER_PATH_MENU@ + PROFILE_FROM_RENDER_PATH_SELECTION_CHANGE@
        + PROFILE_FROM_CONFIRM_CLEAR_SAVED_PATHS@ + PROFILE_FROM_MOVE_MENU_SELECTION_VERTICAL@
        + PROFILE_FROM_INVOKE_PATH_MENU@ + PROFILE_FROM_RELOAD@
}

/// The managed block for the executable `exe` and the configuration
/// directory `dir`: the markers around the script, with the executable and
/// the commands, paths and settings files quoted into it.
pub open spec fn render_block_seq(exe: Seq<char>, dir: Seq<char>) -> Seq<char> {
    START_MARKER@ + PROFILE_AFTER_START@ + ps_quote_seq(exe) + PROFILE_AFTER_EXE@ + ps_quote_seq(
        config_path_seq(dir, ConfigFile::Commands),
    ) + PROFILE_AFTER_COMMANDS@ + ps_quote_seq(config_path_seq(dir, ConfigFile::Paths))
        + PROFILE_AFTER_PATHS@ + ps_quote_seq(config_path_seq(dir, ConfigFile::Settings))
        + profile_body_seq() + END_MARKER@ + seq!['\n']
}

/// Renders the managed profile block.
pub fn render_block(exe_path: &str, config_dir: &str) -> (r: String)
    ensures
        r@ == render_block_seq(exe_path@, config_dir@),
{
    let mut r = owned(START_MARKER);
    push_str(&mut r, PROFILE_AFTER_START);
    push_str(&mut r, ps_quote(exe_path).as_str());
    push_str(&mut r, PROFILE_AFTER_EXE);
    push_str(&mut r, ps_quote(config_path(config_dir, ConfigFile::Commands).as_str()).as_str());
    push_str(&mut r, PROFILE_AFTER_COMMANDS);
    push_str(&mut r, ps_quote(config_path(config_dir, ConfigFile::Paths).as_str()).as_str());
    push_str(&mut r, PROFILE_AFTER_PATHS);
    push_str(&mut r, ps_quote(config_path(config_dir, ConfigFile::Settings).as_str()).as_str());
    push_str(&mut r, PROFILE_PRELUDE);
    push_str(&mut r, PROFILE_FROM_LOAD_SETTINGS_CONFIG);
    push_str(&mut r, PROFILE_FROM_PROMPT_PATH_TEXT);
    push_str(&mut r, PROFILE_FROM_PROCESS_START_UNIX_SECONDS);
    push_str(&mut r, PROFILE_FROM_MARK_SESSIONS_RESTORED);
    push_str(&mut r, PROFILE_FROM_PATH_MENU_ENTRIES);
    push_str(&mut r, PROFILE_FROM_SETTINGS_MENU_ENTRIES);
    push_str(&mut r, PROFILE_FROM_RENDER_SETTINGS_ENTRY_LINE);
    push_str(&mut r, PROFILE_FROM_INVOKE_SETTINGS_MENU);
    push_str(&mut r, PROFILE_FROM_RENDER_PATH_MENU);
    push_str(&mut r, PROFILE_FROM_RENDER_PATH_SELECTION_CHANGE);
    push_str(&mut r, PROFILE_FROM_CONFIRM_CLEAR_SAVED_PATHS);
    push_str(&mut r, PROFILE_FROM_MOVE_MENU_SELECTION_VERTICAL);
    push_str(&mut r, PROFILE_FROM_INVOKE_PATH_MENU);
    push_str(&mut r, PROFILE_FROM_RELOAD);
    push_str(&mut r, END_MARKER);
    push_char(&mut r, '\n');
    r
}

/// `Microsoft.PowerShell_profile.ps1` in the folder `folder` under the
/// documents directory.
pub open spec fn profile_file_seq(documents: Seq<char>, folder: Seq<char>) -> Seq<char> {
    join_path_seq(join_path_seq(documents, folder), "Microsoft.PowerShell_profile.ps1"@)
}

/// The profile files of a shell target: PowerShell 7's, then Windows
/// PowerShell's.
pub open spec fn profile_paths_seq(documents: Seq<char>, shell: ShellTarget) -> Seq<Seq<char>> {
    match shell {
        ShellTarget::All => seq![
            profile_file_seq(documents, "PowerShell"@),
            profile_file_seq(documents, "WindowsPowerShell"@),
        ],
        ShellTarget::Pwsh => seq![profile_file_seq(documents, "PowerShell"@)],
        ShellTarget::WindowsPowerShell => seq![profile_file_seq(documents, "WindowsPowerShell"@)],
    }
}

/// For a documents directory written the ordinary way (at least four
/// characters, no verbatim prefix, no separator at its end), the file
/// `Microsoft.PowerShell_profile.ps1` in its folder `folder` is the
/// directory, a backslash, the folder, a backslash and the file name.
proof fn lemma_plain_profile_file(documents: Seq<char>, folder: Seq<char>)
    requires
        documents.len() >= 4,
        !is_verbatim(documents),
        !is_path_sep(documents.last()),
        folder.len() >= 3,
        folder[0] == 'P' || folder[0] == 'W',
        folder[1] == 'o' || folder[1] == 'i',
        !is_path_sep(folder.last()),
    ensures
        profile_file_seq(documents, folder) == documents + seq!['\\'] + folder + seq!['\\']
            + "Microsoft.PowerShell_profile.ps1"@,
{
    reveal_strlit("Microsoft.PowerShell_profile.ps1");
    let name = "Microsoft.PowerShell_profile.ps1"@;
    let dir = documents + seq!['\\'] + folder;
    assert(crate::paths::prefix_len(folder) == 0);
    assert(join_path_seq(documents, folder) == dir);
    assert(crate::paths::prefix_len(name) == 0);
    assert(dir.take(4) =~= documents.take(4));
    assert(!is_verbatim(dir)) by {
        assert(dir[0] == documents[0] && dir[1] == documents[1] && dir[2] == documents[2]
            && dir[3] == documents[3]);
    }
    assert(dir.last() == folder.last());
    assert(join_path_seq(dir, name) == dir + seq!['\\'] + name);
}

/// `ps init` writes PowerShell 7's profile for `pwsh`, Windows
/// PowerShell's for `powershell`, and both, PowerShell 7's first, for
/// `all`: `Microsoft.PowerShell_profile.ps1` in the folder `PowerShell`
/// or `WindowsPowerShell` of the documents directory. For a documents
/// directory written the ordinary way these are
/// `<documents>\PowerShell\Microsoft.PowerShell_profile.ps1` and
/// `<documents>\WindowsPowerShell\Microsoft.PowerShell_profile.ps1`.
pub proof fn law_profile_files(documents: Seq<char>)
    ensures
        profile_paths_seq(documents, ShellTarget::Pwsh) == seq![
            join_path_seq(join_path_seq(documents, "PowerShell"@), "Microsoft.PowerShell_profile.ps1"@),
        ],
        profile_paths_seq(documents, ShellTarget::WindowsPowerShell) == seq![
            join_path_seq(
                join_path_seq(documents, "WindowsPowerShell"@),
                "Microsoft.PowerShell_profile.ps1"@,
            ),
        ],
        profile_paths_seq(documents, ShellTarget::All) == profile_paths_seq(
            documents,
            ShellTarget::Pwsh,
        ) + profile_paths_seq(documents, ShellTarget::WindowsPowerShell),
        documents.len() >= 4 && !is_verbatim(documents) && !is_path_sep(documents.last())
            ==> profile_paths_seq(documents, ShellTarget::Pwsh) == seq![
            documents + "\\PowerShell\\Microsoft.PowerShell_profile.ps1"@,
        ] && profile_paths_seq(documents, ShellTarget::WindowsPowerShell) == seq![
            documents + "\\WindowsPowerShell\\Microsoft.PowerShell_profile.ps1"@,
        ],
{
    assert(profile_paths_seq(documents, ShellTarget::All) =~= profile_paths_seq(
        documents,
        ShellTarget::Pwsh,
    ) + profile_paths_seq(documents, ShellTarget::WindowsPowerShell));
    if documents.len() >= 4 && !is_verbatim(documents) && !is_path_sep(documents.last()) {
        reveal_strlit("PowerShell");
        reveal_strlit("WindowsPowerShell");
        reveal_strlit("Microsoft.PowerShell_profile.ps1");
        reveal_strlit("\\PowerShell\\Microsoft.PowerShell_profile.ps1");
        reveal_strlit("\\WindowsPowerShell\\Microsoft.PowerShell_profile.ps1");
        lemma_plain_profile_file(documents, "PowerShell"@);
        lemma_plain_profile_file(documents, "WindowsPowerShell"@);
        assert(documents + seq!['\\'] + "PowerShell"@ + seq!['\\']
            + "Microsoft.PowerShell_profile.ps1"@ =~= documents
            + "\\PowerShell\\Microsoft.PowerShell_profile.ps1"@);
        assert(documents + seq!['\\'] + "WindowsPowerShell"@ + seq!['\\']
            + "Microsoft.PowerShell_profile.ps1"@ =~= documents
            + "\\WindowsPowerShell\\Microsoft.PowerShell_profile.ps1"@);
    }
}

fn profile_file(documents: &str, folder: &str) -> (r: String)
    ensures
        r@ == profile_file_seq(documents@, folder@),
{
    let dir = join_path(documents, folder);
    join_path(dir.as_str(), "Microsoft.PowerShell_profile.ps1")
}

/// The profile files that `ps init` writes, under the documents directory.
pub fn profile_paths(documents: &str, shell: ShellTarget) -> (r: Vec<String>)
    ensures
        views(r@) == profile_paths_seq(documents@, shell),
        shell == ShellTarget::Pwsh ==> views(r@) == seq![
            join_path_seq(join_path_seq(documents@, "PowerShell"@), "Microsoft.PowerShell_profile.ps1"@),
        ],
        shell == ShellTarget::WindowsPowerShell ==> views(r@) == seq![
            join_path_seq(
                join_path_seq(documents@, "WindowsPowerShell"@),
                "Microsoft.PowerShell_profile.ps1"@,
            ),
        ],
        shell == ShellTarget::All ==> views(r@) == seq![
            join_path_seq(join_path_seq(documents@, "PowerShell"@), "Microsoft.PowerShell_profile.ps1"@),
            join_path_seq(
                join_path_seq(documents@, "WindowsPowerShell"@),
                "Microsoft.PowerShell_profile.ps1"@,
            ),
        ],
{
    let mut paths: Vec<String> = Vec::new();
    match shell {
        ShellTarget::All => {
            paths.push(profile_file(documents, "PowerShell"));
            paths.push(profile_file(documents, "WindowsPowerShell"));
        },
        ShellTarget::Pwsh => {
            paths.push(profile_file(documents, "PowerShell"));
        },
        ShellTarget::WindowsPowerShell => {
            paths.push(profile_file(documents, "WindowsPowerShell"));
        },
    }
    assert(views(paths@) =~= profile_paths_seq(documents@, shell));
    proof {
        law_profile_files(documents@);
    }
    paths
}

/// The documents directory: what PowerShell reported, trimmed, when that
/// is not blank; else `Documents` under the home directory; else unknown.
pub open spec fn documents_dir_seq(reported: Option<Seq<char>>, home: Option<Seq<char>>) -> Option<
    Seq<char>,
> {
    match reported {
        Some(o) if trim_seq(o).len() > 0 => Some(trim_seq(o)),
        _ => match home {
            Some(h) => Some(join_path_seq(h, "Documents"@)),
            None => None,
        },
    }
}

/// Chooses the documents directory from what PowerShell reported (on
/// Windows, when the query succeeded) and the home directory.
pub fn documents_dir(reported: Option<&str>, home: Option<&str>) -> (r: Option<String>)
    ensures
        r matches Some(d) ==> documents_dir_seq(
            match reported {
                Some(o) => Some(o@),
                None => None,
            },
            match home {
                Some(h) => Some(h@),
                None => None,
            },
        ) == Some(d@),
        r is None ==> documents_dir_seq(
            match reported {
                Some(o) => Some(o@),
                None => None,
            },
            match home {
                Some(h) => Some(h@),
                None => None,
            },
        ) is None,
{
    if let Some(o) = reported {
        let t = trim(o);
        if t.as_str().unicode_len() > 0 {
            return Some(t);
        }
    }
    match home {
        Some(h) => Some(join_path(h, "Documents")),
        None => None,
    }
}

/// The profile text with the block appended after the existing text,
/// separated by a blank line when there is any.
pub open spec fn append_block_seq(existing: Seq<char>, block: Seq<char>) -> Seq<char> {
    let t = trim_end_seq(existing);
    (if t.len() == 0 {
        t
    } else {
        t + seq!['\n', '\n']
    }) + trim_end_seq(block) + seq!['\n']
}

/// The text ends with a line break.
pub open spec fn ends_with_newline(s: Seq<char>) -> bool {
    s.len() > 0 && s.last() == '\n'
}

/// The profile text after installing `block`: the first start marker,
/// through the first end marker after it, is replaced by the block; with no
/// such pair the block is appended.
pub open spec fn replace_or_append_seq(existing: Seq<char>, block: Seq<char>) -> Seq<char> {
    match find_from(existing, START_MARKER@, 0) {
        Some(start) => match find_from(existing, END_MARKER@, start) {
            Some(e) => {
                let spliced = existing.take(start) + trim_end_seq(block) + existing.skip(
                    e + END_MARKER@.len(),
                );
                if ends_with_newline(spliced) {
                    spliced
                } else {
                    spliced.push('\n')
                }
            },
            None => append_block_seq(existing, block),
        },
        None => append_block_seq(existing, block),
    }
}

/// Puts the managed block into the text of a profile.
pub fn replace_or_append_block(existing: &str, block: &str) -> (r: String)
    ensures
        r@ == replace_or_append_seq(existing@, block@),
{
    let e = chars_of(existing);
    let st = chars_of(START_MARKER);
    let en = chars_of(END_MARKER);
    let tb = trim_end(block);
    if let Some(start) = find_vec(&e, &st, 0) {
        if let Some(q) = find_vec(&e, &en, start) {
            assert(e@.len() == e.len());
            let end = q + en.len();
            let mut updated = string_of_range(&e, 0, start);
            push_str(&mut updated, tb.as_str());
            push_range(&mut updated, &e, end, e.len());
            let ghost spliced = updated@;
            assert(e@.subrange(0, start as int) =~= e@.take(start as int));
            assert(e@.subrange(end as int, e@.len() as int) =~= e@.skip(end as int));
            let n = updated.as_str().unicode_len();
            if !(n > 0 && updated.as_str().get_char(n - 1) == '\n') {
                push_char(&mut updated, '\n');
            }
            return updated;
        }
    }
    let t = trim_end(existing);
    let mut updated = t;
    if updated.as_str().unicode_len() > 0 {
        push_str(&mut updated, "\n\n");
        proof {
            reveal_strlit("\n\n");
        }
    }
    push_str(&mut updated, tb.as_str());
    push_char(&mut updated, '\n');
    updated
}

/// Writes the block into one profile's text: the new text, and whether it
/// differs from the old.
pub fn upsert_profile_block(existing: &str, block: &str) -> (r: (String, bool))
    ensures
        r.0@ == replace_or_append_seq(existing@, block@),
        r.1 == (r.0@ != existing@),
{
    let updated = replace_or_append_block(existing, block);
    let changed = !crate::text::str_eq(updated.as_str(), existing);
    (updated, changed)
}

/// The current text of the `i`-th profile file, empty where none was read.
pub open spec fn existing_at(existing: Seq<String>, i: int) -> Seq<char> {
    if 0 <= i < existing.len() {
        existing[i]@
    } else {
        Seq::empty()
    }
}

/// Installs the block into each profile of the target: for each profile
/// path (in the order of `profile_paths`) its result and its new text.
/// `existing[i]` is the current text of the `i`-th profile.
pub fn install(
    shell: ShellTarget,
    exe_path: &str,
    config_dir: &str,
    documents: &str,
    existing: &Vec<String>,
) -> (r: Vec<(InstallResult, String)>)
    ensures
        r@.len() == profile_paths_seq(documents@, shell).len(),
        forall|i: int|
            0 <= i < r@.len() ==> {
                &&& (#[trigger] r@[i]).0.path@ == profile_paths_seq(documents@, shell)[i]
                &&& r@[i].1@ == replace_or_append_seq(
                    existing_at(existing@, i),
                    render_block_seq(exe_path@, config_dir@),
                )
                &&& r@[i].0.changed == (r@[i].1@ != existing_at(existing@, i))
            },
{
    let block = render_block(exe_path, config_dir);
    let paths = profile_paths(documents, shell);
    let mut results: Vec<(InstallResult, String)> = Vec::new();
    let mut i: usize = 0;
    while i < paths.len()
        invariant
            i <= paths@.len(),
            views(paths@) == profile_paths_seq(documents@, shell),
            block@ == render_block_seq(exe_path@, config_dir@),
            results@.len() == i,
            forall|k: int|
                0 <= k < i ==> {
                    &&& (#[trigger] results@[k]).0.path@ == profile_paths_seq(documents@, shell)[k]
                    &&& results@[k].1@ == replace_or_append_seq(
                        existing_at(existing@, k),
                        block@,
                    )
                    &&& results@[k].0.changed == (results@[k].1@ != existing_at(existing@, k))
                },
        decreases paths.len() - i,
    {
        let current: &str = if i < existing.len() {
            existing[i].as_str()
        } else {
            ""
        };
        proof {
            reveal_strlit("");
        }
        assert(current@ == existing_at(existing@, i as int));
        let (text, changed) = upsert_profile_block(current, block.as_str());
        let path = owned(paths[i].as_str());
        assert(path@ == views(paths@)[i as int]);
        results.push((InstallResult { path, changed }, text));
        i = i + 1;
    }
    results
}

/// The first character of `p` occurs nowhere else in `p`, so no two
/// occurrences of `p` can overlap.
pub open spec fn head_unique(p: Seq<char>) -> bool {
    p.len() > 0 && forall|k: int| 1 <= k < p.len() ==> #[trigger] p[k] != p[0]
}

proof fn lemma_markers()
    ensures
        START_MARKER@.len() == 16,
        END_MARKER@.len() == 16,
        head_unique(START_MARKER@),
        head_unique(END_MARKER@),
        START_MARKER@[15] != '\n',
{
    reveal_strlit("# >>> ps cli >>>");
    reveal_strlit("# <<< ps cli <<<");
}

/// When `y` starts with `p` and `p` does not occur wholly inside `x` at or
/// after `i`, the first occurrence of `p` in `x + y` from `i` is where `y`
/// begins.
proof fn lemma_first_at_join(x: Seq<char>, y: Seq<char>, p: Seq<char>, i: int)
    requires
        head_unique(p),
        occurs_at(y, p, 0),
        0 <= i <= x.len(),
        forall|j: int| i <= j && j + p.len() <= x.len() ==> !occurs_at(x, p, j),
    ensures
        find_from(x + y, p, i) == Some(x.len() as int),
    decreases x.len() - i,
{
    let s = x + y;
    if i == x.len() {
        assert(s.subrange(i, i + p.len()) =~= y.subrange(0, p.len() as int));
    } else {
        if occurs_at(s, p, i) {
            if i + p.len() <= x.len() {
                assert(s.subrange(i, i + p.len()) =~= x.subrange(i, i + p.len()));
                assert(occurs_at(x, p, i));
            } else {
                let k = x.len() - i;
                assert(s.subrange(i, i + p.len())[k] == s[x.len() as int]);
                assert(y.subrange(0, p.len() as int)[0] == y[0]);
                assert(p[k] == p[0]);
            }
        }
        lemma_first_at_join(x, y, p, i + 1);
    }
}

/// A block that can be found again once written: its trimmed text starts
/// with the start marker, and the first end marker in it is its end.
pub open spec fn block_well_formed(block: Seq<char>) -> bool {
    let tb = trim_end_seq(block);
    starts_with(tb, START_MARKER@) && find_from(tb, END_MARKER@, 0) == Some(
        tb.len() - END_MARKER@.len(),
    )
}

/// The first start marker of the text, if any, has an end marker after it.
pub open spec fn markers_paired(existing: Seq<char>) -> bool {
    match find_from(existing, START_MARKER@, 0) {
        Some(s) => find_from(existing, END_MARKER@, s) is Some,
        None => true,
    }
}

/// Installing the same block a second time leaves the profile as the first
/// install wrote it, so re-running `ps init` reports no change. (A profile
/// with a start marker and no end marker after it is the exception: the
/// first install appends, and the second then replaces from that start
/// marker.)
pub proof fn law_install_is_idempotent(existing: Seq<char>, block: Seq<char>)
    requires
        block_well_formed(block),
        markers_paired(existing),
    ensures
        replace_or_append_seq(replace_or_append_seq(existing, block), block)
            == replace_or_append_seq(existing, block),
{
    lemma_markers();
    let sm = START_MARKER@;
    let em = END_MARKER@;
    let tb = trim_end_seq(block);
    let m = tb.len() - 16;
    let r1 = replace_or_append_seq(existing, block);
    lemma_find_from_props(existing, sm, 0);
    lemma_find_from_props(tb, em, 0);
    assert(tb.take(16) =~= sm);
    assert(tb.subrange(m, m + 16) =~= em);
    match find_from(existing, sm, 0) {
        Some(s) => {
            lemma_find_from_props(existing, em, s);
            let q = find_from(existing, em, s)->0;
            let pre = existing.take(s);
            let post = existing.skip(q + 16);
            let spliced = pre + tb + post;
            let rest = if ends_with_newline(spliced) {
                post
            } else {
                post.push('\n')
            };
            assert(r1 =~= pre + (tb + rest));
            assert(ends_with_newline(r1));
            assert forall|j: int| 0 <= j && j + 16 <= pre.len() implies !occurs_at(pre, sm, j) by {
                assert(pre.subrange(j, j + 16) =~= existing.subrange(j, j + 16));
                assert(!occurs_at(existing, sm, j));
            }
            assert((tb + rest).subrange(0, 16) =~= tb.take(16));
            lemma_first_at_join(pre, tb + rest, sm, 0);
            let x2 = pre + tb.take(m);
            let y2 = tb.skip(m) + rest;
            assert(x2 + y2 =~= r1);
            assert forall|j: int| s <= j && j + 16 <= x2.len() implies !occurs_at(x2, em, j) by {
                assert(x2.subrange(j, j + 16) =~= tb.subrange(j - s, j - s + 16));
                assert(!occurs_at(tb, em, j - s));
            }
            assert(y2.subrange(0, 16) =~= tb.subrange(m, m + 16));
            lemma_first_at_join(x2, y2, em, s);
            assert(r1.take(s) =~= pre);
            assert(r1.skip(s + m + 16) =~= rest);
            assert(r1.take(s) + tb + r1.skip(s + m + 16) =~= r1);
        },
        None => {
            let t = trim_end_seq(existing);
            lemma_trim_end_prefix(existing);
            let k = choose|k: int| 0 <= k <= existing.len() && t == existing.take(k);
            let sep = if t.len() == 0 {
                Seq::<char>::empty()
            } else {
                seq!['\n', '\n']
            };
            let x = t + sep;
            assert(r1 =~= x + (tb + seq!['\n']));
            assert forall|j: int| 0 <= j && j + 16 <= x.len() implies !occurs_at(x, sm, j) by {
                if j + 16 <= t.len() {
                    assert(x.subrange(j, j + 16) =~= existing.subrange(j, j + 16));
                    assert(!occurs_at(existing, sm, j));
                } else {
                    assert(x.subrange(j, j + 16)[15] == x[j + 15]);
                    assert(x[j + 15] == '\n');
                    assert(x.subrange(j, j + 16)[15] != sm[15]);
                }
            }
            assert((tb + seq!['\n']).subrange(0, 16) =~= tb.take(16));
            lemma_first_at_join(x, tb + seq!['\n'], sm, 0);
            let x2 = x + tb.take(m);
            let y2 = tb.skip(m) + seq!['\n'];
            assert(x2 + y2 =~= r1);
            assert forall|j: int|
                x.len() <= j && j + 16 <= x2.len() implies !occurs_at(x2, em, j) by {
                assert(x2.subrange(j, j + 16) =~= tb.subrange(j - x.len(), j - x.len() + 16));
                assert(!occurs_at(tb, em, j - x.len()));
            }
            assert(y2.subrange(0, 16) =~= tb.subrange(m, m + 16));
            lemma_first_at_join(x2, y2, em, x.len() as int);
            assert(r1.take(x.len() as int) =~= x);
            assert(r1.skip(x.len() + m + 16) =~= seq!['\n']);
            assert(r1.take(x.len() as int) + tb + r1.skip(x.len() + m + 16) =~= r1);
        },
    }
}

/// How `ps init` reports one profile: `updated` or `already current`, then
/// its path.
pub open spec fn install_line_seq(path: Seq<char>, changed: bool) -> Seq<char> {
    (if changed {
        "updated"@
    } else {
        "already current"@
    }) + ": "@ + path
}

/// The line that `ps init` prints for one profile.
pub fn install_line(result: &InstallResult) -> (r: String)
    ensures
        r@ == install_line_seq(result.path@, result.changed),
{
    let mut r = if result.changed {
        owned("updated")
    } else {
        owned("already current")
    };
    push_str(&mut r, ": ");
    push_str(&mut r, result.path.as_str());
    r
}


// ---------------------------------------------------------------------
// The rendered block can be found again.
// ---------------------------------------------------------------------

/// The fixed text of the managed block between its start and end
/// markers: everything but the quoted executable and configuration files.
pub open spec fn fixed_block_text() -> Seq<char> {
    PROFILE_AFTER_START@ + PROFILE_AFTER_EXE@ + PROFILE_AFTER_COMMANDS@ + PROFILE_AFTER_PATHS@
        + profile_body_seq()
}

proof fn lemma_no_lt_concat(a: Seq<char>, b: Seq<char>)
    ensures
        has_no_lt(a + b) == (has_no_lt(a) && has_no_lt(b)),
{
    if has_no_lt(a + b) {
        assert forall|i: int| 0 <= i < a.len() implies a[i] != '<' by {
            assert((a + b)[i] == a[i]);
        }
        assert forall|i: int| 0 <= i < b.len() implies b[i] != '<' by {
            assert((a + b)[a.len() + i] == b[i]);
        }
    }
    if has_no_lt(a) && has_no_lt(b) {
        assert forall|i: int| 0 <= i < (a + b).len() implies (a + b)[i] != '<' by {
            if i < a.len() {
                assert((a + b)[i] == a[i]);
            } else {
                assert((a + b)[i] == b[i - a.len()]);
            }
        }
    }
}

proof fn lemma_end_marker()
    ensures
        END_MARKER@.len() == 16,
        END_MARKER@[2] == '<',
        END_MARKER@[15] == '<',
        !END_MARKER@.contains('\''),
        !END_MARKER@.contains('\\'),
        !END_MARKER@.contains('/'),
        head_unique(END_MARKER@),
        has_no_lt(START_MARKER@),
        START_MARKER@.len() == 16,
{
    reveal_strlit("# <<< ps cli <<<");
    reveal_strlit("# >>> ps cli >>>");
    lemma_markers();
}

/// Text without `<` does not hold the end marker.
proof fn lemma_no_lt_no_end(x: Seq<char>)
    requires
        has_no_lt(x),
    ensures
        !contains_seq(x, END_MARKER@),
{
    lemma_end_marker();
    if contains_seq(x, END_MARKER@) {
        let i = choose|i: int| occurs_at(x, END_MARKER@, i);
        assert(x.subrange(i, i + 16)[2] == x[i + 2]);
    }
}

proof fn lemma_contains_left(a: Seq<char>, b: Seq<char>, p: Seq<char>)
    requires
        contains_seq(a, p),
    ensures
        contains_seq(a + b, p),
{
    let i = choose|i: int| occurs_at(a, p, i);
    assert((a + b).subrange(i, i + p.len()) =~= a.subrange(i, i + p.len()));
    assert(occurs_at(a + b, p, i));
}

proof fn lemma_contains_right(a: Seq<char>, b: Seq<char>, p: Seq<char>)
    requires
        contains_seq(b, p),
    ensures
        contains_seq(a + b, p),
{
    let i = choose|i: int| occurs_at(b, p, i);
    assert((a + b).subrange(a.len() + i, a.len() + i + p.len()) =~= b.subrange(i, i + p.len()));
    assert(occurs_at(a + b, p, a.len() + i));
}

/// A pattern without a quote that occurs in `x'y` occurs in `x` or in `y`.
proof fn lemma_split_at_quote(x: Seq<char>, y: Seq<char>, p: Seq<char>)
    requires
        !p.contains('\''),
        contains_seq(x + seq!['\''] + y, p),
    ensures
        contains_seq(x, p) || contains_seq(y, p),
{
    let s = x + seq!['\''] + y;
    let i = choose|i: int| occurs_at(s, p, i);
    if i + p.len() <= x.len() {
        assert(s.subrange(i, i + p.len()) =~= x.subrange(i, i + p.len()));
        assert(occurs_at(x, p, i));
    } else if i > x.len() {
        let j = i - x.len() - 1;
        assert(s.subrange(i, i + p.len()) =~= y.subrange(j, j + p.len()));
        assert(occurs_at(y, p, j));
    } else {
        let k = x.len() - i;
        assert(s.subrange(i, i + p.len())[k] == s[x.len() as int]);
        assert(p[k] == '\'');
    }
}

proof fn lemma_escape_plain(x: Seq<char>)
    requires
        !x.contains('\''),
    ensures
        escape_quotes(x) == x,
    decreases x.len(),
{
    if x.len() > 0 {
        assert(x.drop_first().len() < x.len());
        assert forall|k: int| 0 <= k < x.drop_first().len() implies x.drop_first()[k] != '\'' by {
            assert(x.drop_first()[k] == x[k + 1]);
        }
        lemma_escape_plain(x.drop_first());
        assert(x[0] != '\'');
        assert(seq![x[0]] + x.drop_first() =~= x);
    }
}

/// The last quote of a text that has one.
proof fn lemma_last_quote(x: Seq<char>) -> (k: int)
    requires
        x.contains('\''),
    ensures
        0 <= k < x.len(),
        x[k] == '\'',
        !x.skip(k + 1).contains('\''),
    decreases x.len(),
{
    if x.last() == '\'' {
        assert(x.skip(x.len() as int) =~= Seq::<char>::empty());
        (x.len() - 1) as int
    } else {
        let j = choose|j: int| 0 <= j < x.len() && x[j] == '\'';
        assert(j < x.len() - 1);
        assert(x.drop_last()[j] == '\'');
        let k = lemma_last_quote(x.drop_last());
        assert(x.skip(k + 1) =~= x.drop_last().skip(k + 1).push(x.last()));
        let t = x.skip(k + 1);
        let u = x.drop_last().skip(k + 1);
        if t.contains('\'') {
            let m = choose|m: int| 0 <= m < t.len() && t[m] == '\'';
            if m < u.len() {
                assert(u[m] == '\'');
            }
        }
        k
    }
}

/// A pattern without a quote found in the escaped text is in the text.
proof fn lemma_escape_keeps_pattern(x: Seq<char>, p: Seq<char>)
    requires
        !p.contains('\''),
        contains_seq(escape_quotes(x), p),
    ensures
        contains_seq(x, p),
    decreases x.len(),
{
    if p.len() == 0 {
        assert(x.subrange(0, 0) =~= p);
        assert(occurs_at(x, p, 0));
    } else if !x.contains('\'') {
        lemma_escape_plain(x);
    } else {
        let k = lemma_last_quote(x);
        let a = x.take(k);
        let b = x.skip(k + 1);
        let qb = seq!['\''] + b;
        assert(x =~= a + seq!['\''] + b);
        assert(x =~= a + qb);
        crate::quote::lemma_escape_concat(a, qb);
        crate::quote::lemma_escape_concat(seq!['\''], b);
        crate::quote::lemma_escape_single('\'');
        lemma_escape_plain(b);
        assert(escape_quotes(x) == escape_quotes(a) + (seq!['\'', '\''] + b));
        assert(escape_quotes(a) + (seq!['\'', '\''] + b) =~= escape_quotes(a) + seq!['\''] + (
        Seq::<char>::empty() + seq!['\''] + b));
        lemma_split_at_quote(escape_quotes(a), Seq::<char>::empty() + seq!['\''] + b, p);
        if contains_seq(escape_quotes(a), p) {
            lemma_escape_keeps_pattern(a, p);
            lemma_contains_left(a, seq!['\''] + b, p);
        } else {
            lemma_split_at_quote(Seq::<char>::empty(), b, p);
            if contains_seq(Seq::<char>::empty(), p) {
                let i = choose|i: int| occurs_at(Seq::<char>::empty(), p, i);
            } else {
                lemma_contains_right(a + seq!['\''], b, p);
            }
        }
    }
}

/// The end marker found in a path under `dir` is in `dir`.
proof fn lemma_end_in_config_path(dir: Seq<char>, file: ConfigFile)
    requires
        file != ConfigFile::Dir,
        contains_seq(config_path_seq(dir, file), END_MARKER@),
    ensures
        contains_seq(dir, END_MARKER@),
{
    lemma_end_marker();
    reveal_strlit("commands.json");
    reveal_strlit("paths.json");
    reveal_strlit("settings.json");
    reveal_strlit("workspaces.json");
    let name = crate::config::config_file_name(file);
    assert(has_no_lt(name));
    crate::paths::lemma_join_pattern_from_base(dir, name, END_MARKER@);
}

/// A quoted text whose end marker-free content is set between two pieces
/// without `<`, none of which holds the end marker.
proof fn lemma_quoted_path(dir: Seq<char>, file: ConfigFile)
    requires
        file != ConfigFile::Dir,
        !contains_seq(dir, END_MARKER@),
    ensures
        !contains_seq(escape_quotes(config_path_seq(dir, file)), END_MARKER@),
{
    lemma_end_marker();
    if contains_seq(escape_quotes(config_path_seq(dir, file)), END_MARKER@) {
        lemma_escape_keeps_pattern(config_path_seq(dir, file), END_MARKER@);
        lemma_end_in_config_path(dir, file);
    }
}

/// Text that holds the pattern neither on its own side of a quote.
proof fn lemma_cat_not(x: Seq<char>, y: Seq<char>, p: Seq<char>)
    requires
        !p.contains('\''),
        !contains_seq(x, p),
        !contains_seq(y, p),
        (x.len() > 0 && x.last() == '\'') || (y.len() > 0 && y[0] == '\''),
    ensures
        !contains_seq(x + y, p),
{
    if x.len() > 0 && x.last() == '\'' {
        let a = x.drop_last();
        assert(x =~= a + seq!['\'']);
        if contains_seq(a, p) {
            lemma_contains_left(a, seq!['\''], p);
        }
        assert(x + y =~= a + seq!['\''] + y);
        lemma_split_at_quote_not(a, y, p);
    } else {
        let b = y.drop_first();
        assert(y =~= seq!['\''] + b);
        if contains_seq(b, p) {
            lemma_contains_right(seq!['\''], b, p);
        }
        assert(x + y =~= x + seq!['\''] + b);
        lemma_split_at_quote_not(x, b, p);
    }
}

/// A quoted text holds the end marker only where its content does.
proof fn lemma_quoted_not(x: Seq<char>)
    requires
        !contains_seq(escape_quotes(x), END_MARKER@),
    ensures
        !contains_seq(crate::quote::ps_quote_seq(x), END_MARKER@),
        crate::quote::ps_quote_seq(x)[0] == '\'',
        crate::quote::ps_quote_seq(x).last() == '\'',
        crate::quote::ps_quote_seq(x).len() > 0,
{
    lemma_end_marker();
    let e = escape_quotes(x);
    assert(!contains_seq(Seq::<char>::empty(), END_MARKER@));
    lemma_split_at_quote_not(e, Seq::<char>::empty(), END_MARKER@);
    assert(e + seq!['\''] + Seq::<char>::empty() =~= e + seq!['\'']);
    lemma_split_at_quote_not(Seq::<char>::empty(), e + seq!['\''], END_MARKER@);
    assert(Seq::<char>::empty() + seq!['\''] + (e + seq!['\'']) =~= crate::quote::ps_quote_seq(x));
}

/// The managed block up to its end marker.
pub open spec fn block_head_seq(exe: Seq<char>, dir: Seq<char>) -> Seq<char> {
    START_MARKER@ + PROFILE_AFTER_START@ + ps_quote_seq(exe) + PROFILE_AFTER_EXE@ + ps_quote_seq(
        config_path_seq(dir, ConfigFile::Commands),
    ) + PROFILE_AFTER_COMMANDS@ + ps_quote_seq(config_path_seq(dir, ConfigFile::Paths))
        + PROFILE_AFTER_PATHS@ + ps_quote_seq(config_path_seq(dir, ConfigFile::Settings))
        + profile_body_seq()
}

/// Before its end marker, the block does not hold the end marker.
proof fn lemma_head_has_no_end(exe: Seq<char>, dir: Seq<char>)
    requires
        !contains_seq(exe, END_MARKER@),
        !contains_seq(dir, END_MARKER@),
    ensures
        !contains_seq(block_head_seq(exe, dir), END_MARKER@),
{
    lemma_fixed_text_no_lt();
    lemma_end_marker();
    let em = END_MARKER@;
    let x1 = PROFILE_AFTER_EXE@;
    let x2 = PROFILE_AFTER_COMMANDS@;
    let x3 = PROFILE_AFTER_PATHS@;
    let body = profile_body_seq();
    lemma_no_lt_concat(PROFILE_AFTER_START@ + x1 + x2 + x3, body);
    lemma_no_lt_concat(PROFILE_AFTER_START@ + x1 + x2, x3);
    lemma_no_lt_concat(PROFILE_AFTER_START@ + x1, x2);
    lemma_no_lt_concat(PROFILE_AFTER_START@, x1);
    lemma_no_lt_concat(START_MARKER@, PROFILE_AFTER_START@);
    let x0 = START_MARKER@ + PROFILE_AFTER_START@;
    lemma_no_lt_no_end(x0);
    lemma_no_lt_no_end(x1);
    lemma_no_lt_no_end(x2);
    lemma_no_lt_no_end(x3);
    lemma_no_lt_no_end(body);
    let c1 = config_path_seq(dir, ConfigFile::Commands);
    let c2 = config_path_seq(dir, ConfigFile::Paths);
    let c3 = config_path_seq(dir, ConfigFile::Settings);
    if contains_seq(escape_quotes(exe), em) {
        lemma_escape_keeps_pattern(exe, em);
    }
    lemma_quoted_path(dir, ConfigFile::Commands);
    lemma_quoted_path(dir, ConfigFile::Paths);
    lemma_quoted_path(dir, ConfigFile::Settings);
    lemma_quoted_not(exe);
    lemma_quoted_not(c1);
    lemma_quoted_not(c2);
    lemma_quoted_not(c3);
    let s1 = x0 + ps_quote_seq(exe);
    lemma_cat_not(x0, ps_quote_seq(exe), em);
    let s2 = s1 + x1;
    lemma_cat_not(s1, x1, em);
    let s3 = s2 + ps_quote_seq(c1);
    lemma_cat_not(s2, ps_quote_seq(c1), em);
    let s4 = s3 + x2;
    lemma_cat_not(s3, x2, em);
    let s5 = s4 + ps_quote_seq(c2);
    lemma_cat_not(s4, ps_quote_seq(c2), em);
    let s6 = s5 + x3;
    lemma_cat_not(s5, x3, em);
    let s7 = s6 + ps_quote_seq(c3);
    lemma_cat_not(s6, ps_quote_seq(c3), em);
    lemma_cat_not(s7, body, em);
}

/// The block that `ps init` writes is one that a later run finds again,
/// when neither the executable path nor the configuration directory holds
/// the end marker.
pub proof fn lemma_render_block_well_formed(exe: Seq<char>, dir: Seq<char>)
    requires
        !contains_seq(exe, END_MARKER@),
        !contains_seq(dir, END_MARKER@),
    ensures
        block_well_formed(render_block_seq(exe, dir)),
{
    lemma_end_marker();
    lemma_head_has_no_end(exe, dir);
    let em = END_MARKER@;
    let pre = block_head_seq(exe, dir);
    let block = render_block_seq(exe, dir);
    assert(block == pre + em + seq!['\n']);
    let tb = pre + em;
    assert(block.drop_last() =~= tb);
    assert(is_ws('\n'));
    assert(tb.last() == em[15]);
    assert(!is_ws('<'));
    assert(trim_end_seq(tb) == tb);
    assert(trim_end_seq(block) == trim_end_seq(tb));
    assert(pre.take(16) =~= START_MARKER@) by {
        assert forall|k: int| 0 <= k < 16 implies pre[k] == START_MARKER@[k] by {
            assert(pre[k] == (START_MARKER@ + PROFILE_AFTER_START@)[k]);
        }
    }
    assert(tb.take(16) =~= pre.take(16));
    assert(em.subrange(0, 16) =~= em);
    assert forall|j: int| 0 <= j && j + em.len() <= pre.len() implies !occurs_at(pre, em, j) by {
        if occurs_at(pre, em, j) {
            assert(contains_seq(pre, em));
        }
    }
    lemma_first_at_join(pre, em, em, 0);
}

/// `x'y` holds no pattern without a quote that neither `x` nor `y` holds.
proof fn lemma_split_at_quote_not(x: Seq<char>, y: Seq<char>, p: Seq<char>)
    requires
        !p.contains('\''),
        !contains_seq(x, p),
        !contains_seq(y, p),
    ensures
        !contains_seq(x + seq!['\''] + y, p),
{
    if contains_seq(x + seq!['\''] + y, p) {
        lemma_split_at_quote(x, y, p);
    }
}

/// Running `ps init` twice leaves each profile as the first run wrote it,
/// for the block it renders for the executable `exe` and the configuration
/// directory `dir`, unless a profile has a start marker with no end marker
/// after it or `exe` or `dir` holds the end marker.
pub proof fn law_init_twice_unchanged(existing: Seq<char>, exe: Seq<char>, dir: Seq<char>)
    requires
        markers_paired(existing),
        !contains_seq(exe, END_MARKER@),
        !contains_seq(dir, END_MARKER@),
    ensures
        replace_or_append_seq(
            replace_or_append_seq(existing, render_block_seq(exe, dir)),
            render_block_seq(exe, dir),
        ) == replace_or_append_seq(existing, render_block_seq(exe, dir)),
{
    lemma_render_block_well_formed(exe, dir);
    law_install_is_idempotent(existing, render_block_seq(exe, dir));
}

/// The fixed text of the managed block holds no `<`.
pub proof fn lemma_fixed_text_no_lt()
    ensures
        has_no_lt(fixed_block_text()),
{
    crate::profile_text::lemma_pieces_have_no_lt();
    lemma_no_lt_concat(PROFILE_PRELUDE@ + PROFILE_FROM_LOAD_SETTINGS_CONFIG@ + PROFILE_FROM_PROMPT_PATH_TEXT@ + PROFILE_FROM_PROCESS_START_UNIX_SECONDS@ + PROFILE_FROM_MARK_SESSIONS_RESTORED@ + PROFILE_FROM_PATH_MENU_ENTRIES@ + PROFILE_FROM_SETTINGS_MENU_ENTRIES@ + PROFILE_FROM_RENDER_SETTINGS_ENTRY_LINE@ + PROFILE_FROM_INVOKE_SETTINGS_MENU@ + PROFILE_FROM_RENDER_PATH_MENU@ + PROFILE_FROM_RENDER_PATH_SELECTION_CHANGE@ + PROFILE_FROM_CONFIRM_CLEAR_SAVED_PATHS@ + PROFILE_FROM_MOVE_MENU_SELECTION_VERTICAL@ + PROFILE_FROM_INVOKE_PATH_MENU@, PROFILE_FROM_RELOAD@);
    lemma_no_lt_concat(PROFILE_PRELUDE@ + PROFILE_FROM_LOAD_SETTINGS_CONFIG@ + PROFILE_FROM_PROMPT_PATH_TEXT@ + PROFILE_FROM_PROCESS_START_UNIX_SECONDS@ + PROFILE_FROM_MARK_SESSIONS_RESTORED@ + PROFILE_FROM_PATH_MENU_ENTRIES@ + PROFILE_FROM_SETTINGS_MENU_ENTRIES@ + PROFILE_FROM_RENDER_SETTINGS_ENTRY_LINE@ + PROFILE_FROM_INVOKE_SETTINGS_MENU@ + PROFILE_FROM_RENDER_PATH_MENU@ + PROFILE_FROM_RENDER_PATH_SELECTION_CHANGE@ + PROFILE_FROM_CONFIRM_CLEAR_SAVED_PATHS@ + PROFILE_FROM_MOVE_MENU_SELECTION_VERTICAL@, PROFILE_FROM_INVOKE_PATH_MENU@);
    lemma_no_lt_concat(PROFILE_PRELUDE@ + PROFILE_FROM_LOAD_SETTINGS_CONFIG@ + PROFILE_FROM_PROMPT_PATH_TEXT@ + PROFILE_FROM_PROCESS_START_UNIX_SECONDS@ + PROFILE_FROM_MARK_SESSIONS_RESTORED@ + PROFILE_FROM_PATH_MENU_ENTRIES@ + PROFILE_FROM_SETTINGS_MENU_ENTRIES@ + PROFILE_FROM_RENDER_SETTINGS_ENTRY_LINE@ + PROFILE_FROM_INVOKE_SETTINGS_MENU@ + PROFILE_FROM_RENDER_PATH_MENU@ + PROFILE_FROM_RENDER_PATH_SELECTION_CHANGE@ + PROFILE_FROM_CONFIRM_CLEAR_SAVED_PATHS@, PROFILE_FROM_MOVE_MENU_SELECTION_VERTICAL@);
    lemma_no_lt_concat(PROFILE_PRELUDE@ + PROFILE_FROM_LOAD_SETTINGS_CONFIG@ + PROFILE_FROM_PROMPT_PATH_TEXT@ + PROFILE_FROM_PROCESS_START_UNIX_SECONDS@ + PROFILE_FROM_MARK_SESSIONS_RESTORED@ + PROFILE_FROM_PATH_MENU_ENTRIES@ + PROFILE_FROM_SETTINGS_MENU_ENTRIES@ + PROFILE_FROM_RENDER_SETTINGS_ENTRY_LINE@ + PROFILE_FROM_INVOKE_SETTINGS_MENU@ + PROFILE_FROM_RENDER_PATH_MENU@ + PROFILE_FROM_RENDER_PATH_SELECTION_CHANGE@, PROFILE_FROM_CONFIRM_CLEAR_SAVED_PATHS@);
    lemma_no_lt_concat(PROFILE_PRELUDE@ + PROFILE_FROM_LOAD_SETTINGS_CONFIG@ + PROFILE_FROM_PROMPT_PATH_TEXT@ + PROFILE_FROM_PROCESS_START_UNIX_SECONDS@ + PROFILE_FROM_MARK_SESSIONS_RESTORED@ + PROFILE_FROM_PATH_MENU_ENTRIES@ + PROFILE_FROM_SETTINGS_MENU_ENTRIES@ + PROFILE_FROM_RENDER_SETTINGS_ENTRY_LINE@ + PROFILE_FROM_INVOKE_SETTINGS_MENU@ + PROFILE_FROM_RENDER_PATH_MENU@, PROFILE_FROM_RENDER_PATH_SELECTION_CHANGE@);
    lemma_no_lt_concat(PROFILE_PRELUDE@ + PROFILE_FROM_LOAD_SETTINGS_CONFIG@ + PROFILE_FROM_PROMPT_PATH_TEXT@ + PROFILE_FROM_PROCESS_START_UNIX_SECONDS@ + PROFILE_FROM_MARK_SESSIONS_RESTORED@ + PROFILE_FROM_PATH_MENU_ENTRIES@ + PROFILE_FROM_SETTINGS_MENU_ENTRIES@ + PROFILE_FROM_RENDER_SETTINGS_ENTRY_LINE@ + PROFILE_FROM_INVOKE_SETTINGS_MENU@, PROFILE_FROM_RENDER_PATH_MENU@);
    lemma_no_lt_concat(PROFILE_PRELUDE@ + PROFILE_FROM_LOAD_SETTINGS_CONFIG@ + PROFILE_FROM_PROMPT_PATH_TEXT@ + PROFILE_FROM_PROCESS_START_UNIX_SECONDS@ + PROFILE_FROM_MARK_SESSIONS_RESTORED@ + PROFILE_FROM_PATH_MENU_ENTRIES@ + PROFILE_FROM_SETTINGS_MENU_ENTRIES@ + PROFILE_FROM_RENDER_SETTINGS_ENTRY_LINE@, PROFILE_FROM_INVOKE_SETTINGS_MENU@);
    lemma_no_lt_concat(PROFILE_PRELUDE@ + PROFILE_FROM_LOAD_SETTINGS_CONFIG@ + PROFILE_FROM_PROMPT_PATH_TEXT@ + PROFILE_FROM_PROCESS_START_UNIX_SECONDS@ + PROFILE_FROM_MARK_SESSIONS_RESTORED@ + PROFILE_FROM_PATH_MENU_ENTRIES@ + PROFILE_FROM_SETTINGS_MENU_ENTRIES@, PROFILE_FROM_RENDER_SETTINGS_ENTRY_LINE@);
    lemma_no_lt_concat(PROFILE_PRELUDE@ + PROFILE_FROM_LOAD_SETTINGS_CONFIG@ + PROFILE_FROM_PROMPT_PATH_TEXT@ + PROFILE_FROM_PROCESS_START_UNIX_SECONDS@ + PROFILE_FROM_MARK_SESSIONS_RESTORED@ + PROFILE_FROM_PATH_MENU_ENTRIES@, PROFILE_FROM_SETTINGS_MENU_ENTRIES@);
    lemma_no_lt_concat(PROFILE_PRELUDE@ + PROFILE_FROM_LOAD_SETTINGS_CONFIG@ + PROFILE_FROM_PROMPT_PATH_TEXT@ + PROFILE_FROM_PROCESS_START_UNIX_SECONDS@ + PROFILE_FROM_MARK_SESSIONS_RESTORED@, PROFILE_FROM_PATH_MENU_ENTRIES@);
    lemma_no_lt_concat(PROFILE_PRELUDE@ + PROFILE_FROM_LOAD_SETTINGS_CONFIG@ + PROFILE_FROM_PROMPT_PATH_TEXT@ + PROFILE_FROM_PROCESS_START_UNIX_SECONDS@, PROFILE_FROM_MARK_SESSIONS_RESTORED@);
    lemma_no_lt_concat(PROFILE_PRELUDE@ + PROFILE_FROM_LOAD_SETTINGS_CONFIG@ + PROFILE_FROM_PROMPT_PATH_TEXT@, PROFILE_FROM_PROCESS_START_UNIX_SECONDS@);
    lemma_no_lt_concat(PROFILE_PRELUDE@ + PROFILE_FROM_LOAD_SETTINGS_CONFIG@, PROFILE_FROM_PROMPT_PATH_TEXT@);
    lemma_no_lt_concat(PROFILE_PRELUDE@, PROFILE_FROM_LOAD_SETTINGS_CONFIG@);
    lemma_no_lt_concat(PROFILE_AFTER_START@ + PROFILE_AFTER_EXE@ + PROFILE_AFTER_COMMANDS@, PROFILE_AFTER_PATHS@);
    lemma_no_lt_concat(PROFILE_AFTER_START@ + PROFILE_AFTER_EXE@, PROFILE_AFTER_COMMANDS@);
    lemma_no_lt_concat(PROFILE_AFTER_START@, PROFILE_AFTER_EXE@);
    lemma_no_lt_concat(PROFILE_AFTER_START@ + PROFILE_AFTER_EXE@ + PROFILE_AFTER_COMMANDS@ + PROFILE_AFTER_PATHS@, profile_body_seq());
}

} // verus!
