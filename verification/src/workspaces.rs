//! Workspaces: named sets of PowerShell tabs that can be saved and opened
//! again. This module holds the saved list and its operations, the choice
//! of tabs to save, the script that opens a workspace, and the key handling
//! of its menus.
use vstd::prelude::*;

use crate::num::{dec, decimal};
use crate::paths::{
    expand_path, expand_path_seq, normalize_for_compare, normalize_for_compare_seq,
    normalize_path_text, normalize_path_text_seq, path_name, path_name_seq,
};
use crate::quote::{ps_quote, ps_quote_seq};
use crate::shortcut::{opt_str, push_open_windows, script_lines_seq, set_location_seq, windows_part_seq};
use crate::sort::{
    is_stable_sort, key_val, key_views, lemma_key_order_two, lemma_stable_sort_map,
    lemma_stable_sort_ordered, sort_by_keys, text_order, KeyPart, KeyVal,
};
use std::collections::BTreeSet;
use crate::keys::{cancels, is_cancel, is_control, is_control_char, Key};
use crate::text::{
    all_ws, chars_of, clamp, clamp_seq, eq_ignore_ascii_case, is_blank, owned, pad_right,
    pad_right_seq, push_char, push_str, str_eq_ignore_ascii_case, string_of_range, trim, trim_seq,
    views,
};

verus! {

// ---------------------------------------------------------------------
// Arguments.
// ---------------------------------------------------------------------

/// `ps workspaces [--result <file>] [<command>]`.
#[derive(Clone, Debug)]
pub struct WorkspacesArgs {
    /// Where the profile bridge wants the launch script.
    pub result: Option<String>,
    pub command: Option<WorkspacesCommand>,
}

/// The subcommands of `ps workspaces`.
#[derive(Clone, Debug)]
pub enum WorkspacesCommand {
    /// Add or update a workspace.
    Add(AddWorkspaceArgs),
    /// List saved workspaces.
    List,
    /// Remove a workspace.
    Remove { name: String },
    /// Open a workspace by name.
    Open { name: String },
}

/// `ps workspaces add`.
#[derive(Clone, Debug)]
pub struct AddWorkspaceArgs {
    pub name: String,
    /// The main path; the current directory when absent.
    pub path: Option<String>,
    /// Extra paths, each opened in a window of its own.
    pub open_paths: Vec<String>,
    /// Commands run after changing to the main path.
    pub commands: Vec<String>,
}

// ---------------------------------------------------------------------
// Saved workspaces.
// ---------------------------------------------------------------------

/// A saved workspace.
#[derive(Clone, Debug)]
pub struct SavedWorkspace {
    pub name: String,
    pub path: String,
    pub open_paths: Vec<String>,
    pub commands: Vec<String>,
    /// Seconds since the Unix epoch.
    pub last_accessed: u64,
}

impl Default for SavedWorkspace {
    fn default() -> (r: SavedWorkspace)
        ensures
            r.name@.len() == 0,
            r.path@.len() == 0,
            r.open_paths@.len() == 0,
            r.commands@.len() == 0,
            r.last_accessed == 0,
    {
        SavedWorkspace {
            name: String::new(),
            path: String::new(),
            open_paths: Vec::new(),
            commands: Vec::new(),
            last_accessed: 0,
        }
    }
}

/// The file of saved workspaces.
#[derive(Clone, Debug)]
pub struct WorkspacesConfig {
    pub version: u8,
    pub workspaces: Vec<SavedWorkspace>,
}

impl Default for WorkspacesConfig {
    fn default() -> (r: WorkspacesConfig)
        ensures
            r.version == 1,
            r.workspaces@.len() == 0,
    {
        WorkspacesConfig { version: 1, workspaces: Vec::new() }
    }
}

/// What can go wrong with a workspace command.
#[derive(Clone, Debug)]
pub enum WorkspaceError {
    /// The name is blank.
    EmptyName,
    /// No workspace has this name.
    NotFound(String),
}

impl WorkspaceError {
    pub open spec fn message_seq(&self) -> Seq<char> {
        match self {
            WorkspaceError::EmptyName => "workspace name cannot be empty"@,
            WorkspaceError::NotFound(n) => "workspace '"@ + n@ + "' was not found"@,
        }
    }

    /// The message shown for the error.
    pub fn message(&self) -> (r: String)
        ensures
            r@ == self.message_seq(),
    {
        match self {
            WorkspaceError::EmptyName => owned("workspace name cannot be empty"),
            WorkspaceError::NotFound(n) => {
                let mut r = owned("workspace '");
                push_str(&mut r, n.as_str());
                push_str(&mut r, "' was not found");
                r
            },
        }
    }
}

/// A name is accepted when it is not blank.
pub fn validate_workspace_name(name: &str) -> (r: Result<(), WorkspaceError>)
    ensures
        r is Ok <==> !all_ws(name@),
        r is Err ==> r matches Err(WorkspaceError::EmptyName),
{
    if is_blank(name) {
        Err(WorkspaceError::EmptyName)
    } else {
        Ok(())
    }
}

/// The index of the first workspace named `name`, ignoring ASCII case.
pub open spec fn first_named(ws: Seq<SavedWorkspace>, name: Seq<char>) -> Option<int>
    decreases ws.len(),
{
    if ws.len() == 0 {
        None
    } else if eq_ignore_ascii_case(ws[0].name@, name) {
        Some(0)
    } else {
        match first_named(ws.drop_first(), name) {
            Some(i) => Some(i + 1),
            None => None,
        }
    }
}

proof fn lemma_first_named(ws: Seq<SavedWorkspace>, name: Seq<char>)
    ensures
        first_named(ws, name) matches Some(i) ==> 0 <= i < ws.len() && eq_ignore_ascii_case(
            ws[i].name@,
            name,
        ) && forall|j: int| 0 <= j < i ==> !eq_ignore_ascii_case(#[trigger] ws[j].name@, name),
        first_named(ws, name) is None ==> forall|j: int|
            0 <= j < ws.len() ==> !eq_ignore_ascii_case(#[trigger] ws[j].name@, name),
    decreases ws.len(),
{
    if ws.len() > 0 {
        lemma_first_named(ws.drop_first(), name);
        assert forall|j: int| 0 < j < ws.len() implies ws[j] == ws.drop_first()[j - 1] by {}
    }
}

/// Finds the first workspace of a name, ignoring ASCII case.
pub fn find_workspace(ws: &Vec<SavedWorkspace>, name: &str) -> (r: Option<usize>)
    ensures
        r matches Some(i) ==> i < ws@.len() && first_named(ws@, name@) == Some(i as int),
        r is None ==> first_named(ws@, name@) is None,
{
    let mut i: usize = 0;
    while i < ws.len()
        invariant
            i <= ws@.len(),
            forall|j: int| 0 <= j < i ==> !eq_ignore_ascii_case(#[trigger] ws@[j].name@, name@),
        decreases ws.len() - i,
    {
        if str_eq_ignore_ascii_case(ws[i].name.as_str(), name) {
            proof {
                lemma_first_named(ws@, name@);
            }
            return Some(i);
        }
        i = i + 1;
    }
    proof {
        lemma_first_named(ws@, name@);
    }
    None
}

/// Adds a workspace, or replaces the first one with the same name
/// (ignoring ASCII case) in place. Returns whether one was replaced.
pub fn upsert_workspace(config: &mut WorkspacesConfig, workspace: SavedWorkspace) -> (updated: bool)
    ensures
        final(config).version == old(config).version,
        final(config).workspaces@ == upserted(old(config).workspaces@, workspace),
        match first_named(old(config).workspaces@, workspace.name@) {
            Some(i) => updated && final(config).workspaces@ == old(config).workspaces@.update(
                i,
                workspace,
            ),
            None => !updated && final(config).workspaces@ == old(config).workspaces@.push(
                workspace,
            ),
        },
{
    match find_workspace(&config.workspaces, workspace.name.as_str()) {
        Some(i) => {
            config.workspaces.set(i, workspace);
            true
        },
        None => {
            config.workspaces.push(workspace);
            false
        },
    }
}

/// The workspaces without those named `name` (ignoring ASCII case).
pub open spec fn without_named(ws: Seq<SavedWorkspace>, name: Seq<char>) -> Seq<SavedWorkspace>
    decreases ws.len(),
{
    if ws.len() == 0 {
        Seq::empty()
    } else {
        let rest = without_named(ws.drop_last(), name);
        if eq_ignore_ascii_case(ws.last().name@, name) {
            rest
        } else {
            rest.push(ws.last())
        }
    }
}

/// Removes every workspace named `name` (ignoring ASCII case); fails when
/// there is none.
pub fn remove_workspace(config: &mut WorkspacesConfig, name: &str) -> (r: Result<(), WorkspaceError>)
    ensures
        final(config).version == old(config).version,
        final(config).workspaces@ == without_named(old(config).workspaces@, name@),
        r is Ok <==> first_named(old(config).workspaces@, name@) is Some,
        r is Err ==> (r matches Err(WorkspaceError::NotFound(n)) && n@ == name@),
{
    proof {
        lemma_first_named(config.workspaces@, name@);
    }
    let ghost before = config.workspaces@;
    let mut kept: Vec<SavedWorkspace> = Vec::new();
    let mut taken: Vec<SavedWorkspace> = Vec::new();
    std::mem::swap(&mut taken, &mut config.workspaces);
    let n = taken.len();
    let mut removed = false;
    let mut rest = taken;
    let mut rev: Vec<SavedWorkspace> = Vec::new();
    // Reverse the list so that items come off the end in order.
    while rest.len() > 0
        invariant
            rest@.len() + rev@.len() == n,
            n == before.len(),
            forall|k: int| 0 <= k < rest@.len() ==> rest@[k] == before[k],
            forall|k: int| 0 <= k < rev@.len() ==> rev@[k] == before[n - 1 - k],
        decreases rest.len(),
    {
        let w = rest.pop().unwrap();
        rev.push(w);
    }
    let mut i: usize = 0;
    while rev.len() > 0
        invariant
            rev@.len() + i == n,
            n == before.len(),
            forall|k: int| 0 <= k < rev@.len() ==> rev@[k] == before[n - 1 - k],
            kept@ == without_named(before.take(i as int), name@),
            removed <==> exists|j: int| 0 <= j < i && eq_ignore_ascii_case(#[trigger] before[j].name@, name@),
            config.version == old(config).version,
        decreases rev.len(),
    {
        let w = rev.pop().unwrap();
        assert(w == before[i as int]);
        proof {
            assert(before.take(i + 1).drop_last() =~= before.take(i as int));
            assert(before.take(i + 1).last() == before[i as int]);
        }
        if str_eq_ignore_ascii_case(w.name.as_str(), name) {
            removed = true;
        } else {
            kept.push(w);
        }
        i = i + 1;
    }
    assert(before.take(n as int) =~= before);
    config.workspaces = kept;
    if removed {
        Ok(())
    } else {
        Err(WorkspaceError::NotFound(owned(name)))
    }
}

// ---------------------------------------------------------------------
// Ordering and listing.
// ---------------------------------------------------------------------

/// Most recently used first, then by name.
pub open spec fn workspace_key(w: SavedWorkspace) -> Seq<KeyVal> {
    seq![KeyVal::Desc(w.last_accessed as int), KeyVal::Text(w.name@)]
}

pub open spec fn workspace_keys(ws: Seq<SavedWorkspace>) -> Seq<Seq<KeyVal>> {
    ws.map_values(|w: SavedWorkspace| workspace_key(w))
}

/// Sorting workspaces puts the most recently used first: along the list,
/// `last_accessed` never increases, and workspaces used at the same time
/// come in ascending order of name.
pub proof fn law_workspaces_recent_first(before: Seq<SavedWorkspace>, after: Seq<SavedWorkspace>)
    requires
        is_stable_sort(after, before, workspace_keys(before)),
    ensures
        after.len() == before.len(),
        forall|i: int, j: int|
            0 <= i < j < after.len() ==> (#[trigger] after[i]).last_accessed >= (
            #[trigger] after[j]).last_accessed && (after[i].last_accessed == after[j].last_accessed
                ==> text_order(after[i].name@, after[j].name@) <= 0),
{
    let f = |w: SavedWorkspace| workspace_key(w);
    assert(workspace_keys(before) =~= before.map_values(f));
    lemma_stable_sort_ordered(after, before, f);
    assert forall|i: int, j: int| 0 <= i < j < after.len() implies (#[trigger] after[i]).last_accessed
        >= (#[trigger] after[j]).last_accessed && (after[i].last_accessed == after[j].last_accessed
        ==> text_order(after[i].name@, after[j].name@) <= 0) by {
        assert(crate::sort::key_order(f(after[i]), f(after[j])) <= 0);
        lemma_key_order_two(
            KeyVal::Desc(after[i].last_accessed as int),
            KeyVal::Text(after[i].name@),
            KeyVal::Desc(after[j].last_accessed as int),
            KeyVal::Text(after[j].name@),
        );
    }
}

/// Orders workspaces by recent use (newest first), then by name; stable.
pub fn sort_workspaces(workspaces: &mut Vec<SavedWorkspace>)
    ensures
        is_stable_sort(final(workspaces)@, old(workspaces)@, workspace_keys(old(workspaces)@)),
        forall|i: int, j: int|
            0 <= i < j < final(workspaces)@.len() ==> (#[trigger] final(workspaces)@[i]).last_accessed
                >= (#[trigger] final(workspaces)@[j]).last_accessed && (final(workspaces)@[i].last_accessed
                == final(workspaces)@[j].last_accessed ==> text_order(
                final(workspaces)@[i].name@,
                final(workspaces)@[j].name@,
            ) <= 0),
{
    let mut keys: Vec<Vec<KeyPart>> = Vec::new();
    let mut i: usize = 0;
    while i < workspaces.len()
        invariant
            i <= workspaces@.len(),
            keys@.len() == i,
            forall|j: int|
                0 <= j < i ==> key_val(#[trigger] keys@[j]@) == workspace_key(workspaces@[j]),
        decreases workspaces.len() - i,
    {
        let mut k: Vec<KeyPart> = Vec::new();
        k.push(KeyPart::Desc(workspaces[i].last_accessed));
        k.push(KeyPart::Text(chars_of(workspaces[i].name.as_str())));
        assert(key_val(k@) =~= workspace_key(workspaces@[i as int]));
        keys.push(k);
        i = i + 1;
    }
    let ghost before = workspaces@;
    assert(key_views(keys@) =~= workspace_keys(before));
    let mut taken: Vec<SavedWorkspace> = Vec::new();
    std::mem::swap(&mut taken, workspaces);
    *workspaces = sort_by_keys(taken, keys);
    proof {
        law_workspaces_recent_first(before, workspaces@);
    }
}

/// The header line of `ps workspaces list`.
pub open spec fn list_header_seq() -> Seq<char> {
    pad_right_seq("Name"@, 24) + seq![' '] + pad_right_seq("Path"@, 56) + " Extras"@
}

/// The header line of `ps workspaces list`.
pub fn list_header() -> (r: String)
    ensures
        r@ == list_header_seq(),
{
    let mut r = pad_right("Name", 24);
    push_char(&mut r, ' ');
    push_str(&mut r, pad_right("Path", 56).as_str());
    push_str(&mut r, " Extras");
    r
}

/// One line of `ps workspaces list`: name, path, and the number of extra
/// paths and commands.
pub open spec fn list_line_seq(w: SavedWorkspace) -> Seq<char> {
    pad_right_seq(w.name@, 24) + seq![' '] + pad_right_seq(w.path@, 56) + seq![' '] + dec(
        (w.open_paths@.len() + w.commands@.len()) as nat,
    )
}

/// The line of one workspace in `ps workspaces list`.
pub fn list_line(w: &SavedWorkspace) -> (r: String)
    requires
        w.open_paths@.len() + w.commands@.len() <= u64::MAX,
    ensures
        r@ == list_line_seq(*w),
{
    let extras = w.open_paths.len() as u64 + w.commands.len() as u64;
    let mut r = pad_right(w.name.as_str(), 24);
    push_char(&mut r, ' ');
    push_str(&mut r, pad_right(w.path.as_str(), 56).as_str());
    push_char(&mut r, ' ');
    push_str(&mut r, decimal(extras).as_str());
    r
}

/// What a workspace command reports when it is done.
#[derive(Clone, Copy, PartialEq, Eq, Debug, Structural)]
pub enum WorkspaceEvent {
    Added,
    Updated,
    Saved,
    Removed,
}

pub open spec fn event_verb(e: WorkspaceEvent) -> Seq<char> {
    match e {
        WorkspaceEvent::Added => "Added"@,
        WorkspaceEvent::Updated => "Updated"@,
        WorkspaceEvent::Saved => "Saved"@,
        WorkspaceEvent::Removed => "Removed"@,
    }
}

/// `<Verb> workspace '<name>'.`
pub open spec fn event_message_seq(e: WorkspaceEvent, name: Seq<char>) -> Seq<char> {
    event_verb(e) + " workspace '"@ + name + "'."@
}

/// The message of a finished workspace command.
pub fn event_message(e: WorkspaceEvent, name: &str) -> (r: String)
    ensures
        r@ == event_message_seq(e, name@),
{
    let mut r = match e {
        WorkspaceEvent::Added => owned("Added"),
        WorkspaceEvent::Updated => owned("Updated"),
        WorkspaceEvent::Saved => owned("Saved"),
        WorkspaceEvent::Removed => owned("Removed"),
    };
    push_str(&mut r, " workspace '");
    push_str(&mut r, name);
    push_str(&mut r, "'.");
    r
}

// ---------------------------------------------------------------------
// Creating and opening.
// ---------------------------------------------------------------------

/// Each path without its extended-length prefix.
pub open spec fn normalized_all(paths: Seq<Seq<char>>) -> Seq<Seq<char>> {
    paths.map_values(|p: Seq<char>| normalize_path_text_seq(p))
}

fn normalize_all(paths: &Vec<String>) -> (r: Vec<String>)
    ensures
        views(r@) == normalized_all(views(paths@)),
{
    let mut r: Vec<String> = Vec::new();
    let mut i: usize = 0;
    while i < paths.len()
        invariant
            i <= paths@.len(),
            views(r@) == normalized_all(views(paths@.take(i as int))),
        decreases paths.len() - i,
    {
        let ghost before = r@;
        r.push(normalize_path_text(paths[i].as_str()));
        assert(views(r@) =~= views(before).push(normalize_path_text_seq(paths@[i as int]@)));
        assert(views(paths@.take(i + 1)) =~= views(paths@.take(i as int)).push(paths@[i as int]@));
        i = i + 1;
    }
    assert(paths@.take(paths@.len() as int) =~= paths@);
    r
}

/// The workspace that `ps workspaces add` saves: the given path or the
/// current directory, and the extra paths, each without an extended-length
/// prefix; used now (`now`, in seconds since the epoch). The paths are
/// expected to be made absolute by the caller.
pub fn workspace_from_args(args: AddWorkspaceArgs, current_dir: &str, now: u64) -> (r: Result<
    SavedWorkspace,
    WorkspaceError,
>)
    ensures
        all_ws(args.name@) ==> r matches Err(WorkspaceError::EmptyName),
        !all_ws(args.name@) ==> (r matches Ok(w) && {
            &&& w.name@ == args.name@
            &&& w.path@ == normalize_path_text_seq(
                match args.path {
                    Some(p) => p@,
                    None => current_dir@,
                },
            )
            &&& views(w.open_paths@) == normalized_all(views(args.open_paths@))
            &&& w.commands@ == args.commands@
            &&& w.last_accessed == now
        }),
{
    if is_blank(args.name.as_str()) {
        return Err(WorkspaceError::EmptyName);
    }
    let path = match &args.path {
        Some(p) => normalize_path_text(p.as_str()),
        None => normalize_path_text(current_dir),
    };
    let open_paths = normalize_all(&args.open_paths);
    Ok(
        SavedWorkspace {
            name: args.name,
            path,
            open_paths,
            commands: args.commands,
            last_accessed: now,
        },
    )
}

/// The workspace saved from the tab menu: the first chosen tab is the main
/// path and the others open in windows of their own.
pub fn workspace_from_tabs(name: &str, paths: &Vec<String>, now: u64) -> (r: Result<
    SavedWorkspace,
    WorkspaceError,
>)
    requires
        paths@.len() > 0,
    ensures
        all_ws(name@) ==> r matches Err(WorkspaceError::EmptyName),
        !all_ws(name@) ==> (r matches Ok(w) && {
            &&& w.name@ == name@
            &&& w.path@ == paths@[0]@
            &&& views(w.open_paths@) == views(paths@).skip(1)
            &&& w.commands@.len() == 0
            &&& w.last_accessed == now
        }),
{
    if is_blank(name) {
        return Err(WorkspaceError::EmptyName);
    }
    let mut open_paths: Vec<String> = Vec::new();
    let mut i: usize = 1;
    while i < paths.len()
        invariant
            1 <= i <= paths@.len(),
            views(open_paths@) == views(paths@).subrange(1, i as int),
        decreases paths.len() - i,
    {
        let ghost before = open_paths@;
        open_paths.push(owned(paths[i].as_str()));
        assert(views(open_paths@) =~= views(before).push(paths@[i as int]@));
        assert(views(open_paths@) =~= views(paths@).subrange(1, i + 1));
        i = i + 1;
    }
    assert(views(paths@).subrange(1, paths@.len() as int) =~= views(paths@).skip(1));
    Ok(
        SavedWorkspace {
            name: owned(name),
            path: owned(paths[0].as_str()),
            open_paths,
            commands: Vec::new(),
            last_accessed: now,
        },
    )
}

/// The commands of a workspace, each on its own line; blank commands are
/// left out.
pub open spec fn command_lines_seq(commands: Seq<Seq<char>>) -> Seq<char>
    decreases commands.len(),
{
    if commands.len() == 0 {
        Seq::empty()
    } else {
        let rest = command_lines_seq(commands.drop_last());
        if all_ws(commands.last()) {
            rest
        } else {
            rest + script_lines_seq(commands.last())
        }
    }
}

/// The script that opens a workspace: change to its path, run its
/// commands, then open its extra paths in windows of their own.
pub open spec fn workspace_script_seq(w: SavedWorkspace, home: Option<Seq<char>>) -> Seq<char> {
    set_location_seq(expand_path_seq(w.path@, home)) + seq!['\n'] + command_lines_seq(
        views(w.commands@),
    ) + windows_part_seq(views(w.open_paths@), home)
}

/// The script that opens a workspace; `~` expands to `home`.
pub fn workspace_script(workspace: &SavedWorkspace, home: Option<&str>) -> (r: String)
    ensures
        r@ == workspace_script_seq(*workspace, opt_str(home)),
{
    let path = expand_path(workspace.path.as_str(), home);
    let mut script = owned("Set-Location -LiteralPath ");
    push_str(&mut script, ps_quote(path.as_str()).as_str());
    push_char(&mut script, '\n');
    let ghost head = script@;
    let cmds = &workspace.commands;
    let mut i: usize = 0;
    while i < cmds.len()
        invariant
            i <= cmds@.len(),
            script@ == head + command_lines_seq(views(cmds@.take(i as int))),
        decreases cmds.len() - i,
    {
        let c = cmds[i].as_str();
        proof {
            let t = views(cmds@.take(i + 1));
            assert(t.drop_last() =~= views(cmds@.take(i as int)));
            assert(t.last() == c@);
        }
        if !is_blank(c) {
            push_str(&mut script, c);
            let n = c.unicode_len();
            if !(n > 0 && c.get_char(n - 1) == '\n') {
                push_char(&mut script, '\n');
            }
        }
        i = i + 1;
    }
    assert(cmds@.take(cmds@.len() as int) =~= cmds@);
    push_open_windows(&mut script, &workspace.open_paths, home);
    script
}

/// Opens the first workspace named `name` (ignoring ASCII case): marks it
/// used at `now` and returns its script.
pub fn open_workspace(config: &mut WorkspacesConfig, name: &str, now: u64, home: Option<&str>) -> (r:
    Result<String, WorkspaceError>)
    ensures
        final(config).version == old(config).version,
        match first_named(old(config).workspaces@, name@) {
            Some(i) => {
                let w = old(config).workspaces@[i];
                let used = SavedWorkspace { last_accessed: now, ..w };
                &&& final(config).workspaces@ == old(config).workspaces@.update(i, used)
                &&& r matches Ok(s) && s@ == workspace_script_seq(used, opt_str(home))
            },
            None => {
                &&& final(config).workspaces@ == old(config).workspaces@
                &&& r matches Err(WorkspaceError::NotFound(n)) && n@ == name@
            },
        },
{
    proof {
        lemma_first_named(config.workspaces@, name@);
    }
    match find_workspace(&config.workspaces, name) {
        Some(i) => {
            let mut w = SavedWorkspace::default();
            std::mem::swap(&mut w, &mut config.workspaces[i]);
            w.last_accessed = now;
            let script = workspace_script(&w, home);
            config.workspaces.set(i, w);
            Ok(script)
        },
        None => Err(WorkspaceError::NotFound(owned(name))),
    }
}

// ---------------------------------------------------------------------
// Tabs to save.
// ---------------------------------------------------------------------

/// A PowerShell session as the profile records it.
#[derive(Clone, Debug)]
pub struct SessionSnapshot {
    pub pid: u32,
    pub path: String,
    /// Seconds since the Unix epoch.
    pub updated_at: u64,
    /// `open`, `closed` or `restored`.
    pub status: String,
}

/// A tab that can go into a new workspace.
#[derive(Clone, Debug)]
pub struct TabCandidate {
    pub label: String,
    pub path: String,
    pub updated_at: u64,
    /// The tab that runs the command.
    pub current: bool,
}

/// The value of a tab candidate.
pub struct TabView {
    pub label: Seq<char>,
    pub path: Seq<char>,
    pub updated_at: int,
    pub current: bool,
}

impl TabCandidate {
    pub open spec fn view(&self) -> TabView {
        TabView {
            label: self.label@,
            path: self.path@,
            updated_at: self.updated_at as int,
            current: self.current,
        }
    }
}

pub open spec fn tab_views(tabs: Seq<TabCandidate>) -> Seq<TabView> {
    tabs.map_values(|t: TabCandidate| t.view())
}

/// A session is still open: it has a path, its status is `open` (in any
/// ASCII case), and its process is running or unknown (pid 0).
pub open spec fn session_open_seq(s: SessionSnapshot, open_pids: Set<u32>) -> bool {
    !all_ws(s.path@) && eq_ignore_ascii_case(s.status@, "open"@) && (s.pid == 0
        || open_pids.contains(s.pid))
}

/// Whether a recorded session is still open; `open_pids` are the running
/// processes.
pub fn session_is_open(session: &SessionSnapshot, open_pids: &BTreeSet<u32>) -> (r: bool)
    ensures
        r == session_open_seq(*session, open_pids@),
{
    if is_blank(session.path.as_str()) {
        return false;
    }
    if !str_eq_ignore_ascii_case(session.status.as_str(), "open") {
        return false;
    }
    if session.pid == 0 {
        return true;
    }
    proof {
        broadcast use vstd::laws_cmp::group_laws_cmp, vstd::std_specs::btree::group_btree_axioms;
    }
    open_pids.contains(&session.pid)
}

/// The tab offered for a session.
pub open spec fn session_tab(s: SessionSnapshot) -> TabView {
    let path = normalize_path_text_seq(s.path@);
    TabView { label: path_name_seq(path), path, updated_at: s.updated_at as int, current: false }
}

/// Goes through the sessions in order and keeps each open one whose path
/// is not blank and not seen before (compared by
/// `normalize_for_compare`); returns the kept tabs and the compared forms
/// seen.
pub open spec fn scan_sessions(
    sessions: Seq<SessionSnapshot>,
    open_pids: Set<u32>,
    ignore_case: bool,
    seen0: Seq<Seq<char>>,
) -> (Seq<TabView>, Seq<Seq<char>>)
    decreases sessions.len(),
{
    if sessions.len() == 0 {
        (Seq::empty(), seen0)
    } else {
        let (tabs, seen) = scan_sessions(sessions.drop_last(), open_pids, ignore_case, seen0);
        let s = sessions.last();
        let path = normalize_path_text_seq(s.path@);
        let compared = normalize_for_compare_seq(path, ignore_case);
        if !session_open_seq(s, open_pids) || all_ws(path) || seen.contains(compared) {
            (tabs, seen)
        } else {
            (tabs.push(session_tab(s)), seen.push(compared))
        }
    }
}

/// Newest first, then by path.
pub open spec fn tab_key(t: TabView) -> Seq<KeyVal> {
    seq![KeyVal::Desc(t.updated_at), KeyVal::Text(t.path)]
}

pub open spec fn tab_keys(tabs: Seq<TabView>) -> Seq<Seq<KeyVal>> {
    tabs.map_values(|t: TabView| tab_key(t))
}

/// The tab for the current directory.
pub open spec fn current_tab(current_path: Seq<char>, now: int) -> TabView {
    TabView {
        label: "Current Tab"@,
        path: normalize_path_text_seq(current_path),
        updated_at: now,
        current: true,
    }
}

fn contains_text(v: &Vec<String>, s: &String) -> (r: bool)
    ensures
        r == views(v@).contains(s@),
{
    let mut i: usize = 0;
    while i < v.len()
        invariant
            i <= v@.len(),
            forall|j: int| 0 <= j < i ==> views(v@)[j] != s@,
        decreases v.len() - i,
    {
        if crate::text::str_eq(v[i].as_str(), s.as_str()) {
            assert(views(v@)[i as int] == s@);
            return true;
        }
        i = i + 1;
    }
    false
}

/// The tabs offered when a workspace is saved: the current tab first, then
/// the other open sessions, each path once, newest first (then by path).
/// `now` is the current time, `open_pids` the running processes, and
/// `ignore_case` whether paths compare without regard to case.
pub fn tab_candidates_from_sessions(
    current_path: &str,
    sessions: &Vec<SessionSnapshot>,
    open_pids: &BTreeSet<u32>,
    now: u64,
    ignore_case: bool,
) -> (r: Vec<TabCandidate>)
    ensures
        r@.len() >= 1,
        r@[0].view() == current_tab(current_path@, now as int),
        is_stable_sort(
            tab_views(r@.skip(1)),
            scan_sessions(
                sessions@,
                open_pids@,
                ignore_case,
                seq![normalize_for_compare_seq(current_path@, ignore_case)],
            ).0,
            tab_keys(
                scan_sessions(
                    sessions@,
                    open_pids@,
                    ignore_case,
                    seq![normalize_for_compare_seq(current_path@, ignore_case)],
                ).0,
            ),
        ),
{
    let ghost seen0 = seq![normalize_for_compare_seq(current_path@, ignore_case)];
    let mut seen: Vec<String> = Vec::new();
    seen.push(normalize_for_compare(current_path, ignore_case));
    assert(views(seen@) =~= seen0);
    let mut found: Vec<TabCandidate> = Vec::new();
    let mut i: usize = 0;
    while i < sessions.len()
        invariant
            i <= sessions@.len(),
            tab_views(found@) == scan_sessions(sessions@.take(i as int), open_pids@, ignore_case, seen0).0,
            views(seen@) == scan_sessions(sessions@.take(i as int), open_pids@, ignore_case, seen0).1,
        decreases sessions.len() - i,
    {
        let s = &sessions[i];
        proof {
            assert(sessions@.take(i + 1).drop_last() =~= sessions@.take(i as int));
            assert(sessions@.take(i + 1).last() == sessions@[i as int]);
        }
        if session_is_open(s, open_pids) {
            let path = normalize_path_text(s.path.as_str());
            let comparable = normalize_for_compare(path.as_str(), ignore_case);
            if !is_blank(path.as_str()) && !contains_text(&seen, &comparable) {
                let ghost fb = found@;
                let ghost sb = seen@;
                let label = path_name(path.as_str());
                found.push(TabCandidate { label, path, updated_at: s.updated_at, current: false });
                seen.push(comparable);
                assert(tab_views(found@) =~= tab_views(fb).push(session_tab(sessions@[i as int])));
                assert(views(seen@) =~= views(sb).push(comparable@));
            }
        }
        i = i + 1;
    }
    assert(sessions@.take(sessions@.len() as int) =~= sessions@);
    let ghost scanned = tab_views(found@);
    let mut keys: Vec<Vec<KeyPart>> = Vec::new();
    let mut k: usize = 0;
    while k < found.len()
        invariant
            k <= found@.len(),
            keys@.len() == k,
            forall|j: int|
                0 <= j < k ==> key_val(#[trigger] keys@[j]@) == tab_key(found@[j].view()),
        decreases found.len() - k,
    {
        let mut key: Vec<KeyPart> = Vec::new();
        key.push(KeyPart::Desc(found[k].updated_at));
        key.push(KeyPart::Text(chars_of(found[k].path.as_str())));
        assert(key_val(key@) =~= tab_key(found@[k as int].view()));
        keys.push(key);
        k = k + 1;
    }
    let ghost before = found@;
    assert(key_views(keys@) =~= tab_keys(tab_views(before)));
    let sorted = sort_by_keys(found, keys);
    proof {
        lemma_stable_sort_map(sorted@, before, tab_keys(tab_views(before)), |t: TabCandidate| t.view());
    }
    let mut tabs: Vec<TabCandidate> = Vec::new();
    let current = TabCandidate {
        label: owned("Current Tab"),
        path: normalize_path_text(current_path),
        updated_at: now,
        current: true,
    };
    tabs.push(current);
    let mut sorted = sorted;
    let mut rev: Vec<TabCandidate> = Vec::new();
    let ghost sv = sorted@;
    while sorted.len() > 0
        invariant
            sorted@.len() + rev@.len() == sv.len(),
            forall|j: int| 0 <= j < sorted@.len() ==> sorted@[j] == sv[j],
            forall|j: int| 0 <= j < rev@.len() ==> rev@[j] == sv[sv.len() - 1 - j],
        decreases sorted.len(),
    {
        let t = sorted.pop().unwrap();
        rev.push(t);
    }
    while rev.len() > 0
        invariant
            tabs@.len() >= 1,
            tabs@[0].view() == current_tab(current_path@, now as int),
            rev@.len() + tabs@.len() - 1 == sv.len(),
            forall|j: int| 0 <= j < rev@.len() ==> rev@[j] == sv[sv.len() - 1 - j],
            tabs@.skip(1) == sv.take(tabs@.len() - 1),
        decreases rev.len(),
    {
        let t = rev.pop().unwrap();
        let ghost tb = tabs@;
        tabs.push(t);
        assert(tabs@.skip(1) =~= tb.skip(1).push(t));
        assert(sv.take(tabs@.len() - 1) =~= sv.take(tb.len() - 1).push(sv[tb.len() - 1]));
    }
    assert(tabs@.skip(1) =~= sv);
    tabs
}

/// The paths of the enabled tabs, in order (tabs and flags are paired up
/// to the shorter list).
pub open spec fn selected_paths_seq(tabs: Seq<TabView>, enabled: Seq<bool>, n: int) -> Seq<Seq<char>>
    decreases n,
{
    if n <= 0 {
        Seq::empty()
    } else {
        let rest = selected_paths_seq(tabs, enabled, n - 1);
        if enabled[n - 1] {
            rest.push(tabs[n - 1].path)
        } else {
            rest
        }
    }
}

pub open spec fn min_len(a: int, b: int) -> int {
    if a < b {
        a
    } else {
        b
    }
}

/// The paths of the tabs whose flag is set, in order.
pub fn selected_tab_paths(tabs: &[TabCandidate], enabled: &[bool]) -> (r: Vec<String>)
    ensures
        views(r@) == selected_paths_seq(
            tab_views(tabs@),
            enabled@,
            min_len(tabs@.len() as int, enabled@.len() as int),
        ),
{
    let n = if tabs.len() < enabled.len() {
        tabs.len()
    } else {
        enabled.len()
    };
    let mut r: Vec<String> = Vec::new();
    let mut i: usize = 0;
    while i < n
        invariant
            i <= n,
            n <= tabs@.len(),
            n <= enabled@.len(),
            views(r@) == selected_paths_seq(tab_views(tabs@), enabled@, i as int),
        decreases n - i,
    {
        if enabled[i] {
            let ghost before = r@;
            r.push(owned(tabs[i].path.as_str()));
            assert(views(r@) =~= views(before).push(tabs@[i as int].path@));
        }
        i = i + 1;
    }
    r
}

/// The name offered for a new workspace: the name of the first path, or
/// `workspace` when there is no path or its name is blank.
pub open spec fn default_workspace_name_seq(paths: Seq<Seq<char>>) -> Seq<char> {
    if paths.len() == 0 || all_ws(path_name_seq(paths[0])) {
        "workspace"@
    } else {
        path_name_seq(paths[0])
    }
}

/// The name offered for a workspace made of these paths.
pub fn default_workspace_name(paths: &[String]) -> (r: String)
    ensures
        r@ == default_workspace_name_seq(views(paths@)),
{
    if paths.len() == 0 {
        return owned("workspace");
    }
    let n = path_name(paths[0].as_str());
    if is_blank(n.as_str()) {
        owned("workspace")
    } else {
        n
    }
}

// ---------------------------------------------------------------------
// The menus.
// ---------------------------------------------------------------------

/// What the main menu chose.
#[derive(Clone, Copy, PartialEq, Eq, Debug, Structural)]
pub enum MainSelection {
    /// Save the open tabs as a new workspace.
    SaveNew,
    /// Open the workspace at this index of the sorted list.
    Open(usize),
}

/// What a key press does to the main menu.
#[derive(Clone, Copy, PartialEq, Eq, Debug, Structural)]
pub enum MainMenuStep {
    /// The selection is now this entry (0 is "Save new workspace").
    Selected(usize),
    Chosen(MainSelection),
    Closed,
}

/// The step of the main menu for `key`, with `count` saved workspaces
/// shown after the save entry.
pub open spec fn main_menu_next(selected: int, count: int, key: Key) -> MainMenuStep {
    match key {
        Key::Up => MainMenuStep::Selected((if selected > 0 {
            selected - 1
        } else {
            0
        }) as usize),
        Key::Down => MainMenuStep::Selected((if selected < count {
            selected + 1
        } else {
            selected
        }) as usize),
        Key::Home => MainMenuStep::Selected(0),
        Key::End => MainMenuStep::Selected(count as usize),
        Key::Enter => MainMenuStep::Chosen(if selected == 0 {
            MainSelection::SaveNew
        } else {
            MainSelection::Open((selected - 1) as usize)
        }),
        _ => if is_cancel(key) {
            MainMenuStep::Closed
        } else {
            MainMenuStep::Selected(selected as usize)
        },
    }
}

/// Handles a key press in the main menu.
pub fn main_menu_step(selected: usize, count: usize, key: Key) -> (r: MainMenuStep)
    requires
        selected <= count,
    ensures
        r == main_menu_next(selected as int, count as int, key),
{
    match key {
        Key::Up => MainMenuStep::Selected(if selected > 0 {
            selected - 1
        } else {
            0
        }),
        Key::Down => MainMenuStep::Selected(if selected < count {
            selected + 1
        } else {
            selected
        }),
        Key::Home => MainMenuStep::Selected(0),
        Key::End => MainMenuStep::Selected(count),
        Key::Enter => MainMenuStep::Chosen(if selected == 0 {
            MainSelection::SaveNew
        } else {
            MainSelection::Open(selected - 1)
        }),
        _ => if cancels(key) {
            MainMenuStep::Closed
        } else {
            MainMenuStep::Selected(selected)
        },
    }
}

/// Every step of the main menu keeps the selection on the save entry or
/// a saved workspace, and opening always names a saved workspace.
pub proof fn law_main_menu_in_range(selected: usize, count: usize, key: Key)
    requires
        selected <= count,
    ensures
        main_menu_next(selected as int, count as int, key) matches MainMenuStep::Selected(s) ==> s
            <= count,
        main_menu_next(selected as int, count as int, key) matches MainMenuStep::Chosen(
            MainSelection::Open(i),
        ) ==> i < count,
{
}

/// A button: `[ label ]`.
pub open spec fn button_seq(label: Seq<char>) -> Seq<char> {
    "[ "@ + label + " ]"@
}

/// The text of a button.
pub fn button_text(label: &str) -> (r: String)
    ensures
        r@ == button_seq(label@),
{
    let mut r = owned("[ ");
    push_str(&mut r, label);
    push_str(&mut r, " ]");
    r
}

/// The path column of the main menu: what is left of the terminal after
/// 39 columns, at least 20.
pub open spec fn main_path_width(width: int) -> int {
    if width - 39 < 20 {
        20
    } else {
        width - 39
    }
}

/// The line of a saved workspace in the main menu: name, path, and how
/// many tabs it opens.
pub open spec fn main_entry_seq(w: SavedWorkspace, width: int) -> Seq<char> {
    pad_right_seq(clamp_seq(w.name@, 24), 24) + seq![' '] + clamp_seq(
        w.path@,
        main_path_width(width) as nat,
    ) + "  tabs: "@ + dec((w.open_paths@.len() + w.commands@.len() + 1) as nat)
}

/// The text of a workspace's line in the main menu.
pub fn main_entry_text(w: &SavedWorkspace, width: u16) -> (r: String)
    requires
        w.open_paths@.len() + w.commands@.len() + 1 <= u64::MAX,
    ensures
        r@ == main_entry_seq(*w, width as int),
{
    let pw: usize = if (width as usize) < 59 {
        20
    } else {
        width as usize - 39
    };
    let tabs = w.open_paths.len() as u64 + w.commands.len() as u64 + 1;
    let mut r = pad_right(clamp(w.name.as_str(), 24).as_str(), 24);
    push_char(&mut r, ' ');
    push_str(&mut r, clamp(w.path.as_str(), pw).as_str());
    push_str(&mut r, "  tabs: ");
    push_str(&mut r, decimal(tabs).as_str());
    r
}

/// Rows of tabs shown per page.
pub const TAB_PAGE_SIZE: usize = 16;

/// The state of the tab menu: the selected entry (0 is "Continue", `i`
/// is tab `i - 1`), which tabs are enabled, and the page shown.
pub struct TabMenu {
    selected: usize,
    enabled: Vec<bool>,
    page: usize,
}

/// The value of the tab menu's state.
pub struct TabMenuView {
    pub selected: int,
    pub enabled: Seq<bool>,
    pub page: int,
}

/// What a key press does to the tab menu.
pub enum TabMenuStep {
    /// The menu stays open.
    Continue,
    /// The enabled tabs' paths, in order, were confirmed.
    Done(Vec<String>),
    /// The menu was canceled.
    Canceled,
}

/// The selection and flags after `key`, before the page is updated.
pub open spec fn tab_move(v: TabMenuView, key: Key) -> TabMenuView {
    let n = v.enabled.len() as int;
    let s = v.selected;
    match key {
        Key::Up => TabMenuView { selected: if s > 0 { s - 1 } else { 0 }, ..v },
        Key::Down => TabMenuView { selected: if s < n { s + 1 } else { s }, ..v },
        Key::PageUp => TabMenuView { selected: if s >= 16 { s - 16 } else { 0 }, ..v },
        Key::PageDown => TabMenuView { selected: if s + 16 < n { s + 16 } else { n }, ..v },
        Key::Home => TabMenuView { selected: 0, ..v },
        Key::End => TabMenuView { selected: n, ..v },
        Key::Char(' ') => if s > 0 {
            TabMenuView { enabled: v.enabled.update(s - 1, !v.enabled[s - 1]), ..v }
        } else {
            v
        },
        Key::Ctrl(' ') => if s > 0 {
            TabMenuView { enabled: v.enabled.update(s - 1, !v.enabled[s - 1]), ..v }
        } else {
            v
        },
        Key::Enter => if s > 0 {
            TabMenuView { enabled: v.enabled.update(s - 1, !v.enabled[s - 1]), ..v }
        } else {
            v
        },
        _ => v,
    }
}

/// The state after `key` when the menu stays open: the page follows the
/// selected tab, and stays put on "Continue".
pub open spec fn tab_menu_next(v: TabMenuView, key: Key) -> TabMenuView {
    let m = tab_move(v, key);
    TabMenuView { page: if m.selected == 0 { v.page } else { (m.selected - 1) / 16 }, ..m }
}

impl TabMenu {
    pub closed spec fn view(&self) -> TabMenuView {
        TabMenuView { selected: self.selected as int, enabled: self.enabled@, page: self.page as int }
    }

    /// The selection is on an entry.
    pub open spec fn wf(&self) -> bool {
        0 <= self.view().selected <= self.view().enabled.len()
    }

    /// The menu for `count` tabs: "Continue" selected, every tab enabled,
    /// the first page.
    pub fn new(count: usize) -> (r: TabMenu)
        ensures
            r.wf(),
            r.view().selected == 0,
            r.view().page == 0,
            r.view().enabled == Seq::new(count as nat, |i: int| true),
    {
        let mut enabled: Vec<bool> = Vec::new();
        let mut i: usize = 0;
        while i < count
            invariant
                i <= count,
                enabled@ == Seq::new(i as nat, |k: int| true),
            decreases count - i,
        {
            enabled.push(true);
            assert(enabled@ =~= Seq::new((i + 1) as nat, |k: int| true));
            i = i + 1;
        }
        TabMenu { selected: 0, enabled, page: 0 }
    }

    pub fn selected(&self) -> (r: usize)
        ensures
            r == self.view().selected,
    {
        self.selected
    }

    pub fn page(&self) -> (r: usize)
        ensures
            r == self.view().page,
    {
        self.page
    }

    pub fn enabled(&self) -> (r: &Vec<bool>)
        ensures
            r@ == self.view().enabled,
    {
        &self.enabled
    }

    /// Handles a key press; `tabs` are the tabs the menu shows.
    pub fn step(&mut self, key: Key, tabs: &[TabCandidate]) -> (r: TabMenuStep)
        requires
            old(self).wf(),
            tabs@.len() == old(self).view().enabled.len(),
        ensures
            final(self).wf(),
            is_cancel(key) ==> (r is Canceled && final(self).view() == old(self).view()),
            !is_cancel(key) && key == Key::Enter && old(self).view().selected == 0 && selected_paths_seq(
                tab_views(tabs@),
                old(self).view().enabled,
                tabs@.len() as int,
            ).len() > 0 ==> (r matches TabMenuStep::Done(p) && views(p@) == selected_paths_seq(
                tab_views(tabs@),
                old(self).view().enabled,
                tabs@.len() as int,
            ) && final(self).view() == old(self).view()),
            !is_cancel(key) && !(key == Key::Enter && old(self).view().selected == 0
                && selected_paths_seq(tab_views(tabs@), old(self).view().enabled, tabs@.len() as int).len()
                > 0) ==> (r is Continue && final(self).view() == tab_menu_next(old(self).view(), key)),
    {
        if cancels(key) {
            return TabMenuStep::Canceled;
        }
        let n = self.enabled.len();
        let s = self.selected;
        match key {
            Key::Up => {
                self.selected = if s > 0 {
                    s - 1
                } else {
                    0
                };
            },
            Key::Down => {
                if s < n {
                    self.selected = s + 1;
                }
            },
            Key::PageUp => {
                self.selected = if s >= TAB_PAGE_SIZE {
                    s - TAB_PAGE_SIZE
                } else {
                    0
                };
            },
            Key::PageDown => {
                self.selected = if s < n && n - s > TAB_PAGE_SIZE {
                    s + TAB_PAGE_SIZE
                } else {
                    n
                };
            },
            Key::Home => {
                self.selected = 0;
            },
            Key::End => {
                self.selected = n;
            },
            Key::Char(c) => {
                if c == ' ' && s > 0 {
                    let flag = self.enabled[s - 1];
                    self.enabled.set(s - 1, !flag);
                }
            },
            Key::Ctrl(c) => {
                if c == ' ' && s > 0 {
                    let flag = self.enabled[s - 1];
                    self.enabled.set(s - 1, !flag);
                }
            },
            Key::Enter => {
                if s == 0 {
                    let paths = selected_tab_paths(tabs, self.enabled.as_slice());
                    if paths.len() > 0 {
                        return TabMenuStep::Done(paths);
                    }
                } else {
                    let flag = self.enabled[s - 1];
                    self.enabled.set(s - 1, !flag);
                }
            },
            _ => {},
        }
        if self.selected != 0 {
            self.page = (self.selected - 1) / TAB_PAGE_SIZE;
        }
        TabMenuStep::Continue
    }
}

/// The label of a tab's toggle.
pub open spec fn toggle_label_seq(enabled: bool) -> Seq<char> {
    if enabled {
        "Enabled"@
    } else {
        "Disabled"@
    }
}

/// The text of a tab's toggle button.
pub fn toggle_text(enabled: bool) -> (r: String)
    ensures
        r@ == button_seq(toggle_label_seq(enabled)),
{
    if enabled {
        button_text("Enabled")
    } else {
        button_text("Disabled")
    }
}

/// The path column of the tab menu: what is left of the terminal after 35
/// columns, at least 20.
pub open spec fn tab_path_width(width: int) -> int {
    if width - 35 < 20 {
        20
    } else {
        width - 35
    }
}

/// The text of a tab's line before its toggle: label and path.
pub open spec fn tab_entry_seq(t: TabView, width: int) -> Seq<char> {
    pad_right_seq(clamp_seq(t.label, 16), 16) + seq![' '] + clamp_seq(t.path, tab_path_width(width) as nat)
        + "  "@
}

/// The text of a tab's line before its toggle.
pub fn tab_entry_text(t: &TabCandidate, width: u16) -> (r: String)
    ensures
        r@ == tab_entry_seq(t.view(), width as int),
{
    let pw: usize = if (width as usize) < 55 {
        20
    } else {
        width as usize - 35
    };
    let mut r = pad_right(clamp(t.label.as_str(), 16).as_str(), 16);
    push_char(&mut r, ' ');
    push_str(&mut r, clamp(t.path.as_str(), pw).as_str());
    push_str(&mut r, "  ");
    r
}

/// The page line of the tab menu: `Page <n>/<pages>`, with at least one
/// page.
pub fn tab_page_label(page: usize, count: usize) -> (r: String)
    requires
        page < usize::MAX,
    ensures
        r@ == "Page "@ + dec((page + 1) as nat) + seq!['/'] + dec(
            (if count <= 1 {
                1
            } else {
                (count + 15) / 16
            }) as nat,
        ),
{
    let pages: usize = if count <= 1 {
        1
    } else {
        count / TAB_PAGE_SIZE + if count % TAB_PAGE_SIZE == 0 {
            0
        } else {
            1
        }
    };
    let mut r = owned("Page ");
    push_str(&mut r, decimal((page + 1) as u64).as_str());
    push_char(&mut r, '/');
    push_str(&mut r, decimal(pages as u64).as_str());
    r
}

/// The name typed for a new workspace.
pub struct NameInput {
    value: String,
}

/// What a key press does to the name input.
pub enum NameStep {
    /// Still typing.
    Continue,
    /// The typed name, trimmed, was confirmed.
    Done(String),
    /// The input was canceled.
    Canceled,
}

/// The typed text after `key` while the input stays open: Backspace
/// removes the last character, Ctrl+U clears, and a character that is not
/// a control character is added while there are fewer than 64.
pub open spec fn name_next(v: Seq<char>, key: Key) -> Seq<char> {
    match key {
        Key::Backspace => if v.len() > 0 {
            v.drop_last()
        } else {
            v
        },
        Key::Ctrl(c) => if c == 'u' {
            Seq::empty()
        } else {
            v
        },
        Key::Char(c) => if !is_control_char(c) && v.len() < 64 {
            v.push(c)
        } else {
            v
        },
        _ => v,
    }
}

impl NameInput {
    pub closed spec fn view(&self) -> Seq<char> {
        self.value@
    }

    /// The input, filled with the offered name.
    pub fn new(default_value: &str) -> (r: NameInput)
        ensures
            r.view() == default_value@,
    {
        NameInput { value: owned(default_value) }
    }

    pub fn value(&self) -> (r: &str)
        ensures
            r@ == self.view(),
    {
        self.value.as_str()
    }

    /// Handles a key press.
    pub fn step(&mut self, key: Key) -> (r: NameStep)
        ensures
            key == Key::Esc ==> (r is Canceled && final(self).view() == old(self).view()),
            key == Key::Enter && !all_ws(old(self).view()) ==> (r matches NameStep::Done(n) && n@
                == trim_seq(old(self).view()) && final(self).view() == old(self).view()),
            key == Key::Enter && all_ws(old(self).view()) ==> (r is Continue && final(self).view()
                == old(self).view()),
            key != Key::Esc && key != Key::Enter ==> (r is Continue && final(self).view() == name_next(
                old(self).view(),
                key,
            )),
    {
        match key {
            Key::Esc => NameStep::Canceled,
            Key::Enter => {
                if is_blank(self.value.as_str()) {
                    NameStep::Continue
                } else {
                    NameStep::Done(trim(self.value.as_str()))
                }
            },
            Key::Backspace => {
                let v = chars_of(self.value.as_str());
                if v.len() > 0 {
                    self.value = string_of_range(&v, 0, v.len() - 1);
                    assert(v@.subrange(0, v@.len() - 1) =~= v@.drop_last());
                }
                NameStep::Continue
            },
            Key::Ctrl(c) => {
                if c == 'u' {
                    self.value = String::new();
                }
                NameStep::Continue
            },
            Key::Char(c) => {
                if !is_control(c) && self.value.as_str().unicode_len() < 64 {
                    push_char(&mut self.value, c);
                }
                NameStep::Continue
            },
            _ => NameStep::Continue,
        }
    }
}

/// The input box: the typed name between brackets, or a blank when
/// nothing is typed.
pub open spec fn name_box_seq(value: Seq<char>) -> Seq<char> {
    "[ "@ + (if value.len() == 0 {
        seq![' ']
    } else {
        value
    }) + " ]"@
}

/// The text of the input box.
pub fn name_box(value: &str) -> (r: String)
    ensures
        r@ == name_box_seq(value@),
{
    let mut r = owned("[ ");
    if value.unicode_len() == 0 {
        push_char(&mut r, ' ');
    } else {
        push_str(&mut r, value);
    }
    push_str(&mut r, " ]");
    r
}

// ---------------------------------------------------------------------
// Laws.
// ---------------------------------------------------------------------

/// The list after `upsert_workspace` adds or replaces `w`.
pub open spec fn upserted(ws: Seq<SavedWorkspace>, w: SavedWorkspace) -> Seq<SavedWorkspace> {
    match first_named(ws, w.name@) {
        Some(i) => ws.update(i, w),
        None => ws.push(w),
    }
}

proof fn lemma_first_named_at(ws: Seq<SavedWorkspace>, name: Seq<char>, i: int)
    requires
        0 <= i < ws.len(),
        eq_ignore_ascii_case(ws[i].name@, name),
        forall|j: int| 0 <= j < i ==> !eq_ignore_ascii_case(#[trigger] ws[j].name@, name),
    ensures
        first_named(ws, name) == Some(i),
    decreases i,
{
    if i > 0 {
        assert(!eq_ignore_ascii_case(ws[0].name@, name));
        assert forall|j: int| 0 <= j < i - 1 implies !eq_ignore_ascii_case(
            #[trigger] ws.drop_first()[j].name@,
            name,
        ) by {
            assert(ws.drop_first()[j] == ws[j + 1]);
        }
        lemma_first_named_at(ws.drop_first(), name, i - 1);
    }
}

/// After a workspace is added or updated, looking up its name (ignoring
/// ASCII case) finds it.
pub proof fn law_upsert_then_find(ws: Seq<SavedWorkspace>, w: SavedWorkspace)
    ensures
        first_named(upserted(ws, w), w.name@) matches Some(i) && upserted(ws, w)[i] == w,
{
    lemma_first_named(ws, w.name@);
    let u = upserted(ws, w);
    assert(eq_ignore_ascii_case(w.name@, w.name@));
    match first_named(ws, w.name@) {
        Some(i) => {
            assert forall|j: int| 0 <= j < i implies !eq_ignore_ascii_case(#[trigger] u[j].name@, w.name@) by {
                assert(u[j] == ws[j]);
            }
            lemma_first_named_at(u, w.name@, i);
        },
        None => {
            assert forall|j: int| 0 <= j < ws.len() implies !eq_ignore_ascii_case(#[trigger] u[j].name@, w.name@) by {
                assert(u[j] == ws[j]);
            }
            lemma_first_named_at(u, w.name@, ws.len() as int);
        },
    }
}

/// Saving two workspaces whose names differ only in ASCII case keeps one
/// entry for them: the second replaces the first.
pub proof fn law_upsert_same_name_keeps_one(ws: Seq<SavedWorkspace>, w1: SavedWorkspace, w2: SavedWorkspace)
    requires
        eq_ignore_ascii_case(w1.name@, w2.name@),
    ensures
        upserted(upserted(ws, w1), w2).len() == upserted(ws, w1).len(),
{
    law_upsert_then_find(ws, w1);
    let u = upserted(ws, w1);
    lemma_first_named(u, w1.name@);
    let i = first_named(u, w1.name@)->0;
    assert(u[i] == w1);
    assert(eq_ignore_ascii_case(u[i].name@, w2.name@)) by {
        assert forall|k: int| 0 <= k < u[i].name@.len() implies crate::text::ascii_lower(#[trigger] u[i].name@[k])
            == crate::text::ascii_lower(w2.name@[k]) by {
            assert(crate::text::ascii_lower(w1.name@[k]) == crate::text::ascii_lower(w2.name@[k]));
        }
    }
    lemma_first_named(u, w2.name@);
    assert(first_named(u, w2.name@) is Some);
}

/// After removing a name, no workspace of that name (ignoring ASCII case)
/// is left.
pub proof fn law_remove_then_absent(ws: Seq<SavedWorkspace>, name: Seq<char>)
    ensures
        first_named(without_named(ws, name), name) is None,
    decreases ws.len(),
{
    if ws.len() > 0 {
        law_remove_then_absent(ws.drop_last(), name);
        let rest = without_named(ws.drop_last(), name);
        lemma_first_named(rest, name);
        if !eq_ignore_ascii_case(ws.last().name@, name) {
            let r = rest.push(ws.last());
            assert forall|j: int| 0 <= j < r.len() implies !eq_ignore_ascii_case(#[trigger] r[j].name@, name) by {
                if j < rest.len() {
                    assert(r[j] == rest[j]);
                }
            }
            lemma_first_named(r, name);
            if first_named(r, name) is Some {
                let k = first_named(r, name)->0;
                assert(eq_ignore_ascii_case(r[k].name@, name));
            }
        }
    }
}

/// The typed name never grows past 64 characters.
pub proof fn law_name_stays_short(v: Seq<char>, key: Key)
    requires
        v.len() <= 64,
    ensures
        name_next(v, key).len() <= 64,
{
}

/// The sessions kept for the tab menu have different paths (compared as
/// `normalize_for_compare` does), none equal to a path seen before: the
/// compared forms collected are those seen before followed by one per
/// kept tab, without repetition.
pub proof fn law_tabs_distinct(
    sessions: Seq<SessionSnapshot>,
    open_pids: Set<u32>,
    ignore_case: bool,
    seen0: Seq<Seq<char>>,
)
    requires
        seen0.no_duplicates(),
    ensures
        scan_sessions(sessions, open_pids, ignore_case, seen0).1.no_duplicates(),
        scan_sessions(sessions, open_pids, ignore_case, seen0).1.len() == seen0.len()
            + scan_sessions(sessions, open_pids, ignore_case, seen0).0.len(),
        scan_sessions(sessions, open_pids, ignore_case, seen0).1.take(seen0.len() as int) == seen0,
        forall|k: int|
            0 <= k < scan_sessions(sessions, open_pids, ignore_case, seen0).0.len() ==> scan_sessions(
                sessions,
                open_pids,
                ignore_case,
                seen0,
            ).1[seen0.len() + k] == normalize_for_compare_seq(
                #[trigger] scan_sessions(sessions, open_pids, ignore_case, seen0).0[k].path,
                ignore_case,
            ),
    decreases sessions.len(),
{
    if sessions.len() > 0 {
        law_tabs_distinct(sessions.drop_last(), open_pids, ignore_case, seen0);
        let (tabs, seen) = scan_sessions(sessions.drop_last(), open_pids, ignore_case, seen0);
        let s = sessions.last();
        let path = normalize_path_text_seq(s.path@);
        let compared = normalize_for_compare_seq(path, ignore_case);
        if !(!session_open_seq(s, open_pids) || all_ws(path) || seen.contains(compared)) {
            let seen2 = seen.push(compared);
            let tabs2 = tabs.push(session_tab(s));
            assert forall|i: int, j: int| 0 <= i < seen2.len() && 0 <= j < seen2.len() && i != j implies seen2[i] != seen2[j] by {
                if i < seen.len() && j < seen.len() {
                } else if i == seen.len() {
                    assert(seen2[i] == compared);
                    assert(seen2[j] == seen[j]);
                } else {
                    assert(seen2[j] == compared);
                    assert(seen2[i] == seen[i]);
                }
            }
            assert(seen2.take(seen0.len() as int) =~= seen.take(seen0.len() as int));
            assert forall|k: int| 0 <= k < tabs2.len() implies seen2[seen0.len() + k] == normalize_for_compare_seq(
                #[trigger] tabs2[k].path,
                ignore_case,
            ) by {
                if k < tabs.len() {
                    assert(tabs2[k] == tabs[k]);
                }
            }
        }
    }
}

} // verus!
