//! The health checks of `ps doctor`: their levels, messages and summary.
use vstd::prelude::*;

use crate::num::{dec, decimal};
use crate::profile::{END_MARKER, START_MARKER};
use crate::text::{concat, contains, contains_seq, owned, pad_right, pad_right_seq, push_str};

verus! {

/// How a check came out.
#[derive(Clone, Copy, PartialEq, Eq, Debug, Structural)]
pub enum CheckLevel {
    Okay,
    Warn,
    Error,
}

/// One check: its level, what was checked, and what was found.
#[derive(Clone, Debug)]
pub struct Check {
    pub level: CheckLevel,
    pub name: String,
    pub message: String,
}

impl Check {
    pub open spec fn is(&self, level: CheckLevel, name: Seq<char>, message: Seq<char>) -> bool {
        self.level == level && self.name@ == name && self.message@ == message
    }
}

fn make(level: CheckLevel, name: &str, message: &str) -> (r: Check)
    ensures
        r.is(level, name@, message@),
{
    Check { level, name: owned(name), message: owned(message) }
}

/// A passed check.
pub fn ok(name: &str, message: &str) -> (r: Check)
    ensures
        r.is(CheckLevel::Okay, name@, message@),
{
    make(CheckLevel::Okay, name, message)
}

/// A check that found something to look at.
pub fn warn(name: &str, message: &str) -> (r: Check)
    ensures
        r.is(CheckLevel::Warn, name@, message@),
{
    make(CheckLevel::Warn, name, message)
}

/// A failed check.
pub fn check_error(name: &str, message: &str) -> (r: Check)
    ensures
        r.is(CheckLevel::Error, name@, message@),
{
    make(CheckLevel::Error, name, message)
}

pub open spec fn level_label_seq(level: CheckLevel) -> Seq<char> {
    match level {
        CheckLevel::Okay => "OK"@,
        CheckLevel::Warn => "WARN"@,
        CheckLevel::Error => "ERROR"@,
    }
}

/// The label of a level.
pub fn level_label(level: CheckLevel) -> (r: &'static str)
    ensures
        r@ == level_label_seq(level),
{
    match level {
        CheckLevel::Okay => "OK",
        CheckLevel::Warn => "WARN",
        CheckLevel::Error => "ERROR",
    }
}

/// `[LEVEL] name message`, the name padded to 22 columns.
pub open spec fn check_line_seq(c: Check) -> Seq<char> {
    seq!['['] + level_label_seq(c.level) + "] "@ + pad_right_seq(c.name@, 22) + seq![' '] + c.message@
}

/// The printed line of a check.
pub fn check_line(c: &Check) -> (r: String)
    ensures
        r@ == check_line_seq(*c),
{
    let mut r = owned("[");
    push_str(&mut r, level_label(c.level));
    push_str(&mut r, "] ");
    push_str(&mut r, pad_right(c.name.as_str(), 22).as_str());
    push_str(&mut r, " ");
    push_str(&mut r, c.message.as_str());
    proof {
        reveal_strlit("[");
        reveal_strlit(" ");
    }
    assert("["@ =~= seq!['[']);
    assert(" "@ =~= seq![' ']);
    r
}

/// The number of checks at a level.
pub open spec fn count_level_seq(checks: Seq<Check>, level: CheckLevel) -> nat
    decreases checks.len(),
{
    if checks.len() == 0 {
        0
    } else {
        count_level_seq(checks.drop_last(), level) + if checks.last().level == level {
            1nat
        } else {
            0nat
        }
    }
}

/// Counts the checks at a level.
pub fn count_level(checks: &Vec<Check>, level: CheckLevel) -> (r: usize)
    ensures
        r == count_level_seq(checks@, level),
{
    let mut n: usize = 0;
    let mut i: usize = 0;
    while i < checks.len()
        invariant
            i <= checks@.len(),
            n == count_level_seq(checks@.take(i as int), level),
            n <= i,
        decreases checks.len() - i,
    {
        assert(checks@.take(i + 1).drop_last() =~= checks@.take(i as int));
        if checks[i].level == level {
            n = n + 1;
        }
        i = i + 1;
    }
    assert(checks@.take(checks@.len() as int) =~= checks@);
    n
}

/// `<errors> errors, <warnings> warnings`.
pub open spec fn summary_seq(errors: nat, warnings: nat) -> Seq<char> {
    dec(errors) + " errors, "@ + dec(warnings) + " warnings"@
}

/// The summary line.
pub fn summary(errors: usize, warnings: usize) -> (r: String)
    ensures
        r@ == summary_seq(errors as nat, warnings as nat),
{
    let mut r = decimal(errors as u64);
    push_str(&mut r, " errors, ");
    push_str(&mut r, decimal(warnings as u64).as_str());
    push_str(&mut r, " warnings");
    r
}

fn joined(a: &str, sep: &str, b: &str) -> (r: String)
    ensures
        r@ == a@ + sep@ + b@,
{
    let mut r = owned(a);
    push_str(&mut r, sep);
    push_str(&mut r, b);
    r
}

/// The configuration directory: it exists (or was made), or the error
/// that creating it gave.
pub fn config_dir_check(dir: &str, failure: Option<&str>) -> (r: Check)
    ensures
        match failure {
            None => r.is(CheckLevel::Okay, "config directory"@, dir@),
            Some(e) => r.is(CheckLevel::Error, "config directory"@, dir@ + ": "@ + e@),
        },
{
    match failure {
        None => ok("config directory", dir),
        Some(e) => check_error("config directory", joined(dir, ": ", e).as_str()),
    }
}

/// The shortcut file: how many shortcuts it holds, or why it could not be
/// read.
pub fn commands_check(loaded: Result<usize, &str>) -> (r: Check)
    ensures
        match loaded {
            Ok(n) => r.is(CheckLevel::Okay, "commands.json"@, dec(n as nat) + " commands"@),
            Err(e) => r.is(CheckLevel::Error, "commands.json"@, e@),
        },
{
    match loaded {
        Ok(n) => ok("commands.json", concat(decimal(n as u64).as_str(), " commands").as_str()),
        Err(e) => check_error("commands.json", e),
    }
}

/// The saved-path file: how many paths it holds, or why it could not be
/// read.
pub fn paths_check(loaded: Result<usize, &str>) -> (r: Check)
    ensures
        match loaded {
            Ok(n) => r.is(CheckLevel::Okay, "paths.json"@, dec(n as nat) + " saved paths"@),
            Err(e) => r.is(CheckLevel::Error, "paths.json"@, e@),
        },
{
    match loaded {
        Ok(n) => ok("paths.json", concat(decimal(n as u64).as_str(), " saved paths").as_str()),
        Err(e) => check_error("paths.json", e),
    }
}

/// The settings file: valid, or why it could not be read.
pub fn settings_check(loaded: Result<(), &str>) -> (r: Check)
    ensures
        match loaded {
            Ok(_) => r.is(CheckLevel::Okay, "settings.json"@, "valid"@),
            Err(e) => r.is(CheckLevel::Error, "settings.json"@, e@),
        },
{
    match loaded {
        Ok(_) => ok("settings.json", "valid"),
        Err(e) => check_error("settings.json", e),
    }
}

/// What reading a file gave.
#[derive(Clone, Debug)]
pub enum FileRead {
    /// Its text.
    Text(String),
    /// It does not exist.
    Missing,
    /// Reading it failed with this error.
    Failed(String),
}

/// A profile holds the managed block when it has both markers.
pub open spec fn has_block(contents: Seq<char>) -> bool {
    contains_seq(contents, START_MARKER@) && contains_seq(contents, END_MARKER@)
}

/// One profile: it holds the managed block, lacks it, is missing, or
/// could not be read.
pub fn profile_check(path: &str, read: &FileRead) -> (r: Check)
    ensures
        match read {
            FileRead::Text(t) => if has_block(t@) {
                r.is(CheckLevel::Okay, "profile bridge"@, path@)
            } else {
                r.is(CheckLevel::Warn, "profile bridge"@, "missing ps block in "@ + path@)
            },
            FileRead::Missing => r.is(CheckLevel::Warn, "profile bridge"@, "missing "@ + path@),
            FileRead::Failed(e) => r.is(CheckLevel::Error, "profile bridge"@, path@ + ": "@ + e@),
        },
{
    match read {
        FileRead::Text(t) => {
            if contains(t.as_str(), START_MARKER) && contains(t.as_str(), END_MARKER) {
                ok("profile bridge", path)
            } else {
                warn("profile bridge", concat("missing ps block in ", path).as_str())
            }
        },
        FileRead::Missing => warn("profile bridge", concat("missing ", path).as_str()),
        FileRead::Failed(e) => check_error("profile bridge", joined(path, ": ", e.as_str()).as_str()),
    }
}

/// The profile files could not be located.
pub fn profiles_failure_check(error: &str) -> (r: Check)
    ensures
        r.is(CheckLevel::Error, "profiles"@, error@),
{
    check_error("profiles", error)
}

/// Where the running executable is.
#[derive(Clone, Debug)]
pub enum ExeLocation {
    /// It could not be found; the error.
    Unknown(String),
    /// It has no parent directory.
    NoParent,
    /// Its directory.
    Dir(String),
}

/// The executable's directory is on `PATH` (`on_path`, as the caller found
/// by comparing the directories of `PATH`).
pub fn path_check(exe: &ExeLocation, on_path: bool) -> (r: Check)
    ensures
        match exe {
            ExeLocation::Unknown(e) => r.is(CheckLevel::Warn, "PATH"@, "failed to read current exe: "@ + e@),
            ExeLocation::NoParent => r.is(CheckLevel::Warn, "PATH"@, "current exe has no parent directory"@),
            ExeLocation::Dir(d) => if on_path {
                r.is(CheckLevel::Okay, "PATH"@, d@ + " is available"@)
            } else {
                r.is(CheckLevel::Warn, "PATH"@, d@ + " is not in PATH"@)
            },
        },
{
    match exe {
        ExeLocation::Unknown(e) => warn("PATH", concat("failed to read current exe: ", e.as_str()).as_str()),
        ExeLocation::NoParent => warn("PATH", "current exe has no parent directory"),
        ExeLocation::Dir(d) => if on_path {
            ok("PATH", concat(d.as_str(), " is available").as_str())
        } else {
            warn("PATH", concat(d.as_str(), " is not in PATH").as_str())
        },
    }
}

/// The saved paths: all exist, or how many are missing.
pub fn saved_paths_check(missing: usize) -> (r: Check)
    ensures
        missing == 0 ==> r.is(CheckLevel::Okay, "saved paths"@, "all saved paths exist"@),
        missing > 0 ==> r.is(CheckLevel::Warn, "saved paths"@, dec(missing as nat) + " saved paths are missing"@),
{
    if missing == 0 {
        ok("saved paths", "all saved paths exist")
    } else {
        warn("saved paths", concat(decimal(missing as u64).as_str(), " saved paths are missing").as_str())
    }
}

/// What listing the history directory gave.
#[derive(Clone, Debug)]
pub enum DirListing {
    /// It does not exist.
    Missing,
    /// It holds this many entries.
    Entries(usize),
    /// Listing it failed with this error.
    Failed(String),
}

/// The history directory.
pub fn history_check(path: &str, listing: &DirListing) -> (r: Check)
    ensures
        match listing {
            DirListing::Missing => r.is(CheckLevel::Warn, "history"@, "history directory does not exist yet"@),
            DirListing::Entries(n) => r.is(CheckLevel::Okay, "history"@, dec(*n as nat) + " files"@),
            DirListing::Failed(e) => r.is(CheckLevel::Warn, "history"@, path@ + ": "@ + e@),
        },
{
    match listing {
        DirListing::Missing => warn("history", "history directory does not exist yet"),
        DirListing::Entries(n) => ok("history", concat(decimal(*n as u64).as_str(), " files").as_str()),
        DirListing::Failed(e) => warn("history", joined(path, ": ", e.as_str()).as_str()),
    }
}

/// The session history file.
pub fn sessions_check(path: &str, read: &FileRead) -> (r: Check)
    ensures
        match read {
            FileRead::Missing => r.is(CheckLevel::Warn, "sessions.json"@, "session history file does not exist yet"@),
            FileRead::Text(_) => r.is(CheckLevel::Okay, "sessions.json"@, "readable"@),
            FileRead::Failed(e) => r.is(CheckLevel::Warn, "sessions.json"@, path@ + ": "@ + e@),
        },
{
    match read {
        FileRead::Missing => warn("sessions.json", "session history file does not exist yet"),
        FileRead::Text(_) => ok("sessions.json", "readable"),
        FileRead::Failed(e) => warn("sessions.json", joined(path, ": ", e.as_str()).as_str()),
    }
}

} // verus!
