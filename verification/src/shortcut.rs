//! Custom shortcuts: which names are valid, and the PowerShell that a
//! shortcut runs in the calling session.
use vstd::prelude::*;

use crate::config::{lookup_command, CommandsConfig, ShortcutCommand};
use crate::num::{dec, decimal, parse_u16, parse_u32, parse_unsigned};
use crate::paths::{expand_path, expand_path_seq};
use crate::quote::{ps_array, ps_array_seq, ps_quote, ps_quote_seq, quoted_all};
use crate::text::{
    ascii_alnum, ascii_alpha, chars_of, is_ascii_alnum, is_ascii_alpha, join, join_seq, owned,
    push_char, push_str, split_tokens, tokens, trim, trim_seq, views, Splitter,
};

verus! {

// ---------------------------------------------------------------------
// Names.
// ---------------------------------------------------------------------

/// A shortcut name starts with an ASCII letter or `_`, and goes on with
/// ASCII letters, digits, `_` and `-`.
pub open spec fn valid_shortcut_name_seq(name: Seq<char>) -> bool {
    &&& name.len() > 0
    &&& (is_ascii_alpha(name[0]) || name[0] == '_')
    &&& forall|i: int|
        1 <= i < name.len() ==> (is_ascii_alnum(#[trigger] name[i]) || name[i] == '_' || name[i]
            == '-')
}

/// Whether `name` can be a shortcut (and a PowerShell function) name.
pub fn valid_shortcut_name(name: &str) -> (r: bool)
    ensures
        r == valid_shortcut_name_seq(name@),
{
    let v = chars_of(name);
    if v.len() == 0 {
        return false;
    }
    if !(ascii_alpha(v[0]) || v[0] == '_') {
        return false;
    }
    let mut i: usize = 1;
    while i < v.len()
        invariant
            v@ == name@,
            1 <= i <= v@.len(),
            forall|j: int|
                1 <= j < i ==> (is_ascii_alnum(#[trigger] v@[j]) || v@[j] == '_' || v@[j] == '-'),
        decreases v.len() - i,
    {
        let c = v[i];
        if !(ascii_alnum(c) || c == '_' || c == '-') {
            return false;
        }
        i = i + 1;
    }
    true
}

// ---------------------------------------------------------------------
// Errors.
// ---------------------------------------------------------------------

/// What can go wrong with a shortcut.
#[derive(Clone, Debug)]
pub enum ShortcutError {
    /// The name is not a valid shortcut name.
    InvalidName(String),
    /// No shortcut has this name.
    NotFound(String),
    /// A shell shortcut has neither an inline script nor a script file.
    EmptyShell,
    /// `kill` was given no port.
    MissingPort,
    /// The port argument is not a TCP port number.
    InvalidPort(String),
    /// A line of the process query is not a process id.
    InvalidPid(String),
}

impl ShortcutError {
    /// The message shown for the error.
    pub open spec fn message_seq(&self) -> Seq<char> {
        match self {
            ShortcutError::InvalidName(n) => seq!['\''] + n@ + "' is not a valid shortcut name"@,
            ShortcutError::NotFound(n) => "shortcut '"@ + n@
                + "' was not found. Run `ps commands` to edit shortcuts."@,
            ShortcutError::EmptyShell => "shell shortcut must define script, script_path, or both"@,
            ShortcutError::MissingPort => "usage: kill <port>"@,
            ShortcutError::InvalidPort(p) => seq!['\''] + p@ + "' is not a valid TCP port"@,
            ShortcutError::InvalidPid(l) => "PowerShell returned an invalid PID: "@ + l@,
        }
    }

    /// The message shown for the error.
    pub fn message(&self) -> (r: String)
        ensures
            r@ == self.message_seq(),
    {
        match self {
            ShortcutError::InvalidName(n) => {
                let mut r = owned("'");
                push_str(&mut r, n.as_str());
                push_str(&mut r, "' is not a valid shortcut name");
                proof {
                    reveal_strlit("'");
                }
                r
            },
            ShortcutError::NotFound(n) => {
                let mut r = owned("shortcut '");
                push_str(&mut r, n.as_str());
                push_str(&mut r, "' was not found. Run `ps commands` to edit shortcuts.");
                r
            },
            ShortcutError::EmptyShell => owned(
                "shell shortcut must define script, script_path, or both",
            ),
            ShortcutError::MissingPort => owned("usage: kill <port>"),
            ShortcutError::InvalidPort(p) => {
                let mut r = owned("'");
                push_str(&mut r, p.as_str());
                push_str(&mut r, "' is not a valid TCP port");
                proof {
                    reveal_strlit("'");
                }
                r
            },
            ShortcutError::InvalidPid(l) => {
                let mut r = owned("PowerShell returned an invalid PID: ");
                push_str(&mut r, l.as_str());
                r
            },
        }
    }
}

// ---------------------------------------------------------------------
// Emitted PowerShell.
// ---------------------------------------------------------------------

/// `Write-Error` with a quoted message.
pub open spec fn write_error_seq(message: Seq<char>) -> Seq<char> {
    "Write-Error "@ + ps_quote_seq(message)
}

fn write_error(message: &str) -> (r: String)
    ensures
        r@ == write_error_seq(message@),
{
    let mut r = owned("Write-Error ");
    push_str(&mut r, ps_quote(message).as_str());
    r
}

/// `& <exe> run <name> <args...>`: runs a shortcut through the executable.
pub open spec fn emit_run_command_seq(name: Seq<char>, args: Seq<Seq<char>>, exe: Seq<char>) -> Seq<
    char,
> {
    let joined = join_seq(quoted_all(args), seq![' ']);
    let head = "& "@ + ps_quote_seq(exe) + " run "@ + ps_quote_seq(name);
    if joined.len() == 0 {
        head
    } else {
        head + seq![' '] + joined
    }
}

/// The script for a `kill-port` shortcut: it runs the shortcut through the
/// executable at `exe`.
pub fn emit_run_command(name: &str, args: &Vec<String>, exe: &str) -> (r: String)
    ensures
        r@ == emit_run_command_seq(name@, views(args@), exe@),
{
    let mut quoted: Vec<String> = Vec::new();
    let mut i: usize = 0;
    while i < args.len()
        invariant
            i <= args@.len(),
            views(quoted@) == quoted_all(views(args@.take(i as int))),
        decreases args.len() - i,
    {
        let q = ps_quote(args[i].as_str());
        let ghost before = quoted@;
        quoted.push(q);
        assert(views(quoted@) =~= views(before).push(q@));
        assert(views(args@.take(i + 1)) =~= views(args@.take(i as int)).push(args@[i as int]@));
        assert(quoted_all(views(args@.take(i + 1))) =~= quoted_all(
            views(args@.take(i as int)),
        ).push(ps_quote_seq(args@[i as int]@)));
        i = i + 1;
    }
    assert(args@.take(args@.len() as int) =~= args@);
    let space = " ";
    proof {
        reveal_strlit(" ");
    }
    assert(space@ =~= seq![' ']);
    let joined = join(&quoted, space);
    let mut r = owned("& ");
    push_str(&mut r, ps_quote(exe).as_str());
    push_str(&mut r, " run ");
    push_str(&mut r, ps_quote(name).as_str());
    if joined.as_str().unicode_len() > 0 {
        push_char(&mut r, ' ');
        push_str(&mut r, joined.as_str());
    }
    r
}

/// `Set-Location -LiteralPath '<path>'`.
pub open spec fn set_location_seq(path: Seq<char>) -> Seq<char> {
    "Set-Location -LiteralPath "@ + ps_quote_seq(path)
}

/// The lines that find a PowerShell executable for extra windows.
pub open spec fn shell_lookup_seq() -> Seq<char> {
    "$__psShell = (Get-Command pwsh -ErrorAction SilentlyContinue).Source\n"@
        + "if (-not $__psShell) { $__psShell = (Get-Command powershell -ErrorAction SilentlyContinue).Source }\n"@
        + "if (-not $__psShell) { throw 'Could not find pwsh or powershell to open workspace windows.' }\n"@
}

/// The line that opens one extra window in `path`.
pub open spec fn open_window_seq(path: Seq<char>) -> Seq<char> {
    "Start-Process -FilePath $__psShell -ArgumentList @('-NoExit', '-Command', "@ + ps_quote_seq(
        set_location_seq(path),
    ) + ")\n"@
}

/// The lines that open the extra windows, in order.
pub open spec fn open_windows_seq(windows: Seq<Seq<char>>, home: Option<Seq<char>>) -> Seq<char>
    decreases windows.len(),
{
    if windows.len() == 0 {
        Seq::empty()
    } else {
        open_windows_seq(windows.drop_last(), home) + open_window_seq(
            expand_path_seq(windows.last(), home),
        )
    }
}

/// The lines that open extra windows: none without extra paths, else the
/// shell lookup and one line per path.
pub open spec fn windows_part_seq(open_windows: Seq<Seq<char>>, home: Option<Seq<char>>) -> Seq<
    char,
> {
    if open_windows.len() == 0 {
        Seq::empty()
    } else {
        shell_lookup_seq() + open_windows_seq(open_windows, home)
    }
}

/// The script of a workspace shortcut: change to its path, then open a
/// window in each extra path.
pub open spec fn emit_workspace_seq(
    path: Seq<char>,
    open_windows: Seq<Seq<char>>,
    home: Option<Seq<char>>,
) -> Seq<char> {
    set_location_seq(expand_path_seq(path, home)) + seq!['\n'] + windows_part_seq(open_windows, home)
}

pub open spec fn opt_str(o: Option<&str>) -> Option<Seq<char>> {
    match o {
        Some(s) => Some(s@),
        None => None,
    }
}

/// Appends the lines that open a window in each extra path.
pub fn push_open_windows(script: &mut String, open_windows: &Vec<String>, home: Option<&str>)
    ensures
        final(script)@ == old(script)@ + windows_part_seq(views(open_windows@), opt_str(home)),
{
    if open_windows.len() == 0 {
        assert(old(script)@ + windows_part_seq(views(open_windows@), opt_str(home)) =~= old(script)@);
        return;
    }
    push_str(script, "$__psShell = (Get-Command pwsh -ErrorAction SilentlyContinue).Source\n");
    push_str(
        script,
        "if (-not $__psShell) { $__psShell = (Get-Command powershell -ErrorAction SilentlyContinue).Source }\n",
    );
    push_str(
        script,
        "if (-not $__psShell) { throw 'Could not find pwsh or powershell to open workspace windows.' }\n",
    );
    let ghost head = script@;
    assert(head == old(script)@ + shell_lookup_seq());
    let mut i: usize = 0;
    while i < open_windows.len()
        invariant
            i <= open_windows@.len(),
            script@ == head + open_windows_seq(views(open_windows@.take(i as int)), opt_str(home)),
        decreases open_windows.len() - i,
    {
        let window_path = expand_path(open_windows[i].as_str(), home);
        let mut inner = owned("Set-Location -LiteralPath ");
        push_str(&mut inner, ps_quote(window_path.as_str()).as_str());
        push_str(
            script,
            "Start-Process -FilePath $__psShell -ArgumentList @('-NoExit', '-Command', ",
        );
        push_str(script, ps_quote(inner.as_str()).as_str());
        push_str(script, ")\n");
        proof {
            let w = views(open_windows@.take(i + 1));
            assert(w.drop_last() =~= views(open_windows@.take(i as int)));
            assert(w.last() == open_windows@[i as int]@);
        }
        i = i + 1;
    }
    assert(open_windows@.take(open_windows@.len() as int) =~= open_windows@);
}

/// The script of a workspace shortcut; `~` expands to `home`.
pub fn emit_workspace(path: &str, open_windows: &Vec<String>, home: Option<&str>) -> (r: String)
    ensures
        r@ == emit_workspace_seq(path@, views(open_windows@), opt_str(home)),
{
    let target = expand_path(path, home);
    let mut script = owned("Set-Location -LiteralPath ");
    push_str(&mut script, ps_quote(target.as_str()).as_str());
    push_char(&mut script, '\n');
    push_open_windows(&mut script, open_windows, home);
    script
}

/// The lines that run a script file: check that it exists, then
/// dot-source it (`.`) or call it (`&`) with the shortcut's arguments.
pub open spec fn emit_script_path_seq(script_path: Seq<char>, dot_source: bool, home: Option<
    Seq<char>,
>) -> Seq<char> {
    "$__psScriptPath = "@ + ps_quote_seq(expand_path_seq(script_path, home)) + seq!['\n']
        + "if (-not (Test-Path -LiteralPath $__psScriptPath)) {\n"@
        + "    throw \"ps script file not found: $__psScriptPath\"\n"@ + "}\n"@ + (if dot_source {
        seq!['.']
    } else {
        seq!['&']
    }) + " $__psScriptPath @psArgs\n"@
}

/// The lines that run a shortcut's script file; `~` expands to `home`.
pub fn emit_script_path(script_path: &str, dot_source: bool, home: Option<&str>) -> (r: String)
    ensures
        r@ == emit_script_path_seq(script_path@, dot_source, opt_str(home)),
{
    let target = expand_path(script_path, home);
    let mut emitted = owned("$__psScriptPath = ");
    push_str(&mut emitted, ps_quote(target.as_str()).as_str());
    push_char(&mut emitted, '\n');
    push_str(&mut emitted, "if (-not (Test-Path -LiteralPath $__psScriptPath)) {\n");
    push_str(&mut emitted, "    throw \"ps script file not found: $__psScriptPath\"\n");
    push_str(&mut emitted, "}\n");
    if dot_source {
        push_char(&mut emitted, '.');
    } else {
        push_char(&mut emitted, '&');
    }
    push_str(&mut emitted, " $__psScriptPath @psArgs\n");
    emitted
}

/// An inline script, with a final line break added when it has none.
pub open spec fn script_lines_seq(script: Seq<char>) -> Seq<char> {
    if script.len() > 0 && script.last() == '\n' {
        script
    } else {
        script.push('\n')
    }
}

/// The script of a shell shortcut: `$psArgs` holds the arguments, then the
/// script file runs, then the inline script.
pub open spec fn emit_shell_seq(
    script: Option<Seq<char>>,
    script_path: Option<Seq<char>>,
    dot_source: bool,
    args: Seq<Seq<char>>,
    home: Option<Seq<char>>,
) -> Seq<char> {
    "$psArgs = @("@ + ps_array_seq(args) + ")\n"@ + (match script_path {
        Some(p) => emit_script_path_seq(p, dot_source, home),
        None => Seq::empty(),
    }) + (match script {
        Some(s) => script_lines_seq(s),
        None => Seq::empty(),
    })
}

/// The script of a shell shortcut; it fails when the shortcut has neither
/// an inline script nor a script file.
pub fn emit_shell(
    script: Option<&str>,
    script_path: Option<&str>,
    dot_source: bool,
    args: &Vec<String>,
    home: Option<&str>,
) -> (r: Result<String, ShortcutError>)
    ensures
        script is None && script_path is None ==> r matches Err(ShortcutError::EmptyShell),
        !(script is None && script_path is None) ==> (r matches Ok(s) && s@ == emit_shell_seq(
            opt_str(script),
            opt_str(script_path),
            dot_source,
            views(args@),
            opt_str(home),
        )),
{
    if script.is_none() && script_path.is_none() {
        return Err(ShortcutError::EmptyShell);
    }
    let mut emitted = owned("$psArgs = @(");
    push_str(&mut emitted, ps_array(args).as_str());
    push_str(&mut emitted, ")\n");
    if let Some(p) = script_path {
        push_str(&mut emitted, emit_script_path(p, dot_source, home).as_str());
    }
    if let Some(s) = script {
        push_str(&mut emitted, s);
        let n = s.unicode_len();
        if !(n > 0 && s.get_char(n - 1) == '\n') {
            push_char(&mut emitted, '\n');
        }
    }
    Ok(emitted)
}

/// What `emit` writes for a shortcut that exists, when it can write it.
pub open spec fn emit_command_seq(
    name: Seq<char>,
    args: Seq<Seq<char>>,
    command: ShortcutCommand,
    exe: Seq<char>,
    home: Option<Seq<char>>,
) -> Option<Seq<char>> {
    match command {
        ShortcutCommand::KillPort { .. } => Some(emit_run_command_seq(name, args, exe)),
        ShortcutCommand::Workspace { path, open_windows, .. } => Some(
            emit_workspace_seq(path@, views(open_windows@), home),
        ),
        ShortcutCommand::Shell { script, script_path, dot_source, .. } => if script is None
            && script_path is None {
            None
        } else {
            Some(
                emit_shell_seq(
                    match script {
                        Some(s) => Some(s@),
                        None => None,
                    },
                    match script_path {
                        Some(p) => Some(p@),
                        None => None,
                    },
                    dot_source,
                    args,
                    home,
                ),
            )
        },
    }
}

fn opt_as_str(o: &Option<String>) -> (r: Option<&str>)
    ensures
        opt_str(r) == match o {
            Some(s) => Some(s@),
            None => None::<Seq<char>>,
        },
{
    match o {
        Some(s) => Some(s.as_str()),
        None => None,
    }
}

/// The PowerShell that the profile runs for `name <args>`: an error line
/// for an invalid or unknown name, else the shortcut's script. `exe` is
/// the path of this executable and `home` the home directory.
pub fn emit(
    name: &str,
    args: &Vec<String>,
    config: &CommandsConfig,
    exe: &str,
    home: Option<&str>,
) -> (r: Result<String, ShortcutError>)
    ensures
        !valid_shortcut_name_seq(name@) ==> (r matches Ok(s) && s@ == write_error_seq(
            seq!['\''] + name@ + "' is not a valid shortcut name"@,
        )),
        valid_shortcut_name_seq(name@) && lookup_command(config.entries(), name@) is None ==> (
        r matches Ok(s) && s@ == write_error_seq("shortcut '"@ + name@ + "' was not found"@)),
        valid_shortcut_name_seq(name@) ==> (lookup_command(config.entries(), name@) matches Some(
            c,
        ) ==> match emit_command_seq(name@, views(args@), c, exe@, opt_str(home)) {
            Some(script) => r matches Ok(s) && s@ == script,
            None => r matches Err(ShortcutError::EmptyShell),
        }),
{
    if !valid_shortcut_name(name) {
        let mut m = owned("'");
        push_str(&mut m, name);
        push_str(&mut m, "' is not a valid shortcut name");
        proof {
            reveal_strlit("'");
        }
        assert("'"@ =~= seq!['\'']);
        return Ok(write_error(m.as_str()));
    }
    let command = match config.get(name) {
        Some(c) => c,
        None => {
            let mut m = owned("shortcut '");
            push_str(&mut m, name);
            push_str(&mut m, "' was not found");
            return Ok(write_error(m.as_str()));
        },
    };
    match command {
        ShortcutCommand::KillPort { .. } => Ok(emit_run_command(name, args, exe)),
        ShortcutCommand::Workspace { path, open_windows, .. } => Ok(
            emit_workspace(path.as_str(), open_windows, home),
        ),
        ShortcutCommand::Shell { script, script_path, dot_source, .. } => emit_shell(
            opt_as_str(script),
            opt_as_str(script_path),
            *dot_source,
            args,
            home,
        ),
    }
}

// ---------------------------------------------------------------------
// `ps run`.
// ---------------------------------------------------------------------

/// What `ps run <name> [args]` does.
#[derive(Clone, Debug, PartialEq, Eq)]
pub enum RunAction {
    /// Stop the processes on the port given in the arguments.
    KillPort,
    /// Run this PowerShell script in a child PowerShell process.
    Script(String),
}

/// Decides what `ps run <name> [args]` does: a kill-port shortcut stops
/// the processes on a port; a workspace or shell shortcut runs, in a child
/// PowerShell process, the script it emits for `args` (`~` expands to
/// `home`).
pub fn plan_run(name: &str, args: &Vec<String>, config: &CommandsConfig, home: Option<&str>) -> (r:
    Result<RunAction, ShortcutError>)
    ensures
        !valid_shortcut_name_seq(name@) ==> (r matches Err(ShortcutError::InvalidName(n)) && n@
            == name@),
        valid_shortcut_name_seq(name@) && lookup_command(config.entries(), name@) is None ==> (
        r matches Err(ShortcutError::NotFound(n)) && n@ == name@),
        valid_shortcut_name_seq(name@) ==> (lookup_command(config.entries(), name@) matches Some(
            c,
        ) ==> if c is KillPort {
            r == Ok::<RunAction, ShortcutError>(RunAction::KillPort)
        } else {
            match emit_command_seq(name@, views(args@), c, Seq::empty(), opt_str(home)) {
                Some(script) => r matches Ok(RunAction::Script(s)) && s@ == script,
                None => r matches Err(ShortcutError::EmptyShell),
            }
        }),
{
    if !valid_shortcut_name(name) {
        return Err(ShortcutError::InvalidName(owned(name)));
    }
    match config.get(name) {
        None => Err(ShortcutError::NotFound(owned(name))),
        Some(ShortcutCommand::KillPort { .. }) => Ok(RunAction::KillPort),
        Some(ShortcutCommand::Workspace { path, open_windows, .. }) => Ok(
            RunAction::Script(emit_workspace(path.as_str(), open_windows, home)),
        ),
        Some(ShortcutCommand::Shell { script, script_path, dot_source, .. }) => match emit_shell(
            opt_as_str(script),
            opt_as_str(script_path),
            *dot_source,
            args,
            home,
        ) {
            Ok(s) => Ok(RunAction::Script(s)),
            Err(e) => Err(e),
        },
    }
}

/// The arguments of the child PowerShell process that runs `script`.
pub fn child_args(script: &str) -> (r: Vec<String>)
    ensures
        views(r@) == seq!["-NoProfile"@, "-Command"@, script@],
{
    let mut r: Vec<String> = Vec::new();
    r.push(owned("-NoProfile"));
    r.push(owned("-Command"));
    r.push(owned(script));
    assert(views(r@) =~= seq!["-NoProfile"@, "-Command"@, script@]);
    r
}

/// What `ps run` reports when the child process of a shortcut fails.
pub open spec fn child_failed_message_seq(name: Seq<char>, status: Seq<char>) -> Seq<char> {
    "shortcut '"@ + name + "' exited with "@ + status
}

/// The message for a shortcut whose child process exited with `status`.
pub fn child_failed_message(name: &str, status: &str) -> (r: String)
    ensures
        r@ == child_failed_message_seq(name@, status@),
{
    let mut r = owned("shortcut '");
    push_str(&mut r, name);
    push_str(&mut r, "' exited with ");
    push_str(&mut r, status);
    r
}

/// The port that a `kill-port` shortcut stops: its first argument.
pub fn kill_port_target(args: &Vec<String>) -> (r: Result<u16, ShortcutError>)
    ensures
        args@.len() == 0 ==> r matches Err(ShortcutError::MissingPort),
        args@.len() > 0 ==> match parse_unsigned(args@[0]@, u16::MAX as int) {
            Some(v) => r matches Ok(p) && p == v,
            None => r matches Err(ShortcutError::InvalidPort(a)) && a@ == args@[0]@,
        },
{
    if args.len() == 0 {
        return Err(ShortcutError::MissingPort);
    }
    match parse_u16(args[0].as_str()) {
        Some(p) => Ok(p),
        None => Err(ShortcutError::InvalidPort(owned(args[0].as_str()))),
    }
}

/// The non-blank lines of the output, trimmed.
pub open spec fn nonblank_lines(lines: Seq<Seq<char>>) -> Seq<Seq<char>>
    decreases lines.len(),
{
    if lines.len() == 0 {
        Seq::empty()
    } else {
        let rest = nonblank_lines(lines.drop_last());
        let t = trim_seq(lines.last());
        if t.len() == 0 {
            rest
        } else {
            rest.push(t)
        }
    }
}

/// Each line as a process id, or the first line that is not one.
pub open spec fn parse_pid_lines(lines: Seq<Seq<char>>) -> Result<Seq<int>, Seq<char>>
    decreases lines.len(),
{
    if lines.len() == 0 {
        Ok(Seq::empty())
    } else {
        match parse_pid_lines(lines.drop_last()) {
            Err(e) => Err(e),
            Ok(pids) => match parse_unsigned(lines.last(), u32::MAX as int) {
                Some(v) => Ok(pids.push(v)),
                None => Err(lines.last()),
            },
        }
    }
}

/// The values in order of their first occurrence.
pub open spec fn first_occurrences(s: Seq<int>) -> Seq<int>
    decreases s.len(),
{
    if s.len() == 0 {
        Seq::empty()
    } else {
        let d = first_occurrences(s.drop_last());
        if d.contains(s.last()) {
            d
        } else {
            d.push(s.last())
        }
    }
}

/// `kill` stops each process the port query printed exactly once: the ids
/// it keeps have no repeats, and they are all the ids that were printed.
pub proof fn law_pids_once(s: Seq<int>)
    ensures
        first_occurrences(s).no_duplicates(),
        forall|x: int| #[trigger] first_occurrences(s).contains(x) <==> s.contains(x),
    decreases s.len(),
{
    if s.len() > 0 {
        let t = s.drop_last();
        law_pids_once(t);
        let d = first_occurrences(t);
        assert forall|x: int| s.contains(x) <==> (t.contains(x) || x == s.last()) by {
            if s.contains(x) {
                let k = choose|k: int| 0 <= k < s.len() && s[k] == x;
                if k < s.len() - 1 {
                    assert(t[k] == x);
                }
            }
            if t.contains(x) {
                let k = choose|k: int| 0 <= k < t.len() && t[k] == x;
                assert(s[k] == x);
            }
            if x == s.last() {
                assert(s[s.len() - 1] == x);
            }
        }
        if !d.contains(s.last()) {
            let e = d.push(s.last());
            assert forall|i: int, j: int| 0 <= i < e.len() && 0 <= j < e.len() && i != j implies e[i]
                != e[j] by {
                if i < d.len() && j < d.len() {
                    assert(e[i] == d[i] && e[j] == d[j]);
                } else if i == d.len() {
                    assert(e[j] == d[j]);
                    assert(d.contains(d[j]));
                } else {
                    assert(e[i] == d[i]);
                    assert(d.contains(d[i]));
                }
            }
            assert forall|x: int| #[trigger] e.contains(x) <==> d.contains(x) || x == s.last() by {
                if e.contains(x) {
                    let k = choose|k: int| 0 <= k < e.len() && e[k] == x;
                    if k < d.len() {
                        assert(d[k] == x);
                    }
                }
                if d.contains(x) {
                    let k = choose|k: int| 0 <= k < d.len() && d[k] == x;
                    assert(e[k] == x);
                }
                if x == s.last() {
                    assert(e[d.len() as int] == x);
                }
            }
        }
    }
}

/// The distinct process ids that the port query printed, one per line.
pub open spec fn pids_from_output_seq(output: Seq<char>) -> Result<Seq<int>, Seq<char>> {
    match parse_pid_lines(nonblank_lines(tokens(output, Splitter::Char('\n')))) {
        Ok(p) => Ok(first_occurrences(p)),
        Err(e) => Err(e),
    }
}

/// Reads the process ids that the port query printed.
pub fn pids_from_output(output: &str) -> (r: Result<Vec<u32>, ShortcutError>)
    ensures
        match pids_from_output_seq(output@) {
            Ok(p) => r matches Ok(v) && v@.map_values(|x: u32| x as int) == p,
            Err(l) => r matches Err(ShortcutError::InvalidPid(s)) && s@ == l,
        },
{
    let lines = split_tokens(output, Splitter::Char('\n'));
    let ghost ls = views(lines@);
    let mut pids: Vec<u32> = Vec::new();
    let mut i: usize = 0;
    while i < lines.len()
        invariant
            ls == views(lines@),
            ls == tokens(output@, Splitter::Char('\n')),
            i <= lines@.len(),
            parse_pid_lines(nonblank_lines(ls.take(i as int))) matches Ok(p)
                && pids@.map_values(|x: u32| x as int) == first_occurrences(p),
        decreases lines.len() - i,
    {
        let t = trim(lines[i].as_str());
        let ghost x = nonblank_lines(ls.take(i as int));
        let ghost p = parse_pid_lines(x)->Ok_0;
        proof {
            assert(ls.take(i + 1).drop_last() =~= ls.take(i as int));
            assert(ls.take(i + 1).last() == lines@[i as int]@);
            assert(x.push(t@).drop_last() =~= x);
        }
        if t.as_str().unicode_len() == 0 {
            assert(nonblank_lines(ls.take(i + 1)) =~= x);
        } else {
            assert(nonblank_lines(ls.take(i + 1)) =~= x.push(t@));
            match parse_u32(t.as_str()) {
                Some(pid) => {
                    let ghost before = pids@;
                    assert(parse_pid_lines(x.push(t@)) == Ok::<Seq<int>, Seq<char>>(
                        p.push(pid as int),
                    ));
                    assert(p.push(pid as int).drop_last() =~= p);
                    let mut j: usize = 0;
                    let mut seen = false;
                    while j < pids.len()
                        invariant
                            j <= pids@.len(),
                            seen == exists|k: int| 0 <= k < j && pids@[k] == pid,
                        decreases pids.len() - j,
                    {
                        if pids[j] == pid {
                            seen = true;
                        }
                        j = j + 1;
                    }
                    proof {
                        let m = pids@.map_values(|x: u32| x as int);
                        if seen {
                            let k = choose|k: int| 0 <= k < pids@.len() && pids@[k] == pid;
                            assert(m[k] == pid as int);
                            assert(m.contains(pid as int));
                        } else {
                            assert forall|k: int| 0 <= k < m.len() implies m[k] != pid as int by {
                                assert(pids@[k] != pid);
                            }
                            assert(!m.contains(pid as int));
                        }
                    }
                    if !seen {
                        pids.push(pid);
                        assert(pids@.map_values(|x: u32| x as int) =~= before.map_values(
                            |x: u32| x as int,
                        ).push(pid as int));
                    }
                },
                None => {
                    assert(parse_pid_lines(x.push(t@)) == Err::<Seq<int>, Seq<char>>(t@));
                    proof {
                        lemma_parse_pid_lines_err_stays(ls, i + 1);
                        assert(ls.take(ls.len() as int) =~= ls);
                    }
                    return Err(ShortcutError::InvalidPid(t));
                },
            }
        }
        i = i + 1;
    }
    assert(ls.take(lines@.len() as int) =~= ls);
    Ok(pids)
}

proof fn lemma_parse_pid_lines_err_stays(ls: Seq<Seq<char>>, k: int)
    requires
        0 <= k <= ls.len(),
        parse_pid_lines(nonblank_lines(ls.take(k))) is Err,
    ensures
        parse_pid_lines(nonblank_lines(ls)) == parse_pid_lines(nonblank_lines(ls.take(k))),
    decreases ls.len() - k,
{
    if k < ls.len() {
        let a = nonblank_lines(ls.take(k));
        let b = nonblank_lines(ls.take(k + 1));
        assert(ls.take(k + 1).drop_last() =~= ls.take(k));
        if b != a {
            assert(b.drop_last() =~= a);
        }
        lemma_parse_pid_lines_err_stays(ls, k + 1);
        assert(ls.take(ls.len() as int) =~= ls);
    } else {
        assert(ls.take(k) =~= ls);
    }
}

/// What `kill` prints when nothing listens on the port.
pub open spec fn no_listener_message_seq(port: int) -> Seq<char> {
    "No process is listening on port "@ + dec(port as nat) + seq!['.']
}

/// The message for a port without a listener.
pub fn no_listener_message(port: u16) -> (r: String)
    ensures
        r@ == no_listener_message_seq(port as int),
{
    let mut r = owned("No process is listening on port ");
    push_str(&mut r, decimal(port as u64).as_str());
    push_char(&mut r, '.');
    r
}

/// What `kill` prints for a stopped process.
pub open spec fn stopped_message_seq(pid: int, port: int) -> Seq<char> {
    "Stopped PID "@ + dec(pid as nat) + " on port "@ + dec(port as nat) + seq!['.']
}

/// The message for a process that was stopped.
pub fn stopped_message(pid: u32, port: u16) -> (r: String)
    ensures
        r@ == stopped_message_seq(pid as int, port as int),
{
    let mut r = owned("Stopped PID ");
    push_str(&mut r, decimal(pid as u64).as_str());
    push_str(&mut r, " on port ");
    push_str(&mut r, decimal(port as u64).as_str());
    push_char(&mut r, '.');
    r
}

/// What `kill` prints when `taskkill` failed with the exit status `status`.
pub open spec fn taskkill_failed_message_seq(status: Seq<char>, pid: int) -> Seq<char> {
    "taskkill exited with "@ + status + " for PID "@ + dec(pid as nat) + seq!['.']
}

/// The message for a `taskkill` that failed.
pub fn taskkill_failed_message(status: &str, pid: u32) -> (r: String)
    ensures
        r@ == taskkill_failed_message_seq(status@, pid as int),
{
    let mut r = owned("taskkill exited with ");
    push_str(&mut r, status);
    push_str(&mut r, " for PID ");
    push_str(&mut r, decimal(pid as u64).as_str());
    push_char(&mut r, '.');
    r
}

/// What `kill` reports when the port query failed, with what it wrote to
/// its error stream.
pub open spec fn query_failed_message_seq(port: int, stderr: Seq<char>) -> Seq<char> {
    let head = "PowerShell failed while querying port "@ + dec(port as nat);
    let t = trim_seq(stderr);
    if t.len() == 0 {
        head
    } else {
        head + ": "@ + t
    }
}

/// The message for a failed port query.
pub fn query_failed_message(port: u16, stderr: &str) -> (r: String)
    ensures
        r@ == query_failed_message_seq(port as int, stderr@),
{
    let mut r = owned("PowerShell failed while querying port ");
    push_str(&mut r, decimal(port as u64).as_str());
    let t = trim(stderr);
    if t.as_str().unicode_len() > 0 {
        push_str(&mut r, ": ");
        push_str(&mut r, t.as_str());
    }
    r
}

} // verus!
