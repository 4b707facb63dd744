//! A PowerShell module that defines the commands without the profile:
//! which commands it exports, and the text of the module and its manifest.
use vstd::prelude::*;

use crate::config::{entry_names, CommandsConfig};
use crate::paths::{join_path, join_path_seq};
use crate::profile::ShellTarget;
use crate::quote::{ps_array, ps_array_seq, ps_quote, ps_quote_seq};
use crate::shortcut::{valid_shortcut_name, valid_shortcut_name_seq};
use crate::sort::{lemma_text_order_antisym, lemma_text_order_eq, lemma_text_order_trans, text_compare, text_order};
use crate::text::{chars_of, eq_ignore_ascii_case, owned, push_str, str_eq_ignore_ascii_case, views};

verus! {

/// The module's name, and the base name of its files.
pub const MODULE_NAME: &'static str = "PsUtils";

/// The module's identity in its manifest.
pub const MODULE_GUID: &'static str = "8d4fa06f-bdbd-49c8-9b8b-3774f8c8f5a3";

/// The first line of the module and the start of the executable's path.
pub const MODULE_HEAD: &'static str = r#"# Managed by ps. Re-run `ps install-commands` after moving the binary or changing shortcuts.
$script:PsCliPath = "#;

/// The built-in commands of the module, after the executable's path.
pub const MODULE_BUILTINS: &'static str = r#"

function __psInvokeCli {
    param(
        [string]$Command,
        [Parameter(ValueFromRemainingArguments = $true)]
        [object[]]$Arguments
    )

    & $script:PsCliPath $Command @Arguments
    $__psExitCode = $LASTEXITCODE
    $global:LASTEXITCODE = $__psExitCode
}

function __psInvokeShortcut {
    param(
        [string]$Name,
        [Parameter(ValueFromRemainingArguments = $true)]
        [object[]]$Arguments
    )

    $__psEmitted = & $script:PsCliPath emit $Name @Arguments
    $__psExitCode = $LASTEXITCODE
    $global:LASTEXITCODE = $__psExitCode
    if ($__psExitCode -ne 0) { return }

    $__psScript = $__psEmitted -join [Environment]::NewLine
    if (-not [string]::IsNullOrWhiteSpace($__psScript)) {
        Invoke-Expression $__psScript
    }
}

function ports {
    param(
        [Alias('p')]
        [int]$Port = 0,
        [Parameter(ValueFromRemainingArguments = $true)]
        [object[]]$Arguments
    )

    $__psPortsArgs = @('ports')

    if ($PSBoundParameters.ContainsKey('Port')) {
        $__psPortsArgs += @('-p', [string]$Port)
    }

    if ($null -ne $Arguments -and $Arguments.Count -gt 0) {
        $__psPortsArgs += $Arguments
    }

    & $script:PsCliPath @__psPortsArgs
    $__psExitCode = $LASTEXITCODE
    $global:LASTEXITCODE = $__psExitCode
}

function doctor {
    __psInvokeCli doctor @args
}

function zip {
    __psInvokeCli zip @args
}

function compress {
    __psInvokeCli compress @args
}

function pack {
    __psInvokeCli pack @args
}

function procs {
    __psInvokeCli procs @args
}

function processes {
    __psInvokeCli processes @args
}

function envs {
    __psInvokeCli envs @args
}

function workspaces {
    $resultPath = Join-Path ([IO.Path]::GetTempPath()) "ps-workspaces-$PID-$([Guid]::NewGuid().ToString('N')).ps1"

    try {
        & $script:PsCliPath workspaces --result $resultPath @args
        $__psWorkspacesExitCode = $LASTEXITCODE
        $global:LASTEXITCODE = $__psWorkspacesExitCode

        if ($__psWorkspacesExitCode -ne 0) { return }
        if (-not (Test-Path -LiteralPath $resultPath)) { return }

        $scriptText = Get-Content -LiteralPath $resultPath -Raw
        if (-not [string]::IsNullOrWhiteSpace($scriptText)) {
            Invoke-Expression $scriptText
        }
    } finally {
        if (Test-Path -LiteralPath $resultPath) {
            Remove-Item -LiteralPath $resultPath -Force -ErrorAction SilentlyContinue
        }
    }
}

function history {
    $resultPath = Join-Path ([IO.Path]::GetTempPath()) "ps-history-$PID-$([Guid]::NewGuid().ToString('N')).txt"

    try {
        & $script:PsCliPath history --result $resultPath @args
        $__psHistoryExitCode = $LASTEXITCODE
        $global:LASTEXITCODE = $__psHistoryExitCode

        if ($__psHistoryExitCode -ne 0) { return }
        if (-not (Test-Path -LiteralPath $resultPath)) { return }

        $command = Get-Content -LiteralPath $resultPath -Raw
        if (-not [string]::IsNullOrWhiteSpace($command)) {
            Invoke-Expression $command
        }
    } finally {
        if (Test-Path -LiteralPath $resultPath) {
            Remove-Item -LiteralPath $resultPath -Force -ErrorAction SilentlyContinue
        }
    }
}

function mkcd {
    param(
        [Parameter(Mandatory = $true, Position = 0)]
        [string]$Path
    )

    New-Item -ItemType Directory -Force -Path $Path | Out-Null
    Set-Location -LiteralPath $Path
}

"#;

/// The commands that the module defines itself.
pub open spec fn builtin_commands_seq() -> Seq<Seq<char>> {
    seq![
        "ports"@,
        "doctor"@,
        "zip"@,
        "compress"@,
        "pack"@,
        "procs"@,
        "processes"@,
        "history"@,
        "envs"@,
        "workspaces"@,
        "mkcd"@,
    ]
}

/// Subcommands of `ps` that no shortcut may shadow.
pub open spec fn reserved_commands_seq() -> Seq<Seq<char>> {
    seq!["ps"@, "init"@, "commands"@, "config-path"@, "run"@, "emit"@]
}

/// The built-in commands, in their order of definition.
pub fn builtin_commands() -> (r: Vec<String>)
    ensures
        views(r@) == builtin_commands_seq(),
{
    let r = vec![
        owned("ports"),
        owned("doctor"),
        owned("zip"),
        owned("compress"),
        owned("pack"),
        owned("procs"),
        owned("processes"),
        owned("history"),
        owned("envs"),
        owned("workspaces"),
        owned("mkcd"),
    ];
    assert(views(r@) =~= builtin_commands_seq());
    r
}

fn reserved_commands() -> (r: Vec<String>)
    ensures
        views(r@) == reserved_commands_seq(),
{
    let r = vec![
        owned("ps"),
        owned("init"),
        owned("commands"),
        owned("config-path"),
        owned("run"),
        owned("emit"),
    ];
    assert(views(r@) =~= reserved_commands_seq());
    r
}

/// Some entry of `list` equals `name` up to ASCII case.
pub open spec fn matches_any(list: Seq<Seq<char>>, name: Seq<char>) -> bool {
    exists|i: int| 0 <= i < list.len() && eq_ignore_ascii_case(#[trigger] list[i], name)
}

fn any_matches(list: &Vec<String>, name: &str) -> (r: bool)
    ensures
        r == matches_any(views(list@), name@),
{
    let mut i: usize = 0;
    while i < list.len()
        invariant
            i <= list@.len(),
            forall|j: int| 0 <= j < i ==> !eq_ignore_ascii_case(#[trigger] views(list@)[j], name@),
        decreases list.len() - i,
    {
        if str_eq_ignore_ascii_case(list[i].as_str(), name) {
            assert(eq_ignore_ascii_case(views(list@)[i as int], name@));
            return true;
        }
        i = i + 1;
    }
    false
}

/// A name is reserved when it is a subcommand of `ps` or a built-in
/// command, ignoring ASCII case.
pub open spec fn is_reserved_seq(name: Seq<char>) -> bool {
    matches_any(reserved_commands_seq(), name) || matches_any(builtin_commands_seq(), name)
}

/// Whether a shortcut of this name is left out of the module's exports.
pub fn is_reserved_command(name: &str) -> (r: bool)
    ensures
        r == is_reserved_seq(name@),
{
    any_matches(&reserved_commands(), name) || any_matches(&builtin_commands(), name)
}

/// The module exports `name`: it is built in, or it names a shortcut that
/// is valid and not reserved.
pub open spec fn exported(entries: Seq<(String, crate::config::ShortcutCommand)>, name: Seq<char>) -> bool {
    builtin_commands_seq().contains(name) || (entry_names(entries).contains(name)
        && valid_shortcut_name_seq(name) && !is_reserved_seq(name))
}

/// Strictly increasing in `str` order, so no name occurs twice.
pub open spec fn strictly_sorted(s: Seq<Seq<char>>) -> bool {
    forall|i: int, j: int| 0 <= i < j < s.len() ==> text_order(#[trigger] s[i], #[trigger] s[j]) < 0
}

proof fn lemma_lt_trans(a: Seq<char>, b: Seq<char>, c: Seq<char>)
    requires
        text_order(a, b) < 0,
        text_order(b, c) < 0,
    ensures
        text_order(a, c) < 0,
{
    lemma_text_order_trans(a, b, c);
    lemma_text_order_eq(a, c);
    lemma_text_order_antisym(a, b);
    lemma_text_order_antisym(b, c);
}

/// Inserts `s` into a strictly sorted list unless it is there already.
fn insert_sorted(v: &mut Vec<String>, s: String)
    requires
        strictly_sorted(views(old(v)@)),
    ensures
        strictly_sorted(views(final(v)@)),
        forall|n: Seq<char>| views(final(v)@).contains(n) <==> (views(old(v)@).contains(n) || n == s@),
{
    let sv = chars_of(s.as_str());
    let mut k: usize = 0;
    loop
        invariant
            k <= v@.len(),
            sv@ == s@,
            forall|i: int| 0 <= i < k ==> text_order(#[trigger] views(v@)[i], s@) < 0,
        ensures
            k <= v@.len(),
            forall|i: int| 0 <= i < k ==> text_order(#[trigger] views(v@)[i], s@) < 0,
            k < v@.len() ==> text_order(views(v@)[k as int], s@) >= 0,
        decreases v.len() - k,
    {
        if k == v.len() {
            break;
        }
        let c = text_compare(&chars_of(v[k].as_str()), &sv);
        if c >= 0 {
            break;
        }
        k = k + 1;
    }
    let ghost w = views(v@);
    if k < v.len() && crate::text::str_eq(v[k].as_str(), s.as_str()) {
        assert(w[k as int] == s@);
        return;
    }
    proof {
        if k < w.len() {
            lemma_text_order_eq(w[k as int], s@);
            lemma_text_order_antisym(w[k as int], s@);
            assert(text_order(s@, w[k as int]) < 0);
        }
    }
    let ghost sval = s@;
    v.insert(k, s);
    proof {
        let w2 = views(v@);
        assert(w2 =~= w.insert(k as int, sval));
        assert forall|i: int, j: int| 0 <= i < j < w2.len() implies text_order(
            #[trigger] w2[i],
            #[trigger] w2[j],
        ) < 0 by {
            if j < k {
                assert(w2[i] == w[i] && w2[j] == w[j]);
            } else if j == k {
                assert(w2[i] == w[i]);
            } else if i == k {
                assert(w2[j] == w[j - 1]);
                if j - 1 > k {
                    assert(text_order(w[k as int], w[j - 1]) < 0);
                    lemma_lt_trans(sval, w[k as int], w[j - 1]);
                }
            } else if i < k {
                assert(w2[i] == w[i] && w2[j] == w[j - 1]);
            } else {
                assert(w2[i] == w[i - 1] && w2[j] == w[j - 1]);
            }
        }
        assert forall|n: Seq<char>| w2.contains(n) <==> (w.contains(n) || n == sval) by {
            if w2.contains(n) {
                let i = choose|i: int| 0 <= i < w2.len() && w2[i] == n;
                if i < k {
                    assert(w[i] == n);
                } else if i > k {
                    assert(w[i - 1] == n);
                }
            }
            if w.contains(n) {
                let i = choose|i: int| 0 <= i < w.len() && w[i] == n;
                if i < k {
                    assert(w2[i] == n);
                } else {
                    assert(w2[i + 1] == n);
                }
            }
            if n == sval {
                assert(w2[k as int] == n);
            }
        }
    }
}

/// The commands that the module exports: the built-in commands and every
/// valid, unreserved shortcut name, sorted in `str` order, each once.
pub fn command_exports(config: &CommandsConfig) -> (r: Vec<String>)
    ensures
        strictly_sorted(views(r@)),
        forall|n: Seq<char>| #[trigger] views(r@).contains(n) <==> exported(config.entries(), n),
{
    let builtins = builtin_commands();
    let mut out: Vec<String> = Vec::new();
    let mut i: usize = 0;
    while i < builtins.len()
        invariant
            i <= builtins@.len(),
            views(builtins@) == builtin_commands_seq(),
            strictly_sorted(views(out@)),
            forall|n: Seq<char>|
                #[trigger] views(out@).contains(n) <==> views(builtins@).take(i as int).contains(n),
        decreases builtins.len() - i,
    {
        let ghost before = views(out@);
        insert_sorted(&mut out, owned(builtins[i].as_str()));
        proof {
            let t = views(builtins@).take(i + 1);
            assert(t =~= views(builtins@).take(i as int).push(builtins@[i as int]@));
            assert forall|n: Seq<char>| views(out@).contains(n) <==> t.contains(n) by {
                if n == builtins@[i as int]@ {
                    assert(t[i as int] == n);
                }
                if t.contains(n) && n != builtins@[i as int]@ {
                    let j = choose|j: int| 0 <= j < t.len() && t[j] == n;
                    assert(views(builtins@).take(i as int)[j] == n);
                }
                if views(builtins@).take(i as int).contains(n) {
                    let j = choose|j: int| 0 <= j < i && views(builtins@).take(i as int)[j] == n;
                    assert(t[j] == n);
                }
            }
        }
        i = i + 1;
    }
    assert(views(builtins@).take(builtins@.len() as int) =~= builtin_commands_seq());
    let n_entries = config.len();
    let mut e: usize = 0;
    while e < n_entries
        invariant
            e <= n_entries,
            n_entries == config.entries().len(),
            strictly_sorted(views(out@)),
            forall|n: Seq<char>|
                #[trigger] views(out@).contains(n) <==> (builtin_commands_seq().contains(n) || (entry_names(
                    config.entries().take(e as int),
                ).contains(n) && valid_shortcut_name_seq(n) && !is_reserved_seq(n))),
        decreases n_entries - e,
    {
        let (name, _command) = config.entry(e);
        let ghost en = entry_names(config.entries().take(e as int));
        let ghost en2 = entry_names(config.entries().take(e + 1));
        let ghost before = views(out@);
        proof {
            assert(config.entries().take(e + 1) =~= config.entries().take(e as int).push(
                config.entries()[e as int],
            ));
            assert(en2 =~= en.push(name@));
        }
        let keep = valid_shortcut_name(name.as_str()) && !is_reserved_command(name.as_str());
        if keep {
            insert_sorted(&mut out, owned(name.as_str()));
        }
        proof {
            assert forall|n: Seq<char>|
                #[trigger] views(out@).contains(n) <==> (builtin_commands_seq().contains(n) || (en2.contains(n)
                    && valid_shortcut_name_seq(n) && !is_reserved_seq(n))) by {
                if en2.contains(n) && n != name@ {
                    let j = choose|j: int| 0 <= j < en2.len() && en2[j] == n;
                    assert(en[j] == n);
                }
                if en.contains(n) {
                    let j = choose|j: int| 0 <= j < en.len() && en[j] == n;
                    assert(en2[j] == n);
                }
                if n == name@ {
                    assert(en2[e as int] == n);
                }
                assert(before.contains(n) <==> (builtin_commands_seq().contains(n) || (en.contains(n)
                    && valid_shortcut_name_seq(n) && !is_reserved_seq(n))));
            }
        }
        e = e + 1;
    }
    assert(config.entries().take(n_entries as int) =~= config.entries());
    assert(entry_names(config.entries().take(n_entries as int)) == entry_names(config.entries()));
    out
}

/// The folders of the module for a shell target, under the documents
/// directory.
pub open spec fn module_dirs_seq(documents: Seq<char>, shell: ShellTarget) -> Seq<Seq<char>> {
    let pwsh = join_path_seq(join_path_seq(join_path_seq(documents, "PowerShell"@), "Modules"@), "PsUtils"@);
    let winps = join_path_seq(
        join_path_seq(join_path_seq(documents, "WindowsPowerShell"@), "Modules"@),
        "PsUtils"@,
    );
    match shell {
        ShellTarget::All => seq![pwsh, winps],
        ShellTarget::Pwsh => seq![pwsh],
        ShellTarget::WindowsPowerShell => seq![winps],
    }
}

fn module_dir(documents: &str, shell_folder: &str) -> (r: String)
    ensures
        r@ == join_path_seq(join_path_seq(join_path_seq(documents@, shell_folder@), "Modules"@), "PsUtils"@),
{
    let a = join_path(documents, shell_folder);
    let b = join_path(a.as_str(), "Modules");
    join_path(b.as_str(), MODULE_NAME)
}

/// The module folders of a shell target.
pub fn module_dirs(documents: &str, shell: ShellTarget) -> (r: Vec<String>)
    ensures
        views(r@) == module_dirs_seq(documents@, shell),
{
    let mut r: Vec<String> = Vec::new();
    match shell {
        ShellTarget::All => {
            r.push(module_dir(documents, "PowerShell"));
            r.push(module_dir(documents, "WindowsPowerShell"));
        },
        ShellTarget::Pwsh => {
            r.push(module_dir(documents, "PowerShell"));
        },
        ShellTarget::WindowsPowerShell => {
            r.push(module_dir(documents, "WindowsPowerShell"));
        },
    }
    assert(views(r@) =~= module_dirs_seq(documents@, shell));
    r
}

/// The function that runs one custom shortcut.
pub open spec fn shortcut_function_seq(name: Seq<char>) -> Seq<char> {
    "function "@ + name + " {\n    __psInvokeShortcut "@ + ps_quote_seq(name) + " @args\n}\n\n"@
}

/// The functions for the exported commands that are not built in, in
/// order.
pub open spec fn shortcut_functions_seq(commands: Seq<Seq<char>>) -> Seq<char>
    decreases commands.len(),
{
    if commands.len() == 0 {
        Seq::empty()
    } else {
        let rest = shortcut_functions_seq(commands.drop_last());
        if matches_any(builtin_commands_seq(), commands.last()) {
            rest
        } else {
            rest + shortcut_function_seq(commands.last())
        }
    }
}

/// The lines that remove aliases that would hide the exported commands,
/// and the export itself.
pub open spec fn module_exports_seq(commands: Seq<Seq<char>>) -> Seq<char> {
    "$__psExportedCommands = @("@ + ps_array_seq(commands)
        + ")\nforeach ($__psExportedCommand in $__psExportedCommands) {\n    if (Test-Path -LiteralPath \"Alias:$__psExportedCommand\") {\n        Remove-Item -LiteralPath \"Alias:$__psExportedCommand\" -Force -ErrorAction SilentlyContinue\n    }\n}\n\n"@
        + "Export-ModuleMember -Function @("@ + ps_array_seq(commands) + ")\n"@
}

/// The module's script for the executable `exe` and the exported
/// `commands`.
pub open spec fn render_module_seq(exe: Seq<char>, commands: Seq<Seq<char>>) -> Seq<char> {
    MODULE_HEAD@ + ps_quote_seq(exe) + MODULE_BUILTINS@ + shortcut_functions_seq(commands)
        + module_exports_seq(commands)
}

/// Renders the module's script.
pub fn render_module(exe_path: &str, commands: &Vec<String>) -> (r: String)
    ensures
        r@ == render_module_seq(exe_path@, views(commands@)),
{
    let builtins = builtin_commands();
    let mut module = owned(MODULE_HEAD);
    push_str(&mut module, ps_quote(exe_path).as_str());
    push_str(&mut module, MODULE_BUILTINS);
    let ghost head = module@;
    let mut i: usize = 0;
    while i < commands.len()
        invariant
            i <= commands@.len(),
            views(builtins@) == builtin_commands_seq(),
            module@ == head + shortcut_functions_seq(views(commands@).take(i as int)),
        decreases commands.len() - i,
    {
        let c = commands[i].as_str();
        proof {
            let t = views(commands@).take(i + 1);
            assert(t.drop_last() =~= views(commands@).take(i as int));
            assert(t.last() == c@);
        }
        if !any_matches(&builtins, c) {
            push_str(&mut module, "function ");
            push_str(&mut module, c);
            push_str(&mut module, " {\n    __psInvokeShortcut ");
            push_str(&mut module, ps_quote(c).as_str());
            push_str(&mut module, " @args\n}\n\n");
        }
        i = i + 1;
    }
    assert(views(commands@).take(commands@.len() as int) =~= views(commands@));
    let arr = ps_array(commands);
    push_str(&mut module, "$__psExportedCommands = @(");
    push_str(&mut module, arr.as_str());
    push_str(
        &mut module,
        ")\nforeach ($__psExportedCommand in $__psExportedCommands) {\n    if (Test-Path -LiteralPath \"Alias:$__psExportedCommand\") {\n        Remove-Item -LiteralPath \"Alias:$__psExportedCommand\" -Force -ErrorAction SilentlyContinue\n    }\n}\n\n",
    );
    push_str(&mut module, "Export-ModuleMember -Function @(");
    push_str(&mut module, arr.as_str());
    push_str(&mut module, ")\n");
    module
}

/// The module manifest for the program version `version` and the exported
/// `commands`.
pub open spec fn render_manifest_seq(version: Seq<char>, commands: Seq<Seq<char>>) -> Seq<char> {
    "@{\n    RootModule = 'PsUtils.psm1'\n    ModuleVersion = '"@ + version
        + "'\n    GUID = '8d4fa06f-bdbd-49c8-9b8b-3774f8c8f5a3'\n    Author = 'ps'\n    Description = 'Profile-independent PowerShell commands for ps.'\n    FunctionsToExport = @("@
        + ps_array_seq(commands)
        + ")\n    CmdletsToExport = @()\n    VariablesToExport = @()\n    AliasesToExport = @()\n}\n"@
}

/// Renders the module manifest; `version` is the program's version.
pub fn render_manifest(version: &str, commands: &Vec<String>) -> (r: String)
    ensures
        r@ == render_manifest_seq(version@, views(commands@)),
{
    let mut m = owned("@{\n    RootModule = 'PsUtils.psm1'\n    ModuleVersion = '");
    push_str(&mut m, version);
    push_str(
        &mut m,
        "'\n    GUID = '8d4fa06f-bdbd-49c8-9b8b-3774f8c8f5a3'\n    Author = 'ps'\n    Description = 'Profile-independent PowerShell commands for ps.'\n    FunctionsToExport = @(",
    );
    push_str(&mut m, ps_array(commands).as_str());
    push_str(
        &mut m,
        ")\n    CmdletsToExport = @()\n    VariablesToExport = @()\n    AliasesToExport = @()\n}\n",
    );
    m
}

/// The file names of the module's script and manifest.
pub fn module_file_names() -> (r: (String, String))
    ensures
        r.0@ == "PsUtils.psm1"@,
        r.1@ == "PsUtils.psd1"@,
{
    let mut a = owned(MODULE_NAME);
    push_str(&mut a, ".psm1");
    let mut b = owned(MODULE_NAME);
    push_str(&mut b, ".psd1");
    proof {
        reveal_strlit("PsUtils");
        reveal_strlit(".psm1");
        reveal_strlit(".psd1");
        reveal_strlit("PsUtils.psm1");
        reveal_strlit("PsUtils.psd1");
    }
    assert(a@ =~= "PsUtils.psm1"@);
    assert(b@ =~= "PsUtils.psd1"@);
    (a, b)
}

/// Every built-in command is exported, whatever the shortcuts are.
pub proof fn law_builtins_exported(entries: Seq<(String, crate::config::ShortcutCommand)>, name: Seq<char>)
    requires
        builtin_commands_seq().contains(name),
    ensures
        exported(entries, name),
{
}

/// A subcommand of `ps` (in any ASCII case) is never exported as a
/// shortcut, so no shortcut can hide `ps init`, `ps run` and the like.
pub proof fn law_reserved_not_exported(entries: Seq<(String, crate::config::ShortcutCommand)>, name: Seq<char>)
    requires
        matches_any(reserved_commands_seq(), name),
        !builtin_commands_seq().contains(name),
    ensures
        !exported(entries, name),
{
}

} // verus!
