use ps_utils::profile::{
    documents_dir, install, install_line, profile_paths, render_block, replace_or_append_block,
    upsert_profile_block, InstallResult, ShellTarget, END_MARKER, START_MARKER,
};
use ps_utils::shortcut::valid_shortcut_name;

#[test]
fn appends_profile_block() {
    let updated = replace_or_append_block("Write-Host 'hello'\n", "BLOCK\n");
    assert!(updated.contains("Write-Host 'hello'"));
    assert!(updated.contains("BLOCK"));
}

#[test]
fn replaces_existing_profile_block() {
    let existing = format!("before\n{START_MARKER}\nold\n{END_MARKER}\nafter\n");
    let updated =
        replace_or_append_block(&existing, &format!("{START_MARKER}\nnew\n{END_MARKER}\n"));

    assert!(updated.contains("before"));
    assert!(updated.contains("new"));
    assert!(!updated.contains("old"));
    assert!(updated.contains("after"));
}

fn block() -> String {
    render_block("C:\\Program Files\\ps\\ps.exe", "C:\\Users\\kris\\AppData\\Roaming\\ps")
}

#[test]
fn generated_profile_keeps_ps_shortcut_valid() {
    let block = block();
    assert!(block.contains("function global:ps"));
    assert!(!block.contains("function global:__psInvokeShortcut"));
    assert!(block.contains("function global:__psInvokePathMenu"));
    assert!(block.contains("function global:__psRenderPathMenu"));
    assert!(block.contains("function global:__psRenderPathSelectionChange"));
    assert!(block.contains("function global:__psInvokeSettingsMenu"));
    assert!(block.contains("function global:__psRenderSettingsMenu"));
    assert!(block.contains("function global:__psRenderSettingsSelectionChange"));
    assert!(block.contains("function global:__psClearMenuLine"));
    assert!(block.contains("function global:__psRenderConfirmButtonLine"));
    assert!(block.contains("function global:__psToggleSetting"));
    assert!(block.contains("function global:__psAdjustSetting"));
    assert!(block.contains("function global:__psSetNumericSetting"));
    assert!(block.contains("function global:__psReadSettingsNumberInput"));
    assert!(block.contains("function global:__psRenderSettingsNumberInput"));
    assert!(block.contains("function global:__psPromptPathText"));
    assert!(block.contains("function global:__psPromptLabelText"));
    assert!(block.contains("function global:prompt"));
    assert!(block.contains("function global:__psRecordTerminalHistory"));
    assert!(block.contains("function global:__psProcessStartUnixSeconds"));
    assert!(block.contains("function global:__psUpdateSessionSnapshot"));
    assert!(block.contains("function global:__psMarkSessionClosed"));
    assert!(block.contains("function global:__psSessionCanRestore"));
    assert!(block.contains("function global:__psRestoreCandidateSessions"));
    assert!(block.contains("function global:__psMarkSessionsRestored"));
    assert!(block.contains("function global:__psMaybeRestoreSession"));
    assert!(block.contains("function global:__psLaunchSessionPath"));
    assert!(block.contains("function global:__psSaveCurrentPath"));
    assert!(block.contains("function global:__psOpenSavedPath"));
    assert!(block.contains("function global:__psClearSavedPaths"));
    assert!(block.contains("function global:__psDeleteSavedPath"));
    assert!(block.contains("function global:__psConfirmClearSavedPaths"));
    assert!(block.contains("function global:__psConfirmDeleteSavedPath"));
    assert!(block.contains("function global:__psIsDestructiveMenuItem"));
    assert!(block.contains("function global:__psMoveMenuSelectionVertical"));
    assert!(block.contains("$oldSelected = $selected"));
    assert!(
        block.contains("__psRenderPathSelectionChange $entries $oldSelected $selected $top")
    );
    assert!(block.contains(
        "__psRenderSettingsSelectionChange $entries $settings $oldSelected $selected $top"
    ));
    assert!(block.contains("function global:reload"));
    assert!(block.contains("Remove-Item -LiteralPath \"Alias:$__psUtilityAlias\""));
    assert!(block.contains("ParseFile($PROFILE, [ref]$tokens, [ref]$errors)"));
    assert!(!block.contains("function global:ports"));
    assert!(!block.contains("function global:doctor"));
    assert!(!block.contains("function global:zip"));
    assert!(!block.contains("function global:compress"));
    assert!(!block.contains("function global:pack"));
    assert!(!block.contains("function global:procs"));
    assert!(!block.contains("function global:processes"));
    assert!(!block.contains("function global:history"));
    assert!(!block.contains("function global:envs"));
    assert!(!block.contains("function global:workspaces"));
    assert!(!block.contains("function global:mkcd"));
    assert!(!block.contains("Set-Item -Path \"function:global:$name\""));
    assert!(!block.contains("& $script:PsCliPath history --result $resultPath @args"));
    assert!(!block.contains("& $script:PsCliPath workspaces --result $resultPath @args"));
    assert!(block.contains("section = 'paths'"));
    assert!(block.contains("section = 'actions'"));
    assert!(block.contains("kind = 'delete'"));
    assert!(block.contains("label = 'Clear saved paths'"));
    assert!(block.contains("label = 'Delete'"));
    assert!(block.contains("BackgroundColor DarkRed"));
    assert!(block.contains("ForegroundColor Red"));
    assert!(block.contains("Write-Host 'Delete saved path?' -ForegroundColor Red"));
    assert!(block.contains("Write-Host \"Deleted saved path: $clean\" -ForegroundColor Red"));
    assert!(block.contains("'doctor', 'ports', 'procs'"));
    assert!(!block.contains("[Alias('p')]"));
    assert!(!block.contains("$__psPortsArgs = @('ports')"));
    assert!(!block.contains("$__psPortsArgs += @('-p', [string]$Port)"));
    assert!(!block.contains("& $script:PsCliPath @__psPortsArgs"));
    assert!(!block.contains("function global:__psInvokePortsMenu"));
    assert!(!block.contains("Get-NetTCPConnection -State Listen"));
    assert!(block.contains("$script:PsPathsPath"));
    assert!(block.contains("$script:PsSettingsPath"));
    assert!(block.contains("short_pwd = $false"));
    assert!(block.contains("display_timestamps = $false"));
    assert!(block.contains("terminal_history = $false"));
    assert!(block.contains("terminal_history_max_length = 200"));
    assert!(block.contains("session_history = $false"));
    assert!(block.contains("label = 'Short PWD'"));
    assert!(block.contains("label = 'Display Timestamps'"));
    assert!(block.contains("label = 'Terminal History'"));
    assert!(block.contains("label = 'History Max Length'"));
    assert!(block.contains("label = 'Session History'"));
    assert!(block.contains("group = 'Prompt'"));
    assert!(block.contains("group = 'Terminal History'"));
    assert!(block.contains("group = 'Session History'"));
    assert!(block.contains("Write-Host $group -ForegroundColor DarkGray"));
    assert!(block.contains("Type a number. Enter saves. Esc cancels."));
    assert!(
        block
            .contains("__psReadSettingsNumberInput $entries[$selected] $settings $top $height")
    );
    assert!(block.contains("$script:PsHistoryDir"));
    assert!(block.contains("$script:PsSessionsPath"));
    assert!(block.contains("$entries = @(@($existing.commands)"));
    assert!(block.contains("commands = @($entries)"));
    assert!(block.contains("sessions = @($Sessions)"));
    assert!(block.contains("status = 'open'"));
    assert!(block.contains("status = 'closed'"));
    assert!(block.contains("Value 'restored' -Force"));
    assert!(
        block.contains(
            "Add-Member -MemberType NoteProperty -Name status -Value 'restored' -Force"
        )
    );
    assert!(block.contains("process_start = (__psProcessStartUnixSeconds $PID)"));
    assert!(block.contains("Register-EngineEvent -SourceIdentifier PowerShell.Exiting"));
    assert!(block.contains("Get-Process -Id $sessionPid"));
    assert!(block.contains("$processStartedAt -gt $sessionUpdatedAt"));
    assert!(block.contains("PS_SKIP_SESSION_RESTORE"));
    assert!(block.contains("$escapedProfile = ([string]$PROFILE).Replace"));
    assert!(block.contains("$command = \"`$env:PS_SKIP_SESSION_RESTORE = '1';"));
    assert!(block.contains("$arguments = @('-NoExit', '-NoProfile', '-Command', $command)"));
    assert!(
        block
            .contains("Start-Process wt.exe -ArgumentList (@('new-tab', $shell) + $arguments)")
    );
    assert!(block.contains("Start-Process -FilePath $shell -ArgumentList $arguments"));
    assert!(!block.contains("cmd.exe"));
    assert!(block.contains("if (-not [bool]$global:PsSessionRestoreAttempted)"));
    assert!(block.contains("$global:PsSessionRestoreAttempted = $true"));
    assert!(block.contains("__psRecordTerminalHistory $__psTrimmed"));
    assert!(block.contains("__psMaybeRestoreSession"));
    assert!(!block.contains(".session-restore-stamp"));
    assert!(block.contains("Get-Date -Format 'HH:mm:ss'"));
    assert!(block.contains("return ''"));
    assert!(block.contains("if (-not [string]::IsNullOrWhiteSpace($label))"));
    assert!(!block.contains("return 'ps'"));
    assert!(block.contains("Set-PSReadLineKeyHandler -Key Enter"));
    assert!(!block.contains("Write-Host '@ saved paths'"));
    assert!(block.contains("Write-Host 'Actions'"));
    assert!(block.contains("Write-Host 'Saved Paths'"));
    assert!(!block.contains("Write-Host '> ' -NoNewline"));
    assert!(block.contains("$saved = @(@($config.saved)"));
    assert!(block.contains("Write-Host ''\n    Write-Host ''\n\n    $selected = 0"));
    assert!(block.contains("__psInvokePathMenu"));
    assert!(block.contains("__psInvokeSettingsMenu"));
    assert!(
        block.contains("The % settings shortcut does not accept text yet. Use % by itself.")
    );
    assert!(block.contains("InvokePrompt($key, $arg)"));
    assert!(block.contains("AcceptLine($key, $arg)"));
    assert!(block.contains("RevertLine($key, $arg)"));
    assert!(!block.contains("Insert('__psInvokePathMenu')"));
    assert!(!block.contains("path-menu --current"));
    assert!(!block.contains("--result $__psResultPath"));
    assert!(!block.contains("InvokePrompt()"));
    assert!(!block.contains("$__psEmitted = & $script:PsCliPath path-menu"));
    assert!(!block.contains("$script:PsThemePath"));
    assert!(!block.contains("__psApplyTheme"));
    assert!(!block.contains("$Host.UI.RawUI 'BackgroundColor'"));
    assert!(block.contains("Remove-Item Alias:ps"));
    assert!(!block.contains("@args | Invoke-Expression"));
    assert!(valid_shortcut_name("workbench"));
}

#[test]
fn block_quotes_the_executable_and_config_files() {
    let block = render_block("C:\\Kris's\\ps.exe", "C:\\cfg");
    assert!(block.starts_with("# >>> ps cli >>>\n# Managed by ps."));
    assert!(block.contains("$script:PsCliPath = 'C:\\Kris''s\\ps.exe'\n"));
    assert!(block.contains("$script:PsCommandsPath = 'C:\\cfg\\commands.json'\n"));
    assert!(block.contains("$script:PsPathsPath = 'C:\\cfg\\paths.json'\n"));
    assert!(block.contains("$script:PsSettingsPath = 'C:\\cfg\\settings.json'\n"));
    assert!(block.ends_with("# <<< ps cli <<<\n"));
    assert_eq!(block.matches(START_MARKER).count(), 1);
    assert_eq!(block.matches(END_MARKER).count(), 1);
}

#[test]
fn installing_twice_changes_nothing_the_second_time() {
    let block = block();
    for existing in ["", "Write-Host 'hi'\n\n\n", "a\n# >>> ps cli >>>\nold\n# <<< ps cli <<<\nb"] {
        let (first, changed) = upsert_profile_block(existing, &block);
        assert!(changed);
        let (second, changed_again) = upsert_profile_block(&first, &block);
        assert_eq!(second, first);
        assert!(!changed_again);
    }
}

#[test]
fn the_rendered_block_holds_one_end_marker() {
    let block = render_block("C:\\Tools\\ps.exe", "C:\\Users\\k\\AppData\\Roaming\\ps");
    assert_eq!(block.matches(END_MARKER).count(), 1);
    assert!(block.trim_end().ends_with(END_MARKER));
}

#[test]
fn appends_after_trimmed_text_with_one_blank_line() {
    assert_eq!(replace_or_append_block("a  \n\n", "B\n\n"), "a\n\nB\n");
    assert_eq!(replace_or_append_block("", "B"), "B\n");
}

#[test]
fn replacing_adds_a_final_line_break() {
    let existing = format!("x{START_MARKER}old{END_MARKER}y");
    assert_eq!(
        replace_or_append_block(&existing, &format!("{START_MARKER}new{END_MARKER}\n\n")),
        format!("x{START_MARKER}new{END_MARKER}y\n")
    );
}

#[test]
fn profile_paths_for_each_shell() {
    assert_eq!(
        profile_paths("C:\\Docs", ShellTarget::All),
        vec![
            "C:\\Docs\\PowerShell\\Microsoft.PowerShell_profile.ps1".to_string(),
            "C:\\Docs\\WindowsPowerShell\\Microsoft.PowerShell_profile.ps1".to_string(),
        ]
    );
    assert_eq!(profile_paths("C:\\Docs\\", ShellTarget::Pwsh).len(), 1);
}

#[test]
fn documents_folder_choice() {
    assert_eq!(documents_dir(Some("  D:\\Docs\r\n"), Some("C:\\home")), Some("D:\\Docs".to_string()));
    assert_eq!(documents_dir(Some("   "), Some("C:\\home")), Some("C:\\home\\Documents".to_string()));
    assert_eq!(documents_dir(None, None), None);
}

#[test]
fn install_reports_each_profile() {
    let results = install(
        ShellTarget::All,
        "C:\\ps.exe",
        "C:\\cfg",
        "C:\\Docs",
        &vec![String::new()],
    );
    assert_eq!(results.len(), 2);
    assert!(results[0].0.changed);
    assert!(results[1].1.ends_with("# <<< ps cli <<<\n"));
    assert_eq!(
        install_line(&InstallResult { path: "p".to_string(), changed: false }),
        "already current: p"
    );
}
