use ps_utils::config::{strip_utf8_bom, CommandsConfig, ShortcutCommand};
use ps_utils::quote::ps_quote;
use ps_utils::shell_module::{
    builtin_commands, command_exports, is_reserved_command, module_dirs, module_file_names,
    render_manifest, render_module,
};
use ps_utils::profile::ShellTarget;
use ps_utils::shortcut::{
    child_args, child_failed_message, emit, emit_run_command, emit_shell, emit_workspace,
    kill_port_target,
    no_listener_message, pids_from_output, plan_run, query_failed_message, stopped_message,
    taskkill_failed_message, valid_shortcut_name, RunAction, ShortcutError,
};

#[test]
fn validates_shortcut_names() {
    assert!(valid_shortcut_name("workbench"));
    assert!(valid_shortcut_name("open-api"));
    assert!(valid_shortcut_name("_secret"));
    assert!(!valid_shortcut_name(""));
    assert!(!valid_shortcut_name("123"));
    assert!(!valid_shortcut_name("bad;name"));
}

#[test]
fn shortcut_quotes_powershell_literals() {
    assert_eq!(ps_quote("C:\\Users\\Kris"), "'C:\\Users\\Kris'");
    assert_eq!(ps_quote("Kris's Repo"), "'Kris''s Repo'");
}

#[test]
fn emits_script_file_shortcuts() {
    let emitted = emit_shell(None, Some("~/tools/start.ps1"), true, &vec!["one".to_string()], None)
        .expect("script path should emit");

    assert!(emitted.contains("$psArgs = @('one')"));
    assert!(emitted.contains("$__psScriptPath = "));
    assert!(emitted.contains("Test-Path -LiteralPath $__psScriptPath"));
    assert!(emitted.contains(". $__psScriptPath @psArgs"));
}

#[test]
fn can_execute_script_files_without_dot_sourcing() {
    let emitted = emit_shell(None, Some("C:\\tools\\start.ps1"), false, &vec![], None)
        .expect("script path should emit");

    assert!(emitted.contains("& $__psScriptPath @psArgs"));
    assert!(!emitted.contains(". $__psScriptPath @psArgs"));
}

#[test]
fn module_exports_builtin_commands() {
    let commands = builtin_commands();
    let module = render_module("C:\\tools\\ps.exe", &commands);

    assert!(module.contains("function ports"));
    assert!(module.contains("function workspaces"));
    assert!(module.contains("function mkcd"));
    assert!(module.contains("$__psExportedCommands = @("));
    assert!(module.contains("Remove-Item -LiteralPath \"Alias:$__psExportedCommand\""));
    assert!(module.contains("Export-ModuleMember -Function"));
    assert!(module.contains("'ports'"));
}

#[test]
fn module_exports_custom_shortcuts() {
    let commands = vec!["ports".to_string(), "serve-api".to_string()];
    let module = render_module("C:\\tools\\ps.exe", &commands);
    let manifest = render_manifest("0.1.0", &commands);

    assert!(module.contains("function serve-api"));
    assert!(module.contains("__psInvokeShortcut 'serve-api' @args"));
    assert!(manifest.contains("'serve-api'"));
}

#[test]
fn reserved_commands_do_not_become_custom_exports() {
    assert!(is_reserved_command("ports"));
    assert!(is_reserved_command("ps"));
    assert!(!is_reserved_command("serve"));
}

#[test]
fn strips_utf8_bom_before_json_parse() {
    let raw = "\u{feff}{\"version\":1,\"commands\":{}}";
    let parsed: serde_json::Value = serde_json::from_str(strip_utf8_bom(raw)).unwrap();

    assert_eq!(parsed["version"], 1);
    assert!(parsed["commands"].as_object().unwrap().is_empty());
}

fn shell(script: Option<&str>, path: Option<&str>) -> ShortcutCommand {
    ShortcutCommand::Shell {
        description: None,
        script: script.map(str::to_string),
        script_path: path.map(str::to_string),
        dot_source: true,
    }
}

#[test]
fn exports_are_sorted_unique_and_skip_reserved_names() {
    let mut config = CommandsConfig::new(1);
    config.insert("serve".to_string(), shell(Some("npm start"), None));
    config.insert("INIT".to_string(), shell(Some("x"), None));
    config.insert("Ports".to_string(), shell(Some("x"), None));
    config.insert("bad name".to_string(), shell(Some("x"), None));
    config.insert("api".to_string(), ShortcutCommand::KillPort { description: None });
    let exports = command_exports(&config);
    let expected: Vec<String> = [
        "api", "compress", "doctor", "envs", "history", "mkcd", "pack", "ports", "processes",
        "procs", "serve", "workspaces", "zip",
    ]
    .iter()
    .map(|s| s.to_string())
    .collect();
    assert_eq!(exports, expected);
}

#[test]
fn manifest_lists_the_version_and_exports() {
    let manifest = render_manifest("1.2.3", &vec!["a".to_string(), "b".to_string()]);
    assert!(manifest.starts_with("@{\n    RootModule = 'PsUtils.psm1'\n    ModuleVersion = '1.2.3'\n"));
    assert!(manifest.contains("GUID = '8d4fa06f-bdbd-49c8-9b8b-3774f8c8f5a3'"));
    assert!(manifest.contains("FunctionsToExport = @('a', 'b')\n"));
    let module = render_module("C:\\ps.exe", &vec!["Doctor".to_string(), "serve".to_string()]);
    assert!(!module.contains("function Doctor"));
    assert!(module.ends_with("Export-ModuleMember -Function @('Doctor', 'serve')\n"));
    assert_eq!(module_file_names(), ("PsUtils.psm1".to_string(), "PsUtils.psd1".to_string()));
    assert_eq!(
        module_dirs("D:\\Docs", ShellTarget::WindowsPowerShell),
        vec!["D:\\Docs\\WindowsPowerShell\\Modules\\PsUtils".to_string()]
    );
}

#[test]
fn sample_config_holds_two_shortcuts() {
    let sample = CommandsConfig::sample();
    assert_eq!(sample.len(), 2);
    assert_eq!(sample.version(), 1);
    assert!(matches!(sample.get("kill-port"), Some(ShortcutCommand::KillPort { .. })));
    match sample.get("repo") {
        Some(ShortcutCommand::Shell { script, dot_source, .. }) => {
            assert_eq!(script.as_deref(), Some("Set-Location -LiteralPath $HOME"));
            assert!(*dot_source);
        }
        _ => panic!("expected the repo shell shortcut"),
    }
    assert!(sample.get("missing").is_none());
}

#[test]
fn insert_replaces_a_shortcut_of_the_same_name() {
    let mut config = CommandsConfig::new(1);
    config.insert("a".to_string(), shell(Some("one"), None));
    config.insert("b".to_string(), shell(Some("two"), None));
    config.insert("a".to_string(), shell(Some("three"), None));
    assert_eq!(config.len(), 2);
    assert_eq!(config.entry(0).0, "a");
    match config.get("a") {
        Some(ShortcutCommand::Shell { script, .. }) => assert_eq!(script.as_deref(), Some("three")),
        _ => panic!("expected a shell shortcut"),
    }
}

#[test]
fn emit_reports_invalid_and_unknown_names() {
    let config = CommandsConfig::new(1);
    assert_eq!(
        emit("bad;name", &vec![], &config, "C:\\ps.exe", None).unwrap(),
        "Write-Error '''bad;name'' is not a valid shortcut name'"
    );
    assert_eq!(
        emit("nope", &vec![], &config, "C:\\ps.exe", None).unwrap(),
        "Write-Error 'shortcut ''nope'' was not found'"
    );
}

#[test]
fn emit_runs_each_kind_of_shortcut() {
    let mut config = CommandsConfig::new(1);
    config.insert("kill".to_string(), ShortcutCommand::KillPort { description: None });
    config.insert(
        "api".to_string(),
        ShortcutCommand::Workspace {
            description: None,
            path: "~".to_string(),
            open_windows: vec![],
        },
    );
    config.insert("empty".to_string(), shell(None, None));
    config.insert("serve".to_string(), shell(Some("npm run dev"), None));
    let args = vec!["3000".to_string()];
    assert_eq!(
        emit("kill", &args, &config, "C:\\ps.exe", None).unwrap(),
        "& 'C:\\ps.exe' run 'kill' '3000'"
    );
    assert_eq!(
        emit("api", &args, &config, "C:\\ps.exe", Some("C:\\Users\\k")).unwrap(),
        "Set-Location -LiteralPath 'C:\\Users\\k'\n"
    );
    assert!(matches!(
        emit("empty", &args, &config, "C:\\ps.exe", None),
        Err(ShortcutError::EmptyShell)
    ));
    assert_eq!(
        emit("serve", &args, &config, "C:\\ps.exe", None).unwrap(),
        "$psArgs = @('3000')\nnpm run dev\n"
    );
}

#[test]
fn run_command_without_arguments() {
    assert_eq!(emit_run_command("k", &vec![], "ps"), "& 'ps' run 'k'");
    assert_eq!(
        emit_run_command("k", &vec!["a b".to_string(), "it's".to_string()], "ps"),
        "& 'ps' run 'k' 'a b' 'it''s'"
    );
}

#[test]
fn workspace_shortcut_opens_extra_windows() {
    let script = emit_workspace("C:\\a", &vec!["~\\b".to_string()], Some("C:\\h"));
    assert!(script.starts_with("Set-Location -LiteralPath 'C:\\a'\n$__psShell = "));
    assert!(script.ends_with(
        "Start-Process -FilePath $__psShell -ArgumentList @('-NoExit', '-Command', 'Set-Location -LiteralPath ''C:\\h\\b''')\n"
    ));
}

#[test]
fn shell_shortcut_runs_file_then_script() {
    let emitted = emit_shell(Some("echo hi"), Some("~/s.ps1"), true, &vec![], Some("C:\\h")).unwrap();
    assert_eq!(
        emitted,
        "$psArgs = @()\n$__psScriptPath = 'C:\\h\\s.ps1'\nif (-not (Test-Path -LiteralPath $__psScriptPath)) {\n    throw \"ps script file not found: $__psScriptPath\"\n}\n. $__psScriptPath @psArgs\necho hi\n"
    );
    assert_eq!(
        ShortcutError::EmptyShell.message(),
        "shell shortcut must define script, script_path, or both"
    );
}

#[test]
fn run_plans_and_errors() {
    let mut config = CommandsConfig::new(1);
    config.insert("kill".to_string(), ShortcutCommand::KillPort { description: None });
    config.insert("serve".to_string(), shell(Some("x"), None));
    config.insert("empty".to_string(), shell(None, None));
    config.insert(
        "api".to_string(),
        ShortcutCommand::Workspace {
            description: None,
            path: "~\\api".to_string(),
            open_windows: vec![],
        },
    );
    let args = vec!["a'b".to_string()];
    assert_eq!(plan_run("kill", &args, &config, None).unwrap(), RunAction::KillPort);
    assert_eq!(
        plan_run("serve", &args, &config, None).unwrap(),
        RunAction::Script("$psArgs = @('a''b')\nx\n".to_string())
    );
    assert_eq!(
        plan_run("api", &vec![], &config, Some("C:\\Users\\k")).unwrap(),
        RunAction::Script("Set-Location -LiteralPath 'C:\\Users\\k\\api'\n".to_string())
    );
    assert!(matches!(plan_run("empty", &vec![], &config, None), Err(ShortcutError::EmptyShell)));
    assert_eq!(
        child_args("Get-Date"),
        vec!["-NoProfile".to_string(), "-Command".to_string(), "Get-Date".to_string()]
    );
    assert_eq!(child_failed_message("serve", "exit code: 1"), "shortcut 'serve' exited with exit code: 1");
    match plan_run("9x", &vec![], &config, None) {
        Err(e) => assert_eq!(e.message(), "'9x' is not a valid shortcut name"),
        Ok(_) => panic!("expected an error"),
    }
    match plan_run("nope", &vec![], &config, None) {
        Err(e) => assert_eq!(
            e.message(),
            "shortcut 'nope' was not found. Run `ps commands` to edit shortcuts."
        ),
        Ok(_) => panic!("expected an error"),
    }
}

#[test]
fn kill_port_arguments_and_messages() {
    assert!(matches!(kill_port_target(&vec![]), Err(ShortcutError::MissingPort)));
    assert_eq!(kill_port_target(&vec!["+80".to_string()]).unwrap(), 80);
    match kill_port_target(&vec!["70000".to_string()]) {
        Err(e) => assert_eq!(e.message(), "'70000' is not a valid TCP port"),
        Ok(_) => panic!("expected an error"),
    }
    assert_eq!(ShortcutError::MissingPort.message(), "usage: kill <port>");
    assert_eq!(no_listener_message(80), "No process is listening on port 80.");
    assert_eq!(stopped_message(12, 80), "Stopped PID 12 on port 80.");
    assert_eq!(
        taskkill_failed_message("exit code: 1", 12),
        "taskkill exited with exit code: 1 for PID 12."
    );
    assert_eq!(query_failed_message(80, "  "), "PowerShell failed while querying port 80");
    assert_eq!(
        query_failed_message(80, " boom\n"),
        "PowerShell failed while querying port 80: boom"
    );
}

#[test]
fn process_ids_from_query_output() {
    assert_eq!(pids_from_output("12\r\n\r\n 7 \n12\n").unwrap(), vec![12, 7]);
    match pids_from_output("12\nabc\n") {
        Err(e) => assert_eq!(e.message(), "PowerShell returned an invalid PID: abc"),
        Ok(_) => panic!("expected an error"),
    }
}
