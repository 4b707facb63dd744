use std::collections::BTreeSet;

use ps_utils::keys::Key;
use ps_utils::paths::strip_windows_extended_prefix;
use ps_utils::quote::ps_quote;
use ps_utils::workspaces::{
    default_workspace_name, event_message, list_header, list_line, main_entry_text,
    main_menu_step, name_box, open_workspace, remove_workspace, selected_tab_paths,
    sort_workspaces, tab_candidates_from_sessions, tab_entry_text, tab_page_label,
    toggle_text, upsert_workspace, validate_workspace_name, workspace_from_args,
    workspace_from_tabs, workspace_script, AddWorkspaceArgs, MainMenuStep, MainSelection,
    NameInput, NameStep, SavedWorkspace, SessionSnapshot, TabCandidate, TabMenu, TabMenuStep,
    WorkspaceError, WorkspaceEvent, WorkspacesConfig,
};

#[test]
fn sorts_workspaces_by_last_accessed() {
    let mut workspaces = vec![
        SavedWorkspace {
            name: "old".to_string(),
            last_accessed: 1,
            ..SavedWorkspace::default()
        },
        SavedWorkspace {
            name: "new".to_string(),
            last_accessed: 2,
            ..SavedWorkspace::default()
        },
    ];

    sort_workspaces(&mut workspaces);
    assert_eq!(workspaces[0].name, "new");
}

#[test]
fn upserts_workspaces_by_name() {
    let mut config = WorkspacesConfig::default();
    assert!(!upsert_workspace(
        &mut config,
        SavedWorkspace {
            name: "api".to_string(),
            path: "C:\\old".to_string(),
            ..SavedWorkspace::default()
        },
    ));
    assert!(upsert_workspace(
        &mut config,
        SavedWorkspace {
            name: "API".to_string(),
            path: "C:\\new".to_string(),
            ..SavedWorkspace::default()
        },
    ));

    assert_eq!(config.workspaces.len(), 1);
    assert_eq!(config.workspaces[0].path, "C:\\new");
}

#[test]
fn workspace_script_sets_location() {
    let workspace = SavedWorkspace {
        name: "repo".to_string(),
        path: "C:\\repo".to_string(),
        ..SavedWorkspace::default()
    };

    let script = workspace_script(&workspace, None);
    assert!(script.contains("Set-Location -LiteralPath 'C:\\repo'"));
}

#[test]
fn tab_candidates_keep_current_first_and_sort_open_sessions() {
    let sessions = vec![
        SessionSnapshot {
            pid: 22,
            path: "C:\\web".to_string(),
            updated_at: 2,
            status: "open".to_string(),
        },
        SessionSnapshot {
            pid: 33,
            path: "C:\\api".to_string(),
            updated_at: 3,
            status: "open".to_string(),
        },
        SessionSnapshot {
            pid: 44,
            path: "C:\\closed".to_string(),
            updated_at: 4,
            status: "closed".to_string(),
        },
    ];
    let open_pids = BTreeSet::from([22, 33]);

    let tabs = tab_candidates_from_sessions("C:\\repo", &sessions, &open_pids, 100, false);

    assert_eq!(tabs[0].path, "C:\\repo");
    assert!(tabs[0].current);
    assert_eq!(tabs[1].path, "C:\\api");
    assert_eq!(tabs[2].path, "C:\\web");
    assert_eq!(tabs.len(), 3);
}

#[test]
fn selected_tab_paths_preserve_order() {
    let tabs = vec![
        TabCandidate {
            label: "Current Tab".to_string(),
            path: "C:\\repo".to_string(),
            updated_at: 0,
            current: true,
        },
        TabCandidate {
            label: "web".to_string(),
            path: "C:\\web".to_string(),
            updated_at: 0,
            current: false,
        },
    ];

    assert_eq!(
        selected_tab_paths(&tabs, &[true, false]),
        vec!["C:\\repo".to_string()]
    );
    assert_eq!(
        selected_tab_paths(&tabs, &[false, true]),
        vec!["C:\\web".to_string()]
    );
}

#[test]
fn default_workspace_name_uses_first_path_leaf() {
    assert_eq!(
        default_workspace_name(&["C:\\Users\\krisp\\repo".to_string()]),
        "repo"
    );
}

#[test]
fn workspaces_quotes_powershell_literals() {
    assert_eq!(ps_quote("Kris's Repo"), "'Kris''s Repo'");
}

#[test]
fn workspaces_strips_windows_extended_path_prefixes() {
    assert_eq!(
        strip_windows_extended_prefix(r"\\?\C:\repo").unwrap(),
        r"C:\repo".to_string()
    );
    assert_eq!(
        strip_windows_extended_prefix(r"\\?\UNC\server\share").unwrap(),
        r"\\server\share".to_string()
    );
}

fn named(name: &str, path: &str, last: u64) -> SavedWorkspace {
    SavedWorkspace {
        name: name.to_string(),
        path: path.to_string(),
        last_accessed: last,
        ..SavedWorkspace::default()
    }
}

#[test]
fn upsert_then_lookup_finds_the_new_entry() {
    let mut config = WorkspacesConfig::default();
    upsert_workspace(&mut config, named("web", "C:\\web", 1));
    upsert_workspace(&mut config, named("API", "C:\\api", 2));
    upsert_workspace(&mut config, named("api", "C:\\api2", 3));
    assert_eq!(config.workspaces.len(), 2);
    let script = open_workspace(&mut config, "Api", 9, None).unwrap();
    assert!(script.starts_with("Set-Location -LiteralPath 'C:\\api2'"));
    assert_eq!(config.workspaces[1].last_accessed, 9);
}

#[test]
fn removing_a_workspace_removes_every_case_variant() {
    let mut config = WorkspacesConfig::default();
    config.workspaces.push(named("api", "C:\\a", 1));
    config.workspaces.push(named("web", "C:\\w", 1));
    config.workspaces.push(named("API", "C:\\b", 1));
    assert!(remove_workspace(&mut config, "Api").is_ok());
    assert_eq!(config.workspaces.len(), 1);
    assert_eq!(config.workspaces[0].name, "web");
    match remove_workspace(&mut config, "api") {
        Err(WorkspaceError::NotFound(n)) => assert_eq!(n, "api"),
        _ => panic!("expected not found"),
    }
    assert_eq!(
        WorkspaceError::NotFound("api".to_string()).message(),
        "workspace 'api' was not found"
    );
}

#[test]
fn opening_an_unknown_workspace_fails() {
    let mut config = WorkspacesConfig::default();
    assert!(open_workspace(&mut config, "nothing", 1, None).is_err());
}

#[test]
fn blank_names_are_rejected() {
    assert!(validate_workspace_name("  ").is_err());
    assert!(validate_workspace_name("api").is_ok());
    assert_eq!(
        WorkspaceError::EmptyName.message(),
        "workspace name cannot be empty"
    );
}

#[test]
fn workspace_script_runs_commands_and_opens_windows() {
    let workspace = SavedWorkspace {
        name: "suite".to_string(),
        path: "~/suite".to_string(),
        open_paths: vec!["C:\\suite\\api".to_string()],
        commands: vec!["npm run dev".to_string(), "   ".to_string()],
        last_accessed: 0,
    };
    let script = workspace_script(&workspace, Some("C:\\Users\\kris"));
    assert_eq!(
        script,
        "Set-Location -LiteralPath 'C:\\Users\\kris\\suite'\nnpm run dev\n$__psShell = (Get-Command pwsh -ErrorAction SilentlyContinue).Source\nif (-not $__psShell) { $__psShell = (Get-Command powershell -ErrorAction SilentlyContinue).Source }\nif (-not $__psShell) { throw 'Could not find pwsh or powershell to open workspace windows.' }\nStart-Process -FilePath $__psShell -ArgumentList @('-NoExit', '-Command', 'Set-Location -LiteralPath ''C:\\suite\\api''')\n"
    );
}

#[test]
fn workspace_from_args_strips_prefixes() {
    let args = AddWorkspaceArgs {
        name: "api".to_string(),
        path: None,
        open_paths: vec![r"\\?\C:\extra".to_string()],
        commands: vec!["ls".to_string()],
    };
    let w = workspace_from_args(args, r"\\?\C:\api", 5).unwrap();
    assert_eq!(w.path, "C:\\api");
    assert_eq!(w.open_paths, vec!["C:\\extra".to_string()]);
    assert_eq!(w.last_accessed, 5);
}

#[test]
fn workspace_from_tabs_uses_first_path() {
    let paths = vec!["C:\\a".to_string(), "C:\\b".to_string()];
    let w = workspace_from_tabs("mine", &paths, 7).unwrap();
    assert_eq!(w.path, "C:\\a");
    assert_eq!(w.open_paths, vec!["C:\\b".to_string()]);
    assert!(workspace_from_tabs(" ", &paths, 7).is_err());
}

#[test]
fn tab_candidates_drop_repeated_and_current_paths() {
    let sessions = vec![
        SessionSnapshot { pid: 0, path: "C:\\Repo".to_string(), updated_at: 5, status: "OPEN".to_string() },
        SessionSnapshot { pid: 0, path: "C:\\web".to_string(), updated_at: 1, status: "open".to_string() },
        SessionSnapshot { pid: 0, path: r"\\?\C:\WEB".to_string(), updated_at: 9, status: "open".to_string() },
        SessionSnapshot { pid: 5, path: "C:\\gone".to_string(), updated_at: 9, status: "open".to_string() },
    ];
    let tabs = tab_candidates_from_sessions("C:\\repo", &sessions, &BTreeSet::new(), 100, true);
    assert_eq!(tabs.len(), 2);
    assert_eq!(tabs[1].path, "C:\\web");
    assert_eq!(tabs[1].label, "web");
    assert_eq!(tabs[0].updated_at, 100);
}

#[test]
fn main_menu_keys() {
    assert_eq!(main_menu_step(0, 2, Key::Down), MainMenuStep::Selected(1));
    assert_eq!(main_menu_step(2, 2, Key::Down), MainMenuStep::Selected(2));
    assert_eq!(main_menu_step(0, 2, Key::Up), MainMenuStep::Selected(0));
    assert_eq!(main_menu_step(1, 2, Key::End), MainMenuStep::Selected(2));
    assert_eq!(main_menu_step(0, 2, Key::Enter), MainMenuStep::Chosen(MainSelection::SaveNew));
    assert_eq!(main_menu_step(2, 2, Key::Enter), MainMenuStep::Chosen(MainSelection::Open(1)));
    assert_eq!(main_menu_step(1, 2, Key::Ctrl('c')), MainMenuStep::Closed);
}

fn tab(path: &str) -> TabCandidate {
    TabCandidate { label: path.to_string(), path: path.to_string(), updated_at: 0, current: false }
}

#[test]
fn tab_menu_toggles_and_confirms() {
    let tabs: Vec<TabCandidate> = (0..20).map(|i| tab(&format!("C:\\t{i}"))).collect();
    let mut menu = TabMenu::new(tabs.len());
    assert!(matches!(menu.step(Key::Down, &tabs), TabMenuStep::Continue));
    assert!(matches!(menu.step(Key::Char(' '), &tabs), TabMenuStep::Continue));
    assert!(!menu.enabled()[0]);
    menu.step(Key::Ctrl(' '), &tabs);
    assert!(menu.enabled()[0]);
    menu.step(Key::Ctrl(' '), &tabs);
    assert!(!menu.enabled()[0]);
    assert!(matches!(menu.step(Key::PageDown, &tabs), TabMenuStep::Continue));
    assert_eq!(menu.selected(), 17);
    assert_eq!(menu.page(), 1);
    assert!(matches!(menu.step(Key::Home, &tabs), TabMenuStep::Continue));
    assert_eq!(menu.page(), 1);
    match menu.step(Key::Enter, &tabs) {
        TabMenuStep::Done(paths) => {
            assert_eq!(paths.len(), 19);
            assert_eq!(paths[0], "C:\\t1");
        }
        _ => panic!("expected the chosen paths"),
    }
    assert!(matches!(menu.step(Key::Esc, &tabs), TabMenuStep::Canceled));
}

#[test]
fn tab_menu_does_not_confirm_without_tabs() {
    let tabs = vec![tab("C:\\only")];
    let mut menu = TabMenu::new(1);
    menu.step(Key::Down, &tabs);
    menu.step(Key::Enter, &tabs);
    menu.step(Key::Up, &tabs);
    assert!(matches!(menu.step(Key::Enter, &tabs), TabMenuStep::Continue));
}

#[test]
fn name_input_edits_and_confirms() {
    let mut input = NameInput::new("repo");
    assert!(matches!(input.step(Key::Backspace), NameStep::Continue));
    assert_eq!(input.value(), "rep");
    input.step(Key::Char('x'));
    input.step(Key::Char('\u{7}'));
    assert_eq!(input.value(), "repx");
    input.step(Key::Ctrl('u'));
    assert_eq!(input.value(), "");
    assert!(matches!(input.step(Key::Enter), NameStep::Continue));
    input.step(Key::Char(' '));
    input.step(Key::Char('a'));
    match input.step(Key::Enter) {
        NameStep::Done(name) => assert_eq!(name, "a"),
        _ => panic!("expected a name"),
    }
    assert!(matches!(input.step(Key::Esc), NameStep::Canceled));
    let mut long = NameInput::new(&"x".repeat(64));
    long.step(Key::Char('y'));
    assert_eq!(long.value().chars().count(), 64);
}

#[test]
fn menu_texts() {
    let w = SavedWorkspace {
        name: "api".to_string(),
        path: "C:\\api".to_string(),
        open_paths: vec!["C:\\x".to_string()],
        commands: vec!["ls".to_string()],
        last_accessed: 0,
    };
    assert_eq!(
        main_entry_text(&w, 100),
        format!("{:<24} {}  tabs: 3", "api", "C:\\api")
    );
    assert_eq!(list_header(), format!("{:<24} {:<56} Extras", "Name", "Path"));
    assert_eq!(list_line(&w), format!("{:<24} {:<56} 2", "api", "C:\\api"));
    assert_eq!(tab_entry_text(&tab("C:\\a"), 100), format!("{:<16} C:\\a  ", "C:\\a"));
    assert_eq!(toggle_text(true), "[ Enabled ]");
    assert_eq!(toggle_text(false), "[ Disabled ]");
    assert_eq!(tab_page_label(0, 17), "Page 1/2");
    assert_eq!(tab_page_label(0, 0), "Page 1/1");
    assert_eq!(name_box(""), "[   ]");
    assert_eq!(event_message(WorkspaceEvent::Updated, "api"), "Updated workspace 'api'.");
}
