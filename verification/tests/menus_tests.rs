use ps_utils::config::{
    config_dir_from, config_path, home_dir_from, CommandsConfig, ConfigFile, PathsConfig, SavedPath,
    SettingsConfig,
};
use ps_utils::keys::Key;
use ps_utils::loading::{frame, frame_line, next_frame};
use ps_utils::menu::{detail_line, item_line, menu_step, Menu, MenuItem, MenuStep};
use ps_utils::path_menu::{
    menu_items, open_saved_path, path_menu, save_current_path, unique_name, PathMenuItem,
};
use ps_utils::paths::strip_windows_extended_prefix;
use ps_utils::picker::{page_label, picker_step, row_line, Picker, PickerItem, PickerStep};
use ps_utils::quote::ps_quote;
use ps_utils::text::clamp;

#[test]
fn loading_loading_frame_cycles() {
    assert_eq!(frame(0), "[.  ]");
    assert_eq!(frame(1), "[.. ]");
    assert_eq!(frame(2), "[...]");
    assert_eq!(frame(6), "[.  ]");
}

#[test]
fn menu_items_can_hold_details() {
    let item = MenuItem::new("Chocolate")
        .description("Warm menu item")
        .detail("chip Black on DarkYellow");

    assert_eq!(item.label, "Chocolate");
    assert_eq!(item.description.as_deref(), Some("Warm menu item"));
    assert_eq!(item.details, vec!["chip Black on DarkYellow"]);
}

#[test]
fn save_current_is_always_first() {
    let config = PathsConfig {
        version: 1,
        saved: vec![SavedPath {
            name: "repo".to_string(),
            path: "C:\\repo".to_string(),
            last_accessed: 10,
        }],
    };

    assert!(matches!(menu_items(&config)[0], PathMenuItem::SaveCurrent));
}

#[test]
fn saved_paths_sort_by_last_accessed_descending() {
    let config = PathsConfig {
        version: 1,
        saved: vec![
            SavedPath {
                name: "old".to_string(),
                path: "C:\\old".to_string(),
                last_accessed: 1,
            },
            SavedPath {
                name: "new".to_string(),
                path: "C:\\new".to_string(),
                last_accessed: 2,
            },
        ],
    };

    let items = menu_items(&config);
    let PathMenuItem::Saved(saved) = &items[1] else {
        panic!("expected saved path");
    };

    assert_eq!(saved.name, "new");
}

#[test]
fn path_menu_quotes_powershell_literals() {
    assert_eq!(ps_quote("C:\\Kris's Repo"), "'C:\\Kris''s Repo'");
}

#[test]
fn path_menu_strips_windows_extended_path_prefixes() {
    assert_eq!(
        strip_windows_extended_prefix(r"\\?\C:\repo").unwrap(),
        r"C:\repo".to_string()
    );
    assert_eq!(
        strip_windows_extended_prefix(r"\\?\UNC\server\share").unwrap(),
        r"\\server\share".to_string()
    );
}

#[test]
fn picker_item_stores_label_and_detail() {
    let item = PickerItem::new("PID 10", "pwsh");

    assert_eq!(item.label, "PID 10");
    assert_eq!(item.detail, "pwsh");
}

#[test]
fn clamps_long_values() {
    assert_eq!(clamp("abcdef", 5), "ab...");
    assert_eq!(clamp("abc", 5), "abc");
}

fn saved(name: &str, path: &str, last: u64) -> SavedPath {
    SavedPath { name: name.to_string(), path: path.to_string(), last_accessed: last }
}

#[test]
fn unique_names_count_up_from_two() {
    let list = vec![saved("repo", "C:\\a", 1), saved("repo-2", "C:\\b", 1)];
    assert_eq!(unique_name(&list, "repo"), "repo-3");
    assert_eq!(unique_name(&list, "web"), "web");
}

#[test]
fn saving_the_same_path_twice_keeps_one_entry() {
    let mut paths = PathsConfig::default();
    paths.saved.push(saved("repo", "C:\\other\\repo", 1));
    let script = save_current_path(&mut paths, "C:\\Code\\repo", 5, true);
    assert_eq!(script, "Write-Host 'Saved path: C:\\Code\\repo'\n");
    assert_eq!(paths.saved.len(), 2);
    assert_eq!(paths.saved[1].name, "repo-2");
    save_current_path(&mut paths, "c:\\code\\REPO", 9, true);
    assert_eq!(paths.saved.len(), 2);
    assert_eq!(paths.saved[1].last_accessed, 9);
}

#[test]
fn opening_a_saved_path_marks_it_used() {
    let mut paths = PathsConfig::default();
    paths.saved.push(saved("a", "C:\\a", 1));
    let chosen = saved("a", "C:\\a", 1);
    let script = open_saved_path(&mut paths, &chosen, 7, false);
    assert_eq!(script, "Set-Location -LiteralPath 'C:\\a'\n");
    assert_eq!(paths.saved[0].last_accessed, 7);
}

#[test]
fn path_menu_shows_current_path() {
    let config = PathsConfig { version: 1, saved: vec![saved("a", "C:\\a", 1)] };
    let items = menu_items(&config);
    let menu = path_menu(&items, "C:\\here");
    assert_eq!(menu.title(), "@ saved paths");
    assert_eq!(menu.note_text(), Some("Current: C:\\here"));
    assert_eq!(menu.cancel_text(), "path menu canceled");
    assert_eq!(menu.items()[0].details, vec!["C:\\here".to_string()]);
    assert_eq!(item_line(&menu.items()[1], true), format!("> {:<18} C:\\a", "a"));
    assert_eq!(item_line(&menu.items()[0], false), "  Save current path");
    assert_eq!(detail_line("x"), "    x");
}

#[test]
fn menu_keys() {
    assert_eq!(menu_step(0, 3, Key::Up), MenuStep::Selected(0));
    assert_eq!(menu_step(0, 3, Key::Down), MenuStep::Selected(1));
    assert_eq!(menu_step(2, 3, Key::Down), MenuStep::Selected(2));
    assert_eq!(menu_step(0, 3, Key::End), MenuStep::Selected(2));
    assert_eq!(menu_step(1, 3, Key::Enter), MenuStep::Chosen(1));
    assert_eq!(menu_step(1, 3, Key::Esc), MenuStep::Canceled);
    let menu = Menu::new("t", vec![MenuItem::new("a")]).cancel_message("gone");
    assert_eq!(menu.cancel_text(), "gone");
    assert_eq!(menu.help_text(), "Use Up/Down. Enter selects. Esc cancels.");
}

#[test]
fn picker_keys_and_rows() {
    assert_eq!(picker_step(0, 50, Key::PageDown), PickerStep::Selected(20));
    assert_eq!(picker_step(40, 50, Key::PageDown), PickerStep::Selected(49));
    assert_eq!(picker_step(5, 50, Key::PageUp), PickerStep::Selected(0));
    assert_eq!(picker_step(49, 50, Key::Down), PickerStep::Selected(49));
    assert_eq!(picker_step(3, 50, Key::Home), PickerStep::Selected(0));
    assert_eq!(picker_step(3, 50, Key::End), PickerStep::Selected(49));
    assert_eq!(picker_step(3, 50, Key::Enter), PickerStep::Chosen(3));
    assert_eq!(picker_step(3, 50, Key::Ctrl('c')), PickerStep::Closed);
    assert_eq!(page_label(0, 0), "Page 1/1");
    assert_eq!(page_label(1, 41), "Page 2/3");
    let item = PickerItem::new("label", "detail");
    assert_eq!(row_line(&item, 60), format!("{:<20} detail", "label"));
    assert_eq!(row_line(&item, 200), format!("{:<34} detail", "label"));
    let picker = Picker::new("T", "H", vec![item]).help("help");
    assert_eq!(picker.help_text(), "help");
    assert_eq!(picker.items().len(), 1);
}

#[test]
fn loading_line_and_counter() {
    assert_eq!(frame_line("Loading", 5), "Loading [   ]");
    assert_eq!(next_frame(usize::MAX), 0);
    assert_eq!(next_frame(3), 4);
}

#[test]
fn config_locations() {
    assert_eq!(config_path("C:\\cfg", ConfigFile::Commands), "C:\\cfg\\commands.json");
    assert_eq!(config_path("C:\\cfg", ConfigFile::Dir), "C:\\cfg");
    assert_eq!(config_dir_from(Some("C:\\AppData"), Some("x"), None, None), "C:\\AppData\\ps");
    assert_eq!(config_dir_from(None, Some("/xdg"), None, None), "/xdg\\ps");
    assert_eq!(config_dir_from(None, None, Some("/home/k/"), None), "/home/k/.config\\ps");
    assert_eq!(config_dir_from(None, None, None, None), ".\\.config\\ps");
    assert_eq!(home_dir_from(None, Some("/h")), Some("/h".to_string()));
    assert_eq!(home_dir_from(Some("C:\\u"), Some("/h")), Some("C:\\u".to_string()));
    let settings = SettingsConfig::default();
    assert_eq!(settings.version, 1);
    assert!(!settings.short_pwd && !settings.session_history);
    assert_eq!(settings.terminal_history_max_length, 200);
    let paths = PathsConfig::default();
    assert_eq!((paths.version, paths.saved.len()), (1, 0));
    let commands = CommandsConfig::default();
    assert_eq!((commands.version(), commands.len()), (1, 0));
}
