use ps_utils::archive::{
    archive_base_name, archive_file_name, archive_steps, unique_archive_path, DirEntryInfo, EntryKind,
};
use ps_utils::doctor::{
    check_line, count_level, level_label, ok, path_check, profile_check, saved_paths_check,
    summary, warn, CheckLevel, ExeLocation, FileRead,
};
use ps_utils::envs::{assignment, env_rows, EnvRow};
use ps_utils::history::{history_rows, is_history_file, plain_line, HistoryEntry, HistoryFile};
use ps_utils::num::{decimal, parse_u16};
use ps_utils::paths::{
    clean_process_name, expand_path, file_name, join_path, prefix_length, zip_entry_name,
};
use ps_utils::procs::{
    kill_result, lowered_title_matches, process_detail, process_info, process_label, process_rows,
    process_title_matches, ProcessRow, RawProcess,
};
use ps_utils::quote::{ps_array, ps_quote};
use std::path::Path;

#[test]
fn uses_forward_slashes_for_zip_entries() {
    assert_eq!(
        zip_entry_name(Path::new("nested").join("file.txt").to_str().unwrap()),
        "nested/file.txt"
    );
}

#[test]
fn labels_check_levels() {
    assert_eq!(level_label(CheckLevel::Okay), "OK");
    assert_eq!(level_label(CheckLevel::Warn), "WARN");
    assert_eq!(level_label(CheckLevel::Error), "ERROR");
}

#[test]
fn default_history_file_is_empty() {
    assert!(HistoryFile::default().commands.is_empty());
}

#[test]
fn clean_process_name_removes_extension() {
    assert_eq!(clean_process_name("pwsh.exe"), "pwsh");
}

#[test]
fn process_detail_includes_title_when_present() {
    let row = ProcessRow {
        pid: 1,
        name: "app".to_string(),
        title: "Project Window".to_string(),
        memory_mb: 10,
        path: "C:\\app.exe".to_string(),
    };

    assert!(process_detail(&row).contains("Project Window"));
}

#[test]
fn title_filter_matches_visible_process_name_when_window_title_is_empty() {
    assert!(process_title_matches("MusicApp", "", "music"));
    assert!(lowered_title_matches("musicapp", "", "music"));
    assert!(!lowered_title_matches("helper", "", "project"));
    assert!(lowered_title_matches("helper", "project window", "project"));
    assert!(ps_utils::text::lowered_pair_matches("cargo", "c:\\b", "o c:"));
    assert!(!ps_utils::text::lowered_pair_matches("cargo", "c:\\b", "Cargo"));
    assert!(process_title_matches("helper", "Project Window", "project"));
    assert!(!process_title_matches("helper", "", "project"));
}

#[test]
fn history_files_are_json_files() {
    assert!(is_history_file("2024-01-01.json"));
    assert!(is_history_file("a.b.json"));
    assert!(!is_history_file(".json"));
    assert!(!is_history_file("notes.txt"));
    assert!(!is_history_file("json"));
    assert!(!is_history_file("a.JSON"));
    assert!(!is_history_file("a.json.bak"));
}

fn entry(command: &str, path: &str, timestamp: u64) -> HistoryEntry {
    HistoryEntry { command: command.to_string(), path: path.to_string(), timestamp }
}

#[test]
fn history_is_newest_first_without_repeats() {
    let rows = history_rows(
        vec![
            entry("ls", "C:\\a", 1),
            entry("cargo build", "C:\\a", 3),
            entry("cargo build", "C:\\a", 3),
            entry("  ", "C:\\a", 9),
            entry("Cargo test", "C:\\B", 2),
            entry("ls", "C:\\b", 1),
        ],
        None,
    );
    let got: Vec<(String, u64)> = rows.iter().map(|r| (r.command.clone(), r.timestamp)).collect();
    assert_eq!(
        got,
        vec![
            ("cargo build".to_string(), 3),
            ("Cargo test".to_string(), 2),
            ("ls".to_string(), 1),
            ("ls".to_string(), 1),
        ]
    );
    let filtered = history_rows(vec![entry("Cargo test", "C:\\B", 2), entry("ls", "C:\\a", 1)], Some("CARGO"));
    assert_eq!(filtered.len(), 1);
    let by_path = history_rows(vec![entry("ls", "C:\\Repo", 1)], Some("repo"));
    assert_eq!(by_path.len(), 1);
    assert_eq!(plain_line(&by_path[0]), format!("{:<12} {:<48} C:\\Repo", 1, "ls"));
}

#[test]
fn environment_rows_are_filtered_and_sorted() {
    let rows = env_rows(
        vec![
            ("PATH".to_string(), "C:\\bin".to_string()),
            ("HOME".to_string(), "C:\\Users\\k".to_string()),
            ("EDITOR".to_string(), "vim".to_string()),
        ],
        Some("c:"),
    );
    let keys: Vec<&str> = rows.iter().map(|r| r.key.as_str()).collect();
    assert_eq!(keys, vec!["HOME", "PATH"]);
    assert_eq!(assignment(&EnvRow { key: "A".to_string(), value: "b".to_string() }), "A=b");
}

fn raw(pid: u32, name: &str, memory_mb: u64) -> RawProcess {
    RawProcess { pid, name: name.to_string(), exe: None, memory: memory_mb * 1024 * 1024 + 5 }
}

#[test]
fn process_rows_sort_by_memory_then_name_then_pid() {
    let rows = process_rows(
        vec![raw(3, "b.exe", 10), raw(2, "a.exe", 10), raw(1, "a.exe", 10), raw(4, "z", 50)],
        &vec![],
        None,
        None,
    );
    let pids: Vec<u32> = rows.iter().map(|r| r.pid).collect();
    assert_eq!(pids, vec![4, 1, 2, 3]);
    assert_eq!(rows[0].memory_mb, 50);
    assert_eq!(rows[1].name, "a");
}

#[test]
fn process_rows_filter_by_name_and_title() {
    let titles = vec![(2, "Project Window".to_string())];
    let rows = process_rows(vec![raw(1, "Code.exe", 1), raw(2, "helper", 1)], &titles, None, Some("PROJECT"));
    assert_eq!(rows.len(), 1);
    assert_eq!(rows[0].title, "Project Window");
    let untitled = process_rows(vec![raw(2, "helper", 1)], &titles, Some("help"), None);
    assert_eq!(untitled[0].title, "");
}

#[test]
fn process_texts() {
    let row = ProcessRow { pid: 42, name: "app".to_string(), title: String::new(), memory_mb: 7, path: String::new() };
    assert_eq!(process_label(&row), "     42      7 MB");
    assert_eq!(process_detail(&row), "app  ");
    assert_eq!(
        process_info(&row),
        vec!["PID: 42", "Name: app", "Memory: 7 MB", "Path: (unknown)"]
    );
    assert_eq!(kill_result(42, "kill", None), "Stopped PID 42.");
    assert_eq!(
        kill_result(42, "taskkill", Some("exit code: 1")),
        "Failed to stop PID 42: taskkill exited with exit code: 1."
    );
}

#[test]
fn doctor_lines_and_counts() {
    let checks = vec![ok("a", "fine"), warn("b", "hmm"), warn("c", "hmm")];
    assert_eq!(check_line(&checks[0]), format!("[OK] {:<22} fine", "a"));
    assert_eq!(count_level(&checks, CheckLevel::Warn), 2);
    assert_eq!(count_level(&checks, CheckLevel::Error), 0);
    assert_eq!(summary(0, 2), "0 errors, 2 warnings");
    let c = profile_check("p.ps1", &FileRead::Text("x".to_string()));
    assert_eq!(c.level, CheckLevel::Warn);
    assert_eq!(c.message, "missing ps block in p.ps1");
    let c = profile_check("p.ps1", &FileRead::Text("# >>> ps cli >>>\n# <<< ps cli <<<".to_string()));
    assert_eq!(c.level, CheckLevel::Okay);
    let c = profile_check("p.ps1", &FileRead::Failed("denied".to_string()));
    assert_eq!(c.level, CheckLevel::Error);
    assert_eq!(c.message, "p.ps1: denied");
    assert_eq!(saved_paths_check(3).message, "3 saved paths are missing");
    assert_eq!(path_check(&ExeLocation::Dir("C:\\bin".to_string()), false).message, "C:\\bin is not in PATH");
}

#[test]
fn chooses_a_new_archive_name_without_overwriting() {
    let root = "C:\\Temp\\ps-archive-test-names";
    let base = archive_base_name(root);
    let existing = vec![format!("{base}.zip")];

    let destination = unique_archive_path(root, &existing, false);

    assert_eq!(
        Path::new(&destination.replace('\\', "/")).file_name().unwrap().to_string_lossy(),
        format!("{base}-2.zip")
    );
}

#[test]
fn archive_names_skip_existing_entries() {
    assert_eq!(archive_base_name("C:\\work\\site"), "site");
    assert_eq!(archive_base_name("C:\\"), "archive");
    assert_eq!(archive_file_name("site", 1), "site.zip");
    assert_eq!(archive_file_name("site", 2), "site-2.zip");
    let existing = vec!["site.zip".to_string(), "notes.txt".to_string()];
    assert_eq!(unique_archive_path("C:\\work\\site", &existing, false), "C:\\work\\site\\site-2.zip");
    assert_eq!(unique_archive_path("C:\\work\\site", &vec![], false), "C:\\work\\site\\site.zip");
    let upper = vec!["SITE.zip".to_string(), "Site-2.ZIP".to_string()];
    assert_eq!(unique_archive_path("C:\\work\\site", &upper, true), "C:\\work\\site\\site-3.zip");
    assert_eq!(unique_archive_path("C:\\work\\site", &upper, false), "C:\\work\\site\\site.zip");
}

#[test]
fn numbers_round_trip() {
    assert_eq!(decimal(0), "0");
    assert_eq!(decimal(65535), "65535");
    assert_eq!(parse_u16("65535"), Some(65535));
    assert_eq!(parse_u16("65536"), None);
    assert_eq!(parse_u16(""), None);
}

#[test]
fn quoting_doubles_single_quotes() {
    assert_eq!(ps_quote(""), "''");
    assert_eq!(ps_quote("''"), "''''''");
    assert_eq!(ps_array(&vec!["a".to_string(), "b'c".to_string()]), "'a', 'b''c'");
}

#[test]
fn file_names_skip_windows_prefixes() {
    assert_eq!(file_name("\\\\s\\h"), None);
    assert_eq!(file_name("\\\\s\\h\\x"), Some("x".to_string()));
    assert_eq!(file_name("C:foo"), Some("foo".to_string()));
    assert_eq!(file_name("C:"), None);
    assert_eq!(file_name("C:\\work\\site\\."), Some("site".to_string()));
    assert_eq!(file_name("C:\\work\\.."), None);
    assert_eq!(file_name("\\\\?\\C:\\a\\."), None);
    assert_eq!(file_name("\\\\?\\C:\\a/b"), Some("a/b".to_string()));
    assert_eq!(file_name("\\\\?\\UNC\\srv\\share"), None);
    assert_eq!(archive_base_name("\\\\s\\h"), "archive");
    assert_eq!(archive_base_name("\\\\s\\h\\proj"), "proj");
}

#[test]
fn prefixes_have_their_windows_lengths() {
    assert_eq!(prefix_length("C:\\x"), 2);
    assert_eq!(prefix_length("\\\\server\\share\\x"), 14);
    assert_eq!(prefix_length("\\\\server"), 0);
    assert_eq!(prefix_length("\\\\.\\COM1\\x"), 8);
    assert_eq!(prefix_length("\\\\?\\C:\\x"), 6);
    assert_eq!(prefix_length("\\\\?\\UNC\\srv\\sh\\x"), 14);
    assert_eq!(prefix_length("relative\\x"), 0);
}

#[test]
fn joins_like_windows_paths() {
    assert_eq!(join_path("C:\\a", "b"), "C:\\a\\b");
    assert_eq!(join_path("C:\\a\\", "b"), "C:\\a\\b");
    assert_eq!(join_path("C:\\a", "/b"), "C:/b");
    assert_eq!(join_path("C:\\a", "\\b"), "C:\\b");
    assert_eq!(join_path("C:\\a", "D:\\x"), "D:\\x");
    assert_eq!(join_path("C:", "x"), "C:x");
    assert_eq!(join_path("", "x"), "x");
    assert_eq!(join_path("\\\\srv\\sh\\a", "\\b"), "\\\\srv\\sh\\b");
    assert_eq!(join_path("\\\\?\\C:\\a\\b", "..\\c"), "\\\\?\\C:\\a\\c");
    assert_eq!(join_path("\\\\?\\C:\\a", "./x/y"), "\\\\?\\C:\\a\\x\\y");
    assert_eq!(join_path("\\\\?\\C:\\a\\\\b\\", "c"), "\\\\?\\C:\\a\\b\\c");
    assert_eq!(join_path("\\\\?\\C:\\a", "\\x"), "\\\\?\\C:\\x");
    assert_eq!(join_path("\\\\?\\C:", "x"), "\\\\?\\C:\\x");
    assert_eq!(join_path("\\\\?\\C:\\.\\..", ".."), "\\\\?\\C:\\.\\..");
    assert_eq!(expand_path("~//x", Some("C:\\h")), "C:/x");
    assert_eq!(expand_path("~/x", Some("C:\\h")), "C:\\h\\x");
    assert_eq!(expand_path("~", Some("C:\\h")), "C:\\h");
    assert_eq!(expand_path("~/x", None), "~/x");
}

fn dir_entry(name: &str, kind: EntryKind, excluded: bool) -> DirEntryInfo {
    DirEntryInfo { name: name.to_string(), kind, excluded }
}

#[test]
fn archives_entries_by_name_without_links_or_excluded_paths() {
    let entries = vec![
        dir_entry("b.txt", EntryKind::File, false),
        dir_entry("site.zip", EntryKind::File, true),
        dir_entry("a", EntryKind::Directory, false),
        dir_entry("link", EntryKind::Symlink, false),
        dir_entry("B.txt", EntryKind::File, false),
        dir_entry("pipe", EntryKind::Other, false),
    ];
    let steps = archive_steps("", &entries);
    let seen: Vec<(usize, bool, String, String)> = steps
        .into_iter()
        .map(|s| (s.index, s.directory, s.entry, s.relative))
        .collect();
    assert_eq!(
        seen,
        vec![
            (4, false, "B.txt".to_string(), "B.txt".to_string()),
            (2, true, "a".to_string(), "a".to_string()),
            (0, false, "b.txt".to_string(), "b.txt".to_string()),
        ]
    );
    let nested = archive_steps("a\\b", &vec![dir_entry("c.txt", EntryKind::File, false)]);
    assert_eq!(nested.len(), 1);
    assert_eq!(nested[0].entry, "a/b/c.txt");
    assert_eq!(nested[0].relative, "a\\b\\c.txt");
}
