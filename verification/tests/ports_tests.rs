use ps_utils::keys::Key;
use ps_utils::loading::frame;
use ps_utils::netstat::{
    display_from_cased, display_tcp_state, parse_netstat_line, state_matches_shown, tcp_state_matches,
};
use ps_utils::ports::{netstat_rows, sort_rows, PortQuery, PortRow, PortsArgs, PortsSort};
use ps_utils::ports_menu::ports_title;
use ps_utils::ports_menu::{detail_lines, detail_step, DetailStep, Focus, PortsKeyOutcome, PortsMenu};

fn row(port: u16, state: &str, remote: &str, pid: u32, process: &str) -> PortRow {
    PortRow {
        port,
        state: state.to_string(),
        address: "127.0.0.1".to_string(),
        remote_address: remote.to_string(),
        pid,
        process: process.to_string(),
        process_path: String::new(),
    }
}

fn query() -> PortQuery {
    PortQuery {
        port: None,
        state: None,
        name: None,
        refresh: false,
        sort: PortsSort::Port,
    }
}

#[test]
fn query_follows_the_command_options() {
    let q = PortQuery::from(PortsArgs {
        port: Some(3000),
        state: Some("listen".to_string()),
        name: None,
        refresh: true,
        sort: PortsSort::Process,
    });
    assert_eq!(q.port, Some(3000));
    assert_eq!(q.state.as_deref(), Some("listen"));
    assert!(q.name.is_none() && q.refresh);
    assert_eq!(q.sort, PortsSort::Process);
    assert_eq!(
        ports_title(&q),
        "TCP Ports: 3000 | state: listen | sort: process | live refresh"
    );
}

fn cased(words: &[(&str, &str)]) -> Vec<(String, String)> {
    words.iter().map(|(a, b)| (a.to_string(), b.to_string())).collect()
}

#[test]
fn states_are_shown_from_their_cased_words() {
    assert_eq!(display_from_cased("ESTABLISHED", &cased(&[("E", "stablished")])), "Established");
    assert_eq!(display_from_cased("TIME_WAIT", &cased(&[("T", "ime"), ("W", "ait")])), "Time Wait");
    assert_eq!(display_from_cased("LISTENING", &cased(&[("L", "istening")])), "Listen");
    assert!(state_matches_shown("TIME_WAIT", "Time Wait", "time-wait"));
    assert!(state_matches_shown("LISTENING", "Listen", "LISTEN"));
    assert!(state_matches_shown("ESTABLISHED", "Established", ""));
    assert!(!state_matches_shown("ESTABLISHED", "Established", "listen"));
}

#[test]
fn parses_ipv4_netstat_line() {
    let parsed = parse_netstat_line("  TCP    0.0.0.0:135    0.0.0.0:0    LISTENING    1632")
        .expect("line should parse");

    assert_eq!(parsed.address, "0.0.0.0");
    assert_eq!(parsed.port, 135);
    assert_eq!(parsed.remote_address, "0.0.0.0");
    assert_eq!(parsed.state, "LISTENING");
    assert_eq!(parsed.pid, 1632);
}

#[test]
fn parses_ipv6_netstat_line() {
    let parsed = parse_netstat_line("  TCP    [::]:445    [::]:0    LISTENING    4")
        .expect("line should parse");

    assert_eq!(parsed.address, "::");
    assert_eq!(parsed.port, 445);
    assert_eq!(parsed.remote_address, "::");
    assert_eq!(parsed.state, "LISTENING");
    assert_eq!(parsed.pid, 4);
}

#[test]
fn parses_established_netstat_line() {
    let parsed =
        parse_netstat_line("  TCP    127.0.0.1:5173    127.0.0.1:64120    ESTABLISHED    9480")
            .expect("line should parse");

    assert_eq!(parsed.address, "127.0.0.1");
    assert_eq!(parsed.port, 5173);
    assert_eq!(parsed.remote_address, "127.0.0.1:64120");
    assert_eq!(parsed.state, "ESTABLISHED");
    assert_eq!(parsed.pid, 9480);
}

#[test]
fn displays_common_tcp_states() {
    assert_eq!(display_tcp_state("LISTENING"), "Listen");
    assert_eq!(display_tcp_state("ESTABLISHED"), "Established");
    assert_eq!(display_tcp_state("TIME_WAIT"), "Time Wait");
    assert_eq!(display_tcp_state("CLOSE_WAIT"), "Close Wait");
}

#[test]
fn matches_state_filters_flexibly() {
    assert!(tcp_state_matches("ESTABLISHED", "established"));
    assert!(tcp_state_matches("TIME_WAIT", "time-wait"));
    assert!(tcp_state_matches("TIME_WAIT", "time wait"));
    assert!(tcp_state_matches("LISTENING", "listen"));
    assert!(tcp_state_matches("LISTENING", "listening"));
    assert!(!tcp_state_matches("CLOSE_WAIT", "established"));
}

#[test]
fn sorts_rows_by_requested_field() {
    let mut rows = vec![
        PortRow {
            port: 3000,
            state: "Established".to_string(),
            address: "127.0.0.1".to_string(),
            remote_address: "127.0.0.1:1".to_string(),
            pid: 2,
            process: "zeta (2)".to_string(),
            process_path: String::new(),
        },
        PortRow {
            port: 1000,
            state: "Listen".to_string(),
            address: "127.0.0.1".to_string(),
            remote_address: "0.0.0.0".to_string(),
            pid: 1,
            process: "alpha (1)".to_string(),
            process_path: String::new(),
        },
    ];

    sort_rows(&mut rows, PortsSort::Process);
    assert_eq!(rows[0].process, "alpha (1)");

    sort_rows(&mut rows, PortsSort::Port);
    assert_eq!(rows[0].port, 1000);
}

#[test]
fn computes_page_count() {
    let rows = vec![
        PortRow {
            port: 1,
            state: "Listen".to_string(),
            address: "127.0.0.1".to_string(),
            remote_address: "0.0.0.0".to_string(),
            pid: 1,
            process: "test (1)".to_string(),
            process_path: String::new(),
        };
        45
    ];

    let menu = PortsMenu::new(
        rows,
        PortQuery {
            port: None,
            state: None,
            name: None,
            refresh: false,
            sort: PortsSort::Port,
        },
    );
    assert_eq!(menu.page_count(), 3);
}

#[test]
fn ports_loading_frame_cycles() {
    assert_eq!(frame(0), "[.  ]");
    assert_eq!(frame(1), "[.. ]");
    assert_eq!(frame(2), "[...]");
    assert_eq!(frame(6), "[.  ]");
}

#[test]
fn sort_by_state_keeps_equal_rows_in_order() {
    let mut rows = vec![
        row(80, "Listen", "0.0.0.0", 7, "b (7)"),
        row(22, "Listen", "0.0.0.0", 8, "a (8)"),
        row(80, "Listen", "0.0.0.0", 9, "c (9)"),
    ];
    sort_rows(&mut rows, PortsSort::State);
    let pids: Vec<u32> = rows.iter().map(|r| r.pid).collect();
    assert_eq!(pids, vec![8, 7, 9]);
}

#[test]
fn netstat_rows_filter_by_port_and_drop_repeats() {
    let output = "Active Connections\n\n  Proto  Local Address  Foreign Address  State  PID\n  TCP    0.0.0.0:80    0.0.0.0:0    LISTENING    10\n  TCP    0.0.0.0:80    0.0.0.0:0    LISTENING    10\n  TCP    0.0.0.0:443    0.0.0.0:0    LISTENING    11\n";
    let mut q = query();
    q.port = Some(80);
    let lines = netstat_rows(output, &q);
    assert_eq!(lines.len(), 1);
    assert_eq!(lines[0].pid, 10);

    q.port = None;
    q.state = Some("listen".to_string());
    assert_eq!(netstat_rows(output, &q).len(), 2);
}

#[test]
fn menu_moves_between_rows_and_pages() {
    let rows = vec![row(1, "Listen", "0.0.0.0", 1, "x (1)"); 25];
    let mut menu = PortsMenu::new(rows, query());
    assert_eq!(menu.handle_key(Key::Down), PortsKeyOutcome::Moved);
    assert_eq!(menu.selected_row, 1);
    assert_eq!(menu.handle_key(Key::PageDown), PortsKeyOutcome::Paged(true));
    assert_eq!(menu.page, 1);
    assert_eq!(menu.visible_count(), 5);
    assert_eq!(menu.handle_key(Key::End), PortsKeyOutcome::Moved);
    assert_eq!(menu.selected_row, 4);
    assert_eq!(menu.handle_key(Key::Char('n')), PortsKeyOutcome::Paged(false));
    assert_eq!(menu.handle_key(Key::Char('p')), PortsKeyOutcome::Paged(true));
    assert_eq!(menu.page, 0);
    assert_eq!(menu.handle_key(Key::Right), PortsKeyOutcome::Moved);
    assert_eq!(menu.focus, Focus::Kill);
    assert_eq!(menu.handle_key(Key::Char('r')), PortsKeyOutcome::Refresh);
    assert_eq!(menu.handle_key(Key::Esc), PortsKeyOutcome::Close);
}

#[test]
fn ctrl_letters_act_like_plain_letters() {
    let rows = vec![row(1, "Listen", "0.0.0.0", 1, "x (1)"); 25];
    let mut menu = PortsMenu::new(rows, query());
    assert_eq!(menu.handle_key(Key::Ctrl('n')), PortsKeyOutcome::Paged(true));
    assert_eq!(menu.page, 1);
    assert_eq!(menu.handle_key(Key::Ctrl('p')), PortsKeyOutcome::Paged(true));
    assert_eq!(menu.page, 0);
    assert_eq!(menu.handle_key(Key::Ctrl('r')), PortsKeyOutcome::Refresh);
    assert_eq!(menu.handle_key(Key::Ctrl('x')), PortsKeyOutcome::Moved);
    assert_eq!(menu.handle_key(Key::Ctrl('c')), PortsKeyOutcome::Close);
    assert_eq!(detail_step(Key::Ctrl('k')), DetailStep::Kill);
}

#[test]
fn refreshing_to_no_rows_moves_focus_to_next() {
    let rows = vec![row(1, "Listen", "0.0.0.0", 1, "x (1)"); 3];
    let mut menu = PortsMenu::new(rows, query());
    menu.refresh_rows(Vec::new());
    assert_eq!(menu.page, 0);
    assert_eq!(menu.selected_row, 0);
    assert_eq!(menu.focus, Focus::Next);
}

#[test]
fn detail_view_keys() {
    assert_eq!(detail_step(Key::Enter), DetailStep::Kill);
    assert_eq!(detail_step(Key::Char('k')), DetailStep::Kill);
    assert_eq!(detail_step(Key::Backspace), DetailStep::Back);
    assert_eq!(detail_step(Key::Ctrl('c')), DetailStep::Back);
    assert_eq!(detail_step(Key::Char('x')), DetailStep::Stay);
}

#[test]
fn detail_lines_show_unknown_path() {
    let lines = detail_lines(&row(5173, "Listen", "0.0.0.0", 42, "node (42)"));
    assert_eq!(lines[0], "Port: 5173");
    assert_eq!(lines[4], "PID: 42");
    assert_eq!(lines[6], "Path: (unknown)");
}
