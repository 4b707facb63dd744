//! The TCP ports view: rows built from `netstat` output and process
//! information, their order, and the paged menu with its Kill button and
//! page buttons.
use vstd::prelude::*;

use crate::netstat::{
    display_tcp_state, display_tcp_state_seq, parse_netstat_line, parse_netstat_line_seq,
    tcp_state_matches, tcp_state_matches_seq, NetLine, ParsedNetstatLine,
};
use crate::num::{dec, decimal};
use crate::paths::{clean_process_name, clean_process_name_seq};
use crate::sort::{is_stable_sort, key_val, key_views, sort_by_keys, KeyPart, KeyVal};
use crate::text::{
    all_ws, chars_of, lemma_contains_push, opt_view, clamp, clamp_seq, contains, contains_seq, is_blank, owned, pad_left,
    pad_left_seq, pad_right, pad_right_seq, push_str, split_tokens, tokens, to_lowercase,
    unicode_lowercase, views, Splitter,
};

verus! {

/// Rows per page of the ports menu.
pub const PAGE_SIZE: usize = 20;

/// The order of the rows.
#[derive(Clone, Copy, PartialEq, Eq, Debug, Structural)]
pub enum PortsSort {
    Port,
    State,
    Process,
}

/// The options of the `ports` command.
#[derive(Clone, Debug)]
pub struct PortsArgs {
    /// Show only one local TCP port.
    pub port: Option<u16>,
    /// Filter by TCP state, like established, time-wait, or listen.
    pub state: Option<String>,
    /// Filter by process name.
    pub name: Option<String>,
    /// Keep refreshing the interactive menu while it is open.
    pub refresh: bool,
    /// Sort rows by port, state, or process.
    pub sort: PortsSort,
}

/// What the ports view shows.
#[derive(Clone, Debug)]
pub struct PortQuery {
    pub port: Option<u16>,
    pub state: Option<String>,
    pub name: Option<String>,
    pub refresh: bool,
    pub sort: PortsSort,
}

/// The query that the command options ask for.
impl From<PortsArgs> for PortQuery {
    fn from(args: PortsArgs) -> (q: PortQuery) {
        PortQuery {
            port: args.port,
            state: args.state,
            name: args.name,
            refresh: args.refresh,
            sort: args.sort,
        }
    }
}

impl vstd::std_specs::convert::FromSpecImpl<PortsArgs> for PortQuery {
    open spec fn obeys_from_spec() -> bool {
        true
    }

    open spec fn from_spec(args: PortsArgs) -> PortQuery {
        PortQuery {
            port: args.port,
            state: args.state,
            name: args.name,
            refresh: args.refresh,
            sort: args.sort,
        }
    }
}

/// One row of the ports view.
#[derive(Clone, Debug)]
pub struct PortRow {
    pub port: u16,
    pub state: String,
    pub address: String,
    pub remote_address: String,
    pub pid: u32,
    pub process: String,
    pub process_path: String,
}

/// The values of a row.
pub struct PortRowView {
    pub port: int,
    pub state: Seq<char>,
    pub address: Seq<char>,
    pub remote_address: Seq<char>,
    pub pid: int,
    pub process: Seq<char>,
    pub process_path: Seq<char>,
}

impl PortRow {
    pub open spec fn view(&self) -> PortRowView {
        PortRowView {
            port: self.port as int,
            state: self.state@,
            address: self.address@,
            remote_address: self.remote_address@,
            pid: self.pid as int,
            process: self.process@,
            process_path: self.process_path@,
        }
    }
}

pub open spec fn row_views(rows: Seq<PortRow>) -> Seq<PortRowView> {
    rows.map_values(|r: PortRow| r.view())
}

/// The name and executable path of a process.
#[derive(Clone, Debug)]
pub struct ProcessInfo {
    pub name: String,
    pub path: String,
}

/// The name shown for a process that has no usable name.
pub open spec fn fallback_process_name_seq(pid: int) -> Seq<char> {
    if pid == 0 {
        "System Idle Process"@
    } else if pid == 4 {
        "System"@
    } else {
        "PID "@ + dec(pid as nat)
    }
}

/// The name shown for a process that has no usable name.
pub fn fallback_process_name(pid: u32) -> (r: String)
    ensures
        r@ == fallback_process_name_seq(pid as int),
{
    if pid == 0 {
        owned("System Idle Process")
    } else if pid == 4 {
        owned("System")
    } else {
        let mut r = owned("PID ");
        let d = decimal(pid as u64);
        push_str(&mut r, d.as_str());
        r
    }
}

impl ProcessInfo {
    /// The information shown for a process that could not be looked up.
    pub fn fallback(pid: u32) -> (r: ProcessInfo)
        ensures
            r.name@ == fallback_process_name_seq(pid as int),
            r.path@ == Seq::<char>::empty(),
    {
        ProcessInfo { name: fallback_process_name(pid), path: String::new() }
    }
}

/// The information shown for a running process, from the name and
/// executable path that the system reports for it.
pub fn process_info_from(pid: u32, name: &str, exe: Option<&str>) -> (r: ProcessInfo)
    ensures
        r.name@ == (if all_ws(clean_process_name_seq(name@)) {
            fallback_process_name_seq(pid as int)
        } else {
            clean_process_name_seq(name@)
        }),
        r.path@ == (match exe {
            Some(e) => e@,
            None => Seq::<char>::empty(),
        }),
{
    let clean = clean_process_name(name);
    let shown = if is_blank(clean.as_str()) {
        fallback_process_name(pid)
    } else {
        clean
    };
    let path = match exe {
        Some(e) => owned(e),
        None => String::new(),
    };
    ProcessInfo { name: shown, path }
}

// ---------------------------------------------------------------------
// Row order.
// ---------------------------------------------------------------------

/// The sort key of a row: by port (then address, remote, state, PID), by
/// state (then port, process, remote) or by process (then port, state,
/// remote).
pub open spec fn port_row_key(r: PortRowView, sort: PortsSort) -> Seq<KeyVal> {
    match sort {
        PortsSort::Port => seq![
            KeyVal::Asc(r.port),
            KeyVal::Text(r.address),
            KeyVal::Text(r.remote_address),
            KeyVal::Text(r.state),
            KeyVal::Asc(r.pid),
        ],
        PortsSort::State => seq![
            KeyVal::Text(r.state),
            KeyVal::Asc(r.port),
            KeyVal::Text(r.process),
            KeyVal::Text(r.remote_address),
        ],
        PortsSort::Process => seq![
            KeyVal::Text(r.process),
            KeyVal::Asc(r.port),
            KeyVal::Text(r.state),
            KeyVal::Text(r.remote_address),
        ],
    }
}

pub open spec fn port_row_keys(rows: Seq<PortRowView>, sort: PortsSort) -> Seq<Seq<KeyVal>> {
    rows.map_values(|r: PortRowView| port_row_key(r, sort))
}

fn text_part(s: &String) -> (k: KeyPart)
    ensures
        k.view() == KeyVal::Text(s@),
{
    KeyPart::Text(chars_of(s.as_str()))
}

fn port_key(r: &PortRow, sort: PortsSort) -> (k: Vec<KeyPart>)
    ensures
        key_val(k@) == port_row_key(r.view(), sort),
{
    let mut k: Vec<KeyPart> = Vec::new();
    match sort {
        PortsSort::Port => {
            k.push(KeyPart::Asc(r.port as u64));
            k.push(text_part(&r.address));
            k.push(text_part(&r.remote_address));
            k.push(text_part(&r.state));
            k.push(KeyPart::Asc(r.pid as u64));
        },
        PortsSort::State => {
            k.push(text_part(&r.state));
            k.push(KeyPart::Asc(r.port as u64));
            k.push(text_part(&r.process));
            k.push(text_part(&r.remote_address));
        },
        PortsSort::Process => {
            k.push(text_part(&r.process));
            k.push(KeyPart::Asc(r.port as u64));
            k.push(text_part(&r.state));
            k.push(text_part(&r.remote_address));
        },
    }
    assert(key_val(k@) =~= port_row_key(r.view(), sort));
    k
}

/// Orders the rows stably by the requested field.
pub fn sort_rows(rows: &mut Vec<PortRow>, sort: PortsSort)
    ensures
        is_stable_sort(
            row_views(final(rows)@),
            row_views(old(rows)@),
            port_row_keys(row_views(old(rows)@), sort),
        ),
{
    let mut keys: Vec<Vec<KeyPart>> = Vec::new();
    let mut i: usize = 0;
    while i < rows.len()
        invariant
            i <= rows@.len(),
            keys@.len() == i,
            forall|j: int| 0 <= j < i ==> key_val(#[trigger] keys@[j]@) == port_row_key(rows@[j].view(), sort),
        decreases rows.len() - i,
    {
        let k = port_key(&rows[i], sort);
        keys.push(k);
        i = i + 1;
    }
    let ghost before = rows@;
    let ghost kv = key_views(keys@);
    assert(kv =~= port_row_keys(row_views(before), sort));
    let mut taken: Vec<PortRow> = Vec::new();
    std::mem::swap(&mut taken, rows);
    let sorted = sort_by_keys(taken, keys);
    *rows = sorted;
    proof {
        lemma_stable_sort_views(rows@, before, kv);
    }
}

/// A stable sort of rows is a stable sort of their values.
proof fn lemma_stable_sort_views(out: Seq<PortRow>, inp: Seq<PortRow>, kv: Seq<Seq<KeyVal>>)
    requires
        is_stable_sort(out, inp, kv),
    ensures
        is_stable_sort(row_views(out), row_views(inp), kv),
{
    let p = choose|p: Seq<int>|
        {
            &&& crate::sort::is_permutation(p, inp.len() as int)
            &&& crate::sort::stably_ordered(p, kv)
            &&& out.len() == inp.len()
            &&& forall|k: int| 0 <= k < out.len() ==> out[k] == inp[#[trigger] p[k]]
        };
    assert forall|k: int| 0 <= k < row_views(out).len() implies row_views(out)[k] == row_views(
        inp,
    )[#[trigger] p[k]] by {
        assert(out[k] == inp[p[k]]);
    }
}

// ---------------------------------------------------------------------
// Building rows.
// ---------------------------------------------------------------------

/// The lines of `netstat` output that are kept: read as connections, on
/// the requested port, in the requested state, each connection once.
pub open spec fn netstat_lines_seq(lines: Seq<Seq<char>>, port: Option<u16>, state: Option<
    Seq<char>,
>) -> Seq<NetLine>
    decreases lines.len(),
{
    if lines.len() == 0 {
        Seq::empty()
    } else {
        let kept = netstat_lines_seq(lines.drop_last(), port, state);
        match parse_netstat_line_seq(lines.last()) {
            Some(p) => if (port matches Some(x) && p.1 != x as int) || (state matches Some(f)
                && !tcp_state_matches_seq(p.3, f)) || kept.contains(p) {
                kept
            } else {
                kept.push(p)
            },
            None => kept,
        }
    }
}

/// The ports view lists each connection once, and only connections on the
/// requested port and in the requested state.
pub proof fn law_connections_once(lines: Seq<Seq<char>>, port: Option<u16>, state: Option<Seq<char>>)
    ensures
        netstat_lines_seq(lines, port, state).no_duplicates(),
        forall|k: int|
            0 <= k < netstat_lines_seq(lines, port, state).len() ==> {
                let c = #[trigger] netstat_lines_seq(lines, port, state)[k];
                &&& port matches Some(x) ==> c.1 == x as int
                &&& state matches Some(f) ==> tcp_state_matches_seq(c.3, f)
            },
    decreases lines.len(),
{
    if lines.len() > 0 {
        law_connections_once(lines.drop_last(), port, state);
        let kept = netstat_lines_seq(lines.drop_last(), port, state);
        let r = netstat_lines_seq(lines, port, state);
        if r != kept {
            let p = r.last();
            assert(r == kept.push(p));
            assert(!kept.contains(p));
            assert forall|i: int, j: int| 0 <= i < r.len() && 0 <= j < r.len() && i != j implies r[i]
                != r[j] by {
                if i < kept.len() && j < kept.len() {
                    assert(r[i] == kept[i] && r[j] == kept[j]);
                } else if i == kept.len() {
                    assert(r[j] == kept[j]);
                    assert(kept.contains(kept[j]));
                } else {
                    assert(r[i] == kept[i]);
                    assert(kept.contains(kept[i]));
                }
            }
            assert forall|k: int| 0 <= k < r.len() implies {
                let c = #[trigger] r[k];
                &&& port matches Some(x) ==> c.1 == x as int
                &&& state matches Some(f) ==> tcp_state_matches_seq(c.3, f)
            } by {
                if k < kept.len() {
                    assert(r[k] == kept[k]);
                }
            }
        }
    }
}

/// The connection that a line of `netstat` output reads as, when it passes
/// the port and state filters of the query.
pub open spec fn wanted_line(line: Seq<char>, port: Option<u16>, state: Option<Seq<char>>) -> bool {
    match parse_netstat_line_seq(line) {
        Some(p) => (port matches Some(x) ==> p.1 == x as int) && (state matches Some(f)
            ==> tcp_state_matches_seq(p.3, f)),
        None => false,
    }
}

/// The ports view leaves out no wanted connection: every line of the
/// output that reads as a connection on the requested port and in the
/// requested state is listed, with all five of its fields (only exact
/// repeats are left out); and every listed connection is read from a line
/// of the output.
pub proof fn law_connections_complete(lines: Seq<Seq<char>>, port: Option<u16>, state: Option<Seq<char>>)
    ensures
        forall|i: int|
            0 <= i < lines.len() && #[trigger] wanted_line(lines[i], port, state)
                ==> netstat_lines_seq(lines, port, state).contains(
                parse_netstat_line_seq(lines[i])->0,
            ),
        forall|k: int|
            0 <= k < netstat_lines_seq(lines, port, state).len() ==> exists|i: int|
                0 <= i < lines.len() && parse_netstat_line_seq(lines[i]) == Some(
                    #[trigger] netstat_lines_seq(lines, port, state)[k],
                ),
    decreases lines.len(),
{
    if lines.len() > 0 {
        let front = lines.drop_last();
        law_connections_complete(front, port, state);
        let kept = netstat_lines_seq(front, port, state);
        let r = netstat_lines_seq(lines, port, state);
        let n = lines.len() - 1;
        assert(r == kept || (r.len() == kept.len() + 1 && r.drop_last() == kept
            && parse_netstat_line_seq(lines[n]) == Some(r.last()))) by {
            if r != kept {
                assert(r.drop_last() =~= kept);
            }
        }
        assert forall|i: int|
            0 <= i < lines.len() && #[trigger] wanted_line(lines[i], port, state) implies r.contains(
            parse_netstat_line_seq(lines[i])->0,
        ) by {
            let q = parse_netstat_line_seq(lines[i])->0;
            if i < n {
                assert(front[i] == lines[i]);
                assert(wanted_line(front[i], port, state));
                let k = choose|k: int| 0 <= k < kept.len() && kept[k] == q;
                if r != kept {
                    assert(r[k] == r.drop_last()[k]);
                }
                assert(r[k] == q);
            } else {
                if r != kept {
                    if !kept.contains(q) {
                        assert(r[r.len() - 1] == q);
                    } else {
                        let k = choose|k: int| 0 <= k < kept.len() && kept[k] == q;
                        assert(r[k] == r.drop_last()[k]);
                    }
                }
            }
        }
        assert forall|k: int| 0 <= k < r.len() implies exists|i: int|
            0 <= i < lines.len() && parse_netstat_line_seq(lines[i]) == Some(#[trigger] r[k]) by {
            if k < kept.len() {
                if r != kept {
                    assert(r[k] == r.drop_last()[k]);
                }
                assert(r[k] == kept[k]);
                let i = choose|i: int| 0 <= i < front.len() && parse_netstat_line_seq(front[i]) == Some(kept[k]);
                assert(front[i] == lines[i]);
            } else {
                assert(parse_netstat_line_seq(lines[n]) == Some(r[k]));
            }
        }
    }
}

/// The ports view keeps the order of the output: a connection listed
/// before another is read from a line before every line that the other is
/// read from.
pub proof fn law_connections_in_output_order(
    lines: Seq<Seq<char>>,
    port: Option<u16>,
    state: Option<Seq<char>>,
)
    ensures
        forall|a: int, b: int, i2: int|
            #![trigger netstat_lines_seq(lines, port, state)[a], netstat_lines_seq(lines, port, state)[b], parse_netstat_line_seq(lines[i2])]
            0 <= a < b < netstat_lines_seq(lines, port, state).len() && 0 <= i2 < lines.len()
                && parse_netstat_line_seq(lines[i2]) == Some(netstat_lines_seq(lines, port, state)[b])
                ==> exists|i1: int|
                0 <= i1 < i2 && parse_netstat_line_seq(lines[i1]) == Some(
                    netstat_lines_seq(lines, port, state)[a],
                ),
    decreases lines.len(),
{
    if lines.len() > 0 {
        let front = lines.drop_last();
        law_connections_in_output_order(front, port, state);
        law_connections_complete(front, port, state);
        let kept = netstat_lines_seq(front, port, state);
        let r = netstat_lines_seq(lines, port, state);
        let n = lines.len() - 1;
        assert(r == kept || (r.len() == kept.len() + 1 && r.drop_last() == kept && !kept.contains(
            r.last(),
        ) && wanted_line(lines[n], port, state) && parse_netstat_line_seq(lines[n]) == Some(
            r.last(),
        ))) by {
            if r != kept {
                assert(r.drop_last() =~= kept);
            }
        }
        assert forall|a: int, b: int, i2: int|
            #![trigger r[a], r[b], parse_netstat_line_seq(lines[i2])]
            0 <= a < b < r.len() && 0 <= i2 < lines.len() && parse_netstat_line_seq(lines[i2])
                == Some(r[b]) implies exists|i1: int|
            0 <= i1 < i2 && parse_netstat_line_seq(lines[i1]) == Some(r[a]) by {
            assert(a < kept.len());
            assert(r[a] == kept[a]) by {
                if r != kept {
                    assert(r[a] == r.drop_last()[a]);
                }
            }
            if b < kept.len() {
                assert(r[b] == kept[b]) by {
                    if r != kept {
                        assert(r[b] == r.drop_last()[b]);
                    }
                }
                if i2 < n {
                    assert(front[i2] == lines[i2]);
                    let i1 = choose|i1: int|
                        0 <= i1 < i2 && parse_netstat_line_seq(front[i1]) == Some(kept[a]);
                    assert(front[i1] == lines[i1]);
                } else {
                    let i1 = choose|i1: int|
                        0 <= i1 < front.len() && parse_netstat_line_seq(front[i1]) == Some(kept[a]);
                    assert(front[i1] == lines[i1]);
                }
            } else {
                // r[b] is the new connection, read from the last line only.
                if i2 < n {
                    assert(front[i2] == lines[i2]);
                    assert(wanted_line(front[i2], port, state));
                    assert(kept.contains(r.last()));
                }
                let i1 = choose|i1: int|
                    0 <= i1 < front.len() && parse_netstat_line_seq(front[i1]) == Some(kept[a]);
                assert(front[i1] == lines[i1]);
            }
        }
    } else {
        assert(netstat_lines_seq(lines, port, state).len() == 0);
    }
}

pub open spec fn net_views(v: Seq<ParsedNetstatLine>) -> Seq<NetLine> {
    v.map_values(|p: ParsedNetstatLine| p.view())
}

fn same_line(a: &ParsedNetstatLine, b: &ParsedNetstatLine) -> (r: bool)
    ensures
        r == (a.view() == b.view()),
{
    a.port == b.port && a.pid == b.pid && crate::text::str_eq(a.address.as_str(), b.address.as_str())
        && crate::text::str_eq(a.remote_address.as_str(), b.remote_address.as_str())
        && crate::text::str_eq(a.state.as_str(), b.state.as_str())
}

/// Reads the connections of `netstat -ano -p tcp` output (its lines are
/// the text between newlines), keeping those that `query` asks for, each
/// distinct connection once, in output order.
pub fn netstat_rows(output: &str, query: &PortQuery) -> (r: Vec<ParsedNetstatLine>)
    ensures
        net_views(r@) == netstat_lines_seq(
            tokens(output@, Splitter::Char('\n')),
            query.port,
            opt_view(query.state),
        ),
        forall|i: int|
            0 <= i < tokens(output@, Splitter::Char('\n')).len() && #[trigger] wanted_line(
                tokens(output@, Splitter::Char('\n'))[i],
                query.port,
                opt_view(query.state),
            ) ==> net_views(r@).contains(
                parse_netstat_line_seq(tokens(output@, Splitter::Char('\n'))[i])->0,
            ),
{
    let lines = split_tokens(output, Splitter::Char('\n'));
    let ghost ls = views(lines@);
    let ghost st = opt_view(query.state);
    let mut out: Vec<ParsedNetstatLine> = Vec::new();
    let mut i: usize = 0;
    while i < lines.len()
        invariant
            ls == views(lines@),
            ls == tokens(output@, Splitter::Char('\n')),
            st == opt_view(query.state),
            i <= lines@.len(),
            net_views(out@) == netstat_lines_seq(ls.take(i as int), query.port, st),
        decreases lines.len() - i,
    {
        assert(ls.take(i + 1).drop_last() =~= ls.take(i as int));
        assert(ls.take(i + 1).last() == lines@[i as int]@);
        let parsed = parse_netstat_line(lines[i].as_str());
        match parsed {
            Some(p) => {
                let mut keep = true;
                if let Some(port) = query.port {
                    if p.port != port {
                        keep = false;
                    }
                }
                if let Some(filter) = &query.state {
                    if !tcp_state_matches(p.state.as_str(), filter.as_str()) {
                        keep = false;
                    }
                }
                let mut j: usize = 0;
                let mut seen = false;
                while j < out.len()
                    invariant
                        j <= out@.len(),
                        seen == net_views(out@).take(j as int).contains(p.view()),
                    decreases out.len() - j,
                {
                    assert(net_views(out@).take(j + 1) =~= net_views(out@).take(j as int).push(
                        out@[j as int].view(),
                    ));
                    proof {
                        lemma_contains_push(
                            net_views(out@).take(j as int),
                            out@[j as int].view(),
                            p.view(),
                        );
                    }
                    if same_line(&out[j], &p) {
                        seen = true;
                    }
                    j = j + 1;
                }
                assert(net_views(out@).take(out@.len() as int) =~= net_views(out@));
                if keep && !seen {
                    let ghost old_out = out@;
                    out.push(p);
                    assert(net_views(out@) =~= net_views(old_out).push(p.view()));
                }
            },
            None => {},
        }
        i = i + 1;
    }
    assert(ls.take(lines@.len() as int) =~= ls);
    proof {
        law_connections_complete(ls, query.port, st);
    }
    out
}

/// The process name and path for a PID: the first entry for it in
/// `infos`, or the fallback.
pub open spec fn info_for(infos: Seq<(u32, ProcessInfo)>, pid: int) -> (Seq<char>, Seq<char>)
    decreases infos.len(),
{
    if infos.len() == 0 {
        (fallback_process_name_seq(pid), Seq::empty())
    } else if infos[0].0 as int == pid {
        (infos[0].1.name@, infos[0].1.path@)
    } else {
        info_for(infos.drop_first(), pid)
    }
}

/// The row shown for a connection.
pub open spec fn row_for(p: NetLine, infos: Seq<(u32, ProcessInfo)>) -> PortRowView {
    let info = info_for(infos, p.4);
    PortRowView {
        port: p.1,
        state: display_tcp_state_seq(p.3),
        address: p.0,
        remote_address: p.2,
        pid: p.4,
        process: info.0 + " ("@ + dec(p.4 as nat) + ")"@,
        process_path: info.1,
    }
}

/// The rows whose process text contains the name filter, ignoring case.
pub open spec fn rows_for(lines: Seq<NetLine>, infos: Seq<(u32, ProcessInfo)>, name: Option<
    Seq<char>,
>) -> Seq<PortRowView>
    decreases lines.len(),
{
    if lines.len() == 0 {
        Seq::empty()
    } else {
        let kept = rows_for(lines.drop_last(), infos, name);
        let row = row_for(lines.last(), infos);
        match name {
            Some(n) => if contains_seq(unicode_lowercase(row.process), unicode_lowercase(n)) {
                kept.push(row)
            } else {
                kept
            },
            None => kept.push(row),
        }
    }
}

fn lookup_info(infos: &Vec<(u32, ProcessInfo)>, pid: u32) -> (r: (String, String))
    ensures
        (r.0@, r.1@) == info_for(infos@, pid as int),
{
    let mut i: usize = 0;
    assert(infos@.skip(0) =~= infos@);
    while i < infos.len()
        invariant
            i <= infos@.len(),
            info_for(infos@, pid as int) == info_for(infos@.skip(i as int), pid as int),
        decreases infos.len() - i,
    {
        assert(infos@.skip(i as int)[0] == infos@[i as int]);
        if infos[i].0 == pid {
            return (owned(infos[i].1.name.as_str()), owned(infos[i].1.path.as_str()));
        }
        assert(infos@.skip(i as int).drop_first() =~= infos@.skip(i + 1));
        i = i + 1;
    }
    (fallback_process_name(pid), String::new())
}

/// The PIDs of the connections, each once, in order of first appearance.
pub open spec fn distinct_pids_seq(lines: Seq<NetLine>) -> Seq<int>
    decreases lines.len(),
{
    if lines.len() == 0 {
        Seq::empty()
    } else {
        let d = distinct_pids_seq(lines.drop_last());
        if d.contains(lines.last().4) {
            d
        } else {
            d.push(lines.last().4)
        }
    }
}

/// The PIDs whose process information is needed.
pub fn distinct_pids(lines: &Vec<ParsedNetstatLine>) -> (r: Vec<u32>)
    ensures
        r@.map_values(|x: u32| x as int) == distinct_pids_seq(net_views(lines@)),
{
    let mut out: Vec<u32> = Vec::new();
    let mut i: usize = 0;
    while i < lines.len()
        invariant
            i <= lines@.len(),
            out@.map_values(|x: u32| x as int) == distinct_pids_seq(net_views(lines@).take(i as int)),
        decreases lines.len() - i,
    {
        assert(net_views(lines@).take(i + 1).drop_last() =~= net_views(lines@).take(i as int));
        let pid = lines[i].pid;
        let mut j: usize = 0;
        let mut seen = false;
        while j < out.len()
            invariant
                j <= out@.len(),
                seen == out@.map_values(|x: u32| x as int).take(j as int).contains(pid as int),
            decreases out.len() - j,
        {
            assert(out@.map_values(|x: u32| x as int).take(j + 1) =~= out@.map_values(
                |x: u32| x as int,
            ).take(j as int).push(out@[j as int] as int));
            proof {
                lemma_contains_push(
                    out@.map_values(|x: u32| x as int).take(j as int),
                    out@[j as int] as int,
                    pid as int,
                );
            }
            if out[j] == pid {
                seen = true;
            }
            j = j + 1;
        }
        assert(out@.map_values(|x: u32| x as int).take(out@.len() as int) =~= out@.map_values(
            |x: u32| x as int,
        ));
        if !seen {
            let ghost old_out = out@;
            out.push(pid);
            assert(out@.map_values(|x: u32| x as int) =~= old_out.map_values(|x: u32| x as int).push(
                pid as int,
            ));
        }
        i = i + 1;
    }
    assert(net_views(lines@).take(lines@.len() as int) =~= net_views(lines@));
    out
}

/// Builds the rows of the ports view from the kept connections and the
/// process information found for their PIDs, filtered by process name and
/// ordered as the query asks.
pub fn port_rows(lines: Vec<ParsedNetstatLine>, infos: &Vec<(u32, ProcessInfo)>, query: &PortQuery) -> (r: Vec<PortRow>)
    ensures
        is_stable_sort(
            row_views(r@),
            rows_for(
                net_views(lines@),
                infos@,
                opt_view(query.name),
            ),
            port_row_keys(
                rows_for(
                    net_views(lines@),
                    infos@,
                    match query.name {
                        Some(n) => Some(n@),
                        None => None,
                    },
                ),
                query.sort,
            ),
        ),
{
    let ghost nm = opt_view(query.name);
    let ghost nv = net_views(lines@);
    let mut rows: Vec<PortRow> = Vec::new();
    let mut i: usize = 0;
    while i < lines.len()
        invariant
            nv == net_views(lines@),
            nm == opt_view(query.name),
            i <= lines@.len(),
            row_views(rows@) == rows_for(nv.take(i as int), infos@, nm),
        decreases lines.len() - i,
    {
        assert(nv.take(i + 1).drop_last() =~= nv.take(i as int));
        let p = &lines[i];
        assert(nv.take(i + 1).last() == p.view());
        let (name, path) = lookup_info(infos, p.pid);
        let mut process = name;
        push_str(&mut process, " (");
        let d = decimal(p.pid as u64);
        push_str(&mut process, d.as_str());
        push_str(&mut process, ")");
        let row = PortRow {
            port: p.port,
            state: display_tcp_state(p.state.as_str()),
            address: owned(p.address.as_str()),
            remote_address: owned(p.remote_address.as_str()),
            pid: p.pid,
            process,
            process_path: path,
        };
        assert(row.view() == row_for(p.view(), infos@));
        let keep = match &query.name {
            Some(n) => {
                let hay = to_lowercase(row.process.as_str());
                let needle = to_lowercase(n.as_str());
                contains(hay.as_str(), needle.as_str())
            },
            None => true,
        };
        if keep {
            let ghost old_rows = rows@;
            rows.push(row);
            assert(row_views(rows@) =~= row_views(old_rows).push(row.view()));
        }
        i = i + 1;
    }
    assert(nv.take(lines@.len() as int) =~= nv);
    let ghost unsorted = row_views(rows@);
    sort_rows(&mut rows, query.sort);
    rows
}

} // verus!
