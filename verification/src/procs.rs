//! Processes: which are listed, in what order, and what is shown for them.
use vstd::prelude::*;

use crate::history::opt_seq;
use crate::num::{dec, decimal};
use crate::paths::{clean_process_name, clean_process_name_seq};
use crate::picker::{Picker, PickerItem};
use crate::sort::{is_stable_sort, key_val, key_views, lemma_stable_sort_map, sort_by_keys, KeyPart, KeyVal};
use crate::text::{
    all_ws, chars_of, contains, contains_seq, is_blank, owned, pad_left, pad_left_seq, pad_right,
    pad_right_seq, pair_matches, pair_matches_seq, push_str, to_lowercase, unicode_lowercase,
};

verus! {

/// `ps procs [-n <name>] [-t <title>]`.
#[derive(Clone, Debug)]
pub struct ProcsArgs {
    /// Keep processes whose name or path contains this, ignoring case.
    pub name: Option<String>,
    /// Keep processes whose window title or name contains this, ignoring
    /// case.
    pub title: Option<String>,
}

/// A process as the system reports it.
#[derive(Clone, Debug)]
pub struct RawProcess {
    pub pid: u32,
    pub name: String,
    pub exe: Option<String>,
    /// Resident memory in bytes.
    pub memory: u64,
}

/// A listed process.
#[derive(Clone, Debug)]
pub struct ProcessRow {
    pub pid: u32,
    pub name: String,
    pub title: String,
    pub memory_mb: u64,
    pub path: String,
}

/// The value of a listed process.
pub struct ProcView {
    pub pid: int,
    pub name: Seq<char>,
    pub title: Seq<char>,
    pub memory_mb: int,
    pub path: Seq<char>,
}

impl ProcessRow {
    pub open spec fn view(&self) -> ProcView {
        ProcView {
            pid: self.pid as int,
            name: self.name@,
            title: self.title@,
            memory_mb: self.memory_mb as int,
            path: self.path@,
        }
    }
}

pub open spec fn proc_views(r: Seq<ProcessRow>) -> Seq<ProcView> {
    r.map_values(|x: ProcessRow| x.view())
}

/// The window title of a process: the last one reported for its id, or
/// none.
pub open spec fn title_for(titles: Seq<(u32, String)>, pid: u32) -> Seq<char>
    decreases titles.len(),
{
    if titles.len() == 0 {
        Seq::empty()
    } else if titles.last().0 == pid {
        titles.last().1@
    } else {
        title_for(titles.drop_last(), pid)
    }
}

fn find_title(titles: &Vec<(u32, String)>, pid: u32) -> (r: String)
    ensures
        r@ == title_for(titles@, pid),
{
    let mut i: usize = titles.len();
    assert(titles@.take(i as int) =~= titles@);
    while i > 0
        invariant
            i <= titles@.len(),
            title_for(titles@, pid) == title_for(titles@.take(i as int), pid),
        decreases i,
    {
        assert(titles@.take(i as int).drop_last() =~= titles@.take(i - 1));
        if titles[i - 1].0 == pid {
            return owned(titles[i - 1].1.as_str());
        }
        i = i - 1;
    }
    String::new()
}

/// A name or title matches the filter: either, lowercased, contains the
/// lowercased filter.
pub open spec fn title_matches_seq(name: Seq<char>, title: Seq<char>, filter: Seq<char>) -> bool {
    contains_seq(unicode_lowercase(name), unicode_lowercase(filter)) || contains_seq(
        unicode_lowercase(title),
        unicode_lowercase(filter),
    )
}

/// Whether the process name or window title contains the filter, ignoring
/// case.
pub fn process_title_matches(name: &str, title: &str, filter: &str) -> (r: bool)
    ensures
        r == title_matches_seq(name@, title@, filter@),
{
    let f = to_lowercase(filter);
    let n = to_lowercase(name);
    let t = to_lowercase(title);
    lowered_title_matches(n.as_str(), t.as_str(), f.as_str())
}

/// Whether the lowercased name or title contains the lowercased filter:
/// the test of `process_title_matches` once the texts are lowercased.
pub fn lowered_title_matches(name_lower: &str, title_lower: &str, filter_lower: &str) -> (r: bool)
    ensures
        r == (contains_seq(name_lower@, filter_lower@) || contains_seq(title_lower@, filter_lower@)),
{
    contains(name_lower, filter_lower) || contains(title_lower, filter_lower)
}

/// The row of a process; its title is looked up only with a title filter.
pub open spec fn row_of(p: RawProcess, titles: Seq<(u32, String)>, title_filter: Option<Seq<char>>) -> ProcView {
    ProcView {
        pid: p.pid as int,
        name: clean_process_name_seq(p.name@),
        title: if title_filter is Some {
            title_for(titles, p.pid)
        } else {
            Seq::empty()
        },
        memory_mb: p.memory as int / 1024 / 1024,
        path: match p.exe {
            Some(e) => e@,
            None => Seq::empty(),
        },
    }
}

/// A row is listed when it passes both filters.
pub open spec fn row_listed(r: ProcView, name_filter: Option<Seq<char>>, title_filter: Option<Seq<char>>) -> bool {
    &&& match name_filter {
        Some(f) => pair_matches_seq(r.name, r.path, unicode_lowercase(f)),
        None => true,
    }
    &&& match title_filter {
        Some(f) => title_matches_seq(r.name, r.title, unicode_lowercase(f)),
        None => true,
    }
}

/// The listed rows, in the order the processes came.
pub open spec fn listed_rows(
    procs: Seq<RawProcess>,
    titles: Seq<(u32, String)>,
    name_filter: Option<Seq<char>>,
    title_filter: Option<Seq<char>>,
) -> Seq<ProcView>
    decreases procs.len(),
{
    if procs.len() == 0 {
        Seq::empty()
    } else {
        let rest = listed_rows(procs.drop_last(), titles, name_filter, title_filter);
        let r = row_of(procs.last(), titles, title_filter);
        if row_listed(r, name_filter, title_filter) {
            rest.push(r)
        } else {
            rest
        }
    }
}

/// Largest memory first, then by name, then by process id.
pub open spec fn proc_key(r: ProcView) -> Seq<KeyVal> {
    seq![KeyVal::Desc(r.memory_mb), KeyVal::Text(r.name), KeyVal::Asc(r.pid)]
}

pub open spec fn proc_keys(r: Seq<ProcView>) -> Seq<Seq<KeyVal>> {
    r.map_values(|x: ProcView| proc_key(x))
}

/// The rows of the process list: the processes that pass the filters,
/// largest memory first (then by name and id). `titles` are the window
/// titles by process id, used only with a title filter.
pub fn process_rows(
    procs: Vec<RawProcess>,
    titles: &Vec<(u32, String)>,
    name_filter: Option<&str>,
    title_filter: Option<&str>,
) -> (r: Vec<ProcessRow>)
    ensures
        is_stable_sort(
            proc_views(r@),
            listed_rows(procs@, titles@, opt_seq(name_filter), opt_seq(title_filter)),
            proc_keys(listed_rows(procs@, titles@, opt_seq(name_filter), opt_seq(title_filter))),
        ),
{
    let name_lower: Option<String> = match name_filter {
        Some(f) => Some(to_lowercase(f)),
        None => None,
    };
    let title_lower: Option<String> = match title_filter {
        Some(f) => Some(to_lowercase(f)),
        None => None,
    };
    let ghost nf = opt_seq(name_filter);
    let ghost tf = opt_seq(title_filter);
    let mut kept: Vec<ProcessRow> = Vec::new();
    let mut keys: Vec<Vec<KeyPart>> = Vec::new();
    let mut i: usize = 0;
    while i < procs.len()
        invariant
            i <= procs@.len(),
            nf == opt_seq(name_filter),
            tf == opt_seq(title_filter),
            match name_filter {
                Some(f) => name_lower matches Some(l) && l@ == unicode_lowercase(f@),
                None => name_lower is None,
            },
            match title_filter {
                Some(f) => title_lower matches Some(l) && l@ == unicode_lowercase(f@),
                None => title_lower is None,
            },
            proc_views(kept@) == listed_rows(procs@.take(i as int), titles@, nf, tf),
            keys@.len() == kept@.len(),
            forall|j: int| 0 <= j < keys@.len() ==> key_val(#[trigger] keys@[j]@) == proc_key(kept@[j].view()),
        decreases procs.len() - i,
    {
        let p = &procs[i];
        proof {
            assert(procs@.take(i + 1).drop_last() =~= procs@.take(i as int));
            assert(procs@.take(i + 1).last() == procs@[i as int]);
        }
        let name = clean_process_name(p.name.as_str());
        let title = if title_filter.is_some() {
            find_title(titles, p.pid)
        } else {
            String::new()
        };
        let path = match &p.exe {
            Some(e) => owned(e.as_str()),
            None => String::new(),
        };
        let row = ProcessRow { pid: p.pid, name, title, memory_mb: p.memory / 1024 / 1024, path };
        assert(row.view() == row_of(procs@[i as int], titles@, tf));
        let keep_name = match &name_lower {
            Some(l) => pair_matches(row.name.as_str(), row.path.as_str(), l.as_str()),
            None => true,
        };
        let keep_title = match &title_lower {
            Some(l) => process_title_matches(row.name.as_str(), row.title.as_str(), l.as_str()),
            None => true,
        };
        if keep_name && keep_title {
            let ghost before = kept@;
            let mut k: Vec<KeyPart> = Vec::new();
            k.push(KeyPart::Desc(row.memory_mb));
            k.push(KeyPart::Text(chars_of(row.name.as_str())));
            k.push(KeyPart::Asc(row.pid as u64));
            assert(key_val(k@) =~= proc_key(row.view()));
            let ghost rv = row.view();
            kept.push(row);
            keys.push(k);
            assert(proc_views(kept@) =~= proc_views(before).push(rv));
        }
        i = i + 1;
    }
    assert(procs@.take(procs@.len() as int) =~= procs@);
    let ghost before = kept@;
    assert(key_views(keys@) =~= proc_keys(proc_views(before)));
    let sorted = sort_by_keys(kept, keys);
    proof {
        lemma_stable_sort_map(sorted@, before, proc_keys(proc_views(before)), |x: ProcessRow| x.view());
    }
    sorted
}

/// The detail shown for a process: name and path, with the window title
/// between them when there is one.
pub open spec fn process_detail_seq(r: ProcView) -> Seq<char> {
    if all_ws(r.title) {
        r.name + "  "@ + r.path
    } else {
        r.name + "  "@ + r.title + "  "@ + r.path
    }
}

/// The detail of a process row.
pub fn process_detail(row: &ProcessRow) -> (r: String)
    ensures
        r@ == process_detail_seq(row.view()),
{
    let mut r = owned(row.name.as_str());
    push_str(&mut r, "  ");
    if !is_blank(row.title.as_str()) {
        push_str(&mut r, row.title.as_str());
        push_str(&mut r, "  ");
    }
    push_str(&mut r, row.path.as_str());
    r
}

/// The label of a process in the picker: its id and memory, right-aligned.
pub open spec fn process_label_seq(r: ProcView) -> Seq<char> {
    pad_left_seq(dec(r.pid as nat), 7) + seq![' '] + pad_left_seq(dec(r.memory_mb as nat), 6) + " MB"@
}

/// The picker label of a process row.
pub fn process_label(row: &ProcessRow) -> (r: String)
    ensures
        r@ == process_label_seq(row.view()),
{
    let mut r = pad_left(decimal(row.pid as u64).as_str(), 7);
    push_str(&mut r, " ");
    push_str(&mut r, pad_left(decimal(row.memory_mb).as_str(), 6).as_str());
    push_str(&mut r, " MB");
    proof {
        reveal_strlit(" ");
    }
    assert(" "@ =~= seq![' ']);
    r
}

/// The picker of the process list.
pub fn process_picker(rows: &Vec<ProcessRow>) -> (r: Picker)
    ensures
        r.title_spec() == "Processes"@,
        r.header_spec() == "    PID    Memory   Process"@,
        r.help_spec() == "Use Up/Down. Enter opens actions. Esc closes."@,
        r.items_spec().len() == rows@.len(),
        forall|k: int|
            0 <= k < rows@.len() ==> (#[trigger] r.items_spec()[k]).label@ == process_label_seq(rows@[k].view())
                && r.items_spec()[k].detail@ == process_detail_seq(rows@[k].view()),
{
    let mut items: Vec<PickerItem> = Vec::new();
    let mut i: usize = 0;
    while i < rows.len()
        invariant
            i <= rows@.len(),
            items@.len() == i,
            forall|k: int|
                0 <= k < i ==> (#[trigger] items@[k]).label@ == process_label_seq(rows@[k].view())
                    && items@[k].detail@ == process_detail_seq(rows@[k].view()),
        decreases rows.len() - i,
    {
        let label = process_label(&rows[i]);
        let detail = process_detail(&rows[i]);
        items.push(PickerItem::new(label.as_str(), detail.as_str()));
        i = i + 1;
    }
    Picker::new("Processes", "    PID    Memory   Process", items).help(
        "Use Up/Down. Enter opens actions. Esc closes.",
    )
}

/// The lines printed about a chosen process: id, name, window title when
/// there is one, memory, and path (or `(unknown)`).
pub open spec fn process_info_seq(r: ProcView) -> Seq<Seq<char>> {
    let head = seq!["PID: "@ + dec(r.pid as nat), "Name: "@ + r.name];
    let with_title = if all_ws(r.title) {
        head
    } else {
        head.push("Title: "@ + r.title)
    };
    with_title.push("Memory: "@ + dec(r.memory_mb as nat) + " MB"@).push(
        "Path: "@ + if all_ws(r.path) {
            "(unknown)"@
        } else {
            r.path
        },
    )
}

/// The lines printed about a chosen process.
pub fn process_info(row: &ProcessRow) -> (r: Vec<String>)
    ensures
        crate::text::views(r@) == process_info_seq(row.view()),
{
    let mut lines: Vec<String> = Vec::new();
    let mut a = owned("PID: ");
    push_str(&mut a, decimal(row.pid as u64).as_str());
    lines.push(a);
    let mut b = owned("Name: ");
    push_str(&mut b, row.name.as_str());
    lines.push(b);
    if !is_blank(row.title.as_str()) {
        let mut c = owned("Title: ");
        push_str(&mut c, row.title.as_str());
        lines.push(c);
    }
    let mut d = owned("Memory: ");
    push_str(&mut d, decimal(row.memory_mb).as_str());
    push_str(&mut d, " MB");
    lines.push(d);
    let mut e = owned("Path: ");
    if is_blank(row.path.as_str()) {
        push_str(&mut e, "(unknown)");
    } else {
        push_str(&mut e, row.path.as_str());
    }
    lines.push(e);
    assert(crate::text::views(lines@) =~= process_info_seq(row.view()));
    lines
}

/// The actions offered for a process: kill it, or close.
pub fn process_actions(pid: u32) -> (r: Picker)
    ensures
        r.title_spec() == "Process Actions"@,
        r.header_spec() == "Action"@,
        r.help_spec() == "Use Up/Down. Enter selects. Esc closes."@,
        r.items_spec().len() == 2,
        r.items_spec()[0].label@ == "Kill process"@,
        r.items_spec()[0].detail@ == "Stop PID "@ + dec(pid as nat),
        r.items_spec()[1].label@ == "Close"@,
        r.items_spec()[1].detail@ == "Return without changes"@,
{
    let mut stop = owned("Stop PID ");
    push_str(&mut stop, decimal(pid as u64).as_str());
    let mut items: Vec<PickerItem> = Vec::new();
    items.push(PickerItem::new("Kill process", stop.as_str()));
    items.push(PickerItem::new("Close", "Return without changes"));
    Picker::new("Process Actions", "Action", items).help("Use Up/Down. Enter selects. Esc closes.")
}

/// What is printed after trying to stop a process with `tool` (`taskkill`
/// or `kill`), which succeeded or exited with `status`.
pub open spec fn kill_result_seq(pid: int, tool: Seq<char>, status: Option<Seq<char>>) -> Seq<char> {
    match status {
        None => "Stopped PID "@ + dec(pid as nat) + seq!['.'],
        Some(s) => "Failed to stop PID "@ + dec(pid as nat) + ": "@ + tool + " exited with "@ + s
            + seq!['.'],
    }
}

/// The message after trying to stop a process; `status` is the exit
/// status of a failed attempt.
pub fn kill_result(pid: u32, tool: &str, status: Option<&str>) -> (r: String)
    ensures
        r@ == kill_result_seq(pid as int, tool@, opt_seq(status)),
{
    match status {
        None => {
            let mut r = owned("Stopped PID ");
            push_str(&mut r, decimal(pid as u64).as_str());
            push_str(&mut r, ".");
            proof {
                reveal_strlit(".");
            }
            assert("."@ =~= seq!['.']);
            r
        },
        Some(s) => {
            let mut r = owned("Failed to stop PID ");
            push_str(&mut r, decimal(pid as u64).as_str());
            push_str(&mut r, ": ");
            push_str(&mut r, tool);
            push_str(&mut r, " exited with ");
            push_str(&mut r, s);
            push_str(&mut r, ".");
            proof {
                reveal_strlit(".");
            }
            assert("."@ =~= seq!['.']);
            r
        },
    }
}

/// The header of the plain listing.
pub open spec fn plain_header_seq() -> Seq<char> {
    pad_left_seq("PID"@, 7) + seq![' '] + pad_left_seq("Memory"@, 9) + "  "@ + pad_right_seq("Name"@, 28)
        + seq![' '] + pad_right_seq("Title"@, 32) + " Path"@
}

/// The header of the plain listing.
pub fn plain_header() -> (r: String)
    ensures
        r@ == plain_header_seq(),
{
    let mut r = pad_left("PID", 7);
    push_str(&mut r, " ");
    push_str(&mut r, pad_left("Memory", 9).as_str());
    push_str(&mut r, "  ");
    push_str(&mut r, pad_right("Name", 28).as_str());
    push_str(&mut r, " ");
    push_str(&mut r, pad_right("Title", 32).as_str());
    push_str(&mut r, " Path");
    proof {
        reveal_strlit(" ");
    }
    assert(" "@ =~= seq![' ']);
    r
}

/// A line of the plain listing.
pub open spec fn plain_line_seq(r: ProcView) -> Seq<char> {
    pad_left_seq(dec(r.pid as nat), 7) + seq![' '] + pad_left_seq(dec(r.memory_mb as nat), 6) + " MB  "@
        + pad_right_seq(r.name, 28) + seq![' '] + pad_right_seq(r.title, 32) + seq![' '] + r.path
}

/// The line of one process in the plain listing.
pub fn plain_line(row: &ProcessRow) -> (r: String)
    ensures
        r@ == plain_line_seq(row.view()),
{
    let mut r = pad_left(decimal(row.pid as u64).as_str(), 7);
    push_str(&mut r, " ");
    push_str(&mut r, pad_left(decimal(row.memory_mb).as_str(), 6).as_str());
    push_str(&mut r, " MB  ");
    push_str(&mut r, pad_right(row.name.as_str(), 28).as_str());
    push_str(&mut r, " ");
    push_str(&mut r, pad_right(row.title.as_str(), 32).as_str());
    push_str(&mut r, " ");
    push_str(&mut r, row.path.as_str());
    proof {
        reveal_strlit(" ");
    }
    assert(" "@ =~= seq![' ']);
    r
}

/// The reported window titles that are not blank, in order.
pub open spec fn visible_titles_seq(titles: Seq<(u32, String)>) -> Seq<(u32, Seq<char>)>
    decreases titles.len(),
{
    if titles.len() == 0 {
        Seq::empty()
    } else {
        let rest = visible_titles_seq(titles.drop_last());
        if all_ws(titles.last().1@) {
            rest
        } else {
            rest.push((titles.last().0, titles.last().1@))
        }
    }
}

/// Drops the blank titles of the window-title report.
pub fn visible_titles(titles: Vec<(u32, String)>) -> (r: Vec<(u32, String)>)
    ensures
        r@.map_values(|x: (u32, String)| (x.0, x.1@)) == visible_titles_seq(titles@),
{
    let mut r: Vec<(u32, String)> = Vec::new();
    let mut i: usize = 0;
    while i < titles.len()
        invariant
            i <= titles@.len(),
            r@.map_values(|x: (u32, String)| (x.0, x.1@)) == visible_titles_seq(titles@.take(i as int)),
        decreases titles.len() - i,
    {
        proof {
            assert(titles@.take(i + 1).drop_last() =~= titles@.take(i as int));
            assert(titles@.take(i + 1).last() == titles@[i as int]);
        }
        if !is_blank(titles[i].1.as_str()) {
            let ghost before = r@;
            r.push((titles[i].0, owned(titles[i].1.as_str())));
            assert(r@.map_values(|x: (u32, String)| (x.0, x.1@)) =~= before.map_values(
                |x: (u32, String)| (x.0, x.1@),
            ).push((titles@[i as int].0, titles@[i as int].1@)));
        }
        i = i + 1;
    }
    assert(titles@.take(titles@.len() as int) =~= titles@);
    r
}

} // verus!
