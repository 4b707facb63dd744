//! Saved terminal history: which commands are listed, in what order, and
//! how they are shown.
use vstd::prelude::*;

use crate::num::{dec, decimal};
use crate::picker::{Picker, PickerItem};
use crate::sort::{is_stable_sort, key_val, key_views, lemma_stable_sort_map, sort_by_keys, KeyPart, KeyVal};
use crate::text::{
    all_ws, chars_of, is_blank, owned, pad_right, pad_right_seq, pair_matches, pair_matches_seq,
    push_char, push_str, rfind_seq, rfind_vec, str_eq, string_of_range, to_lowercase,
    unicode_lowercase,
};

verus! {

/// `ps history [-q <query>] [--result <file>]`.
#[derive(Clone, Debug)]
pub struct HistoryArgs {
    /// Keep commands whose text or path contains this, ignoring case.
    pub query: Option<String>,
    /// Where the profile bridge wants the chosen command.
    pub result: Option<String>,
}

/// A recorded command.
#[derive(Clone, Debug)]
pub struct HistoryEntry {
    pub command: String,
    pub path: String,
    pub timestamp: u64,
}

impl Default for HistoryEntry {
    fn default() -> (r: HistoryEntry)
        ensures
            r.command@.len() == 0,
            r.path@.len() == 0,
            r.timestamp == 0,
    {
        HistoryEntry { command: String::new(), path: String::new(), timestamp: 0 }
    }
}

/// One history file: the commands run in one directory.
#[derive(Clone, Debug)]
pub struct HistoryFile {
    pub commands: Vec<HistoryEntry>,
}

impl Default for HistoryFile {
    fn default() -> (r: HistoryFile)
        ensures
            r.commands@.len() == 0,
    {
        HistoryFile { commands: Vec::new() }
    }
}

/// A listed command.
#[derive(Clone, Debug)]
pub struct HistoryRow {
    pub command: String,
    pub path: String,
    pub timestamp: u64,
}

/// The value of a listed command.
pub struct RowView {
    pub command: Seq<char>,
    pub path: Seq<char>,
    pub timestamp: int,
}

impl HistoryEntry {
    pub open spec fn view(&self) -> RowView {
        RowView { command: self.command@, path: self.path@, timestamp: self.timestamp as int }
    }
}

impl HistoryRow {
    pub open spec fn view(&self) -> RowView {
        RowView { command: self.command@, path: self.path@, timestamp: self.timestamp as int }
    }
}

pub open spec fn entry_views(e: Seq<HistoryEntry>) -> Seq<RowView> {
    e.map_values(|x: HistoryEntry| x.view())
}

pub open spec fn row_views(r: Seq<HistoryRow>) -> Seq<RowView> {
    r.map_values(|x: HistoryRow| x.view())
}

/// A command is listed when it is not blank and, with a query, its text
/// and path (lowercased, joined by a space) contain the lowercased query.
pub open spec fn listed(e: RowView, filter: Option<Seq<char>>) -> bool {
    !all_ws(e.command) && match filter {
        Some(f) => pair_matches_seq(e.command, e.path, unicode_lowercase(f)),
        None => true,
    }
}

/// A history file is a `.json` file: the text after the last `.` of its
/// name, where that `.` is not the first character, is `json`.
pub open spec fn is_history_file_seq(name: Seq<char>) -> bool {
    match rfind_seq(name, seq!['.']) {
        Some(k) => k > 0 && name.skip(k + 1) == "json"@,
        None => false,
    }
}

/// Whether a file of the history directory, by its name, holds history.
pub fn is_history_file(name: &str) -> (r: bool)
    ensures
        r == is_history_file_seq(name@),
{
    let v = chars_of(name);
    let mut dot: Vec<char> = Vec::new();
    dot.push('.');
    assert(dot@ =~= seq!['.']);
    match rfind_vec(&v, &dot) {
        Some(k) => {
            if k == 0 {
                return false;
            }
            let n = v.len();
            assert(k + 1 <= n);
            let ext = string_of_range(&v, k + 1, n);
            assert(v@.subrange(k + 1, v@.len() as int) =~= v@.skip(k + 1));
            str_eq(ext.as_str(), "json")
        },
        None => false,
    }
}

/// The listed entries, in their order.
pub open spec fn listed_seq(e: Seq<RowView>, filter: Option<Seq<char>>) -> Seq<RowView>
    decreases e.len(),
{
    if e.len() == 0 {
        Seq::empty()
    } else {
        let rest = listed_seq(e.drop_last(), filter);
        if listed(e.last(), filter) {
            rest.push(e.last())
        } else {
            rest
        }
    }
}

/// Newest first, then by command.
pub open spec fn row_key(r: RowView) -> Seq<KeyVal> {
    seq![KeyVal::Desc(r.timestamp), KeyVal::Text(r.command)]
}

pub open spec fn row_keys(r: Seq<RowView>) -> Seq<Seq<KeyVal>> {
    r.map_values(|x: RowView| row_key(x))
}

/// The list without consecutive repeats of the same command in the same
/// directory (the first of each run stays).
pub open spec fn dedup_runs(r: Seq<RowView>) -> Seq<RowView>
    decreases r.len(),
{
    if r.len() == 0 {
        Seq::empty()
    } else {
        let rest = dedup_runs(r.drop_last());
        if r.len() >= 2 && r[r.len() - 2].command == r.last().command && r[r.len() - 2].path
            == r.last().path {
            rest
        } else {
            rest.push(r.last())
        }
    }
}

pub open spec fn opt_seq(o: Option<&str>) -> Option<Seq<char>> {
    match o {
        Some(s) => Some(s@),
        None => None,
    }
}

/// The rows of the history list, from the entries of all history files:
/// listed entries, newest first (then by command), with consecutive
/// repeats of a command in the same directory shown once.
pub fn history_rows(entries: Vec<HistoryEntry>, filter: Option<&str>) -> (r: Vec<HistoryRow>)
    ensures
        exists|sorted: Seq<RowView>|
            is_stable_sort(
                sorted,
                listed_seq(entry_views(entries@), opt_seq(filter)),
                row_keys(listed_seq(entry_views(entries@), opt_seq(filter))),
            ) && row_views(r@) == dedup_runs(sorted),
{
    let lowered: Option<String> = match filter {
        Some(f) => Some(to_lowercase(f)),
        None => None,
    };
    let mut kept: Vec<HistoryRow> = Vec::new();
    let mut keys: Vec<Vec<KeyPart>> = Vec::new();
    let mut i: usize = 0;
    while i < entries.len()
        invariant
            i <= entries@.len(),
            match filter {
                Some(f) => lowered matches Some(l) && l@ == unicode_lowercase(f@),
                None => lowered is None,
            },
            row_views(kept@) == listed_seq(entry_views(entries@.take(i as int)), opt_seq(filter)),
            keys@.len() == kept@.len(),
            forall|j: int| 0 <= j < keys@.len() ==> key_val(#[trigger] keys@[j]@) == row_key(kept@[j].view()),
        decreases entries.len() - i,
    {
        let e = &entries[i];
        proof {
            assert(entry_views(entries@.take(i + 1)).drop_last() =~= entry_views(entries@.take(i as int)));
            assert(entry_views(entries@.take(i + 1)).last() == entries@[i as int].view());
        }
        let keep = !is_blank(e.command.as_str()) && match &lowered {
            Some(l) => pair_matches(e.command.as_str(), e.path.as_str(), l.as_str()),
            None => true,
        };
        if keep {
            let ghost before = kept@;
            let row = HistoryRow { command: owned(e.command.as_str()), path: owned(e.path.as_str()), timestamp: e.timestamp };
            let mut k: Vec<KeyPart> = Vec::new();
            k.push(KeyPart::Desc(row.timestamp));
            k.push(KeyPart::Text(chars_of(row.command.as_str())));
            assert(key_val(k@) =~= row_key(row.view()));
            kept.push(row);
            keys.push(k);
            assert(row_views(kept@) =~= row_views(before).push(entries@[i as int].view()));
        }
        i = i + 1;
    }
    assert(entries@.take(entries@.len() as int) =~= entries@);
    let ghost before = kept@;
    assert(key_views(keys@) =~= row_keys(row_views(before)));
    let sorted = sort_by_keys(kept, keys);
    proof {
        lemma_stable_sort_map(sorted@, before, row_keys(row_views(before)), |x: HistoryRow| x.view());
    }
    let ghost sv = row_views(sorted@);
    let mut out: Vec<HistoryRow> = Vec::new();
    let mut rest = sorted;
    let mut rev: Vec<HistoryRow> = Vec::new();
    let ghost all = rest@;
    assert(all.len() == rest.len());
    while rest.len() > 0
        invariant
            rest@.len() + rev@.len() == all.len(),
            all.len() <= usize::MAX,
            forall|j: int| 0 <= j < rest@.len() ==> rest@[j] == all[j],
            forall|j: int| 0 <= j < rev@.len() ==> rev@[j] == all[all.len() - 1 - j],
        decreases rest.len(),
    {
        let x = rest.pop().unwrap();
        rev.push(x);
    }
    let mut n: usize = 0;
    let mut last_command: Vec<char> = Vec::new();
    let mut last_path: Vec<char> = Vec::new();
    while rev.len() > 0
        invariant
            sv == row_views(all),
            all.len() <= usize::MAX,
            rev@.len() + n == all.len(),
            forall|j: int| 0 <= j < rev@.len() ==> rev@[j] == all[all.len() - 1 - j],
            row_views(out@) == dedup_runs(sv.take(n as int)),
            n > 0 ==> last_command@ == sv[n - 1].command && last_path@ == sv[n - 1].path,
        decreases rev.len(),
    {
        let x = rev.pop().unwrap();
        let cv = chars_of(x.command.as_str());
        let pv = chars_of(x.path.as_str());
        let repeat = n > 0 && crate::text::seq_eq(&last_command, &cv) && crate::text::seq_eq(&last_path, &pv);
        proof {
            let t = sv.take(n + 1);
            assert(t.drop_last() =~= sv.take(n as int));
            assert(t.last() == x.view());
            if n > 0 {
                assert(t[t.len() - 2] == sv[n - 1]);
            }
        }
        last_command = cv;
        last_path = pv;
        if !repeat {
            let ghost ob = out@;
            let ghost xv = x.view();
            out.push(x);
            assert(row_views(out@) =~= row_views(ob).push(xv));
        }
        n = n + 1;
    }
    assert(sv.take(all.len() as int) =~= sv);
    out
}

/// The detail of a row in the picker: the time and the directory.
pub open spec fn row_detail_seq(r: RowView) -> Seq<char> {
    dec(r.timestamp as nat) + "  "@ + r.path
}

/// The picker of the history list.
pub fn history_picker(rows: &Vec<HistoryRow>) -> (r: Picker)
    ensures
        r.title_spec() == "Command History"@,
        r.header_spec() == "Command                         Time and Path"@,
        r.help_spec() == "Use Up/Down. Enter runs the selected command. Esc closes."@,
        r.items_spec().len() == rows@.len(),
        forall|k: int|
            0 <= k < rows@.len() ==> (#[trigger] r.items_spec()[k]).label@ == rows@[k].command@
                && r.items_spec()[k].detail@ == row_detail_seq(rows@[k].view()),
{
    let mut items: Vec<PickerItem> = Vec::new();
    let mut i: usize = 0;
    while i < rows.len()
        invariant
            i <= rows@.len(),
            items@.len() == i,
            forall|k: int|
                0 <= k < i ==> (#[trigger] items@[k]).label@ == rows@[k].command@ && items@[k].detail@
                    == row_detail_seq(rows@[k].view()),
        decreases rows.len() - i,
    {
        let mut detail = decimal(rows[i].timestamp);
        push_str(&mut detail, "  ");
        push_str(&mut detail, rows[i].path.as_str());
        items.push(PickerItem::new(rows[i].command.as_str(), detail.as_str()));
        i = i + 1;
    }
    Picker::new("Command History", "Command                         Time and Path", items).help(
        "Use Up/Down. Enter runs the selected command. Esc closes.",
    )
}

/// The header of the plain listing.
pub open spec fn plain_header_seq() -> Seq<char> {
    pad_right_seq("Timestamp"@, 12) + seq![' '] + pad_right_seq("Command"@, 48) + " Path"@
}

/// The header of the plain listing.
pub fn plain_header() -> (r: String)
    ensures
        r@ == plain_header_seq(),
{
    let mut r = pad_right("Timestamp", 12);
    push_char(&mut r, ' ');
    push_str(&mut r, pad_right("Command", 48).as_str());
    push_str(&mut r, " Path");
    r
}

/// A line of the plain listing: time, command, directory.
pub open spec fn plain_line_seq(r: RowView) -> Seq<char> {
    pad_right_seq(dec(r.timestamp as nat), 12) + seq![' '] + pad_right_seq(r.command, 48) + seq![' ']
        + r.path
}

/// The line of one row in the plain listing.
pub fn plain_line(row: &HistoryRow) -> (r: String)
    ensures
        r@ == plain_line_seq(row.view()),
{
    let mut r = pad_right(decimal(row.timestamp).as_str(), 12);
    push_char(&mut r, ' ');
    push_str(&mut r, pad_right(row.command.as_str(), 48).as_str());
    push_char(&mut r, ' ');
    push_str(&mut r, row.path.as_str());
    r
}

proof fn lemma_dedup_last(r: Seq<RowView>)
    requires
        r.len() > 0,
    ensures
        dedup_runs(r).len() > 0,
        dedup_runs(r).last().command == r.last().command,
        dedup_runs(r).last().path == r.last().path,
    decreases r.len(),
{
    if r.len() >= 2 {
        lemma_dedup_last(r.drop_last());
        assert(r.drop_last().last() == r[r.len() - 2]);
    }
}

/// No two neighbouring rows of the list repeat the same command in the
/// same directory.
pub proof fn law_no_repeated_neighbours(r: Seq<RowView>)
    ensures
        forall|i: int|
            0 <= i < dedup_runs(r).len() - 1 ==> !(#[trigger] dedup_runs(r)[i].command == dedup_runs(
                r,
            )[i + 1].command && dedup_runs(r)[i].path == dedup_runs(r)[i + 1].path),
    decreases r.len(),
{
    if r.len() > 0 {
        law_no_repeated_neighbours(r.drop_last());
        let d = dedup_runs(r.drop_last());
        if !(r.len() >= 2 && r[r.len() - 2].command == r.last().command && r[r.len() - 2].path
            == r.last().path) {
            let e = d.push(r.last());
            if r.len() >= 2 {
                lemma_dedup_last(r.drop_last());
                assert(r.drop_last().last() == r[r.len() - 2]);
            }
            assert forall|i: int| 0 <= i < e.len() - 1 implies !(#[trigger] e[i].command == e[i
                + 1].command && e[i].path == e[i + 1].path) by {
                if i + 1 < d.len() {
                    assert(e[i] == d[i] && e[i + 1] == d[i + 1]);
                } else {
                    assert(e[i] == d.last());
                    assert(e[i + 1] == r.last());
                }
            }
        }
    }
}

} // verus!
