//! The saved-path menu (`@`): its entries, the names given to saved
//! paths, and what saving or opening a path does.
use vstd::prelude::*;

use crate::config::{PathsConfig, SavedPath};
use crate::menu::{Menu, MenuItem};
use crate::num::{dec, decimal, lemma_dec_injective};
use crate::paths::{path_name, path_name_seq, same_path, same_path_seq};
use crate::quote::{ps_quote, ps_quote_seq};
use crate::sort::{
    is_stable_sort, key_val, key_views, lemma_key_order_two, lemma_stable_sort_map,
    lemma_stable_sort_ordered, sort_by_keys, text_order, KeyPart, KeyVal,
};
use crate::text::{chars_of, lemma_distinct_within, owned, push_char, push_str, str_eq};

verus! {

/// An entry of the menu.
#[derive(Clone, Debug)]
pub enum PathMenuItem {
    /// Save the current directory.
    SaveCurrent,
    /// Open a saved path.
    Saved(SavedPath),
}

/// The value of a saved path.
pub struct SavedPathView {
    pub name: Seq<char>,
    pub path: Seq<char>,
    pub last_accessed: int,
}

impl SavedPath {
    pub open spec fn view(&self) -> SavedPathView {
        SavedPathView { name: self.name@, path: self.path@, last_accessed: self.last_accessed as int }
    }
}

pub open spec fn saved_views(s: Seq<SavedPath>) -> Seq<SavedPathView> {
    s.map_values(|p: SavedPath| p.view())
}

/// The saved path of a menu entry (a blank one for the save entry).
pub open spec fn entry_saved(item: PathMenuItem) -> SavedPathView {
    match item {
        PathMenuItem::Saved(s) => s.view(),
        PathMenuItem::SaveCurrent => SavedPathView { name: Seq::empty(), path: Seq::empty(), last_accessed: 0 },
    }
}

pub open spec fn entry_views(items: Seq<PathMenuItem>) -> Seq<SavedPathView> {
    items.map_values(|i: PathMenuItem| entry_saved(i))
}

/// Most recently used first, then by name.
pub open spec fn saved_key(s: SavedPathView) -> Seq<KeyVal> {
    seq![KeyVal::Desc(s.last_accessed), KeyVal::Text(s.name)]
}

pub open spec fn saved_keys(s: Seq<SavedPathView>) -> Seq<Seq<KeyVal>> {
    s.map_values(|v: SavedPathView| saved_key(v))
}

/// The saved paths of the menu are most recently used first: along them,
/// `last_accessed` never increases, and paths used at the same time come in
/// ascending order of name.
pub proof fn law_saved_paths_recent_first(before: Seq<SavedPathView>, after: Seq<SavedPathView>)
    requires
        is_stable_sort(after, before, saved_keys(before)),
    ensures
        after.len() == before.len(),
        forall|i: int, j: int|
            0 <= i < j < after.len() ==> (#[trigger] after[i]).last_accessed >= (
            #[trigger] after[j]).last_accessed && (after[i].last_accessed == after[j].last_accessed
                ==> text_order(after[i].name, after[j].name) <= 0),
{
    let f = |v: SavedPathView| saved_key(v);
    assert(saved_keys(before) =~= before.map_values(f));
    lemma_stable_sort_ordered(after, before, f);
    assert forall|i: int, j: int| 0 <= i < j < after.len() implies (#[trigger] after[i]).last_accessed
        >= (#[trigger] after[j]).last_accessed && (after[i].last_accessed == after[j].last_accessed
        ==> text_order(after[i].name, after[j].name) <= 0) by {
        assert(crate::sort::key_order(f(after[i]), f(after[j])) <= 0);
        lemma_key_order_two(
            KeyVal::Desc(after[i].last_accessed),
            KeyVal::Text(after[i].name),
            KeyVal::Desc(after[j].last_accessed),
            KeyVal::Text(after[j].name),
        );
    }
}

fn copy_saved(s: &SavedPath) -> (r: SavedPath)
    ensures
        r.view() == s.view(),
{
    SavedPath { name: owned(s.name.as_str()), path: owned(s.path.as_str()), last_accessed: s.last_accessed }
}

/// The menu entries: saving the current path first, then the saved paths,
/// most recently used first (then by name).
pub fn menu_items(paths: &PathsConfig) -> (r: Vec<PathMenuItem>)
    ensures
        r@.len() == paths.saved@.len() + 1,
        r@[0] is SaveCurrent,
        forall|k: int| 1 <= k < r@.len() ==> #[trigger] r@[k] is Saved,
        is_stable_sort(
            entry_views(r@.skip(1)),
            saved_views(paths.saved@),
            saved_keys(saved_views(paths.saved@)),
        ),
        forall|i: int, j: int|
            1 <= i < j < r@.len() ==> (#[trigger] entry_saved(r@[i])).last_accessed >= (
            #[trigger] entry_saved(r@[j])).last_accessed && (entry_saved(r@[i]).last_accessed
                == entry_saved(r@[j]).last_accessed ==> text_order(
                entry_saved(r@[i]).name,
                entry_saved(r@[j]).name,
            ) <= 0),
{
    let mut copies: Vec<SavedPath> = Vec::new();
    let mut keys: Vec<Vec<KeyPart>> = Vec::new();
    let mut i: usize = 0;
    while i < paths.saved.len()
        invariant
            i <= paths.saved@.len(),
            copies@.len() == i,
            keys@.len() == i,
            forall|j: int| 0 <= j < i ==> (#[trigger] copies@[j]).view() == paths.saved@[j].view(),
            forall|j: int|
                0 <= j < i ==> key_val(#[trigger] keys@[j]@) == saved_key(paths.saved@[j].view()),
        decreases paths.saved.len() - i,
    {
        let c = copy_saved(&paths.saved[i]);
        let mut k: Vec<KeyPart> = Vec::new();
        k.push(KeyPart::Desc(c.last_accessed));
        k.push(KeyPart::Text(chars_of(c.name.as_str())));
        assert(key_val(k@) =~= saved_key(paths.saved@[i as int].view()));
        copies.push(c);
        keys.push(k);
        i = i + 1;
    }
    let ghost before = copies@;
    assert(saved_views(before) =~= saved_views(paths.saved@));
    assert(key_views(keys@) =~= saved_keys(saved_views(before)));
    let sorted = sort_by_keys(copies, keys);
    proof {
        lemma_stable_sort_map(sorted@, before, saved_keys(saved_views(before)), |p: SavedPath| p.view());
    }
    let ghost sv = sorted@;
    let mut items: Vec<PathMenuItem> = Vec::new();
    items.push(PathMenuItem::SaveCurrent);
    let mut rest = sorted;
    let mut rev: Vec<SavedPath> = Vec::new();
    while rest.len() > 0
        invariant
            rest@.len() + rev@.len() == sv.len(),
            forall|j: int| 0 <= j < rest@.len() ==> rest@[j] == sv[j],
            forall|j: int| 0 <= j < rev@.len() ==> rev@[j] == sv[sv.len() - 1 - j],
        decreases rest.len(),
    {
        let s = rest.pop().unwrap();
        rev.push(s);
    }
    while rev.len() > 0
        invariant
            items@.len() >= 1,
            items@[0] is SaveCurrent,
            rev@.len() + items@.len() - 1 == sv.len(),
            forall|j: int| 0 <= j < rev@.len() ==> rev@[j] == sv[sv.len() - 1 - j],
            forall|k: int| 1 <= k < items@.len() ==> #[trigger] items@[k] is Saved,
            entry_views(items@.skip(1)) == saved_views(sv.take(items@.len() - 1)),
        decreases rev.len(),
    {
        let s = rev.pop().unwrap();
        let ghost ib = items@;
        let ghost sval = s;
        items.push(PathMenuItem::Saved(s));
        assert(entry_views(items@.skip(1)) =~= entry_views(ib.skip(1)).push(sval.view()));
        assert(saved_views(sv.take(items@.len() - 1)) =~= saved_views(sv.take(ib.len() - 1)).push(
            sv[ib.len() - 1].view(),
        ));
    }
    assert(sv.take(sv.len() as int) =~= sv);
    proof {
        let e = entry_views(items@.skip(1));
        law_saved_paths_recent_first(saved_views(paths.saved@), e);
        assert forall|i: int, j: int| 1 <= i < j < items@.len() implies (#[trigger] entry_saved(
            items@[i],
        )).last_accessed >= (#[trigger] entry_saved(items@[j])).last_accessed && (entry_saved(
            items@[i],
        ).last_accessed == entry_saved(items@[j]).last_accessed ==> text_order(
            entry_saved(items@[i]).name,
            entry_saved(items@[j]).name,
        ) <= 0) by {
            assert(e[i - 1] == entry_saved(items@[i]));
            assert(e[j - 1] == entry_saved(items@[j]));
        }
    }
    items
}

/// The menu shown for the entries: the save entry shows the current path
/// under it, and saved paths show their path beside their name.
pub fn path_menu(items: &Vec<PathMenuItem>, current_path: &str) -> (r: Menu)
    ensures
        r.title_spec() == "@ saved paths"@,
        r.help_spec() == "Use Up/Down. Enter selects. Esc cancels."@,
        r.note_spec() == Some("Current: "@ + current_path@),
        r.cancel_message_spec() == "path menu canceled"@,
        r.items_spec().len() == items@.len(),
        forall|k: int| 0 <= k < items@.len() ==> match #[trigger] items@[k] {
            PathMenuItem::SaveCurrent => r.items_spec()[k].label@ == "Save current path"@
                && r.items_spec()[k].description is None && views_of(r.items_spec()[k].details@)
                == seq![current_path@],
            PathMenuItem::Saved(s) => r.items_spec()[k].label@ == s.name@ && (
            r.items_spec()[k].description matches Some(d) && d@ == s.path@)
                && r.items_spec()[k].details@.len() == 0,
        },
{
    let mut entries: Vec<MenuItem> = Vec::new();
    let mut i: usize = 0;
    while i < items.len()
        invariant
            i <= items@.len(),
            entries@.len() == i,
            forall|k: int| 0 <= k < i ==> match #[trigger] items@[k] {
                PathMenuItem::SaveCurrent => entries@[k].label@ == "Save current path"@
                    && entries@[k].description is None && views_of(entries@[k].details@) == seq![
                    current_path@],
                PathMenuItem::Saved(s) => entries@[k].label@ == s.name@ && (
                entries@[k].description matches Some(d) && d@ == s.path@)
                    && entries@[k].details@.len() == 0,
            },
        decreases items.len() - i,
    {
        let entry = match &items[i] {
            PathMenuItem::SaveCurrent => {
                let e = MenuItem::new("Save current path").detail(current_path);
                assert(views_of(e.details@) =~= seq![current_path@]);
                e
            },
            PathMenuItem::Saved(s) => MenuItem::new(s.name.as_str()).description(s.path.as_str()),
        };
        entries.push(entry);
        i = i + 1;
    }
    let mut note = owned("Current: ");
    push_str(&mut note, current_path);
    Menu::new("@ saved paths", entries).help("Use Up/Down. Enter selects. Esc cancels.").note(
        Some(note),
    ).cancel_message("path menu canceled")
}

pub open spec fn views_of(v: Seq<String>) -> Seq<Seq<char>> {
    v.map_values(|s: String| s@)
}

/// The names of the saved paths.
pub open spec fn saved_names(s: Seq<SavedPath>) -> Seq<Seq<char>> {
    s.map_values(|p: SavedPath| p.name@)
}

/// `<name>-<counter>`.
pub open spec fn numbered_name(name: Seq<char>, counter: int) -> Seq<char> {
    name + seq!['-'] + dec(counter as nat)
}

proof fn lemma_numbered_injective(name: Seq<char>, a: int, b: int)
    requires
        a >= 0,
        b >= 0,
        numbered_name(name, a) == numbered_name(name, b),
    ensures
        a == b,
{
    let k: int = name.len() as int + 1;
    assert(numbered_name(name, a).skip(k) =~= dec(a as nat));
    assert(numbered_name(name, b).skip(k) =~= dec(b as nat));
    lemma_dec_injective(a as nat, b as nat);
}

fn name_taken(saved: &Vec<SavedPath>, name: &str) -> (r: bool)
    ensures
        r == saved_names(saved@).contains(name@),
{
    let mut i: usize = 0;
    while i < saved.len()
        invariant
            i <= saved@.len(),
            forall|j: int| 0 <= j < i ==> saved@[j].name@ != name@,
        decreases saved.len() - i,
    {
        if str_eq(saved[i].name.as_str(), name) {
            assert(saved_names(saved@)[i as int] == name@);
            return true;
        }
        i = i + 1;
    }
    proof {
        if saved_names(saved@).contains(name@) {
            let j = choose|j: int| 0 <= j < saved_names(saved@).len() && saved_names(saved@)[j] == name@;
            assert(saved@[j].name@ == name@);
        }
    }
    false
}

/// A name for a new saved path: `name` when no saved path has it, else
/// `name-2`, `name-3`, ... up to the first that is free.
pub fn unique_name(saved: &Vec<SavedPath>, name: &str) -> (r: String)
    requires
        saved@.len() < usize::MAX - 1,
    ensures
        !saved_names(saved@).contains(r@),
        !saved_names(saved@).contains(name@) ==> r@ == name@,
        saved_names(saved@).contains(name@) ==> exists|c: int|
            c >= 2 && r@ == numbered_name(name@, c) && forall|d: int|
                2 <= d < c ==> saved_names(saved@).contains(#[trigger] numbered_name(name@, d)),
{
    if !name_taken(saved, name) {
        return owned(name);
    }
    let ghost names = saved_names(saved@);
    let mut counter: usize = 2;
    loop
        invariant
            names == saved_names(saved@),
            names.contains(name@),
            names.len() == saved@.len(),
            saved@.len() < usize::MAX - 1,
            2 <= counter <= saved@.len() + 2,
            forall|d: int| 2 <= d < counter ==> names.contains(#[trigger] numbered_name(name@, d)),
        decreases saved@.len() + 2 - counter,
    {
        let mut candidate = owned(name);
        push_char(&mut candidate, '-');
        push_str(&mut candidate, decimal(counter as u64).as_str());
        assert(candidate@ =~= numbered_name(name@, counter as int));
        if !name_taken(saved, candidate.as_str()) {
            return candidate;
        }
        proof {
            let c = Seq::new((counter - 1) as nat, |i: int| numbered_name(name@, i + 2));
            assert forall|i: int, j: int| 0 <= i < c.len() && 0 <= j < c.len() && i != j implies c[i] != c[j] by {
                if c[i] == c[j] {
                    lemma_numbered_injective(name@, i + 2, j + 2);
                }
            }
            assert forall|i: int| 0 <= i < c.len() implies names.contains(#[trigger] c[i]) by {
                assert(c[i] == numbered_name(name@, i + 2));
            }
            lemma_distinct_within(c, names);
        }
        counter = counter + 1;
    }
}

/// The index of the first saved path that is the same path as `path`.
pub open spec fn first_same_path(saved: Seq<SavedPath>, path: Seq<char>, ignore_case: bool) -> Option<int>
    decreases saved.len(),
{
    if saved.len() == 0 {
        None
    } else if same_path_seq(saved[0].path@, path, ignore_case) {
        Some(0)
    } else {
        match first_same_path(saved.drop_first(), path, ignore_case) {
            Some(i) => Some(i + 1),
            None => None,
        }
    }
}

proof fn lemma_first_same_path(saved: Seq<SavedPath>, path: Seq<char>, ignore_case: bool)
    ensures
        first_same_path(saved, path, ignore_case) matches Some(i) ==> 0 <= i < saved.len()
            && same_path_seq(saved[i].path@, path, ignore_case) && forall|j: int|
            0 <= j < i ==> !same_path_seq(#[trigger] saved[j].path@, path, ignore_case),
        first_same_path(saved, path, ignore_case) is None ==> forall|j: int|
            0 <= j < saved.len() ==> !same_path_seq(#[trigger] saved[j].path@, path, ignore_case),
    decreases saved.len(),
{
    if saved.len() > 0 {
        lemma_first_same_path(saved.drop_first(), path, ignore_case);
        assert forall|j: int| 0 < j < saved.len() implies saved[j] == saved.drop_first()[j - 1] by {}
    }
}

fn find_same_path(saved: &Vec<SavedPath>, path: &str, ignore_case: bool) -> (r: Option<usize>)
    ensures
        r matches Some(i) ==> i < saved@.len() && first_same_path(saved@, path@, ignore_case) == Some(i as int),
        r is None ==> first_same_path(saved@, path@, ignore_case) is None,
{
    let mut i: usize = 0;
    while i < saved.len()
        invariant
            i <= saved@.len(),
            forall|j: int| 0 <= j < i ==> !same_path_seq(#[trigger] saved@[j].path@, path@, ignore_case),
        decreases saved.len() - i,
    {
        if same_path(saved[i].path.as_str(), path, ignore_case) {
            proof {
                lemma_first_same_path(saved@, path@, ignore_case);
            }
            return Some(i);
        }
        i = i + 1;
    }
    proof {
        lemma_first_same_path(saved@, path@, ignore_case);
    }
    None
}

/// `Write-Host '<message>'` and a line break.
pub open spec fn write_host_seq(message: Seq<char>) -> Seq<char> {
    "Write-Host "@ + ps_quote_seq(message) + seq!['\n']
}

/// Saves the current path, or marks it used when it is saved already, and
/// returns the script that reports it. New entries are named after the
/// path's last component, made unique.
pub fn save_current_path(paths: &mut PathsConfig, current_path: &str, now: u64, ignore_case: bool) -> (r: String)
    requires
        old(paths).saved@.len() < usize::MAX - 1,
    ensures
        final(paths).version == old(paths).version,
        r@ == write_host_seq("Saved path: "@ + current_path@),
        first_same_path(final(paths).saved@, current_path@, ignore_case) is Some,
        match first_same_path(old(paths).saved@, current_path@, ignore_case) {
            Some(i) => final(paths).saved@.len() == old(paths).saved@.len()
                && final(paths).saved@[i].view() == SavedPathView { last_accessed: now as int, ..old(paths).saved@[i].view() }
                && forall|j: int| 0 <= j < old(paths).saved@.len() && j != i ==> #[trigger] final(paths).saved@[j] == old(paths).saved@[j],
            None => {
                let added = final(paths).saved@.last();
                &&& final(paths).saved@.drop_last() == old(paths).saved@
                &&& final(paths).saved@.len() == old(paths).saved@.len() + 1
                &&& added.path@ == current_path@
                &&& added.last_accessed == now
                &&& !saved_names(old(paths).saved@).contains(added.name@)
                &&& (!saved_names(old(paths).saved@).contains(path_name_seq(current_path@)) ==> added.name@ == path_name_seq(current_path@))
                &&& (saved_names(old(paths).saved@).contains(path_name_seq(current_path@)) ==> exists|c: int|
                    c >= 2 && added.name@ == numbered_name(path_name_seq(current_path@), c) && forall|d: int|
                        2 <= d < c ==> saved_names(old(paths).saved@).contains(
                            #[trigger] numbered_name(path_name_seq(current_path@), d),
                        ))
            },
        },
{
    match find_same_path(&paths.saved, current_path, ignore_case) {
        Some(i) => {
            let mut s = SavedPath { name: String::new(), path: String::new(), last_accessed: 0 };
            std::mem::swap(&mut s, &mut paths.saved[i]);
            s.last_accessed = now;
            paths.saved.set(i, s);
        },
        None => {
            let base = path_name(current_path);
            let name = unique_name(&paths.saved, base.as_str());
            let ghost before = paths.saved@;
            paths.saved.push(SavedPath { name, path: owned(current_path), last_accessed: now });
            assert(paths.saved@.drop_last() =~= before);
        },
    }
    proof {
        lemma_first_same_path(paths.saved@, current_path@, ignore_case);
        lemma_first_same_path(old(paths).saved@, current_path@, ignore_case);
        if first_same_path(paths.saved@, current_path@, ignore_case) is None {
            let k: int = match first_same_path(old(paths).saved@, current_path@, ignore_case) {
                Some(i) => i,
                None => old(paths).saved@.len() as int,
            };
            assert(paths.saved@[k].path@ == current_path@);
            assert(same_path_seq(paths.saved@[k].path@, current_path@, ignore_case));
        }
    }
    let mut message = owned("Saved path: ");
    push_str(&mut message, current_path);
    let mut r = owned("Write-Host ");
    push_str(&mut r, ps_quote(message.as_str()).as_str());
    push_char(&mut r, '\n');
    r
}

/// `Set-Location -LiteralPath '<path>'` and a line break.
pub open spec fn open_path_script_seq(path: Seq<char>) -> Seq<char> {
    "Set-Location -LiteralPath "@ + ps_quote_seq(path) + seq!['\n']
}

/// Marks the chosen saved path used and returns the script that changes
/// to it.
pub fn open_saved_path(paths: &mut PathsConfig, selected: &SavedPath, now: u64, ignore_case: bool) -> (r: String)
    ensures
        final(paths).version == old(paths).version,
        r@ == open_path_script_seq(selected.path@),
        final(paths).saved@.len() == old(paths).saved@.len(),
        match first_same_path(old(paths).saved@, selected.path@, ignore_case) {
            Some(i) => final(paths).saved@[i].view() == SavedPathView { last_accessed: now as int, ..old(paths).saved@[i].view() }
                && forall|j: int| 0 <= j < old(paths).saved@.len() && j != i ==> #[trigger] final(paths).saved@[j] == old(paths).saved@[j],
            None => final(paths).saved@ == old(paths).saved@,
        },
{
    match find_same_path(&paths.saved, selected.path.as_str(), ignore_case) {
        Some(i) => {
            let mut s = SavedPath { name: String::new(), path: String::new(), last_accessed: 0 };
            std::mem::swap(&mut s, &mut paths.saved[i]);
            s.last_accessed = now;
            paths.saved.set(i, s);
        },
        None => {},
    }
    let mut r = owned("Set-Location -LiteralPath ");
    push_str(&mut r, ps_quote(selected.path.as_str()).as_str());
    push_char(&mut r, '\n');
    r
}

} // verus!
