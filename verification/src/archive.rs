//! Naming the zip archive of a directory.
use vstd::prelude::*;

use crate::num::{dec, decimal, lemma_dec_injective};
use crate::paths::{
    file_name, file_name_seq, join_path, join_path_seq, zip_entry_name, zip_entry_name_seq,
};
use crate::sort::{
    is_permutation, key_views, sort_by_keys, stably_ordered, KeyPart, KeyVal,
};
use crate::text::{
    all_ws, chars_of, ascii_lower, eq_ignore_ascii_case, is_blank, lemma_distinct_within, owned, push_str,
    str_eq, str_eq_ignore_ascii_case, views,
};

verus! {

/// `ps zip [--path <dir>]`.
#[derive(Clone, Debug)]
pub struct ArchiveArgs {
    /// The directory to archive; the current directory when absent.
    pub path: Option<String>,
}

/// The base name of the archive: the directory's name, or `archive` when
/// it has none.
pub open spec fn archive_base_seq(source: Seq<char>) -> Seq<char> {
    match file_name_seq(source) {
        Some(n) => if all_ws(n) {
            "archive"@
        } else {
            n
        },
        None => "archive"@,
    }
}

/// The base name of the archive of `source`.
pub fn archive_base_name(source: &str) -> (r: String)
    ensures
        r@ == archive_base_seq(source@),
{
    match file_name(source) {
        Some(n) => if is_blank(n.as_str()) {
            owned("archive")
        } else {
            n
        },
        None => owned("archive"),
    }
}

/// `<base>.zip` for the first candidate, `<base>-<n>.zip` after it.
pub open spec fn archive_file_seq(base: Seq<char>, counter: int) -> Seq<char> {
    if counter == 1 {
        base + ".zip"@
    } else {
        base + seq!['-'] + dec(counter as nat) + ".zip"@
    }
}

/// The file name of the `counter`-th candidate.
pub fn archive_file_name(base: &str, counter: u64) -> (r: String)
    ensures
        r@ == archive_file_seq(base@, counter as int),
{
    let mut r = owned(base);
    if counter != 1 {
        push_str(&mut r, "-");
        push_str(&mut r, decimal(counter).as_str());
        proof {
            reveal_strlit("-");
        }
        assert("-"@ =~= seq!['-']);
    }
    push_str(&mut r, ".zip");
    r
}

proof fn lemma_archive_file_injective(base: Seq<char>, a: int, b: int)
    requires
        a >= 1,
        b >= 1,
        archive_file_seq(base, a) == archive_file_seq(base, b),
    ensures
        a == b,
{
    reveal_strlit(".zip");
    assert(".zip"@ =~= seq!['.', 'z', 'i', 'p']);
    let k: int = base.len() as int + 1;
    if a != 1 && b != 1 {
        let x = archive_file_seq(base, a);
        let y = archive_file_seq(base, b);
        assert(x.subrange(k, x.len() - 4) =~= dec(a as nat));
        assert(y.subrange(k, y.len() - 4) =~= dec(b as nat));
        lemma_dec_injective(a as nat, b as nat);
    } else if a == 1 && b != 1 {
        crate::num::lemma_dec_nonempty(b as nat);
        let x = base + ".zip"@;
        let y = base + seq!['-'] + dec(b as nat) + ".zip"@;
        assert(x.len() == base.len() + 4);
        assert(y.len() == base.len() + 1 + dec(b as nat).len() + 4);
        assert(archive_file_seq(base, a) == x);
        assert(archive_file_seq(base, b) == y);
    } else if a != 1 && b == 1 {
        crate::num::lemma_dec_nonempty(a as nat);
        let x = base + ".zip"@;
        let y = base + seq!['-'] + dec(a as nat) + ".zip"@;
        assert(x.len() == base.len() + 4);
        assert(y.len() == base.len() + 1 + dec(a as nat).len() + 4);
        assert(archive_file_seq(base, b) == x);
        assert(archive_file_seq(base, a) == y);
    }
}

/// Two entry names are the same, ignoring ASCII case when `ignore_case`.
pub open spec fn same_name(a: Seq<char>, b: Seq<char>, ignore_case: bool) -> bool {
    if ignore_case {
        eq_ignore_ascii_case(a, b)
    } else {
        a == b
    }
}

/// Some entry of the directory has the name `name`.
pub open spec fn name_taken(names: Seq<Seq<char>>, name: Seq<char>, ignore_case: bool) -> bool {
    exists|j: int| 0 <= j < names.len() && same_name(#[trigger] names[j], name, ignore_case)
}

proof fn lemma_same_name_trans(a: Seq<char>, b: Seq<char>, c: Seq<char>, ignore_case: bool)
    requires
        same_name(a, b, ignore_case),
        same_name(a, c, ignore_case),
    ensures
        same_name(b, c, ignore_case),
{
    if ignore_case {
        assert forall|i: int| 0 <= i < b.len() implies ascii_lower(#[trigger] b[i]) == ascii_lower(
            c[i],
        ) by {
            assert(ascii_lower(a[i]) == ascii_lower(b[i]));
            assert(ascii_lower(a[i]) == ascii_lower(c[i]));
        }
    }
}

/// Candidates that are the same name, even ignoring ASCII case, are the
/// same candidate.
proof fn lemma_archive_file_same(base: Seq<char>, a: int, b: int, ignore_case: bool)
    requires
        a >= 1,
        b >= 1,
        same_name(archive_file_seq(base, a), archive_file_seq(base, b), ignore_case),
    ensures
        a == b,
{
    if !ignore_case {
        lemma_archive_file_injective(base, a, b);
        return;
    }
    reveal_strlit(".zip");
    assert(".zip"@ =~= seq!['.', 'z', 'i', 'p']);
    let x = archive_file_seq(base, a);
    let y = archive_file_seq(base, b);
    if a != 1 && b != 1 {
        crate::num::lemma_dec_digits(a as nat);
        crate::num::lemma_dec_digits(b as nat);
        let da = dec(a as nat);
        let db = dec(b as nat);
        let k: int = base.len() as int + 1;
        assert(x =~= base + seq!['-'] + da + ".zip"@);
        assert(y =~= base + seq!['-'] + db + ".zip"@);
        assert(da.len() == db.len());
        assert forall|i: int| 0 <= i < da.len() implies da[i] == db[i] by {
            assert(x[k + i] == da[i]);
            assert(y[k + i] == db[i]);
            assert(ascii_lower(x[k + i]) == ascii_lower(y[k + i]));
            assert(crate::text::is_ascii_digit(da[i]));
            assert(crate::text::is_ascii_digit(db[i]));
        }
        assert(da =~= db);
        lemma_dec_injective(a as nat, b as nat);
    } else if a == 1 && b != 1 {
        crate::num::lemma_dec_nonempty(b as nat);
        assert(x =~= base + ".zip"@);
        assert(y =~= base + seq!['-'] + dec(b as nat) + ".zip"@);
    } else if a != 1 && b == 1 {
        crate::num::lemma_dec_nonempty(a as nat);
        assert(y =~= base + ".zip"@);
        assert(x =~= base + seq!['-'] + dec(a as nat) + ".zip"@);
    }
}

fn same_name_exec(a: &str, b: &str, ignore_case: bool) -> (r: bool)
    ensures
        r == same_name(a@, b@, ignore_case),
{
    if ignore_case {
        str_eq_ignore_ascii_case(a, b)
    } else {
        str_eq(a, b)
    }
}

/// The path of the archive: in the directory itself, named after it, with
/// the first of `<base>.zip`, `<base>-2.zip`, ... that no entry of the
/// directory has, by the `existing` entry names; `ignore_case` where the
/// file system compares names without regard to ASCII case, as Windows
/// does.
pub fn unique_archive_path(source: &str, existing: &Vec<String>, ignore_case: bool) -> (r: String)
    requires
        existing@.len() < u64::MAX - 1,
    ensures
        exists|c: int|
            c >= 1 && r@ == join_path_seq(source@, archive_file_seq(archive_base_seq(source@), c))
                && !name_taken(
                views(existing@),
                archive_file_seq(archive_base_seq(source@), c),
                ignore_case,
            ) && forall|d: int|
                1 <= d < c ==> name_taken(
                    views(existing@),
                    #[trigger] archive_file_seq(archive_base_seq(source@), d),
                    ignore_case,
                ),
{
    let base = archive_base_name(source);
    let ghost names = views(existing@);
    let mut counter: u64 = 1;
    loop
        invariant
            names == views(existing@),
            base@ == archive_base_seq(source@),
            names.len() == existing@.len(),
            existing@.len() < u64::MAX - 1,
            1 <= counter <= existing@.len() + 1,
            forall|d: int|
                1 <= d < counter ==> name_taken(names, #[trigger] archive_file_seq(base@, d), ignore_case),
        decreases existing@.len() + 1 - counter,
    {
        let candidate = archive_file_name(base.as_str(), counter);
        let mut taken = false;
        let mut i: usize = 0;
        while i < existing.len()
            invariant
                i <= existing@.len(),
                names == views(existing@),
                taken == exists|j: int| 0 <= j < i && same_name(#[trigger] names[j], candidate@, ignore_case),
            decreases existing.len() - i,
        {
            assert(names[i as int] == existing@[i as int]@);
            if same_name_exec(existing[i].as_str(), candidate.as_str(), ignore_case) {
                taken = true;
            }
            i = i + 1;
        }
        if !taken {
            let p = join_path(source, candidate.as_str());
            assert(candidate@ == archive_file_seq(archive_base_seq(source@), counter as int));
            assert(!name_taken(names, candidate@, ignore_case));
            assert(forall|d: int|
                1 <= d < counter as int ==> name_taken(
                    views(existing@),
                    #[trigger] archive_file_seq(archive_base_seq(source@), d),
                    ignore_case,
                ));
            return p;
        }
        proof {
            assert(name_taken(names, archive_file_seq(base@, counter as int), ignore_case));
            let w = Seq::new(
                counter as nat,
                |i: int|
                    choose|j: int|
                        0 <= j < names.len() && same_name(names[j], archive_file_seq(base@, i + 1), ignore_case),
            );
            let all = Seq::new(names.len(), |j: int| j);
            assert forall|i: int| 0 <= i < w.len() implies 0 <= #[trigger] w[i] < names.len()
                && same_name(names[w[i]], archive_file_seq(base@, i + 1), ignore_case) by {
                assert(name_taken(names, archive_file_seq(base@, i + 1), ignore_case));
            }
            assert forall|i: int, j: int| 0 <= i < w.len() && 0 <= j < w.len() && i != j implies w[i]
                != w[j] by {
                if w[i] == w[j] {
                    lemma_same_name_trans(
                        names[w[i]],
                        archive_file_seq(base@, i + 1),
                        archive_file_seq(base@, j + 1),
                        ignore_case,
                    );
                    lemma_archive_file_same(base@, i + 1, j + 1, ignore_case);
                }
            }
            assert forall|i: int| 0 <= i < w.len() implies all.contains(#[trigger] w[i]) by {
                assert(all[w[i]] == w[i]);
            }
            lemma_distinct_within(w, all);
        }
        counter = counter + 1;
    }
}

/// What a directory entry is, as the archive sees it.
#[derive(Clone, Copy, Debug, PartialEq, Eq, Structural)]
pub enum EntryKind {
    File,
    Directory,
    Symlink,
    /// Anything else (a device, a pipe): left out, like a link.
    Other,
}

/// An entry of a directory that is being archived.
#[derive(Clone, Debug)]
pub struct DirEntryInfo {
    /// The entry's file name.
    pub name: String,
    pub kind: EntryKind,
    /// The entry's path is one of the paths kept out of the archive (the
    /// archive itself and its temporary file).
    pub excluded: bool,
}

/// One thing that archiving a directory does, for the entry at `index` of
/// the listing: add a file under the archive name `entry`, or add the
/// directory `entry` and then archive the directory at `relative` (its path
/// below the archived directory).
pub struct ArchiveStep {
    pub index: usize,
    pub directory: bool,
    pub entry: String,
    pub relative: String,
}

/// The value of an archive step.
pub struct PlannedStep {
    pub index: int,
    pub directory: bool,
    pub entry: Seq<char>,
    pub relative: Seq<char>,
}

impl ArchiveStep {
    pub open spec fn view(&self) -> PlannedStep {
        PlannedStep {
            index: self.index as int,
            directory: self.directory,
            entry: self.entry@,
            relative: self.relative@,
        }
    }
}

pub open spec fn step_views(steps: Seq<ArchiveStep>) -> Seq<PlannedStep> {
    steps.map_values(|s: ArchiveStep| s.view())
}

/// The sort key of each entry: its name, ordered like `OsStr::cmp`.
pub open spec fn name_keys(entries: Seq<DirEntryInfo>) -> Seq<Seq<KeyVal>> {
    Seq::new(entries.len(), |i: int| seq![KeyVal::Text(entries[i].name@)])
}

/// The step for the entry `e` at `index` of a directory whose path below
/// the archived directory is `directory`: none for an excluded entry, a
/// link or anything that is neither file nor directory.
pub open spec fn entry_step(directory: Seq<char>, e: DirEntryInfo, index: int) -> Option<PlannedStep> {
    let relative = join_path_seq(directory, e.name@);
    if e.excluded {
        None
    } else if e.kind == EntryKind::Directory {
        Some(
            PlannedStep {
                index,
                directory: true,
                entry: zip_entry_name_seq(relative),
                relative,
            },
        )
    } else if e.kind == EntryKind::File {
        Some(
            PlannedStep {
                index,
                directory: false,
                entry: zip_entry_name_seq(relative),
                relative,
            },
        )
    } else {
        None
    }
}

/// The steps for the entries taken in the order `order`.
pub open spec fn plan_seq(directory: Seq<char>, entries: Seq<DirEntryInfo>, order: Seq<int>) -> Seq<
    PlannedStep,
>
    decreases order.len(),
{
    if order.len() == 0 {
        Seq::empty()
    } else {
        let prev = plan_seq(directory, entries, order.drop_last());
        match entry_step(directory, entries[order.last()], order.last()) {
            Some(s) => prev.push(s),
            None => prev,
        }
    }
}

/// What archiving one directory does with its entries: they are taken in
/// the order of their names (entries with equal names keep the order of
/// the listing), and each gives the step of `entry_step`.
pub fn archive_steps(directory: &str, entries: &Vec<DirEntryInfo>) -> (r: Vec<ArchiveStep>)
    ensures
        exists|order: Seq<int>|
            #![trigger plan_seq(directory@, entries@, order)]
            is_permutation(order, entries@.len() as int) && stably_ordered(
                order,
                name_keys(entries@),
            ) && step_views(r@) == plan_seq(directory@, entries@, order),
{
    let n = entries.len();
    let mut idx: Vec<usize> = Vec::new();
    let mut keys: Vec<Vec<KeyPart>> = Vec::new();
    let mut i: usize = 0;
    while i < n
        invariant
            n == entries@.len(),
            i <= n,
            idx@.len() == i,
            keys@.len() == i,
            forall|j: int| 0 <= j < i ==> idx@[j] == j,
            forall|j: int| 0 <= j < i ==> #[trigger] key_views(keys@)[j] == name_keys(entries@)[j],
        decreases n - i,
    {
        let mut k: Vec<KeyPart> = Vec::new();
        k.push(KeyPart::Text(chars_of(entries[i].name.as_str())));
        assert(k@[0].view() == KeyVal::Text(entries@[i as int].name@));
        assert(crate::sort::key_val(k@) =~= seq![KeyVal::Text(entries@[i as int].name@)]);
        let ghost old_keys = keys@;
        keys.push(k);
        idx.push(i);
        assert forall|j: int| 0 <= j < i + 1 implies #[trigger] key_views(keys@)[j] == name_keys(
            entries@,
        )[j] by {
            if j < i {
                assert(keys@[j] == old_keys[j]);
                assert(key_views(old_keys)[j] == name_keys(entries@)[j]);
            }
        }
        i = i + 1;
    }
    assert(key_views(keys@) =~= name_keys(entries@));
    let ghost inp = idx@;
    let order = sort_by_keys(idx, keys);
    let ghost ord: Seq<int> = order@.map_values(|x: usize| x as int);
    proof {
        let p = choose|p: Seq<int>|
            {
                &&& is_permutation(p, inp.len() as int)
                &&& stably_ordered(p, name_keys(entries@))
                &&& order@.len() == inp.len()
                &&& forall|k: int| 0 <= k < order@.len() ==> order@[k] == inp[#[trigger] p[k]]
            };
        assert forall|k: int| 0 <= k < ord.len() implies ord[k] == p[k] by {
            assert(order@[k] == inp[p[k]]);
        }
        assert(ord =~= p);
    }
    let mut out: Vec<ArchiveStep> = Vec::new();
    let mut k: usize = 0;
    while k < n
        invariant
            n == entries@.len(),
            order@.len() == n,
            ord == order@.map_values(|x: usize| x as int),
            is_permutation(ord, n as int),
            k <= n,
            step_views(out@) == plan_seq(directory@, entries@, ord.take(k as int)),
        decreases n - k,
    {
        let j = order[k];
        assert(ord[k as int] == j as int);
        assert(ord.take(k + 1).drop_last() =~= ord.take(k as int));
        assert(ord.take(k + 1).last() == j as int);
        let e = &entries[j];
        let ghost old_out = out@;
        if !e.excluded && (e.kind == EntryKind::Directory || e.kind == EntryKind::File) {
            let relative = join_path(directory, e.name.as_str());
            let entry = zip_entry_name(relative.as_str());
            out.push(
                ArchiveStep { index: j, directory: e.kind == EntryKind::Directory, entry, relative },
            );
            assert(step_views(out@) =~= step_views(old_out).push(out@.last().view()));
        }
        assert(step_views(out@) =~= plan_seq(directory@, entries@, ord.take(k + 1)));
        k = k + 1;
    }
    assert(ord.take(n as int) =~= ord);
    out
}

} // verus!
