//! Environment variables: which are listed, in what order, and how.
use vstd::prelude::*;

use crate::history::opt_seq;
use crate::picker::{Picker, PickerItem};
use crate::sort::{
    is_stable_sort, key_val, key_views, lemma_key_order_one, lemma_stable_sort_map,
    lemma_stable_sort_ordered, lemma_stable_sort_same_items, sort_by_keys, text_order, KeyPart,
    KeyVal,
};
use crate::text::contains_seq;
use crate::text::{chars_of, owned, pad_right, pad_right_seq, pair_matches, pair_matches_seq, push_char, push_str, to_lowercase, unicode_lowercase};

verus! {

/// `ps envs [-q <query>]`.
#[derive(Clone, Debug)]
pub struct EnvsArgs {
    /// Keep variables whose name or value contains this, ignoring case.
    pub query: Option<String>,
}

/// A listed variable.
#[derive(Clone, Debug)]
pub struct EnvRow {
    pub key: String,
    pub value: String,
}

impl EnvRow {
    pub open spec fn view(&self) -> (Seq<char>, Seq<char>) {
        (self.key@, self.value@)
    }
}

pub open spec fn env_views(r: Seq<EnvRow>) -> Seq<(Seq<char>, Seq<char>)> {
    r.map_values(|x: EnvRow| x.view())
}

pub open spec fn var_views(v: Seq<(String, String)>) -> Seq<(Seq<char>, Seq<char>)> {
    v.map_values(|x: (String, String)| (x.0@, x.1@))
}

/// The variables kept by the query, in their order.
pub open spec fn kept_vars(v: Seq<(Seq<char>, Seq<char>)>, filter: Option<Seq<char>>) -> Seq<(Seq<char>, Seq<char>)>
    decreases v.len(),
{
    if v.len() == 0 {
        Seq::empty()
    } else {
        let rest = kept_vars(v.drop_last(), filter);
        let keep = match filter {
            Some(f) => pair_matches_seq(v.last().0, v.last().1, unicode_lowercase(f)),
            None => true,
        };
        if keep {
            rest.push(v.last())
        } else {
            rest
        }
    }
}

pub open spec fn env_keys(v: Seq<(Seq<char>, Seq<char>)>) -> Seq<Seq<KeyVal>> {
    v.map_values(|x: (Seq<char>, Seq<char>)| seq![KeyVal::Text(x.0)])
}

/// The variables list is sorted by name: along it, the names never
/// decrease in `str` order.
pub proof fn law_env_rows_by_name(
    kept: Seq<(Seq<char>, Seq<char>)>,
    rows: Seq<(Seq<char>, Seq<char>)>,
)
    requires
        is_stable_sort(rows, kept, env_keys(kept)),
    ensures
        rows.len() == kept.len(),
        forall|i: int, j: int|
            0 <= i < j < rows.len() ==> text_order((#[trigger] rows[i]).0, (#[trigger] rows[j]).0)
                <= 0,
{
    let f = |x: (Seq<char>, Seq<char>)| seq![KeyVal::Text(x.0)];
    assert(env_keys(kept) =~= kept.map_values(f));
    lemma_stable_sort_ordered(rows, kept, f);
    assert forall|i: int, j: int| 0 <= i < j < rows.len() implies text_order(
        (#[trigger] rows[i]).0,
        (#[trigger] rows[j]).0,
    ) <= 0 by {
        assert(crate::sort::key_order(f(rows[i]), f(rows[j])) <= 0);
        lemma_key_order_one(KeyVal::Text(rows[i].0), KeyVal::Text(rows[j].0));
    }
}

/// Whether a variable is one the query asks for: with a query, its name
/// and value, lowercased and joined by a space, contain the lowercased
/// query.
pub open spec fn var_wanted(x: (Seq<char>, Seq<char>), filter: Option<Seq<char>>) -> bool {
    match filter {
        Some(f) => contains_seq(
            unicode_lowercase(x.0) + seq![' '] + unicode_lowercase(x.1),
            unicode_lowercase(f),
        ),
        None => true,
    }
}

proof fn lemma_kept_vars(v: Seq<(Seq<char>, Seq<char>)>, filter: Option<Seq<char>>)
    ensures
        forall|k: int|
            0 <= k < kept_vars(v, filter).len() ==> v.contains(#[trigger] kept_vars(v, filter)[k])
                && var_wanted(kept_vars(v, filter)[k], filter),
        forall|i: int|
            0 <= i < v.len() && var_wanted(#[trigger] v[i], filter) ==> kept_vars(v, filter).contains(
                v[i],
            ),
    decreases v.len(),
{
    if v.len() > 0 {
        let front = v.drop_last();
        lemma_kept_vars(front, filter);
        let kept = kept_vars(front, filter);
        let r = kept_vars(v, filter);
        assert forall|k: int| 0 <= k < r.len() implies v.contains(#[trigger] r[k]) && var_wanted(
            r[k],
            filter,
        ) by {
            if k < kept.len() {
                assert(r[k] == kept[k]);
                let j = choose|j: int| 0 <= j < front.len() && front[j] == kept[k];
                assert(v[j] == front[j]);
            } else {
                assert(r[k] == v[v.len() - 1]);
            }
        }
        assert forall|i: int| 0 <= i < v.len() && var_wanted(#[trigger] v[i], filter) implies r.contains(
            v[i],
        ) by {
            if i < front.len() {
                assert(front[i] == v[i]);
                let k = choose|k: int| 0 <= k < kept.len() && kept[k] == v[i];
                assert(r[k] == kept[k]);
            } else {
                assert(r[r.len() - 1] == v[i]);
            }
        }
    }
}

/// The variables list holds exactly the variables the query asks for:
/// every row is one of the variables and matches the query (its name and
/// value, lowercased and joined by a space, contain the lowercased query),
/// and every variable that matches is listed.
pub proof fn law_env_rows_filter(
    vars: Seq<(Seq<char>, Seq<char>)>,
    filter: Option<Seq<char>>,
    rows: Seq<(Seq<char>, Seq<char>)>,
)
    requires
        is_stable_sort(rows, kept_vars(vars, filter), env_keys(kept_vars(vars, filter))),
    ensures
        forall|k: int|
            0 <= k < rows.len() ==> vars.contains(#[trigger] rows[k]) && var_wanted(rows[k], filter),
        forall|i: int|
            0 <= i < vars.len() && var_wanted(#[trigger] vars[i], filter) ==> rows.contains(vars[i]),
{
    let kept = kept_vars(vars, filter);
    lemma_kept_vars(vars, filter);
    lemma_stable_sort_same_items(rows, kept, env_keys(kept));
    assert forall|k: int| 0 <= k < rows.len() implies vars.contains(#[trigger] rows[k]) && var_wanted(
        rows[k],
        filter,
    ) by {
        assert(kept.contains(rows[k]));
        let j = choose|j: int| 0 <= j < kept.len() && kept[j] == rows[k];
        assert(vars.contains(kept[j]) && var_wanted(kept[j], filter));
    }
    assert forall|i: int| 0 <= i < vars.len() && var_wanted(#[trigger] vars[i], filter) implies rows.contains(
        vars[i],
    ) by {
        assert(kept.contains(vars[i]));
        let j = choose|j: int| 0 <= j < kept.len() && kept[j] == vars[i];
        assert(rows.contains(kept[j]));
    }
}

/// The rows of the variables list: those whose name or value contains the
/// query (ignoring case), sorted by name.
pub fn env_rows(vars: Vec<(String, String)>, filter: Option<&str>) -> (r: Vec<EnvRow>)
    ensures
        is_stable_sort(
            env_views(r@),
            kept_vars(var_views(vars@), opt_seq(filter)),
            env_keys(kept_vars(var_views(vars@), opt_seq(filter))),
        ),
        forall|i: int, j: int|
            0 <= i < j < r@.len() ==> text_order((#[trigger] r@[i]).key@, (#[trigger] r@[j]).key@)
                <= 0,
        forall|k: int|
            0 <= k < r@.len() ==> var_views(vars@).contains(#[trigger] env_views(r@)[k])
                && var_wanted(env_views(r@)[k], opt_seq(filter)),
        forall|i: int|
            0 <= i < vars@.len() && var_wanted(#[trigger] var_views(vars@)[i], opt_seq(filter))
                ==> env_views(r@).contains(var_views(vars@)[i]),
{
    let lowered: Option<String> = match filter {
        Some(f) => Some(to_lowercase(f)),
        None => None,
    };
    let mut kept: Vec<EnvRow> = Vec::new();
    let mut keys: Vec<Vec<KeyPart>> = Vec::new();
    let mut i: usize = 0;
    while i < vars.len()
        invariant
            i <= vars@.len(),
            match filter {
                Some(f) => lowered matches Some(l) && l@ == unicode_lowercase(f@),
                None => lowered is None,
            },
            env_views(kept@) == kept_vars(var_views(vars@.take(i as int)), opt_seq(filter)),
            keys@.len() == kept@.len(),
            forall|j: int| 0 <= j < keys@.len() ==> key_val(#[trigger] keys@[j]@) == seq![KeyVal::Text(kept@[j].key@)],
        decreases vars.len() - i,
    {
        proof {
            assert(var_views(vars@.take(i + 1)).drop_last() =~= var_views(vars@.take(i as int)));
            assert(var_views(vars@.take(i + 1)).last() == (vars@[i as int].0@, vars@[i as int].1@));
        }
        let keep = match &lowered {
            Some(l) => pair_matches(vars[i].0.as_str(), vars[i].1.as_str(), l.as_str()),
            None => true,
        };
        if keep {
            let ghost before = kept@;
            let row = EnvRow { key: owned(vars[i].0.as_str()), value: owned(vars[i].1.as_str()) };
            let mut k: Vec<KeyPart> = Vec::new();
            k.push(KeyPart::Text(chars_of(row.key.as_str())));
            assert(key_val(k@) =~= seq![KeyVal::Text(row.key@)]);
            kept.push(row);
            keys.push(k);
            assert(env_views(kept@) =~= env_views(before).push((vars@[i as int].0@, vars@[i as int].1@)));
        }
        i = i + 1;
    }
    assert(vars@.take(vars@.len() as int) =~= vars@);
    let ghost before = kept@;
    assert(key_views(keys@) =~= env_keys(env_views(before)));
    let sorted = sort_by_keys(kept, keys);
    proof {
        lemma_stable_sort_map(sorted@, before, env_keys(env_views(before)), |x: EnvRow| x.view());
        law_env_rows_by_name(env_views(before), env_views(sorted@));
        law_env_rows_filter(var_views(vars@), opt_seq(filter), env_views(sorted@));
        assert forall|i: int, j: int| 0 <= i < j < sorted@.len() implies text_order(
            (#[trigger] sorted@[i]).key@,
            (#[trigger] sorted@[j]).key@,
        ) <= 0 by {
            assert(env_views(sorted@)[i].0 == sorted@[i].key@);
            assert(env_views(sorted@)[j].0 == sorted@[j].key@);
        }
    }
    sorted
}

/// The picker of the variables list.
pub fn env_picker(rows: &Vec<EnvRow>) -> (r: Picker)
    ensures
        r.title_spec() == "Environment Variables"@,
        r.header_spec() == "Name                              Value"@,
        r.help_spec() == "Use Up/Down. Enter prints the selected variable. Esc closes."@,
        r.items_spec().len() == rows@.len(),
        forall|k: int|
            0 <= k < rows@.len() ==> (#[trigger] r.items_spec()[k]).label@ == rows@[k].key@
                && r.items_spec()[k].detail@ == rows@[k].value@,
{
    let mut items: Vec<PickerItem> = Vec::new();
    let mut i: usize = 0;
    while i < rows.len()
        invariant
            i <= rows@.len(),
            items@.len() == i,
            forall|k: int|
                0 <= k < i ==> (#[trigger] items@[k]).label@ == rows@[k].key@ && items@[k].detail@
                    == rows@[k].value@,
        decreases rows.len() - i,
    {
        items.push(PickerItem::new(rows[i].key.as_str(), rows[i].value.as_str()));
        i = i + 1;
    }
    Picker::new("Environment Variables", "Name                              Value", items).help(
        "Use Up/Down. Enter prints the selected variable. Esc closes.",
    )
}

/// `NAME=value`, as printed for the chosen variable.
pub fn assignment(row: &EnvRow) -> (r: String)
    ensures
        r@ == row.key@ + seq!['='] + row.value@,
{
    let mut r = owned(row.key.as_str());
    push_char(&mut r, '=');
    push_str(&mut r, row.value.as_str());
    r
}

/// The header of the plain listing.
pub fn plain_header() -> (r: String)
    ensures
        r@ == pad_right_seq("Name"@, 32) + " Value"@,
{
    let mut r = pad_right("Name", 32);
    push_str(&mut r, " Value");
    r
}

/// A line of the plain listing: the name padded to 32 columns, then the
/// value.
pub fn plain_line(row: &EnvRow) -> (r: String)
    ensures
        r@ == pad_right_seq(row.key@, 32) + seq![' '] + row.value@,
{
    let mut r = pad_right(row.key.as_str(), 32);
    push_char(&mut r, ' ');
    push_str(&mut r, row.value.as_str());
    r
}

} // verus!
