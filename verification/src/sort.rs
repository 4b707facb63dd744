//! A stable sort by composite keys.
//!
//! Lists in this program are ordered by chains of comparisons such as
//! "newest first, then by name".  Each item gets a key made of parts that
//! compare in turn; `sort_by_keys` orders the items like `slice::sort_by`
//! with the matching comparator: stably, so that items whose keys compare
//! equal keep their relative order.
use vstd::prelude::*;

verus! {

/// One component of a sort key.
pub enum KeyPart {
    /// A number, smallest first.
    Asc(u64),
    /// A number, largest first.
    Desc(u64),
    /// A string, ordered like `str::cmp` (by code points).
    Text(Vec<char>),
}

pub open spec fn sign(x: int) -> int {
    if x < 0 {
        -1
    } else if x > 0 {
        1
    } else {
        0
    }
}

/// `str::cmp` on character sequences, as -1, 0 or 1.
pub open spec fn text_order(a: Seq<char>, b: Seq<char>) -> int
    decreases a.len(),
{
    if a.len() == 0 {
        if b.len() == 0 {
            0
        } else {
            -1
        }
    } else if b.len() == 0 {
        1
    } else if a[0] < b[0] {
        -1
    } else if b[0] < a[0] {
        1
    } else {
        text_order(a.drop_first(), b.drop_first())
    }
}

/// The mathematical value of a key part.
pub enum KeyVal {
    Asc(int),
    Desc(int),
    Text(Seq<char>),
}

impl KeyPart {
    pub open spec fn view(&self) -> KeyVal {
        match self {
            KeyPart::Asc(x) => KeyVal::Asc(*x as int),
            KeyPart::Desc(x) => KeyVal::Desc(*x as int),
            KeyPart::Text(t) => KeyVal::Text(t@),
        }
    }
}

/// The value of a key.
pub open spec fn key_val(k: Seq<KeyPart>) -> Seq<KeyVal> {
    k.map_values(|p: KeyPart| p.view())
}

pub open spec fn part_rank(p: KeyVal) -> int {
    match p {
        KeyVal::Asc(_) => 0,
        KeyVal::Desc(_) => 1,
        KeyVal::Text(_) => 2,
    }
}

/// Comparison of two key parts, as -1, 0 or 1.
pub open spec fn part_order(a: KeyVal, b: KeyVal) -> int {
    match (a, b) {
        (KeyVal::Asc(x), KeyVal::Asc(y)) => sign(x - y),
        (KeyVal::Desc(x), KeyVal::Desc(y)) => sign(y - x),
        (KeyVal::Text(x), KeyVal::Text(y)) => text_order(x, y),
        _ => sign(part_rank(a) - part_rank(b)),
    }
}

/// Lexicographic comparison of keys, as -1, 0 or 1.
pub open spec fn key_order(a: Seq<KeyVal>, b: Seq<KeyVal>) -> int
    decreases a.len(),
{
    if a.len() == 0 {
        if b.len() == 0 {
            0
        } else {
            -1
        }
    } else if b.len() == 0 {
        1
    } else if part_order(a[0], b[0]) != 0 {
        part_order(a[0], b[0])
    } else {
        key_order(a.drop_first(), b.drop_first())
    }
}

pub proof fn lemma_text_order_antisym(a: Seq<char>, b: Seq<char>)
    ensures
        -1 <= text_order(a, b) <= 1,
        text_order(a, b) == -text_order(b, a),
    decreases a.len(),
{
    if a.len() > 0 && b.len() > 0 && a[0] == b[0] {
        lemma_text_order_antisym(a.drop_first(), b.drop_first());
    }
}

pub proof fn lemma_text_order_eq(a: Seq<char>, b: Seq<char>)
    ensures
        text_order(a, b) == 0 <==> a == b,
    decreases a.len(),
{
    if a.len() > 0 && b.len() > 0 && a[0] == b[0] {
        lemma_text_order_eq(a.drop_first(), b.drop_first());
        if text_order(a.drop_first(), b.drop_first()) == 0 {
            assert(a =~= b) by {
                assert forall|i: int| 0 <= i < a.len() implies a[i] == b[i] by {
                    if i > 0 {
                        assert(a[i] == a.drop_first()[i - 1]);
                        assert(b[i] == b.drop_first()[i - 1]);
                    }
                }
            }
        }
        if a == b {
            assert(a.drop_first() == b.drop_first());
        }
    } else if a.len() == 0 && b.len() == 0 {
        assert(a =~= b);
    } else if a.len() > 0 && b.len() > 0 {
        assert(a != b) by {
            assert(a[0] != b[0]);
        }
    } else {
        assert(a.len() != b.len());
    }
}

pub proof fn lemma_text_order_trans(a: Seq<char>, b: Seq<char>, c: Seq<char>)
    requires
        text_order(a, b) <= 0,
        text_order(b, c) <= 0,
    ensures
        text_order(a, c) <= 0,
    decreases a.len(),
{
    if a.len() > 0 {
        assert(b.len() > 0);
        assert(c.len() > 0);
        if a[0] == b[0] && b[0] == c[0] {
            lemma_text_order_trans(a.drop_first(), b.drop_first(), c.drop_first());
        }
    }
}

pub proof fn lemma_part_order_props(a: KeyVal, b: KeyVal, c: KeyVal)
    ensures
        -1 <= part_order(a, b) <= 1,
        part_order(a, b) == -part_order(b, a),
        part_order(a, b) <= 0 && part_order(b, c) <= 0 ==> part_order(a, c) <= 0,
{
    match (a, b, c) {
        (KeyVal::Text(x), KeyVal::Text(y), KeyVal::Text(z)) => {
            lemma_text_order_antisym(x, y);
            if text_order(x, y) <= 0 && text_order(y, z) <= 0 {
                lemma_text_order_trans(x, y, z);
            }
        },
        (KeyVal::Text(x), KeyVal::Text(y), _) => {
            lemma_text_order_antisym(x, y);
        },
        _ => {},
    }
}

pub proof fn lemma_key_order_props(a: Seq<KeyVal>, b: Seq<KeyVal>, c: Seq<KeyVal>)
    ensures
        -1 <= key_order(a, b) <= 1,
        key_order(a, b) == -key_order(b, a),
        key_order(a, b) <= 0 && key_order(b, c) <= 0 ==> key_order(a, c) <= 0,
    decreases a.len(),
{
    if a.len() > 0 && b.len() > 0 {
        lemma_part_order_props(a[0], b[0], if c.len() > 0 {
            c[0]
        } else {
            a[0]
        });
        if c.len() > 0 {
            lemma_part_order_props(a[0], c[0], b[0]);
            lemma_part_order_props(b[0], c[0], a[0]);
            lemma_part_order_props(c[0], a[0], b[0]);
            lemma_key_order_props(a.drop_first(), b.drop_first(), c.drop_first());
        } else {
            lemma_key_order_props(a.drop_first(), b.drop_first(), b.drop_first());
        }
    }
}

/// `str::cmp` of two character vectors, as -1, 0 or 1.
pub fn text_compare(a: &Vec<char>, b: &Vec<char>) -> (r: i8)
    ensures
        r as int == text_order(a@, b@),
{
    let mut i: usize = 0;
    assert(a@.skip(0) =~= a@);
    assert(b@.skip(0) =~= b@);
    while i < a.len() && i < b.len() && a[i] == b[i]
        invariant
            i <= a@.len(),
            i <= b@.len(),
            text_order(a@, b@) == text_order(a@.skip(i as int), b@.skip(i as int)),
        decreases a.len() - i,
    {
        assert(a@.skip(i as int).drop_first() =~= a@.skip(i + 1));
        assert(b@.skip(i as int).drop_first() =~= b@.skip(i + 1));
        i = i + 1;
    }
    if i == a.len() {
        if i == b.len() {
            0
        } else {
            -1
        }
    } else if i == b.len() {
        1
    } else if a[i] < b[i] {
        assert(a@.skip(i as int)[0] == a@[i as int]);
        assert(b@.skip(i as int)[0] == b@[i as int]);
        -1
    } else {
        assert(a@.skip(i as int)[0] == a@[i as int]);
        assert(b@.skip(i as int)[0] == b@[i as int]);
        1
    }
}

/// Comparison of two key parts, as -1, 0 or 1.
pub fn part_compare(a: &KeyPart, b: &KeyPart) -> (r: i8)
    ensures
        r as int == part_order(a.view(), b.view()),
{
    match (a, b) {
        (KeyPart::Asc(x), KeyPart::Asc(y)) => if *x < *y {
            -1
        } else if *x > *y {
            1
        } else {
            0
        },
        (KeyPart::Desc(x), KeyPart::Desc(y)) => if *y < *x {
            -1
        } else if *y > *x {
            1
        } else {
            0
        },
        (KeyPart::Text(x), KeyPart::Text(y)) => text_compare(x, y),
        _ => {
            let ra: i8 = match a {
                KeyPart::Asc(_) => 0,
                KeyPart::Desc(_) => 1,
                KeyPart::Text(_) => 2,
            };
            let rb: i8 = match b {
                KeyPart::Asc(_) => 0,
                KeyPart::Desc(_) => 1,
                KeyPart::Text(_) => 2,
            };
            if ra < rb {
                -1
            } else if ra > rb {
                1
            } else {
                0
            }
        },
    }
}

/// Lexicographic comparison of keys, as -1, 0 or 1.
pub fn key_compare(a: &Vec<KeyPart>, b: &Vec<KeyPart>) -> (r: i8)
    ensures
        r as int == key_order(key_val(a@), key_val(b@)),
{
    let ghost x = key_val(a@);
    let ghost y = key_val(b@);
    let mut i: usize = 0;
    assert(x.skip(0) =~= x);
    assert(y.skip(0) =~= y);
    while i < a.len() && i < b.len()
        invariant
            x == key_val(a@),
            y == key_val(b@),
            i <= a@.len(),
            i <= b@.len(),
            key_order(x, y) == key_order(x.skip(i as int), y.skip(i as int)),
        decreases a.len() - i,
    {
        let c = part_compare(&a[i], &b[i]);
        assert(x.skip(i as int)[0] == a@[i as int].view());
        assert(y.skip(i as int)[0] == b@[i as int].view());
        if c != 0 {
            return c;
        }
        assert(x.skip(i as int).drop_first() =~= x.skip(i + 1));
        assert(y.skip(i as int).drop_first() =~= y.skip(i + 1));
        i = i + 1;
    }
    if i == a.len() {
        if i == b.len() {
            0
        } else {
            -1
        }
    } else {
        1
    }
}

pub open spec fn key_views(keys: Seq<Vec<KeyPart>>) -> Seq<Seq<KeyVal>> {
    keys.map_values(|k: Vec<KeyPart>| key_val(k@))
}

/// `p` lists each of `0..n` exactly once.
pub open spec fn is_permutation(p: Seq<int>, n: int) -> bool {
    &&& p.len() == n
    &&& forall|i: int| 0 <= i < n ==> 0 <= #[trigger] p[i] < n
    &&& forall|i: int, j: int| 0 <= i < n && 0 <= j < n && i != j ==> p[i] != p[j]
}

/// In the order `p`, keys never decrease, and items with equal keys keep
/// their original order.
pub open spec fn stably_ordered(p: Seq<int>, keys: Seq<Seq<KeyVal>>) -> bool {
    forall|i: int, j: int|
        #![trigger p[i], p[j]]
        0 <= i < j < p.len() ==> key_order(keys[p[i]], keys[p[j]]) < 0 || (key_order(
            keys[p[i]],
            keys[p[j]],
        ) == 0 && p[i] < p[j])
}

/// `out` is `inp` stably sorted by `keys` (the key of `inp[i]` is `keys[i]`).
pub open spec fn is_stable_sort<T>(out: Seq<T>, inp: Seq<T>, keys: Seq<Seq<KeyVal>>) -> bool {
    exists|p: Seq<int>|
        {
            &&& is_permutation(p, inp.len() as int)
            &&& stably_ordered(p, keys)
            &&& out.len() == inp.len()
            &&& forall|k: int| 0 <= k < out.len() ==> out[k] == inp[#[trigger] p[k]]
        }
}

/// Sorts `items` stably by `keys`, where `keys[i]` is the key of `items[i]`.
pub fn sort_by_keys<T>(items: Vec<T>, keys: Vec<Vec<KeyPart>>) -> (out: Vec<T>)
    requires
        items@.len() == keys@.len(),
    ensures
        is_stable_sort(out@, items@, key_views(keys@)),
{
    let ghost orig = items@;
    let ghost kv = key_views(keys@);
    let n = items.len();
    let mut items = items;
    let mut keys = keys;
    let mut out: Vec<T> = Vec::new();
    let mut out_keys: Vec<Vec<KeyPart>> = Vec::new();
    let ghost mut p: Seq<int> = Seq::empty();
    let mut i: usize = 0;
    while i < n
        invariant
            n == orig.len(),
            kv.len() == n,
            i <= n,
            items@ == orig.skip(i as int),
            keys@.len() == n - i,
            key_views(keys@) == kv.skip(i as int),
            out@.len() == i,
            out_keys@.len() == i,
            is_permutation(p, i as int),
            stably_ordered(p, kv),
            forall|k: int| 0 <= k < i ==> out@[k] == orig[#[trigger] p[k]],
            forall|k: int| 0 <= k < i ==> key_val(out_keys@[k]@) == kv[#[trigger] p[k]],
        decreases n - i,
    {
        let ghost old_kseq = keys@;
        let item = items.remove(0);
        let key = keys.remove(0);
        proof {
            assert(key_views(old_kseq)[0] == key_val(old_kseq[0]@));
            assert(kv.skip(i as int)[0] == kv[i as int]);
            assert forall|t: int| 0 <= t < keys@.len() implies key_views(keys@)[t] == kv.skip(
                i + 1,
            )[t] by {
                assert(keys@[t] == old_kseq[t + 1]);
                assert(key_views(old_kseq)[t + 1] == key_val(old_kseq[t + 1]@));
                assert(kv.skip(i as int)[t + 1] == kv.skip(i + 1)[t]);
            }
            assert(key_views(keys@) =~= kv.skip(i + 1));
            assert(items@ =~= orig.skip(i + 1));
        }
        assert(key_val(key@) == kv[i as int]);
        let mut j = i;
        while j > 0 && key_compare(&out_keys[j - 1], &key) > 0
            invariant
                j <= i,
                out_keys@.len() == i,
                forall|l: int| j <= l < i ==> key_order(key_val(out_keys@[l]@), key_val(key@)) > 0,
            decreases j,
        {
            j = j - 1;
        }
        let ghost old_p = p;
        let ghost old_out = out@;
        let ghost old_keys = out_keys@;
        out.insert(j, item);
        out_keys.insert(j, key);
        proof {
            p = old_p.insert(j as int, i as int);
            let ki = kv[i as int];
            assert forall|l: int| j <= l < i implies key_order(kv[old_p[l]], ki) > 0 by {
                assert(key_val(old_keys[l]@) == kv[old_p[l]]);
            }
            assert(j > 0 ==> key_order(kv[old_p[j - 1]], ki) <= 0) by {
                if j > 0 {
                    assert(key_val(old_keys[j - 1]@) == kv[old_p[j - 1]]);
                }
            }
            assert forall|a: int| 0 <= a < i + 1 implies 0 <= #[trigger] p[a] < i + 1 by {
                if a < j {
                    assert(p[a] == old_p[a]);
                } else if a > j {
                    assert(p[a] == old_p[a - 1]);
                }
            }
            assert forall|a: int, b: int|
                0 <= a < i + 1 && 0 <= b < i + 1 && a != b implies p[a] != p[b] by {
                if a != j && b != j {
                    let oa = if a < j {
                        a
                    } else {
                        a - 1
                    };
                    let ob = if b < j {
                        b
                    } else {
                        b - 1
                    };
                    assert(p[a] == old_p[oa]);
                    assert(p[b] == old_p[ob]);
                } else if a == j {
                    let ob = if b < j {
                        b
                    } else {
                        b - 1
                    };
                    assert(p[b] == old_p[ob]);
                } else {
                    let oa = if a < j {
                        a
                    } else {
                        a - 1
                    };
                    assert(p[a] == old_p[oa]);
                }
            }
            assert forall|a: int, b: int| 0 <= a < b < p.len() implies key_order(
                kv[p[a]],
                kv[p[b]],
            ) < 0 || (key_order(kv[p[a]], kv[p[b]]) == 0 && p[a] < p[b]) by {
                if a != j && b != j {
                    let oa = if a < j {
                        a
                    } else {
                        a - 1
                    };
                    let ob = if b < j {
                        b
                    } else {
                        b - 1
                    };
                    assert(p[a] == old_p[oa]);
                    assert(p[b] == old_p[ob]);
                    assert(oa < ob);
                } else if b == j {
                    assert(p[a] == old_p[a]);
                    assert(p[b] == i);
                    assert(0 <= old_p[a] < i);
                    if a < j - 1 {
                        assert(key_order(kv[old_p[a]], kv[old_p[j - 1]]) <= 0);
                        lemma_key_order_props(kv[old_p[a]], kv[old_p[j - 1]], ki);
                    }
                } else {
                    assert(p[a] == i);
                    assert(p[b] == old_p[b - 1]);
                    lemma_key_order_props(kv[old_p[b - 1]], ki, ki);
                }
            }
            assert forall|k: int| 0 <= k < i + 1 implies out@[k] == orig[#[trigger] p[k]] by {
                if k < j {
                    assert(out@[k] == old_out[k]);
                } else if k > j {
                    assert(out@[k] == old_out[k - 1]);
                }
            }
            assert forall|k: int| 0 <= k < i + 1 implies key_val(out_keys@[k]@) == kv[#[trigger] p[k]] by {
                if k < j {
                    assert(out_keys@[k] == old_keys[k]);
                } else if k > j {
                    assert(out_keys@[k] == old_keys[k - 1]);
                }
            }
        }
        i = i + 1;
    }
    out
}

/// A stable sort carries over to any function of the items.
pub proof fn lemma_stable_sort_map<A, B>(
    out: Seq<A>,
    inp: Seq<A>,
    keys: Seq<Seq<KeyVal>>,
    f: spec_fn(A) -> B,
)
    requires
        is_stable_sort(out, inp, keys),
    ensures
        is_stable_sort(out.map_values(f), inp.map_values(f), keys),
{
    let p = choose|p: Seq<int>|
        {
            &&& is_permutation(p, inp.len() as int)
            &&& stably_ordered(p, keys)
            &&& out.len() == inp.len()
            &&& forall|k: int| 0 <= k < out.len() ==> out[k] == inp[#[trigger] p[k]]
        };
    assert forall|k: int| 0 <= k < out.map_values(f).len() implies out.map_values(f)[k]
        == inp.map_values(f)[#[trigger] p[k]] by {
        assert(out[k] == inp[p[k]]);
    }
}

/// The items that a stable sort puts out are in key order: no item's key
/// is greater than the key of an item after it.
pub proof fn lemma_stable_sort_ordered<T>(out: Seq<T>, inp: Seq<T>, f: spec_fn(T) -> Seq<KeyVal>)
    requires
        is_stable_sort(out, inp, inp.map_values(f)),
    ensures
        forall|i: int, j: int|
            0 <= i < j < out.len() ==> key_order(#[trigger] f(out[i]), #[trigger] f(out[j])) <= 0,
{
    let keys = inp.map_values(f);
    let p = choose|p: Seq<int>|
        {
            &&& is_permutation(p, inp.len() as int)
            &&& stably_ordered(p, keys)
            &&& out.len() == inp.len()
            &&& forall|k: int| 0 <= k < out.len() ==> out[k] == inp[#[trigger] p[k]]
        };
    assert forall|i: int, j: int| 0 <= i < j < out.len() implies key_order(
        #[trigger] f(out[i]),
        #[trigger] f(out[j]),
    ) <= 0 by {
        assert(out[i] == inp[p[i]]);
        assert(out[j] == inp[p[j]]);
        assert(keys[p[i]] == f(out[i]));
        assert(keys[p[j]] == f(out[j]));
    }
}

/// Keys of one part compare as the parts do.
pub proof fn lemma_key_order_one(a: KeyVal, b: KeyVal)
    ensures
        key_order(seq![a], seq![b]) == part_order(a, b),
{
    assert(seq![a].drop_first() =~= Seq::<KeyVal>::empty());
    assert(seq![b].drop_first() =~= Seq::<KeyVal>::empty());
    reveal_with_fuel(key_order, 2);
}

/// Keys of two parts compare by the first part, then by the second.
pub proof fn lemma_key_order_two(a1: KeyVal, b1: KeyVal, a2: KeyVal, b2: KeyVal)
    ensures
        key_order(seq![a1, b1], seq![a2, b2]) <= 0 <==> (part_order(a1, a2) < 0 || (part_order(
            a1,
            a2,
        ) == 0 && part_order(b1, b2) <= 0)),
{
    assert(seq![a1, b1].drop_first() =~= seq![b1]);
    assert(seq![a2, b2].drop_first() =~= seq![b2]);
    lemma_key_order_one(b1, b2);
    lemma_part_order_props(a1, a2, a2);
}

/// A stable sort puts out exactly the items it was given: every item put
/// out was given, and every item given is put out.
pub proof fn lemma_stable_sort_same_items<T>(out: Seq<T>, inp: Seq<T>, keys: Seq<Seq<KeyVal>>)
    requires
        is_stable_sort(out, inp, keys),
    ensures
        out.len() == inp.len(),
        forall|k: int| 0 <= k < out.len() ==> inp.contains(#[trigger] out[k]),
        forall|i: int| 0 <= i < inp.len() ==> out.contains(#[trigger] inp[i]),
{
    let p = choose|p: Seq<int>|
        {
            &&& is_permutation(p, inp.len() as int)
            &&& stably_ordered(p, keys)
            &&& out.len() == inp.len()
            &&& forall|k: int| 0 <= k < out.len() ==> out[k] == inp[#[trigger] p[k]]
        };
    let n = inp.len() as int;
    assert forall|k: int| 0 <= k < out.len() implies inp.contains(#[trigger] out[k]) by {
        assert(out[k] == inp[p[k]]);
    }
    assert forall|i: int| 0 <= i < inp.len() implies out.contains(#[trigger] inp[i]) by {
        if !(exists|k: int| 0 <= k < n && p[k] == i) {
            let within = Seq::new((n - 1) as nat, |j: int| if j < i { j } else { j + 1 });
            assert forall|k: int| 0 <= k < p.len() implies within.contains(#[trigger] p[k]) by {
                if p[k] < i {
                    assert(within[p[k]] == p[k]);
                } else {
                    assert(p[k] != i);
                    assert(within[p[k] - 1] == p[k]);
                }
            }
            assert(p.no_duplicates());
            crate::text::lemma_distinct_within(p, within);
        }
        let k = choose|k: int| 0 <= k < n && p[k] == i;
        assert(out[k] == inp[i]);
    }
}

} // verus!
