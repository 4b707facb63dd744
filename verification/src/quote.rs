//! PowerShell single-quoted string literals.
use vstd::prelude::*;

use crate::text::{chars_of, join, join_seq, push_char, views};

verus! {

/// Inside a single-quoted PowerShell literal a quote is written twice.
pub open spec fn escape_char(c: char) -> Seq<char> {
    if c == '\'' {
        seq!['\'', '\'']
    } else {
        seq![c]
    }
}

/// `value.replace('\'', "''")`.
pub open spec fn escape_quotes(s: Seq<char>) -> Seq<char>
    decreases s.len(),
{
    if s.len() == 0 {
        Seq::empty()
    } else {
        escape_char(s[0]) + escape_quotes(s.drop_first())
    }
}

/// `format!("'{}'", value.replace('\'', "''"))`.
pub open spec fn ps_quote_seq(s: Seq<char>) -> Seq<char> {
    seq!['\''] + escape_quotes(s) + seq!['\'']
}

/// Reads the body of a single-quoted literal, where `''` stands for `'`
/// and a lone `'` is not allowed.
pub open spec fn decode_body(b: Seq<char>) -> Option<Seq<char>>
    decreases b.len(),
{
    if b.len() == 0 {
        Some(Seq::empty())
    } else if b[0] == '\'' {
        if b.len() >= 2 && b[1] == '\'' {
            match decode_body(b.skip(2)) {
                Some(rest) => Some(seq!['\''] + rest),
                None => None,
            }
        } else {
            None
        }
    } else {
        match decode_body(b.drop_first()) {
            Some(rest) => Some(seq![b[0]] + rest),
            None => None,
        }
    }
}

/// The string a single-quoted PowerShell literal stands for, when `q` is
/// one, with `'` as the quote character.
pub open spec fn ps_unquote(q: Seq<char>) -> Option<Seq<char>> {
    if q.len() >= 2 && q[0] == '\'' && q.last() == '\'' {
        decode_body(q.subrange(1, q.len() - 1))
    } else {
        None
    }
}

/// Escaping joined text escapes each part.
pub proof fn lemma_escape_concat(a: Seq<char>, b: Seq<char>)
    ensures
        escape_quotes(a + b) == escape_quotes(a) + escape_quotes(b),
    decreases a.len(),
{
    if a.len() == 0 {
        assert(a + b =~= b);
        assert(escape_quotes(a) =~= Seq::<char>::empty());
        assert(Seq::<char>::empty() + escape_quotes(b) =~= escape_quotes(b));
    } else {
        lemma_escape_concat(a.drop_first(), b);
        assert((a + b).drop_first() =~= a.drop_first() + b);
        assert((a + b)[0] == a[0]);
        assert(escape_char(a[0]) + (escape_quotes(a.drop_first()) + escape_quotes(b)) =~= (
        escape_char(a[0]) + escape_quotes(a.drop_first())) + escape_quotes(b));
    }
}

/// Escaping one character writes it as `escape_char` does.
pub proof fn lemma_escape_single(c: char)
    ensures
        escape_quotes(seq![c]) == escape_char(c),
{
    let s = seq![c];
    assert(s.drop_first() =~= Seq::<char>::empty());
    assert(escape_quotes(s.drop_first()) == Seq::<char>::empty());
    assert(s[0] == c);
    assert(escape_quotes(s) == escape_char(s[0]) + escape_quotes(s.drop_first()));
    assert(escape_char(c) + Seq::<char>::empty() =~= escape_char(c));
}

proof fn lemma_decode_escape(s: Seq<char>)
    ensures
        decode_body(escape_quotes(s)) == Some(s),
    decreases s.len(),
{
    if s.len() == 0 {
    } else {
        lemma_decode_escape(s.drop_first());
        let e = escape_quotes(s);
        let rest = escape_quotes(s.drop_first());
        if s[0] == '\'' {
            assert(e.skip(2) =~= rest);
            assert(seq!['\''] + s.drop_first() =~= s);
        } else {
            assert(e.drop_first() =~= rest);
            assert(seq![s[0]] + s.drop_first() =~= s);
        }
    }
}

/// Quoting is undone by PowerShell: the literal that `ps_quote` builds
/// stands for exactly the string that was quoted.
pub proof fn law_ps_quote_roundtrip(s: Seq<char>)
    ensures
        ps_unquote(ps_quote_seq(s)) == Some(s),
{
    let q = ps_quote_seq(s);
    assert(q.subrange(1, q.len() - 1) =~= escape_quotes(s));
    lemma_decode_escape(s);
}

/// Quotes `value` as a PowerShell single-quoted literal.
pub fn ps_quote(value: &str) -> (r: String)
    ensures
        r@ == ps_quote_seq(value@),
{
    let v = chars_of(value);
    let mut r = String::new();
    push_char(&mut r, '\'');
    let mut i: usize = 0;
    while i < v.len()
        invariant
            v@ == value@,
            i <= v@.len(),
            r@ == seq!['\''] + escape_quotes(v@.take(i as int)),
        decreases v.len() - i,
    {
        let c = v[i];
        if c == '\'' {
            push_char(&mut r, '\'');
            push_char(&mut r, '\'');
        } else {
            push_char(&mut r, c);
        }
        proof {
            assert(v@.take(i + 1) =~= v@.take(i as int) + seq![c]);
            lemma_escape_concat(v@.take(i as int), seq![c]);
            lemma_escape_single(c);
        }
        i = i + 1;
        assert(r@ =~= seq!['\''] + escape_quotes(v@.take(i as int)));
    }
    assert(v@.take(v@.len() as int) =~= v@);
    push_char(&mut r, '\'');
    r
}

pub open spec fn quoted_all(values: Seq<Seq<char>>) -> Seq<Seq<char>> {
    values.map_values(|v: Seq<char>| ps_quote_seq(v))
}

/// `values` quoted and joined with `, ` (the body of a PowerShell `@(...)`).
pub open spec fn ps_array_seq(values: Seq<Seq<char>>) -> Seq<char> {
    join_seq(quoted_all(values), seq![',', ' '])
}

/// The items of a PowerShell array literal: quoted and comma-separated.
pub fn ps_array(values: &Vec<String>) -> (r: String)
    ensures
        r@ == ps_array_seq(views(values@)),
{
    let mut quoted: Vec<String> = Vec::new();
    let mut i: usize = 0;
    while i < values.len()
        invariant
            i <= values@.len(),
            views(quoted@) == quoted_all(views(values@.take(i as int))),
        decreases values.len() - i,
    {
        let q = ps_quote(values[i].as_str());
        let ghost old_q = quoted@;
        quoted.push(q);
        assert(views(quoted@) =~= views(old_q).push(q@));
        assert(views(values@.take(i + 1)) =~= views(values@.take(i as int)).push(values@[i as int]@));
        assert(quoted_all(views(values@.take(i + 1))) =~= quoted_all(views(values@.take(i as int))).push(ps_quote_seq(values@[i as int]@)));
        i = i + 1;
    }
    assert(values@.take(values@.len() as int) =~= values@);
    let sep = ", ";
    proof {
        reveal_strlit(", ");
    }
    assert(sep@ =~= seq![',', ' ']);
    join(&quoted, sep)
}

} // verus!
