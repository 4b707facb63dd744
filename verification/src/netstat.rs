//! Reading `netstat -ano -p tcp` output and TCP state names.
use vstd::prelude::*;

use crate::num::{parse_u16, parse_u32, parse_unsigned};
use crate::text::{
    ascii_alnum, char_to_uppercase, chars_of, concat, is_ascii_alnum, ascii_lower, join, join_seq, owned,
    push_char, push_str, rfind_seq, rfind_vec, seq_eq, split_tokens, str_eq, string_of,
    string_of_range, to_ascii_lower, to_lowercase, tokens, unicode_lowercase,
    unicode_uppercase_char, views, Splitter,
};

verus! {

/// One TCP connection line of `netstat` output.
#[derive(Clone, Debug)]
pub struct ParsedNetstatLine {
    pub address: String,
    pub port: u16,
    pub remote_address: String,
    pub state: String,
    pub pid: u32,
}

/// The values of a parsed line: address, port, remote address, state, PID.
pub type NetLine = (Seq<char>, int, Seq<char>, Seq<char>, int);

impl ParsedNetstatLine {
    pub open spec fn view(&self) -> NetLine {
        (self.address@, self.port as int, self.remote_address@, self.state@, self.pid as int)
    }
}

pub open spec fn tcp_seq() -> Seq<char> {
    seq!['T', 'C', 'P']
}

pub open spec fn bracket_port_sep() -> Seq<char> {
    seq![']', ':']
}

/// A local endpoint: `[v6-address]:port` or `address:port`, split at the
/// last separator; the port must be a valid `u16`.
pub open spec fn parse_local_address_seq(v: Seq<char>) -> Option<(Seq<char>, int)> {
    if v.len() > 0 && v[0] == '[' {
        let rest = v.drop_first();
        match rfind_seq(rest, bracket_port_sep()) {
            Some(k) => match parse_unsigned(rest.skip(k + 2), u16::MAX as int) {
                Some(port) => Some((rest.take(k), port)),
                None => None,
            },
            None => None,
        }
    } else {
        match rfind_seq(v, seq![':']) {
            Some(k) => match parse_unsigned(v.skip(k + 1), u16::MAX as int) {
                Some(port) => Some((v.take(k), port)),
                None => None,
            },
            None => None,
        }
    }
}

/// A remote endpoint is shown without its port when the port is `0`; a
/// bracketed endpoint without `]:` is not accepted.
pub open spec fn parse_remote_address_seq(v: Seq<char>) -> Option<Seq<char>> {
    if v.len() > 0 && v[0] == '[' {
        let rest = v.drop_first();
        match rfind_seq(rest, bracket_port_sep()) {
            Some(k) => if rest.skip(k + 2) == seq!['0'] {
                Some(rest.take(k))
            } else {
                Some(v)
            },
            None => None,
        }
    } else {
        match rfind_seq(v, seq![':']) {
            Some(k) => if v.skip(k + 1) == seq!['0'] {
                Some(v.take(k))
            } else {
                Some(v)
            },
            None => Some(v),
        }
    }
}

/// A `netstat` line `TCP local remote state pid`, split on whitespace.
pub open spec fn parse_netstat_line_seq(line: Seq<char>) -> Option<NetLine> {
    let parts = tokens(line, Splitter::Whitespace);
    if parts.len() < 5 || parts[0] != tcp_seq() {
        None
    } else {
        match (
            parse_local_address_seq(parts[1]),
            parse_remote_address_seq(parts[2]),
            parse_unsigned(parts[4], u32::MAX as int),
        ) {
            (Some(local), Some(remote), Some(pid)) => Some(
                (local.0, local.1, remote, parts[3], pid),
            ),
            _ => None,
        }
    }
}

proof fn lemma_rfind_split(s: Seq<char>, p: Seq<char>)
    ensures
        rfind_seq(s, p) matches Some(k) ==> 0 <= k && k + p.len() <= s.len() && s == s.take(k) + p
            + s.skip(k + p.len()),
{
    crate::text::lemma_rfind_below_props(s, p, s.len() - p.len() + 1);
    if let Some(k) = rfind_seq(s, p) {
        assert(s.subrange(k, k + p.len()) == p);
        assert(s =~= s.take(k) + p + s.skip(k + p.len()));
    }
}

/// What a `netstat` line that reads as a connection says: its first word
/// is `TCP`; the local word is the address, `:` and the port's digits
/// (the address in brackets before `]:` for IPv6); the remote word is the
/// remote address, or that address followed by the port `0`; the state is
/// the fourth word, and the PID is the number that the fifth word spells.
pub proof fn law_netstat_line_fields(line: Seq<char>)
    ensures
        parse_netstat_line_seq(line) matches Some(p) ==> {
            let w = tokens(line, Splitter::Whitespace);
            &&& w.len() >= 5
            &&& w[0] == seq!['T', 'C', 'P']
            &&& p.3 == w[3]
            &&& parse_unsigned(w[4], u32::MAX as int) == Some(p.4)
            &&& exists|t: Seq<char>|
                parse_unsigned(t, u16::MAX as int) == Some(p.1) && (w[1] == p.0 + seq![':'] + t
                    || w[1] == seq!['['] + p.0 + seq![']', ':'] + t)
            &&& (w[2] == p.2 || w[2] == p.2 + seq![':', '0'] || w[2] == seq!['['] + p.2 + seq![
                ']',
                ':',
                '0',
            ])
        },
{
    let w = tokens(line, Splitter::Whitespace);
    if let Some(p) = parse_netstat_line_seq(line) {
        let v = w[1];
        if v.len() > 0 && v[0] == '[' {
            let rest = v.drop_first();
            lemma_rfind_split(rest, bracket_port_sep());
            let k = rfind_seq(rest, bracket_port_sep())->0;
            let t = rest.skip(k + 2);
            assert(v =~= seq!['['] + rest);
            assert(v =~= seq!['['] + p.0 + seq![']', ':'] + t);
        } else {
            lemma_rfind_split(v, seq![':']);
            let k = rfind_seq(v, seq![':'])->0;
            let t = v.skip(k + 1);
            assert(v =~= p.0 + seq![':'] + t);
        }
        let u = w[2];
        if u.len() > 0 && u[0] == '[' {
            let rest = u.drop_first();
            lemma_rfind_split(rest, bracket_port_sep());
            let k = rfind_seq(rest, bracket_port_sep())->0;
            if rest.skip(k + 2) == seq!['0'] {
                assert(u =~= seq!['['] + rest);
                assert(u =~= seq!['['] + p.2 + seq![']', ':', '0']);
            }
        } else {
            lemma_rfind_split(u, seq![':']);
            if let Some(k) = rfind_seq(u, seq![':']) {
                if u.skip(k + 1) == seq!['0'] {
                    assert(u =~= p.2 + seq![':', '0']);
                }
            }
        }
    }
}

fn bracket_sep() -> (r: Vec<char>)
    ensures
        r@ == bracket_port_sep(),
{
    let mut r: Vec<char> = Vec::new();
    r.push(']');
    r.push(':');
    assert(r@ =~= bracket_port_sep());
    r
}

fn colon() -> (r: Vec<char>)
    ensures
        r@ == seq![':'],
{
    let mut r: Vec<char> = Vec::new();
    r.push(':');
    assert(r@ =~= seq![':']);
    r
}

fn is_zero(v: &Vec<char>, from: usize) -> (r: bool)
    requires
        from <= v@.len(),
    ensures
        r == (v@.skip(from as int) == seq!['0']),
{
    let r = v.len() - from == 1 && v[from] == '0';
    proof {
        if r {
            assert(v@.skip(from as int) =~= seq!['0']);
        } else if v@.skip(from as int).len() == 1 {
            assert(v@.skip(from as int)[0] == v@[from as int]);
        }
    }
    r
}

/// Splits a local endpoint into address and port.
pub fn parse_local_address(value: &str) -> (r: Option<(String, u16)>)
    ensures
        r matches Some((a, p)) ==> parse_local_address_seq(value@) == Some((a@, p as int)),
        r is None ==> parse_local_address_seq(value@) is None,
{
    let v = chars_of(value);
    if v.len() > 0 && v[0] == '[' {
        let rest = string_of_range(&v, 1, v.len());
        let rv = chars_of(rest.as_str());
        assert(rv@ =~= value@.drop_first());
        match rfind_vec(&rv, &bracket_sep()) {
            Some(k) => {
                let port_text = string_of_range(&rv, k + 2, rv.len());
                assert(rv@.subrange(k + 2, rv@.len() as int) =~= rv@.skip(k + 2));
                match parse_u16(port_text.as_str()) {
                    Some(port) => {
                        let addr = string_of_range(&rv, 0, k);
                        assert(rv@.subrange(0, k as int) =~= rv@.take(k as int));
                        Some((addr, port))
                    },
                    None => None,
                }
            },
            None => None,
        }
    } else {
        match rfind_vec(&v, &colon()) {
            Some(k) => {
                let port_text = string_of_range(&v, k + 1, v.len());
                assert(v@.subrange(k + 1, v@.len() as int) =~= v@.skip(k + 1));
                match parse_u16(port_text.as_str()) {
                    Some(port) => {
                        let addr = string_of_range(&v, 0, k);
                        assert(v@.subrange(0, k as int) =~= v@.take(k as int));
                        Some((addr, port))
                    },
                    None => None,
                }
            },
            None => None,
        }
    }
}

/// The remote endpoint as shown: without a `0` port.
pub fn parse_remote_address(value: &str) -> (r: Option<String>)
    ensures
        r matches Some(a) ==> parse_remote_address_seq(value@) == Some(a@),
        r is None ==> parse_remote_address_seq(value@) is None,
{
    let v = chars_of(value);
    if v.len() > 0 && v[0] == '[' {
        let rest = string_of_range(&v, 1, v.len());
        let rv = chars_of(rest.as_str());
        assert(rv@ =~= value@.drop_first());
        match rfind_vec(&rv, &bracket_sep()) {
            Some(k) => if is_zero(&rv, k + 2) {
                let addr = string_of_range(&rv, 0, k);
                assert(rv@.subrange(0, k as int) =~= rv@.take(k as int));
                Some(addr)
            } else {
                Some(owned(value))
            },
            None => None,
        }
    } else {
        match rfind_vec(&v, &colon()) {
            Some(k) => if is_zero(&v, k + 1) {
                let addr = string_of_range(&v, 0, k);
                assert(v@.subrange(0, k as int) =~= v@.take(k as int));
                Some(addr)
            } else {
                Some(owned(value))
            },
            None => Some(owned(value)),
        }
    }
}

/// Reads one line of `netstat -ano -p tcp` output.
pub fn parse_netstat_line(line: &str) -> (r: Option<ParsedNetstatLine>)
    ensures
        r matches Some(p) ==> parse_netstat_line_seq(line@) == Some(p.view()),
        r is None ==> parse_netstat_line_seq(line@) is None,
{
    let parts = split_tokens(line, Splitter::Whitespace);
    let ghost ps = views(parts@);
    assert(ps == tokens(line@, Splitter::Whitespace));
    if parts.len() < 5 {
        return None;
    }
    proof {
        reveal_strlit("TCP");
    }
    assert("TCP"@ =~= tcp_seq());
    assert(ps[0] == parts@[0]@);
    assert(ps[1] == parts@[1]@);
    assert(ps[2] == parts@[2]@);
    assert(ps[3] == parts@[3]@);
    assert(ps[4] == parts@[4]@);
    if !str_eq(parts[0].as_str(), "TCP") {
        return None;
    }
    let local = parse_local_address(parts[1].as_str());
    let remote = parse_remote_address(parts[2].as_str());
    let pid = parse_u32(parts[4].as_str());
    match (local, remote, pid) {
        (Some((address, port)), Some(remote_address), Some(pid)) => Some(
            ParsedNetstatLine { address, port, remote_address, state: owned(parts[3].as_str()), pid },
        ),
        _ => None,
    }
}

// ---------------------------------------------------------------------
// TCP states.
// ---------------------------------------------------------------------

pub open spec fn listening_seq() -> Seq<char> {
    seq!['L', 'I', 'S', 'T', 'E', 'N', 'I', 'N', 'G']
}

pub open spec fn listen_display_seq() -> Seq<char> {
    seq!['L', 'i', 's', 't', 'e', 'n']
}

/// A word with its first character uppercased and the rest lowercased.
pub open spec fn capitalize_seq(p: Seq<char>) -> Seq<char> {
    if p.len() == 0 {
        Seq::empty()
    } else {
        unicode_uppercase_char(p[0]) + unicode_lowercase(p.drop_first())
    }
}

pub open spec fn capitalize_all(parts: Seq<Seq<char>>) -> Seq<Seq<char>> {
    parts.map_values(|p: Seq<char>| capitalize_seq(p))
}

/// How a `netstat` state is shown: `LISTENING` as `Listen`, other states
/// split at `_` into capitalized words (`TIME_WAIT` as `Time Wait`).
pub open spec fn display_tcp_state_seq(state: Seq<char>) -> Seq<char> {
    if state == listening_seq() {
        listen_display_seq()
    } else {
        join_seq(capitalize_all(tokens(state, Splitter::Char('_'))), seq![' '])
    }
}

/// Each word written as its cased first part followed by its cased rest.
pub open spec fn cased_words(cased: Seq<(String, String)>) -> Seq<Seq<char>> {
    cased.map_values(|w: (String, String)| w.0@ + w.1@)
}

/// How a state is shown once each of its `_`-separated words is cased:
/// `LISTENING` as `Listen`, otherwise the words, each its first part and
/// its rest, joined by spaces.
pub open spec fn display_cased_seq(state: Seq<char>, cased: Seq<(String, String)>) -> Seq<char> {
    if state == listening_seq() {
        listen_display_seq()
    } else {
        join_seq(cased_words(cased), seq![' '])
    }
}

/// The shown state from its words already cased: for each word of the
/// state, its first character uppercased and the rest lowercased.
pub fn display_from_cased(state: &str, cased: &Vec<(String, String)>) -> (r: String)
    ensures
        r@ == display_cased_seq(state@, cased@),
{
    proof {
        reveal_strlit("LISTENING");
        reveal_strlit("Listen");
    }
    assert("LISTENING"@ =~= listening_seq());
    assert("Listen"@ =~= listen_display_seq());
    if str_eq(state, "LISTENING") {
        return owned("Listen");
    }
    let mut words: Vec<String> = Vec::new();
    let mut i: usize = 0;
    while i < cased.len()
        invariant
            i <= cased@.len(),
            views(words@) == cased_words(cased@.take(i as int)),
        decreases cased.len() - i,
    {
        let w = concat(cased[i].0.as_str(), cased[i].1.as_str());
        let ghost old_words = words@;
        words.push(w);
        assert(views(words@) =~= views(old_words).push(w@));
        assert(cased_words(cased@.take(i + 1)) =~= cased_words(cased@.take(i as int)).push(
            cased@[i as int].0@ + cased@[i as int].1@,
        ));
        i = i + 1;
    }
    assert(cased@.take(cased@.len() as int) =~= cased@);
    proof {
        reveal_strlit(" ");
    }
    assert(" "@ =~= seq![' ']);
    join(&words, " ")
}

/// A word split into its uppercased first character and its lowercased
/// rest.
fn case_word(part: &str) -> (r: (String, String))
    ensures
        r.0@ + r.1@ == capitalize_seq(part@),
{
    let v = chars_of(part);
    if v.len() == 0 {
        assert(Seq::<char>::empty() + Seq::<char>::empty() =~= Seq::<char>::empty());
        return (String::new(), String::new());
    }
    let first = char_to_uppercase(v[0]);
    let rest = string_of_range(&v, 1, v.len());
    assert(v@.subrange(1, v@.len() as int) =~= v@.drop_first());
    let lower = to_lowercase(rest.as_str());
    (first, lower)
}

/// The state name shown in the ports menu.
pub fn display_tcp_state(state: &str) -> (r: String)
    ensures
        r@ == display_tcp_state_seq(state@),
{
    proof {
        reveal_strlit("LISTENING");
        reveal_strlit("Listen");
    }
    assert("LISTENING"@ =~= listening_seq());
    assert("Listen"@ =~= listen_display_seq());
    if str_eq(state, "LISTENING") {
        return owned("Listen");
    }
    let parts = split_tokens(state, Splitter::Char('_'));
    let mut cased: Vec<(String, String)> = Vec::new();
    let mut i: usize = 0;
    while i < parts.len()
        invariant
            i <= parts@.len(),
            cased_words(cased@) == capitalize_all(views(parts@).take(i as int)),
        decreases parts.len() - i,
    {
        let w = case_word(parts[i].as_str());
        let ghost old_cased = cased@;
        cased.push(w);
        assert(cased_words(cased@) =~= cased_words(old_cased).push(w.0@ + w.1@));
        assert(views(parts@).take(i + 1) =~= views(parts@).take(i as int).push(parts@[i as int]@));
        assert(capitalize_all(views(parts@).take(i + 1)) =~= capitalize_all(
            views(parts@).take(i as int),
        ).push(capitalize_seq(parts@[i as int]@)));
        i = i + 1;
    }
    assert(views(parts@).take(parts@.len() as int) =~= views(parts@));
    display_from_cased(state, &cased)
}

/// The ASCII letters and digits of `s`, lowercased: how state names and
/// filters are compared.
pub open spec fn normalize_state_token_seq(s: Seq<char>) -> Seq<char>
    decreases s.len(),
{
    if s.len() == 0 {
        Seq::empty()
    } else if is_ascii_alnum(s.last()) {
        normalize_state_token_seq(s.drop_last()).push(ascii_lower(s.last()))
    } else {
        normalize_state_token_seq(s.drop_last())
    }
}

/// Keeps the ASCII letters and digits of `value`, lowercased.
pub fn normalize_state_token(value: &str) -> (r: String)
    ensures
        r@ == normalize_state_token_seq(value@),
{
    let v = chars_of(value);
    let mut r = String::new();
    let mut i: usize = 0;
    while i < v.len()
        invariant
            v@ == value@,
            i <= v@.len(),
            r@ == normalize_state_token_seq(v@.take(i as int)),
        decreases v.len() - i,
    {
        assert(v@.take(i + 1).drop_last() =~= v@.take(i as int));
        if ascii_alnum(v[i]) {
            push_char(&mut r, to_ascii_lower(v[i]));
        }
        i = i + 1;
    }
    assert(v@.take(v@.len() as int) =~= v@);
    r
}

pub open spec fn listen_token_seq() -> Seq<char> {
    seq!['l', 'i', 's', 't', 'e', 'n']
}

/// A state filter matches a state when, compared by ASCII letters and
/// digits ignoring case, it equals the raw state or its shown form (or is
/// `listen` for `LISTENING`); an empty filter matches every state.
pub open spec fn tcp_state_matches_seq(state: Seq<char>, filter: Seq<char>) -> bool {
    let f = normalize_state_token_seq(filter);
    ||| f.len() == 0
    ||| normalize_state_token_seq(state) == f
    ||| normalize_state_token_seq(display_tcp_state_seq(state)) == f
    ||| (state == listening_seq() && f == listen_token_seq())
}

/// The filter test of `tcp_state_matches` with the shown form of the state
/// given: compared by ASCII letters and digits ignoring case, the filter is
/// empty or equals the raw or the shown state, or is `listen` for
/// `LISTENING`.
pub open spec fn state_matches_shown_seq(state: Seq<char>, shown: Seq<char>, filter: Seq<char>) -> bool {
    let f = normalize_state_token_seq(filter);
    ||| f.len() == 0
    ||| normalize_state_token_seq(state) == f
    ||| normalize_state_token_seq(shown) == f
    ||| (state == listening_seq() && f == listen_token_seq())
}

/// Whether a state filter matches a state whose shown form is `shown`.
pub fn state_matches_shown(state: &str, shown: &str, filter: &str) -> (r: bool)
    ensures
        r == state_matches_shown_seq(state@, shown@, filter@),
{
    let f = normalize_state_token(filter);
    let fv = chars_of(f.as_str());
    if fv.len() == 0 {
        return true;
    }
    let raw = chars_of(normalize_state_token(state).as_str());
    let display = chars_of(normalize_state_token(shown).as_str());
    proof {
        reveal_strlit("LISTENING");
        reveal_strlit("listen");
    }
    assert("LISTENING"@ =~= listening_seq());
    assert("listen"@ =~= listen_token_seq());
    seq_eq(&raw, &fv) || seq_eq(&display, &fv) || (str_eq(state, "LISTENING") && str_eq(
        f.as_str(),
        "listen",
    ))
}

/// Whether a state filter such as `time-wait` matches a `netstat` state.
pub fn tcp_state_matches(state: &str, filter: &str) -> (r: bool)
    ensures
        r == tcp_state_matches_seq(state@, filter@),
{
    let shown = display_tcp_state(state);
    state_matches_shown(state, shown.as_str(), filter)
}

} // verus!
