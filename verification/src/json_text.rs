//! Printing a JSON value as text.
//!
//! [`jprint`] is the specification of the text form; [`JsonValue::to_text`]
//! produces exactly that text.  No insignificant whitespace is emitted.

use vstd::prelude::*;

use crate::json::{JVal, JsonValue, view_elems, view_members};
use crate::strutil::{chars_to_string, str_to_chars};

verus! {

/// The lower-case hexadecimal digit of a value below sixteen.
pub open spec fn hex_char(d: nat) -> char {
    if d == 0 { '0' } else if d == 1 { '1' } else if d == 2 { '2' } else if d == 3 { '3' }
    else if d == 4 { '4' } else if d == 5 { '5' } else if d == 6 { '6' } else if d == 7 { '7' }
    else if d == 8 { '8' } else if d == 9 { '9' } else if d == 10 { 'a' } else if d == 11 { 'b' }
    else if d == 12 { 'c' } else if d == 13 { 'd' } else if d == 14 { 'e' } else { 'f' }
}

/// How one character appears inside a JSON string literal: quotes and
/// backslashes are escaped, the named control characters use their
/// short escapes, the remaining control characters use `\u00..`, and
/// every other character stands for itself.
pub open spec fn escape_char(c: char) -> Seq<char> {
    if c == '"' {
        seq!['\\', '"']
    } else if c == '\\' {
        seq!['\\', '\\']
    } else if c == '\u{08}' {
        seq!['\\', 'b']
    } else if c == '\t' {
        seq!['\\', 't']
    } else if c == '\n' {
        seq!['\\', 'n']
    } else if c == '\u{0C}' {
        seq!['\\', 'f']
    } else if c == '\r' {
        seq!['\\', 'r']
    } else if (c as u32) < 0x20 {
        seq!['\\', 'u', '0', '0', hex_char((c as u32 / 16) as nat), hex_char((c as u32 % 16) as nat)]
    } else {
        seq![c]
    }
}

/// The body of a JSON string literal for the given contents.
pub open spec fn escape_string(s: Seq<char>) -> Seq<char>
    decreases s.len(),
{
    if s.len() == 0 {
        Seq::empty()
    } else {
        escape_char(s[0]) + escape_string(s.drop_first())
    }
}

/// A whole JSON string literal, quotes included.
pub open spec fn quote(s: Seq<char>) -> Seq<char> {
    seq!['"'] + escape_string(s) + seq!['"']
}

/// The text of a JSON value.
pub open spec fn jprint(v: JVal) -> Seq<char>
    decreases v,
{
    match v {
        JVal::Null => seq!['n', 'u', 'l', 'l'],
        JVal::Bool(b) => if b {
            seq!['t', 'r', 'u', 'e']
        } else {
            seq!['f', 'a', 'l', 's', 'e']
        },
        JVal::Num(t) => t,
        JVal::Str(s) => quote(s),
        JVal::Arr(es) => seq!['['] + jprint_elems(es) + seq![']'],
        JVal::Obj(ms) => seq!['{'] + jprint_members(ms) + seq!['}'],
    }
}

/// The comma-separated texts of array elements.
pub open spec fn jprint_elems(es: Seq<JVal>) -> Seq<char>
    decreases es,
{
    if es.len() == 0 {
        Seq::empty()
    } else if es.len() == 1 {
        jprint(es[0])
    } else {
        jprint(es[0]) + seq![','] + jprint_elems(es.drop_first())
    }
}

/// The text of one object member.
pub open spec fn jprint_member(m: (Seq<char>, JVal)) -> Seq<char>
    decreases m,
{
    quote(m.0) + seq![':'] + jprint(m.1)
}

/// The comma-separated texts of object members.
pub open spec fn jprint_members(ms: Seq<(Seq<char>, JVal)>) -> Seq<char>
    decreases ms,
{
    if ms.len() == 0 {
        Seq::empty()
    } else if ms.len() == 1 {
        jprint_member(ms[0])
    } else {
        jprint_member(ms[0]) + seq![','] + jprint_members(ms.drop_first())
    }
}

/// Appending one element to an element list appends its text, with a
/// comma when the list was not empty.
pub proof fn lemma_jprint_elems_push(es: Seq<JVal>, v: JVal)
    ensures
        jprint_elems(es.push(v)) == if es.len() == 0 {
            jprint(v)
        } else {
            jprint_elems(es) + seq![','] + jprint_elems(seq![v])
        },
    decreases es.len(),
{
    let p = es.push(v);
    if es.len() == 0 {
        assert(p.len() == 1);
        assert(p[0] == v);
    } else {
        assert(p[0] == es[0]);
        assert(p.drop_first() =~= es.drop_first().push(v));
        lemma_jprint_elems_push(es.drop_first(), v);
        if es.len() == 1 {
            assert(es.drop_first().len() == 0);
        }
    }
}

/// The member-list analogue of [`lemma_jprint_elems_push`].
pub proof fn lemma_jprint_members_push(ms: Seq<(Seq<char>, JVal)>, m: (Seq<char>, JVal))
    ensures
        jprint_members(ms.push(m)) == if ms.len() == 0 {
            jprint_member(m)
        } else {
            jprint_members(ms) + seq![','] + jprint_members(seq![m])
        },
    decreases ms.len(),
{
    let p = ms.push(m);
    if ms.len() == 0 {
        assert(p.len() == 1);
        assert(p[0] == m);
    } else {
        assert(p[0] == ms[0]);
        assert(p.drop_first() =~= ms.drop_first().push(m));
        lemma_jprint_members_push(ms.drop_first(), m);
        if ms.len() == 1 {
            assert(ms.drop_first().len() == 0);
        }
    }
}

/// Escaping distributes over appending one character.
pub proof fn lemma_escape_push(s: Seq<char>, c: char)
    ensures
        escape_string(s.push(c)) == escape_string(s) + escape_char(c),
    decreases s.len(),
{
    let p = s.push(c);
    if s.len() == 0 {
        assert(p.drop_first() =~= Seq::<char>::empty());
        assert(escape_string(s) + escape_char(c) =~= escape_char(c));
        assert(escape_string(p) =~= escape_char(c) + escape_string(p.drop_first()));
        assert(escape_string(p) =~= escape_char(c));
    } else {
        assert(p[0] == s[0]);
        assert(p.drop_first() =~= s.drop_first().push(c));
        lemma_escape_push(s.drop_first(), c);
        assert(escape_string(p) =~= escape_char(s[0]) + (escape_string(s.drop_first())
            + escape_char(c)));
        assert(escape_char(s[0]) + escape_string(s.drop_first()) + escape_char(c) =~= escape_char(
            s[0],
        ) + (escape_string(s.drop_first()) + escape_char(c)));
    }
}

/// The hexadecimal digit of a value below sixteen.
fn hex_digit(d: u32) -> (c: char)
    requires
        d < 16,
    ensures
        c == hex_char(d as nat),
{
    if d == 0 { '0' } else if d == 1 { '1' } else if d == 2 { '2' } else if d == 3 { '3' }
    else if d == 4 { '4' } else if d == 5 { '5' } else if d == 6 { '6' } else if d == 7 { '7' }
    else if d == 8 { '8' } else if d == 9 { '9' } else if d == 10 { 'a' } else if d == 11 { 'b' }
    else if d == 12 { 'c' } else if d == 13 { 'd' } else if d == 14 { 'e' } else { 'f' }
}

/// Appends the escaped form of one character.
fn push_escaped(out: &mut Vec<char>, c: char)
    ensures
        final(out)@ == old(out)@ + escape_char(c),
{
    if c == '"' {
        out.push('\\');
        out.push('"');
    } else if c == '\\' {
        out.push('\\');
        out.push('\\');
    } else if c == '\u{08}' {
        out.push('\\');
        out.push('b');
    } else if c == '\t' {
        out.push('\\');
        out.push('t');
    } else if c == '\n' {
        out.push('\\');
        out.push('n');
    } else if c == '\u{0C}' {
        out.push('\\');
        out.push('f');
    } else if c == '\r' {
        out.push('\\');
        out.push('r');
    } else if (c as u32) < 0x20 {
        let u = c as u32;
        out.push('\\');
        out.push('u');
        out.push('0');
        out.push('0');
        out.push(hex_digit(u / 16));
        out.push(hex_digit(u % 16));
    } else {
        out.push(c);
    }
    assert(out@ =~= old(out)@ + escape_char(c));
}

/// Appends all characters of `cs`.
fn push_chars(out: &mut Vec<char>, cs: &Vec<char>)
    ensures
        final(out)@ == old(out)@ + cs@,
{
    let n = cs.len();
    let mut i: usize = 0;
    while i < n
        invariant
            i <= n,
            n == cs@.len(),
            out@ == old(out)@ + cs@.subrange(0, i as int),
        decreases n - i,
    {
        out.push(cs[i]);
        assert(out@ =~= old(out)@ + cs@.subrange(0, i + 1 as int));
        i = i + 1;
    }
    assert(out@ =~= old(out)@ + cs@);
}

/// Appends a JSON string literal for the contents `s`.
fn push_quoted(out: &mut Vec<char>, s: &str)
    ensures
        final(out)@ == old(out)@ + quote(s@),
{
    let cs = str_to_chars(s);
    out.push('"');
    let n = cs.len();
    let mut i: usize = 0;
    while i < n
        invariant
            i <= n,
            n == cs@.len(),
            cs@ == s@,
            out@ == old(out)@ + seq!['"'] + escape_string(cs@.subrange(0, i as int)),
        decreases n - i,
    {
        proof {
            lemma_escape_push(cs@.subrange(0, i as int), cs@[i as int]);
            assert(cs@.subrange(0, i + 1 as int) =~= cs@.subrange(0, i as int).push(cs@[i as int]));
        }
        push_escaped(out, cs[i]);
        i = i + 1;
    }
    out.push('"');
    assert(cs@.subrange(0, n as int) =~= cs@);
    assert(out@ =~= old(out)@ + quote(s@));
}

/// Appends the text of a JSON value.
fn write_value(v: &JsonValue, out: &mut Vec<char>)
    ensures
        final(out)@ == old(out)@ + jprint(v@),
    decreases v,
{
    match v {
        JsonValue::Null => {
            out.push('n');
            out.push('u');
            out.push('l');
            out.push('l');
            assert(out@ =~= old(out)@ + jprint(v@));
        },
        JsonValue::Bool(b) => {
            if *b {
                out.push('t');
                out.push('r');
                out.push('u');
                out.push('e');
            } else {
                out.push('f');
                out.push('a');
                out.push('l');
                out.push('s');
                out.push('e');
            }
            assert(out@ =~= old(out)@ + jprint(v@));
        },
        JsonValue::Num(num) => {
            let cs = str_to_chars(num.as_str());
            push_chars(out, &cs);
        },
        JsonValue::Str(s) => {
            push_quoted(out, s.as_str());
        },
        JsonValue::Arr(es) => {
            out.push('[');
            let n = es.len();
            let mut i: usize = 0;
            while i < n
                invariant
                    i <= n,
                    n == es@.len(),
                    v == JsonValue::Arr(*es),
                    out@ == old(out)@ + seq!['['] + jprint_elems(view_elems(es@).subrange(
                        0,
                        i as int,
                    )),
                decreases n - i,
            {
                if i > 0 {
                    out.push(',');
                }
                proof {
                    assert(v->Arr_0 == *es);
                    assert(decreases_to!(*v => v->Arr_0));
                    assert(decreases_to!(*es => es@));
                    assert(decreases_to!(es@ => es@[i as int]));
                }
                write_value(&es[i], out);
                proof {
                    crate::json::lemma_view_elems(es@);
                    let pre = view_elems(es@).subrange(0, i as int);
                    lemma_jprint_elems_push(pre, es@[i as int]@);
                    assert(view_elems(es@).subrange(0, i + 1 as int) =~= pre.push(
                        es@[i as int]@,
                    ));
                    assert(jprint_elems(seq![es@[i as int]@]) == jprint(es@[i as int]@));
                    assert(out@ =~= old(out)@ + seq!['['] + jprint_elems(
                        view_elems(es@).subrange(0, i + 1 as int),
                    ));
                }
                i = i + 1;
            }
            out.push(']');
            proof {
                crate::json::lemma_view_elems(es@);
                assert(view_elems(es@).subrange(0, n as int) =~= view_elems(es@));
                assert(out@ =~= old(out)@ + jprint(v@));
            }
        },
        JsonValue::Obj(ms) => {
            out.push('{');
            let n = ms.len();
            let mut i: usize = 0;
            while i < n
                invariant
                    i <= n,
                    n == ms@.len(),
                    v == JsonValue::Obj(*ms),
                    out@ == old(out)@ + seq!['{'] + jprint_members(view_members(ms@).subrange(
                        0,
                        i as int,
                    )),
                decreases n - i,
            {
                if i > 0 {
                    out.push(',');
                }
                push_quoted(out, ms[i].0.as_str());
                out.push(':');
                proof {
                    assert(v->Obj_0 == *ms);
                    assert(decreases_to!(*v => v->Obj_0));
                    assert(decreases_to!(*ms => ms@));
                    assert(decreases_to!(ms@ => ms@[i as int]));
                    assert(decreases_to!(ms@[i as int] => ms@[i as int].1));
                }
                write_value(&ms[i].1, out);
                proof {
                    crate::json::lemma_view_members(ms@);
                    let pre = view_members(ms@).subrange(0, i as int);
                    let m = (ms@[i as int].0@, ms@[i as int].1@);
                    lemma_jprint_members_push(pre, m);
                    assert(view_members(ms@).subrange(0, i + 1 as int) =~= pre.push(m));
                    assert(jprint_members(seq![m]) == jprint_member(m));
                    assert(out@ =~= old(out)@ + seq!['{'] + jprint_members(
                        view_members(ms@).subrange(0, i + 1 as int),
                    ));
                }
                i = i + 1;
            }
            out.push('}');
            proof {
                crate::json::lemma_view_members(ms@);
                assert(view_members(ms@).subrange(0, n as int) =~= view_members(ms@));
                assert(out@ =~= old(out)@ + jprint(v@));
            }
        },
    }
}

impl JsonValue {
    /// The text of this value, exactly as [`jprint`] describes it.
    pub fn to_text(&self) -> (r: String)
        ensures
            r@ == jprint(self@),
    {
        let mut out: Vec<char> = Vec::new();
        write_value(self, &mut out);
        chars_to_string(&out)
    }
}

} // verus!
