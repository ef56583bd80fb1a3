//! Printing and parsing are mutually inverse.
//!
//! [`lemma_parse_doc_print`] states the law: parsing the printed text
//! of a well-formed value yields the value back.

use vstd::prelude::*;

use crate::json::{
    is_digit, is_number_token, num_exp_end, num_frac_end, num_int_end, scan_digits, wf_elems,
    wf_jval, wf_members, JVal,
};
use crate::json_parse::{
    hex4, hex_val, is_hex, is_num_char, is_ws, jparse_doc, jparse_elems, jparse_members,
    jparse_val, scan_num, skip_ws, sparse_string, unescape_simple, valid_scalar,
};
use crate::json_text::{
    escape_char, escape_string, hex_char, jprint, jprint_elems, jprint_member, jprint_members,
    quote,
};

verus! {

/// Characters that may follow a printed value inside a document.
pub open spec fn is_close_delim(c: char) -> bool {
    c == ',' || c == ']' || c == '}'
}

/// The characters of `t`, written into `s` starting at `i`.
pub open spec fn written_at(s: Seq<char>, i: int, t: Seq<char>) -> bool {
    &&& 0 <= i
    &&& i + t.len() <= s.len()
    &&& forall|k: int| 0 <= k < t.len() ==> s[i + k] == #[trigger] t[k]
}

/// A text written at `i` splits into its two halves.
proof fn lemma_written_split(s: Seq<char>, i: int, a: Seq<char>, b: Seq<char>)
    requires
        written_at(s, i, a + b),
    ensures
        written_at(s, i, a),
        written_at(s, i + a.len(), b),
{
    assert forall|k: int| 0 <= k < a.len() implies s[i + k] == #[trigger] a[k] by {
        assert(s[i + k] == (a + b)[k]);
    }
    assert forall|k: int| 0 <= k < b.len() implies s[i + a.len() + k] == #[trigger] b[k] by {
        assert(s[i + (a.len() + k)] == (a + b)[a.len() + k]);
    }
}

/// Reads one character of a written text.
proof fn lemma_written_char(s: Seq<char>, i: int, t: Seq<char>, k: int)
    requires
        written_at(s, i, t),
        0 <= k < t.len(),
    ensures
        s[i + k] == t[k],
{
}

/// Skipping whitespace stands still on a non-whitespace position.
proof fn lemma_skip_ws_still(s: Seq<char>, i: int)
    requires
        0 <= i,
        i >= s.len() || !is_ws(s[i]),
    ensures
        skip_ws(s, i) == i,
{
}

/// The region a digit scan covers holds digits only.
proof fn lemma_scan_digits_region(s: Seq<char>, i: int)
    requires
        0 <= i <= s.len(),
    ensures
        i <= scan_digits(s, i) <= s.len(),
        forall|k: int| i <= k < scan_digits(s, i) ==> is_digit(#[trigger] s[k]),
    decreases s.len() - i,
{
    if i < s.len() && is_digit(s[i]) {
        lemma_scan_digits_region(s, i + 1);
    }
}

/// A number token is made of number characters, is not empty, and
/// starts with a minus sign or a digit.
proof fn lemma_num_chars(t: Seq<char>)
    requires
        is_number_token(t),
    ensures
        t.len() > 0,
        t[0] == '-' || is_digit(t[0]),
        forall|k: int| 0 <= k < t.len() ==> is_num_char(#[trigger] t[k]),
{
    let i0: int = if t.len() > 0 && t[0] == '-' {
        1
    } else {
        0
    };
    let i1 = num_int_end(t, i0);
    let i2 = num_frac_end(t, i1);
    let i3 = num_exp_end(t, i2);
    lemma_scan_digits_region(t, i0);
    assert(i0 <= i1);
    if i2 != i1 {
        lemma_scan_digits_region(t, i1 + 1);
    }
    if i3 != i2 {
        let j: int = if i2 + 1 < t.len() && (t[i2 + 1] == '+' || t[i2 + 1] == '-') {
            i2 + 2
        } else {
            i2 + 1
        };
        lemma_scan_digits_region(t, j);
    }
    assert forall|k: int| 0 <= k < t.len() implies is_num_char(#[trigger] t[k]) by {
        if k < i0 {
            assert(t[k] == '-');
        } else if k < i1 {
            if t[i0] == '0' {
                assert(k == i0);
            } else {
                assert(is_digit(t[k]));
            }
        } else if k < i2 {
            if k > i1 {
                assert(is_digit(t[k]));
            }
        } else {
            if k > i2 {
                let j: int = if i2 + 1 < t.len() && (t[i2 + 1] == '+' || t[i2 + 1] == '-') {
                    i2 + 2
                } else {
                    i2 + 1
                };
                if k >= j {
                    assert(is_digit(t[k]));
                }
            }
        }
    }
}

/// A number scan covering number characters stops exactly at the
/// first position that does not hold one.
proof fn lemma_scan_num_stops(s: Seq<char>, i: int, j: int)
    requires
        0 <= i <= j <= s.len(),
        forall|k: int| i <= k < j ==> is_num_char(#[trigger] s[k]),
        j == s.len() || !is_num_char(s[j]),
    ensures
        scan_num(s, i) == j,
    decreases j - i,
{
    if i < j {
        lemma_scan_num_stops(s, i + 1, j);
    }
}

/// A printed number token parses back as that number.
proof fn lemma_parse_number(s: Seq<char>, i: int, t: Seq<char>)
    requires
        is_number_token(t),
        written_at(s, i, t),
        i + t.len() == s.len() || is_close_delim(s[i + t.len()]),
    ensures
        jparse_val(s, i) == Some((JVal::Num(t), i + t.len())),
{
    lemma_num_chars(t);
    assert(s[i + 0] == t[0]);
    assert forall|k: int| i <= k < i + t.len() implies is_num_char(#[trigger] s[k]) by {
        assert(s[i + (k - i)] == t[k - i]);
    }
    lemma_scan_num_stops(s, i, i + t.len());
    assert(s.subrange(i, i + t.len()) =~= t);
}

/// A hexadecimal digit names its value.
proof fn lemma_hex_round(d: int)
    requires
        0 <= d < 16,
    ensures
        is_hex(hex_char(d as nat)),
        hex_val(hex_char(d as nat)) == d,
{
}

/// A printed string-literal body parses back as its contents.
proof fn lemma_parse_escaped(s: Seq<char>, i: int, cs: Seq<char>)
    requires
        written_at(s, i, escape_string(cs) + seq!['"']),
    ensures
        sparse_string(s, i) == Some((cs, i + escape_string(cs).len() + 1)),
    decreases cs.len(),
{
    if cs.len() == 0 {
        assert(escape_string(cs) + seq!['"'] =~= seq!['"']);
        assert(s[i + 0] == (escape_string(cs) + seq!['"'])[0]);
        assert(s[i] == '"');
    } else {
        let c = cs[0];
        let e = escape_char(c);
        let rest = cs.drop_first();
        assert(escape_string(cs) == e + escape_string(rest));
        assert((e + escape_string(rest)) + seq!['"'] =~= e + (escape_string(rest) + seq!['"']));
        lemma_written_split(s, i, e, escape_string(rest) + seq!['"']);
        lemma_parse_escaped(s, i + e.len(), rest);
        assert(seq![c] + rest =~= cs);
        if c == '"' {
            assert(s[i + 0] == e[0]);
            assert(s[i + 1] == e[1]);
            assert(s[i] == '\\' && s[i + 1] == '"');
            assert(unescape_simple(s[i + 1]) == Some('"'));
        } else if c == '\\' {
            assert(s[i + 0] == e[0]);
            assert(s[i + 1] == e[1]);
            assert(unescape_simple(s[i + 1]) == Some('\\'));
        } else if c == '\u{08}' || c == '\t' || c == '\n' || c == '\u{0C}' || c == '\r' {
            assert(s[i + 0] == e[0]);
            assert(s[i + 1] == e[1]);
            assert(unescape_simple(s[i + 1]) == Some(c));
        } else if (c as u32) < 0x20 {
            let u = c as u32;
            assert(e == seq!['\\', 'u', '0', '0', hex_char((u / 16) as nat), hex_char(
                (u % 16) as nat,
            )]);
            assert(s[i + 0] == e[0]);
            assert(s[i + 1] == e[1]);
            assert(s[i + 2] == e[2]);
            assert(s[i + 3] == e[3]);
            assert(s[i + 4] == e[4]);
            assert(s[i + 5] == e[5]);
            lemma_hex_round((u / 16) as int);
            lemma_hex_round((u % 16) as int);
            assert(hex_val('0') == 0);
            assert(hex4(s, i + 2) == u);
            assert(valid_scalar(u as int));
            assert(((u as u32) as char) as u32 == u);
            vstd::utf8::char_u32_cast(c, u);
            assert((u as char) == c);
            assert(hex4(s, i + 2) as u32 == u);
            assert(((hex4(s, i + 2) as u32) as char) == c);
        } else {
            assert(e == seq![c]);
            assert(s[i + 0] == e[0]);
            assert(s[i] == c);
            assert(s[i] != '"' && s[i] != '\\' && (s[i] as u32) >= 0x20);
        }
    }
}

/// A printed value starts with a character that is neither
/// whitespace nor a closing delimiter.
proof fn lemma_jprint_first(v: JVal)
    requires
        wf_jval(v),
    ensures
        jprint(v).len() > 0,
        !is_ws(jprint(v)[0]),
        !is_close_delim(jprint(v)[0]),
{
    match v {
        JVal::Null => {},
        JVal::Bool(_) => {},
        JVal::Num(t) => {
            lemma_num_chars(t);
        },
        JVal::Str(cs) => {
            assert(jprint(v)[0] == '"');
        },
        JVal::Arr(es) => {
            assert(jprint(v)[0] == '[');
        },
        JVal::Obj(ms) => {
            assert(jprint(v)[0] == '{');
        },
    }
}

/// Parsing recovers a printed value: the parse of a text that holds
/// the print of `v` at `i`, with the document's end or a closing
/// delimiter after it, is `v` itself.
proof fn lemma_parse_print(v: JVal, s: Seq<char>, i: int)
    requires
        wf_jval(v),
        written_at(s, i, jprint(v)),
        i + jprint(v).len() == s.len() || is_close_delim(s[i + jprint(v).len()]),
    ensures
        jparse_val(s, i) == Some((v, i + jprint(v).len())),
    decreases v, 0int,
{
    let t = jprint(v);
    assert(s[i + 0] == t[0]);
    match v {
        JVal::Null => {
            assert(t == seq!['n', 'u', 'l', 'l']);
            assert(s[i + 1] == t[1]);
            assert(s[i + 2] == t[2]);
            assert(s[i + 3] == t[3]);
            assert(s[i] == 'n' && s[i + 1] == 'u' && s[i + 2] == 'l' && s[i + 3] == 'l');
            assert(jparse_val(s, i) == Some((JVal::Null, i + 4)));
        },
        JVal::Bool(b) => {
            assert(s[i + 1] == t[1]);
            assert(s[i + 2] == t[2]);
            assert(s[i + 3] == t[3]);
            if !b {
                assert(s[i + 4] == t[4]);
                assert(jparse_val(s, i) == Some((v, i + 5)));
                assert(t.len() == 5);
            } else {
                assert(jparse_val(s, i) == Some((v, i + 4)));
                assert(t.len() == 4);
            }
        },
        JVal::Num(tok) => {
            lemma_num_chars(tok);
            lemma_parse_number(s, i, tok);
            assert(jparse_val(s, i) == Some((v, i + t.len())));
        },
        JVal::Str(cs) => {
            let body = escape_string(cs);
            assert((seq!['"'] + body) + seq!['"'] =~= seq!['"'] + (body + seq!['"']));
            lemma_written_split(s, i, seq!['"'], body + seq!['"']);
            lemma_written_char(s, i, seq!['"'], 0);
            assert(s[i] == '"');
            lemma_parse_escaped(s, i + 1, cs);
            assert(t.len() == body.len() + 2);
            assert(jparse_val(s, i) == Some((v, i + t.len())));
        },
        JVal::Arr(es) => {
            let body = jprint_elems(es);
            assert((seq!['['] + body) + seq![']'] =~= seq!['['] + (body + seq![']']));
            lemma_written_split(s, i, seq!['['], body + seq![']']);
            assert(s[i] == '[');
            if es.len() == 0 {
                assert(body =~= Seq::<char>::empty());
                assert(body + seq![']'] =~= seq![']']);
                assert(s[i + 1 + 0] == (body + seq![']'])[0]);
                assert(s[i + 1] == ']');
                lemma_skip_ws_still(s, i + 1);
                assert(es =~= Seq::<JVal>::empty());
                assert(jparse_val(s, i) == Some((v, i + 2)));
                assert(t.len() == 2);
            } else {
                assert(wf_jval(es[0]));
                lemma_jprint_first(es[0]);
                assert(body == jprint(es[0]) + seq![','] + jprint_elems(es.drop_first())
                    || body == jprint(es[0]));
                assert(body[0] == jprint(es[0])[0]);
                assert((body + seq![']'])[0] == body[0]);
                assert(s[i + 1 + 0] == (body + seq![']'])[0]);
                assert(!is_ws(s[i + 1]) && !is_close_delim(s[i + 1]));
                lemma_skip_ws_still(s, i + 1);
                assert(decreases_to!(v => v->Arr_0));
                lemma_parse_print_elems(es, s, i + 1);
                assert(jparse_elems(s, i + 1) == Some((es, i + 1 + body.len() + 1)));
                assert(t.len() == body.len() + 2);
                assert(jparse_val(s, i) == Some((v, i + t.len())));
            }
        },
        JVal::Obj(ms) => {
            let body = jprint_members(ms);
            assert((seq!['{'] + body) + seq!['}'] =~= seq!['{'] + (body + seq!['}']));
            lemma_written_split(s, i, seq!['{'], body + seq!['}']);
            assert(s[i] == '{');
            if ms.len() == 0 {
                assert(body =~= Seq::<char>::empty());
                assert(body + seq!['}'] =~= seq!['}']);
                assert(s[i + 1 + 0] == (body + seq!['}'])[0]);
                assert(s[i + 1] == '}');
                lemma_skip_ws_still(s, i + 1);
                assert(ms =~= Seq::<(Seq<char>, JVal)>::empty());
                assert(jparse_val(s, i) == Some((v, i + 2)));
                assert(t.len() == 2);
            } else {
                assert(body == jprint_member(ms[0]) + seq![','] + jprint_members(ms.drop_first())
                    || body == jprint_member(ms[0]));
                assert(jprint_member(ms[0])[0] == '"');
                assert(body[0] == '"');
                assert((body + seq!['}'])[0] == body[0]);
                assert(s[i + 1 + 0] == (body + seq!['}'])[0]);
                assert(s[i + 1] == '"');
                lemma_skip_ws_still(s, i + 1);
                assert(decreases_to!(v => v->Obj_0));
                lemma_parse_print_members(ms, s, i + 1);
                assert(jparse_members(s, i + 1) == Some((ms, i + 1 + body.len() + 1)));
                assert(t.len() == body.len() + 2);
                assert(jparse_val(s, i) == Some((v, i + t.len())));
            }
        },
    }
}

/// The element-list part of [`lemma_parse_print`].
proof fn lemma_parse_print_elems(es: Seq<JVal>, s: Seq<char>, i: int)
    requires
        es.len() > 0,
        wf_elems(es),
        written_at(s, i, jprint_elems(es) + seq![']']),
    ensures
        jparse_elems(s, i) == Some((es, i + jprint_elems(es).len() + 1)),
    decreases es, 1int,
{
    let hd = es[0];
    let a = jprint(hd);
    assert(wf_jval(hd));
    lemma_jprint_first(hd);
    if es.len() == 1 {
        let whole = jprint_elems(es) + seq![']'];
        assert(jprint_elems(es) == a);
        lemma_written_split(s, i, a, seq![']']);
        lemma_written_char(s, i + a.len(), seq![']'], 0);
        assert(s[i + a.len() + 0] == ']');
        assert(s[i + 0] == a[0]);
        lemma_skip_ws_still(s, i);
        assert(decreases_to!(es => es[0]));
        lemma_parse_print(hd, s, i);
        lemma_skip_ws_still(s, i + a.len());
        assert(seq![hd] =~= es);
    } else {
        let rest = es.drop_first();
        let c = jprint_elems(rest);
        assert(jprint_elems(es) == a + seq![','] + c);
        assert(((a + seq![',']) + c) + seq![']'] =~= a + (seq![','] + (c + seq![']'])));
        lemma_written_split(s, i, a, seq![','] + (c + seq![']']));
        lemma_written_split(s, i + a.len(), seq![','], c + seq![']']);
        lemma_written_char(s, i + a.len(), seq![','], 0);
        assert(s[i + a.len() + 0] == ',');
        assert(s[i + 0] == a[0]);
        lemma_skip_ws_still(s, i);
        assert(decreases_to!(es => es[0]));
        lemma_parse_print(hd, s, i);
        lemma_skip_ws_still(s, i + a.len());
        lemma_parse_print_elems(rest, s, i + a.len() + 1);
        assert(seq![hd] + rest =~= es);
        assert(jprint_elems(es).len() == a.len() + 1 + c.len());
    }
}

/// The member-list part of [`lemma_parse_print`].
proof fn lemma_parse_print_members(ms: Seq<(Seq<char>, JVal)>, s: Seq<char>, i: int)
    requires
        ms.len() > 0,
        wf_members(ms),
        written_at(s, i, jprint_members(ms) + seq!['}']),
    ensures
        jparse_members(s, i) == Some((ms, i + jprint_members(ms).len() + 1)),
    decreases ms, 1int,
{
    let m0 = ms[0];
    let key = m0.0;
    let v0 = m0.1;
    let q = quote(key);
    let a = jprint_member(m0);
    let vt = jprint(v0);
    assert(wf_jval(v0));
    lemma_jprint_first(v0);
    assert(a == (q + seq![':']) + vt);
    let tail: Seq<char> = if ms.len() == 1 {
        seq!['}']
    } else {
        seq![','] + (jprint_members(ms.drop_first()) + seq!['}'])
    };
    if ms.len() == 1 {
        assert(jprint_members(ms) == a);
        assert(jprint_members(ms) + seq!['}'] =~= a + tail);
    } else {
        assert(jprint_members(ms) == (a + seq![',']) + jprint_members(ms.drop_first()));
        assert(jprint_members(ms) + seq!['}'] =~= a + tail);
    }
    // peel the member apart: quote(key), ':', value text, tail
    assert(a + tail =~= q + (seq![':'] + (vt + tail)));
    lemma_written_split(s, i, q, seq![':'] + (vt + tail));
    lemma_written_split(s, i + q.len(), seq![':'], vt + tail);
    lemma_written_split(s, i + q.len() + 1, vt, tail);
    // the key string
    assert((seq!['"'] + escape_string(key)) + seq!['"'] =~= seq!['"'] + (escape_string(key)
        + seq!['"']));
    lemma_written_split(s, i, seq!['"'], escape_string(key) + seq!['"']);
    lemma_written_char(s, i, seq!['"'], 0);
    assert(s[i + 0] == '"');
    lemma_skip_ws_still(s, i);
    lemma_parse_escaped(s, i + 1, key);
    assert(q.len() == escape_string(key).len() + 2);
    // the colon
    lemma_written_char(s, i + q.len(), seq![':'], 0);
    assert(s[i + q.len() + 0] == ':');
    lemma_skip_ws_still(s, i + q.len());
    // the value
    let vstart = i + q.len() + 1;
    lemma_written_char(s, vstart, vt, 0);
    assert(s[vstart + 0] == vt[0]);
    lemma_skip_ws_still(s, vstart);
    lemma_written_char(s, vstart + vt.len(), tail, 0);
    assert(s[vstart + vt.len() + 0] == tail[0]);
    assert(decreases_to!(ms => ms[0]));
    assert(decreases_to!(ms[0] => ms[0].1));
    lemma_parse_print(v0, s, vstart);
    let vend = vstart + vt.len();
    lemma_skip_ws_still(s, vend);
    if ms.len() == 1 {
        assert(s[vend] == '}');
        assert(seq![(key, v0)] =~= ms);
        assert(jparse_members(s, i) == Some((ms, vend + 1)));
        assert(jprint_members(ms).len() == a.len());
    } else {
        assert(s[vend] == ',');
        let rest = ms.drop_first();
        assert(tail =~= seq![','] + (jprint_members(rest) + seq!['}']));
        lemma_written_split(s, vend, seq![','], jprint_members(rest) + seq!['}']);
        lemma_parse_print_members(rest, s, vend + 1);
        assert(seq![(key, v0)] + rest =~= ms);
        assert(jprint_members(ms).len() == a.len() + 1 + jprint_members(rest).len());
    }
}

/// The round-trip law of the JSON text layer: parsing the printed
/// text of a well-formed value yields exactly that value.
pub proof fn lemma_parse_doc_print(v: JVal)
    requires
        wf_jval(v),
    ensures
        jparse_doc(jprint(v)) == Some(v),
{
    let s = jprint(v);
    lemma_jprint_first(v);
    lemma_skip_ws_still(s, 0);
    assert forall|k: int| 0 <= k < s.len() implies s[0 + k] == #[trigger] s[k] by {}
    assert(written_at(s, 0, s));
    lemma_parse_print(v, s, 0);
    lemma_skip_ws_still(s, s.len() as int);
}

} // verus!
