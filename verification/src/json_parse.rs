//! Parsing JSON text into a value.
//!
//! The grammar accepted here is JSON with the four whitespace
//! characters allowed between tokens, string escapes `\" \\ \/ \b \f
//! \n \r \t` and `\uXXXX` for any Unicode scalar value, and numbers
//! as the JSON number grammar has them.  [`jparse_doc`] is the
//! specification; [`parse_json`] implements it exactly.

use vstd::prelude::*;

use crate::json::{
    check_digit, is_digit, is_number_token, lemma_view_elems, lemma_view_members, view_elems,
    view_members, JVal, JsonNumber, JsonValue,
};
use crate::strutil::{chars_to_string, str_to_chars};

verus! {

/// The whitespace characters JSON allows between tokens.
pub open spec fn is_ws(c: char) -> bool {
    c == ' ' || c == '\t' || c == '\n' || c == '\r'
}

/// First index at or after `i` that does not hold whitespace.
pub open spec fn skip_ws(s: Seq<char>, i: int) -> int
    decreases s.len() - i,
{
    if 0 <= i < s.len() && is_ws(s[i]) {
        skip_ws(s, i + 1)
    } else {
        i
    }
}

/// True of hexadecimal digits, either case.
pub open spec fn is_hex(c: char) -> bool {
    is_digit(c) || (97 <= c as u32 && c as u32 <= 102) || (65 <= c as u32 && c as u32 <= 70)
}

/// The value of a hexadecimal digit.
pub open spec fn hex_val(c: char) -> int {
    if is_digit(c) {
        c as u32 - 48
    } else if 97 <= c as u32 {
        c as u32 - 87
    } else {
        c as u32 - 55
    }
}

/// The value of the four hexadecimal digits at `i`.
pub open spec fn hex4(s: Seq<char>, i: int) -> int {
    hex_val(s[i]) * 4096 + hex_val(s[i + 1]) * 256 + hex_val(s[i + 2]) * 16 + hex_val(s[i + 3])
}

/// Codes that name a Unicode scalar value.
pub open spec fn valid_scalar(code: int) -> bool {
    (0 <= code < 0xD800) || (0xE000 <= code < 0x110000)
}

/// The character a one-letter escape stands for, if the letter is one
/// of the eight JSON knows.
pub open spec fn unescape_simple(c: char) -> Option<char> {
    if c == '"' {
        Some('"')
    } else if c == '\\' {
        Some('\\')
    } else if c == '/' {
        Some('/')
    } else if c == 'b' {
        Some('\u{08}')
    } else if c == 'f' {
        Some('\u{0C}')
    } else if c == 'n' {
        Some('\n')
    } else if c == 'r' {
        Some('\r')
    } else if c == 't' {
        Some('\t')
    } else {
        None
    }
}

/// Parses the rest of a string literal, starting just after the
/// opening quote; yields the contents and the position after the
/// closing quote.  Unescaped control characters are rejected.
pub open spec fn sparse_string(s: Seq<char>, i: int) -> Option<(Seq<char>, int)>
    decreases s.len() - i,
{
    if !(0 <= i < s.len()) {
        None
    } else if s[i] == '"' {
        Some((Seq::empty(), i + 1))
    } else if s[i] == '\\' {
        if i + 1 < s.len() {
            if s[i + 1] == 'u' {
                if i + 5 < s.len() && is_hex(s[i + 2]) && is_hex(s[i + 3]) && is_hex(s[i + 4])
                    && is_hex(s[i + 5]) && valid_scalar(hex4(s, i + 2)) {
                    match sparse_string(s, i + 6) {
                        Some((rest, j)) => Some((seq![(hex4(s, i + 2) as u32) as char] + rest, j)),
                        None => None,
                    }
                } else {
                    None
                }
            } else {
                match unescape_simple(s[i + 1]) {
                    Some(c) => match sparse_string(s, i + 2) {
                        Some((rest, j)) => Some((seq![c] + rest, j)),
                        None => None,
                    },
                    None => None,
                }
            }
        } else {
            None
        }
    } else if (s[i] as u32) < 0x20 {
        None
    } else {
        match sparse_string(s, i + 1) {
            Some((rest, j)) => Some((seq![s[i]] + rest, j)),
            None => None,
        }
    }
}

/// Characters that can occur in a number token.
pub open spec fn is_num_char(c: char) -> bool {
    is_digit(c) || c == '-' || c == '+' || c == '.' || c == 'e' || c == 'E'
}

/// First index at or after `i` that does not hold a number character.
pub open spec fn scan_num(s: Seq<char>, i: int) -> int
    decreases s.len() - i,
{
    if 0 <= i < s.len() && is_num_char(s[i]) {
        scan_num(s, i + 1)
    } else {
        i
    }
}

/// Parses one value whose first character stands at `i`; yields the
/// value and the position just after it.
pub open spec fn jparse_val(s: Seq<char>, i: int) -> Option<(JVal, int)>
    decreases s.len() - i, 0int,
{
    if !(0 <= i < s.len()) {
        None
    } else if s[i] == 'n' {
        if i + 3 < s.len() && s[i + 1] == 'u' && s[i + 2] == 'l' && s[i + 3] == 'l' {
            Some((JVal::Null, i + 4))
        } else {
            None
        }
    } else if s[i] == 't' {
        if i + 3 < s.len() && s[i + 1] == 'r' && s[i + 2] == 'u' && s[i + 3] == 'e' {
            Some((JVal::Bool(true), i + 4))
        } else {
            None
        }
    } else if s[i] == 'f' {
        if i + 4 < s.len() && s[i + 1] == 'a' && s[i + 2] == 'l' && s[i + 3] == 's' && s[i + 4]
            == 'e' {
            Some((JVal::Bool(false), i + 5))
        } else {
            None
        }
    } else if s[i] == '"' {
        match sparse_string(s, i + 1) {
            Some((cs, j)) => Some((JVal::Str(cs), j)),
            None => None,
        }
    } else if s[i] == '[' {
        let j = skip_ws(s, i + 1);
        if !(i + 1 <= j <= s.len()) {
            None
        } else if j < s.len() && s[j] == ']' {
            Some((JVal::Arr(Seq::empty()), j + 1))
        } else {
            match jparse_elems(s, i + 1) {
                Some((vs, end)) => Some((JVal::Arr(vs), end)),
                None => None,
            }
        }
    } else if s[i] == '{' {
        let j = skip_ws(s, i + 1);
        if !(i + 1 <= j <= s.len()) {
            None
        } else if j < s.len() && s[j] == '}' {
            Some((JVal::Obj(Seq::empty()), j + 1))
        } else {
            match jparse_members(s, i + 1) {
                Some((ms, end)) => Some((JVal::Obj(ms), end)),
                None => None,
            }
        }
    } else if s[i] == '-' || is_digit(s[i]) {
        let e = scan_num(s, i);
        if i < e <= s.len() && is_number_token(s.subrange(i, e)) {
            Some((JVal::Num(s.subrange(i, e)), e))
        } else {
            None
        }
    } else {
        None
    }
}

/// Parses the elements of a non-empty array, starting just after the
/// opening bracket or a comma; yields the elements and the position
/// after the closing bracket.
pub open spec fn jparse_elems(s: Seq<char>, i: int) -> Option<(Seq<JVal>, int)>
    decreases s.len() - i, 1int,
{
    let j = skip_ws(s, i);
    if !(i <= j <= s.len()) {
        None
    } else {
        match jparse_val(s, j) {
            None => None,
            Some((v, j2)) => if !(j < j2 <= s.len()) {
                None
            } else {
                let k = skip_ws(s, j2);
                if !(j2 <= k <= s.len()) {
                    None
                } else if k < s.len() && s[k] == ',' {
                    match jparse_elems(s, k + 1) {
                        Some((vs, end)) => Some((seq![v] + vs, end)),
                        None => None,
                    }
                } else if k < s.len() && s[k] == ']' {
                    Some((seq![v], k + 1))
                } else {
                    None
                }
            },
        }
    }
}

/// Parses the members of a non-empty object, starting just after the
/// opening brace or a comma; yields the members and the position
/// after the closing brace.
pub open spec fn jparse_members(s: Seq<char>, i: int) -> Option<(Seq<(Seq<char>, JVal)>, int)>
    decreases s.len() - i, 1int,
{
    let j = skip_ws(s, i);
    if !(i <= j <= s.len()) {
        None
    } else if !(j < s.len() && s[j] == '"') {
        None
    } else {
        match sparse_string(s, j + 1) {
            None => None,
            Some((key, j2)) => if !(j < j2 <= s.len()) {
                None
            } else {
                let k = skip_ws(s, j2);
                if !(j2 <= k <= s.len()) {
                    None
                } else if !(k < s.len() && s[k] == ':') {
                    None
                } else {
                    let m = skip_ws(s, k + 1);
                    if !(k + 1 <= m <= s.len()) {
                        None
                    } else {
                        match jparse_val(s, m) {
                            None => None,
                            Some((v, j3)) => if !(m < j3 <= s.len()) {
                                None
                            } else {
                                let k2 = skip_ws(s, j3);
                                if !(j3 <= k2 <= s.len()) {
                                    None
                                } else if k2 < s.len() && s[k2] == ',' {
                                    match jparse_members(s, k2 + 1) {
                                        Some((ms, end)) => Some((seq![(key, v)] + ms, end)),
                                        None => None,
                                    }
                                } else if k2 < s.len() && s[k2] == '}' {
                                    Some((seq![(key, v)], k2 + 1))
                                } else {
                                    None
                                }
                            },
                        }
                    }
                }
            },
        }
    }
}

/// Parses a whole document: one value, with whitespace allowed
/// around it and nothing else.
pub open spec fn jparse_doc(s: Seq<char>) -> Option<JVal> {
    let i = skip_ws(s, 0);
    match jparse_val(s, i) {
        Some((v, j)) => if skip_ws(s, j) == s.len() {
            Some(v)
        } else {
            None
        },
        None => None,
    }
}

/// Exec test of [`is_ws`].
fn check_ws(c: char) -> (r: bool)
    ensures
        r == is_ws(c),
{
    c == ' ' || c == '\t' || c == '\n' || c == '\r'
}

/// Exec mirror of [`skip_ws`].
fn exec_skip_ws(chars: &Vec<char>, from: usize) -> (r: usize)
    requires
        from <= chars@.len(),
    ensures
        r == skip_ws(chars@, from as int),
        from <= r <= chars@.len(),
{
    let n = chars.len();
    let mut i = from;
    while i < n && check_ws(chars[i])
        invariant
            from <= i <= n,
            n == chars@.len(),
            skip_ws(chars@, from as int) == skip_ws(chars@, i as int),
        decreases n - i,
    {
        i = i + 1;
    }
    i
}

/// Exec test of [`is_num_char`].
fn check_num_char(c: char) -> (r: bool)
    ensures
        r == is_num_char(c),
{
    crate::json::check_digit(c) || c == '-' || c == '+' || c == '.' || c == 'e' || c == 'E'
}

/// Exec mirror of [`scan_num`].
fn exec_scan_num(chars: &Vec<char>, from: usize) -> (r: usize)
    requires
        from <= chars@.len(),
    ensures
        r == scan_num(chars@, from as int),
        from <= r <= chars@.len(),
{
    let n = chars.len();
    let mut i = from;
    while i < n && check_num_char(chars[i])
        invariant
            from <= i <= n,
            n == chars@.len(),
            scan_num(chars@, from as int) == scan_num(chars@, i as int),
        decreases n - i,
    {
        i = i + 1;
    }
    i
}

/// Copies the characters of the range `a .. b`.
fn copy_range(chars: &Vec<char>, a: usize, b: usize) -> (r: Vec<char>)
    requires
        a <= b <= chars@.len(),
    ensures
        r@ == chars@.subrange(a as int, b as int),
{
    let mut out: Vec<char> = Vec::new();
    let mut i = a;
    while i < b
        invariant
            a <= i <= b <= chars@.len(),
            out@ == chars@.subrange(a as int, i as int),
        decreases b - i,
    {
        out.push(chars[i]);
        assert(out@ =~= chars@.subrange(a as int, i + 1 as int));
        i = i + 1;
    }
    assert(out@ =~= chars@.subrange(a as int, b as int));
    out
}

/// Exec test of [`is_hex`].
fn check_hex(c: char) -> (r: bool)
    ensures
        r == is_hex(c),
{
    let u = c as u32;
    (48 <= u && u <= 57) || (97 <= u && u <= 102) || (65 <= u && u <= 70)
}

/// Exec mirror of [`hex_val`]; callers pass hexadecimal digits only.
fn exec_hex_val(c: char) -> (r: u32)
    requires
        is_hex(c),
    ensures
        r == hex_val(c),
        r < 16,
{
    let u = c as u32;
    if 48 <= u && u <= 57 {
        u - 48
    } else if 97 <= u {
        u - 87
    } else {
        u - 55
    }
}

/// Exec mirror of [`sparse_string`].
fn parse_string_exec(chars: &Vec<char>, i: usize) -> (r: Option<(Vec<char>, usize)>)
    requires
        i <= chars@.len(),
    ensures
        match r {
            Some(p) => sparse_string(chars@, i as int) == Some((p.0@, p.1 as int)) && i < p.1
                <= chars@.len(),
            None => sparse_string(chars@, i as int) is None,
        },
    decreases chars@.len() - i,
{
    let n = chars.len();
    if i >= n {
        return None;
    }
    let c = chars[i];
    if c == '"' {
        let empty: Vec<char> = Vec::new();
        return Some((empty, i + 1));
    }
    if c == '\\' {
        if i + 1 >= n {
            return None;
        }
        let e = chars[i + 1];
        if e == 'u' {
            if n - i > 5 && check_hex(chars[i + 2]) && check_hex(chars[i + 3]) && check_hex(
                chars[i + 4],
            ) && check_hex(chars[i + 5]) {
                let code = exec_hex_val(chars[i + 2]) * 4096 + exec_hex_val(chars[i + 3]) * 256
                    + exec_hex_val(chars[i + 4]) * 16 + exec_hex_val(chars[i + 5]);
                assert(code == hex4(chars@, i + 2));
                assert(code < 0x10000);
                if code < 0xD800 || code >= 0xE000 {
                    assert(valid_scalar(code as int));
                    let d = crate::strutil::char_from_code(code);
                    match parse_string_exec(chars, i + 6) {
                        Some((rest0, j)) => {
                            let ghost rest_old = rest0@;
                            let mut rest = rest0;
                            rest.insert(0, d);
                            proof {
                                assert(((code as u32) as char) as u32 == code);
                                assert(d == (hex4(chars@, i + 2) as u32) as char);
                                assert(rest@ =~= seq![d] + rest_old);
                            }
                            Some((rest, j))
                        },
                        None => None,
                    }
                } else {
                    assert(!valid_scalar(hex4(chars@, i + 2)));
                    None
                }
            } else {
                None
            }
        } else {
            match unescape_simple_exec(e) {
                Some(d) => match parse_string_exec(chars, i + 2) {
                    Some((mut rest, j)) => {
                        rest.insert(0, d);
                        Some((rest, j))
                    },
                    None => None,
                },
                None => None,
            }
        }
    } else if (c as u32) < 0x20 {
        None
    } else {
        match parse_string_exec(chars, i + 1) {
            Some((mut rest, j)) => {
                rest.insert(0, c);
                Some((rest, j))
            },
            None => None,
        }
    }
}

/// Scanning a number cannot move backwards.
proof fn lemma_scan_num_lb(s: Seq<char>, i: int)
    ensures
        scan_num(s, i) >= i,
    decreases s.len() - i,
{
    if 0 <= i < s.len() && is_num_char(s[i]) {
        lemma_scan_num_lb(s, i + 1);
    }
}

/// Exec mirror of [`jparse_val`].
fn parse_val_exec(chars: &Vec<char>, i: usize) -> (r: Option<(JsonValue, usize)>)
    requires
        i <= chars@.len(),
    ensures
        match r {
            Some(p) => jparse_val(chars@, i as int) == Some((p.0@, p.1 as int)) && i < p.1
                <= chars@.len(),
            None => jparse_val(chars@, i as int) is None,
        },
    decreases chars@.len() - i, 0int,
{
    let n = chars.len();
    if i >= n {
        return None;
    }
    let c = chars[i];
    if c == 'n' {
        if n - i > 3 && chars[i + 1] == 'u' && chars[i + 2] == 'l' && chars[i + 3] == 'l' {
            Some((JsonValue::Null, i + 4))
        } else {
            None
        }
    } else if c == 't' {
        if n - i > 3 && chars[i + 1] == 'r' && chars[i + 2] == 'u' && chars[i + 3] == 'e' {
            Some((JsonValue::Bool(true), i + 4))
        } else {
            None
        }
    } else if c == 'f' {
        if n - i > 4 && chars[i + 1] == 'a' && chars[i + 2] == 'l' && chars[i + 3] == 's' && chars[i
            + 4] == 'e' {
            Some((JsonValue::Bool(false), i + 5))
        } else {
            None
        }
    } else if c == '"' {
        match parse_string_exec(chars, i + 1) {
            Some((cs, j)) => Some((JsonValue::Str(chars_to_string(&cs)), j)),
            None => None,
        }
    } else if c == '[' {
        let j = exec_skip_ws(chars, i + 1);
        if j < n && chars[j] == ']' {
            let empty: Vec<JsonValue> = Vec::new();
            Some((JsonValue::Arr(empty), j + 1))
        } else {
            match parse_elems_exec(chars, i + 1) {
                Some((vs, end)) => Some((JsonValue::Arr(vs), end)),
                None => None,
            }
        }
    } else if c == '{' {
        let j = exec_skip_ws(chars, i + 1);
        if j < n && chars[j] == '}' {
            let empty: Vec<(String, JsonValue)> = Vec::new();
            Some((JsonValue::Obj(empty), j + 1))
        } else {
            match parse_members_exec(chars, i + 1) {
                Some((ms, end)) => Some((JsonValue::Obj(ms), end)),
                None => None,
            }
        }
    } else if c == '-' || check_digit(c) {
        let e = exec_scan_num(chars, i);
        proof {
            lemma_scan_num_lb(chars@, i + 1);
            assert(scan_num(chars@, i as int) == scan_num(chars@, i + 1));
        }
        let tok = copy_range(chars, i, e);
        match JsonNumber::from_chars(&tok) {
            Some(num) => Some((JsonValue::Num(num), e)),
            None => None,
        }
    } else {
        None
    }
}

/// Exec mirror of [`jparse_elems`].
fn parse_elems_exec(chars: &Vec<char>, i: usize) -> (r: Option<(Vec<JsonValue>, usize)>)
    requires
        i <= chars@.len(),
    ensures
        match r {
            Some(p) => jparse_elems(chars@, i as int) == Some((view_elems(p.0@), p.1 as int)) && i
                < p.1 <= chars@.len(),
            None => jparse_elems(chars@, i as int) is None,
        },
    decreases chars@.len() - i, 1int,
{
    let j = exec_skip_ws(chars, i);
    match parse_val_exec(chars, j) {
        None => None,
        Some((v, j2)) => {
            let k = exec_skip_ws(chars, j2);
            if k < chars.len() && chars[k] == ',' {
                match parse_elems_exec(chars, k + 1) {
                    Some((vs0, end)) => {
                        let ghost vs_old = vs0@;
                        let mut vs = vs0;
                        vs.insert(0, v);
                        proof {
                            lemma_view_elems(vs_old);
                            lemma_view_elems(vs@);
                            assert(vs@ =~= seq![v] + vs_old);
                            assert forall|x: int| 0 <= x < vs@.len() implies view_elems(vs@)[x]
                                == (seq![v@] + view_elems(vs_old))[x] by {
                                if x > 0 {
                                    assert(vs@[x] == vs_old[x - 1]);
                                    assert(vs@[x]@ == vs_old[x - 1]@);
                                } else {
                                    assert(vs@[0] == v);
                                    assert(vs@[0]@ == v@);
                                }
                            }
                            assert(view_elems(vs@) =~= seq![v@] + view_elems(vs_old));
                        }
                        Some((vs, end))
                    },
                    None => None,
                }
            } else if k < chars.len() && chars[k] == ']' {
                let mut vs: Vec<JsonValue> = Vec::new();
                vs.push(v);
                proof {
                    lemma_view_elems(vs@);
                    assert(view_elems(vs@) =~= seq![v@]);
                }
                Some((vs, k + 1))
            } else {
                None
            }
        },
    }
}

/// Exec mirror of [`jparse_members`].
fn parse_members_exec(chars: &Vec<char>, i: usize) -> (r: Option<
    (Vec<(String, JsonValue)>, usize),
>)
    requires
        i <= chars@.len(),
    ensures
        match r {
            Some(p) => jparse_members(chars@, i as int) == Some(
                (view_members(p.0@), p.1 as int),
            ) && i < p.1 <= chars@.len(),
            None => jparse_members(chars@, i as int) is None,
        },
    decreases chars@.len() - i, 1int,
{
    let j = exec_skip_ws(chars, i);
    if !(j < chars.len() && chars[j] == '"') {
        return None;
    }
    match parse_string_exec(chars, j + 1) {
        None => None,
        Some((keycs, j2)) => {
            let key = chars_to_string(&keycs);
            let k = exec_skip_ws(chars, j2);
            if !(k < chars.len() && chars[k] == ':') {
                return None;
            }
            let m = exec_skip_ws(chars, k + 1);
            match parse_val_exec(chars, m) {
                None => None,
                Some((v, j3)) => {
                    let k2 = exec_skip_ws(chars, j3);
                    if k2 < chars.len() && chars[k2] == ',' {
                        match parse_members_exec(chars, k2 + 1) {
                            Some((ms0, end)) => {
                                let ghost ms_old = ms0@;
                                let mut ms = ms0;
                                ms.insert(0, (key, v));
                                proof {
                                    lemma_view_members(ms_old);
                                    lemma_view_members(ms@);
                                    assert(ms@ =~= seq![(key, v)] + ms_old);
                                    assert forall|x: int| 0 <= x < ms@.len() implies view_members(
                                        ms@,
                                    )[x] == (seq![(key@, v@)] + view_members(ms_old))[x] by {
                                        if x > 0 {
                                            assert(ms@[x] == ms_old[x - 1]);
                                            assert(ms@[x].0@ == ms_old[x - 1].0@);
                                            assert(ms@[x].1@ == ms_old[x - 1].1@);
                                        } else {
                                            assert(ms@[0] == (key, v));
                                            assert(ms@[0].0@ == key@);
                                            assert(ms@[0].1@ == v@);
                                        }
                                    }
                                    assert(view_members(ms@) =~= seq![(key@, v@)] + view_members(
                                        ms_old,
                                    ));
                                }
                                Some((ms, end))
                            },
                            None => None,
                        }
                    } else if k2 < chars.len() && chars[k2] == '}' {
                        let mut ms: Vec<(String, JsonValue)> = Vec::new();
                        ms.push((key, v));
                        proof {
                            lemma_view_members(ms@);
                            assert(view_members(ms@) =~= seq![(key@, v@)]);
                        }
                        Some((ms, k2 + 1))
                    } else {
                        None
                    }
                },
            }
        },
    }
}

/// Parses a whole JSON document, exactly as [`jparse_doc`] describes.
pub fn parse_json(s: &str) -> (r: Option<JsonValue>)
    ensures
        match r {
            Some(v) => jparse_doc(s@) == Some(v@),
            None => jparse_doc(s@) is None,
        },
{
    let chars = str_to_chars(s);
    let i = exec_skip_ws(&chars, 0);
    match parse_val_exec(&chars, i) {
        None => None,
        Some((v, j)) => {
            let k = exec_skip_ws(&chars, j);
            if k == chars.len() {
                Some(v)
            } else {
                None
            }
        },
    }
}

/// Exec mirror of [`unescape_simple`].
fn unescape_simple_exec(c: char) -> (r: Option<char>)
    ensures
        r == unescape_simple(c),
{
    if c == '"' {
        Some('"')
    } else if c == '\\' {
        Some('\\')
    } else if c == '/' {
        Some('/')
    } else if c == 'b' {
        Some('\u{08}')
    } else if c == 'f' {
        Some('\u{0C}')
    } else if c == 'n' {
        Some('\n')
    } else if c == 'r' {
        Some('\r')
    } else if c == 't' {
        Some('\t')
    } else {
        None
    }
}

} // verus!

