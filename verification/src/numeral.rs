//! Decimal numerals: integers as digit strings, and back.

use vstd::prelude::*;

use crate::json::{is_digit, is_number_token, num_exp_end, num_frac_end, num_int_end, scan_digits};

verus! {

/// The digit character of a value below ten.
pub open spec fn digit_char(d: nat) -> char {
    if d == 0 { '0' } else if d == 1 { '1' } else if d == 2 { '2' } else if d == 3 { '3' }
    else if d == 4 { '4' } else if d == 5 { '5' } else if d == 6 { '6' } else if d == 7 { '7' }
    else if d == 8 { '8' } else { '9' }
}

/// The value of a digit character.
pub open spec fn digit_val(c: char) -> nat {
    (c as u32 - 48) as nat
}

/// The decimal numeral of a natural number, most significant digit
/// first, without a superfluous leading zero.
pub open spec fn dec_digits(n: nat) -> Seq<char>
    decreases n,
{
    if n < 10 {
        seq![digit_char(n)]
    } else {
        dec_digits(n / 10).push(digit_char(n % 10))
    }
}

/// The decimal numeral of an integer: a minus sign for negative
/// values, then the numeral of the magnitude.
pub open spec fn dec_token_int(v: int) -> Seq<char> {
    if v < 0 {
        seq!['-'] + dec_digits((-v) as nat)
    } else {
        dec_digits(v as nat)
    }
}

/// True when every character is a digit.
pub open spec fn all_digits(s: Seq<char>) -> bool {
    forall|k: int| 0 <= k < s.len() ==> is_digit(#[trigger] s[k])
}

/// The value of a digit string.
pub open spec fn digits_val(s: Seq<char>) -> nat
    decreases s.len(),
{
    if s.len() == 0 {
        0
    } else {
        digits_val(s.drop_last()) * 10 + digit_val(s.last())
    }
}

/// A digit scan over a digit string runs to its end.
proof fn lemma_scan_all_digits(s: Seq<char>, i: int)
    requires
        0 <= i <= s.len(),
        forall|k: int| i <= k < s.len() ==> is_digit(#[trigger] s[k]),
    ensures
        scan_digits(s, i) == s.len(),
    decreases s.len() - i,
{
    if i < s.len() {
        lemma_scan_all_digits(s, i + 1);
    }
}

/// Shape of a decimal numeral: digits only, non-empty, and no
/// leading zero unless the value itself is below ten.
pub proof fn lemma_dec_digits_shape(n: nat)
    ensures
        dec_digits(n).len() > 0,
        all_digits(dec_digits(n)),
        n >= 10 ==> dec_digits(n)[0] != '0',
        n >= 1 ==> dec_digits(n)[0] != '0',
    decreases n,
{
    if n < 10 {
        assert(is_digit(digit_char(n)));
    } else {
        lemma_dec_digits_shape(n / 10);
        let p = dec_digits(n / 10);
        assert(dec_digits(n) == p.push(digit_char(n % 10)));
        assert(dec_digits(n)[0] == p[0]);
        assert(is_digit(digit_char(n % 10)));
        assert forall|k: int| 0 <= k < dec_digits(n).len() implies is_digit(
            #[trigger] dec_digits(n)[k],
        ) by {
            if k < p.len() {
                assert(dec_digits(n)[k] == p[k]);
            }
        }
    }
}

/// A decimal numeral is a JSON number token.
pub proof fn lemma_dec_digits_token(n: nat)
    ensures
        is_number_token(dec_digits(n)),
{
    lemma_dec_digits_shape(n);
    let t = dec_digits(n);
    if n < 10 {
        if n == 0 {
            assert(t[0] == '0');
            assert(num_int_end(t, 0) == 1);
        } else {
            assert(t[0] != '0');
            lemma_scan_all_digits(t, 0);
        }
    } else {
        assert(t[0] != '0');
        lemma_scan_all_digits(t, 0);
    }
    assert(num_int_end(t, 0) == t.len());
    assert(num_frac_end(t, t.len() as int) == t.len());
    assert(num_exp_end(t, t.len() as int) == t.len());
}

/// An integer numeral is a JSON number token.
pub proof fn lemma_dec_token_int_token(v: int)
    ensures
        is_number_token(dec_token_int(v)),
{
    if v >= 0 {
        lemma_dec_digits_token(v as nat);
    } else {
        let m = (-v) as nat;
        lemma_dec_digits_shape(m);
        let d = dec_digits(m);
        let t = seq!['-'] + d;
        assert(t[0] == '-');
        assert(t.len() == d.len() + 1);
        assert forall|k: int| 1 <= k < t.len() implies is_digit(#[trigger] t[k]) by {
            assert(t[k] == d[k - 1]);
        }
        lemma_scan_all_digits(t, 1);
        assert(t[1] == d[0]);
        if m == 0 {
            assert(t[1] == '0');
            assert(t.len() == 2);
            assert(num_int_end(t, 1) == 2);
        } else {
            assert(t[1] != '0');
            assert(num_int_end(t, 1) == t.len());
        }
        assert(num_frac_end(t, t.len() as int) == t.len());
        assert(num_exp_end(t, t.len() as int) == t.len());
    }
}

/// A digit round-trips through its character.
proof fn lemma_digit_round(d: nat)
    requires
        d < 10,
    ensures
        digit_val(digit_char(d)) == d,
{
}

/// Appending a digit multiplies the value by ten and adds the digit.
pub proof fn lemma_digits_val_push(s: Seq<char>, c: char)
    ensures
        digits_val(s.push(c)) == digits_val(s) * 10 + digit_val(c),
{
    let p = s.push(c);
    assert(p.drop_last() =~= s);
    assert(p.last() == c);
}

/// The numeral of a number names that number.
pub proof fn lemma_dec_digits_val(n: nat)
    ensures
        digits_val(dec_digits(n)) == n,
    decreases n,
{
    if n < 10 {
        let t = dec_digits(n);
        assert(t.drop_last() =~= Seq::<char>::empty());
        assert(t.last() == digit_char(n));
        assert(digits_val(Seq::<char>::empty()) == 0);
        lemma_digit_round(n);
        assert(digits_val(t) == 0 * 10 + digit_val(digit_char(n)));
    } else {
        lemma_dec_digits_val(n / 10);
        lemma_digits_val_push(dec_digits(n / 10), digit_char(n % 10));
        lemma_digit_round(n % 10);
        assert(digits_val(dec_digits(n)) == (n / 10) * 10 + n % 10);
        assert((n / 10) * 10 + n % 10 == n) by {
            vstd::arithmetic::div_mod::lemma_fundamental_div_mod(n as int, 10);
        }
    }
}

/// A prefix of a digit string never exceeds the whole string's value.
proof fn lemma_digits_val_prefix(s: Seq<char>, j: int)
    requires
        0 <= j <= s.len(),
    ensures
        digits_val(s.subrange(0, j)) <= digits_val(s),
    decreases s.len() - j,
{
    if j < s.len() {
        lemma_digits_val_prefix(s, j + 1);
        let a = s.subrange(0, j);
        let b = s.subrange(0, j + 1);
        assert(b =~= a.push(s[j]));
        lemma_digits_val_push(a, s[j]);
        assert(digits_val(a) <= digits_val(a) * 10 + digit_val(s[j]));
    } else {
        assert(s.subrange(0, j) =~= s);
    }
}

/// The digit character of a value below ten, exec form.
pub fn exec_digit_char(d: u64) -> (c: char)
    requires
        d < 10,
    ensures
        c == digit_char(d as nat),
{
    if d == 0 { '0' } else if d == 1 { '1' } else if d == 2 { '2' } else if d == 3 { '3' }
    else if d == 4 { '4' } else if d == 5 { '5' } else if d == 6 { '6' } else if d == 7 { '7' }
    else if d == 8 { '8' } else { '9' }
}

/// Writes the decimal numeral of a number.
pub fn u64_to_digits(n: u64) -> (r: Vec<char>)
    ensures
        r@ == dec_digits(n as nat),
    decreases n,
{
    if n < 10 {
        let mut out: Vec<char> = Vec::new();
        out.push(exec_digit_char(n));
        assert(out@ =~= seq![digit_char(n as nat)]);
        out
    } else {
        let mut out = u64_to_digits(n / 10);
        out.push(exec_digit_char(n % 10));
        out
    }
}

/// Writes the decimal numeral of a signed integer.
pub fn i64_to_digits(v: i64) -> (r: Vec<char>)
    ensures
        r@ == dec_token_int(v as int),
{
    if v < 0 {
        let m: u64 = if v == i64::MIN {
            9223372036854775808u64
        } else {
            (-v) as u64
        };
        assert(m == (-(v as int)) as nat);
        let digits = u64_to_digits(m);
        let mut out: Vec<char> = Vec::new();
        out.push('-');
        let mut i: usize = 0;
        let n = digits.len();
        while i < n
            invariant
                i <= n,
                n == digits@.len(),
                out@ == seq!['-'] + digits@.subrange(0, i as int),
            decreases n - i,
        {
            out.push(digits[i]);
            assert(out@ =~= seq!['-'] + digits@.subrange(0, i + 1 as int));
            i = i + 1;
        }
        assert(digits@.subrange(0, n as int) =~= digits@);
        out
    } else {
        u64_to_digits(v as u64)
    }
}

/// Reads a digit string as a `u32`: defined exactly when the string
/// is non-empty, all digits, and its value fits.
pub fn digits_to_u32(t: &Vec<char>) -> (r: Option<u32>)
    ensures
        match r {
            Some(v) => t@.len() > 0 && all_digits(t@) && digits_val(t@) <= u32::MAX && v
                == digits_val(t@),
            None => !(t@.len() > 0 && all_digits(t@) && digits_val(t@) <= u32::MAX),
        },
{
    let n = t.len();
    if n == 0 {
        return None;
    }
    let mut val: u32 = 0;
    let mut i: usize = 0;
    while i < n
        invariant
            i <= n,
            n == t@.len(),
            all_digits(t@.subrange(0, i as int)),
            val == digits_val(t@.subrange(0, i as int)),
        decreases n - i,
    {
        let c = t[i];
        if !crate::json::check_digit(c) {
            assert(!all_digits(t@));
            return None;
        }
        let d = (c as u32) - 48;
        proof {
            lemma_digits_val_push(t@.subrange(0, i as int), c);
            assert(t@.subrange(0, i + 1 as int) =~= t@.subrange(0, i as int).push(c));
        }
        if val > 429496729 || (val == 429496729 && d > 5) {
            proof {
                lemma_digits_val_prefix(t@, i + 1);
            }
            return None;
        }
        val = val * 10 + d;
        i = i + 1;
    }
    proof {
        assert(t@.subrange(0, n as int) =~= t@);
    }
    Some(val)
}

/// Reads a numeral, with an optional minus sign, as an `i64`:
/// defined exactly when the text is the numeral of a value in range.
pub fn digits_to_i64(t: &Vec<char>) -> (r: Option<i64>)
    ensures
        match r {
            Some(v) => int_of_digits(t@) == Some(v as int),
            None => int_of_digits(t@) is None,
        },
{
    let n = t.len();
    if n > 0 && t[0] == '-' {
        let mag = copy_tail(t);
        assert(mag@ =~= t@.drop_first());
        match digits_to_u64_bounded(&mag, 9223372036854775808u64) {
            Some(m) => {
                proof {
                    assert(-(m as int) >= i64::MIN as int);
                }
                if m == 9223372036854775808u64 {
                    Some(i64::MIN)
                } else {
                    Some(-(m as i64))
                }
            },
            None => None,
        }
    } else {
        match digits_to_u64_bounded(t, 9223372036854775807u64) {
            Some(m) => Some(m as i64),
            None => None,
        }
    }
}

/// The integer a digit text stands for, when the text is a numeral
/// with an optional minus sign and the magnitude is a digit string.
pub open spec fn int_of_digits(t: Seq<char>) -> Option<int> {
    if t.len() > 0 && t[0] == '-' {
        let m = t.drop_first();
        if m.len() > 0 && all_digits(m) && -(digits_val(m) as int) >= i64::MIN as int {
            Some(-(digits_val(m) as int))
        } else {
            None
        }
    } else {
        if t.len() > 0 && all_digits(t) && digits_val(t) <= i64::MAX as int {
            Some(digits_val(t) as int)
        } else {
            None
        }
    }
}

/// Copies all characters but the first.
fn copy_tail(t: &Vec<char>) -> (r: Vec<char>)
    requires
        t@.len() > 0,
    ensures
        r@ == t@.drop_first(),
{
    let n = t.len();
    let mut out: Vec<char> = Vec::new();
    let mut i: usize = 1;
    while i < n
        invariant
            1 <= i <= n,
            n == t@.len(),
            out@ == t@.subrange(1, i as int),
        decreases n - i,
    {
        out.push(t[i]);
        assert(out@ =~= t@.subrange(1, i + 1 as int));
        i = i + 1;
    }
    assert(out@ =~= t@.drop_first());
    out
}

/// Reads a digit string as a `u64` no greater than `bound`.
fn digits_to_u64_bounded(t: &Vec<char>, bound: u64) -> (r: Option<u64>)
    ensures
        match r {
            Some(v) => t@.len() > 0 && all_digits(t@) && digits_val(t@) <= bound && v == digits_val(
                t@,
            ),
            None => !(t@.len() > 0 && all_digits(t@) && digits_val(t@) <= bound),
        },
{
    let n = t.len();
    if n == 0 {
        return None;
    }
    let mut val: u64 = 0;
    let mut i: usize = 0;
    while i < n
        invariant
            i <= n,
            n == t@.len(),
            all_digits(t@.subrange(0, i as int)),
            val == digits_val(t@.subrange(0, i as int)),
            val <= bound,
        decreases n - i,
    {
        let c = t[i];
        if !crate::json::check_digit(c) {
            assert(!all_digits(t@));
            return None;
        }
        let d = ((c as u32) - 48) as u64;
        proof {
            lemma_digits_val_push(t@.subrange(0, i as int), c);
            assert(t@.subrange(0, i + 1 as int) =~= t@.subrange(0, i as int).push(c));
        }
        if val > bound / 10 || (val == bound / 10 && d > bound % 10) {
            proof {
                lemma_digits_val_prefix(t@, i + 1);
                assert(digits_val(t@.subrange(0, i + 1 as int)) > bound) by {
                    vstd::arithmetic::div_mod::lemma_fundamental_div_mod(bound as int, 10);
                };
            }
            return None;
        }
        assert(val * 10 + d <= bound) by {
            vstd::arithmetic::div_mod::lemma_fundamental_div_mod(bound as int, 10);
        };
        val = val * 10 + d;
        i = i + 1;
    }
    proof {
        assert(t@.subrange(0, n as int) =~= t@);
    }
    Some(val)
}

/// The numeral of an integer reads back as that integer.
pub proof fn lemma_int_numeral_round(v: int)
    requires
        i64::MIN as int <= v <= i64::MAX as int,
    ensures
        int_of_digits(dec_token_int(v)) == Some(v),
{
    if v < 0 {
        let m = (-v) as nat;
        lemma_dec_digits_shape(m);
        lemma_dec_digits_val(m);
        let t = seq!['-'] + dec_digits(m);
        assert(t[0] == '-');
        assert(t.drop_first() =~= dec_digits(m));
    } else {
        lemma_dec_digits_shape(v as nat);
        lemma_dec_digits_val(v as nat);
        let t = dec_digits(v as nat);
        assert(t[0] != '-') by {
            assert(is_digit(t[0]));
        };
    }
}

} // verus!
