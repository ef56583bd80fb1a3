//! A small JSON document model: values, number tokens, and views.

use vstd::prelude::*;

verus! {

/// Abstract (spec-level) JSON value.  Number tokens and string
/// contents are kept as character sequences.
pub ghost enum JVal {
    Null,
    Bool(bool),
    Num(Seq<char>),
    Str(Seq<char>),
    Arr(Seq<JVal>),
    Obj(Seq<(Seq<char>, JVal)>),
}

/// True of characters `'0'` through `'9'`.
pub open spec fn is_digit(c: char) -> bool {
    48 <= c as u32 && c as u32 <= 57
}

/// Exec test of [`is_digit`].
pub fn check_digit(c: char) -> (r: bool)
    ensures
        r == is_digit(c),
{
    let u = c as u32;
    48 <= u && u <= 57
}

/// First index at or after `i` that does not hold a digit.
pub open spec fn scan_digits(t: Seq<char>, i: int) -> int
    decreases t.len() - i,
{
    if 0 <= i < t.len() && is_digit(t[i]) {
        scan_digits(t, i + 1)
    } else {
        i
    }
}

/// End of the integer part of a number token that starts at `i`,
/// or `-1` when there is none.
pub open spec fn num_int_end(t: Seq<char>, i: int) -> int {
    if 0 <= i < t.len() && t[i] == '0' {
        i + 1
    } else if 0 <= i < t.len() && is_digit(t[i]) {
        scan_digits(t, i)
    } else {
        -1
    }
}

/// End of the optional fraction part that starts at `i`, or `-1`
/// when a fraction starts there but has no digits.
pub open spec fn num_frac_end(t: Seq<char>, i: int) -> int {
    if 0 <= i < t.len() && t[i] == '.' {
        if scan_digits(t, i + 1) > i + 1 {
            scan_digits(t, i + 1)
        } else {
            -1
        }
    } else {
        i
    }
}

/// End of the optional exponent part that starts at `i`, or `-1`
/// when an exponent starts there but has no digits.
pub open spec fn num_exp_end(t: Seq<char>, i: int) -> int {
    if 0 <= i < t.len() && (t[i] == 'e' || t[i] == 'E') {
        let j: int = if i + 1 < t.len() && (t[i + 1] == '+' || t[i + 1] == '-') {
            i + 2
        } else {
            i + 1
        };
        if scan_digits(t, j) > j {
            scan_digits(t, j)
        } else {
            -1
        }
    } else {
        i
    }
}

/// The JSON number grammar: an optional minus sign, an integer part
/// without a superfluous leading zero, an optional fraction and an
/// optional exponent.
pub open spec fn is_number_token(t: Seq<char>) -> bool {
    let i0: int = if t.len() > 0 && t[0] == '-' {
        1
    } else {
        0
    };
    let i1 = num_int_end(t, i0);
    &&& i1 >= 0
    &&& num_frac_end(t, i1) >= 0
    &&& num_exp_end(t, num_frac_end(t, i1)) == t.len()
}

/// A JSON number, kept as its literal token.  Every value of this
/// type holds a token that the JSON number grammar accepts.
#[derive(Debug)]
pub struct JsonNumber {
    token: String,
}

impl View for JsonNumber {
    type V = Seq<char>;

    closed spec fn view(&self) -> Seq<char> {
        self.token@
    }
}

impl JsonNumber {
    #[verifier::type_invariant]
    spec fn type_inv(self) -> bool {
        is_number_token(self.token@)
    }

    /// Wraps a string when the JSON number grammar accepts it.
    pub fn from_string(token: String) -> (r: Option<JsonNumber>)
        ensures
            r matches Some(n) ==> n@ == token@ && is_number_token(token@),
            r is None ==> !is_number_token(token@),
    {
        if check_number_token(token.as_str()) {
            Some(JsonNumber { token })
        } else {
            None
        }
    }

    /// Wraps a character sequence when the JSON number grammar accepts it.
    pub fn from_chars(t: &Vec<char>) -> (r: Option<JsonNumber>)
        ensures
            r matches Some(n) ==> n@ == t@ && is_number_token(t@),
            r is None ==> !is_number_token(t@),
    {
        if check_number_chars(t) {
            Some(JsonNumber { token: crate::strutil::chars_to_string(t) })
        } else {
            None
        }
    }

    /// The literal token.
    pub fn as_str(&self) -> (r: &str)
        ensures
            r@ == self@,
    {
        self.token.as_str()
    }
}

/// A JSON document value.  An object is an ordered list of key/value
/// pairs; order is kept and duplicate keys are not rejected.
#[derive(Debug)]
pub enum JsonValue {
    Null,
    Bool(bool),
    Num(JsonNumber),
    Str(String),
    Arr(Vec<JsonValue>),
    Obj(Vec<(String, JsonValue)>),
}

impl View for JsonValue {
    type V = JVal;

    open spec fn view(&self) -> JVal
        decreases self,
    {
        match self {
            JsonValue::Null => JVal::Null,
            JsonValue::Bool(b) => JVal::Bool(*b),
            JsonValue::Num(n) => JVal::Num(n@),
            JsonValue::Str(s) => JVal::Str(s@),
            JsonValue::Arr(es) => JVal::Arr(view_elems(es@)),
            JsonValue::Obj(ms) => JVal::Obj(view_members(ms@)),
        }
    }
}

/// The abstract values of a sequence of JSON values.
pub open spec fn view_elems(es: Seq<JsonValue>) -> Seq<JVal>
    decreases es,
{
    if es.len() == 0 {
        Seq::empty()
    } else {
        seq![es[0]@] + view_elems(es.drop_first())
    }
}

/// The abstract values of a sequence of JSON object members.
pub open spec fn view_members(ms: Seq<(String, JsonValue)>) -> Seq<(Seq<char>, JVal)>
    decreases ms,
{
    if ms.len() == 0 {
        Seq::empty()
    } else {
        seq![(ms[0].0@, ms[0].1@)] + view_members(ms.drop_first())
    }
}

/// Pointwise reading of [`view_elems`].
pub proof fn lemma_view_elems(es: Seq<JsonValue>)
    ensures
        view_elems(es).len() == es.len(),
        forall|i: int| 0 <= i < es.len() ==> view_elems(es)[i] == #[trigger] es[i]@,
    decreases es.len(),
{
    if es.len() > 0 {
        lemma_view_elems(es.drop_first());
        assert(view_elems(es) == seq![es[0]@] + view_elems(es.drop_first()));
        assert(view_elems(es).len() == es.len());
        assert forall|i: int| 0 <= i < es.len() implies view_elems(es)[i] == #[trigger] es[i]@ by {
            if i > 0 {
                assert(view_elems(es)[i] == view_elems(es.drop_first())[i - 1]);
                assert(es.drop_first()[i - 1] == es[i]);
            }
        }
    }
}

/// Pointwise reading of [`view_members`].
pub proof fn lemma_view_members(ms: Seq<(String, JsonValue)>)
    ensures
        view_members(ms).len() == ms.len(),
        forall|i: int| 0 <= i < ms.len() ==> view_members(ms)[i] == (
            #[trigger] ms[i].0@,
            ms[i].1@,
        ),
    decreases ms.len(),
{
    if ms.len() > 0 {
        lemma_view_members(ms.drop_first());
        assert(view_members(ms) == seq![(ms[0].0@, ms[0].1@)] + view_members(ms.drop_first()));
        assert forall|i: int| 0 <= i < ms.len() implies view_members(ms)[i] == (
            #[trigger] ms[i].0@,
            ms[i].1@,
        ) by {
            if i > 0 {
                assert(view_members(ms)[i] == view_members(ms.drop_first())[i - 1]);
                assert(ms.drop_first()[i - 1] == ms[i]);
            }
        }
    }
}

/// Appending an element appends its abstract value.
pub proof fn lemma_view_elems_push(es: Seq<JsonValue>, e: JsonValue)
    ensures
        view_elems(es.push(e)) == view_elems(es).push(e@),
{
    lemma_view_elems(es);
    lemma_view_elems(es.push(e));
    assert forall|i: int| 0 <= i < es.len() + 1 implies view_elems(es.push(e))[i] == view_elems(
        es,
    ).push(e@)[i] by {
        assert(view_elems(es.push(e))[i] == es.push(e)[i]@);
        if i < es.len() {
            assert(es.push(e)[i] == es[i]);
        } else {
            assert(es.push(e)[i] == e);
        }
    }
    assert(view_elems(es.push(e)) =~= view_elems(es).push(e@));
}

/// Appending a member appends its abstract value.
pub proof fn lemma_view_members_push(ms: Seq<(String, JsonValue)>, p: (String, JsonValue))
    ensures
        view_members(ms.push(p)) == view_members(ms).push((p.0@, p.1@)),
{
    lemma_view_members(ms);
    lemma_view_members(ms.push(p));
    assert forall|i: int| 0 <= i < ms.len() + 1 implies view_members(ms.push(p))[i] == view_members(
        ms,
    ).push((p.0@, p.1@))[i] by {
        assert(view_members(ms.push(p))[i] == (ms.push(p)[i].0@, ms.push(p)[i].1@));
        if i < ms.len() {
            assert(ms.push(p)[i] == ms[i]);
        } else {
            assert(ms.push(p)[i] == p);
        }
    }
    assert(view_members(ms.push(p)) =~= view_members(ms).push((p.0@, p.1@)));
}

/// Member views distribute over concatenation.
pub proof fn lemma_view_members_concat(a: Seq<(String, JsonValue)>, b: Seq<(String, JsonValue)>)
    ensures
        view_members(a + b) == view_members(a) + view_members(b),
{
    lemma_view_members(a);
    lemma_view_members(b);
    lemma_view_members(a + b);
    assert forall|i: int| 0 <= i < a.len() + b.len() implies view_members(a + b)[i] == (
    view_members(a) + view_members(b))[i] by {
        if i < a.len() {
            assert((a + b)[i] == a[i]);
            assert(view_members(a + b)[i] == ((a + b)[i].0@, (a + b)[i].1@));
        } else {
            assert((a + b)[i] == b[i - a.len()]);
            assert(view_members(a + b)[i] == ((a + b)[i].0@, (a + b)[i].1@));
        }
    }
    assert(view_members(a + b) =~= view_members(a) + view_members(b));
}

/// The first value under `key`, scanning members in order.
pub open spec fn lookup(ms: Seq<(Seq<char>, JVal)>, key: Seq<char>) -> Option<JVal>
    decreases ms,
{
    if ms.len() == 0 {
        None
    } else if ms[0].0 == key {
        Some(ms[0].1)
    } else {
        lookup(ms.drop_first(), key)
    }
}

/// Finds the index of the first member at or after `from` whose key
/// is `key`; mirrors [`lookup`] on the remaining members.
pub fn obj_find(ms: &Vec<(String, JsonValue)>, key: &String, from: usize) -> (r: Option<usize>)
    requires
        from <= ms@.len(),
    ensures
        match r {
            Some(j) => from <= j < ms@.len() && ms@[j as int].0@ == key@ && lookup(
                view_members(ms@).subrange(from as int, ms@.len() as int),
                key@,
            ) == Some(ms@[j as int].1@),
            None => lookup(
                view_members(ms@).subrange(from as int, ms@.len() as int),
                key@,
            ) is None,
        },
    decreases ms@.len() - from,
{
    proof {
        lemma_view_members(ms@);
    }
    let ghost sub = view_members(ms@).subrange(from as int, ms@.len() as int);
    if from >= ms.len() {
        assert(sub =~= Seq::<(Seq<char>, JVal)>::empty());
        return None;
    }
    proof {
        assert(sub[0] == view_members(ms@)[from as int]);
        assert(sub[0] == (ms@[from as int].0@, ms@[from as int].1@));
    }
    if ms[from].0 == *key {
        Some(from)
    } else {
        let r = obj_find(ms, key, from + 1);
        proof {
            assert(sub.drop_first() =~= view_members(ms@).subrange(
                from + 1 as int,
                ms@.len() as int,
            ));
        }
        r
    }
}

/// Well-formed abstract values: every number token is grammatical.
pub open spec fn wf_jval(v: JVal) -> bool
    decreases v,
{
    match v {
        JVal::Null => true,
        JVal::Bool(_) => true,
        JVal::Num(t) => is_number_token(t),
        JVal::Str(_) => true,
        JVal::Arr(es) => wf_elems(es),
        JVal::Obj(ms) => wf_members(ms),
    }
}

/// All elements well-formed.
pub open spec fn wf_elems(es: Seq<JVal>) -> bool
    decreases es,
{
    es.len() == 0 || (wf_jval(es[0]) && wf_elems(es.drop_first()))
}

/// All member values well-formed.
pub open spec fn wf_members(ms: Seq<(Seq<char>, JVal)>) -> bool
    decreases ms,
{
    ms.len() == 0 || (wf_jval(ms[0].1) && wf_members(ms.drop_first()))
}

/// [`wf_elems`] says exactly that each element is well-formed.
pub proof fn lemma_wf_elems(es: Seq<JVal>)
    ensures
        wf_elems(es) <==> (forall|i: int| 0 <= i < es.len() ==> wf_jval(#[trigger] es[i])),
    decreases es.len(),
{
    if es.len() > 0 {
        lemma_wf_elems(es.drop_first());
        assert forall|i: int| 1 <= i < es.len() implies es.drop_first()[i - 1] == #[trigger] es[i] by {}
    }
}

/// [`wf_members`] says exactly that each member value is well-formed.
pub proof fn lemma_wf_members(ms: Seq<(Seq<char>, JVal)>)
    ensures
        wf_members(ms) <==> (forall|i: int| 0 <= i < ms.len() ==> wf_jval(#[trigger] ms[i].1)),
    decreases ms.len(),
{
    if ms.len() > 0 {
        lemma_wf_members(ms.drop_first());
        assert forall|i: int| 1 <= i < ms.len() implies ms.drop_first()[i - 1] == #[trigger] ms[i] by {}
    }
}

impl JsonValue {
    /// Establishes that the abstract value of any JSON value is
    /// well-formed: numbers can only be built from grammatical tokens.
    pub fn check_wf(&self)
        ensures
            wf_jval(self@),
        decreases self,
    {
        match self {
            JsonValue::Null => {},
            JsonValue::Bool(_) => {},
            JsonValue::Num(n) => {
                proof {
                    use_type_invariant(n);
                }
            },
            JsonValue::Str(_) => {},
            JsonValue::Arr(es) => {
                let n = es.len();
                let mut i: usize = 0;
                while i < n
                    invariant
                        i <= n,
                        n == es@.len(),
                        self == JsonValue::Arr(*es),
                        forall|x: int| 0 <= x < i ==> wf_jval(#[trigger] es@[x]@),
                    decreases n - i,
                {
                    proof {
                        assert(self->Arr_0 == *es);
                        assert(decreases_to!(*self => self->Arr_0));
                        assert(decreases_to!(*es => es@));
                        assert(decreases_to!(es@ => es@[i as int]));
                    }
                    es[i].check_wf();
                    i = i + 1;
                }
                proof {
                    lemma_view_elems(es@);
                    lemma_wf_elems(view_elems(es@));
                    assert forall|x: int| 0 <= x < view_elems(es@).len() implies wf_jval(
                        #[trigger] view_elems(es@)[x],
                    ) by {
                        assert(view_elems(es@)[x] == es@[x]@);
                    }
                }
            },
            JsonValue::Obj(ms) => {
                let n = ms.len();
                let mut i: usize = 0;
                while i < n
                    invariant
                        i <= n,
                        n == ms@.len(),
                        self == JsonValue::Obj(*ms),
                        forall|x: int| 0 <= x < i ==> wf_jval(#[trigger] ms@[x].1@),
                    decreases n - i,
                {
                    proof {
                        assert(self->Obj_0 == *ms);
                        assert(decreases_to!(*self => self->Obj_0));
                        assert(decreases_to!(*ms => ms@));
                        assert(decreases_to!(ms@ => ms@[i as int]));
                        assert(decreases_to!(ms@[i as int] => ms@[i as int].1));
                    }
                    ms[i].1.check_wf();
                    i = i + 1;
                }
                proof {
                    lemma_view_members(ms@);
                    lemma_wf_members(view_members(ms@));
                    assert forall|x: int| 0 <= x < view_members(ms@).len() implies wf_jval(
                        #[trigger] view_members(ms@)[x].1,
                    ) by {
                        assert(view_members(ms@)[x] == (ms@[x].0@, ms@[x].1@));
                    }
                }
            },
        }
    }
}

impl JsonNumber {
    /// A copy with the same token.
    pub fn clone_number(&self) -> (r: JsonNumber)
        ensures
            r@ == self@,
    {
        proof {
            use_type_invariant(self);
        }
        JsonNumber { token: self.token.clone() }
    }
}

impl JsonValue {
    /// A copy with the same abstract value.
    pub fn clone_value(&self) -> (r: JsonValue)
        ensures
            r@ == self@,
        decreases self,
    {
        match self {
            JsonValue::Null => JsonValue::Null,
            JsonValue::Bool(b) => JsonValue::Bool(*b),
            JsonValue::Num(n) => JsonValue::Num(n.clone_number()),
            JsonValue::Str(s) => JsonValue::Str(s.clone()),
            JsonValue::Arr(es) => {
                let n = es.len();
                let mut out: Vec<JsonValue> = Vec::new();
                let mut i: usize = 0;
                while i < n
                    invariant
                        i <= n,
                        n == es@.len(),
                        self == JsonValue::Arr(*es),
                        out@.len() == i,
                        forall|x: int| 0 <= x < i ==> #[trigger] out@[x]@ == es@[x]@,
                    decreases n - i,
                {
                    proof {
                        assert(self->Arr_0 == *es);
                        assert(decreases_to!(*self => self->Arr_0));
                        assert(decreases_to!(*es => es@));
                        assert(decreases_to!(es@ => es@[i as int]));
                    }
                    let c = es[i].clone_value();
                    out.push(c);
                    i = i + 1;
                }
                proof {
                    lemma_view_elems(out@);
                    lemma_view_elems(es@);
                    assert forall|x: int| 0 <= x < n implies view_elems(out@)[x] == view_elems(
                        es@,
                    )[x] by {
                        assert(out@[x]@ == es@[x]@);
                    }
                    assert(view_elems(out@) =~= view_elems(es@));
                }
                JsonValue::Arr(out)
            },
            JsonValue::Obj(ms) => {
                let n = ms.len();
                let mut out: Vec<(String, JsonValue)> = Vec::new();
                let mut i: usize = 0;
                while i < n
                    invariant
                        i <= n,
                        n == ms@.len(),
                        self == JsonValue::Obj(*ms),
                        out@.len() == i,
                        forall|x: int| 0 <= x < i ==> (#[trigger] out@[x].0@ == ms@[x].0@
                            && out@[x].1@ == ms@[x].1@),
                    decreases n - i,
                {
                    proof {
                        assert(self->Obj_0 == *ms);
                        assert(decreases_to!(*self => self->Obj_0));
                        assert(decreases_to!(*ms => ms@));
                        assert(decreases_to!(ms@ => ms@[i as int]));
                        assert(decreases_to!(ms@[i as int] => ms@[i as int].1));
                    }
                    let c = ms[i].1.clone_value();
                    let k = ms[i].0.clone();
                    out.push((k, c));
                    i = i + 1;
                }
                proof {
                    lemma_view_members(out@);
                    lemma_view_members(ms@);
                    assert forall|x: int| 0 <= x < n implies view_members(out@)[x] == view_members(
                        ms@,
                    )[x] by {
                        assert(out@[x].0@ == ms@[x].0@ && out@[x].1@ == ms@[x].1@);
                    }
                    assert(view_members(out@) =~= view_members(ms@));
                }
                JsonValue::Obj(out)
            },
        }
    }
}

/// Exec check of the number grammar; mirrors the spec scanners.
pub fn check_number_token(t: &str) -> (r: bool)
    ensures
        r == is_number_token(t@),
{
    let chars = crate::strutil::str_to_chars(t);
    check_number_chars(&chars)
}

/// Exec check of the number grammar on a character vector.
pub fn check_number_chars(chars: &Vec<char>) -> (r: bool)
    ensures
        r == is_number_token(chars@),
{
    let ghost t = chars@;
    let n = chars.len();
    let mut i: usize = 0;
    if n > 0 && chars[0] == '-' {
        i = 1;
    }
    // integer part
    if i < n && chars[i] == '0' {
        i = i + 1;
    } else if i < n && check_digit(chars[i]) {
        i = exec_scan_digits(&chars, i);
    } else {
        assert(num_int_end(t, i as int) == -1);
        return false;
    }
    assert(i == num_int_end(t, if t.len() > 0 && t[0] == '-' { 1int } else { 0int }));
    // fraction part
    if i < n && chars[i] == '.' {
        let d = exec_scan_digits(&chars, i + 1);
        if d == i + 1 {
            return false;
        }
        i = d;
    }
    // exponent part
    if i < n && (chars[i] == 'e' || chars[i] == 'E') {
        let mut j = i + 1;
        if j < n && (chars[j] == '+' || chars[j] == '-') {
            j = j + 1;
        }
        let d = exec_scan_digits(&chars, j);
        if d == j {
            return false;
        }
        i = d;
    }
    i == n
}

/// Exec mirror of [`scan_digits`].
fn exec_scan_digits(chars: &Vec<char>, from: usize) -> (r: usize)
    requires
        from <= chars@.len(),
    ensures
        r == scan_digits(chars@, from as int),
        from <= r <= chars@.len(),
{
    let n = chars.len();
    let mut i = from;
    while i < n && check_digit(chars[i])
        invariant
            from <= i <= n,
            n == chars@.len(),
            scan_digits(chars@, from as int) == scan_digits(chars@, i as int),
        decreases n - i,
    {
        i = i + 1;
    }
    i
}

} // verus!
