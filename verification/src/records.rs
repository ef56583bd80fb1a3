//! Sample structured response types.
//!
//! These two record types show the structured side of the
//! typed-content mechanism: each is carried on the wire as the text
//! of a small JSON object, and each proves its round-trip law.

use vstd::prelude::*;
use vstd::string::StringExecFns;

use crate::codec::{CodecError, TypedText};
use crate::json::{
    lemma_view_members, lookup, obj_find, view_members, wf_jval, wf_members, JVal, JsonNumber,
    JsonValue,
};
use crate::json_laws::lemma_parse_doc_print;
use crate::json_parse::{jparse_doc, parse_json};
use crate::json_text::jprint;
use crate::numeral::{
    all_digits, dec_digits, dec_token_int, digits_to_i64, digits_to_u32, digits_val,
    int_of_digits, lemma_dec_digits_shape, lemma_dec_digits_token, lemma_dec_digits_val,
    lemma_dec_token_int_token, lemma_int_numeral_round, u64_to_digits, i64_to_digits,
};
use crate::strutil::str_to_chars;

verus! {

/// A name with an age: the record used throughout the examples of
/// structured output.
#[derive(Debug)]
pub struct Person {
    pub name: String,
    pub age: u32,
}

/// Abstract value of a [`Person`].
pub ghost struct PersonView {
    pub name: Seq<char>,
    pub age: u32,
}

impl View for Person {
    type V = PersonView;

    open spec fn view(&self) -> PersonView {
        PersonView { name: self.name@, age: self.age }
    }
}

/// The JSON document a person is carried as.
pub open spec fn person_jval(v: PersonView) -> JVal {
    JVal::Obj(
        seq![
            ("name"@, JVal::Str(v.name)),
            ("age"@, JVal::Num(dec_digits(v.age as nat))),
        ],
    )
}

/// The person a JSON document stands for, when it is an object with
/// a string under `name` and an unsigned numeral under `age`.
pub open spec fn person_of_jval(jv: JVal) -> Option<PersonView> {
    match jv {
        JVal::Obj(ms) => match lookup(ms, "name"@) {
            Some(JVal::Str(nm)) => match lookup(ms, "age"@) {
                Some(JVal::Num(tok)) => if tok.len() > 0 && all_digits(tok) && digits_val(tok)
                    <= u32::MAX {
                    Some(PersonView { name: nm, age: digits_val(tok) as u32 })
                } else {
                    None
                },
                _ => None,
            },
            _ => None,
        },
        _ => None,
    }
}

impl TypedText for Person {
    open spec fn is_plain() -> bool {
        false
    }

    fn plain_text() -> (b: bool) {
        false
    }

    open spec fn wf(v: PersonView) -> bool {
        true
    }

    open spec fn spec_encode(v: PersonView) -> Option<Seq<char>> {
        Some(jprint(person_jval(v)))
    }

    open spec fn spec_decode(t: Seq<char>) -> Option<PersonView> {
        match jparse_doc(t) {
            Some(jv) => person_of_jval(jv),
            None => None,
        }
    }

    proof fn lemma_round_trip(v: PersonView) {
        let ms = person_jval(v)->Obj_0;
        let m1 = seq![("age"@, JVal::Num(dec_digits(v.age as nat)))];
        lemma_dec_digits_token(v.age as nat);
        assert(wf_members(Seq::<(Seq<char>, JVal)>::empty()));
        assert(m1.drop_first() =~= Seq::<(Seq<char>, JVal)>::empty());
        assert(m1[0].1 == JVal::Num(dec_digits(v.age as nat)));
        assert(m1.len() == 1);
        assert(wf_jval(JVal::Num(dec_digits(v.age as nat))));
        assert(wf_jval(m1[0].1));
        assert(wf_members(m1.drop_first()));
        assert(wf_members(m1));
        assert(ms.drop_first() =~= m1);
        assert(ms.len() == 2);
        assert(ms[0].1 == JVal::Str(v.name));
        assert(wf_jval(ms[0].1));
        assert(wf_members(ms));
        lemma_parse_doc_print(person_jval(v));
        reveal_strlit("name");
        reveal_strlit("age");
        assert("name"@.len() == 4);
        assert("age"@.len() == 3);
        assert("name"@ != "age"@);
        assert(ms[0].0 == "name"@);
        assert(lookup(ms, "name"@) == Some(JVal::Str(v.name)));
        assert(lookup(ms, "age"@) == lookup(m1, "age"@));
        assert(m1[0].0 == "age"@);
        assert(lookup(ms, "age"@) == Some(JVal::Num(dec_digits(v.age as nat))));
        lemma_dec_digits_shape(v.age as nat);
        lemma_dec_digits_val(v.age as nat);
    }

    fn encode(&self) -> (r: Result<String, CodecError>) {
        let mut ms: Vec<(String, JsonValue)> = Vec::new();
        ms.push((String::from_str("name"), JsonValue::Str(self.name.clone())));
        assert(ms@[0].0@ == "name"@ && ms@[0].1@ == JVal::Str(self.name@));
        let age_digits = u64_to_digits(self.age as u64);
        proof {
            lemma_dec_digits_token(self.age as nat);
        }
        let num = match JsonNumber::from_chars(&age_digits) {
            Some(n) => n,
            None => {
                proof {
                    assert(false);
                }
                return Err(CodecError::SerializationError);
            },
        };
        ms.push((String::from_str("age"), JsonValue::Num(num)));
        assert(ms@[1].0@ == "age"@ && ms@[1].1@ == JVal::Num(dec_digits(self.age as nat)));
        let ghost msv = ms@;
        let val = JsonValue::Obj(ms);
        proof {
            lemma_view_members(msv);
            assert(view_members(msv).len() == 2);
            assert(view_members(msv)[0] == (msv[0].0@, msv[0].1@));
            assert(view_members(msv)[1] == (msv[1].0@, msv[1].1@));
            assert(view_members(msv) =~= person_jval(self@)->Obj_0);
            assert(val@ == person_jval(self@));
        }
        Ok(val.to_text())
    }

    fn decode(t: &str) -> (r: Result<Person, CodecError>) {
        let parsed = match parse_json(t) {
            Some(v) => v,
            None => {
                return Err(CodecError::DeserializationError);
            },
        };
        match parsed {
            JsonValue::Obj(ms) => {
                proof {
                    lemma_view_members(ms@);
                    assert(view_members(ms@).subrange(0, ms@.len() as int) =~= view_members(ms@));
                }
                let name_key = String::from_str("name");
                let age_key = String::from_str("age");
                let nm = match obj_find(&ms, &name_key, 0) {
                    Some(j) => match &ms[j].1 {
                        JsonValue::Str(s) => s.clone(),
                        _ => {
                            return Err(CodecError::DeserializationError);
                        },
                    },
                    None => {
                        return Err(CodecError::DeserializationError);
                    },
                };
                let age = match obj_find(&ms, &age_key, 0) {
                    Some(j) => match &ms[j].1 {
                        JsonValue::Num(n) => {
                            let cs = str_to_chars(n.as_str());
                            match digits_to_u32(&cs) {
                                Some(a) => a,
                                None => {
                                    return Err(CodecError::DeserializationError);
                                },
                            }
                        },
                        _ => {
                            return Err(CodecError::DeserializationError);
                        },
                    },
                    None => {
                        return Err(CodecError::DeserializationError);
                    },
                };
                Ok(Person { name: nm, age })
            },
            _ => Err(CodecError::DeserializationError),
        }
    }
}

/// The machine-readable shape of a [`Person`]: an object with a
/// string `name` and an integer `age`, both required.
pub open spec fn person_schema_jval() -> JVal {
    JVal::Obj(
        seq![
            ("type"@, JVal::Str("object"@)),
            (
                "properties"@,
                JVal::Obj(
                    seq![
                        ("name"@, JVal::Obj(seq![("type"@, JVal::Str("string"@))])),
                        ("age"@, JVal::Obj(seq![("type"@, JVal::Str("integer"@))])),
                    ],
                ),
            ),
            ("required"@, JVal::Arr(seq![JVal::Str("name"@), JVal::Str("age"@)])),
        ],
    )
}

/// Builds an object with a single `type` member.
fn type_only_object(kind: &'static str) -> (r: JsonValue)
    ensures
        r@ == JVal::Obj(seq![("type"@, JVal::Str(kind@))]),
{
    let mut ms: Vec<(String, JsonValue)> = Vec::new();
    ms.push((String::from_str("type"), JsonValue::Str(String::from_str(kind))));
    let ghost msv = ms@;
    let r = JsonValue::Obj(ms);
    proof {
        lemma_view_members(msv);
        assert(view_members(msv) =~= seq![("type"@, JVal::Str(kind@))]);
    }
    r
}

impl Person {
    /// A schema document describing this type's shape, ready to
    /// attach to a configuration in either schema slot.
    pub fn schema_document() -> (r: JsonValue)
        ensures
            r@ == person_schema_jval(),
    {
        let mut props: Vec<(String, JsonValue)> = Vec::new();
        props.push((String::from_str("name"), type_only_object("string")));
        props.push((String::from_str("age"), type_only_object("integer")));
        let ghost propsv = props@;
        let mut required: Vec<JsonValue> = Vec::new();
        required.push(JsonValue::Str(String::from_str("name")));
        required.push(JsonValue::Str(String::from_str("age")));
        let ghost reqv = required@;
        let mut ms: Vec<(String, JsonValue)> = Vec::new();
        ms.push((String::from_str("type"), JsonValue::Str(String::from_str("object"))));
        ms.push((String::from_str("properties"), JsonValue::Obj(props)));
        ms.push((String::from_str("required"), JsonValue::Arr(required)));
        let ghost msv = ms@;
        let r = JsonValue::Obj(ms);
        proof {
            lemma_view_members(propsv);
            assert(view_members(propsv)[0] == (propsv[0].0@, propsv[0].1@));
            assert(view_members(propsv)[1] == (propsv[1].0@, propsv[1].1@));
            assert(view_members(propsv) =~= person_schema_jval()->Obj_0[1].1->Obj_0);
            crate::json::lemma_view_elems(reqv);
            assert(crate::json::view_elems(reqv)[0] == reqv[0]@);
            assert(crate::json::view_elems(reqv)[1] == reqv[1]@);
            assert(crate::json::view_elems(reqv) =~= seq![
                JVal::Str("name"@),
                JVal::Str("age"@),
            ]);
            lemma_view_members(msv);
            assert(view_members(msv)[0] == (msv[0].0@, msv[0].1@));
            assert(view_members(msv)[1] == (msv[1].0@, msv[1].1@));
            assert(view_members(msv)[2] == (msv[2].0@, msv[2].1@));
            assert(view_members(msv) =~= person_schema_jval()->Obj_0);
        }
        r
    }
}

/// The machine-readable shape of a [`KeyValue`]: an object with a
/// string `key` and an integer `value`, both required.
pub open spec fn key_value_schema_jval() -> JVal {
    JVal::Obj(
        seq![
            ("type"@, JVal::Str("object"@)),
            (
                "properties"@,
                JVal::Obj(
                    seq![
                        ("key"@, JVal::Obj(seq![("type"@, JVal::Str("string"@))])),
                        ("value"@, JVal::Obj(seq![("type"@, JVal::Str("integer"@))])),
                    ],
                ),
            ),
            ("required"@, JVal::Arr(seq![JVal::Str("key"@), JVal::Str("value"@)])),
        ],
    )
}

impl KeyValue {
    /// A schema document describing this type's shape, ready to
    /// attach to a configuration in either schema slot.
    pub fn schema_document() -> (r: JsonValue)
        ensures
            r@ == key_value_schema_jval(),
    {
        let mut props: Vec<(String, JsonValue)> = Vec::new();
        props.push((String::from_str("key"), type_only_object("string")));
        props.push((String::from_str("value"), type_only_object("integer")));
        let ghost propsv = props@;
        let mut required: Vec<JsonValue> = Vec::new();
        required.push(JsonValue::Str(String::from_str("key")));
        required.push(JsonValue::Str(String::from_str("value")));
        let ghost reqv = required@;
        let mut ms: Vec<(String, JsonValue)> = Vec::new();
        ms.push((String::from_str("type"), JsonValue::Str(String::from_str("object"))));
        ms.push((String::from_str("properties"), JsonValue::Obj(props)));
        ms.push((String::from_str("required"), JsonValue::Arr(required)));
        let ghost msv = ms@;
        let r = JsonValue::Obj(ms);
        proof {
            lemma_view_members(propsv);
            assert(view_members(propsv)[0] == (propsv[0].0@, propsv[0].1@));
            assert(view_members(propsv)[1] == (propsv[1].0@, propsv[1].1@));
            assert(view_members(propsv) =~= key_value_schema_jval()->Obj_0[1].1->Obj_0);
            crate::json::lemma_view_elems(reqv);
            assert(crate::json::view_elems(reqv)[0] == reqv[0]@);
            assert(crate::json::view_elems(reqv)[1] == reqv[1]@);
            assert(crate::json::view_elems(reqv) =~= seq![
                JVal::Str("key"@),
                JVal::Str("value"@),
            ]);
            lemma_view_members(msv);
            assert(view_members(msv)[0] == (msv[0].0@, msv[0].1@));
            assert(view_members(msv)[1] == (msv[1].0@, msv[1].1@));
            assert(view_members(msv)[2] == (msv[2].0@, msv[2].1@));
            assert(view_members(msv) =~= key_value_schema_jval()->Obj_0);
        }
        r
    }
}

/// A key with a signed count, a second structured sample.
#[derive(Debug)]
pub struct KeyValue {
    pub key: String,
    pub value: i32,
}

/// Abstract value of a [`KeyValue`].
pub ghost struct KeyValueView {
    pub key: Seq<char>,
    pub value: i32,
}

impl View for KeyValue {
    type V = KeyValueView;

    open spec fn view(&self) -> KeyValueView {
        KeyValueView { key: self.key@, value: self.value }
    }
}

/// The JSON document a key/value record is carried as.
pub open spec fn key_value_jval(v: KeyValueView) -> JVal {
    JVal::Obj(
        seq![
            ("key"@, JVal::Str(v.key)),
            ("value"@, JVal::Num(dec_token_int(v.value as int))),
        ],
    )
}

/// The record a JSON document stands for, when it is an object with
/// a string under `key` and a signed numeral under `value`.
pub open spec fn key_value_of_jval(jv: JVal) -> Option<KeyValueView> {
    match jv {
        JVal::Obj(ms) => match lookup(ms, "key"@) {
            Some(JVal::Str(k)) => match lookup(ms, "value"@) {
                Some(JVal::Num(tok)) => match int_of_digits(tok) {
                    Some(x) => if i32::MIN as int <= x <= i32::MAX as int {
                        Some(KeyValueView { key: k, value: x as i32 })
                    } else {
                        None
                    },
                    None => None,
                },
                _ => None,
            },
            _ => None,
        },
        _ => None,
    }
}

impl TypedText for KeyValue {
    open spec fn is_plain() -> bool {
        false
    }

    fn plain_text() -> (b: bool) {
        false
    }

    open spec fn wf(v: KeyValueView) -> bool {
        true
    }

    open spec fn spec_encode(v: KeyValueView) -> Option<Seq<char>> {
        Some(jprint(key_value_jval(v)))
    }

    open spec fn spec_decode(t: Seq<char>) -> Option<KeyValueView> {
        match jparse_doc(t) {
            Some(jv) => key_value_of_jval(jv),
            None => None,
        }
    }

    proof fn lemma_round_trip(v: KeyValueView) {
        let ms = key_value_jval(v)->Obj_0;
        let m1 = seq![("value"@, JVal::Num(dec_token_int(v.value as int)))];
        lemma_dec_token_int_token(v.value as int);
        assert(wf_members(Seq::<(Seq<char>, JVal)>::empty()));
        assert(m1.drop_first() =~= Seq::<(Seq<char>, JVal)>::empty());
        assert(m1[0].1 == JVal::Num(dec_token_int(v.value as int)));
        assert(m1.len() == 1);
        assert(wf_jval(JVal::Num(dec_token_int(v.value as int))));
        assert(wf_jval(m1[0].1));
        assert(wf_members(m1.drop_first()));
        assert(wf_members(m1));
        assert(ms.drop_first() =~= m1);
        assert(ms.len() == 2);
        assert(ms[0].1 == JVal::Str(v.key));
        assert(wf_jval(ms[0].1));
        assert(wf_members(ms));
        lemma_parse_doc_print(key_value_jval(v));
        reveal_strlit("key");
        reveal_strlit("value");
        assert("key"@.len() == 3);
        assert("value"@.len() == 5);
        assert("key"@ != "value"@);
        assert(ms[0].0 == "key"@);
        assert(lookup(ms, "key"@) == Some(JVal::Str(v.key)));
        assert(lookup(ms, "value"@) == lookup(m1, "value"@));
        assert(m1[0].0 == "value"@);
        assert(lookup(ms, "value"@) == Some(JVal::Num(dec_token_int(v.value as int))));
        lemma_int_numeral_round(v.value as int);
    }

    fn encode(&self) -> (r: Result<String, CodecError>) {
        let mut ms: Vec<(String, JsonValue)> = Vec::new();
        ms.push((String::from_str("key"), JsonValue::Str(self.key.clone())));
        assert(ms@[0].0@ == "key"@ && ms@[0].1@ == JVal::Str(self.key@));
        let digits = i64_to_digits(self.value as i64);
        proof {
            lemma_dec_token_int_token(self.value as int);
        }
        let num = match JsonNumber::from_chars(&digits) {
            Some(n) => n,
            None => {
                proof {
                    assert(false);
                }
                return Err(CodecError::SerializationError);
            },
        };
        ms.push((String::from_str("value"), JsonValue::Num(num)));
        assert(ms@[1].0@ == "value"@ && ms@[1].1@ == JVal::Num(dec_token_int(self.value as int)));
        let ghost msv = ms@;
        let val = JsonValue::Obj(ms);
        proof {
            lemma_view_members(msv);
            assert(view_members(msv).len() == 2);
            assert(view_members(msv)[0] == (msv[0].0@, msv[0].1@));
            assert(view_members(msv)[1] == (msv[1].0@, msv[1].1@));
            assert(view_members(msv) =~= key_value_jval(self@)->Obj_0);
            assert(val@ == key_value_jval(self@));
        }
        Ok(val.to_text())
    }

    fn decode(t: &str) -> (r: Result<KeyValue, CodecError>) {
        let parsed = match parse_json(t) {
            Some(v) => v,
            None => {
                return Err(CodecError::DeserializationError);
            },
        };
        match parsed {
            JsonValue::Obj(ms) => {
                proof {
                    lemma_view_members(ms@);
                    assert(view_members(ms@).subrange(0, ms@.len() as int) =~= view_members(ms@));
                }
                let key_key = String::from_str("key");
                let value_key = String::from_str("value");
                let k = match obj_find(&ms, &key_key, 0) {
                    Some(j) => match &ms[j].1 {
                        JsonValue::Str(s) => s.clone(),
                        _ => {
                            return Err(CodecError::DeserializationError);
                        },
                    },
                    None => {
                        return Err(CodecError::DeserializationError);
                    },
                };
                let value = match obj_find(&ms, &value_key, 0) {
                    Some(j) => match &ms[j].1 {
                        JsonValue::Num(n) => {
                            let cs = str_to_chars(n.as_str());
                            match digits_to_i64(&cs) {
                                Some(x) => {
                                    if x < -2147483648i64 || x > 2147483647i64 {
                                        return Err(CodecError::DeserializationError);
                                    }
                                    x as i32
                                },
                                None => {
                                    return Err(CodecError::DeserializationError);
                                },
                            }
                        },
                        _ => {
                            return Err(CodecError::DeserializationError);
                        },
                    },
                    None => {
                        return Err(CodecError::DeserializationError);
                    },
                };
                Ok(KeyValue { key: k, value })
            },
            _ => Err(CodecError::DeserializationError),
        }
    }
}

} // verus!
