//! The typed-content mechanism.
//!
//! A type that can stand in a textual slot of the wire format
//! implements [`TypedText`].  The plain-text type (`String`) passes
//! through unchanged; every other type is carried as the text of a
//! JSON document.  The choice is resolved at the type level: no
//! value is ever inspected for its runtime type.

use vstd::prelude::*;

use crate::json::{wf_jval, JsonValue};
use crate::json_laws::lemma_parse_doc_print;
use crate::json_parse::{jparse_doc, parse_json};
use crate::json_text::jprint;

verus! {

/// What can go wrong while moving a value through its text form.
#[derive(Debug, Clone, Copy, PartialEq, Eq, Structural)]
pub enum CodecError {
    /// A value could not be turned into its wire text.
    SerializationError,
    /// Wire text was not valid, or did not match the expected shape.
    DeserializationError,
}

/// A type that can occupy the textual content slot of the wire
/// format.
///
/// `spec_encode` and `spec_decode` fix the text form of a value;
/// `encode` and `decode` implement them exactly, and every
/// implementation proves in `lemma_round_trip` that decoding an
/// encoded value restores it.
pub trait TypedText: View + Sized {
    /// Whether this is the plain-text type, whose text form is the
    /// value itself.
    spec fn is_plain() -> bool;

    /// Runtime answer to [`TypedText::is_plain`].
    fn plain_text() -> (b: bool)
        ensures
            b == Self::is_plain(),
    ;

    /// Values the round-trip law speaks of; for every type here this
    /// is every value or every value with grammatical number tokens.
    spec fn wf(v: Self::V) -> bool;

    /// The text form of a value, when it has one.
    spec fn spec_encode(v: Self::V) -> Option<Seq<char>>;

    /// The value a text decodes to, when any.
    spec fn spec_decode(t: Seq<char>) -> Option<Self::V>;

    /// Decoding inverts encoding.
    proof fn lemma_round_trip(v: Self::V)
        requires
            Self::wf(v),
        ensures
            (match Self::spec_encode(v) {
                Some(t) => Self::spec_decode(t) == Some(v),
                None => true,
            }),
    ;

    /// Produces the text form of this value.
    fn encode(&self) -> (r: Result<String, CodecError>)
        ensures
            (match r {
                Ok(s) => Self::spec_encode(self@) == Some(s@),
                Err(e) => Self::spec_encode(self@) is None && e
                    == CodecError::SerializationError,
            }),
    ;

    /// Reads a value back from its text form.
    fn decode(t: &str) -> (r: Result<Self, CodecError>)
        ensures
            (match r {
                Ok(v) => Self::spec_decode(t@) == Some(v@) && Self::wf(v@),
                Err(e) => Self::spec_decode(t@) is None && e
                    == CodecError::DeserializationError,
            }),
    ;
}

/// The round-trip law, for any typed content: decoding an encoded
/// value yields the value back.
pub proof fn lemma_decode_inverts_encode<T: TypedText>(v: T::V)
    requires
        T::wf(v),
    ensures
        (match T::spec_encode(v) {
            Some(t) => T::spec_decode(t) == Some(v),
            None => true,
        }),
{
    T::lemma_round_trip(v);
}

impl TypedText for String {
    /// `String` is the plain-text type.
    open spec fn is_plain() -> bool {
        true
    }

    fn plain_text() -> (b: bool) {
        true
    }

    open spec fn wf(v: Seq<char>) -> bool {
        true
    }

    /// The text of a plain string is the string itself: no quoting
    /// layer is added.
    open spec fn spec_encode(v: Seq<char>) -> Option<Seq<char>> {
        Some(v)
    }

    /// A text decodes to itself.
    open spec fn spec_decode(t: Seq<char>) -> Option<Seq<char>> {
        Some(t)
    }

    proof fn lemma_round_trip(v: Seq<char>) {
    }

    fn encode(&self) -> (r: Result<String, CodecError>) {
        Ok(self.clone())
    }

    fn decode(t: &str) -> (r: Result<String, CodecError>) {
        Ok(t.to_owned())
    }
}

impl TypedText for JsonValue {
    /// A JSON document is structured content.
    open spec fn is_plain() -> bool {
        false
    }

    fn plain_text() -> (b: bool) {
        false
    }

    open spec fn wf(v: crate::json::JVal) -> bool {
        wf_jval(v)
    }

    /// The text of a document is its printed form.
    open spec fn spec_encode(v: crate::json::JVal) -> Option<Seq<char>> {
        Some(jprint(v))
    }

    /// A text decodes to the document it parses as.
    open spec fn spec_decode(t: Seq<char>) -> Option<crate::json::JVal> {
        jparse_doc(t)
    }

    proof fn lemma_round_trip(v: crate::json::JVal) {
        lemma_parse_doc_print(v);
    }

    fn encode(&self) -> (r: Result<String, CodecError>) {
        Ok(self.to_text())
    }

    fn decode(t: &str) -> (r: Result<JsonValue, CodecError>) {
        match parse_json(t) {
            Some(v) => {
                v.check_wf();
                Ok(v)
            },
            None => Err(CodecError::DeserializationError),
        }
    }
}

/// The plain-text special case, stated on its own: encoding adds no
/// quoting layer, and decoding returns the text unchanged.
pub proof fn lemma_plain_text_passthrough(v: Seq<char>)
    ensures
        <String as TypedText>::spec_encode(v) == Some(v),
        <String as TypedText>::spec_decode(v) == Some(v),
{
}

} // verus!
