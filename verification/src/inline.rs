//! Inline binary data, written as base64 text by the `base64` crate.

use vstd::prelude::*;
use crate::error::{invalid, violation, Rule, ValidationError, Violation};
use crate::fields::deep;
use crate::json::{json_of, text_value, value_as_str, Json};

verus! {

#[verifier::external_type_specification]
#[verifier::external_body]
pub struct ExDecodeError(base64::DecodeError);

/// The standard base64 text of some bytes, with padding.
pub uninterp spec fn base64_text(bytes: Seq<u8>) -> Seq<char>;

/// The bytes that a standard base64 text with canonical padding stands for,
/// or `None` for any other text.
pub uninterp spec fn base64_bytes(text: Seq<char>) -> Option<Seq<u8>>;

/// `Engine::encode` of `general_purpose::STANDARD`: the base64 text of the
/// bytes, which the same engine decodes to these bytes.
#[verifier::external_body]
fn standard_encode(bytes: &[u8]) -> (r: String)
    ensures
        r@ == base64_text(bytes@),
        base64_bytes(r@) == Some(bytes@),
{
    base64::Engine::encode(&base64::engine::general_purpose::STANDARD, bytes)
}

/// `Engine::decode` of `general_purpose::STANDARD`: the bytes of a base64
/// text, or the engine's error for a text that is none.
#[verifier::external_body]
fn standard_decode(text: &str) -> (r: Result<Vec<u8>, base64::DecodeError>)
    ensures
        match r {
            Ok(bytes) => base64_bytes(text@) == Some(bytes@),
            Err(_) => base64_bytes(text@) is None,
        },
{
    base64::Engine::decode(&base64::engine::general_purpose::STANDARD, text)
}

/// Bytes that travel as base64 text.
#[derive(Debug)]
pub struct Base64(Vec<u8>);

impl View for Base64 {
    type V = Seq<u8>;

    /// The bytes.
    closed spec fn view(&self) -> Seq<u8> {
        self.0@
    }
}

impl DeepView for Base64 {
    type V = Seq<u8>;

    open spec fn deep_view(&self) -> Seq<u8> {
        self@
    }
}

/// The view of optional inline data.
pub open spec fn opt_bytes(o: Option<Base64>) -> Option<Seq<u8>> {
    match o {
        Some(b) => Some(b@),
        None => None,
    }
}

/// What a JSON value stands for as inline data at `field`: the bytes of a
/// string of base64 text.
pub open spec fn base64_of(j: Json, field: Seq<char>) -> Result<Seq<u8>, Violation> {
    match j {
        Json::Text(t) => match base64_bytes(t) {
            Some(bytes) => Ok(bytes),
            None => Err(violation(Rule::InvalidBase64, field)),
        },
        _ => Err(violation(Rule::WrongType, field)),
    }
}

/// [`base64_of`] at `field`, as a function of the value.
pub open spec fn base64_decoder(field: Seq<char>) -> spec_fn(Json) -> Result<Seq<u8>, Violation> {
    |j: Json| base64_of(j, field)
}

impl Base64 {
    /// Wraps bytes.
    pub fn new(bytes: Vec<u8>) -> (r: Base64)
        ensures
            r@ == bytes@,
    {
        Base64(bytes)
    }

    /// The bytes.
    pub fn as_bytes(&self) -> (r: &Vec<u8>)
        ensures
            r@ == self@,
    {
        &self.0
    }

    /// The bytes, by value.
    pub fn into_bytes(self) -> (r: Vec<u8>)
        ensures
            r@ == self@,
    {
        self.0
    }

    /// The base64 text of the bytes.
    pub fn encode(&self) -> (r: String)
        ensures
            r@ == base64_text(self@),
            base64_bytes(r@) == Some(self@),
    {
        standard_encode(self.0.as_slice())
    }

    /// Reads base64 text. Fails exactly on the texts that are none.
    pub fn decode(text: &str) -> (r: Result<Base64, base64::DecodeError>)
        ensures
            match r {
                Ok(b) => base64_bytes(text@) == Some(b@),
                Err(_) => base64_bytes(text@) is None,
            },
    {
        match standard_decode(text) {
            Ok(bytes) => Ok(Base64(bytes)),
            Err(e) => Err(e),
        }
    }

    /// The JSON form: a string of base64 text.
    pub fn serialize(&self) -> (r: serde_json::Value)
        ensures
            json_of(r) == Json::Text(base64_text(self@)),
    {
        text_value(self.encode())
    }

    /// Reads the JSON form at `field`: a string of base64 text.
    pub fn deserialize(v: &serde_json::Value, field: &str) -> (r: Result<Base64, ValidationError>)
        ensures
            deep(r) == base64_of(json_of(*v), field@),
    {
        match value_as_str(v) {
            Some(t) => match standard_decode(t) {
                Ok(bytes) => Ok(Base64(bytes)),
                Err(_) => Err(invalid(Rule::InvalidBase64, field)),
            },
            None => Err(invalid(Rule::WrongType, field)),
        }
    }
}

} // verus!
