//! Bound query parameters and the rule that classifies caller-supplied
//! strings and encoded values.

use vstd::prelude::*;
use vstd::utf8::encode_utf8;

verus! {

#[verifier::external_type_specification]
#[verifier::external_body]
pub struct ExJsonValue(serde_json::Value);

/// Whether `serde_json::from_slice` accepts the bytes as one JSON document.
/// It depends on the bytes alone.
pub uninterp spec fn json_accepts(b: Seq<u8>) -> bool;

/// Relies on `serde_json::from_slice::<serde_json::Value>`: it succeeds
/// exactly on the byte strings that hold one JSON document.
#[verifier::external_body]
fn parse_json(b: &[u8]) -> (r: Option<serde_json::Value>)
    ensures
        r.is_some() == json_accepts(b@),
{
    serde_json::from_slice::<serde_json::Value>(b).ok()
}

/// The byte that opens a JSON object.
pub const OBJECT_OPEN: u8 = 0x7b;

/// The byte that opens a JSON array.
pub const ARRAY_OPEN: u8 = 0x5b;

/// A value opens a structure when its first byte is `{` or `[`.
pub open spec fn opens_structure(b: Seq<u8>) -> bool {
    b.len() > 0 && (b[0] == OBJECT_OPEN || b[0] == ARRAY_OPEN)
}

/// Whether a string or an encoded value is taken as structured data.
pub open spec fn is_structured(b: Seq<u8>) -> bool {
    opens_structure(b) && json_accepts(b)
}

/// A query parameter, owned by the query it is bound to.
#[derive(Debug)]
pub enum BindValue {
    Bool(bool),
    Int(i64),
    /// A 64-bit float, held as its IEEE-754 binary64 bit pattern.
    Float(u64),
    Text(String),
    StructuredJson(serde_json::Value),
    Bytes(Vec<u8>),
}

/// The variant of a `BindValue`, without its payload.
#[derive(Debug, Clone, Copy, PartialEq, Eq, Structural)]
pub enum BindKind {
    Bool,
    Int,
    Float,
    Text,
    StructuredJson,
    Bytes,
}

impl BindValue {
    pub open spec fn kind_spec(&self) -> BindKind {
        match self {
            BindValue::Bool(_) => BindKind::Bool,
            BindValue::Int(_) => BindKind::Int,
            BindValue::Float(_) => BindKind::Float,
            BindValue::Text(_) => BindKind::Text,
            BindValue::StructuredJson(_) => BindKind::StructuredJson,
            BindValue::Bytes(_) => BindKind::Bytes,
        }
    }

    /// The variant of this value.
    pub fn kind(&self) -> (r: BindKind)
        ensures
            r == self.kind_spec(),
    {
        match self {
            BindValue::Bool(_) => BindKind::Bool,
            BindValue::Int(_) => BindKind::Int,
            BindValue::Float(_) => BindKind::Float,
            BindValue::Text(_) => BindKind::Text,
            BindValue::StructuredJson(_) => BindKind::StructuredJson,
            BindValue::Bytes(_) => BindKind::Bytes,
        }
    }
}

/// Whether the first byte of `b` is `{` or `[`.
pub fn starts_structure(b: &[u8]) -> (r: bool)
    ensures
        r == opens_structure(b@),
{
    b.len() > 0 && (b[0] == OBJECT_OPEN || b[0] == ARRAY_OPEN)
}

/// Classifies a caller-supplied string, given what the JSON parser made of
/// its bytes: structured data when it opens a structure and parsed, else the
/// string itself as text.
pub fn classify_text_parsed(text: String, parsed: Option<serde_json::Value>) -> (r: BindValue)
    ensures
        opens_structure(encode_utf8(text@)) && parsed.is_some() ==> r == BindValue::StructuredJson(parsed.unwrap()),
        !(opens_structure(encode_utf8(text@)) && parsed.is_some()) ==> r == BindValue::Text(text),
{
    if starts_structure(text.as_str().as_bytes()) {
        match parsed {
            Some(v) => BindValue::StructuredJson(v),
            None => BindValue::Text(text),
        }
    } else {
        BindValue::Text(text)
    }
}

/// Classifies a caller-supplied string: structured data when it opens a
/// structure and parses as JSON, else the string itself as text.
pub fn classify_text(text: String) -> (r: BindValue)
    ensures
        r.kind_spec() == (if is_structured(encode_utf8(text@)) {
            BindKind::StructuredJson
        } else {
            BindKind::Text
        }),
        !is_structured(encode_utf8(text@)) ==> r == BindValue::Text(text),
{
    if starts_structure(text.as_str().as_bytes()) {
        let parsed = parse_json(text.as_str().as_bytes());
        classify_text_parsed(text, parsed)
    } else {
        BindValue::Text(text)
    }
}

/// Classifies an encoded structured value, given what the JSON parser made
/// of it: structured data when it opens a structure and parsed, else the
/// bytes themselves.
pub fn classify_encoded_parsed(bytes: Vec<u8>, parsed: Option<serde_json::Value>) -> (r: BindValue)
    ensures
        opens_structure(bytes@) && parsed.is_some() ==> r == BindValue::StructuredJson(parsed.unwrap()),
        !(opens_structure(bytes@) && parsed.is_some()) ==> r == BindValue::Bytes(bytes),
{
    if starts_structure(bytes.as_slice()) {
        match parsed {
            Some(v) => BindValue::StructuredJson(v),
            None => BindValue::Bytes(bytes),
        }
    } else {
        BindValue::Bytes(bytes)
    }
}

/// Classifies an encoded structured value: structured data when it opens a
/// structure and parses as JSON, else the bytes themselves.
pub fn classify_encoded(bytes: Vec<u8>) -> (r: BindValue)
    ensures
        r.kind_spec() == (if is_structured(bytes@) {
            BindKind::StructuredJson
        } else {
            BindKind::Bytes
        }),
        !is_structured(bytes@) ==> r == BindValue::Bytes(bytes),
{
    if starts_structure(bytes.as_slice()) {
        let parsed = parse_json(bytes.as_slice());
        classify_encoded_parsed(bytes, parsed)
    } else {
        BindValue::Bytes(bytes)
    }
}

/// A statement with its bound parameters, in order.
#[derive(Debug)]
pub struct Query {
    pub sql: String,
    pub binds: Vec<BindValue>,
}

impl Query {
    /// A query of `sql` with `binds` bound in order.
    pub fn new(sql: String, binds: Vec<BindValue>) -> (r: Query)
        ensures
            r.sql == sql,
            r.binds == binds,
    {
        Query { sql, binds }
    }
}

} // verus!
