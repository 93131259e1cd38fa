//! Plain stand-ins for the JSON values that the EMSYS API sends back.
use vstd::prelude::*;

verus! {

/// A floating-point number that the library carries through unchanged, held as
/// the bits of its IEEE 754 encoding (`f64::to_bits`). No logic of the library
/// reads or computes with it.
#[derive(Debug, Clone, Copy, PartialEq, Eq, Default)]
pub struct F64Bits {
    pub bits: u64,
}

/// A JSON value whose shape the library does not fix. Numbers, arrays and
/// objects are held as their compact JSON text; a string is held both as its
/// value and as its JSON text (with quotes and escapes).
#[derive(Debug, PartialEq, Eq)]
pub enum JsonValue {
    Null,
    Bool(bool),
    Number(String),
    Text { value: String, json: String },
    Array(String),
    Object(String),
}

impl JsonValue {
    /// The JSON text of the value.
    pub open spec fn json_text(self) -> Seq<char> {
        match self {
            JsonValue::Null => "null"@,
            JsonValue::Bool(b) => if b {
                "true"@
            } else {
                "false"@
            },
            JsonValue::Number(t) => t@,
            JsonValue::Text { value, json } => json@,
            JsonValue::Array(t) => t@,
            JsonValue::Object(t) => t@,
        }
    }

    /// Writes the value as JSON text, as `Display` does for a JSON value.
    pub fn display_text(&self) -> (r: String)
        ensures
            r@ == self.json_text(),
    {
        match self {
            JsonValue::Null => String::from_str("null"),
            JsonValue::Bool(b) => if *b {
                String::from_str("true")
            } else {
                String::from_str("false")
            },
            JsonValue::Number(t) => t.clone(),
            JsonValue::Text { value, json } => json.clone(),
            JsonValue::Array(t) => t.clone(),
            JsonValue::Object(t) => t.clone(),
        }
    }
}

} // verus!
