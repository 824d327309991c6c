//! A structured JSON value: the shape in which envelopes, parameters and
//! event payloads travel through the library. Callers outside the library
//! turn wire bytes into this tree and back; every rule about what a tree
//! must look like is stated and checked here.

use vstd::prelude::*;

verus! {

/// One `key: value` member of a JSON object.
#[derive(Debug)]
pub struct JsonField {
    pub key: String,
    pub value: JsonValue,
}

/// A JSON value. Numbers are integers only: the envelopes this library
/// builds and reads carry correlation ids (unsigned) and error codes
/// (signed), never fractional numbers.
#[derive(Debug)]
pub enum JsonValue {
    Null,
    Bool(bool),
    UInt(u64),
    Int(i64),
    Str(String),
    Array(Vec<JsonValue>),
    Object(Vec<JsonField>),
}

impl JsonValue {
    /// The members of an object value; meaningful only when `self is Object`.
    pub open spec fn obj(self) -> Seq<JsonField>
        recommends
            self is Object,
    {
        self->Object_0@
    }
}

} // verus!
