//! The observable layout of the compact encoding: a record with `n`
//! fields is encoded as a fixed-length ordered tuple of exactly `n`
//! elements, element `i` being the encoding of field `i`'s value, with no
//! field names anywhere in the encoding. Decoding expects a tuple of
//! exactly the record's field count and rejects anything else; the
//! reattachment of names to positions cannot fail.

use vstd::prelude::*;

verus! {

/// An encoded value, held as plain data. Nested records, sequences,
/// optionals and pairs nest as values; a floating-point value is carried
/// opaquely as its bit pattern.
#[derive(Debug, PartialEq, Eq)]
pub enum Value {
    Unit,
    Bool(bool),
    UInt(u64),
    Int(i64),
    FloatBits(u64),
    Text(String),
    List(Vec<Value>),
    Tuple(Vec<Value>),
    Absent,
    Present(Box<Value>),
}

/// Why a compact record failed to decode.
#[derive(Debug, Clone, Copy, PartialEq, Eq, Structural)]
pub enum DecodeError {
    /// The input is not a fixed-length tuple at all.
    NotATuple,
    /// The tuple's length differs from the record's field count.
    WrongLength { expected: usize, found: usize },
}

/// The compact encoding of a record whose field values, in declaration
/// order, are `values`: a fixed-length tuple of exactly those elements.
pub open spec fn encode_spec(values: Vec<Value>) -> Value {
    Value::Tuple(values)
}

/// The result of decoding `v` as a record of `expected` fields: the field
/// values in order when `v` is a tuple of exactly that length, and the
/// matching error otherwise. Nothing is truncated or default-filled.
pub open spec fn decode_spec(expected: usize, v: Value) -> Result<Vec<Value>, DecodeError> {
    match v {
        Value::Tuple(es) => {
            if es@.len() == expected as nat {
                Ok(es)
            } else {
                Err(DecodeError::WrongLength { expected, found: es@.len() as usize })
            }
        },
        _ => Err(DecodeError::NotATuple),
    }
}

/// Encodes a record's field values, in declaration order, as a
/// fixed-length tuple of exactly those elements.
pub fn encode_record(values: Vec<Value>) -> (r: Value)
    ensures
        r == encode_spec(values),
{
    Value::Tuple(values)
}

/// Decodes a record of `expected` fields from `v`: succeeds exactly on a
/// tuple of that length, returning its elements in order.
pub fn decode_record(expected: usize, v: Value) -> (r: Result<Vec<Value>, DecodeError>)
    ensures
        r == decode_spec(expected, v),
{
    match v {
        Value::Tuple(es) => {
            let found = es.len();
            if found == expected {
                Ok(es)
            } else {
                Err(DecodeError::WrongLength { expected, found })
            }
        },
        _ => Err(DecodeError::NotATuple),
    }
}

/// The encoded form of a record is always a tuple holding exactly the
/// field values, in declaration order: as many elements as fields, and
/// nothing else.
pub proof fn lemma_compact_layout(values: Vec<Value>)
    ensures
        encode_spec(values) is Tuple,
        encode_spec(values)->Tuple_0 == values,
        encode_spec(values)->Tuple_0@.len() == values@.len(),
{
}

/// The round-trip law: decoding the encoding of a record's field values,
/// at the record's own field count, yields exactly those values again.
pub proof fn lemma_round_trip(values: Vec<Value>, expected: usize)
    requires
        values@.len() == expected as nat,
    ensures
        decode_spec(expected, encode_spec(values)) == Ok::<Vec<Value>, DecodeError>(values),
{
}

/// A tuple of the wrong length never decodes: the mismatch is reported,
/// never silently truncated or default-filled.
pub proof fn lemma_wrong_length_rejected(values: Vec<Value>, expected: usize)
    requires
        values@.len() != expected as nat,
    ensures
        decode_spec(expected, encode_spec(values)) == Err::<Vec<Value>, DecodeError>(
            DecodeError::WrongLength { expected, found: values@.len() as usize },
        ),
{
}

/// Anything that is not a fixed-length tuple never decodes as a record.
pub proof fn lemma_not_tuple_rejected(expected: usize, v: Value)
    requires
        !(v is Tuple),
    ensures
        decode_spec(expected, v) == Err::<Vec<Value>, DecodeError>(DecodeError::NotATuple),
{
}

} // verus!
