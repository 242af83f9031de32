use vstd::prelude::*;
use crate::error::Error;

verus! {

/// A native property value as the native layer hands it over: its concrete
/// type, and the payload read for that type.
pub enum RawValue {
    /// A native string.
    Str(String),
    /// A native byte buffer.
    Data(Vec<u8>),
    /// A native number: `Some` when it is representable as a 64-bit integer.
    Number(Option<i64>),
    /// A native boolean: `true` when it is the true sentinel.
    Boolean(bool),
    /// A value of any other native type, identified by its type id.
    Other(u64),
}

/// The decoded, typed form of a device property.
#[derive(Debug)]
pub enum Value {
    String(String),
    Data(Vec<u8>),
    I64(i64),
    Boolean(bool),
}

/// Whether a raw value has a decoding.
pub open spec fn recognized(raw: RawValue) -> bool {
    match raw {
        RawValue::Str(_) => true,
        RawValue::Data(_) => true,
        RawValue::Number(n) => n is Some,
        RawValue::Boolean(_) => true,
        RawValue::Other(_) => false,
    }
}

/// What decoding a raw value yields: the variant of the same shape, carrying
/// the same payload.
pub open spec fn decoded(raw: RawValue, r: Result<Value, Error>) -> bool {
    match raw {
        RawValue::Str(s) => r matches Ok(Value::String(t)) && t@ == s@,
        RawValue::Data(d) => r matches Ok(Value::Data(e)) && e@ == d@,
        RawValue::Number(Some(i)) => r == Ok::<Value, Error>(Value::I64(i)),
        RawValue::Number(None) => r == Err::<Value, Error>(Error::UnknownValueType),
        RawValue::Boolean(b) => r == Ok::<Value, Error>(Value::Boolean(b)),
        RawValue::Other(_) => r == Err::<Value, Error>(Error::UnknownValueType),
    }
}

/// Decodes a raw native value into the matching typed variant; a value of
/// another type, or a number that is no 64-bit integer, is an error.
pub fn decode(raw: RawValue) -> (r: Result<Value, Error>)
    ensures
        decoded(raw, r),
{
    match raw {
        RawValue::Str(s) => Ok(Value::String(s)),
        RawValue::Data(d) => Ok(Value::Data(d)),
        RawValue::Number(Some(i)) => Ok(Value::I64(i)),
        RawValue::Number(None) => Err(Error::UnknownValueType),
        RawValue::Boolean(b) => Ok(Value::Boolean(b)),
        RawValue::Other(_) => Err(Error::UnknownValueType),
    }
}

/// Decoding never invents a value: it succeeds exactly on the recognized
/// shapes, with the variant of that shape, and fails with `UnknownValueType`
/// on every other shape.
pub proof fn lemma_decode_total(raw: RawValue, r: Result<Value, Error>)
    requires
        decoded(raw, r),
    ensures
        r is Ok <==> recognized(raw),
        !recognized(raw) ==> r == Err::<Value, Error>(Error::UnknownValueType),
        raw is Str ==> r matches Ok(Value::String(_)),
        raw is Data ==> r matches Ok(Value::Data(_)),
        raw matches RawValue::Number(Some(_)) ==> r matches Ok(Value::I64(_)),
        raw is Boolean ==> r matches Ok(Value::Boolean(_)),
{
}

/// Reads the answer to a property query: an absent property is `None`,
/// a present one is decoded.
pub fn read_value(raw: Option<RawValue>) -> (r: Result<Option<Value>, Error>)
    ensures
        raw is None ==> r == Ok::<Option<Value>, Error>(None),
        raw matches Some(v) ==> match r {
            Ok(Some(x)) => decoded(v, Ok(x)),
            Ok(None) => false,
            Err(e) => decoded(v, Err(e)),
        },
{
    match raw {
        None => Ok(None),
        Some(v) => match decode(v) {
            Ok(x) => Ok(Some(x)),
            Err(e) => Err(e),
        },
    }
}

} // verus!
