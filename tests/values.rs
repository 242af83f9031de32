use mobiledevice::error::{mk_result, Error};
use mobiledevice::value::{decode, read_value, RawValue, Value};

#[test]
fn decode_string() {
    match decode(RawValue::Str("iPhone".to_string())) {
        Ok(Value::String(s)) => assert_eq!(s, "iPhone"),
        other => panic!("unexpected {:?}", other),
    }
}

#[test]
fn decode_bytes() {
    match decode(RawValue::Data(vec![1, 2, 3])) {
        Ok(Value::Data(d)) => assert_eq!(d, vec![1, 2, 3]),
        other => panic!("unexpected {:?}", other),
    }
}

#[test]
fn decode_integer() {
    assert!(matches!(decode(RawValue::Number(Some(-42))), Ok(Value::I64(-42))));
    assert!(matches!(decode(RawValue::Number(Some(i64::MAX))), Ok(Value::I64(i64::MAX))));
}

#[test]
fn decode_boolean() {
    assert!(matches!(decode(RawValue::Boolean(true)), Ok(Value::Boolean(true))));
    assert!(matches!(decode(RawValue::Boolean(false)), Ok(Value::Boolean(false))));
}

#[test]
fn decode_non_integer_number_fails() {
    assert!(matches!(decode(RawValue::Number(None)), Err(Error::UnknownValueType)));
}

#[test]
fn decode_unknown_type_fails() {
    assert!(matches!(decode(RawValue::Other(17)), Err(Error::UnknownValueType)));
}

#[test]
fn read_absent_value() {
    assert!(matches!(read_value(None), Ok(None)));
}

#[test]
fn read_present_value() {
    assert!(matches!(read_value(Some(RawValue::Number(Some(7)))), Ok(Some(Value::I64(7)))));
    assert!(matches!(read_value(Some(RawValue::Other(3))), Err(Error::UnknownValueType)));
}

#[test]
fn status_to_result() {
    assert_eq!(mk_result(0), Ok(()));
    assert_eq!(mk_result(-5), Err(Error::Protocol(-5)));
}
