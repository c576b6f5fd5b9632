use jsonrpc_codec::fault::{DecodeError, Expected, Found};
use jsonrpc_codec::msg::Id;
use serde_json::Value;

#[test]
fn test_id() {
    // Null case
    assert!(
        Id::Null.is_null() && !Id::Null.is_i64() && !Id::Null.is_str(),
        "Id::Null is not correctly recognized as null"
    );
    assert_eq!(
        Id::Null.to_text(),
        "null",
        "Id::Null stringifies incorrectly: got {:?}, expected \"null\"",
        Id::Null.to_text()
    );

    // Integer case
    let expected = i64::MAX;
    let id = Id::from(expected);
    assert!(
        id.is_i64() && !id.is_null() && !id.is_str(),
        "Id from i64 is not correctly recognized as is_i64()"
    );
    assert_eq!(
        id.as_i64(),
        Some(expected),
        "Id::as_i64() returned {:?}, expected Some({})",
        id.as_i64(),
        expected
    );
    assert_eq!(
        id.to_text(),
        expected.to_string(),
        "Id::to_string() returned {:?}, expected {:?}",
        id.to_text(),
        expected.to_string()
    );

    // String case
    let expected = "smth";
    let id = Id::from(expected.to_owned());
    assert!(
        id.is_str() && !id.is_null() && !id.is_i64(),
        "Id from String is not correctly recognized as is_str()"
    );
    assert_eq!(
        id.as_str(),
        Some(expected),
        "Id::as_str() returned {:?}, expected Some(\"{}\")",
        id.as_str(),
        expected
    );
    assert_eq!(
        id.to_text(),
        expected,
        "Id::to_string() returned {:?}, expected {:?}",
        id.to_text(),
        expected
    );
}

#[test]
fn id_test_serialization() {
    let expected_id = i64::MAX;
    let num_id = Id::I64(i64::MAX);
    let json = num_id.encode();
    assert_eq!(json, Value::from(expected_id));

    let expected_id = "foo bar";
    let str_id = Id::Str(expected_id.to_owned());
    let json = str_id.encode();
    assert_eq!(json, Value::from(expected_id));
}

#[test]
fn id_test_deserialization() {
    assert_eq!(Id::decode(&Value::Null).unwrap(), Id::Null);

    assert!(Id::decode(&Value::from(true))
        .unwrap_err()
        .message()
        .contains("invalid type: boolean `true`, expected a string or a 64-bit signed integer"));

    assert!(Id::decode(&Value::from(u64::MAX))
        .unwrap_err()
        .message()
        .contains("number too large: expected a signed 64-bit integer "));

    assert_eq!(
        Id::decode(&Value::from(i64::MAX)).unwrap(),
        Id::I64(i64::MAX)
    );
}

#[test]
fn test_serialize_id() {
    let id = Id::Null;
    let json = id.encode();
    assert_eq!(json, Value::Null);

    let raw = 0_i64;
    let id = Id::I64(raw);
    let json = id.encode();
    assert_eq!(json, Value::from(raw));

    let raw = i64::MAX;
    let id = Id::I64(raw);
    let json = id.encode();
    assert_eq!(json, Value::from(raw));

    let raw = "".to_owned();
    let id = Id::Str(raw.clone());
    let json = id.encode();
    assert_eq!(json, Value::from(raw));

    let raw = "123".to_owned();
    let id = Id::Str(raw.clone());
    let json = id.encode();
    assert_eq!(json, Value::from(raw));
}

#[test]
fn an_identifier_holds_any_signed_integer() {
    for raw in [i64::MIN, -1, 0, 1, i64::MAX] {
        let value = Id::I64(raw).encode();
        assert_eq!(value, Value::from(raw));
        assert_eq!(Id::decode(&value), Ok(Id::I64(raw)));
        assert_eq!(Id::I64(raw).to_text(), raw.to_string());
    }
}

#[test]
fn an_integer_above_the_signed_range_overflows() {
    let just_above = i64::MAX as u64 + 1;
    assert_eq!(
        Id::decode(&Value::from(just_above)),
        Err(DecodeError::IdOverflow)
    );
    assert_eq!(
        Id::decode(&Value::from(u64::MAX)),
        Err(DecodeError::IdOverflow)
    );
    let parsed: Value = serde_json::from_str("18446744073709551615").unwrap();
    assert_eq!(Id::decode(&parsed), Err(DecodeError::IdOverflow));
}

#[test]
fn a_literal_beyond_the_json_integers_is_refused() {
    let parsed: Value = serde_json::from_str("18446744073709551616").unwrap();
    let refusal = Id::decode(&parsed).unwrap_err();
    assert!(matches!(
        refusal,
        DecodeError::TypeMismatch(Found::Float(_), Expected::Id)
    ));
    assert!(refusal.message().starts_with("invalid type: floating point `"));
}

#[test]
fn other_shapes_are_no_identifiers() {
    let float = Id::decode(&Value::from(1.5)).unwrap_err();
    assert_eq!(
        float,
        DecodeError::TypeMismatch(Found::Float("1.5".to_owned()), Expected::Id)
    );
    assert_eq!(
        float.message(),
        "invalid type: floating point `1.5`, expected a string or a 64-bit signed integer, or null"
    );
    assert_eq!(
        Id::decode(&Value::from(false)),
        Err(DecodeError::TypeMismatch(Found::Bool(false), Expected::Id))
    );
    assert_eq!(
        Id::decode(&Value::Array(vec![])),
        Err(DecodeError::TypeMismatch(Found::Array, Expected::Id))
    );
    assert_eq!(
        Id::decode(&Value::Object(serde_json::Map::new())),
        Err(DecodeError::TypeMismatch(Found::Object, Expected::Id))
    );
}

#[test]
fn identifiers_come_back_from_the_wire() {
    for id in [Id::Null, Id::I64(-7), Id::Str("".to_owned()), Id::Str("a b".to_owned())] {
        assert_eq!(Id::decode(&id.encode()), Ok(id));
    }
    assert_eq!(Id::default(), Id::Null);
}
