use jsonrpc_codec::de::{decode_text, read_fields, validate_jsonrpc_version};
use jsonrpc_codec::err::{Error, ErrorCode, ErrorData};
use jsonrpc_codec::fault::{DecodeError, Expected, Found};
use jsonrpc_codec::msg::{Id, Notification, Parameters, Request, Response};
use jsonrpc_codec::schema::{Field, Schema};
use serde_json::Value;

const CODE_INVALID_REQUEST: i64 = -32600;
const MSG_INVALID_REQUEST: &str = "Invalid Request";

fn object(entries: Vec<(&str, Value)>) -> Value {
    let mut map = serde_json::Map::new();
    for (key, value) in entries {
        map.insert(key.to_owned(), value);
    }
    Value::Object(map)
}

fn parse(text: &str) -> Value {
    serde_json::from_str(text).unwrap()
}

fn assert_error_ok(json: Value, code: i64, message: &str, data: Option<Value>) {
    let error = Error::decode(&json).unwrap();

    assert_eq!(error.code.as_i64(), code);
    assert_eq!(error.message(), message);
    assert_eq!(error.data().map(|data| data.value.clone()), data);
}

fn assert_error_refused(json: Value, msg: &str) {
    let result = Error::decode(&json);

    assert!(result.unwrap_err().message().contains(msg))
}

#[test]
fn test_error_deserialization() {
    let reason = "invalid foo bar";

    assert_error_ok(
        object(vec![
            ("code", Value::from(CODE_INVALID_REQUEST)),
            ("message", Value::from(MSG_INVALID_REQUEST)),
        ]),
        CODE_INVALID_REQUEST,
        MSG_INVALID_REQUEST,
        None,
    );

    assert_error_ok(
        object(vec![
            ("code", Value::from(CODE_INVALID_REQUEST)),
            ("message", Value::from(MSG_INVALID_REQUEST)),
            ("data", Value::Null),
        ]),
        CODE_INVALID_REQUEST,
        MSG_INVALID_REQUEST,
        Some(Value::Null),
    );

    assert_error_ok(
        object(vec![
            ("code", Value::from(CODE_INVALID_REQUEST)),
            ("message", Value::from(MSG_INVALID_REQUEST)),
            ("data", Value::from(reason)),
        ]),
        CODE_INVALID_REQUEST,
        MSG_INVALID_REQUEST,
        Some(Value::from(reason)),
    );

    assert_error_refused(Value::Array(vec![]), "invalid type");

    assert_error_refused(object(vec![]), "missing field `code`");

    assert_error_refused(
        object(vec![("code", Value::Null)]),
        "field `code` contains an invalid type: null",
    );

    assert_error_refused(
        object(vec![("code", Value::from(true))]),
        "field `code` contains an invalid type: boolean",
    );

    assert_error_refused(
        object(vec![("code", Value::from(std::f64::consts::PI))]),
        "field `code` contains an invalid type: floating point",
    );

    assert_error_refused(
        object(vec![("code", Value::from(0))]),
        "field `code` contains an invalid error code",
    );

    assert_error_refused(
        object(vec![("code", Value::from(CODE_INVALID_REQUEST))]),
        "missing field `message`",
    );

    assert_error_refused(
        object(vec![
            ("code", Value::from(CODE_INVALID_REQUEST)),
            ("message", Value::Null),
        ]),
        "field `message` contains an invalid type: null",
    );

    assert_error_refused(
        object(vec![
            ("code", Value::from(CODE_INVALID_REQUEST)),
            ("message", Value::from(true)),
        ]),
        "field `message` contains an invalid type: boolean",
    );

    assert_error_ok(
        object(vec![
            ("code", Value::from(CODE_INVALID_REQUEST)),
            ("message", Value::from(MSG_INVALID_REQUEST)),
            ("data", Value::from(true)),
        ]),
        CODE_INVALID_REQUEST,
        MSG_INVALID_REQUEST,
        Some(Value::from(true)),
    );

    assert_error_refused(
        object(vec![("unknown", Value::Null)]),
        "unknown field `unknown`, expected one of `code`, `message`, `data`",
    );
}

#[test]
fn response_test_deserialization() {
    let version = || ("jsonrpc", Value::from("2.0"));

    let json = Value::Array(vec![]);
    let response = Response::decode(&json);
    assert!(response.unwrap_err().message().contains("invalid type"));

    let json = object(vec![version()]);
    let response = Response::decode(&json);
    assert!(response
        .unwrap_err()
        .message()
        .contains("response must contain either `result` or `error`"));

    let error = Error::new_default(ErrorCode::InternalError);
    let json = object(vec![
        version(),
        ("result", Value::Null),
        ("error", error.encode()),
    ]);
    let response = Response::decode(&json);
    assert!(response
        .unwrap_err()
        .message()
        .contains("`result` and `error` cannot both be present in the same response"));

    let json = object(vec![version(), ("result", Value::Null)]);
    let response = Response::decode(&json);
    assert!(response
        .unwrap_err()
        .message()
        .contains("`id` is required in a successful response with `result`"));

    let json = object(vec![version(), ("id", Value::Null), ("result", Value::Null)]);
    let response = Response::decode(&json);
    assert!(response
        .unwrap_err()
        .message()
        .contains("`id` is required in a successful response with `result`"));

    let json = object(vec![version(), ("id", Value::Null), ("error", Value::Null)]);
    let response = Response::decode(&json);
    assert!(response
        .unwrap_err()
        .message()
        .contains("field `error` contains an invalid type: null"));
}

#[test]
fn each_error_has_its_input() {
    let missing = Request::decode(&parse(r#"{"jsonrpc":"2.0","id":1}"#));
    assert_eq!(missing, Err(DecodeError::MissingField(Field::Method)));
    let missing = Request::decode(&parse(r#"{"jsonrpc":"2.0","method":"m"}"#));
    assert_eq!(missing, Err(DecodeError::MissingField(Field::Id)));

    let unknown = Request::decode(&parse(r#"{"jsonrpc":"2.0","id":1,"result":1}"#));
    assert_eq!(
        unknown,
        Err(DecodeError::UnknownField("result".to_owned(), Schema::Request))
    );

    let mismatch = Notification::decode(&parse(r#"{"jsonrpc":"2.0","method":5}"#));
    assert_eq!(
        mismatch,
        Err(DecodeError::InField(
            Field::Method,
            Box::new(DecodeError::TypeMismatch(Found::Integer(5), Expected::Text))
        ))
    );
    assert_eq!(
        mismatch.unwrap_err().message(),
        "field `method` contains an invalid type: integer `5`, expected a string"
    );

    let version = Notification::decode(&parse(r#"{"jsonrpc":"1.0","method":"m"}"#));
    assert_eq!(
        version,
        Err(DecodeError::VersionMismatch(Some("1.0".to_owned())))
    );
    assert_eq!(
        version.unwrap_err().message(),
        "invalid value for field `jsonrpc`: expected version \"2.0\", got \"1.0\""
    );
    let absent = Notification::decode(&parse(r#"{"method":"m"}"#));
    assert_eq!(absent, Err(DecodeError::VersionMismatch(None)));
    assert_eq!(
        absent.unwrap_err().message(),
        "missing field `jsonrpc`: expected version \"2.0\""
    );

    let code = Error::decode(&parse(r#"{"code":1,"message":"m"}"#));
    assert_eq!(
        code,
        Err(DecodeError::InField(
            Field::Code,
            Box::new(DecodeError::InvalidErrorCode)
        ))
    );
    let too_large = Error::decode(&parse(r#"{"code":18446744073709551615,"message":"m"}"#));
    assert_eq!(
        too_large,
        Err(DecodeError::InField(
            Field::Code,
            Box::new(DecodeError::InvalidErrorCode)
        ))
    );

    let overflow = Request::decode(&parse(
        r#"{"jsonrpc":"2.0","id":9223372036854775808,"method":"m"}"#,
    ));
    assert_eq!(
        overflow,
        Err(DecodeError::InField(
            Field::Id,
            Box::new(DecodeError::IdOverflow)
        ))
    );

    let both = Response::decode(&parse(
        r#"{"jsonrpc":"2.0","id":1,"result":1,"error":{"code":-32700,"message":"m"}}"#,
    ));
    assert_eq!(both, Err(DecodeError::AmbiguousPayload));
    let neither = Response::decode(&parse(r#"{"jsonrpc":"2.0","id":1}"#));
    assert_eq!(neither, Err(DecodeError::MissingPayload));
    let unanswerable = Response::decode(&parse(r#"{"jsonrpc":"2.0","result":1}"#));
    assert_eq!(unanswerable, Err(DecodeError::MissingId));

    let nested = Response::decode(&parse(
        r#"{"jsonrpc":"2.0","id":1,"error":{"code":-32700}}"#,
    ));
    assert_eq!(
        nested,
        Err(DecodeError::InField(
            Field::Error,
            Box::new(DecodeError::MissingField(Field::Message))
        ))
    );
    assert_eq!(
        nested.unwrap_err().message(),
        "field `error` contains an missing field `message`"
    );

    let shape = Request::decode(&Value::from("text"));
    assert_eq!(
        shape,
        Err(DecodeError::TypeMismatch(
            Found::Text("text".to_owned()),
            Expected::Object(Schema::Request)
        ))
    );
    assert_eq!(
        shape.unwrap_err().message(),
        "invalid type: string \"text\", expected `DSL: {jsonrpc: \"2.0\", id: null|string|i64, method: string, params?: []|{}}`"
    );
}

#[test]
fn a_field_that_comes_twice_is_a_duplicate() {
    let version = Value::from("2.0");
    let method = Value::from("m");
    let jsonrpc = "jsonrpc".to_owned();
    let name = "method".to_owned();
    let entries = vec![(&jsonrpc, &version), (&name, &method), (&name, &method)];
    assert_eq!(
        Notification::decode_entries(&entries),
        Err(DecodeError::DuplicateField(Field::Method))
    );
    assert_eq!(
        DecodeError::DuplicateField(Field::Method).message(),
        "duplicate field `method`"
    );

    let once = vec![(&jsonrpc, &version), (&name, &method)];
    assert_eq!(
        Notification::decode_entries(&once),
        Ok(Notification::new("m".to_owned(), None))
    );
}

#[test]
fn the_first_refused_entry_decides() {
    let early = Request::decode(&parse(r#"{"jsonrpc":2,"bogus":1}"#));
    assert_eq!(
        early,
        Err(DecodeError::InField(
            Field::Jsonrpc,
            Box::new(DecodeError::TypeMismatch(Found::Integer(2), Expected::Text))
        ))
    );
    let late = Request::decode(&parse(r#"{"bogus":1,"jsonrpc":2}"#));
    assert_eq!(
        late,
        Err(DecodeError::UnknownField("bogus".to_owned(), Schema::Request))
    );
    let before_validation = Request::decode(&parse(r#"{"jsonrpc":"1.0","bogus":1}"#));
    assert_eq!(
        before_validation,
        Err(DecodeError::UnknownField("bogus".to_owned(), Schema::Request))
    );
}

#[test]
fn null_parameters_stand_for_none() {
    let request = Request::decode(&parse(
        r#"{"jsonrpc":"2.0","id":"a","method":"m","params":null}"#,
    ));
    assert_eq!(
        request,
        Ok(Request::new(Id::Str("a".to_owned()), "m".to_owned(), None))
    );
    assert_eq!(Parameters::decode(&Value::Null), Ok(None));
    assert_eq!(
        Parameters::decode(&parse("[1]")),
        Ok(Some(Parameters::Array(vec![Value::from(1)])))
    );
    assert_eq!(
        Parameters::decode(&Value::from(1)),
        Err(DecodeError::TypeMismatch(
            Found::Integer(1),
            Expected::Parameters
        ))
    );
    assert_eq!(
        Parameters::decode(&Value::from(1)).unwrap_err().message(),
        "invalid type: integer `1`, expected `DSL: []|{}`"
    );
}

#[test]
fn a_request_may_carry_the_null_identifier() {
    let request = Request::decode(&parse(r#"{"jsonrpc":"2.0","id":null,"method":"m"}"#));
    assert_eq!(request, Ok(Request::new(Id::Null, "m".to_owned(), None)));
}

#[test]
fn an_error_response_needs_no_identifier() {
    let error = Error::new_default(ErrorCode::ParseError);
    let absent = Response::decode(&parse(
        r#"{"jsonrpc":"2.0","error":{"code":-32700,"message":"Parse error"}}"#,
    ));
    assert_eq!(absent, Ok(Response::new_error(Id::Null, error.clone())));
    let null = Response::decode(&parse(
        r#"{"jsonrpc":"2.0","id":null,"error":{"code":-32700,"message":"Parse error"}}"#,
    ));
    assert_eq!(null, Ok(Response::new_error(Id::Null, error)));
}

#[test]
fn the_walk_and_its_parts() {
    assert_eq!(decode_text(&Value::from("a")), Ok("a".to_owned()));
    assert_eq!(
        decode_text(&Value::Null),
        Err(DecodeError::TypeMismatch(Found::Null, Expected::Text))
    );
    assert_eq!(validate_jsonrpc_version(&Some("2.0".to_owned())), Ok(()));
    assert_eq!(
        validate_jsonrpc_version(&Some("2".to_owned())),
        Err(DecodeError::VersionMismatch(Some("2".to_owned())))
    );
    assert_eq!(
        validate_jsonrpc_version(&None),
        Err(DecodeError::VersionMismatch(None))
    );

    let code = Value::from(-32000);
    let data = Value::from(vec![1]);
    let code_name = "code".to_owned();
    let data_name = "data".to_owned();
    let entries = vec![(&data_name, &data), (&code_name, &code)];
    let fields = read_fields(Schema::Error, &entries).unwrap();
    assert_eq!(fields.code, Some(ErrorCode::ServerError(-32000)));
    assert_eq!(fields.data, Some(data.clone()));
    assert_eq!(fields.message, None);
    assert!(fields.has(Field::Code) && !fields.has(Field::Message));
    assert_eq!(
        ErrorCode::decode(&code),
        Ok(ErrorCode::ServerError(-32000))
    );
    assert_eq!(
        Error::decode_entries(&entries),
        Err(DecodeError::MissingField(Field::Message))
    );
    assert_eq!(
        ErrorData::new(data.clone()).value,
        fields.data.unwrap()
    );
}

#[test]
fn what_was_found_and_what_was_wanted_in_words() {
    let wanted_text = |found: Found| DecodeError::TypeMismatch(found, Expected::Text).message();
    assert_eq!(
        wanted_text(Found::Null),
        "invalid type: null, expected a string"
    );
    assert_eq!(
        wanted_text(Found::Bool(true)),
        "invalid type: boolean `true`, expected a string"
    );
    assert_eq!(
        wanted_text(Found::Bool(false)),
        "invalid type: boolean `false`, expected a string"
    );
    assert_eq!(
        wanted_text(Found::Integer(-12)),
        "invalid type: integer `-12`, expected a string"
    );
    assert_eq!(
        wanted_text(Found::Float("2.5".to_owned())),
        "invalid type: floating point `2.5`, expected a string"
    );
    assert_eq!(
        wanted_text(Found::Array),
        "invalid type: sequence, expected a string"
    );
    assert_eq!(
        wanted_text(Found::Object),
        "invalid type: map, expected a string"
    );

    let found_text = |expected: Expected| {
        DecodeError::TypeMismatch(Found::Text("x".to_owned()), expected).message()
    };
    assert_eq!(
        found_text(Expected::Integer),
        "invalid type: string \"x\", expected i64"
    );
    assert_eq!(
        found_text(Expected::Id),
        "invalid type: string \"x\", expected a string or a 64-bit signed integer, or null"
    );
    assert_eq!(
        found_text(Expected::Batch),
        "invalid type: string \"x\", expected an array of requests or an array of responses"
    );
    assert_eq!(
        found_text(Expected::Object(Schema::Error)),
        "invalid type: string \"x\", expected `DSL: {code: i64, message: string, data?: any}`"
    );
    assert_eq!(
        found_text(Expected::Object(Schema::Notification)),
        "invalid type: string \"x\", expected `DSL: {jsonrpc: \"2.0\", method: string, params?: []|{}}`"
    );
    assert_eq!(
        found_text(Expected::Object(Schema::Response)),
        "invalid type: string \"x\", expected `DSL: {jsonrpc: \"2.0\", id: null|string|i64, result: any }|{jsonrpc: \"2.0\", id: null|string|i64, error: {code: i64, message: string, data?: any}}`"
    );

    assert_eq!(
        Found::describe(&Value::from(u64::MAX)),
        Found::Integer(u64::MAX as i128)
    );
    assert_eq!(
        Found::describe(&Value::from(i64::MIN)),
        Found::Integer(i64::MIN as i128)
    );
    assert_eq!(
        Found::describe(&Value::from(0.1)),
        Found::Float("0.1".to_owned())
    );
}

#[test]
fn the_grammar_as_data() {
    assert_eq!(jsonrpc_codec::schema::VERSION, "2.0");
    assert_eq!(
        Schema::Request.field_table(),
        vec![Field::Jsonrpc, Field::Id, Field::Method, Field::Params]
    );
    assert_eq!(
        Schema::Response.field_table(),
        vec![Field::Jsonrpc, Field::Id, Field::Result, Field::Error]
    );
    assert_eq!(
        Schema::Notification.field_table(),
        vec![Field::Jsonrpc, Field::Method, Field::Params]
    );
    assert_eq!(
        Schema::Error.field_table(),
        vec![Field::Code, Field::Message, Field::Data]
    );
    for field in [
        Field::Jsonrpc,
        Field::Id,
        Field::Method,
        Field::Params,
        Field::Result,
        Field::Error,
        Field::Code,
        Field::Message,
        Field::Data,
    ] {
        let name = field.as_str().to_owned();
        assert!(field.is_named(&name));
        assert_eq!(Field::find(&name), Some(field));
        for schema in [
            Schema::Notification,
            Schema::Request,
            Schema::Response,
            Schema::Error,
        ] {
            let admitted = schema.field_table().contains(&field);
            assert_eq!(schema.find(&name), if admitted { Some(field) } else { None });
        }
    }
    assert_eq!(Field::find(&"Id".to_owned()), None);
    assert_eq!(Field::find(&"".to_owned()), None);
}

#[test]
fn a_refusal_becomes_an_error_object() {
    let refusal = DecodeError::MissingField(Field::Method);
    let error = refusal.to_error();
    assert_eq!(error.code, ErrorCode::InvalidRequest);
    assert_eq!(error.message, "Invalid Request");
    assert_eq!(
        error.data,
        Some(ErrorData::new(Value::from("missing field `method`")))
    );
}
