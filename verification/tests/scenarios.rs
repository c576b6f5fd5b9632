use jsonrpc_codec::err::{Error, ErrorCode, ErrorData};
use jsonrpc_codec::fault::{DecodeError, Expected, Found};
use jsonrpc_codec::msg::{
    Batch, Document, Id, Message, Notification, Parameters, Request, Response,
};
use jsonrpc_codec::schema::{Field, Schema};
use serde_json::Value;

fn parse(text: &str) -> Value {
    serde_json::from_str(text).unwrap()
}

fn sample_messages() -> Vec<Message> {
    let mut msgs: Vec<Message> = Vec::new();

    msgs.push(Request::new(Id::Null, "do0".to_owned(), None).into());
    msgs.push(Request::new(Id::from(1), "do1".to_owned(), None).into());
    msgs.push(
        Request::new(
            Id::from("bc0caa41-22f3-4075-873e-240670c1bf17".to_owned()),
            "do2".to_owned(),
            Some(vec![1.into(), "test".into(), true.into()].into()),
        )
        .into(),
    );
    msgs.push(Notification::new("notify1".to_owned(), None).into());
    msgs.push(
        Notification::new(
            "notify2".to_owned(),
            Some(vec![2.into(), "test2".into(), false.into()].into()),
        )
        .into(),
    );

    msgs.push(
        Response::new_error(Id::Null, Error::new_default(ErrorCode::InternalError)).into(),
    );

    msgs.push(
        Response::new_error(
            Id::from(1),
            Error::new_default(ErrorCode::InternalError)
                .with_data(ErrorData::new(Value::from("test"))),
        )
        .into(),
    );

    msgs.push(Response::new_success(Id::from(15), Value::from(vec![1, 2, 3])).into());
    msgs
}

#[test]
fn messages_come_back_from_their_text() {
    for msg in sample_messages().iter() {
        let json = msg.encode().to_string();
        println!("{}", json);

        let back = Message::decode(&parse(&json)).unwrap();
        println!("{:?}", back);
        assert_eq!(&back, msg);
    }
}

#[test]
fn a_success_without_identifier_does_not_come_back() {
    let unanswerable = Response::new_success(Id::Null, Value::from("test"));
    let json = unanswerable.encode();
    assert_eq!(
        json.to_string(),
        r#"{"jsonrpc":"2.0","id":null,"result":"test"}"#
    );
    assert_eq!(Response::decode(&json), Err(DecodeError::MissingId));
}

#[test]
fn every_part_comes_back_from_the_wire() {
    let mut object = serde_json::Map::new();
    object.insert("k".to_owned(), Value::from(1.5));
    for params in [
        Parameters::Array(vec![]),
        Parameters::Array(vec![Value::Null, Value::from("x")]),
        Parameters::Object(object),
    ] {
        assert_eq!(Parameters::decode(&params.encode()), Ok(Some(params.clone())));
        let notification = Notification::new("n".to_owned(), Some(params.clone()));
        assert_eq!(
            Notification::decode(&notification.encode()),
            Ok(notification)
        );
        let request = Request::new(Id::I64(-3), "r".to_owned(), Some(params));
        assert_eq!(Request::decode(&request.encode()), Ok(request));
    }

    for code in [
        ErrorCode::ParseError,
        ErrorCode::InvalidRequest,
        ErrorCode::MethodNotFound,
        ErrorCode::InvalidParams,
        ErrorCode::InternalError,
        ErrorCode::ServerError(-32099),
        ErrorCode::ServerError(-32000),
    ] {
        assert_eq!(ErrorCode::decode(&code.encode()), Ok(code));
        let plain = Error::new(code, "went wrong".to_owned());
        assert_eq!(Error::decode(&plain.encode()), Ok(plain.clone()));
        let detailed = plain.with_data(ErrorData::new(Value::from(vec![1, 2])));
        assert_eq!(Error::decode(&detailed.encode()), Ok(detailed.clone()));
        let response = Response::new_error(Id::Str("id".to_owned()), detailed);
        assert_eq!(Response::decode(&response.encode()), Ok(response));
    }

    let ill_formed = ErrorCode::ServerError(5);
    assert_eq!(
        ErrorCode::decode(&ill_formed.encode()),
        Err(DecodeError::InvalidErrorCode)
    );
}

#[test]
fn an_error_object_decodes_on_its_own() {
    let error = Error::decode(&parse(r#"{"code":-32700,"message":"Parse error"}"#)).unwrap();
    assert_eq!(error.code, ErrorCode::ParseError);
    assert_eq!(error.message, "Parse error");
    assert_eq!(error.data, None);
}

#[test]
fn result_and_error_cannot_both_be_present() {
    let refusal = Response::decode(&parse(
        r#"{"jsonrpc":"2.0","id":1,"result":null,"error":{"code":-32603,"message":"Internal error"}}"#,
    ))
    .unwrap_err();
    assert_eq!(refusal, DecodeError::AmbiguousPayload);
    assert!(refusal.message().contains("cannot both be present"));

    let as_message = Message::decode(&parse(
        r#"{"jsonrpc":"2.0","id":1,"result":null,"error":{"code":-32603,"message":"Internal error"}}"#,
    ))
    .unwrap_err();
    assert!(as_message.message().contains("cannot both be present"));
}

#[test]
fn the_identifier_tells_a_request_from_a_notification() {
    let with_id = Message::decode(&parse(r#"{"jsonrpc":"2.0","id":1,"method":"m"}"#));
    assert_eq!(
        with_id,
        Ok(Message::Request(Request::new(Id::I64(1), "m".to_owned(), None)))
    );
    let without_id = Message::decode(&parse(r#"{"jsonrpc":"2.0","method":"m"}"#));
    assert_eq!(
        without_id,
        Ok(Message::Notification(Notification::new("m".to_owned(), None)))
    );
    let reply = Message::decode(&parse(r#"{"jsonrpc":"2.0","id":1,"result":[]}"#));
    assert_eq!(
        reply,
        Ok(Message::Response(Response::new_success(
            Id::I64(1),
            Value::Array(vec![])
        )))
    );
}

#[test]
fn an_identifier_beyond_the_integers_is_refused() {
    assert_eq!(
        Id::decode(&parse("18446744073709551615")),
        Err(DecodeError::IdOverflow)
    );
    assert!(Id::decode(&parse("18446744073709551616")).is_err());
    assert_eq!(
        Id::decode(&parse("9223372036854775807")),
        Ok(Id::I64(i64::MAX))
    );
}

#[test]
fn an_extra_field_is_named_as_unknown() {
    let document = parse(r#"{"jsonrpc":"2.0","method":"m","bogus":1}"#);
    let as_notification = Notification::decode(&document).unwrap_err();
    assert_eq!(
        as_notification,
        DecodeError::UnknownField("bogus".to_owned(), Schema::Notification)
    );
    assert_eq!(
        as_notification.message(),
        "unknown field `bogus`, expected one of `jsonrpc`, `method`, `params`"
    );

    let as_message = Message::decode(&document).unwrap_err();
    assert!(matches!(as_message, DecodeError::UnclassifiableMessage(..)));
    assert!(as_message
        .message()
        .starts_with("neither request nor response"));
    assert!(as_message.message().contains("unknown field `bogus`"));
}

#[test]
fn a_batch_is_of_one_kind() {
    let mixed = parse(
        r#"[{"jsonrpc":"2.0","id":1,"method":"a"},{"jsonrpc":"2.0","id":2,"result":1}]"#,
    );
    let refusal = Batch::decode(&mixed).unwrap_err();
    assert_eq!(
        refusal,
        DecodeError::InElement(
            1,
            Box::new(DecodeError::UnknownField(
                "result".to_owned(),
                Schema::Request
            ))
        )
    );
    assert_eq!(
        refusal.message(),
        "element 1: unknown field `result`, expected one of `jsonrpc`, `id`, `method`, `params`"
    );
    assert!(Document::decode(&mixed).is_err());

    let other_way = parse(
        r#"[{"jsonrpc":"2.0","id":2,"result":1},{"jsonrpc":"2.0","id":1,"method":"a"}]"#,
    );
    assert_eq!(
        Batch::decode(&other_way),
        Err(DecodeError::InElement(
            1,
            Box::new(DecodeError::UnknownField(
                "method".to_owned(),
                Schema::Response
            ))
        ))
    );
}

#[test]
fn batches_come_back_from_the_wire() {
    let requests = Batch::Requests(vec![
        Request::new(Id::I64(1), "a".to_owned(), None),
        Request::new(Id::Str("b".to_owned()), "b".to_owned(), None),
    ]);
    assert_eq!(Batch::decode(&requests.encode()), Ok(requests.clone()));
    assert_eq!(
        Document::decode(&requests.encode()),
        Ok(Document::Batch(requests))
    );

    let responses = Batch::Responses(vec![
        Response::new_success(Id::I64(1), Value::from(1)),
        Response::new_error(Id::Null, Error::new_default(ErrorCode::ParseError)),
    ]);
    assert_eq!(Batch::decode(&responses.encode()), Ok(responses));

    let single = Message::from(Notification::new("n".to_owned(), None));
    assert_eq!(
        Document::decode(&single.encode()),
        Ok(Document::Single(single))
    );
}

#[test]
fn what_is_no_batch() {
    assert_eq!(Batch::decode(&parse("[]")), Err(DecodeError::EmptyBatch));
    assert_eq!(
        DecodeError::EmptyBatch.message(),
        "a batch must hold at least one message"
    );
    assert_eq!(
        Batch::decode(&parse("{}")),
        Err(DecodeError::TypeMismatch(Found::Object, Expected::Batch))
    );

    let notification_first = Batch::decode(&parse(r#"[{"jsonrpc":"2.0","method":"m"}]"#));
    assert_eq!(
        notification_first,
        Err(DecodeError::UnclassifiableBatch(
            Box::new(DecodeError::MissingField(Field::Id)),
            Box::new(DecodeError::UnknownField(
                "method".to_owned(),
                Schema::Response
            )),
        ))
    );
    assert_eq!(
        notification_first.unwrap_err().message(),
        "neither a batch of requests nor a batch of responses; as a request: missing field `id`; as a response: unknown field `method`, expected one of `jsonrpc`, `id`, `result`, `error`"
    );

    let malformed_later = Batch::decode(&parse(
        r#"[{"jsonrpc":"2.0","id":1,"method":"a"},7]"#,
    ));
    assert_eq!(
        malformed_later,
        Err(DecodeError::InElement(
            1,
            Box::new(DecodeError::TypeMismatch(
                Found::Integer(7),
                Expected::Object(Schema::Request)
            ))
        ))
    );

    assert_eq!(
        Document::decode(&Value::from(true)),
        Err(DecodeError::TypeMismatch(
            Found::Bool(true),
            Expected::Document
        ))
    );
    assert_eq!(
        Document::decode(&Value::from(true)).unwrap_err().message(),
        "invalid type: boolean `true`, expected a message object or a batch array"
    );
}

#[test]
fn what_is_no_message() {
    let refusal = Message::decode(&Value::Null).unwrap_err();
    assert_eq!(
        refusal,
        DecodeError::UnclassifiableMessage(
            Box::new(DecodeError::TypeMismatch(
                Found::Null,
                Expected::Object(Schema::Request)
            )),
            Box::new(DecodeError::TypeMismatch(
                Found::Null,
                Expected::Object(Schema::Notification)
            )),
            Box::new(DecodeError::TypeMismatch(
                Found::Null,
                Expected::Object(Schema::Response)
            )),
        )
    );
    let empty = Message::decode(&parse("{}")).unwrap_err();
    assert_eq!(
        empty.message(),
        "neither request nor response; as a request: missing field `jsonrpc`: expected version \"2.0\"; as a notification: missing field `jsonrpc`: expected version \"2.0\"; as a response: missing field `jsonrpc`: expected version \"2.0\""
    );
}

#[test]
fn main() {
    let mut msgs = sample_messages();
    msgs.insert(
        7,
        Response::new_success(Id::from(1), Value::from("test")).into(),
    );

    for msg in msgs.iter() {
        let json = msg.encode().to_string();
        println!("{}", json);

        let msg = Message::decode(&parse(&json)).unwrap();
        println!("{:?}", msg)
    }
}
