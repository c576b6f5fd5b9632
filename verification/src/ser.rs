//! Encoding: from a message to the JSON value that stands for it on the wire.
//!
//! Encoding never fails. Each encoder is stated by a predicate of the same
//! shape: which values stand for a message. Fields come in the order of the
//! grammar, and an absent optional field leaves no entry.

use crate::err::{Error, ErrorCode, ErrorData, ErrorView};
use crate::json::{
    map_entries, map_insert, map_new, node_of, number_int, value_from_array, value_from_i64,
    value_from_object, value_from_string, value_null, Entries, NodeView,
};
use crate::msg::{
    Batch, BatchView, Document, DocumentView, Id, IdView, Message, MessageView, Notification,
    NotificationView, Parameters, ParametersView, Request, RequestView, Response, ResponseView,
};
use crate::schema::{lemma_names_differ, Field, VERSION};
use serde_json::Value;
use vstd::prelude::*;

verus! {

/// Whether a value is this integer.
pub open spec fn is_integer(v: Value, i: int) -> bool {
    node_of(v) matches NodeView::Number(n) && number_int(n) matches Some(k) && k == i
}

/// Whether a value is this string.
pub open spec fn is_text(v: Value, s: Seq<char>) -> bool {
    node_of(v) == NodeView::Text(s)
}

/// Whether a value stands for the identifier.
pub open spec fn encodes_id(id: IdView, v: Value) -> bool {
    match id {
        IdView::Null => node_of(v) == NodeView::Null,
        IdView::I64(i) => is_integer(v, i as int),
        IdView::Str(s) => is_text(v, s),
    }
}

/// Whether a value stands for the parameters.
pub open spec fn encodes_params(params: ParametersView, v: Value) -> bool {
    match params {
        ParametersView::Array(a) => node_of(v) == NodeView::Array(a),
        ParametersView::Object(m) => node_of(v) == NodeView::Object(m),
    }
}

/// Whether a value stands for the error code.
pub open spec fn encodes_code(code: ErrorCode, v: Value) -> bool {
    is_integer(v, code.number())
}

/// Whether these are the entries of the error object: `code`, `message`, and
/// `data` where there is any.
pub open spec fn error_entries(error: ErrorView, entries: Entries) -> bool {
    &&& entries.len() == if error.data is Some {
        3nat
    } else {
        2nat
    }
    &&& entries[0].0 == Field::Code.name()
    &&& encodes_code(error.code, entries[0].1)
    &&& entries[1].0 == Field::Message.name()
    &&& is_text(entries[1].1, error.message)
    &&& error.data matches Some(data) ==> entries[2] == (Field::Data.name(), data)
}

/// Whether a value stands for the error object.
pub open spec fn encodes_error(error: ErrorView, v: Value) -> bool {
    node_of(v) matches NodeView::Object(m) && error_entries(error, map_entries(m))
}

/// Whether these are the entries of the notification: `jsonrpc`, `method`,
/// and `params` where there are any.
pub open spec fn notification_entries(notification: NotificationView, entries: Entries) -> bool {
    &&& entries.len() == if notification.params is Some {
        3nat
    } else {
        2nat
    }
    &&& entries[0].0 == Field::Jsonrpc.name()
    &&& is_text(entries[0].1, VERSION@)
    &&& entries[1].0 == Field::Method.name()
    &&& is_text(entries[1].1, notification.method)
    &&& notification.params matches Some(params) ==> entries[2].0 == Field::Params.name()
        && encodes_params(params, entries[2].1)
}

/// Whether a value stands for the notification.
pub open spec fn encodes_notification(notification: NotificationView, v: Value) -> bool {
    node_of(v) matches NodeView::Object(m) && notification_entries(notification, map_entries(m))
}

/// Whether these are the entries of the request: `jsonrpc`, `id`, `method`,
/// and `params` where there are any.
pub open spec fn request_entries(request: RequestView, entries: Entries) -> bool {
    &&& entries.len() == if request.params is Some {
        4nat
    } else {
        3nat
    }
    &&& entries[0].0 == Field::Jsonrpc.name()
    &&& is_text(entries[0].1, VERSION@)
    &&& entries[1].0 == Field::Id.name()
    &&& encodes_id(request.id, entries[1].1)
    &&& entries[2].0 == Field::Method.name()
    &&& is_text(entries[2].1, request.method)
    &&& request.params matches Some(params) ==> entries[3].0 == Field::Params.name()
        && encodes_params(params, entries[3].1)
}

/// Whether a value stands for the request.
pub open spec fn encodes_request(request: RequestView, v: Value) -> bool {
    node_of(v) matches NodeView::Object(m) && request_entries(request, map_entries(m))
}

/// Whether these are the entries of the response: `jsonrpc`, `id`, and either
/// `result` or `error`.
pub open spec fn response_entries(response: ResponseView, entries: Entries) -> bool {
    &&& entries.len() == 3
    &&& entries[0].0 == Field::Jsonrpc.name()
    &&& is_text(entries[0].1, VERSION@)
    &&& entries[1].0 == Field::Id.name()
    &&& encodes_id(response.id, entries[1].1)
    &&& match response.result {
        Ok(result) => entries[2] == (Field::Result.name(), result),
        Err(error) => entries[2].0 == Field::Error.name() && encodes_error(error, entries[2].1),
    }
}

/// Whether a value stands for the response.
pub open spec fn encodes_response(response: ResponseView, v: Value) -> bool {
    node_of(v) matches NodeView::Object(m) && response_entries(response, map_entries(m))
}

/// Whether a value stands for the message.
pub open spec fn encodes_message(message: MessageView, v: Value) -> bool {
    match message {
        MessageView::Notification(notification) => encodes_notification(notification, v),
        MessageView::Request(request) => encodes_request(request, v),
        MessageView::Response(response) => encodes_response(response, v),
    }
}

/// Whether a value stands for the batch: an array with one element for each
/// message, in order.
pub open spec fn encodes_batch(batch: BatchView, v: Value) -> bool {
    node_of(v) matches NodeView::Array(items) && match batch {
        BatchView::Requests(requests) => items.len() == requests.len() && forall|i: int|
            0 <= i < items.len() ==> encodes_request(requests[i], #[trigger] items[i]),
        BatchView::Responses(responses) => items.len() == responses.len() && forall|i: int|
            0 <= i < items.len() ==> encodes_response(responses[i], #[trigger] items[i]),
    }
}

/// Whether a value stands for the document.
pub open spec fn encodes_document(document: DocumentView, v: Value) -> bool {
    match document {
        DocumentView::Single(message) => encodes_message(message, v),
        DocumentView::Batch(batch) => encodes_batch(batch, v),
    }
}

/// Adds the field as the object's last entry.
fn put(m: &mut serde_json::Map<String, Value>, f: Field, v: Value)
    requires
        forall|i: int|
            0 <= i < map_entries(*old(m)).len() ==> (#[trigger] map_entries(*old(m))[i]).0
                != f.name(),
    ensures
        map_entries(*final(m)) == map_entries(*old(m)).push((f.name(), v)),
{
    map_insert(m, f.as_str().to_owned(), v);
}

/// The version string as a value.
fn version_value() -> (v: Value)
    ensures
        is_text(v, VERSION@),
{
    value_from_string(VERSION.to_owned())
}

impl Id {
    /// The value that stands for the identifier.
    pub fn encode(&self) -> (v: Value)
        ensures
            encodes_id(self@, v),
    {
        match self {
            Id::Null => value_null(),
            Id::I64(id) => value_from_i64(*id),
            Id::Str(id) => value_from_string(id.clone()),
        }
    }
}

impl Parameters {
    /// The value that stands for the parameters.
    pub fn encode(&self) -> (v: Value)
        ensures
            encodes_params(self@, v),
    {
        match self {
            Parameters::Array(array) => value_from_array(array.clone()),
            Parameters::Object(object) => value_from_object(object.clone()),
        }
    }
}

impl ErrorCode {
    /// The value that stands for the code.
    pub fn encode(&self) -> (v: Value)
        ensures
            encodes_code(*self, v),
    {
        value_from_i64(self.as_i64())
    }
}

impl ErrorData {
    /// The value that the data is.
    pub fn encode(&self) -> (v: Value)
        ensures
            v == self.value,
    {
        self.value.clone()
    }
}

impl Error {
    /// The value that stands for the error object.
    pub fn encode(&self) -> (v: Value)
        ensures
            encodes_error(self@, v),
    {
        proof {
            lemma_names_differ(Field::Message, Field::Code);
            lemma_names_differ(Field::Data, Field::Code);
            lemma_names_differ(Field::Data, Field::Message);
        }
        let mut m = map_new();
        put(&mut m, Field::Code, self.code.encode());
        put(&mut m, Field::Message, value_from_string(self.message.clone()));
        match &self.data {
            Some(data) => put(&mut m, Field::Data, data.encode()),
            None => {},
        }
        value_from_object(m)
    }
}

impl Notification {
    /// The value that stands for the notification.
    pub fn encode(&self) -> (v: Value)
        ensures
            encodes_notification(self@, v),
    {
        proof {
            lemma_names_differ(Field::Method, Field::Jsonrpc);
            lemma_names_differ(Field::Params, Field::Jsonrpc);
            lemma_names_differ(Field::Params, Field::Method);
        }
        let mut m = map_new();
        put(&mut m, Field::Jsonrpc, version_value());
        put(&mut m, Field::Method, value_from_string(self.method.clone()));
        match &self.params {
            Some(params) => put(&mut m, Field::Params, params.encode()),
            None => {},
        }
        value_from_object(m)
    }
}

impl Request {
    /// The value that stands for the request.
    pub fn encode(&self) -> (v: Value)
        ensures
            encodes_request(self@, v),
    {
        proof {
            lemma_names_differ(Field::Id, Field::Jsonrpc);
            lemma_names_differ(Field::Method, Field::Jsonrpc);
            lemma_names_differ(Field::Method, Field::Id);
            lemma_names_differ(Field::Params, Field::Jsonrpc);
            lemma_names_differ(Field::Params, Field::Id);
            lemma_names_differ(Field::Params, Field::Method);
        }
        let mut m = map_new();
        put(&mut m, Field::Jsonrpc, version_value());
        put(&mut m, Field::Id, self.id.encode());
        put(&mut m, Field::Method, value_from_string(self.method.clone()));
        match &self.params {
            Some(params) => put(&mut m, Field::Params, params.encode()),
            None => {},
        }
        value_from_object(m)
    }
}

impl Response {
    /// The value that stands for the response.
    pub fn encode(&self) -> (v: Value)
        ensures
            encodes_response(self@, v),
    {
        proof {
            lemma_names_differ(Field::Id, Field::Jsonrpc);
            lemma_names_differ(Field::Result, Field::Jsonrpc);
            lemma_names_differ(Field::Result, Field::Id);
            lemma_names_differ(Field::Error, Field::Jsonrpc);
            lemma_names_differ(Field::Error, Field::Id);
        }
        let mut m = map_new();
        put(&mut m, Field::Jsonrpc, version_value());
        put(&mut m, Field::Id, self.id.encode());
        match &self.result {
            Ok(result) => put(&mut m, Field::Result, result.clone()),
            Err(error) => put(&mut m, Field::Error, error.encode()),
        }
        value_from_object(m)
    }
}

impl Message {
    /// The value that stands for the message.
    pub fn encode(&self) -> (v: Value)
        ensures
            encodes_message(self@, v),
    {
        match self {
            Message::Notification(notification) => notification.encode(),
            Message::Request(request) => request.encode(),
            Message::Response(response) => response.encode(),
        }
    }
}

impl Batch {
    /// The value that stands for the batch.
    pub fn encode(&self) -> (v: Value)
        ensures
            encodes_batch(self@, v),
    {
        let mut items: Vec<Value> = Vec::new();
        match self {
            Batch::Requests(requests) => {
                let mut i: usize = 0;
                while i < requests.len()
                    invariant
                        i <= requests.len(),
                        items.len() == i,
                        forall|j: int|
                            0 <= j < i ==> encodes_request(requests@[j]@, #[trigger] items@[j]),
                    decreases requests.len() - i,
                {
                    items.push(requests[i].encode());
                    i += 1;
                }
            },
            Batch::Responses(responses) => {
                let mut i: usize = 0;
                while i < responses.len()
                    invariant
                        i <= responses.len(),
                        items.len() == i,
                        forall|j: int|
                            0 <= j < i ==> encodes_response(responses@[j]@, #[trigger] items@[j]),
                    decreases responses.len() - i,
                {
                    items.push(responses[i].encode());
                    i += 1;
                }
            },
        }
        value_from_array(items)
    }
}

impl Document {
    /// The value that stands for the document.
    pub fn encode(&self) -> (v: Value)
        ensures
            encodes_document(self@, v),
    {
        match self {
            Document::Single(message) => message.encode(),
            Document::Batch(batch) => batch.encode(),
        }
    }
}

} // verus!
