//! Telling documents apart: which message an object is, which batch an array
//! is.

use crate::de::{
    fault_of, notification_of, notification_of_entries, outcome, request_of, request_of_entries,
    response_of, response_of_entries,
};
use crate::fault::{found_of, DecodeError, DecodeErrorView, Expected, Found};
use crate::json::{entries_of, map_pairs, node_of, peek, Entries, Node, NodeView};
use crate::msg::{
    Batch, BatchView, Document, DocumentView, Message, MessageView, Notification, Request,
    RequestView, Response, ResponseView,
};
use crate::schema::Schema;
use serde_json::Value;
use vstd::prelude::*;

verus! {

/// The first of three readings that succeeds: as a request, then as a
/// notification, then as a response. Where none does, the three refusals.
pub open spec fn first_reading(
    request: Result<RequestView, DecodeErrorView>,
    notification: Result<crate::msg::NotificationView, DecodeErrorView>,
    response: Result<ResponseView, DecodeErrorView>,
) -> Result<MessageView, DecodeErrorView> {
    match request {
        Ok(r) => Ok(MessageView::Request(r)),
        Err(a) => match notification {
            Ok(n) => Ok(MessageView::Notification(n)),
            Err(b) => match response {
                Ok(r) => Ok(MessageView::Response(r)),
                Err(c) => Err(
                    DecodeErrorView::UnclassifiableMessage(Box::new(a), Box::new(b), Box::new(c)),
                ),
            },
        },
    }
}

/// What the entries of an object decode to as a message.
pub open spec fn message_of_entries(entries: Entries) -> Result<MessageView, DecodeErrorView> {
    first_reading(
        request_of_entries(entries),
        notification_of_entries(entries),
        response_of_entries(entries),
    )
}

/// What a value decodes to as a message.
pub open spec fn message_of(v: Value) -> Result<MessageView, DecodeErrorView> {
    first_reading(request_of(v), notification_of(v), response_of(v))
}

/// The refusal of the first refused element among the first `n`, if any is
/// refused.
pub open spec fn refused_element(
    items: Seq<Value>,
    n: int,
    fault: spec_fn(Value) -> Option<DecodeErrorView>,
) -> Option<DecodeErrorView>
    decreases n,
{
    if n <= 0 {
        None
    } else {
        match refused_element(items, n - 1, fault) {
            Some(e) => Some(e),
            None => match fault(items[n - 1]) {
                Some(e) => Some(DecodeErrorView::InElement((n - 1) as usize, Box::new(e))),
                None => None,
            },
        }
    }
}

/// Why a value is refused as a request.
pub open spec fn request_fault() -> spec_fn(Value) -> Option<DecodeErrorView> {
    |v: Value| fault_of(request_of(v))
}

/// Why a value is refused as a response.
pub open spec fn response_fault() -> spec_fn(Value) -> Option<DecodeErrorView> {
    |v: Value| fault_of(response_of(v))
}

/// What the elements of an array decode to as a batch of requests.
pub open spec fn requests_of(items: Seq<Value>) -> Result<BatchView, DecodeErrorView> {
    match refused_element(items, items.len() as int, request_fault()) {
        Some(e) => Err(e),
        None => Ok(BatchView::Requests(items.map_values(|v: Value| request_of(v)->Ok_0))),
    }
}

/// What the elements of an array decode to as a batch of responses.
pub open spec fn responses_of(items: Seq<Value>) -> Result<BatchView, DecodeErrorView> {
    match refused_element(items, items.len() as int, response_fault()) {
        Some(e) => Err(e),
        None => Ok(BatchView::Responses(items.map_values(|v: Value| response_of(v)->Ok_0))),
    }
}

/// What the elements of an array decode to as a batch. The first element
/// decides the kind: a request, else a response. Every element must then be of
/// that kind. An array without elements is no batch.
pub open spec fn batch_of_items(items: Seq<Value>) -> Result<BatchView, DecodeErrorView> {
    if items.len() == 0 {
        Err(DecodeErrorView::EmptyBatch)
    } else {
        match request_of(items[0]) {
            Ok(_) => requests_of(items),
            Err(a) => match response_of(items[0]) {
                Ok(_) => responses_of(items),
                Err(b) => Err(DecodeErrorView::UnclassifiableBatch(Box::new(a), Box::new(b))),
            },
        }
    }
}

/// What a value decodes to as a batch.
pub open spec fn batch_of(v: Value) -> Result<BatchView, DecodeErrorView> {
    match node_of(v) {
        NodeView::Array(items) => batch_of_items(items),
        _ => Err(DecodeErrorView::TypeMismatch(found_of(v), Expected::Batch)),
    }
}

/// What a value decodes to as a document: an array is a batch, an object is a
/// message, anything else is refused.
pub open spec fn document_of(v: Value) -> Result<DocumentView, DecodeErrorView> {
    match node_of(v) {
        NodeView::Array(_) => match batch_of(v) {
            Ok(batch) => Ok(DocumentView::Batch(batch)),
            Err(e) => Err(e),
        },
        NodeView::Object(_) => match message_of(v) {
            Ok(message) => Ok(DocumentView::Single(message)),
            Err(e) => Err(e),
        },
        _ => Err(DecodeErrorView::TypeMismatch(found_of(v), Expected::Document)),
    }
}

/// Once an element is refused, the elements behind it do not matter.
pub proof fn lemma_refused_element_stays(
    items: Seq<Value>,
    i: int,
    n: int,
    fault: spec_fn(Value) -> Option<DecodeErrorView>,
)
    requires
        0 <= i <= n,
        refused_element(items, i, fault) is Some,
    ensures
        refused_element(items, n, fault) == refused_element(items, i, fault),
    decreases n - i,
{
    if i < n {
        lemma_refused_element_stays(items, i, n - 1, fault);
    }
}

impl Message {
    /// Reads a message from the entries of its object, by ordered trial: a
    /// request, else a notification, else a response.
    pub fn decode_entries(entries: &Vec<(&String, &Value)>) -> (r: Result<Message, DecodeError>)
        ensures
            outcome(r) == message_of_entries(entries_of(entries@)),
            r matches Ok(message) ==> message@.well_formed(),
    {
        let a = match Request::decode_entries(entries) {
            Ok(request) => { return Ok(Message::Request(request)); },
            Err(a) => a,
        };
        let b = match Notification::decode_entries(entries) {
            Ok(notification) => { return Ok(Message::Notification(notification)); },
            Err(b) => b,
        };
        let c = match Response::decode_entries(entries) {
            Ok(response) => { return Ok(Message::Response(response)); },
            Err(c) => c,
        };
        Err(DecodeError::UnclassifiableMessage(Box::new(a), Box::new(b), Box::new(c)))
    }

    /// Reads a message, by ordered trial: a request, else a notification, else
    /// a response.
    pub fn decode(value: &Value) -> (r: Result<Message, DecodeError>)
        ensures
            outcome(r) == message_of(*value),
            r matches Ok(message) ==> message@.well_formed(),
    {
        match peek(value) {
            Node::Object(m) => {
                let pairs = map_pairs(m);
                Message::decode_entries(&pairs)
            },
            _ => {
                let a = DecodeError::TypeMismatch(
                    Found::describe(value),
                    Expected::Object(Schema::Request),
                );
                let b = DecodeError::TypeMismatch(
                    Found::describe(value),
                    Expected::Object(Schema::Notification),
                );
                let c = DecodeError::TypeMismatch(
                    Found::describe(value),
                    Expected::Object(Schema::Response),
                );
                assert(request_of(*value) == Err::<RequestView, DecodeErrorView>(a@));
                assert(notification_of(*value) == Err::<
                    crate::msg::NotificationView,
                    DecodeErrorView,
                >(b@));
                assert(response_of(*value) == Err::<ResponseView, DecodeErrorView>(c@));
                Err(DecodeError::UnclassifiableMessage(Box::new(a), Box::new(b), Box::new(c)))
            },
        }
    }
}

fn read_requests(items: &Vec<Value>, first: Request) -> (r: Result<Vec<Request>, DecodeError>)
    requires
        items.len() > 0,
        request_of(items@[0]) == Ok::<RequestView, DecodeErrorView>(first@),
    ensures
        match r {
            Ok(requests) => requests_of(items@) == Ok::<BatchView, DecodeErrorView>(
                BatchView::Requests(requests@.map_values(|r: Request| r@)),
            ),
            Err(e) => requests_of(items@) == Err::<BatchView, DecodeErrorView>(e@),
        },
{
    let mut requests: Vec<Request> = Vec::new();
    requests.push(first);
    let mut i: usize = 1;
    assert(refused_element(items@, 0, request_fault()) is None);
    while i < items.len()
        invariant
            1 <= i <= items.len(),
            requests.len() == i,
            refused_element(items@, i as int, request_fault()) is None,
            forall|j: int|
                0 <= j < i ==> request_of(items@[j]) == Ok::<RequestView, DecodeErrorView>(
                    (#[trigger] requests@[j])@,
                ),
        decreases items.len() - i,
    {
        match Request::decode(&items[i]) {
            Ok(request) => {
                requests.push(request);
            },
            Err(e) => {
                proof {
                    lemma_refused_element_stays(
                        items@,
                        i as int + 1,
                        items.len() as int,
                        request_fault(),
                    );
                }
                return Err(DecodeError::InElement(i, Box::new(e)));
            },
        }
        i += 1;
    }
    assert(requests@.map_values(|r: Request| r@) =~= items@.map_values(
        |v: Value| request_of(v)->Ok_0,
    ));
    Ok(requests)
}

fn read_responses(items: &Vec<Value>, first: Response) -> (r: Result<Vec<Response>, DecodeError>)
    requires
        items.len() > 0,
        response_of(items@[0]) == Ok::<ResponseView, DecodeErrorView>(first@),
        first@.well_formed(),
    ensures
        match r {
            Ok(responses) => responses_of(items@) == Ok::<BatchView, DecodeErrorView>(
                BatchView::Responses(responses@.map_values(|r: Response| r@)),
            ) && BatchView::Responses(responses@.map_values(|r: Response| r@)).well_formed(),
            Err(e) => responses_of(items@) == Err::<BatchView, DecodeErrorView>(e@),
        },
{
    let mut responses: Vec<Response> = Vec::new();
    responses.push(first);
    let mut i: usize = 1;
    assert(refused_element(items@, 0, response_fault()) is None);
    while i < items.len()
        invariant
            1 <= i <= items.len(),
            responses.len() == i,
            refused_element(items@, i as int, response_fault()) is None,
            forall|j: int|
                0 <= j < i ==> response_of(items@[j]) == Ok::<ResponseView, DecodeErrorView>(
                    (#[trigger] responses@[j])@,
                ) && responses@[j]@.well_formed(),
        decreases items.len() - i,
    {
        match Response::decode(&items[i]) {
            Ok(response) => {
                responses.push(response);
            },
            Err(e) => {
                proof {
                    lemma_refused_element_stays(
                        items@,
                        i as int + 1,
                        items.len() as int,
                        response_fault(),
                    );
                }
                return Err(DecodeError::InElement(i, Box::new(e)));
            },
        }
        i += 1;
    }
    assert(responses@.map_values(|r: Response| r@) =~= items@.map_values(
        |v: Value| response_of(v)->Ok_0,
    ));
    Ok(responses)
}

impl Batch {
    /// Reads a batch from the elements of its array.
    pub fn decode_items(items: &Vec<Value>) -> (r: Result<Batch, DecodeError>)
        ensures
            outcome(r) == batch_of_items(items@),
            r matches Ok(batch) ==> batch@.well_formed(),
    {
        if items.len() == 0 {
            return Err(DecodeError::EmptyBatch);
        }
        let a = match Request::decode(&items[0]) {
            Ok(first) => {
                return match read_requests(items, first) {
                    Ok(requests) => Ok(Batch::Requests(requests)),
                    Err(e) => Err(e),
                };
            },
            Err(a) => a,
        };
        let b = match Response::decode(&items[0]) {
            Ok(first) => {
                return match read_responses(items, first) {
                    Ok(responses) => Ok(Batch::Responses(responses)),
                    Err(e) => Err(e),
                };
            },
            Err(b) => b,
        };
        Err(DecodeError::UnclassifiableBatch(Box::new(a), Box::new(b)))
    }

    /// Reads a batch.
    pub fn decode(value: &Value) -> (r: Result<Batch, DecodeError>)
        ensures
            outcome(r) == batch_of(*value),
            r matches Ok(batch) ==> batch@.well_formed(),
    {
        match peek(value) {
            Node::Array(items) => Batch::decode_items(items),
            _ => Err(DecodeError::TypeMismatch(Found::describe(value), Expected::Batch)),
        }
    }
}

impl Document {
    /// Reads a document: an array as a batch, an object as a message.
    pub fn decode(value: &Value) -> (r: Result<Document, DecodeError>)
        ensures
            outcome(r) == document_of(*value),
            r matches Ok(document) ==> document@.well_formed(),
    {
        match peek(value) {
            Node::Array(_) => match Batch::decode(value) {
                Ok(batch) => Ok(Document::Batch(batch)),
                Err(e) => Err(e),
            },
            Node::Object(_) => match Message::decode(value) {
                Ok(message) => Ok(Document::Single(message)),
                Err(e) => Err(e),
            },
            _ => Err(DecodeError::TypeMismatch(Found::describe(value), Expected::Document)),
        }
    }
}

} // verus!
