//! What holds of encoding and decoding together: a well-formed message that is
//! encoded and decoded again comes back as it was.

use crate::de::{
    code_of, error_of, error_of_entries, first_fault, id_of, notification_of,
    notification_of_entries, params_of, request_of, request_of_entries, response_of,
    response_of_entries, slot,
};
use crate::envelope::{
    batch_of, document_of, message_of, refused_element, request_fault, response_fault,
};
use crate::err::{ErrorCode, ErrorView};
use crate::fault::DecodeErrorView;
use crate::json::{map_entries, node_of, Entries};
use crate::msg::{
    BatchView, DocumentView, IdView, MessageView, NotificationView, ParametersView, RequestView,
    ResponseView,
};
use crate::schema::{lemma_names_differ, Field, Schema};
use crate::ser::{
    encodes_batch, encodes_code, encodes_document, encodes_error, encodes_id, encodes_message,
    encodes_notification, encodes_params, encodes_request, encodes_response, error_entries,
    notification_entries, request_entries, response_entries,
};
use serde_json::Value;
use vstd::prelude::*;

verus! {

/// An identifier that is encoded and decoded again is the same identifier.
pub proof fn lemma_id_round_trip(id: IdView, v: Value)
    requires
        encodes_id(id, v),
    ensures
        id_of(v) == Ok::<IdView, DecodeErrorView>(id),
{
}

/// Parameters that are encoded and decoded again are the same parameters.
pub proof fn lemma_parameters_round_trip(params: ParametersView, v: Value)
    requires
        encodes_params(params, v),
    ensures
        params_of(v) == Ok::<Option<ParametersView>, DecodeErrorView>(Some(params)),
{
}

/// An error code that is encoded and decoded again is the same code.
pub proof fn lemma_code_round_trip(code: ErrorCode, v: Value)
    requires
        code.well_formed(),
        encodes_code(code, v),
    ensures
        code_of(v) == Ok::<ErrorCode, DecodeErrorView>(code),
{
}

/// Every field name is found again under its own name, and under no other.
proof fn lemma_all_names_differ()
    ensures
        forall|f: Field, g: Field| (#[trigger] f.name() == #[trigger] g.name()) <==> f == g,
        forall|f: Field| Field::named(#[trigger] f.name()) == Some(f),
{
    assert forall|f: Field, g: Field| (#[trigger] f.name() == #[trigger] g.name()) <==> f
        == g by {
        lemma_names_differ(f, g);
    }
    assert forall|f: Field| Field::named(#[trigger] f.name()) == Some(f) by {
        lemma_names_differ(f, f);
    }
}

/// Which fields each shape admits.
proof fn lemma_tables()
    ensures
        forall|f: Field|
            Schema::Error.admits(f) <==> (f is Code || f is Message || f is Data),
        forall|f: Field|
            Schema::Notification.admits(f) <==> (f is Jsonrpc || f is Method || f is Params),
        forall|f: Field|
            Schema::Request.admits(f) <==> (f is Jsonrpc || f is Id || f is Method || f is Params),
        forall|f: Field|
            Schema::Response.admits(f) <==> (f is Jsonrpc || f is Id || f is Result || f is Error),
{
    let e = Schema::Error.fields();
    assert(e[0] == Field::Code && e[1] == Field::Message && e[2] == Field::Data);
    let n = Schema::Notification.fields();
    assert(n[0] == Field::Jsonrpc && n[1] == Field::Method && n[2] == Field::Params);
    let r = Schema::Request.fields();
    assert(r[0] == Field::Jsonrpc && r[1] == Field::Id && r[2] == Field::Method && r[3]
        == Field::Params);
    let s = Schema::Response.fields();
    assert(s[0] == Field::Jsonrpc && s[1] == Field::Id && s[2] == Field::Result && s[3]
        == Field::Error);
}

/// The entries of an encoded error object decode to the error.
pub proof fn lemma_error_entries_round_trip(error: ErrorView, entries: Entries)
    requires
        error.code.well_formed(),
        error_entries(error, entries),
    ensures
        error_of_entries(entries) == Ok::<ErrorView, DecodeErrorView>(error),
{
    lemma_all_names_differ();
    lemma_tables();
    reveal_with_fuel(first_fault, 4);
    reveal_with_fuel(slot, 4);
    lemma_code_round_trip(error.code, entries[0].1);
}

/// An error object that is encoded and decoded again is the same error
/// object.
pub proof fn lemma_error_round_trip(error: ErrorView, v: Value)
    requires
        error.code.well_formed(),
        encodes_error(error, v),
    ensures
        error_of(v) == Ok::<ErrorView, DecodeErrorView>(error),
{
    lemma_error_entries_round_trip(error, map_entries(node_of(v)->Object_0));
}

/// The entries of an encoded notification decode to the notification, and
/// are refused as a request for want of an identifier.
pub proof fn lemma_notification_entries_round_trip(
    notification: NotificationView,
    entries: Entries,
)
    requires
        notification_entries(notification, entries),
    ensures
        notification_of_entries(entries) == Ok::<NotificationView, DecodeErrorView>(notification),
        request_of_entries(entries) is Err,
{
    lemma_all_names_differ();
    lemma_tables();
    reveal_with_fuel(first_fault, 4);
    reveal_with_fuel(slot, 4);
    if notification.params is Some {
        lemma_parameters_round_trip(notification.params->Some_0, entries[2].1);
    }
}

/// The entries of an encoded request decode to the request.
pub proof fn lemma_request_entries_round_trip(request: RequestView, entries: Entries)
    requires
        request_entries(request, entries),
    ensures
        request_of_entries(entries) == Ok::<RequestView, DecodeErrorView>(request),
{
    lemma_all_names_differ();
    lemma_tables();
    reveal_with_fuel(first_fault, 5);
    reveal_with_fuel(slot, 5);
    lemma_id_round_trip(request.id, entries[1].1);
    if request.params is Some {
        lemma_parameters_round_trip(request.params->Some_0, entries[3].1);
    }
}

/// The entries of an encoded well-formed response decode to the response, and
/// are refused as a request and as a notification.
pub proof fn lemma_response_entries_round_trip(response: ResponseView, entries: Entries)
    requires
        response.well_formed(),
        response_entries(response, entries),
    ensures
        response_of_entries(entries) == Ok::<ResponseView, DecodeErrorView>(response),
        request_of_entries(entries) is Err,
        notification_of_entries(entries) is Err,
{
    lemma_all_names_differ();
    lemma_tables();
    reveal_with_fuel(first_fault, 4);
    reveal_with_fuel(slot, 4);
    lemma_id_round_trip(response.id, entries[1].1);
    if response.result is Err {
        lemma_error_round_trip(response.result->Err_0, entries[2].1);
    }
}

/// A notification that is encoded and decoded again is the same
/// notification.
pub proof fn lemma_notification_round_trip(notification: NotificationView, v: Value)
    requires
        encodes_notification(notification, v),
    ensures
        notification_of(v) == Ok::<NotificationView, DecodeErrorView>(notification),
{
    lemma_notification_entries_round_trip(notification, map_entries(node_of(v)->Object_0));
}

/// A request that is encoded and decoded again is the same request.
pub proof fn lemma_request_round_trip(request: RequestView, v: Value)
    requires
        encodes_request(request, v),
    ensures
        request_of(v) == Ok::<RequestView, DecodeErrorView>(request),
{
    lemma_request_entries_round_trip(request, map_entries(node_of(v)->Object_0));
}

/// A well-formed response that is encoded and decoded again is the same
/// response.
pub proof fn lemma_response_round_trip(response: ResponseView, v: Value)
    requires
        response.well_formed(),
        encodes_response(response, v),
    ensures
        response_of(v) == Ok::<ResponseView, DecodeErrorView>(response),
{
    lemma_response_entries_round_trip(response, map_entries(node_of(v)->Object_0));
}

/// A well-formed message that is encoded and decoded again is the same
/// message, of the same kind.
pub proof fn lemma_message_round_trip(message: MessageView, v: Value)
    requires
        message.well_formed(),
        encodes_message(message, v),
    ensures
        message_of(v) == Ok::<MessageView, DecodeErrorView>(message),
{
    let entries = map_entries(node_of(v)->Object_0);
    match message {
        MessageView::Notification(notification) => {
            lemma_notification_entries_round_trip(notification, entries);
        },
        MessageView::Request(request) => {
            lemma_request_entries_round_trip(request, entries);
        },
        MessageView::Response(response) => {
            lemma_response_entries_round_trip(response, entries);
        },
    }
}

/// Where each of the first `n` elements stands for a request, none is
/// refused as one.
proof fn lemma_requests_pass(requests: Seq<RequestView>, items: Seq<Value>, n: int)
    requires
        0 <= n <= items.len(),
        items.len() == requests.len(),
        forall|i: int| 0 <= i < items.len() ==> encodes_request(requests[i], #[trigger] items[i]),
    ensures
        refused_element(items, n, request_fault()) is None,
    decreases n,
{
    if n > 0 {
        lemma_requests_pass(requests, items, n - 1);
        lemma_request_round_trip(requests[n - 1], items[n - 1]);
    }
}

/// Where each of the first `n` elements stands for a well-formed response,
/// none is refused as one.
proof fn lemma_responses_pass(responses: Seq<ResponseView>, items: Seq<Value>, n: int)
    requires
        0 <= n <= items.len(),
        items.len() == responses.len(),
        forall|i: int| 0 <= i < responses.len() ==> (#[trigger] responses[i]).well_formed(),
        forall|i: int|
            0 <= i < items.len() ==> encodes_response(responses[i], #[trigger] items[i]),
    ensures
        refused_element(items, n, response_fault()) is None,
    decreases n,
{
    if n > 0 {
        lemma_responses_pass(responses, items, n - 1);
        lemma_response_round_trip(responses[n - 1], items[n - 1]);
    }
}

/// A well-formed batch that is encoded and decoded again is the same batch.
pub proof fn lemma_batch_round_trip(batch: BatchView, v: Value)
    requires
        batch.well_formed(),
        encodes_batch(batch, v),
    ensures
        batch_of(v) == Ok::<BatchView, DecodeErrorView>(batch),
{
    let items = node_of(v)->Array_0;
    match batch {
        BatchView::Requests(requests) => {
            lemma_requests_pass(requests, items, items.len() as int);
            assert forall|i: int| 0 <= i < items.len() implies request_of(#[trigger] items[i])
                == Ok::<RequestView, DecodeErrorView>(requests[i]) by {
                lemma_request_round_trip(requests[i], items[i]);
            }
            assert(items.map_values(|v: Value| request_of(v)->Ok_0) =~= requests);
        },
        BatchView::Responses(responses) => {
            lemma_responses_pass(responses, items, items.len() as int);
            assert forall|i: int| 0 <= i < items.len() implies response_of(#[trigger] items[i])
                == Ok::<ResponseView, DecodeErrorView>(responses[i]) by {
                lemma_response_round_trip(responses[i], items[i]);
            }
            lemma_response_entries_round_trip(
                responses[0],
                map_entries(node_of(items[0])->Object_0),
            );
            assert(items.map_values(|v: Value| response_of(v)->Ok_0) =~= responses);
        },
    }
}

/// A well-formed document that is encoded and decoded again is the same
/// document.
pub proof fn lemma_document_round_trip(document: DocumentView, v: Value)
    requires
        document.well_formed(),
        encodes_document(document, v),
    ensures
        document_of(v) == Ok::<DocumentView, DecodeErrorView>(document),
{
    match document {
        DocumentView::Single(message) => {
            lemma_message_round_trip(message, v);
        },
        DocumentView::Batch(batch) => {
            lemma_batch_round_trip(batch, v);
        },
    }
}

} // verus!
