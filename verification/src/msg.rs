//! The message model: identifiers, parameters, the three message shapes, and
//! the envelopes that hold them.

use crate::err::{Error, ErrorData, ErrorView};
use crate::text::{decimal, decimal_text};
use serde_json::Value;
use vstd::prelude::*;
use vstd::std_specs::cmp::PartialEqSpecImpl;
use vstd::std_specs::convert::FromSpecImpl;

verus! {

/// The identifier that ties a response to its request: null, a string, or an
/// integer.
///
/// The integer is a signed 64-bit one. Negative identifiers are accepted; an
/// integer above `i64::MAX` is refused when decoded, never truncated. Peers
/// that send identifiers in the upper half of the unsigned 64-bit range cannot
/// be answered.
#[derive(Clone, Debug)]
pub enum Id {
    Null,
    I64(i64),
    Str(String),
}

/// An `Id` in contracts.
pub enum IdView {
    Null,
    I64(i64),
    Str(Seq<char>),
}

/// The arguments of a call: by position or by name.
#[derive(Clone, Debug, PartialEq)]
pub enum Parameters {
    Array(Vec<Value>),
    Object(serde_json::Map<String, Value>),
}

/// A `Parameters` in contracts.
pub enum ParametersView {
    Array(Seq<Value>),
    Object(serde_json::Map<String, Value>),
}

/// A call that expects no reply.
#[derive(Clone, Debug, PartialEq)]
pub struct Notification {
    pub method: String,
    pub params: Option<Parameters>,
}

/// A `Notification` in contracts.
pub struct NotificationView {
    pub method: Seq<char>,
    pub params: Option<ParametersView>,
}

/// A call that expects one reply, under the same identifier.
#[derive(Clone, Debug, PartialEq)]
pub struct Request {
    pub id: Id,
    pub method: String,
    pub params: Option<Parameters>,
}

/// A `Request` in contracts.
pub struct RequestView {
    pub id: IdView,
    pub method: Seq<char>,
    pub params: Option<ParametersView>,
}

/// The reply to a request: a result or an error, never both.
///
/// A success answers a request, so it carries that request's identifier. An
/// error may carry the null identifier, for a failure that came before the
/// request's identifier could be read.
#[derive(Debug, PartialEq)]
pub struct Response {
    pub id: Id,
    pub result: Result<Value, Error>,
}

/// A `Response` in contracts.
pub struct ResponseView {
    pub id: IdView,
    pub result: Result<Value, ErrorView>,
}

/// Any one message.
#[derive(Clone, Debug, PartialEq)]
pub enum Message {
    Notification(Notification),
    Request(Request),
    Response(Response),
}

/// A `Message` in contracts.
pub enum MessageView {
    Notification(NotificationView),
    Request(RequestView),
    Response(ResponseView),
}

/// Several messages sent as one array: all of them requests, or all of them
/// responses.
#[derive(Clone, Debug, PartialEq)]
pub enum Batch {
    Requests(Vec<Request>),
    Responses(Vec<Response>),
}

/// A `Batch` in contracts.
pub enum BatchView {
    Requests(Seq<RequestView>),
    Responses(Seq<ResponseView>),
}

/// A whole document: one message or one batch.
#[derive(Clone, Debug, PartialEq)]
pub enum Document {
    Single(Message),
    Batch(Batch),
}

/// A `Document` in contracts.
pub enum DocumentView {
    Single(MessageView),
    Batch(BatchView),
}

impl View for Id {
    type V = IdView;

    open spec fn view(&self) -> IdView {
        match *self {
            Id::Null => IdView::Null,
            Id::I64(id) => IdView::I64(id),
            Id::Str(id) => IdView::Str(id@),
        }
    }
}

impl View for Parameters {
    type V = ParametersView;

    open spec fn view(&self) -> ParametersView {
        match *self {
            Parameters::Array(array) => ParametersView::Array(array@),
            Parameters::Object(object) => ParametersView::Object(object),
        }
    }
}

/// Optional parameters in contracts.
pub open spec fn params_view(params: Option<Parameters>) -> Option<ParametersView> {
    match params {
        Some(p) => Some(p@),
        None => None,
    }
}

impl View for Notification {
    type V = NotificationView;

    open spec fn view(&self) -> NotificationView {
        NotificationView { method: self.method@, params: params_view(self.params) }
    }
}

impl View for Request {
    type V = RequestView;

    open spec fn view(&self) -> RequestView {
        RequestView { id: self.id@, method: self.method@, params: params_view(self.params) }
    }
}

impl View for Response {
    type V = ResponseView;

    open spec fn view(&self) -> ResponseView {
        ResponseView {
            id: self.id@,
            result: match self.result {
                Ok(value) => Ok(value),
                Err(error) => Err(error@),
            },
        }
    }
}

impl View for Message {
    type V = MessageView;

    open spec fn view(&self) -> MessageView {
        match *self {
            Message::Notification(notification) => MessageView::Notification(notification@),
            Message::Request(request) => MessageView::Request(request@),
            Message::Response(response) => MessageView::Response(response@),
        }
    }
}

impl View for Batch {
    type V = BatchView;

    open spec fn view(&self) -> BatchView {
        match *self {
            Batch::Requests(requests) => BatchView::Requests(
                requests@.map_values(|r: Request| r@),
            ),
            Batch::Responses(responses) => BatchView::Responses(
                responses@.map_values(|r: Response| r@),
            ),
        }
    }
}

impl View for Document {
    type V = DocumentView;

    open spec fn view(&self) -> DocumentView {
        match *self {
            Document::Single(message) => DocumentView::Single(message@),
            Document::Batch(batch) => DocumentView::Batch(batch@),
        }
    }
}

impl Default for Id {
    /// The null identifier.
    fn default() -> (id: Id)
        ensures
            id@ == IdView::Null,
    {
        Id::Null
    }
}

impl PartialEq for Id {
    /// Two identifiers are equal when they are of the same variant and hold
    /// the same integer or the same text.
    fn eq(&self, other: &Id) -> (b: bool) {
        match (self, other) {
            (Id::Null, Id::Null) => true,
            (Id::I64(a), Id::I64(b)) => *a == *b,
            (Id::Str(a), Id::Str(b)) => *a == *b,
            _ => false,
        }
    }
}

impl PartialEqSpecImpl for Id {
    open spec fn obeys_eq_spec() -> bool {
        true
    }

    open spec fn eq_spec(&self, other: &Id) -> bool {
        self@ == other@
    }
}

impl From<i64> for Id {
    fn from(value: i64) -> (id: Id) {
        Id::I64(value)
    }
}

impl FromSpecImpl<i64> for Id {
    open spec fn obeys_from_spec() -> bool {
        true
    }

    open spec fn from_spec(value: i64) -> Id {
        Id::I64(value)
    }
}

impl From<String> for Id {
    fn from(value: String) -> (id: Id) {
        Id::Str(value)
    }
}

impl FromSpecImpl<String> for Id {
    open spec fn obeys_from_spec() -> bool {
        true
    }

    open spec fn from_spec(value: String) -> Id {
        Id::Str(value)
    }
}

impl From<&str> for Id {
    fn from(value: &str) -> (id: Id)
        ensures
            id@ == IdView::Str(value@),
    {
        Id::Str(value.to_owned())
    }
}

/// The string is made at run time, so no spec function can name the
/// identifier: what `from` returns is stated on `from` itself.
impl FromSpecImpl<&str> for Id {
    open spec fn obeys_from_spec() -> bool {
        false
    }

    open spec fn from_spec(value: &str) -> Id {
        arbitrary()
    }
}

impl IdView {
    /// The identifier as text: `null`, the decimal numeral, or the string.
    pub open spec fn text(self) -> Seq<char> {
        match self {
            IdView::Null => "null"@,
            IdView::I64(id) => decimal(id as int),
            IdView::Str(id) => id,
        }
    }
}

impl Id {
    /// Whether this is the null identifier.
    pub fn is_null(&self) -> (b: bool)
        ensures
            b == (self@ is Null),
    {
        matches!(self, Id::Null)
    }

    /// Whether this is an integer.
    pub fn is_i64(&self) -> (b: bool)
        ensures
            b == (self@ is I64),
    {
        matches!(self, Id::I64(_))
    }

    /// Whether this is a string.
    pub fn is_str(&self) -> (b: bool)
        ensures
            b == (self@ is Str),
    {
        matches!(self, Id::Str(_))
    }

    /// The integer, if this is one.
    pub fn as_i64(&self) -> (id: Option<i64>)
        ensures
            match id {
                Some(i) => self@ == IdView::I64(i),
                None => !(self@ is I64),
            },
    {
        match self {
            Id::I64(id) => Some(*id),
            _ => None,
        }
    }

    /// The string, if this is one.
    pub fn as_str(&self) -> (id: Option<&str>)
        ensures
            match id {
                Some(s) => self@ == IdView::Str(s@),
                None => !(self@ is Str),
            },
    {
        match self {
            Id::Str(id) => Some(id.as_str()),
            _ => None,
        }
    }

    /// The identifier as text: `null`, the decimal numeral, or the string.
    pub fn to_text(&self) -> (s: String)
        ensures
            s@ == self@.text(),
    {
        match self {
            Id::Null => "null".to_owned(),
            Id::I64(id) => decimal_text(*id as i128),
            Id::Str(id) => id.clone(),
        }
    }
}

impl From<Vec<Value>> for Parameters {
    fn from(value: Vec<Value>) -> (params: Parameters) {
        Parameters::Array(value)
    }
}

impl FromSpecImpl<Vec<Value>> for Parameters {
    open spec fn obeys_from_spec() -> bool {
        true
    }

    open spec fn from_spec(value: Vec<Value>) -> Parameters {
        Parameters::Array(value)
    }
}

impl From<serde_json::Map<String, Value>> for Parameters {
    fn from(value: serde_json::Map<String, Value>) -> (params: Parameters) {
        Parameters::Object(value)
    }
}

impl FromSpecImpl<serde_json::Map<String, Value>> for Parameters {
    open spec fn obeys_from_spec() -> bool {
        true
    }

    open spec fn from_spec(value: serde_json::Map<String, Value>) -> Parameters {
        Parameters::Object(value)
    }
}

impl Parameters {
    /// Whether the arguments come by position.
    pub fn is_array(&self) -> (b: bool)
        ensures
            b == (self@ is Array),
    {
        matches!(self, Parameters::Array(_))
    }

    /// Whether the arguments come by name.
    pub fn is_object(&self) -> (b: bool)
        ensures
            b == (self@ is Object),
    {
        matches!(self, Parameters::Object(_))
    }

    /// The arguments by position, if they come so.
    pub fn as_array(&self) -> (array: Option<&[Value]>)
        ensures
            match array {
                Some(a) => self@ == ParametersView::Array(a@),
                None => !(self@ is Array),
            },
    {
        match self {
            Parameters::Array(array) => Some(array.as_slice()),
            _ => None,
        }
    }

    /// The arguments by name, if they come so.
    pub fn as_object(&self) -> (object: Option<&serde_json::Map<String, Value>>)
        ensures
            match object {
                Some(o) => self@ == ParametersView::Object(*o),
                None => !(self@ is Object),
            },
    {
        match self {
            Parameters::Object(object) => Some(object),
            _ => None,
        }
    }
}

impl Notification {
    /// A notification of the method, with the arguments if there are any.
    pub fn new(method: String, params: Option<Parameters>) -> (notification: Notification)
        ensures
            notification@ == (NotificationView { method: method@, params: params_view(params) }),
    {
        Notification { method, params }
    }
}

impl Request {
    /// A request under the identifier, of the method, with the arguments if
    /// there are any.
    pub fn new(id: Id, method: String, params: Option<Parameters>) -> (request: Request)
        ensures
            request@ == (RequestView { id: id@, method: method@, params: params_view(params) }),
    {
        Request { id, method, params }
    }
}

impl Clone for Response {
    fn clone(&self) -> (response: Response)
        ensures
            response@ == self@,
    {
        let id = match &self.id {
            Id::Null => Id::Null,
            Id::I64(id) => Id::I64(*id),
            Id::Str(id) => Id::Str(id.clone()),
        };
        let result = match &self.result {
            Ok(value) => Ok(value.clone()),
            Err(error) => Err(
                Error {
                    code: error.code,
                    message: error.message.clone(),
                    data: match &error.data {
                        Some(data) => Some(ErrorData { value: data.value.clone() }),
                        None => None,
                    },
                },
            ),
        };
        Response { id, result }
    }
}

impl ResponseView {
    /// A success carries an identifier that is not null, and an error carries
    /// a code that is one.
    pub open spec fn well_formed(self) -> bool {
        match self.result {
            Ok(_) => !(self.id is Null),
            Err(error) => error.code.well_formed(),
        }
    }
}

impl MessageView {
    /// Requests and notifications are always well formed; a response is if it
    /// is so as a response.
    pub open spec fn well_formed(self) -> bool {
        self matches MessageView::Response(response) ==> response.well_formed()
    }
}

impl BatchView {
    /// A batch holds at least one message, and each response in it is well
    /// formed.
    pub open spec fn well_formed(self) -> bool {
        match self {
            BatchView::Requests(requests) => requests.len() > 0,
            BatchView::Responses(responses) => responses.len() > 0 && forall|i: int|
                0 <= i < responses.len() ==> (#[trigger] responses[i]).well_formed(),
        }
    }
}

impl DocumentView {
    /// A document is well formed if what it holds is.
    pub open spec fn well_formed(self) -> bool {
        match self {
            DocumentView::Single(message) => message.well_formed(),
            DocumentView::Batch(batch) => batch.well_formed(),
        }
    }
}

impl Response {
    /// A response under the identifier, with the outcome given.
    pub fn new(id: Id, result: Result<Value, Error>) -> (response: Response)
        ensures
            response.id == id,
            response.result == result,
    {
        Response { id, result }
    }

    /// A success under the identifier, which is not to be null.
    pub fn new_success(id: Id, result: Value) -> (response: Response)
        ensures
            response@ == (ResponseView { id: id@, result: Ok(result) }),
    {
        Response::new(id, Ok(result))
    }

    /// A failure under the identifier, which may be null.
    pub fn new_error(id: Id, error: Error) -> (response: Response)
        ensures
            response@ == (ResponseView { id: id@, result: Err(error@) }),
    {
        Response::new(id, Err(error))
    }

    /// Whether the response carries a result.
    pub fn is_success(&self) -> (b: bool)
        ensures
            b == (self@.result is Ok),
    {
        self.result.is_ok()
    }

    /// Whether the response carries an error.
    pub fn is_error(&self) -> (b: bool)
        ensures
            b == (self@.result is Err),
    {
        self.result.is_err()
    }

    /// The result, if the response carries one.
    pub fn as_success(&self) -> (value: Option<&Value>)
        ensures
            match value {
                Some(v) => self@.result == Ok::<Value, ErrorView>(*v),
                None => self@.result is Err,
            },
    {
        match &self.result {
            Ok(value) => Some(value),
            Err(_) => None,
        }
    }

    /// The error, if the response carries one.
    pub fn as_error(&self) -> (error: Option<&Error>)
        ensures
            match error {
                Some(e) => self@.result == Err::<Value, ErrorView>(e@),
                None => self@.result is Ok,
            },
    {
        match &self.result {
            Ok(_) => None,
            Err(error) => Some(error),
        }
    }

    /// The identifier, unless it is null.
    pub fn id(&self) -> (id: Option<&Id>)
        ensures
            match id {
                Some(i) => *i == self.id && !(self@.id is Null),
                None => self@.id is Null,
            },
    {
        match &self.id {
            Id::Null => None,
            id => Some(id),
        }
    }

    /// The outcome: the result or the error.
    pub fn result(&self) -> (outcome: Result<&Value, &Error>)
        ensures
            match outcome {
                Ok(v) => self.result == Ok::<Value, Error>(*v),
                Err(e) => self.result == Err::<Value, Error>(*e),
            },
    {
        match &self.result {
            Ok(value) => Ok(value),
            Err(error) => Err(error),
        }
    }
}

impl From<Notification> for Message {
    fn from(value: Notification) -> (message: Message) {
        Message::Notification(value)
    }
}

impl FromSpecImpl<Notification> for Message {
    open spec fn obeys_from_spec() -> bool {
        true
    }

    open spec fn from_spec(value: Notification) -> Message {
        Message::Notification(value)
    }
}

impl From<Request> for Message {
    fn from(value: Request) -> (message: Message) {
        Message::Request(value)
    }
}

impl FromSpecImpl<Request> for Message {
    open spec fn obeys_from_spec() -> bool {
        true
    }

    open spec fn from_spec(value: Request) -> Message {
        Message::Request(value)
    }
}

impl From<Response> for Message {
    fn from(value: Response) -> (message: Message) {
        Message::Response(value)
    }
}

impl FromSpecImpl<Response> for Message {
    open spec fn obeys_from_spec() -> bool {
        true
    }

    open spec fn from_spec(value: Response) -> Message {
        Message::Response(value)
    }
}

impl Message {
    /// Whether the message is a notification.
    pub fn is_notification(&self) -> (b: bool)
        ensures
            b == (self@ is Notification),
    {
        matches!(self, Message::Notification(_))
    }

    /// Whether the message is a request.
    pub fn is_request(&self) -> (b: bool)
        ensures
            b == (self@ is Request),
    {
        matches!(self, Message::Request(_))
    }

    /// Whether the message is a response.
    pub fn is_response(&self) -> (b: bool)
        ensures
            b == (self@ is Response),
    {
        matches!(self, Message::Response(_))
    }

    /// The notification, if the message is one.
    pub fn as_notification(&self) -> (notification: Option<&Notification>)
        ensures
            match notification {
                Some(n) => *self == Message::Notification(*n),
                None => !(self@ is Notification),
            },
    {
        match self {
            Message::Notification(notification) => Some(notification),
            _ => None,
        }
    }

    /// The request, if the message is one.
    pub fn as_request(&self) -> (request: Option<&Request>)
        ensures
            match request {
                Some(r) => *self == Message::Request(*r),
                None => !(self@ is Request),
            },
    {
        match self {
            Message::Request(request) => Some(request),
            _ => None,
        }
    }

    /// The response, if the message is one.
    pub fn as_response(&self) -> (response: Option<&Response>)
        ensures
            match response {
                Some(r) => *self == Message::Response(*r),
                None => !(self@ is Response),
            },
    {
        match self {
            Message::Response(response) => Some(response),
            _ => None,
        }
    }
}

impl Batch {
    /// How many messages the batch holds.
    pub open spec fn spec_len(self) -> nat {
        match self {
            Batch::Requests(requests) => requests.len() as nat,
            Batch::Responses(responses) => responses.len() as nat,
        }
    }

    /// How many messages the batch holds.
    pub fn len(&self) -> (n: usize)
        ensures
            n == self.spec_len(),
    {
        match self {
            Batch::Requests(requests) => requests.len(),
            Batch::Responses(responses) => responses.len(),
        }
    }
}

} // verus!
