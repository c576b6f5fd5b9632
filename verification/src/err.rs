//! The protocol's error object: its code, its message and its auxiliary data.

use crate::json::{json_text, node_of, value_from_string, value_to_text, NodeView};
use crate::text::{decimal, decimal_text};
use serde_json::Value;
use vstd::prelude::*;
use vstd::std_specs::convert::{FromSpecImpl, TryFromSpecImpl};

verus! {

/// An error code of the protocol: one of the five reserved codes, or a code
/// of the range set aside for servers.
#[derive(Clone, Copy, Debug, PartialEq, Eq, Structural)]
pub enum ErrorCode {
    ParseError,
    InvalidRequest,
    MethodNotFound,
    InvalidParams,
    InternalError,
    ServerError(i64),
}

/// Auxiliary data of an error: any JSON value, carried and never read.
#[derive(Clone, Debug, PartialEq)]
pub struct ErrorData {
    pub value: Value,
}

/// The protocol's error object.
#[derive(Clone, Debug, PartialEq)]
pub struct Error {
    pub code: ErrorCode,
    pub message: String,
    pub data: Option<ErrorData>,
}

/// An `Error` in contracts.
pub struct ErrorView {
    pub code: ErrorCode,
    pub message: Seq<char>,
    pub data: Option<Value>,
}

/// The lowest code that a server may define.
pub const SERVER_ERROR_MIN: i64 = -32099;

/// The highest code that a server may define.
pub const SERVER_ERROR_MAX: i64 = -32000;

impl ErrorCode {
    /// The integer that stands for the code on the wire.
    pub open spec fn number(self) -> int {
        match self {
            ErrorCode::ParseError => -32700,
            ErrorCode::InvalidRequest => -32600,
            ErrorCode::MethodNotFound => -32601,
            ErrorCode::InvalidParams => -32602,
            ErrorCode::InternalError => -32603,
            ErrorCode::ServerError(code) => code as int,
        }
    }

    /// Whether an integer is an error code: one of the five reserved codes or
    /// within the servers' range.
    pub open spec fn valid(code: int) -> bool {
        code == -32700 || code == -32600 || code == -32601 || code == -32602 || code == -32603 || (
        SERVER_ERROR_MIN <= code <= SERVER_ERROR_MAX)
    }

    /// The code that a valid integer stands for.
    pub open spec fn of(code: i64) -> ErrorCode {
        if code == -32700 {
            ErrorCode::ParseError
        } else if code == -32600 {
            ErrorCode::InvalidRequest
        } else if code == -32601 {
            ErrorCode::MethodNotFound
        } else if code == -32602 {
            ErrorCode::InvalidParams
        } else if code == -32603 {
            ErrorCode::InternalError
        } else {
            ErrorCode::ServerError(code)
        }
    }

    /// A server's code lies within the servers' range. A code that `create`
    /// made is well formed; the variant `ServerError` can be written with any
    /// integer.
    pub open spec fn well_formed(self) -> bool {
        self matches ErrorCode::ServerError(code) ==> SERVER_ERROR_MIN <= code <= SERVER_ERROR_MAX
    }

    /// What `create` says of an integer that is no error code.
    pub open spec fn refusal() -> Seq<char> {
        "invalid error code: must be predefined or in range -32099 to -32000"@
    }

    /// The code that an integer stands for. An integer that stands for none is
    /// answered with an error object of its own: an invalid request whose data
    /// says why.
    pub fn create(code: i64) -> (r: Result<ErrorCode, Error>)
        ensures
            r is Ok <==> ErrorCode::valid(code as int),
            r matches Ok(c) ==> c == ErrorCode::of(code) && c.well_formed() && c.number() == code,
            r matches Err(e) ==> e@.code == ErrorCode::InvalidRequest && e@.message
                == Error::default_message(ErrorCode::InvalidRequest) && (e@.data matches Some(v)
                && node_of(v) == NodeView::Text(ErrorCode::refusal())),
    {
        if code == -32700 {
            Ok(ErrorCode::ParseError)
        } else if code == -32600 {
            Ok(ErrorCode::InvalidRequest)
        } else if code == -32601 {
            Ok(ErrorCode::MethodNotFound)
        } else if code == -32602 {
            Ok(ErrorCode::InvalidParams)
        } else if code == -32603 {
            Ok(ErrorCode::InternalError)
        } else if SERVER_ERROR_MIN <= code && code <= SERVER_ERROR_MAX {
            Ok(ErrorCode::ServerError(code))
        } else {
            let why = "invalid error code: must be predefined or in range -32099 to -32000";
            let data = ErrorData::new(value_from_string(why.to_owned()));
            Err(Error::new_default(ErrorCode::InvalidRequest).with_data(data))
        }
    }

    /// The integer that stands for the code on the wire.
    pub fn as_i64(&self) -> (code: i64)
        ensures
            code == self.number(),
    {
        match self {
            ErrorCode::ParseError => -32700,
            ErrorCode::InvalidRequest => -32600,
            ErrorCode::MethodNotFound => -32601,
            ErrorCode::InvalidParams => -32602,
            ErrorCode::InternalError => -32603,
            ErrorCode::ServerError(code) => *code,
        }
    }

    /// The code as a decimal numeral.
    pub fn to_text(&self) -> (s: String)
        ensures
            s@ == decimal(self.number()),
    {
        decimal_text(self.as_i64() as i128)
    }
}

impl From<ErrorCode> for i64 {
    fn from(value: ErrorCode) -> (code: i64) {
        value.as_i64()
    }
}

impl FromSpecImpl<ErrorCode> for i64 {
    open spec fn obeys_from_spec() -> bool {
        true
    }

    open spec fn from_spec(value: ErrorCode) -> i64 {
        value.number() as i64
    }
}

impl TryFrom<i64> for ErrorCode {
    type Error = Error;

    /// The same as `create`.
    fn try_from(value: i64) -> (r: Result<ErrorCode, Error>)
        ensures
            r is Ok <==> ErrorCode::valid(value as int),
            r matches Ok(c) ==> c == ErrorCode::of(value) && c.well_formed(),
            r matches Err(e) ==> e@.code == ErrorCode::InvalidRequest,
    {
        ErrorCode::create(value)
    }
}

/// The refusal holds a value made at run time, so no spec function can name
/// it: what `try_from` returns is stated on `try_from` itself.
impl TryFromSpecImpl<i64> for ErrorCode {
    open spec fn obeys_try_from_spec() -> bool {
        false
    }

    open spec fn try_from_spec(value: i64) -> Result<ErrorCode, Error> {
        arbitrary()
    }
}

impl ErrorData {
    /// Wraps a JSON value as it is.
    pub fn new(value: Value) -> (data: ErrorData)
        ensures
            data.value == value,
    {
        ErrorData { value }
    }

    /// The data as compact JSON text.
    pub fn to_text(&self) -> (s: String)
        ensures
            s@ == json_text(self.value),
    {
        value_to_text(&self.value)
    }
}

impl View for Error {
    type V = ErrorView;

    open spec fn view(&self) -> ErrorView {
        ErrorView {
            code: self.code,
            message: self.message@,
            data: match self.data {
                Some(data) => Some(data.value),
                None => None,
            },
        }
    }
}

impl ErrorView {
    /// The error in words: code, message and, where there is any, the data.
    pub open spec fn text(self) -> Seq<char> {
        let head = "JSON-RPC Error (code "@ + decimal(self.code.number()) + "): "@ + self.message;
        match self.data {
            Some(value) => head + ". Data: `"@ + json_text(value) + "`"@,
            None => head,
        }
    }
}

impl Error {
    /// The message that stands for a code where none is given.
    pub open spec fn default_message(code: ErrorCode) -> Seq<char> {
        match code {
            ErrorCode::ParseError => "Parse error"@,
            ErrorCode::InvalidRequest => "Invalid Request"@,
            ErrorCode::MethodNotFound => "Method not found"@,
            ErrorCode::InvalidParams => "Invalid params"@,
            ErrorCode::InternalError => "Internal error"@,
            ErrorCode::ServerError(_) => "Server error"@,
        }
    }

    /// An error with the given message and no data.
    pub fn new(code: ErrorCode, message: String) -> (e: Error)
        ensures
            e@ == (ErrorView { code, message: message@, data: None }),
    {
        Error { code, message, data: None }
    }

    /// An error with the message that stands for its code, and no data.
    pub fn new_default(code: ErrorCode) -> (e: Error)
        ensures
            e@ == (ErrorView { code, message: Error::default_message(code), data: None }),
    {
        let message = match code {
            ErrorCode::ParseError => "Parse error",
            ErrorCode::InvalidRequest => "Invalid Request",
            ErrorCode::MethodNotFound => "Method not found",
            ErrorCode::InvalidParams => "Invalid params",
            ErrorCode::InternalError => "Internal error",
            ErrorCode::ServerError(_) => "Server error",
        };
        Error { code, message: message.to_owned(), data: None }
    }

    /// The same error with this data in place of any it had.
    pub fn with_data(self, data: ErrorData) -> (e: Error)
        ensures
            e@ == (ErrorView { data: Some(data.value), ..self@ }),
    {
        Error { code: self.code, message: self.message, data: Some(data) }
    }

    /// The error's code.
    pub fn code(&self) -> (code: &ErrorCode)
        ensures
            *code == self.code,
    {
        &self.code
    }

    /// The error's message.
    pub fn message(&self) -> (message: &str)
        ensures
            message@ == self.message@,
    {
        self.message.as_str()
    }

    /// The error's data, if it has any.
    pub fn data(&self) -> (data: Option<&ErrorData>)
        ensures
            data is Some <==> self.data is Some,
            data matches Some(d) ==> Some(*d) == self.data,
    {
        self.data.as_ref()
    }

    /// The error in words: code, message and, where there is any, the data.
    pub fn to_text(&self) -> (s: String)
        ensures
            s@ == self@.text(),
    {
        let mut s = String::new();
        s.append("JSON-RPC Error (code ");
        let code = self.code.to_text();
        s.append(code.as_str());
        s.append("): ");
        s.append(self.message.as_str());
        match &self.data {
            Some(data) => {
                s.append(". Data: `");
                let text = data.to_text();
                s.append(text.as_str());
                s.append("`");
            },
            None => {},
        }
        s
    }
}

impl<T> From<Error> for Result<T, Error> {
    fn from(value: Error) -> (r: Result<T, Error>) {
        Err(value)
    }
}

impl<T> FromSpecImpl<Error> for Result<T, Error> {
    open spec fn obeys_from_spec() -> bool {
        true
    }

    open spec fn from_spec(value: Error) -> Result<T, Error> {
        Err(value)
    }
}

} // verus!
