//! Why a document was refused: the taxonomy of decoding errors and the text
//! of each.

use crate::err::{Error, ErrorCode, ErrorData};
use crate::json::{
    node_of, number_as_i128, number_int, number_text, number_to_text, peek, value_from_string, Node,
    NodeView,
};
use crate::schema::{Field, Schema};
use crate::text::{decimal, decimal_text};
use serde_json::Value;
use vstd::prelude::*;

verus! {

/// What a decoder met where it wanted something else.
#[derive(Clone, Debug, PartialEq)]
pub enum Found {
    Null,
    Bool(bool),
    Integer(i128),
    /// A floating-point number, as the JSON library prints it.
    Float(String),
    Text(String),
    Array,
    Object,
}

/// A `Found` in contracts.
pub enum FoundView {
    Null,
    Bool(bool),
    Integer(i128),
    Float(Seq<char>),
    Text(Seq<char>),
    Array,
    Object,
}

/// What a decoder wanted.
#[derive(Clone, Copy, Debug, PartialEq, Eq, Structural)]
pub enum Expected {
    Text,
    Integer,
    Id,
    Parameters,
    Object(Schema),
    Batch,
    Document,
}

/// Why a document was refused.
#[derive(Debug, PartialEq)]
pub enum DecodeError {
    /// A required field never appeared.
    MissingField(Field),
    /// A field name that the object shape does not admit.
    UnknownField(String, Schema),
    /// A field that appeared a second time.
    DuplicateField(Field),
    /// A value of the wrong JSON shape.
    TypeMismatch(Found, Expected),
    /// `jsonrpc` is absent (`None`) or is not the accepted version.
    VersionMismatch(Option<String>),
    /// An integer that is no error code.
    InvalidErrorCode,
    /// An integer identifier beyond the signed 64-bit range.
    IdOverflow,
    /// `result` and `error` both present.
    AmbiguousPayload,
    /// Neither `result` nor `error` present.
    MissingPayload,
    /// A `result` without an identifier to answer to.
    MissingId,
    /// The value of a field was refused, for the reason given.
    InField(Field, Box<DecodeError>),
    /// An object that is no request, no notification and no response, with the
    /// reason of each refusal in that order.
    UnclassifiableMessage(Box<DecodeError>, Box<DecodeError>, Box<DecodeError>),
    /// A batch without elements.
    EmptyBatch,
    /// A batch whose first element is neither a request nor a response, with
    /// the reason of each refusal in that order.
    UnclassifiableBatch(Box<DecodeError>, Box<DecodeError>),
    /// An element of a batch was refused as the kind that the batch began with.
    InElement(usize, Box<DecodeError>),
}

/// A `DecodeError` in contracts.
pub enum DecodeErrorView {
    MissingField(Field),
    UnknownField(Seq<char>, Schema),
    DuplicateField(Field),
    TypeMismatch(FoundView, Expected),
    VersionMismatch(Option<Seq<char>>),
    InvalidErrorCode,
    IdOverflow,
    AmbiguousPayload,
    MissingPayload,
    MissingId,
    InField(Field, Box<DecodeErrorView>),
    UnclassifiableMessage(Box<DecodeErrorView>, Box<DecodeErrorView>, Box<DecodeErrorView>),
    EmptyBatch,
    UnclassifiableBatch(Box<DecodeErrorView>, Box<DecodeErrorView>),
    InElement(usize, Box<DecodeErrorView>),
}

impl View for Found {
    type V = FoundView;

    open spec fn view(&self) -> FoundView {
        match *self {
            Found::Null => FoundView::Null,
            Found::Bool(b) => FoundView::Bool(b),
            Found::Integer(i) => FoundView::Integer(i),
            Found::Float(s) => FoundView::Float(s@),
            Found::Text(s) => FoundView::Text(s@),
            Found::Array => FoundView::Array,
            Found::Object => FoundView::Object,
        }
    }
}

impl View for DecodeError {
    type V = DecodeErrorView;

    open spec fn view(&self) -> DecodeErrorView
        decreases self,
    {
        match self {
            DecodeError::MissingField(f) => DecodeErrorView::MissingField(*f),
            DecodeError::UnknownField(name, schema) => DecodeErrorView::UnknownField(
                name@,
                *schema,
            ),
            DecodeError::DuplicateField(f) => DecodeErrorView::DuplicateField(*f),
            DecodeError::TypeMismatch(found, expected) => DecodeErrorView::TypeMismatch(
                found@,
                *expected,
            ),
            DecodeError::VersionMismatch(found) => DecodeErrorView::VersionMismatch(
                match found {
                    Some(s) => Some(s@),
                    None => None,
                },
            ),
            DecodeError::InvalidErrorCode => DecodeErrorView::InvalidErrorCode,
            DecodeError::IdOverflow => DecodeErrorView::IdOverflow,
            DecodeError::AmbiguousPayload => DecodeErrorView::AmbiguousPayload,
            DecodeError::MissingPayload => DecodeErrorView::MissingPayload,
            DecodeError::MissingId => DecodeErrorView::MissingId,
            DecodeError::InField(f, e) => DecodeErrorView::InField(*f, Box::new((**e).view())),
            DecodeError::UnclassifiableMessage(a, b, c) => DecodeErrorView::UnclassifiableMessage(
                Box::new((**a).view()),
                Box::new((**b).view()),
                Box::new((**c).view()),
            ),
            DecodeError::EmptyBatch => DecodeErrorView::EmptyBatch,
            DecodeError::UnclassifiableBatch(a, b) => DecodeErrorView::UnclassifiableBatch(
                Box::new((**a).view()),
                Box::new((**b).view()),
            ),
            DecodeError::InElement(i, e) => DecodeErrorView::InElement(
                *i,
                Box::new((**e).view()),
            ),
        }
    }
}

/// What a value shows to a decoder that wanted something else.
pub open spec fn found_of(v: Value) -> FoundView {
    match node_of(v) {
        NodeView::Null => FoundView::Null,
        NodeView::Bool(b) => FoundView::Bool(b),
        NodeView::Number(n) => match number_int(n) {
            Some(i) => FoundView::Integer(i),
            None => FoundView::Float(number_text(n)),
        },
        NodeView::Text(s) => FoundView::Text(s),
        NodeView::Array(_) => FoundView::Array,
        NodeView::Object(_) => FoundView::Object,
    }
}

impl Found {
    /// Describes a value for a decoder that wanted something else.
    pub fn describe(v: &Value) -> (found: Found)
        ensures
            found@ == found_of(*v),
    {
        match peek(v) {
            Node::Null => Found::Null,
            Node::Bool(b) => Found::Bool(b),
            Node::Number(n) => match number_as_i128(n) {
                Some(i) => Found::Integer(i),
                None => Found::Float(number_to_text(n)),
            },
            Node::Text(s) => Found::Text(s.clone()),
            Node::Array(_) => Found::Array,
            Node::Object(_) => Found::Object,
        }
    }
}

impl FoundView {
    /// The words for what was found.
    pub open spec fn text(self) -> Seq<char> {
        match self {
            FoundView::Null => "null"@,
            FoundView::Bool(b) => if b {
                "boolean `true`"@
            } else {
                "boolean `false`"@
            },
            FoundView::Integer(i) => "integer `"@ + decimal(i as int) + "`"@,
            FoundView::Float(s) => "floating point `"@ + s + "`"@,
            FoundView::Text(s) => "string \""@ + s + "\""@,
            FoundView::Array => "sequence"@,
            FoundView::Object => "map"@,
        }
    }
}

impl Expected {
    /// The words for what was wanted.
    pub open spec fn text(self) -> Seq<char> {
        match self {
            Expected::Text => "a string"@,
            Expected::Integer => "i64"@,
            Expected::Id => "a string or a 64-bit signed integer, or null"@,
            Expected::Parameters => "`DSL: []|{}`"@,
            Expected::Object(schema) => "`DSL: "@ + schema.grammar() + "`"@,
            Expected::Batch => "an array of requests or an array of responses"@,
            Expected::Document => "a message object or a batch array"@,
        }
    }
}

/// The field names of a table, each between backticks, with commas between.
pub open spec fn name_list(fields: Seq<Field>) -> Seq<char>
    decreases fields.len(),
{
    if fields.len() == 0 {
        Seq::<char>::empty()
    } else if fields.len() == 1 {
        "`"@ + fields[0].name() + "`"@
    } else {
        name_list(fields.drop_last()) + ", `"@ + fields.last().name() + "`"@
    }
}

impl DecodeErrorView {
    /// The message of an error.
    pub open spec fn text(self) -> Seq<char>
        decreases self,
    {
        match self {
            DecodeErrorView::MissingField(f) => "missing field `"@ + f.name() + "`"@,
            DecodeErrorView::UnknownField(name, schema) => "unknown field `"@ + name
                + "`, expected one of "@ + name_list(schema.fields()),
            DecodeErrorView::DuplicateField(f) => "duplicate field `"@ + f.name() + "`"@,
            DecodeErrorView::TypeMismatch(found, expected) => "invalid type: "@ + found.text()
                + ", expected "@ + expected.text(),
            DecodeErrorView::VersionMismatch(None) =>
                "missing field `jsonrpc`: expected version \"2.0\""@,
            DecodeErrorView::VersionMismatch(Some(s)) =>
                "invalid value for field `jsonrpc`: expected version \"2.0\", got \""@ + s + "\""@,
            DecodeErrorView::InvalidErrorCode =>
                "invalid error code: must be predefined or in range -32099 to -32000"@,
            DecodeErrorView::IdOverflow => "number too large: expected a signed 64-bit integer "@,
            DecodeErrorView::AmbiguousPayload =>
                "`result` and `error` cannot both be present in the same response"@,
            DecodeErrorView::MissingPayload => "response must contain either `result` or `error`"@,
            DecodeErrorView::MissingId =>
                "`id` is required in a successful response with `result`"@,
            DecodeErrorView::InField(f, e) => "field `"@ + f.name() + "` contains an "@
                + e.text(),
            DecodeErrorView::UnclassifiableMessage(a, b, c) =>
                "neither request nor response; as a request: "@ + a.text()
                    + "; as a notification: "@ + b.text() + "; as a response: "@ + c.text(),
            DecodeErrorView::EmptyBatch => "a batch must hold at least one message"@,
            DecodeErrorView::UnclassifiableBatch(a, b) =>
                "neither a batch of requests nor a batch of responses; as a request: "@
                    + a.text() + "; as a response: "@ + b.text(),
            DecodeErrorView::InElement(i, e) => "element "@ + decimal(i as int) + ": "@
                + e.text(),
        }
    }
}

impl Found {
    fn write(&self, out: &mut String)
        ensures
            final(out)@ == old(out)@ + self@.text(),
    {
        match self {
            Found::Null => out.append("null"),
            Found::Bool(b) => if *b {
                out.append("boolean `true`")
            } else {
                out.append("boolean `false`")
            },
            Found::Integer(i) => {
                out.append("integer `");
                let digits = decimal_text(*i);
                out.append(digits.as_str());
                out.append("`");
            },
            Found::Float(s) => {
                out.append("floating point `");
                out.append(s.as_str());
                out.append("`");
            },
            Found::Text(s) => {
                out.append("string \"");
                out.append(s.as_str());
                out.append("\"");
            },
            Found::Array => out.append("sequence"),
            Found::Object => out.append("map"),
        }
    }
}

impl Expected {
    fn write(&self, out: &mut String)
        ensures
            final(out)@ == old(out)@ + self.text(),
    {
        match self {
            Expected::Text => out.append("a string"),
            Expected::Integer => out.append("i64"),
            Expected::Id => out.append("a string or a 64-bit signed integer, or null"),
            Expected::Parameters => out.append("`DSL: []|{}`"),
            Expected::Object(schema) => {
                out.append("`DSL: ");
                out.append(schema.grammar_str());
                out.append("`");
            },
            Expected::Batch => out.append("an array of requests or an array of responses"),
            Expected::Document => out.append("a message object or a batch array"),
        }
    }
}

fn write_name_list(schema: Schema, out: &mut String)
    ensures
        final(out)@ == old(out)@ + name_list(schema.fields()),
{
    let table = schema.field_table();
    let mut i: usize = 0;
    while i < table.len()
        invariant
            table@ == schema.fields(),
            i <= table.len(),
            out@ == old(out)@ + name_list(table@.take(i as int)),
        decreases table.len() - i,
    {
        if i == 0 {
            out.append("`");
        } else {
            out.append(", `");
        }
        out.append(table[i].as_str());
        out.append("`");
        proof {
            let next = table@.take(i + 1);
            assert(next.drop_last() =~= table@.take(i as int));
        }
        i += 1;
    }
    assert(table@.take(i as int) =~= table@);
}

impl DecodeError {
    fn write(&self, out: &mut String)
        ensures
            final(out)@ == old(out)@ + self@.text(),
        decreases self,
    {
        match self {
            DecodeError::MissingField(f) => {
                out.append("missing field `");
                out.append(f.as_str());
                out.append("`");
            },
            DecodeError::UnknownField(name, schema) => {
                out.append("unknown field `");
                out.append(name.as_str());
                out.append("`, expected one of ");
                write_name_list(*schema, out);
            },
            DecodeError::DuplicateField(f) => {
                out.append("duplicate field `");
                out.append(f.as_str());
                out.append("`");
            },
            DecodeError::TypeMismatch(found, expected) => {
                out.append("invalid type: ");
                found.write(out);
                out.append(", expected ");
                expected.write(out);
            },
            DecodeError::VersionMismatch(None) => {
                out.append("missing field `jsonrpc`: expected version \"2.0\"");
            },
            DecodeError::VersionMismatch(Some(s)) => {
                out.append("invalid value for field `jsonrpc`: expected version \"2.0\", got \"");
                out.append(s.as_str());
                out.append("\"");
            },
            DecodeError::InvalidErrorCode => {
                out.append("invalid error code: must be predefined or in range -32099 to -32000");
            },
            DecodeError::IdOverflow => {
                out.append("number too large: expected a signed 64-bit integer ");
            },
            DecodeError::AmbiguousPayload => {
                out.append("`result` and `error` cannot both be present in the same response");
            },
            DecodeError::MissingPayload => {
                out.append("response must contain either `result` or `error`");
            },
            DecodeError::MissingId => {
                out.append("`id` is required in a successful response with `result`");
            },
            DecodeError::InField(f, e) => {
                out.append("field `");
                out.append(f.as_str());
                out.append("` contains an ");
                e.write(out);
            },
            DecodeError::UnclassifiableMessage(a, b, c) => {
                out.append("neither request nor response; as a request: ");
                a.write(out);
                out.append("; as a notification: ");
                b.write(out);
                out.append("; as a response: ");
                c.write(out);
            },
            DecodeError::EmptyBatch => {
                out.append("a batch must hold at least one message");
            },
            DecodeError::UnclassifiableBatch(a, b) => {
                out.append("neither a batch of requests nor a batch of responses; as a request: ");
                a.write(out);
                out.append("; as a response: ");
                b.write(out);
            },
            DecodeError::InElement(i, e) => {
                out.append("element ");
                let digits = decimal_text(*i as i128);
                out.append(digits.as_str());
                out.append(": ");
                e.write(out);
            },
        }
    }

    /// The message of the error.
    pub fn message(&self) -> (s: String)
        ensures
            s@ == self@.text(),
    {
        let mut s = String::new();
        self.write(&mut s);
        s
    }

    /// The error object that answers a refused document: an invalid request
    /// whose data is the message of this error.
    pub fn to_error(&self) -> (error: Error)
        ensures
            error@.code == ErrorCode::InvalidRequest,
            error@.message == Error::default_message(ErrorCode::InvalidRequest),
            error@.data matches Some(v) && node_of(v) == NodeView::Text(self@.text()),
    {
        let data = ErrorData::new(value_from_string(self.message()));
        Error::new_default(ErrorCode::InvalidRequest).with_data(data)
    }
}

} // verus!
