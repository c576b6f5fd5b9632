//! Decoding: from a JSON value to a validated message.
//!
//! Each decoder is stated by a spec function of the same shape: what a value
//! decodes to, or the one error that refuses it.

use crate::err::{Error, ErrorCode, ErrorData, ErrorView};
use crate::fault::{found_of, DecodeError, DecodeErrorView, Expected, Found};
use crate::json::{
    entries_of, map_entries, map_pairs, node_of, number_as_i128, number_int, peek, Entries, Node,
    NodeView,
};
use crate::msg::{
    params_view, Id, IdView, Notification, NotificationView, Parameters, ParametersView, Request,
    RequestView, Response, ResponseView,
};
use crate::schema::{lemma_names_differ, Field, Schema, VERSION};
use serde_json::Value;
use vstd::prelude::*;

verus! {

/// An outcome in contracts: the view of what was decoded, or of the error.
pub open spec fn outcome<T: View, E: View>(r: Result<T, E>) -> Result<T::V, E::V> {
    match r {
        Ok(t) => Ok(t@),
        Err(e) => Err(e@),
    }
}

/// The error of an outcome, if it is one.
pub open spec fn fault_of<T>(r: Result<T, DecodeErrorView>) -> Option<DecodeErrorView> {
    match r {
        Ok(_) => None,
        Err(e) => Some(e),
    }
}

/// What a value is where a string is wanted.
pub open spec fn text_of(v: Value) -> Result<Seq<char>, DecodeErrorView> {
    match node_of(v) {
        NodeView::Text(s) => Ok(s),
        _ => Err(DecodeErrorView::TypeMismatch(found_of(v), Expected::Text)),
    }
}

/// What a value is where an identifier is wanted: null, a string, or an
/// integer that fits 64 signed bits.
pub open spec fn id_of(v: Value) -> Result<IdView, DecodeErrorView> {
    match node_of(v) {
        NodeView::Null => Ok(IdView::Null),
        NodeView::Text(s) => Ok(IdView::Str(s)),
        NodeView::Number(n) => match number_int(n) {
            Some(i) => if i64::MIN <= i <= i64::MAX {
                Ok(IdView::I64(i as i64))
            } else {
                Err(DecodeErrorView::IdOverflow)
            },
            None => Err(DecodeErrorView::TypeMismatch(found_of(v), Expected::Id)),
        },
        _ => Err(DecodeErrorView::TypeMismatch(found_of(v), Expected::Id)),
    }
}

/// What a value is where parameters are wanted: an array, an object, or
/// null, which stands for none.
pub open spec fn params_of(v: Value) -> Result<Option<ParametersView>, DecodeErrorView> {
    match node_of(v) {
        NodeView::Null => Ok(None),
        NodeView::Array(a) => Ok(Some(ParametersView::Array(a))),
        NodeView::Object(m) => Ok(Some(ParametersView::Object(m))),
        _ => Err(DecodeErrorView::TypeMismatch(found_of(v), Expected::Parameters)),
    }
}

/// What a value is where an error code is wanted.
pub open spec fn code_of(v: Value) -> Result<ErrorCode, DecodeErrorView> {
    match node_of(v) {
        NodeView::Number(n) => match number_int(n) {
            Some(i) => if i64::MIN <= i <= i64::MAX && ErrorCode::valid(i as int) {
                Ok(ErrorCode::of(i as i64))
            } else {
                Err(DecodeErrorView::InvalidErrorCode)
            },
            None => Err(DecodeErrorView::TypeMismatch(found_of(v), Expected::Integer)),
        },
        _ => Err(DecodeErrorView::TypeMismatch(found_of(v), Expected::Integer)),
    }
}

/// Reads a string.
pub fn decode_text(value: &Value) -> (r: Result<String, DecodeError>)
    ensures
        outcome(r) == text_of(*value),
{
    match peek(value) {
        Node::Text(s) => Ok(s.clone()),
        _ => Err(DecodeError::TypeMismatch(Found::describe(value), Expected::Text)),
    }
}

impl Id {
    /// Reads an identifier.
    pub fn decode(value: &Value) -> (r: Result<Id, DecodeError>)
        ensures
            outcome(r) == id_of(*value),
    {
        match peek(value) {
            Node::Null => Ok(Id::Null),
            Node::Text(s) => Ok(Id::Str(s.clone())),
            Node::Number(n) => match number_as_i128(n) {
                Some(i) => if i64::MIN as i128 <= i && i <= i64::MAX as i128 {
                    Ok(Id::I64(i as i64))
                } else {
                    Err(DecodeError::IdOverflow)
                },
                None => Err(DecodeError::TypeMismatch(Found::describe(value), Expected::Id)),
            },
            _ => Err(DecodeError::TypeMismatch(Found::describe(value), Expected::Id)),
        }
    }
}

impl Parameters {
    /// Reads parameters, where null stands for none.
    pub fn decode(value: &Value) -> (r: Result<Option<Parameters>, DecodeError>)
        ensures
            match r {
                Ok(p) => params_of(*value) == Ok::<Option<ParametersView>, DecodeErrorView>(
                    crate::msg::params_view(p),
                ),
                Err(e) => params_of(*value) == Err::<Option<ParametersView>, DecodeErrorView>(e@),
            },
    {
        match peek(value) {
            Node::Null => Ok(None),
            Node::Array(a) => Ok(Some(Parameters::Array(a.clone()))),
            Node::Object(m) => Ok(Some(Parameters::Object(m.clone()))),
            _ => Err(DecodeError::TypeMismatch(Found::describe(value), Expected::Parameters)),
        }
    }
}

impl ErrorCode {
    /// Reads an error code.
    pub fn decode(value: &Value) -> (r: Result<ErrorCode, DecodeError>)
        ensures
            match r {
                Ok(c) => code_of(*value) == Ok::<ErrorCode, DecodeErrorView>(c),
                Err(e) => code_of(*value) == Err::<ErrorCode, DecodeErrorView>(e@),
            },
            r matches Ok(c) ==> c.well_formed(),
    {
        match peek(value) {
            Node::Number(n) => match number_as_i128(n) {
                Some(i) => if i64::MIN as i128 <= i && i <= i64::MAX as i128 {
                    match ErrorCode::create(i as i64) {
                        Ok(code) => Ok(code),
                        Err(_) => Err(DecodeError::InvalidErrorCode),
                    }
                } else {
                    Err(DecodeError::InvalidErrorCode)
                },
                None => Err(DecodeError::TypeMismatch(Found::describe(value), Expected::Integer)),
            },
            _ => Err(DecodeError::TypeMismatch(Found::describe(value), Expected::Integer)),
        }
    }
}

/// The value of the entry that carries the key, among the first `n` entries.
pub open spec fn slot(entries: Entries, n: int, key: Seq<char>) -> Option<Value>
    decreases n,
{
    if n <= 0 {
        None
    } else if entries[n - 1].0 == key {
        Some(entries[n - 1].1)
    } else {
        slot(entries, n - 1, key)
    }
}

/// The values of an object's first `n` entries, by field, as they stand.
pub struct RawFields {
    pub jsonrpc: Option<Value>,
    pub id: Option<Value>,
    pub method: Option<Value>,
    pub params: Option<Value>,
    pub result: Option<Value>,
    pub error: Option<Value>,
    pub code: Option<Value>,
    pub message: Option<Value>,
    pub data: Option<Value>,
}

/// The values of an object's first `n` entries, by field.
pub open spec fn raw_fields(entries: Entries, n: int) -> RawFields {
    RawFields {
        jsonrpc: slot(entries, n, Field::Jsonrpc.name()),
        id: slot(entries, n, Field::Id.name()),
        method: slot(entries, n, Field::Method.name()),
        params: slot(entries, n, Field::Params.name()),
        result: slot(entries, n, Field::Result.name()),
        error: slot(entries, n, Field::Error.name()),
        code: slot(entries, n, Field::Code.name()),
        message: slot(entries, n, Field::Message.name()),
        data: slot(entries, n, Field::Data.name()),
    }
}

/// Why the value of a field is refused, looking no deeper than the value
/// itself: a nested error object passes.
pub open spec fn leaf_fault(f: Field, v: Value) -> Option<DecodeErrorView> {
    match f {
        Field::Jsonrpc | Field::Method | Field::Message => fault_of(text_of(v)),
        Field::Id => fault_of(id_of(v)),
        Field::Params => fault_of(params_of(v)),
        Field::Code => fault_of(code_of(v)),
        Field::Result | Field::Data | Field::Error => None,
    }
}

/// Why entry `i` of an object is refused, if it is: its name is unknown to
/// the shape, or came before, or its value is refused by `check`.
pub open spec fn fault_at(
    schema: Schema,
    entries: Entries,
    i: int,
    check: spec_fn(Field, Value) -> Option<DecodeErrorView>,
) -> Option<DecodeErrorView> {
    match schema.field_of(entries[i].0) {
        None => Some(DecodeErrorView::UnknownField(entries[i].0, schema)),
        Some(f) => if slot(entries, i, entries[i].0) is Some {
            Some(DecodeErrorView::DuplicateField(f))
        } else {
            match check(f, entries[i].1) {
                Some(e) => Some(DecodeErrorView::InField(f, Box::new(e))),
                None => None,
            }
        },
    }
}

/// The refusal of the first refused entry among the first `n`, if any is
/// refused.
pub open spec fn first_fault(
    schema: Schema,
    entries: Entries,
    n: int,
    check: spec_fn(Field, Value) -> Option<DecodeErrorView>,
) -> Option<DecodeErrorView>
    decreases n,
{
    if n <= 0 {
        None
    } else {
        match first_fault(schema, entries, n - 1, check) {
            Some(e) => Some(e),
            None => fault_at(schema, entries, n - 1, check),
        }
    }
}

/// The check of an error object's entries.
pub open spec fn leaf_check() -> spec_fn(Field, Value) -> Option<DecodeErrorView> {
    |f: Field, v: Value| leaf_fault(f, v)
}

/// What an error object's fields make, once every entry has passed.
pub open spec fn error_from(raw: RawFields) -> Result<ErrorView, DecodeErrorView> {
    match (raw.code, raw.message) {
        (None, _) => Err(DecodeErrorView::MissingField(Field::Code)),
        (Some(_), None) => Err(DecodeErrorView::MissingField(Field::Message)),
        (Some(code), Some(message)) => Ok(
            ErrorView {
                code: code_of(code)->Ok_0,
                message: text_of(message)->Ok_0,
                data: raw.data,
            },
        ),
    }
}

/// What the entries of an object decode to as an error object.
pub open spec fn error_of_entries(entries: Entries) -> Result<ErrorView, DecodeErrorView> {
    match first_fault(Schema::Error, entries, entries.len() as int, leaf_check()) {
        Some(e) => Err(e),
        None => error_from(raw_fields(entries, entries.len() as int)),
    }
}

/// What a value decodes to as an error object.
pub open spec fn error_of(v: Value) -> Result<ErrorView, DecodeErrorView> {
    match node_of(v) {
        NodeView::Object(m) => error_of_entries(map_entries(m)),
        _ => Err(DecodeErrorView::TypeMismatch(found_of(v), Expected::Object(Schema::Error))),
    }
}

/// Why the value of a field is refused, a nested error object included.
pub open spec fn value_fault(f: Field, v: Value) -> Option<DecodeErrorView> {
    if f is Error {
        fault_of(error_of(v))
    } else {
        leaf_fault(f, v)
    }
}

/// The check of a message's entries.
pub open spec fn deep_check() -> spec_fn(Field, Value) -> Option<DecodeErrorView> {
    |f: Field, v: Value| value_fault(f, v)
}

/// Once an entry is refused, the entries behind it do not matter.
pub proof fn lemma_first_fault_stays(
    schema: Schema,
    entries: Entries,
    i: int,
    n: int,
    check: spec_fn(Field, Value) -> Option<DecodeErrorView>,
)
    requires
        0 <= i <= n,
        first_fault(schema, entries, i, check) is Some,
    ensures
        first_fault(schema, entries, n, check) == first_fault(schema, entries, i, check),
    decreases n - i,
{
    if i < n {
        lemma_first_fault_stays(schema, entries, i, n - 1, check);
    }
}

/// An error object admits no nested error, so both checks refuse the same
/// entries of it.
pub proof fn lemma_error_checks_agree(entries: Entries, n: int)
    ensures
        first_fault(Schema::Error, entries, n, leaf_check()) == first_fault(
            Schema::Error,
            entries,
            n,
            deep_check(),
        ),
    decreases n,
{
    if n > 0 {
        lemma_error_checks_agree(entries, n - 1);
    }
}

/// The fields with one more value put in.
pub open spec fn put(raw: RawFields, f: Field, v: Value) -> RawFields {
    match f {
        Field::Jsonrpc => RawFields { jsonrpc: Some(v), ..raw },
        Field::Id => RawFields { id: Some(v), ..raw },
        Field::Method => RawFields { method: Some(v), ..raw },
        Field::Params => RawFields { params: Some(v), ..raw },
        Field::Result => RawFields { result: Some(v), ..raw },
        Field::Error => RawFields { error: Some(v), ..raw },
        Field::Code => RawFields { code: Some(v), ..raw },
        Field::Message => RawFields { message: Some(v), ..raw },
        Field::Data => RawFields { data: Some(v), ..raw },
    }
}

/// The value that the fields hold for a field, if any.
pub open spec fn got(raw: RawFields, f: Field) -> Option<Value> {
    match f {
        Field::Jsonrpc => raw.jsonrpc,
        Field::Id => raw.id,
        Field::Method => raw.method,
        Field::Params => raw.params,
        Field::Result => raw.result,
        Field::Error => raw.error,
        Field::Code => raw.code,
        Field::Message => raw.message,
        Field::Data => raw.data,
    }
}

/// One more entry puts its value in its field and leaves the others alone.
pub proof fn lemma_fields_step(entries: Entries, i: int, f: Field)
    requires
        0 <= i < entries.len(),
        entries[i].0 == f.name(),
    ensures
        raw_fields(entries, i + 1) == put(raw_fields(entries, i), f, entries[i].1),
        got(raw_fields(entries, i), f) == slot(entries, i, entries[i].0),
{
    lemma_names_differ(f, Field::Jsonrpc);
    lemma_names_differ(f, Field::Id);
    lemma_names_differ(f, Field::Method);
    lemma_names_differ(f, Field::Params);
    lemma_names_differ(f, Field::Result);
    lemma_names_differ(f, Field::Error);
    lemma_names_differ(f, Field::Code);
    lemma_names_differ(f, Field::Message);
    lemma_names_differ(f, Field::Data);
}

/// The values of an object, by field, each decoded as its field demands.
pub struct Fields {
    pub jsonrpc: Option<String>,
    pub id: Option<Id>,
    pub method: Option<String>,
    pub params: Option<Option<Parameters>>,
    pub result: Option<Value>,
    pub error: Option<Error>,
    pub code: Option<ErrorCode>,
    pub message: Option<String>,
    pub data: Option<Value>,
}

impl Fields {
    /// Whether these are the given values, decoded.
    pub open spec fn reads(self, raw: RawFields) -> bool {
        &&& match raw.jsonrpc {
            Some(v) => self.jsonrpc matches Some(s) && text_of(v) == Ok::<_, DecodeErrorView>(s@),
            None => self.jsonrpc is None,
        }
        &&& match raw.id {
            Some(v) => self.id matches Some(id) && id_of(v) == Ok::<_, DecodeErrorView>(id@),
            None => self.id is None,
        }
        &&& match raw.method {
            Some(v) => self.method matches Some(s) && text_of(v) == Ok::<_, DecodeErrorView>(s@),
            None => self.method is None,
        }
        &&& match raw.params {
            Some(v) => self.params matches Some(p) && params_of(v) == Ok::<_, DecodeErrorView>(
                params_view(p),
            ),
            None => self.params is None,
        }
        &&& self.result == raw.result
        &&& match raw.error {
            Some(v) => self.error matches Some(e) && error_of(v) == Ok::<_, DecodeErrorView>(e@)
                && e.code.well_formed(),
            None => self.error is None,
        }
        &&& match raw.code {
            Some(v) => self.code matches Some(c) && code_of(v) == Ok::<_, DecodeErrorView>(c)
                && c.well_formed(),
            None => self.code is None,
        }
        &&& match raw.message {
            Some(v) => self.message matches Some(s) && text_of(v) == Ok::<_, DecodeErrorView>(s@),
            None => self.message is None,
        }
        &&& self.data == raw.data
    }

    /// Whether a value is held for the field.
    pub open spec fn holds(self, f: Field) -> bool {
        match f {
            Field::Jsonrpc => self.jsonrpc is Some,
            Field::Id => self.id is Some,
            Field::Method => self.method is Some,
            Field::Params => self.params is Some,
            Field::Result => self.result is Some,
            Field::Error => self.error is Some,
            Field::Code => self.code is Some,
            Field::Message => self.message is Some,
            Field::Data => self.data is Some,
        }
    }

    /// No field seen yet.
    pub fn new() -> (fields: Fields)
        ensures
            forall|entries: Entries| fields.reads(#[trigger] raw_fields(entries, 0)),
    {
        Fields {
            jsonrpc: None,
            id: None,
            method: None,
            params: None,
            result: None,
            error: None,
            code: None,
            message: None,
            data: None,
        }
    }

    /// Whether a value is held for the field.
    pub fn has(&self, f: Field) -> (b: bool)
        ensures
            b == self.holds(f),
    {
        match f {
            Field::Jsonrpc => self.jsonrpc.is_some(),
            Field::Id => self.id.is_some(),
            Field::Method => self.method.is_some(),
            Field::Params => self.params.is_some(),
            Field::Result => self.result.is_some(),
            Field::Error => self.error.is_some(),
            Field::Code => self.code.is_some(),
            Field::Message => self.message.is_some(),
            Field::Data => self.data.is_some(),
        }
    }
}

impl Schema {
    /// How deep the shape nests: an error object holds no object of the
    /// protocol, a message may hold an error object.
    pub open spec fn depth(self) -> nat {
        if self is Error {
            0
        } else {
            3
        }
    }
}

/// Walks the entries of an object once: each name is looked up in the shape's
/// field table, each value is decoded as its field demands. Stops at the first
/// entry that is refused.
pub fn read_fields(schema: Schema, entries: &Vec<(&String, &Value)>) -> (r: Result<
    Fields,
    DecodeError,
>)
    ensures
        match r {
            Ok(fields) => first_fault(
                schema,
                entries_of(entries@),
                entries.len() as int,
                deep_check(),
            ) is None && fields.reads(raw_fields(entries_of(entries@), entries.len() as int)),
            Err(e) => first_fault(schema, entries_of(entries@), entries.len() as int, deep_check())
                == Some(e@),
        },
    decreases schema.depth(),
{
    let ghost es = entries_of(entries@);
    let mut fields = Fields::new();
    let mut i: usize = 0;
    while i < entries.len()
        invariant
            es == entries_of(entries@),
            i <= entries.len(),
            first_fault(schema, es, i as int, deep_check()) is None,
            fields.reads(raw_fields(es, i as int)),
        decreases entries.len() - i,
    {
        let key: &String = entries[i].0;
        let value: &Value = entries[i].1;
        let fault: Option<DecodeError> = match schema.find(key) {
            None => Some(DecodeError::UnknownField(key.clone(), schema)),
            Some(f) => {
                proof {
                    lemma_names_differ(f, f);
                    lemma_fields_step(es, i as int, f);
                }
                if fields.has(f) {
                    Some(DecodeError::DuplicateField(f))
                } else {
                    let refused: Option<DecodeError> = match f {
                        Field::Jsonrpc => match decode_text(value) {
                            Ok(s) => {
                                fields.jsonrpc = Some(s);
                                None
                            },
                            Err(e) => Some(e),
                        },
                        Field::Id => match Id::decode(value) {
                            Ok(id) => {
                                fields.id = Some(id);
                                None
                            },
                            Err(e) => Some(e),
                        },
                        Field::Method => match decode_text(value) {
                            Ok(s) => {
                                fields.method = Some(s);
                                None
                            },
                            Err(e) => Some(e),
                        },
                        Field::Params => match Parameters::decode(value) {
                            Ok(p) => {
                                fields.params = Some(p);
                                None
                            },
                            Err(e) => Some(e),
                        },
                        Field::Result => {
                            fields.result = Some(value.clone());
                            None
                        },
                        Field::Error => {
                            match Error::decode(value) {
                                Ok(error) => {
                                    fields.error = Some(error);
                                    None
                                },
                                Err(e) => Some(e),
                            }
                        },
                        Field::Code => match ErrorCode::decode(value) {
                            Ok(code) => {
                                fields.code = Some(code);
                                None
                            },
                            Err(e) => Some(e),
                        },
                        Field::Message => match decode_text(value) {
                            Ok(s) => {
                                fields.message = Some(s);
                                None
                            },
                            Err(e) => Some(e),
                        },
                        Field::Data => {
                            fields.data = Some(value.clone());
                            None
                        },
                    };
                    match refused {
                        Some(e) => Some(DecodeError::InField(f, Box::new(e))),
                        None => None,
                    }
                }
            },
        };
        match fault {
            Some(e) => {
                proof {
                    lemma_first_fault_stays(
                        schema,
                        es,
                        i as int + 1,
                        entries.len() as int,
                        deep_check(),
                    );
                }
                return Err(e);
            },
            None => {},
        }
        i += 1;
    }
    Ok(fields)
}

impl Error {
    /// Reads an error object from its entries.
    pub fn decode_entries(entries: &Vec<(&String, &Value)>) -> (r: Result<Error, DecodeError>)
        ensures
            outcome(r) == error_of_entries(entries_of(entries@)),
            r matches Ok(e) ==> e.code.well_formed(),
        decreases 1nat,
    {
        proof {
            lemma_error_checks_agree(entries_of(entries@), entries.len() as int);
        }
        let fields = match read_fields(Schema::Error, entries) {
            Ok(fields) => fields,
            Err(e) => { return Err(e); },
        };
        let code = match fields.code {
            Some(code) => code,
            None => { return Err(DecodeError::MissingField(Field::Code)); },
        };
        let message = match fields.message {
            Some(message) => message,
            None => { return Err(DecodeError::MissingField(Field::Message)); },
        };
        let data = match fields.data {
            Some(value) => Some(ErrorData::new(value)),
            None => None,
        };
        Ok(Error { code, message, data })
    }

    /// Reads an error object.
    pub fn decode(value: &Value) -> (r: Result<Error, DecodeError>)
        ensures
            outcome(r) == error_of(*value),
            r matches Ok(e) ==> e.code.well_formed(),
        decreases 2nat,
    {
        match peek(value) {
            Node::Object(m) => {
                let pairs = map_pairs(m);
                Error::decode_entries(&pairs)
            },
            _ => Err(
                DecodeError::TypeMismatch(Found::describe(value), Expected::Object(Schema::Error)),
            ),
        }
    }
}

/// Why a `jsonrpc` field is refused: it is absent, or names another version.
pub open spec fn version_check(found: Option<Seq<char>>) -> Option<DecodeErrorView> {
    match found {
        None => Some(DecodeErrorView::VersionMismatch(None)),
        Some(s) => if s == VERSION@ {
            None
        } else {
            Some(DecodeErrorView::VersionMismatch(Some(s)))
        },
    }
}

/// Why the fields of a message fail the version rule, if they do.
pub open spec fn version_fault(raw: RawFields) -> Option<DecodeErrorView> {
    match raw.jsonrpc {
        None => version_check(None),
        Some(v) => version_check(Some(text_of(v)->Ok_0)),
    }
}

/// The parameters among the fields: none where the field is absent or null.
pub open spec fn params_from(raw: RawFields) -> Option<ParametersView> {
    match raw.params {
        Some(v) => params_of(v)->Ok_0,
        None => None,
    }
}

/// What a notification's fields make, once every entry has passed.
pub open spec fn notification_from(raw: RawFields) -> Result<NotificationView, DecodeErrorView> {
    if version_fault(raw) is Some {
        Err(version_fault(raw)->Some_0)
    } else {
        match raw.method {
            None => Err(DecodeErrorView::MissingField(Field::Method)),
            Some(method) => Ok(
                NotificationView { method: text_of(method)->Ok_0, params: params_from(raw) },
            ),
        }
    }
}

/// What a request's fields make, once every entry has passed.
pub open spec fn request_from(raw: RawFields) -> Result<RequestView, DecodeErrorView> {
    if version_fault(raw) is Some {
        Err(version_fault(raw)->Some_0)
    } else {
        match (raw.id, raw.method) {
            (None, _) => Err(DecodeErrorView::MissingField(Field::Id)),
            (Some(_), None) => Err(DecodeErrorView::MissingField(Field::Method)),
            (Some(id), Some(method)) => Ok(
                RequestView {
                    id: id_of(id)->Ok_0,
                    method: text_of(method)->Ok_0,
                    params: params_from(raw),
                },
            ),
        }
    }
}

/// The identifier among the fields of a response: null where the field is
/// absent.
pub open spec fn response_id_from(raw: RawFields) -> IdView {
    match raw.id {
        Some(v) => id_of(v)->Ok_0,
        None => IdView::Null,
    }
}

/// What a response's fields make, once every entry has passed: exactly one of
/// result and error, and no result without an identifier.
pub open spec fn response_from(raw: RawFields) -> Result<ResponseView, DecodeErrorView> {
    if version_fault(raw) is Some {
        Err(version_fault(raw)->Some_0)
    } else {
        match (raw.result, raw.error) {
            (Some(_), Some(_)) => Err(DecodeErrorView::AmbiguousPayload),
            (None, None) => Err(DecodeErrorView::MissingPayload),
            (Some(result), None) => if response_id_from(raw) is Null {
                Err(DecodeErrorView::MissingId)
            } else {
                Ok(ResponseView { id: response_id_from(raw), result: Ok(result) })
            },
            (None, Some(error)) => Ok(
                ResponseView { id: response_id_from(raw), result: Err(error_of(error)->Ok_0) },
            ),
        }
    }
}

/// What the entries of an object decode to as a notification.
pub open spec fn notification_of_entries(entries: Entries) -> Result<
    NotificationView,
    DecodeErrorView,
> {
    match first_fault(Schema::Notification, entries, entries.len() as int, deep_check()) {
        Some(e) => Err(e),
        None => notification_from(raw_fields(entries, entries.len() as int)),
    }
}

/// What the entries of an object decode to as a request.
pub open spec fn request_of_entries(entries: Entries) -> Result<RequestView, DecodeErrorView> {
    match first_fault(Schema::Request, entries, entries.len() as int, deep_check()) {
        Some(e) => Err(e),
        None => request_from(raw_fields(entries, entries.len() as int)),
    }
}

/// What the entries of an object decode to as a response.
pub open spec fn response_of_entries(entries: Entries) -> Result<ResponseView, DecodeErrorView> {
    match first_fault(Schema::Response, entries, entries.len() as int, deep_check()) {
        Some(e) => Err(e),
        None => response_from(raw_fields(entries, entries.len() as int)),
    }
}

/// What a value decodes to as a notification.
pub open spec fn notification_of(v: Value) -> Result<NotificationView, DecodeErrorView> {
    match node_of(v) {
        NodeView::Object(m) => notification_of_entries(map_entries(m)),
        _ => Err(
            DecodeErrorView::TypeMismatch(found_of(v), Expected::Object(Schema::Notification)),
        ),
    }
}

/// What a value decodes to as a request.
pub open spec fn request_of(v: Value) -> Result<RequestView, DecodeErrorView> {
    match node_of(v) {
        NodeView::Object(m) => request_of_entries(map_entries(m)),
        _ => Err(DecodeErrorView::TypeMismatch(found_of(v), Expected::Object(Schema::Request))),
    }
}

/// What a value decodes to as a response.
pub open spec fn response_of(v: Value) -> Result<ResponseView, DecodeErrorView> {
    match node_of(v) {
        NodeView::Object(m) => response_of_entries(map_entries(m)),
        _ => Err(DecodeErrorView::TypeMismatch(found_of(v), Expected::Object(Schema::Response))),
    }
}

/// Holds a message to the version rule: `jsonrpc` is there and names the one
/// accepted version.
pub fn validate_jsonrpc_version(jsonrpc: &Option<String>) -> (r: Result<(), DecodeError>)
    ensures
        match r {
            Ok(_) => jsonrpc matches Some(s) && version_check(Some(s@)) is None,
            Err(e) => version_check(
                match *jsonrpc {
                    Some(s) => Some(s@),
                    None => None,
                },
            ) == Some(e@),
        },
{
    match jsonrpc {
        None => Err(DecodeError::VersionMismatch(None)),
        Some(found) => {
            let accepted = VERSION.to_owned();
            if *found == accepted {
                Ok(())
            } else {
                Err(DecodeError::VersionMismatch(Some(found.clone())))
            }
        },
    }
}

impl Notification {
    /// Reads a notification from the entries of its object.
    pub fn decode_entries(entries: &Vec<(&String, &Value)>) -> (r: Result<
        Notification,
        DecodeError,
    >)
        ensures
            outcome(r) == notification_of_entries(entries_of(entries@)),
    {
        let fields = match read_fields(Schema::Notification, entries) {
            Ok(fields) => fields,
            Err(e) => { return Err(e); },
        };
        match validate_jsonrpc_version(&fields.jsonrpc) {
            Ok(_) => {},
            Err(e) => { return Err(e); },
        }
        let method = match fields.method {
            Some(method) => method,
            None => { return Err(DecodeError::MissingField(Field::Method)); },
        };
        let params = match fields.params {
            Some(params) => params,
            None => None,
        };
        Ok(Notification { method, params })
    }

    /// Reads a notification.
    pub fn decode(value: &Value) -> (r: Result<Notification, DecodeError>)
        ensures
            outcome(r) == notification_of(*value),
    {
        match peek(value) {
            Node::Object(m) => {
                let pairs = map_pairs(m);
                Notification::decode_entries(&pairs)
            },
            _ => Err(
                DecodeError::TypeMismatch(
                    Found::describe(value),
                    Expected::Object(Schema::Notification),
                ),
            ),
        }
    }
}

impl Request {
    /// Reads a request from the entries of its object.
    pub fn decode_entries(entries: &Vec<(&String, &Value)>) -> (r: Result<Request, DecodeError>)
        ensures
            outcome(r) == request_of_entries(entries_of(entries@)),
    {
        let fields = match read_fields(Schema::Request, entries) {
            Ok(fields) => fields,
            Err(e) => { return Err(e); },
        };
        match validate_jsonrpc_version(&fields.jsonrpc) {
            Ok(_) => {},
            Err(e) => { return Err(e); },
        }
        let id = match fields.id {
            Some(id) => id,
            None => { return Err(DecodeError::MissingField(Field::Id)); },
        };
        let method = match fields.method {
            Some(method) => method,
            None => { return Err(DecodeError::MissingField(Field::Method)); },
        };
        let params = match fields.params {
            Some(params) => params,
            None => None,
        };
        Ok(Request { id, method, params })
    }

    /// Reads a request.
    pub fn decode(value: &Value) -> (r: Result<Request, DecodeError>)
        ensures
            outcome(r) == request_of(*value),
    {
        match peek(value) {
            Node::Object(m) => {
                let pairs = map_pairs(m);
                Request::decode_entries(&pairs)
            },
            _ => Err(
                DecodeError::TypeMismatch(
                    Found::describe(value),
                    Expected::Object(Schema::Request),
                ),
            ),
        }
    }
}

impl Response {
    /// Reads a response from the entries of its object.
    pub fn decode_entries(entries: &Vec<(&String, &Value)>) -> (r: Result<Response, DecodeError>)
        ensures
            outcome(r) == response_of_entries(entries_of(entries@)),
            r matches Ok(response) ==> response@.well_formed(),
    {
        let fields = match read_fields(Schema::Response, entries) {
            Ok(fields) => fields,
            Err(e) => { return Err(e); },
        };
        match validate_jsonrpc_version(&fields.jsonrpc) {
            Ok(_) => {},
            Err(e) => { return Err(e); },
        }
        let id = match fields.id {
            Some(id) => id,
            None => Id::Null,
        };
        match (fields.result, fields.error) {
            (Some(_), Some(_)) => Err(DecodeError::AmbiguousPayload),
            (None, None) => Err(DecodeError::MissingPayload),
            (Some(result), None) => if id.is_null() {
                Err(DecodeError::MissingId)
            } else {
                Ok(Response { id, result: Ok(result) })
            },
            (None, Some(error)) => Ok(Response { id, result: Err(error) }),
        }
    }

    /// Reads a response.
    pub fn decode(value: &Value) -> (r: Result<Response, DecodeError>)
        ensures
            outcome(r) == response_of(*value),
            r matches Ok(response) ==> response@.well_formed(),
    {
        match peek(value) {
            Node::Object(m) => {
                let pairs = map_pairs(m);
                Response::decode_entries(&pairs)
            },
            _ => Err(
                DecodeError::TypeMismatch(
                    Found::describe(value),
                    Expected::Object(Schema::Response),
                ),
            ),
        }
    }
}

} // verus!
