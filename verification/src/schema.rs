//! The protocol grammar as data: the version literal, the field names, and
//! which fields each object shape admits.

use vstd::prelude::*;

verus! {

/// The only protocol version that the codec accepts, as it stands on the wire.
pub const VERSION: &'static str = "2.0";

/// A field name of the protocol.
#[derive(Clone, Copy, Debug, PartialEq, Eq, Structural)]
pub enum Field {
    Jsonrpc,
    Id,
    Method,
    Params,
    Result,
    Error,
    Code,
    Message,
    Data,
}

/// An object shape of the protocol.
#[derive(Clone, Copy, Debug, PartialEq, Eq, Structural)]
pub enum Schema {
    Notification,
    Request,
    Response,
    Error,
}

impl Field {
    /// The field's name on the wire.
    pub open spec fn name(self) -> Seq<char> {
        match self {
            Field::Jsonrpc => "jsonrpc"@,
            Field::Id => "id"@,
            Field::Method => "method"@,
            Field::Params => "params"@,
            Field::Result => "result"@,
            Field::Error => "error"@,
            Field::Code => "code"@,
            Field::Message => "message"@,
            Field::Data => "data"@,
        }
    }

    /// The field's name on the wire.
    pub fn as_str(self) -> (s: &'static str)
        ensures
            s@ == self.name(),
    {
        match self {
            Field::Jsonrpc => "jsonrpc",
            Field::Id => "id",
            Field::Method => "method",
            Field::Params => "params",
            Field::Result => "result",
            Field::Error => "error",
            Field::Code => "code",
            Field::Message => "message",
            Field::Data => "data",
        }
    }

    /// The field that carries this name, in whichever shape.
    pub open spec fn named(key: Seq<char>) -> Option<Field> {
        if key == Field::Jsonrpc.name() {
            Some(Field::Jsonrpc)
        } else if key == Field::Id.name() {
            Some(Field::Id)
        } else if key == Field::Method.name() {
            Some(Field::Method)
        } else if key == Field::Params.name() {
            Some(Field::Params)
        } else if key == Field::Result.name() {
            Some(Field::Result)
        } else if key == Field::Error.name() {
            Some(Field::Error)
        } else if key == Field::Code.name() {
            Some(Field::Code)
        } else if key == Field::Message.name() {
            Some(Field::Message)
        } else if key == Field::Data.name() {
            Some(Field::Data)
        } else {
            None
        }
    }

    /// Whether the key is this field's name.
    pub fn is_named(self, key: &String) -> (b: bool)
        ensures
            b == (key@ == self.name()),
    {
        let name = self.as_str().to_owned();
        *key == name
    }

    /// Finds the field that carries this name, in whichever shape.
    pub fn find(key: &String) -> (r: Option<Field>)
        ensures
            r == Field::named(key@),
    {
        if Field::Jsonrpc.is_named(key) {
            Some(Field::Jsonrpc)
        } else if Field::Id.is_named(key) {
            Some(Field::Id)
        } else if Field::Method.is_named(key) {
            Some(Field::Method)
        } else if Field::Params.is_named(key) {
            Some(Field::Params)
        } else if Field::Result.is_named(key) {
            Some(Field::Result)
        } else if Field::Error.is_named(key) {
            Some(Field::Error)
        } else if Field::Code.is_named(key) {
            Some(Field::Code)
        } else if Field::Message.is_named(key) {
            Some(Field::Message)
        } else if Field::Data.is_named(key) {
            Some(Field::Data)
        } else {
            None
        }
    }
}

/// The nine field names are pairwise different, so a name stands for one
/// field only.
pub proof fn lemma_names_differ(f: Field, g: Field)
    ensures
        f.name() == g.name() <==> f == g,
        Field::named(f.name()) == Some(f),
{
    lemma_name_shapes(f);
    lemma_name_shapes(g);
    lemma_name_shapes(Field::Jsonrpc);
    lemma_name_shapes(Field::Id);
    lemma_name_shapes(Field::Method);
    lemma_name_shapes(Field::Params);
    lemma_name_shapes(Field::Result);
    lemma_name_shapes(Field::Error);
    lemma_name_shapes(Field::Code);
    lemma_name_shapes(Field::Message);
    lemma_name_shapes(Field::Data);
}

/// How long each field name is and how it begins: enough to tell any two
/// apart.
proof fn lemma_name_shapes(f: Field)
    ensures
        f.name().len() == match f {
            Field::Jsonrpc => 7nat,
            Field::Id => 2nat,
            Field::Method => 6nat,
            Field::Params => 6nat,
            Field::Result => 6nat,
            Field::Error => 5nat,
            Field::Code => 4nat,
            Field::Message => 7nat,
            Field::Data => 4nat,
        },
        f.name()[0] == match f {
            Field::Jsonrpc => 'j',
            Field::Id => 'i',
            Field::Method => 'm',
            Field::Params => 'p',
            Field::Result => 'r',
            Field::Error => 'e',
            Field::Code => 'c',
            Field::Message => 'm',
            Field::Data => 'd',
        },
{
    reveal_strlit("jsonrpc");
    reveal_strlit("id");
    reveal_strlit("method");
    reveal_strlit("params");
    reveal_strlit("result");
    reveal_strlit("error");
    reveal_strlit("code");
    reveal_strlit("message");
    reveal_strlit("data");
}

impl Schema {
    /// The shape's field table, in the order of the grammar.
    pub open spec fn fields(self) -> Seq<Field> {
        match self {
            Schema::Notification => seq![Field::Jsonrpc, Field::Method, Field::Params],
            Schema::Request => seq![Field::Jsonrpc, Field::Id, Field::Method, Field::Params],
            Schema::Response => seq![Field::Jsonrpc, Field::Id, Field::Result, Field::Error],
            Schema::Error => seq![Field::Code, Field::Message, Field::Data],
        }
    }

    /// Whether the shape admits the field.
    pub open spec fn admits(self, f: Field) -> bool {
        self.fields().contains(f)
    }

    /// The field of this shape that carries the name, if any.
    pub open spec fn field_of(self, key: Seq<char>) -> Option<Field> {
        match Field::named(key) {
            Some(f) => if self.admits(f) {
                Some(f)
            } else {
                None
            },
            None => None,
        }
    }

    /// The shape's grammar, as decoding errors quote it.
    pub open spec fn grammar(self) -> Seq<char> {
        match self {
            Schema::Notification => "{jsonrpc: \"2.0\", method: string, params?: []|{}}"@,
            Schema::Request =>
                "{jsonrpc: \"2.0\", id: null|string|i64, method: string, params?: []|{}}"@,
            Schema::Response =>
                "{jsonrpc: \"2.0\", id: null|string|i64, result: any }|{jsonrpc: \"2.0\", id: null|string|i64, error: {code: i64, message: string, data?: any}}"@,
            Schema::Error => "{code: i64, message: string, data?: any}"@,
        }
    }

    /// The shape's grammar, as decoding errors quote it.
    pub fn grammar_str(self) -> (s: &'static str)
        ensures
            s@ == self.grammar(),
    {
        match self {
            Schema::Notification => "{jsonrpc: \"2.0\", method: string, params?: []|{}}",
            Schema::Request =>
                "{jsonrpc: \"2.0\", id: null|string|i64, method: string, params?: []|{}}",
            Schema::Response =>
                "{jsonrpc: \"2.0\", id: null|string|i64, result: any }|{jsonrpc: \"2.0\", id: null|string|i64, error: {code: i64, message: string, data?: any}}",
            Schema::Error => "{code: i64, message: string, data?: any}",
        }
    }

    /// The shape's field table, in the order of the grammar.
    pub fn field_table(self) -> (table: Vec<Field>)
        ensures
            table@ == self.fields(),
    {
        let table = match self {
            Schema::Notification => vec![Field::Jsonrpc, Field::Method, Field::Params],
            Schema::Request => vec![Field::Jsonrpc, Field::Id, Field::Method, Field::Params],
            Schema::Response => vec![Field::Jsonrpc, Field::Id, Field::Result, Field::Error],
            Schema::Error => vec![Field::Code, Field::Message, Field::Data],
        };
        table
    }

    /// Finds the field of this shape that carries the name.
    pub fn find(self, key: &String) -> (r: Option<Field>)
        ensures
            r == self.field_of(key@),
    {
        match Field::find(key) {
            Some(f) => {
                let table = self.field_table();
                let mut i: usize = 0;
                while i < table.len()
                    invariant
                        Field::named(key@) == Some(f),
                        table@ == self.fields(),
                        i <= table.len(),
                        forall|j: int| 0 <= j < i ==> table@[j] != f,
                    decreases table.len() - i,
                {
                    if table[i] == f {
                        return Some(f);
                    }
                    i += 1;
                }
                None
            },
            None => None,
        }
    }
}

} // verus!
