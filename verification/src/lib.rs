//! Message model and strict codec for the JSON-RPC 2.0 wire protocol.
//!
//! The codec stands between a JSON value tree and the messages of the
//! protocol. Decoding holds a document to every rule of the grammar that JSON
//! itself cannot express: which fields an object may and must have, that none
//! comes twice, that `result` and `error` exclude each other, that an error
//! code is one of the protocol's. Encoding writes a message's fields in the
//! order of the grammar and leaves absent ones out.
//!
//! - [`msg`] and [`err`] hold the message model.
//! - [`de`] and [`envelope`] decode; [`fault`] says why a document was refused.
//! - [`ser`] encodes.
//! - [`laws`] proves that what was encoded decodes to itself.
//! - [`schema`] holds the grammar as data, [`text`] writes numerals.
//! - [`json`] is the boundary to `serde_json`, whose values the codec reads
//!   and writes.

pub mod de;
pub mod envelope;
pub mod err;
pub mod fault;
pub mod json;
pub mod laws;
pub mod msg;
pub mod schema;
pub mod ser;
pub mod text;
