//! Request envelopes: the units sent over the bidirectional stream.
//!
//! An envelope wraps one insert payload with the authorization credential and
//! the target database name. Header fields accompany every envelope, since the
//! server-side protocol expects them on each message of the long-lived stream.

use vstd::prelude::*;

verus! {

/// One row-based insert batch for a single table. The batch contents are
/// opaque at this layer (no validation happens here); only the table it
/// targets and how many rows it carries are recorded.
#[derive(Debug, Clone, PartialEq, Eq)]
pub struct RowBatch {
    pub table_name: String,
    pub row_count: u32,
}

/// One legacy columnar insert batch for a single table, likewise opaque.
#[derive(Debug, Clone, PartialEq, Eq)]
pub struct ColumnBatch {
    pub table_name: String,
    pub row_count: u32,
}

/// The payload of an envelope: exactly one of the two insert request shapes.
#[derive(Debug, Clone, PartialEq, Eq)]
pub enum Payload {
    /// Row-based insert requests, the current request shape.
    RowInserts(Vec<RowBatch>),
    /// Columnar insert requests, the legacy request shape.
    Inserts(Vec<ColumnBatch>),
}

/// One transmissible unit of the stream: header metadata plus a payload.
/// An envelope always carries a payload, by construction.
#[derive(Debug, Clone, PartialEq, Eq)]
pub struct Envelope {
    /// Authorization credential, cloned into every envelope of the stream.
    pub authorization: Option<String>,
    /// Target database name.
    pub dbname: String,
    /// Exactly one insert payload.
    pub payload: Payload,
}

/// Builds the envelope for one payload: the stored authorization and database
/// name are copied in unchanged, and the payload is wrapped as given.
/// Pure: no failure mode, no side effect beyond allocation.
pub fn build_envelope(authorization: &Option<String>, dbname: &String, payload: Payload) -> (e:
    Envelope)
    ensures
        e == (Envelope { authorization: *authorization, dbname: *dbname, payload }),
{
    let auth: Option<String> = match authorization {
        Some(a) => Some(a.clone()),
        None => None,
    };
    Envelope { authorization: auth, dbname: dbname.clone(), payload }
}

} // verus!
