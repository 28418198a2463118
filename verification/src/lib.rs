//! Client-side streaming write path for a remote tabular database.
//!
//! The heart of the crate is a verified model of the streaming inserter: the
//! component that accepts a sequence of insert batches, forwards them in
//! order over a single long-lived bidirectional stream, and reports one
//! aggregate row count when the caller signals completion.
//!
//! - [`envelope`] wraps each insert payload with the authorization credential
//!   and target database name that accompany every message of the stream.
//! - [`queue`] is the bounded FIFO decoupling submitting callers from the
//!   network task.
//! - [`pump`] models the single background task that owns the receiving side
//!   of the queue and the bidirectional call, together with the transport's
//!   view of the stream.
//! - [`outcome`] holds the terminal outcomes, the error taxonomy, and the
//!   verified finalization decision.
//! - [`stream_insert`] ties these together as the caller-facing handle, with
//!   the ordering and backpressure guarantees of the session stated and
//!   proved over it.

pub mod envelope;
pub mod outcome;
pub mod pump;
pub mod queue;
pub mod stream_insert;
