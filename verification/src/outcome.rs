//! Terminal outcomes of a stream, and the finalization decision.
//!
//! The server is contractually expected to emit exactly one terminal response
//! per stream. `interpret_outcome` turns the outcome captured by the stream
//! pump task into the caller-facing result, keeping the error taxonomy apart:
//! transport failures, protocol-contract violations, and task crashes.

use vstd::prelude::*;

verus! {

/// A transport-level error status, surfaced verbatim to the caller.
#[derive(Debug, Clone, PartialEq, Eq)]
pub struct RpcStatus {
    /// Numeric status code reported by the transport.
    pub code: u32,
    /// Human-readable message reported by the transport.
    pub message: String,
}

/// The server's single terminal response. A well-formed response carries the
/// aggregate affected-row count; `None` models a structurally empty response,
/// which is a protocol-contract violation.
#[derive(Debug, Clone, PartialEq, Eq)]
pub struct ServerResponse {
    pub affected_rows: Option<u32>,
}

/// What the stream pump task terminated with. The outcome is captured once
/// and retrieved exactly once, by finalization.
#[derive(Debug, Clone, PartialEq, Eq)]
pub enum PumpOutcome {
    /// The call completed and the server sent its terminal response.
    Resolved(ServerResponse),
    /// The call failed at the transport level.
    Failed(RpcStatus),
    /// The task itself crashed before producing any outcome.
    Crashed,
}

/// Errors surfaced by the streaming inserter.
#[derive(Debug, Clone, PartialEq, Eq)]
pub enum Error {
    /// The stream pump task has terminated, so a submission can no longer be
    /// delivered: the stream is dead.
    StreamingSend,
    /// The call failed at the transport level; the status is passed on
    /// verbatim. Retry policy is the caller's concern.
    Transport(RpcStatus),
    /// The call completed, but the terminal response lacked the expected
    /// result payload: a protocol-contract violation, distinct from any
    /// transport fault.
    IllegalServerResponse,
    /// The stream pump task crashed before producing an outcome: a fatal
    /// internal error, reported distinctly and never swallowed.
    TaskJoin,
}

/// What finalization returns for each possible terminal outcome.
pub open spec fn spec_finish_result(outcome: PumpOutcome) -> Result<u32, Error> {
    match outcome {
        PumpOutcome::Resolved(resp) => match resp.affected_rows {
            Some(count) => Ok(count),
            None => Err(Error::IllegalServerResponse),
        },
        PumpOutcome::Failed(status) => Err(Error::Transport(status)),
        PumpOutcome::Crashed => Err(Error::TaskJoin),
    }
}

/// Maps the captured terminal outcome to the caller-facing result: the row
/// count on a well-formed response, and otherwise exactly the error class
/// that the outcome falls under. A row count is returned if and only if the
/// call resolved with a response that carries one; an empty response is
/// rejected, never treated as zero rows.
pub fn interpret_outcome(outcome: &PumpOutcome) -> (r: Result<u32, Error>)
    ensures
        r == spec_finish_result(*outcome),
        r is Ok <==> (outcome matches PumpOutcome::Resolved(resp) && resp.affected_rows is Some),
{
    match outcome {
        PumpOutcome::Resolved(resp) => match &resp.affected_rows {
            Some(count) => Ok(*count),
            None => Err(Error::IllegalServerResponse),
        },
        PumpOutcome::Failed(status) => Err(Error::Transport(RpcStatus {
            code: status.code,
            message: status.message.clone(),
        })),
        PumpOutcome::Crashed => Err(Error::TaskJoin),
    }
}

} // verus!
