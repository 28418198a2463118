use greptime_client::envelope::{build_envelope, ColumnBatch, Envelope, Payload, RowBatch};
use greptime_client::outcome::{interpret_outcome, Error, PumpOutcome, RpcStatus, ServerResponse};
use greptime_client::stream_insert::StreamInserter;

fn row_batch(table: &str, rows: u32) -> RowBatch {
    RowBatch { table_name: table.to_string(), row_count: rows }
}

fn ok_reply(rows: u32) -> PumpOutcome {
    PumpOutcome::Resolved(ServerResponse { affected_rows: Some(rows) })
}

fn unavailable() -> RpcStatus {
    RpcStatus { code: 14, message: "transport closed".to_string() }
}

#[test]
fn end_to_end_three_batches() {
    // Submit 3 batches of sizes {10, 0, 5} rows; the transport double replies
    // with affected-rows = 15.
    let mut inserter = StreamInserter::new(
        "public".to_string(),
        Some("token".to_string()),
        8,
        ok_reply(15),
        None,
    );
    assert_eq!(inserter.row_insert(vec![row_batch("cpu", 10)]), Ok(()));
    assert_eq!(inserter.row_insert(vec![row_batch("mem", 0)]), Ok(()));
    assert_eq!(inserter.row_insert(vec![row_batch("disk", 5)]), Ok(()));

    let (result, pump) = inserter.finish_parts();
    assert_eq!(result, Ok(15));

    // The transport observed exactly 3 envelopes, in submission order, and
    // then end-of-input.
    let observed = pump.observations();
    assert_eq!(observed.len(), 3);
    assert_eq!(
        observed[0].payload,
        Payload::RowInserts(vec![row_batch("cpu", 10)])
    );
    assert_eq!(
        observed[1].payload,
        Payload::RowInserts(vec![row_batch("mem", 0)])
    );
    assert_eq!(
        observed[2].payload,
        Payload::RowInserts(vec![row_batch("disk", 5)])
    );
    assert!(pump.has_seen_end_of_input());
}

#[test]
fn ordering_preserved_across_backpressure() {
    // More submissions than the queue capacity: none fails, none is dropped,
    // and the transport sees them all in submission order.
    let mut inserter = StreamInserter::new("db".to_string(), None, 2, ok_reply(50), None);
    for i in 0..10u32 {
        let r = inserter.row_insert(vec![row_batch(&format!("table_{i}"), i)]);
        assert_eq!(r, Ok(()));
    }
    let (result, pump) = inserter.finish_parts();
    assert_eq!(result, Ok(50));
    let observed = pump.observations();
    assert_eq!(observed.len(), 10);
    for (i, envelope) in observed.iter().enumerate() {
        assert_eq!(
            envelope.payload,
            Payload::RowInserts(vec![row_batch(&format!("table_{i}"), i as u32)])
        );
    }
}

#[test]
fn every_envelope_carries_header() {
    // The authorization credential and database name are cloned into every
    // envelope of the long-lived stream, not sent once.
    let mut inserter = StreamInserter::new(
        "metrics".to_string(),
        Some("basic dXNlcjpwdw==".to_string()),
        4,
        ok_reply(2),
        None,
    );
    inserter.row_insert(vec![row_batch("a", 1)]).unwrap();
    inserter.row_insert(vec![row_batch("b", 1)]).unwrap();
    let (_, pump) = inserter.finish_parts();
    for envelope in pump.observations() {
        assert_eq!(envelope.authorization.as_deref(), Some("basic dXNlcjpwdw=="));
        assert_eq!(envelope.dbname, "metrics");
    }
}

#[test]
fn legacy_insert_payload_shape() {
    let mut inserter = StreamInserter::new("db".to_string(), None, 4, ok_reply(3), None);
    let batch = ColumnBatch { table_name: "legacy".to_string(), row_count: 3 };
    assert_eq!(inserter.insert(vec![batch.clone()]), Ok(()));
    let (result, pump) = inserter.finish_parts();
    assert_eq!(result, Ok(3));
    assert_eq!(pump.observations()[0].payload, Payload::Inserts(vec![batch]));
}

#[test]
fn dead_stream_rejects_submission() {
    // Once the pump task has terminated, submissions fail fast with the
    // dead-stream error instead of hanging.
    let mut inserter = StreamInserter::new("db".to_string(), None, 4, ok_reply(1), None);
    assert_eq!(inserter.row_insert(vec![row_batch("t", 1)]), Ok(()));
    inserter.fail_transport(unavailable());
    assert_eq!(
        inserter.row_insert(vec![row_batch("t", 2)]),
        Err(Error::StreamingSend)
    );
    assert_eq!(inserter.insert(vec![]), Err(Error::StreamingSend));
    let result = inserter.finish();
    assert_eq!(result, Err(Error::Transport(unavailable())));
}

#[test]
fn transport_error_surfaced_verbatim() {
    let status = RpcStatus { code: 13, message: "internal".to_string() };
    let inserter = StreamInserter::new(
        "db".to_string(),
        None,
        4,
        PumpOutcome::Failed(status.clone()),
        None,
    );
    assert_eq!(inserter.finish(), Err(Error::Transport(status)));
}

#[test]
fn empty_response_is_protocol_error_not_transport_error() {
    // A terminal response lacking the row-count field fails finalization with
    // the protocol-contract error, distinguishable from a transport error,
    // and is never treated as zero rows.
    let inserter = StreamInserter::new(
        "db".to_string(),
        None,
        4,
        PumpOutcome::Resolved(ServerResponse { affected_rows: None }),
        None,
    );
    let result = inserter.finish();
    assert_eq!(result, Err(Error::IllegalServerResponse));
    assert!(!matches!(result, Err(Error::Transport(_))));
    assert_ne!(result, Ok(0));
}

#[test]
fn crashed_task_reported_distinctly() {
    let mut inserter = StreamInserter::new("db".to_string(), None, 4, ok_reply(1), None);
    inserter.crash_task();
    assert_eq!(inserter.finish(), Err(Error::TaskJoin));
}

#[test]
fn pump_runs_independently_of_submissions() {
    let mut inserter = StreamInserter::new("db".to_string(), None, 4, ok_reply(2), None);
    inserter.row_insert(vec![row_batch("t", 1)]).unwrap();
    inserter.row_insert(vec![row_batch("u", 1)]).unwrap();
    // The consumer drains one envelope while the producer does nothing.
    assert!(inserter.pump_step());
    assert!(inserter.pump_step());
    // Nothing left to drain.
    assert!(!inserter.pump_step());
    let (result, pump) = inserter.finish_parts();
    assert_eq!(result, Ok(2));
    assert_eq!(pump.observations().len(), 2);
}

#[test]
fn interpret_outcome_covers_the_taxonomy() {
    assert_eq!(interpret_outcome(&ok_reply(7)), Ok(7));
    assert_eq!(
        interpret_outcome(&PumpOutcome::Resolved(ServerResponse { affected_rows: None })),
        Err(Error::IllegalServerResponse)
    );
    assert_eq!(
        interpret_outcome(&PumpOutcome::Failed(unavailable())),
        Err(Error::Transport(unavailable()))
    );
    assert_eq!(interpret_outcome(&PumpOutcome::Crashed), Err(Error::TaskJoin));
}

#[test]
fn build_envelope_copies_header_and_wraps_payload() {
    let auth = Some("token".to_string());
    let dbname = "db".to_string();
    let payload = Payload::RowInserts(vec![row_batch("t", 4)]);
    let envelope = build_envelope(&auth, &dbname, payload.clone());
    assert_eq!(
        envelope,
        Envelope { authorization: auth, dbname, payload }
    );
}

#[test]
fn routing_hint_attached_once_at_setup() {
    let inserter = StreamInserter::new(
        "db".to_string(),
        None,
        4,
        ok_reply(0),
        Some("hint-value".to_string()),
    );
    let (_, pump) = inserter.finish_parts();
    // The hint is call metadata, not part of any envelope.
    assert_eq!(pump.routing_hint().as_deref(), Some("hint-value"));
    assert!(pump.observations().is_empty());
}

#[test]
fn empty_batch_is_accepted() {
    // Batch contents are not validated at this layer: an empty submission is
    // enqueued like any other.
    let mut inserter = StreamInserter::new("db".to_string(), None, 4, ok_reply(0), None);
    assert_eq!(inserter.row_insert(vec![]), Ok(()));
    let (result, pump) = inserter.finish_parts();
    assert_eq!(result, Ok(0));
    assert_eq!(pump.observations().len(), 1);
    assert_eq!(pump.observations()[0].payload, Payload::RowInserts(vec![]));
}
