use nostr_relay::engine::QueryResult;
use nostr_relay::metrics::{AbortReason, Family, Metric};
use nostr_relay::query::{QueryEvent, QueryRun, QueryState, QueryStep};

fn row(text: &str) -> QueryEvent {
    QueryEvent::Row(text.to_string())
}

fn result(sub_id: &str, event: &str) -> Option<QueryResult> {
    Some(QueryResult { sub_id: sub_id.to_string(), event: event.to_string() })
}

fn over() -> QueryStep {
    QueryStep { result: None, aborted: None, go_on: false, poll: false }
}

#[test]
fn new_query_streams() {
    let run = QueryRun::new("x".to_string(), 10);
    assert_eq!(run.state(), QueryState::Streaming);
    assert_eq!(run.rows(), 0);
}

#[test]
fn rows_go_out_in_order_and_the_end_marker_last() {
    let mut run = QueryRun::new("h".to_string(), 0);
    let mut sent = Vec::new();
    for e in [row("{2}"), row("{1}"), QueryEvent::End] {
        if let Some(r) = run.step(e).result {
            sent.push((r.sub_id, r.event));
        }
    }
    assert_eq!(
        sent,
        vec![
            ("h".to_string(), "{2}".to_string()),
            ("h".to_string(), "{1}".to_string()),
            ("h".to_string(), "EOSE".to_string()),
        ]
    );
    assert_eq!(run.state(), QueryState::Complete);
    assert_eq!(run.rows(), 2);
}

#[test]
fn query_without_rows_sends_the_end_marker() {
    let mut run = QueryRun::new("h".to_string(), 5);
    assert_eq!(
        run.step(QueryEvent::End),
        QueryStep { result: result("h", "EOSE"), aborted: None, go_on: false, poll: false }
    );
}

#[test]
fn completed_query_sends_nothing_more() {
    let mut run = QueryRun::new("h".to_string(), 5);
    run.step(QueryEvent::End);
    assert_eq!(run.step(row("{1}")), over());
    assert_eq!(run.step(QueryEvent::End), over());
    assert_eq!(run.step(QueryEvent::Abort(AbortReason::Cancelled)), over());
    assert_eq!(run.state(), QueryState::Complete);
}

#[test]
fn cancelled_query_sends_no_end_marker() {
    let mut run = QueryRun::new("h".to_string(), 5);
    assert!(run.step(row("{1}")).result.is_some());
    assert_eq!(
        run.step(QueryEvent::Abort(AbortReason::Cancelled)),
        QueryStep {
            result: None,
            aborted: Some(AbortReason::Cancelled),
            go_on: false,
            poll: false,
        }
    );
    assert_eq!(run.state(), QueryState::Aborted(AbortReason::Cancelled));
    assert_eq!(run.step(row("{2}")), over());
    assert_eq!(run.step(QueryEvent::End), over());
    assert_eq!(run.rows(), 1);
}

#[test]
fn second_cancel_is_a_no_op() {
    let mut run = QueryRun::new("h".to_string(), 5);
    run.step(QueryEvent::Abort(AbortReason::Cancelled));
    assert_eq!(run.step(QueryEvent::Abort(AbortReason::Cancelled)), over());
    assert_eq!(run.step(QueryEvent::Abort(AbortReason::Timeout)), over());
    assert_eq!(run.state(), QueryState::Aborted(AbortReason::Cancelled));
}

#[test]
fn timeout_and_overload_abort_the_query() {
    for reason in [AbortReason::Timeout, AbortReason::Overload] {
        let mut run = QueryRun::new("h".to_string(), 5);
        let step = run.step(QueryEvent::Abort(reason));
        assert_eq!(step.aborted, Some(reason));
        assert!(!step.go_on);
        assert_eq!(run.state(), QueryState::Aborted(reason));
    }
}

#[test]
fn cancel_signal_is_polled_at_the_cadence() {
    let mut run = QueryRun::new("h".to_string(), 3);
    let polls: Vec<bool> = (0..7).map(|i| run.step(row(&format!("{{{}}}", i))).poll).collect();
    assert_eq!(polls, vec![false, false, true, false, false, true, false]);
    let mut every = QueryRun::new("h".to_string(), 0);
    assert!(every.step(row("{}")).poll);
    assert!(every.step(row("{}")).poll);
    let mut each = QueryRun::new("h".to_string(), 1);
    assert!(each.step(row("{}")).poll);
    assert!(each.step(row("{}")).poll);
}

#[test]
fn row_that_reads_as_the_end_marker_is_passed_over() {
    let mut run = QueryRun::new("h".to_string(), 1);
    assert_eq!(
        run.step(row("EOSE")),
        QueryStep { result: None, aborted: None, go_on: true, poll: false }
    );
    assert_eq!(run.rows(), 0);
    assert_eq!(run.state(), QueryState::Streaming);
    assert_eq!(
        run.step(row("{}")),
        QueryStep { result: result("h", "{}"), aborted: None, go_on: true, poll: true }
    );
}

#[test]
fn aborts_are_counted_by_reason() {
    assert_eq!(Metric::QueryAbort(AbortReason::Timeout).family(), Family::QueryAborts);
    assert_eq!(Metric::QueryAbort(AbortReason::Timeout).label(), Some("timeout"));
    assert_eq!(Metric::QueryAbort(AbortReason::Overload).label(), Some("overload"));
    assert_eq!(Metric::QueryAbort(AbortReason::Cancelled).label(), Some("cancelled"));
    assert_eq!(AbortReason::Cancelled.label(), "cancelled");
}
