//! The query dispatcher's rules for one historical query: what goes onto
//! the connection's result channel, and when the query is over. Reading
//! the store and watching the cancel signal is the caller's.
use crate::engine::QueryResult;
use crate::metrics::AbortReason;
use crate::text::same_text;
use vstd::prelude::*;

verus! {

/// Where a query stands.
#[derive(Clone, Copy, Debug, PartialEq, Eq, Structural)]
pub enum QueryState {
    /// Rows are being streamed.
    Streaming,
    /// The last row and the end marker have gone out.
    Complete,
    /// The query was given up before its end.
    Aborted(AbortReason),
}

/// What happens to a running query.
#[derive(Clone, Debug, PartialEq, Eq)]
pub enum QueryEvent {
    /// The store gave the next row, a serialized event.
    Row(String),
    /// The store has no more rows.
    End,
    /// The cancel signal was seen, or the query ran out of time or room.
    Abort(AbortReason),
}

/// The mathematical value of a [`QueryEvent`].
pub enum QueryEventView {
    Row(Seq<char>),
    End,
    Abort(AbortReason),
}

impl View for QueryEvent {
    type V = QueryEventView;

    open spec fn view(&self) -> QueryEventView {
        match self {
            QueryEvent::Row(text) => QueryEventView::Row(text@),
            QueryEvent::End => QueryEventView::End,
            QueryEvent::Abort(reason) => QueryEventView::Abort(*reason),
        }
    }
}

/// What the dispatcher does on an event of a query.
#[derive(Clone, Debug, PartialEq, Eq)]
pub struct QueryStep {
    /// What to put onto the result channel.
    pub result: Option<QueryResult>,
    /// The reason to count, where the query was given up by this event.
    pub aborted: Option<AbortReason>,
    /// Whether the query goes on.
    pub go_on: bool,
    /// Whether the cancel signal is to be looked at before the next row.
    pub poll: bool,
}

/// The mathematical value of a [`QueryStep`]; a result is the name of the
/// subscription and the payload.
pub struct QueryStepView {
    pub result: Option<(Seq<char>, Seq<char>)>,
    pub aborted: Option<AbortReason>,
    pub go_on: bool,
    pub poll: bool,
}

impl View for QueryStep {
    type V = QueryStepView;

    open spec fn view(&self) -> QueryStepView {
        QueryStepView {
            result: match self.result {
                Some(r) => Some((r.sub_id@, r.event@)),
                None => None,
            },
            aborted: self.aborted,
            go_on: self.go_on,
            poll: self.poll,
        }
    }
}

/// The mathematical value of a [`QueryRun`].
pub struct QueryRunView {
    pub sub_id: Seq<char>,
    pub state: QueryState,
    /// How many rows have gone out.
    pub rows: u64,
    /// After how many rows the cancel signal is looked at.
    pub cadence: u64,
}

/// Whether the cancel signal is due after `rows` rows at a cadence of
/// `cadence` rows; a cadence of zero looks after every row.
pub open spec fn poll_due(rows: u64, cadence: u64) -> bool {
    cadence == 0 || rows % cadence == 0
}

/// The step of a query that is over: nothing goes out any more.
pub open spec fn over() -> QueryStepView {
    QueryStepView { result: None, aborted: None, go_on: false, poll: false }
}

impl QueryRunView {
    /// What an event does to a query: while it streams, a row goes out as
    /// it is (but one that reads as the end marker, which no serialized
    /// event does, is passed over), the end of the rows sends the end marker
    /// and completes the query, and giving up ends it without a marker;
    /// once it is over, nothing happens.
    pub open spec fn step(self, event: QueryEventView) -> (QueryRunView, QueryStepView) {
        if self.state != QueryState::Streaming {
            (self, over())
        } else {
            match event {
                QueryEventView::Row(text) => {
                    if text == "EOSE"@ {
                        (
                            self,
                            QueryStepView {
                                result: None,
                                aborted: None,
                                go_on: true,
                                poll: false,
                            },
                        )
                    } else {
                        let rows = if self.rows < u64::MAX {
                            (self.rows + 1) as u64
                        } else {
                            self.rows
                        };
                        (
                            QueryRunView { rows, ..self },
                            QueryStepView {
                                result: Some((self.sub_id, text)),
                                aborted: None,
                                go_on: true,
                                poll: poll_due(rows, self.cadence),
                            },
                        )
                    }
                },
                QueryEventView::End => (
                    QueryRunView { state: QueryState::Complete, ..self },
                    QueryStepView {
                        result: Some((self.sub_id, "EOSE"@)),
                        aborted: None,
                        go_on: false,
                        poll: false,
                    },
                ),
                QueryEventView::Abort(reason) => (
                    QueryRunView { state: QueryState::Aborted(reason), ..self },
                    QueryStepView { result: None, aborted: Some(reason), go_on: false, poll: false },
                ),
            }
        }
    }
}

/// One historical query of a subscription.
#[derive(Debug)]
pub struct QueryRun {
    sub_id: String,
    state: QueryState,
    rows: u64,
    cadence: u64,
}

impl View for QueryRun {
    type V = QueryRunView;

    closed spec fn view(&self) -> QueryRunView {
        QueryRunView {
            sub_id: self.sub_id@,
            state: self.state,
            rows: self.rows,
            cadence: self.cadence,
        }
    }
}

impl QueryRun {
    /// A query for the subscription named `sub_id` that looks at its cancel
    /// signal every `cadence` rows.
    pub fn new(sub_id: String, cadence: u64) -> (run: QueryRun)
        ensures
            run@ == (QueryRunView {
                sub_id: sub_id@,
                state: QueryState::Streaming,
                rows: 0,
                cadence,
            }),
    {
        QueryRun { sub_id, state: QueryState::Streaming, rows: 0, cadence }
    }

    /// Where the query stands.
    pub fn state(&self) -> (state: QueryState)
        ensures
            state == self@.state,
    {
        self.state
    }

    /// How many rows have gone out.
    pub fn rows(&self) -> (rows: u64)
        ensures
            rows == self@.rows,
    {
        self.rows
    }

    /// Takes an event of the query and says what the dispatcher does.
    pub fn step(&mut self, event: QueryEvent) -> (out: QueryStep)
        ensures
            (final(self)@, out@) == old(self)@.step(event@),
    {
        match self.state {
            QueryState::Streaming => {},
            _ => {
                return QueryStep { result: None, aborted: None, go_on: false, poll: false };
            },
        }
        match event {
            QueryEvent::Row(text) => {
                if same_text(text.as_str(), "EOSE") {
                    return QueryStep { result: None, aborted: None, go_on: true, poll: false };
                }
                if self.rows < u64::MAX {
                    self.rows = self.rows + 1;
                }
                let poll = self.cadence == 0 || self.rows % self.cadence == 0;
                QueryStep {
                    result: Some(QueryResult { sub_id: self.sub_id.clone(), event: text }),
                    aborted: None,
                    go_on: true,
                    poll,
                }
            },
            QueryEvent::End => {
                self.state = QueryState::Complete;
                QueryStep {
                    result: Some(
                        QueryResult { sub_id: self.sub_id.clone(), event: "EOSE".to_owned() },
                    ),
                    aborted: None,
                    go_on: false,
                    poll: false,
                }
            },
            QueryEvent::Abort(reason) => {
                self.state = QueryState::Aborted(reason);
                QueryStep { result: None, aborted: Some(reason), go_on: false, poll: false }
            },
        }
    }
}

/// The state of a query after a run of events, and the results that went
/// onto the channel, in their order.
pub open spec fn after_events(run: QueryRunView, events: Seq<QueryEventView>) -> (
    QueryRunView,
    Seq<(Seq<char>, Seq<char>)>,
)
    decreases events.len(),
{
    if events.len() == 0 {
        (run, Seq::empty())
    } else {
        let (mid, sent) = after_events(run, events.drop_last());
        let (next, step) = mid.step(events.last());
        (
            next,
            match step.result {
                Some(r) => sent.push(r),
                None => sent,
            },
        )
    }
}

/// Of the results of a query only the last can be the end marker, and it
/// is exactly where the query has completed; every result carries the
/// name of the query's subscription. So no event follows the end marker,
/// and a query that was given up sends none.
pub proof fn lemma_end_marker_is_last(run: QueryRunView, events: Seq<QueryEventView>)
    requires
        run.state == QueryState::Streaming,
    ensures
        ({
            let (end, sent) = after_events(run, events);
            &&& end.sub_id == run.sub_id
            &&& forall|i: int| 0 <= i < sent.len() ==> (#[trigger] sent[i]).0 == run.sub_id
            &&& forall|i: int| 0 <= i < sent.len() - 1 ==> (#[trigger] sent[i]).1 != "EOSE"@
            &&& end.state == QueryState::Complete <==> sent.len() > 0 && sent.last().1 == "EOSE"@
        }),
    decreases events.len(),
{
    if events.len() > 0 {
        lemma_end_marker_is_last(run, events.drop_last());
    }
}

/// Once a query is over, by its end or by being given up, nothing more
/// goes onto the channel, whatever happens: giving up twice is giving up
/// once.
pub proof fn lemma_nothing_after_the_end(
    run: QueryRunView,
    before: Seq<QueryEventView>,
    after: Seq<QueryEventView>,
)
    requires
        after_events(run, before).0.state != QueryState::Streaming,
    ensures
        after_events(run, before + after) == after_events(run, before),
    decreases after.len(),
{
    if after.len() == 0 {
        assert(before + after =~= before);
    } else {
        assert((before + after).drop_last() =~= before + after.drop_last());
        lemma_nothing_after_the_end(run, before, after.drop_last());
    }
}

/// The cancel signal is looked at within every `cadence` rows: after any
/// number of rows gone out, one of the next `cadence` rows is followed by
/// a look.
pub proof fn lemma_poll_within_cadence(rows: u64, cadence: u64) -> (k: int)
    requires
        cadence > 0,
        rows + cadence <= u64::MAX,
    ensures
        1 <= k <= cadence,
        poll_due((rows + k) as u64, cadence),
{
    let r = rows % cadence;
    let k = cadence - r;
    assert(0 <= r < cadence && (rows + (cadence - r)) % (cadence as int) == 0) by (nonlinear_arith)
        requires
            cadence > 0,
            rows >= 0,
            r == rows % cadence,
    ;
    k
}

} // verus!
