//! Laws of the connection engine, stated over its transitions.
use crate::config::Settings;
use crate::conn::{has_id, ids_of, lemma_names_follow, lemma_without_absent, lemma_without_props};
use crate::engine::{
    cancel_all, delivery, eose_frame, event_frame, fanout, idle_step, single, ActionView,
    ConnectionView, EventCheckView, InboundView, MAX_QUIET_MS,
};
use crate::error::Error;
use crate::event::EventView;
use crate::message::NostrMessageView;
use crate::metrics::{Metric, Reason};
use crate::notice::{notice_text, NoticeView};
use crate::subscription::{subscription_matches, SubscriptionView};
use crate::writer::{announcement, WriteOutcomeView};
use vstd::prelude::*;

verus! {

/// In a state that meets the invariant a name stands at one place only,
/// in the subscriptions as in the running-queries table, and the two hold
/// the same names.
pub proof fn lemma_one_entry_per_name(s: ConnectionView, i: int, j: int)
    requires
        s.wf(),
        0 <= i < s.running.len(),
        0 <= j < s.running.len(),
    ensures
        s.running.len() == s.conn.subscriptions.len(),
        s.running[i] == s.conn.subscriptions[i].id,
        s.running[i] == s.running[j] ==> i == j,
        s.conn.subscriptions[i].id == s.conn.subscriptions[j].id ==> i == j,
{
}

/// Every transition keeps the invariant.
pub proof fn lemma_invariant_kept(
    s: ConnectionView,
    now_ms: u64,
    unix_now: u64,
    notice: NoticeView,
    sub_id: Seq<char>,
    payload: Seq<char>,
    event: EventView,
    serialized: Option<Seq<char>>,
    frame: InboundView,
    max_event_bytes: Option<usize>,
    check: EventCheckView,
    reject_future: Option<usize>,
    sub: SubscriptionView,
    per_min: Option<u32>,
)
    requires
        s.wf(),
    ensures
        s.on_shutdown().0.wf(),
        s.on_ping_tick(now_ms).0.wf(),
        s.on_notice(notice).0.wf(),
        s.on_query_result(sub_id, payload).0.wf(),
        s.on_broadcast(event, serialized).0.wf(),
        s.on_lagged(now_ms).0.wf(),
        s.on_frame(frame, now_ms, max_event_bytes).0.wf(),
        s.on_event(event, check, unix_now, reject_future).0.wf(),
        s.on_req(sub, unix_now, per_min).0.wf(),
        s.on_close(sub_id).0.wf(),
        s.on_end().0.wf(),
{
    lemma_req_keeps_invariant(s, sub, unix_now, per_min);
    lemma_close_keeps_invariant(s, sub_id);
    assert(s.on_end().0.wf()) by {
        assert(ids_of(Seq::<SubscriptionView>::empty()) =~= Seq::empty());
    }
}

/// A `REQ` keeps the invariant: a name is only added where it is new and
/// there is room, to the subscriptions and to the running-queries table
/// alike.
pub proof fn lemma_req_keeps_invariant(
    s: ConnectionView,
    sub: SubscriptionView,
    unix_now: u64,
    per_min: Option<u32>,
)
    requires
        s.wf(),
    ensures
        s.on_req(sub, unix_now, per_min).0.wf(),
{
    let subs = s.conn.subscriptions;
    if !has_id(subs, sub.id) && subs.len() < s.conn.max_subs {
        let next = subs.push(sub);
        assert(ids_of(next) =~= ids_of(subs).push(sub.id));
        assert forall|i: int, j: int|
            0 <= i < next.len() && 0 <= j < next.len() && i != j implies (#[trigger] next[i]).id != (
        #[trigger] next[j]).id by {
            if i < subs.len() {
                assert(next[i] == subs[i]);
            }
            if j < subs.len() {
                assert(next[j] == subs[j]);
            }
        }
    }
}

/// A `CLOSE` keeps the invariant: the name leaves the subscriptions and
/// the running-queries table alike.
pub proof fn lemma_close_keeps_invariant(s: ConnectionView, id: Seq<char>)
    requires
        s.wf(),
    ensures
        s.on_close(id).0.wf(),
{
    lemma_without_props(s.conn.subscriptions, id);
    lemma_names_follow(s.conn.subscriptions, id);
}

/// A `CLOSE` for a name that is not held changes nothing and fires no
/// cancel signal; so a second `CLOSE` for a name does no more than count
/// the command.
pub proof fn lemma_close_idempotent(s: ConnectionView, id: Seq<char>)
    requires
        s.wf(),
    ensures
        !has_id(s.conn.subscriptions, id) ==> s.on_close(id) == (
            s,
            single(ActionView::Record(Metric::CmdClose), true),
        ),
        !has_id(s.on_close(id).0.conn.subscriptions, id),
        s.on_close(id).0.on_close(id) == (
            s.on_close(id).0,
            single(ActionView::Record(Metric::CmdClose), true),
        ),
{
    let subs = s.conn.subscriptions;
    lemma_without_props(subs, id);
    lemma_names_follow(subs, id);
    lemma_absent_close(s, id);
    let s1 = s.on_close(id).0;
    assert(s1.wf());
    lemma_absent_close(s1, id);
}

proof fn lemma_absent_close(s: ConnectionView, id: Seq<char>)
    requires
        s.wf(),
    ensures
        !has_id(s.conn.subscriptions, id) ==> s.on_close(id) == (
            s,
            single(ActionView::Record(Metric::CmdClose), true),
        ),
{
    let subs = s.conn.subscriptions;
    if !has_id(subs, id) {
        lemma_without_absent(subs, id);
        lemma_names_follow(subs, id);
        assert(s.on_close(id).0.conn == s.conn);
        assert(s.on_close(id).1.actions =~= seq![ActionView::Record(Metric::CmdClose)]);
    }
}

/// A `REQ` under a name that is held opens no query and changes nothing.
/// So of two `REQ`s under one name, the second opens none where the first
/// did.
pub proof fn lemma_duplicate_req_opens_no_query(
    s: ConnectionView,
    first: SubscriptionView,
    second: SubscriptionView,
    unix_now: u64,
    per_min: Option<u32>,
)
    requires
        s.wf(),
        first.id == second.id,
    ensures
        has_id(s.conn.subscriptions, first.id) ==> s.on_req(first, unix_now, per_min) == (
            s,
            idle_step(),
        ),
        ({
            let (s1, step1) = s.on_req(first, unix_now, per_min);
            let (s2, step2) = s1.on_req(second, unix_now, per_min);
            (exists|i: int| 0 <= i < step1.actions.len() && step1.actions[i] is OpenQuery) ==> s2
                == s1 && step2 == idle_step()
        }),
{
    let subs = s.conn.subscriptions;
    let (s1, step1) = s.on_req(first, unix_now, per_min);
    if exists|i: int| 0 <= i < step1.actions.len() && step1.actions[i] is OpenQuery {
        assert(!has_id(subs, first.id));
        assert(subs.len() < s.conn.max_subs);
        let next = subs.push(first);
        assert(s1.conn.subscriptions == next);
        assert(next[subs.len() as int].id == second.id);
        assert(has_id(next, second.id));
    }
}

/// What a client's frame comes to: the decoded frame, what the event
/// module found of it, and the time of day.
pub type Arrival = (Result<NostrMessageView, Error>, EventCheckView, u64);

/// The state and the actions after a run of decoded frames, applied in
/// their order.
pub open spec fn after_commands(s: ConnectionView, arrivals: Seq<Arrival>, settings: Settings) -> (
    ConnectionView,
    Seq<ActionView>,
)
    decreases arrivals.len(),
{
    if arrivals.len() == 0 {
        (s, Seq::empty())
    } else {
        let (mid, done) = after_commands(s, arrivals.drop_last(), settings);
        let last = arrivals.last();
        let (next, step) = mid.on_command(last.0, last.1, last.2, settings);
        (next, done + step.actions)
    }
}

/// The invariant holds after any run of frames.
pub proof fn lemma_run_keeps_invariant(s: ConnectionView, arrivals: Seq<Arrival>, settings: Settings)
    requires
        s.wf(),
    ensures
        after_commands(s, arrivals, settings).0.wf(),
    decreases arrivals.len(),
{
    if arrivals.len() > 0 {
        lemma_run_keeps_invariant(s, arrivals.drop_last(), settings);
        let mid = after_commands(s, arrivals.drop_last(), settings).0;
        let last = arrivals.last();
        match last.0 {
            Ok(NostrMessageView::SubMsg(sub)) => {
                lemma_req_keeps_invariant(
                    mid,
                    sub,
                    last.2,
                    settings.limits.subscriptions_per_min,
                );
            },
            Ok(NostrMessageView::CloseMsg(id)) => {
                lemma_close_keeps_invariant(mid, id);
            },
            _ => {},
        }
    }
}

/// While a name is held, no `REQ` opens a query under it: through any run
/// of frames without a `CLOSE` for the name, the name stays held and no
/// action opens a query under it. So a query is opened at most once for a
/// name between two `CLOSE`s, however often the `REQ` is sent.
pub proof fn lemma_held_name_opens_no_query(
    s: ConnectionView,
    arrivals: Seq<Arrival>,
    settings: Settings,
    id: Seq<char>,
)
    requires
        s.wf(),
        has_id(s.conn.subscriptions, id),
        forall|i: int|
            0 <= i < arrivals.len() ==> (#[trigger] arrivals[i]).0 != Ok::<NostrMessageView, Error>(
                NostrMessageView::CloseMsg(id),
            ),
    ensures
        ({
            let (end, actions) = after_commands(s, arrivals, settings);
            &&& end.wf()
            &&& has_id(end.conn.subscriptions, id)
            &&& forall|k: int|
                0 <= k < actions.len() ==> !(#[trigger] actions[k] matches ActionView::OpenQuery {
                    sub_id,
                    ..
                } && sub_id == id)
        }),
    decreases arrivals.len(),
{
    if arrivals.len() > 0 {
        let init = arrivals.drop_last();
        assert forall|i: int| 0 <= i < init.len() implies (#[trigger] init[i]).0 != Ok::<
            NostrMessageView,
            Error,
        >(NostrMessageView::CloseMsg(id)) by {
            assert(init[i] == arrivals[i]);
        }
        lemma_held_name_opens_no_query(s, init, settings, id);
        let (mid, done) = after_commands(s, init, settings);
        let last = arrivals.last();
        assert(last == arrivals[arrivals.len() - 1]);
        let (next, step) = mid.on_command(last.0, last.1, last.2, settings);
        let subs = mid.conn.subscriptions;
        let at = choose|i: int| 0 <= i < subs.len() && (#[trigger] subs[i]).id == id;
        match last.0 {
            Ok(NostrMessageView::SubMsg(sub)) => {
                lemma_req_keeps_invariant(
                    mid,
                    sub,
                    last.2,
                    settings.limits.subscriptions_per_min,
                );
                if !has_id(subs, sub.id) && subs.len() < mid.conn.max_subs {
                    assert(next.conn.subscriptions[at] == subs[at]);
                }
            },
            Ok(NostrMessageView::CloseMsg(other)) => {
                lemma_without_props(subs, other);
                lemma_names_follow(subs, other);
            },
            _ => {},
        }
        assert forall|k: int| 0 <= k < step.actions.len() implies !(
        #[trigger] step.actions[k] matches ActionView::OpenQuery { sub_id, .. } && sub_id == id) by {}
        let actions = done + step.actions;
        assert forall|k: int| 0 <= k < actions.len() implies !(
        #[trigger] actions[k] matches ActionView::OpenQuery { sub_id, .. } && sub_id == id) by {
            if k < done.len() {
                assert(actions[k] == done[k]);
            } else {
                assert(actions[k] == step.actions[k - done.len()]);
            }
        }
    }
}

/// An accepted event reaches every subscription that is interested in it:
/// the actions hold its frame under that subscription's name.
pub proof fn lemma_fanout_covers(
    subs: Seq<SubscriptionView>,
    event: EventView,
    text: Seq<char>,
    i: int,
)
    requires
        0 <= i < subs.len(),
        subscription_matches(subs[i], event),
    ensures
        fanout(subs, event, text).contains(ActionView::SendText(event_frame(subs[i].id, text))),
    decreases subs.len(),
{
    let wanted = ActionView::SendText(event_frame(subs[i].id, text));
    let init = fanout(subs.drop_last(), event, text);
    let last = delivery(subs.last(), event, text);
    if i == subs.len() - 1 {
        assert(last[1] == wanted);
        assert((init + last)[init.len() as int + 1] == wanted);
    } else {
        lemma_fanout_covers(subs.drop_last(), event, text, i);
        let k = choose|k: int| 0 <= k < init.len() && init[k] == wanted;
        assert((init + last)[k] == wanted);
    }
}

/// A subscription that is not interested gets nothing of an event: every
/// frame sent goes to a subscription that matches.
pub proof fn lemma_fanout_only_interested(
    subs: Seq<SubscriptionView>,
    event: EventView,
    text: Seq<char>,
    k: int,
)
    requires
        0 <= k < fanout(subs, event, text).len(),
        fanout(subs, event, text)[k] is SendText,
    ensures
        exists|i: int|
            0 <= i < subs.len() && subscription_matches(#[trigger] subs[i], event) && fanout(
                subs,
                event,
                text,
            )[k] == ActionView::SendText(event_frame(subs[i].id, text)),
    decreases subs.len(),
{
    let init = fanout(subs.drop_last(), event, text);
    let last = delivery(subs.last(), event, text);
    if k < init.len() {
        lemma_fanout_only_interested(subs.drop_last(), event, text, k);
        let i = choose|i: int|
            0 <= i < subs.drop_last().len() && subscription_matches(
                #[trigger] subs.drop_last()[i],
                event,
            ) && init[k] == ActionView::SendText(event_frame(subs.drop_last()[i].id, text));
        assert(subs[i] == subs.drop_last()[i]);
    } else {
        let i = subs.len() - 1;
        assert(subscription_matches(subs[i], event));
        assert(last[k - init.len() as int] == fanout(subs, event, text)[k]);
    }
}

/// When the engine ends, every name in the running-queries table gets
/// its cancel signal fired once, and the table is empty afterwards.
pub proof fn lemma_end_cancels_all(s: ConnectionView, i: int)
    requires
        s.wf(),
        0 <= i < s.running.len(),
    ensures
        s.on_end().1.len() == s.running.len(),
        s.on_end().1[i] == ActionView::Cancel(s.running[i]),
        s.on_end().0.running.len() == 0,
        s.on_end().0.conn.subscriptions.len() == 0,
{
    assert(cancel_all(s.running)[i] == ActionView::Cancel(s.running[i]));
}

/// The frame that one query result is sent as.
pub open spec fn result_frame(result: (Seq<char>, Seq<char>)) -> Seq<char> {
    if result.1 == "EOSE"@ {
        eose_frame(result.0)
    } else {
        event_frame(result.0, result.1)
    }
}

/// The state and the actions after a run of query results, each a
/// subscription name and a payload, taken in their order.
pub open spec fn after_results(s: ConnectionView, results: Seq<(Seq<char>, Seq<char>)>) -> (
    ConnectionView,
    Seq<ActionView>,
)
    decreases results.len(),
{
    if results.len() == 0 {
        (s, Seq::empty())
    } else {
        let (mid, done) = after_results(s, results.drop_last());
        let (next, step) = mid.on_query_result(results.last().0, results.last().1);
        (next, done + step.actions)
    }
}

/// The text frames among `actions`, in their order.
pub open spec fn sent_texts(actions: Seq<ActionView>) -> Seq<Seq<char>>
    decreases actions.len(),
{
    if actions.len() == 0 {
        Seq::empty()
    } else {
        match actions.last() {
            ActionView::SendText(text) => sent_texts(actions.drop_last()).push(text),
            _ => sent_texts(actions.drop_last()),
        }
    }
}

/// The text frames of two runs of actions are those of the first, then
/// those of the second.
pub proof fn lemma_sent_texts_add(a: Seq<ActionView>, b: Seq<ActionView>)
    ensures
        sent_texts(a + b) == sent_texts(a) + sent_texts(b),
    decreases b.len(),
{
    if b.len() == 0 {
        assert(a + b =~= a);
        assert(sent_texts(a) + sent_texts(b) =~= sent_texts(a));
    } else {
        assert((a + b).drop_last() =~= a + b.drop_last());
        assert((a + b).last() == b.last());
        lemma_sent_texts_add(a, b.drop_last());
        match b.last() {
            ActionView::SendText(text) => {
                assert(sent_texts(a + b) =~= sent_texts(a) + sent_texts(b));
            },
            _ => {},
        }
    }
}

/// Query results leave as they arrive: one frame for each result, in the
/// order of the results, the end marker for the sentinel and the event
/// for any other. So where no event follows the sentinel among the results
/// of a subscription, none follows the end marker among its frames.
pub proof fn lemma_results_in_order(s: ConnectionView, results: Seq<(Seq<char>, Seq<char>)>)
    ensures
        sent_texts(after_results(s, results).1) == results.map_values(
            |r: (Seq<char>, Seq<char>)| result_frame(r),
        ),
    decreases results.len(),
{
    let frames = results.map_values(|r: (Seq<char>, Seq<char>)| result_frame(r));
    if results.len() == 0 {
        assert(sent_texts(after_results(s, results).1) =~= frames);
    } else {
        let init = results.drop_last();
        lemma_results_in_order(s, init);
        let (mid, done) = after_results(s, init);
        let (next, step) = mid.on_query_result(results.last().0, results.last().1);
        lemma_sent_texts_add(done, step.actions);
        assert(sent_texts(step.actions) =~= seq![result_frame(results.last())]) by {
            if results.last().1 == "EOSE"@ {
                assert(step.actions.drop_last() =~= Seq::empty());
                assert(sent_texts(step.actions.drop_last()) =~= Seq::empty());
            } else {
                let first = step.actions.drop_last();
                assert(first.drop_last() =~= Seq::empty());
                assert(sent_texts(first.drop_last()) =~= Seq::empty());
                assert(sent_texts(first) =~= Seq::empty());
            }
        }
        assert(init.map_values(|r: (Seq<char>, Seq<char>)| result_frame(r)) + seq![
            result_frame(results.last()),
        ] =~= frames);
    }
}

/// The time of the `k`-th tick of a timer that is started at `start` and
/// fires every `period`.
pub open spec fn tick_time(start: int, period: int, k: int) -> int {
    start + k * period
}

/// After any moment from the timer's start on, a tick follows within one
/// period.
pub proof fn lemma_tick_follows(start: int, period: int, t: int) -> (k: int)
    requires
        period > 0,
        start <= t,
    ensures
        k >= 1,
        t < tick_time(start, period, k) <= t + period,
{
    let q = (t - start) / period;
    assert(q >= 0 && q * period <= t - start < q * period + period) by (nonlinear_arith)
        requires
            period > 0,
            t - start >= 0,
            q == (t - start) / period,
    ;
    assert((q + 1) * period == q * period + period) by (nonlinear_arith);
    q + 1
}

/// A connection whose client has been heard within the quiet time is
/// pinged when the timer fires; one that has been silent for longer is
/// dropped as timed out.
pub proof fn lemma_ping_or_timeout(s: ConnectionView, now_ms: u64)
    ensures
        now_ms - s.last_activity_ms <= MAX_QUIET_MS ==> s.on_ping_tick(now_ms) == (
            s,
            single(ActionView::SendPing, true),
        ),
        now_ms - s.last_activity_ms > MAX_QUIET_MS ==> s.on_ping_tick(now_ms) == (
            s,
            single(ActionView::Record(Metric::Disconnect(Reason::Timeout)), false),
        ),
{
}

/// A client that falls silent at `last_activity_ms` is pinged within one
/// period of the ping timer, where the period is no longer than the quiet
/// time, and is dropped at a tick no later than one period after the quiet
/// time has passed.
pub proof fn lemma_idle_connection(s: ConnectionView, start: u64, period: u64) -> (ticks: (int, int))
    requires
        0 < period <= MAX_QUIET_MS,
        start <= s.last_activity_ms,
        s.last_activity_ms + MAX_QUIET_MS + period <= u64::MAX,
    ensures
        ({
            let (k, n) = ticks;
            let ping_at = tick_time(start as int, period as int, k);
            let drop_at = tick_time(start as int, period as int, n);
            &&& 1 <= k <= n
            &&& s.last_activity_ms < ping_at <= s.last_activity_ms + period
            &&& s.on_ping_tick(ping_at as u64).1 == single(ActionView::SendPing, true)
            &&& s.last_activity_ms + MAX_QUIET_MS < drop_at <= s.last_activity_ms + MAX_QUIET_MS
                + period
            &&& s.on_ping_tick(drop_at as u64).1 == single(
                ActionView::Record(Metric::Disconnect(Reason::Timeout)),
                false,
            )
        }),
{
    let k = lemma_tick_follows(start as int, period as int, s.last_activity_ms as int);
    let n = lemma_tick_follows(
        start as int,
        period as int,
        s.last_activity_ms + MAX_QUIET_MS as int,
    );
    assert(k <= n) by (nonlinear_arith)
        requires
            period > 0,
            start + k * period <= s.last_activity_ms + period,
            s.last_activity_ms + MAX_QUIET_MS < start + n * period,
            period <= MAX_QUIET_MS,
    ;
    (k, n)
}

/// A stored event is acknowledged to its submitter with one frame, `OK`
/// with `true` and the word `stored`, and goes out on the broadcast bus;
/// one that the store held already is acknowledged as a duplicate and goes
/// out nowhere.
pub proof fn lemma_stored_is_acknowledged(s: ConnectionView, event: EventView)
    ensures
        announcement(event, WriteOutcomeView::Stored).broadcast,
        !announcement(event, WriteOutcomeView::Duplicate).broadcast,
        s.on_notice(announcement(event, WriteOutcomeView::Stored).notice) == (
            s,
            single(
                ActionView::SendText(
                    notice_text(NoticeView::EventResult { id: event.id, ok: true, msg: "stored"@ }),
                ),
                true,
            ),
        ),
{
}

} // verus!
