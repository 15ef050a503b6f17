//! The connection engine: one client's protocol state machine. Each source
//! of events that a connection multiplexes has a transition here, from the
//! state and what arrived to the next state and what to do. The caller runs
//! the loop: it waits on the sources, hands in what arrived and carries out
//! the actions in their order.
use crate::config::Settings;
use crate::conn::{
    has_id, ids_of, lemma_names_follow, names_without, ClientConn, ClientConnView,
};
use crate::error::{error_text, Error};
use crate::event::{timestamp_acceptable, Event, EventView};
use crate::message::{convert, convert_to_msg, decoded_view, NostrMessage, NostrMessageView};
use crate::metrics::{Metric, Reason, Source};
use crate::notice::{make_notice_message, notice_text, Notice, NoticeView};
use crate::subscription::{needs_historical, subscription_matches, Subscription, SubscriptionView};
use crate::text::{decimal, push_decimal, same_text, strip_quotes, without_quotes};
use vstd::prelude::*;
use vstd::string::StringExecFns;

verus! {

/// A connection that has been silent for longer than this is dropped, in
/// milliseconds: twenty minutes.
pub const MAX_QUIET_MS: u64 = 1_200_000;

/// The upper bound of the random delay added to a rate-limited `REQ`, in
/// milliseconds.
pub const LIMITER_JITTER_MS: u64 = 100;

/// What the transport hands to the engine: a frame of the client, the end
/// of the stream, or an error.
#[derive(Clone, Debug, PartialEq, Eq)]
pub enum Inbound {
    /// A text frame.
    Text(String),
    /// A binary frame.
    Binary,
    /// A ping frame.
    Ping,
    /// A pong frame.
    Pong,
    /// A close frame.
    Close,
    /// The stream has ended.
    End,
    /// A message of `size` bytes was over the transport's limit `max_size`.
    TooLarge { size: usize, max_size: usize },
    /// The connection was closed before.
    AlreadyClosed,
    /// The connection was closed in order.
    ConnectionClosed,
    /// The peer reset the connection without a closing handshake.
    ResetWithoutClosingHandshake,
    /// Reading failed.
    Io,
    /// Any other transport error.
    Other,
}

/// The mathematical value of an [`Inbound`].
pub enum InboundView {
    Text(Seq<char>),
    Binary,
    Ping,
    Pong,
    Close,
    End,
    TooLarge { size: usize, max_size: usize },
    AlreadyClosed,
    ConnectionClosed,
    ResetWithoutClosingHandshake,
    Io,
    Other,
}

impl View for Inbound {
    type V = InboundView;

    open spec fn view(&self) -> InboundView {
        match self {
            Inbound::Text(t) => InboundView::Text(t@),
            Inbound::Binary => InboundView::Binary,
            Inbound::Ping => InboundView::Ping,
            Inbound::Pong => InboundView::Pong,
            Inbound::Close => InboundView::Close,
            Inbound::End => InboundView::End,
            Inbound::TooLarge { size, max_size } => InboundView::TooLarge {
                size: *size,
                max_size: *max_size,
            },
            Inbound::AlreadyClosed => InboundView::AlreadyClosed,
            Inbound::ConnectionClosed => InboundView::ConnectionClosed,
            Inbound::ResetWithoutClosingHandshake => InboundView::ResetWithoutClosingHandshake,
            Inbound::Io => InboundView::Io,
            Inbound::Other => InboundView::Other,
        }
    }
}

/// What the event module found of a submitted event.
#[derive(Clone, Debug, PartialEq, Eq)]
pub enum EventCheck {
    /// The event is well-formed and signed by its author.
    Accepted,
    /// The event is not valid, for the reason given.
    Rejected(String),
}

/// The mathematical value of an [`EventCheck`].
pub enum EventCheckView {
    Accepted,
    Rejected(Seq<char>),
}

impl View for EventCheck {
    type V = EventCheckView;

    open spec fn view(&self) -> EventCheckView {
        match self {
            EventCheck::Accepted => EventCheckView::Accepted,
            EventCheck::Rejected(reason) => EventCheckView::Rejected(reason@),
        }
    }
}

/// One result of a historical query: a serialized event, or the sentinel
/// `EOSE` after the last one.
#[derive(Clone, Debug, PartialEq, Eq)]
pub struct QueryResult {
    pub sub_id: String,
    pub event: String,
}

/// What the caller has to do for the connection.
#[derive(Clone, Debug, PartialEq, Eq)]
pub enum Action {
    /// Send a text frame to the client.
    SendText(String),
    /// Send a ping frame to the client.
    SendPing,
    /// Hand the event to the writer pipeline, with the client's address and
    /// the connection's notice channel.
    Submit(Event),
    /// Wait until the rate limiter admits a subscription, plus its jitter.
    AwaitLimiter,
    /// Keep a new one-shot cancel signal under this subscription name and,
    /// if `historical`, hand the subscription to the query dispatcher with
    /// it.
    OpenQuery { sub_id: String, historical: bool },
    /// Fire the cancel signal kept under this subscription name and forget
    /// it.
    Cancel(String),
    /// Count an occurrence.
    Record(Metric),
}

/// The mathematical value of an [`Action`].
pub enum ActionView {
    SendText(Seq<char>),
    SendPing,
    Submit(EventView),
    AwaitLimiter,
    OpenQuery { sub_id: Seq<char>, historical: bool },
    Cancel(Seq<char>),
    Record(Metric),
}

impl View for Action {
    type V = ActionView;

    open spec fn view(&self) -> ActionView {
        match self {
            Action::SendText(t) => ActionView::SendText(t@),
            Action::SendPing => ActionView::SendPing,
            Action::Submit(e) => ActionView::Submit(e@),
            Action::AwaitLimiter => ActionView::AwaitLimiter,
            Action::OpenQuery { sub_id, historical } => ActionView::OpenQuery {
                sub_id: sub_id@,
                historical: *historical,
            },
            Action::Cancel(id) => ActionView::Cancel(id@),
            Action::Record(m) => ActionView::Record(*m),
        }
    }
}

impl DeepView for Action {
    type V = ActionView;

    open spec fn deep_view(&self) -> ActionView {
        self@
    }
}

/// The outcome of one transition: what to do, in order, and whether the
/// connection goes on afterwards.
#[derive(Clone, Debug, PartialEq, Eq)]
pub struct Step {
    pub actions: Vec<Action>,
    pub go_on: bool,
}

/// The mathematical value of a [`Step`].
pub struct StepView {
    pub actions: Seq<ActionView>,
    pub go_on: bool,
}

impl View for Step {
    type V = StepView;

    open spec fn view(&self) -> StepView {
        StepView { actions: self.actions.deep_view(), go_on: self.go_on }
    }
}

/// What the engine made of an inbound frame: a decoded text frame, which
/// is still to be applied, or a step.
#[derive(Debug)]
pub enum Received {
    /// A text frame, decoded; hand it to [`Connection::on_command`].
    Command(Result<NostrMessage, Error>),
    /// Any other frame, dealt with.
    Handled(Step),
}

/// The mathematical value of a [`Received`].
pub enum ReceivedView {
    Command(Result<NostrMessageView, Error>),
    Handled(StepView),
}

impl View for Received {
    type V = ReceivedView;

    open spec fn view(&self) -> ReceivedView {
        match self {
            Received::Command(r) => ReceivedView::Command(decoded_view(*r)),
            Received::Handled(step) => ReceivedView::Handled(step@),
        }
    }
}

/// The frame that ends the stored events of a subscription.
pub open spec fn eose_frame(sub_id: Seq<char>) -> Seq<char> {
    "[\"EOSE\",\""@ + without_quotes(sub_id) + "\"]"@
}

/// The frame that carries a serialized event to a subscription.
pub open spec fn event_frame(sub_id: Seq<char>, payload: Seq<char>) -> Seq<char> {
    "[\"EVENT\",\""@ + without_quotes(sub_id) + "\","@ + payload + "]"@
}

/// The frame that carries a free-text notice.
pub open spec fn notice_frame(msg: Seq<char>) -> Seq<char> {
    notice_text(NoticeView::Message(msg))
}

/// The text that tells a client that a message was over the transport's
/// limit.
pub open spec fn too_large_text(size: usize, max_size: usize) -> Seq<char> {
    "message too large ("@ + decimal(size as nat) + " > "@ + decimal(max_size as nat) + ")"@
}

/// The text that tells a client how far ahead an event may be dated.
pub open spec fn future_text(seconds: usize) -> Seq<char> {
    "The event created_at field is out of the acceptable range (+"@ + decimal(seconds as nat)
        + "sec) for this relay."@
}

/// The text that tells a client why a subscription was not taken up.
pub open spec fn subscription_error_text(e: Error) -> Seq<char> {
    "Subscription error: "@ + error_text(e)
}

/// The verdict sent for an event that the relay turns down.
pub open spec fn rejection(id: Seq<char>, msg: Seq<char>) -> ActionView {
    ActionView::SendText(notice_text(NoticeView::EventResult { id, ok: false, msg }))
}

/// Whether subscriptions are rate-limited: a rate is set and it is not
/// zero.
pub open spec fn limiter_enabled(per_min: Option<u32>) -> bool {
    per_min matches Some(n) && n > 0
}

/// A counter one higher, unless it is at its maximum.
pub open spec fn bump(c: u64) -> u64 {
    if c < u64::MAX {
        (c + 1) as u64
    } else {
        c
    }
}

/// A step of one action.
pub open spec fn single(action: ActionView, go_on: bool) -> StepView {
    StepView { actions: seq![action], go_on }
}

/// A step without actions after which the connection goes on.
pub open spec fn idle_step() -> StepView {
    StepView { actions: Seq::empty(), go_on: true }
}

/// One cancellation for each of `names`, in their order.
pub open spec fn cancel_all(names: Seq<Seq<char>>) -> Seq<ActionView> {
    names.map_values(|id: Seq<char>| ActionView::Cancel(id))
}

/// What one subscription gets of an accepted event whose serialized form
/// is `text`: if it is interested, a count and the event under its name.
pub open spec fn delivery(s: SubscriptionView, event: EventView, text: Seq<char>) -> Seq<
    ActionView,
> {
    if subscription_matches(s, event) {
        seq![
            ActionView::Record(Metric::SentEvent(Source::Realtime)),
            ActionView::SendText(event_frame(s.id, text)),
        ]
    } else {
        Seq::empty()
    }
}

/// What the subscriptions `subs` get of an accepted event, in their order.
pub open spec fn fanout(subs: Seq<SubscriptionView>, event: EventView, text: Seq<char>) -> Seq<
    ActionView,
>
    decreases subs.len(),
{
    if subs.len() == 0 {
        Seq::empty()
    } else {
        fanout(subs.drop_last(), event, text) + delivery(subs.last(), event, text)
    }
}

/// The mathematical value of a [`Connection`].
pub struct ConnectionView {
    pub conn: ClientConnView,
    /// The running-queries table: the names under which a cancel signal is
    /// kept.
    pub running: Seq<Seq<char>>,
    /// When the client was last heard, on the caller's monotonic clock.
    pub last_activity_ms: u64,
    /// How many events the client has published.
    pub published: u64,
    /// How many stored events the client has received.
    pub received: u64,
}

impl ConnectionView {
    /// The invariant of the engine: the client state is in order, and a
    /// cancel signal is kept for exactly the subscriptions held, one each.
    pub open spec fn wf(self) -> bool {
        &&& self.conn.wf()
        &&& self.running == ids_of(self.conn.subscriptions)
    }

    /// The supervisor signalled shutdown: count it and leave.
    pub open spec fn on_shutdown(self) -> (ConnectionView, StepView) {
        (self, single(ActionView::Record(Metric::Disconnect(Reason::Shutdown)), false))
    }

    /// How long the client has been silent at `now_ms`.
    pub open spec fn idle_ms(self, now_ms: u64) -> int {
        if now_ms >= self.last_activity_ms {
            now_ms - self.last_activity_ms
        } else {
            0
        }
    }

    /// The ping timer fired: leave if the client has been silent for too
    /// long, else ping it.
    pub open spec fn on_ping_tick(self, now_ms: u64) -> (ConnectionView, StepView) {
        if self.idle_ms(now_ms) > MAX_QUIET_MS {
            (self, single(ActionView::Record(Metric::Disconnect(Reason::Timeout)), false))
        } else {
            (self, single(ActionView::SendPing, true))
        }
    }

    /// A notice arrived from the writer: send it.
    pub open spec fn on_notice(self, notice: NoticeView) -> (ConnectionView, StepView) {
        (self, single(ActionView::SendText(notice_text(notice)), true))
    }

    /// A result of a historical query arrived: send the end marker for the
    /// sentinel, else count and send the event.
    pub open spec fn on_query_result(self, sub_id: Seq<char>, payload: Seq<char>) -> (
        ConnectionView,
        StepView,
    ) {
        if payload == "EOSE"@ {
            (self, single(ActionView::SendText(eose_frame(sub_id)), true))
        } else {
            (
                ConnectionView { received: bump(self.received), ..self },
                StepView {
                    actions: seq![
                        ActionView::Record(Metric::SentEvent(Source::Db)),
                        ActionView::SendText(event_frame(sub_id, payload)),
                    ],
                    go_on: true,
                },
            )
        }
    }

    /// An accepted event arrived on the broadcast bus: every interested
    /// subscription gets it, if it could be serialized.
    pub open spec fn on_broadcast(self, event: EventView, serialized: Option<Seq<char>>) -> (
        ConnectionView,
        StepView,
    ) {
        match serialized {
            Some(text) => (
                self,
                StepView { actions: fanout(self.conn.subscriptions, event, text), go_on: true },
            ),
            None => (self, idle_step()),
        }
    }

    /// The transport handed in a frame at `now_ms`: the client counts as
    /// heard; a text frame is decoded, a binary or oversized one answered
    /// with a notice, pings pass, and the end of the stream or an error ends
    /// the engine.
    pub open spec fn on_frame(self, frame: InboundView, now_ms: u64, max_event_bytes: Option<usize>) -> (
        ConnectionView,
        ReceivedView,
    ) {
        let heard = ConnectionView { last_activity_ms: now_ms, ..self };
        let normal = single(ActionView::Record(Metric::Disconnect(Reason::Normal)), false);
        let failed = single(ActionView::Record(Metric::Disconnect(Reason::Error)), false);
        (
            heard,
            match frame {
                InboundView::Text(text) => ReceivedView::Command(convert(text, max_event_bytes)),
                InboundView::Binary => ReceivedView::Handled(
                    single(
                        ActionView::SendText(notice_frame("binary messages are not accepted"@)),
                        true,
                    ),
                ),
                InboundView::Ping => ReceivedView::Handled(idle_step()),
                InboundView::Pong => ReceivedView::Handled(idle_step()),
                InboundView::TooLarge { size, max_size } => ReceivedView::Handled(
                    single(
                        ActionView::SendText(notice_frame(too_large_text(size, max_size))),
                        true,
                    ),
                ),
                InboundView::Close => ReceivedView::Handled(normal),
                InboundView::End => ReceivedView::Handled(normal),
                InboundView::AlreadyClosed => ReceivedView::Handled(normal),
                InboundView::ConnectionClosed => ReceivedView::Handled(normal),
                InboundView::ResetWithoutClosingHandshake => ReceivedView::Handled(normal),
                InboundView::Io => ReceivedView::Handled(failed),
                InboundView::Other => ReceivedView::Handled(failed),
            },
        )
    }

    /// The connection fell behind on the broadcast bus and missed events:
    /// they are lost to it, and it goes on.
    pub open spec fn on_lagged(self, missed: u64) -> (ConnectionView, StepView) {
        (self, idle_step())
    }

    /// The client sent an `EVENT` command, of which the event module found
    /// `check`: a valid event dated acceptably goes to the writer; any other
    /// is turned down with the reason.
    pub open spec fn on_event(
        self,
        event: EventView,
        check: EventCheckView,
        unix_now: u64,
        reject_future: Option<usize>,
    ) -> (ConnectionView, StepView) {
        let counted = seq![ActionView::Record(Metric::CmdEvent)];
        match check {
            EventCheckView::Accepted => {
                if timestamp_acceptable(event.created_at, unix_now, reject_future) {
                    (
                        ConnectionView { published: bump(self.published), ..self },
                        StepView { actions: counted.push(ActionView::Submit(event)), go_on: true },
                    )
                } else {
                    match reject_future {
                        Some(n) => (
                            self,
                            StepView {
                                actions: counted.push(rejection(event.id, future_text(n))),
                                go_on: true,
                            },
                        ),
                        None => (self, StepView { actions: counted, go_on: true }),
                    }
                }
            },
            EventCheckView::Rejected(reason) => (
                self,
                StepView { actions: counted.push(rejection(event.id, reason)), go_on: true },
            ),
        }
    }

    /// The client sent a `REQ` command: a name already held is ignored;
    /// else the subscription is taken up, after the rate limiter, and a
    /// query opened for it, or the client is told why not.
    pub open spec fn on_req(self, s: SubscriptionView, unix_now: u64, per_min: Option<u32>) -> (
        ConnectionView,
        StepView,
    ) {
        if has_id(self.conn.subscriptions, s.id) {
            (self, idle_step())
        } else {
            let counted = seq![ActionView::Record(Metric::CmdReq)];
            let head = if limiter_enabled(per_min) {
                counted.push(ActionView::AwaitLimiter)
            } else {
                counted
            };
            let (conn, r) = self.conn.subscribe(s);
            match r {
                Ok(_) => (
                    ConnectionView { conn, running: self.running.push(s.id), ..self },
                    StepView {
                        actions: head.push(
                            ActionView::OpenQuery {
                                sub_id: s.id,
                                historical: needs_historical(s, unix_now),
                            },
                        ),
                        go_on: true,
                    },
                ),
                Err(e) => (
                    self,
                    StepView {
                        actions: head.push(
                            ActionView::SendText(notice_frame(subscription_error_text(e))),
                        ),
                        go_on: true,
                    },
                ),
            }
        }
    }

    /// The client sent a `CLOSE` command: the cancel signal kept under the
    /// name is fired, if there is one, and the subscription dropped.
    pub open spec fn on_close(self, id: Seq<char>) -> (ConnectionView, StepView) {
        let counted = seq![ActionView::Record(Metric::CmdClose)];
        (
            ConnectionView {
                conn: self.conn.unsubscribe(id),
                running: names_without(self.running, id),
                ..self
            },
            StepView {
                actions: if self.running.contains(id) {
                    counted.push(ActionView::Cancel(id))
                } else {
                    counted
                },
                go_on: true,
            },
        )
    }

    /// A text frame was decoded to `cmd`: a command is applied, a frame that
    /// could not be decoded is answered with a notice, a lost connection
    /// ends the engine.
    pub open spec fn on_command(
        self,
        cmd: Result<NostrMessageView, Error>,
        check: EventCheckView,
        unix_now: u64,
        settings: Settings,
    ) -> (ConnectionView, StepView) {
        match cmd {
            Ok(NostrMessageView::EventMsg(event)) => self.on_event(
                event,
                check,
                unix_now,
                settings.options.reject_future_seconds,
            ),
            Ok(NostrMessageView::SubMsg(s)) => self.on_req(
                s,
                unix_now,
                settings.limits.subscriptions_per_min,
            ),
            Ok(NostrMessageView::CloseMsg(id)) => self.on_close(id),
            Err(Error::ConnError) => (self, StepView { actions: Seq::empty(), go_on: false }),
            Err(Error::EventMaxLengthError(_)) => (
                self,
                single(ActionView::SendText(notice_frame("event exceeded max size"@)), true),
            ),
            Err(Error::ProtoParseError) => (
                self,
                single(ActionView::SendText(notice_frame("could not parse command"@)), true),
            ),
            Err(_) => (self, idle_step()),
        }
    }

    /// The engine has left its loop: every cancel signal still kept is
    /// fired, in the order of the table, and the subscriptions are dropped.
    pub open spec fn on_end(self) -> (ConnectionView, Seq<ActionView>) {
        (
            ConnectionView {
                conn: ClientConnView { subscriptions: Seq::empty(), ..self.conn },
                running: Seq::empty(),
                ..self
            },
            cancel_all(self.running),
        )
    }
}

/// The state of one connection's engine.
#[derive(Debug)]
pub struct Connection {
    conn: ClientConn,
    running: Vec<String>,
    last_activity_ms: u64,
    published: u64,
    received: u64,
}

impl View for Connection {
    type V = ConnectionView;

    closed spec fn view(&self) -> ConnectionView {
        ConnectionView {
            conn: self.conn@,
            running: self.running.deep_view(),
            last_activity_ms: self.last_activity_ms,
            published: self.published,
            received: self.received,
        }
    }
}

fn build_eose_frame(sub_id: &str) -> (text: String)
    ensures
        text@ == eose_frame(sub_id@),
{
    let mut out = "[\"EOSE\",\"".to_owned();
    let id = strip_quotes(sub_id);
    out.append(id.as_str());
    out.append("\"]");
    out
}

fn build_event_frame(sub_id: &str, payload: &str) -> (text: String)
    ensures
        text@ == event_frame(sub_id@, payload@),
{
    let mut out = "[\"EVENT\",\"".to_owned();
    let id = strip_quotes(sub_id);
    out.append(id.as_str());
    out.append("\",");
    out.append(payload);
    out.append("]");
    out
}

fn build_notice_frame(msg: String) -> (text: String)
    ensures
        text@ == notice_frame(msg@),
{
    make_notice_message(&Notice::message(msg))
}

fn one(action: Action, go_on: bool) -> (step: Step)
    ensures
        step@ == single(action@, go_on),
{
    let mut actions: Vec<Action> = Vec::new();
    actions.push(action);
    assert(actions.deep_view() =~= seq![action@]);
    Step { actions, go_on }
}

impl Connection {
    /// The invariant of the engine.
    pub open spec fn wf(&self) -> bool {
        self@.wf()
    }

    /// The engine of a new connection, heard at `now_ms` for the first
    /// time, and the step that counts it. A cancel signal is taken to be
    /// kept for each subscription that the client state holds.
    pub fn new(conn: ClientConn, now_ms: u64) -> (r: (Connection, Step))
        requires
            conn.wf(),
        ensures
            r.0.wf(),
            r.0@ == (ConnectionView {
                conn: conn@,
                running: ids_of(conn@.subscriptions),
                last_activity_ms: now_ms,
                published: 0,
                received: 0,
            }),
            r.1@ == single(ActionView::Record(Metric::Connection), true),
    {
        let mut running: Vec<String> = Vec::new();
        let subs = conn.subscriptions();
        let mut i: usize = 0;
        while i < subs.len()
            invariant
                i <= subs@.len(),
                running.deep_view() == ids_of(subs.deep_view().take(i as int)),
            decreases subs@.len() - i,
        {
            let ghost before = running.deep_view();
            let id = subs[i].id.clone();
            running.push(id);
            assert(running.deep_view() =~= before.push(subs@[i as int]@.id));
            assert(subs.deep_view().take(i + 1) =~= subs.deep_view().take(i as int).push(
                subs@[i as int]@,
            ));
            assert(running.deep_view() =~= ids_of(subs.deep_view().take(i + 1)));
            i += 1;
        }
        assert(subs.deep_view().take(subs@.len() as int) =~= subs.deep_view());
        let c = Connection { conn, running, last_activity_ms: now_ms, published: 0, received: 0 };
        (c, one(Action::Record(Metric::Connection), true))
    }

    /// The client state of the connection.
    pub fn client(&self) -> (conn: &ClientConn)
        ensures
            conn@ == self@.conn,
    {
        &self.conn
    }

    /// The running-queries table: the names under which a cancel signal
    /// is kept, oldest first.
    pub fn running_queries(&self) -> (names: &Vec<String>)
        ensures
            names.deep_view() == self@.running,
    {
        &self.running
    }

    /// How many events the client has published.
    pub fn published_count(&self) -> (n: u64)
        ensures
            n == self@.published,
    {
        self.published
    }

    /// How many stored events the client has received.
    pub fn received_count(&self) -> (n: u64)
        ensures
            n == self@.received,
    {
        self.received
    }

    /// The supervisor signalled shutdown.
    pub fn on_shutdown(&self) -> (step: Step)
        ensures
            (self@, step@) == self@.on_shutdown(),
    {
        one(Action::Record(Metric::Disconnect(Reason::Shutdown)), false)
    }

    /// The ping timer fired at `now_ms`.
    pub fn on_ping_tick(&self, now_ms: u64) -> (step: Step)
        ensures
            (self@, step@) == self@.on_ping_tick(now_ms),
    {
        if now_ms >= self.last_activity_ms && now_ms - self.last_activity_ms > MAX_QUIET_MS {
            one(Action::Record(Metric::Disconnect(Reason::Timeout)), false)
        } else {
            one(Action::SendPing, true)
        }
    }

    /// A notice arrived on the connection's notice channel.
    pub fn on_notice(&self, notice: &Notice) -> (step: Step)
        ensures
            (self@, step@) == self@.on_notice(notice@),
    {
        one(Action::SendText(make_notice_message(notice)), true)
    }

    /// A result arrived on the connection's query channel.
    pub fn on_query_result(&mut self, result: &QueryResult) -> (step: Step)
        ensures
            old(self).wf() ==> final(self).wf(),
            (final(self)@, step@) == old(self)@.on_query_result(result.sub_id@, result.event@),
    {
        if same_text(result.event.as_str(), "EOSE") {
            one(Action::SendText(build_eose_frame(result.sub_id.as_str())), true)
        } else {
            if self.received < u64::MAX {
                self.received = self.received + 1;
            }
            let mut actions: Vec<Action> = Vec::new();
            actions.push(Action::Record(Metric::SentEvent(Source::Db)));
            actions.push(
                Action::SendText(
                    build_event_frame(result.sub_id.as_str(), result.event.as_str()),
                ),
            );
            assert(actions.deep_view() =~= seq![
                ActionView::Record(Metric::SentEvent(Source::Db)),
                ActionView::SendText(event_frame(result.sub_id@, result.event@)),
            ]);
            Step { actions, go_on: true }
        }
    }

    /// An accepted event arrived on the broadcast bus; `serialized` is its
    /// JSON text, or nothing where it could not be serialized.
    pub fn on_broadcast(&self, event: &Event, serialized: Option<&str>) -> (step: Step)
        ensures
            (self@, step@) == self@.on_broadcast(
                event@,
                match serialized {
                    Some(t) => Some(t@),
                    None => None,
                },
            ),
    {
        let mut actions: Vec<Action> = Vec::new();
        assert(actions.deep_view() =~= Seq::empty());
        match serialized {
            Some(text) => {
                let subs = self.conn.subscriptions();
                let mut i: usize = 0;
                while i < subs.len()
                    invariant
                        i <= subs@.len(),
                        actions.deep_view() == fanout(subs.deep_view().take(i as int), event@, text@),
                    decreases subs@.len() - i,
                {
                    let ghost before = actions.deep_view();
                    let ghost all = subs.deep_view();
                    assert(all.take(i + 1).drop_last() =~= all.take(i as int));
                    assert(all.take(i + 1).last() == subs@[i as int]@);
                    if subs[i].interested_in_event(event) {
                        actions.push(Action::Record(Metric::SentEvent(Source::Realtime)));
                        actions.push(
                            Action::SendText(build_event_frame(subs[i].id.as_str(), text)),
                        );
                    }
                    assert(actions.deep_view() =~= before + delivery(
                        subs@[i as int]@,
                        event@,
                        text@,
                    ));
                    i += 1;
                }
                assert(subs.deep_view().take(subs@.len() as int) =~= subs.deep_view());
            },
            None => {},
        }
        Step { actions, go_on: true }
    }

    /// The broadcast bus reported that the connection fell behind and
    /// missed `missed` events.
    pub fn on_lagged(&self, missed: u64) -> (step: Step)
        ensures
            (self@, step@) == self@.on_lagged(missed),
    {
        let actions: Vec<Action> = Vec::new();
        assert(actions.deep_view() =~= Seq::empty());
        Step { actions, go_on: true }
    }

    /// The transport handed in a frame at `now_ms`.
    pub fn on_frame(&mut self, frame: Inbound, now_ms: u64, settings: &Settings) -> (r: Received)
        ensures
            old(self).wf() ==> final(self).wf(),
            (final(self)@, r@) == old(self)@.on_frame(frame@, now_ms, settings.limits.max_event_bytes),
    {
        self.last_activity_ms = now_ms;
        match frame {
            Inbound::Text(text) => Received::Command(
                convert_to_msg(text.as_str(), settings.limits.max_event_bytes),
            ),
            Inbound::Binary => Received::Handled(
                one(
                    Action::SendText(
                        build_notice_frame("binary messages are not accepted".to_owned()),
                    ),
                    true,
                ),
            ),
            Inbound::Ping | Inbound::Pong => {
                let actions: Vec<Action> = Vec::new();
                assert(actions.deep_view() =~= Seq::empty());
                Received::Handled(Step { actions, go_on: true })
            },
            Inbound::TooLarge { size, max_size } => {
                let mut msg = "message too large (".to_owned();
                push_decimal(&mut msg, size as u64);
                msg.append(" > ");
                push_decimal(&mut msg, max_size as u64);
                msg.append(")");
                Received::Handled(one(Action::SendText(build_notice_frame(msg)), true))
            },
            Inbound::Close | Inbound::End | Inbound::AlreadyClosed | Inbound::ConnectionClosed
            | Inbound::ResetWithoutClosingHandshake => Received::Handled(
                one(Action::Record(Metric::Disconnect(Reason::Normal)), false),
            ),
            Inbound::Io | Inbound::Other => Received::Handled(
                one(Action::Record(Metric::Disconnect(Reason::Error)), false),
            ),
        }
    }

    fn on_event(
        &mut self,
        event: Event,
        check: &EventCheck,
        unix_now: u64,
        reject_future: Option<usize>,
    ) -> (step: Step)
        ensures
            old(self).wf() ==> final(self).wf(),
            (final(self)@, step@) == old(self)@.on_event(event@, check@, unix_now, reject_future),
    {
        let mut actions: Vec<Action> = Vec::new();
        actions.push(Action::Record(Metric::CmdEvent));
        let ghost counted = seq![ActionView::Record(Metric::CmdEvent)];
        assert(actions.deep_view() =~= counted);
        match check {
            EventCheck::Accepted => {
                if event.is_valid_timestamp(unix_now, reject_future) {
                    actions.push(Action::Submit(event));
                    if self.published < u64::MAX {
                        self.published = self.published + 1;
                    }
                    assert(actions.deep_view() =~= counted.push(ActionView::Submit(event@)));
                } else {
                    match reject_future {
                        Some(n) => {
                            let mut msg =
                                "The event created_at field is out of the acceptable range (+".to_owned();
                            push_decimal(&mut msg, n as u64);
                            msg.append("sec) for this relay.");
                            let notice = Notice::invalid(event.id, msg.as_str());
                            actions.push(Action::SendText(make_notice_message(&notice)));
                            assert(actions.deep_view() =~= counted.push(
                                rejection(event@.id, future_text(n)),
                            ));
                        },
                        None => {},
                    }
                }
            },
            EventCheck::Rejected(reason) => {
                let notice = Notice::invalid(event.id, reason.as_str());
                actions.push(Action::SendText(make_notice_message(&notice)));
                assert(actions.deep_view() =~= counted.push(rejection(event@.id, reason@)));
            },
        }
        Step { actions, go_on: true }
    }

    fn on_req(&mut self, s: Subscription, unix_now: u64, per_min: Option<u32>) -> (step: Step)
        requires
            old(self).wf(),
        ensures
            final(self).wf(),
            (final(self)@, step@) == old(self)@.on_req(s@, unix_now, per_min),
    {
        let mut actions: Vec<Action> = Vec::new();
        assert(actions.deep_view() =~= Seq::empty());
        if self.conn.has_subscription(s.id.as_str()) {
            return Step { actions, go_on: true };
        }
        actions.push(Action::Record(Metric::CmdReq));
        let ghost counted = seq![ActionView::Record(Metric::CmdReq)];
        assert(actions.deep_view() =~= counted);
        let limited = match per_min {
            Some(n) => n > 0,
            None => false,
        };
        if limited {
            actions.push(Action::AwaitLimiter);
            assert(actions.deep_view() =~= counted.push(ActionView::AwaitLimiter));
        }
        let ghost head = actions.deep_view();
        let historical = s.needs_historical_events(unix_now);
        let id = s.id.clone();
        let ghost sv = s@;
        match self.conn.subscribe(s) {
            Ok(_) => {
                self.running.push(id.clone());
                actions.push(Action::OpenQuery { sub_id: id, historical });
                proof {
                    assert(self.running.deep_view() =~= old(self)@.running.push(sv.id));
                    assert(ids_of(old(self)@.conn.subscriptions.push(sv)) =~= ids_of(
                        old(self)@.conn.subscriptions,
                    ).push(sv.id));
                    assert(actions.deep_view() =~= head.push(
                        ActionView::OpenQuery { sub_id: sv.id, historical },
                    ));
                }
            },
            Err(e) => {
                let mut text = "Subscription error: ".to_owned();
                let why = e.message();
                text.append(why.as_str());
                actions.push(Action::SendText(build_notice_frame(text)));
                assert(actions.deep_view() =~= head.push(
                    ActionView::SendText(notice_frame(subscription_error_text(e))),
                ));
            },
        }
        Step { actions, go_on: true }
    }

    fn on_close(&mut self, id: String) -> (step: Step)
        requires
            old(self).wf(),
        ensures
            final(self).wf(),
            (final(self)@, step@) == old(self)@.on_close(id@),
    {
        let mut actions: Vec<Action> = Vec::new();
        actions.push(Action::Record(Metric::CmdClose));
        let ghost counted = seq![ActionView::Record(Metric::CmdClose)];
        assert(actions.deep_view() =~= counted);
        let ghost subs = self@.conn.subscriptions;
        let ghost running = self@.running;
        let pos = self.conn.position(id.as_str());
        self.conn.unsubscribe(id.as_str());
        proof {
            lemma_names_follow(subs, id@);
        }
        match pos {
            Some(i) => {
                self.running.remove(i);
                assert(self.running.deep_view() =~= running.remove(i as int));
                actions.push(Action::Cancel(id));
                assert(actions.deep_view() =~= counted.push(ActionView::Cancel(id@)));
            },
            None => {},
        }
        Step { actions, go_on: true }
    }

    /// A text frame of the client was decoded to `cmd`; `check` is what the
    /// event module found of the event, where `cmd` is an `EVENT` command,
    /// and `unix_now` the time of day in seconds.
    pub fn on_command(
        &mut self,
        cmd: Result<NostrMessage, Error>,
        check: &EventCheck,
        unix_now: u64,
        settings: &Settings,
    ) -> (step: Step)
        requires
            old(self).wf(),
        ensures
            final(self).wf(),
            (final(self)@, step@) == old(self)@.on_command(
                match cmd {
                    Ok(m) => Ok(m@),
                    Err(e) => Err(e),
                },
                check@,
                unix_now,
                *settings,
            ),
    {
        match cmd {
            Ok(NostrMessage::EventMsg(ec)) => self.on_event(
                ec.event,
                check,
                unix_now,
                settings.options.reject_future_seconds,
            ),
            Ok(NostrMessage::SubMsg(s)) => self.on_req(
                s,
                unix_now,
                settings.limits.subscriptions_per_min,
            ),
            Ok(NostrMessage::CloseMsg(cc)) => self.on_close(cc.id),
            Err(Error::ConnError) => {
                let actions: Vec<Action> = Vec::new();
                assert(actions.deep_view() =~= Seq::empty());
                Step { actions, go_on: false }
            },
            Err(Error::EventMaxLengthError(_)) => one(
                Action::SendText(build_notice_frame("event exceeded max size".to_owned())),
                true,
            ),
            Err(Error::ProtoParseError) => one(
                Action::SendText(build_notice_frame("could not parse command".to_owned())),
                true,
            ),
            Err(_) => {
                let actions: Vec<Action> = Vec::new();
                assert(actions.deep_view() =~= Seq::empty());
                Step { actions, go_on: true }
            },
        }
    }

    /// The engine has left its loop: gives the cancel signals to fire and
    /// empties the state.
    pub fn on_end(&mut self) -> (actions: Vec<Action>)
        requires
            old(self).wf(),
        ensures
            final(self).wf(),
            (final(self)@, actions.deep_view()) == old(self)@.on_end(),
    {
        let mut actions: Vec<Action> = Vec::new();
        let ghost running = self@.running;
        let mut i: usize = 0;
        while i < self.running.len()
            invariant
                i <= self.running@.len(),
                self.running.deep_view() == running,
                actions.deep_view() == cancel_all(running.take(i as int)),
            decreases self.running@.len() - i,
        {
            let id = self.running[i].clone();
            let ghost before = actions.deep_view();
            assert(id@ == running[i as int]);
            actions.push(Action::Cancel(id));
            assert(actions.deep_view() =~= before.push(ActionView::Cancel(running[i as int])));
            assert(running.take(i + 1) =~= running.take(i as int).push(running[i as int]));
            assert(actions.deep_view() =~= cancel_all(running.take(i + 1)));
            i += 1;
        }
        assert(running.take(running.len() as int) =~= running);
        self.running.clear();
        self.conn.clear();
        assert(self.running.deep_view() =~= Seq::empty());
        assert(ids_of(Seq::<SubscriptionView>::empty()) =~= Seq::empty());
        actions
    }
}

} // verus!
