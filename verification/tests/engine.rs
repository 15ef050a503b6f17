use nostr_relay::config::{
    Database, Limits, Network, Options, Settings, VerifiedUsers, VerifiedUsersMode,
};
use nostr_relay::conn::ClientConn;
use nostr_relay::engine::{
    Action, Connection, EventCheck, Inbound, QueryResult, Received, Step, LIMITER_JITTER_MS,
    MAX_QUIET_MS,
};
use nostr_relay::error::Error;
use nostr_relay::event::{Event, EventCmd};
use nostr_relay::message::{CloseCmd, NostrMessage};
use nostr_relay::metrics::{Metric, Reason, Source};
use nostr_relay::notice::Notice;
use nostr_relay::subscription::{ReqFilter, Subscription};

fn settings() -> Settings {
    Settings {
        network: Network {
            address: "0.0.0.0".to_string(),
            port: 8080,
            remote_ip_header: None,
            ping_interval_seconds: 300,
        },
        limits: Limits {
            max_blocking_threads: 16,
            max_event_bytes: Some(131072),
            max_ws_message_bytes: None,
            max_ws_frame_bytes: None,
            broadcast_buffer: 16384,
            event_persist_buffer: 4096,
            subscriptions_per_min: None,
            max_subscriptions: 2,
        },
        options: Options { reject_future_seconds: Some(1800) },
        verified_users: VerifiedUsers { mode: VerifiedUsersMode::Disabled },
        database: Database { data_directory: ".".to_string() },
    }
}

fn connect(now_ms: u64) -> Connection {
    let conn = ClientConn::new("1.2.3.4".to_string(), "client".to_string(), 2);
    Connection::new(conn, now_ms).0
}

fn event(kind: u64, created_at: u64) -> Event {
    Event {
        id: "e1".to_string(),
        pubkey: "alice".to_string(),
        created_at,
        kind,
        tags: vec![],
        content: "hi".to_string(),
        sig: "s".to_string(),
    }
}

fn kinds(list: Vec<u64>) -> ReqFilter {
    let mut f = ReqFilter::new();
    f.kinds = Some(list);
    f
}

fn req(id: &str, filters: Vec<ReqFilter>) -> Result<NostrMessage, Error> {
    Ok(NostrMessage::SubMsg(Subscription { id: id.to_string(), filters }))
}

fn close(id: &str) -> Result<NostrMessage, Error> {
    Ok(NostrMessage::CloseMsg(CloseCmd { id: id.to_string() }))
}

fn publish(e: Event) -> Result<NostrMessage, Error> {
    Ok(NostrMessage::EventMsg(EventCmd { event: e }))
}

fn text(t: &str) -> Action {
    Action::SendText(t.to_string())
}

fn go_on(actions: Vec<Action>) -> Step {
    Step { actions, go_on: true }
}

fn leave(actions: Vec<Action>) -> Step {
    Step { actions, go_on: false }
}

fn handled(r: Received) -> Step {
    match r {
        Received::Handled(step) => step,
        Received::Command(c) => panic!("a command: {:?}", c),
    }
}

#[test]
fn new_connection_is_counted() {
    let conn = ClientConn::new("1.2.3.4".to_string(), "client".to_string(), 2);
    let (c, step) = Connection::new(conn, 5);
    assert_eq!(step, go_on(vec![Action::Record(Metric::Connection)]));
    assert_eq!(c.published_count(), 0);
    assert_eq!(c.received_count(), 0);
    assert_eq!(c.client().ip(), "1.2.3.4");
    assert_eq!(c.client().subscription_count(), 0);
}

#[test]
fn new_connection_takes_over_held_subscriptions() {
    let mut conn = ClientConn::new("1.2.3.4".to_string(), "client".to_string(), 4);
    conn.subscribe(Subscription { id: "a".to_string(), filters: vec![kinds(vec![1])] }).unwrap();
    conn.subscribe(Subscription { id: "b".to_string(), filters: vec![] }).unwrap();
    let (mut c, _) = Connection::new(conn, 5);
    assert_eq!(c.running_queries(), &vec!["a".to_string(), "b".to_string()]);
    assert_eq!(c.on_command(req("a", vec![]), &EventCheck::Accepted, 0, &settings()), go_on(vec![]));
    assert_eq!(c.on_end(), vec![Action::Cancel("a".to_string()), Action::Cancel("b".to_string())]);
}

#[test]
fn shutdown_ends_the_connection() {
    let mut c = connect(0);
    assert_eq!(c.on_shutdown(), leave(vec![Action::Record(Metric::Disconnect(Reason::Shutdown))]));
}

#[test]
fn ping_tick_pings_a_client_that_was_heard() {
    let mut c = connect(1000);
    assert_eq!(c.on_ping_tick(1000), go_on(vec![Action::SendPing]));
    assert_eq!(c.on_ping_tick(1000 + MAX_QUIET_MS), go_on(vec![Action::SendPing]));
    assert_eq!(c.on_ping_tick(0), go_on(vec![Action::SendPing]));
}

#[test]
fn ping_tick_drops_a_silent_client() {
    assert_eq!(MAX_QUIET_MS, 20 * 60 * 1000);
    let mut c = connect(1000);
    assert_eq!(
        c.on_ping_tick(1000 + MAX_QUIET_MS + 1),
        leave(vec![Action::Record(Metric::Disconnect(Reason::Timeout))])
    );
    assert_eq!(
        c.on_ping_tick(u64::MAX),
        leave(vec![Action::Record(Metric::Disconnect(Reason::Timeout))])
    );
}

#[test]
fn any_frame_counts_as_activity() {
    let mut c = connect(0);
    let late = MAX_QUIET_MS + 5;
    assert!(!c.on_ping_tick(late).go_on);
    handled(c.on_frame(Inbound::Pong, late - 1, &settings()));
    assert_eq!(c.on_ping_tick(late), go_on(vec![Action::SendPing]));
    assert_eq!(c.on_ping_tick(late + MAX_QUIET_MS - 1), go_on(vec![Action::SendPing]));
    assert!(!c.on_ping_tick(late + MAX_QUIET_MS).go_on);
}

#[test]
fn notice_is_sent() {
    let mut c = connect(0);
    assert_eq!(
        c.on_notice(&Notice::saved("e1".to_string())),
        go_on(vec![text(r#"["OK","e1",true,"stored"]"#)])
    );
    assert_eq!(
        c.on_notice(&Notice::message("slow down".to_string())),
        go_on(vec![text(r#"["NOTICE","slow down"]"#)])
    );
}

#[test]
fn query_result_is_sent_and_counted() {
    let mut c = connect(0);
    let r = QueryResult { sub_id: "x".to_string(), event: r#"{"id":"e1"}"#.to_string() };
    assert_eq!(
        c.on_query_result(&r),
        go_on(vec![
            Action::Record(Metric::SentEvent(Source::Db)),
            text(r#"["EVENT","x",{"id":"e1"}]"#),
        ])
    );
    assert_eq!(c.received_count(), 1);
    c.on_query_result(&r);
    assert_eq!(c.received_count(), 2);
}

#[test]
fn end_of_stored_events_is_sent() {
    let mut c = connect(0);
    let r = QueryResult { sub_id: "x".to_string(), event: "EOSE".to_string() };
    assert_eq!(c.on_query_result(&r), go_on(vec![text(r#"["EOSE","x"]"#)]));
    assert_eq!(c.received_count(), 0);
}

#[test]
fn quotes_are_stripped_from_subscription_names() {
    let mut c = connect(0);
    let eose = QueryResult { sub_id: "a\"b\"".to_string(), event: "EOSE".to_string() };
    assert_eq!(c.on_query_result(&eose), go_on(vec![text(r#"["EOSE","ab"]"#)]));
    let ev = QueryResult { sub_id: "\"q".to_string(), event: "{}".to_string() };
    assert_eq!(
        c.on_query_result(&ev),
        go_on(vec![Action::Record(Metric::SentEvent(Source::Db)), text(r#"["EVENT","q",{}]"#)])
    );
}

#[test]
fn broadcast_reaches_interested_subscriptions_in_order() {
    let mut c = connect(0);
    c.on_command(req("one", vec![kinds(vec![1])]), &EventCheck::Accepted, 0, &settings());
    c.on_command(req("two", vec![kinds(vec![2]), kinds(vec![1])]), &EventCheck::Accepted, 0, &settings());
    let step = c.on_broadcast(&event(1, 5), Some("{E}"));
    assert_eq!(
        step,
        go_on(vec![
            Action::Record(Metric::SentEvent(Source::Realtime)),
            text(r#"["EVENT","one",{E}]"#),
            Action::Record(Metric::SentEvent(Source::Realtime)),
            text(r#"["EVENT","two",{E}]"#),
        ])
    );
    assert_eq!(
        c.on_broadcast(&event(2, 5), Some("{F}")),
        go_on(vec![
            Action::Record(Metric::SentEvent(Source::Realtime)),
            text(r#"["EVENT","two",{F}]"#),
        ])
    );
    assert_eq!(c.on_broadcast(&event(3, 5), Some("{G}")), go_on(vec![]));
    assert_eq!(c.received_count(), 0);
}

#[test]
fn broadcast_without_subscriptions_sends_nothing() {
    let mut c = connect(0);
    assert_eq!(c.on_broadcast(&event(1, 5), Some("{E}")), go_on(vec![]));
}

#[test]
fn broadcast_of_an_event_that_was_not_serialized_sends_nothing() {
    let mut c = connect(0);
    c.on_command(req("one", vec![kinds(vec![1])]), &EventCheck::Accepted, 0, &settings());
    assert_eq!(c.on_broadcast(&event(1, 5), None), go_on(vec![]));
}

#[test]
fn lagging_on_the_bus_keeps_the_connection() {
    let mut c = connect(0);
    c.on_command(req("one", vec![kinds(vec![1])]), &EventCheck::Accepted, 0, &settings());
    assert_eq!(c.on_lagged(17), go_on(vec![]));
    assert_eq!(c.on_lagged(u64::MAX), go_on(vec![]));
    assert!(c.client().has_subscription("one"));
    assert_eq!(c.on_broadcast(&event(1, 5), Some("{E}")).actions.len(), 2);
}

#[test]
fn text_frame_is_decoded() {
    let mut c = connect(0);
    match c.on_frame(Inbound::Text(r#"["CLOSE","x"]"#.to_string()), 1, &settings()) {
        Received::Command(cmd) => assert_eq!(cmd, close("x")),
        Received::Handled(step) => panic!("handled: {:?}", step),
    }
    match c.on_frame(Inbound::Text("garbage".to_string()), 1, &settings()) {
        Received::Command(cmd) => assert_eq!(cmd, Err(Error::ProtoParseError)),
        Received::Handled(step) => panic!("handled: {:?}", step),
    }
}

#[test]
fn text_frame_is_held_to_the_configured_limit() {
    let mut c = connect(0);
    let mut s = settings();
    s.limits.max_event_bytes = Some(20);
    let frame = r#"["EVENT",{"id":"e1","pubkey":"a","created_at":1,"kind":1,"tags":[],"content":"","sig":"s"}]"#;
    match c.on_frame(Inbound::Text(frame.to_string()), 1, &s) {
        Received::Command(cmd) => assert_eq!(cmd, Err(Error::EventMaxLengthError(frame.len()))),
        Received::Handled(step) => panic!("handled: {:?}", step),
    }
}

#[test]
fn binary_frame_is_refused_with_a_notice() {
    let mut c = connect(0);
    assert_eq!(
        handled(c.on_frame(Inbound::Binary, 1, &settings())),
        go_on(vec![text(r#"["NOTICE","binary messages are not accepted"]"#)])
    );
}

#[test]
fn ping_and_pong_frames_pass() {
    let mut c = connect(0);
    assert_eq!(handled(c.on_frame(Inbound::Ping, 1, &settings())), go_on(vec![]));
    assert_eq!(handled(c.on_frame(Inbound::Pong, 1, &settings())), go_on(vec![]));
}

#[test]
fn oversized_message_is_answered_with_a_notice() {
    let mut c = connect(0);
    assert_eq!(
        handled(c.on_frame(Inbound::TooLarge { size: 1048577, max_size: 1048576 }, 1, &settings())),
        go_on(vec![text(r#"["NOTICE","message too large (1048577 > 1048576)"]"#)])
    );
}

#[test]
fn closed_transport_ends_the_connection_normally() {
    for frame in [
        Inbound::Close,
        Inbound::End,
        Inbound::AlreadyClosed,
        Inbound::ConnectionClosed,
        Inbound::ResetWithoutClosingHandshake,
    ] {
        let mut c = connect(0);
        assert_eq!(
            handled(c.on_frame(frame, 1, &settings())),
            leave(vec![Action::Record(Metric::Disconnect(Reason::Normal))])
        );
    }
}

#[test]
fn transport_errors_end_the_connection() {
    for frame in [Inbound::Io, Inbound::Other] {
        let mut c = connect(0);
        assert_eq!(
            handled(c.on_frame(frame, 1, &settings())),
            leave(vec![Action::Record(Metric::Disconnect(Reason::Error))])
        );
    }
}

#[test]
fn valid_event_is_submitted() {
    let mut c = connect(0);
    let step = c.on_command(publish(event(1, 100)), &EventCheck::Accepted, 100, &settings());
    assert_eq!(
        step,
        go_on(vec![Action::Record(Metric::CmdEvent), Action::Submit(event(1, 100))])
    );
    assert_eq!(c.published_count(), 1);
}

#[test]
fn event_at_the_edge_of_the_window_is_submitted() {
    let mut c = connect(0);
    let step = c.on_command(publish(event(1, 1900)), &EventCheck::Accepted, 100, &settings());
    assert_eq!(
        step,
        go_on(vec![Action::Record(Metric::CmdEvent), Action::Submit(event(1, 1900))])
    );
}

#[test]
fn event_from_the_far_future_is_turned_down() {
    let mut c = connect(0);
    let step = c.on_command(publish(event(1, 1901)), &EventCheck::Accepted, 100, &settings());
    assert_eq!(
        step,
        go_on(vec![
            Action::Record(Metric::CmdEvent),
            text(
                r#"["OK","e1",false,"The event created_at field is out of the acceptable range (+1800sec) for this relay."]"#
            ),
        ])
    );
    assert_eq!(c.published_count(), 0);
}

#[test]
fn without_a_window_every_date_is_accepted() {
    let mut c = connect(0);
    let mut s = settings();
    s.options.reject_future_seconds = None;
    let step = c.on_command(publish(event(1, u64::MAX)), &EventCheck::Accepted, 0, &s);
    assert_eq!(
        step,
        go_on(vec![Action::Record(Metric::CmdEvent), Action::Submit(event(1, u64::MAX))])
    );
}

#[test]
fn invalid_event_is_turned_down_with_the_reason() {
    let mut c = connect(0);
    let check = EventCheck::Rejected("event signature is not valid".to_string());
    let step = c.on_command(publish(event(1, 100)), &check, 100, &settings());
    assert_eq!(
        step,
        go_on(vec![
            Action::Record(Metric::CmdEvent),
            text(r#"["OK","e1",false,"event signature is not valid"]"#),
        ])
    );
    assert_eq!(c.published_count(), 0);
}

#[test]
fn req_opens_a_query() {
    let mut c = connect(0);
    let step = c.on_command(req("x", vec![kinds(vec![1])]), &EventCheck::Accepted, 50, &settings());
    assert_eq!(
        step,
        go_on(vec![
            Action::Record(Metric::CmdReq),
            Action::OpenQuery { sub_id: "x".to_string(), historical: true },
        ])
    );
    assert!(c.client().has_subscription("x"));
}

#[test]
fn req_for_the_past_only_needs_no_stored_events() {
    let mut c = connect(0);
    let mut f = ReqFilter::new();
    f.until = Some(49);
    let step = c.on_command(req("x", vec![f]), &EventCheck::Accepted, 50, &settings());
    assert_eq!(
        step,
        go_on(vec![
            Action::Record(Metric::CmdReq),
            Action::OpenQuery { sub_id: "x".to_string(), historical: false },
        ])
    );
    assert!(c.client().has_subscription("x"));
}

#[test]
fn req_waits_for_the_limiter_where_one_is_set() {
    assert_eq!(LIMITER_JITTER_MS, 100);
    let mut c = connect(0);
    let mut s = settings();
    s.limits.subscriptions_per_min = Some(10);
    let step = c.on_command(req("x", vec![kinds(vec![1])]), &EventCheck::Accepted, 50, &s);
    assert_eq!(
        step,
        go_on(vec![
            Action::Record(Metric::CmdReq),
            Action::AwaitLimiter,
            Action::OpenQuery { sub_id: "x".to_string(), historical: true },
        ])
    );
    s.limits.subscriptions_per_min = Some(0);
    let step = c.on_command(req("y", vec![kinds(vec![1])]), &EventCheck::Accepted, 50, &s);
    assert_eq!(
        step,
        go_on(vec![
            Action::Record(Metric::CmdReq),
            Action::OpenQuery { sub_id: "y".to_string(), historical: true },
        ])
    );
}

#[test]
fn duplicate_req_is_ignored() {
    let mut c = connect(0);
    c.on_command(req("x", vec![kinds(vec![1])]), &EventCheck::Accepted, 50, &settings());
    let again = c.on_command(req("x", vec![kinds(vec![2])]), &EventCheck::Accepted, 50, &settings());
    assert_eq!(again, go_on(vec![]));
    assert_eq!(c.client().subscription_count(), 1);
    assert_eq!(c.client().subscriptions()[0].filters, vec![kinds(vec![1])]);
    assert_eq!(c.on_broadcast(&event(2, 5), Some("{}")), go_on(vec![]));
}

#[test]
fn req_beyond_the_limit_is_answered_with_a_notice() {
    let mut c = connect(0);
    let mut s = settings();
    s.limits.subscriptions_per_min = Some(5);
    c.on_command(req("a", vec![kinds(vec![1])]), &EventCheck::Accepted, 50, &s);
    c.on_command(req("b", vec![kinds(vec![1])]), &EventCheck::Accepted, 50, &s);
    let step = c.on_command(req("c", vec![kinds(vec![1])]), &EventCheck::Accepted, 50, &s);
    assert_eq!(
        step,
        go_on(vec![
            Action::Record(Metric::CmdReq),
            Action::AwaitLimiter,
            text(
                r#"["NOTICE","Subscription error: Maximum concurrent subscription count reached"]"#
            ),
        ])
    );
    assert!(!c.client().has_subscription("c"));
    assert_eq!(c.on_end(), vec![Action::Cancel("a".to_string()), Action::Cancel("b".to_string())]);
}

#[test]
fn close_cancels_and_unsubscribes() {
    let mut c = connect(0);
    c.on_command(req("x", vec![kinds(vec![1])]), &EventCheck::Accepted, 50, &settings());
    let step = c.on_command(close("x"), &EventCheck::Accepted, 50, &settings());
    assert_eq!(
        step,
        go_on(vec![Action::Record(Metric::CmdClose), Action::Cancel("x".to_string())])
    );
    assert!(!c.client().has_subscription("x"));
    assert_eq!(c.on_broadcast(&event(1, 5), Some("{}")), go_on(vec![]));
}

#[test]
fn close_of_an_unknown_name_only_counts() {
    let mut c = connect(0);
    c.on_command(req("x", vec![kinds(vec![1])]), &EventCheck::Accepted, 50, &settings());
    let step = c.on_command(close("y"), &EventCheck::Accepted, 50, &settings());
    assert_eq!(step, go_on(vec![Action::Record(Metric::CmdClose)]));
    assert!(c.client().has_subscription("x"));
    assert_eq!(c.client().subscription_count(), 1);
}

#[test]
fn second_close_changes_nothing() {
    let mut c = connect(0);
    c.on_command(req("x", vec![kinds(vec![1])]), &EventCheck::Accepted, 50, &settings());
    c.on_command(req("y", vec![kinds(vec![1])]), &EventCheck::Accepted, 50, &settings());
    c.on_command(close("x"), &EventCheck::Accepted, 50, &settings());
    let again = c.on_command(close("x"), &EventCheck::Accepted, 50, &settings());
    assert_eq!(again, go_on(vec![Action::Record(Metric::CmdClose)]));
    assert_eq!(c.client().subscription_count(), 1);
    assert!(c.client().has_subscription("y"));
    assert_eq!(c.on_end(), vec![Action::Cancel("y".to_string())]);
}

#[test]
fn name_can_be_taken_again_after_close() {
    let mut c = connect(0);
    c.on_command(req("x", vec![kinds(vec![1])]), &EventCheck::Accepted, 50, &settings());
    c.on_command(close("x"), &EventCheck::Accepted, 50, &settings());
    let step = c.on_command(req("x", vec![kinds(vec![2])]), &EventCheck::Accepted, 50, &settings());
    assert_eq!(
        step,
        go_on(vec![
            Action::Record(Metric::CmdReq),
            Action::OpenQuery { sub_id: "x".to_string(), historical: true },
        ])
    );
    assert_eq!(c.client().subscriptions()[0].filters, vec![kinds(vec![2])]);
}

#[test]
fn frame_that_is_too_long_is_answered_with_a_notice() {
    let mut c = connect(0);
    let step = c.on_command(
        Err(Error::EventMaxLengthError(1000000)),
        &EventCheck::Accepted,
        50,
        &settings(),
    );
    assert_eq!(step, go_on(vec![text(r#"["NOTICE","event exceeded max size"]"#)]));
}

#[test]
fn frame_that_is_no_command_is_answered_with_a_notice() {
    let mut c = connect(0);
    let step = c.on_command(Err(Error::ProtoParseError), &EventCheck::Accepted, 50, &settings());
    assert_eq!(step, go_on(vec![text(r#"["NOTICE","could not parse command"]"#)]));
}

#[test]
fn lost_connection_ends_the_engine() {
    let mut c = connect(0);
    let step = c.on_command(Err(Error::ConnError), &EventCheck::Accepted, 50, &settings());
    assert_eq!(step, leave(vec![]));
}

#[test]
fn other_errors_pass() {
    let mut c = connect(0);
    assert_eq!(
        c.on_command(Err(Error::SubMaxExceededError), &EventCheck::Accepted, 50, &settings()),
        go_on(vec![])
    );
    assert_eq!(
        c.on_command(Err(Error::DatabaseDirError), &EventCheck::Accepted, 50, &settings()),
        go_on(vec![])
    );
}

#[test]
fn end_cancels_every_running_query() {
    let mut c = connect(0);
    c.on_command(req("a", vec![kinds(vec![1])]), &EventCheck::Accepted, 50, &settings());
    c.on_command(req("b", vec![kinds(vec![1])]), &EventCheck::Accepted, 50, &settings());
    assert_eq!(c.on_end(), vec![Action::Cancel("a".to_string()), Action::Cancel("b".to_string())]);
    assert_eq!(c.client().subscription_count(), 0);
    assert_eq!(c.on_end(), vec![]);
}

#[test]
fn running_queries_follow_the_subscriptions() {
    let mut c = connect(0);
    let names = |c: &Connection| -> (Vec<String>, Vec<String>) {
        (
            c.client().subscriptions().iter().map(|s| s.id.clone()).collect(),
            c.running_queries().clone(),
        )
    };
    assert_eq!(names(&c), (vec![], vec![]));
    let commands = [
        req("a", vec![kinds(vec![1])]),
        req("b", vec![kinds(vec![1])]),
        req("a", vec![kinds(vec![2])]),
        req("c", vec![kinds(vec![1])]),
        close("a"),
        close("a"),
        req("c", vec![kinds(vec![1])]),
        close("zz"),
        req("a", vec![]),
        close("b"),
    ];
    for cmd in commands {
        c.on_command(cmd, &EventCheck::Accepted, 0, &settings());
        let (held, running) = names(&c);
        assert_eq!(held, running);
        for (i, a) in running.iter().enumerate() {
            for b in running.iter().skip(i + 1) {
                assert_ne!(a, b);
            }
        }
        assert!(held.len() <= 2);
    }
    assert_eq!(names(&c).0, vec!["c".to_string()]);
}

#[test]
fn end_of_an_idle_connection_cancels_nothing() {
    let mut c = connect(0);
    assert_eq!(c.on_end(), vec![]);
}
