//! What the relay counts: the metric families it exposes and the events of
//! a connection's life that are counted in them.
use vstd::prelude::*;

verus! {

/// Where an event that was sent to a client came from.
#[derive(Clone, Copy, Debug, PartialEq, Eq, Structural)]
pub enum Source {
    /// A historical query.
    Db,
    /// The broadcast bus.
    Realtime,
}

/// Why a connection ended.
#[derive(Clone, Copy, Debug, PartialEq, Eq, Structural)]
pub enum Reason {
    Shutdown,
    Timeout,
    Normal,
    Error,
}

/// Why a historical query was given up.
#[derive(Clone, Copy, Debug, PartialEq, Eq, Structural)]
pub enum AbortReason {
    Timeout,
    Overload,
    Cancelled,
}

/// One occurrence to count.
#[derive(Clone, Copy, Debug, PartialEq, Eq, Structural)]
pub enum Metric {
    /// A client connected.
    Connection,
    /// A `REQ` command was taken up.
    CmdReq,
    /// An `EVENT` command was taken up.
    CmdEvent,
    /// A `CLOSE` command was taken up.
    CmdClose,
    /// An event was sent to a client.
    SentEvent(Source),
    /// A client was disconnected.
    Disconnect(Reason),
    /// A historical query was given up.
    QueryAbort(AbortReason),
}

/// The kinds of metric families.
#[derive(Clone, Copy, Debug, PartialEq, Eq, Structural)]
pub enum FamilyKind {
    /// Observations sorted into buckets.
    Histogram,
    /// A count that only grows.
    Counter,
    /// A value that goes up and down.
    Gauge,
    /// Counts that only grow, one for each value of a label.
    LabelledCounter,
}

/// The metric families of the relay.
#[derive(Clone, Copy, Debug, PartialEq, Eq, Structural)]
pub enum Family {
    QuerySub,
    QueryDb,
    WriteEvents,
    SentEvents,
    Connections,
    DbConnections,
    QueryAborts,
    CmdReq,
    CmdEvent,
    CmdClose,
    Disconnects,
    Spams,
}

/// How many metric families the relay has.
pub const FAMILY_COUNT: usize = 12;

/// The families in the order in which they are registered.
pub open spec fn family_at(i: int) -> Family {
    if i == 0 {
        Family::QuerySub
    } else if i == 1 {
        Family::QueryDb
    } else if i == 2 {
        Family::WriteEvents
    } else if i == 3 {
        Family::SentEvents
    } else if i == 4 {
        Family::Connections
    } else if i == 5 {
        Family::DbConnections
    } else if i == 6 {
        Family::QueryAborts
    } else if i == 7 {
        Family::CmdReq
    } else if i == 8 {
        Family::CmdEvent
    } else if i == 9 {
        Family::CmdClose
    } else if i == 10 {
        Family::Disconnects
    } else {
        Family::Spams
    }
}

/// The name under which a family is exposed.
pub open spec fn family_name(f: Family) -> Seq<char> {
    match f {
        Family::QuerySub => "nostr_query_seconds"@,
        Family::QueryDb => "nostr_filter_seconds"@,
        Family::WriteEvents => "nostr_events_write_seconds"@,
        Family::SentEvents => "nostr_events_sent_total"@,
        Family::Connections => "nostr_connections_total"@,
        Family::DbConnections => "nostr_db_connections"@,
        Family::QueryAborts => "nostr_query_abort_total"@,
        Family::CmdReq => "nostr_cmd_req_total"@,
        Family::CmdEvent => "nostr_cmd_event_total"@,
        Family::CmdClose => "nostr_cmd_close_total"@,
        Family::Disconnects => "nostr_disconnects_total"@,
        Family::Spams => "nostr_spams_total"@,
    }
}

/// What a family measures, in words.
pub open spec fn family_help(f: Family) -> Seq<char> {
    match f {
        Family::QuerySub => "Subscription response times"@,
        Family::QueryDb => "Filter SQL query times"@,
        Family::WriteEvents => "Event writing response times"@,
        Family::SentEvents => "Events sent to clients"@,
        Family::Connections => "New connections"@,
        Family::DbConnections => "Active database connections"@,
        Family::QueryAborts => "Aborted queries"@,
        Family::CmdReq => "REQ commands"@,
        Family::CmdEvent => "EVENT commands"@,
        Family::CmdClose => "CLOSE commands"@,
        Family::Disconnects => "Client disconnects"@,
        Family::Spams => "EVENT spams"@,
    }
}

/// The kind of a family.
pub open spec fn family_kind(f: Family) -> FamilyKind {
    match f {
        Family::QuerySub | Family::QueryDb | Family::WriteEvents => FamilyKind::Histogram,
        Family::Connections | Family::CmdReq | Family::CmdEvent | Family::CmdClose => FamilyKind::Counter,
        Family::DbConnections => FamilyKind::Gauge,
        Family::SentEvents | Family::QueryAborts | Family::Disconnects | Family::Spams => FamilyKind::LabelledCounter,
    }
}

/// The label of a labelled family; none for the others.
pub open spec fn family_label(f: Family) -> Option<Seq<char>> {
    match f {
        Family::SentEvents => Some("source"@),
        Family::QueryAborts => Some("reason"@),
        Family::Disconnects => Some("reason"@),
        Family::Spams => Some("author"@),
        _ => None,
    }
}

/// The label value that stands for a source of events.
pub open spec fn source_text(s: Source) -> Seq<char> {
    match s {
        Source::Db => "db"@,
        Source::Realtime => "realtime"@,
    }
}

/// The label value that stands for the end of a connection.
pub open spec fn reason_text(r: Reason) -> Seq<char> {
    match r {
        Reason::Shutdown => "shutdown"@,
        Reason::Timeout => "timeout"@,
        Reason::Normal => "normal"@,
        Reason::Error => "error"@,
    }
}

/// The label value that stands for the end of a query.
pub open spec fn abort_text(r: AbortReason) -> Seq<char> {
    match r {
        AbortReason::Timeout => "timeout"@,
        AbortReason::Overload => "overload"@,
        AbortReason::Cancelled => "cancelled"@,
    }
}

/// The family in which an occurrence is counted.
pub open spec fn metric_family(m: Metric) -> Family {
    match m {
        Metric::Connection => Family::Connections,
        Metric::CmdReq => Family::CmdReq,
        Metric::CmdEvent => Family::CmdEvent,
        Metric::CmdClose => Family::CmdClose,
        Metric::SentEvent(_) => Family::SentEvents,
        Metric::Disconnect(_) => Family::Disconnects,
        Metric::QueryAbort(_) => Family::QueryAborts,
    }
}

/// The label value under which an occurrence is counted, in a labelled
/// family.
pub open spec fn metric_label(m: Metric) -> Option<Seq<char>> {
    match m {
        Metric::SentEvent(s) => Some(source_text(s)),
        Metric::Disconnect(r) => Some(reason_text(r)),
        Metric::QueryAbort(r) => Some(abort_text(r)),
        _ => None,
    }
}

impl AbortReason {
    /// The label value of the reason.
    pub fn label(&self) -> (text: &'static str)
        ensures
            text@ == abort_text(*self),
    {
        match self {
            AbortReason::Timeout => "timeout",
            AbortReason::Overload => "overload",
            AbortReason::Cancelled => "cancelled",
        }
    }
}

impl Source {
    /// The label value of the source.
    pub fn label(&self) -> (text: &'static str)
        ensures
            text@ == source_text(*self),
    {
        match self {
            Source::Db => "db",
            Source::Realtime => "realtime",
        }
    }
}

impl Reason {
    /// The label value of the reason.
    pub fn label(&self) -> (text: &'static str)
        ensures
            text@ == reason_text(*self),
    {
        match self {
            Reason::Shutdown => "shutdown",
            Reason::Timeout => "timeout",
            Reason::Normal => "normal",
            Reason::Error => "error",
        }
    }
}

impl Metric {
    /// The family in which the occurrence is counted.
    pub fn family(&self) -> (f: Family)
        ensures
            f == metric_family(*self),
    {
        match self {
            Metric::Connection => Family::Connections,
            Metric::CmdReq => Family::CmdReq,
            Metric::CmdEvent => Family::CmdEvent,
            Metric::CmdClose => Family::CmdClose,
            Metric::SentEvent(_) => Family::SentEvents,
            Metric::Disconnect(_) => Family::Disconnects,
            Metric::QueryAbort(_) => Family::QueryAborts,
        }
    }

    /// The label value under which the occurrence is counted, if its
    /// family is labelled.
    pub fn label(&self) -> (l: Option<&'static str>)
        ensures
            match l {
                Some(text) => metric_label(*self) == Some(text@),
                None => metric_label(*self) is None,
            },
    {
        match self {
            Metric::SentEvent(s) => Some(s.label()),
            Metric::Disconnect(r) => Some(r.label()),
            Metric::QueryAbort(r) => Some(r.label()),
            _ => None,
        }
    }
}

impl Family {
    /// All families, in the order in which they are registered.
    pub fn all() -> (list: Vec<Family>)
        ensures
            list@.len() == FAMILY_COUNT,
            forall|i: int| 0 <= i < FAMILY_COUNT ==> list@[i] == family_at(i),
    {
        let mut list: Vec<Family> = Vec::new();
        list.push(Family::QuerySub);
        list.push(Family::QueryDb);
        list.push(Family::WriteEvents);
        list.push(Family::SentEvents);
        list.push(Family::Connections);
        list.push(Family::DbConnections);
        list.push(Family::QueryAborts);
        list.push(Family::CmdReq);
        list.push(Family::CmdEvent);
        list.push(Family::CmdClose);
        list.push(Family::Disconnects);
        list.push(Family::Spams);
        list
    }

    /// The name under which the family is exposed.
    pub fn name(&self) -> (text: &'static str)
        ensures
            text@ == family_name(*self),
    {
        match self {
            Family::QuerySub => "nostr_query_seconds",
            Family::QueryDb => "nostr_filter_seconds",
            Family::WriteEvents => "nostr_events_write_seconds",
            Family::SentEvents => "nostr_events_sent_total",
            Family::Connections => "nostr_connections_total",
            Family::DbConnections => "nostr_db_connections",
            Family::QueryAborts => "nostr_query_abort_total",
            Family::CmdReq => "nostr_cmd_req_total",
            Family::CmdEvent => "nostr_cmd_event_total",
            Family::CmdClose => "nostr_cmd_close_total",
            Family::Disconnects => "nostr_disconnects_total",
            Family::Spams => "nostr_spams_total",
        }
    }

    /// What the family measures, in words.
    pub fn help(&self) -> (text: &'static str)
        ensures
            text@ == family_help(*self),
    {
        match self {
            Family::QuerySub => "Subscription response times",
            Family::QueryDb => "Filter SQL query times",
            Family::WriteEvents => "Event writing response times",
            Family::SentEvents => "Events sent to clients",
            Family::Connections => "New connections",
            Family::DbConnections => "Active database connections",
            Family::QueryAborts => "Aborted queries",
            Family::CmdReq => "REQ commands",
            Family::CmdEvent => "EVENT commands",
            Family::CmdClose => "CLOSE commands",
            Family::Disconnects => "Client disconnects",
            Family::Spams => "EVENT spams",
        }
    }

    /// The kind of the family.
    pub fn kind(&self) -> (k: FamilyKind)
        ensures
            k == family_kind(*self),
    {
        match self {
            Family::QuerySub | Family::QueryDb | Family::WriteEvents => FamilyKind::Histogram,
            Family::Connections | Family::CmdReq | Family::CmdEvent | Family::CmdClose => FamilyKind::Counter,
            Family::DbConnections => FamilyKind::Gauge,
            Family::SentEvents | Family::QueryAborts | Family::Disconnects | Family::Spams => FamilyKind::LabelledCounter,
        }
    }

    /// The label of the family, if it is labelled.
    pub fn label(&self) -> (l: Option<&'static str>)
        ensures
            match l {
                Some(text) => family_label(*self) == Some(text@),
                None => family_label(*self) is None,
            },
    {
        match self {
            Family::SentEvents => Some("source"),
            Family::QueryAborts => Some("reason"),
            Family::Disconnects => Some("reason"),
            Family::Spams => Some("author"),
            _ => None,
        }
    }
}

/// A family is labelled exactly if it is a labelled counter.
pub proof fn lemma_labelled_families(f: Family)
    ensures
        family_label(f) is Some <==> family_kind(f) == FamilyKind::LabelledCounter,
{
}

/// Every occurrence is counted in a family of counters, under a label
/// exactly where that family is labelled.
pub proof fn lemma_metric_families(m: Metric)
    ensures
        family_kind(metric_family(m)) == FamilyKind::Counter || family_kind(metric_family(m))
            == FamilyKind::LabelledCounter,
        metric_label(m) is Some <==> family_label(metric_family(m)) is Some,
{
}

} // verus!
