//! Events as the relay core sees them: validated records whose fields the
//! engine reads, never changes.
use vstd::prelude::*;

verus! {

/// The kind number of metadata events, which the verifier also consumes.
pub const METADATA_KIND: u64 = 0;

/// A client-signed record, the protocol's atomic unit.
#[derive(Clone, Debug, PartialEq, Eq)]
pub struct Event {
    pub id: String,
    pub pubkey: String,
    pub created_at: u64,
    pub kind: u64,
    pub tags: Vec<Vec<String>>,
    pub content: String,
    pub sig: String,
}

/// The mathematical value of an [`Event`].
pub struct EventView {
    pub id: Seq<char>,
    pub pubkey: Seq<char>,
    pub created_at: u64,
    pub kind: u64,
    pub tags: Seq<Seq<Seq<char>>>,
    pub content: Seq<char>,
    pub sig: Seq<char>,
}

impl View for Event {
    type V = EventView;

    open spec fn view(&self) -> EventView {
        EventView {
            id: self.id@,
            pubkey: self.pubkey@,
            created_at: self.created_at,
            kind: self.kind,
            tags: self.tags.deep_view(),
            content: self.content@,
            sig: self.sig@,
        }
    }
}

impl DeepView for Event {
    type V = EventView;

    open spec fn deep_view(&self) -> EventView {
        self@
    }
}

/// Whether a creation time is acceptable at time `now`: with a bound of `n`
/// seconds it may lie at most `n` seconds ahead; without a bound every time
/// is acceptable.
pub open spec fn timestamp_acceptable(created_at: u64, now: u64, reject_future: Option<usize>) -> bool {
    match reject_future {
        Some(n) => created_at <= now + n,
        None => true,
    }
}

impl Event {
    /// Checks the creation time against the configured look-ahead window.
    pub fn is_valid_timestamp(&self, now: u64, reject_future: Option<usize>) -> (ok: bool)
        ensures
            ok == timestamp_acceptable(self.created_at, now, reject_future),
    {
        match reject_future {
            Some(n) => self.created_at <= now || self.created_at - now <= n as u64,
            None => true,
        }
    }

    /// Whether the event is of the metadata kind.
    pub fn is_metadata(&self) -> (b: bool)
        ensures
            b == (self.kind == METADATA_KIND),
    {
        self.kind == METADATA_KIND
    }
}

/// An `EVENT` command: the event a client asks the relay to accept.
#[derive(Clone, Debug, PartialEq, Eq)]
pub struct EventCmd {
    pub event: Event,
}

impl View for EventCmd {
    type V = EventView;

    open spec fn view(&self) -> EventView {
        self.event@
    }
}

} // verus!
