//! The writer pipeline's rules: who may publish, and what is announced
//! once the store has answered. The pipeline itself, which drains the
//! submission channel and calls the store, is the caller's.
use crate::event::{Event, EventView, METADATA_KIND};
use crate::notice::{Notice, NoticeView};
use crate::subscription::contains_string;
use crate::text::{contains_text, occurs_in};
use vstd::prelude::*;
use vstd::string::StringExecFns;

verus! {

/// Who may publish and what may not be said.
#[derive(Clone, Debug, PartialEq, Eq)]
pub struct Admission {
    /// The authors that may publish; everyone where there is no list.
    pub pubkey_whitelist: Option<Vec<String>>,
    /// Words that mark an event as spam.
    pub keywords: Vec<String>,
}

/// What the verifier says of an event's author under the domain and
/// verified-user policy.
#[derive(Clone, Debug, PartialEq, Eq)]
pub enum Standing {
    /// Nothing stands against the author.
    Clear,
    /// The author may not publish, for the reason given.
    Denied(String),
}

/// The mathematical value of a [`Standing`].
pub enum StandingView {
    Clear,
    Denied(Seq<char>),
}

impl View for Standing {
    type V = StandingView;

    open spec fn view(&self) -> StandingView {
        match self {
            Standing::Clear => StandingView::Clear,
            Standing::Denied(reason) => StandingView::Denied(reason@),
        }
    }
}

/// The mathematical value of an [`Admission`].
pub struct AdmissionView {
    pub pubkey_whitelist: Option<Seq<Seq<char>>>,
    pub keywords: Seq<Seq<char>>,
}

impl View for Admission {
    type V = AdmissionView;

    open spec fn view(&self) -> AdmissionView {
        AdmissionView {
            pubkey_whitelist: self.pubkey_whitelist.deep_view(),
            keywords: self.keywords.deep_view(),
        }
    }
}

/// Whether one of `keywords` occurs in `content`.
pub open spec fn has_keyword(content: Seq<char>, keywords: Seq<Seq<char>>) -> bool {
    exists|i: int| 0 <= i < keywords.len() && occurs_in(content, #[trigger] keywords[i])
}

/// The reason for which an event is turned away before it reaches the
/// store, if there is one: its author is not on the whitelist, the
/// verifier denies the author, or its content holds a keyword, in this
/// order.
pub open spec fn rejection_reason(event: EventView, policy: AdmissionView, standing: StandingView) -> Option<
    Seq<char>,
> {
    if policy.pubkey_whitelist matches Some(list) && !list.contains(event.pubkey) {
        Some("blocked: pubkey is not allowed to publish to this relay"@)
    } else if standing is Denied {
        Some(standing->Denied_0)
    } else if has_keyword(event.content, policy.keywords) {
        Some("blocked: event content is not accepted by this relay"@)
    } else {
        None
    }
}

/// The notice that turns an event away, if it is turned away.
pub open spec fn admission_notice(event: EventView, policy: AdmissionView, standing: StandingView) -> Option<
    NoticeView,
> {
    match rejection_reason(event, policy, standing) {
        Some(msg) => Some(NoticeView::EventResult { id: event.id, ok: false, msg }),
        None => None,
    }
}

fn any_keyword(content: &str, keywords: &Vec<String>) -> (r: bool)
    ensures
        r == has_keyword(content@, keywords.deep_view()),
{
    let mut i: usize = 0;
    while i < keywords.len()
        invariant
            i <= keywords@.len(),
            forall|k: int| 0 <= k < i ==> !occurs_in(content@, #[trigger] keywords.deep_view()[k]),
        decreases keywords@.len() - i,
    {
        assert(keywords.deep_view()[i as int] == keywords@[i as int]@);
        if contains_text(content, keywords[i].as_str()) {
            return true;
        }
        i += 1;
    }
    false
}

/// Applies the publication policy to a submitted event: gives the notice
/// for the submitter where the event is turned away, nothing where it may
/// go on to the store.
pub fn screen(event: &Event, policy: &Admission, standing: &Standing) -> (r: Option<Notice>)
    ensures
        r.deep_view() == admission_notice(event@, policy@, standing@),
{
    let listed = match &policy.pubkey_whitelist {
        Some(list) => contains_string(list, &event.pubkey),
        None => true,
    };
    if !listed {
        return Some(
            Notice::invalid(
                event.id.clone(),
                "blocked: pubkey is not allowed to publish to this relay",
            ),
        );
    }
    match standing {
        Standing::Denied(reason) => {
            return Some(Notice::invalid(event.id.clone(), reason.as_str()));
        },
        Standing::Clear => {},
    }
    if any_keyword(event.content.as_str(), &policy.keywords) {
        return Some(
            Notice::invalid(
                event.id.clone(),
                "blocked: event content is not accepted by this relay",
            ),
        );
    }
    None
}

/// What the store made of an event.
#[derive(Clone, Debug, PartialEq, Eq)]
pub enum WriteOutcome {
    /// The event is new and was stored.
    Stored,
    /// The store held the event already.
    Duplicate,
    /// The store turned the event down, for the reason given.
    Invalid(String),
    /// The store could not be reached; the message says why.
    Transient(String),
}

/// The mathematical value of a [`WriteOutcome`].
pub enum WriteOutcomeView {
    Stored,
    Duplicate,
    Invalid(Seq<char>),
    Transient(Seq<char>),
}

impl View for WriteOutcome {
    type V = WriteOutcomeView;

    open spec fn view(&self) -> WriteOutcomeView {
        match self {
            WriteOutcome::Stored => WriteOutcomeView::Stored,
            WriteOutcome::Duplicate => WriteOutcomeView::Duplicate,
            WriteOutcome::Invalid(reason) => WriteOutcomeView::Invalid(reason@),
            WriteOutcome::Transient(msg) => WriteOutcomeView::Transient(msg@),
        }
    }
}

/// What the writer does once the store has answered.
#[derive(Clone, Debug, PartialEq, Eq)]
pub struct Announcement {
    /// The notice for the submitter.
    pub notice: Notice,
    /// Whether the event goes out on the broadcast bus.
    pub broadcast: bool,
    /// Whether the event goes out on the metadata bus as well.
    pub metadata: bool,
}

/// The mathematical value of an [`Announcement`].
pub struct AnnouncementView {
    pub notice: NoticeView,
    pub broadcast: bool,
    pub metadata: bool,
}

impl View for Announcement {
    type V = AnnouncementView;

    open spec fn view(&self) -> AnnouncementView {
        AnnouncementView { notice: self.notice@, broadcast: self.broadcast, metadata: self.metadata }
    }
}

/// The announcement that follows an answer of the store: only a stored
/// event is published, and on the metadata bus only one of the metadata
/// kind; the submitter is told the outcome either way.
pub open spec fn announcement(event: EventView, outcome: WriteOutcomeView) -> AnnouncementView {
    match outcome {
        WriteOutcomeView::Stored => AnnouncementView {
            notice: NoticeView::EventResult { id: event.id, ok: true, msg: "stored"@ },
            broadcast: true,
            metadata: event.kind == METADATA_KIND,
        },
        WriteOutcomeView::Duplicate => AnnouncementView {
            notice: NoticeView::EventResult {
                id: event.id,
                ok: true,
                msg: "duplicate: already have this event"@,
            },
            broadcast: false,
            metadata: false,
        },
        WriteOutcomeView::Invalid(reason) => AnnouncementView {
            notice: NoticeView::EventResult { id: event.id, ok: false, msg: reason },
            broadcast: false,
            metadata: false,
        },
        WriteOutcomeView::Transient(msg) => AnnouncementView {
            notice: NoticeView::EventResult { id: event.id, ok: false, msg: "error: "@ + msg },
            broadcast: false,
            metadata: false,
        },
    }
}

/// Decides what to announce for an event once the store has answered.
pub fn announce(event: &Event, outcome: WriteOutcome) -> (a: Announcement)
    ensures
        a@ == announcement(event@, outcome@),
{
    let id = event.id.clone();
    match outcome {
        WriteOutcome::Stored => Announcement {
            notice: Notice::saved(id),
            broadcast: true,
            metadata: event.is_metadata(),
        },
        WriteOutcome::Duplicate => Announcement {
            notice: Notice::duplicate(id),
            broadcast: false,
            metadata: false,
        },
        WriteOutcome::Invalid(reason) => Announcement {
            notice: Notice::failed(id, reason),
            broadcast: false,
            metadata: false,
        },
        WriteOutcome::Transient(msg) => {
            let mut text = "error: ".to_owned();
            text.append(msg.as_str());
            Announcement { notice: Notice::failed(id, text), broadcast: false, metadata: false }
        },
    }
}

} // verus!
