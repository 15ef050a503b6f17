//! Notices: what the relay tells a client outside of subscription results.
use crate::json::{json_string, quote};
use vstd::prelude::*;
use vstd::string::StringExecFns;

verus! {

/// The verdict on one submitted event.
#[derive(Clone, Debug, PartialEq, Eq)]
pub struct EventResult {
    pub id: String,
    pub ok: bool,
    pub msg: String,
}

/// A relay-to-client advisory: free text, or the result of a submission.
#[derive(Clone, Debug, PartialEq, Eq)]
pub enum Notice {
    Message(String),
    EventResult(EventResult),
}

/// The mathematical value of a [`Notice`].
pub enum NoticeView {
    Message(Seq<char>),
    EventResult { id: Seq<char>, ok: bool, msg: Seq<char> },
}

impl View for Notice {
    type V = NoticeView;

    open spec fn view(&self) -> NoticeView {
        match self {
            Notice::Message(m) => NoticeView::Message(m@),
            Notice::EventResult(r) => NoticeView::EventResult { id: r.id@, ok: r.ok, msg: r.msg@ },
        }
    }
}

impl DeepView for Notice {
    type V = NoticeView;

    open spec fn deep_view(&self) -> NoticeView {
        self@
    }
}

/// The wire text of a notice: `["NOTICE",<msg>]` for free text and
/// `["OK",<id>,<true|false>,<msg>]` for a submission result, compact, with the strings
/// as JSON string literals.
pub open spec fn notice_text(n: NoticeView) -> Seq<char> {
    match n {
        NoticeView::Message(m) => "[\"NOTICE\","@ + json_string(m) + "]"@,
        NoticeView::EventResult { id, ok, msg } => "[\"OK\","@ + json_string(id) + (if ok {
            ",true,"@
        } else {
            ",false,"@
        }) + json_string(msg) + "]"@,
    }
}

impl Notice {
    /// A free-text notice.
    pub fn message(msg: String) -> (n: Notice)
        ensures
            n@ == NoticeView::Message(msg@),
    {
        Notice::Message(msg)
    }

    /// The result of a submission that the relay turns down as invalid.
    pub fn invalid(id: String, msg: &str) -> (n: Notice)
        ensures
            n@ == (NoticeView::EventResult { id: id@, ok: false, msg: msg@ }),
    {
        Notice::EventResult(EventResult { id, ok: false, msg: msg.to_owned() })
    }

    /// The result of a submission that was stored.
    pub fn saved(id: String) -> (n: Notice)
        ensures
            n@ == (NoticeView::EventResult { id: id@, ok: true, msg: "stored"@ }),
    {
        Notice::EventResult(EventResult { id, ok: true, msg: "stored".to_owned() })
    }

    /// The result of a submission that the store already held.
    pub fn duplicate(id: String) -> (n: Notice)
        ensures
            n@ == (NoticeView::EventResult {
                id: id@,
                ok: true,
                msg: "duplicate: already have this event"@,
            }),
    {
        Notice::EventResult(
            EventResult { id, ok: true, msg: "duplicate: already have this event".to_owned() },
        )
    }

    /// The result of a submission that failed for a reason given in `msg`.
    pub fn failed(id: String, msg: String) -> (n: Notice)
        ensures
            n@ == (NoticeView::EventResult { id: id@, ok: false, msg: msg@ }),
    {
        Notice::EventResult(EventResult { id, ok: false, msg })
    }
}

/// Turns a notice into the text frame that carries it to the client.
pub fn make_notice_message(notice: &Notice) -> (text: String)
    ensures
        text@ == notice_text(notice@),
{
    match notice {
        Notice::Message(m) => {
            let mut out = "[\"NOTICE\",".to_owned();
            let q = quote(m.as_str());
            out.append(q.as_str());
            out.append("]");
            out
        },
        Notice::EventResult(r) => {
            let mut out = "[\"OK\",".to_owned();
            let id = quote(r.id.as_str());
            out.append(id.as_str());
            if r.ok {
                out.append(",true,");
            } else {
                out.append(",false,");
            }
            let msg = quote(r.msg.as_str());
            out.append(msg.as_str());
            out.append("]");
            out
        },
    }
}

} // verus!
