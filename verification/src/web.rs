//! The relay's HTTP surface: which request gets which answer. Reading the
//! request and writing the answer is the caller's.
use crate::config::Limits;
use crate::text::{contains_text, occurs_in, same_text};
use vstd::prelude::*;
use vstd::string::StringExecFns;

verus! {

/// How many frames may wait to be sent on one WebSocket.
pub const MAX_SEND_QUEUE: usize = 1024;

/// What a request asks for.
#[derive(Clone, Copy, Debug, PartialEq, Eq, Structural)]
pub enum Route {
    /// A WebSocket connection.
    Upgrade,
    /// The relay information document.
    RelayInfo,
    /// The page for visitors without a Nostr client.
    Landing,
    /// The metrics of the relay.
    Metrics,
    /// Nothing that the relay serves.
    NotFound,
}

/// The route of a request for `path`, which carries an upgrade header or
/// not, and an accept header or none: `/` with an upgrade header is a
/// WebSocket; `/` without one is the information document where the accept
/// header names `application/nostr+json`, else the landing page;
/// `/metrics` without an upgrade header is the metrics; all else is not
/// found.
pub open spec fn route_of(path: Seq<char>, upgrade: bool, accept: Option<Seq<char>>) -> Route {
    if path == "/"@ {
        if upgrade {
            Route::Upgrade
        } else if accept matches Some(types) && occurs_in(types, "application/nostr+json"@) {
            Route::RelayInfo
        } else {
            Route::Landing
        }
    } else if path == "/metrics"@ && !upgrade {
        Route::Metrics
    } else {
        Route::NotFound
    }
}

/// Finds the route of a request.
pub fn route(path: &str, upgrade: bool, accept: Option<&str>) -> (r: Route)
    ensures
        r == route_of(
            path@,
            upgrade,
            match accept {
                Some(a) => Some(a@),
                None => None,
            },
        ),
{
    if same_text(path, "/") {
        if upgrade {
            Route::Upgrade
        } else {
            let wants_info = match accept {
                Some(types) => contains_text(types, "application/nostr+json"),
                None => false,
            };
            if wants_info {
                Route::RelayInfo
            } else {
                Route::Landing
            }
        }
    } else if same_text(path, "/metrics") && !upgrade {
        Route::Metrics
    } else {
        Route::NotFound
    }
}

/// The body of an answer.
#[derive(Clone, Debug, PartialEq, Eq)]
pub enum Content {
    /// The text given.
    Fixed(String),
    /// The relay information document, as JSON.
    RelayInfo,
    /// The metrics registry, in the text exposition format.
    Metrics,
}

/// The mathematical value of a [`Content`].
pub enum ContentView {
    Fixed(Seq<char>),
    RelayInfo,
    Metrics,
}

/// An answer to a request.
#[derive(Clone, Debug, PartialEq, Eq)]
pub struct Reply {
    pub status: u16,
    pub content_type: Option<String>,
    /// Whether the answer allows access from any origin.
    pub any_origin: bool,
    pub content: Content,
}

/// The mathematical value of a [`Reply`].
pub struct ReplyView {
    pub status: u16,
    pub content_type: Option<Seq<char>>,
    pub any_origin: bool,
    pub content: ContentView,
}

impl View for Content {
    type V = ContentView;

    open spec fn view(&self) -> ContentView {
        match self {
            Content::Fixed(text) => ContentView::Fixed(text@),
            Content::RelayInfo => ContentView::RelayInfo,
            Content::Metrics => ContentView::Metrics,
        }
    }
}

impl View for Reply {
    type V = ReplyView;

    open spec fn view(&self) -> ReplyView {
        ReplyView {
            status: self.status,
            content_type: self.content_type.deep_view(),
            any_origin: self.any_origin,
            content: self.content@,
        }
    }
}

impl DeepView for Reply {
    type V = ReplyView;

    open spec fn deep_view(&self) -> ReplyView {
        self@
    }
}

/// The answer to a request by its route; none for a WebSocket, which the
/// handshake answers.
pub open spec fn reply_of(route: Route) -> Option<ReplyView> {
    match route {
        Route::Upgrade => None,
        Route::RelayInfo => Some(
            ReplyView {
                status: 200,
                content_type: Some("application/nostr+json"@),
                any_origin: true,
                content: ContentView::RelayInfo,
            },
        ),
        Route::Landing => Some(
            ReplyView {
                status: 200,
                content_type: Some("text/plain"@),
                any_origin: false,
                content: ContentView::Fixed("Please use a Nostr client to connect."@),
            },
        ),
        Route::Metrics => Some(
            ReplyView {
                status: 200,
                content_type: Some("text/plain"@),
                any_origin: false,
                content: ContentView::Metrics,
            },
        ),
        Route::NotFound => Some(
            ReplyView {
                status: 404,
                content_type: None,
                any_origin: false,
                content: ContentView::Fixed("Nothing here."@),
            },
        ),
    }
}

/// Gives the answer to a request by its route.
pub fn respond(route: Route) -> (r: Option<Reply>)
    ensures
        r.deep_view() == reply_of(route),
{
    match route {
        Route::Upgrade => None,
        Route::RelayInfo => Some(
            Reply {
                status: 200,
                content_type: Some("application/nostr+json".to_owned()),
                any_origin: true,
                content: Content::RelayInfo,
            },
        ),
        Route::Landing => Some(
            Reply {
                status: 200,
                content_type: Some("text/plain".to_owned()),
                any_origin: false,
                content: Content::Fixed("Please use a Nostr client to connect.".to_owned()),
            },
        ),
        Route::Metrics => Some(
            Reply {
                status: 200,
                content_type: Some("text/plain".to_owned()),
                any_origin: false,
                content: Content::Metrics,
            },
        ),
        Route::NotFound => Some(
            Reply {
                status: 404,
                content_type: None,
                any_origin: false,
                content: Content::Fixed("Nothing here.".to_owned()),
            },
        ),
    }
}

/// The answer to a WebSocket request whose handshake failed with `error`.
pub fn handshake_failed(error: &str) -> (r: Reply)
    ensures
        r@ == (ReplyView {
            status: 400,
            content_type: None,
            any_origin: false,
            content: ContentView::Fixed("Failed to create websocket: "@ + error@),
        }),
{
    let mut text = "Failed to create websocket: ".to_owned();
    text.append(error);
    Reply { status: 400, content_type: None, any_origin: false, content: Content::Fixed(text) }
}

/// The client's address: what the configured header says, where the
/// request carries it, else the address of the socket's peer.
pub fn remote_ip(header_ip: Option<String>, peer_ip: String) -> (ip: String)
    ensures
        ip@ == (match header_ip {
            Some(h) => h@,
            None => peer_ip@,
        }),
{
    match header_ip {
        Some(h) => h,
        None => peer_ip,
    }
}

/// The limits of one WebSocket.
#[derive(Clone, Copy, Debug, PartialEq, Eq)]
pub struct WebSocketLimits {
    pub max_send_queue: Option<usize>,
    pub max_message_size: Option<usize>,
    pub max_frame_size: Option<usize>,
}

/// The limits that the relay sets on a WebSocket: a fixed send queue, and
/// the message and frame sizes of the settings.
pub fn websocket_limits(limits: &Limits) -> (w: WebSocketLimits)
    ensures
        w == (WebSocketLimits {
            max_send_queue: Some(MAX_SEND_QUEUE),
            max_message_size: limits.max_ws_message_bytes,
            max_frame_size: limits.max_ws_frame_bytes,
        }),
{
    WebSocketLimits {
        max_send_queue: Some(MAX_SEND_QUEUE),
        max_message_size: limits.max_ws_message_bytes,
        max_frame_size: limits.max_ws_frame_bytes,
    }
}

} // verus!
