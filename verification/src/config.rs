//! The settings that the relay core reads.
use vstd::prelude::*;

verus! {

/// Where the relay listens and how it keeps connections alive.
#[derive(Clone, Debug, PartialEq, Eq)]
pub struct Network {
    pub address: String,
    pub port: u16,
    /// The request header that carries the client's address, if a proxy
    /// stands in front of the relay.
    pub remote_ip_header: Option<String>,
    pub ping_interval_seconds: u32,
}

/// Bounds on what clients may ask of the relay.
#[derive(Clone, Copy, Debug, PartialEq, Eq)]
pub struct Limits {
    pub max_blocking_threads: usize,
    pub max_event_bytes: Option<usize>,
    pub max_ws_message_bytes: Option<usize>,
    pub max_ws_frame_bytes: Option<usize>,
    pub broadcast_buffer: usize,
    pub event_persist_buffer: usize,
    pub subscriptions_per_min: Option<u32>,
    pub max_subscriptions: usize,
}

/// Behaviour switches.
#[derive(Clone, Copy, Debug, PartialEq, Eq)]
pub struct Options {
    /// How far ahead of the relay's clock an event may be dated, in seconds.
    pub reject_future_seconds: Option<usize>,
}

/// How the relay treats identifier verification.
#[derive(Clone, Copy, Debug, PartialEq, Eq, Structural)]
pub enum VerifiedUsersMode {
    Enabled,
    Passive,
    Disabled,
}

/// Identifier verification settings.
#[derive(Clone, Copy, Debug, PartialEq, Eq)]
pub struct VerifiedUsers {
    pub mode: VerifiedUsersMode,
}

impl VerifiedUsers {
    /// Whether verification runs at all, deciding or only recording.
    pub fn is_active(&self) -> (b: bool)
        ensures
            b == (self.mode != VerifiedUsersMode::Disabled),
    {
        self.mode != VerifiedUsersMode::Disabled
    }
}

/// Where the store lives.
#[derive(Clone, Debug, PartialEq, Eq)]
pub struct Database {
    pub data_directory: String,
}

/// All settings of the core.
#[derive(Clone, Debug, PartialEq, Eq)]
pub struct Settings {
    pub network: Network,
    pub limits: Limits,
    pub options: Options,
    pub verified_users: VerifiedUsers,
    pub database: Database,
}

} // verus!
