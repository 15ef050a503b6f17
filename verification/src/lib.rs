//! Core of a Nostr relay: the per-connection protocol engine, the message
//! codec, and the rules of the writer pipeline, the query dispatcher and the
//! supervisor, with their contracts.
//!
//! The core decides and never waits. Whatever takes time or touches the
//! outside world (sockets, channels, timers, the store) belongs to the
//! caller, which hands in what happened and carries out what the core
//! answers:
//!
//! - [`message`] decodes text frames to commands, over [`json`];
//! - [`engine`] is the state machine of one connection, over the client
//!   state of [`conn`] and the filters of [`subscription`];
//! - [`writer`] says who may publish and what is announced after a write;
//! - [`query`] says what a historical query puts onto the result channel;
//! - [`web`] routes HTTP requests, [`supervisor`] lays out the startup,
//!   [`limiter`] sets the rate limit and [`metrics`] names what is counted;
//! - [`laws`] holds what is proved of the transitions taken together.

pub mod config;
pub mod conn;
pub mod engine;
pub mod error;
pub mod event;
pub mod json;
pub mod laws;
pub mod limiter;
pub mod message;
pub mod metrics;
pub mod notice;
pub mod query;
pub mod subscription;
pub mod supervisor;
pub mod text;
pub mod web;
pub mod writer;
