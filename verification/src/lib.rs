//! Session and event-state-machine layer for a desktop client that observes
//! and controls a local voice-chat host over a JSON-message IPC endpoint.
//!
//! The crate models the host's wire messages as typed values, correlates
//! command replies by nonce, manages the per-channel event subscriptions,
//! keeps an OAuth session alive through token refresh, and derives a
//! consistent "who is in my channel and what are they doing" view from the
//! asynchronous event stream.  All decision logic lives here, verified; the
//! surrounding process does the socket, HTTP and credential-store work and
//! feeds the outcomes back in as plain values.

pub mod auth;
pub mod channel;
pub mod commands;
pub mod config;
pub mod errors;
pub mod incoming;
pub mod member;
pub mod message;
pub mod session;
pub mod subscriptions;
