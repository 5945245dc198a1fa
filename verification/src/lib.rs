//! Subscriptions to the event streams of an Activeledger node.
//!
//! A [`Config`] says what to listen to: the activity of streams, or the
//! events of contracts. It checks each field against its kind and keeps the
//! path that follows from the fields ([`path`] holds the grammar). An
//! [`ActiveSSE`] takes a finished configuration, hands its path to the
//! transport and wraps the transport's refusal in an error of this library.
//! [`stream`] follows one subscription from its opening to its end.
//!
//! The transport is not part of this library: it is handed in as a function
//! that opens a session at a path.
//!
//! What holds of configurations and of subscriptions whatever the values is
//! proved in [`config_laws`] and [`stream_laws`].

pub mod error;
pub mod path;
pub mod config;
pub mod config_laws;
pub mod stream;
pub mod stream_laws;
pub mod sse;

pub use config::Config;
pub use sse::ActiveSSE;
