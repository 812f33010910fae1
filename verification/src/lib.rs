//! Client core for submitting Solana transactions to Nozomi over QUIC/H3.
//!
//! - [`NozomiConfig`] and [`NozomiEndpoint`] say whom to talk to.
//! - [`NozomiQuicClient`] encodes batches, builds requests and decides what the network is to
//!   do next: each operation is a chain of [`Step`]s, whose outcomes the caller hands back.
//! - [`quic`] holds the settings of the transport and of TLS, and the trusted certificates.
//! - [`laws`] holds what is proved of the client as a whole.
//!
//! The network itself is the caller's.
//!
//! - Persistent connection with automatic reconnection
//! - Pre-resolved DNS cached across reconnects
//! - Keep-alives to maintain a warm connection
//! - Binary length-prefixed batch wire format
//! - Pre-parsed URI and headers (zero per-send parsing)
//! - No internal locking: single owner, caller controls concurrency

pub mod buffer;
pub mod client;
pub mod config;
pub mod endpoint;
pub mod error;
pub mod http_types;
pub mod laws;
pub mod protocol;
pub mod query;
pub mod quic;
pub mod quic_types;
pub mod text;
pub mod wire;

pub use client::{Attempt, Goal, NozomiQuicClient, Step};
pub use config::NozomiConfig;
pub use endpoint::NozomiEndpoint;
pub use error::{ConnectFailure, Error, SendFailure, SetupFailure};
pub use protocol::Address;
pub use wire::MAX_BATCH_SIZE;
