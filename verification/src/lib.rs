//! Event logs, intent scoring and message transports of the Fungi protocol.
//!
//! * [`persist`] records the events of a session.
//! * [`cost`] prices coins and outputs, values intents over time and simulates
//!   what a wallet is left with once it has realized some of them.
//! * [`transport`] holds the message-oriented channel capabilities and adapters.
//! * [`rpc`] decides how a channel is carried over a remote procedure call link.
//! * [`testkit`] holds in-memory links and conformance checks.
//!
//! [`bytes`], [`identity`], [`queues`] and [`text`] hold what these share.

pub mod bytes;
pub mod cost;
pub mod identity;
pub mod persist;
pub mod queues;
pub mod rpc;
pub mod testkit;
pub mod text;
pub mod transport;
