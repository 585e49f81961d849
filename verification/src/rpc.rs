//! Carrying a byte channel over a remote procedure call link.
//!
//! The link itself is driven elsewhere; what is decided here is what each answer
//! of the link means, what is sent over it, and when a session has to end.

pub mod builder;
pub mod channel;
pub mod error;
pub mod server;
pub mod wire;
