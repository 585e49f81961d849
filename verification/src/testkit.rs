//! In-memory links, and checks that a byte channel implementation can be put through.

pub mod bursts;
pub mod conformance;
pub mod convergence;
pub mod mem;
