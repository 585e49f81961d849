//! Scoring the ways a wallet could realize what the user has asked it to do.

pub mod blockspace;
pub mod chain;
pub mod intent;
pub mod queue;
pub mod selection;
pub mod simulate;
pub mod wallet;
