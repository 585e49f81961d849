//! Types for declaring sender privacy guarantees relative to the destination peer.

use std::convert::Infallible;
use vstd::prelude::*;

mod sealed;

verus! {

/// A declared transport privacy guarantee.
///
/// Code that writes messages that must be anonymous should require a channel
/// tagged with [`Anonymous`].
pub trait Privacy: sealed::Sealed + Send + Sync {

}

/// Messages cannot be linked to a sender identifier or to one another.
#[derive(Debug)]
pub enum Anonymous {
    /// Holds a type without values, so the tag has none either.
    Never(Infallible),
}

/// Messages may be linked to one another, but not to a sender identifier.
#[derive(Debug)]
pub enum Pseudonymous {
    /// Holds a type without values, so the tag has none either.
    Never(Infallible),
}

/// Sender anonymity remains unspecified.
///
/// This covers authenticated transports and configurations awaiting verification
/// of their privacy properties.
#[derive(Debug)]
pub enum Unspecified {
    /// Holds a type without values, so the tag has none either.
    Never(Infallible),
}

impl sealed::Sealed for Anonymous {

}

impl sealed::Sealed for Pseudonymous {

}

impl sealed::Sealed for Unspecified {

}

impl Privacy for Anonymous {

}

impl Privacy for Pseudonymous {

}

impl Privacy for Unspecified {

}

} // verus!
