use vstd::prelude::*;

verus! {

/// Keeps the set of privacy guarantees closed.
pub trait Sealed {

}

} // verus!
