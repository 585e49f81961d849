//! Identities that only their copies share.

use std::sync::Arc;
use vstd::prelude::*;

verus! {

/// An identity within this process: equal to its clones, and to nothing else.
///
/// Its value here is which allocation it holds on to, not what that allocation contains.
#[verifier::external_body]
#[derive(Debug)]
pub struct Identity(Arc<()>);

/// Makes an allocation with `std::sync::Arc::new`, while another one may be alive.
///
/// Claims that the new allocation is not the one alive.
#[verifier::external_body]
fn allocate(alive: Option<&Identity>) -> (identity: Identity)
    ensures
        alive matches Some(other) ==> identity != *other,
{
    let _ = alive;
    Identity(Arc::new(()))
}

/// Holds on to the same allocation with `std::sync::Arc::clone`.
///
/// Claims that the copy is the same identity.
#[verifier::external_body]
fn share(identity: &Identity) -> (copy: Identity)
    ensures
        copy == *identity,
{
    Identity(Arc::clone(&identity.0))
}

/// Compares two allocations with `std::sync::Arc::ptr_eq`.
///
/// Claims that the answer tells whether the two are the same identity.
#[verifier::external_body]
fn same_allocation(left: &Identity, right: &Identity) -> (same: bool)
    ensures
        same == (*left == *right),
{
    Arc::ptr_eq(&left.0, &right.0)
}

/// Making an identity may give `identity`.
pub closed spec fn may_be_made(identity: Identity) -> bool {
    call_ensures(allocate, (None,), identity)
}

impl Identity {
    /// A new identity.
    pub(crate) fn fresh() -> (identity: Self)
        ensures
            may_be_made(identity),
    {
        let identity = allocate(None);
        identity
    }

    /// A new identity, other than this one.
    pub(crate) fn another(&self) -> (identity: Self)
        ensures
            identity != *self,
    {
        allocate(Some(self))
    }
}

impl Clone for Identity {
    fn clone(&self) -> (identity: Self)
        ensures
            identity == *self,
    {
        share(self)
    }
}

impl PartialEq for Identity {
    fn eq(&self, other: &Self) -> (same: bool) {
        same_allocation(self, other)
    }
}

impl vstd::std_specs::cmp::PartialEqSpecImpl for Identity {
    open spec fn obeys_eq_spec() -> bool {
        true
    }

    open spec fn eq_spec(&self, other: &Self) -> bool {
        *self == *other
    }
}

impl Eq for Identity {

}

/// A new identity is a new allocation, and two identities are equal exactly if they are the
/// same one.
proof fn identities_are_allocations(left: Identity, right: Identity)
    ensures
        may_be_made(left) <==> call_ensures(allocate, (None,), left),
        vstd::std_specs::cmp::PartialEqSpec::eq_spec(&left, &right) <==> left == right,
{
}

} // verus!
