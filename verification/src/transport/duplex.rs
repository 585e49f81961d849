//! Adapter for combining independent channel directions.

use crate::transport::traits::{Channel, RecvChannel, SendChannel, Step};
use vstd::prelude::*;

verus! {

/// A channel composed from independent sending and receiving capabilities.
///
/// The capabilities need not refer to the same peer; this adapter does not
/// validate peer identity.
#[derive(Debug)]
pub struct Duplex<S, R> {
    sender: S,
    receiver: R,
}

impl<S, R> Duplex<S, R> {
    /// The sending capability.
    pub closed spec fn sending(self) -> S {
        self.sender
    }

    /// The receiving capability.
    pub closed spec fn receiving(self) -> R {
        self.receiver
    }

    /// Combine sending and receiving capabilities.
    pub fn new(sender: S, receiver: R) -> (duplex: Self)
        ensures
            duplex.sending() == sender,
            duplex.receiving() == receiver,
    {
        Self { sender, receiver }
    }

    /// Borrow the sending and receiving capabilities side by side.
    pub fn parts_mut(&mut self) -> (parts: (&mut S, &mut R))
        ensures
            *parts.0 == old(self).sending(),
            *parts.1 == old(self).receiving(),
            final(self).sending() == *final(parts.0),
            final(self).receiving() == *final(parts.1),
    {
        (&mut self.sender, &mut self.receiver)
    }

    /// Recover the sending and receiving capabilities.
    pub fn into_parts(self) -> (parts: (S, R))
        ensures
            parts == (self.sending(), self.receiving()),
    {
        (self.sender, self.receiver)
    }
}

impl<M, S: SendChannel<M>, R: Send> SendChannel<M> for Duplex<S, R> {
    type Privacy = S::Privacy;

    type SendError = S::SendError;

    type Sending = S::Sending;

    open spec fn sendable(&self, message: M) -> bool {
        self.sending().sendable(message)
    }

    /// The sending capability submits the message; the receiving one stays as it was.
    open spec fn sends(
        pre: Self,
        message: M,
        post: Self,
        step: Step<Self::Sending, Result<(), Self::SendError>>,
    ) -> bool {
        &&& S::sends(pre.sending(), message, post.sending(), step)
        &&& post.receiving() == pre.receiving()
    }

    /// The sending capability goes on; the receiving one stays as it was.
    open spec fn sends_on(
        pre: Self,
        sending: Self::Sending,
        post: Self,
        step: Step<Self::Sending, Result<(), Self::SendError>>,
    ) -> bool {
        &&& S::sends_on(pre.sending(), sending, post.sending(), step)
        &&& post.receiving() == pre.receiving()
    }

    fn send(&mut self, message: M) -> (step: Step<Self::Sending, Result<(), Self::SendError>>) {
        self.sender.send(message)
    }

    fn resume_send(&mut self, sending: Self::Sending) -> (step: Step<
        Self::Sending,
        Result<(), Self::SendError>,
    >) {
        self.sender.resume_send(sending)
    }
}

impl<M, S: Send, R: RecvChannel<M>> RecvChannel<M> for Duplex<S, R> {
    type RecvError = R::RecvError;

    open spec fn receivable(&self) -> bool {
        self.receiving().receivable()
    }

    /// The receiving capability answers; the sending one stays as it was.
    open spec fn receives(
        pre: Self,
        post: Self,
        step: Step<(), Result<M, Self::RecvError>>,
    ) -> bool {
        &&& R::receives(pre.receiving(), post.receiving(), step)
        &&& post.sending() == pre.sending()
    }

    fn recv(&mut self) -> (step: Step<(), Result<M, Self::RecvError>>) {
        self.receiver.recv()
    }
}

impl<I, O, S: SendChannel<O>, R: RecvChannel<I>> Channel<I, O> for Duplex<S, R> {

}

} // verus!
