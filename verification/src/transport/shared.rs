//! Adapter for splitting a shared channel backend.

use crate::transport::traits::{Channel, PeerChannel, RecvChannel, SendChannel, Step};
use std::sync::Arc;
use vstd::prelude::*;

verus! {

/// A channel supporting independent operations through shared access.
///
/// Internal synchronization must allow sending to progress while receiving is
/// pending, and receiving to progress while sending is pending. This does not
/// guarantee progress when the network or peer is unresponsive.
pub trait SharedChannel<I = Vec<u8>, O = Vec<u8>>: Channel<I, O> + Sync {
    /// Whether `message` may be submitted through shared access.
    open spec fn sendable_shared(&self, message: O) -> bool {
        true
    }

    /// Submitting `message` through shared access may come to `step` at first.
    open spec fn sends_shared(
        &self,
        message: O,
        step: Step<
            <Self as SendChannel<O>>::Sending,
            Result<(), <Self as SendChannel<O>>::SendError>,
        >,
    ) -> bool {
        true
    }

    /// Going on with a submission through shared access may come to `step`.
    open spec fn sends_on_shared(
        &self,
        sending: <Self as SendChannel<O>>::Sending,
        step: Step<
            <Self as SendChannel<O>>::Sending,
            Result<(), <Self as SendChannel<O>>::SendError>,
        >,
    ) -> bool {
        true
    }

    /// Whether a message may be asked for through shared access.
    open spec fn receivable_shared(&self) -> bool {
        true
    }

    /// Receiving through shared access may come to `step`.
    open spec fn receives_shared(
        &self,
        step: Step<(), Result<I, <Self as RecvChannel<I>>::RecvError>>,
    ) -> bool {
        true
    }

    /// Begin to submit one message through shared access.
    fn send_shared(&self, message: O) -> (step: Step<
        <Self as SendChannel<O>>::Sending,
        Result<(), <Self as SendChannel<O>>::SendError>,
    >)
        requires
            self.sendable_shared(message),
        ensures
            self.sends_shared(message, step),
    ;

    /// Go on with a submission through shared access that had to wait.
    fn resume_send_shared(&self, sending: <Self as SendChannel<O>>::Sending) -> (step: Step<
        <Self as SendChannel<O>>::Sending,
        Result<(), <Self as SendChannel<O>>::SendError>,
    >)
        ensures
            self.sends_on_shared(sending, step),
    ;

    /// Receive one message through shared access, or find that there is none to receive yet.
    fn recv_shared(&self) -> (step: Step<(), Result<I, <Self as RecvChannel<I>>::RecvError>>)
        requires
            self.receivable_shared(),
        ensures
            self.receives_shared(step),
    ;
}

/// Sending capability backed by a shared channel.
pub struct SharedSendHalf<C, I, O> {
    channel: Arc<C>,
    messages: Ghost<Option<(I, O)>>,
}

/// Receiving capability backed by a shared channel.
pub struct SharedRecvHalf<C, I, O> {
    channel: Arc<C>,
    messages: Ghost<Option<(I, O)>>,
}

impl<C, I, O> SharedSendHalf<C, I, O> {
    /// The channel both halves share.
    pub closed spec fn backend(self) -> C {
        *self.channel
    }

    /// The channel both halves share.
    pub fn channel(&self) -> (channel: &C)
        ensures
            *channel == self.backend(),
    {
        &self.channel
    }
}

impl<C, I, O> SharedRecvHalf<C, I, O> {
    /// The channel both halves share.
    pub closed spec fn backend(self) -> C {
        *self.channel
    }

    /// The channel both halves share.
    pub fn channel(&self) -> (channel: &C)
        ensures
            *channel == self.backend(),
    {
        &self.channel
    }
}

/// Two handles to one channel, each for one direction.
pub fn share<I, O, C>(channel: C) -> (halves: (
    SharedSendHalf<C, I, O>,
    SharedRecvHalf<C, I, O>,
))
    ensures
        halves.0.backend() == channel,
        halves.1.backend() == channel,
{
    let channel = Arc::new(channel);
    (
        SharedSendHalf { channel: Arc::clone(&channel), messages: Ghost(None) },
        SharedRecvHalf { channel, messages: Ghost(None) },
    )
}

/// Split a shared channel into independently owned capabilities.
pub fn split<I, O, C: SharedChannel<I, O>>(channel: C) -> (halves: (
    SharedSendHalf<C, I, O>,
    SharedRecvHalf<C, I, O>,
))
    ensures
        halves.0.backend() == channel,
        halves.1.backend() == channel,
{
    share(channel)
}

impl<I, O, C: SharedChannel<I, O>> SendChannel<O> for SharedSendHalf<C, I, O> {
    type Privacy = C::Privacy;

    type SendError = C::SendError;

    type Sending = C::Sending;

    open spec fn sendable(&self, message: O) -> bool {
        self.backend().sendable_shared(message)
    }

    /// The shared channel submits the message, and the half goes on sharing it.
    open spec fn sends(
        pre: Self,
        message: O,
        post: Self,
        step: Step<Self::Sending, Result<(), Self::SendError>>,
    ) -> bool {
        &&& pre.backend().sends_shared(message, step)
        &&& post == pre
    }

    /// The shared channel goes on, and the half goes on sharing it.
    open spec fn sends_on(
        pre: Self,
        sending: Self::Sending,
        post: Self,
        step: Step<Self::Sending, Result<(), Self::SendError>>,
    ) -> bool {
        &&& pre.backend().sends_on_shared(sending, step)
        &&& post == pre
    }

    fn send(&mut self, message: O) -> (step: Step<Self::Sending, Result<(), Self::SendError>>) {
        self.channel.send_shared(message)
    }

    fn resume_send(&mut self, sending: Self::Sending) -> (step: Step<
        Self::Sending,
        Result<(), Self::SendError>,
    >) {
        self.channel.resume_send_shared(sending)
    }
}

impl<I, O, C: SharedChannel<I, O>> RecvChannel<I> for SharedRecvHalf<C, I, O> {
    type RecvError = C::RecvError;

    open spec fn receivable(&self) -> bool {
        self.backend().receivable_shared()
    }

    /// The shared channel answers, and the half goes on sharing it.
    open spec fn receives(
        pre: Self,
        post: Self,
        step: Step<(), Result<I, Self::RecvError>>,
    ) -> bool {
        &&& pre.backend().receives_shared(step)
        &&& post == pre
    }

    fn recv(&mut self) -> (step: Step<(), Result<I, Self::RecvError>>) {
        self.channel.recv_shared()
    }
}

impl<C: PeerChannel, I, O> PeerChannel for SharedSendHalf<C, I, O> {
    type Peer = C::Peer;

    open spec fn endpoint(&self) -> C::Peer {
        self.backend().endpoint()
    }

    fn peer(&self) -> (peer: &C::Peer) {
        self.channel.peer()
    }
}

impl<C: PeerChannel, I, O> PeerChannel for SharedRecvHalf<C, I, O> {
    type Peer = C::Peer;

    open spec fn endpoint(&self) -> C::Peer {
        self.backend().endpoint()
    }

    fn peer(&self) -> (peer: &C::Peer) {
        self.channel.peer()
    }
}

} // verus!
