//! Type-directed channel transformations.

use crate::transport::traits::{PeerChannel, RecvChannel, SendChannel, Step};
use vstd::prelude::*;

verus! {

/// A sending channel that transforms messages before submission.
pub struct Contramap<C, F, W> {
    channel: C,
    transform: F,
    message: Ghost<Option<W>>,
}

impl<C, F, W> Contramap<C, F, W> {
    /// The channel that takes the transformed messages.
    pub closed spec fn target(self) -> C {
        self.channel
    }

    /// The transformation applied to outgoing messages.
    pub closed spec fn conversion(self) -> F {
        self.transform
    }

    /// Transform messages accepted by a sending channel.
    pub fn new(channel: C, transform: F) -> (adapter: Self)
        ensures
            adapter.target() == channel,
            adapter.conversion() == transform,
    {
        Self { channel, transform, message: Ghost(None) }
    }

    /// Turn an outgoing message into what the channel is handed.
    pub fn prepare<T>(&mut self, message: T) -> (prepared: W) where F: FnMut(T) -> W
        requires
            call_requires(old(self).conversion(), (message,)),
        ensures
            call_ensures(old(self).conversion(), (message,), prepared),
            final(self).target() == old(self).target(),
    {
        (self.transform)(message)
    }

    /// The channel that takes the transformed messages.
    pub fn channel_mut(&mut self) -> (channel: &mut C)
        ensures
            *channel == old(self).target(),
            final(self).target() == *final(channel),
            final(self).conversion() == old(self).conversion(),
    {
        &mut self.channel
    }
}

impl<T: Send, W, C: SendChannel<W>, F: FnMut(T) -> W + Send> SendChannel<T> for Contramap<C, F, W> {
    type Privacy = C::Privacy;

    type SendError = C::SendError;

    type Sending = C::Sending;

    open spec fn sendable(&self, message: T) -> bool {
        &&& call_requires(self.conversion(), (message,))
        &&& forall|prepared: W|
            #[trigger] call_ensures(self.conversion(), (message,), prepared)
                ==> self.target().sendable(prepared)
    }

    /// The channel submits what the transformation makes of the message.
    open spec fn sends(
        pre: Self,
        message: T,
        post: Self,
        step: Step<Self::Sending, Result<(), Self::SendError>>,
    ) -> bool {
        exists|prepared: W|
            {
                &&& #[trigger] call_ensures(pre.conversion(), (message,), prepared)
                &&& C::sends(pre.target(), prepared, post.target(), step)
            }
    }

    /// The channel goes on; nothing is transformed again.
    open spec fn sends_on(
        pre: Self,
        sending: Self::Sending,
        post: Self,
        step: Step<Self::Sending, Result<(), Self::SendError>>,
    ) -> bool {
        &&& C::sends_on(pre.target(), sending, post.target(), step)
        &&& post.conversion() == pre.conversion()
    }

    fn send(&mut self, message: T) -> (step: Step<Self::Sending, Result<(), Self::SendError>>) {
        let prepared = self.prepare(message);
        self.channel.send(prepared)
    }

    fn resume_send(&mut self, sending: Self::Sending) -> (step: Step<
        Self::Sending,
        Result<(), Self::SendError>,
    >) {
        self.channel.resume_send(sending)
    }
}

impl<C: PeerChannel, F, W> PeerChannel for Contramap<C, F, W> {
    type Peer = C::Peer;

    open spec fn endpoint(&self) -> C::Peer {
        self.target().endpoint()
    }

    fn peer(&self) -> (peer: &C::Peer) {
        self.channel.peer()
    }
}

/// A receiving channel that transforms messages after reception.
pub struct MapRecv<C, F, W> {
    channel: C,
    transform: F,
    message: Ghost<Option<W>>,
}

impl<C, F, W> MapRecv<C, F, W> {
    /// The channel that produces the messages.
    pub closed spec fn source(self) -> C {
        self.channel
    }

    /// The transformation applied to incoming messages.
    pub closed spec fn conversion(self) -> F {
        self.transform
    }

    /// Transform messages produced by a receiving channel.
    pub fn new(channel: C, transform: F) -> (adapter: Self)
        ensures
            adapter.source() == channel,
            adapter.conversion() == transform,
    {
        Self { channel, transform, message: Ghost(None) }
    }

    /// Turn what the channel answered into what the caller gets.
    pub fn finish<T, E>(&mut self, received: Result<W, E>) -> (result: Result<T, E>) where
        F: FnMut(W) -> T,

        requires
            received matches Ok(message) ==> call_requires(old(self).conversion(), (message,)),
        ensures
            match received {
                Ok(message) => result matches Ok(mapped) && call_ensures(
                    old(self).conversion(),
                    (message,),
                    mapped,
                ),
                Err(error) => {
                    &&& result == Err::<T, E>(error)
                    &&& final(self).conversion() == old(self).conversion()
                },
            },
            final(self).source() == old(self).source(),
    {
        match received {
            Ok(message) => Ok((self.transform)(message)),
            Err(error) => Err(error),
        }
    }

    /// The channel that produces the messages.
    pub fn channel_mut(&mut self) -> (channel: &mut C)
        ensures
            *channel == old(self).source(),
            final(self).source() == *final(channel),
            final(self).conversion() == old(self).conversion(),
    {
        &mut self.channel
    }
}

impl<T, W, C: RecvChannel<W>, F: FnMut(W) -> T + Send> RecvChannel<T> for MapRecv<C, F, W> {
    type RecvError = C::RecvError;

    open spec fn receivable(&self) -> bool {
        &&& self.source().receivable()
        &&& forall|after: C, step: Step<(), Result<W, Self::RecvError>>| #[trigger]
            C::receives(self.source(), after, step) ==> (step matches Step::Done(Ok(message))
                ==> call_requires(self.conversion(), (message,)))
    }

    /// The channel's message is transformed. While there is none, and where the channel
    /// fails, that is passed on as it is, and the transformation stays as it was.
    open spec fn receives(
        pre: Self,
        post: Self,
        step: Step<(), Result<T, Self::RecvError>>,
    ) -> bool {
        exists|received: Step<(), Result<W, Self::RecvError>>|
            {
                &&& #[trigger] C::receives(pre.source(), post.source(), received)
                &&& match received {
                    Step::Waiting(_) => {
                        &&& step is Waiting
                        &&& post.conversion() == pre.conversion()
                    },
                    Step::Done(Ok(message)) => {
                        &&& step matches Step::Done(Ok(mapped))
                        &&& call_ensures(pre.conversion(), (message,), mapped)
                    },
                    Step::Done(Err(error)) => {
                        &&& step == Step::<(), Result<T, Self::RecvError>>::Done(Err(error))
                        &&& post.conversion() == pre.conversion()
                    },
                }
            }
    }

    fn recv(&mut self) -> (step: Step<(), Result<T, Self::RecvError>>) {
        let received = self.channel.recv();
        assert(C::receives(old(self).source(), self.source(), received));
        match received {
            Step::Waiting(()) => Step::Waiting(()),
            Step::Done(outcome) => Step::Done(self.finish(outcome)),
        }
    }
}

impl<C: PeerChannel, F, W> PeerChannel for MapRecv<C, F, W> {
    type Peer = C::Peer;

    open spec fn endpoint(&self) -> C::Peer {
        self.source().endpoint()
    }

    fn peer(&self) -> (peer: &C::Peer) {
        self.channel.peer()
    }
}

} // verus!
