//! Traits for message-oriented transport capabilities.
//!
//! An operation goes step by step: a step either ends it, or says that it has to wait and
//! leaves something to go on from. Dropping that cancels the operation. What a transport
//! may do in a step is a relation over its state before and after it, which the
//! adapters pass on to the transport they wrap. A transport that states nothing of its
//! own can always be used, and promises nothing.

use crate::transport::privacy::Privacy;
use vstd::prelude::*;

verus! {

/// How far an operation has come.
#[derive(Debug, PartialEq, Eq)]
pub enum Step<P, T> {
    /// It has to wait, and goes on from this.
    Waiting(P),
    /// It is over, and came to this.
    Done(T),
}

impl<P, T> Step<P, T> {
    /// Whether the operation has to wait.
    pub fn is_waiting(&self) -> (waiting: bool)
        ensures
            waiting == (self is Waiting),
    {
        match self {
            Step::Waiting(_) => true,
            Step::Done(_) => false,
        }
    }

    /// What the operation came to, if it is over.
    pub fn done(self) -> (outcome: Option<T>)
        ensures
            match self {
                Step::Waiting(_) => outcome is None,
                Step::Done(came_to) => outcome == Some(came_to),
            },
    {
        match self {
            Step::Waiting(_) => None,
            Step::Done(outcome) => Some(outcome),
        }
    }
}

/// Send individual messages.
///
/// Canceling a send leaves delivery unknown.
pub trait SendChannel<M = Vec<u8>>: Send + Sized {
    /// Privacy properties for this sender in relation to its destination peer.
    type Privacy: Privacy;

    /// Failure to send a message.
    type SendError: Send + Sync + 'static;

    /// A submission that has to wait.
    type Sending;

    /// Whether `message` may be submitted now.
    open spec fn sendable(&self, message: M) -> bool {
        true
    }

    /// Submitting `message` may take the sender from `pre` to `post` in its first step.
    open spec fn sends(
        pre: Self,
        message: M,
        post: Self,
        step: Step<Self::Sending, Result<(), Self::SendError>>,
    ) -> bool {
        true
    }

    /// Going on with a submission may take the sender from `pre` to `post` in one step.
    open spec fn sends_on(
        pre: Self,
        sending: Self::Sending,
        post: Self,
        step: Step<Self::Sending, Result<(), Self::SendError>>,
    ) -> bool {
        true
    }

    /// Begin to submit one message.
    fn send(&mut self, message: M) -> (step: Step<Self::Sending, Result<(), Self::SendError>>)
        requires
            old(self).sendable(message),
        ensures
            Self::sends(*old(self), message, *final(self), step),
    ;

    /// Go on with a submission that had to wait.
    fn resume_send(&mut self, sending: Self::Sending) -> (step: Step<
        Self::Sending,
        Result<(), Self::SendError>,
    >)
        ensures
            Self::sends_on(*old(self), sending, *final(self), step),
    ;
}

/// A submission of `message` takes the sender from `pre` to `post` and comes to `result`,
/// after having to wait as often as `waits` says: each time with the sender as it was then,
/// and what the submission went on from.
pub open spec fn carries_through<M, C: SendChannel<M>>(
    pre: C,
    message: M,
    waits: Seq<(C, C::Sending)>,
    post: C,
    result: Result<(), C::SendError>,
) -> bool {
    if waits.len() == 0 {
        C::sends(pre, message, post, Step::Done(result))
    } else {
        &&& C::sends(pre, message, waits[0].0, Step::Waiting(waits[0].1))
        &&& forall|i: int|
            0 <= i < waits.len() - 1 ==> #[trigger] waits_on::<M, C>(waits, i)
        &&& C::sends_on(waits.last().0, waits.last().1, post, Step::Done(result))
    }
}

/// After having to wait for the time number `i`, the submission has to wait again.
pub open spec fn waits_on<M, C: SendChannel<M>>(waits: Seq<(C, C::Sending)>, i: int) -> bool {
    C::sends_on(waits[i].0, waits[i].1, waits[i + 1].0, Step::Waiting(waits[i + 1].1))
}

/// Receive individual messages.
pub trait RecvChannel<M = Vec<u8>>: Send + Sized {
    /// Failure to receive a message.
    type RecvError: Send + Sync + 'static;

    /// Whether a message may be asked for now.
    open spec fn receivable(&self) -> bool {
        true
    }

    /// Receiving may take the receiver from `pre` to `post` in one step.
    open spec fn receives(
        pre: Self,
        post: Self,
        step: Step<(), Result<M, Self::RecvError>>,
    ) -> bool {
        true
    }

    /// Receive one message, or find that there is none to receive yet.
    ///
    /// A receiver itself keeps what it needs to go on: it is asked again.
    fn recv(&mut self) -> (step: Step<(), Result<M, Self::RecvError>>)
        requires
            old(self).receivable(),
        ensures
            Self::receives(*old(self), *final(self), step),
    ;
}

/// Receiving one message takes the receiver from `pre` to `post` and comes to `result`, after
/// finding none as often as `waits` says: each time with the receiver as it was then.
pub open spec fn takes_through<M, C: RecvChannel<M>>(
    pre: C,
    waits: Seq<C>,
    post: C,
    result: Result<M, C::RecvError>,
) -> bool {
    &&& forall|i: int| 0 <= i < waits.len() ==> #[trigger] finds_none::<M, C>(pre, waits, i)
    &&& C::receives(
        if waits.len() == 0 {
            pre
        } else {
            waits.last()
        },
        post,
        Step::Done(result),
    )
}

/// Asked for the time number `i`, the receiver has nothing to give yet.
pub open spec fn finds_none<M, C: RecvChannel<M>>(pre: C, waits: Seq<C>, i: int) -> bool {
    C::receives(
        if i == 0 {
            pre
        } else {
            waits[i - 1]
        },
        waits[i],
        Step::Waiting(()),
    )
}

/// A channel that can receive and send messages.
pub trait Channel<I = Vec<u8>, O = Vec<u8>>: RecvChannel<I> + SendChannel<O> {

}

/// Build a channel with a sending capability and matching privacy tag.
pub trait ChannelBuilder<M = Vec<u8>>: Send + Sized {
    /// Construction input.
    type Input: Send + Sync;

    /// Privacy properties established by the builder.
    type Privacy: Privacy;

    /// Produced capability.
    type Channel: SendChannel<M, Privacy = Self::Privacy>;

    /// Failure to build the capability.
    type BuildError: Send + Sync + 'static;

    /// A construction that has to wait.
    type Building;

    /// Whether a channel may be built from `input` now.
    open spec fn buildable(&self, input: Self::Input) -> bool {
        true
    }

    /// Building from `input` may take the builder from `pre` to `post` in its first step.
    open spec fn builds(
        pre: Self,
        input: Self::Input,
        post: Self,
        step: Step<Self::Building, Result<Self::Channel, Self::BuildError>>,
    ) -> bool {
        true
    }

    /// Going on with a construction may take the builder from `pre` to `post` in one step.
    open spec fn builds_on(
        pre: Self,
        building: Self::Building,
        post: Self,
        step: Step<Self::Building, Result<Self::Channel, Self::BuildError>>,
    ) -> bool {
        true
    }

    /// Begin to construct the next capability.
    fn build(&mut self, input: &Self::Input) -> (step: Step<
        Self::Building,
        Result<Self::Channel, Self::BuildError>,
    >)
        requires
            old(self).buildable(*input),
        ensures
            Self::builds(*old(self), *input, *final(self), step),
    ;

    /// Go on with a construction that had to wait.
    fn resume_build(&mut self, building: Self::Building) -> (step: Step<
        Self::Building,
        Result<Self::Channel, Self::BuildError>,
    >)
        ensures
            Self::builds_on(*old(self), building, *final(self), step),
    ;
}

/// A channel associated with a logical message source or destination.
/// This identifies the remote endpoint, not a local daemon or intermediary relay.
pub trait PeerChannel {
    /// Identity of the message source or destination.
    /// Equal values identify the same endpoint within the implementation's scope.
    type Peer: Eq;

    /// The endpoint this capability belongs to.
    closed spec fn endpoint(&self) -> Self::Peer {
        vstd::pervasive::arbitrary()
    }

    /// Return the endpoint's identity.
    fn peer(&self) -> (peer: &Self::Peer)
        ensures
            *peer == self.endpoint(),
    ;
}

} // verus!
