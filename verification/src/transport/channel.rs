//! Independent sending and receiving capabilities for one peer.

use crate::transport::codec::{Codec, CodecChannel};
use crate::transport::shared::{self, SharedChannel, SharedRecvHalf, SharedSendHalf};
use crate::transport::traits::{self, PeerChannel, RecvChannel, SendChannel, Step};
use std::sync::Arc;
use vstd::prelude::*;
use vstd::std_specs::cmp::PartialEqSpec;

verus! {

/// Consume a duplex channel and return its independent directions.
///
/// Splitting preserves the sender's established privacy guarantee.
pub fn split<S, R>(channel: Channel<S, R>) -> (directions: (S, R))
    ensures
        directions == (channel.sending(), channel.receiving()),
{
    channel.into_split()
}

/// Peer mismatch detected while pairing capabilities.
#[derive(Debug, PartialEq, Eq, Structural)]
pub struct PeerMismatch;

impl PeerMismatch {
    /// The message shown for this failure.
    pub fn to_string(&self) -> (text: String)
        ensures
            text@ == "channel peers differ"@,
    {
        "channel peers differ".to_owned()
    }
}

/// Duplex adapter owning two independent directions for the same peer.
///
/// [`Self::new`] pairs native simplex resources; [`Self::from_shared`] wraps a
/// native shared-access duplex resource. Every adapter can be consumed into its
/// directions. Exclusive operations on the whole adapter are sequential; use
/// [`Self::directions`] or [`Self::into_split`] for concurrent operations.
/// Delivery and protocol liveness depend on backend guarantees and driver policy.
///
/// Construction must establish that both capabilities concern the same peer.
/// It must also account for session authentication in either direction when
/// assigning the sender's privacy guarantee. The supplied directions must allow
/// independent progress when used concurrently. Comparing destination values
/// establishes peer identity even when the capabilities share Rust types.
#[derive(Debug)]
pub struct Channel<S, R> {
    sender: S,
    receiver: R,
}

/// Exclusive sending view preserving the paired capability's identity.
#[derive(Debug)]
pub struct SendView<'a, S>(&'a mut S);

/// Exclusive receiving view preserving the paired capability's identity.
#[derive(Debug)]
pub struct RecvView<'a, R>(&'a mut R);

impl<'a, S> SendView<'a, S> {
    /// The sender in view.
    pub closed spec fn viewed(self) -> &'a mut S {
        self.0
    }
}

impl<'a, R> RecvView<'a, R> {
    /// The receiver in view.
    pub closed spec fn viewed(self) -> &'a mut R {
        self.0
    }
}

impl<S, R> Channel<S, R> {
    /// The sending direction.
    pub closed spec fn sending(self) -> S {
        self.sender
    }

    /// The receiving direction.
    pub closed spec fn receiving(self) -> R {
        self.receiver
    }

    /// Borrow disjoint directions, allowing simultaneous operations on the pair.
    pub fn directions(&mut self) -> (views: (SendView<'_, S>, RecvView<'_, R>))
        ensures
            *views.0.viewed() == old(self).sending(),
            *views.1.viewed() == old(self).receiving(),
            final(self).sending() == *final(views.0.viewed()),
            final(self).receiving() == *final(views.1.viewed()),
    {
        (SendView(&mut self.sender), RecvView(&mut self.receiver))
    }

    /// Consume the adapter and return its independently owned directions.
    pub fn into_split(self) -> (directions: (S, R))
        ensures
            directions == (self.sending(), self.receiving()),
    {
        (self.sender, self.receiver)
    }
}

impl<'a, M, S: SendChannel<M>> SendChannel<M> for SendView<'a, S> {
    type Privacy = S::Privacy;

    type SendError = S::SendError;

    type Sending = S::Sending;

    open spec fn sendable(&self, message: M) -> bool {
        (*self.viewed()).sendable(message)
    }

    /// The viewed sender submits the message.
    open spec fn sends(
        pre: Self,
        message: M,
        post: Self,
        step: Step<Self::Sending, Result<(), Self::SendError>>,
    ) -> bool {
        S::sends(*pre.viewed(), message, *post.viewed(), step)
    }

    /// The viewed sender goes on.
    open spec fn sends_on(
        pre: Self,
        sending: Self::Sending,
        post: Self,
        step: Step<Self::Sending, Result<(), Self::SendError>>,
    ) -> bool {
        S::sends_on(*pre.viewed(), sending, *post.viewed(), step)
    }

    /// The view stays that of the same sender.
    fn send(&mut self, message: M) -> (step: Step<Self::Sending, Result<(), Self::SendError>>)
        ensures
            *final(final(self).viewed()) == *final(old(self).viewed()),
    {
        self.0.send(message)
    }

    /// The view stays that of the same sender.
    fn resume_send(&mut self, sending: Self::Sending) -> (step: Step<
        Self::Sending,
        Result<(), Self::SendError>,
    >)
        ensures
            *final(final(self).viewed()) == *final(old(self).viewed()),
    {
        self.0.resume_send(sending)
    }
}

impl<'a, M, R: RecvChannel<M>> RecvChannel<M> for RecvView<'a, R> {
    type RecvError = R::RecvError;

    open spec fn receivable(&self) -> bool {
        (*self.viewed()).receivable()
    }

    /// The viewed receiver answers.
    open spec fn receives(
        pre: Self,
        post: Self,
        step: Step<(), Result<M, Self::RecvError>>,
    ) -> bool {
        R::receives(*pre.viewed(), *post.viewed(), step)
    }

    /// The view stays that of the same receiver.
    fn recv(&mut self) -> (step: Step<(), Result<M, Self::RecvError>>)
        ensures
            *final(final(self).viewed()) == *final(old(self).viewed()),
    {
        self.0.recv()
    }
}

/// A sending view that has ended leaves the sender as it was viewed last.
pub proof fn an_ended_send_view_leaves_what_it_viewed<S>(view: SendView<'_, S>)
    requires
        has_resolved(view),
    ensures
        *final(view.viewed()) == *view.viewed(),
{
}

/// A receiving view that has ended leaves the receiver as it was viewed last.
pub proof fn an_ended_recv_view_leaves_what_it_viewed<R>(view: RecvView<'_, R>)
    requires
        has_resolved(view),
    ensures
        *final(view.viewed()) == *view.viewed(),
{
}

/// Once the views of a pair have ended, the pair holds its capabilities as they were viewed
/// last: `begun` are the views as they were borrowed from the pair, and `ended` the same views
/// after whatever was done through them.
pub proof fn ended_views_leave_the_pair_as_it_was_viewed<S, R>(
    after: Channel<S, R>,
    begun: (SendView<'_, S>, RecvView<'_, R>),
    ended: (SendView<'_, S>, RecvView<'_, R>),
)
    requires
        after.sending() == *final(begun.0.viewed()),
        after.receiving() == *final(begun.1.viewed()),
        *final(ended.0.viewed()) == *final(begun.0.viewed()),
        *final(ended.1.viewed()) == *final(begun.1.viewed()),
        has_resolved(ended.0),
        has_resolved(ended.1),
    ensures
        after.sending() == *ended.0.viewed(),
        after.receiving() == *ended.1.viewed(),
{
}

/// Duplex directions converted through one shared immutable codec.
pub type ConvertedChannel<S, R, K, W = Vec<u8>> = Channel<
    CodecChannel<S, Arc<K>, W>,
    CodecChannel<R, Arc<K>, W>,
>;

impl<S, R> Channel<S, R> {
    /// Bundle capabilities that are known to name the same peer.
    pub(crate) fn bundle(sender: S, receiver: R) -> (channel: Self)
        ensures
            channel.sending() == sender,
            channel.receiving() == receiver,
    {
        Self { sender, receiver }
    }

    /// Convert both directions while preserving privacy, errors, and ownership.
    pub fn with_codec<M: Send, W: Send, K: Codec<M, W>>(self, codec: K) -> (converted:
        ConvertedChannel<S, R, K, W>) where S: SendChannel<W>, R: RecvChannel<W>
        ensures
            converted.sending().carrier() == self.sending(),
            converted.receiving().carrier() == self.receiving(),
            *converted.sending().conversion() == codec,
            *converted.receiving().conversion() == codec,
    {
        let codec = Arc::new(codec);
        Channel {
            sender: CodecChannel::new(self.sender, Arc::clone(&codec)),
            receiver: CodecChannel::new(self.receiver, codec),
        }
    }
}

impl<S: PeerChannel, R: PeerChannel<Peer = S::Peer>> Channel<S, R> {
    /// `result` is what pairing the two capabilities comes to: a channel of just these where
    /// the peers that they name compare equal, and a mismatch otherwise.
    pub open spec fn pairs(sender: S, receiver: R, result: Result<Self, PeerMismatch>) -> bool {
        &&& call_ensures(
            S::Peer::eq,
            (&sender.endpoint(), &receiver.endpoint()),
            result is Ok,
        )
        &&& S::Peer::obeys_eq_spec() ==> (result is Ok <==> sender.endpoint().eq_spec(
            &receiver.endpoint(),
        ))
        &&& result matches Ok(channel) ==> channel.sending() == sender && channel.receiving()
            == receiver
    }

    /// Bundle capabilities after verifying they refer to the same peer.
    pub fn new<M>(sender: S, receiver: R) -> (result: Result<Self, PeerMismatch>) where
        S: SendChannel<M>,
        R: RecvChannel<M>,

        ensures
            Self::pairs(sender, receiver, result),
    {
        if *sender.peer() == *receiver.peer() {
            Ok(Self::bundle(sender, receiver))
        } else {
            Err(PeerMismatch)
        }
    }
}

impl<C, I, O> Channel<SharedSendHalf<C, I, O>, SharedRecvHalf<C, I, O>> {
    /// Share an independent duplex backend between exclusive directional handles.
    ///
    /// Synchronization and privacy guarantees come from the backend. Shared
    /// ownership keeps it alive until both handles are dropped; shutdown remains
    /// backend-specific.
    pub fn from_shared(channel: C) -> (shared: Self) where C: SharedChannel<I, O>
        ensures
            shared.sending().backend() == channel,
            shared.receiving().backend() == channel,
    {
        let (sender, receiver) = shared::split(channel);
        Self { sender, receiver }
    }
}

impl<S: PeerChannel, R> PeerChannel for Channel<S, R> {
    type Peer = S::Peer;

    open spec fn endpoint(&self) -> S::Peer {
        self.sending().endpoint()
    }

    fn peer(&self) -> (peer: &S::Peer) {
        self.sender.peer()
    }
}

impl<M, S: SendChannel<M>, R: Send> SendChannel<M> for Channel<S, R> {
    type Privacy = S::Privacy;

    type SendError = S::SendError;

    type Sending = S::Sending;

    open spec fn sendable(&self, message: M) -> bool {
        self.sending().sendable(message)
    }

    /// The sending direction submits the message; the receiving one stays as it was.
    open spec fn sends(
        pre: Self,
        message: M,
        post: Self,
        step: Step<Self::Sending, Result<(), Self::SendError>>,
    ) -> bool {
        &&& S::sends(pre.sending(), message, post.sending(), step)
        &&& post.receiving() == pre.receiving()
    }

    /// The sending direction goes on; the receiving one stays as it was.
    open spec fn sends_on(
        pre: Self,
        sending: Self::Sending,
        post: Self,
        step: Step<Self::Sending, Result<(), Self::SendError>>,
    ) -> bool {
        &&& S::sends_on(pre.sending(), sending, post.sending(), step)
        &&& post.receiving() == pre.receiving()
    }

    fn send(&mut self, message: M) -> (step: Step<Self::Sending, Result<(), Self::SendError>>) {
        self.sender.send(message)
    }

    fn resume_send(&mut self, sending: Self::Sending) -> (step: Step<
        Self::Sending,
        Result<(), Self::SendError>,
    >) {
        self.sender.resume_send(sending)
    }
}

impl<M, S: Send, R: RecvChannel<M>> RecvChannel<M> for Channel<S, R> {
    type RecvError = R::RecvError;

    open spec fn receivable(&self) -> bool {
        self.receiving().receivable()
    }

    /// The receiving direction answers; the sending one stays as it was.
    open spec fn receives(
        pre: Self,
        post: Self,
        step: Step<(), Result<M, Self::RecvError>>,
    ) -> bool {
        &&& R::receives(pre.receiving(), post.receiving(), step)
        &&& post.sending() == pre.sending()
    }

    fn recv(&mut self) -> (step: Step<(), Result<M, Self::RecvError>>) {
        self.receiver.recv()
    }
}

impl<I, O, S: SendChannel<O>, R: RecvChannel<I>> traits::Channel<I, O> for Channel<S, R> {

}

/// Reception as a stream of messages that ends after its first error.
pub struct RecvStream<C> {
    channel: C,
    done: bool,
}

/// Adapt reception into a stream yielding its first error before terminating.
///
/// The adapter treats the first error as terminal to give consumers a stopping point.
/// Backend recovery remains backend-specific. Dropping the stream releases its
/// owned receiver.
pub fn into_stream<C>(channel: C) -> (stream: RecvStream<C>)
    ensures
        stream.source() == channel,
        !stream.ended(),
{
    RecvStream { channel, done: false }
}

impl<C> RecvStream<C> {
    /// The receiver behind the stream.
    pub closed spec fn source(self) -> C {
        self.channel
    }

    /// Whether the stream has yielded its last item.
    pub closed spec fn ended(self) -> bool {
        self.done
    }

    /// Whether the stream has yielded its last item.
    pub fn is_ended(&self) -> (ended: bool)
        ensures
            ended == self.ended(),
    {
        self.done
    }

    /// The receiver behind the stream.
    pub fn channel_mut(&mut self) -> (channel: &mut C)
        ensures
            *channel == old(self).source(),
            final(self).source() == *final(channel),
            final(self).ended() == old(self).ended(),
    {
        &mut self.channel
    }

    /// Yield what the receiver answered, ending the stream if it is an error.
    pub fn settle<M, E>(&mut self, item: Result<M, E>) -> (yielded: Result<M, E>)
        ensures
            yielded == item,
            final(self).source() == old(self).source(),
            final(self).ended() == (old(self).ended() || item is Err),
    {
        if item.is_err() {
            self.done = true;
        }
        item
    }

    /// Asking for the next item takes the stream from `pre` to `post` and comes to `step`: one
    /// step of the receiver, or nothing at all once the stream has ended.
    pub open spec fn yields<M>(
        pre: Self,
        post: Self,
        step: Step<(), Option<Result<M, C::RecvError>>>,
    ) -> bool where C: RecvChannel<M> {
        if pre.ended() {
            (step matches Step::Done(None)) && post == pre
        } else {
            match step {
                Step::Waiting(_) => {
                    &&& C::receives(pre.source(), post.source(), Step::Waiting(()))
                    &&& !post.ended()
                },
                Step::Done(item) => item matches Some(received) && {
                    &&& C::receives(pre.source(), post.source(), Step::Done(received))
                    &&& post.ended() == (received is Err)
                },
            }
        }
    }

    /// The next message, or the first error, or nothing once the stream has ended. While the
    /// receiver has to wait, so does the stream.
    pub fn next<M>(&mut self) -> (step: Step<(), Option<Result<M, C::RecvError>>>) where
        C: RecvChannel<M>,

        requires
            old(self).ended() || old(self).source().receivable(),
        ensures
            Self::yields(*old(self), *final(self), step),
    {
        if self.done {
            return Step::Done(None);
        }
        let step = self.channel.recv();
        assert(C::receives(old(self).source(), self.source(), step));
        match step {
            Step::Waiting(waiting) => {
                assert(waiting == ());
                Step::Waiting(waiting)
            },
            Step::Done(received) => Step::Done(Some(self.settle(received))),
        }
    }
}

/// One of the first `n` of `steps` yielded an error.
pub open spec fn failed_within<M, E>(steps: Seq<Step<(), Option<Result<M, E>>>>, n: int) -> bool {
    exists|i: int| 0 <= i < n && (#[trigger] steps[i] matches Step::Done(Some(Err(_))))
}

/// A stream yields items up to the first error, and nothing after it: as long as no error was
/// yielded, each step is one step of the receiver and the stream goes on; once one was, every
/// step yields nothing and leaves the receiver alone.
///
/// `streams` are the stream before the first step and after each one.
pub proof fn a_stream_runs_to_its_first_error<M, C: RecvChannel<M>>(
    streams: Seq<RecvStream<C>>,
    steps: Seq<Step<(), Option<Result<M, C::RecvError>>>>,
    n: int,
)
    requires
        streams.len() == steps.len() + 1,
        0 <= n < steps.len(),
        !streams[0].ended(),
        forall|i: int|
            0 <= i < steps.len() ==> RecvStream::yields(
                #[trigger] streams[i],
                streams[i + 1],
                steps[i],
            ),
    ensures
        failed_within(steps, n) ==> {
            &&& steps[n] matches Step::Done(None)
            &&& streams[n + 1] == streams[n]
        },
        !failed_within(steps, n) ==> match steps[n] {
            Step::Waiting(_) => C::receives(
                streams[n].source(),
                streams[n + 1].source(),
                Step::Waiting(()),
            ),
            Step::Done(item) => item matches Some(received) && C::receives(
                streams[n].source(),
                streams[n + 1].source(),
                Step::Done(received),
            ),
        },
{
    a_stream_ends_with_its_first_error(streams, steps, n as nat);
    assert(RecvStream::yields(streams[n], streams[n + 1], steps[n]));
}

/// A stream has ended exactly if it has yielded an error.
pub proof fn a_stream_ends_with_its_first_error<M, C: RecvChannel<M>>(
    streams: Seq<RecvStream<C>>,
    steps: Seq<Step<(), Option<Result<M, C::RecvError>>>>,
    n: nat,
)
    requires
        streams.len() == steps.len() + 1,
        n <= steps.len(),
        !streams[0].ended(),
        forall|i: int|
            0 <= i < steps.len() ==> RecvStream::yields(
                #[trigger] streams[i],
                streams[i + 1],
                steps[i],
            ),
    ensures
        streams[n as int].ended() <==> failed_within(steps, n as int),
    decreases n,
{
    if n > 0 {
        let last: int = n - 1;
        a_stream_ends_with_its_first_error(streams, steps, last as nat);
        assert(RecvStream::yields(streams[last], streams[last + 1], steps[last]));
        if failed_within(steps, last) {
            let i = choose|i: int|
                0 <= i < last && (#[trigger] steps[i] matches Step::Done(Some(Err(_))));
            assert(0 <= i < n && (steps[i] matches Step::Done(Some(Err(_)))));
        }
    }
}

} // verus!
