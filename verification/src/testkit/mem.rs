//! Typed in-memory links, connection setup, and mailboxes for offline peers.
//!
//! No step of an operation blocks: where a queue has no room or nothing to give, the
//! operation has to wait, and is gone on with later.

use crate::identity::Identity;
use crate::queues::{self, another_handle, bounded, look, offer, Look, Offer};
use crate::transport::channel::{Channel, PeerMismatch};
use crate::transport::privacy::Anonymous;
use crate::transport::traits::{
    self, ChannelBuilder, PeerChannel, RecvChannel, SendChannel, Step,
};
use tokio::sync::mpsc;
use vstd::prelude::*;

verus! {

/// How many endpoints wait for a listener.
pub const CONNECTION_QUEUE_CAPACITY: usize = 8;

/// Capacity of each direction of an in-memory link.
#[derive(Debug)]
pub struct MemConfig {
    /// Missing or zero capacity selects one buffered message.
    pub capacity: Option<usize>,
}

impl Clone for MemConfig {
    fn clone(&self) -> (config: Self)
        ensures
            config == *self,
    {
        Self { capacity: self.capacity }
    }
}

impl Default for MemConfig {
    fn default() -> (config: Self)
        ensures
            config.capacity is None,
    {
        Self { capacity: None }
    }
}

impl MemConfig {
    /// How many messages each direction buffers: what was asked for, but at least one.
    pub open spec fn buffered(self) -> usize {
        match self.capacity {
            Some(capacity) if capacity > 0 => capacity,
            _ => 1,
        }
    }

    /// How many messages each direction buffers: what was asked for, but at least one.
    pub fn link_capacity(&self) -> (capacity: usize)
        ensures
            capacity == self.buffered(),
            capacity > 0,
            self.capacity matches Some(asked) ==> (asked > 0 ==> capacity == asked),
            !(self.capacity matches Some(asked) && asked > 0) ==> capacity == 1,
    {
        match self.capacity {
            Some(capacity) if capacity > 0 => capacity,
            _ => 1,
        }
    }
}

/// The destination queue or connection setup path has been dropped.
#[derive(Debug, PartialEq, Eq, Structural)]
pub enum MemError {
    /// The destination queue or connection setup path has been dropped.
    Closed,
}

impl MemError {
    /// The message shown for this failure.
    pub fn to_string(&self) -> (text: String)
        ensures
            text@ == "in-memory path closed"@,
    {
        "in-memory path closed".to_owned()
    }
}

/// `step` is what an offer to a queue comes to for its sender, who waits with the item
/// while there is no room.
pub open spec fn is_submitted<T>(offer: Offer<T>, step: Step<T, Result<(), MemError>>) -> bool {
    match offer {
        Offer::Taken => step matches Step::Done(Ok(_)),
        Offer::Full(item) => step == Step::<T, Result<(), MemError>>::Waiting(item),
        Offer::Closed(_) => step matches Step::Done(Err(MemError::Closed)),
    }
}

/// What an offer to a queue comes to for its sender.
pub fn submitted<T>(offer: Offer<T>) -> (step: Step<T, Result<(), MemError>>)
    ensures
        is_submitted(offer, step),
        offer is Taken <==> (step matches Step::Done(Ok(_))),
        offer matches Offer::Full(item) ==> (step matches Step::Waiting(kept) && kept == item),
        offer is Closed <==> (step matches Step::Done(Err(MemError::Closed))),
{
    match offer {
        Offer::Taken => Step::Done(Ok(())),
        Offer::Full(item) => Step::Waiting(item),
        Offer::Closed(_) => Step::Done(Err(MemError::Closed)),
    }
}

/// `step` is what a look into a queue comes to for its receiver, who waits while it is
/// empty.
pub open spec fn is_taken<T>(look: Look<T>, step: Step<(), Result<T, MemError>>) -> bool {
    match look {
        Look::Item(item) => step == Step::<(), Result<T, MemError>>::Done(Ok(item)),
        Look::Empty => step is Waiting,
        Look::Closed => step matches Step::Done(Err(MemError::Closed)),
    }
}

/// What a look into a queue comes to for its receiver.
pub fn taken<T>(look: Look<T>) -> (step: Step<(), Result<T, MemError>>)
    ensures
        is_taken(look, step),
        look matches Look::Item(item) ==> (step matches Step::Done(Ok(given)) && given == item),
        look is Empty <==> step is Waiting,
        look is Closed <==> (step matches Step::Done(Err(MemError::Closed))),
{
    match look {
        Look::Item(item) => Step::Done(Ok(item)),
        Look::Empty => Step::Waiting(()),
        Look::Closed => Step::Done(Err(MemError::Closed)),
    }
}

/// Identity of one destination within this process.
#[derive(Debug)]
pub struct MemPeer(Identity);

impl PartialEq for MemPeer {
    fn eq(&self, other: &Self) -> (same: bool) {
        self.0 == other.0
    }
}

impl vstd::std_specs::cmp::PartialEqSpecImpl for MemPeer {
    open spec fn obeys_eq_spec() -> bool {
        true
    }

    open spec fn eq_spec(&self, other: &Self) -> bool {
        *self == *other
    }
}

impl Eq for MemPeer {

}

impl Clone for MemPeer {
    fn clone(&self) -> (peer: Self)
        ensures
            peer == *self,
    {
        Self(self.0.clone())
    }
}

/// Owned sending direction to one in-memory peer.
#[derive(Debug)]
#[verifier::reject_recursive_types(M)]
pub struct MemSender<M> {
    sender: mpsc::Sender<M>,
    peer: MemPeer,
}

/// Owned receiving direction from one in-memory peer.
#[derive(Debug)]
#[verifier::reject_recursive_types(M)]
pub struct MemReceiver<M> {
    receiver: mpsc::Receiver<M>,
    peer: MemPeer,
}

impl<M> MemSender<M> {
    /// The queue that messages go to.
    pub closed spec fn queue(self) -> mpsc::Sender<M> {
        self.sender
    }

    /// The peer that messages go to.
    pub closed spec fn destination(self) -> MemPeer {
        self.peer
    }

    /// The queue that messages go to.
    pub fn sender(&self) -> (sender: &mpsc::Sender<M>)
        ensures
            *sender == self.queue(),
    {
        &self.sender
    }
}

impl<M> MemReceiver<M> {
    /// The queue that messages come from.
    pub closed spec fn queue(self) -> mpsc::Receiver<M> {
        self.receiver
    }

    /// The peer that messages come from.
    pub closed spec fn origin(self) -> MemPeer {
        self.peer
    }

    /// The queue that messages come from.
    pub fn receiver_mut(&mut self) -> (receiver: &mut mpsc::Receiver<M>)
        ensures
            *receiver == old(self).queue(),
            final(self).queue() == *final(receiver),
            final(self).origin() == old(self).origin(),
    {
        &mut self.receiver
    }
}

impl<M> Clone for MemSender<M> {
    fn clone(&self) -> (sender: Self)
        ensures
            sender == *self,
    {
        Self { sender: another_handle(&self.sender), peer: self.peer.clone() }
    }
}

impl<M> PeerChannel for MemSender<M> {
    type Peer = MemPeer;

    open spec fn endpoint(&self) -> MemPeer {
        self.destination()
    }

    fn peer(&self) -> (peer: &MemPeer) {
        &self.peer
    }
}

impl<M> PeerChannel for MemReceiver<M> {
    type Peer = MemPeer;

    open spec fn endpoint(&self) -> MemPeer {
        self.origin()
    }

    fn peer(&self) -> (peer: &MemPeer) {
        &self.peer
    }
}

/// Payload-only queues preserve sender anonymity relative to the destination.
impl<M: Send> SendChannel<M> for MemSender<M> {
    type Privacy = Anonymous;

    type SendError = MemError;

    type Sending = M;

    open spec fn sendable(&self, message: M) -> bool {
        true
    }

    /// The queue is offered the message, which is kept while there is no room, and the
    /// sender stays that of the same queue, whether or not it is taken.
    open spec fn sends(
        pre: Self,
        message: M,
        post: Self,
        step: Step<Self::Sending, Result<(), Self::SendError>>,
    ) -> bool {
        &&& post == pre
        &&& step matches Step::Waiting(kept) ==> kept == message
        &&& exists|offer: Offer<M>| #[trigger]
            queues::may_come_to(pre.queue(), message, offer) && is_submitted(offer, step)
    }

    /// The queue is offered the message that was kept.
    open spec fn sends_on(
        pre: Self,
        sending: Self::Sending,
        post: Self,
        step: Step<Self::Sending, Result<(), Self::SendError>>,
    ) -> bool {
        Self::sends(pre, sending, post, step)
    }

    fn send(&mut self, message: M) -> (step: Step<Self::Sending, Result<(), Self::SendError>>) {
        let offer = offer(&self.sender, message);
        assert(queues::may_come_to(self.queue(), message, offer));
        submitted(offer)
    }

    fn resume_send(&mut self, sending: Self::Sending) -> (step: Step<
        Self::Sending,
        Result<(), Self::SendError>,
    >) {
        self.send(sending)
    }
}

impl<M: Send> RecvChannel<M> for MemReceiver<M> {
    type RecvError = MemError;

    open spec fn receivable(&self) -> bool {
        true
    }

    /// The queue is looked into once, and what that brings is the outcome. A receive that has
    /// to wait or fails leaves the receiver as it was.
    open spec fn receives(
        pre: Self,
        post: Self,
        step: Step<(), Result<M, Self::RecvError>>,
    ) -> bool {
        &&& post.origin() == pre.origin()
        &&& !(step matches Step::Done(Ok(_))) ==> post == pre
        &&& exists|look: Look<M>| #[trigger]
            queues::brings(pre.queue(), look, post.queue()) && is_taken(look, step)
    }

    fn recv(&mut self) -> (step: Step<(), Result<M, Self::RecvError>>) {
        let look = look(&mut self.receiver);
        assert(queues::brings(old(self).queue(), look, self.queue()));
        taken(look)
    }
}

/// One endpoint of two crossed, bounded message queues.
pub type MemChannel<M = Vec<u8>> = Channel<MemSender<M>, MemReceiver<M>>;

/// What `from` sends, `to` receives, through a queue of the given capacity.
pub open spec fn feeds<M>(from: MemSender<M>, to: MemReceiver<M>, capacity: usize) -> bool {
    queues::are_ends(capacity, from.queue(), to.queue())
}

/// The two are the endpoints of one link: either receives what the other sends, each
/// direction has the given capacity, the directions of either endpoint name one peer, and
/// the two endpoints name different ones.
pub open spec fn connected<M>(left: MemChannel<M>, right: MemChannel<M>, capacity: usize) -> bool {
    &&& feeds(left.sending(), right.receiving(), capacity)
    &&& feeds(right.sending(), left.receiving(), capacity)
    &&& left.sending().endpoint() == left.receiving().endpoint()
    &&& right.sending().endpoint() == right.receiving().endpoint()
    &&& left.sending().endpoint() != right.sending().endpoint()
}

/// Create connected peers with native typed messages to exercise the channel contract.
///
/// The queues have independent capacity and cancellation-safe reception. Dropping
/// the last sender closes reception after buffered messages have been drained.
pub fn duplex<M: Send>(config: MemConfig) -> (peers: (MemChannel<M>, MemChannel<M>))
    requires
        config.buffered() <= usize::MAX / 8,
    ensures
        connected(peers.0, peers.1, config.buffered()),
{
    let capacity: usize = config.link_capacity();
    let (left_sender, right_receiver) = bounded(capacity);
    let (right_sender, left_receiver) = bounded(capacity);
    let left = Identity::fresh();
    let right = left.another();
    let left_peer = MemPeer(left);
    let right_peer = MemPeer(right);
    (
        Channel::bundle(
            MemSender { sender: left_sender, peer: right_peer.clone() },
            MemReceiver { receiver: left_receiver, peer: right_peer },
        ),
        Channel::bundle(
            MemSender { sender: right_sender, peer: left_peer.clone() },
            MemReceiver { receiver: right_receiver, peer: left_peer },
        ),
    )
}

/// Address of the single listener associated with a connector.
#[derive(Debug, Clone, Copy, Default, PartialEq, Eq, Hash, Structural)]
pub struct MemAddr;

/// Creates links and submits their remote endpoints to a listener.
///
/// The listener queue retains remote endpoints so construction can complete
/// between accept calls. A saturated connection queue waits for acceptance.
/// A live destination receiver retains submitted messages between receive calls.
#[derive(Debug)]
#[verifier::reject_recursive_types(M)]
pub struct MemChannelBuilder<M = Vec<u8>> {
    config: MemConfig,
    incoming: mpsc::Sender<MemChannel<M>>,
}

/// Accepts the remote endpoints created by its connector.
#[derive(Debug)]
#[verifier::reject_recursive_types(M)]
pub struct MemListener<M = Vec<u8>> {
    incoming: mpsc::Receiver<MemChannel<M>>,
}

impl<M> MemChannelBuilder<M> {
    /// Where remote endpoints go.
    pub closed spec fn setup(self) -> mpsc::Sender<MemChannel<M>> {
        self.incoming
    }

    /// The capacity of created links.
    pub closed spec fn link_config(self) -> MemConfig {
        self.config
    }

    /// The capacity of created links.
    pub fn config(&self) -> (config: &MemConfig)
        ensures
            *config == self.link_config(),
    {
        &self.config
    }

    /// Where remote endpoints go.
    pub fn incoming(&self) -> (incoming: &mpsc::Sender<MemChannel<M>>)
        ensures
            *incoming == self.setup(),
    {
        &self.incoming
    }

    /// A new link: the endpoint to keep and the one to submit.
    pub fn link(&self) -> (ends: (MemChannel<M>, MemChannel<M>)) where M: Send
        requires
            self.link_config().buffered() <= usize::MAX / 8,
        ensures
            connected(ends.0, ends.1, self.link_config().buffered()),
    {
        duplex(self.config.clone())
    }
}

/// A new link whose remote endpoint waits to be submitted to a listener.
#[derive(Debug)]
#[verifier::reject_recursive_types(M)]
pub struct MemBuilding<M> {
    local: MemChannel<M>,
    remote: MemChannel<M>,
}

impl<M> MemBuilding<M> {
    /// The endpoint to keep.
    pub closed spec fn kept(self) -> MemChannel<M> {
        self.local
    }

    /// The endpoint to submit.
    pub closed spec fn submission(self) -> MemChannel<M> {
        self.remote
    }
}

/// `step` is what offering the other endpoint of a link to a listener comes to for the one
/// who keeps `local`, and who waits with the link while there is no room.
pub open spec fn is_built<M>(
    local: MemChannel<M>,
    offer: Offer<MemChannel<M>>,
    step: Step<MemBuilding<M>, Result<MemChannel<M>, MemError>>,
) -> bool {
    match offer {
        Offer::Taken => step == Step::<MemBuilding<M>, Result<MemChannel<M>, MemError>>::Done(
            Ok(local),
        ),
        Offer::Full(remote) => step matches Step::Waiting(building) && building.kept() == local
            && building.submission() == remote,
        Offer::Closed(_) => step matches Step::Done(Err(MemError::Closed)),
    }
}

/// What offering the other endpoint of a link to a listener comes to for the one who keeps
/// `local`.
pub fn built<M>(local: MemChannel<M>, offer: Offer<MemChannel<M>>) -> (step: Step<
    MemBuilding<M>,
    Result<MemChannel<M>, MemError>,
>)
    ensures
        is_built(local, offer, step),
{
    match submitted(offer) {
        Step::Waiting(remote) => Step::Waiting(MemBuilding { local, remote }),
        Step::Done(Ok(())) => Step::Done(Ok(local)),
        Step::Done(Err(error)) => Step::Done(Err(error)),
    }
}

impl<M> MemListener<M> {
    /// Where remote endpoints come from.
    pub closed spec fn setup(self) -> mpsc::Receiver<MemChannel<M>> {
        self.incoming
    }

    /// Where remote endpoints come from.
    pub fn incoming_mut(&mut self) -> (incoming: &mut mpsc::Receiver<MemChannel<M>>)
        ensures
            *incoming == old(self).setup(),
            final(self).setup() == *final(incoming),
    {
        &mut self.incoming
    }
}

impl<M> Clone for MemChannelBuilder<M> {
    fn clone(&self) -> (builder: Self)
        ensures
            builder == *self,
    {
        Self { config: self.config.clone(), incoming: another_handle(&self.incoming) }
    }
}

/// Create connection setup independently of the connected-link primitive.
pub fn network<M>(config: MemConfig) -> (setup: (MemChannelBuilder<M>, MemListener<M>))
    ensures
        setup.0.link_config() == config,
        queues::are_ends(CONNECTION_QUEUE_CAPACITY, setup.0.setup(), setup.1.setup()),
        queues::are_ends(8, setup.0.setup(), setup.1.setup()),
{
    let (incoming, receiver) = bounded(CONNECTION_QUEUE_CAPACITY);
    (MemChannelBuilder { config, incoming }, MemListener { incoming: receiver })
}

impl<M: Send> ChannelBuilder<M> for MemChannelBuilder<M> {
    type Input = MemAddr;

    type Privacy = Anonymous;

    type Channel = MemChannel<M>;

    type BuildError = MemError;

    type Building = MemBuilding<M>;

    open spec fn buildable(&self, input: MemAddr) -> bool {
        self.link_config().buffered() <= usize::MAX / 8
    }

    /// The listener is offered one endpoint of a new link, the other one is the
    /// outcome once it is taken, and the builder stays as it was.
    open spec fn builds(
        pre: Self,
        input: MemAddr,
        post: Self,
        step: Step<MemBuilding<M>, Result<MemChannel<M>, MemError>>,
    ) -> bool {
        &&& post == pre
        &&& exists|local: MemChannel<M>, remote: MemChannel<M>, offer: Offer<MemChannel<M>>|
            {
                &&& #[trigger] connected(local, remote, pre.link_config().buffered())
                &&& #[trigger] queues::may_come_to(pre.setup(), remote, offer)
                &&& step matches Step::Waiting(building) ==> building.submission() == remote
                &&& is_built(local, offer, step)
            }
    }

    /// The listener is offered the endpoint that waits.
    open spec fn builds_on(
        pre: Self,
        building: MemBuilding<M>,
        post: Self,
        step: Step<MemBuilding<M>, Result<MemChannel<M>, MemError>>,
    ) -> bool {
        &&& post == pre
        &&& step matches Step::Waiting(still) ==> still == building
        &&& exists|offer: Offer<MemChannel<M>>| #[trigger]
            queues::may_come_to(pre.setup(), building.submission(), offer) && is_built(
                building.kept(),
                offer,
                step,
            )
    }

    fn build(&mut self, _address: &MemAddr) -> (step: Step<
        MemBuilding<M>,
        Result<MemChannel<M>, MemError>,
    >) {
        let (local, remote) = self.link();
        let offer = offer(&self.incoming, remote);
        assert(connected(local, remote, self.link_config().buffered()));
        assert(queues::may_come_to(self.setup(), remote, offer));
        built(local, offer)
    }

    fn resume_build(&mut self, building: MemBuilding<M>) -> (step: Step<
        MemBuilding<M>,
        Result<MemChannel<M>, MemError>,
    >) {
        let offer = offer(&self.incoming, building.remote);
        assert(queues::may_come_to(self.setup(), building.submission(), offer));
        built(building.local, offer)
    }
}

impl<M: Send> ChannelBuilder<M> for MemListener<M> {
    type Input = ();

    type Privacy = Anonymous;

    type Channel = MemChannel<M>;

    type BuildError = MemError;

    type Building = ();

    open spec fn buildable(&self, input: ()) -> bool {
        true
    }

    /// The connection queue is looked into once, and the endpoint that brings is the outcome.
    /// An acceptance that has to wait or fails leaves the listener as it was.
    open spec fn builds(
        pre: Self,
        input: (),
        post: Self,
        step: Step<(), Result<MemChannel<M>, MemError>>,
    ) -> bool {
        &&& !(step matches Step::Done(Ok(_))) ==> post == pre
        &&& exists|look: Look<MemChannel<M>>| #[trigger]
            queues::brings(pre.setup(), look, post.setup()) && is_taken(look, step)
    }

    /// The connection queue is looked into again.
    open spec fn builds_on(
        pre: Self,
        building: (),
        post: Self,
        step: Step<(), Result<MemChannel<M>, MemError>>,
    ) -> bool {
        Self::builds(pre, (), post, step)
    }

    fn build(&mut self, _input: &()) -> (step: Step<(), Result<MemChannel<M>, MemError>>) {
        let look = look(&mut self.incoming);
        assert(queues::brings(old(self).setup(), look, self.setup()));
        taken(look)
    }

    fn resume_build(&mut self, _building: ()) -> (step: Step<
        (),
        Result<MemChannel<M>, MemError>,
    >) {
        self.build(&())
    }
}

/// A store that retains a peer's incoming queue between active sessions.
///
/// Storage is bounded and lives only in this process. Sending accepts a message
/// into the destination queue so peers can receive it in a later session. Dropping
/// the destination mailbox closes the path and discards unread messages.
#[derive(Debug)]
#[verifier::reject_recursive_types(M)]
pub struct Mailbox<M> {
    sender: MemSender<M>,
    receiver: MemReceiver<M>,
}

/// Exclusive mailbox reception preserving storage ownership for later sessions.
#[derive(Debug)]
#[verifier::reject_recursive_types(M)]
pub struct MailboxReceiver<'a, M>(&'a mut MemReceiver<M>);

impl<'a, M> MailboxReceiver<'a, M> {
    /// The queue kept in the store.
    pub closed spec fn stored(self) -> &'a mut MemReceiver<M> {
        self.0
    }

    /// The queue that messages come from.
    pub fn receiver_mut(&mut self) -> (receiver: &mut mpsc::Receiver<M>)
        ensures
            *receiver == (*old(self).stored()).queue(),
            (*final(self).stored()).queue() == *final(receiver),
            (*final(self).stored()).origin() == (*old(self).stored()).origin(),
            *final(final(self).stored()) == *final(old(self).stored()),
    {
        self.0.receiver_mut()
    }
}

/// A session that has ended leaves the stored queue as it last had it.
pub proof fn an_ended_session_leaves_its_store_as_it_was<M>(session: MailboxReceiver<'_, M>)
    requires
        has_resolved(session),
    ensures
        *final(session.stored()) == *session.stored(),
{
}

impl<'a, M> PeerChannel for MailboxReceiver<'a, M> {
    type Peer = MemPeer;

    open spec fn endpoint(&self) -> MemPeer {
        (*self.stored()).endpoint()
    }

    fn peer(&self) -> (peer: &MemPeer) {
        self.0.peer()
    }
}

impl<'a, M: Send> RecvChannel<M> for MailboxReceiver<'a, M> {
    type RecvError = MemError;

    open spec fn receivable(&self) -> bool {
        true
    }

    /// The stored queue answers, and stays in the store.
    open spec fn receives(
        pre: Self,
        post: Self,
        step: Step<(), Result<M, Self::RecvError>>,
    ) -> bool {
        MemReceiver::receives(*pre.stored(), *post.stored(), step)
    }

    /// The session stays attached to the same store.
    fn recv(&mut self) -> (step: Step<(), Result<M, Self::RecvError>>)
        ensures
            *final(final(self).stored()) == *final(old(self).stored()),
    {
        self.0.recv()
    }
}

impl<M> Mailbox<M> {
    /// The path to the other store.
    pub closed spec fn outgoing(self) -> MemSender<M> {
        self.sender
    }

    /// The queue kept for the peer.
    pub closed spec fn incoming(self) -> MemReceiver<M> {
        self.receiver
    }
}

impl<M: Send> Mailbox<M> {
    /// Attach a peer while keeping ownership of its incoming queue in storage.
    ///
    /// The exclusive borrow permits one active session per mailbox. Dropping
    /// a session keeps buffered messages available to a later session.
    pub fn connect(&mut self) -> (session: Channel<MemSender<M>, MailboxReceiver<'_, M>>)
        ensures
            session.sending() == old(self).outgoing(),
            *session.receiving().stored() == old(self).incoming(),
            final(self).outgoing() == old(self).outgoing(),
            final(self).incoming() == *final(session.receiving().stored()),
    {
        Channel::bundle(self.sender.clone(), MailboxReceiver(&mut self.receiver))
    }
}

/// Create stores that retain messages between independent peer sessions.
///
/// Both stores must remain alive. A full destination queue applies backpressure
/// until that peer drains it. Payload-only queues preserve the in-memory
/// transport's sender anonymity across sessions.
pub fn store_and_forward<M: Send>(config: MemConfig) -> (stores: (Mailbox<M>, Mailbox<M>))
    requires
        config.buffered() <= usize::MAX / 8,
    ensures
        feeds(stores.0.outgoing(), stores.1.incoming(), config.buffered()),
        feeds(stores.1.outgoing(), stores.0.incoming(), config.buffered()),
        stores.0.outgoing().endpoint() == stores.0.incoming().endpoint(),
        stores.1.outgoing().endpoint() == stores.1.incoming().endpoint(),
        stores.0.outgoing().endpoint() != stores.1.outgoing().endpoint(),
{
    let (left, right) = duplex(config);
    let (left_sender, left_receiver) = left.into_split();
    let (right_sender, right_receiver) = right.into_split();
    (
        Mailbox { sender: left_sender, receiver: left_receiver },
        Mailbox { sender: right_sender, receiver: right_receiver },
    )
}

/// Using a link keeps it: after a step of a send or of a receive at one endpoint, whatever
/// came of it, the two endpoints are still connected with the same capacity.
pub proof fn use_keeps_a_link<M: Send>(
    before: MemChannel<M>,
    after: MemChannel<M>,
    other: MemChannel<M>,
    capacity: usize,
    message: M,
    sent: Step<M, Result<(), MemError>>,
    received: Step<(), Result<M, MemError>>,
)
    requires
        connected(before, other, capacity),
        SendChannel::sends(before, message, after, sent) || SendChannel::sends_on(
            before,
            message,
            after,
            sent,
        ) || RecvChannel::receives(before, after, received),
    ensures
        connected(after, other, capacity),
        connected(other, after, capacity),
{
    if RecvChannel::receives(before, after, received) {
        a_receive_stays_at_its_link(
            other.sending(),
            before.receiving(),
            after.receiving(),
            capacity,
            received,
        );
    }
}

/// A receive leaves the receiver that of the same queue, from the same peer.
pub proof fn a_receive_stays_at_its_link<M: Send>(
    from: MemSender<M>,
    pre: MemReceiver<M>,
    post: MemReceiver<M>,
    capacity: usize,
    step: Step<(), Result<M, MemError>>,
)
    requires
        RecvChannel::receives(pre, post, step),
    ensures
        feeds(from, pre, capacity) ==> feeds(from, post, capacity),
        post.endpoint() == pre.endpoint(),
{
    if feeds(from, pre, capacity) {
        let look = choose|look: Look<M>| #[trigger]
            queues::brings(pre.queue(), look, post.queue()) && is_taken(look, step);
        queues::a_look_stays_at_its_queue(capacity, from.queue(), pre.queue(), look, post.queue());
    }
}

/// A receive takes what it gives, and nothing else: one that has to wait, and may be given up,
/// or that fails has taken nothing, and one that ends with a message has taken just that one.
pub proof fn a_receive_takes_what_it_gives<M: Send>(
    pre: MemReceiver<M>,
    post: MemReceiver<M>,
    step: Step<(), Result<M, MemError>>,
)
    requires
        RecvChannel::receives(pre, post, step),
    ensures
        match step {
            Step::Done(Ok(message)) => queues::brings(
                pre.queue(),
                Look::Item(message),
                post.queue(),
            ),
            _ => post == pre,
        },
{
    let look = choose|look: Look<M>| #[trigger]
        queues::brings(pre.queue(), look, post.queue()) && is_taken(look, step);
    assert(queues::brings(pre.queue(), look, post.queue()));
}

/// The messages that `steps` of receiving gave, in order.
pub open spec fn given<M>(steps: Seq<Step<(), Result<M, MemError>>>) -> Seq<M>
    decreases steps.len(),
{
    if steps.len() == 0 {
        seq![]
    } else {
        match steps.last() {
            Step::Done(Ok(message)) => given(steps.drop_last()).push(message),
            _ => given(steps.drop_last()),
        }
    }
}

/// However often it is asked, and however often it has to wait or is given up, a receiver
/// gives every item that its queue brings, once and in the order in which they come.
///
/// `receivers` are the receiver before the first step and after each one.
pub proof fn what_is_received_is_what_the_queue_brings<M: Send>(
    receivers: Seq<MemReceiver<M>>,
    steps: Seq<Step<(), Result<M, MemError>>>,
)
    requires
        receivers.len() == steps.len() + 1,
        forall|i: int|
            0 <= i < steps.len() ==> RecvChannel::receives(
                #[trigger] receivers[i],
                receivers[i + 1],
                steps[i],
            ),
    ensures
        exists|looks: Seq<(Look<M>, mpsc::Receiver<M>)>|
            {
                &&& #[trigger] queues::are_looks(receivers[0].queue(), looks)
                &&& looks.len() == steps.len()
                &&& queues::end_after(receivers[0].queue(), looks) == receivers.last().queue()
                &&& queues::brought(looks) == given(steps)
            },
    decreases steps.len(),
{
    let first = receivers[0].queue();
    if steps.len() == 0 {
        let none: Seq<(Look<M>, mpsc::Receiver<M>)> = seq![];
        assert(queues::are_looks(first, none));
    } else {
        let (earlier, last) = (receivers.drop_last(), steps.len() - 1);
        what_is_received_is_what_the_queue_brings(earlier, steps.drop_last());
        let looks = choose|looks: Seq<(Look<M>, mpsc::Receiver<M>)>|
            {
                &&& #[trigger] queues::are_looks(first, looks)
                &&& looks.len() == steps.drop_last().len()
                &&& queues::end_after(first, looks) == earlier.last().queue()
                &&& queues::brought(looks) == given(steps.drop_last())
            };
        assert(RecvChannel::receives(receivers[last], receivers[last + 1], steps[last]));
        let look = choose|look: Look<M>| #[trigger]
            queues::brings(
                receivers[last].queue(),
                look,
                receivers[last + 1].queue(),
            ) && is_taken(look, steps[last]);
        let longer = looks.push((look, receivers.last().queue()));
        assert(longer.drop_last() =~= looks);
        assert(queues::are_looks(first, longer));
    }
}

/// An acceptance takes what it gives, and nothing else: one that has to wait, and may be given
/// up, or that fails has taken nothing, and one that ends with an endpoint has taken just that
/// one. The listener stays that of the same connector.
pub proof fn an_acceptance_takes_what_it_gives<M: Send>(
    connector: MemChannelBuilder<M>,
    pre: MemListener<M>,
    post: MemListener<M>,
    step: Step<(), Result<MemChannel<M>, MemError>>,
)
    requires
        MemListener::builds(pre, (), post, step) || MemListener::builds_on(pre, (), post, step),
    ensures
        match step {
            Step::Done(Ok(endpoint)) => queues::brings(
                pre.setup(),
                Look::Item(endpoint),
                post.setup(),
            ),
            _ => post == pre,
        },
        queues::are_ends(CONNECTION_QUEUE_CAPACITY, connector.setup(), pre.setup())
            ==> queues::are_ends(CONNECTION_QUEUE_CAPACITY, connector.setup(), post.setup()),
{
    let look = choose|look: Look<MemChannel<M>>| #[trigger]
        queues::brings(pre.setup(), look, post.setup()) && is_taken(look, step);
    assert(queues::brings(pre.setup(), look, post.setup()));
    if queues::are_ends(CONNECTION_QUEUE_CAPACITY, connector.setup(), pre.setup()) {
        queues::a_look_stays_at_its_queue(
            CONNECTION_QUEUE_CAPACITY,
            connector.setup(),
            pre.setup(),
            look,
            post.setup(),
        );
    }
}

/// A send waits for room and fails for want of a receiver only: however often it has to
/// wait, it offers the same message to the same queue, and it ends when the queue has taken
/// the message, or when the queue is closed.
pub proof fn a_send_ends_taken_or_closed<M: Send>(
    pre: MemSender<M>,
    message: M,
    waits: Seq<(MemSender<M>, M)>,
    post: MemSender<M>,
    result: Result<(), MemError>,
)
    requires
        traits::carries_through(pre, message, waits, post, result),
    ensures
        post == pre,
        forall|i: int| 0 <= i < waits.len() ==> #[trigger] waits[i] == (pre, message),
        result is Ok ==> queues::may_come_to(pre.queue(), message, Offer::Taken),
        result is Err ==> queues::may_come_to(pre.queue(), message, Offer::Closed(message)),
{
    if waits.len() > 0 {
        a_waiting_send_keeps_its_message(pre, message, waits, waits.len());
        assert(waits.last() == (pre, message));
    }
    let offer = choose|offer: Offer<M>| #[trigger]
        queues::may_come_to(pre.queue(), message, offer) && is_submitted(
            offer,
            Step::Done(result),
        );
    queues::what_is_not_taken_comes_back(pre.queue(), message, offer);
}

/// Whenever a send has to wait, it keeps the message, and the sender stays as it was.
proof fn a_waiting_send_keeps_its_message<M: Send>(
    pre: MemSender<M>,
    message: M,
    waits: Seq<(MemSender<M>, M)>,
    n: nat,
)
    requires
        0 < n <= waits.len(),
        MemSender::sends(pre, message, waits[0].0, Step::Waiting(waits[0].1)),
        forall|i: int|
            0 <= i < waits.len() - 1 ==> #[trigger] traits::waits_on::<M, MemSender<M>>(waits, i),
    ensures
        forall|i: int| 0 <= i < n ==> #[trigger] waits[i] == (pre, message),
    decreases n,
{
    if n > 1 {
        a_waiting_send_keeps_its_message(pre, message, waits, (n - 1) as nat);
        assert(traits::waits_on::<M, MemSender<M>>(waits, n - 2));
    }
}

/// A connector that has to wait keeps its link, and goes on offering the same endpoint of it:
/// what it comes to is the other endpoint once the listener has taken that one, and a failure
/// only where the listener is gone.
pub proof fn a_built_endpoint_is_connected_to_the_one_taken<M: Send>(
    builder: MemChannelBuilder<M>,
    address: MemAddr,
    building: MemBuilding<M>,
    step: Step<MemBuilding<M>, Result<MemChannel<M>, MemError>>,
)
    requires
        MemChannelBuilder::builds(builder, address, builder, Step::Waiting(building)),
        MemChannelBuilder::builds_on(builder, building, builder, step),
    ensures
        connected(building.kept(), building.submission(), builder.link_config().buffered()),
        match step {
            Step::Waiting(still) => still == building,
            Step::Done(Ok(endpoint)) => endpoint == building.kept() && queues::may_come_to(
                builder.setup(),
                building.submission(),
                Offer::Taken,
            ),
            Step::Done(Err(_)) => queues::may_come_to(
                builder.setup(),
                building.submission(),
                Offer::Closed(building.submission()),
            ),
        },
{
    let offer = choose|offer: Offer<MemChannel<M>>| #[trigger]
        queues::may_come_to(builder.setup(), building.submission(), offer) && is_built(
            building.kept(),
            offer,
            step,
        );
    queues::what_is_not_taken_comes_back(builder.setup(), building.submission(), offer);
}

/// A link can be taken apart and put together again: an endpoint bundled from the
/// directions of another is connected to whatever that one was connected to.
pub proof fn recomposition_keeps_a_link<M>(
    whole: MemChannel<M>,
    directions: (MemSender<M>, MemReceiver<M>),
    again: MemChannel<M>,
    other: MemChannel<M>,
    capacity: usize,
)
    requires
        connected(whole, other, capacity),
        directions == (whole.sending(), whole.receiving()),
        again.sending() == directions.0,
        again.receiving() == directions.1,
    ensures
        connected(again, other, capacity),
{
}

/// The directions of an endpoint pair, into an endpoint with the same directions: one that
/// is connected to whatever the first was connected to.
pub proof fn the_directions_of_an_endpoint_pair<M: Send>(
    whole: MemChannel<M>,
    other: MemChannel<M>,
    capacity: usize,
    again: Result<MemChannel<M>, PeerMismatch>,
)
    requires
        connected(whole, other, capacity),
        Channel::pairs(whole.sending(), whole.receiving(), again),
    ensures
        again matches Ok(channel) && {
            &&& channel.sending() == whole.sending()
            &&& channel.receiving() == whole.receiving()
            &&& connected(channel, other, capacity)
        },
{
}

/// The directions of the two endpoints of a link do not pair with each other: an endpoint's
/// sender is refused with the other endpoint's receiver, on either side.
pub proof fn the_directions_of_opposite_endpoints_do_not_pair<M: Send>(
    left: MemChannel<M>,
    right: MemChannel<M>,
    capacity: usize,
    first: Result<MemChannel<M>, PeerMismatch>,
    second: Result<MemChannel<M>, PeerMismatch>,
)
    requires
        connected(left, right, capacity),
        Channel::pairs(left.sending(), right.receiving(), first),
        Channel::pairs(right.sending(), left.receiving(), second),
    ensures
        first is Err,
        second is Err,
{
}

/// Directions of different endpoints pair exactly where the endpoints name the same peer, so
/// those of links to different peers are refused, on either side.
pub proof fn directions_pair_only_towards_one_peer<M: Send>(
    left: MemChannel<M>,
    left_other: MemChannel<M>,
    right: MemChannel<M>,
    right_other: MemChannel<M>,
    left_capacity: usize,
    right_capacity: usize,
    first: Result<MemChannel<M>, PeerMismatch>,
    second: Result<MemChannel<M>, PeerMismatch>,
)
    requires
        connected(left, left_other, left_capacity),
        connected(right, right_other, right_capacity),
        Channel::pairs(left.sending(), right.receiving(), first),
        Channel::pairs(right.sending(), left.receiving(), second),
    ensures
        first is Ok <==> left.endpoint() == right.endpoint(),
        second is Ok <==> left.endpoint() == right.endpoint(),
{
}

/// A session leaves its store as it found it, attached to the other store: what a
/// receive of the session does to the stored queue keeps it the receiving end of the
/// same path.
pub proof fn a_session_keeps_its_store_attached<M: Send>(
    store: Mailbox<M>,
    later: Mailbox<M>,
    other: Mailbox<M>,
    capacity: usize,
    received: Step<(), Result<M, MemError>>,
)
    requires
        feeds(other.outgoing(), store.incoming(), capacity),
        feeds(store.outgoing(), other.incoming(), capacity),
        later.outgoing() == store.outgoing(),
        RecvChannel::receives(store.incoming(), later.incoming(), received),
    ensures
        feeds(other.outgoing(), later.incoming(), capacity),
        feeds(later.outgoing(), other.incoming(), capacity),
{
    a_receive_stays_at_its_link(
        other.outgoing(),
        store.incoming(),
        later.incoming(),
        capacity,
        received,
    );
}

/// A link buffers what was asked for, and one message where that was nothing or not said.
pub proof fn a_link_buffers_at_least_one_message(config: MemConfig)
    ensures
        config.capacity matches Some(asked) ==> config.buffered() == if asked > 0 {
            asked
        } else {
            1
        },
        config.capacity is None ==> config.buffered() == 1,
{
}

/// One step of a send leaves the sender as it was, and comes to what the queue came to: it is
/// over once the queue has taken the message, waits with the message while there is no room,
/// and fails where the queue is closed. Going on with what was kept is sending it.
pub proof fn a_send_comes_to_what_the_queue_comes_to<M: Send>(
    pre: MemSender<M>,
    message: M,
    post: MemSender<M>,
    step: Step<M, Result<(), MemError>>,
)
    requires
        MemSender::sends(pre, message, post, step) || MemSender::sends_on(pre, message, post, step),
    ensures
        post == pre,
        match step {
            Step::Waiting(kept) => kept == message && queues::may_come_to(
                pre.queue(),
                message,
                Offer::Full(message),
            ),
            Step::Done(Ok(_)) => queues::may_come_to(pre.queue(), message, Offer::Taken),
            Step::Done(Err(_)) => queues::may_come_to(
                pre.queue(),
                message,
                Offer::Closed(message),
            ),
        },
{
    let offer = choose|offer: Offer<M>| #[trigger]
        queues::may_come_to(pre.queue(), message, offer) && is_submitted(offer, step);
    queues::what_is_not_taken_comes_back(pre.queue(), message, offer);
}

/// One step of a receive comes to what a look into the queue brought, at the same peer: the
/// message that it brought, having to wait while it brought none, and a failure where nothing
/// is to come.
pub proof fn a_receive_comes_to_what_the_queue_brings<M: Send>(
    pre: MemReceiver<M>,
    post: MemReceiver<M>,
    step: Step<(), Result<M, MemError>>,
)
    requires
        MemReceiver::receives(pre, post, step),
    ensures
        post.endpoint() == pre.endpoint(),
        match step {
            Step::Waiting(_) => queues::brings(pre.queue(), Look::Empty, post.queue()),
            Step::Done(Ok(message)) => queues::brings(
                pre.queue(),
                Look::Item(message),
                post.queue(),
            ),
            Step::Done(Err(_)) => queues::brings(pre.queue(), Look::Closed, post.queue()),
        },
{
    let look = choose|look: Look<M>| #[trigger]
        queues::brings(pre.queue(), look, post.queue()) && is_taken(look, step);
    assert(queues::brings(pre.queue(), look, post.queue()));
}

/// An in-memory sender and receiver can always be used, and a listener can always be asked; a
/// connector as long as its links can be made.
pub proof fn in_memory_ends_can_always_be_used<M: Send>(
    sender: MemSender<M>,
    message: M,
    receiver: MemReceiver<M>,
    listener: MemListener<M>,
    connector: MemChannelBuilder<M>,
)
    ensures
        sender.sendable(message),
        receiver.receivable(),
        listener.buildable(()),
        connector.buildable(MemAddr) <==> connector.link_config().buffered() <= usize::MAX / 8,
{
}

/// What one endpoint of a link sends, the other receives, in either direction and through a
/// queue of the capacity; each endpoint has one peer, and the two have different ones.
pub proof fn connected_endpoints_are_crossed<M>(
    left: MemChannel<M>,
    right: MemChannel<M>,
    capacity: usize,
)
    ensures
        connected(left, right, capacity) <==> {
            &&& queues::are_ends(capacity, left.sending().queue(), right.receiving().queue())
            &&& queues::are_ends(capacity, right.sending().queue(), left.receiving().queue())
            &&& left.sending().destination() == left.receiving().origin()
            &&& right.sending().destination() == right.receiving().origin()
            &&& left.sending().destination() != right.sending().destination()
        },
        connected(left, right, capacity) <==> connected(right, left, capacity),
{
}

/// The first step of a construction makes a link and offers one endpoint of it: it ends with
/// the other endpoint once that is taken, waits with both while there is no room, and fails
/// where the listener is gone. The builder stays as it was.
pub proof fn a_construction_makes_a_link_and_offers_one_endpoint<M: Send>(
    pre: MemChannelBuilder<M>,
    address: MemAddr,
    post: MemChannelBuilder<M>,
    step: Step<MemBuilding<M>, Result<MemChannel<M>, MemError>>,
)
    requires
        MemChannelBuilder::builds(pre, address, post, step),
    ensures
        post == pre,
        match step {
            Step::Waiting(building) => connected(
                building.kept(),
                building.submission(),
                pre.link_config().buffered(),
            ) && queues::may_come_to(
                pre.setup(),
                building.submission(),
                Offer::Full(building.submission()),
            ),
            Step::Done(Ok(endpoint)) => exists|remote: MemChannel<M>|
                {
                    &&& #[trigger] connected(endpoint, remote, pre.link_config().buffered())
                    &&& queues::may_come_to(pre.setup(), remote, Offer::Taken)
                },
            Step::Done(Err(_)) => exists|remote: MemChannel<M>| #[trigger]
                queues::may_come_to(pre.setup(), remote, Offer::Closed(remote)),
        },
{
    let (local, remote, offer) = choose|
        local: MemChannel<M>,
        remote: MemChannel<M>,
        offer: Offer<MemChannel<M>>,
    |
        {
            &&& #[trigger] connected(local, remote, pre.link_config().buffered())
            &&& #[trigger] queues::may_come_to(pre.setup(), remote, offer)
            &&& step matches Step::Waiting(building) ==> building.submission() == remote
            &&& is_built(local, offer, step)
        };
    queues::what_is_not_taken_comes_back(pre.setup(), remote, offer);
    match offer {
        Offer::Taken => {
            assert(exists|remote: MemChannel<M>|
                {
                    &&& #[trigger] connected(local, remote, pre.link_config().buffered())
                    &&& queues::may_come_to(pre.setup(), remote, Offer::Taken)
                });
            assert(step matches Step::Done(Ok(endpoint)) && endpoint == local);
        },
        Offer::Full(back) => {
            assert(back == remote);
        },
        Offer::Closed(back) => {
            assert(back == remote);
            assert(queues::may_come_to(pre.setup(), remote, Offer::Closed(remote)));
        },
    }
}

/// A session receives just what its stored queue does, from the peer of that queue.
pub proof fn a_session_receives_what_its_store_does<M: Send>(
    pre: MailboxReceiver<'_, M>,
    post: MailboxReceiver<'_, M>,
    step: Step<(), Result<M, MemError>>,
)
    ensures
        pre.endpoint() == (*pre.stored()).origin(),
        pre.receivable(),
        MailboxReceiver::receives(pre, post, step) <==> MemReceiver::receives(
            *pre.stored(),
            *post.stored(),
            step,
        ),
{
}

/// The messages given are counted step by step: a step that ends with a message adds just
/// that one, and any other step adds none.
pub proof fn messages_are_given_one_by_one<M>(
    steps: Seq<Step<(), Result<M, MemError>>>,
    step: Step<(), Result<M, MemError>>,
)
    ensures
        given(Seq::<Step<(), Result<M, MemError>>>::empty()) == Seq::<M>::empty(),
        given(steps.push(step)) == match step {
            Step::Done(Ok(message)) => given(steps).push(message),
            _ => given(steps),
        },
{
    assert(steps.push(step).drop_last() =~= steps);
}

/// Peers compare equal exactly if they are the same one.
pub proof fn equal_peers_are_the_same_peer(left: MemPeer, right: MemPeer)
    ensures
        vstd::std_specs::cmp::PartialEqSpec::eq_spec(&left, &right) <==> left == right,
{
}

} // verus!
