//! The client's end of a bridged channel.

use crate::identity::{self, Identity};
use crate::queues::{self, another_handle, bounded};
use crate::rpc::error::{RecvError, SendError};
use crate::transport::channel::{Channel, PeerMismatch};
use crate::transport::duplex::Duplex;
use crate::transport::traits::PeerChannel;
use std::sync::Arc;
use tokio::sync::{mpsc, oneshot, OwnedSemaphorePermit, Semaphore};
use vstd::prelude::*;

verus! {

/// Where one reply is handed in.
#[verifier::external_type_specification]
#[verifier::external_body]
#[verifier::reject_recursive_types(T)]
pub struct ExReplySender<T>(oneshot::Sender<T>);

/// Permission to have a request outstanding.
#[verifier::external_type_specification]
#[verifier::external_body]
pub struct ExSlots(Semaphore);

/// One slot taken.
#[verifier::external_type_specification]
#[verifier::external_body]
pub struct ExSlot(OwnedSemaphorePermit);

/// Makes slots with `tokio::sync::Semaphore::new`, which panics if there are more than an
/// eighth of the largest length.
///
/// Nothing is claimed of them but that they came out of such a call.
#[verifier::external_body]
fn semaphore(count: usize) -> Semaphore
    requires
        count <= usize::MAX / 8,
{
    Semaphore::new(count)
}

/// The slots were made for so many requests to be outstanding at a time.
pub closed spec fn made_for(slots: Semaphore, count: usize) -> bool {
    call_ensures(semaphore, (count,), slots)
}

/// Slots for so many requests to be outstanding at a time.
fn slots(count: usize) -> (slots: Semaphore)
    requires
        count <= usize::MAX / 8,
    ensures
        made_for(slots, count),
{
    let slots = semaphore(count);
    slots
}

/// Identity of one remote capability within this process.
#[derive(Debug)]
pub struct CapnpPeer(Identity);

impl CapnpPeer {
    /// The peer's identity was made anew, rather than taken from another peer.
    pub closed spec fn is_made_anew(self) -> bool {
        identity::may_be_made(self.0)
    }
}

impl PartialEq for CapnpPeer {
    fn eq(&self, other: &Self) -> (same: bool) {
        self.0 == other.0
    }
}

impl vstd::std_specs::cmp::PartialEqSpecImpl for CapnpPeer {
    open spec fn obeys_eq_spec() -> bool {
        true
    }

    open spec fn eq_spec(&self, other: &Self) -> bool {
        *self == *other
    }
}

impl Eq for CapnpPeer {

}

impl Clone for CapnpPeer {
    fn clone(&self) -> (peer: Self)
        ensures
            peer == *self,
    {
        Self(self.0.clone())
    }
}

/// A request to the remote channel.
#[derive(Debug)]
pub enum ChannelCommand {
    /// Send the payload, answer, then free the slot.
    Send(Vec<u8>, oneshot::Sender<Result<(), SendError>>, OwnedSemaphorePermit),
    /// Receive one payload of at most the given length, and answer.
    Recv(oneshot::Sender<Result<Vec<u8>, RecvError>>, usize),
}

/// The link that a bridged channel keeps alive.
#[derive(Debug)]
pub struct Link {
    lifetime: mpsc::Sender<()>,
    max_message_len: usize,
}

impl Link {
    /// Maximum outgoing payload size in bytes.
    pub closed spec fn send_limit(self) -> usize {
        self.max_message_len
    }

    /// What tells the driver of the link that nobody keeps it alive any more, by ending.
    pub closed spec fn life(self) -> mpsc::Sender<()> {
        self.lifetime
    }

    /// Maximum outgoing payload size in bytes.
    pub fn max_message_len(&self) -> (max: usize)
        ensures
            max == self.send_limit(),
    {
        self.max_message_len
    }
}

/// A link with an outgoing limit, and what tells its driver that nobody keeps it alive
/// any more.
pub fn new_link(max_message_len: usize) -> (link: (Arc<Link>, mpsc::Receiver<()>))
    ensures
        link.0.send_limit() == max_message_len,
        queues::are_ends(1, link.0.life(), link.1),
{
    let (lifetime, ended) = bounded(1);
    (Arc::new(Link { lifetime, max_message_len }), ended)
}

/// How many commands wait for a channel's driver: one in each direction.
pub const COMMAND_QUEUE_CAPACITY: usize = 2;

/// What the caller of a send has to do next.
#[derive(Debug)]
pub enum SendStep {
    /// Wait for the send slot.
    TakeSlot,
    /// Submit the command. It owns the slot, so that outstanding sends stay bounded
    /// however their callers fare.
    Submit(ChannelCommand),
    /// Wait for the reply.
    AwaitReply,
    /// Nothing: this is what the send came to.
    Finish(Result<(), SendError>),
}

/// What happened to a step of a send.
#[derive(Debug)]
pub enum SendEvent {
    /// The slot is taken; this is where the reply is to be handed in.
    Slot(oneshot::Sender<Result<(), SendError>>, OwnedSemaphorePermit),
    /// The command was taken, or there was nobody to take it.
    Submitted(bool),
    /// The reply came, or never will.
    Replied(Option<Result<(), SendError>>),
}

/// Where a send stands.
#[derive(Debug)]
pub enum SendOperation {
    /// This payload waits for the slot.
    Waiting(Vec<u8>),
    /// The command is being submitted.
    Submitting,
    /// The reply is awaited.
    Awaiting,
    /// It is over.
    Over,
}

impl SendOperation {
    /// `event` can happen to the step of this state.
    pub open spec fn allows(self, event: SendEvent) -> bool {
        match event {
            SendEvent::Slot(_, _) => self is Waiting,
            SendEvent::Submitted(_) => self is Submitting,
            SendEvent::Replied(_) => self is Awaiting,
        }
    }

    /// After `event`, the send stands at `next` with `step` to do.
    pub open spec fn goes_on(self, event: SendEvent, next: Self, step: SendStep) -> bool {
        match (self, event) {
            (SendOperation::Waiting(message), SendEvent::Slot(reply, slot)) => {
                &&& next is Submitting
                &&& step == SendStep::Submit(ChannelCommand::Send(message, reply, slot))
            },
            (SendOperation::Submitting, SendEvent::Submitted(taken)) => if taken {
                next is Awaiting && step is AwaitReply
            } else {
                next is Over && step matches SendStep::Finish(Err(SendError::Closed))
            },
            (SendOperation::Awaiting, SendEvent::Replied(reply)) => {
                &&& next is Over
                &&& step matches SendStep::Finish(outcome)
                &&& match reply {
                    Some(answer) => outcome == answer,
                    None => outcome matches Err(SendError::Closed),
                }
            },
            _ => false,
        }
    }

    /// Begin to send a payload: check it against the outgoing limit before anything is
    /// taken or submitted for it.
    pub fn begin(message: Vec<u8>, max: usize) -> (begun: (Self, SendStep))
        ensures
            if message@.len() > max {
                &&& begun.0 is Over
                &&& begun.1 matches SendStep::Finish(Err(SendError::TooLarge { max: limit }))
                &&& limit == max
            } else {
                begun.0 == SendOperation::Waiting(message) && begun.1 is TakeSlot
            },
    {
        if message.len() > max {
            return (SendOperation::Over, SendStep::Finish(Err(SendError::TooLarge { max })));
        }
        (SendOperation::Waiting(message), SendStep::TakeSlot)
    }

    /// Take note of what happened to the step, and say what to do next.
    pub fn proceed(self, event: SendEvent) -> (going: (Self, SendStep))
        requires
            self.allows(event),
        ensures
            self.goes_on(event, going.0, going.1),
    {
        match (self, event) {
            (SendOperation::Waiting(message), SendEvent::Slot(reply, slot)) => (
                SendOperation::Submitting,
                SendStep::Submit(ChannelCommand::Send(message, reply, slot)),
            ),
            (SendOperation::Submitting, SendEvent::Submitted(true)) => (
                SendOperation::Awaiting,
                SendStep::AwaitReply,
            ),
            (_, SendEvent::Replied(reply)) => (
                SendOperation::Over,
                SendStep::Finish(settle_send(reply)),
            ),
            _ => (SendOperation::Over, SendStep::Finish(settle_send(None))),
        }
    }
}

/// A send is carried through in one order: the limit, the slot, the submission, the reply.
/// A payload over the limit takes no slot and is never submitted, and whatever comes of a
/// send that was submitted is what its reply says, or that the channel is closed.
pub proof fn a_send_is_carried_through_in_order(
    message: Vec<u8>,
    reply: oneshot::Sender<Result<(), SendError>>,
    slot: OwnedSemaphorePermit,
    submitting: SendOperation,
    submit: SendStep,
    awaiting: SendOperation,
    wait: SendStep,
    answer: Option<Result<(), SendError>>,
    over: SendOperation,
    finish: SendStep,
)
    requires
        SendOperation::Waiting(message).goes_on(SendEvent::Slot(reply, slot), submitting, submit),
        submitting.goes_on(SendEvent::Submitted(true), awaiting, wait),
        awaiting.goes_on(SendEvent::Replied(answer), over, finish),
    ensures
        submit == SendStep::Submit(ChannelCommand::Send(message, reply, slot)),
        answer matches Some(outcome) ==> finish == SendStep::Finish(outcome),
        answer is None ==> (finish matches SendStep::Finish(Err(SendError::Closed))),
        forall|event: SendEvent| !over.allows(event),
{
}

/// What a send comes to, given its reply: one that never comes, because the command
/// was not taken or its answer was dropped, means that the channel is closed.
pub fn settle_send(reply: Option<Result<(), SendError>>) -> (outcome: Result<(), SendError>)
    ensures
        match reply {
            Some(answer) => outcome == answer,
            None => outcome matches Err(SendError::Closed),
        },
{
    match reply {
        Some(answer) => answer,
        None => Err(SendError::Closed),
    }
}

/// What a receive comes to, given its reply: one that never comes, because the command
/// was not taken or its answer was dropped, means that the channel is closed.
pub fn settle_recv(
    reply: Option<Result<Vec<u8>, RecvError>>,
) -> (outcome: Result<Vec<u8>, RecvError>)
    ensures
        match reply {
            Some(answer) => outcome == answer,
            None => outcome matches Err(RecvError::Closed),
        },
{
    match reply {
        Some(answer) => answer,
        None => Err(RecvError::Closed),
    }
}

/// A receive request that has been submitted, with the limit it was submitted under.
#[derive(Debug)]
pub struct Asked<P> {
    /// Where the reply comes out.
    pub reply: P,
    /// The limit that the request carries.
    pub max: usize,
}

/// What the receiving side of a bridged channel is about.
pub struct ReceptionState<P> {
    /// The request outstanding, if there is one.
    pub outstanding: Option<Asked<P>>,
    /// The limit for requests submitted from now on.
    pub limit: usize,
}

impl<P> ReceptionState<P> {
    /// After submitting a request whose reply comes out of `reply`.
    pub open spec fn asked(self, reply: P) -> Self {
        ReceptionState { outstanding: Some(Asked { reply, max: self.limit }), ..self }
    }

    /// After setting the limit.
    pub open spec fn limited(self, max: usize) -> Self {
        ReceptionState { limit: max, ..self }
    }

    /// After concluding the outstanding request.
    pub open spec fn settled(self) -> Self {
        ReceptionState { outstanding: None, ..self }
    }
}

/// The receiving side of a bridged channel: at most one request outstanding, which
/// outlives the caller that submitted it.
#[derive(Debug)]
pub struct Reception<P> {
    pending: Option<Asked<P>>,
    max: usize,
}

impl<P> View for Reception<P> {
    type V = ReceptionState<P>;

    closed spec fn view(&self) -> ReceptionState<P> {
        ReceptionState { outstanding: self.pending, limit: self.max }
    }
}

impl<P> Reception<P> {
    /// Nothing outstanding, under the given limit.
    pub fn new(max: usize) -> (reception: Self)
        ensures
            reception@ == (ReceptionState { outstanding: None::<Asked<P>>, limit: max }),
    {
        Self { pending: None, max }
    }

    /// Set the limit for requests submitted from now on.
    pub fn set_limit(&mut self, max: usize)
        ensures
            final(self)@ == old(self)@.limited(max),
    {
        self.max = max;
    }

    /// Whether a request has to be submitted before waiting for a reply.
    pub fn needs_request(&self) -> (needed: bool)
        ensures
            needed <==> self@.outstanding is None,
    {
        self.pending.is_none()
    }

    /// The command to submit for a new request.
    pub fn request(
        &self,
        reply: oneshot::Sender<Result<Vec<u8>, RecvError>>,
    ) -> (command: ChannelCommand)
        requires
            self@.outstanding is None,
        ensures
            command == ChannelCommand::Recv(reply, self@.limit),
    {
        ChannelCommand::Recv(reply, self.max)
    }

    /// Keep the reply of a request that was just submitted, before waiting for it.
    pub fn retain(&mut self, reply: P)
        requires
            old(self)@.outstanding is None,
        ensures
            final(self)@ == old(self)@.asked(reply),
    {
        self.pending = Some(Asked { reply, max: self.max });
    }

    /// Where the outstanding reply comes out.
    pub fn awaited(&mut self) -> (reply: &mut P)
        requires
            old(self)@.outstanding is Some,
        ensures
            *reply == old(self)@.outstanding->0.reply,
            final(self)@.outstanding == Some(
                Asked { reply: *final(reply), max: old(self)@.outstanding->0.max },
            ),
            final(self)@.limit == old(self)@.limit,
    {
        match &mut self.pending {
            Some(asked) => &mut asked.reply,
            None => vstd::pervasive::unreached(),
        }
    }

    /// Conclude the outstanding request with its reply, which may never come.
    pub fn settle(
        &mut self,
        reply: Option<Result<Vec<u8>, RecvError>>,
    ) -> (outcome: Result<Vec<u8>, RecvError>)
        ensures
            final(self)@ == old(self)@.settled(),
            match reply {
                Some(answer) => outcome == answer,
                None => outcome matches Err(RecvError::Closed),
            },
    {
        self.pending = None;
        settle_recv(reply)
    }
}

/// A caller that gives up while waiting loses nothing. Until the reply has been handed
/// to [`Reception::settle`], the request stays outstanding under the limit it was
/// submitted with, whatever limit is set in between, and so the next receive submits no
/// second one and waits for the same reply. Once settled, the limit set last is in force.
pub proof fn an_abandoned_receive_is_resumed<P>(
    idle: ReceptionState<P>,
    reply: P,
    max: usize,
    next: P,
)
    requires
        idle.outstanding is None,
    ensures
        idle.asked(reply).limited(max).outstanding == Some(Asked { reply, max: idle.limit }),
        idle.asked(reply).limited(max).settled().outstanding is None,
        idle.asked(reply).limited(max).settled().asked(next).outstanding == Some(
            Asked { reply: next, max },
        ),
{
}

/// Owned independent RPC directions for one remote capability.
pub type CapnpDuplex<P> = Duplex<CapnpSendHalf, CapnpRecvHalf<P>>;

/// A remote byte channel that retains received responses across cancellation.
///
/// One send RPC may be outstanding. Canceling its caller leaves delivery unknown
/// and retains the slot until completion or disconnection. Reception progresses
/// independently. Privacy is `Unspecified` because it depends on the backend.
#[derive(Debug)]
pub struct CapnpChannel<P> {
    commands: mpsc::Sender<ChannelCommand>,
    send_slot: Arc<Semaphore>,
    reception: Reception<P>,
    link: Arc<Link>,
    peer: CapnpPeer,
}

/// Owned sending direction retaining the RPC link and the native send limit.
#[derive(Debug)]
pub struct CapnpSendHalf {
    commands: mpsc::Sender<ChannelCommand>,
    send_slot: Arc<Semaphore>,
    link: Arc<Link>,
    peer: CapnpPeer,
}

/// Owned receiving direction retaining canceled receive responses and the link.
#[derive(Debug)]
pub struct CapnpRecvHalf<P> {
    commands: mpsc::Sender<ChannelCommand>,
    reception: Reception<P>,
    link: Arc<Link>,
    peer: CapnpPeer,
}

/// What the driver of a new link needs.
#[derive(Debug)]
#[verifier::reject_recursive_types(C)]
pub struct LinkEnds<C> {
    /// The commands to carry out.
    pub commands: mpsc::Receiver<C>,
    /// Ends once nobody keeps the link alive.
    pub lifetime: mpsc::Receiver<()>,
}

impl<P> CapnpChannel<P> {
    /// Where commands go.
    pub closed spec fn queue(self) -> mpsc::Sender<ChannelCommand> {
        self.commands
    }

    /// The slot that an outstanding send holds.
    pub closed spec fn slot(self) -> Arc<Semaphore> {
        self.send_slot
    }

    /// The receiving side.
    pub closed spec fn receiving(self) -> Reception<P> {
        self.reception
    }

    /// The link kept alive.
    pub closed spec fn carrier(self) -> Arc<Link> {
        self.link
    }

    /// The remote capability.
    pub closed spec fn remote(self) -> CapnpPeer {
        self.peer
    }

    /// `duplex` is this channel taken apart: either direction goes on with the queue,
    /// the link and the remote capability, the sending one with the slot and the
    /// receiving one with what is outstanding.
    pub open spec fn separates_into(self, duplex: CapnpDuplex<P>) -> bool {
        let (sending, receiving) = (duplex.sending(), duplex.receiving());
        &&& sending.queue() == self.queue()
        &&& sending.slot() == self.slot()
        &&& sending.carrier() == self.carrier()
        &&& sending.remote() == self.remote()
        &&& receiving.queue() == self.queue()
        &&& receiving.receiving() == self.receiving()
        &&& receiving.carrier() == self.carrier()
        &&& receiving.remote() == self.remote()
    }

    /// A channel to a new remote capability over a standing link, with one send slot,
    /// nothing received yet and the given incoming limit; and the commands that its
    /// driver is to carry out.
    pub fn over(link: Arc<Link>, max_recv_message_len: usize) -> (made: (
        Self,
        mpsc::Receiver<ChannelCommand>,
    ))
        ensures
            made.0.receiving()@.outstanding is None,
            made.0.receiving()@.limit == max_recv_message_len,
            made.0.carrier() == link,
            made.0.remote().is_made_anew(),
            made_for(*made.0.slot(), 1),
            queues::are_ends(COMMAND_QUEUE_CAPACITY, made.0.queue(), made.1),
    {
        let (commands, receiver) = bounded(COMMAND_QUEUE_CAPACITY);
        (
            Self {
                commands,
                send_slot: Arc::new(slots(1)),
                reception: Reception::new(max_recv_message_len),
                link,
                peer: CapnpPeer(Identity::fresh()),
            },
            receiver,
        )
    }

    /// A channel over a new link, and what the driver of that link needs.
    ///
    /// `max_message_len` sets the maximum outgoing payload size in bytes. Incoming
    /// payloads have no limit of their own until one is set.
    pub fn connect(max_message_len: usize) -> (made: (Self, LinkEnds<ChannelCommand>))
        ensures
            made.0.receiving()@.outstanding is None,
            made.0.receiving()@.limit == usize::MAX,
            made.0.remote().is_made_anew(),
            made_for(*made.0.slot(), 1),
            made.0.carrier().send_limit() == max_message_len,
            queues::are_ends(COMMAND_QUEUE_CAPACITY, made.0.queue(), made.1.commands),
            queues::are_ends(1, made.0.carrier().life(), made.1.lifetime),
    {
        let (link, lifetime) = new_link(max_message_len);
        let (channel, commands) = Self::over(link, usize::MAX);
        (channel, LinkEnds { commands, lifetime })
    }

    /// Limit payloads from newly started receive requests, in bytes.
    ///
    /// Defaults to no additional payload limit. Oversized messages are consumed
    /// without copying the payload and return [`RecvError::TooLarge`]. Pending
    /// requests retain their original limit. The RPC reader's frame limit is
    /// unchanged; this check occurs after the frame has been received.
    pub fn set_max_recv_message_len(&mut self, max: usize)
        ensures
            final(self).receiving()@ == old(self).receiving()@.limited(max),
            final(self).queue() == old(self).queue(),
            final(self).slot() == old(self).slot(),
            final(self).carrier() == old(self).carrier(),
            final(self).remote() == old(self).remote(),
    {
        self.reception.set_limit(max);
    }

    /// Begin to send a payload, under the outgoing limit of the link.
    pub fn begin_send(&self, message: Vec<u8>) -> (begun: (SendOperation, SendStep))
        ensures
            if message@.len() > self.carrier().send_limit() {
                &&& begun.0 is Over
                &&& begun.1 matches SendStep::Finish(Err(SendError::TooLarge { max }))
                &&& max == self.carrier().send_limit()
            } else {
                begun.0 == SendOperation::Waiting(message) && begun.1 is TakeSlot
            },
    {
        SendOperation::begin(message, self.link.max_message_len())
    }

    /// Where commands go.
    pub fn commands(&self) -> (commands: &mpsc::Sender<ChannelCommand>)
        ensures
            *commands == self.queue(),
    {
        &self.commands
    }

    /// The slot to take before submitting a send.
    pub fn send_slot(&self) -> (slot: Arc<Semaphore>)
        ensures
            slot == self.slot(),
    {
        Arc::clone(&self.send_slot)
    }

    /// The receiving side.
    pub fn reception_mut(&mut self) -> (reception: &mut Reception<P>)
        ensures
            *reception == old(self).receiving(),
            final(self).receiving() == *final(reception),
            final(self).queue() == old(self).queue(),
            final(self).slot() == old(self).slot(),
            final(self).carrier() == old(self).carrier(),
            final(self).remote() == old(self).remote(),
    {
        &mut self.reception
    }

    /// Separate the directions while preserving pending reception and link ownership.
    ///
    /// Privacy remains `Unspecified`.
    pub fn into_channel(self) -> (duplex: CapnpDuplex<P>)
        ensures
            self.separates_into(duplex),
    {
        let commands = another_handle(&self.commands);
        let link = Arc::clone(&self.link);
        let peer = self.peer.clone();
        Duplex::new(
            CapnpSendHalf { commands, send_slot: self.send_slot, link, peer },
            CapnpRecvHalf {
                commands: self.commands,
                reception: self.reception,
                link: self.link,
                peer: self.peer,
            },
        )
    }
}

impl CapnpSendHalf {
    /// Where commands go.
    pub closed spec fn queue(self) -> mpsc::Sender<ChannelCommand> {
        self.commands
    }

    /// The slot that an outstanding send holds.
    pub closed spec fn slot(self) -> Arc<Semaphore> {
        self.send_slot
    }

    /// The link kept alive.
    pub closed spec fn carrier(self) -> Arc<Link> {
        self.link
    }

    /// The remote capability.
    pub closed spec fn remote(self) -> CapnpPeer {
        self.peer
    }

    /// Begin to send a payload, under the outgoing limit of the link.
    pub fn begin_send(&self, message: Vec<u8>) -> (begun: (SendOperation, SendStep))
        ensures
            if message@.len() > self.carrier().send_limit() {
                &&& begun.0 is Over
                &&& begun.1 matches SendStep::Finish(Err(SendError::TooLarge { max }))
                &&& max == self.carrier().send_limit()
            } else {
                begun.0 == SendOperation::Waiting(message) && begun.1 is TakeSlot
            },
    {
        SendOperation::begin(message, self.link.max_message_len())
    }

    /// Where commands go.
    pub fn commands(&self) -> (commands: &mpsc::Sender<ChannelCommand>)
        ensures
            *commands == self.queue(),
    {
        &self.commands
    }

    /// The slot to take before submitting a send.
    pub fn send_slot(&self) -> (slot: Arc<Semaphore>)
        ensures
            slot == self.slot(),
    {
        Arc::clone(&self.send_slot)
    }
}

impl<P> CapnpRecvHalf<P> {
    /// Where commands go.
    pub closed spec fn queue(self) -> mpsc::Sender<ChannelCommand> {
        self.commands
    }

    /// The receiving side.
    pub closed spec fn receiving(self) -> Reception<P> {
        self.reception
    }

    /// The link kept alive.
    pub closed spec fn carrier(self) -> Arc<Link> {
        self.link
    }

    /// The remote capability.
    pub closed spec fn remote(self) -> CapnpPeer {
        self.peer
    }

    /// Where commands go.
    pub fn commands(&self) -> (commands: &mpsc::Sender<ChannelCommand>)
        ensures
            *commands == self.queue(),
    {
        &self.commands
    }

    /// The receiving side.
    pub fn reception_mut(&mut self) -> (reception: &mut Reception<P>)
        ensures
            *reception == old(self).receiving(),
            final(self).receiving() == *final(reception),
            final(self).queue() == old(self).queue(),
            final(self).carrier() == old(self).carrier(),
            final(self).remote() == old(self).remote(),
    {
        &mut self.reception
    }
}

impl PeerChannel for CapnpSendHalf {
    type Peer = CapnpPeer;

    open spec fn endpoint(&self) -> CapnpPeer {
        self.remote()
    }

    fn peer(&self) -> (peer: &CapnpPeer) {
        &self.peer
    }
}

impl<P> PeerChannel for CapnpRecvHalf<P> {
    type Peer = CapnpPeer;

    open spec fn endpoint(&self) -> CapnpPeer {
        self.remote()
    }

    fn peer(&self) -> (peer: &CapnpPeer) {
        &self.peer
    }
}

/// The two directions of one channel belong to one remote capability, feed one queue
/// and keep one link alive, so whatever is sent meets the same limit as before, and a
/// reply awaited before is awaited still.
pub proof fn directions_stay_together<P>(whole: CapnpChannel<P>, duplex: CapnpDuplex<P>)
    requires
        whole.separates_into(duplex),
    ensures
        duplex.sending().queue() == duplex.receiving().queue(),
        duplex.sending().endpoint() == duplex.receiving().endpoint(),
        duplex.sending().carrier().send_limit() == whole.carrier().send_limit(),
        duplex.receiving().receiving()@.outstanding == whole.receiving()@.outstanding,
{
}

/// Directions of separated channels pair exactly where they belong to one remote capability:
/// those of one channel do, and those of channels to different capabilities are refused.
pub proof fn directions_pair_only_towards_one_capability<P>(
    first: CapnpChannel<P>,
    first_directions: CapnpDuplex<P>,
    second: CapnpChannel<P>,
    second_directions: CapnpDuplex<P>,
    own: Result<Channel<CapnpSendHalf, CapnpRecvHalf<P>>, PeerMismatch>,
    mixed: Result<Channel<CapnpSendHalf, CapnpRecvHalf<P>>, PeerMismatch>,
)
    requires
        first.separates_into(first_directions),
        second.separates_into(second_directions),
        Channel::pairs(first_directions.sending(), first_directions.receiving(), own),
        Channel::pairs(first_directions.sending(), second_directions.receiving(), mixed),
    ensures
        own matches Ok(channel) && {
            &&& channel.sending() == first_directions.sending()
            &&& channel.receiving() == first_directions.receiving()
        },
        mixed is Ok <==> first.remote() == second.remote(),
{
}

/// A send takes its steps in one order: the slot, the submission and the reply, each only when
/// the one before it is done, and nothing once it is over.
pub proof fn a_send_takes_its_steps_in_order(
    operation: SendOperation,
    reply: oneshot::Sender<Result<(), SendError>>,
    slot: OwnedSemaphorePermit,
    taken: bool,
    answer: Option<Result<(), SendError>>,
)
    ensures
        operation.allows(SendEvent::Slot(reply, slot)) <==> operation is Waiting,
        operation.allows(SendEvent::Submitted(taken)) <==> operation is Submitting,
        operation.allows(SendEvent::Replied(answer)) <==> operation is Awaiting,
{
}

/// What each step of a send comes to: the slot lets the payload be submitted as it is, with its
/// slot and the place for its reply; a submission that is taken is awaited, one that is not
/// means that the channel is closed; and a reply is what the send comes to, or, if it never
/// comes, that the channel is closed.
pub proof fn each_step_of_a_send_leads_to_the_next(
    operation: SendOperation,
    event: SendEvent,
    next: SendOperation,
    step: SendStep,
)
    requires
        operation.allows(event),
        operation.goes_on(event, next, step),
    ensures
        event matches SendEvent::Slot(reply, slot) ==> {
            &&& next is Submitting
            &&& step matches SendStep::Submit(ChannelCommand::Send(payload, to, held)) && payload
                == operation->Waiting_0 && to == reply && held == slot
        },
        event matches SendEvent::Submitted(true) ==> next is Awaiting && step is AwaitReply,
        event matches SendEvent::Submitted(false) ==> next is Over && (step
            matches SendStep::Finish(Err(error)) && error is Closed),
        event matches SendEvent::Replied(Some(Ok(_))) ==> next is Over && (step
            matches SendStep::Finish(outcome) && outcome is Ok),
        event matches SendEvent::Replied(Some(Err(failure))) ==> next is Over && (step
            matches SendStep::Finish(Err(error)) && error == failure),
        event matches SendEvent::Replied(None) ==> next is Over && (step
            matches SendStep::Finish(Err(error)) && error is Closed),
{
}

/// A request for a message is outstanding under the limit in force when it was submitted, and
/// with its own reply, until it is concluded; setting a limit touches no request that is
/// outstanding, and concluding one touches no limit.
pub proof fn a_request_keeps_its_limit<P>(state: ReceptionState<P>, reply: P, max: usize)
    ensures
        state.asked(reply).outstanding matches Some(asked) && asked.reply == reply && asked.max
            == state.limit,
        state.asked(reply).limit == state.limit,
        state.limited(max).limit == max,
        state.limited(max).outstanding == state.outstanding,
        state.settled().outstanding is None,
        state.settled().limit == state.limit,
{
}

/// Taking a channel apart takes nothing from it: both directions go on with its queue, its link
/// and its peer, the sending one with its slot, and the receiving one with its reception.
pub proof fn separating_a_channel_takes_nothing_from_it<P>(
    whole: CapnpChannel<P>,
    duplex: CapnpDuplex<P>,
)
    requires
        whole.separates_into(duplex),
    ensures
        duplex.sending().queue() == whole.queue(),
        duplex.receiving().queue() == whole.queue(),
        duplex.sending().carrier() == whole.carrier(),
        duplex.receiving().carrier() == whole.carrier(),
        duplex.sending().remote() == whole.remote(),
        duplex.receiving().remote() == whole.remote(),
        duplex.sending().slot() == whole.slot(),
        duplex.receiving().receiving() == whole.receiving(),
{
}

/// Slots are made for the number of requests that was asked for, and a peer is made anew with an
/// identity of its own.
proof fn slots_and_peers_are_made_as_asked(slots: Semaphore, count: usize, peer: CapnpPeer)
    ensures
        made_for(slots, count) <==> call_ensures(semaphore, (count,), slots),
        peer.is_made_anew() <==> identity::may_be_made(peer.0),
{
}

/// Peers compare equal exactly if they are the same one.
pub proof fn equal_peers_are_the_same_peer(left: CapnpPeer, right: CapnpPeer)
    ensures
        vstd::std_specs::cmp::PartialEqSpec::eq_spec(&left, &right) <==> left == right,
{
}

} // verus!
