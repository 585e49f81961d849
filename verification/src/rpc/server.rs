//! The serving end of a bridge: what it does with its backend and its clients.

use crate::rpc::error::{BuildError, RecvError, SendError};
use crate::rpc::wire::{build_reply, BuildReply};
use vstd::prelude::*;

verus! {

/// What happens to a channel being served.
#[derive(Debug)]
pub enum ServeEvent {
    /// A client's message came off the queue, or no client can send any more.
    Requested(Option<Vec<u8>>),
    /// The backend came to this with the message it was given last.
    Sent(Result<(), SendError>),
    /// The backend received this.
    Received(Result<Vec<u8>, RecvError>),
    /// What was received last was taken for the clients, or there was nobody to take it.
    Delivered(bool),
    /// Nobody can ask for received messages any more.
    Abandoned,
}

/// What is to be done next for a channel being served.
#[derive(Debug)]
pub enum ServeAction {
    /// Give the message to the backend.
    Submit(Vec<u8>),
    /// Answer the client whose message was with the backend.
    Answer(Result<(), SendError>),
    /// Hand over what was received.
    Deliver(Result<Vec<u8>, RecvError>),
    /// Ask the backend for the next message.
    Receive,
    /// Dispose of the backend, with both its directions.
    Stop,
}

/// Where the service of a channel stands.
pub struct ServingState {
    /// The backend is still in use.
    pub open: bool,
    /// A message is with the backend.
    pub sending: bool,
    /// Something received is being handed over; whether it is an error.
    pub delivering: Option<bool>,
}

/// A send that ends the service: every failure but a rejected length.
pub open spec fn send_is_terminal(result: Result<(), SendError>) -> bool {
    match result {
        Ok(_) | Err(SendError::TooLarge { .. }) => false,
        Err(SendError::Closed) | Err(SendError::Transport(_)) => true,
    }
}

impl ServingState {
    /// The service begins with an idle sender and a receiver that was asked.
    pub open spec fn initial() -> Self {
        ServingState { open: true, sending: false, delivering: None }
    }

    /// `event` can happen now.
    pub open spec fn allows(self, event: ServeEvent) -> bool {
        self.open && match event {
            ServeEvent::Requested(_) => !self.sending,
            ServeEvent::Sent(_) => self.sending,
            ServeEvent::Received(_) => self.delivering is None,
            ServeEvent::Delivered(_) => self.delivering is Some,
            ServeEvent::Abandoned => true,
        }
    }

    /// `event` ends the service.
    pub open spec fn ends_by(self, event: ServeEvent) -> bool {
        match event {
            ServeEvent::Requested(message) => message is None,
            ServeEvent::Sent(result) => send_is_terminal(result),
            ServeEvent::Received(_) => false,
            ServeEvent::Delivered(taken) => !taken || self.delivering == Some(true),
            ServeEvent::Abandoned => true,
        }
    }

    /// Where the service stands after `event`.
    pub open spec fn after(self, event: ServeEvent) -> Self {
        ServingState {
            open: !self.ends_by(event),
            sending: match event {
                ServeEvent::Requested(message) => message is Some,
                ServeEvent::Sent(_) => false,
                _ => self.sending,
            },
            delivering: match event {
                ServeEvent::Received(result) => Some(result is Err),
                ServeEvent::Delivered(_) => None,
                _ => self.delivering,
            },
        }
    }

    /// What is to be done about `event`.
    pub open spec fn action(self, event: ServeEvent) -> ServeAction {
        match event {
            ServeEvent::Requested(Some(message)) => ServeAction::Submit(message),
            ServeEvent::Sent(result) => ServeAction::Answer(result),
            ServeEvent::Received(result) => ServeAction::Deliver(result),
            ServeEvent::Delivered(_) if !self.ends_by(event) => ServeAction::Receive,
            _ => ServeAction::Stop,
        }
    }
}

/// The service of one backend channel, as decisions.
///
/// A receive error, or a send error other than a rejected length, ends both
/// directions, to avoid reusing interrupted I/O. A client whose send ends the service
/// is still answered, and clients still get to see the error that ends it.
#[derive(Debug)]
pub struct Serving {
    open: bool,
    sending: bool,
    delivering: Option<bool>,
}

impl View for Serving {
    type V = ServingState;

    closed spec fn view(&self) -> ServingState {
        ServingState { open: self.open, sending: self.sending, delivering: self.delivering }
    }
}

/// Whether a send ends the service: every failure but a rejected length does.
pub fn is_terminal_send(result: &Result<(), SendError>) -> (terminal: bool)
    ensures
        terminal == send_is_terminal(*result),
{
    match result {
        Ok(()) | Err(SendError::TooLarge { .. }) => false,
        Err(SendError::Closed) | Err(SendError::Transport(_)) => true,
    }
}

impl Serving {
    /// Begin: nothing to send yet, and the backend asked for its first message.
    pub fn start() -> (serving: Self)
        ensures
            serving@ == ServingState::initial(),
    {
        Self { open: true, sending: false, delivering: None }
    }

    /// Whether the backend is still in use.
    pub fn is_open(&self) -> (open: bool)
        ensures
            open == self@.open,
    {
        self.open
    }

    /// Take note of an event, and decide what to do about it.
    ///
    /// Once the action has been performed, the backend is to be disposed of unless the
    /// service is still [open](Self::is_open).
    pub fn step(&mut self, event: ServeEvent) -> (action: ServeAction)
        requires
            old(self)@.allows(event),
        ensures
            action == old(self)@.action(event),
            final(self)@ == old(self)@.after(event),
    {
        match event {
            ServeEvent::Requested(Some(message)) => {
                self.sending = true;
                ServeAction::Submit(message)
            },
            ServeEvent::Sent(result) => {
                self.sending = false;
                self.open = !is_terminal_send(&result);
                ServeAction::Answer(result)
            },
            ServeEvent::Received(result) => {
                self.delivering = Some(result.is_err());
                ServeAction::Deliver(result)
            },
            ServeEvent::Delivered(taken) => {
                let terminal = match self.delivering {
                    Some(failed) => failed,
                    None => false,
                };
                self.delivering = None;
                if !taken || terminal {
                    self.open = false;
                    ServeAction::Stop
                } else {
                    ServeAction::Receive
                }
            },
            ServeEvent::Requested(None) => {
                self.sending = false;
                self.open = false;
                ServeAction::Stop
            },
            ServeEvent::Abandoned => {
                self.open = false;
                ServeAction::Stop
            },
        }
    }
}

/// Where the service stands after a run of events.
pub open spec fn after_all(start: ServingState, events: Seq<ServeEvent>) -> ServingState
    decreases events.len(),
{
    if events.len() == 0 {
        start
    } else {
        after_all(start, events.drop_last()).after(events.last())
    }
}

/// Each event of a run can happen when it does.
pub open spec fn can_happen(start: ServingState, events: Seq<ServeEvent>) -> bool
    decreases events.len(),
{
    events.len() == 0 || (can_happen(start, events.drop_last()) && after_all(
        start,
        events.drop_last(),
    ).allows(events.last()))
}

/// How many messages a run gives to the backend.
pub open spec fn submitted(events: Seq<ServeEvent>) -> nat
    decreases events.len(),
{
    if events.len() == 0 {
        0
    } else {
        submitted(events.drop_last()) + match events.last() {
            ServeEvent::Requested(Some(_)) => 1nat,
            _ => 0nat,
        }
    }
}

/// How many clients a run answers.
pub open spec fn answered(events: Seq<ServeEvent>) -> nat
    decreases events.len(),
{
    if events.len() == 0 {
        0
    } else {
        answered(events.drop_last()) + match events.last() {
            ServeEvent::Sent(_) => 1nat,
            _ => 0nat,
        }
    }
}

/// A rejected length is the one failure that leaves the channel usable: a send that
/// fails otherwise, or a failed receive that has been handed over, ends both
/// directions, and nothing can happen afterwards.
pub proof fn only_a_rejected_length_is_survived(
    state: ServingState,
    event: ServeEvent,
    next: ServeEvent,
)
    requires
        state.allows(event),
        match event {
            ServeEvent::Sent(Err(error)) => !(error is TooLarge),
            ServeEvent::Delivered(_) => state.delivering == Some(true),
            _ => false,
        },
    ensures
        !state.after(event).open,
        !state.after(event).allows(next),
{
}

/// The service lasts until the first event that ends it: after a run of events it is
/// open exactly if it began open and none of them ended it.
pub proof fn service_lasts_until_an_event_ends_it(start: ServingState, events: Seq<ServeEvent>)
    requires
        start.open,
        can_happen(start, events),
    ensures
        after_all(start, events).open <==> forall|i: int|
            0 <= i < events.len() ==> !after_all(start, #[trigger] events.take(i)).ends_by(
                events[i],
            ),
    decreases events.len(),
{
    if events.len() > 0 {
        let earlier = events.drop_last();
        service_lasts_until_an_event_ends_it(start, earlier);
        assert(events.take(events.len() - 1) =~= earlier);
        assert forall|i: int| 0 <= i < earlier.len() implies #[trigger] events.take(i)
            == earlier.take(i) by {
            assert(events.take(i) =~= earlier.take(i));
        }
        if after_all(start, events).open {
            assert forall|i: int| 0 <= i < events.len() implies !after_all(
                start,
                #[trigger] events.take(i),
            ).ends_by(events[i]) by {
                if i < earlier.len() {
                    assert(earlier.take(i) == events.take(i));
                }
            }
        } else {
            let last = events.len() - 1;
            assert(after_all(start, events.take(last)).ends_by(events[last]));
        }
    }
}

/// Every message given to the backend is answered once, and nothing else is: at any
/// time at most one answer is owed, the one for the message that the backend has.
pub proof fn every_submission_is_answered_once(events: Seq<ServeEvent>)
    requires
        can_happen(ServingState::initial(), events),
    ensures
        submitted(events) == answered(events) + if after_all(
            ServingState::initial(),
            events,
        ).sending {
            1nat
        } else {
            0nat
        },
    decreases events.len(),
{
    if events.len() > 0 {
        every_submission_is_answered_once(events.drop_last());
    }
}

/// What happened to a step of serving a build request.
#[derive(Debug)]
pub enum BuildEvent<I, C> {
    /// The request's token was decoded, or refused.
    Decoded(Result<I, BuildError>),
    /// The backend has built a channel, or failed to.
    Built(Result<C, BuildError>),
}

/// What is to be done next for a build request.
#[derive(Debug)]
pub enum BuildStep<I, C> {
    /// Have the backend build a channel from the decoded token.
    Build(I),
    /// Answer the client.
    Answer(BuildReply<C>),
}

/// Where the service of a build request stands.
#[derive(Debug, Clone, Copy, PartialEq, Eq, Structural)]
pub enum BuildService {
    /// The token is being decoded.
    Decoding,
    /// The backend is building.
    Building,
    /// The request is answered.
    Answered,
}

impl BuildService {
    /// `event` can happen to the step of this state.
    pub open spec fn allows<I, C>(self, event: BuildEvent<I, C>) -> bool {
        match event {
            BuildEvent::Decoded(_) => self is Decoding,
            BuildEvent::Built(_) => self is Building,
        }
    }

    /// After `event`, the service stands at `next` with `step` to do.
    pub open spec fn goes_on<I, C>(
        self,
        event: BuildEvent<I, C>,
        next: Self,
        step: BuildStep<I, C>,
    ) -> bool {
        match event {
            BuildEvent::Decoded(Ok(token)) => next is Building && step == BuildStep::<I, C>::Build(
                token,
            ),
            BuildEvent::Decoded(Err(refusal)) => {
                &&& next is Answered
                &&& step matches BuildStep::Answer(reply) && reply.answers(Err(refusal))
            },
            BuildEvent::Built(built) => {
                &&& next is Answered
                &&& step matches BuildStep::Answer(reply) && reply.answers(built)
            },
        }
    }

    /// Begin with a token to decode.
    pub fn start() -> (service: Self)
        ensures
            service is Decoding,
    {
        BuildService::Decoding
    }

    /// Take note of what happened to the step, and say what to do next.
    pub fn proceed<I, C>(self, event: BuildEvent<I, C>) -> (going: (Self, BuildStep<I, C>))
        requires
            self.allows(event),
        ensures
            self.goes_on(event, going.0, going.1),
    {
        match event {
            BuildEvent::Decoded(Ok(token)) => (BuildService::Building, BuildStep::Build(token)),
            BuildEvent::Decoded(Err(refusal)) => (
                BuildService::Answered,
                BuildStep::Answer(build_reply(Err(refusal))),
            ),
            BuildEvent::Built(built) => (
                BuildService::Answered,
                BuildStep::Answer(build_reply(built)),
            ),
        }
    }
}

/// The backend is turned to once a token is decoded, with that token, and never for one that
/// was refused; and a request is answered once, with what its token or the backend came to.
pub proof fn only_a_decoded_token_reaches_the_backend<I, C>(
    decoded: Result<I, BuildError>,
    next: BuildService,
    step: BuildStep<I, C>,
    built: Result<C, BuildError>,
    last: BuildService,
    answer: BuildStep<I, C>,
    later: BuildEvent<I, C>,
)
    requires
        BuildService::Decoding.goes_on(BuildEvent::Decoded(decoded), next, step),
        next.allows(BuildEvent::<I, C>::Built(built)) ==> next.goes_on(
            BuildEvent::Built(built),
            last,
            answer,
        ),
    ensures
        forall|token: I| step == BuildStep::<I, C>::Build(token) <==> decoded == Ok::<
            I,
            BuildError,
        >(token),
        decoded matches Err(refusal) ==> {
            &&& step matches BuildStep::Answer(reply) && reply.answers(Err(refusal))
            &&& !next.allows(later)
        },
        decoded is Ok ==> {
            &&& answer matches BuildStep::Answer(reply) && reply.answers(built)
            &&& !last.allows(later)
        },
{
}

/// The client whose message was with the backend is answered with exactly what the backend came
/// to: success as success, and each failure as itself.
pub proof fn a_client_is_answered_with_what_the_backend_came_to(
    state: ServingState,
    outcome: Result<(), SendError>,
)
    ensures
        match state.action(ServeEvent::Sent(outcome)) {
            ServeAction::Answer(answer) => match outcome {
                Ok(_) => answer is Ok,
                Err(error) => answer matches Err(same) && same == error,
            },
            _ => false,
        },
{
}

/// A client's message is given to the backend as it is, and what the backend receives is handed
/// over as it is, a failure too.
pub proof fn messages_are_passed_on_as_they_are(
    state: ServingState,
    message: Vec<u8>,
    received: Result<Vec<u8>, RecvError>,
)
    ensures
        state.action(ServeEvent::Requested(Some(message))) matches ServeAction::Submit(given)
            && given == message,
        match state.action(ServeEvent::Received(received)) {
            ServeAction::Deliver(delivered) => match received {
                Ok(payload) => delivered matches Ok(same) && same == payload,
                Err(error) => delivered matches Err(same) && same == error,
            },
            _ => false,
        },
{
}

/// The backend is asked for the next message once a message was taken for the clients, and is
/// disposed of once nobody takes any, a failure was handed over, no client can send any more,
/// or nobody can ask for messages any more.
pub proof fn reception_goes_on_while_messages_are_taken(state: ServingState, taken: bool)
    ensures
        taken && state.delivering != Some(true) <==> state.action(ServeEvent::Delivered(taken))
            is Receive,
        !taken || state.delivering == Some(true) <==> state.action(ServeEvent::Delivered(taken))
            is Stop,
        state.action(ServeEvent::Requested(None)) is Stop,
        state.action(ServeEvent::Abandoned) is Stop,
{
}

/// What ends the service: that no client can send or receive any more, a send that failed for
/// another reason than its length, and a delivery that nobody took or that was a failure.
/// Everything else leaves it open.
pub proof fn the_service_ends_for_good_reasons(state: ServingState, outcome: Result<(), SendError>)
    ensures
        state.after(ServeEvent::Sent(outcome)).open <==> match outcome {
            Ok(_) => true,
            Err(error) => error is TooLarge,
        },
        !state.after(ServeEvent::Requested(None)).open,
        !state.after(ServeEvent::Abandoned).open,
        forall|message: Vec<u8>| (#[trigger] state.after(ServeEvent::Requested(Some(message)))).open,
        forall|received: Result<Vec<u8>, RecvError>|
            (#[trigger] state.after(ServeEvent::Received(received))).open,
        state.after(ServeEvent::Delivered(true)).open <==> state.delivering != Some(true),
        !state.after(ServeEvent::Delivered(false)).open,
{
}

/// The service keeps count of what is under way: a message is with the backend from its
/// submission to its outcome, and what was received is on its way from its arrival until it is
/// taken or not, as a failure or not; neither direction touches the other.
pub proof fn the_service_knows_what_is_under_way(
    state: ServingState,
    message: Vec<u8>,
    outcome: Result<(), SendError>,
    received: Result<Vec<u8>, RecvError>,
    taken: bool,
)
    ensures
        state.after(ServeEvent::Requested(Some(message))).sending,
        state.after(ServeEvent::Requested(Some(message))).delivering == state.delivering,
        !state.after(ServeEvent::Sent(outcome)).sending,
        state.after(ServeEvent::Sent(outcome)).delivering == state.delivering,
        state.after(ServeEvent::Received(received)).delivering == Some(received is Err),
        state.after(ServeEvent::Received(received)).sending == state.sending,
        state.after(ServeEvent::Delivered(taken)).delivering is None,
        state.after(ServeEvent::Delivered(taken)).sending == state.sending,
{
}

/// The service begins open and idle, and while it is open it takes one message at a time in
/// either direction; once it has ended, nothing can happen.
pub proof fn one_message_at_a_time_is_under_way_in_either_direction(
    state: ServingState,
    message: Option<Vec<u8>>,
    outcome: Result<(), SendError>,
    received: Result<Vec<u8>, RecvError>,
    taken: bool,
)
    ensures
        ServingState::initial().open,
        !ServingState::initial().sending,
        ServingState::initial().delivering is None,
        state.allows(ServeEvent::Requested(message)) <==> state.open && !state.sending,
        state.allows(ServeEvent::Sent(outcome)) <==> state.open && state.sending,
        state.allows(ServeEvent::Received(received)) <==> state.open && state.delivering is None,
        state.allows(ServeEvent::Delivered(taken)) <==> state.open && state.delivering is Some,
        state.allows(ServeEvent::Abandoned) <==> state.open,
{
}

/// A run of events is its events, one after the other; each submission and each outcome of one
/// counts once.
pub proof fn events_happen_one_by_one(
    start: ServingState,
    events: Seq<ServeEvent>,
    event: ServeEvent,
)
    ensures
        after_all(start, Seq::empty()) == start,
        after_all(start, events.push(event)) == after_all(start, events).after(event),
        can_happen(start, events.push(event)) <==> can_happen(start, events) && after_all(
            start,
            events,
        ).allows(event),
        submitted(Seq::empty()) == 0,
        answered(Seq::empty()) == 0,
        submitted(events.push(event)) - submitted(events) == if event
            matches ServeEvent::Requested(Some(_)) {
            1int
        } else {
            0int
        },
        answered(events.push(event)) - answered(events) == if event is Sent {
            1int
        } else {
            0int
        },
{
    assert(events.push(event).drop_last() =~= events);
}

/// The service of a build request takes its steps in one order: the token first, then the
/// backend, and once the request is answered nothing more can happen.
pub proof fn a_build_request_is_served_in_order<I, C>(
    decoded: Result<I, BuildError>,
    built: Result<C, BuildError>,
)
    ensures
        BuildService::Decoding.allows(BuildEvent::<I, C>::Decoded(decoded)),
        !BuildService::Decoding.allows(BuildEvent::<I, C>::Built(built)),
        BuildService::Building.allows(BuildEvent::<I, C>::Built(built)),
        !BuildService::Building.allows(BuildEvent::<I, C>::Decoded(decoded)),
        !BuildService::Answered.allows(BuildEvent::<I, C>::Decoded(decoded)),
        !BuildService::Answered.allows(BuildEvent::<I, C>::Built(built)),
{
}

/// A build request is answered by category: a built channel is handed out itself, an
/// unreachable peer is said to be unreachable, and every other failure is told by its text. A
/// decoded token goes to the backend as it is.
pub proof fn a_build_request_is_answered_by_category<I, C>(
    service: BuildService,
    event: BuildEvent<I, C>,
    next: BuildService,
    step: BuildStep<I, C>,
)
    requires
        service.goes_on(event, next, step),
    ensures
        match event {
            BuildEvent::Decoded(Ok(token)) => next is Building && (step matches BuildStep::Build(
                given,
            ) && given == token),
            BuildEvent::Decoded(Err(BuildError::Unreachable)) => next is Answered && (step
                matches BuildStep::Answer(BuildReply::Unreachable)),
            BuildEvent::Decoded(Err(BuildError::Transport(cause))) => next is Answered && (step
                matches BuildStep::Answer(BuildReply::Failed(text)) && text@ == "transport: "@
                + cause.text()),
            BuildEvent::Built(Ok(channel)) => next is Answered && (step
                matches BuildStep::Answer(BuildReply::Built(given)) && given == channel),
            BuildEvent::Built(Err(BuildError::Unreachable)) => next is Answered && (step
                matches BuildStep::Answer(BuildReply::Unreachable)),
            BuildEvent::Built(Err(BuildError::Transport(cause))) => next is Answered && (step
                matches BuildStep::Answer(BuildReply::Failed(text)) && text@ == "transport: "@
                + cause.text()),
        },
{
}

/// Abandoning reception touches nothing that is under way, and once no client can send any more
/// nothing is with the backend for one.
pub proof fn ending_the_service_leaves_what_is_under_way(state: ServingState)
    ensures
        state.after(ServeEvent::Abandoned).sending == state.sending,
        state.after(ServeEvent::Abandoned).delivering == state.delivering,
        !state.after(ServeEvent::Requested(None)).sending,
        state.after(ServeEvent::Requested(None)).delivering == state.delivering,
{
}

} // verus!
