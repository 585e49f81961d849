//! Reusable conformance checks for byte channel implementations.
//!
//! Supply fresh channels and select checks for the backend's guarantees.
//! Cancellation safety, closure detection, duplicate-free delivery, and recovery
//! after size rejection are additional properties, not requirements of the traits.
//!
//! Each check says what to do with the channels, and judges what came of it.

use crate::bytes;
use vstd::prelude::*;

verus! {

/// What a check found wrong.
#[derive(Debug, Clone, Copy, PartialEq, Eq, Structural)]
pub enum Fault {
    /// A channel could not be built.
    NotBuilt,
    /// A message could not be sent.
    NotSent,
    /// A message could not be received.
    NotReceived,
    /// Something else was received than was sent.
    WrongMessage,
    /// Something was received before anything was sent.
    Unexpected,
    /// A message that was sent never came, or a lost peer was never noticed.
    TimedOut,
    /// A receiver did not report that its peer is gone.
    NotClosed,
    /// An oversized message was not rejected as such.
    NotRejected,
}

/// Which endpoint of a connected pair.
#[derive(Debug, Clone, Copy, PartialEq, Eq, Structural)]
pub enum Side {
    /// The one named first.
    Left,
    /// The other one.
    Right,
}

/// What an attempt to receive a byte message brought, as far as checks care.
pub type Reception = Option<Vec<u8>>;

/// What comes of sending `message` and receiving at the other end.
pub open spec fn exchanged(
    message: Seq<u8>,
    sent: bool,
    received: Option<Seq<u8>>,
) -> Result<(), Fault> {
    if !sent {
        Err(Fault::NotSent)
    } else {
        match received {
            None => Err(Fault::NotReceived),
            Some(arrived) => if arrived == message {
                Ok(())
            } else {
                Err(Fault::WrongMessage)
            },
        }
    }
}

/// The bytes received, if any were.
pub open spec fn payload(received: Reception) -> Option<Seq<u8>> {
    match received {
        None => None,
        Some(message) => Some(message@),
    }
}

/// Judge the exchange of one message.
pub fn judge_exchange(message: &[u8], sent: bool, received: &Reception) -> (verdict: Result<
    (),
    Fault,
>)
    ensures
        verdict == exchanged(message@, sent, payload(*received)),
        verdict is Ok <==> sent && (received matches Some(arrived) && arrived@ == message@),
{
    if !sent {
        return Err(Fault::NotSent);
    }
    match received {
        None => Err(Fault::NotReceived),
        Some(arrived) => if bytes::same(arrived.as_slice(), message) {
            Ok(())
        } else {
            Err(Fault::WrongMessage)
        },
    }
}

/// One message to send at an endpoint and to receive at the other.
#[derive(Debug)]
pub struct Exchange {
    /// Where to send.
    pub from: Side,
    /// What to send.
    pub message: Vec<u8>,
}

/// The bytes `first`.
pub open spec fn first() -> Seq<u8> {
    seq![0x66u8, 0x69u8, 0x72u8, 0x73u8, 0x74u8]
}

/// The bytes `second`.
pub open spec fn second() -> Seq<u8> {
    seq![0x73u8, 0x65u8, 0x63u8, 0x6fu8, 0x6eu8, 0x64u8]
}

/// The bytes `reply`.
pub open spec fn reply() -> Seq<u8> {
    seq![0x72u8, 0x65u8, 0x70u8, 0x6cu8, 0x79u8]
}

/// The bytes `message`.
pub open spec fn message() -> Seq<u8> {
    seq![0x6du8, 0x65u8, 0x73u8, 0x73u8, 0x61u8, 0x67u8, 0x65u8]
}

/// The bytes `again`.
pub open spec fn again() -> Seq<u8> {
    seq![0x61u8, 0x67u8, 0x61u8, 0x69u8, 0x6eu8]
}

/// The exchanges that verify intact delivery in both directions.
///
/// Each is to be judged by [`judge_exchange`].
pub fn roundtrip_both_directions() -> (exchanges: Vec<Exchange>)
    ensures
        exchanges@.len() == 3,
        exchanges@[0].from == Side::Left && exchanges@[0].message@ == first(),
        exchanges@[1].from == Side::Left && exchanges@[1].message@ == second(),
        exchanges@[2].from == Side::Right && exchanges@[2].message@ == reply(),
{
    let mut exchanges: Vec<Exchange> = Vec::new();
    exchanges.push(Exchange { from: Side::Left, message: vec![0x66, 0x69, 0x72, 0x73, 0x74] });
    exchanges.push(
        Exchange { from: Side::Left, message: vec![0x73, 0x65, 0x63, 0x6f, 0x6e, 0x64] },
    );
    exchanges.push(Exchange { from: Side::Right, message: vec![0x72, 0x65, 0x70, 0x6c, 0x79] });
    assert(exchanges@[0].message@ =~= first());
    assert(exchanges@[1].message@ =~= second());
    assert(exchanges@[2].message@ =~= reply());
    exchanges
}

/// Judge what the other endpoint received after one endpoint was dropped.
///
/// Use only for backends that detect peer closure.
pub fn closed_after_peer_drop<M, E, F: FnOnce(&E) -> bool>(
    received: Result<M, E>,
    is_closed: F,
) -> (verdict: Result<(), Fault>)
    requires
        received matches Err(error) ==> call_requires(is_closed, (&error,)),
    ensures
        match received {
            Ok(_) => verdict == Err::<(), Fault>(Fault::NotClosed),
            Err(error) => exists|closed: bool| #[trigger]
                call_ensures(is_closed, (&error,), closed) && verdict == if closed {
                    Ok::<(), Fault>(())
                } else {
                    Err(Fault::NotClosed)
                },
        },
{
    match received {
        Ok(_) => Err(Fault::NotClosed),
        Err(error) => if is_closed(&error) {
            Ok(())
        } else {
            Err(Fault::NotClosed)
        },
    }
}

/// A payload just above the declared limit.
///
/// `max + 1` must be representable and small enough to allocate.
pub fn too_large(max: usize) -> (message: Vec<u8>)
    requires
        max < isize::MAX,
    ensures
        message@ == Seq::new((max + 1) as nat, |i: int| 0u8),
{
    let message = vec![0u8; max + 1];
    assert(message@ =~= Seq::new((max + 1) as nat, |i: int| 0u8));
    message
}

/// Judge what came of sending an oversized payload.
pub fn judge_rejection<E, F: FnOnce(&E) -> bool>(
    sent: Result<(), E>,
    is_too_large: F,
) -> (verdict: Result<(), Fault>)
    requires
        sent matches Err(error) ==> call_requires(is_too_large, (&error,)),
    ensures
        match sent {
            Ok(_) => verdict == Err::<(), Fault>(Fault::NotRejected),
            Err(error) => exists|rejected: bool| #[trigger]
                call_ensures(is_too_large, (&error,), rejected) && verdict == if rejected {
                    Ok::<(), Fault>(())
                } else {
                    Err(Fault::NotRejected)
                },
        },
{
    match sent {
        Ok(()) => Err(Fault::NotRejected),
        Err(error) => if is_too_large(&error) {
            Ok(())
        } else {
            Err(Fault::NotRejected)
        },
    }
}

/// The payload that verifies that a size rejection left the channel usable: one that
/// the limit admits.
pub fn too_large_is_recoverable(max: usize) -> (message: Vec<u8>)
    ensures
        message@ == Seq::new(
            if max < 5 {
                max as nat
            } else {
                5
            },
            |i: int| 0x42u8,
        ),
        message@.len() <= max,
{
    let len: usize = if max < 5 {
        max
    } else {
        5
    };
    let message = vec![0x42u8; len];
    assert(message@ =~= Seq::new(len as nat, |i: int| 0x42u8));
    message
}

/// How often a receive is given up before anything is sent.
pub const CANCELLATIONS: usize = 10;

/// What the cancellation check does next.
#[derive(Debug)]
pub enum CancelStep {
    /// Receive for a moment, then give up.
    GiveUp,
    /// Begin to receive, without waiting.
    Begin,
    /// Send the message, and see whether sending or receiving is done first.
    SendAndRace,
    /// Send is done: look at the begun receive once more, then give it up.
    LookAgain,
    /// Receive is done first: wait for the send.
    FinishSend,
    /// Receive afresh, for as long as a message may take.
    ReceiveAfresh,
    /// The check is over.
    Conclude(Result<(), Fault>),
}

/// What happened to a step of the cancellation check.
#[derive(Debug)]
pub enum CancelEvent {
    /// Nothing was received so far.
    Pending,
    /// The send is done, successfully or not.
    Sent(bool),
    /// The receive is done.
    Received(Reception),
}

/// Where the cancellation check stands.
pub enum CancelState {
    /// So many receives are still to be given up.
    GivingUp(nat),
    /// A receive is to be begun.
    Beginning,
    /// The message is being sent while the receive goes on.
    Racing,
    /// The message is sent and the receive not yet done.
    LookingAgain,
    /// This was received and the message is still being sent.
    FinishingSend(Option<Seq<u8>>),
    /// The message is sent and the receive was given up.
    ReceivingAfresh,
    /// The check is over.
    Over(Result<(), Fault>),
}

impl CancelState {
    /// The check begins by giving up receives.
    pub open spec fn initial() -> Self {
        CancelState::GivingUp(CANCELLATIONS as nat)
    }

    /// The event that can happen to the step of this state.
    pub open spec fn allows(self, event: CancelEvent) -> bool {
        match self {
            CancelState::GivingUp(left) => left > 0 && !(event is Sent),
            CancelState::Beginning => !(event is Sent),
            CancelState::Racing => !(event is Pending),
            CancelState::LookingAgain => !(event is Sent),
            CancelState::FinishingSend(_) => event is Sent,
            CancelState::ReceivingAfresh => !(event is Sent),
            CancelState::Over(_) => false,
        }
    }

    /// Where the check stands after `event`.
    pub open spec fn after(self, event: CancelEvent) -> Self {
        match (self, event) {
            (CancelState::GivingUp(left), CancelEvent::Pending) => if left > 1 {
                CancelState::GivingUp((left - 1) as nat)
            } else {
                CancelState::Beginning
            },
            (CancelState::Beginning, CancelEvent::Pending) => CancelState::Racing,
            (CancelState::Racing, CancelEvent::Sent(true)) => CancelState::LookingAgain,
            (CancelState::Racing, CancelEvent::Received(received)) => CancelState::FinishingSend(
                payload(received),
            ),
            (CancelState::LookingAgain, CancelEvent::Pending) => CancelState::ReceivingAfresh,
            (CancelState::LookingAgain, CancelEvent::Received(received)) => CancelState::Over(
                exchanged(message(), true, payload(received)),
            ),
            (CancelState::FinishingSend(received), CancelEvent::Sent(sent)) => CancelState::Over(
                exchanged(message(), sent, received),
            ),
            (CancelState::ReceivingAfresh, CancelEvent::Received(received)) => CancelState::Over(
                exchanged(message(), true, payload(received)),
            ),
            (CancelState::ReceivingAfresh, _) => CancelState::Over(Err(Fault::TimedOut)),
            (_, CancelEvent::Sent(_)) => CancelState::Over(Err(Fault::NotSent)),
            _ => CancelState::Over(Err(Fault::Unexpected)),
        }
    }
}

/// Verify messages remain available across repeated receive cancellation.
#[derive(Debug)]
pub struct RecvIsCancelSafe {
    phase: CancelPhase,
}

/// Where the cancellation check stands, with what it has received.
#[derive(Debug)]
enum CancelPhase {
    GivingUp(usize),
    Beginning,
    Racing,
    LookingAgain,
    FinishingSend(Reception),
    ReceivingAfresh,
    Over(Result<(), Fault>),
}

impl View for RecvIsCancelSafe {
    type V = CancelState;

    closed spec fn view(&self) -> CancelState {
        match self.phase {
            CancelPhase::GivingUp(left) => CancelState::GivingUp(left as nat),
            CancelPhase::Beginning => CancelState::Beginning,
            CancelPhase::Racing => CancelState::Racing,
            CancelPhase::LookingAgain => CancelState::LookingAgain,
            CancelPhase::FinishingSend(received) => CancelState::FinishingSend(payload(received)),
            CancelPhase::ReceivingAfresh => CancelState::ReceivingAfresh,
            CancelPhase::Over(verdict) => CancelState::Over(verdict),
        }
    }
}

/// The message that the checks send.
pub fn check_message() -> (bytes: Vec<u8>)
    ensures
        bytes@ == message(),
{
    let bytes: Vec<u8> = vec![0x6d, 0x65, 0x73, 0x73, 0x61, 0x67, 0x65];
    assert(bytes@ =~= message());
    bytes
}

impl RecvIsCancelSafe {
    /// Begin with receives to give up.
    pub fn start() -> (check: Self)
        ensures
            check@ == CancelState::initial(),
            check@ == CancelState::GivingUp(10),
    {
        Self { phase: CancelPhase::GivingUp(CANCELLATIONS) }
    }

    /// What the step to perform now is, by kind; the verdict once there is none.
    pub fn step(&self) -> (step: CancelStep)
        ensures
            match self@ {
                CancelState::GivingUp(_) => step is GiveUp,
                CancelState::Beginning => step is Begin,
                CancelState::Racing => step is SendAndRace,
                CancelState::LookingAgain => step is LookAgain,
                CancelState::FinishingSend(_) => step is FinishSend,
                CancelState::ReceivingAfresh => step is ReceiveAfresh,
                CancelState::Over(verdict) => step == CancelStep::Conclude(verdict),
            },
    {
        match &self.phase {
            CancelPhase::GivingUp(_) => CancelStep::GiveUp,
            CancelPhase::Beginning => CancelStep::Begin,
            CancelPhase::Racing => CancelStep::SendAndRace,
            CancelPhase::LookingAgain => CancelStep::LookAgain,
            CancelPhase::FinishingSend(_) => CancelStep::FinishSend,
            CancelPhase::ReceivingAfresh => CancelStep::ReceiveAfresh,
            CancelPhase::Over(verdict) => CancelStep::Conclude(*verdict),
        }
    }

    /// Take note of what happened to the step.
    pub fn observe(&mut self, event: CancelEvent)
        requires
            old(self)@.allows(event),
        ensures
            final(self)@ == old(self)@.after(event),
    {
        let mut phase = CancelPhase::Beginning;
        std::mem::swap(&mut phase, &mut self.phase);
        self.phase = match (phase, event) {
            (CancelPhase::GivingUp(left), CancelEvent::Pending) => if left > 1 {
                CancelPhase::GivingUp(left - 1)
            } else {
                CancelPhase::Beginning
            },
            (CancelPhase::Beginning, CancelEvent::Pending) => CancelPhase::Racing,
            (CancelPhase::Racing, CancelEvent::Sent(true)) => CancelPhase::LookingAgain,
            (CancelPhase::Racing, CancelEvent::Received(received)) => CancelPhase::FinishingSend(
                received,
            ),
            (CancelPhase::LookingAgain, CancelEvent::Pending) => CancelPhase::ReceivingAfresh,
            (CancelPhase::LookingAgain, CancelEvent::Received(received)) => CancelPhase::Over(
                judge_exchange(check_message().as_slice(), true, &received),
            ),
            (CancelPhase::FinishingSend(received), CancelEvent::Sent(sent)) => CancelPhase::Over(
                judge_exchange(check_message().as_slice(), sent, &received),
            ),
            (CancelPhase::ReceivingAfresh, CancelEvent::Received(received)) => CancelPhase::Over(
                judge_exchange(check_message().as_slice(), true, &received),
            ),
            (CancelPhase::ReceivingAfresh, _) => CancelPhase::Over(Err(Fault::TimedOut)),
            (_, CancelEvent::Sent(_)) => CancelPhase::Over(Err(Fault::NotSent)),
            _ => CancelPhase::Over(Err(Fault::Unexpected)),
        };
    }
}

/// Where the check stands after a run of events.
pub open spec fn after_events(start: CancelState, events: Seq<CancelEvent>) -> CancelState
    decreases events.len(),
{
    if events.len() == 0 {
        start
    } else {
        after_events(start.after(events[0]), events.skip(1))
    }
}

/// Each event of a run can happen when it does.
pub open spec fn events_can_happen(start: CancelState, events: Seq<CancelEvent>) -> bool
    decreases events.len(),
{
    events.len() == 0 || (start.allows(events[0]) && events_can_happen(
        start.after(events[0]),
        events.skip(1),
    ))
}

/// `event` says that the message of the check was received intact.
pub open spec fn is_arrival(event: CancelEvent) -> bool {
    event matches CancelEvent::Received(Some(received)) && received@ == message()
}

/// The message was sent and received intact once sending began: by the begun receive,
/// before or after sending was done, or by a fresh one.
pub open spec fn is_delivery(events: Seq<CancelEvent>) -> bool {
    ||| (events.len() == 2 && is_arrival(events[0]) && events[1] == CancelEvent::Sent(true))
    ||| (events.len() == 2 && events[0] == CancelEvent::Sent(true) && is_arrival(events[1]))
    ||| (events.len() == 3 && events[0] == CancelEvent::Sent(true) && events[1] is Pending
        && is_arrival(events[2]))
}

/// From the moment the message is sent, the check passes exactly if it is delivered.
proof fn race_passes_exactly_on_delivery(events: Seq<CancelEvent>)
    requires
        events_can_happen(CancelState::Racing, events),
    ensures
        after_events(CancelState::Racing, events) == CancelState::Over(Ok(()))
            <==> is_delivery(events),
{
    reveal_with_fuel(after_events, 5);
    reveal_with_fuel(events_can_happen, 5);
    if events.len() > 0 {
        let one = CancelState::Racing.after(events[0]);
        let rest = events.skip(1);
        assert(after_events(CancelState::Racing, events) == after_events(one, rest));
        if rest.len() > 0 {
            let two = one.after(rest[0]);
            assert(after_events(one, rest) == after_events(two, rest.skip(1)));
            assert(rest[0] == events[1]);
            if rest.skip(1).len() > 0 {
                let three = two.after(rest.skip(1)[0]);
                assert(rest.skip(1)[0] == events[2]);
                assert(after_events(two, rest.skip(1)) == after_events(
                    three,
                    rest.skip(1).skip(1),
                ));
                if rest.skip(1).skip(1).len() > 0 {
                    assert(!three.allows(rest.skip(1).skip(1)[0]));
                }
            }
        }
    }
}

/// The cancellation check passes exactly if every receive that was given up, and the
/// one that was begun, brought nothing before the message was sent, and the message
/// was then sent and received intact.
pub proof fn cancellation_check_passes_exactly_on_safe_delivery(
    left: nat,
    events: Seq<CancelEvent>,
)
    requires
        left > 0,
        events_can_happen(CancelState::GivingUp(left), events),
    ensures
        after_events(CancelState::GivingUp(left), events) == CancelState::Over(Ok(())) <==> {
            &&& events.len() > left
            &&& forall|i: int| 0 <= i <= left ==> events[i] is Pending
            &&& is_delivery(events.skip(left as int + 1))
        },
    decreases left,
{
    if events.len() > 0 {
        let start = CancelState::GivingUp(left);
        let rest = events.skip(1);
        let next = start.after(events[0]);
        assert(after_events(start, events) == after_events(next, rest));
        if events[0] is Pending {
            if left > 1 {
                cancellation_check_passes_exactly_on_safe_delivery((left - 1) as nat, rest);
                if events.len() > left {
                    assert(rest.skip(left as int) =~= events.skip(left as int + 1));
                    assert(forall|i: int| 0 <= i < left ==> events[i + 1] == #[trigger] rest[i]);
                    if forall|i: int| 0 <= i <= left ==> events[i] is Pending {
                        assert forall|i: int| 0 <= i <= left - 1 implies rest[i] is Pending by {
                            assert(events[i + 1] is Pending);
                        }
                    }
                    if forall|i: int| 0 <= i <= left - 1 ==> rest[i] is Pending {
                        assert forall|i: int| 0 <= i <= left implies events[i] is Pending by {
                            if i > 0 {
                                assert(rest[i - 1] is Pending);
                            }
                        }
                    }
                }
            } else if rest.len() > 0 {
                let racing = rest.skip(1);
                assert(after_events(next, rest) == after_events(next.after(rest[0]), racing));
                assert(events_can_happen(next, rest));
                assert(events_can_happen(next.after(rest[0]), racing));
                assert(rest[0] == events[1]);
                assert(racing =~= events.skip(2));
                if rest[0] is Pending {
                    race_passes_exactly_on_delivery(racing);
                    assert(forall|i: int| 0 <= i <= 1 ==> events[i] is Pending);
                } else if racing.len() > 0 {
                    assert(!next.after(rest[0]).allows(racing[0]));
                }
            }
        } else {
            assert(events_can_happen(next, rest));
            assert(next is Over);
            assert(rest.len() == 0);
            assert(after_events(next, rest) == next);
        }
    }
}

/// What the reconnection check does next.
#[derive(Debug)]
pub enum RebuildStep {
    /// Connect and accept.
    Build,
    /// Send this at the connecting end and receive it at the accepting one.
    Use(Vec<u8>),
    /// Drop the accepting end, and receive at the other for as long as noticing may take.
    Drop,
    /// The check is over.
    Conclude(Result<(), Fault>),
}

/// What happened to a step of the reconnection check.
#[derive(Debug)]
pub enum RebuildEvent {
    /// Both ends were built, or one was not.
    Built(bool),
    /// The message was sent or not, and this was received.
    Used(bool, Reception),
    /// What the receive after the drop came to: a failure or not, or nothing in time.
    Noticed(Option<bool>),
}

/// Where the reconnection check stands.
#[derive(Debug, Clone, Copy)]
pub enum RebuildState {
    /// To build for the first time.
    Connecting,
    /// To use the first connection.
    Using,
    /// To drop the peer.
    Losing,
    /// To build once more.
    Reconnecting,
    /// To use the second connection.
    Reusing,
    /// The check is over.
    Over(Result<(), Fault>),
}

impl RebuildState {
    /// `event` can happen to the step of this state.
    pub open spec fn allows(self, event: RebuildEvent) -> bool {
        match self {
            RebuildState::Connecting | RebuildState::Reconnecting => event is Built,
            RebuildState::Using | RebuildState::Reusing => event is Used,
            RebuildState::Losing => event is Noticed,
            RebuildState::Over(_) => false,
        }
    }

    /// Where the check stands after `event`.
    pub open spec fn after(self, event: RebuildEvent) -> Self {
        match (self, event) {
            (RebuildState::Connecting, RebuildEvent::Built(true)) => RebuildState::Using,
            (RebuildState::Reconnecting, RebuildEvent::Built(true)) => RebuildState::Reusing,
            (RebuildState::Using, RebuildEvent::Used(sent, received)) => match exchanged(
                message(),
                sent,
                payload(received),
            ) {
                Ok(_) => RebuildState::Losing,
                Err(fault) => RebuildState::Over(Err(fault)),
            },
            (RebuildState::Reusing, RebuildEvent::Used(sent, received)) => RebuildState::Over(
                exchanged(again(), sent, payload(received)),
            ),
            (RebuildState::Losing, RebuildEvent::Noticed(Some(true))) => RebuildState::Reconnecting,
            (RebuildState::Losing, RebuildEvent::Noticed(Some(false))) => RebuildState::Over(
                Err(Fault::NotClosed),
            ),
            (RebuildState::Losing, _) => RebuildState::Over(Err(Fault::TimedOut)),
            _ => RebuildState::Over(Err(Fault::NotBuilt)),
        }
    }
}

/// Verify connection establishment, peer loss, and reconnection.
///
/// Use only for connection-backed channels that detect peer loss.
#[derive(Debug)]
pub struct BuildUseDropRebuild {
    state: RebuildState,
}

impl View for BuildUseDropRebuild {
    type V = RebuildState;

    closed spec fn view(&self) -> RebuildState {
        self.state
    }
}

impl BuildUseDropRebuild {
    /// Begin with nothing built.
    pub fn start() -> (check: Self)
        ensures
            check@ == RebuildState::Connecting,
    {
        Self { state: RebuildState::Connecting }
    }

    /// The step to perform now; the verdict once there is none.
    pub fn step(&self) -> (step: RebuildStep)
        ensures
            match self@ {
                RebuildState::Connecting | RebuildState::Reconnecting => step is Build,
                RebuildState::Using => step matches RebuildStep::Use(bytes) && bytes@ == message(),
                RebuildState::Reusing => step matches RebuildStep::Use(bytes) && bytes@ == again(),
                RebuildState::Losing => step is Drop,
                RebuildState::Over(verdict) => step == RebuildStep::Conclude(verdict),
            },
    {
        match self.state {
            RebuildState::Connecting | RebuildState::Reconnecting => RebuildStep::Build,
            RebuildState::Using => RebuildStep::Use(check_message()),
            RebuildState::Reusing => RebuildStep::Use(second_message()),
            RebuildState::Losing => RebuildStep::Drop,
            RebuildState::Over(verdict) => RebuildStep::Conclude(verdict),
        }
    }

    /// Take note of what happened to the step.
    pub fn observe(&mut self, event: RebuildEvent)
        requires
            old(self)@.allows(event),
        ensures
            final(self)@ == old(self)@.after(event),
    {
        self.state = match (self.state, event) {
            (RebuildState::Connecting, RebuildEvent::Built(true)) => RebuildState::Using,
            (RebuildState::Reconnecting, RebuildEvent::Built(true)) => RebuildState::Reusing,
            (RebuildState::Using, RebuildEvent::Used(sent, received)) => match judge_exchange(
                check_message().as_slice(),
                sent,
                &received,
            ) {
                Ok(()) => RebuildState::Losing,
                Err(fault) => RebuildState::Over(Err(fault)),
            },
            (RebuildState::Reusing, RebuildEvent::Used(sent, received)) => RebuildState::Over(
                judge_exchange(second_message().as_slice(), sent, &received),
            ),
            (RebuildState::Losing, RebuildEvent::Noticed(Some(true))) => RebuildState::Reconnecting,
            (RebuildState::Losing, RebuildEvent::Noticed(Some(false))) => RebuildState::Over(
                Err(Fault::NotClosed),
            ),
            (RebuildState::Losing, _) => RebuildState::Over(Err(Fault::TimedOut)),
            _ => RebuildState::Over(Err(Fault::NotBuilt)),
        };
    }
}

/// The message that the reconnection check sends over the second connection.
fn second_message() -> (bytes: Vec<u8>)
    ensures
        bytes@ == again(),
{
    let bytes: Vec<u8> = vec![0x61, 0x67, 0x61, 0x69, 0x6e];
    assert(bytes@ =~= again());
    bytes
}

/// Where the reconnection check stands after a run of events.
pub open spec fn rebuilt(start: RebuildState, events: Seq<RebuildEvent>) -> RebuildState
    decreases events.len(),
{
    if events.len() == 0 {
        start
    } else {
        rebuilt(start, events.drop_last()).after(events.last())
    }
}

/// Each event of a run of the reconnection check can happen when it does.
pub open spec fn rebuild_can_happen(start: RebuildState, events: Seq<RebuildEvent>) -> bool
    decreases events.len(),
{
    events.len() == 0 || (rebuild_can_happen(start, events.drop_last()) && rebuilt(
        start,
        events.drop_last(),
    ).allows(events.last()))
}

/// `event` says that `bytes` were sent and received intact.
pub open spec fn is_use(event: RebuildEvent, bytes: Seq<u8>) -> bool {
    event matches RebuildEvent::Used(sent, received) && exchanged(bytes, sent, payload(received))
        is Ok
}

/// The reconnection check passes exactly if a connection is built, carries its message,
/// reports the loss of the peer, and a second connection is built and carries its own.
pub proof fn reconnection_check_passes_exactly_on_reconnection(events: Seq<RebuildEvent>)
    requires
        rebuild_can_happen(RebuildState::Connecting, events),
    ensures
        (rebuilt(RebuildState::Connecting, events) matches RebuildState::Over(verdict)
            && verdict is Ok) <==> {
            &&& events.len() == 5
            &&& events[0] == RebuildEvent::Built(true)
            &&& is_use(events[1], message())
            &&& events[2] == RebuildEvent::Noticed(Some(true))
            &&& events[3] == RebuildEvent::Built(true)
            &&& is_use(events[4], again())
        },
{
    reconnection_progress(events);
    if events.len() == 5 {
        let four = events.take(4);
        assert(events.drop_last() =~= four);
        reconnection_progress(four);
    }
}

/// How far each run of the reconnection check has come.
proof fn reconnection_progress(events: Seq<RebuildEvent>)
    requires
        rebuild_can_happen(RebuildState::Connecting, events),
    ensures
        match rebuilt(RebuildState::Connecting, events) {
            RebuildState::Connecting => events.len() == 0,
            RebuildState::Using => events.len() == 1 && events[0] == RebuildEvent::Built(true),
            RebuildState::Losing => events.len() == 2 && events[0] == RebuildEvent::Built(true)
                && is_use(events[1], message()),
            RebuildState::Reconnecting => events.len() == 3 && events[0] == RebuildEvent::Built(
                true,
            ) && is_use(events[1], message()) && events[2] == RebuildEvent::Noticed(Some(true)),
            RebuildState::Reusing => events.len() == 4 && events[0] == RebuildEvent::Built(true)
                && is_use(events[1], message()) && events[2] == RebuildEvent::Noticed(Some(true))
                && events[3] == RebuildEvent::Built(true),
            RebuildState::Over(verdict) => events.len() > 0 && (verdict is Ok ==> events.len() == 5
                && events[0] == RebuildEvent::Built(true) && is_use(events[1], message())
                && events[2] == RebuildEvent::Noticed(Some(true)) && events[3]
                == RebuildEvent::Built(true) && is_use(events[4], again())) && (verdict is Err
                ==> match rebuilt(RebuildState::Connecting, events.drop_last()) {
                RebuildState::Connecting | RebuildState::Reconnecting => events.last()
                    == RebuildEvent::Built(false),
                RebuildState::Using => !is_use(events.last(), message()),
                RebuildState::Reusing => !is_use(events.last(), again()),
                RebuildState::Losing => events.last() != RebuildEvent::Noticed(Some(true)),
                RebuildState::Over(_) => false,
            }),
        },
    decreases events.len(),
{
    if events.len() > 0 {
        reconnection_progress(events.drop_last());
    }
}

/// An exchange passes exactly if the message was sent and the very same bytes arrived. What
/// fails it is told in this order: that it was not sent, that nothing was received, and that
/// something else was.
pub proof fn an_exchange_passes_exactly_on_intact_delivery(
    bytes: Seq<u8>,
    sent: bool,
    received: Option<Seq<u8>>,
)
    ensures
        exchanged(bytes, sent, received) is Ok <==> sent && (received matches Some(arrived)
            && arrived == bytes),
        exchanged(bytes, sent, received) matches Err(fault) ==> {
            &&& fault == Fault::NotSent <==> !sent
            &&& fault == Fault::NotReceived <==> sent && received is None
            &&& fault == Fault::WrongMessage <==> sent && (received matches Some(arrived) && arrived
                != bytes)
        },
{
}

/// What was received is shown byte for byte.
pub proof fn a_reception_is_shown_whole(received: Reception)
    ensures
        payload(received) is None <==> received is None,
        received matches Some(bytes) ==> payload(received) == Some(bytes@),
{
}

/// The cancellation check begins with ten receives to give up, counts each that brought
/// nothing, and then begins the one that stays.
pub proof fn ten_receives_are_given_up(left: nat)
    requires
        left > 0,
    ensures
        CancelState::initial() == CancelState::GivingUp(10),
        left > 1 ==> CancelState::GivingUp(left).after(CancelEvent::Pending)
            == CancelState::GivingUp((left - 1) as nat),
        left == 1 ==> CancelState::GivingUp(left).after(CancelEvent::Pending)
            == CancelState::Beginning,
        CancelState::Beginning.after(CancelEvent::Pending) == CancelState::Racing,
{
}

/// Anything received before the message is sent fails the cancellation check as unexpected.
pub proof fn nothing_may_arrive_before_it_is_sent(left: nat, received: Reception)
    ensures
        CancelState::GivingUp(left).after(CancelEvent::Received(received)) == CancelState::Over(
            Err(Fault::Unexpected),
        ),
        CancelState::Beginning.after(CancelEvent::Received(received)) == CancelState::Over(
            Err(Fault::Unexpected),
        ),
{
}

/// Once the message is being sent, the cancellation check follows it: a send that fails ends
/// it, a send that is done first lets the begun receive be looked at again and then given up
/// for a fresh one, and a receive that is done first waits for the send.
pub proof fn the_message_is_followed_until_it_arrives(received: Reception)
    ensures
        CancelState::Racing.after(CancelEvent::Sent(false)) == CancelState::Over(
            Err(Fault::NotSent),
        ),
        CancelState::Racing.after(CancelEvent::Sent(true)) == CancelState::LookingAgain,
        CancelState::Racing.after(CancelEvent::Received(received)) == CancelState::FinishingSend(
            payload(received),
        ),
        CancelState::LookingAgain.after(CancelEvent::Pending) == CancelState::ReceivingAfresh,
        CancelState::ReceivingAfresh.after(CancelEvent::Pending) == CancelState::Over(
            Err(Fault::TimedOut),
        ),
{
}

/// The cancellation check passes once the very message has been received and sent, and fails
/// with what is wrong otherwise.
pub proof fn the_check_ends_with_the_message(received: Reception, arrived: Option<Seq<u8>>)
    ensures
        CancelState::LookingAgain.after(CancelEvent::Received(received)) matches CancelState::Over(
            verdict,
        ) && (verdict is Ok <==> payload(received) == Some(message())) && (verdict matches Err(
            fault,
        ) ==> fault == if received is None {
            Fault::NotReceived
        } else {
            Fault::WrongMessage
        }),
        CancelState::ReceivingAfresh.after(CancelEvent::Received(received))
            == CancelState::LookingAgain.after(CancelEvent::Received(received)),
        CancelState::FinishingSend(arrived).after(CancelEvent::Sent(false)) == CancelState::Over(
            Err(Fault::NotSent),
        ),
        CancelState::FinishingSend(arrived).after(CancelEvent::Sent(true)) matches CancelState::Over(
            verdict,
        ) && (verdict is Ok <==> arrived == Some(message())) && (verdict matches Err(fault)
            ==> fault == if arrived is None {
            Fault::NotReceived
        } else {
            Fault::WrongMessage
        }),
{
}

/// Which events the steps of the cancellation check can bring: a receive brings a message, a
/// failure or nothing yet, a race one of its two ends, a send its end, and a check that is
/// over nothing.
pub proof fn each_step_of_the_cancellation_check_has_its_events(
    left: nat,
    arrived: Option<Seq<u8>>,
    verdict: Result<(), Fault>,
    event: CancelEvent,
)
    requires
        left > 0,
    ensures
        CancelState::GivingUp(left).allows(event) <==> !(event is Sent),
        CancelState::Beginning.allows(event) <==> !(event is Sent),
        CancelState::Racing.allows(event) <==> !(event is Pending),
        CancelState::LookingAgain.allows(event) <==> !(event is Sent),
        CancelState::FinishingSend(arrived).allows(event) <==> event is Sent,
        CancelState::ReceivingAfresh.allows(event) <==> !(event is Sent),
        !CancelState::Over(verdict).allows(event),
{
}

/// The reconnection check goes on while all is well: from building to using, from using to
/// losing the peer, and from there to building and using once more.
pub proof fn the_reconnection_check_goes_on_while_all_is_well(sent: bool, received: Reception)
    ensures
        RebuildState::Connecting.after(RebuildEvent::Built(true)) == RebuildState::Using,
        RebuildState::Reconnecting.after(RebuildEvent::Built(true)) == RebuildState::Reusing,
        RebuildState::Losing.after(RebuildEvent::Noticed(Some(true))) == RebuildState::Reconnecting,
        sent && payload(received) == Some(message()) ==> RebuildState::Using.after(
            RebuildEvent::Used(sent, received),
        ) == RebuildState::Losing,
        sent && payload(received) == Some(again()) ==> RebuildState::Reusing.after(
            RebuildEvent::Used(sent, received),
        ) == RebuildState::Over(Ok(())),
{
}

/// The reconnection check fails with what is wrong: an end that is not built, a message that is
/// not sent, not received or another one, and a loss that is not reported or not in time.
pub proof fn the_reconnection_check_fails_with_what_is_wrong(sent: bool, received: Reception)
    ensures
        RebuildState::Connecting.after(RebuildEvent::Built(false)) == RebuildState::Over(
            Err(Fault::NotBuilt),
        ),
        RebuildState::Reconnecting.after(RebuildEvent::Built(false)) == RebuildState::Over(
            Err(Fault::NotBuilt),
        ),
        RebuildState::Losing.after(RebuildEvent::Noticed(Some(false))) == RebuildState::Over(
            Err(Fault::NotClosed),
        ),
        RebuildState::Losing.after(RebuildEvent::Noticed(None)) == RebuildState::Over(
            Err(Fault::TimedOut),
        ),
        ({
            let fault = if !sent {
                Fault::NotSent
            } else if received is None {
                Fault::NotReceived
            } else {
                Fault::WrongMessage
            };
            &&& !sent || payload(received) != Some(message()) ==> RebuildState::Using.after(
                RebuildEvent::Used(sent, received),
            ) == RebuildState::Over(Err(fault))
            &&& !sent || payload(received) != Some(again()) ==> RebuildState::Reusing.after(
                RebuildEvent::Used(sent, received),
            ) == RebuildState::Over(Err(fault))
        }),
{
}

/// The messages of the checks are the words they are named for.
pub proof fn the_checks_send_their_words()
    ensures
        first() == seq!['f' as u8, 'i' as u8, 'r' as u8, 's' as u8, 't' as u8],
        second() == seq!['s' as u8, 'e' as u8, 'c' as u8, 'o' as u8, 'n' as u8, 'd' as u8],
        reply() == seq!['r' as u8, 'e' as u8, 'p' as u8, 'l' as u8, 'y' as u8],
        message() == seq![
            'm' as u8,
            'e' as u8,
            's' as u8,
            's' as u8,
            'a' as u8,
            'g' as u8,
            'e' as u8,
        ],
        again() == seq!['a' as u8, 'g' as u8, 'a' as u8, 'i' as u8, 'n' as u8],
{
}

/// The checks go event by event, and each event has to be one that can happen when it does.
pub proof fn the_checks_go_event_by_event(
    state: CancelState,
    event: CancelEvent,
    events: Seq<CancelEvent>,
    rebuild: RebuildState,
    earlier: Seq<RebuildEvent>,
    last: RebuildEvent,
)
    ensures
        after_events(state, Seq::empty()) == state,
        after_events(state, seq![event] + events) == after_events(state.after(event), events),
        events_can_happen(state, Seq::empty()),
        events_can_happen(state, seq![event] + events) <==> state.allows(event)
            && events_can_happen(state.after(event), events),
        rebuilt(rebuild, Seq::empty()) == rebuild,
        rebuilt(rebuild, earlier.push(last)) == rebuilt(rebuild, earlier).after(last),
        rebuild_can_happen(rebuild, Seq::empty()),
        rebuild_can_happen(rebuild, earlier.push(last)) <==> rebuild_can_happen(rebuild, earlier)
            && rebuilt(rebuild, earlier).allows(last),
{
    assert((seq![event] + events).skip(1) =~= events);
    assert(earlier.push(last).drop_last() =~= earlier);
}

/// Which events the steps of the reconnection check can bring: building brings whether it was
/// built, using what came of it, losing the peer what was noticed, and a check that is over
/// nothing.
pub proof fn each_step_of_the_reconnection_check_has_its_events(
    verdict: Result<(), Fault>,
    event: RebuildEvent,
)
    ensures
        RebuildState::Connecting.allows(event) <==> event is Built,
        RebuildState::Reconnecting.allows(event) <==> event is Built,
        RebuildState::Using.allows(event) <==> event is Used,
        RebuildState::Reusing.allows(event) <==> event is Used,
        RebuildState::Losing.allows(event) <==> event is Noticed,
        !RebuildState::Over(verdict).allows(event),
{
}

} // verus!
