//! The check that two bursts sent at the same time both get through.

use crate::testkit::bursts::{self, burst_message, Tally};
use crate::testkit::conformance::{self, Fault, Reception, Side};
use vstd::prelude::*;

verus! {

/// The tag that marks the messages of a side.
pub open spec fn tag_of(side: Side) -> u8 {
    match side {
        Side::Left => 0x6c,
        Side::Right => 0x72,
    }
}

/// The other side.
pub open spec fn opposite(side: Side) -> Side {
    match side {
        Side::Left => Side::Right,
        Side::Right => Side::Left,
    }
}

/// The tag that marks the messages of a side.
fn tag(side: Side) -> (tag: u8)
    ensures
        tag == tag_of(side),
{
    match side {
        Side::Left => 0x6c,
        Side::Right => 0x72,
    }
}

/// What happened during the exchange.
#[derive(Debug)]
pub enum BurstEvent {
    /// The side's send is done, successfully or not.
    Sent(Side, bool),
    /// The side's receive is done.
    Received(Side, Reception),
    /// The time for the exchange is up.
    TimedOut,
}

/// How far a side is.
pub struct Progress {
    /// How many messages it has sent.
    pub sent: nat,
    /// How many messages it has received.
    pub arrived: nat,
    /// What it still expects.
    pub expected: Set<Seq<u8>>,
}

/// Where the exchange stands.
pub struct BurstState {
    /// How many messages either side sends.
    pub burst: nat,
    /// How far the left side is.
    pub left: Progress,
    /// How far the right side is.
    pub right: Progress,
    /// What was found wrong first.
    pub fault: Option<Fault>,
}

impl BurstState {
    /// Nothing is sent, and either side expects the burst of the other.
    pub open spec fn initial(burst: nat) -> Self {
        BurstState {
            burst,
            left: Progress {
                sent: 0,
                arrived: 0,
                expected: bursts::burst(tag_of(Side::Right), burst),
            },
            right: Progress {
                sent: 0,
                arrived: 0,
                expected: bursts::burst(tag_of(Side::Left), burst),
            },
            fault: None,
        }
    }

    /// How far a side is.
    pub open spec fn progress(self, side: Side) -> Progress {
        match side {
            Side::Left => self.left,
            Side::Right => self.right,
        }
    }

    /// With a side as far as `progress`.
    pub open spec fn advanced(self, side: Side, progress: Progress) -> Self {
        match side {
            Side::Left => BurstState { left: progress, ..self },
            Side::Right => BurstState { right: progress, ..self },
        }
    }

    /// With a fault found.
    pub open spec fn failed(self, fault: Fault) -> Self {
        BurstState { fault: Some(fault), ..self }
    }

    /// A side has sent and received a whole burst.
    pub open spec fn is_done(self, side: Side) -> bool {
        &&& self.progress(side).sent == self.burst
        &&& self.progress(side).arrived == self.burst
    }

    /// What the exchange comes to, once it is over: the first fault, or success when both
    /// sides are done.
    pub open spec fn verdict(self) -> Option<Result<(), Fault>> {
        match self.fault {
            Some(fault) => Some(Err(fault)),
            None => if self.is_done(Side::Left) && self.is_done(Side::Right) {
                Some(Ok(()))
            } else {
                None
            },
        }
    }

    /// What a side sends next.
    pub open spec fn next_message(self, side: Side) -> Option<Seq<u8>> {
        if self.fault is None && self.progress(side).sent < self.burst {
            Some(bursts::burst_bytes(tag_of(side), self.progress(side).sent))
        } else {
            None
        }
    }

    /// A side receives next.
    pub open spec fn receives_next(self, side: Side) -> bool {
        self.fault is None && self.progress(side).arrived < self.burst
    }

    /// `event` can happen: a side sends and receives no more than a burst.
    pub open spec fn allows(self, event: BurstEvent) -> bool {
        match event {
            BurstEvent::Sent(side, _) => self.progress(side).sent < self.burst,
            BurstEvent::Received(side, _) => self.progress(side).arrived < self.burst,
            BurstEvent::TimedOut => true,
        }
    }

    /// Where the exchange stands after `event`. What happens after it is over changes nothing.
    pub open spec fn after(self, event: BurstEvent) -> Self {
        if self.verdict() is Some {
            self
        } else {
            match event {
                BurstEvent::Sent(side, true) => {
                    let progress = self.progress(side);
                    self.advanced(side, Progress { sent: progress.sent + 1, ..progress })
                },
                BurstEvent::Sent(_, false) => self.failed(Fault::NotSent),
                BurstEvent::Received(side, received) => match conformance::payload(received) {
                    None => self.failed(Fault::NotReceived),
                    Some(message) => {
                        let progress = self.progress(side);
                        if progress.expected.contains(message) {
                            self.advanced(
                                side,
                                Progress {
                                    arrived: progress.arrived + 1,
                                    expected: progress.expected.remove(message),
                                    ..progress
                                },
                            )
                        } else {
                            self.failed(Fault::WrongMessage)
                        }
                    },
                },
                BurstEvent::TimedOut => self.failed(Fault::TimedOut),
            }
        }
    }
}

/// How far a side is, with what it still expects.
#[derive(Debug)]
struct Advance {
    sent: usize,
    arrived: usize,
    tally: Tally,
}

impl View for Advance {
    type V = Progress;

    closed spec fn view(&self) -> Progress {
        Progress { sent: self.sent as nat, arrived: self.arrived as nat, expected: self.tally@ }
    }
}

/// Verify lossless, duplicate-free exchange under backpressure in any order.
///
/// Requires independent directions. Either side sends its burst while it receives that of
/// the other.
#[derive(Debug)]
pub struct MutualBurstsConverge {
    burst: usize,
    left: Advance,
    right: Advance,
    fault: Option<Fault>,
}

impl View for MutualBurstsConverge {
    type V = BurstState;

    closed spec fn view(&self) -> BurstState {
        BurstState {
            burst: self.burst as nat,
            left: self.left@,
            right: self.right@,
            fault: self.fault,
        }
    }
}

impl MutualBurstsConverge {
    /// Begin an exchange of bursts of the given length.
    pub fn start(burst: usize) -> (check: Self)
        ensures
            check@ == BurstState::initial(burst as nat),
    {
        let left = Advance {
            sent: 0,
            arrived: 0,
            tally: Tally::of_burst(tag(Side::Right), burst),
        };
        let right = Advance {
            sent: 0,
            arrived: 0,
            tally: Tally::of_burst(tag(Side::Left), burst),
        };
        Self { burst, left, right, fault: None }
    }

    /// How far a side is.
    fn advance(&self, side: Side) -> (advance: &Advance)
        ensures
            advance@ == self@.progress(side),
    {
        match side {
            Side::Left => &self.left,
            Side::Right => &self.right,
        }
    }

    /// The message that a side sends next, if it has one left and no fault was found.
    pub fn next_message(&self, side: Side) -> (message: Option<Vec<u8>>)
        ensures
            conformance::payload(message) == self@.next_message(side),
    {
        let sent: usize = self.advance(side).sent;
        if self.fault.is_none() && sent < self.burst {
            Some(burst_message(tag(side), sent))
        } else {
            None
        }
    }

    /// Whether a side receives next: it has not received a whole burst, and no fault was
    /// found.
    pub fn receives_next(&self, side: Side) -> (receives: bool)
        ensures
            receives == self@.receives_next(side),
    {
        self.fault.is_none() && self.advance(side).arrived < self.burst
    }

    /// What the exchange comes to, once it is over.
    pub fn verdict(&self) -> (verdict: Option<Result<(), Fault>>)
        ensures
            verdict == self@.verdict(),
    {
        match self.fault {
            Some(fault) => Some(Err(fault)),
            None => if self.left.sent == self.burst && self.left.arrived == self.burst
                && self.right.sent == self.burst && self.right.arrived == self.burst {
                Some(Ok(()))
            } else {
                None
            },
        }
    }

    /// Take note of what happened.
    pub fn observe(&mut self, event: BurstEvent)
        requires
            old(self)@.allows(event),
        ensures
            final(self)@ == old(self)@.after(event),
    {
        if self.verdict().is_some() {
            return;
        }
        match event {
            BurstEvent::Sent(Side::Left, true) => {
                self.left.sent = self.left.sent + 1;
            },
            BurstEvent::Sent(Side::Right, true) => {
                self.right.sent = self.right.sent + 1;
            },
            BurstEvent::Sent(_, false) => {
                self.fault = Some(Fault::NotSent);
            },
            BurstEvent::Received(_, None) => {
                self.fault = Some(Fault::NotReceived);
            },
            BurstEvent::Received(Side::Left, Some(message)) => {
                if self.left.tally.arrive(message.as_slice()) {
                    self.left.arrived = self.left.arrived + 1;
                } else {
                    self.fault = Some(Fault::WrongMessage);
                }
            },
            BurstEvent::Received(Side::Right, Some(message)) => {
                if self.right.tally.arrive(message.as_slice()) {
                    self.right.arrived = self.right.arrived + 1;
                } else {
                    self.fault = Some(Fault::WrongMessage);
                }
            },
            BurstEvent::TimedOut => {
                self.fault = Some(Fault::TimedOut);
            },
        }
        proof {
            let (before, after) = (old(self)@, self@);
            if event is Received && after.fault is Some {
                assert(after.left.expected =~= before.left.expected);
                assert(after.right.expected =~= before.right.expected);
            }
        }
    }
}

/// Where an exchange of bursts stands after a run of events.
pub open spec fn run(burst: nat, events: Seq<BurstEvent>) -> BurstState
    decreases events.len(),
{
    if events.len() == 0 {
        BurstState::initial(burst)
    } else {
        run(burst, events.drop_last()).after(events.last())
    }
}

/// Each event could happen when it did.
pub open spec fn is_run(burst: nat, events: Seq<BurstEvent>) -> bool
    decreases events.len(),
{
    events.len() == 0 || (is_run(burst, events.drop_last()) && run(
        burst,
        events.drop_last(),
    ).allows(events.last()))
}

/// How many sends of a side succeeded.
pub open spec fn sent_by(side: Side, events: Seq<BurstEvent>) -> nat
    decreases events.len(),
{
    if events.len() == 0 {
        0
    } else if events.last() == BurstEvent::Sent(side, true) {
        sent_by(side, events.drop_last()) + 1
    } else {
        sent_by(side, events.drop_last())
    }
}

/// The messages that a side received, in order.
pub open spec fn received_at(side: Side, events: Seq<BurstEvent>) -> Seq<Seq<u8>>
    decreases events.len(),
{
    if events.len() == 0 {
        seq![]
    } else {
        let earlier = received_at(side, events.drop_last());
        match events.last() {
            BurstEvent::Received(at, Some(message)) if at == side => earlier.push(message@),
            _ => earlier,
        }
    }
}

/// While no fault is found, either side has counted its sends and its receives, and still
/// expects what has not arrived of the other's burst.
pub proof fn progress_is_what_happened(burst: nat, events: Seq<BurstEvent>, side: Side)
    requires
        is_run(burst, events),
        run(burst, events).fault is None,
    ensures
        run(burst, events).burst == burst,
        ({
            let progress = run(burst, events).progress(side);
            let whole = bursts::burst(tag_of(opposite(side)), burst);
            &&& progress.sent == sent_by(side, events)
            &&& progress.arrived == received_at(side, events).len()
            &&& progress.expected == bursts::remaining(whole, received_at(side, events))
            &&& bursts::all_expected(whole, received_at(side, events))
        }),
    decreases events.len(),
{
    if events.len() > 0 {
        let earlier = events.drop_last();
        progress_is_what_happened(burst, earlier, side);
        progress_is_what_happened(burst, earlier, Side::Left);
        progress_is_what_happened(burst, earlier, Side::Right);
        match events.last() {
            BurstEvent::Received(at, Some(message)) if at == side => {
                assert(received_at(side, events).drop_last() =~= received_at(side, earlier));
            },
            _ => {},
        }
    }
}

/// An exchange that succeeds is lossless and free of duplicates, in whatever order the
/// messages come: either side has sent its whole burst, and has received every message of
/// the other's burst, each once and nothing else.
pub proof fn a_success_is_lossless(burst: usize, events: Seq<BurstEvent>, side: Side)
    requires
        is_run(burst as nat, events),
        run(burst as nat, events).verdict() == Some(Ok::<(), Fault>(())),
    ensures
        sent_by(side, events) == burst,
        received_at(side, events).len() == burst,
        received_at(side, events).no_duplicates(),
        forall|i: nat|
            i < burst ==> received_at(side, events).contains(
                #[trigger] bursts::burst_bytes(tag_of(opposite(side)), i),
            ),
{
    progress_is_what_happened(burst as nat, events, side);
    bursts::a_full_tally_is_lossless(tag_of(opposite(side)), burst, received_at(side, events));
}

/// An exchange in which every send succeeds and every message is expected when it comes
/// succeeds once either side has sent and received a whole burst, and not before.
pub proof fn an_exchange_without_fault_succeeds_once_done(burst: nat, events: Seq<BurstEvent>)
    requires
        is_run(burst, events),
        run(burst, events).fault is None,
    ensures
        run(burst, events).verdict() == Some(Ok::<(), Fault>(())) <==> forall|side: Side|
            #![trigger sent_by(side, events)]
            sent_by(side, events) == burst && received_at(side, events).len() == burst,
        run(burst, events).verdict() is None ==> exists|side: Side|
            (#[trigger] run(burst, events).next_message(side)) is Some || run(
                burst,
                events,
            ).receives_next(side),
{
    let state = run(burst, events);
    progress_is_what_happened(burst, events, Side::Left);
    progress_is_what_happened(burst, events, Side::Right);
    progress_is_bounded(burst, events);
    assert forall|side: Side| state.verdict() == Some(Ok::<(), Fault>(())) implies sent_by(
        side,
        events,
    ) == burst && received_at(side, events).len() == burst by {
        progress_is_what_happened(burst, events, side);
    }
    if state.verdict() is None {
        let side = if state.is_done(Side::Left) {
            Side::Right
        } else {
            Side::Left
        };
        assert(!state.is_done(side));
        assert(state.next_message(side) is Some || state.receives_next(side));
        assert(sent_by(side, events) != burst || received_at(side, events).len() != burst);
    }
}

/// No side sends or receives more than a burst.
proof fn progress_is_bounded(burst: nat, events: Seq<BurstEvent>)
    requires
        is_run(burst, events),
    ensures
        run(burst, events).burst == burst,
        run(burst, events).left.sent <= burst,
        run(burst, events).left.arrived <= burst,
        run(burst, events).right.sent <= burst,
        run(burst, events).right.arrived <= burst,
    decreases events.len(),
{
    if events.len() > 0 {
        progress_is_bounded(burst, events.drop_last());
    }
}

/// The first fault stands: whatever happens afterwards, the exchange has failed with it.
pub proof fn the_first_fault_stands(state: BurstState, fault: Fault, event: BurstEvent)
    requires
        state.fault == Some(fault),
    ensures
        state.after(event).verdict() == Some(Err::<(), Fault>(fault)),
        state.next_message(Side::Left) is None,
        state.next_message(Side::Right) is None,
        !state.receives_next(Side::Left),
        !state.receives_next(Side::Right),
{
}

/// The sides are told apart by their tags, `l` and `r`, and are opposite to each other.
pub proof fn the_sides_are_told_apart()
    ensures
        tag_of(Side::Left) == 'l' as u8,
        tag_of(Side::Right) == 'r' as u8,
        opposite(Side::Left) == Side::Right,
        opposite(Side::Right) == Side::Left,
{
}

/// An exchange begins with nothing sent or received and no fault, and with each side expecting
/// the whole burst of the other.
pub proof fn an_exchange_begins_with_everything_expected(burst: nat, side: Side)
    ensures
        BurstState::initial(burst).burst == burst,
        BurstState::initial(burst).fault is None,
        BurstState::initial(burst).progress(side).sent == 0,
        BurstState::initial(burst).progress(side).arrived == 0,
        side == Side::Left ==> BurstState::initial(burst).progress(side).expected == bursts::burst(
            'r' as u8,
            burst,
        ),
        side == Side::Right ==> BurstState::initial(burst).progress(side).expected
            == bursts::burst('l' as u8, burst),
        BurstState::initial(burst).progress(Side::Left) == BurstState::initial(burst).left,
        BurstState::initial(burst).progress(Side::Right) == BurstState::initial(burst).right,
{
}

/// An exchange is over at its first fault, or once either side has sent and received as many
/// messages as a burst has; until then either side sends its next message and receives.
pub proof fn an_exchange_goes_on_until_both_sides_are_done(state: BurstState, side: Side)
    ensures
        state.progress(Side::Left) == state.left,
        state.progress(Side::Right) == state.right,
        state.fault matches Some(fault) ==> (state.verdict() matches Some(Err(same)) && same
            == fault),
        state.fault is None ==> (state.verdict() is Some <==> state.left.sent == state.burst
            && state.left.arrived == state.burst && state.right.sent == state.burst
            && state.right.arrived == state.burst),
        state.fault is None ==> (state.verdict() matches Some(verdict) ==> verdict is Ok),
        state.next_message(side) is Some <==> state.fault is None && state.progress(side).sent
            < state.burst,
        state.next_message(side) matches Some(message) ==> message == bursts::burst_bytes(
            if side == Side::Left {
                'l' as u8
            } else {
                'r' as u8
            },
            state.progress(side).sent,
        ),
        state.receives_next(side) <==> state.fault is None && state.progress(side).arrived
            < state.burst,
{
}

/// What each event of an exchange does while it is not over: a send counts for its side, a
/// message that its side still expects counts and is expected no more, and everything else is
/// the fault it is. The other side is not touched, and a fault touches neither.
pub proof fn each_event_counts_for_its_side(state: BurstState, event: BurstEvent)
    requires
        state.verdict() is None,
    ensures
        ({
            let after = state.after(event);
            &&& after.burst == state.burst
            &&& event matches BurstEvent::Sent(side, true) ==> {
                &&& after.fault is None
                &&& after.progress(side).sent == state.progress(side).sent + 1
                &&& after.progress(side).arrived == state.progress(side).arrived
                &&& after.progress(side).expected == state.progress(side).expected
                &&& after.progress(opposite(side)) == state.progress(opposite(side))
            }
            &&& event matches BurstEvent::Sent(_, false) ==> after.fault == Some(Fault::NotSent)
                && after.left == state.left && after.right == state.right
            &&& event matches BurstEvent::Received(_, None) ==> after.fault == Some(
                Fault::NotReceived,
            ) && after.left == state.left && after.right == state.right
            &&& event matches BurstEvent::Received(side, Some(message)) ==> {
                if state.progress(side).expected.contains(message@) {
                    &&& after.fault is None
                    &&& after.progress(side).sent == state.progress(side).sent
                    &&& after.progress(side).arrived == state.progress(side).arrived + 1
                    &&& after.progress(side).expected == state.progress(side).expected.remove(
                        message@,
                    )
                    &&& after.progress(opposite(side)) == state.progress(opposite(side))
                } else {
                    after.fault == Some(Fault::WrongMessage) && after.left == state.left
                        && after.right == state.right
                }
            }
            &&& event is TimedOut ==> after.fault == Some(Fault::TimedOut) && after.left
                == state.left && after.right == state.right
        }),
{
}

/// Once an exchange is over, nothing changes it; and no side sends or receives more than a
/// burst.
pub proof fn an_exchange_that_is_over_stays_as_it_is(
    state: BurstState,
    event: BurstEvent,
    side: Side,
    sent: bool,
    received: Reception,
)
    ensures
        state.verdict() is Some ==> state.after(event) == state,
        state.allows(BurstEvent::Sent(side, sent)) <==> state.progress(side).sent < state.burst,
        state.allows(BurstEvent::Received(side, received)) <==> state.progress(side).arrived
            < state.burst,
        state.allows(BurstEvent::TimedOut),
{
}

/// A run of an exchange is its events, one after the other, and so are the counts of what was
/// sent and received.
pub proof fn an_exchange_runs_event_by_event(
    burst: nat,
    events: Seq<BurstEvent>,
    event: BurstEvent,
    side: Side,
)
    ensures
        run(burst, Seq::empty()) == BurstState::initial(burst),
        run(burst, events.push(event)) == run(burst, events).after(event),
        is_run(burst, Seq::empty()),
        is_run(burst, events.push(event)) <==> is_run(burst, events) && run(burst, events).allows(
            event,
        ),
        sent_by(side, Seq::empty()) == 0,
        sent_by(side, events.push(event)) - sent_by(side, events) == if event == BurstEvent::Sent(
            side,
            true,
        ) {
            1int
        } else {
            0int
        },
        received_at(side, Seq::empty()) == Seq::<Seq<u8>>::empty(),
        event matches BurstEvent::Received(at, Some(message)) ==> (at == side ==> received_at(
            side,
            events.push(event),
        ) == received_at(side, events).push(message@)),
        !(event matches BurstEvent::Received(at, Some(_)) && at == side) ==> received_at(
            side,
            events.push(event),
        ) == received_at(side, events),
{
    assert(events.push(event).drop_last() =~= events);
}

} // verus!
