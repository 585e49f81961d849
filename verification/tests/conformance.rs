use fungi::testkit::bursts::{burst_message, Tally};
use fungi::testkit::conformance::{
    check_message, closed_after_peer_drop, judge_exchange, judge_rejection,
    roundtrip_both_directions, too_large, too_large_is_recoverable, BuildUseDropRebuild,
    CancelEvent, CancelStep, Fault, RebuildEvent, RebuildStep, RecvIsCancelSafe, Side,
    CANCELLATIONS,
};
use fungi::testkit::convergence::{BurstEvent, MutualBurstsConverge};
use fungi::testkit::mem::{duplex, MemConfig, MemError};
use fungi::transport::traits::{RecvChannel, SendChannel, Step};

#[test]
fn in_memory_links_deliver_in_both_directions() {
    let (mut left, mut right) = duplex::<Vec<u8>>(MemConfig::default());
    let exchanges = roundtrip_both_directions();
    let messages: Vec<&[u8]> = exchanges.iter().map(|e| e.message.as_slice()).collect();
    assert_eq!(messages, [b"first".as_slice(), b"second", b"reply"]);
    for exchange in exchanges {
        let (sender, receiver) = match exchange.from {
            Side::Left => (&mut left, &mut right),
            Side::Right => (&mut right, &mut left),
        };
        let sent = sender.send(exchange.message.clone()) == Step::Done(Ok(()));
        let received = receiver.recv().done().and_then(Result::ok);
        assert_eq!(judge_exchange(&exchange.message, sent, &received), Ok(()));
    }
}

#[test]
fn an_exchange_is_judged_by_what_arrives() {
    assert_eq!(judge_exchange(b"a", true, &Some(b"a".to_vec())), Ok(()));
    assert_eq!(
        judge_exchange(b"a", false, &Some(b"a".to_vec())),
        Err(Fault::NotSent)
    );
    assert_eq!(judge_exchange(b"a", true, &None), Err(Fault::NotReceived));
    assert_eq!(
        judge_exchange(b"a", true, &Some(b"b".to_vec())),
        Err(Fault::WrongMessage)
    );
    assert_eq!(
        judge_exchange(b"a", true, &Some(b"ab".to_vec())),
        Err(Fault::WrongMessage)
    );
}

#[test]
fn closure_has_to_be_recognized() {
    let (left, mut right) = duplex::<Vec<u8>>(MemConfig::default());
    drop(left);
    let is_closed = |error: &MemError| matches!(error, MemError::Closed);
    assert_eq!(closed_after_peer_drop(right.recv().done().unwrap(), is_closed), Ok(()));
    assert_eq!(
        closed_after_peer_drop(right.recv().done().unwrap(), |_| false),
        Err(Fault::NotClosed)
    );
    assert_eq!(
        closed_after_peer_drop(Ok::<u8, MemError>(1), is_closed),
        Err(Fault::NotClosed)
    );
}

#[test]
fn limits_are_checked_just_above_and_within() {
    assert_eq!(too_large(0), [0]);
    assert_eq!(too_large(3), [0; 4]);
    assert_eq!(too_large_is_recoverable(0), []);
    assert_eq!(too_large_is_recoverable(3), [0x42; 3]);
    assert_eq!(too_large_is_recoverable(5), [0x42; 5]);
    assert_eq!(too_large_is_recoverable(usize::MAX), [0x42; 5]);
    assert_eq!(judge_rejection(Err("big"), |error| *error == "big"), Ok(()));
    assert_eq!(
        judge_rejection(Err("other"), |error| *error == "big"),
        Err(Fault::NotRejected)
    );
    assert_eq!(
        judge_rejection(Ok(()), |_: &&str| true),
        Err(Fault::NotRejected)
    );
}

/// Runs the cancellation check against given events, and returns its verdict.
fn cancellation(events: Vec<CancelEvent>) -> Option<Result<(), Fault>> {
    let mut check = RecvIsCancelSafe::start();
    for event in events {
        check.observe(event);
    }
    match check.step() {
        CancelStep::Conclude(verdict) => Some(verdict),
        _ => None,
    }
}

/// The events up to the moment that the message is sent.
fn cancelled() -> Vec<CancelEvent> {
    (0..=CANCELLATIONS).map(|_| CancelEvent::Pending).collect()
}

fn cancelled_then(events: Vec<CancelEvent>) -> Option<Result<(), Fault>> {
    cancellation(cancelled().into_iter().chain(events).collect())
}

fn arrival() -> CancelEvent {
    CancelEvent::Received(Some(check_message()))
}

#[test]
fn cancellation_gives_up_receiving_before_it_sends() {
    assert_eq!(check_message(), b"message");
    let mut check = RecvIsCancelSafe::start();
    for _ in 0..10 {
        assert!(matches!(check.step(), CancelStep::GiveUp));
        check.observe(CancelEvent::Pending);
    }
    assert!(matches!(check.step(), CancelStep::Begin));
    check.observe(CancelEvent::Pending);
    assert!(matches!(check.step(), CancelStep::SendAndRace));
    check.observe(CancelEvent::Sent(true));
    assert!(matches!(check.step(), CancelStep::LookAgain));
    check.observe(CancelEvent::Pending);
    assert!(matches!(check.step(), CancelStep::ReceiveAfresh));
    check.observe(arrival());
    assert!(matches!(check.step(), CancelStep::Conclude(Ok(()))));
}

#[test]
fn cancellation_accepts_every_way_of_delivery() {
    assert_eq!(
        cancelled_then(vec![CancelEvent::Sent(true), arrival()]),
        Some(Ok(()))
    );
    assert_eq!(
        cancelled_then(vec![CancelEvent::Sent(true), CancelEvent::Pending, arrival()]),
        Some(Ok(()))
    );
    assert_eq!(
        cancelled_then(vec![arrival(), CancelEvent::Sent(true)]),
        Some(Ok(()))
    );
    assert_eq!(cancelled_then(vec![arrival()]), None);
}

#[test]
fn cancellation_rejects_loss_corruption_and_surprises() {
    assert_eq!(
        cancelled_then(vec![
            CancelEvent::Sent(true),
            CancelEvent::Pending,
            CancelEvent::Pending
        ]),
        Some(Err(Fault::TimedOut))
    );
    assert_eq!(
        cancelled_then(vec![
            CancelEvent::Sent(true),
            CancelEvent::Received(Some(vec![1]))
        ]),
        Some(Err(Fault::WrongMessage))
    );
    assert_eq!(
        cancelled_then(vec![CancelEvent::Sent(true), CancelEvent::Received(None)]),
        Some(Err(Fault::NotReceived))
    );
    assert_eq!(
        cancelled_then(vec![CancelEvent::Sent(false)]),
        Some(Err(Fault::NotSent))
    );
    assert_eq!(
        cancelled_then(vec![arrival(), CancelEvent::Sent(false)]),
        Some(Err(Fault::NotSent))
    );
    assert_eq!(cancellation(vec![arrival()]), Some(Err(Fault::Unexpected)));
}

fn rebuild(events: Vec<RebuildEvent>) -> Option<Result<(), Fault>> {
    let mut check = BuildUseDropRebuild::start();
    for event in events {
        check.observe(event);
    }
    match check.step() {
        RebuildStep::Conclude(verdict) => Some(verdict),
        _ => None,
    }
}

#[test]
fn reconnection_follows_its_steps() {
    let mut check = BuildUseDropRebuild::start();
    assert!(matches!(check.step(), RebuildStep::Build));
    check.observe(RebuildEvent::Built(true));
    assert!(matches!(check.step(), RebuildStep::Use(bytes) if bytes == b"message"));
    check.observe(RebuildEvent::Used(true, Some(b"message".to_vec())));
    assert!(matches!(check.step(), RebuildStep::Drop));
    check.observe(RebuildEvent::Noticed(Some(true)));
    assert!(matches!(check.step(), RebuildStep::Build));
    check.observe(RebuildEvent::Built(true));
    assert!(matches!(check.step(), RebuildStep::Use(bytes) if bytes == b"again"));
    check.observe(RebuildEvent::Used(true, Some(b"again".to_vec())));
    assert!(matches!(check.step(), RebuildStep::Conclude(Ok(()))));
}

#[test]
fn reconnection_rejects_every_failure() {
    let used = || RebuildEvent::Used(true, Some(b"message".to_vec()));
    assert_eq!(
        rebuild(vec![RebuildEvent::Built(false)]),
        Some(Err(Fault::NotBuilt))
    );
    assert_eq!(
        rebuild(vec![RebuildEvent::Built(true), RebuildEvent::Used(true, None)]),
        Some(Err(Fault::NotReceived))
    );
    assert_eq!(
        rebuild(vec![
            RebuildEvent::Built(true),
            used(),
            RebuildEvent::Noticed(None)
        ]),
        Some(Err(Fault::TimedOut))
    );
    assert_eq!(
        rebuild(vec![
            RebuildEvent::Built(true),
            used(),
            RebuildEvent::Noticed(Some(false))
        ]),
        Some(Err(Fault::NotClosed))
    );
    assert_eq!(
        rebuild(vec![
            RebuildEvent::Built(true),
            used(),
            RebuildEvent::Noticed(Some(true)),
            RebuildEvent::Built(false)
        ]),
        Some(Err(Fault::NotBuilt))
    );
    assert_eq!(
        rebuild(vec![
            RebuildEvent::Built(true),
            used(),
            RebuildEvent::Noticed(Some(true)),
            RebuildEvent::Built(true),
            used()
        ]),
        Some(Err(Fault::WrongMessage))
    );
}

#[test]
fn burst_messages_carry_their_tag_and_index() {
    for index in [0, 1, 255, 256, 65_537, usize::MAX] {
        let expected: Vec<u8> = std::iter::once(b'l').chain(index.to_le_bytes()).collect();
        assert_eq!(burst_message(b'l', index), expected);
    }
}

#[test]
fn a_tally_takes_each_message_once_in_any_order() {
    let mut tally = Tally::of_burst(b'r', 300);
    for index in (0..300).rev() {
        assert!(!tally.is_complete());
        assert!(tally.arrive(&burst_message(b'r', index)));
        assert!(!tally.arrive(&burst_message(b'r', index)));
    }
    assert!(tally.is_complete());
    assert!(!tally.arrive(&burst_message(b'r', 0)));
}

#[test]
fn a_tally_rejects_what_was_not_sent() {
    let mut tally = Tally::of_burst(b'r', 2);
    assert!(!tally.arrive(&burst_message(b'l', 0)));
    assert!(!tally.arrive(&burst_message(b'r', 2)));
    assert!(!tally.arrive(b"r"));
    assert!(tally.arrive(&burst_message(b'r', 1)));
    assert!(!tally.is_complete());
    assert!(Tally::of_burst(b'r', 0).is_complete());
}

/// Lets both sides send, and hands each message to the other side as `deliver` says.
fn exchange(
    burst: usize,
    deliver: impl Fn(Vec<Vec<u8>>) -> Vec<Option<Vec<u8>>>,
) -> MutualBurstsConverge {
    let mut check = MutualBurstsConverge::start(burst);
    for (from, to) in [(Side::Left, Side::Right), (Side::Right, Side::Left)] {
        let mut sent = Vec::new();
        while let Some(message) = check.next_message(from) {
            sent.push(message);
            check.observe(BurstEvent::Sent(from, true));
        }
        for received in deliver(sent) {
            if !check.receives_next(to) {
                break;
            }
            check.observe(BurstEvent::Received(to, received));
        }
    }
    check
}

#[test]
fn bursts_reject_corruption_duplicates_and_loss() {
    let corrupt = exchange(300, |messages| {
        let spoil = |mut message: Vec<u8>| {
            message.push(0xff);
            Some(message)
        };
        messages.into_iter().map(spoil).collect()
    });
    assert_eq!(corrupt.verdict(), Some(Err(Fault::WrongMessage)));
    let duplicate = exchange(300, |messages| {
        messages.iter().map(|_| messages.first().cloned()).collect()
    });
    assert_eq!(duplicate.verdict(), Some(Err(Fault::WrongMessage)));
    let mut lossy = exchange(300, |messages| messages.into_iter().skip(1).map(Some).collect());
    assert_eq!(lossy.verdict(), None);
    assert!(lossy.receives_next(Side::Left) && lossy.receives_next(Side::Right));
    lossy.observe(BurstEvent::TimedOut);
    assert_eq!(lossy.verdict(), Some(Err(Fault::TimedOut)));
}

#[test]
fn bursts_accept_reordering_and_indices_beyond_one_byte() {
    let reordered = exchange(300, |messages| messages.into_iter().rev().map(Some).collect());
    assert_eq!(reordered.verdict(), Some(Ok(())));
}

#[test]
fn bursts_accept_empty_and_single_message_exchanges() {
    for burst in [0, 1] {
        let whole = exchange(burst, |messages| messages.into_iter().map(Some).collect());
        assert_eq!(whole.verdict(), Some(Ok(())));
    }
}

#[test]
fn each_side_sends_its_own_burst_in_order() {
    let mut check = MutualBurstsConverge::start(2);
    assert_eq!(check.next_message(Side::Left), Some(burst_message(b'l', 0)));
    assert_eq!(check.next_message(Side::Right), Some(burst_message(b'r', 0)));
    check.observe(BurstEvent::Sent(Side::Left, true));
    assert_eq!(check.next_message(Side::Left), Some(burst_message(b'l', 1)));
    assert_eq!(check.next_message(Side::Right), Some(burst_message(b'r', 0)));
    check.observe(BurstEvent::Sent(Side::Left, true));
    assert_eq!(check.next_message(Side::Left), None);
    check.observe(BurstEvent::Received(Side::Right, Some(burst_message(b'l', 1))));
    check.observe(BurstEvent::Received(Side::Right, Some(burst_message(b'l', 0))));
    assert!(!check.receives_next(Side::Right));
    assert_eq!(check.verdict(), None);
    for index in 0..2 {
        check.observe(BurstEvent::Sent(Side::Right, true));
        check.observe(BurstEvent::Received(Side::Left, Some(burst_message(b'r', index))));
    }
    assert_eq!(check.verdict(), Some(Ok(())));
    check.observe(BurstEvent::TimedOut);
    assert_eq!(check.verdict(), Some(Ok(())));
}

#[test]
fn the_first_fault_of_an_exchange_stands() {
    let mut unsent = MutualBurstsConverge::start(1);
    unsent.observe(BurstEvent::Sent(Side::Left, false));
    assert_eq!(unsent.verdict(), Some(Err(Fault::NotSent)));
    unsent.observe(BurstEvent::TimedOut);
    assert_eq!(unsent.verdict(), Some(Err(Fault::NotSent)));
    assert_eq!(unsent.next_message(Side::Right), None);
    assert!(!unsent.receives_next(Side::Left));
    let mut closed = MutualBurstsConverge::start(1);
    closed.observe(BurstEvent::Received(Side::Left, None));
    assert_eq!(closed.verdict(), Some(Err(Fault::NotReceived)));
    let mut echoed = MutualBurstsConverge::start(1);
    echoed.observe(BurstEvent::Received(Side::Left, Some(burst_message(b'l', 0))));
    assert_eq!(echoed.verdict(), Some(Err(Fault::WrongMessage)));
}
