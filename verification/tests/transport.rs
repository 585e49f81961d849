use std::convert::Infallible;
use std::sync::atomic::{AtomicUsize, Ordering};
use std::sync::{Arc, Mutex};

use fungi::queues::{bounded, look, offer, Look, Offer};
use fungi::transport::channel::{into_stream, split as take_apart, Channel as Pair, PeerMismatch};
use fungi::transport::codec::{report, CodecChannel, CodecError, CodecPair, Decode, Encode};
use fungi::transport::{
    split, Channel, Contramap, Duplex, MapRecv, PeerChannel, Pseudonymous, RecvChannel,
    SendChannel, SharedChannel, Step, Unspecified,
};
use tokio::sync::mpsc;

#[derive(Debug, PartialEq, Eq, Clone, Copy)]
struct Broken;

#[derive(Debug)]
struct NumberSender {
    peer: u8,
    sender: mpsc::Sender<u32>,
}

#[derive(Debug)]
struct NumberReceiver {
    peer: u8,
    receiver: mpsc::Receiver<u32>,
}

impl PeerChannel for NumberSender {
    type Peer = u8;

    fn peer(&self) -> &u8 {
        &self.peer
    }
}

impl PeerChannel for NumberReceiver {
    type Peer = u8;

    fn peer(&self) -> &u8 {
        &self.peer
    }
}

fn submit(sender: &mpsc::Sender<u32>, message: u32) -> Step<u32, Result<(), Broken>> {
    match offer(sender, message) {
        Offer::Taken => Step::Done(Ok(())),
        Offer::Full(message) => Step::Waiting(message),
        Offer::Closed(_) => Step::Done(Err(Broken)),
    }
}

fn take(receiver: &mut mpsc::Receiver<u32>) -> Step<(), Result<u32, Broken>> {
    match look(receiver) {
        Look::Item(message) => Step::Done(Ok(message)),
        Look::Empty => Step::Waiting(()),
        Look::Closed => Step::Done(Err(Broken)),
    }
}

/// What an operation came to that need not wait.
fn now<P, T>(step: Step<P, T>) -> T {
    step.done().expect("there is nothing to wait for")
}

impl SendChannel<u32> for NumberSender {
    type Privacy = Pseudonymous;
    type SendError = Broken;
    type Sending = u32;

    fn send(&mut self, message: u32) -> Step<u32, Result<(), Broken>> {
        submit(&self.sender, message)
    }

    fn resume_send(&mut self, sending: u32) -> Step<u32, Result<(), Broken>> {
        submit(&self.sender, sending)
    }
}

impl SendChannel<String> for NumberSender {
    type Privacy = Pseudonymous;
    type SendError = Broken;
    type Sending = u32;

    fn send(&mut self, message: String) -> Step<u32, Result<(), Broken>> {
        submit(&self.sender, message.len() as u32)
    }

    fn resume_send(&mut self, sending: u32) -> Step<u32, Result<(), Broken>> {
        submit(&self.sender, sending)
    }
}

impl RecvChannel<u32> for NumberReceiver {
    type RecvError = Broken;

    fn recv(&mut self) -> Step<(), Result<u32, Broken>> {
        take(&mut self.receiver)
    }
}

fn simplex(capacity: usize) -> (NumberSender, NumberReceiver) {
    let (sender, receiver) = bounded(capacity);
    (NumberSender { peer: 1, sender }, NumberReceiver { peer: 1, receiver })
}

fn assert_channel<C: Channel<u32, u32>>(_: &C) {}
fn assert_asymmetric_channel<C: Channel<u32, String>>(_: &C) {}
fn assert_pseudonymous<C: SendChannel<u32, Privacy = Pseudonymous>>(_: &C) {}
fn assert_pseudonymous_strings<C: SendChannel<String, Privacy = Pseudonymous>>(_: &C) {}
fn assert_pseudonymous_bytes<C: SendChannel<Vec<u8>, Privacy = Pseudonymous>>(_: &C) {}

#[test]
fn duplex_combines_sending_and_receiving() {
    let (sender, receiver) = simplex(1);
    let mut channel = Duplex::new(sender, receiver);

    assert_channel(&channel);
    assert_pseudonymous(&channel);

    now(channel.send(42)).unwrap();
    assert_eq!(now(channel.recv()).unwrap(), 42);

    let (mut sender, mut receiver) = channel.into_parts();
    assert_eq!(sender.peer(), receiver.peer());
    now(sender.send(43)).unwrap();
    assert_eq!(now(receiver.recv()).unwrap(), 43);
    drop(sender);
    assert_eq!(now(receiver.recv()).unwrap_err(), Broken);
}

#[test]
fn duplex_supports_different_message_types_by_direction() {
    let (sender, receiver) = simplex(1);
    let mut channel = Duplex::new(sender, receiver);

    assert_asymmetric_channel(&channel);
    now(SendChannel::<String>::send(&mut channel, "hello".to_owned())).unwrap();
    assert_eq!(now(channel.recv()).unwrap(), 5);
}

#[test]
fn duplex_does_not_require_peer_identity() {
    let mut channel = Duplex::new(Sequential::default(), Sequential(Some(8)));
    assert_channel(&channel);
    now(channel.send(7)).unwrap();
    assert_eq!(now(channel.recv()).unwrap(), 8);
    let (mut sender, _) = channel.into_parts();
    assert_eq!(now(sender.recv()).unwrap(), 7);
}

#[derive(Debug, Default)]
struct Sequential(Option<u32>);

impl SendChannel<u32> for Sequential {
    type Privacy = Pseudonymous;
    type SendError = Infallible;
    type Sending = Infallible;

    fn send(&mut self, message: u32) -> Step<Infallible, Result<(), Infallible>> {
        self.0 = Some(message);
        Step::Done(Ok(()))
    }

    fn resume_send(&mut self, never: Infallible) -> Step<Infallible, Result<(), Infallible>> {
        match never {}
    }
}

impl RecvChannel<u32> for Sequential {
    type RecvError = Broken;

    fn recv(&mut self) -> Step<(), Result<u32, Broken>> {
        Step::Done(self.0.take().ok_or(Broken))
    }
}

impl Channel<u32, u32> for Sequential {}

#[test]
fn channel_does_not_require_shared_access() {
    let mut channel = Sequential::default();

    assert_channel(&channel);
    assert_pseudonymous(&channel);
    now(channel.send(7)).unwrap();
    assert_eq!(now(channel.recv()).unwrap(), 7);
    assert_eq!(now(channel.recv()).unwrap_err(), Broken);
}

#[derive(Debug)]
struct SharedBackend {
    peer: u8,
    sender: mpsc::Sender<u32>,
    receiver: Mutex<mpsc::Receiver<u32>>,
    drops: Arc<AtomicUsize>,
}

impl SharedBackend {
    fn new() -> Self {
        let (sender, receiver) = bounded(1);
        Self {
            peer: 1,
            sender,
            receiver: Mutex::new(receiver),
            drops: Arc::default(),
        }
    }
}

impl Drop for SharedBackend {
    fn drop(&mut self) {
        self.drops.fetch_add(1, Ordering::SeqCst);
    }
}

impl PeerChannel for SharedBackend {
    type Peer = u8;

    fn peer(&self) -> &u8 {
        &self.peer
    }
}

impl SendChannel<String> for SharedBackend {
    type Privacy = Pseudonymous;
    type SendError = Broken;
    type Sending = u32;

    fn send(&mut self, message: String) -> Step<u32, Result<(), Broken>> {
        self.send_shared(message)
    }

    fn resume_send(&mut self, sending: u32) -> Step<u32, Result<(), Broken>> {
        self.resume_send_shared(sending)
    }
}

impl RecvChannel<u32> for SharedBackend {
    type RecvError = Broken;

    fn recv(&mut self) -> Step<(), Result<u32, Broken>> {
        self.recv_shared()
    }
}

impl Channel<u32, String> for SharedBackend {}

impl SharedChannel<u32, String> for SharedBackend {
    fn send_shared(&self, message: String) -> Step<u32, Result<(), Broken>> {
        submit(&self.sender, message.len() as u32)
    }

    fn resume_send_shared(&self, sending: u32) -> Step<u32, Result<(), Broken>> {
        submit(&self.sender, sending)
    }

    fn recv_shared(&self) -> Step<(), Result<u32, Broken>> {
        take(&mut self.receiver.lock().unwrap())
    }
}

#[test]
fn shared_halves_progress_independently_and_release_their_backend() {
    let backend = SharedBackend::new();
    let drops = Arc::clone(&backend.drops);
    let (mut sender, mut receiver) = split(backend);

    assert_pseudonymous_strings(&sender);
    assert_eq!(sender.peer(), receiver.peer());
    assert!(receiver.recv().is_waiting());
    now(sender.send("shared".to_owned())).unwrap();
    assert_eq!(sender.send("full".to_owned()), Step::Waiting(4));
    assert_eq!(now(receiver.recv()).unwrap(), 6);

    drop(sender);
    assert_eq!(drops.load(Ordering::SeqCst), 0);
    drop(receiver);
    assert_eq!(drops.load(Ordering::SeqCst), 1);
}

#[test]
fn transformations_adapt_each_channel_direction() {
    let (sender, receiver) = simplex(1);
    let mut sender = Contramap::new(sender, |message: String| message.len() as u32);
    let mut receiver = MapRecv::new(receiver, |message: u32| message.to_string());

    assert_pseudonymous_strings(&sender);
    assert_eq!(sender.peer(), receiver.peer());
    now(sender.send("hello".to_owned())).unwrap();
    assert_eq!(now(RecvChannel::<String>::recv(&mut receiver)).unwrap(), "5");
}

#[test]
fn map_accepts_a_stateful_transformation() {
    let (mut sender, receiver) = simplex(2);
    let mut count = 0;
    let mut receiver = MapRecv::new(receiver, move |message: u32| {
        count += 1;
        (count, message)
    });

    now(sender.send(7)).unwrap();
    now(sender.send(8)).unwrap();
    assert_eq!(now(receiver.recv()).unwrap(), (1, 7));
    assert_eq!(now(receiver.recv()).unwrap(), (2, 8));
}

#[test]
fn transformations_compose_with_shared_halves() {
    let (sender, receiver) = split(SharedBackend::new());
    let mut sender = Contramap::new(sender, |message: Vec<u8>| {
        String::from_utf8(message).unwrap()
    });
    let mut receiver = MapRecv::new(receiver, |message: u32| message.to_string());

    assert_pseudonymous_bytes(&sender);
    now(sender.send(b"shared".to_vec())).unwrap();
    assert_eq!(now(RecvChannel::<String>::recv(&mut receiver)).unwrap(), "6");
}

#[test]
fn transformations_preserve_transport_errors() {
    let (sender, receiver) = simplex(1);
    drop(receiver);
    let mut sender = Contramap::new(sender, |message: String| message.len() as u32);
    assert!(now(sender.send("closed".to_owned())).is_err());

    let (sender, receiver) = simplex(1);
    drop(sender);
    let mut receiver = MapRecv::new(receiver, |message: u32| message.to_string());
    assert_eq!(
        now(RecvChannel::<String>::recv(&mut receiver)).unwrap_err(),
        Broken
    );
}

#[test]
fn contramap_accepts_non_send_intermediate_messages() {
    struct Sink(Arc<AtomicUsize>);

    impl SendChannel<std::rc::Rc<usize>> for Sink {
        type Privacy = Unspecified;
        type SendError = Infallible;
        type Sending = Infallible;

        fn send(
            &mut self,
            message: std::rc::Rc<usize>,
        ) -> Step<Infallible, Result<(), Infallible>> {
            self.0.store(*message, Ordering::SeqCst);
            Step::Done(Ok(()))
        }

        fn resume_send(&mut self, never: Infallible) -> Step<Infallible, Result<(), Infallible>> {
            match never {}
        }
    }

    fn require_send<T: Send>(value: T) -> T {
        value
    }

    let received = Arc::new(AtomicUsize::new(0));
    let mut sender = require_send(Contramap::new(
        Sink(Arc::clone(&received)),
        std::rc::Rc::new,
    ));
    now(sender.send(42)).unwrap();
    assert_eq!(received.load(Ordering::SeqCst), 42);
}

#[test]
fn transformations_apply_the_outer_one_first_when_sending() {
    let (sender, mut receiver) = simplex(1);
    let inner = Contramap::new(sender, |message: u32| message * 10);
    let mut outer = Contramap::new(inner, |message: u32| message + 1);
    now(outer.send(4u32)).unwrap();
    assert_eq!(now(receiver.recv()).unwrap(), 50);
    assert_eq!(outer.prepare(1), 2);
    assert_eq!(outer.channel_mut().prepare(3), 30);
}

#[test]
fn a_pair_requires_the_same_peer() {
    let (sender, receiver) = simplex(1);
    let mut pair = Pair::new(sender, receiver).unwrap();
    assert_eq!(pair.peer(), &1);
    now(SendChannel::<u32>::send(&mut pair, 9)).unwrap();
    {
        let (_, mut receiving) = pair.directions();
        assert_eq!(now(receiving.recv()).unwrap(), 9);
    }
    let (sender, mut receiver) = take_apart(pair);
    receiver.peer = 2;
    assert_eq!(
        Pair::new::<u32>(sender, receiver).unwrap_err(),
        PeerMismatch
    );
    assert_eq!(PeerMismatch.to_string(), "channel peers differ");
}

#[test]
fn a_shared_backend_forms_a_pair() {
    let mut pair = Pair::from_shared(SharedBackend::new());
    now(pair.send("four".to_owned())).unwrap();
    assert_eq!(now(pair.recv()).unwrap(), 4);
}

/// Halves even numbers on the way out, doubles on the way in, and refuses the rest.
struct Halving;

#[derive(Debug, PartialEq, Eq)]
struct Odd(u32);

#[derive(Debug, PartialEq, Eq)]
struct Huge;

impl Encode<u32, u32> for Halving {
    type EncodeError = Odd;

    fn encode(&self, message: u32) -> Result<u32, Odd> {
        if message % 2 == 0 {
            Ok(message / 2)
        } else {
            Err(Odd(message))
        }
    }
}

impl Decode<u32, u32> for Halving {
    type DecodeError = Huge;

    fn decode(&self, message: u32) -> Result<u32, Huge> {
        message.checked_mul(2).ok_or(Huge)
    }
}

#[test]
fn a_codec_converts_on_both_sides_of_a_pair() {
    let (sender, receiver) = simplex(1);
    let mut pair = Pair::new::<u32>(sender, receiver)
        .unwrap()
        .with_codec::<u32, u32, _>(Halving);
    now(pair.send(10)).unwrap();
    assert_eq!(now(pair.recv()).unwrap(), 10);
    assert_eq!(pair.peer(), &1);
}

#[test]
fn a_failed_conversion_reaches_no_transport() {
    let (sender, mut receiver) = simplex(1);
    let mut sender = CodecChannel::new(sender, Halving);
    assert!(matches!(
        now(sender.send(3u32)),
        Err(CodecError::Codec(Odd(3)))
    ));
    assert!(receiver.recv().is_waiting());
    now(sender.send(4u32)).unwrap();
    assert_eq!(now(receiver.recv()).unwrap(), 2);
    drop(receiver);
    assert!(matches!(
        now(sender.send(4u32)),
        Err(CodecError::Transport(Broken))
    ));
}

#[test]
fn a_faithful_codec_delivers_messages_in_order() {
    let (sender, receiver) = simplex(3);
    let mut sender = CodecChannel::new(sender, Halving);
    let mut receiver = CodecChannel::new(receiver, Halving);
    for message in [8u32, 2, 6] {
        now(sender.send(message)).unwrap();
    }
    let received: Vec<u32> = (0..3).map(|_| now(receiver.recv()).unwrap()).collect();
    assert_eq!(received, [8, 2, 6]);
}

#[test]
fn a_conversion_failure_tells_its_side_and_its_cause() {
    let transport: CodecError<Broken, Odd> = CodecError::Transport(Broken);
    assert_eq!(transport.to_string("broken"), "transport: broken");
    assert_eq!(transport.transport_source(), Some(&Broken));
    assert_eq!(transport.codec_source(), None);
    let codec: CodecError<Broken, Odd> = CodecError::Codec(Odd(3));
    assert_eq!(codec.to_string("odd"), "codec: odd");
    assert_eq!(codec.transport_source(), None);
    assert_eq!(codec.codec_source(), Some(&Odd(3)));
}

#[test]
fn a_failed_receive_leaves_the_transformation_as_it_was() {
    let (mut sender, receiver) = simplex(1);
    let mut count = 0;
    let mut receiver = MapRecv::new(receiver, move |message: u32| {
        count += 1;
        (count, message)
    });
    assert!(receiver.recv().is_waiting());
    assert_eq!(receiver.finish::<(u32, u32), _>(Err(7)), Err(7));
    now(sender.send(5)).unwrap();
    assert_eq!(now(receiver.recv()).unwrap(), (1, 5));
}

#[test]
fn a_failed_decoding_consumes_one_message() {
    let (mut sender, receiver) = simplex(2);
    let mut receiver = CodecChannel::new(receiver, CodecPair::new((), Halving));
    now(sender.send(u32::MAX)).unwrap();
    now(sender.send(5u32)).unwrap();
    let got: Result<u32, _> = now(receiver.recv());
    assert!(matches!(got, Err(CodecError::Codec(Huge))));
    let got: Result<u32, _> = now(receiver.recv());
    assert!(matches!(got, Ok(10)));
    drop(sender);
    let got: Result<u32, _> = now(receiver.recv());
    assert!(matches!(got, Err(CodecError::Transport(Broken))));
    assert_eq!(receiver.channel_mut().peer, 1);
    assert!(matches!(
        report::<_, Odd>(Err(Broken)),
        Err(CodecError::Transport(Broken))
    ));
}

#[test]
fn a_stream_yields_its_first_error_and_ends() {
    let (mut sender, receiver) = simplex(2);
    now(sender.send(1)).unwrap();
    now(sender.send(2)).unwrap();
    let mut stream = into_stream(receiver);
    assert_eq!(stream.next(), Step::Done(Some(Ok(1))));
    assert_eq!(stream.next(), Step::Done(Some(Ok(2))));
    assert_eq!(stream.next::<u32>(), Step::Waiting(()));
    assert!(!stream.is_ended());
    now(sender.send(3)).unwrap();
    assert_eq!(stream.next(), Step::Done(Some(Ok(3))));
    drop(sender);
    assert_eq!(stream.next::<u32>(), Step::Done(Some(Err(Broken))));
    assert!(stream.is_ended());
    assert_eq!(stream.next::<u32>(), Step::Done(None));
}

/// Adds one on the way out, and counts how often.
struct Counted(AtomicUsize);

impl Encode<u32, u32> for Counted {
    type EncodeError = Infallible;

    fn encode(&self, message: u32) -> Result<u32, Infallible> {
        self.0.fetch_add(1, Ordering::SeqCst);
        Ok(message + 1)
    }
}

#[test]
fn a_message_that_waits_is_converted_once() {
    let (sender, mut receiver) = simplex(1);
    let counted = Arc::new(Counted(AtomicUsize::new(0)));
    let mut calls = 0;
    let converted = CodecChannel::new(sender, Arc::clone(&counted));
    let mut sender = Contramap::new(converted, |message: u32| {
        calls += 1;
        message * 10
    });
    now(sender.send(1u32)).unwrap();
    let Step::Waiting(kept) = sender.send(2u32) else {
        panic!("the queue is full");
    };
    assert_eq!(kept, 21);
    let Step::Waiting(kept) = sender.resume_send(kept) else {
        panic!("the queue is still full");
    };
    assert_eq!(now(receiver.recv()).unwrap(), 11);
    now(sender.resume_send(kept)).unwrap();
    assert_eq!(now(receiver.recv()).unwrap(), 21);
    drop(sender);
    assert_eq!(calls, 2);
    assert_eq!(counted.0.load(Ordering::SeqCst), 2);
}

#[test]
fn pairs_and_halves_go_on_with_what_waits() {
    let (sender, receiver) = simplex(1);
    let mut pair = Pair::new::<u32>(sender, receiver).unwrap();
    now(SendChannel::<u32>::send(&mut pair, 1)).unwrap();
    let waiting = SendChannel::<u32>::send(&mut pair, 2);
    assert_eq!(waiting, Step::Waiting(2));
    assert_eq!(now(pair.recv()).unwrap(), 1);
    {
        let (mut sending, _) = pair.directions();
        now(SendChannel::<u32>::resume_send(&mut sending, 2)).unwrap();
    }
    let (sender, receiver) = pair.into_split();
    let mut duplex = Duplex::new(sender, receiver);
    assert_eq!(SendChannel::<u32>::resume_send(&mut duplex, 3), Step::Waiting(3));
    assert_eq!(now(duplex.recv()).unwrap(), 2);

    let (mut sender, mut receiver) = split(SharedBackend::new());
    now(sender.send("one".to_owned())).unwrap();
    assert_eq!(sender.resume_send(9), Step::Waiting(9));
    assert_eq!(now(receiver.recv()).unwrap(), 3);
    now(sender.resume_send(9)).unwrap();
    assert_eq!(now(receiver.recv()).unwrap(), 9);
}
