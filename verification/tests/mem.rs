use fungi::testkit::mem::{
    duplex, network, store_and_forward, submitted, taken, MemAddr, MemConfig, MemError,
    CONNECTION_QUEUE_CAPACITY,
};
use fungi::queues::{bounded, look, offer, Look, Offer};
use fungi::transport::channel::{Channel, PeerMismatch};
use fungi::transport::privacy::Anonymous;
use fungi::transport::traits::{ChannelBuilder, PeerChannel, RecvChannel, SendChannel, Step};

#[derive(Debug, PartialEq, Eq)]
struct Message(Box<str>);

/// What an operation came to that need not wait.
fn now<P, T>(step: Step<P, T>) -> T {
    step.done().expect("there is nothing to wait for")
}

#[test]
fn composition_rejects_directions_from_different_peer_links() {
    let (first, _) = duplex::<Message>(MemConfig::default());
    let (second, _) = duplex::<Message>(MemConfig::default());
    fn anonymous<S: SendChannel<Message, Privacy = Anonymous>>(_: &S) {}
    anonymous(&first);
    let (sender, _) = first.into_split();
    let (_, receiver) = second.into_split();
    assert_eq!(
        Channel::new(sender, receiver).unwrap_err(),
        PeerMismatch,
    );
}

#[test]
fn a_peer_link_can_be_taken_apart_and_put_together_again() {
    let (left, mut right) = duplex(MemConfig::default());
    let (mut sender, mut receiver) = left.into_split();
    now(SendChannel::send(&mut sender, Message("request".into()))).unwrap();
    assert_eq!(now(right.recv()).unwrap(), Message("request".into()));
    now(right.send(Message("reply".into()))).unwrap();
    assert_eq!(
        now(RecvChannel::recv(&mut receiver)).unwrap(),
        Message("reply".into())
    );
    let mut left = Channel::new(sender, receiver).unwrap();
    let (mut sender, _) = left.directions();
    now(sender.send(Message("again".into()))).unwrap();
    assert_eq!(now(right.recv()).unwrap(), Message("again".into()));
}

#[test]
fn both_directions_of_an_endpoint_name_one_peer() {
    let (left, right) = duplex::<u8>(MemConfig::default());
    let (left_sender, left_receiver) = left.into_split();
    let (right_sender, right_receiver) = right.into_split();
    assert!(left_sender.peer() == left_receiver.peer());
    assert!(right_sender.peer() == right_receiver.peer());
    assert!(left_sender.peer() != right_sender.peer());
    assert!(left_sender.clone().peer() == left_sender.peer());
}

#[test]
fn directions_of_opposite_endpoints_do_not_pair() {
    let (left, right) = duplex::<u8>(MemConfig::default());
    let (left_sender, left_receiver) = left.into_split();
    let (right_sender, right_receiver) = right.into_split();
    assert_eq!(
        Channel::new(left_sender, right_receiver).unwrap_err(),
        PeerMismatch,
    );
    assert_eq!(
        Channel::new(right_sender, left_receiver).unwrap_err(),
        PeerMismatch,
    );
}

#[test]
fn an_endpoint_can_be_split_and_paired_any_number_of_times() {
    let (mut left, mut right) = duplex(MemConfig::default());
    for round in 0..3 {
        let (sender, receiver) = left.into_split();
        left = Channel::new(sender, receiver).unwrap();
        now(left.send(round)).unwrap();
        assert_eq!(now(right.recv()).unwrap(), round);
        now(right.send(round + 10)).unwrap();
        assert_eq!(now(left.recv()).unwrap(), round + 10);
    }
}

#[test]
fn links_and_stores_have_different_peers_at_their_ends() {
    let (mut connector, mut listener) = network::<u8>(MemConfig::default());
    let (first, second) = connector.link();
    assert!(first.peer() != second.peer());
    let built = now(connector.build(&MemAddr)).unwrap();
    let accepted = now(listener.build(&())).unwrap();
    assert!(built.peer() != accepted.peer());
    assert!(built.peer() != first.peer());
    let (mut a_store, mut b_store) = store_and_forward::<u8>(MemConfig::default());
    let a = a_store.connect();
    let b = b_store.connect();
    assert!(a.peer() != b.peer());
    let (sender, receiver) = a.into_split();
    assert!(sender.peer() == receiver.peer());
    let (_, other_receiver) = b.into_split();
    assert_eq!(
        Channel::new(sender, other_receiver).unwrap_err(),
        PeerMismatch,
    );
}

#[test]
fn views_leave_the_pair_as_it_was() {
    let (mut left, mut right) = duplex(MemConfig::default());
    now(right.send(5)).unwrap();
    {
        let (mut sender, mut receiver) = left.directions();
        now(sender.send(4)).unwrap();
        assert_eq!(now(receiver.recv()).unwrap(), 5);
        assert!(sender.send(6).is_waiting());
        assert!(receiver.recv().is_waiting());
    }
    assert_eq!(now(right.recv()).unwrap(), 4);
    let (sender, receiver) = left.into_split();
    let mut left = Channel::new(sender, receiver).unwrap();
    now(left.send(7)).unwrap();
    assert_eq!(now(right.recv()).unwrap(), 7);
}

#[test]
fn a_link_buffers_what_was_asked_for_but_at_least_one_message() {
    assert_eq!(MemConfig { capacity: None }.link_capacity(), 1);
    assert_eq!(MemConfig { capacity: Some(0) }.link_capacity(), 1);
    assert_eq!(MemConfig { capacity: Some(3) }.clone().link_capacity(), 3);

    let (mut left, mut right) = duplex(MemConfig { capacity: Some(2) });
    now(left.send(1)).unwrap();
    now(left.send(2)).unwrap();
    assert!(left.send(3).is_waiting());
    assert_eq!(now(right.recv()).unwrap(), 1);
    now(left.send(4)).unwrap();
    assert_eq!(now(right.recv()).unwrap(), 2);
    assert_eq!(now(right.recv()).unwrap(), 4);
    assert!(right.recv().is_waiting());
}

#[test]
fn a_send_waits_for_room_and_loses_nothing() {
    let (mut left, mut right) = duplex(MemConfig::default());
    now(left.send(Message("first".into()))).unwrap();
    let Step::Waiting(kept) = left.send(Message("second".into())) else {
        panic!("the queue is full");
    };
    assert_eq!(kept, Message("second".into()));
    let Step::Waiting(kept) = left.resume_send(kept) else {
        panic!("the queue is still full");
    };
    assert_eq!(now(right.recv()).unwrap(), Message("first".into()));
    now(left.resume_send(kept)).unwrap();
    assert_eq!(now(right.recv()).unwrap(), Message("second".into()));

    now(left.send(Message("third".into()))).unwrap();
    let Step::Waiting(kept) = left.send(Message("fourth".into())) else {
        panic!("the queue is full");
    };
    drop(right);
    assert_eq!(now(left.resume_send(kept)), Err(MemError::Closed));
}

#[test]
fn a_receive_that_is_given_up_loses_nothing() {
    let (mut left, mut right) = duplex(MemConfig { capacity: Some(3) });
    for _ in 0..3 {
        assert_eq!(right.recv(), Step::Waiting(()));
    }
    now(left.send(Message("first".into()))).unwrap();
    now(left.send(Message("second".into()))).unwrap();
    assert_eq!(now(right.recv()).unwrap(), Message("first".into()));
    assert_eq!(now(right.recv()).unwrap(), Message("second".into()));
    assert_eq!(right.recv(), Step::Waiting(()));
    now(left.send(Message("third".into()))).unwrap();
    drop(left);
    assert_eq!(now(right.recv()).unwrap(), Message("third".into()));
    for _ in 0..2 {
        assert_eq!(now(right.recv()), Err(MemError::Closed));
    }
}

#[test]
fn an_acceptance_that_is_given_up_loses_no_connection() {
    let (mut connector, mut listener) = network::<u8>(MemConfig::default());
    assert!(listener.build(&()).is_waiting());
    let mut clients = Vec::new();
    for index in 0..3 {
        let mut client = now(connector.build(&MemAddr)).unwrap();
        now(client.send(index)).unwrap();
        clients.push(client);
    }
    for index in 0..3 {
        let mut accepted = now(listener.build(&())).unwrap();
        assert_eq!(now(accepted.recv()).unwrap(), index);
    }
    assert!(listener.build(&()).is_waiting());
    assert_eq!(connector.config().link_capacity(), 1);
}

#[test]
fn a_dropped_peer_closes_the_link_after_it_was_drained() {
    let (mut left, mut right) = duplex(MemConfig { capacity: Some(2) });
    now(left.send(1)).unwrap();
    drop(left);
    assert_eq!(now(right.recv()).unwrap(), 1);
    assert!(matches!(right.recv(), Step::Done(Err(MemError::Closed))));
    assert!(matches!(right.send(2), Step::Done(Err(MemError::Closed))));
    assert_eq!(MemError::Closed.to_string(), "in-memory path closed");
}

#[test]
fn a_listener_delivers_typed_connected_peers() {
    let (mut connector, mut listener) = network(MemConfig::default());
    let mut left = now(connector.build(&MemAddr)).unwrap();
    now(left.send(Message("before accept".into()))).unwrap();
    let mut right = now(listener.build(&())).unwrap();
    assert_eq!(now(right.recv()).unwrap(), Message("before accept".into()));
    drop(right);
    assert!(matches!(
        left.send(Message("closed".into())),
        Step::Done(Err(MemError::Closed))
    ));
    assert!(matches!(left.recv(), Step::Done(Err(MemError::Closed))));
    drop(listener);
    assert!(matches!(connector.build(&MemAddr), Step::Done(Err(MemError::Closed))));
}

#[test]
fn a_saturated_connector_waits_for_acceptance() {
    let (mut connector, mut listener) = network::<usize>(MemConfig::default());
    let mut clients = Vec::new();
    for index in 0..CONNECTION_QUEUE_CAPACITY {
        let mut client = now(connector.build(&MemAddr)).unwrap();
        now(client.send(index)).unwrap();
        clients.push(client);
    }
    let mut other = connector.clone();
    let Step::Waiting(building) = other.build(&MemAddr) else {
        panic!("the connection queue is full");
    };
    let Step::Waiting(building) = other.resume_build(building) else {
        panic!("the connection queue is still full");
    };
    assert_eq!(now(now(listener.build(&())).unwrap().recv()).unwrap(), 0);
    let mut extra_client = now(other.resume_build(building)).unwrap();
    now(extra_client.send(CONNECTION_QUEUE_CAPACITY)).unwrap();
    for index in 1..=CONNECTION_QUEUE_CAPACITY {
        assert_eq!(now(now(listener.build(&())).unwrap().recv()).unwrap(), index);
    }
    assert!(listener.build(&()).is_waiting());
    let mut late_client = now(connector.build(&MemAddr)).unwrap();
    now(late_client.send(77)).unwrap();
    assert_eq!(now(now(listener.resume_build(())).unwrap().recv()).unwrap(), 77);
    drop((connector, other));
    assert!(matches!(listener.build(&()), Step::Done(Err(MemError::Closed))));
}

#[test]
fn stores_forward_between_sessions_that_do_not_overlap() {
    let (mut a_store, mut b_store) = store_and_forward(MemConfig::default());
    {
        let mut a = a_store.connect();
        now(a.send(Message("request".into()))).unwrap();
        assert!(a.send(Message("full".into())).is_waiting());
    }
    {
        let mut b = b_store.connect();
        assert_eq!(now(b.recv()).unwrap(), Message("request".into()));
        now(b.send(Message("reply".into()))).unwrap();
    }
    {
        let mut a = a_store.connect();
        assert_eq!(now(a.recv()).unwrap(), Message("reply".into()));
        assert!(a.recv().is_waiting());
    }
    now(b_store.connect().send(Message("later".into()))).unwrap();
    assert_eq!(now(a_store.connect().recv()).unwrap(), Message("later".into()));
    drop(b_store);
    let mut a = a_store.connect();
    assert!(matches!(
        a.send(Message("closed".into())),
        Step::Done(Err(MemError::Closed))
    ));
    assert!(matches!(a.recv(), Step::Done(Err(MemError::Closed))));
}

#[test]
fn an_item_that_is_not_taken_comes_back() {
    let (sender, mut receiver) = bounded(1);
    assert!(matches!(look(&mut receiver), Look::Empty));
    assert!(matches!(offer(&sender, 7), Offer::Taken));
    assert!(matches!(offer(&sender, 8), Offer::Full(8)));
    assert!(matches!(look(&mut receiver), Look::Item(7)));
    drop(receiver);
    assert!(matches!(offer(&sender, 9), Offer::Closed(9)));
    let (sender, mut receiver) = bounded::<u8>(1);
    drop(sender);
    assert!(matches!(look(&mut receiver), Look::Closed));
}

#[test]
fn queue_answers_become_steps() {
    assert_eq!(submitted(Offer::<u8>::Taken), Step::Done(Ok(())));
    assert_eq!(submitted(Offer::Full(1)), Step::Waiting(1));
    assert!(matches!(submitted(Offer::Closed(1)), Step::Done(Err(MemError::Closed))));
    assert_eq!(taken(Look::Item(5)), Step::Done(Ok(5)));
    assert_eq!(taken(Look::<u8>::Empty), Step::Waiting(()));
    assert!(matches!(taken(Look::<u8>::Closed), Step::Done(Err(MemError::Closed))));
}
