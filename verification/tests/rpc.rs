use std::sync::Arc;

use fungi::queues::{look, offer, Look, Offer};
use fungi::rpc::builder::{conclude_build, settle_build, BuildCommand, CapnpBuilder};
use fungi::rpc::channel::{
    settle_recv, settle_send, CapnpChannel, CapnpPeer, CapnpRecvHalf, CapnpSendHalf,
    ChannelCommand, Reception, SendEvent, SendOperation, SendStep,
};
use fungi::rpc::error::{
    rpc_build_error, rpc_recv_error, rpc_send_error, BuildError, RecvError, SendError,
};
use fungi::rpc::server::{
    is_terminal_send, BuildEvent, BuildService, BuildStep, ServeAction, ServeEvent, Serving,
};
use fungi::rpc::wire::{
    build_outcome, build_reply, recv_outcome, recv_reply, send_outcome, send_reply, BuildReply,
    RecvReply, SendReply,
};
use fungi::transport::channel::{Channel, PeerMismatch};
use fungi::transport::error::BoxError;
use fungi::transport::privacy::Unspecified;
use fungi::transport::traits::{PeerChannel, RecvChannel, SendChannel, Step};
use tokio::sync::oneshot;

type Reply = oneshot::Receiver<Result<Vec<u8>, RecvError>>;

#[test]
fn lib_rpc_disconnects_and_protocol_failures_have_distinct_diagnostics() {
    assert!(matches!(
        rpc_send_error(capnp::Error::disconnected("gone".into())),
        SendError::Closed
    ));
    assert!(matches!(
        rpc_recv_error(capnp::Error::disconnected("gone".into())),
        RecvError::Closed
    ));
    let send = rpc_send_error(capnp::Error::failed("bad response".into()));
    let recv = rpc_recv_error(capnp::Error::failed("bad response".into()));
    for (text, source) in [
        (send.to_string(), send.source()),
        (recv.to_string(), recv.source()),
    ] {
        assert!(text.contains("bad response"));
        assert!(source.is_some());
    }
}

#[test]
fn an_rpc_failure_keeps_its_error() {
    let failure = rpc_send_error(capnp::Error::unimplemented("no such call".into()));
    let cause = failure.source().unwrap().cause().unwrap();
    let error = cause.get_ref().unwrap().downcast_ref::<capnp::Error>().unwrap();
    assert_eq!(error.kind, capnp::ErrorKind::Unimplemented);
    assert_eq!(failure.source().unwrap().to_string(), error.to_string());

    let overloaded = || capnp::Error::overloaded("later".into());
    assert!(matches!(SendError::from_reading(true, overloaded()), SendError::Closed));
    assert!(matches!(RecvError::from_reading(true, overloaded()), RecvError::Closed));
    assert!(matches!(
        BuildError::from_reading(true, overloaded()),
        BuildError::Unreachable
    ));
    for kept in [
        SendError::from_reading(false, overloaded()).source().unwrap().to_string(),
        RecvError::from_reading(false, overloaded()).source().unwrap().to_string(),
        BuildError::from_reading(false, overloaded()).source().unwrap().to_string(),
    ] {
        assert_eq!(kept, overloaded().to_string());
    }
}

#[test]
fn tests_rpc_disconnects_and_protocol_failures_have_distinct_diagnostics() {
    assert!(matches!(
        rpc_send_error(capnp::Error::disconnected("gone".into())),
        SendError::Closed
    ));
    assert!(matches!(
        rpc_recv_error(capnp::Error::disconnected("gone".into())),
        RecvError::Closed
    ));
    assert!(matches!(
        rpc_build_error(capnp::Error::disconnected("gone".into())),
        BuildError::Unreachable
    ));
    let send = rpc_send_error(capnp::Error::failed("bad response".into()));
    let recv = rpc_recv_error(capnp::Error::failed("bad response".into()));
    let build = rpc_build_error(capnp::Error::failed("bad response".into()));
    for (text, source) in [
        (send.to_string(), send.source()),
        (recv.to_string(), recv.source()),
        (build.to_string(), build.source()),
    ] {
        assert!(text.contains("bad response"));
        assert!(source.is_some());
    }
}

#[test]
fn bridge_errors_display_actionable_messages() {
    assert_eq!(
        SendError::TooLarge { max: 64 }.to_string(),
        "message exceeds 64 bytes"
    );
    assert_eq!(
        RecvError::TooLarge { max: 64 }.to_string(),
        "received message exceeds 64 bytes"
    );
    assert_eq!(SendError::Closed.to_string(), "RPC channel closed");
    assert_eq!(RecvError::Closed.to_string(), "RPC channel closed");
    assert_eq!(BuildError::Unreachable.to_string(), "peer unreachable");
    assert_eq!(
        SendError::Transport(BoxError::new("lost")).to_string(),
        "transport: lost"
    );
    assert_eq!(
        RecvError::Transport(BoxError::new("lost")).to_string(),
        "transport: lost"
    );
    assert_eq!(
        BuildError::Transport(BoxError::new("lost")).to_string(),
        "transport: lost"
    );
    assert!(SendError::TooLarge { max: 1 }.source().is_none());
    assert!(SendError::Closed.source().is_none());
    assert!(RecvError::TooLarge { max: 1 }.source().is_none());
    assert!(RecvError::Closed.source().is_none());
    assert!(BuildError::Unreachable.source().is_none());
}

#[test]
fn a_send_crosses_the_link_with_its_category() {
    let cross = |outcome| send_outcome(Ok(send_reply(outcome)));
    assert!(cross(Ok(())).is_ok());
    assert!(matches!(
        cross(Err(SendError::TooLarge { max: 9 })),
        Err(SendError::TooLarge { max: 9 })
    ));
    assert!(matches!(
        cross(Err(SendError::Closed)),
        Err(SendError::Closed)
    ));
    let failed = cross(Err(SendError::Transport(BoxError::new("boom")))).unwrap_err();
    assert_eq!(failed.source().unwrap().to_string(), "transport: boom");

    assert!(matches!(
        send_outcome(Ok(SendReply::TooLarge(u64::MAX))),
        Err(SendError::TooLarge { max: usize::MAX })
    ));
    assert!(matches!(
        send_outcome(Err(capnp::Error::disconnected("gone".into()))),
        Err(SendError::Closed)
    ));
    assert!(matches!(
        send_outcome(Err(capnp::Error::failed("bad".into()))),
        Err(SendError::Transport(_))
    ));
}

#[test]
fn a_receive_crosses_the_link_with_its_category() {
    let cross = |outcome, max| recv_outcome(Ok(recv_reply(&outcome)), max);
    assert_eq!(cross(Ok(vec![1, 2, 3]), 3).unwrap(), [1, 2, 3]);
    assert_eq!(cross(Ok(vec![]), 0).unwrap(), []);
    assert!(matches!(
        cross(Ok(vec![1, 2, 3]), 2),
        Err(RecvError::TooLarge { max: 2 })
    ));
    assert!(matches!(
        cross(Err(RecvError::Closed), 9),
        Err(RecvError::Closed)
    ));
    let failed = cross(Err(RecvError::Transport(BoxError::new("boom"))), 9).unwrap_err();
    assert_eq!(failed.source().unwrap().to_string(), "transport: boom");
    // A limit of the backend is a failure of the backend, not of the local limit.
    let limited = cross(Err(RecvError::TooLarge { max: 4 }), 9).unwrap_err();
    assert_eq!(
        limited.source().unwrap().to_string(),
        "received message exceeds 4 bytes"
    );
    assert!(matches!(
        recv_outcome(Err(capnp::Error::disconnected("gone".into())), 9),
        Err(RecvError::Closed)
    ));
    assert!(matches!(
        recv_outcome(Ok(RecvReply::Message(&[0; 10])), 9),
        Err(RecvError::TooLarge { max: 9 })
    ));
}

#[test]
fn a_build_crosses_the_link_with_its_category() {
    let cross = |outcome| build_outcome(Ok(build_reply(outcome)), Some("link"));
    assert_eq!(cross(Ok(7)).unwrap(), (7, "link"));
    assert!(matches!(
        cross(Err(BuildError::Unreachable)),
        Err(BuildError::Unreachable)
    ));
    let failed = cross(Err(BuildError::Transport(BoxError::new("boom")))).unwrap_err();
    assert_eq!(failed.source().unwrap().to_string(), "transport: boom");
    assert!(matches!(
        build_outcome(Ok(BuildReply::Built(7)), None::<&str>),
        Err(BuildError::Unreachable)
    ));
    assert!(matches!(
        build_outcome::<u8, &str>(Err(capnp::Error::disconnected("gone".into())), Some("link")),
        Err(BuildError::Unreachable)
    ));
}

fn is_rejected((operation, step): (SendOperation, SendStep)) -> bool {
    matches!(operation, SendOperation::Over)
        && matches!(
            step,
            SendStep::Finish(Err(SendError::TooLarge { max: 4 }))
        )
}

#[test]
fn an_oversized_payload_is_rejected_before_it_is_submitted() {
    assert!(is_rejected(SendOperation::begin(vec![0; 5], 4)));
    assert!(matches!(
        SendOperation::begin(vec![0; 4], 4),
        (SendOperation::Waiting(message), SendStep::TakeSlot) if message == [0; 4]
    ));
    let (channel, _ends) = CapnpChannel::<Reply>::connect(4);
    assert!(is_rejected(channel.begin_send(vec![0; 5])));
    let (sender, _) = channel.into_channel().into_parts();
    assert!(is_rejected(sender.begin_send(vec![0; 5])));
    assert!(matches!(
        sender.begin_send(vec![]).1,
        SendStep::TakeSlot
    ));
}

#[test]
fn a_send_takes_the_slot_along_to_the_driver() {
    let (channel, mut ends) = CapnpChannel::<Reply>::connect(4);
    let (operation, step) = channel.begin_send(vec![1, 2]);
    assert!(matches!(step, SendStep::TakeSlot));
    let slot = channel.send_slot().try_acquire_owned().unwrap();
    assert!(channel.send_slot().try_acquire_owned().is_err());
    let (reply, mut result) = oneshot::channel();
    let (operation, step) = operation.proceed(SendEvent::Slot(reply, slot));
    let command = match step {
        SendStep::Submit(command) => command,
        step => panic!("unexpected step: {step:?}"),
    };
    let taken = matches!(offer(channel.commands(), command), Offer::Taken);
    let (operation, step) = operation.proceed(SendEvent::Submitted(taken));
    assert!(matches!(step, SendStep::AwaitReply));
    match look(&mut ends.commands) {
        Look::Item(ChannelCommand::Send(message, reply, slot)) => {
            assert_eq!(message, [1, 2]);
            reply.send(send_outcome(Ok(SendReply::Accepted))).unwrap();
            drop(slot);
        }
        other => panic!("unexpected command: {other:?}"),
    }
    let (operation, step) = operation.proceed(SendEvent::Replied(result.try_recv().ok()));
    assert!(matches!(step, SendStep::Finish(Ok(()))));
    assert!(matches!(operation, SendOperation::Over));
    assert!(channel.send_slot().try_acquire_owned().is_ok());
}

#[test]
fn a_send_that_nobody_takes_or_answers_finds_the_channel_closed() {
    let closed = |step| matches!(step, SendStep::Finish(Err(SendError::Closed)));
    assert!(closed(
        SendOperation::Submitting
            .proceed(SendEvent::Submitted(false))
            .1
    ));
    assert!(closed(
        SendOperation::Awaiting.proceed(SendEvent::Replied(None)).1
    ));
    assert!(matches!(
        SendOperation::Awaiting
            .proceed(SendEvent::Replied(Some(Err(SendError::TooLarge { max: 3 }))))
            .1,
        SendStep::Finish(Err(SendError::TooLarge { max: 3 }))
    ));
}

#[test]
fn a_reply_that_never_comes_means_closed() {
    assert!(matches!(settle_send(None), Err(SendError::Closed)));
    assert!(matches!(settle_recv(None), Err(RecvError::Closed)));
    assert!(matches!(
        settle_build::<Reply>(None),
        Err(BuildError::Unreachable)
    ));
    assert_eq!(settle_recv(Some(Ok(vec![5]))).unwrap(), [5]);
    assert!(matches!(
        settle_build::<Reply>(Some(Err(BuildError::Transport(BoxError::new("no"))))),
        Err(BuildError::Transport(_))
    ));
}

#[test]
fn an_abandoned_receive_keeps_its_request_and_limit() {
    let (mut channel, mut ends) = CapnpChannel::<Reply>::connect(16);
    channel.set_max_recv_message_len(3);
    let (reply, pending) = oneshot::channel();
    let request = {
        let reception = channel.reception_mut();
        assert!(reception.needs_request());
        reception.request(reply)
    };
    assert!(matches!(offer(channel.commands(), request), Offer::Taken));
    channel.reception_mut().retain(pending);
    channel.set_max_recv_message_len(100);

    // Another receive waits for the same reply, also once the directions are separated.
    let (sender, mut receiver) = channel.into_channel().into_parts();
    assert!(sender.peer() == receiver.peer());
    assert!(!receiver.reception_mut().needs_request());
    match look(&mut ends.commands) {
        Look::Item(ChannelCommand::Recv(reply, max)) => {
            assert_eq!(max, 3);
            reply
                .send(recv_outcome(Ok(RecvReply::Message(&[1, 2, 3])), max))
                .unwrap();
        }
        other => panic!("unexpected command: {other:?}"),
    }
    let answer = receiver.reception_mut().awaited().try_recv().ok();
    assert_eq!(receiver.reception_mut().settle(answer).unwrap(), [1, 2, 3]);

    // The limit set in between holds for the next request.
    assert!(receiver.reception_mut().needs_request());
    let (reply, _pending) = oneshot::channel();
    assert!(matches!(
        receiver.reception_mut().request(reply),
        ChannelCommand::Recv(_, 100)
    ));
}

#[test]
fn a_reception_starts_idle_under_its_limit() {
    let mut reception = Reception::<u8>::new(2);
    assert!(reception.needs_request());
    reception.retain(9);
    assert!(!reception.needs_request());
    assert_eq!(*reception.awaited(), 9);
    assert!(matches!(reception.settle(None), Err(RecvError::Closed)));
    assert!(reception.needs_request());
    reception.set_limit(5);
    let (reply, _result) = oneshot::channel();
    assert!(matches!(
        reception.request(reply),
        ChannelCommand::Recv(_, 5)
    ));
}

/// A sending direction with nobody behind it.
#[derive(Debug)]
struct Outgoing(CapnpSendHalf);

impl PeerChannel for Outgoing {
    type Peer = CapnpPeer;

    fn peer(&self) -> &CapnpPeer {
        self.0.peer()
    }
}

impl SendChannel for Outgoing {
    type Privacy = Unspecified;
    type SendError = SendError;
    type Sending = ();

    fn send(&mut self, _message: Vec<u8>) -> Step<(), Result<(), SendError>> {
        Step::Done(settle_send(None))
    }

    fn resume_send(&mut self, _sending: ()) -> Step<(), Result<(), SendError>> {
        Step::Done(settle_send(None))
    }
}

/// A receiving direction with nobody behind it.
#[derive(Debug)]
struct Incoming(CapnpRecvHalf<Reply>);

impl PeerChannel for Incoming {
    type Peer = CapnpPeer;

    fn peer(&self) -> &CapnpPeer {
        self.0.peer()
    }
}

impl RecvChannel for Incoming {
    type RecvError = RecvError;

    fn recv(&mut self) -> Step<(), Result<Vec<u8>, RecvError>> {
        Step::Done(settle_recv(None))
    }
}

#[test]
fn separate_channels_have_separate_peers() {
    let (first, _first_ends) = CapnpChannel::<Reply>::connect(1);
    let (second, _second_ends) = CapnpChannel::<Reply>::connect(1);
    let (first_sender, first_receiver) = first.into_channel().into_parts();
    let (second_sender, second_receiver) = second.into_channel().into_parts();
    assert!(first_sender.peer() == first_receiver.peer());
    assert!(second_sender.peer() == second_receiver.peer());
    assert!(first_sender.peer() != second_receiver.peer());
    assert_eq!(
        Channel::new(Outgoing(first_sender), Incoming(second_receiver)).unwrap_err(),
        PeerMismatch,
    );
    assert_eq!(
        Channel::new(Outgoing(second_sender), Incoming(first_receiver)).unwrap_err(),
        PeerMismatch,
    );
}

#[test]
fn the_directions_of_a_channel_pair_again() {
    let (channel, _ends) = CapnpChannel::<Reply>::connect(1);
    let (sender, receiver) = channel.into_channel().into_parts();
    let pair = Channel::new(Outgoing(sender), Incoming(receiver)).unwrap();
    let (sender, receiver) = pair.into_split();
    assert!(Channel::new(sender, receiver).is_ok());
}

#[test]
fn built_channels_inherit_the_limits_of_their_builder() {
    let (mut builder, mut ends) = CapnpBuilder::<Reply>::connect(4);
    builder.set_max_recv_message_len(7);
    let (reply, mut result) = oneshot::channel();
    let command = builder.request(&vec![1, 2], reply);
    builder.set_max_recv_message_len(9);
    assert!(matches!(offer(builder.commands(), command), Offer::Taken));
    let command = match look(&mut ends.commands) {
        Look::Item(command) => command.take_up(false).unwrap(),
        other => panic!("unexpected request: {other:?}"),
    };
    assert_eq!(command.input, [1, 2]);
    let built = conclude_build(
        Ok(BuildReply::Built("remote")),
        Some(Arc::clone(builder.link())),
        command.max_recv_message_len,
    )
    .unwrap();
    assert_eq!(built.remote, "remote");
    command.reply.send(Ok(built.channel)).unwrap();
    let duplex = settle_build(result.try_recv().ok()).unwrap();
    let (sender, mut receiver) = duplex.into_parts();
    assert!(is_rejected(sender.begin_send(vec![0; 5])));
    let (reply, _pending) = oneshot::channel();
    assert!(matches!(
        receiver.reception_mut().request(reply),
        ChannelCommand::Recv(_, 7)
    ));
}

#[test]
fn an_abandoned_build_request_is_discarded() {
    let (builder, _ends) = CapnpBuilder::<Reply>::connect(4);
    let acceptor = builder.into_acceptor();
    let (reply, result) = oneshot::channel();
    let command: BuildCommand<Reply> = acceptor.request(reply);
    assert!(command.input.is_empty());
    assert_eq!(command.max_recv_message_len, usize::MAX);
    drop(result);
    let abandoned = command.reply.is_closed();
    assert!(command.take_up(abandoned).is_none());
    assert!(matches!(
        conclude_build::<u8, Reply>(Ok(BuildReply::Built(1)), None, 1),
        Err(BuildError::Unreachable)
    ));
}

#[test]
fn a_served_channel_survives_only_a_rejected_length() {
    assert!(!is_terminal_send(&Ok(())));
    assert!(!is_terminal_send(&Err(SendError::TooLarge { max: 1 })));
    assert!(is_terminal_send(&Err(SendError::Closed)));
    assert!(is_terminal_send(&Err(SendError::Transport(BoxError::new("x")))));

    let mut serving = Serving::start();
    assert!(matches!(
        serving.step(ServeEvent::Requested(Some(vec![1]))),
        ServeAction::Submit(message) if message == [1]
    ));
    assert!(matches!(
        serving.step(ServeEvent::Sent(Err(SendError::TooLarge { max: 3 }))),
        ServeAction::Answer(Err(SendError::TooLarge { max: 3 }))
    ));
    assert!(serving.is_open());
    assert!(matches!(
        serving.step(ServeEvent::Received(Ok(vec![2]))),
        ServeAction::Deliver(Ok(message)) if message == [2]
    ));
    assert!(matches!(
        serving.step(ServeEvent::Delivered(true)),
        ServeAction::Receive
    ));
    serving.step(ServeEvent::Requested(Some(vec![1])));
    assert!(matches!(
        serving.step(ServeEvent::Sent(Err(SendError::Closed))),
        ServeAction::Answer(Err(SendError::Closed))
    ));
    assert!(!serving.is_open());
}

#[test]
fn a_failed_receive_is_handed_over_before_the_service_ends() {
    let mut serving = Serving::start();
    assert!(matches!(
        serving.step(ServeEvent::Received(Err(RecvError::Closed))),
        ServeAction::Deliver(Err(RecvError::Closed))
    ));
    assert!(serving.is_open());
    assert!(matches!(
        serving.step(ServeEvent::Delivered(true)),
        ServeAction::Stop
    ));
    assert!(!serving.is_open());
}

#[test]
fn a_service_ends_once_nobody_uses_it() {
    let mut unsent = Serving::start();
    assert!(matches!(
        unsent.step(ServeEvent::Requested(None)),
        ServeAction::Stop
    ));
    assert!(!unsent.is_open());
    let mut undelivered = Serving::start();
    undelivered.step(ServeEvent::Received(Ok(vec![])));
    assert!(matches!(
        undelivered.step(ServeEvent::Delivered(false)),
        ServeAction::Stop
    ));
    assert!(!undelivered.is_open());
    let mut abandoned = Serving::start();
    assert!(matches!(
        abandoned.step(ServeEvent::Abandoned),
        ServeAction::Stop
    ));
    assert!(!abandoned.is_open());
}

#[test]
fn a_token_is_decoded_before_the_backend_is_used() {
    let decode = |token: Vec<u8>| match token.as_slice() {
        [only] => Ok(*only),
        _ => Err(BuildError::Transport(BoxError::new("bad token"))),
    };
    let mut built: Vec<u8> = Vec::new();
    let mut serve = |token: Vec<u8>, failure: Option<BuildError>| {
        let decoded = BuildEvent::<u8, u8>::Decoded(decode(token));
        let (service, step) = BuildService::start().proceed(decoded);
        let input = match step {
            BuildStep::Answer(reply) => return reply,
            BuildStep::Build(input) => input,
        };
        built.push(input);
        let came = failure.map_or(Ok(input), Err);
        match service.proceed(BuildEvent::<u8, u8>::Built(came)).1 {
            BuildStep::Answer(reply) => reply,
            BuildStep::Build(_) => panic!("the backend was asked already"),
        }
    };
    assert!(matches!(
        serve(vec![], None),
        BuildReply::Failed(text) if text == "transport: bad token"
    ));
    assert!(matches!(serve(vec![4], None), BuildReply::Built(4)));
    let refused = BuildError::Transport(BoxError::new("refused"));
    assert!(matches!(
        serve(vec![5], Some(refused)),
        BuildReply::Failed(text) if text == "transport: refused"
    ));
    assert!(matches!(
        serve(vec![6], Some(BuildError::Unreachable)),
        BuildReply::Unreachable
    ));
    assert_eq!(built, [4, 5, 6]);
}

#[test]
fn the_service_of_a_build_request_turns_to_the_backend_for_decoded_tokens_only() {
    assert_eq!(BuildService::start(), BuildService::Decoding);
    let refused = BuildEvent::<u8, u8>::Decoded(Err(BuildError::Unreachable));
    let (service, step) = BuildService::start().proceed(refused);
    assert_eq!(service, BuildService::Answered);
    assert!(matches!(step, BuildStep::Answer(BuildReply::Unreachable)));

    let (service, step) = BuildService::start().proceed(BuildEvent::<u8, u8>::Decoded(Ok(4)));
    assert_eq!(service, BuildService::Building);
    assert!(matches!(step, BuildStep::Build(4)));
    let (last, step) = service.proceed(BuildEvent::<u8, u8>::Built(Ok(9)));
    assert_eq!(last, BuildService::Answered);
    assert!(matches!(step, BuildStep::Answer(BuildReply::Built(9))));
    let failure = BuildError::Transport(BoxError::new("refused"));
    let (last, step) = service.proceed(BuildEvent::<u8, u8>::Built(Err(failure)));
    assert_eq!(last, BuildService::Answered);
    assert!(matches!(
        step,
        BuildStep::Answer(BuildReply::Failed(text)) if text == "transport: refused"
    ));
}
