//! What holds of the adapters taken together.

use crate::transport::channel::{Channel, PeerMismatch, RecvView, SendView};
use crate::transport::codec::{
    self, Codec, CodecChannel, CodecError, CodecPair, Decode, Encode,
};
use crate::transport::duplex::Duplex;
use crate::transport::shared::{SharedChannel, SharedRecvHalf, SharedSendHalf};
use crate::transport::traits::{self, PeerChannel, RecvChannel, SendChannel, Step};
use crate::transport::transform::{Contramap, MapRecv};
use vstd::prelude::*;
use vstd::std_specs::cmp::PartialEqSpec;

verus! {

/// The directions of a duplex are independent: a send leaves the receiving capability as
/// it was, and is what the sending capability alone would have done.
pub proof fn duplex_sending_leaves_reception_alone<M, S: SendChannel<M>, R: RecvChannel<M>>(
    pre: Duplex<S, R>,
    message: M,
    sending: S::Sending,
    post: Duplex<S, R>,
    step: Step<S::Sending, Result<(), S::SendError>>,
)
    requires
        SendChannel::sends(pre, message, post, step) || SendChannel::<M>::sends_on(
            pre,
            sending,
            post,
            step,
        ),
    ensures
        post.receiving() == pre.receiving(),
        S::sends(pre.sending(), message, post.sending(), step) || S::sends_on(
            pre.sending(),
            sending,
            post.sending(),
            step,
        ),
        post.receiving().receivable() == pre.receiving().receivable(),
{
}

/// The directions of a duplex are independent: a receive leaves the sending capability as
/// it was, and is what the receiving capability alone would have done.
pub proof fn duplex_receiving_leaves_sending_alone<M, S: SendChannel<M>, R: RecvChannel<M>>(
    pre: Duplex<S, R>,
    post: Duplex<S, R>,
    step: Step<(), Result<M, R::RecvError>>,
)
    requires
        RecvChannel::receives(pre, post, step),
    ensures
        post.sending() == pre.sending(),
        R::receives(pre.receiving(), post.receiving(), step),
{
}

/// Directions taken from a paired channel pair again, into a channel of the same
/// directions.
pub proof fn split_directions_pair_again<S: PeerChannel, R: PeerChannel<Peer = S::Peer>>(
    sender: S,
    receiver: R,
    first: Result<Channel<S, R>, PeerMismatch>,
    directions: (S, R),
    again: Result<Channel<S, R>, PeerMismatch>,
)
    requires
        S::Peer::obeys_eq_spec(),
        Channel::pairs(sender, receiver, first),
        first matches Ok(channel) && directions == (channel.sending(), channel.receiving()),
        Channel::pairs(directions.0, directions.1, again),
    ensures
        again matches Ok(channel) && {
            &&& channel.sending() == sender
            &&& channel.receiving() == receiver
        },
{
}

/// A conversion failure leaves the transport untouched.
pub proof fn a_failed_conversion_leaves_the_transport_untouched<
    M: Send,
    W: Send,
    C: SendChannel<W>,
    K: Encode<M, W>,
>(
    pre: CodecChannel<C, K, W>,
    message: M,
    post: CodecChannel<C, K, W>,
    error: K::EncodeError,
)
    requires
        SendChannel::sends(pre, message, post, Step::Done(Err(CodecError::Codec(error)))),
    ensures
        post.carrier() == pre.carrier(),
        post.conversion() == pre.conversion(),
        pre.conversion().encodes(message, Err(error)),
{
}

/// The conversion gives back every message that it converts.
pub open spec fn is_faithful<M, W, K: Codec<M, W>>(codec: K) -> bool {
    forall|message: M, wire: W, decoded: Result<M, K::DecodeError>|
        #![trigger codec.encodes(message, Ok(wire)), codec.decodes(wire, decoded)]
        codec.encodes(message, Ok(wire)) && codec.decodes(wire, decoded) ==> decoded == Ok::<
            M,
            K::DecodeError,
        >(message)
}

/// A faithful conversion delivers what was sent: a message converted at one end, carried
/// unchanged and converted back at the other is received as it was.
pub proof fn a_faithful_conversion_delivers_what_was_sent<M, W, C, D, K: Codec<M, W>, T>(
    codec: K,
    message: M,
    wire: W,
    received: Result<M, CodecError<T, K::DecodeError>>,
)
    requires
        is_faithful::<M, W, K>(codec),
        CodecChannel::<C, K, W>::converts_outgoing::<M, T>(codec, message, Ok(wire)),
        CodecChannel::<D, K, W>::converts_incoming::<M, T>(codec, Ok(wire), received),
    ensures
        received == Ok::<M, CodecError<T, K::DecodeError>>(message),
{
    match received {
        Ok(decoded) => {
            assert(codec.decodes(wire, Ok(decoded)));
        },
        Err(CodecError::Codec(error)) => {
            assert(codec.decodes(wire, Err(error)));
        },
        Err(CodecError::Transport(_)) => {},
    }
}

/// What the carriers do while a conversion has to wait.
pub open spec fn carriers<C, K, W, P>(waits: Seq<(CodecChannel<C, K, W>, P)>) -> Seq<(C, P)> {
    Seq::new(waits.len(), |i: int| (waits[i].0.carrier(), waits[i].1))
}

/// The sender goes from `pre` to `post` by submitting `message` as `wire`, having to wait as
/// `waits` says.
pub open spec fn submits_as<M, W, C: SendChannel<W>, K: Codec<M, W>>(
    pre: CodecChannel<C, K, W>,
    message: M,
    wire: W,
    waits: Seq<(C, C::Sending)>,
    post: CodecChannel<C, K, W>,
) -> bool {
    &&& pre.conversion().encodes(message, Ok(wire))
    &&& traits::carries_through(pre.carrier(), wire, waits, post.carrier(), Ok(()))
    &&& post.conversion() == pre.conversion()
}

/// The receiver goes from `pre` to `post` by making `result` of the `wire` that came, having
/// to wait as `waits` says.
pub open spec fn takes_as<M, W, D: RecvChannel<W>, K: Codec<M, W>>(
    pre: CodecChannel<D, K, W>,
    wire: W,
    waits: Seq<D>,
    post: CodecChannel<D, K, W>,
    result: Result<M, CodecError<D::RecvError, K::DecodeError>>,
) -> bool {
    &&& traits::takes_through(pre.carrier(), waits, post.carrier(), Ok(wire))
    &&& CodecChannel::<D, K, W>::converts_incoming::<M, D::RecvError>(
        pre.conversion(),
        Ok(wire),
        result,
    )
    &&& post.conversion() == pre.conversion()
}

/// A message is converted once, however often its submission has to wait: what the transport
/// carries through, with the same waits, is one conversion of the message.
pub proof fn a_message_is_converted_once<M: Send, W: Send, C: SendChannel<W>, K: Codec<M, W>>(
    pre: CodecChannel<C, K, W>,
    message: M,
    waits: Seq<(CodecChannel<C, K, W>, C::Sending)>,
    post: CodecChannel<C, K, W>,
)
    requires
        traits::carries_through(pre, message, waits, post, Ok(())),
    ensures
        exists|wire: W| #[trigger] submits_as(pre, message, wire, carriers(waits), post),
{
    let carried = carriers(waits);
    if waits.len() == 0 {
        let (wire, submitted) = choose|
            wire: W,
            submitted: Step<C::Sending, Result<(), C::SendError>>,
        |
            {
                &&& pre.conversion().encodes(message, Ok(wire))
                &&& #[trigger] C::sends(pre.carrier(), wire, post.carrier(), submitted)
                &&& codec::submission_step(
                    Step::Done(Ok::<(), CodecError<C::SendError, K::EncodeError>>(())),
                    submitted,
                )
            };
        assert(submitted matches Step::Done(Ok(sent)) && sent == ());
        assert(submits_as(pre, message, wire, carried, post));
    } else {
        let (wire, submitted) = choose|
            wire: W,
            submitted: Step<C::Sending, Result<(), C::SendError>>,
        |
            {
                &&& pre.conversion().encodes(message, Ok(wire))
                &&& #[trigger] C::sends(pre.carrier(), wire, waits[0].0.carrier(), submitted)
                &&& submitted == Step::<C::Sending, Result<(), C::SendError>>::Waiting(waits[0].1)
            };
        let ended = choose|submitted: Step<C::Sending, Result<(), C::SendError>>|
            {
                &&& #[trigger] C::sends_on(
                    waits.last().0.carrier(),
                    waits.last().1,
                    post.carrier(),
                    submitted,
                )
                &&& codec::submission_step(
                    Step::Done(Ok::<(), CodecError<C::SendError, K::EncodeError>>(())),
                    submitted,
                )
            };
        assert(ended matches Step::Done(Ok(sent)) && sent == ());
        assert forall|i: int| 0 <= i < carried.len() - 1 implies #[trigger] traits::waits_on::<
            W,
            C,
        >(carried, i) by {
            assert(traits::waits_on::<M, CodecChannel<C, K, W>>(waits, i));
        }
        waiting_keeps_the_conversion::<M, W, C, K>(pre, waits, waits.len());
        assert(submits_as(pre, message, wire, carried, post));
    }
}

/// While a converted message has to wait, the conversion stays as it was.
proof fn waiting_keeps_the_conversion<M: Send, W: Send, C: SendChannel<W>, K: Codec<M, W>>(
    pre: CodecChannel<C, K, W>,
    waits: Seq<(CodecChannel<C, K, W>, C::Sending)>,
    n: nat,
)
    requires
        0 < n <= waits.len(),
        waits[0].0.conversion() == pre.conversion(),
        forall|i: int|
            0 <= i < waits.len() - 1 ==> #[trigger] traits::waits_on::<M, CodecChannel<C, K, W>>(
                waits,
                i,
            ),
    ensures
        waits[n - 1].0.conversion() == pre.conversion(),
    decreases n,
{
    if n > 1 {
        waiting_keeps_the_conversion::<M, W, C, K>(pre, waits, (n - 1) as nat);
        assert(traits::waits_on::<M, CodecChannel<C, K, W>>(waits, n - 2));
    }
}

/// What came is converted once, however often it had to be waited for: what is received is
/// one conversion of the message that came out of the transport, or the failure of the
/// transport.
pub proof fn what_came_is_converted_once<M, W, D: RecvChannel<W>, K: Codec<M, W>>(
    pre: CodecChannel<D, K, W>,
    waits: Seq<CodecChannel<D, K, W>>,
    post: CodecChannel<D, K, W>,
    result: Result<M, CodecError<D::RecvError, K::DecodeError>>,
)
    requires
        traits::takes_through(pre, waits, post, result),
    ensures
        ({
            let carried = Seq::new(waits.len(), |i: int| waits[i].carrier());
            ||| exists|wire: W| #[trigger] takes_as(pre, wire, carried, post, result)
            ||| {
                &&& result matches Err(CodecError::Transport(failure))
                &&& traits::takes_through(pre.carrier(), carried, post.carrier(), Err(failure))
                &&& post.conversion() == pre.conversion()
            }
        }),
{
    let carried = Seq::new(waits.len(), |i: int| waits[i].carrier());
    assert forall|i: int| 0 <= i < carried.len() implies #[trigger] traits::finds_none::<W, D>(
        pre.carrier(),
        carried,
        i,
    ) by {
        assert(traits::finds_none::<M, CodecChannel<D, K, W>>(pre, waits, i));
        let asked = if i == 0 {
            pre
        } else {
            waits[i - 1]
        };
        let found = choose|received: Step<(), Result<W, D::RecvError>>|
            {
                &&& #[trigger] D::receives(asked.carrier(), waits[i].carrier(), received)
                &&& CodecChannel::<D, K, W>::reception_step::<M, D::RecvError>(
                    asked.conversion(),
                    received,
                    Step::Waiting(()),
                )
            };
        assert(found matches Step::Waiting(waiting) && waiting == ());
    }
    finding_none_keeps_the_conversion::<M, W, D, K>(pre, waits, waits.len());
    let last = if waits.len() == 0 {
        pre
    } else {
        waits.last()
    };
    let received = choose|received: Step<(), Result<W, D::RecvError>>|
        {
            &&& #[trigger] D::receives(last.carrier(), post.carrier(), received)
            &&& CodecChannel::<D, K, W>::reception_step::<M, D::RecvError>(
                last.conversion(),
                received,
                Step::Done(result),
            )
        };
    match received {
        Step::Done(Ok(wire)) => {
            assert(takes_as(pre, wire, carried, post, result));
        },
        _ => {},
    }
}

/// While nothing has come, the conversion stays as it was.
proof fn finding_none_keeps_the_conversion<M, W, D: RecvChannel<W>, K: Codec<M, W>>(
    pre: CodecChannel<D, K, W>,
    waits: Seq<CodecChannel<D, K, W>>,
    n: nat,
)
    requires
        n <= waits.len(),
        forall|i: int|
            0 <= i < waits.len() ==> #[trigger] traits::finds_none::<M, CodecChannel<D, K, W>>(
                pre,
                waits,
                i,
            ),
    ensures
        n > 0 ==> waits[n - 1].conversion() == pre.conversion(),
    decreases n,
{
    if n > 0 {
        finding_none_keeps_the_conversion::<M, W, D, K>(pre, waits, (n - 1) as nat);
        assert(traits::finds_none::<M, CodecChannel<D, K, W>>(pre, waits, n - 1));
    }
}

/// A faithful conversion delivers every message in order: where the converted messages come
/// out of the transport in the order in which they went in, any number of sends and as many
/// receives or fewer deliver the messages as they were, in the order in which they were sent,
/// whether or not they had to wait.
///
/// `senders` and `receivers` are the ends before the first message and after each one.
pub proof fn a_faithful_conversion_delivers_in_order<
    M: Send,
    W: Send,
    C: SendChannel<W>,
    D: RecvChannel<W>,
    K: Codec<M, W>,
>(
    senders: Seq<CodecChannel<C, K, W>>,
    messages: Seq<M>,
    wires: Seq<W>,
    sending: Seq<Seq<(C, C::Sending)>>,
    receivers: Seq<CodecChannel<D, K, W>>,
    receiving: Seq<Seq<D>>,
    received: Seq<Result<M, CodecError<D::RecvError, K::DecodeError>>>,
)
    requires
        senders.len() == messages.len() + 1,
        wires.len() == messages.len(),
        sending.len() == messages.len(),
        receivers.len() == received.len() + 1,
        receiving.len() == received.len(),
        received.len() <= messages.len(),
        is_faithful::<M, W, K>(senders[0].conversion()),
        receivers[0].conversion() == senders[0].conversion(),
        forall|i: int|
            0 <= i < messages.len() ==> #[trigger] submits_as(
                senders[i],
                messages[i],
                wires[i],
                sending[i],
                senders[i + 1],
            ),
        forall|i: int|
            0 <= i < received.len() ==> #[trigger] takes_as(
                receivers[i],
                wires[i],
                receiving[i],
                receivers[i + 1],
                received[i],
            ),
    ensures
        forall|i: int|
            0 <= i < received.len() ==> #[trigger] received[i] == Ok::<
                M,
                CodecError<D::RecvError, K::DecodeError>,
            >(messages[i]),
{
    assert forall|i: int| 0 <= i < received.len() implies #[trigger] received[i] == Ok::<
        M,
        CodecError<D::RecvError, K::DecodeError>,
    >(messages[i]) by {
        conversions_stay(
            senders,
            messages,
            wires,
            sending,
            receivers,
            receiving,
            received,
            i as nat,
        );
        assert(submits_as(senders[i], messages[i], wires[i], sending[i], senders[i + 1]));
        assert(takes_as(receivers[i], wires[i], receiving[i], receivers[i + 1], received[i]));
        a_faithful_conversion_delivers_what_was_sent::<M, W, C, D, K, D::RecvError>(
            senders[0].conversion(),
            messages[i],
            wires[i],
            received[i],
        );
    }
}

/// Along a run of sends and receives, either end keeps the conversion it began with.
proof fn conversions_stay<M: Send, W: Send, C: SendChannel<W>, D: RecvChannel<W>, K: Codec<M, W>>(
    senders: Seq<CodecChannel<C, K, W>>,
    messages: Seq<M>,
    wires: Seq<W>,
    sending: Seq<Seq<(C, C::Sending)>>,
    receivers: Seq<CodecChannel<D, K, W>>,
    receiving: Seq<Seq<D>>,
    received: Seq<Result<M, CodecError<D::RecvError, K::DecodeError>>>,
    n: nat,
)
    requires
        n <= received.len() <= messages.len(),
        forall|i: int|
            0 <= i < messages.len() ==> #[trigger] submits_as(
                senders[i],
                messages[i],
                wires[i],
                sending[i],
                senders[i + 1],
            ),
        forall|i: int|
            0 <= i < received.len() ==> #[trigger] takes_as(
                receivers[i],
                wires[i],
                receiving[i],
                receivers[i + 1],
                received[i],
            ),
    ensures
        senders[n as int].conversion() == senders[0].conversion(),
        receivers[n as int].conversion() == receivers[0].conversion(),
    decreases n,
{
    if n > 0 {
        let last: int = n - 1;
        conversions_stay(
            senders,
            messages,
            wires,
            sending,
            receivers,
            receiving,
            received,
            (n - 1) as nat,
        );
        assert(submits_as(
            senders[last],
            messages[last],
            wires[last],
            sending[last],
            senders[last + 1],
        ));
        assert(takes_as(
            receivers[last],
            wires[last],
            receiving[last],
            receivers[last + 1],
            received[last],
        ));
    }
}

/// Outgoing transformations compose: a message sent through two of them is submitted as
/// what the inner one makes of what the outer one makes of it.
pub proof fn outgoing_transformations_compose<
    A: Send,
    B: Send,
    W,
    C: SendChannel<W>,
    F: FnMut(B) -> W + Send,
    G: FnMut(A) -> B + Send,
>(
    pre: Contramap<Contramap<C, F, W>, G, B>,
    message: A,
    post: Contramap<Contramap<C, F, W>, G, B>,
    step: Step<C::Sending, Result<(), C::SendError>>,
)
    requires
        SendChannel::sends(pre, message, post, step),
    ensures
        exists|between: B, prepared: W|
            {
                &&& #[trigger] call_ensures(pre.conversion(), (message,), between)
                &&& #[trigger] call_ensures(pre.target().conversion(), (between,), prepared)
                &&& C::sends(pre.target().target(), prepared, post.target().target(), step)
            },
{
    let between = choose|between: B|
        {
            &&& #[trigger] call_ensures(pre.conversion(), (message,), between)
            &&& Contramap::<C, F, W>::sends(pre.target(), between, post.target(), step)
        };
    let prepared = choose|prepared: W|
        {
            &&& #[trigger] call_ensures(pre.target().conversion(), (between,), prepared)
            &&& C::sends(pre.target().target(), prepared, post.target().target(), step)
        };
    assert(call_ensures(pre.conversion(), (message,), between));
    assert(call_ensures(pre.target().conversion(), (between,), prepared));
}

/// An incoming transformation passes failures of the transport on as they are, and does
/// not change on one.
pub proof fn incoming_transformations_preserve_failures<
    T,
    W,
    C: RecvChannel<W>,
    F: FnMut(W) -> T + Send,
>(pre: MapRecv<C, F, W>, post: MapRecv<C, F, W>, error: C::RecvError)
    requires
        RecvChannel::<T>::receives(pre, post, Step::Done(Err(error))),
    ensures
        C::receives(pre.source(), post.source(), Step::Done(Err(error))),
        post.conversion() == pre.conversion(),
{
}

/// The directions of a shared channel are that channel: what they send and receive is just
/// what it sends and receives through shared access, either direction goes on sharing it, and
/// both name its peer.
pub proof fn shared_directions_are_their_backend<I, O, C: SharedChannel<I, O> + PeerChannel>(
    backend: C,
    sender: SharedSendHalf<C, I, O>,
    receiver: SharedRecvHalf<C, I, O>,
    message: O,
    sending: C::Sending,
    after_send: SharedSendHalf<C, I, O>,
    sent: Step<C::Sending, Result<(), C::SendError>>,
    after_recv: SharedRecvHalf<C, I, O>,
    received: Step<(), Result<I, C::RecvError>>,
)
    requires
        sender.backend() == backend,
        receiver.backend() == backend,
    ensures
        sender.sendable(message) == backend.sendable_shared(message),
        receiver.receivable() == backend.receivable_shared(),
        SendChannel::sends(sender, message, after_send, sent) <==> backend.sends_shared(
            message,
            sent,
        ) && after_send == sender,
        SendChannel::<O>::sends_on(sender, sending, after_send, sent)
            <==> backend.sends_on_shared(sending, sent) && after_send == sender,
        RecvChannel::receives(receiver, after_recv, received) <==> backend.receives_shared(
            received,
        ) && after_recv == receiver,
        sender.endpoint() == backend.endpoint(),
        receiver.endpoint() == backend.endpoint(),
{
}

/// The halves of a shared channel go on sharing it, whatever either does.
pub proof fn shared_halves_stay_together<I, O, C: SharedChannel<I, O> + PeerChannel>(
    sender: SharedSendHalf<C, I, O>,
    receiver: SharedRecvHalf<C, I, O>,
    message: O,
    after_send: SharedSendHalf<C, I, O>,
    sent: Step<C::Sending, Result<(), C::SendError>>,
    after_recv: SharedRecvHalf<C, I, O>,
    received: Step<(), Result<I, C::RecvError>>,
)
    requires
        sender.backend() == receiver.backend(),
        SendChannel::sends(sender, message, after_send, sent),
        RecvChannel::receives(receiver, after_recv, received),
    ensures
        after_send.backend() == after_recv.backend(),
        after_send.endpoint() == after_recv.endpoint(),
        sender.backend().sends_shared(message, sent),
        receiver.backend().receives_shared(received),
{
}

/// A duplex sends just what its sending capability sends and receives just what its receiving
/// one receives, and what one direction does leaves the other as it was.
pub proof fn a_duplex_is_its_capabilities<M, S: SendChannel<M>, R: RecvChannel<M>>(
    pre: Duplex<S, R>,
    message: M,
    sending: S::Sending,
    post: Duplex<S, R>,
    sent: Step<S::Sending, Result<(), S::SendError>>,
    received: Step<(), Result<M, R::RecvError>>,
)
    ensures
        SendChannel::sendable(&pre, message) == pre.sending().sendable(message),
        RecvChannel::<M>::receivable(&pre) == pre.receiving().receivable(),
        SendChannel::sends(pre, message, post, sent) <==> S::sends(
            pre.sending(),
            message,
            post.sending(),
            sent,
        ) && post.receiving() == pre.receiving(),
        SendChannel::<M>::sends_on(pre, sending, post, sent) <==> S::sends_on(
            pre.sending(),
            sending,
            post.sending(),
            sent,
        ) && post.receiving() == pre.receiving(),
        RecvChannel::receives(pre, post, received) <==> R::receives(
            pre.receiving(),
            post.receiving(),
            received,
        ) && post.sending() == pre.sending(),
{
}

/// A paired channel sends just what its sending direction sends and receives just what its
/// receiving one receives, what one direction does leaves the other as it was, and the peer is
/// that of the sending direction.
pub proof fn a_paired_channel_is_its_directions<
    M,
    S: SendChannel<M> + PeerChannel,
    R: RecvChannel<M>,
>(
    pre: Channel<S, R>,
    message: M,
    sending: S::Sending,
    post: Channel<S, R>,
    sent: Step<S::Sending, Result<(), S::SendError>>,
    received: Step<(), Result<M, R::RecvError>>,
)
    ensures
        SendChannel::sendable(&pre, message) == pre.sending().sendable(message),
        RecvChannel::<M>::receivable(&pre) == pre.receiving().receivable(),
        pre.endpoint() == pre.sending().endpoint(),
        SendChannel::sends(pre, message, post, sent) <==> S::sends(
            pre.sending(),
            message,
            post.sending(),
            sent,
        ) && post.receiving() == pre.receiving(),
        SendChannel::<M>::sends_on(pre, sending, post, sent) <==> S::sends_on(
            pre.sending(),
            sending,
            post.sending(),
            sent,
        ) && post.receiving() == pre.receiving(),
        RecvChannel::receives(pre, post, received) <==> R::receives(
            pre.receiving(),
            post.receiving(),
            received,
        ) && post.sending() == pre.sending(),
{
}

/// A view sends and receives just what the capability in view does.
pub proof fn a_view_is_what_it_views<M, S: SendChannel<M>, R: RecvChannel<M>>(
    sender: SendView<'_, S>,
    message: M,
    sending: S::Sending,
    after_send: SendView<'_, S>,
    sent: Step<S::Sending, Result<(), S::SendError>>,
    receiver: RecvView<'_, R>,
    after_recv: RecvView<'_, R>,
    received: Step<(), Result<M, R::RecvError>>,
)
    ensures
        SendChannel::sendable(&sender, message) == (*sender.viewed()).sendable(message),
        RecvChannel::<M>::receivable(&receiver) == (*receiver.viewed()).receivable(),
        SendChannel::sends(sender, message, after_send, sent) <==> S::sends(
            *sender.viewed(),
            message,
            *after_send.viewed(),
            sent,
        ),
        SendChannel::<M>::sends_on(sender, sending, after_send, sent) <==> S::sends_on(
            *sender.viewed(),
            sending,
            *after_send.viewed(),
            sent,
        ),
        RecvChannel::receives(receiver, after_recv, received) <==> R::receives(
            *receiver.viewed(),
            *after_recv.viewed(),
            received,
        ),
{
}

/// Capabilities pair exactly if the peers that they name are equal, and a pair holds just the
/// capabilities it was made of.
pub proof fn capabilities_pair_exactly_towards_equal_peers<
    S: PeerChannel,
    R: PeerChannel<Peer = S::Peer>,
>(sender: S, receiver: R, result: Result<Channel<S, R>, PeerMismatch>)
    requires
        S::Peer::obeys_eq_spec(),
        Channel::pairs(sender, receiver, result),
    ensures
        result is Ok <==> sender.endpoint().eq_spec(&receiver.endpoint()),
        result matches Ok(channel) ==> channel.sending() == sender && channel.receiving()
            == receiver,
{
}

/// Capabilities pair as the peers that they name compare, whatever comparing them means.
pub proof fn capabilities_pair_as_their_peers_compare<
    S: PeerChannel,
    R: PeerChannel<Peer = S::Peer>,
>(sender: S, receiver: R, result: Result<Channel<S, R>, PeerMismatch>)
    requires
        Channel::pairs(sender, receiver, result),
    ensures
        call_ensures(S::Peer::eq, (&sender.endpoint(), &receiver.endpoint()), result is Ok),
{
}

/// A transformed message is submitted in place of the message, and how far it comes is passed
/// on as it is. A submission that goes on is not transformed again.
pub proof fn what_is_submitted_is_the_transformed_message<
    T: Send,
    W,
    C: SendChannel<W> + PeerChannel,
    F: FnMut(T) -> W + Send,
>(
    pre: Contramap<C, F, W>,
    message: T,
    sending: C::Sending,
    post: Contramap<C, F, W>,
    step: Step<C::Sending, Result<(), C::SendError>>,
)
    ensures
        pre.endpoint() == pre.target().endpoint(),
        SendChannel::<T>::sends(pre, message, post, step) <==> exists|prepared: W| #[trigger]
            call_ensures(pre.conversion(), (message,), prepared) && C::sends(
                pre.target(),
                prepared,
                post.target(),
                step,
            ),
        SendChannel::<T>::sends_on(pre, sending, post, step) <==> C::sends_on(
            pre.target(),
            sending,
            post.target(),
            step,
        ) && post.conversion() == pre.conversion(),
{
    if SendChannel::<T>::sends(pre, message, post, step) {
        let prepared = choose|prepared: W| #[trigger]
            call_ensures(pre.conversion(), (message,), prepared) && C::sends(
                pre.target(),
                prepared,
                post.target(),
                step,
            );
        assert(call_ensures(pre.conversion(), (message,), prepared));
    }
}

/// What is received is the transformed message: one that came out of the transport, given to
/// the transformation. Having to wait and failures are those of the transport, and leave the
/// transformation as it was.
pub proof fn what_is_received_is_the_transformed_message<
    T,
    W,
    C: RecvChannel<W> + PeerChannel,
    F: FnMut(W) -> T + Send,
>(pre: MapRecv<C, F, W>, post: MapRecv<C, F, W>, step: Step<(), Result<T, C::RecvError>>)
    requires
        RecvChannel::<T>::receives(pre, post, step),
    ensures
        pre.endpoint() == pre.source().endpoint(),
        match step {
            Step::Waiting(_) => C::receives(pre.source(), post.source(), Step::Waiting(()))
                && post.conversion() == pre.conversion(),
            Step::Done(Err(error)) => C::receives(
                pre.source(),
                post.source(),
                Step::Done(Err(error)),
            ) && post.conversion() == pre.conversion(),
            Step::Done(Ok(mapped)) => exists|message: W| #[trigger]
                C::receives(pre.source(), post.source(), Step::Done(Ok(message)))
                    && call_ensures(pre.conversion(), (message,), mapped),
        },
{
    let received = choose|received: Step<(), Result<W, C::RecvError>>|
        {
            &&& #[trigger] C::receives(pre.source(), post.source(), received)
            &&& match received {
                Step::Waiting(_) => {
                    &&& step is Waiting
                    &&& post.conversion() == pre.conversion()
                },
                Step::Done(Ok(message)) => {
                    &&& step matches Step::Done(Ok(mapped))
                    &&& call_ensures(pre.conversion(), (message,), mapped)
                },
                Step::Done(Err(error)) => {
                    &&& step == Step::<(), Result<T, C::RecvError>>::Done(Err(error))
                    &&& post.conversion() == pre.conversion()
                },
            }
        };
    match received {
        Step::Waiting(waiting) => {
            assert(waiting == ());
        },
        Step::Done(Ok(message)) => {
            assert(C::receives(pre.source(), post.source(), Step::Done(Ok(message))));
        },
        Step::Done(Err(_)) => {},
    }
}

/// What becomes of a message that is sent through a conversion: it is refused where it cannot
/// be converted, with the transport untouched, and is otherwise submitted as its conversion,
/// with how far that comes passed on and a failure of the transport told apart.
pub proof fn a_converted_message_goes_as_far_as_its_conversion<
    M: Send,
    W: Send,
    C: SendChannel<W>,
    K: Encode<M, W>,
>(
    pre: CodecChannel<C, K, W>,
    message: M,
    post: CodecChannel<C, K, W>,
    step: Step<C::Sending, Result<(), CodecError<C::SendError, K::EncodeError>>>,
)
    requires
        SendChannel::<M>::sends(pre, message, post, step),
    ensures
        post.conversion() == pre.conversion(),
        step matches Step::Done(Err(CodecError::Codec(error))) ==> pre.conversion().encodes(
            message,
            Err(error),
        ) && post.carrier() == pre.carrier(),
        !(step matches Step::Done(Err(CodecError::Codec(_)))) ==> exists|wire: W| #[trigger]
            pre.conversion().encodes(message, Ok(wire)) && match step {
                Step::Waiting(sending) => C::sends(
                    pre.carrier(),
                    wire,
                    post.carrier(),
                    Step::Waiting(sending),
                ),
                Step::Done(Ok(_)) => C::sends(
                    pre.carrier(),
                    wire,
                    post.carrier(),
                    Step::Done(Ok(())),
                ),
                Step::Done(Err(CodecError::Transport(failure))) => C::sends(
                    pre.carrier(),
                    wire,
                    post.carrier(),
                    Step::Done(Err(failure)),
                ),
                Step::Done(Err(CodecError::Codec(_))) => false,
            },
{
    if !(step matches Step::Done(Err(CodecError::Codec(_)))) {
        let (wire, submitted) = choose|
            wire: W,
            submitted: Step<C::Sending, Result<(), C::SendError>>,
        |
            {
                &&& pre.conversion().encodes(message, Ok(wire))
                &&& #[trigger] C::sends(pre.carrier(), wire, post.carrier(), submitted)
                &&& codec::submission_step(step, submitted)
            };
        assert(pre.conversion().encodes(message, Ok(wire)));
        if let Step::Done(Ok(sent)) = submitted {
            assert(sent == ());
        }
    }
}

/// A conversion that goes on goes as far as the transport does, converts nothing again, and
/// tells a failure of the transport as one.
pub proof fn a_submission_goes_on_as_the_transport_does<
    M: Send,
    W: Send,
    C: SendChannel<W>,
    K: Encode<M, W>,
>(
    pre: CodecChannel<C, K, W>,
    sending: C::Sending,
    post: CodecChannel<C, K, W>,
    step: Step<C::Sending, Result<(), CodecError<C::SendError, K::EncodeError>>>,
)
    requires
        SendChannel::<M>::sends_on(pre, sending, post, step),
    ensures
        post.conversion() == pre.conversion(),
        match step {
            Step::Waiting(still) => C::sends_on(
                pre.carrier(),
                sending,
                post.carrier(),
                Step::Waiting(still),
            ),
            Step::Done(Ok(_)) => C::sends_on(
                pre.carrier(),
                sending,
                post.carrier(),
                Step::Done(Ok(())),
            ),
            Step::Done(Err(CodecError::Transport(failure))) => C::sends_on(
                pre.carrier(),
                sending,
                post.carrier(),
                Step::Done(Err(failure)),
            ),
            Step::Done(Err(CodecError::Codec(_))) => false,
        },
{
    let submitted = choose|submitted: Step<C::Sending, Result<(), C::SendError>>|
        {
            &&& #[trigger] C::sends_on(pre.carrier(), sending, post.carrier(), submitted)
            &&& codec::submission_step(step, submitted)
        };
    if let Step::Done(Ok(sent)) = submitted {
        assert(sent == ());
    }
}

/// What is received through a conversion: one conversion of a message that came out of the
/// transport, whether it succeeds or fails, or the failure of the transport as one.
pub proof fn a_conversion_receives_what_the_transport_brings<
    M,
    W,
    C: RecvChannel<W>,
    K: Decode<W, M>,
>(
    pre: CodecChannel<C, K, W>,
    post: CodecChannel<C, K, W>,
    step: Step<(), Result<M, CodecError<C::RecvError, K::DecodeError>>>,
)
    requires
        RecvChannel::<M>::receives(pre, post, step),
    ensures
        post.conversion() == pre.conversion(),
        match step {
            Step::Waiting(_) => C::receives(pre.carrier(), post.carrier(), Step::Waiting(())),
            Step::Done(Ok(decoded)) => exists|wire: W| #[trigger]
                C::receives(pre.carrier(), post.carrier(), Step::Done(Ok(wire)))
                    && pre.conversion().decodes(wire, Ok(decoded)),
            Step::Done(Err(CodecError::Codec(error))) => exists|wire: W| #[trigger]
                C::receives(pre.carrier(), post.carrier(), Step::Done(Ok(wire)))
                    && pre.conversion().decodes(wire, Err(error)),
            Step::Done(Err(CodecError::Transport(failure))) => C::receives(
                pre.carrier(),
                post.carrier(),
                Step::Done(Err(failure)),
            ),
        },
{
    let received = choose|received: Step<(), Result<W, C::RecvError>>|
        {
            &&& #[trigger] C::receives(pre.carrier(), post.carrier(), received)
            &&& CodecChannel::<C, K, W>::reception_step::<M, C::RecvError>(
                pre.conversion(),
                received,
                step,
            )
        };
    match received {
        Step::Waiting(waiting) => {
            assert(waiting == ());
        },
        Step::Done(Ok(wire)) => {
            assert(C::receives(pre.carrier(), post.carrier(), Step::Done(Ok(wire))));
        },
        Step::Done(Err(_)) => {},
    }
}

/// Through shared access a conversion does the same: a message that cannot be converted is
/// refused, any other goes as far as its conversion, and what is received is one conversion of
/// what the transport brings, or its failure.
pub proof fn a_shared_conversion_does_as_an_exclusive_one<
    M: Send,
    W: Send,
    C: SharedChannel<W, W>,
    K: Codec<M, W>,
>(
    channel: CodecChannel<C, K, W>,
    message: M,
    sent: Step<C::Sending, Result<(), CodecError<C::SendError, K::EncodeError>>>,
    received: Step<(), Result<M, CodecError<C::RecvError, K::DecodeError>>>,
)
    ensures
        SharedChannel::<M, M>::sends_shared(&channel, message, sent) ==> match sent {
            Step::Done(Err(CodecError::Codec(error))) => channel.conversion().encodes(
                message,
                Err(error),
            ),
            Step::Waiting(sending) => exists|wire: W| #[trigger]
                channel.conversion().encodes(message, Ok(wire)) && channel.carrier().sends_shared(
                    wire,
                    Step::Waiting(sending),
                ),
            Step::Done(Ok(_)) => exists|wire: W| #[trigger]
                channel.conversion().encodes(message, Ok(wire)) && channel.carrier().sends_shared(
                    wire,
                    Step::Done(Ok(())),
                ),
            Step::Done(Err(CodecError::Transport(failure))) => exists|wire: W| #[trigger]
                channel.conversion().encodes(message, Ok(wire)) && channel.carrier().sends_shared(
                    wire,
                    Step::Done(Err(failure)),
                ),
        },
        SharedChannel::<M, M>::receives_shared(&channel, received) ==> match received {
            Step::Waiting(_) => channel.carrier().receives_shared(Step::Waiting(())),
            Step::Done(Ok(decoded)) => exists|wire: W| #[trigger]
                channel.carrier().receives_shared(Step::Done(Ok(wire)))
                    && channel.conversion().decodes(wire, Ok(decoded)),
            Step::Done(Err(CodecError::Codec(error))) => exists|wire: W| #[trigger]
                channel.carrier().receives_shared(Step::Done(Ok(wire)))
                    && channel.conversion().decodes(wire, Err(error)),
            Step::Done(Err(CodecError::Transport(failure))) => channel.carrier().receives_shared(
                Step::Done(Err(failure)),
            ),
        },
{
    if SharedChannel::<M, M>::sends_shared(&channel, message, sent) && !(sent matches Step::Done(
        Err(CodecError::Codec(_)),
    )) {
        let (wire, submitted) = choose|
            wire: W,
            submitted: Step<C::Sending, Result<(), C::SendError>>,
        |
            {
                &&& channel.conversion().encodes(message, Ok(wire))
                &&& #[trigger] channel.carrier().sends_shared(wire, submitted)
                &&& codec::submission_step(sent, submitted)
            };
        assert(channel.conversion().encodes(message, Ok(wire)));
        if let Step::Done(Ok(done)) = submitted {
            assert(done == ());
        }
    }
    if SharedChannel::<M, M>::receives_shared(&channel, received) {
        let brought = choose|brought: Step<(), Result<W, C::RecvError>>|
            {
                &&& #[trigger] channel.carrier().receives_shared(brought)
                &&& CodecChannel::<C, K, W>::reception_step::<M, C::RecvError>(
                    channel.conversion(),
                    brought,
                    received,
                )
            };
        match brought {
            Step::Waiting(waiting) => {
                assert(waiting == ());
            },
            Step::Done(Ok(wire)) => {
                assert(channel.carrier().receives_shared(Step::Done(Ok(wire))));
            },
            Step::Done(Err(_)) => {},
        }
    }
}

/// Through shared access too, a submission goes on as the transport does.
pub proof fn a_shared_submission_goes_on_as_the_transport_does<
    M: Send,
    W: Send,
    C: SharedChannel<W, W>,
    K: Codec<M, W>,
>(
    channel: CodecChannel<C, K, W>,
    sending: C::Sending,
    step: Step<C::Sending, Result<(), CodecError<C::SendError, K::EncodeError>>>,
)
    requires
        SharedChannel::<M, M>::sends_on_shared(&channel, sending, step),
    ensures
        match step {
            Step::Waiting(still) => channel.carrier().sends_on_shared(
                sending,
                Step::Waiting(still),
            ),
            Step::Done(Ok(_)) => channel.carrier().sends_on_shared(sending, Step::Done(Ok(()))),
            Step::Done(Err(CodecError::Transport(failure))) => channel.carrier().sends_on_shared(
                sending,
                Step::Done(Err(failure)),
            ),
            Step::Done(Err(CodecError::Codec(_))) => false,
        },
{
    let submitted = choose|submitted: Step<C::Sending, Result<(), C::SendError>>|
        {
            &&& #[trigger] channel.carrier().sends_on_shared(sending, submitted)
            &&& codec::submission_step(step, submitted)
        };
    if let Step::Done(Ok(sent)) = submitted {
        assert(sent == ());
    }
}

/// A conversion can be used whenever it and the transport can: a message that may be handed to
/// the conversion, and all that may come of it to the transport, and the other way about.
pub proof fn a_conversion_can_be_used_when_its_parts_can<
    M: Send,
    W: Send,
    C: SendChannel<W> + RecvChannel<W>,
    K: Codec<M, W>,
>(channel: CodecChannel<C, K, W>, message: M)
    ensures
        SendChannel::<M>::sendable(&channel, message) <==> channel.conversion().encodable(message)
            && (forall|wire: W| #[trigger]
            channel.conversion().encodes(message, Ok(wire)) ==> channel.carrier().sendable(wire)),
        RecvChannel::<M>::receivable(&channel) <==> channel.carrier().receivable() && (forall|
            after: C,
            wire: W,
        | #[trigger]
            C::receives(channel.carrier(), after, Step::Done(Ok(wire)))
                ==> channel.conversion().decodable(wire)),
{
    if channel.carrier().receivable() && forall|after: C, wire: W| #[trigger]
        C::receives(channel.carrier(), after, Step::Done(Ok(wire)))
            ==> channel.conversion().decodable(wire) {
        assert forall|after: C, received: Step<(), Result<W, C::RecvError>>| #[trigger]
            C::receives(channel.carrier(), after, received) implies (received matches Step::Done(
            Ok(message),
        ) ==> channel.conversion().decodable(message)) by {
            if let Step::Done(Ok(wire)) = received {
                assert(C::receives(channel.carrier(), after, Step::Done(Ok(wire))));
            }
        }
    }
}

/// A conversion answers outgoing messages by its encoding and what comes in by its decoding,
/// and tells its own failures from those of the transport.
pub proof fn conversions_tell_their_failures_apart<M, W, C, K: Codec<M, W>, T>(
    codec: K,
    message: M,
    outgoing: Result<W, CodecError<T, K::EncodeError>>,
    wire: W,
    failure: T,
    incoming: Result<M, CodecError<T, K::DecodeError>>,
)
    ensures
        CodecChannel::<C, K, W>::converts_outgoing::<M, T>(codec, message, outgoing) ==> match outgoing {
            Ok(converted) => codec.encodes(message, Ok(converted)),
            Err(CodecError::Codec(error)) => codec.encodes(message, Err(error)),
            Err(CodecError::Transport(_)) => false,
        },
        CodecChannel::<C, K, W>::converts_incoming::<M, T>(codec, Ok(wire), incoming) ==> match incoming {
            Ok(converted) => codec.decodes(wire, Ok(converted)),
            Err(CodecError::Codec(error)) => codec.decodes(wire, Err(error)),
            Err(CodecError::Transport(_)) => false,
        },
        CodecChannel::<C, K, W>::converts_incoming::<M, T>(codec, Err(failure), incoming)
            ==> (incoming matches Err(CodecError::Transport(same)) && same == failure),
{
}

/// A pair of conversions encodes as its first and decodes as its second.
pub proof fn a_codec_pair_converts_by_direction<M, W, E: Encode<M, W>, D: Decode<W, M>>(
    pair: CodecPair<E, D>,
    message: M,
    encoded: Result<W, E::EncodeError>,
    wire: W,
    decoded: Result<M, D::DecodeError>,
)
    ensures
        Encode::<M, W>::encodable(&pair, message) == pair.outgoing().encodable(message),
        Encode::<M, W>::encodes(&pair, message, encoded) == pair.outgoing().encodes(
            message,
            encoded,
        ),
        Decode::<W, M>::decodable(&pair, wire) == pair.incoming().decodable(wire),
        Decode::<W, M>::decodes(&pair, wire, decoded) == pair.incoming().decodes(wire, decoded),
{
}

/// A shared conversion is the conversion it shares.
pub proof fn a_shared_codec_is_the_codec<M, W, K: Codec<M, W>>(
    codec: std::sync::Arc<K>,
    message: M,
    encoded: Result<W, K::EncodeError>,
    wire: W,
    decoded: Result<M, K::DecodeError>,
)
    ensures
        Encode::<M, W>::encodable(&codec, message) == (*codec).encodable(message),
        Encode::<M, W>::encodes(&codec, message, encoded) == (*codec).encodes(message, encoded),
        Decode::<W, M>::decodable(&codec, wire) == (*codec).decodable(wire),
        Decode::<W, M>::decodes(&codec, wire, decoded) == (*codec).decodes(wire, decoded),
{
}

/// A converted channel belongs to the peer of the channel that carries it.
pub proof fn a_conversion_keeps_the_peer<C: PeerChannel, K, W>(channel: CodecChannel<C, K, W>)
    ensures
        channel.endpoint() == channel.carrier().endpoint(),
{
}

/// A failure behind a conversion says where it comes from, and then what its cause says.
pub proof fn failures_behind_a_conversion_say_where_they_come_from<T, E>(
    error: CodecError<T, E>,
    cause: Seq<char>,
)
    ensures
        error is Transport ==> error.text(cause) == "transport: "@ + cause,
        error is Codec ==> error.text(cause) == "codec: "@ + cause,
{
}

/// A transformation can be used whenever it and the transport can: a message that may be handed
/// to it, and all that may come of it to the transport, and the other way about.
pub proof fn a_transformation_can_be_used_when_its_parts_can<
    T: Send,
    W,
    C: SendChannel<W>,
    F: FnMut(T) -> W + Send,
    D: RecvChannel<W>,
    G: FnMut(W) -> T + Send,
>(sender: Contramap<C, F, W>, message: T, receiver: MapRecv<D, G, W>)
    ensures
        SendChannel::<T>::sendable(&sender, message) <==> call_requires(
            sender.conversion(),
            (message,),
        ) && (forall|prepared: W| #[trigger]
            call_ensures(sender.conversion(), (message,), prepared) ==> sender.target().sendable(
                prepared,
            )),
        RecvChannel::<T>::receivable(&receiver) <==> receiver.source().receivable() && (forall|
            after: D,
            wire: W,
        | #[trigger]
            D::receives(receiver.source(), after, Step::Done(Ok(wire))) ==> call_requires(
                receiver.conversion(),
                (wire,),
            )),
{
    if receiver.source().receivable() && forall|after: D, wire: W| #[trigger]
        D::receives(receiver.source(), after, Step::Done(Ok(wire))) ==> call_requires(
            receiver.conversion(),
            (wire,),
        ) {
        assert forall|after: D, step: Step<(), Result<W, D::RecvError>>| #[trigger]
            D::receives(receiver.source(), after, step) implies (step matches Step::Done(
            Ok(message),
        ) ==> call_requires(receiver.conversion(), (message,))) by {
            if let Step::Done(Ok(wire)) = step {
                assert(D::receives(receiver.source(), after, Step::Done(Ok(wire))));
            }
        }
    }
}

} // verus!
