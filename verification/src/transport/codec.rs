//! Adapters for message type conversion.

use crate::transport::shared::SharedChannel;
use crate::transport::traits::{Channel, PeerChannel, RecvChannel, SendChannel, Step};
use std::sync::Arc;
use vstd::prelude::*;

verus! {

/// Synchronously convert an outgoing message into the underlying message type.
///
/// Use `std::convert::Infallible` for infallible conversions. Conversion
/// happens before submission; a conversion failure leaves the transport untouched.
pub trait Encode<M, W = Vec<u8>>: Send + Sync {
    /// Conversion failure.
    type EncodeError: Send + Sync + 'static;

    /// Whether `message` may be handed to the conversion.
    open spec fn encodable(&self, message: M) -> bool {
        true
    }

    /// Converting `message` may answer `result`.
    open spec fn encodes(&self, message: M, result: Result<W, Self::EncodeError>) -> bool {
        true
    }

    /// Convert one owned message.
    fn encode(&self, message: M) -> (result: Result<W, Self::EncodeError>)
        requires
            self.encodable(message),
        ensures
            self.encodes(message, result),
    ;
}

/// Synchronously convert an underlying message into an incoming message.
///
/// Synchronous conversion after reception preserves cancel safety. Returned
/// messages must own their data. A conversion failure consumes that message;
/// transport validity remains governed by the backend contract.
pub trait Decode<W, M>: Send + Sync {
    /// Conversion failure.
    type DecodeError: Send + Sync + 'static;

    /// Whether `message` may be handed to the conversion.
    open spec fn decodable(&self, message: W) -> bool {
        true
    }

    /// Converting `message` may answer `result`.
    open spec fn decodes(&self, message: W, result: Result<M, Self::DecodeError>) -> bool {
        true
    }

    /// Convert one owned message.
    fn decode(&self, message: W) -> (result: Result<M, Self::DecodeError>)
        requires
            self.decodable(message),
        ensures
            self.decodes(message, result),
    ;
}

/// Both conversions, implemented automatically when both capabilities exist.
pub trait Codec<M, W = Vec<u8>>: Encode<M, W> + Decode<W, M> {

}

impl<M, W, K: Encode<M, W> + Decode<W, M>> Codec<M, W> for K {

}

/// Independently implemented outgoing and incoming conversions bundled together.
#[derive(Debug)]
pub struct CodecPair<E, D> {
    encoder: E,
    decoder: D,
}

impl<E, D> CodecPair<E, D> {
    /// The outgoing conversion.
    pub closed spec fn outgoing(self) -> E {
        self.encoder
    }

    /// The incoming conversion.
    pub closed spec fn incoming(self) -> D {
        self.decoder
    }

    /// Bundle separate conversions so each implementation can serve one direction.
    pub fn new(encoder: E, decoder: D) -> (pair: Self)
        ensures
            pair.outgoing() == encoder,
            pair.incoming() == decoder,
    {
        Self { encoder, decoder }
    }
}

impl<M, W, E: Encode<M, W>, D: Send + Sync> Encode<M, W> for CodecPair<E, D> {
    type EncodeError = E::EncodeError;

    open spec fn encodable(&self, message: M) -> bool {
        self.outgoing().encodable(message)
    }

    open spec fn encodes(&self, message: M, result: Result<W, Self::EncodeError>) -> bool {
        self.outgoing().encodes(message, result)
    }

    fn encode(&self, message: M) -> (result: Result<W, Self::EncodeError>) {
        self.encoder.encode(message)
    }
}

impl<M, W, E: Send + Sync, D: Decode<W, M>> Decode<W, M> for CodecPair<E, D> {
    type DecodeError = D::DecodeError;

    open spec fn decodable(&self, message: W) -> bool {
        self.incoming().decodable(message)
    }

    open spec fn decodes(&self, message: W, result: Result<M, Self::DecodeError>) -> bool {
        self.incoming().decodes(message, result)
    }

    fn decode(&self, message: W) -> (result: Result<M, Self::DecodeError>) {
        self.decoder.decode(message)
    }
}

impl<M, W, K: Encode<M, W>> Encode<M, W> for Arc<K> {
    type EncodeError = K::EncodeError;

    open spec fn encodable(&self, message: M) -> bool {
        (**self).encodable(message)
    }

    open spec fn encodes(&self, message: M, result: Result<W, Self::EncodeError>) -> bool {
        (**self).encodes(message, result)
    }

    fn encode(&self, message: M) -> (result: Result<W, Self::EncodeError>) {
        (**self).encode(message)
    }
}

impl<M, W, K: Decode<W, M>> Decode<W, M> for Arc<K> {
    type DecodeError = K::DecodeError;

    open spec fn decodable(&self, message: W) -> bool {
        (**self).decodable(message)
    }

    open spec fn decodes(&self, message: W, result: Result<M, Self::DecodeError>) -> bool {
        (**self).decodes(message, result)
    }

    fn decode(&self, message: W) -> (result: Result<M, Self::DecodeError>) {
        (**self).decode(message)
    }
}

/// Conversion failure or transport failure, preserving the original cause.
#[derive(Debug)]
pub enum CodecError<T, E> {
    /// The underlying transport failed.
    Transport(T),
    /// Message conversion failed.
    Codec(E),
}

impl<T, E> CodecError<T, E> {
    /// The message shown for this failure, given that of its cause.
    pub open spec fn text(self, cause: Seq<char>) -> Seq<char> {
        match self {
            CodecError::Transport(_) => "transport: "@ + cause,
            CodecError::Codec(_) => "codec: "@ + cause,
        }
    }

    /// The message shown for this failure, given that of its cause.
    pub fn to_string(&self, cause: &str) -> (text: String)
        ensures
            text@ == self.text(cause@),
    {
        match self {
            CodecError::Transport(_) => "transport: ".to_owned().concat(cause),
            CodecError::Codec(_) => "codec: ".to_owned().concat(cause),
        }
    }

    /// The cause, where it is the transport that failed.
    pub fn transport_source(&self) -> (source: Option<&T>)
        ensures
            match *self {
                CodecError::Transport(cause) => source == Some(&cause),
                CodecError::Codec(_) => source is None,
            },
    {
        match self {
            CodecError::Transport(cause) => Some(cause),
            CodecError::Codec(_) => None,
        }
    }

    /// The cause, where it is the conversion that failed.
    pub fn codec_source(&self) -> (source: Option<&E>)
        ensures
            match *self {
                CodecError::Transport(_) => source is None,
                CodecError::Codec(cause) => source == Some(&cause),
            },
    {
        match self {
            CodecError::Transport(_) => None,
            CodecError::Codec(cause) => Some(cause),
        }
    }
}

/// A channel with independent message conversions for its available directions.
///
/// A send-only channel requires only [`Encode`]; a receive-only channel requires
/// only [`Decode`]. Both capabilities together form a duplex channel. `W` is
/// the underlying message type, allowing typed transports to retain their native data.
///
/// Sender privacy is inherited from the transport. Conversion must preserve
/// transport attribution and session configuration to uphold that guarantee.
/// Application code remains responsible for identifying payload contents.
pub struct CodecChannel<C, K, W = Vec<u8>> {
    channel: C,
    codec: K,
    message: Ghost<Option<W>>,
}

impl<C, K, W> CodecChannel<C, K, W> {
    /// The capability that carries the converted messages.
    pub closed spec fn carrier(self) -> C {
        self.channel
    }

    /// The message conversion.
    pub closed spec fn conversion(self) -> K {
        self.codec
    }

    /// Wrap a capability with its synchronous message conversion.
    pub fn new(channel: C, codec: K) -> (adapter: Self)
        ensures
            adapter.carrier() == channel,
            adapter.conversion() == codec,
    {
        Self { channel, codec, message: Ghost(None) }
    }

    /// Convert an outgoing message before anything reaches the transport.
    pub fn outgoing<M, T>(&self, message: M) -> (result: Result<
        W,
        CodecError<T, K::EncodeError>,
    >) where K: Encode<M, W>
        requires
            self.conversion().encodable(message),
        ensures
            Self::converts_outgoing::<M, T>(self.conversion(), message, result),
    {
        match self.codec.encode(message) {
            Ok(wire) => {
                assert(self.codec.encodes(message, Ok(wire)));
                Ok(wire)
            },
            Err(error) => {
                assert(self.codec.encodes(message, Err(error)));
                Err(CodecError::Codec(error))
            },
        }
    }

    /// Converting `message` may answer `result`.
    pub open spec fn converts_outgoing<M, T>(
        codec: K,
        message: M,
        result: Result<W, CodecError<T, K::EncodeError>>,
    ) -> bool where K: Encode<M, W> {
        match result {
            Ok(wire) => codec.encodes(message, Ok(wire)),
            Err(CodecError::Codec(error)) => codec.encodes(message, Err(error)),
            Err(CodecError::Transport(_)) => false,
        }
    }

    /// Convert what the transport answered.
    pub fn incoming<M, T>(&self, received: Result<W, T>) -> (result: Result<
        M,
        CodecError<T, K::DecodeError>,
    >) where K: Decode<W, M>
        requires
            received matches Ok(message) ==> self.conversion().decodable(message),
        ensures
            Self::converts_incoming::<M, T>(self.conversion(), received, result),
    {
        match received {
            Ok(message) => match self.codec.decode(message) {
                Ok(decoded) => {
                    assert(self.codec.decodes(message, Ok(decoded)));
                    Ok(decoded)
                },
                Err(error) => {
                    assert(self.codec.decodes(message, Err(error)));
                    Err(CodecError::Codec(error))
                },
            },
            Err(error) => Err(CodecError::Transport(error)),
        }
    }

    /// Converting what the transport answered may answer `result`.
    pub open spec fn converts_incoming<M, T>(
        codec: K,
        received: Result<W, T>,
        result: Result<M, CodecError<T, K::DecodeError>>,
    ) -> bool where K: Decode<W, M> {
        match received {
            Ok(message) => match result {
                Ok(decoded) => codec.decodes(message, Ok(decoded)),
                Err(CodecError::Codec(error)) => codec.decodes(message, Err(error)),
                Err(CodecError::Transport(_)) => false,
            },
            Err(failure) => result == Err::<M, CodecError<T, K::DecodeError>>(
                CodecError::Transport(failure),
            ),
        }
    }

    /// Receiving comes to `step` where the transport has come to `received`: it has to wait
    /// where the transport has to, and converts what the transport answers.
    pub open spec fn reception_step<M, T>(
        codec: K,
        received: Step<(), Result<W, T>>,
        step: Step<(), Result<M, CodecError<T, K::DecodeError>>>,
    ) -> bool where K: Decode<W, M> {
        match received {
            Step::Waiting(_) => step is Waiting,
            Step::Done(answer) => step matches Step::Done(result) && Self::converts_incoming::<
                M,
                T,
            >(codec, answer, result),
        }
    }

    /// Convert what the transport answered, if it did.
    fn incoming_step<M, T>(&self, received: Step<(), Result<W, T>>) -> (step: Step<
        (),
        Result<M, CodecError<T, K::DecodeError>>,
    >) where K: Decode<W, M>
        requires
            received matches Step::Done(Ok(message)) ==> self.conversion().decodable(message),
        ensures
            Self::reception_step::<M, T>(self.conversion(), received, step),
    {
        match received {
            Step::Waiting(()) => Step::Waiting(()),
            Step::Done(answer) => Step::Done(self.incoming(answer)),
        }
    }

    /// The capability that carries the converted messages.
    pub fn channel_mut(&mut self) -> (channel: &mut C)
        ensures
            *channel == old(self).carrier(),
            final(self).carrier() == *final(channel),
            final(self).conversion() == old(self).conversion(),
    {
        &mut self.channel
    }
}

/// How a sender reports what became of a converted message.
pub open spec fn submission<T, E>(
    result: Result<(), CodecError<T, E>>,
    submitted: Result<(), T>,
) -> bool {
    match submitted {
        Ok(_) => result is Ok,
        Err(failure) => result == Err::<(), CodecError<T, E>>(CodecError::Transport(failure)),
    }
}

/// How a sender reports how far a converted message has come: it has to wait where the
/// transport has to.
pub open spec fn submission_step<P, T, E>(
    step: Step<P, Result<(), CodecError<T, E>>>,
    submitted: Step<P, Result<(), T>>,
) -> bool {
    match submitted {
        Step::Waiting(sending) => step == Step::<P, Result<(), CodecError<T, E>>>::Waiting(
            sending,
        ),
        Step::Done(outcome) => step matches Step::Done(result) && submission(result, outcome),
    }
}

/// Report how far a converted message has come.
fn report_step<P, T, E>(submitted: Step<P, Result<(), T>>) -> (step: Step<
    P,
    Result<(), CodecError<T, E>>,
>)
    ensures
        submission_step(step, submitted),
{
    match submitted {
        Step::Waiting(sending) => Step::Waiting(sending),
        Step::Done(outcome) => Step::Done(report(outcome)),
    }
}

/// Report what became of a converted message.
pub fn report<T, E>(submitted: Result<(), T>) -> (result: Result<(), CodecError<T, E>>)
    ensures
        submission(result, submitted),
{
    match submitted {
        Ok(()) => Ok(()),
        Err(failure) => Err(CodecError::Transport(failure)),
    }
}

impl<M: Send, W: Send, C: SendChannel<W>, K: Encode<M, W>> SendChannel<M> for CodecChannel<
    C,
    K,
    W,
> {
    type Privacy = C::Privacy;

    type SendError = CodecError<C::SendError, K::EncodeError>;

    type Sending = C::Sending;

    open spec fn sendable(&self, message: M) -> bool {
        &&& self.conversion().encodable(message)
        &&& forall|wire: W| #[trigger]
            self.conversion().encodes(message, Ok(wire)) ==> self.carrier().sendable(wire)
    }

    /// A message that cannot be converted leaves the carrier untouched; any other
    /// is submitted in its converted form.
    open spec fn sends(
        pre: Self,
        message: M,
        post: Self,
        step: Step<Self::Sending, Result<(), Self::SendError>>,
    ) -> bool {
        &&& post.conversion() == pre.conversion()
        &&& {
            ||| {
                &&& step matches Step::Done(Err(CodecError::Codec(error)))
                &&& pre.conversion().encodes(message, Err(error))
                &&& post.carrier() == pre.carrier()
            }
            ||| exists|wire: W, submitted: Step<C::Sending, Result<(), C::SendError>>|
                {
                    &&& pre.conversion().encodes(message, Ok(wire))
                    &&& #[trigger] C::sends(pre.carrier(), wire, post.carrier(), submitted)
                    &&& submission_step(step, submitted)
                }
        }
    }

    /// The carrier goes on; nothing is converted again.
    open spec fn sends_on(
        pre: Self,
        sending: Self::Sending,
        post: Self,
        step: Step<Self::Sending, Result<(), Self::SendError>>,
    ) -> bool {
        &&& post.conversion() == pre.conversion()
        &&& exists|submitted: Step<C::Sending, Result<(), C::SendError>>|
            {
                &&& #[trigger] C::sends_on(pre.carrier(), sending, post.carrier(), submitted)
                &&& submission_step(step, submitted)
            }
    }

    fn send(&mut self, message: M) -> (step: Step<Self::Sending, Result<(), Self::SendError>>) {
        match self.outgoing(message) {
            Ok(wire) => {
                let submitted = self.channel.send(wire);
                assert(C::sends(old(self).carrier(), wire, self.carrier(), submitted));
                report_step(submitted)
            },
            Err(error) => Step::Done(Err(error)),
        }
    }

    fn resume_send(&mut self, sending: Self::Sending) -> (step: Step<
        Self::Sending,
        Result<(), Self::SendError>,
    >) {
        let submitted = self.channel.resume_send(sending);
        assert(C::sends_on(old(self).carrier(), sending, self.carrier(), submitted));
        report_step(submitted)
    }
}

impl<M, W, C: RecvChannel<W>, K: Decode<W, M>> RecvChannel<M> for CodecChannel<C, K, W> {
    type RecvError = CodecError<C::RecvError, K::DecodeError>;

    open spec fn receivable(&self) -> bool {
        &&& self.carrier().receivable()
        &&& forall|after: C, received: Step<(), Result<W, C::RecvError>>| #[trigger]
            C::receives(self.carrier(), after, received) ==> (received matches Step::Done(
                Ok(message),
            ) ==> self.conversion().decodable(message))
    }

    /// The carrier's message is converted; its failure is passed on as a transport failure.
    open spec fn receives(
        pre: Self,
        post: Self,
        step: Step<(), Result<M, Self::RecvError>>,
    ) -> bool {
        &&& post.conversion() == pre.conversion()
        &&& exists|received: Step<(), Result<W, C::RecvError>>|
            {
                &&& #[trigger] C::receives(pre.carrier(), post.carrier(), received)
                &&& Self::reception_step::<M, C::RecvError>(pre.conversion(), received, step)
            }
    }

    fn recv(&mut self) -> (step: Step<(), Result<M, Self::RecvError>>) {
        let received = self.channel.recv();
        assert(C::receives(old(self).carrier(), self.carrier(), received));
        self.incoming_step(received)
    }
}

impl<M: Send, W: Send, C: Channel<W, W>, K: Codec<M, W>> Channel<M, M> for CodecChannel<C, K, W> {

}

impl<M: Send, W: Send, C: SharedChannel<W, W>, K: Codec<M, W>> SharedChannel<
    M,
    M,
> for CodecChannel<C, K, W> {
    open spec fn sendable_shared(&self, message: M) -> bool {
        &&& self.conversion().encodable(message)
        &&& forall|wire: W| #[trigger]
            self.conversion().encodes(message, Ok(wire)) ==> self.carrier().sendable_shared(wire)
    }

    open spec fn sends_shared(
        &self,
        message: M,
        step: Step<
            <Self as SendChannel<M>>::Sending,
            Result<(), <Self as SendChannel<M>>::SendError>,
        >,
    ) -> bool {
        ||| {
            &&& step matches Step::Done(Err(CodecError::Codec(error)))
            &&& self.conversion().encodes(message, Err(error))
        }
        ||| exists|
            wire: W,
            submitted: Step<
                <C as SendChannel<W>>::Sending,
                Result<(), <C as SendChannel<W>>::SendError>,
            >,
        |
            {
                &&& self.conversion().encodes(message, Ok(wire))
                &&& #[trigger] self.carrier().sends_shared(wire, submitted)
                &&& submission_step(step, submitted)
            }
    }

    open spec fn sends_on_shared(
        &self,
        sending: <Self as SendChannel<M>>::Sending,
        step: Step<
            <Self as SendChannel<M>>::Sending,
            Result<(), <Self as SendChannel<M>>::SendError>,
        >,
    ) -> bool {
        exists|
            submitted: Step<
                <C as SendChannel<W>>::Sending,
                Result<(), <C as SendChannel<W>>::SendError>,
            >,
        |
            {
                &&& #[trigger] self.carrier().sends_on_shared(sending, submitted)
                &&& submission_step(step, submitted)
            }
    }

    open spec fn receivable_shared(&self) -> bool {
        &&& self.carrier().receivable_shared()
        &&& forall|received: Step<(), Result<W, <C as RecvChannel<W>>::RecvError>>| #[trigger]
            self.carrier().receives_shared(received) ==> (received matches Step::Done(Ok(message))
                ==> self.conversion().decodable(message))
    }

    open spec fn receives_shared(
        &self,
        step: Step<(), Result<M, <Self as RecvChannel<M>>::RecvError>>,
    ) -> bool {
        exists|received: Step<(), Result<W, <C as RecvChannel<W>>::RecvError>>|
            {
                &&& #[trigger] self.carrier().receives_shared(received)
                &&& Self::reception_step::<M, <C as RecvChannel<W>>::RecvError>(
                    self.conversion(),
                    received,
                    step,
                )
            }
    }

    fn send_shared(&self, message: M) -> (step: Step<
        <Self as SendChannel<M>>::Sending,
        Result<(), <Self as SendChannel<M>>::SendError>,
    >) {
        match self.outgoing(message) {
            Ok(wire) => {
                let submitted = self.channel.send_shared(wire);
                report_step(submitted)
            },
            Err(error) => Step::Done(Err(error)),
        }
    }

    fn resume_send_shared(&self, sending: <Self as SendChannel<M>>::Sending) -> (step: Step<
        <Self as SendChannel<M>>::Sending,
        Result<(), <Self as SendChannel<M>>::SendError>,
    >) {
        let submitted = self.channel.resume_send_shared(sending);
        assert(self.carrier().sends_on_shared(sending, submitted));
        report_step(submitted)
    }

    fn recv_shared(&self) -> (step: Step<(), Result<M, <Self as RecvChannel<M>>::RecvError>>) {
        let received = self.channel.recv_shared();
        self.incoming_step(received)
    }
}

impl<C: PeerChannel, K, W> PeerChannel for CodecChannel<C, K, W> {
    type Peer = C::Peer;

    open spec fn endpoint(&self) -> C::Peer {
        self.carrier().endpoint()
    }

    fn peer(&self) -> (peer: &C::Peer) {
        self.channel.peer()
    }
}

} // verus!
