//! The client's end of a bridged builder.

use crate::queues::{self, bounded};
use crate::rpc::channel::{
    self, new_link, CapnpChannel, CapnpDuplex, ChannelCommand, Link, LinkEnds,
    COMMAND_QUEUE_CAPACITY,
};
use crate::rpc::error::BuildError;
use crate::rpc::wire::{build_outcome, BuildReply};
use std::sync::Arc;
use tokio::sync::{mpsc, oneshot};
use vstd::prelude::*;

verus! {

/// A request to the remote builder.
#[derive(Debug)]
#[verifier::reject_recursive_types(P)]
pub struct BuildCommand<P> {
    /// The token that the backend interprets.
    pub input: Vec<u8>,
    /// Incoming payload limit of the channel to build.
    pub max_recv_message_len: usize,
    /// Where the channel is handed in.
    pub reply: oneshot::Sender<Result<CapnpChannel<P>, BuildError>>,
}

impl<P> BuildCommand<P> {
    /// This asks for a channel built from `input` under the limit of `builder`.
    pub open spec fn comes_from(self, builder: CapnpBuilder<P>, input: Seq<u8>) -> bool {
        &&& self.input@ == input
        &&& self.max_recv_message_len == builder.limit()
    }

    /// Take this request up, unless nobody waits for its channel any more: an
    /// abandoned request is discarded so that no unused channel is created.
    pub fn take_up(self, abandoned: bool) -> (taken: Option<Self>)
        ensures
            taken == (if abandoned {
                None
            } else {
                Some(self)
            }),
    {
        if abandoned {
            None
        } else {
            Some(self)
        }
    }
}

/// Remote builder accepting opaque byte tokens interpreted by the backend.
///
/// One build RPC runs at a time, with one queued request. Cancellation retains
/// the active slot until completion or disconnection; abandoned queued requests
/// are discarded to avoid creating unused channels.
#[derive(Debug)]
#[verifier::reject_recursive_types(P)]
pub struct CapnpBuilder<P> {
    commands: mpsc::Sender<BuildCommand<P>>,
    max_recv_message_len: usize,
    link: Arc<Link>,
}

impl<P> CapnpBuilder<P> {
    /// Where build requests go.
    pub closed spec fn queue(self) -> mpsc::Sender<BuildCommand<P>> {
        self.commands
    }

    /// Incoming payload limit for channels requested from now on.
    pub closed spec fn limit(self) -> usize {
        self.max_recv_message_len
    }

    /// The link kept alive.
    pub closed spec fn carrier(self) -> Arc<Link> {
        self.link
    }

    /// A builder over a new link, and what the driver of that link needs.
    ///
    /// `max_message_len` sets the maximum outgoing payload size in bytes
    /// for channels created by this builder.
    pub fn connect(max_message_len: usize) -> (made: (Self, LinkEnds<BuildCommand<P>>))
        ensures
            made.0.limit() == usize::MAX,
            made.0.carrier().send_limit() == max_message_len,
            queues::are_ends(1, made.0.queue(), made.1.commands),
            queues::are_ends(1, made.0.carrier().life(), made.1.lifetime),
    {
        let (link, lifetime) = new_link(max_message_len);
        let (commands, receiver) = bounded(1);
        (
            Self { commands, max_recv_message_len: usize::MAX, link },
            LinkEnds { commands: receiver, lifetime },
        )
    }

    /// Set the incoming payload limit for subsequently requested channels.
    ///
    /// Existing channels retain their limits. See
    /// [`CapnpChannel::set_max_recv_message_len`] for receive semantics.
    pub fn set_max_recv_message_len(&mut self, max: usize)
        ensures
            final(self).limit() == max,
            final(self).queue() == old(self).queue(),
            final(self).carrier() == old(self).carrier(),
    {
        self.max_recv_message_len = max;
    }

    /// Treat this remote builder as an inbound builder with unit input.
    pub fn into_acceptor(self) -> (acceptor: CapnpAcceptor<P>)
        ensures
            acceptor.builder() == self,
    {
        CapnpAcceptor(self)
    }

    /// Where build requests go.
    pub fn commands(&self) -> (commands: &mpsc::Sender<BuildCommand<P>>)
        ensures
            *commands == self.queue(),
    {
        &self.commands
    }

    /// The link that built channels keep alive too.
    pub fn link(&self) -> (link: &Arc<Link>)
        ensures
            *link == self.carrier(),
    {
        &self.link
    }

    /// The request to submit for a channel built from `input`.
    pub fn request(
        &self,
        input: &Vec<u8>,
        reply: oneshot::Sender<Result<CapnpChannel<P>, BuildError>>,
    ) -> (command: BuildCommand<P>)
        ensures
            command.comes_from(*self, input@),
            command.reply == reply,
    {
        BuildCommand {
            input: input.clone(),
            max_recv_message_len: self.max_recv_message_len,
            reply,
        }
    }
}

/// Inbound remote builder. Sends an empty token for each acceptance request.
#[derive(Debug)]
#[verifier::reject_recursive_types(P)]
pub struct CapnpAcceptor<P>(CapnpBuilder<P>);

impl<P> CapnpAcceptor<P> {
    /// The builder asked for each accepted channel.
    pub closed spec fn builder(self) -> CapnpBuilder<P> {
        self.0
    }

    /// Where build requests go.
    pub fn commands(&self) -> (commands: &mpsc::Sender<BuildCommand<P>>)
        ensures
            *commands == self.builder().queue(),
    {
        self.0.commands()
    }

    /// The request to submit for the next accepted channel.
    pub fn request(
        &self,
        reply: oneshot::Sender<Result<CapnpChannel<P>, BuildError>>,
    ) -> (command: BuildCommand<P>)
        ensures
            command.comes_from(self.builder(), Seq::<u8>::empty()),
            command.reply == reply,
    {
        let token: Vec<u8> = Vec::new();
        self.0.request(&token, reply)
    }
}

/// What a build comes to, given its reply: one that never comes, because the request
/// was not taken or its answer was dropped, means that the builder is unreachable. A
/// built channel is separated into its directions.
pub fn settle_build<P>(
    reply: Option<Result<CapnpChannel<P>, BuildError>>,
) -> (outcome: Result<CapnpDuplex<P>, BuildError>)
    ensures
        match reply {
            None => outcome matches Err(BuildError::Unreachable),
            Some(Err(error)) => outcome matches Err(failure) && failure == error,
            Some(Ok(channel)) => outcome matches Ok(duplex) && channel.separates_into(duplex),
        },
{
    match reply {
        None => Err(BuildError::Unreachable),
        Some(Err(error)) => Err(error),
        Some(Ok(channel)) => Ok(channel.into_channel()),
    }
}

/// A built channel, and what its driver is to carry out on which remote capability.
#[derive(Debug)]
pub struct Built<C, P> {
    /// The channel.
    pub channel: CapnpChannel<P>,
    /// The remote capability that the build call handed out.
    pub remote: C,
    /// The commands to carry out on it.
    pub commands: mpsc::Receiver<ChannelCommand>,
}

impl<C, P> Built<C, P> {
    /// The channel is a new one over `link`: a peer made anew, nothing received yet, `max` for
    /// its incoming limit, one slot for sends, and its commands going to the driver.
    pub open spec fn is_new_over(self, link: Arc<Link>, max: usize) -> bool {
        &&& self.channel.carrier() == link
        &&& self.channel.remote().is_made_anew()
        &&& self.channel.receiving()@.outstanding is None
        &&& self.channel.receiving()@.limit == max
        &&& channel::made_for(*self.channel.slot(), 1)
        &&& queues::are_ends(COMMAND_QUEUE_CAPACITY, self.channel.queue(), self.commands)
    }
}

/// What a build call comes to for the driver: a channel over the standing link with
/// the requested incoming limit, or the failure to report.
pub fn conclude_build<C, P>(
    answer: Result<BuildReply<C>, capnp::Error>,
    link: Option<Arc<Link>>,
    max_recv_message_len: usize,
) -> (outcome: Result<Built<C, P>, BuildError>)
    ensures
        match answer {
            Err(error) => outcome matches Err(failure) && failure.reports(error),
            Ok(BuildReply::Unreachable) => outcome matches Err(BuildError::Unreachable),
            Ok(BuildReply::Failed(text)) => outcome matches Err(BuildError::Transport(error))
                && error.text() == text@,
            Ok(BuildReply::Built(capability)) => match link {
                None => outcome matches Err(BuildError::Unreachable),
                Some(link) => outcome matches Ok(built) && built.remote == capability
                    && built.is_new_over(link, max_recv_message_len),
            },
        },
{
    match build_outcome(answer, link) {
        Err(error) => Err(error),
        Ok((remote, link)) => {
            let (channel, commands) = CapnpChannel::over(link, max_recv_message_len);
            Ok(Built { channel, remote, commands })
        },
    }
}

/// A channel that a builder asked for comes with the limits that the builder had when
/// it asked: the incoming one set last, and the outgoing one of its link. Setting
/// another limit on the builder afterwards changes nothing of it.
pub proof fn built_channels_inherit_the_limits<C, P>(
    builder: CapnpBuilder<P>,
    input: Seq<u8>,
    command: BuildCommand<P>,
    built: Built<C, P>,
)
    requires
        command.comes_from(builder, input),
        built.is_new_over(builder.carrier(), command.max_recv_message_len),
    ensures
        built.channel.receiving()@.limit == builder.limit(),
        built.channel.carrier().send_limit() == builder.carrier().send_limit(),
{
}

/// A request carries its token byte for byte, and the limit that its builder has.
pub proof fn a_request_carries_its_token<P>(
    command: BuildCommand<P>,
    builder: CapnpBuilder<P>,
    input: Seq<u8>,
)
    requires
        command.comes_from(builder, input),
    ensures
        command.input@ == input,
        command.max_recv_message_len == builder.limit(),
{
}

/// A built channel begins afresh over its link: with a peer of its own, one slot for sends,
/// nothing outstanding, the limit asked for, and its commands going to its driver.
pub proof fn a_built_channel_begins_afresh<C, P>(built: Built<C, P>, link: Arc<Link>, max: usize)
    requires
        built.is_new_over(link, max),
    ensures
        built.channel.carrier() == link,
        built.channel.remote().is_made_anew(),
        built.channel.receiving()@.outstanding is None,
        built.channel.receiving()@.limit == max,
        channel::made_for(*built.channel.slot(), 1),
        queues::are_ends(2, built.channel.queue(), built.commands),
{
}

} // verus!
