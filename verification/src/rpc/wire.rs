//! What travels back over the link, and what each side makes of it.

use crate::rpc::error::{
    rpc_build_error, rpc_recv_error, rpc_send_error, BuildError, RecvError, SendError,
};
use crate::text;
use crate::transport::error::BoxError;
use vstd::prelude::*;
use vstd::slice::slice_to_vec;

verus! {

/// The remote side's answer to a send call.
#[derive(Debug)]
pub enum SendReply {
    /// The backend took the message.
    Accepted,
    /// The backend rejected the payload length, naming its maximum.
    TooLarge(u64),
    /// The backend is closed.
    Closed,
    /// The backend failed, with a diagnostic.
    Failed(String),
}

/// The remote side's answer to a receive call, read in place.
#[derive(Debug)]
pub enum RecvReply<'a> {
    /// A complete payload.
    Message(&'a [u8]),
    /// The backend is closed.
    Closed,
    /// The backend failed, with a diagnostic.
    Failed(String),
}

/// The remote side's answer to a build call, with the capability it hands out.
#[derive(Debug)]
pub enum BuildReply<C> {
    /// A channel was built.
    Built(C),
    /// The peer cannot be reached.
    Unreachable,
    /// The backend failed, with a diagnostic.
    Failed(String),
}

/// `max` as a length of this machine, or the largest one if it does not fit.
pub open spec fn saturated(max: u64) -> usize {
    if max <= usize::MAX {
        max as usize
    } else {
        usize::MAX
    }
}

impl SendReply {
    /// `outcome` is what the caller of a send learns from this answer.
    pub open spec fn means(self, outcome: Result<(), SendError>) -> bool {
        match self {
            SendReply::Accepted => outcome is Ok,
            SendReply::TooLarge(max) => outcome matches Err(SendError::TooLarge { max: limit })
                && limit == saturated(max),
            SendReply::Closed => outcome matches Err(SendError::Closed),
            SendReply::Failed(text) => outcome matches Err(SendError::Transport(error))
                && error.text() == text@,
        }
    }

    /// This is what `outcome` of the backend is answered with: an accepted message, a
    /// length limit and a closed channel keep their category, every other failure is
    /// sent as its text.
    pub open spec fn answers(self, outcome: Result<(), SendError>) -> bool {
        match outcome {
            Ok(_) => self is Accepted,
            Err(SendError::TooLarge { max }) => self == SendReply::TooLarge(max as u64),
            Err(SendError::Closed) => self is Closed,
            Err(SendError::Transport(error)) => self matches SendReply::Failed(text) && text@
                == SendError::Transport(error).text(),
        }
    }
}

impl<'a> RecvReply<'a> {
    /// `outcome` is what the caller of a receive with the limit `max` learns from this
    /// answer. A payload over the limit is not copied.
    pub open spec fn means(self, max: usize, outcome: Result<Vec<u8>, RecvError>) -> bool {
        match self {
            RecvReply::Message(message) => if message@.len() > max {
                outcome matches Err(RecvError::TooLarge { max: limit }) && limit == max
            } else {
                outcome matches Ok(payload) && payload@ == message@
            },
            RecvReply::Closed => outcome matches Err(RecvError::Closed),
            RecvReply::Failed(text) => outcome matches Err(RecvError::Transport(error))
                && error.text() == text@,
        }
    }

    /// This is what `outcome` of the backend is answered with: a payload and a closed
    /// channel keep their category, every other failure is sent as its text, a length
    /// limit of the backend among them.
    pub open spec fn answers(self, outcome: Result<Vec<u8>, RecvError>) -> bool {
        match outcome {
            Ok(payload) => self matches RecvReply::Message(message) && message@ == payload@,
            Err(RecvError::Closed) => self is Closed,
            Err(error) => self matches RecvReply::Failed(text) && text@ == error.text(),
        }
    }
}

impl<C> BuildReply<C> {
    /// `outcome` is what the caller of a build learns from this answer, where `link`
    /// is the link that the built channel is to keep alive, if it still stands.
    pub open spec fn means<L>(self, link: Option<L>, outcome: Result<(C, L), BuildError>) -> bool {
        match self {
            BuildReply::Built(capability) => match link {
                Some(link) => outcome == Ok::<(C, L), BuildError>((capability, link)),
                None => outcome matches Err(BuildError::Unreachable),
            },
            BuildReply::Unreachable => outcome matches Err(BuildError::Unreachable),
            BuildReply::Failed(text) => outcome matches Err(BuildError::Transport(error))
                && error.text() == text@,
        }
    }

    /// This is what `outcome` of the backend is answered with: a built channel and an
    /// unreachable peer keep their category, every other failure is sent as its text.
    pub open spec fn answers(self, outcome: Result<C, BuildError>) -> bool {
        match outcome {
            Ok(capability) => self == BuildReply::Built(capability),
            Err(BuildError::Unreachable) => self is Unreachable,
            Err(BuildError::Transport(error)) => self matches BuildReply::Failed(text) && text@
                == BuildError::Transport(error).text(),
        }
    }
}

/// What a send call comes to: its answer, or the RPC failure that took its place.
pub fn send_outcome(answer: Result<SendReply, capnp::Error>) -> (outcome: Result<(), SendError>)
    ensures
        match answer {
            Ok(reply) => reply.means(outcome),
            Err(error) => outcome matches Err(failure) && failure.reports(error),
        },
{
    match answer {
        Err(error) => Err(rpc_send_error(error)),
        Ok(SendReply::Accepted) => Ok(()),
        Ok(SendReply::TooLarge(max)) => {
            let limit: usize = if max <= usize::MAX as u64 {
                max as usize
            } else {
                usize::MAX
            };
            Err(SendError::TooLarge { max: limit })
        },
        Ok(SendReply::Closed) => Err(SendError::Closed),
        Ok(SendReply::Failed(text)) => Err(SendError::Transport(BoxError::new(text.as_str()))),
    }
}

/// What a receive call with the limit `max` comes to: its answer, or the RPC failure
/// that took its place.
pub fn recv_outcome(
    answer: Result<RecvReply<'_>, capnp::Error>,
    max: usize,
) -> (outcome: Result<Vec<u8>, RecvError>)
    ensures
        match answer {
            Ok(reply) => reply.means(max, outcome),
            Err(error) => outcome matches Err(failure) && failure.reports(error),
        },
{
    match answer {
        Err(error) => Err(rpc_recv_error(error)),
        Ok(RecvReply::Message(message)) => {
            if message.len() > max {
                Err(RecvError::TooLarge { max })
            } else {
                Ok(slice_to_vec(message))
            }
        },
        Ok(RecvReply::Closed) => Err(RecvError::Closed),
        Ok(RecvReply::Failed(text)) => Err(RecvError::Transport(BoxError::new(text.as_str()))),
    }
}

/// What a build call comes to: the capability together with the link it keeps alive,
/// or the failure that took its place.
pub fn build_outcome<C, L>(
    answer: Result<BuildReply<C>, capnp::Error>,
    link: Option<L>,
) -> (outcome: Result<(C, L), BuildError>)
    ensures
        match answer {
            Ok(reply) => reply.means(link, outcome),
            Err(error) => outcome matches Err(failure) && failure.reports(error),
        },
{
    match answer {
        Err(error) => Err(rpc_build_error(error)),
        Ok(BuildReply::Built(capability)) => match link {
            Some(link) => Ok((capability, link)),
            None => Err(BuildError::Unreachable),
        },
        Ok(BuildReply::Unreachable) => Err(BuildError::Unreachable),
        Ok(BuildReply::Failed(text)) => Err(BuildError::Transport(BoxError::new(text.as_str()))),
    }
}

/// The answer to a send call whose backend came to `outcome`.
pub fn send_reply(outcome: Result<(), SendError>) -> (reply: SendReply)
    ensures
        reply.answers(outcome),
{
    match outcome {
        Ok(()) => SendReply::Accepted,
        Err(SendError::TooLarge { max }) => SendReply::TooLarge(max as u64),
        Err(SendError::Closed) => SendReply::Closed,
        Err(error) => SendReply::Failed(error.to_string()),
    }
}

/// The answer to a receive call whose backend came to `outcome`.
pub fn recv_reply<'a>(outcome: &'a Result<Vec<u8>, RecvError>) -> (reply: RecvReply<'a>)
    ensures
        reply.answers(*outcome),
{
    match outcome {
        Ok(message) => RecvReply::Message(message.as_slice()),
        Err(RecvError::Closed) => RecvReply::Closed,
        Err(error) => RecvReply::Failed(error.to_string()),
    }
}

/// The answer to a build call whose backend came to `outcome`.
pub fn build_reply<C>(outcome: Result<C, BuildError>) -> (reply: BuildReply<C>)
    ensures
        reply.answers(outcome),
{
    match outcome {
        Ok(capability) => BuildReply::Built(capability),
        Err(BuildError::Unreachable) => BuildReply::Unreachable,
        Err(error) => BuildReply::Failed(error.to_string()),
    }
}

/// Crossing the link keeps what a send came to: success stays success, a length
/// limit and a closed channel keep their category, and any other failure arrives as
/// a transport failure whose text is the text it had.
pub proof fn send_outcome_crosses_the_link(
    there: Result<(), SendError>,
    reply: SendReply,
    here: Result<(), SendError>,
)
    requires
        reply.answers(there),
        reply.means(here),
    ensures
        match there {
            Ok(_) => here is Ok,
            Err(SendError::TooLarge { max }) => here matches Err(SendError::TooLarge {
                max: limit,
            }) && limit == max,
            Err(SendError::Closed) => here matches Err(SendError::Closed),
            Err(SendError::Transport(cause)) => here matches Err(SendError::Transport(error))
                && error.text() == SendError::Transport(cause).text(),
        },
{
}

/// Crossing the link keeps what a receive came to: a payload within the limit arrives
/// unchanged, one over it is reported as such, a closed channel stays closed, and any
/// other failure of the backend arrives as a transport failure with the same text.
pub proof fn recv_outcome_crosses_the_link(
    there: Result<Vec<u8>, RecvError>,
    reply: RecvReply<'_>,
    max: usize,
    here: Result<Vec<u8>, RecvError>,
)
    requires
        reply.answers(there),
        reply.means(max, here),
    ensures
        match there {
            Ok(message) => if message@.len() <= max {
                here matches Ok(payload) && payload@ == message@
            } else {
                here matches Err(RecvError::TooLarge { max: limit }) && limit == max
            },
            Err(RecvError::Closed) => here matches Err(RecvError::Closed),
            Err(cause) => here matches Err(RecvError::Transport(error)) && error.text()
                == cause.text(),
        },
{
}

/// Crossing the link keeps what a build came to: the built capability arrives while
/// the link stands, an unreachable peer stays unreachable, and any other failure of
/// the backend arrives as a transport failure with the same text.
pub proof fn build_outcome_crosses_the_link<C, L>(
    there: Result<C, BuildError>,
    reply: BuildReply<C>,
    link: L,
    here: Result<(C, L), BuildError>,
)
    requires
        reply.answers(there),
        reply.means(Some(link), here),
    ensures
        match there {
            Ok(capability) => here == Ok::<(C, L), BuildError>((capability, link)),
            Err(BuildError::Unreachable) => here matches Err(BuildError::Unreachable),
            Err(BuildError::Transport(cause)) => here matches Err(BuildError::Transport(error))
                && error.text() == BuildError::Transport(cause).text(),
        },
{
}

/// A send is answered by category: that it was accepted exactly if it was, a length limit by
/// that limit, a closed channel as closed, and every other failure by its text.
pub proof fn a_send_is_answered_by_category(reply: SendReply, outcome: Result<(), SendError>)
    requires
        reply.answers(outcome),
    ensures
        reply is Accepted <==> outcome is Ok,
        reply is TooLarge <==> (outcome matches Err(error) && error is TooLarge),
        outcome matches Err(SendError::TooLarge { max }) ==> (reply matches SendReply::TooLarge(
            limit,
        ) && limit == max),
        reply is Closed <==> (outcome matches Err(error) && error is Closed),
        outcome matches Err(SendError::Transport(cause)) ==> (reply matches SendReply::Failed(text)
            && text@ == "transport: "@ + cause.text()),
{
}

/// An answer to a send means what it says: success exactly if it was accepted, a length limit
/// as that limit or the largest length there is, a closed channel as closed, and a diagnostic
/// as a transport failure that says just that.
pub proof fn an_answer_to_a_send_means_what_it_says(
    reply: SendReply,
    outcome: Result<(), SendError>,
)
    requires
        reply.means(outcome),
    ensures
        outcome is Ok <==> reply is Accepted,
        reply matches SendReply::TooLarge(limit) ==> (outcome matches Err(SendError::TooLarge {
            max,
        }) && (limit <= usize::MAX ==> max == limit) && (limit > usize::MAX ==> max == usize::MAX)),
        reply is Closed ==> (outcome matches Err(SendError::Closed)),
        reply matches SendReply::Failed(text) ==> (outcome matches Err(SendError::Transport(cause))
            && cause.text() == text@),
{
}

/// A receive is answered by category: a message by its bytes, a closed channel as closed, and
/// every other failure by its text, a length limit among them.
pub proof fn a_receive_is_answered_by_category(
    reply: RecvReply<'_>,
    outcome: Result<Vec<u8>, RecvError>,
)
    requires
        reply.answers(outcome),
    ensures
        reply is Message <==> outcome is Ok,
        outcome matches Ok(payload) ==> (reply matches RecvReply::Message(message) && message@
            == payload@),
        reply is Closed <==> (outcome matches Err(error) && error is Closed),
        outcome matches Err(RecvError::Transport(cause)) ==> (reply matches RecvReply::Failed(text)
            && text@ == "transport: "@ + cause.text()),
        outcome matches Err(RecvError::TooLarge { max }) ==> (reply matches RecvReply::Failed(text)
            && text@ == "received message exceeds "@ + text::decimal(max as nat) + " bytes"@),
{
}

/// An answer to a receive means what it says: a message that is no longer than the limit is
/// received byte for byte, a longer one is refused with the limit, a closed channel is closed,
/// and a diagnostic is a transport failure that says just that.
pub proof fn an_answer_to_a_receive_means_what_it_says(
    reply: RecvReply<'_>,
    max: usize,
    outcome: Result<Vec<u8>, RecvError>,
)
    requires
        reply.means(max, outcome),
    ensures
        reply matches RecvReply::Message(message) ==> {
            &&& outcome is Ok <==> message@.len() <= max
            &&& outcome matches Ok(payload) ==> payload@ == message@
            &&& outcome matches Err(error) ==> (error matches RecvError::TooLarge { max: limit }
                && limit == max)
        },
        reply is Closed ==> (outcome matches Err(RecvError::Closed)),
        reply matches RecvReply::Failed(text) ==> (outcome matches Err(RecvError::Transport(cause))
            && cause.text() == text@),
{
}

/// A build is answered by category: a built channel by itself, an unreachable peer as such, and
/// every other failure by its text.
pub proof fn a_build_is_answered_by_category<C>(
    reply: BuildReply<C>,
    outcome: Result<C, BuildError>,
)
    requires
        reply.answers(outcome),
    ensures
        reply is Built <==> outcome is Ok,
        outcome matches Ok(capability) ==> (reply matches BuildReply::Built(given) && given
            == capability),
        reply is Unreachable <==> (outcome matches Err(error) && error is Unreachable),
        outcome matches Err(BuildError::Transport(cause)) ==> (reply matches BuildReply::Failed(
            text,
        ) && text@ == "transport: "@ + cause.text()),
{
}

/// An answer to a build means what it says: a channel exactly if one was built and its link
/// still stands, with that link, and otherwise an unreachable peer or a diagnostic.
pub proof fn an_answer_to_a_build_means_what_it_says<C, L>(
    reply: BuildReply<C>,
    link: Option<L>,
    outcome: Result<(C, L), BuildError>,
)
    requires
        reply.means(link, outcome),
    ensures
        outcome is Ok <==> reply is Built && link is Some,
        outcome matches Ok(built) ==> (reply matches BuildReply::Built(given) && given == built.0
            && link == Some(built.1)),
        reply is Built && link is None ==> (outcome matches Err(BuildError::Unreachable)),
        reply is Unreachable ==> (outcome matches Err(BuildError::Unreachable)),
        reply matches BuildReply::Failed(text) ==> (outcome matches Err(BuildError::Transport(
            cause,
        )) && cause.text() == text@),
{
}

} // verus!
