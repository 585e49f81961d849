//! Failures of a bridged channel.

use crate::text;
use crate::transport::error::{self, BoxError};
use vstd::prelude::*;

verus! {

/// A bridge or remote send failure.
#[derive(Debug)]
pub enum SendError {
    /// The bridge or backend rejected the payload length.
    TooLarge {
        /// Maximum supported message length in bytes.
        max: usize,
    },
    /// The RPC channel is closed.
    Closed,
    /// An RPC or backend failure, preserving its cause locally.
    Transport(BoxError),
}

/// A bridge or remote receive failure.
#[derive(Debug)]
pub enum RecvError {
    /// The local receive limit rejected a complete payload; the channel remains usable.
    TooLarge {
        /// Maximum accepted incoming payload length in bytes.
        max: usize,
    },
    /// The RPC channel is closed.
    Closed,
    /// An RPC or backend failure, preserving its cause locally.
    Transport(BoxError),
}

/// A bridge or remote build failure.
#[derive(Debug)]
pub enum BuildError {
    /// The builder or the peer it was asked for cannot be reached.
    Unreachable,
    /// An RPC or backend failure, preserving its cause locally.
    Transport(BoxError),
}

impl SendError {
    /// The message shown for this failure.
    pub open spec fn text(self) -> Seq<char> {
        match self {
            SendError::TooLarge { max } => "message exceeds "@ + text::decimal(max as nat)
                + " bytes"@,
            SendError::Closed => "RPC channel closed"@,
            SendError::Transport(error) => "transport: "@ + error.text(),
        }
    }

    /// The message shown for this failure.
    pub fn to_string(&self) -> (text: String)
        ensures
            text@ == self.text(),
    {
        match self {
            SendError::TooLarge { max } => {
                let mut text = "message exceeds ".to_owned();
                text.append(text::to_decimal(*max).as_str());
                text.append(" bytes");
                text
            },
            SendError::Closed => "RPC channel closed".to_owned(),
            SendError::Transport(error) => "transport: ".to_owned().concat(
                error.to_string().as_str(),
            ),
        }
    }

    /// The failure behind this one, if the link or the backend failed.
    pub fn source(&self) -> (source: Option<&BoxError>)
        ensures
            match *self {
                SendError::Transport(error) => source == Some(&error),
                SendError::TooLarge { .. } | SendError::Closed => source is None,
            },
    {
        match self {
            SendError::Transport(error) => Some(error),
            SendError::TooLarge { .. } | SendError::Closed => None,
        }
    }
}

impl RecvError {
    /// The message shown for this failure.
    pub open spec fn text(self) -> Seq<char> {
        match self {
            RecvError::TooLarge { max } => "received message exceeds "@ + text::decimal(
                max as nat,
            ) + " bytes"@,
            RecvError::Closed => "RPC channel closed"@,
            RecvError::Transport(error) => "transport: "@ + error.text(),
        }
    }

    /// The message shown for this failure.
    pub fn to_string(&self) -> (text: String)
        ensures
            text@ == self.text(),
    {
        match self {
            RecvError::TooLarge { max } => {
                let mut text = "received message exceeds ".to_owned();
                text.append(text::to_decimal(*max).as_str());
                text.append(" bytes");
                text
            },
            RecvError::Closed => "RPC channel closed".to_owned(),
            RecvError::Transport(error) => "transport: ".to_owned().concat(
                error.to_string().as_str(),
            ),
        }
    }

    /// The failure behind this one, if the link or the backend failed.
    pub fn source(&self) -> (source: Option<&BoxError>)
        ensures
            match *self {
                RecvError::Transport(error) => source == Some(&error),
                RecvError::TooLarge { .. } | RecvError::Closed => source is None,
            },
    {
        match self {
            RecvError::Transport(error) => Some(error),
            RecvError::TooLarge { .. } | RecvError::Closed => None,
        }
    }
}

impl BuildError {
    /// The message shown for this failure.
    pub open spec fn text(self) -> Seq<char> {
        match self {
            BuildError::Unreachable => "peer unreachable"@,
            BuildError::Transport(error) => "transport: "@ + error.text(),
        }
    }

    /// The message shown for this failure.
    pub fn to_string(&self) -> (text: String)
        ensures
            text@ == self.text(),
    {
        match self {
            BuildError::Unreachable => "peer unreachable".to_owned(),
            BuildError::Transport(error) => "transport: ".to_owned().concat(
                error.to_string().as_str(),
            ),
        }
    }

    /// The failure behind this one, if the link or the backend failed.
    pub fn source(&self) -> (source: Option<&BoxError>)
        ensures
            match *self {
                BuildError::Transport(error) => source == Some(&error),
                BuildError::Unreachable => source is None,
            },
    {
        match self {
            BuildError::Transport(error) => Some(error),
            BuildError::Unreachable => None,
        }
    }
}

/// The error of the RPC library, carried through as it is.
#[verifier::external_type_specification]
#[verifier::external_body]
pub struct ExRpcError(capnp::Error);

/// Compares the `kind` of a `capnp::Error` with `capnp::ErrorKind::Disconnected`.
///
/// Nothing is claimed of the answer: the error is opaque, so there is no value to
/// state it over. Each caller says what follows from either answer.
#[verifier::external_body]
fn is_disconnected(error: &capnp::Error) -> bool {
    error.kind == capnp::ErrorKind::Disconnected
}

/// Puts a `capnp::Error` in a box with `std::io::Error::other`.
///
/// Nothing is claimed of the box but that it came out of such a call: it is opaque, so
/// there is no value to state what is in it over.
#[verifier::external_body]
fn boxed(error: capnp::Error) -> std::io::Error {
    std::io::Error::other(error)
}

/// `error` may count as a lost connection, or not.
pub closed spec fn may_count_as_lost(error: capnp::Error, disconnected: bool) -> bool {
    call_ensures(is_disconnected, (&error,), disconnected)
}

/// `cause` is `error` in a box.
pub closed spec fn is_boxed(error: capnp::Error, cause: std::io::Error) -> bool {
    call_ensures(boxed, (error,), cause)
}

/// `failure` keeps `error` itself, with the description that it gives of itself.
pub open spec fn keeps(failure: BoxError, error: capnp::Error) -> bool {
    exists|cause: std::io::Error| #[trigger]
        is_boxed(error, cause) && failure.kept() == Some(cause) && error::may_be_described(
            cause,
            failure.text(),
        )
}

/// Keep an RPC error as the cause of a failure.
pub fn keep(error: capnp::Error) -> (failure: BoxError)
    ensures
        keeps(failure, error),
{
    let cause = boxed(error);
    assert(is_boxed(error, cause));
    BoxError::of(cause)
}

impl SendError {
    /// This is how a failed send call is reported: a lost connection as a closed
    /// channel, anything else as a transport failure that keeps the error.
    pub open spec fn stands_for(self, disconnected: bool, error: capnp::Error) -> bool {
        if disconnected {
            self == SendError::Closed
        } else {
            self matches SendError::Transport(failure) && keeps(failure, error)
        }
    }

    /// This reports `error`, as it counts as a lost connection or not.
    pub open spec fn reports(self, error: capnp::Error) -> bool {
        exists|disconnected: bool| #[trigger]
            may_count_as_lost(error, disconnected) && self.stands_for(disconnected, error)
    }

    /// The failure of a send call, given whether the RPC error behind it reports a lost
    /// connection.
    pub fn from_reading(disconnected: bool, error: capnp::Error) -> (failure: SendError)
        ensures
            failure.stands_for(disconnected, error),
    {
        if disconnected {
            SendError::Closed
        } else {
            SendError::Transport(keep(error))
        }
    }
}

impl RecvError {
    /// This is how a failed receive call is reported: a lost connection as a closed
    /// channel, anything else as a transport failure that keeps the error.
    pub open spec fn stands_for(self, disconnected: bool, error: capnp::Error) -> bool {
        if disconnected {
            self == RecvError::Closed
        } else {
            self matches RecvError::Transport(failure) && keeps(failure, error)
        }
    }

    /// This reports `error`, as it counts as a lost connection or not.
    pub open spec fn reports(self, error: capnp::Error) -> bool {
        exists|disconnected: bool| #[trigger]
            may_count_as_lost(error, disconnected) && self.stands_for(disconnected, error)
    }

    /// The failure of a receive call, given whether the RPC error behind it reports a lost
    /// connection.
    pub fn from_reading(disconnected: bool, error: capnp::Error) -> (failure: RecvError)
        ensures
            failure.stands_for(disconnected, error),
    {
        if disconnected {
            RecvError::Closed
        } else {
            RecvError::Transport(keep(error))
        }
    }
}

impl BuildError {
    /// This is how a failed build call is reported: a lost connection as an
    /// unreachable peer, anything else as a transport failure that keeps the error.
    pub open spec fn stands_for(self, disconnected: bool, error: capnp::Error) -> bool {
        if disconnected {
            self == BuildError::Unreachable
        } else {
            self matches BuildError::Transport(failure) && keeps(failure, error)
        }
    }

    /// This reports `error`, as it counts as a lost connection or not.
    pub open spec fn reports(self, error: capnp::Error) -> bool {
        exists|disconnected: bool| #[trigger]
            may_count_as_lost(error, disconnected) && self.stands_for(disconnected, error)
    }

    /// The failure of a build call, given whether the RPC error behind it reports a lost
    /// connection.
    pub fn from_reading(disconnected: bool, error: capnp::Error) -> (failure: BuildError)
        ensures
            failure.stands_for(disconnected, error),
    {
        if disconnected {
            BuildError::Unreachable
        } else {
            BuildError::Transport(keep(error))
        }
    }
}

/// Classify an RPC failure met while sending.
pub fn rpc_send_error(error: capnp::Error) -> (failure: SendError)
    ensures
        failure.reports(error),
{
    let disconnected = is_disconnected(&error);
    assert(may_count_as_lost(error, disconnected));
    SendError::from_reading(disconnected, error)
}

/// Classify an RPC failure met while receiving.
pub fn rpc_recv_error(error: capnp::Error) -> (failure: RecvError)
    ensures
        failure.reports(error),
{
    let disconnected = is_disconnected(&error);
    assert(may_count_as_lost(error, disconnected));
    RecvError::from_reading(disconnected, error)
}

/// Classify an RPC failure met while building.
pub fn rpc_build_error(error: capnp::Error) -> (failure: BuildError)
    ensures
        failure.reports(error),
{
    let disconnected = is_disconnected(&error);
    assert(may_count_as_lost(error, disconnected));
    BuildError::from_reading(disconnected, error)
}

/// What each failure to send says.
pub proof fn send_failures_say_what_failed(error: SendError)
    ensures
        match error {
            SendError::TooLarge { max } => error.text() == "message exceeds "@ + text::decimal(
                max as nat,
            ) + " bytes"@,
            SendError::Closed => error.text() == "RPC channel closed"@,
            SendError::Transport(cause) => error.text() == "transport: "@ + cause.text(),
        },
{
}

/// What each failure to receive says.
pub proof fn receive_failures_say_what_failed(error: RecvError)
    ensures
        match error {
            RecvError::TooLarge { max } => error.text() == "received message exceeds "@
                + text::decimal(max as nat) + " bytes"@,
            RecvError::Closed => error.text() == "RPC channel closed"@,
            RecvError::Transport(cause) => error.text() == "transport: "@ + cause.text(),
        },
{
}

/// What each failure to build says.
pub proof fn build_failures_say_what_failed(error: BuildError)
    ensures
        match error {
            BuildError::Unreachable => error.text() == "peer unreachable"@,
            BuildError::Transport(cause) => error.text() == "transport: "@ + cause.text(),
        },
{
}

/// A lost connection closes a channel and makes a builder unreachable; every other RPC error is
/// kept itself, boxed, with the description that it gives of itself.
pub proof fn rpc_errors_are_classified_by_connection(
    error: capnp::Error,
    disconnected: bool,
    send: SendError,
    recv: RecvError,
    build: BuildError,
)
    requires
        send.stands_for(disconnected, error),
        recv.stands_for(disconnected, error),
        build.stands_for(disconnected, error),
    ensures
        disconnected ==> send is Closed && recv is Closed && build is Unreachable,
        !disconnected ==> {
            &&& send matches SendError::Transport(failure) && exists|cause: std::io::Error|
                is_boxed(error, cause) && failure.kept() == Some(cause)
                    && #[trigger] error::may_be_described(cause, failure.text())
            &&& recv matches RecvError::Transport(failure) && exists|cause: std::io::Error|
                is_boxed(error, cause) && failure.kept() == Some(cause)
                    && #[trigger] error::may_be_described(cause, failure.text())
            &&& build matches BuildError::Transport(failure) && exists|cause: std::io::Error|
                is_boxed(error, cause) && failure.kept() == Some(cause)
                    && #[trigger] error::may_be_described(cause, failure.text())
        },
{
}

/// A failure that reports an RPC error says so by whether that error counts as a lost
/// connection.
pub proof fn a_report_follows_the_error(
    error: capnp::Error,
    send: SendError,
    recv: RecvError,
    build: BuildError,
)
    requires
        send.reports(error),
        recv.reports(error),
        build.reports(error),
    ensures
        may_count_as_lost(error, send is Closed),
        may_count_as_lost(error, recv is Closed),
        may_count_as_lost(error, build is Unreachable),
        !(send is TooLarge),
        !(recv is TooLarge),
{
    let d = choose|d: bool| #[trigger] may_count_as_lost(error, d) && send.stands_for(d, error);
    assert(may_count_as_lost(error, d) && d == (send is Closed));
    let d = choose|d: bool| #[trigger] may_count_as_lost(error, d) && recv.stands_for(d, error);
    assert(may_count_as_lost(error, d) && d == (recv is Closed));
    let d = choose|d: bool| #[trigger] may_count_as_lost(error, d) && build.stands_for(d, error);
    assert(may_count_as_lost(error, d) && d == (build is Unreachable));
}

/// An error counts as a lost connection just as its kind says, and is boxed as it is.
proof fn the_kind_of_an_error_tells_a_lost_connection(
    error: capnp::Error,
    disconnected: bool,
    cause: std::io::Error,
)
    ensures
        may_count_as_lost(error, disconnected) <==> call_ensures(
            is_disconnected,
            (&error,),
            disconnected,
        ),
        is_boxed(error, cause) <==> call_ensures(boxed, (error,), cause),
{
}

} // verus!
