//! Errors exposed by message-oriented transports.

use crate::text;
use vstd::prelude::*;

verus! {

/// An error of any kind in a box, which can be looked for by its type.
#[verifier::external_type_specification]
#[verifier::external_body]
pub struct ExBoxedError(std::io::Error);

/// Writes a `std::io::Error` out with its `Display` impl.
///
/// Nothing is claimed of the text: the error is opaque, so there is no value to
/// state it over. Each caller says where the text ends up.
#[verifier::external_body]
fn describe(error: &std::io::Error) -> String {
    error.to_string()
}

/// `error` may describe itself by `text`.
pub closed spec fn may_be_described(error: std::io::Error, text: Seq<char>) -> bool {
    exists|description: String| #[trigger]
        call_ensures(describe, (&error,), description) && description@ == text
}

/// An opaque backend error: the message it describes itself with, and the error itself if
/// there is more to it.
#[derive(Debug)]
pub struct BoxError {
    message: String,
    cause: Option<std::io::Error>,
}

impl BoxError {
    /// What the backend says went wrong.
    pub closed spec fn text(self) -> Seq<char> {
        self.message@
    }

    /// The error itself, if there is more to it than its message.
    pub closed spec fn kept(self) -> Option<std::io::Error> {
        self.cause
    }

    /// A backend's own description of its failure, which is all there is to it.
    pub fn new(message: &str) -> (error: Self)
        ensures
            error.text() == message@,
            error.kept() is None,
    {
        Self { message: message.to_owned(), cause: None }
    }

    /// Keep a backend's error, with the description that it gives of itself.
    pub fn of(cause: std::io::Error) -> (error: Self)
        ensures
            error.kept() == Some(cause),
            may_be_described(cause, error.text()),
    {
        let message = describe(&cause);
        assert(call_ensures(describe, (&cause,), message));
        Self { message, cause: Some(cause) }
    }

    /// What the backend says went wrong.
    pub fn to_string(&self) -> (text: String)
        ensures
            text@ == self.text(),
    {
        self.message.clone()
    }

    /// The error itself, if there is more to it than its message.
    pub fn cause(&self) -> (cause: Option<&std::io::Error>)
        ensures
            match self.kept() {
                Some(kept) => cause == Some(&kept),
                None => cause is None,
            },
    {
        self.cause.as_ref()
    }
}

/// Failure to send one message.
///
/// [`TooLarge`](SendError::TooLarge) is recoverable. Every other variant
/// means callers must replace the channel rather than use it again.
#[derive(Debug)]
#[non_exhaustive]
pub enum SendError {
    /// The message exceeds the maximum supported by this transport.
    TooLarge {
        /// Maximum supported message length in bytes.
        max: usize,
    },
    /// The channel is closed.
    Closed,
    /// A backend-specific failure occurred.
    Transport(BoxError),
}

/// Failure to receive the next message.
///
/// Every receive error makes the channel unusable. The variants are
/// diagnostic; callers recover by opening a new channel.
#[derive(Debug)]
#[non_exhaustive]
pub enum RecvError {
    /// The channel is closed.
    Closed,
    /// A backend-specific failure occurred.
    Transport(BoxError),
}

/// Failure to build or accept a channel.
#[derive(Debug)]
#[non_exhaustive]
pub enum BuildError {
    /// Construction required reaching a peer or endpoint that was unavailable.
    Unreachable,
    /// A backend-specific failure occurred.
    Transport(BoxError),
}

impl SendError {
    /// The message shown for this failure.
    pub open spec fn text(self) -> Seq<char> {
        match self {
            SendError::TooLarge { max } => "message exceeds transport maximum of "@
                + text::decimal(max as nat) + " bytes"@,
            SendError::Closed => "channel closed"@,
            SendError::Transport(error) => "transport error: "@ + error.text(),
        }
    }

    /// The message shown for this failure.
    pub fn to_string(&self) -> (text: String)
        ensures
            text@ == self.text(),
    {
        match self {
            SendError::TooLarge { max } => {
                let mut text = "message exceeds transport maximum of ".to_owned();
                text.append(text::to_decimal(*max).as_str());
                text.append(" bytes");
                text
            },
            SendError::Closed => "channel closed".to_owned(),
            SendError::Transport(error) => "transport error: ".to_owned().concat(
                error.to_string().as_str(),
            ),
        }
    }

    /// The backend failure behind this one, if a backend failed.
    pub fn source(&self) -> (source: Option<&BoxError>)
        ensures
            match *self {
                SendError::Transport(error) => source == Some(&error),
                SendError::TooLarge { .. } | SendError::Closed => source is None,
            },
    {
        match self {
            SendError::Transport(error) => Some(error),
            SendError::TooLarge { .. } | SendError::Closed => None,
        }
    }
}

impl RecvError {
    /// The message shown for this failure.
    pub open spec fn text(self) -> Seq<char> {
        match self {
            RecvError::Closed => "channel closed"@,
            RecvError::Transport(error) => "transport error: "@ + error.text(),
        }
    }

    /// The message shown for this failure.
    pub fn to_string(&self) -> (text: String)
        ensures
            text@ == self.text(),
    {
        match self {
            RecvError::Closed => "channel closed".to_owned(),
            RecvError::Transport(error) => "transport error: ".to_owned().concat(
                error.to_string().as_str(),
            ),
        }
    }

    /// The backend failure behind this one, if a backend failed.
    pub fn source(&self) -> (source: Option<&BoxError>)
        ensures
            match *self {
                RecvError::Transport(error) => source == Some(&error),
                RecvError::Closed => source is None,
            },
    {
        match self {
            RecvError::Transport(error) => Some(error),
            RecvError::Closed => None,
        }
    }
}

impl BuildError {
    /// The message shown for this failure.
    pub open spec fn text(self) -> Seq<char> {
        match self {
            BuildError::Unreachable => "peer unreachable"@,
            BuildError::Transport(error) => "transport error: "@ + error.text(),
        }
    }

    /// The message shown for this failure.
    pub fn to_string(&self) -> (text: String)
        ensures
            text@ == self.text(),
    {
        match self {
            BuildError::Unreachable => "peer unreachable".to_owned(),
            BuildError::Transport(error) => "transport error: ".to_owned().concat(
                error.to_string().as_str(),
            ),
        }
    }

    /// The backend failure behind this one, if a backend failed.
    pub fn source(&self) -> (source: Option<&BoxError>)
        ensures
            match *self {
                BuildError::Transport(error) => source == Some(&error),
                BuildError::Unreachable => source is None,
            },
    {
        match self {
            BuildError::Transport(error) => Some(error),
            BuildError::Unreachable => None,
        }
    }
}

/// What each failure to send says.
pub proof fn send_failures_say_what_failed(error: SendError)
    ensures
        match error {
            SendError::TooLarge { max } => error.text() == "message exceeds transport maximum of "@
                + text::decimal(max as nat) + " bytes"@,
            SendError::Closed => error.text() == "channel closed"@,
            SendError::Transport(cause) => error.text() == "transport error: "@ + cause.text(),
        },
{
}

/// What each failure to receive says.
pub proof fn receive_failures_say_what_failed(error: RecvError)
    ensures
        match error {
            RecvError::Closed => error.text() == "channel closed"@,
            RecvError::Transport(cause) => error.text() == "transport error: "@ + cause.text(),
        },
{
}

/// What each failure to build says.
pub proof fn build_failures_say_what_failed(error: BuildError)
    ensures
        match error {
            BuildError::Unreachable => error.text() == "peer unreachable"@,
            BuildError::Transport(cause) => error.text() == "transport error: "@ + cause.text(),
        },
{
}

/// An error is described by the text that it is written out as.
proof fn an_error_describes_itself(error: std::io::Error, description: String)
    ensures
        call_ensures(describe, (&error,), description) ==> may_be_described(error, description@),
        may_be_described(error, description@) ==> exists|written: String| #[trigger]
            call_ensures(describe, (&error,), written) && written@ == description@,
{
}

} // verus!
