//! The failures that a session can report.

use vstd::prelude::*;

verus! {

/// Why a call on the bridge did not give a value.
#[derive(Debug, PartialEq, Eq)]
pub enum Error {
    /// The worker process could not be created; holds the code that the
    /// operating system gave.
    Spawn(i32),
    /// A read or a write met the end of the channel: the worker is gone and
    /// the session cannot be used any more.
    ChannelClosed,
    /// A frame was malformed: a tag byte outside the protocol, a length that
    /// cannot be met, or text that is not UTF-8.
    ProtocolViolation,
    /// The runtime reported a failure while it executed, looked up or
    /// stringified; holds its message. The session stays usable.
    Evaluation(String),
}

/// The mathematical value of an [`Error`].
pub enum ErrorView {
    Spawn(i32),
    ChannelClosed,
    ProtocolViolation,
    Evaluation(Seq<char>),
}

impl View for Error {
    type V = ErrorView;

    open spec fn view(&self) -> ErrorView {
        match self {
            Error::Spawn(code) => ErrorView::Spawn(*code),
            Error::ChannelClosed => ErrorView::ChannelClosed,
            Error::ProtocolViolation => ErrorView::ProtocolViolation,
            Error::Evaluation(message) => ErrorView::Evaluation(message@),
        }
    }
}

impl Error {
    /// True for the one failure after which the session is still usable.
    pub fn is_recoverable(&self) -> (r: bool)
        ensures
            r == (self@ is Evaluation),
    {
        match self {
            Error::Evaluation(_) => true,
            _ => false,
        }
    }
}

} // verus!
