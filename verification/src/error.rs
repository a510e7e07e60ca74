//! The errors that the handshake and the event stream report.

use vstd::prelude::*;

verus! {

/// A failure of the connection, of a payload or of the protocol. Each
/// carries a text for the caller to log.
#[derive(Clone, Debug, PartialEq, Eq)]
pub enum EventError {
    /// The channel failed or closed while more frames were needed.
    Transport(String),
    /// A payload could not be decoded.
    Decode(String),
    /// The service answered with an unexpected status, disconnected the
    /// client, or nothing was asked for.
    Protocol(String),
}

/// What an [`EventError`] holds, as mathematical values.
pub enum EventErrorView {
    Transport(Seq<char>),
    Decode(Seq<char>),
    Protocol(Seq<char>),
}

impl View for EventError {
    type V = EventErrorView;

    open spec fn view(&self) -> EventErrorView {
        match self {
            EventError::Transport(text) => EventErrorView::Transport(text@),
            EventError::Decode(text) => EventErrorView::Decode(text@),
            EventError::Protocol(text) => EventErrorView::Protocol(text@),
        }
    }
}

/// The kind of an error and the text it carries, but for a decode
/// error, whose text is the decoder's own.
pub enum Fault {
    Transport(Seq<char>),
    Decode,
    Protocol(Seq<char>),
}

impl EventErrorView {
    /// The error without the text of a decode error.
    pub open spec fn fault(self) -> Fault {
        match self {
            EventErrorView::Transport(text) => Fault::Transport(text),
            EventErrorView::Decode(_) => Fault::Decode,
            EventErrorView::Protocol(text) => Fault::Protocol(text),
        }
    }

    /// The text that the error carries.
    pub open spec fn text(self) -> Seq<char> {
        match self {
            EventErrorView::Transport(text) => text,
            EventErrorView::Decode(text) => text,
            EventErrorView::Protocol(text) => text,
        }
    }
}

impl EventError {
    /// The text that the error carries.
    pub fn to_string(&self) -> (text: String)
        ensures
            text@ == self@.text(),
    {
        match self {
            EventError::Transport(text) => text.clone(),
            EventError::Decode(text) => text.clone(),
            EventError::Protocol(text) => text.clone(),
        }
    }
}

} // verus!
