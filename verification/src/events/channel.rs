//! What travels over the message channel, as the protocol code sees it.

use vstd::prelude::*;
use vstd::utf8::encode_utf8;

verus! {

/// One frame of the channel.
#[derive(Clone, Debug, PartialEq, Eq)]
pub enum Frame {
    /// A payload sent as text.
    Text(String),
    /// A payload sent as bytes.
    Binary(Vec<u8>),
    /// A keep-alive request, to be answered by a pong of the same data.
    Ping(Vec<u8>),
    /// The answer to a keep-alive request.
    Pong(Vec<u8>),
    /// The peer closes the connection.
    Close,
}

/// What a [`Frame`] holds, as mathematical values.
pub enum FrameView {
    Text(Seq<char>),
    Binary(Seq<u8>),
    Ping(Seq<u8>),
    Pong(Seq<u8>),
    Close,
}

impl View for Frame {
    type V = FrameView;

    open spec fn view(&self) -> FrameView {
        match self {
            Frame::Text(text) => FrameView::Text(text@),
            Frame::Binary(data) => FrameView::Binary(data@),
            Frame::Ping(data) => FrameView::Ping(data@),
            Frame::Pong(data) => FrameView::Pong(data@),
            Frame::Close => FrameView::Close,
        }
    }
}

impl FrameView {
    /// The bytes of the payload that a text or binary frame carries.
    pub open spec fn payload(self) -> Option<Seq<u8>> {
        match self {
            FrameView::Text(text) => Some(encode_utf8(text)),
            FrameView::Binary(data) => Some(data),
            _ => None,
        }
    }
}

/// What one read of the channel gave.
#[derive(Clone, Debug, PartialEq, Eq)]
pub enum Received {
    /// The next frame.
    Frame(Frame),
    /// The channel failed, on this read or on the write before it; the
    /// text says how.
    Failed(String),
    /// The channel has no further frames.
    Exhausted,
}

/// What a [`Received`] holds, as mathematical values.
pub enum ReceivedView {
    Frame(FrameView),
    Failed(Seq<char>),
    Exhausted,
}

impl View for Received {
    type V = ReceivedView;

    open spec fn view(&self) -> ReceivedView {
        match self {
            Received::Frame(frame) => ReceivedView::Frame(frame@),
            Received::Failed(text) => ReceivedView::Failed(text@),
            Received::Exhausted => ReceivedView::Exhausted,
        }
    }
}

} // verus!
