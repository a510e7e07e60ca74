//! Client-side protocol logic for a streaming market-data feed: the
//! connect/authenticate/subscribe handshake, the decoding of message
//! batches and the projection of decoded messages into events.

pub mod api;
pub mod error;
pub mod events;
pub mod json;
pub mod text;
pub mod time;
