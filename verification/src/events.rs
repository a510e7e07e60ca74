//! The event stream: subscriptions, the handshake and the decoded
//! messages.

pub mod channel;
pub mod codec;
pub mod exchange;
pub mod handshake;
pub mod stream;
pub mod subscription;
