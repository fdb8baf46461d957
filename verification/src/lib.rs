//! Server-side WebSocket core: the RFC 6455 upgrade handshake and the
//! message-channel state machine that turns protocol frames into
//! application-visible messages.
//!
//! The handshake side checks the five upgrade preconditions, derives the
//! accept key and builds the switching-protocols response. The channel side
//! is the duplex adapter's decision logic: content frames become messages,
//! pings are answered (or the reply dropped under backpressure), pongs are
//! discarded, and a close or end-of-file ends the message sequence normally,
//! distinct from a transport failure.
pub mod accept;
pub mod channel;
pub mod handshake;
pub mod message;
