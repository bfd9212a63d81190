//! Sink side of USB Power Delivery 2.0: the bit-exact message formats, the
//! protocol engine (framing, GoodCRC, message ids, retries, resets) and the
//! sink policy engine (capability exchange and power contract negotiation).
//!
//! Both engines are step functions: they take what the layer below reported
//! and return what it should do next, so the caller owns all I/O and timing.

pub mod attach;
pub mod header;
pub mod policy_engine;
pub mod protocol_engine;
pub mod request;
pub mod sink_capabilities;
