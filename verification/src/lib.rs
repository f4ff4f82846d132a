//! A library for tunneling TCP byte streams inside QUIC streams.
//!
//! The crate holds the per-connection tunnel core: the fixed TLV framing
//! carried at the start of each QUIC stream, the destination address model
//! with its IPv4-mapped wire form, the decision machines of the two bridge
//! workers that shovel bytes between the transports, the handshake rules of
//! both endpoints, the acceptor's retry backoff, and the shutdown flag that
//! every worker watches. The asynchronous transports themselves are driven
//! by the surrounding binaries; they feed events to the machines here and
//! perform the actions the machines return.

pub mod acceptor;
pub mod addr;
pub mod bridge;
pub mod handshake;
pub mod shutdown;
pub mod tlv;
