//! Encoding and decoding of the wire frames the client exchanges with a
//! broker. Everything here is a pure function on bytes.

pub mod connack;
pub mod connect;
pub mod error;
pub mod inbound;
pub mod publish;
pub mod remaining_length;
pub mod subscribe;
pub mod wire;
