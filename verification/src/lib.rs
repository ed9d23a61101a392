//! Connectivity and messaging core of a sensor node: the wire codec of a
//! small publish/subscribe client, the bring-up state machine of the wireless
//! link, the session lifecycle on top of the codec, and the telemetry cycle.
//!
//! Nothing in this crate performs I/O. Every operation that needs the radio,
//! a socket, the sensor or a clock is expressed as a step function: the
//! caller performs the requested action and reports what happened.

pub mod codec;
pub mod config;
pub mod link;
pub mod session;
pub mod telemetry;
