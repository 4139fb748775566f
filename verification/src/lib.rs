//! Telemetry core of a network-throughput gauge.
//!
//! A subscriber receives colon-separated telemetry messages from a broker,
//! decodes the receive and transmit rates, and keeps the latest pair in a
//! one-slot store that a display polls. This crate holds the rules of that
//! pipeline: the wire format, the reaction to each broker event, the store,
//! the shutdown flag, the connection settings and the display labels.
//! Networking, threads, the window and floating-point arithmetic are the
//! caller's side; rates cross this crate as IEEE 754 bit patterns, and only
//! finite ones are ever stored or shown.

pub mod connection;
pub mod display;
pub mod lifecycle;
pub mod payload;
pub mod sample;
pub mod store;
pub mod subscriber;
pub mod text;
