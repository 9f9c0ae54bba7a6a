//! A NAT-PMP port-mapping client without I/O of its own.
//!
//! The crate frames and parses the datagrams of a port-mapping exchange,
//! keeps the retransmission schedule, and decides at every step of an
//! exchange what the caller has to do next. Sockets, clocks and the HTTP
//! front end belong to the program that embeds it.

pub mod client;
pub mod retry;
pub mod service;
pub mod text;
pub mod wire;
