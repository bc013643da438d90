//! Core of a UDP echo server that runs on a userspace network stack.
//!
//! The crate holds the parts that decide: how the command line and the
//! interface list resolve to network parameters, in which order the stack is
//! brought up, what the echo worker does with each datagram, and how the
//! latency collector is set up. All packet and socket work is left to the
//! caller, which feeds events in and carries actions out.

pub mod bootstrap;
pub mod cli;
pub mod config;
pub mod error;
pub mod ipv4;
pub mod metric;
pub mod network;
pub mod pipeline;
pub mod text;
pub mod worker;
