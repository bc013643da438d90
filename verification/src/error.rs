//! The ways in which the configuration can fail to resolve.

use vstd::prelude::*;
use crate::network::Ipv4Network;

verus! {

/// The status with which the process ends after a configuration error.
pub const FAILURE_EXIT_CODE: i32 = 1;

/// A configuration error. Each one is final: the server does not start.
#[derive(Clone, Copy, Debug, PartialEq, Eq, Hash, Structural)]
pub enum ConfigError {
    /// No interface name was given on the command line.
    MissingInterface,
    /// No interface of the system carries the requested name.
    InterfaceNotFound,
    /// The named interface exists, but the network stack cannot drive it.
    InterfaceIncompatible,
    /// The text given for the source network is not a CIDR.
    InvalidCidr,
    /// No source network was given and the interface carries no IPv4 address.
    NoIpv4OnInterface,
    /// The text given for the source port is not a 16-bit decimal number.
    InvalidPort,
    /// The text given for the gateway is not an IPv4 address.
    InvalidGateway,
    /// No gateway was given and the source network is too small to hold one.
    CannotGuessGateway(Ipv4Network),
    /// The link-layer channel on the interface could not be opened.
    ChannelUnavailable,
}

impl ConfigError {
    /// The process exit status that reports this error: the same for all.
    pub fn exit_code(&self) -> (code: i32)
        ensures
            code == FAILURE_EXIT_CODE,
            code != 0,
    {
        FAILURE_EXIT_CODE
    }
}

} // verus!
