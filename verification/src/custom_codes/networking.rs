//! Codes for what a network operation reports.

use vstd::prelude::*;

verus! {

/// Networking Specific
/// ### Examples
/// ```
/// # use custom_codes::Networking;
/// let foo = Networking::NetworkAccessDenied;
/// assert_eq!(foo, Networking::NetworkAccessDenied);
/// ```
#[derive(Debug, PartialEq, Eq, Structural)]
pub enum Networking {
    /// Permission to access network is denied
    NetworkAccessDenied,
    /// Network is available but unable to reach destination host
    HostUnreachable,
    /// Connection was reset and has been terminated
    ConnectionReset,
    /// Connection to the address has been stopped
    ConnectionAborted,
    /// The network operation failed because process has not finished connecting
    NotConnected,
    /// Headers for a particular protocol corrupted
    HeadersCorrupted,
    /// Server access was reached but didnt respond
    ServerNotResponding,
    /// IP Address is already in use
    IpInUse,
    /// Port is in use but IP is available
    PortInUse,
    /// The IP address and Port are both in use
    AddrInUse,
    /// IP Address is available
    IpAvailable,
    /// Network Operation Failed because a pipe is broken
    BrokenPipe,
    /// Connection already exists
    NetConnExists,
    /// Operation parameters are Invalid
    InvalidNetInput,
    /// Operation parameters are fine but operation data is invalid
    InvalidNetData,
    /// The network operation timed out
    NetTimedOut,
    /// The Network Operation was interrupted and can be resumed
    Interrupted,
    /// Unexpected end of connection
    UnexpectedNetEof,
    /// Connection Driver is buggy
    NetDriverBuggy,
    /// Network Unspecified
    Unspecified,
}

impl Clone for Networking {
    /// A clone is equal to what it was made from.
    fn clone(&self) -> (r: Self)
        ensures
            r == *self,
    {
        match self {
            Networking::NetworkAccessDenied => Networking::NetworkAccessDenied,
            Networking::HostUnreachable => Networking::HostUnreachable,
            Networking::ConnectionReset => Networking::ConnectionReset,
            Networking::ConnectionAborted => Networking::ConnectionAborted,
            Networking::NotConnected => Networking::NotConnected,
            Networking::HeadersCorrupted => Networking::HeadersCorrupted,
            Networking::ServerNotResponding => Networking::ServerNotResponding,
            Networking::IpInUse => Networking::IpInUse,
            Networking::PortInUse => Networking::PortInUse,
            Networking::AddrInUse => Networking::AddrInUse,
            Networking::IpAvailable => Networking::IpAvailable,
            Networking::BrokenPipe => Networking::BrokenPipe,
            Networking::NetConnExists => Networking::NetConnExists,
            Networking::InvalidNetInput => Networking::InvalidNetInput,
            Networking::InvalidNetData => Networking::InvalidNetData,
            Networking::NetTimedOut => Networking::NetTimedOut,
            Networking::Interrupted => Networking::Interrupted,
            Networking::UnexpectedNetEof => Networking::UnexpectedNetEof,
            Networking::NetDriverBuggy => Networking::NetDriverBuggy,
            Networking::Unspecified => Networking::Unspecified,
        }
    }
}

/// `==` on `Networking` is reflexive, symmetric and transitive.
pub proof fn networking_equality_laws(a: Networking, b: Networking, c: Networking)
    ensures
        a == a,
        a == b ==> b == a,
        a == b && b == c ==> a == c,
{
}

} // verus!
