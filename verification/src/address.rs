//! Peer addresses as plain values.

use vstd::prelude::*;

verus! {

/// The port on which the receiving application listens unless it is
/// configured otherwise.
pub const DEFAULT_SERVER_PORT: u16 = 9000;

/// The local port that lets the operating system choose one.
pub const ANY_PORT: u16 = 0;

/// An IP address of either family.
#[derive(Clone, Copy, Debug, PartialEq, Eq)]
pub enum IpAddress {
    /// The four octets of an IPv4 address.
    V4([u8; 4]),
    /// The eight segments of an IPv6 address.
    V6([u16; 8]),
}

/// An IP address and a port.
#[derive(Clone, Copy, Debug, PartialEq, Eq)]
pub struct SocketAddress {
    pub ip: IpAddress,
    pub port: u16,
}

/// The address on which the receiving application listens unless it is
/// configured otherwise: the loopback host, port 9000.
pub open spec fn spec_vrchat_osc_addr() -> SocketAddress {
    SocketAddress { ip: IpAddress::spec_localhost(), port: DEFAULT_SERVER_PORT }
}

/// The address on which the receiving application listens unless it is
/// configured otherwise: the loopback host, port 9000.
#[verifier::when_used_as_spec(spec_vrchat_osc_addr)]
pub fn vrchat_osc_addr() -> (addr: SocketAddress)
    ensures
        addr == spec_vrchat_osc_addr(),
{
    SocketAddress { ip: IpAddress::localhost(), port: DEFAULT_SERVER_PORT }
}

impl IpAddress {
    /// The IPv4 loopback address, 127.0.0.1.
    pub open spec fn spec_localhost() -> IpAddress {
        IpAddress::V4([127u8, 0u8, 0u8, 1u8])
    }

    /// The IPv4 loopback address, 127.0.0.1.
    #[verifier::when_used_as_spec(spec_localhost)]
    pub fn localhost() -> (ip: IpAddress)
        ensures
            ip == Self::spec_localhost(),
    {
        IpAddress::V4([127u8, 0u8, 0u8, 1u8])
    }
}

impl SocketAddress {
    pub fn new(ip: IpAddress, port: u16) -> (addr: SocketAddress)
        ensures
            addr == (SocketAddress { ip, port }),
    {
        SocketAddress { ip, port }
    }

    /// This address with another IP address and the same port.
    pub fn with_ip(self, ip: IpAddress) -> (addr: SocketAddress)
        ensures
            addr == (SocketAddress { ip, port: self.port }),
    {
        SocketAddress { ip, port: self.port }
    }

    /// This address with another port and the same IP address.
    pub fn with_port(self, port: u16) -> (addr: SocketAddress)
        ensures
            addr == (SocketAddress { ip: self.ip, port }),
    {
        SocketAddress { ip: self.ip, port }
    }
}

} // verus!
