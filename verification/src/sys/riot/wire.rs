//! Internet addresses and endpoints as plain values.

use vstd::prelude::*;

verus! {

/// An IPv4 address: four octets, most significant first.
#[derive(Debug, PartialEq, Eq, Clone, Copy)]
pub struct Ipv4Address(pub [u8; 4]);

/// An IPv6 address: sixteen octets, most significant first.
#[derive(Debug, PartialEq, Eq, Clone, Copy)]
pub struct Ipv6Address(pub [u8; 16]);

/// An address of either family.
#[derive(Debug, PartialEq, Eq, Clone, Copy)]
pub enum IpAddress {
    /// An IPv4 address.
    Ipv4(Ipv4Address),
    /// An IPv6 address.
    Ipv6(Ipv6Address),
}

/// An address together with a port: one end of a datagram exchange.
#[derive(Debug, PartialEq, Eq, Clone, Copy)]
pub struct SocketAddr {
    /// The address of the host.
    pub addr: IpAddress,
    /// The port on that host.
    pub port: u16,
}

impl View for Ipv4Address {
    type V = Seq<u8>;

    open spec fn view(&self) -> Seq<u8> {
        self.0@
    }
}

impl View for Ipv6Address {
    type V = Seq<u8>;

    open spec fn view(&self) -> Seq<u8> {
        self.0@
    }
}

impl View for IpAddress {
    type V = Seq<u8>;

    /// The octets of the address: four for IPv4, sixteen for IPv6.
    open spec fn view(&self) -> Seq<u8> {
        match *self {
            IpAddress::Ipv4(a) => a@,
            IpAddress::Ipv6(a) => a@,
        }
    }
}

impl Ipv4Address {
    /// The address `a0.a1.a2.a3`.
    pub fn new(a0: u8, a1: u8, a2: u8, a3: u8) -> (address: Ipv4Address)
        ensures
            address@ == seq![a0, a1, a2, a3],
    {
        Ipv4Address([a0, a1, a2, a3])
    }

    /// Reads an address from exactly four octets.
    pub fn from_bytes(data: &[u8]) -> (address: Ipv4Address)
        requires
            data@.len() == 4,
        ensures
            address@ == data@,
    {
        Ipv4Address([data[0], data[1], data[2], data[3]])
    }

    /// The four octets of the address.
    pub fn as_bytes(&self) -> (bytes: &[u8])
        ensures
            bytes@ == self@,
    {
        self.0.as_slice()
    }
}

impl Ipv6Address {
    /// Reads an address from exactly sixteen octets.
    pub fn from_bytes(data: &[u8]) -> (address: Ipv6Address)
        requires
            data@.len() == 16,
        ensures
            address@ == data@,
    {
        Ipv6Address(
            [
                data[0],
                data[1],
                data[2],
                data[3],
                data[4],
                data[5],
                data[6],
                data[7],
                data[8],
                data[9],
                data[10],
                data[11],
                data[12],
                data[13],
                data[14],
                data[15],
            ],
        )
    }

    /// The sixteen octets of the address.
    pub fn as_bytes(&self) -> (bytes: &[u8])
        ensures
            bytes@ == self@,
    {
        self.0.as_slice()
    }
}

impl IpAddress {
    /// The octets of the address, most significant first.
    pub fn as_bytes(&self) -> (bytes: &[u8])
        ensures
            bytes@ == self@,
    {
        match self {
            IpAddress::Ipv4(a) => a.as_bytes(),
            IpAddress::Ipv6(a) => a.as_bytes(),
        }
    }
}

impl SocketAddr {
    /// The endpoint at `port` of `addr`.
    pub fn new(addr: IpAddress, port: u16) -> (endpoint: SocketAddr)
        ensures
            endpoint.addr == addr,
            endpoint.port == port,
    {
        SocketAddr { addr, port }
    }
}

} // verus!
