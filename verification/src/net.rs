//! Networking: addresses, endpoints and interface identifiers.

use vstd::prelude::*;

pub use crate::sys::hosted::MacLookupError;
pub use crate::sys::riot::wire::{IpAddress, Ipv4Address, Ipv6Address, SocketAddr};

verus! {

/// The IPv6 loopback address, `::1`.
pub fn ipv6_loopback() -> (address: Ipv6Address)
    ensures
        address@ == seq![0u8, 0, 0, 0, 0, 0, 0, 0, 0, 0, 0, 0, 0, 0, 0, 1],
{
    Ipv6Address([0, 0, 0, 0, 0, 0, 0, 0, 0, 0, 0, 0, 0, 0, 0, 1])
}

/// The unspecified IPv6 address, `::`.
pub fn ipv6_unspecified() -> (address: Ipv6Address)
    ensures
        address@ == seq![0u8, 0, 0, 0, 0, 0, 0, 0, 0, 0, 0, 0, 0, 0, 0, 0],
{
    Ipv6Address([0, 0, 0, 0, 0, 0, 0, 0, 0, 0, 0, 0, 0, 0, 0, 0])
}

/// The multicast group of all routers on the link, `ff02::2`.
pub fn ipv6_link_local_all_routers() -> (address: Ipv6Address)
    ensures
        address@ == seq![0xffu8, 0x02, 0, 0, 0, 0, 0, 0, 0, 0, 0, 0, 0, 0, 0, 0x02],
{
    Ipv6Address([0xff, 0x02, 0, 0, 0, 0, 0, 0, 0, 0, 0, 0, 0, 0, 0, 0x02])
}

/// A 64-bit interface identifier.
#[derive(Debug, PartialEq, Eq, Clone, Copy)]
pub struct Eui64(pub [u8; 8]);

/// The interface identifier of this host.
pub fn eui64() -> (result: Result<Eui64, MacLookupError>)
    ensures
        result matches Ok(identifier) ==> exists|mac: [u8; 6]|
            identifier.0@ == crate::sys::hosted::eui64_bytes(mac@),
{
    crate::sys::hosted::eui64()
}

} // verus!
