//! UDP sockets over the kernel's `sock_udp` interface.
//!
//! Every socket operation is one kernel call. This module holds what comes
//! before the call, the endpoint in the layout the kernel reads, and what
//! comes after it, the meaning of the status the kernel hands back.

use vstd::prelude::*;
use vstd::pervasive::unreached;
use crate::sys::riot::errno::{
    EADDRINUSE, EADDRNOTAVAIL, EAFNOSUPPORT, EAGAIN, EHOSTUNREACH, EINVAL, ENOBUFS, ENOMEM,
    ENOTSUP, EPROTO, ETIMEDOUT,
};
use crate::sys::riot::io::{Error, ErrorKind};
use crate::sys::riot::wire::{IpAddress, Ipv4Address, Ipv6Address, SocketAddr};

verus! {

broadcast use crate::sys::riot::io::Error::lemma_of_kind;

/// The kernel's number for the IPv4 address family.
pub const AF_INET: i32 = 3;

/// The kernel's number for the IPv6 address family.
pub const AF_INET6: i32 = 4;

/// The interface number that stands for "any interface".
pub const SOCK_ADDR_ANY_NETIF: u16 = 0;

/// The size in bytes of an IPv6 address, which the kernel hands back when a
/// multicast group was joined or left.
pub const IPV6_ADDR_SIZE: i32 = 16;

/// An endpoint in the layout the kernel reads and writes: a family tag, the
/// address bytes, an interface number and a port. An IPv4 address occupies
/// the first four address bytes.
#[derive(Debug, PartialEq, Eq, Clone, Copy)]
pub struct RawEndpoint {
    /// The address family, [`AF_INET`] or [`AF_INET6`].
    pub family: i32,
    /// The address bytes, most significant first.
    pub addr: [u8; 16],
    /// The network interface, or [`SOCK_ADDR_ANY_NETIF`].
    pub netif: u16,
    /// The port.
    pub port: u16,
}

/// The family tag of an address.
pub open spec fn family_of(addr: IpAddress) -> i32 {
    match addr {
        IpAddress::Ipv4(_) => AF_INET,
        IpAddress::Ipv6(_) => AF_INET6,
    }
}

/// The sixteen address bytes the kernel sees for an address: the octets of the
/// address, followed by zeros where the address is shorter.
pub open spec fn address_image(addr: IpAddress) -> Seq<u8> {
    Seq::new(16, |i: int| if i < addr@.len() { addr@[i] } else { 0u8 })
}

/// The endpoint that a raw endpoint stands for, if its family is known.
pub open spec fn endpoint_of(raw: RawEndpoint) -> Option<SocketAddr> {
    if raw.family == AF_INET6 {
        Some(SocketAddr { addr: IpAddress::Ipv6(Ipv6Address(raw.addr)), port: raw.port })
    } else if raw.family == AF_INET {
        Some(
            SocketAddr {
                addr: IpAddress::Ipv4(
                    Ipv4Address([raw.addr[0], raw.addr[1], raw.addr[2], raw.addr[3]]),
                ),
                port: raw.port,
            },
        )
    } else {
        None
    }
}

/// Lays an endpoint out for the kernel, bound to no particular interface.
pub fn raw_endpoint(endpoint: &SocketAddr) -> (raw: RawEndpoint)
    ensures
        raw.family == family_of(endpoint.addr),
        raw.addr@ == address_image(endpoint.addr),
        raw.netif == SOCK_ADDR_ANY_NETIF,
        raw.port == endpoint.port,
{
    let (family, addr) = match endpoint.addr {
        IpAddress::Ipv4(a) => {
            let b = a.0;
            (AF_INET, [b[0], b[1], b[2], b[3], 0, 0, 0, 0, 0, 0, 0, 0, 0, 0, 0, 0])
        },
        IpAddress::Ipv6(a) => (AF_INET6, a.0),
    };
    let raw = RawEndpoint { family, addr, netif: SOCK_ADDR_ANY_NETIF, port: endpoint.port };
    assert(raw.addr@ =~= address_image(endpoint.addr));
    raw
}

/// Reads back the endpoint that the kernel wrote, or `None` where the family
/// tag is neither [`AF_INET`] nor [`AF_INET6`].
pub fn endpoint_from_raw(raw: &RawEndpoint) -> (endpoint: Option<SocketAddr>)
    ensures
        endpoint == endpoint_of(*raw),
{
    if raw.family == AF_INET6 {
        Some(SocketAddr::new(IpAddress::Ipv6(Ipv6Address(raw.addr)), raw.port))
    } else if raw.family == AF_INET {
        let b = raw.addr;
        Some(SocketAddr::new(IpAddress::Ipv4(Ipv4Address([b[0], b[1], b[2], b[3]])), raw.port))
    } else {
        None
    }
}

/// An endpoint survives the way to the kernel and back: whatever
/// [`raw_endpoint`] lays out, [`endpoint_from_raw`] reads back unchanged.
pub proof fn lemma_raw_endpoint_round_trip(endpoint: SocketAddr, raw: RawEndpoint)
    requires
        raw.family == family_of(endpoint.addr),
        raw.addr@ == address_image(endpoint.addr),
        raw.port == endpoint.port,
    ensures
        endpoint_of(raw) == Some(endpoint),
{
    match endpoint.addr {
        IpAddress::Ipv4(a) => {
            let b = Ipv4Address([raw.addr[0], raw.addr[1], raw.addr[2], raw.addr[3]]);
            assert forall|i: int| 0 <= i < 4 implies b.0@[i] == a.0@[i] by {
                assert(raw.addr@[i] == address_image(endpoint.addr)[i]);
            }
            assert(b.0@ =~= a.0@);
            assert(b.0 == a.0);
        },
        IpAddress::Ipv6(a) => {
            assert(raw.addr@ =~= a.0@);
            assert(raw.addr == a.0);
        },
    }
}

/// What the kernel's answer to creating a socket means where it is a failure
/// that a caller can meet: `None` for every other status.
pub open spec fn bind_failure(status: int) -> Option<ErrorKind> {
    if status == -EADDRINUSE {
        Some(ErrorKind::AddrInUse)
    } else if status == -EAFNOSUPPORT {
        Some(ErrorKind::AfNoSupport)
    } else if status == -EINVAL {
        Some(ErrorKind::InvalidInput)
    } else {
        None
    }
}

/// What the kernel's answer to sending a datagram means where it is a failure
/// that a caller can meet: `None` for every other status.
pub open spec fn send_failure(status: int) -> Option<ErrorKind> {
    if status == -EADDRINUSE {
        Some(ErrorKind::AddrInUse)
    } else if status == -EAFNOSUPPORT {
        Some(ErrorKind::AfNoSupport)
    } else if status == -EHOSTUNREACH {
        Some(ErrorKind::HostUnreachable)
    } else if status == -EINVAL {
        Some(ErrorKind::InvalidInput)
    } else if status == -ENOMEM {
        Some(ErrorKind::OutOfMemory)
    } else {
        None
    }
}

/// What the kernel's answer to receiving a datagram means where it is a
/// failure that a caller can meet: `None` for every other status.
pub open spec fn recv_failure(status: int) -> Option<ErrorKind> {
    if status == -EADDRNOTAVAIL {
        Some(ErrorKind::AddrMissing)
    } else if status == -EAGAIN {
        Some(ErrorKind::WouldBlock)
    } else if status == -EINVAL {
        Some(ErrorKind::InvalidInput)
    } else if status == -ENOBUFS {
        Some(ErrorKind::BufferTooSmall)
    } else if status == -ENOMEM {
        Some(ErrorKind::OutOfMemory)
    } else if status == -EPROTO {
        Some(ErrorKind::Protocol)
    } else if status == -ETIMEDOUT {
        Some(ErrorKind::Timeout)
    } else {
        None
    }
}

/// What the kernel's answer to joining a multicast group means where it is a
/// failure that a caller can meet: `None` for every other status.
pub open spec fn join_failure(status: int) -> Option<ErrorKind> {
    if status == -ENOMEM {
        Some(ErrorKind::OutOfMemory)
    } else if status == -ENOTSUP {
        Some(ErrorKind::NotSupported)
    } else {
        None
    }
}

/// What the kernel's answer to leaving a multicast group means where it is a
/// failure that a caller can meet: `None` for every other status.
pub open spec fn leave_failure(status: int) -> Option<ErrorKind> {
    if status == -ENOTSUP {
        Some(ErrorKind::NotSupported)
    } else {
        None
    }
}

/// The statuses that creating a socket can end with.
pub open spec fn bind_status_known(status: int) -> bool {
    status == 0 || bind_failure(status) is Some
}

/// The statuses that sending a datagram can end with.
pub open spec fn send_status_known(status: int) -> bool {
    status >= 0 || send_failure(status) is Some
}

/// The statuses that receiving a datagram can end with.
pub open spec fn recv_status_known(status: int) -> bool {
    status >= 0 || recv_failure(status) is Some
}

/// The statuses that joining a multicast group can end with.
pub open spec fn join_status_known(status: int) -> bool {
    status == IPV6_ADDR_SIZE || join_failure(status) is Some
}

/// The statuses that leaving a multicast group can end with.
pub open spec fn leave_status_known(status: int) -> bool {
    status == IPV6_ADDR_SIZE || leave_failure(status) is Some
}

/// Translates the status of creating a socket into the error it reports, if
/// it reports one.
pub fn bind_error(status: i32) -> (kind: Option<ErrorKind>)
    ensures
        kind == bind_failure(status as int),
{
    if status == -EADDRINUSE {
        Some(ErrorKind::AddrInUse)
    } else if status == -EAFNOSUPPORT {
        Some(ErrorKind::AfNoSupport)
    } else if status == -EINVAL {
        Some(ErrorKind::InvalidInput)
    } else {
        None
    }
}

/// Translates the status of sending a datagram into the error it reports, if
/// it reports one.
pub fn send_error(status: isize) -> (kind: Option<ErrorKind>)
    ensures
        kind == send_failure(status as int),
{
    if status == -(EADDRINUSE as isize) {
        Some(ErrorKind::AddrInUse)
    } else if status == -(EAFNOSUPPORT as isize) {
        Some(ErrorKind::AfNoSupport)
    } else if status == -(EHOSTUNREACH as isize) {
        Some(ErrorKind::HostUnreachable)
    } else if status == -(EINVAL as isize) {
        Some(ErrorKind::InvalidInput)
    } else if status == -(ENOMEM as isize) {
        Some(ErrorKind::OutOfMemory)
    } else {
        None
    }
}

/// Translates the status of receiving a datagram into the error it reports,
/// if it reports one.
pub fn recv_error(status: isize) -> (kind: Option<ErrorKind>)
    ensures
        kind == recv_failure(status as int),
{
    if status == -(EADDRNOTAVAIL as isize) {
        Some(ErrorKind::AddrMissing)
    } else if status == -(EAGAIN as isize) {
        Some(ErrorKind::WouldBlock)
    } else if status == -(EINVAL as isize) {
        Some(ErrorKind::InvalidInput)
    } else if status == -(ENOBUFS as isize) {
        Some(ErrorKind::BufferTooSmall)
    } else if status == -(ENOMEM as isize) {
        Some(ErrorKind::OutOfMemory)
    } else if status == -(EPROTO as isize) {
        Some(ErrorKind::Protocol)
    } else if status == -(ETIMEDOUT as isize) {
        Some(ErrorKind::Timeout)
    } else {
        None
    }
}

/// Translates the status of joining a multicast group into the error it
/// reports, if it reports one.
pub fn join_error(status: i32) -> (kind: Option<ErrorKind>)
    ensures
        kind == join_failure(status as int),
{
    if status == -ENOMEM {
        Some(ErrorKind::OutOfMemory)
    } else if status == -ENOTSUP {
        Some(ErrorKind::NotSupported)
    } else {
        None
    }
}

/// Translates the status of leaving a multicast group into the error it
/// reports, if it reports one.
pub fn leave_error(status: i32) -> (kind: Option<ErrorKind>)
    ensures
        kind == leave_failure(status as int),
{
    if status == -ENOTSUP {
        Some(ErrorKind::NotSupported)
    } else {
        None
    }
}

/// Concludes the creation of a socket: success on status zero, and otherwise
/// the error that the status stands for.
pub fn bind_result(status: i32) -> (result: Result<(), Error>)
    requires
        bind_status_known(status as int),
    ensures
        result is Ok <==> status == 0,
        result matches Err(e) ==> Some(e.kind()) == bind_failure(status as int),
{
    match bind_error(status) {
        Some(kind) => Err(Error::from(kind)),
        None => if status == 0 {
            Ok(())
        } else {
            unreached()
        },
    }
}

/// Concludes sending a datagram: the number of bytes sent where the status is
/// not negative, and otherwise the error that the status stands for.
pub fn send_to_result(status: isize) -> (result: Result<usize, Error>)
    requires
        send_status_known(status as int),
    ensures
        result matches Ok(sent) ==> sent == status,
        result is Ok <==> status >= 0,
        result matches Err(e) ==> Some(e.kind()) == send_failure(status as int),
{
    match send_error(status) {
        Some(kind) => Err(Error::from(kind)),
        None => if status >= 0 {
            Ok(status as usize)
        } else {
            unreached()
        },
    }
}

/// Concludes receiving a datagram. Where the status is not negative it is the
/// number of bytes received, and the sender is read from the endpoint that
/// the kernel filled in. A negative status is the error it stands for,
/// whatever the endpoint holds.
pub fn recv_from_result(status: isize, remote: &RawEndpoint) -> (result: Result<
    (usize, SocketAddr),
    Error,
>)
    requires
        recv_status_known(status as int),
        status >= 0 ==> endpoint_of(*remote) is Some,
    ensures
        result matches Ok((received, sender)) ==> received == status && Some(sender)
            == endpoint_of(*remote),
        result is Ok <==> status >= 0,
        result matches Err(e) ==> Some(e.kind()) == recv_failure(status as int),
{
    match recv_error(status) {
        Some(kind) => Err(Error::from(kind)),
        None => match endpoint_from_raw(remote) {
            Some(sender) if status >= 0 => Ok((status as usize, sender)),
            _ => unreached(),
        },
    }
}

/// Concludes joining a multicast group: success where the kernel hands back
/// the size of the group address, and otherwise the error that the status
/// stands for.
pub fn join_multicast_result(status: i32) -> (result: Result<(), Error>)
    requires
        join_status_known(status as int),
    ensures
        result is Ok <==> status == IPV6_ADDR_SIZE,
        result matches Err(e) ==> Some(e.kind()) == join_failure(status as int),
{
    match join_error(status) {
        Some(kind) => Err(Error::from(kind)),
        None => if status == IPV6_ADDR_SIZE {
            Ok(())
        } else {
            unreached()
        },
    }
}

/// Concludes leaving a multicast group: success where the kernel hands back
/// the size of the group address, and otherwise the error that the status
/// stands for.
pub fn leave_multicast_result(status: i32) -> (result: Result<(), Error>)
    requires
        leave_status_known(status as int),
    ensures
        result is Ok <==> status == IPV6_ADDR_SIZE,
        result matches Err(e) ==> Some(e.kind()) == leave_failure(status as int),
{
    match leave_error(status) {
        Some(kind) => Err(Error::from(kind)),
        None => if status == IPV6_ADDR_SIZE {
            Ok(())
        } else {
            unreached()
        },
    }
}

/// The interface at position `index` of an enumeration, counted from zero.
pub open spec fn interface_at<T>(interfaces: Seq<T>, index: int) -> Option<T> {
    if 0 <= index < interfaces.len() {
        Some(interfaces[index])
    } else {
        None
    }
}

/// Resolves a logical interface index against the interfaces in the order
/// the kernel enumerates them: index 0 is the first one.
pub fn find_interface<T: Copy>(interfaces: &[T], index: u32) -> (found: Option<T>)
    ensures
        found == interface_at(interfaces@, index as int),
{
    let mut remaining: u32 = index;
    let mut next: usize = 0;
    while next < interfaces.len()
        invariant
            next <= interfaces@.len(),
            remaining + next == index,
        decreases interfaces@.len() - next,
    {
        let interface = interfaces[next];
        if remaining == 0 {
            return Some(interface);
        }
        next += 1;
        remaining -= 1;
    }
    None
}

/// What the kernel is asked when a multicast group is joined or left: the
/// interface, and the sixteen bytes of the group address.
#[derive(Debug)]
pub struct GroupRequest<T> {
    /// The interface on which the group is joined or left.
    pub interface: T,
    /// The group address.
    pub group: [u8; 16],
}

/// Whether a group request names the interface at `index` and the group
/// `multiaddr`, or fails because no interface has that index.
pub open spec fn group_request_for<T>(
    result: Result<GroupRequest<T>, Error>,
    interfaces: Seq<T>,
    multiaddr: Ipv6Address,
    index: int,
) -> bool {
    match result {
        Ok(request) => index < interfaces.len() && request.interface == interfaces[index]
            && request.group == multiaddr.0,
        Err(e) => index >= interfaces.len() && e.kind() == ErrorKind::NoMatchingInterface,
    }
}

/// Prepares joining the multicast group `multiaddr` on the interface with
/// the logical index `interface`. Fails with `NoMatchingInterface` exactly
/// where the index is not below the number of interfaces.
pub fn join_multicast_v6<T: Copy>(interfaces: &[T], multiaddr: &Ipv6Address, interface: u32) -> (result:
    Result<GroupRequest<T>, Error>)
    ensures
        group_request_for(result, interfaces@, *multiaddr, interface as int),
{
    match find_interface(interfaces, interface) {
        Some(found) => Ok(GroupRequest { interface: found, group: multiaddr.0 }),
        None => Err(Error::from(ErrorKind::NoMatchingInterface)),
    }
}

/// Prepares leaving the multicast group `multiaddr` on the interface with
/// the logical index `interface`. Fails with `NoMatchingInterface` exactly
/// where the index is not below the number of interfaces.
pub fn leave_multicast_v6<T: Copy>(interfaces: &[T], multiaddr: &Ipv6Address, interface: u32) -> (result:
    Result<GroupRequest<T>, Error>)
    ensures
        group_request_for(result, interfaces@, *multiaddr, interface as int),
{
    match find_interface(interfaces, interface) {
        Some(found) => Ok(GroupRequest { interface: found, group: multiaddr.0 }),
        None => Err(Error::from(ErrorKind::NoMatchingInterface)),
    }
}

} // verus!
