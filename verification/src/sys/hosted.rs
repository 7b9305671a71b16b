//! The hosted binding: what a general-purpose operating system provides.

use vstd::prelude::*;
use crate::net::Eui64;
use crate::time::Instant;

verus! {

/// `mac_address::MacAddressError`, the reason a lookup of the hardware
/// address failed. It is carried through unread.
#[verifier::external_type_specification]
#[verifier::external_body]
pub struct ExMacAddressError(mac_address::MacAddressError);

/// Why the host has no interface identifier to offer.
#[derive(Debug, PartialEq, Eq, Structural, Clone, Copy)]
pub enum MacLookupError {
    /// The operating system could not be asked for its interfaces.
    Unavailable,
    /// No interface of the host has a hardware address.
    NotFound,
}

/// The hardware address of the first network interface that has one.
///
/// Calls `mac_address::get_mac_address` and hands on what it found, the
/// address as its six bytes. Nothing is claimed of the outcome: it depends on
/// the machine.
#[verifier::external_body]
fn get_mac_address() -> (found: Result<Option<[u8; 6]>, mac_address::MacAddressError>) {
    match mac_address::get_mac_address() {
        Ok(Some(address)) => Ok(Some(address.bytes())),
        Ok(None) => Ok(None),
        Err(error) => Err(error),
    }
}

/// The modified EUI-64 of a 48-bit hardware address: the address split after
/// its third byte, `ff fe` put in between, and the universal/local bit of the
/// first byte inverted.
pub open spec fn eui64_bytes(mac: Seq<u8>) -> Seq<u8> {
    seq![mac[0] ^ 0x02, mac[1], mac[2], 0xff, 0xfe, mac[3], mac[4], mac[5]]
}

/// Derives the interface identifier of a hardware address.
pub fn eui64_from_mac(mac: [u8; 6]) -> (identifier: Eui64)
    ensures
        identifier.0@ == eui64_bytes(mac@),
{
    let identifier = Eui64(
        [mac[0] ^ 0x02, mac[1], mac[2], 0xff, 0xfe, mac[3], mac[4], mac[5]],
    );
    assert(identifier.0@ =~= eui64_bytes(mac@));
    identifier
}

/// What a finished lookup of the hardware address means: the identifier
/// derived from the address that was found, or the reason there is none.
pub fn eui64_from_lookup(found: Result<Option<[u8; 6]>, mac_address::MacAddressError>) -> (result:
    Result<Eui64, MacLookupError>)
    ensures
        match found {
            Ok(Some(mac)) => result matches Ok(identifier) && identifier.0@ == eui64_bytes(mac@),
            Ok(None) => result == Err::<Eui64, MacLookupError>(MacLookupError::NotFound),
            Err(_) => result == Err::<Eui64, MacLookupError>(MacLookupError::Unavailable),
        },
{
    match found {
        Ok(Some(mac)) => Ok(eui64_from_mac(mac)),
        Ok(None) => Err(MacLookupError::NotFound),
        Err(_) => Err(MacLookupError::Unavailable),
    }
}

/// The interface identifier of this host, derived from the hardware address
/// of its first network interface.
pub fn eui64() -> (result: Result<Eui64, MacLookupError>)
    ensures
        result matches Ok(identifier) ==> exists|mac: [u8; 6]|
            identifier.0@ == eui64_bytes(mac@),
{
    eui64_from_lookup(get_mac_address())
}

/// The host's monotonic clock, in nanoseconds since an epoch that the host
/// chooses.
///
/// Calls `time::precise_time_ns` and hands on its reading. Nothing is
/// claimed of the outcome: it depends on when the call is made.
#[verifier::external_body]
fn precise_time_ns() -> (reading: u64) {
    time::precise_time_ns()
}

/// The instant that a reading of the monotonic clock tells.
pub fn instant_from_nanos(nanos: u64) -> (instant: Instant)
    ensures
        instant@ == nanos,
        instant == Instant::at(nanos as nat),
{
    let secs: u64 = nanos / 1_000_000_000;
    let rest: u64 = nanos % 1_000_000_000;
    Instant::new(secs, rest as u32)
}

/// Reads the host's monotonic clock: the instant that its reading, a number
/// of nanoseconds that fits 64 bits, tells.
pub fn now() -> (instant: Instant)
    ensures
        exists|nanos: u64| instant@ == nanos && instant == Instant::at(nanos as nat),
{
    let nanos = precise_time_ns();
    let instant = instant_from_nanos(nanos);
    assert(instant@ == nanos && instant == Instant::at(nanos as nat));
    instant
}

} // verus!
