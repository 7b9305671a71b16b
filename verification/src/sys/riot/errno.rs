//! The error numbers of the kernel's C library.
//!
//! RIOT reports a failure as the negated error number of newlib, the C
//! library it is built against on embedded targets. The numbers below are the
//! ones the socket and network-interface calls can hand back.

use vstd::prelude::*;

verus! {

/// Resource temporarily unavailable.
pub const EAGAIN: i32 = 11;

/// Not enough memory.
pub const ENOMEM: i32 = 12;

/// Invalid argument.
pub const EINVAL: i32 = 22;

/// Protocol error.
pub const EPROTO: i32 = 71;

/// No buffer space available.
pub const ENOBUFS: i32 = 105;

/// Address family not supported.
pub const EAFNOSUPPORT: i32 = 106;

/// Address already in use.
pub const EADDRINUSE: i32 = 112;

/// Connection timed out.
pub const ETIMEDOUT: i32 = 116;

/// Host is unreachable.
pub const EHOSTUNREACH: i32 = 118;

/// Address not available.
pub const EADDRNOTAVAIL: i32 = 125;

/// Socket is not connected.
pub const ENOTCONN: i32 = 128;

/// Operation not supported.
pub const ENOTSUP: i32 = 134;

} // verus!
