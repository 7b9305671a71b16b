//! The error taxonomy.

use vstd::prelude::*;

verus! {

/// What went wrong, independent of the operating system that reported it.
#[derive(Debug, PartialEq, Eq, Structural, Clone, Copy)]
pub enum ErrorKind {
    /// The kernel ran out of memory or buffers.
    OutOfMemory,
    /// The local address is already bound.
    AddrInUse,
    /// The socket has no local address.
    AddrMissing,
    /// The caller's buffer cannot hold the datagram.
    BufferTooSmall,
    /// The address family is not supported.
    AfNoSupport,
    /// The operation is not supported by this backend.
    NotSupported,
    /// An argument was rejected.
    InvalidInput,
    /// The peer violated the protocol.
    Protocol,
    /// The operation would have had to wait.
    WouldBlock,
    /// The operation timed out.
    Timeout,
    /// No route leads to the host.
    HostUnreachable,
    /// No network interface has the requested index.
    NoMatchingInterface,
}

/// An error of this crate: exactly one [`ErrorKind`], and no message.
#[derive(Debug, PartialEq, Eq, Structural, Clone, Copy)]
pub struct Error {
    kind: ErrorKind,
}

/// The name of a kind of error, as it is shown to a reader.
pub open spec fn kind_name(kind: ErrorKind) -> Seq<char> {
    match kind {
        ErrorKind::OutOfMemory => "OutOfMemory"@,
        ErrorKind::AddrInUse => "AddrInUse"@,
        ErrorKind::AddrMissing => "AddrMissing"@,
        ErrorKind::BufferTooSmall => "BufferTooSmall"@,
        ErrorKind::AfNoSupport => "AfNoSupport"@,
        ErrorKind::NotSupported => "NotSupported"@,
        ErrorKind::InvalidInput => "InvalidInput"@,
        ErrorKind::Protocol => "Protocol"@,
        ErrorKind::WouldBlock => "WouldBlock"@,
        ErrorKind::Timeout => "Timeout"@,
        ErrorKind::HostUnreachable => "HostUnreachable"@,
        ErrorKind::NoMatchingInterface => "NoMatchingInterface"@,
    }
}

impl ErrorKind {
    /// The name of this kind of error.
    pub fn name(&self) -> (name: &'static str)
        ensures
            name@ == kind_name(*self),
    {
        match self {
            ErrorKind::OutOfMemory => "OutOfMemory",
            ErrorKind::AddrInUse => "AddrInUse",
            ErrorKind::AddrMissing => "AddrMissing",
            ErrorKind::BufferTooSmall => "BufferTooSmall",
            ErrorKind::AfNoSupport => "AfNoSupport",
            ErrorKind::NotSupported => "NotSupported",
            ErrorKind::InvalidInput => "InvalidInput",
            ErrorKind::Protocol => "Protocol",
            ErrorKind::WouldBlock => "WouldBlock",
            ErrorKind::Timeout => "Timeout",
            ErrorKind::HostUnreachable => "HostUnreachable",
            ErrorKind::NoMatchingInterface => "NoMatchingInterface",
        }
    }
}

impl Error {
    /// The kind this error was made from.
    pub closed spec fn spec_kind(&self) -> ErrorKind {
        self.kind
    }

    /// Returns the kind of this error.
    #[verifier::when_used_as_spec(spec_kind)]
    pub fn kind(&self) -> (kind: ErrorKind)
        ensures
            kind == self.spec_kind(),
    {
        self.kind
    }
}

impl From<ErrorKind> for Error {
    fn from(kind: ErrorKind) -> (error: Error)
    {
        Error { kind }
    }
}

impl vstd::std_specs::convert::FromSpecImpl<ErrorKind> for Error {
    open spec fn obeys_from_spec() -> bool {
        true
    }

    open spec fn from_spec(kind: ErrorKind) -> Error {
        Error::of(kind)
    }
}

impl Error {
    /// The error of a given kind.
    pub closed spec fn of(kind: ErrorKind) -> Error {
        Error { kind }
    }

    /// Shows the error to a reader: the name of its kind.
    pub fn message(&self) -> (text: String)
        ensures
            text@ == kind_name(self.kind()),
    {
        self.kind.name().to_owned()
    }

    /// The error made from a kind has that kind.
    pub broadcast proof fn lemma_of_kind(kind: ErrorKind)
        ensures
            #[trigger] Error::of(kind).spec_kind() == kind,
    {
    }
}

} // verus!
