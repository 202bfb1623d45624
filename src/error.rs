//! What can go wrong while reading, resolving or changing the host's names.

use vstd::prelude::*;

verus! {

/// Which kernel-held name a value or a failure concerns.
#[derive(Clone, Copy, Debug, PartialEq, Eq, Structural)]
pub enum NameKind {
    /// The host name.
    Host,
    /// The NIS/YP domain name.
    Domain,
}

/// A failure, reported to the caller as the end of the requested work.
#[derive(Clone, Copy, Debug, PartialEq, Eq, Structural)]
pub enum HostError {
    /// An OS call failed for a reason with no more specific variant.
    OsError,
    /// The name did not fit in the buffer it was read into.
    BufferTooSmall(NameKind),
    /// The name read from the OS is not UTF-8 text.
    NotText(NameKind),
    /// The resolver has no record for the name.
    NameNotFound,
    /// The resolver failed for another reason.
    LookupFailed,
    /// The network interfaces could not be listed.
    EnumError,
    /// Changing the name needs privilege that the caller lacks.
    PermissionDenied,
    /// The new name is longer than the OS allows.
    NameTooLong,
    /// The new name breaks the host-name syntax.
    InvalidName,
    /// The NIS/YP domain name is not set.
    DomainNotSet,
    /// The file that should hold the new name could not be read.
    NoSuchFile,
}

/// The message shown for each failure.
pub open spec fn message_of(e: HostError) -> Seq<char> {
    match e {
        HostError::OsError => "Unknown error."@,
        HostError::BufferTooSmall(NameKind::Host) => "Hostname is too large to fit."@,
        HostError::BufferTooSmall(NameKind::Domain) => "Domain name is too large to fit."@,
        HostError::NotText(NameKind::Host) => "Hostname is not valid text."@,
        HostError::NotText(NameKind::Domain) => "Domain name is not valid text."@,
        HostError::NameNotFound => "Name or service not known"@,
        HostError::LookupFailed => "getaddrinfo failed."@,
        HostError::EnumError => "getifaddrs failed."@,
        HostError::PermissionDenied => "you must be root to change the host name"@,
        HostError::NameTooLong => "name too long"@,
        HostError::InvalidName => "the specified hostname is invalid"@,
        HostError::DomainNotSet => "Local domain name not set"@,
        HostError::NoSuchFile => "No such file or directory."@,
    }
}

impl HostError {
    /// The human-readable message for this failure.
    pub fn message(&self) -> (r: &'static str)
        ensures
            r@ == message_of(*self),
    {
        match self {
            HostError::OsError => "Unknown error.",
            HostError::BufferTooSmall(NameKind::Host) => "Hostname is too large to fit.",
            HostError::BufferTooSmall(NameKind::Domain) => "Domain name is too large to fit.",
            HostError::NotText(NameKind::Host) => "Hostname is not valid text.",
            HostError::NotText(NameKind::Domain) => "Domain name is not valid text.",
            HostError::NameNotFound => "Name or service not known",
            HostError::LookupFailed => "getaddrinfo failed.",
            HostError::EnumError => "getifaddrs failed.",
            HostError::PermissionDenied => "you must be root to change the host name",
            HostError::NameTooLong => "name too long",
            HostError::InvalidName => "the specified hostname is invalid",
            HostError::DomainNotSet => "Local domain name not set",
            HostError::NoSuchFile => "No such file or directory.",
        }
    }
}

} // verus!
