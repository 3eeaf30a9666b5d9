//! The shared internal error value: every failure carries the subsystem that
//! raised it, a category, and either a diagnostic message or a numeric code
//! scoped to a named error domain.

use vstd::prelude::*;

verus! {

/// Subsystem that raised an error.
#[derive(Clone, Copy, Debug, PartialEq, Eq, Structural)]
pub enum Origin {
    /// Application-level logic, such as decoding a response envelope.
    Application,
    /// The foreign-boundary subsystem.
    Ffi,
    /// The transport carrying requests and responses.
    Transport,
}

/// Category of an error.
#[derive(Clone, Copy, Debug, PartialEq, Eq, Structural)]
pub enum Kind {
    /// Malformed input, such as a decode failure.
    Invalid,
    /// A requested entry does not exist.
    NotFound,
    /// The operation is not supported by the implementation at hand.
    Unsupported,
    /// An ownership rule was violated.
    OwnershipViolation,
    /// A foreign numeric code with no more precise category.
    UnknownForeignCode,
}

/// The static name of the domain owned by each subsystem. Errors raised with a
/// message, rather than with a foreign code, carry their origin's domain name.
pub open spec fn spec_origin_domain(origin: Origin) -> Seq<char> {
    match origin {
        Origin::Application => "APPLICATION"@,
        Origin::Ffi => "OCKAM_FFI"@,
        Origin::Transport => "TRANSPORT"@,
    }
}

/// The shared internal error value. The domain string is a process-lifetime
/// constant: the error borrows it and never owns or frees it.
#[derive(Debug)]
pub struct OckamError {
    /// Subsystem that raised the error.
    pub origin: Origin,
    /// Category of the error.
    pub kind: Kind,
    /// Numeric code; zero when the error was raised with a message only.
    pub code: u32,
    /// Static name of the domain that owns the code.
    pub domain: &'static str,
    /// Diagnostic message, present when the error was raised by the
    /// application rather than constructed from a foreign code.
    pub message: Option<String>,
}

impl OckamError {
    /// An error raised with a diagnostic message. It carries no foreign
    /// numeric code, and its domain is the one its origin owns.
    pub fn new(origin: Origin, kind: Kind, message: String) -> (r: Self)
        ensures
            r.origin == origin,
            r.kind == kind,
            r.code == 0,
            r.domain@ == spec_origin_domain(origin),
            r.message == Some(message),
    {
        let domain: &'static str = match origin {
            Origin::Application => "APPLICATION",
            Origin::Ffi => "OCKAM_FFI",
            Origin::Transport => "TRANSPORT",
        };
        OckamError { origin, kind, code: 0, domain, message: Some(message) }
    }
}

} // verus!
