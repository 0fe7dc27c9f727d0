//! Status codes, and the error that a session service fails with.

use vstd::prelude::*;

verus! {

/// A status code as it goes over the wire.
#[derive(Debug, Clone, Copy, PartialEq, Eq, Structural)]
pub struct StatusCode {
    pub bits: u32,
}

pub const BAD_UNEXPECTED_ERROR: u32 = 0x8001_0000;

pub const BAD_UNKNOWN_RESPONSE: u32 = 0x8009_0000;

pub const BAD_CERTIFICATE_INVALID: u32 = 0x8012_0000;

pub const BAD_SECURITY_CHECKS_FAILED: u32 = 0x8013_0000;

pub const BAD_NONCE_INVALID: u32 = 0x8024_0000;

pub const BAD_SECURITY_POLICY_REJECTED: u32 = 0x8055_0000;

impl StatusCode {
    /// Whether the two severity bits say bad. Both reserved severities with
    /// the highest bit set count as bad.
    pub open spec fn bad(self) -> bool {
        self.bits >= 0x8000_0000
    }

    /// Whether the severity is bad.
    pub fn is_bad(&self) -> (res: bool)
        ensures
            res == self.bad(),
    {
        self.bits >= 0x8000_0000
    }
}

/// Why a request failed: a status code and an explanation.
#[derive(Debug)]
pub struct Error {
    pub status: StatusCode,
    pub message: String,
}

/// The value of an [`Error`].
pub struct ErrorView {
    pub status: StatusCode,
    pub message: Seq<char>,
}

impl View for Error {
    type V = ErrorView;

    open spec fn view(&self) -> ErrorView {
        ErrorView { status: self.status, message: self.message@ }
    }
}

/// The value of the error with this status code and explanation.
pub open spec fn error_view(bits: u32, message: Seq<char>) -> ErrorView {
    ErrorView { status: StatusCode { bits }, message }
}

/// Whether `outcome` is what `expected` says, errors taken by their value.
pub open spec fn outcome_is<T>(outcome: Result<T, Error>, expected: Result<T, ErrorView>) -> bool {
    match expected {
        Ok(value) => outcome == Ok::<T, Error>(value),
        Err(error) => outcome is Err && outcome->Err_0@ == error,
    }
}

impl Error {
    /// An error with the status code `bits`, explained by `message`.
    pub fn new(bits: u32, message: &str) -> (res: Self)
        ensures
            res@ == error_view(bits, message@),
    {
        Error { status: StatusCode { bits }, message: message.to_owned() }
    }
}

} // verus!
