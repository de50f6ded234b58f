use vstd::prelude::*;

verus! {

/// The contract's own failures, raised by its explicit checks.
#[derive(Clone, Copy, Debug, PartialEq, Eq, Structural)]
pub enum Error {
    /// The storage key was already present when a store was attempted.
    KeyAlreadyExists,
    /// The key read back after a store was not the one written.
    KeyMismatch,
}

impl Error {
    pub open spec fn spec_code(self) -> u16 {
        match self {
            Error::KeyAlreadyExists => 0,
            Error::KeyMismatch => 1,
        }
    }

    /// The user error code of this failure.
    pub fn code(&self) -> (r: u16)
        ensures
            r == self.spec_code(),
    {
        match self {
            Error::KeyAlreadyExists => 0,
            Error::KeyMismatch => 1,
        }
    }
}

/// Why an invocation was aborted: a user error code, or one of the host
/// conditions that this contract can run into.
#[derive(Clone, Copy, Debug, PartialEq, Eq, Structural)]
pub enum Abort {
    /// An expected value was absent.
    UnexpectedNone,
    /// A required runtime argument was not supplied.
    MissingArgument,
    /// A runtime argument had an unexpected type.
    InvalidArgument,
    /// A failure raised by the contract itself, by its code.
    User(u16),
}

impl From<Error> for Abort {
    fn from(e: Error) -> (r: Abort)
        ensures
            r == Abort::User(e.spec_code()),
    {
        Abort::User(e.code())
    }
}

impl vstd::std_specs::convert::FromSpecImpl<Error> for Abort {
    open spec fn obeys_from_spec() -> bool {
        true
    }

    open spec fn from_spec(e: Error) -> Abort {
        Abort::User(e.spec_code())
    }
}

/// The value with which the host reports an abort: 1, 2 and 3 for the host
/// conditions, and the user range starting at 65536 for the contract's codes.
pub open spec fn abort_value(a: Abort) -> u32 {
    match a {
        Abort::UnexpectedNone => 1,
        Abort::MissingArgument => 2,
        Abort::InvalidArgument => 3,
        Abort::User(c) => (65536 + c) as u32,
    }
}

/// Relies on casper_types' `From<ApiError> for u32`, which encodes `None`,
/// `MissingArgument` and `InvalidArgument` as 1, 2 and 3, and `User(c)` as
/// `u16::MAX + 1 + c`.
#[verifier::external_body]
fn api_error_value(a: Abort) -> (r: u32)
    ensures
        r == abort_value(a),
{
    let e = match a {
        Abort::UnexpectedNone => casper_types::ApiError::None,
        Abort::MissingArgument => casper_types::ApiError::MissingArgument,
        Abort::InvalidArgument => casper_types::ApiError::InvalidArgument,
        Abort::User(c) => casper_types::ApiError::User(c),
    };
    u32::from(e)
}

impl Abort {
    /// The value that the host reports for this abort.
    pub fn value(&self) -> (r: u32)
        ensures
            r == abort_value(*self),
    {
        api_error_value(*self)
    }
}

} // verus!
