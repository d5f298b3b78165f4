//! The error space of the service: local response codes and the codes the
//! crypto engine reports.

use vstd::prelude::*;

verus! {

/// The engine rejected an argument of the request.
pub const INVALID_ARGUMENT: i32 = -38;

/// The engine has no free operation slot.
pub const TOO_MANY_OPERATIONS: i32 = -31;

/// The presented key blob has an older format and must be upgraded before use.
pub const KEY_REQUIRES_UPGRADE: i32 = -62;

/// An invariant of the service itself was violated.
pub const SYSTEM_ERROR: i32 = 4;

/// The access gate denied the request.
pub const PERMISSION_DENIED: i32 = 6;

/// A code reported by the crypto engine.
#[derive(Clone, Copy, Debug, PartialEq, Eq, Structural)]
pub struct ErrorCode(pub i32);

/// A code raised by the service or one of its local collaborators.
#[derive(Clone, Copy, Debug, PartialEq, Eq, Structural)]
pub struct ResponseCode(pub i32);

/// The single code with which a request fails.
#[derive(Clone, Copy, Debug, PartialEq, Eq, Structural)]
pub enum Error {
    /// A local or system error.
    Rc(ResponseCode),
    /// An error of the crypto engine, or an argument error in its code space.
    Km(ErrorCode),
}

impl Error {
    /// The internal-invariant error.
    pub open spec fn spec_sys() -> Error {
        Error::Rc(ResponseCode(SYSTEM_ERROR))
    }

    /// The permission-denied error.
    pub open spec fn spec_perm() -> Error {
        Error::Rc(ResponseCode(PERMISSION_DENIED))
    }

    /// The argument error.
    pub open spec fn spec_invalid_argument() -> Error {
        Error::Km(ErrorCode(INVALID_ARGUMENT))
    }

    /// The engine's demand for a blob upgrade.
    pub open spec fn spec_key_requires_upgrade() -> Error {
        Error::Km(ErrorCode(KEY_REQUIRES_UPGRADE))
    }

    /// The engine's report that every operation slot is taken.
    pub open spec fn spec_too_many_operations() -> Error {
        Error::Km(ErrorCode(TOO_MANY_OPERATIONS))
    }

    #[verifier::when_used_as_spec(spec_sys)]
    pub fn sys() -> (e: Error)
        ensures
            e == Error::Rc(ResponseCode(SYSTEM_ERROR)),
    {
        Error::Rc(ResponseCode(SYSTEM_ERROR))
    }

    #[verifier::when_used_as_spec(spec_perm)]
    pub fn perm() -> (e: Error)
        ensures
            e == Error::Rc(ResponseCode(PERMISSION_DENIED)),
    {
        Error::Rc(ResponseCode(PERMISSION_DENIED))
    }

    #[verifier::when_used_as_spec(spec_invalid_argument)]
    pub fn invalid_argument() -> (e: Error)
        ensures
            e == Error::Km(ErrorCode(INVALID_ARGUMENT)),
    {
        Error::Km(ErrorCode(INVALID_ARGUMENT))
    }

    /// Whether this is the engine's demand for a blob upgrade.
    pub fn is_key_requires_upgrade(&self) -> (b: bool)
        ensures
            b == (*self == Error::Km(ErrorCode(KEY_REQUIRES_UPGRADE))),
    {
        match self {
            Error::Km(code) => code.0 == KEY_REQUIRES_UPGRADE,
            Error::Rc(_) => false,
        }
    }

    /// Whether this is the engine's report that every operation slot is taken.
    pub fn is_too_many_operations(&self) -> (b: bool)
        ensures
            b == (*self == Error::Km(ErrorCode(TOO_MANY_OPERATIONS))),
    {
        match self {
            Error::Km(code) => code.0 == TOO_MANY_OPERATIONS,
            Error::Rc(_) => false,
        }
    }
}

} // verus!
