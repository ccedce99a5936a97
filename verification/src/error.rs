//! Error types: the rich [`Error`] of this crate and the [`FfaError`] status codes that travel
//! in registers with the `FFA_ERROR` interface.
use vstd::prelude::*;

verus! {

/// Rich error types returned by this crate. Should be converted to [`FfaError`] when used with
/// the `FFA_ERROR` interface.
#[derive(Debug, Clone, Copy, PartialEq, Eq)]
pub enum Error {
    UnrecognisedFunctionId(u32),
    UnrecognisedFeatureId(u8),
    UnrecognisedErrorCode(i32),
    UnrecognisedFwkMsg(u32),
    UnrecognisedMsgWaitFlag(u32),
    UnrecognisedVmAvailabilityStatus(i32),
    UnrecognisedWarmBootType(u32),
    InvalidVersion(u32),
    ConsoleAlreadyInitialized,
}

impl Error {
    /// The status code that reports this error with the `FFA_ERROR` interface, if there is one.
    pub open spec fn ffa_status(self) -> Result<FfaError, ()> {
        match self {
            Error::UnrecognisedFunctionId(_) | Error::UnrecognisedFeatureId(_) => Ok(
                FfaError::NotSupported,
            ),
            Error::UnrecognisedErrorCode(_)
            | Error::UnrecognisedFwkMsg(_)
            | Error::InvalidVersion(_)
            | Error::UnrecognisedMsgWaitFlag(_)
            | Error::UnrecognisedVmAvailabilityStatus(_)
            | Error::UnrecognisedWarmBootType(_) => Ok(FfaError::InvalidParameters),
            Error::ConsoleAlreadyInitialized => Err(()),
        }
    }
}

impl TryFrom<Error> for FfaError {
    type Error = ();

    fn try_from(value: Error) -> (r: Result<Self, ()>)
        ensures
            r == value.ffa_status(),
    {
        match value {
            Error::UnrecognisedFunctionId(_) | Error::UnrecognisedFeatureId(_) => Ok(
                FfaError::NotSupported,
            ),
            Error::UnrecognisedErrorCode(_)
            | Error::UnrecognisedFwkMsg(_)
            | Error::InvalidVersion(_)
            | Error::UnrecognisedMsgWaitFlag(_)
            | Error::UnrecognisedVmAvailabilityStatus(_)
            | Error::UnrecognisedWarmBootType(_) => Ok(FfaError::InvalidParameters),
            Error::ConsoleAlreadyInitialized => Err(()),
        }
    }
}

impl vstd::std_specs::convert::TryFromSpecImpl<Error> for FfaError {
    open spec fn obeys_try_from_spec() -> bool {
        true
    }

    open spec fn try_from_spec(v: Error) -> Result<Self, ()> {
        v.ffa_status()
    }
}

/// Error status codes used by the `FFA_ERROR` interface.
#[derive(Clone, Copy, Debug, Eq, PartialEq)]
pub enum FfaError {
    NotSupported,
    InvalidParameters,
    NoMemory,
    Busy,
    Interrupted,
    Denied,
    Retry,
    Aborted,
    NoData,
}

impl FfaError {
    /// The status code of this error in a register.
    pub open spec fn code(self) -> i32 {
        match self {
            FfaError::NotSupported => -1i32,
            FfaError::InvalidParameters => -2i32,
            FfaError::NoMemory => -3i32,
            FfaError::Busy => -4i32,
            FfaError::Interrupted => -5i32,
            FfaError::Denied => -6i32,
            FfaError::Retry => -7i32,
            FfaError::Aborted => -8i32,
            FfaError::NoData => -9i32,
        }
    }

    /// The error whose status code is `v`, or `UnrecognisedErrorCode` if there is none.
    pub open spec fn from_code(v: i32) -> Result<FfaError, Error> {
        if v == -1 {
            Ok(FfaError::NotSupported)
        } else if v == -2 {
            Ok(FfaError::InvalidParameters)
        } else if v == -3 {
            Ok(FfaError::NoMemory)
        } else if v == -4 {
            Ok(FfaError::Busy)
        } else if v == -5 {
            Ok(FfaError::Interrupted)
        } else if v == -6 {
            Ok(FfaError::Denied)
        } else if v == -7 {
            Ok(FfaError::Retry)
        } else if v == -8 {
            Ok(FfaError::Aborted)
        } else if v == -9 {
            Ok(FfaError::NoData)
        } else {
            Err(Error::UnrecognisedErrorCode(v))
        }
    }
}

impl TryFrom<i32> for FfaError {
    type Error = Error;

    fn try_from(v: i32) -> (r: Result<Self, Error>)
        ensures
            r == FfaError::from_code(v),
    {
        if v == -1 {
            Ok(FfaError::NotSupported)
        } else if v == -2 {
            Ok(FfaError::InvalidParameters)
        } else if v == -3 {
            Ok(FfaError::NoMemory)
        } else if v == -4 {
            Ok(FfaError::Busy)
        } else if v == -5 {
            Ok(FfaError::Interrupted)
        } else if v == -6 {
            Ok(FfaError::Denied)
        } else if v == -7 {
            Ok(FfaError::Retry)
        } else if v == -8 {
            Ok(FfaError::Aborted)
        } else if v == -9 {
            Ok(FfaError::NoData)
        } else {
            Err(Error::UnrecognisedErrorCode(v))
        }
    }
}

impl vstd::std_specs::convert::TryFromSpecImpl<i32> for FfaError {
    open spec fn obeys_try_from_spec() -> bool {
        true
    }

    open spec fn try_from_spec(v: i32) -> Result<Self, Error> {
        FfaError::from_code(v)
    }
}

impl From<FfaError> for i32 {
    fn from(e: FfaError) -> (r: i32)
        ensures
            r == e.code(),
    {
        match e {
            FfaError::NotSupported => -1,
            FfaError::InvalidParameters => -2,
            FfaError::NoMemory => -3,
            FfaError::Busy => -4,
            FfaError::Interrupted => -5,
            FfaError::Denied => -6,
            FfaError::Retry => -7,
            FfaError::Aborted => -8,
            FfaError::NoData => -9,
        }
    }
}

impl vstd::std_specs::convert::FromSpecImpl<FfaError> for i32 {
    open spec fn obeys_from_spec() -> bool {
        true
    }

    open spec fn from_spec(e: FfaError) -> i32 {
        e.code()
    }
}

/// A status code read back from a register gives the error that was written.
pub proof fn lemma_ffa_error_code_roundtrip(e: FfaError)
    ensures
        FfaError::from_code(e.code()) == Ok::<FfaError, Error>(e),
{
}

/// A status code that is recognised is the code of the error it gives.
pub proof fn lemma_ffa_error_code_unique(v: i32)
    ensures
        FfaError::from_code(v) matches Ok(e) ==> e.code() == v,
{
}

} // verus!
