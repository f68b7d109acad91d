//! Result codes of the native runtime and the error type built on them.

use vstd::prelude::*;

verus! {

/// Result code that every call into the native runtime returns.
#[derive(Clone, Copy, Debug, PartialEq, Eq, Structural)]
pub enum Status {
    /// The call succeeded.
    Success,
    /// An argument was rejected.
    InvalidParam,
    /// The resource is in use.
    Busy,
    /// The runtime met an internal failure.
    Exception,
    /// Nothing matched, or the attribute is not set.
    NotFound,
    /// The runtime could not allocate memory.
    NoMemory,
    /// The operation is not supported.
    NotSupported,
    /// No driver is loaded.
    NoDriver,
    /// The runtime's daemon is not running.
    NoDaemon,
    /// The caller lacks the privileges for the call.
    NoAccess,
    /// Reconfiguration failed.
    ReconfError,
}

impl Status {
    /// The number that the runtime uses for this code.
    pub open spec fn spec_code(self) -> u32 {
        match self {
            Status::Success => 0,
            Status::InvalidParam => 1,
            Status::Busy => 2,
            Status::Exception => 3,
            Status::NotFound => 4,
            Status::NoMemory => 5,
            Status::NotSupported => 6,
            Status::NoDriver => 7,
            Status::NoDaemon => 8,
            Status::NoAccess => 9,
            Status::ReconfError => 10,
        }
    }

    /// The number that the runtime uses for this code.
    #[verifier::when_used_as_spec(spec_code)]
    pub fn code(self) -> (code: u32)
        ensures
            code == self.spec_code(),
            code <= 10,
    {
        match self {
            Status::Success => 0,
            Status::InvalidParam => 1,
            Status::Busy => 2,
            Status::Exception => 3,
            Status::NotFound => 4,
            Status::NoMemory => 5,
            Status::NotSupported => 6,
            Status::NoDriver => 7,
            Status::NoDaemon => 8,
            Status::NoAccess => 9,
            Status::ReconfError => 10,
        }
    }

    /// The code that the runtime writes as `code`, if there is one.
    pub fn from_code(code: u32) -> (status: Option<Status>)
        ensures
            code <= 10 <==> status is Some,
            status matches Some(s) ==> s.spec_code() == code,
    {
        match code {
            0 => Some(Status::Success),
            1 => Some(Status::InvalidParam),
            2 => Some(Status::Busy),
            3 => Some(Status::Exception),
            4 => Some(Status::NotFound),
            5 => Some(Status::NoMemory),
            6 => Some(Status::NotSupported),
            7 => Some(Status::NoDriver),
            8 => Some(Status::NoDaemon),
            9 => Some(Status::NoAccess),
            10 => Some(Status::ReconfError),
            _ => None,
        }
    }

    /// Whether the call succeeded.
    pub open spec fn spec_is_ok(self) -> bool {
        self == Status::Success
    }

    /// Whether the call succeeded.
    #[verifier::when_used_as_spec(spec_is_ok)]
    pub fn is_ok(self) -> (ok: bool)
        ensures
            ok == (self == Status::Success),
    {
        match self {
            Status::Success => true,
            _ => false,
        }
    }
}

/// A failed native call, or a request that this crate refused, told by the
/// status that describes it.
#[derive(Clone, Copy, Debug, PartialEq, Eq, Structural)]
pub struct Error {
    pub status: Status,
}

impl Error {
    /// The error that stands for `status`.
    pub fn new(status: Status) -> (error: Error)
        ensures
            error == (Error { status }),
    {
        Error { status }
    }

    /// The status behind this error.
    pub fn status(&self) -> (status: Status)
        ensures
            status == self.status,
    {
        self.status
    }

    /// Turns the status of a native call into a result: success for
    /// `Status::Success`, and the status as an error for every other code.
    pub fn check(status: Status) -> (result: Result<(), Error>)
        ensures
            result == Error::spec_check(status),
    {
        match status {
            Status::Success => Ok(()),
            _ => Err(Error { status }),
        }
    }

    /// What `check` returns.
    pub open spec fn spec_check(status: Status) -> Result<(), Error> {
        if status == Status::Success {
            Ok(())
        } else {
            Err(Error { status })
        }
    }

    /// No resource matched.
    pub fn is_not_found(&self) -> (found: bool)
        ensures
            found == (self.status == Status::NotFound),
    {
        match self.status {
            Status::NotFound => true,
            _ => false,
        }
    }

    /// The request conflicts with what the operation needs.
    pub fn is_invalid_parameter(&self) -> (invalid: bool)
        ensures
            invalid == (self.status == Status::InvalidParam),
    {
        match self.status {
            Status::InvalidParam => true,
            _ => false,
        }
    }
}

impl From<Status> for Error {
    fn from(status: Status) -> (error: Error) {
        Error { status }
    }
}

impl vstd::std_specs::convert::FromSpecImpl<Status> for Error {
    open spec fn obeys_from_spec() -> bool {
        true
    }

    open spec fn from_spec(status: Status) -> Error {
        Error { status }
    }
}

/// Every status has a code of its own, and `from_code` reads it back.
pub proof fn lemma_code_round_trip(status: Status)
    ensures
        status.spec_code() <= 10,
        forall|other: Status| other.spec_code() == status.spec_code() ==> other == status,
{
}

} // verus!
