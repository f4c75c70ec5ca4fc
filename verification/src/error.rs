//! The failures that the filter reports, the status codes by which the
//! host knows them, and the check of a path that yields them.

use vstd::prelude::*;
use vstd::string::StringSliceAdditionalSpecFns;
use crate::matcher::{contains, contains_bytes, contains_ignore_case, path_contains_pattern};

verus! {

/// A failure reported to the immediate caller.
#[derive(Clone, Copy, Debug, PartialEq, Eq, Structural)]
pub enum DriverError {
    InvalidHandle,
    AccessDenied,
    BufferTooSmall,
    NotSupported,
    InvalidPath,
}

impl DriverError {
    /// The text that describes the failure.
    pub open spec fn spec_message(self) -> Seq<char> {
        match self {
            DriverError::InvalidHandle => "Invalid handle provided"@,
            DriverError::AccessDenied => "Access denied"@,
            DriverError::BufferTooSmall => "Buffer too small for operation"@,
            DriverError::NotSupported => "Operation not supported"@,
            DriverError::InvalidPath => "Invalid file path"@,
        }
    }

    /// The text that describes the failure.
    pub fn message(&self) -> (text: String)
        ensures
            text@ == self.spec_message(),
    {
        match self {
            DriverError::InvalidHandle => String::from_str("Invalid handle provided"),
            DriverError::AccessDenied => String::from_str("Access denied"),
            DriverError::BufferTooSmall => String::from_str("Buffer too small for operation"),
            DriverError::NotSupported => String::from_str("Operation not supported"),
            DriverError::InvalidPath => String::from_str("Invalid file path"),
        }
    }
}

/// A status code of the host.
#[derive(Clone, Copy, Debug, PartialEq, Eq, Structural)]
pub enum NtStatus {
    Success,
    AccessDenied,
    InvalidParameter,
    NotSupported,
    BufferTooSmall,
}

impl NtStatus {
    /// The number of the status.
    pub open spec fn spec_code(self) -> u32 {
        match self {
            NtStatus::Success => 0x0000_0000,
            NtStatus::AccessDenied => 0xC000_0022,
            NtStatus::InvalidParameter => 0xC000_000D,
            NtStatus::NotSupported => 0xC000_00BB,
            NtStatus::BufferTooSmall => 0xC000_0023,
        }
    }

    /// The number of the status.
    #[verifier::when_used_as_spec(spec_code)]
    pub fn code(self) -> (code: u32)
        ensures
            code == self.spec_code(),
    {
        match self {
            NtStatus::Success => 0x0000_0000,
            NtStatus::AccessDenied => 0xC000_0022,
            NtStatus::InvalidParameter => 0xC000_000D,
            NtStatus::NotSupported => 0xC000_00BB,
            NtStatus::BufferTooSmall => 0xC000_0023,
        }
    }
}

/// The status under which a failure is reported to the host.
pub open spec fn status_of(error: DriverError) -> NtStatus {
    match error {
        DriverError::InvalidHandle => NtStatus::InvalidParameter,
        DriverError::AccessDenied => NtStatus::AccessDenied,
        DriverError::BufferTooSmall => NtStatus::BufferTooSmall,
        DriverError::NotSupported => NtStatus::NotSupported,
        DriverError::InvalidPath => NtStatus::InvalidParameter,
    }
}

impl From<DriverError> for NtStatus {
    fn from(error: DriverError) -> (status: NtStatus) {
        match error {
            DriverError::InvalidHandle => NtStatus::InvalidParameter,
            DriverError::AccessDenied => NtStatus::AccessDenied,
            DriverError::BufferTooSmall => NtStatus::BufferTooSmall,
            DriverError::NotSupported => NtStatus::NotSupported,
            DriverError::InvalidPath => NtStatus::InvalidParameter,
        }
    }
}

impl vstd::std_specs::convert::FromSpecImpl<DriverError> for NtStatus {
    open spec fn obeys_from_spec() -> bool {
        true
    }

    open spec fn from_spec(error: DriverError) -> NtStatus {
        status_of(error)
    }
}

/// No failure is reported as success.
pub proof fn failure_is_never_success(error: DriverError)
    ensures
        status_of(error) != NtStatus::Success,
        status_of(error).spec_code() != 0,
{
}

/// The two backslashes in a row that no path may hold.
pub open spec fn double_backslash() -> Seq<u8> {
    "\\\\".spec_bytes()
}

/// What the check of a path yields.  The tests are made in this order:
/// an empty path is an invalid handle; a path with two backslashes in a
/// row is an invalid path; a path in which `secret` or `rahasia` occurs,
/// in any case, is denied; every other path passes.
pub open spec fn path_verdict(path: Seq<u8>) -> Result<(), DriverError> {
    if path.len() == 0 {
        Err(DriverError::InvalidHandle)
    } else if contains(path, double_backslash()) {
        Err(DriverError::InvalidPath)
    } else if contains_ignore_case(path, "secret".spec_bytes()) || contains_ignore_case(
        path,
        "rahasia".spec_bytes(),
    ) {
        Err(DriverError::AccessDenied)
    } else {
        Ok(())
    }
}

/// Checks a path and says why it is refused, if it is.
pub fn validate_path(path: &str) -> (result: Result<(), DriverError>)
    ensures
        result == path_verdict(path.spec_bytes()),
{
    let bytes = path.as_bytes();
    if bytes.len() == 0 {
        return Err(DriverError::InvalidHandle);
    }
    if contains_bytes(bytes, "\\\\".as_bytes()) {
        return Err(DriverError::InvalidPath);
    }
    if path_contains_pattern(path, "secret") || path_contains_pattern(path, "rahasia") {
        return Err(DriverError::AccessDenied);
    }
    Ok(())
}

} // verus!
