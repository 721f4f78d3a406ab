//! The failures a mapping request or a durability operation can end in.

use vstd::prelude::*;

verus! {

/// Why a mapping could not be built, or a flush could not be carried out.
#[derive(Clone, Copy, Debug, PartialEq, Eq, Structural)]
pub enum MmapError {
    /// The requested protection combination cannot be expressed.
    InvalidAccess,
    /// Mutually exclusive advisory hints are both set.
    ConflictingAdvice,
    /// The aligned length of the request is not representable.
    InvalidLength,
    /// The lock-memory privilege needed for large pages was not granted.
    PrivilegeAcquisitionFailure,
    /// A system call failed; the field is the error code the system reported.
    PlatformFailure(i32),
    /// A durability operation needs a backing handle and the mapping has none.
    NoHandleAvailable,
}

impl MmapError {
    /// The error code reported by the system, if the failure came from a system call.
    pub fn os_code(&self) -> (code: Option<i32>)
        ensures
            code == match *self {
                MmapError::PlatformFailure(c) => Some(c),
                _ => None,
            },
    {
        match *self {
            MmapError::PlatformFailure(c) => Some(c),
            _ => None,
        }
    }
}

} // verus!
