//! Object handles, status codes and the error type shared by all operations.

use vstd::prelude::*;

verus! {

/// Status code of a platform call.
pub type Status = i32;

/// The status of a platform call that succeeded.
pub const NO_ERR: Status = 0;

/// Handle of an object of the platform: a device, a plugin, the system itself.
pub type ObjectId = u32;

/// The reserved handle that stands for "unknown" or "none".
pub const OBJECT_UNKNOWN: ObjectId = 0;

/// The handle of the system object, which owns the device list and the defaults.
pub const SYSTEM_OBJECT: ObjectId = 1;

/// The status that stands for an error without a status of its own (the
/// four-character code `what`).
pub const UNSPECIFIED_ERROR: Status = 0x7768_6174;

/// A string owned by the platform's allocator, known here only by its handle.
///
/// Whoever receives one from an accessor owns a reference to it and has to
/// release it through the platform.
#[derive(Clone, Copy, Debug, PartialEq, Eq, Structural)]
pub struct StringHandle {
    pub raw: usize,
}

impl StringHandle {
    pub open spec fn spec_is_null(self) -> bool {
        self.raw == 0
    }

    #[verifier::when_used_as_spec(spec_is_null)]
    pub fn is_null(self) -> (r: bool)
        ensures
            r == self.spec_is_null(),
    {
        self.raw == 0
    }
}

/// Why an operation failed.
#[derive(Clone, Copy, Debug, PartialEq, Eq, Structural)]
pub enum PropertyError {
    /// A platform call failed; the status is the one it returned, unchanged.
    PlatformStatusError(Status),
    /// A plugin or a default device that the operation needs could not be resolved.
    PluginResolutionError,
    /// The platform reported success but broke one of its documented promises.
    ContractViolation,
}

impl PropertyError {
    /// The status code that stands for this error where only a code can
    /// be returned: the platform's own status, or the unspecified error for
    /// what could not be resolved. A contract violation has none.
    pub open spec fn spec_status_code(self) -> Option<Status> {
        match self {
            PropertyError::PlatformStatusError(status) => Some(status),
            PropertyError::PluginResolutionError => Some(UNSPECIFIED_ERROR),
            PropertyError::ContractViolation => None,
        }
    }

    #[verifier::when_used_as_spec(spec_status_code)]
    pub fn status_code(self) -> (r: Option<Status>)
        ensures
            r == self.spec_status_code(),
    {
        match self {
            PropertyError::PlatformStatusError(status) => Some(status),
            PropertyError::PluginResolutionError => Some(UNSPECIFIED_ERROR),
            PropertyError::ContractViolation => None,
        }
    }
}

} // verus!
