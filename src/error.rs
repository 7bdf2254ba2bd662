use vstd::prelude::*;

verus! {

/// Why an operation of this library did not succeed.
#[derive(Debug, Clone, Copy, PartialEq, Eq, Structural)]
pub enum GcookieError {
    /// A directory or file on the path was not found, or was not a directory
    /// where one was needed.
    PathResolutionFailed,
    /// The file has no data stream of the requested name.
    AttributeNotFound,
    /// The output file already exists.
    DestinationConflict,
    /// The caller lacks the elevation that the operation needs.
    PermissionDenied,
    /// The lock-release protocol ended without freeing the file.
    LockStillHeld,
    /// A key envelope is malformed or could not be unwrapped.
    KeyUnwrapFailed,
    /// A stored value did not authenticate, or its plaintext is not text.
    DecryptionFailed,
    /// The store cannot be opened for a reason other than a lock.
    StoreUnavailable,
    /// The platform offers no such facility.
    Unsupported,
    /// The site is neither a host name nor a URL with a host.
    InvalidSite,
}

impl GcookieError {
    /// A short description of the error.
    pub fn message(&self) -> (r: &'static str) {
        match self {
            GcookieError::PathResolutionFailed => "path resolution failed",
            GcookieError::AttributeNotFound => "no such data attribute",
            GcookieError::DestinationConflict => "destination already exists",
            GcookieError::PermissionDenied => "permission denied: run as administrator",
            GcookieError::LockStillHeld => "the file is still locked",
            GcookieError::KeyUnwrapFailed => "the key could not be unwrapped",
            GcookieError::DecryptionFailed => "decryption failed",
            GcookieError::StoreUnavailable => "the cookie store is unavailable",
            GcookieError::Unsupported => "not supported on this platform",
            GcookieError::InvalidSite => "the site is not a host or a URL with a host",
        }
    }
}

} // verus!
