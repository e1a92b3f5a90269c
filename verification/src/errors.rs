//! The error taxonomy of the adapter.
//!
//! Every operation that can fail reports one of these causes; the process
//! around the library maps them onto kernel protocol error codes.

use vstd::prelude::*;

verus! {

/// Why an adapter operation was refused.
#[derive(Clone, Copy, Debug, PartialEq, Eq, Structural)]
pub enum FsError {
    /// The name or inode is not in the current cache snapshot.
    NotFound,
    /// The permission check or the handle-mode check failed.
    AccessDenied,
    /// Ambiguous open flags, a non-text payload, or an oversized message.
    InvalidArgument,
    /// A permission or timestamp change was requested; the backing store
    /// cannot express either.
    NotSupported,
    /// The backing queue service failed, or a remote address was malformed.
    ServiceError,
}

impl FsError {
    /// A short description, for the process around the library to log.
    pub fn describe(&self) -> (r: &'static str)
        ensures
            r@ == self.describe_spec(),
    {
        match self {
            FsError::NotFound => "not found",
            FsError::AccessDenied => "access denied",
            FsError::InvalidArgument => "invalid argument",
            FsError::NotSupported => "not supported",
            FsError::ServiceError => "service error",
        }
    }

    /// What `describe` returns for each cause.
    pub open spec fn describe_spec(&self) -> Seq<char> {
        match self {
            FsError::NotFound => "not found"@,
            FsError::AccessDenied => "access denied"@,
            FsError::InvalidArgument => "invalid argument"@,
            FsError::NotSupported => "not supported"@,
            FsError::ServiceError => "service error"@,
        }
    }
}

} // verus!
