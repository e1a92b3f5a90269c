//! A verified core for a filesystem adapter that presents a remote message
//! queue service as a flat directory: each queue is a file, reading a file
//! dequeues one message, writing a file enqueues one.
//!
//! The library holds the directory cache with its TTL refresh policy, the
//! open-handle table with POSIX-style access control, and the protocol
//! dispatch that answers kernel filesystem verbs. Network calls to the queue
//! service and the mount plumbing live outside the library; the functions
//! here take the service's answers as arguments and decide everything else.

use vstd::prelude::*;

pub mod access;
pub mod attr;
pub mod cli;
pub mod errors;
pub mod filesystem;
pub mod fuse;
pub mod handles;
pub mod laws;
pub mod sqs;

verus! {

/// Maximum size in bytes of one outbound message, as the queue service caps it.
pub const MAX_MESSAGE_BYTES: usize = 262144;

} // verus!
