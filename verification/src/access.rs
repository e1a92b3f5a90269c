//! The access decision: POSIX owner/group/other permission testing.
//!
//! Exactly one class applies to a request — owner if the requesting user owns
//! the entry, else group if the requesting group matches, else other — and
//! the requested access bits must all be granted by that class. The superuser
//! is always allowed.

use vstd::prelude::*;
use crate::attr::FileAttr;

verus! {

/// Access bit for reading, as open-mode masks encode it.
pub const READ_MASK: u16 = 4;

/// Access bit for writing, as open-mode masks encode it.
pub const WRITE_MASK: u16 = 2;

/// Whether a requester with the given user and group may access an entry
/// with the requested access bits. The first matching class wins; grants
/// never accumulate across classes.
pub open spec fn access_allowed(attr: FileAttr, req_uid: u32, req_gid: u32, access_mask: u16) -> bool {
    if req_uid == 0 {
        true
    } else if attr.uid == req_uid {
        access_mask & ((attr.perm >> 6) & 7) == access_mask
    } else if attr.gid == req_gid {
        access_mask & ((attr.perm >> 3) & 7) == access_mask
    } else {
        access_mask & (attr.perm & 7) == access_mask
    }
}

/// Decides whether the requester may access the entry with the requested
/// access bits, by standard POSIX owner/group/other bit testing. The
/// superuser (user 0) is always allowed.
pub fn check_access(attr: &FileAttr, req_uid: u32, req_gid: u32, access_mask: u16) -> (r: bool)
    ensures
        r == access_allowed(*attr, req_uid, req_gid, access_mask),
{
    if req_uid == 0 {
        return true;
    }
    let class_bits: u16 = if attr.uid == req_uid {
        (attr.perm >> 6) & 7
    } else if attr.gid == req_gid {
        (attr.perm >> 3) & 7
    } else {
        attr.perm & 7
    };
    access_mask & class_bits == access_mask
}

} // verus!
