//! Synthetic file attributes.
//!
//! Queues have no byte length, timestamps or ownership of their own, so every
//! attribute record is built from a fixed template: directories get mode 755
//! and regular files mode 644, file sizes are a fixed placeholder capacity,
//! and the owner is the user who mounted the tree. Timestamps are not carried
//! here at all; the protocol layer reports the epoch for all of them.

use vstd::prelude::*;

verus! {

/// The inode number reserved for the root directory.
pub const ROOT_INO: u64 = 1;

/// Placeholder byte size reported for every queue file; queues have no true
/// byte length.
pub const FILE_PLACEHOLDER_SIZE: u64 = 1048576;

/// Block size reported for every entry.
pub const BLOCK_SIZE: u32 = 512;

/// Permission bits of the root directory: rwxr-xr-x.
pub const DIR_PERM: u16 = 0o755;

/// Permission bits of a queue file: rw-r--r--.
pub const FILE_PERM: u16 = 0o644;

/// What kind of entry an attribute record describes.
#[derive(Clone, Copy, Debug, PartialEq, Eq, Structural)]
pub enum FileKind {
    Directory,
    RegularFile,
}

/// The attributes of one directory entry, as the kernel protocol wants them.
#[derive(Clone, Copy, Debug, PartialEq, Eq, Structural)]
pub struct FileAttr {
    /// Synthetic inode number, valid only within the current cache snapshot.
    pub ino: u64,
    pub size: u64,
    pub blocks: u64,
    pub kind: FileKind,
    /// POSIX permission bits.
    pub perm: u16,
    pub nlink: u32,
    /// Owning user: the user who mounted the tree.
    pub uid: u32,
    /// Owning group: the group of the user who mounted the tree.
    pub gid: u32,
    pub rdev: u32,
    pub flags: u32,
    pub blksize: u32,
}

/// The attribute record that `build_fileattr` constructs.
pub open spec fn file_attr_spec(inode: u64, kind: FileKind, uid: u32, gid: u32) -> FileAttr {
    let size: u64 = if kind is Directory {
        0
    } else {
        FILE_PLACEHOLDER_SIZE as u64
    };
    FileAttr {
        ino: inode,
        size: size,
        blocks: size / (BLOCK_SIZE as u64),
        kind: kind,
        perm: if kind is Directory {
            DIR_PERM as u16
        } else {
            FILE_PERM as u16
        },
        nlink: if kind is Directory {
            2
        } else {
            1
        },
        uid: uid,
        gid: gid,
        rdev: 0,
        flags: 0,
        blksize: BLOCK_SIZE as u32,
    }
}

/// Builds the fixed attribute template for one entry: directories are
/// mode 755 with two links, files are mode 644 with one link and the
/// placeholder capacity; the owner is the mounting user.
pub fn build_fileattr(inode: u64, kind: FileKind, uid: u32, gid: u32) -> (r: FileAttr)
    ensures
        r == file_attr_spec(inode, kind, uid, gid),
{
    let size: u64 = match kind {
        FileKind::Directory => 0,
        FileKind::RegularFile => FILE_PLACEHOLDER_SIZE,
    };
    let perm: u16 = match kind {
        FileKind::Directory => DIR_PERM,
        FileKind::RegularFile => FILE_PERM,
    };
    let nlink: u32 = match kind {
        FileKind::Directory => 2,
        FileKind::RegularFile => 1,
    };
    FileAttr {
        ino: inode,
        size,
        blocks: size / (BLOCK_SIZE as u64),
        kind,
        perm,
        nlink,
        uid,
        gid,
        rdev: 0,
        flags: 0,
        blksize: BLOCK_SIZE,
    }
}

} // verus!
