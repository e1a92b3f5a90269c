//! The protocol handler: one operation per kernel filesystem verb.
//!
//! The handler keeps no state of its own — it is a dispatch layer that
//! translates each verb's arguments into adapter calls and the adapter's
//! answers into replies. Attribute and timestamp mutation is refused loudly
//! where it carries meaning (permissions, times) and ignored where it does
//! not (truncation, since queues have no byte length).

use vstd::prelude::*;
use crate::access::{access_allowed, check_access, READ_MASK, WRITE_MASK};
use crate::attr::{FileAttr, FileKind, ROOT_INO};
use crate::cli::CliArgs;
use crate::errors::FsError;
use crate::filesystem::{FsV, Metadata, OutboundMessage, SQSFileSystem};
use crate::handles::{table_has, table_mode, FileHandle};
use crate::sqs::ListingOutcome;

verus! {

/// The access-mode bits of an open call's flag word.
pub const OPEN_ACCMODE_MASK: i32 = 3;

/// The flag bit asking for truncation at open.
pub const OPEN_TRUNCATE: i32 = 512;

/// Whether the flag word names no valid access mode: exactly one of
/// read-only, write-only or read-write must be chosen.
pub open spec fn open_flags_ambiguous(flags: i32) -> bool {
    flags & OPEN_ACCMODE_MASK == 3
}

/// Whether the flag word asks to truncate a file opened read-only, which
/// is refused as an access violation.
pub open spec fn open_truncate_readonly(flags: i32) -> bool {
    flags & OPEN_ACCMODE_MASK == 0 && flags & OPEN_TRUNCATE != 0
}

/// The access bits a well-formed flag word requests.
pub open spec fn open_access_mask(flags: i32) -> u16 {
    if flags & OPEN_ACCMODE_MASK == 0 {
        READ_MASK
    } else if flags & OPEN_ACCMODE_MASK == 1 {
        WRITE_MASK
    } else {
        READ_MASK | WRITE_MASK
    }
}

/// The attributes the cache shows for an inode, when it has it: inode 1 is
/// the root directory, any other inode is a position of the snapshot.
pub open spec fn attr_of_inode(fsv: FsV, ino: u64) -> FileAttr {
    if ino == ROOT_INO {
        fsv.root.file_attr
    } else {
        fsv.entry_at(ino).file_attr
    }
}

/// Whether the cache has an entry for this inode.
pub open spec fn inode_known(fsv: FsV, ino: u64) -> bool {
    ino == ROOT_INO || fsv.inode_valid(ino)
}

/// One directory entry of a readdir reply, with the offset at which the
/// enumeration would continue after it.
#[derive(Debug)]
pub struct DirEntry {
    pub ino: u64,
    pub kind: FileKind,
    pub name: String,
    pub next_offset: usize,
}

/// The protocol handler over one adapter.
pub struct SQSFuse {
    sqs_fs: SQSFileSystem,
    default_ttl: u64,
}

impl View for SQSFuse {
    type V = FsV;

    closed spec fn view(&self) -> FsV {
        self.sqs_fs@
    }
}

impl SQSFuse {
    /// The handler is well-formed when its adapter is, and its reply TTL
    /// is the configured cache TTL.
    pub open spec fn wf(&self) -> bool {
        &&& self@.wf()
        &&& self.inner_wf()
    }

    /// The pieces of well-formedness that name private state.
    pub closed spec fn inner_wf(&self) -> bool {
        &&& self.sqs_fs.wf()
        &&& self.default_ttl == self.sqs_fs@.ttl
    }

    /// A handler for one mount session, owned by the mounting user.
    pub fn new(cli_args: CliArgs, uid: u32, gid: u32) -> (r: SQSFuse)
        ensures
            r.wf(),
            r@.entries =~= Seq::<crate::filesystem::MetadataV>::empty(),
            r@.names =~= Seq::<(Seq<char>, u64)>::empty(),
            r@.handles =~= Seq::<FileHandle>::empty(),
            r@.next_fh == 0,
            r@.last_refresh == 0,
            r@.ttl == cli_args.cache_ttl_in_secs,
            r@.uid == uid,
            r@.gid == gid,
    {
        SQSFuse {
            default_ttl: cli_args.cache_ttl_in_secs,
            sqs_fs: SQSFileSystem::new(cli_args, uid, gid),
        }
    }

    /// How long the kernel may cache a replied attribute record: the
    /// configured cache TTL, in seconds.
    pub fn attr_ttl_secs(&self) -> (r: u64)
        requires
            self.wf(),
        ensures
            r == self@.ttl,
    {
        self.default_ttl
    }

    /// Whether the cached listing is stale at this time; the caller must
    /// then fetch a fresh listing and hand it to `apply_refresh` before
    /// consulting any lookup verb.
    pub fn needs_refresh(&self, now: u64) -> (r: bool)
        requires
            self.wf(),
        ensures
            r == self@.refresh_due(now),
    {
        self.sqs_fs.needs_refresh(now)
    }

    /// Rebuilds the cache from a fetched listing; see the adapter's
    /// `apply_refresh`.
    pub fn apply_refresh(&mut self, now: u64, listing: ListingOutcome)
        requires
            old(self).wf(),
            old(self)@.refresh_due(now),
            listing matches ListingOutcome::Listed(urls) ==> urls@.len() <= usize::MAX - 2,
        ensures
            final(self).wf(),
            final(self)@.handles == old(self)@.handles,
            final(self)@.next_fh == old(self)@.next_fh,
            final(self)@.root == old(self)@.root,
            final(self)@.ttl == old(self)@.ttl,
            final(self)@.uid == old(self)@.uid,
            final(self)@.gid == old(self)@.gid,
            listing is Failed ==> {
                &&& final(self)@.entries =~= Seq::<crate::filesystem::MetadataV>::empty()
                &&& final(self)@.names =~= Seq::<(Seq<char>, u64)>::empty()
                &&& final(self)@.last_refresh == old(self)@.last_refresh
            },
            listing matches ListingOutcome::Listed(urls) ==> {
                &&& final(self)@.entries == crate::filesystem::queue_entries(
                    urls.deep_view(),
                    old(self)@.uid,
                    old(self)@.gid,
                )
                &&& final(self)@.last_refresh == now
            },
    {
        self.sqs_fs.apply_refresh(now, listing)
    }

    /// The adapter under the handler, for the read and write protocols
    /// that continue after a network call.
    pub fn fs(&self) -> (r: &SQSFileSystem)
        ensures
            r@ == self@,
            self.wf() ==> r.wf(),
    {
        &self.sqs_fs
    }

    /// Answers a lookup: the attributes of the named file, provided the
    /// parent is the root directory — the tree is flat — and the name is a
    /// cached queue.
    pub fn lookup(&self, parent: u64, name: &String) -> (r: Result<FileAttr, FsError>)
        requires
            self.wf(),
        ensures
            parent != ROOT_INO ==> r == Err::<FileAttr, FsError>(FsError::NotFound),
            parent == ROOT_INO && !self@.has_name(name@) ==> r == Err::<FileAttr, FsError>(
                FsError::NotFound,
            ),
            parent == ROOT_INO && self@.has_name(name@) ==> r == Ok::<FileAttr, FsError>(
                self@.entry_at(self@.name_ino(name@)).file_attr,
            ),
    {
        if parent != ROOT_INO {
            return Err(FsError::NotFound);
        }
        match self.sqs_fs.find_by_name(name) {
            Some(metadata) => Ok(metadata.file_attr),
            None => Err(FsError::NotFound),
        }
    }

    /// Answers a getattr: the attributes the cache shows for this inode.
    pub fn getattr(&self, ino: u64) -> (r: Result<FileAttr, FsError>)
        requires
            self.wf(),
        ensures
            inode_known(self@, ino) ==> r == Ok::<FileAttr, FsError>(attr_of_inode(self@, ino)),
            !inode_known(self@, ino) ==> r == Err::<FileAttr, FsError>(FsError::NotFound),
    {
        match self.sqs_fs.find_by_inode(ino) {
            Some(metadata) => Ok(metadata.file_attr),
            None => Err(FsError::NotFound),
        }
    }

    /// Answers a setattr. Permission and timestamp changes are refused:
    /// ownership and mode are fixed to the mounting user, and queues have
    /// no timestamps. A size change (truncation) is meaningless for a
    /// queue and is accepted as a no-op. The unchanged attributes are
    /// returned.
    pub fn setattr(
        &self,
        ino: u64,
        mode_change: Option<u32>,
        size_change: Option<u64>,
        atime_change: bool,
        mtime_change: bool,
    ) -> (r: Result<FileAttr, FsError>)
        requires
            self.wf(),
        ensures
            !inode_known(self@, ino) ==> r == Err::<FileAttr, FsError>(FsError::NotFound),
            inode_known(self@, ino) && mode_change is Some ==> r == Err::<FileAttr, FsError>(
                FsError::NotSupported,
            ),
            inode_known(self@, ino) && mode_change is None && (atime_change || mtime_change) ==> r
                == Err::<FileAttr, FsError>(FsError::NotSupported),
            inode_known(self@, ino) && mode_change is None && !atime_change && !mtime_change ==> r
                == Ok::<FileAttr, FsError>(attr_of_inode(self@, ino)),
    {
        let attr = match self.sqs_fs.find_by_inode(ino) {
            Some(metadata) => metadata.file_attr,
            None => {
                return Err(FsError::NotFound);
            },
        };
        if mode_change.is_some() {
            return Err(FsError::NotSupported);
        }
        // A size change carries no meaning for a queue and is dropped here.
        let _ = size_change;
        if atime_change || mtime_change {
            return Err(FsError::NotSupported);
        }
        Ok(attr)
    }

    /// Answers an open: decodes the flag word into an access mask —
    /// refusing an ambiguous mode, and truncation of a read-only open —
    /// then finds the entry, applies the access decision for the
    /// requester, and on success records a handle carrying the granted
    /// mask. Nothing changes on a refusal.
    pub fn open(&mut self, ino: u64, flags: i32, req_uid: u32, req_gid: u32) -> (r: Result<
        u64,
        FsError,
    >)
        requires
            old(self).wf(),
            old(self)@.next_fh < u64::MAX,
        ensures
            final(self).wf(),
            r is Err ==> *final(self) == *old(self),
            open_truncate_readonly(flags) ==> r == Err::<u64, FsError>(FsError::AccessDenied),
            !open_truncate_readonly(flags) && open_flags_ambiguous(flags) ==> r == Err::<
                u64,
                FsError,
            >(FsError::InvalidArgument),
            !open_truncate_readonly(flags) && !open_flags_ambiguous(flags) && !inode_known(
                old(self)@,
                ino,
            ) ==> r == Err::<u64, FsError>(FsError::NotFound),
            !open_truncate_readonly(flags) && !open_flags_ambiguous(flags) && inode_known(
                old(self)@,
                ino,
            ) && !access_allowed(
                attr_of_inode(old(self)@, ino),
                req_uid,
                req_gid,
                open_access_mask(flags),
            ) ==> r == Err::<u64, FsError>(FsError::AccessDenied),
            !open_truncate_readonly(flags) && !open_flags_ambiguous(flags) && inode_known(
                old(self)@,
                ino,
            ) && access_allowed(
                attr_of_inode(old(self)@, ino),
                req_uid,
                req_gid,
                open_access_mask(flags),
            ) ==> {
                &&& r == Ok::<u64, FsError>(old(self)@.next_fh)
                &&& final(self)@ == (FsV {
                    handles: final(self)@.handles,
                    next_fh: final(self)@.next_fh,
                    ..old(self)@
                })
                &&& final(self)@.next_fh == old(self)@.next_fh + 1
                &&& table_has(final(self)@.handles, old(self)@.next_fh)
                &&& table_mode(final(self)@.handles, old(self)@.next_fh) == open_access_mask(flags)
                &&& forall|f: u64| f != old(self)@.next_fh
                    ==> #[trigger] table_has(final(self)@.handles, f) == table_has(
                        old(self)@.handles,
                        f,
                    )
                &&& forall|f: u64| f != old(self)@.next_fh && table_has(old(self)@.handles, f)
                    ==> #[trigger] table_mode(final(self)@.handles, f) == table_mode(
                        old(self)@.handles,
                        f,
                    )
            },
    {
        let accmode = flags & OPEN_ACCMODE_MASK;
        let access_mask: u16 = if accmode == 0 {
            if flags & OPEN_TRUNCATE != 0 {
                return Err(FsError::AccessDenied);
            }
            READ_MASK
        } else if accmode == 1 {
            WRITE_MASK
        } else if accmode == 2 {
            READ_MASK | WRITE_MASK
        } else {
            proof {
                assert(flags & 3i32 == 3) by (bit_vector)
                    requires
                        flags & 3i32 != 0,
                        flags & 3i32 != 1,
                        flags & 3i32 != 2,
                ;
                assert(open_flags_ambiguous(flags));
            }
            return Err(FsError::InvalidArgument);
        };
        let attr = match self.sqs_fs.find_by_inode(ino) {
            Some(metadata) => metadata.file_attr,
            None => {
                return Err(FsError::NotFound);
            },
        };
        if !check_access(&attr, req_uid, req_gid, access_mask) {
            return Err(FsError::AccessDenied);
        }
        let fh = self.sqs_fs.create_file_handler(access_mask);
        Ok(fh)
    }

    /// Answers the local half of a write: the handle must have been opened
    /// with the write bit — a read-only handle is refused before anything
    /// else, and no message leaves for the service — the payload must be
    /// text within the size bound, and the inode must be cached. What
    /// comes back is the message to send; `write_finish` on the adapter
    /// turns the send's outcome into the byte count to reply.
    pub fn write(&self, ino: u64, fh: u64, data: &[u8]) -> (r: Result<OutboundMessage, FsError>)
        requires
            self.wf(),
        ensures
            !(table_has(self@.handles, fh) && table_mode(self@.handles, fh) & WRITE_MASK != 0)
                ==> r == Err::<OutboundMessage, FsError>(FsError::AccessDenied),
            table_has(self@.handles, fh) && table_mode(self@.handles, fh) & WRITE_MASK != 0
                ==> {
                &&& !(data@.len() <= crate::MAX_MESSAGE_BYTES && vstd::utf8::valid_utf8(data@))
                    ==> r == Err::<OutboundMessage, FsError>(FsError::InvalidArgument)
                &&& data@.len() <= crate::MAX_MESSAGE_BYTES && vstd::utf8::valid_utf8(data@)
                    && !inode_known(self@, ino) ==> r == Err::<OutboundMessage, FsError>(
                    FsError::NotFound,
                )
                &&& data@.len() <= crate::MAX_MESSAGE_BYTES && vstd::utf8::valid_utf8(data@)
                    && inode_known(self@, ino) ==> {
                    &&& r is Ok
                    &&& (r matches Ok(m) ==> {
                        &&& m.queue_url@ == (if ino == ROOT_INO {
                            self@.root.queue_url
                        } else {
                            self@.entry_at(ino).queue_url
                        })
                        &&& m.body@ == vstd::utf8::decode_utf8(data@)
                        &&& m.byte_len == data@.len()
                    })
                }
            },
    {
        if !self.sqs_fs.check_file_handler_mode(fh, WRITE_MASK) {
            return Err(FsError::AccessDenied);
        }
        let body = match SQSFileSystem::validate_payload(data) {
            Ok(body) => body,
            Err(_) => {
                return Err(FsError::InvalidArgument);
            },
        };
        let metadata = match self.sqs_fs.find_by_inode(ino) {
            Some(metadata) => metadata,
            None => {
                return Err(FsError::NotFound);
            },
        };
        let byte_len = data.len() as u32;
        Ok(OutboundMessage { queue_url: metadata.queue_url.clone(), body, byte_len })
    }

    /// Answers a readdir of the root directory: the dot and dot-dot
    /// entries, both naming the root, then every cached queue in listing
    /// order, enumerated from the given offset on; each entry carries the
    /// offset where the enumeration continues after it. Any other inode is
    /// not a directory here.
    pub fn readdir(&self, ino: u64, offset: usize) -> (r: Result<Vec<DirEntry>, FsError>)
        requires
            self.wf(),
        ensures
            ino != ROOT_INO ==> r is Err,
            ino != ROOT_INO ==> (r matches Err(e) && e == FsError::NotFound),
            ino == ROOT_INO ==> (r matches Ok(v) && {
                let total = self@.entries.len() + 2;
                &&& offset >= total ==> v@.len() == 0
                &&& offset < total ==> v@.len() == total - offset
                &&& forall|k: int| 0 <= k < v@.len() ==> {
                    let pos = offset + k;
                    let e = #[trigger] v@[k];
                    &&& e.next_offset == pos + 1
                    &&& pos == 0 ==> e.ino == ROOT_INO && e.kind is Directory && e.name@ == "."@
                    &&& pos == 1 ==> e.ino == ROOT_INO && e.kind is Directory && e.name@ == ".."@
                    &&& pos >= 2 ==> {
                        &&& e.ino == pos
                        &&& e.kind is RegularFile
                        &&& e.name@ == self@.entries[pos - 2].queue_name
                    }
                }
            }),
    {
        if ino != ROOT_INO {
            return Err(FsError::NotFound);
        }
        let files = self.sqs_fs.list_files();
        let count = files.len();
        let total = count + 2;
        let mut entries: Vec<DirEntry> = Vec::new();
        if offset >= total {
            return Ok(entries);
        }
        for pos in offset..total
            invariant
                total == count + 2,
                count == files.len(),
                files.deep_view() == self@.entries,
                self.wf(),
                offset <= pos,
                entries@.len() == pos - offset,
                forall|k: int| 0 <= k < entries@.len() ==> {
                    let p = offset + k;
                    let e = #[trigger] entries@[k];
                    &&& e.next_offset == p + 1
                    &&& p == 0 ==> e.ino == ROOT_INO && e.kind is Directory && e.name@ == "."@
                    &&& p == 1 ==> e.ino == ROOT_INO && e.kind is Directory && e.name@ == ".."@
                    &&& p >= 2 ==> {
                        &&& e.ino == p
                        &&& e.kind is RegularFile
                        &&& e.name@ == self@.entries[p - 2].queue_name
                    }
                },
        {
            if pos == 0 {
                entries.push(
                    DirEntry {
                        ino: ROOT_INO,
                        kind: FileKind::Directory,
                        name: ".".to_owned(),
                        next_offset: 1,
                    },
                );
            } else if pos == 1 {
                entries.push(
                    DirEntry {
                        ino: ROOT_INO,
                        kind: FileKind::Directory,
                        name: "..".to_owned(),
                        next_offset: 2,
                    },
                );
            } else {
                let file = &files[pos - 2];
                proof {
                    assert(files.deep_view()[pos - 2] == files@[pos - 2]@);
                    assert(self@.entries[pos - 2].file_attr == crate::attr::file_attr_spec(
                        ((pos - 2) + 2) as u64,
                        FileKind::RegularFile,
                        self@.uid,
                        self@.gid,
                    ));
                }
                entries.push(
                    DirEntry {
                        ino: file.file_attr.ino,
                        kind: file.file_attr.kind,
                        name: file.queue_name.clone(),
                        next_offset: pos + 1,
                    },
                );
            }
        }
        Ok(entries)
    }

    /// Answers a release: destroys the handle; the cache and every other
    /// handle stay.
    pub fn release(&mut self, fh: u64)
        requires
            old(self).wf(),
        ensures
            final(self).wf(),
            final(self)@ == (FsV { handles: final(self)@.handles, ..old(self)@ }),
            !table_has(final(self)@.handles, fh),
            forall|f: u64| f != fh
                ==> #[trigger] table_has(final(self)@.handles, f) == table_has(
                    old(self)@.handles,
                    f,
                ),
            forall|f: u64| f != fh && table_has(old(self)@.handles, f)
                ==> #[trigger] table_mode(final(self)@.handles, f) == table_mode(
                    old(self)@.handles,
                    f,
                ),
    {
        self.sqs_fs.release_file_handler(fh)
    }
}

} // verus!
