//! The properties the library promises, stated as proof functions over the
//! adapter's mathematical state.
//!
//! Each follows from the contracts in the other modules; stating them here
//! keeps the promises readable in one place.

use vstd::prelude::*;
use crate::access::{access_allowed, READ_MASK, WRITE_MASK};
use crate::attr::FileAttr;
use crate::filesystem::{is_latest, queue_entries, FsV};
use crate::handles::{table_has, table_mode};

verus! {

/// Cache coherence: in a well-formed cache — and every refresh leaves the
/// cache well-formed — each short name in the name index resolves to an
/// inode present in the inode table, the entry there carries that very
/// name and inode, and the index lookup answers with that inode.
pub proof fn lemma_cache_coherence(fsv: FsV, j: int)
    requires
        fsv.wf(),
        0 <= j < fsv.names.len(),
    ensures
        ({
            let (name, ino) = fsv.names[j];
            &&& fsv.inode_valid(ino)
            &&& fsv.entry_at(ino).queue_name == name
            &&& fsv.entry_at(ino).file_attr.ino == ino
            &&& fsv.has_name(name)
            &&& fsv.name_ino(name) == ino
        }),
{
    let (name, ino) = fsv.names[j];
    assert(fsv.inode_valid(ino));
    assert(is_latest(fsv.entries, name, ino - 2));
    crate::filesystem::lemma_names_lookup(fsv.names, j);
}

/// A latest position for a name is unique: the name index can point at
/// only one inode per name.
pub proof fn lemma_latest_unique(
    entries: Seq<crate::filesystem::MetadataV>,
    name: Seq<char>,
    i1: int,
    i2: int,
)
    requires
        is_latest(entries, name, i1),
        is_latest(entries, name, i2),
    ensures
        i1 == i2,
{
    if i1 < i2 {
        assert(entries[i2].queue_name != name);
    }
    if i2 < i1 {
        assert(entries[i1].queue_name != name);
    }
}

/// TTL gating: after a successful refresh stamped at some time, any access
/// strictly within the TTL window finds the cache fresh, so two accessor
/// calls inside the window trigger no further listing call.
pub proof fn lemma_ttl_gating(refreshed: FsV, now1: u64, now2: u64)
    requires
        now1 < refreshed.last_refresh + refreshed.ttl,
        now2 < refreshed.last_refresh + refreshed.ttl,
    ensures
        !refreshed.refresh_due(now1),
        !refreshed.refresh_due(now2),
{
}

/// Failure non-persistence: a failed refresh leaves the refresh clock
/// alone, so if a refresh was due it stays due at every later time — the
/// very next access retries instead of waiting out a TTL window.
pub proof fn lemma_failed_refresh_retries(pre: FsV, post: FsV, now: u64, later: u64)
    requires
        post.last_refresh == pre.last_refresh,
        post.ttl == pre.ttl,
        pre.refresh_due(now),
        now <= later,
    ensures
        post.refresh_due(later),
{
}

/// Inode non-stability: what an inode resolves to after a refresh is a
/// function of the fetched listing alone — two sessions whose refreshes
/// saw the same listing resolve every inode identically, whatever either
/// cache held before. An inode from an earlier snapshot therefore carries
/// no identity of its own: it finds whichever queue holds its position in
/// the current listing, or nothing.
pub proof fn lemma_inode_resolution_after_refresh(a: FsV, b: FsV, urls: Seq<Seq<char>>, ino: u64)
    requires
        a.entries == queue_entries(urls, a.uid, a.gid),
        b.entries == queue_entries(urls, b.uid, b.gid),
        a.uid == b.uid,
        a.gid == b.gid,
    ensures
        a.inode_valid(ino) == b.inode_valid(ino),
        a.inode_valid(ino) ==> a.entry_at(ino) == b.entry_at(ino),
{
}

/// Name resolution is determined by the snapshot: two well-formed caches
/// holding the same entries resolve every short name to the same inode.
pub proof fn lemma_name_resolution_determined(a: FsV, b: FsV, name: Seq<char>)
    requires
        a.wf(),
        b.wf(),
        a.entries == b.entries,
    ensures
        a.has_name(name) == b.has_name(name),
        a.has_name(name) ==> a.name_ino(name) == b.name_ino(name),
{
    if a.has_name(name) {
        let j = crate::filesystem::names_index(a.names, name);
        assert(a.names[j].0 == name);
        lemma_cache_coherence(a, j);
        let i = a.name_ino(name) - 2;
        assert(is_latest(a.entries, name, i));
        assert(b.entries[i].queue_name == name);
        assert(b.has_name(name));
    }
    if b.has_name(name) {
        let j = crate::filesystem::names_index(b.names, name);
        assert(b.names[j].0 == name);
        lemma_cache_coherence(b, j);
        let i = b.name_ino(name) - 2;
        assert(is_latest(b.entries, name, i));
        assert(a.entries[i].queue_name == name);
        assert(a.has_name(name));
    }
    if a.has_name(name) && b.has_name(name) {
        let ja = crate::filesystem::names_index(a.names, name);
        let jb = crate::filesystem::names_index(b.names, name);
        assert(a.names[ja].0 == name);
        assert(b.names[jb].0 == name);
        lemma_cache_coherence(a, ja);
        lemma_cache_coherence(b, jb);
        lemma_latest_unique(a.entries, name, a.name_ino(name) - 2, b.name_ino(name) - 2);
    }
}

/// Access control for a file with permission bits rw-r--r--: its owner may
/// open it for reading and for writing, another user of the owning group
/// may open it for reading but neither for writing nor for both at once,
/// a user in neither class may not write, and the superuser may do
/// everything. (A user in neither class may still read: the other class
/// grants the read bit.)
pub proof fn lemma_access_control_matrix(attr: FileAttr, req_uid: u32, req_gid: u32)
    requires
        attr.perm == 0o644,
    ensures
        req_uid == 0 ==> {
            &&& access_allowed(attr, req_uid, req_gid, READ_MASK)
            &&& access_allowed(attr, req_uid, req_gid, WRITE_MASK)
            &&& access_allowed(attr, req_uid, req_gid, READ_MASK | WRITE_MASK)
        },
        req_uid == attr.uid ==> {
            &&& access_allowed(attr, req_uid, req_gid, READ_MASK)
            &&& access_allowed(attr, req_uid, req_gid, WRITE_MASK)
            &&& access_allowed(attr, req_uid, req_gid, READ_MASK | WRITE_MASK)
        },
        req_uid != attr.uid && req_uid != 0 && req_gid == attr.gid ==> {
            &&& access_allowed(attr, req_uid, req_gid, READ_MASK)
            &&& !access_allowed(attr, req_uid, req_gid, WRITE_MASK)
            &&& !access_allowed(attr, req_uid, req_gid, READ_MASK | WRITE_MASK)
        },
        req_uid != attr.uid && req_uid != 0 && req_gid != attr.gid ==> {
            &&& !access_allowed(attr, req_uid, req_gid, WRITE_MASK)
            &&& !access_allowed(attr, req_uid, req_gid, READ_MASK | WRITE_MASK)
        },
{
    let p = attr.perm;
    assert((p >> 6) & 7 == 6 && (p >> 3) & 7 == 4 && p & 7 == 4) by (bit_vector)
        requires
            p == 0o644u16,
    ;
    assert(4u16 & 6 == 4 && 2u16 & 6 == 2 && 6u16 & 6 == 6) by (bit_vector);
    assert(4u16 & 4 == 4 && 2u16 & 4 == 0 && 6u16 & 4 == 4) by (bit_vector);
    assert(READ_MASK | WRITE_MASK == 6u16) by (bit_vector);
}

/// Mode enforcement: a handle that was opened read-only never passes the
/// write test, so a write through it is refused before any message can
/// leave for the backing service.
pub proof fn lemma_readonly_handle_rejects_write(fsv: FsV, fh: u64)
    requires
        table_has(fsv.handles, fh),
        table_mode(fsv.handles, fh) == READ_MASK,
    ensures
        !(table_has(fsv.handles, fh) && table_mode(fsv.handles, fh) & WRITE_MASK != 0),
{
    assert(4u16 & 2 == 0) by (bit_vector);
}

} // verus!
