//! The filesystem adapter: the directory cache (superblock and name index)
//! with its TTL refresh policy, the handle table, and the read/write
//! protocols against the queue service.
//!
//! The cache is a snapshot of the last successful queue listing. Inode
//! numbers are synthetic: they are reassigned from 2 upward on every
//! refresh, in listing order, so an inode is meaningful only within the
//! snapshot that produced it. Inode 1 is always the root directory.
//!
//! Network calls happen outside the library. The refresh policy is split in
//! two: `needs_refresh` decides whether the listing must be fetched again,
//! and `apply_refresh` rebuilds the cache from what the fetch returned.
//! Reads and writes hand back what must be sent and take the service's
//! answer as an argument.

use vstd::prelude::*;
use crate::attr::{build_fileattr, file_attr_spec, FileAttr, FileKind, ROOT_INO};
use crate::cli::CliArgs;
use crate::errors::FsError;
use crate::handles::{table_has, table_mode, FileHandle, HandleTable};
use crate::sqs::{get_queue_name, short_name_of, ListingOutcome, ReceiveOutcome};
use crate::MAX_MESSAGE_BYTES;

verus! {

/// One cached queue: its short name (the file name), its remote address,
/// and the synthetic attributes shown to the kernel.
#[derive(Clone)]
pub struct Metadata {
    pub queue_name: String,
    pub queue_url: String,
    pub file_attr: FileAttr,
}

/// The mathematical value of one cached queue.
#[verifier::ext_equal]
pub struct MetadataV {
    pub queue_name: Seq<char>,
    pub queue_url: Seq<char>,
    pub file_attr: FileAttr,
}

impl View for Metadata {
    type V = MetadataV;

    open spec fn view(&self) -> MetadataV {
        MetadataV {
            queue_name: self.queue_name@,
            queue_url: self.queue_url@,
            file_attr: self.file_attr,
        }
    }
}

impl DeepView for Metadata {
    type V = MetadataV;

    open spec fn deep_view(&self) -> MetadataV {
        self.view()
    }
}

/// One name-index entry: a short name and the inode it resolves to.
struct NameEntry {
    name: String,
    ino: u64,
}

/// What a read must do next, after the receive call came back.
pub enum ReadStep {
    /// The read is finished with this result.
    Done(Result<String, FsError>),
    /// A message is in hand: it must be deleted from the remote queue,
    /// with this receipt token, before the body is handed out.
    DeleteThenDeliver { queue_url: String, receipt_handle: String, body: String },
}

/// One validated outbound message, ready to be sent to the queue at its
/// remote address.
#[derive(Debug)]
pub struct OutboundMessage {
    pub queue_url: String,
    pub body: String,
    /// How many payload bytes the message holds; what a successful write
    /// reports back.
    pub byte_len: u32,
}

/// Relies on `String::from_utf8`: it succeeds exactly on valid UTF-8 bytes
/// and then decodes them, as `vstd`'s model of UTF-8 states it.
#[verifier::external_body]
fn decode_utf8_vec(data: &[u8]) -> (r: Option<String>)
    ensures
        r is Some <==> vstd::utf8::valid_utf8(data@),
        r matches Some(s) ==> s@ == vstd::utf8::decode_utf8(data@),
{
    match String::from_utf8(data.to_vec()) {
        Ok(s) => Some(s),
        Err(_) => None,
    }
}

/// Whether the name index holds this short name.
pub open spec fn names_has(names: Seq<(Seq<char>, u64)>, name: Seq<char>) -> bool {
    exists|j: int| 0 <= j < names.len() && names[j].0 == name
}

/// The index-entry position of this short name, when the index holds it.
pub open spec fn names_index(names: Seq<(Seq<char>, u64)>, name: Seq<char>) -> int {
    choose|j: int| 0 <= j < names.len() && names[j].0 == name
}

/// The inode this short name resolves to, when the index holds it.
pub open spec fn names_ino(names: Seq<(Seq<char>, u64)>, name: Seq<char>) -> u64 {
    names[names_index(names, name)].1
}

/// Short names are listed at most once in the index.
pub open spec fn names_distinct(names: Seq<(Seq<char>, u64)>) -> bool {
    forall|j: int, k: int|
        0 <= j < names.len() && 0 <= k < names.len() && j != k ==> (#[trigger] names[j]).0 != (
        #[trigger] names[k]).0
}

/// Whether position `i` holds the last cached queue with this short name:
/// the one the name index must resolve to when names collide.
pub open spec fn is_latest(entries: Seq<MetadataV>, name: Seq<char>, i: int) -> bool {
    &&& 0 <= i < entries.len()
    &&& entries[i].queue_name == name
    &&& forall|k: int| i < k < entries.len() ==> (#[trigger] entries[k]).queue_name != name
}

/// The cache entries that one queue listing produces: one entry per address
/// whose short name can be derived, numbered from inode 2 in listing order.
pub open spec fn queue_entries(urls: Seq<Seq<char>>, uid: u32, gid: u32) -> Seq<MetadataV>
    decreases urls.len(),
{
    if urls.len() == 0 {
        Seq::empty()
    } else {
        let rest = queue_entries(urls.drop_last(), uid, gid);
        match short_name_of(urls.last()) {
            Some(name) => rest.push(
                MetadataV {
                    queue_name: name,
                    queue_url: urls.last(),
                    file_attr: file_attr_spec(
                        (rest.len() + 2) as u64,
                        FileKind::RegularFile,
                        uid,
                        gid,
                    ),
                },
            ),
            None => rest,
        }
    }
}

/// The mathematical value of the whole adapter state.
#[verifier::ext_equal]
pub struct FsV {
    /// The superblock: cached queues, position `i` carrying inode `i + 2`.
    pub entries: Seq<MetadataV>,
    /// The name index: short name to inode.
    pub names: Seq<(Seq<char>, u64)>,
    /// The root directory entry, at inode 1.
    pub root: MetadataV,
    /// The open handles.
    pub handles: Seq<FileHandle>,
    /// The identifier the next created handle will get.
    pub next_fh: u64,
    /// When the cache was last rebuilt from a successful listing, in seconds.
    pub last_refresh: u64,
    /// How long a cached listing stays fresh, in seconds.
    pub ttl: u64,
    /// The mounting user, owner of every entry.
    pub uid: u32,
    /// The mounting user's group.
    pub gid: u32,
}

impl FsV {
    /// Whether the name index holds this short name.
    pub open spec fn has_name(self, name: Seq<char>) -> bool {
        names_has(self.names, name)
    }

    /// The inode this short name resolves to.
    pub open spec fn name_ino(self, name: Seq<char>) -> u64 {
        names_ino(self.names, name)
    }

    /// Whether this inode denotes a queue of the current snapshot.
    pub open spec fn inode_valid(self, ino: u64) -> bool {
        2 <= ino && ino < self.entries.len() + 2
    }

    /// The cached queue this inode denotes.
    pub open spec fn entry_at(self, ino: u64) -> MetadataV {
        self.entries[ino - 2]
    }

    /// The root directory's attributes.
    pub open spec fn root_attr(self) -> FileAttr {
        file_attr_spec(ROOT_INO as u64, FileKind::Directory, self.uid, self.gid)
    }

    /// Whether the cached listing is stale at this time: the refresh policy
    /// allows a refresh exactly then.
    pub open spec fn refresh_due(self, now: u64) -> bool {
        now >= self.last_refresh + self.ttl
    }

    /// Well-formedness of the cache.
    ///
    /// Every superblock entry carries the attribute template for its
    /// position's inode and a short name derived from its address; every
    /// name-index entry resolves to an in-range inode holding the last
    /// queue with that name; every cached queue's name is in the index;
    /// and no name is indexed twice.
    pub open spec fn wf(self) -> bool {
        &&& self.entries.len() <= usize::MAX - 2
        &&& forall|i: int|
            0 <= i < self.entries.len() ==> (#[trigger] self.entries[i]).file_attr
                == file_attr_spec((i + 2) as u64, FileKind::RegularFile, self.uid, self.gid)
        &&& forall|i: int|
            0 <= i < self.entries.len() ==> short_name_of((#[trigger] self.entries[i]).queue_url)
                == Some(self.entries[i].queue_name)
        &&& forall|j: int|
            0 <= j < self.names.len() ==> {
                let (name, ino) = #[trigger] self.names[j];
                &&& self.inode_valid(ino)
                &&& is_latest(self.entries, name, ino - 2)
            }
        &&& forall|i: int|
            0 <= i < self.entries.len() ==> names_has(
                self.names,
                (#[trigger] self.entries[i]).queue_name,
            )
        &&& names_distinct(self.names)
        &&& self.root.file_attr == self.root_attr()
        &&& self.root.queue_name == "."@
        &&& self.root.queue_url == Seq::<char>::empty()
    }
}

/// Every position of a distinct name index resolves through the index
/// lookup to its own pair, so pointwise facts about the lookup carry to
/// every entry.
pub proof fn lemma_names_lookup(names: Seq<(Seq<char>, u64)>, j: int)
    requires
        names_distinct(names),
        0 <= j < names.len(),
    ensures
        names_has(names, names[j].0),
        names_index(names, names[j].0) == j,
        names_ino(names, names[j].0) == names[j].1,
{
    assert(names_has(names, names[j].0));
    let k = names_index(names, names[j].0);
    assert(names[k].0 == names[j].0);
    if k != j {
        assert(names[k].0 != names[j].0);
    }
}

/// The filesystem adapter: the facade over the directory cache, the handle
/// table and the queue-service boundary.
pub struct SQSFileSystem {
    superblock: Vec<Metadata>,
    aux_map: Vec<NameEntry>,
    handle_table: HandleTable,
    root: Metadata,
    last_refresh: u64,
    cli_args: CliArgs,
    uid: u32,
    gid: u32,
}

impl View for SQSFileSystem {
    type V = FsV;

    closed spec fn view(&self) -> FsV {
        FsV {
            entries: self.superblock.deep_view(),
            names: self.aux_map@.map_values(|e: NameEntry| (e.name@, e.ino)),
            root: self.root@,
            handles: self.handle_table.handles(),
            next_fh: self.handle_table.next_fh(),
            last_refresh: self.last_refresh,
            ttl: self.cli_args.cache_ttl_in_secs,
            uid: self.uid,
            gid: self.gid,
        }
    }
}

impl SQSFileSystem {
    /// The adapter is well-formed: its cache is coherent and its handle
    /// table holds distinct identifiers below the counter.
    pub open spec fn wf(&self) -> bool {
        &&& self@.wf()
        &&& self.table_wf()
    }

    /// The handle table's own well-formedness.
    pub closed spec fn table_wf(&self) -> bool {
        self.handle_table.wf()
    }

    /// A fresh adapter for one mount session: an empty cache that the first
    /// access will want refreshed, owned by the mounting user.
    pub fn new(cli_args: CliArgs, uid: u32, gid: u32) -> (r: SQSFileSystem)
        ensures
            r.wf(),
            r@.entries =~= Seq::<MetadataV>::empty(),
            r@.names =~= Seq::<(Seq<char>, u64)>::empty(),
            r@.handles =~= Seq::<FileHandle>::empty(),
            r@.next_fh == 0,
            r@.last_refresh == 0,
            r@.ttl == cli_args.cache_ttl_in_secs,
            r@.uid == uid,
            r@.gid == gid,
    {
        let root_attr = build_fileattr(ROOT_INO, FileKind::Directory, uid, gid);
        let r = SQSFileSystem {
            superblock: Vec::new(),
            aux_map: Vec::new(),
            handle_table: HandleTable::new(),
            root: Metadata {
                queue_name: ".".to_owned(),
                queue_url: String::new(),
                file_attr: root_attr,
            },
            last_refresh: 0,
            cli_args,
            uid,
            gid,
        };
        proof {
            assert(r@.entries =~= Seq::<MetadataV>::empty());
            assert(r@.names =~= Seq::<(Seq<char>, u64)>::empty());
        }
        r
    }

    /// Points the name index at this inode for this short name, replacing
    /// an earlier entry for the same name so that the last listed queue
    /// wins; every other name resolves as before.
    fn upsert_name(&mut self, name: String, ino: u64)
        requires
            names_distinct(old(self)@.names),
        ensures
            final(self)@ == (FsV { names: final(self)@.names, ..old(self)@ }),
            old(self).table_wf() ==> final(self).table_wf(),
            names_distinct(final(self)@.names),
            names_has(final(self)@.names, name@),
            names_ino(final(self)@.names, name@) == ino,
            forall|m: Seq<char>| m != name@
                ==> #[trigger] names_has(final(self)@.names, m) == names_has(old(self)@.names, m),
            forall|m: Seq<char>| m != name@ && names_has(old(self)@.names, m)
                ==> #[trigger] names_ino(final(self)@.names, m) == names_ino(old(self)@.names, m),
    {
        let n = self.aux_map.len();
        for i in 0..n
            invariant
                n == self.aux_map.len(),
                *self == *old(self),
                names_distinct(old(self)@.names),
                forall|j: int| 0 <= j < i ==> #[trigger] self@.names[j].0 != name@,
        {
            proof {
                assert(self@.names[i as int] == (self.aux_map@[i as int].name@, self.aux_map@[
                    i as int
                ].ino));
            }
            if self.aux_map[i].name.eq(&name) {
                self.aux_map[i] = NameEntry { name, ino };
                proof {
                    let pre = old(self)@.names;
                    let post = self@.names;
                    assert(post =~= pre.update(i as int, (name@, ino)));
                    assert(pre[i as int].0 == name@);
                    assert forall|j: int| 0 <= j < post.len() implies (#[trigger] post[j]).0
                        == pre[j].0 by {}
                    assert(names_distinct(post)) by {
                        assert forall|j: int, k: int|
                            0 <= j < post.len() && 0 <= k < post.len() && j != k implies (
                        #[trigger] post[j]).0 != (#[trigger] post[k]).0 by {
                            assert(post[j].0 == pre[j].0);
                            assert(post[k].0 == pre[k].0);
                            assert(pre[j].0 != pre[k].0);
                        }
                    }
                    assert(names_has(post, name@)) by {
                        assert(post[i as int].0 == name@);
                    }
                    lemma_names_lookup(post, i as int);
                    assert forall|m: Seq<char>| m != name@ implies #[trigger] names_has(post, m)
                        == names_has(pre, m) by {
                        if names_has(pre, m) {
                            let j = names_index(pre, m);
                            assert(post[j].0 == m);
                        }
                        if names_has(post, m) {
                            let j = names_index(post, m);
                            assert(pre[j].0 == m);
                        }
                    }
                    assert forall|m: Seq<char>| m != name@ && names_has(pre, m) implies #[trigger] names_ino(
                        post,
                        m,
                    ) == names_ino(pre, m) by {
                        let j = names_index(pre, m);
                        assert(pre[j].0 == m);
                        assert(j != i as int);
                        assert(post[j].0 == m);
                        lemma_names_lookup(post, j);
                        assert(names_ino(post, m) == post[j].1);
                        lemma_names_lookup(pre, j);
                    }
                }
                return;
            }
        }
        proof {
            assert forall|j: int| 0 <= j < self@.names.len() implies (#[trigger] self@.names[j]).0
                != name@ by {}
        }
        self.aux_map.push(NameEntry { name, ino });
        proof {
            let pre = old(self)@.names;
            let post = self@.names;
            let last = post.len() - 1;
            assert(post =~= pre.push((name@, ino)));
            assert(post[last] == (name@, ino));
            assert forall|j: int| 0 <= j < pre.len() implies #[trigger] post[j] == pre[j] by {}
            assert(names_distinct(post)) by {
                assert forall|j: int, k: int|
                    0 <= j < post.len() && 0 <= k < post.len() && j != k implies (
                #[trigger] post[j]).0 != (#[trigger] post[k]).0 by {
                    if j < last && k < last {
                        assert(pre[j].0 != pre[k].0);
                    }
                }
            }
            lemma_names_lookup(post, last);
            assert forall|m: Seq<char>| m != name@ implies #[trigger] names_has(post, m)
                == names_has(pre, m) by {
                if names_has(pre, m) {
                    let j = names_index(pre, m);
                    assert(post[j].0 == m);
                }
                if names_has(post, m) {
                    let j = names_index(post, m);
                    assert(j != last);
                    assert(pre[j].0 == m);
                }
            }
            assert forall|m: Seq<char>| m != name@ && names_has(pre, m) implies #[trigger] names_ino(
                post,
                m,
            ) == names_ino(pre, m) by {
                let j = names_index(pre, m);
                assert(pre[j].0 == m);
                assert(post[j].0 == m);
                lemma_names_lookup(post, j);
                lemma_names_lookup(pre, j);
            }
        }
    }

    /// Rebuilds the cache from what a listing fetch returned. On success
    /// the old snapshot is discarded entirely: the returned queues get
    /// inodes from 2 upward in listing order, a queue whose address yields
    /// no short name is skipped, and the refresh clock is set to now. On
    /// failure the cache is left empty except for the root entry and the
    /// clock is left alone, so the very next access retries the refresh.
    /// Open handles are not touched either way.
    pub fn apply_refresh(&mut self, now: u64, listing: ListingOutcome)
        requires
            old(self).wf(),
            old(self)@.refresh_due(now),
            listing matches ListingOutcome::Listed(urls) ==> urls@.len() <= usize::MAX - 2,
        ensures
            final(self).wf(),
            final(self)@.handles == old(self)@.handles,
            final(self)@.next_fh == old(self)@.next_fh,
            final(self)@.root == old(self)@.root,
            final(self)@.ttl == old(self)@.ttl,
            final(self)@.uid == old(self)@.uid,
            final(self)@.gid == old(self)@.gid,
            listing is Failed ==> {
                &&& final(self)@.entries =~= Seq::<MetadataV>::empty()
                &&& final(self)@.names =~= Seq::<(Seq<char>, u64)>::empty()
                &&& final(self)@.last_refresh == old(self)@.last_refresh
            },
            listing matches ListingOutcome::Listed(urls) ==> {
                &&& final(self)@.entries == queue_entries(
                    urls.deep_view(),
                    old(self)@.uid,
                    old(self)@.gid,
                )
                &&& final(self)@.last_refresh == now
            },
    {
        self.superblock = Vec::new();
        self.aux_map = Vec::new();
        proof {
            assert(self@.entries =~= Seq::<MetadataV>::empty());
            assert(self@.names =~= Seq::<(Seq<char>, u64)>::empty());
        }
        match listing {
            ListingOutcome::Failed => {},
            ListingOutcome::Listed(urls) => {
                let ghost uv = urls.deep_view();
                let ghost uid = self@.uid;
                let ghost gid = self@.gid;
                let n = urls.len();
                for idx in 0..n
                    invariant
                        n == urls.len(),
                        n <= usize::MAX - 2,
                        uv == urls.deep_view(),
                        uid == old(self)@.uid,
                        gid == old(self)@.gid,
                        self.wf(),
                        self@.entries.len() <= idx,
                        self@.entries =~= queue_entries(uv.take(idx as int), uid, gid),
                        self@.handles == old(self)@.handles,
                        self@.next_fh == old(self)@.next_fh,
                        self@.root == old(self)@.root,
                        self@.ttl == old(self)@.ttl,
                        self@.uid == old(self)@.uid,
                        self@.gid == old(self)@.gid,
                        self@.last_refresh == old(self)@.last_refresh,
                        self.table_wf(),
                {
                    proof {
                        assert(uv.take(idx as int + 1).drop_last() =~= uv.take(idx as int));
                        assert(uv.take(idx as int + 1).last() == uv[idx as int]);
                        assert(uv[idx as int] == urls@[idx as int]@);
                    }
                    match get_queue_name(urls[idx].as_str()) {
                        Ok(name) => {
                            let ghost pre = self@;
                            let ino = self.superblock.len() as u64 + 2;
                            let attr = build_fileattr(ino, FileKind::RegularFile, self.uid, self.gid);
                            let entry = Metadata {
                                queue_name: name.clone(),
                                queue_url: urls[idx].clone(),
                                file_attr: attr,
                            };
                            let ghost ev = entry@;
                            self.superblock.push(entry);
                            proof {
                                assert(self@.entries =~= pre.entries.push(ev));
                                assert(ev.queue_name == name@);
                                assert(ev.queue_url == uv[idx as int]);
                                assert(short_name_of(uv[idx as int]) == Some(name@));
                                assert(self@.entries =~= queue_entries(
                                    uv.take(idx as int + 1),
                                    uid,
                                    gid,
                                ));
                            }
                            self.upsert_name(name, ino);
                            proof {
                                let post = self@;
                                let li = pre.entries.len() as int;
                                assert(post.entries =~= pre.entries.push(ev));
                                assert(ino == li + 2);
                                // The new pair is the latest holder of its name;
                                // every other pair keeps resolving as before.
                                assert forall|j: int| 0 <= j < post.names.len() implies {
                                    let (nm, no) = #[trigger] post.names[j];
                                    &&& post.inode_valid(no)
                                    &&& is_latest(post.entries, nm, no - 2)
                                } by {
                                    let (nm, no) = post.names[j];
                                    lemma_names_lookup(post.names, j);
                                    if nm == name@ {
                                        assert(no == ino);
                                        assert(post.entries[li].queue_name == name@);
                                        assert(is_latest(post.entries, nm, li));
                                    } else {
                                        assert(names_has(post.names, nm));
                                        assert(names_has(pre.names, nm));
                                        let k = names_index(pre.names, nm);
                                        assert(pre.names[k].0 == nm);
                                        lemma_names_lookup(pre.names, k);
                                        assert(no == pre.names[k].1);
                                        assert(pre.inode_valid(no));
                                        assert(is_latest(pre.entries, nm, no - 2));
                                        assert(post.entries[li].queue_name != nm);
                                        assert(is_latest(post.entries, nm, no - 2));
                                    }
                                }
                                assert forall|i: int| 0 <= i < post.entries.len() implies names_has(
                                    post.names,
                                    (#[trigger] post.entries[i]).queue_name,
                                ) by {
                                    if i < li {
                                        assert(post.entries[i] == pre.entries[i]);
                                        assert(names_has(pre.names, pre.entries[i].queue_name));
                                        if pre.entries[i].queue_name != name@ {
                                            assert(names_has(
                                                post.names,
                                                pre.entries[i].queue_name,
                                            ));
                                        }
                                    } else {
                                        assert(post.entries[i].queue_name == name@);
                                    }
                                }
                                assert forall|i: int| 0 <= i < post.entries.len() implies (
                                #[trigger] post.entries[i]).file_attr == file_attr_spec(
                                    (i + 2) as u64,
                                    FileKind::RegularFile,
                                    post.uid,
                                    post.gid,
                                ) by {
                                    if i < li {
                                        assert(post.entries[i] == pre.entries[i]);
                                    }
                                }
                                assert forall|i: int| 0 <= i < post.entries.len() implies short_name_of(
                                    (#[trigger] post.entries[i]).queue_url,
                                ) == Some(post.entries[i].queue_name) by {
                                    if i < li {
                                        assert(post.entries[i] == pre.entries[i]);
                                    }
                                }
                                assert(self.wf());
                            }
                        },
                        Err(_) => {
                            proof {
                                assert(queue_entries(uv.take(idx as int + 1), uid, gid)
                                    == queue_entries(uv.take(idx as int), uid, gid));
                            }
                        },
                    }
                }
                self.last_refresh = now;
                proof {
                    assert(uv.take(n as int) =~= uv);
                    assert(self@.entries == queue_entries(uv, uid, gid));
                }
            },
        }
    }

    /// Whether the cache is stale and the caller must fetch a fresh queue
    /// listing before consulting it: true exactly when at least the TTL has
    /// passed since the last successful refresh.
    pub fn needs_refresh(&self, now: u64) -> (r: bool)
        ensures
            r == self@.refresh_due(now),
    {
        now >= self.last_refresh && now - self.last_refresh >= self.cli_args.cache_ttl_in_secs
    }

    /// The cached queues, in listing order, without the root entry.
    pub fn list_files(&self) -> (r: &Vec<Metadata>)
        ensures
            r.deep_view() == self@.entries,
    {
        &self.superblock
    }

    /// Whether a queue file with this name is in the current snapshot.
    pub fn has_file(&self, file_name: &String) -> (r: bool)
        ensures
            r == self@.has_name(file_name@),
    {
        let n = self.aux_map.len();
        for i in 0..n
            invariant
                n == self.aux_map.len(),
                forall|j: int| 0 <= j < i ==> #[trigger] self@.names[j].0 != file_name@,
        {
            proof {
                assert(self@.names[i as int] == (self.aux_map@[i as int].name@, self.aux_map@[
                    i as int
                ].ino));
            }
            if self.aux_map[i].name.eq(file_name) {
                proof {
                    assert(self@.names[i as int].0 == file_name@);
                }
                return true;
            }
        }
        proof {
            if self@.has_name(file_name@) {
                let j = names_index(self@.names, file_name@);
                assert(self@.names[j].0 == file_name@);
            }
        }
        false
    }

    /// Looks a queue up by its file name, answering from the current
    /// snapshot: the entry whose inode the name index gives, which is the
    /// last listed queue with that name.
    pub fn find_by_name(&self, file_name: &String) -> (r: Option<&Metadata>)
        requires
            self.wf(),
        ensures
            r is Some <==> self@.has_name(file_name@),
            r matches Some(m) ==> {
                let ino = self@.name_ino(file_name@);
                &&& self@.inode_valid(ino)
                &&& m@ == self@.entry_at(ino)
                &&& m@.queue_name == file_name@
                &&& m@.file_attr.ino == ino
            },
    {
        let n = self.aux_map.len();
        for i in 0..n
            invariant
                n == self.aux_map.len(),
                self.wf(),
                forall|j: int| 0 <= j < i ==> #[trigger] self@.names[j].0 != file_name@,
        {
            proof {
                assert(self@.names[i as int] == (self.aux_map@[i as int].name@, self.aux_map@[
                    i as int
                ].ino));
            }
            if self.aux_map[i].name.eq(file_name) {
                let ino = self.aux_map[i].ino;
                proof {
                    assert(self@.names[i as int] == (file_name@, ino));
                    let j = names_index(self@.names, file_name@);
                    assert(self@.names[j].0 == file_name@);
                    if j != i as int {
                        assert(self@.names[j].0 != self@.names[i as int].0);
                    }
                    assert(self@.name_ino(file_name@) == ino);
                    assert(self@.inode_valid(ino));
                    assert(is_latest(self@.entries, file_name@, ino - 2));
                }
                let idx = (ino - 2) as usize;
                proof {
                    assert(self@.entries[idx as int] == self.superblock.deep_view()[idx as int]);
                }
                return Some(&self.superblock[idx]);
            }
        }
        proof {
            if self@.has_name(file_name@) {
                let j = names_index(self@.names, file_name@);
                assert(self@.names[j].0 == file_name@);
            }
        }
        None
    }

    /// Translates what a receive call returned into the next step of the
    /// read protocol. A service failure or an empty queue finishes at once
    /// — an empty queue reads as an empty result, not an error. A received
    /// message must be deleted from the remote queue, with the returned
    /// receipt token, before its body may be handed to the caller;
    /// `read_finish` takes the delete call's outcome.
    pub fn read(&self, metadata: &Metadata, received: ReceiveOutcome) -> (r: ReadStep)
        ensures
            received is Failed ==> (r matches ReadStep::Done(res) && res matches Err(e) && e
                == FsError::ServiceError),
            received is NoMessage ==> (r matches ReadStep::Done(res) && res matches Ok(s) && s@
                =~= Seq::<char>::empty()),
            received matches ReceiveOutcome::Message(m) ==> (r matches ReadStep::DeleteThenDeliver {
                queue_url,
                receipt_handle,
                body,
            } && queue_url@ == metadata.queue_url@ && receipt_handle@ == m.receipt_handle@ && body@
                == m.body@),
    {
        match received {
            ReceiveOutcome::Failed => ReadStep::Done(Err(FsError::ServiceError)),
            ReceiveOutcome::NoMessage => ReadStep::Done(Ok(String::new())),
            ReceiveOutcome::Message(m) => ReadStep::DeleteThenDeliver {
                queue_url: metadata.queue_url.clone(),
                receipt_handle: m.receipt_handle,
                body: m.body,
            },
        }
    }

    /// Finishes a read whose message had to be deleted first: the body is
    /// delivered only when the delete call succeeded, else the read reports
    /// a service error.
    pub fn read_finish(&self, body: String, delete_ok: bool) -> (r: Result<String, FsError>)
        ensures
            delete_ok ==> (r matches Ok(s) && s == body),
            !delete_ok ==> (r matches Err(e) && e == FsError::ServiceError),
    {
        if delete_ok {
            Ok(body)
        } else {
            Err(FsError::ServiceError)
        }
    }

    /// Validates a write payload locally, before any network call: it must
    /// decode as text and must not exceed the service's maximum message
    /// size. Returns the decoded message text.
    pub fn validate_payload(data: &[u8]) -> (r: Result<String, FsError>)
        ensures
            r is Ok <==> data@.len() <= MAX_MESSAGE_BYTES && vstd::utf8::valid_utf8(data@),
            r matches Ok(s) ==> s@ == vstd::utf8::decode_utf8(data@),
            r matches Err(e) ==> e == FsError::InvalidArgument,
    {
        if data.len() > MAX_MESSAGE_BYTES {
            return Err(FsError::InvalidArgument);
        }
        match decode_utf8_vec(data) {
            Some(s) => Ok(s),
            None => Err(FsError::InvalidArgument),
        }
    }

    /// Prepares a write: checks the payload locally and pairs the decoded
    /// message with the queue's remote address, ready to be sent as one
    /// outbound message. Succeeds exactly on text payloads within the size
    /// bound; an oversized or non-text payload is rejected here, before any
    /// network call.
    pub fn write(&self, metadata: &Metadata, data: &[u8]) -> (r: Result<OutboundMessage, FsError>)
        ensures
            r is Ok <==> data@.len() <= MAX_MESSAGE_BYTES && vstd::utf8::valid_utf8(data@),
            r matches Ok(m) ==> {
                &&& m.queue_url@ == metadata.queue_url@
                &&& m.body@ == vstd::utf8::decode_utf8(data@)
                &&& m.byte_len == data@.len()
            },
            r matches Err(e) ==> e == FsError::InvalidArgument,
    {
        let body = match Self::validate_payload(data) {
            Ok(body) => body,
            Err(e) => {
                return Err(e);
            },
        };
        Ok(
            OutboundMessage {
                queue_url: metadata.queue_url.clone(),
                body,
                byte_len: data.len() as u32,
            },
        )
    }

    /// The write's reply, once the prepared message was handed to the
    /// service: the count of payload bytes accepted, or a service error.
    pub fn write_finish(&self, message: &OutboundMessage, send_ok: bool) -> (r: Result<
        u32,
        FsError,
    >)
        ensures
            send_ok ==> (r matches Ok(written) && written == message.byte_len),
            !send_ok ==> (r matches Err(e) && e == FsError::ServiceError),
    {
        if send_ok {
            Ok(message.byte_len)
        } else {
            Err(FsError::ServiceError)
        }
    }

    /// Whether the handle counter can still grow; creating a handle needs
    /// that.
    pub fn can_create_handle(&self) -> (r: bool)
        ensures
            r == (self@.next_fh < u64::MAX),
    {
        self.handle_table.peek_next() < u64::MAX
    }

    /// Records a new open handle with the granted access bits and returns
    /// its identifier; the cache is untouched.
    pub fn create_file_handler(&mut self, mode: u16) -> (r: u64)
        requires
            old(self).wf(),
            old(self)@.next_fh < u64::MAX,
        ensures
            final(self).wf(),
            final(self)@ == (FsV {
                handles: final(self)@.handles,
                next_fh: final(self)@.next_fh,
                ..old(self)@
            }),
            r == old(self)@.next_fh,
            final(self)@.next_fh == old(self)@.next_fh + 1,
            table_has(final(self)@.handles, r),
            table_mode(final(self)@.handles, r) == mode,
            forall|f: u64| f != r
                ==> #[trigger] table_has(final(self)@.handles, f) == table_has(
                    old(self)@.handles,
                    f,
                ),
            forall|f: u64| f != r && table_has(old(self)@.handles, f)
                ==> #[trigger] table_mode(final(self)@.handles, f) == table_mode(
                    old(self)@.handles,
                    f,
                ),
    {
        self.handle_table.create(mode)
    }

    /// Tests whether this handle is open and its recorded access mode
    /// shares a bit with the mode the operation needs. A handle opened
    /// without the write bit never passes a write test; an unknown handle
    /// never passes at all.
    pub fn check_file_handler_mode(&self, fh: u64, mode: u16) -> (r: bool)
        requires
            self.wf(),
        ensures
            r == (table_has(self@.handles, fh) && table_mode(self@.handles, fh) & mode != 0),
    {
        self.handle_table.check_mode(fh, mode)
    }

    /// Destroys an open handle; the cache and every other handle stay.
    pub fn release_file_handler(&mut self, fh: u64)
        requires
            old(self).wf(),
        ensures
            final(self).wf(),
            final(self)@ == (FsV { handles: final(self)@.handles, ..old(self)@ }),
            !table_has(final(self)@.handles, fh),
            forall|f: u64| f != fh
                ==> #[trigger] table_has(final(self)@.handles, f) == table_has(
                    old(self)@.handles,
                    f,
                ),
            forall|f: u64| f != fh && table_has(old(self)@.handles, f)
                ==> #[trigger] table_mode(final(self)@.handles, f) == table_mode(
                    old(self)@.handles,
                    f,
                ),
    {
        self.handle_table.release(fh)
    }

    /// Looks an entry up by inode: inode 1 is always the root directory,
    /// and any other inode answers from the current snapshot alone, so an
    /// inode assigned before the latest refresh resolves to whatever queue
    /// holds its position now, or to nothing.
    pub fn find_by_inode(&self, inode: u64) -> (r: Option<&Metadata>)
        requires
            self.wf(),
        ensures
            inode == ROOT_INO ==> (r matches Some(m) && m@ == self@.root),
            inode != ROOT_INO ==> ((r is Some) <==> self@.inode_valid(inode)),
            inode != ROOT_INO ==> (r matches Some(m) ==> m@ == self@.entry_at(inode)),
    {
        if inode == ROOT_INO {
            return Some(&self.root);
        }
        if inode < 2 {
            return None;
        }
        let off = inode - 2;
        if off < self.superblock.len() as u64 {
            let idx = off as usize;
            proof {
                assert(self@.entries[idx as int] == self.superblock.deep_view()[idx as int]);
            }
            Some(&self.superblock[idx])
        } else {
            None
        }
    }
}

} // verus!
