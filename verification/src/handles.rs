//! The open-handle table.
//!
//! A handle is created on a successful open and records the access mode that
//! was granted then; every later write is tested against that recorded mode,
//! so permissions are checked once, at open time. Handle identifiers come
//! from a monotonic counter and are never reused while the process runs.

use vstd::prelude::*;

verus! {

/// One open handle: its identifier and the access bits granted at open time.
#[derive(Clone, Copy, Debug, PartialEq, Eq, Structural)]
pub struct FileHandle {
    pub fh: u64,
    pub mode: u16,
}

/// The table of open handles, with the counter that numbers the next one.
pub struct HandleTable {
    handles: Vec<FileHandle>,
    next_fh: u64,
}

/// Whether the table holds a handle with this identifier.
pub open spec fn table_has(handles: Seq<FileHandle>, fh: u64) -> bool {
    exists|i: int| 0 <= i < handles.len() && handles[i].fh == fh
}

/// The index of the handle with this identifier, when the table holds one.
pub open spec fn table_index(handles: Seq<FileHandle>, fh: u64) -> int {
    choose|i: int| 0 <= i < handles.len() && handles[i].fh == fh
}

/// The access mode recorded for this identifier, when the table holds it.
pub open spec fn table_mode(handles: Seq<FileHandle>, fh: u64) -> u16 {
    handles[table_index(handles, fh)].mode
}

impl HandleTable {
    /// The handles currently open.
    pub closed spec fn handles(&self) -> Seq<FileHandle> {
        self.handles@
    }

    /// The identifier the next created handle will get.
    pub closed spec fn next_fh(&self) -> u64 {
        self.next_fh
    }

    /// Identifiers are pairwise distinct and all below the counter, so a
    /// created handle can never collide with a live one.
    pub open spec fn wf(&self) -> bool {
        &&& forall|i: int, j: int|
            0 <= i < self.handles().len() && 0 <= j < self.handles().len() && i != j
                ==> #[trigger] self.handles()[i].fh != #[trigger] self.handles()[j].fh
        &&& forall|i: int| 0 <= i < self.handles().len()
                ==> #[trigger] self.handles()[i].fh < self.next_fh()
    }

    pub fn new() -> (r: HandleTable)
        ensures
            r.wf(),
            r.handles() =~= Seq::<FileHandle>::empty(),
            r.next_fh() == 0,
    {
        HandleTable { handles: Vec::new(), next_fh: 0 }
    }

    /// The identifier the next created handle would get.
    pub fn peek_next(&self) -> (r: u64)
        ensures
            r == self.next_fh(),
    {
        self.next_fh
    }

    /// Records a new handle with the requested mode and hands back its
    /// identifier, the current value of the monotonic counter.
    pub fn create(&mut self, mode: u16) -> (r: u64)
        requires
            old(self).wf(),
            old(self).next_fh() < u64::MAX,
        ensures
            final(self).wf(),
            r == old(self).next_fh(),
            final(self).next_fh() == old(self).next_fh() + 1,
            table_has(final(self).handles(), r),
            table_mode(final(self).handles(), r) == mode,
            forall|f: u64| f != r
                ==> #[trigger] table_has(final(self).handles(), f) == table_has(
                    old(self).handles(),
                    f,
                ),
            forall|f: u64| f != r && table_has(old(self).handles(), f)
                ==> #[trigger] table_mode(final(self).handles(), f) == table_mode(
                    old(self).handles(),
                    f,
                ),
    {
        let fh = self.next_fh;
        self.next_fh = self.next_fh + 1;
        self.handles.push(FileHandle { fh, mode });
        proof {
            let hs = self.handles@;
            let n = hs.len() - 1;
            assert(hs[n].fh == fh);
            assert(table_has(hs, fh));
            assert(hs[table_index(hs, fh)].fh == fh);
            assert(table_index(hs, fh) == n) by {
                let k = table_index(hs, fh);
                if k != n {
                    assert(hs[k] == old(self).handles()[k]);
                    assert(old(self).handles()[k].fh < old(self).next_fh());
                }
            }
            assert forall|f: u64| f != fh implies #[trigger] table_has(hs, f) == table_has(
                old(self).handles(),
                f,
            ) by {
                if table_has(old(self).handles(), f) {
                    let i = table_index(old(self).handles(), f);
                    assert(hs[i].fh == f);
                }
                if table_has(hs, f) {
                    let i = table_index(hs, f);
                    assert(i < n);
                    assert(old(self).handles()[i].fh == f);
                }
            }
            assert forall|f: u64| f != fh && table_has(old(self).handles(), f) implies #[trigger] table_mode(
                hs,
                f,
            ) == table_mode(old(self).handles(), f) by {
                let i = table_index(old(self).handles(), f);
                assert(hs[i].fh == f);
                let j = table_index(hs, f);
                assert(hs[j].fh == f);
                assert(j != n);
                if i != j {
                    assert(old(self).handles()[i].fh == old(self).handles()[j].fh);
                }
            }
        }
        fh
    }

    /// Tests the recorded mode of a handle against the access bits an
    /// operation needs: true exactly when the handle is open and its mode
    /// shares a bit with the tested mask. An unknown handle never passes.
    pub fn check_mode(&self, fh: u64, mode: u16) -> (r: bool)
        requires
            self.wf(),
        ensures
            r == (table_has(self.handles(), fh) && table_mode(self.handles(), fh) & mode != 0),
    {
        let n = self.handles.len();
        for i in 0..n
            invariant
                n == self.handles.len(),
                self.wf(),
                forall|j: int| 0 <= j < i ==> #[trigger] self.handles@[j].fh != fh,
        {
            if self.handles[i].fh == fh {
                proof {
                    let k = table_index(self.handles(), fh);
                    assert(self.handles()[k].fh == fh);
                    if k != i as int {
                        assert(self.handles()[k].fh != self.handles()[i as int].fh);
                    }
                }
                return self.handles[i].mode & mode > 0;
            }
        }
        proof {
            if table_has(self.handles(), fh) {
                let k = table_index(self.handles(), fh);
                assert(self.handles()[k].fh == fh);
            }
        }
        false
    }

    /// Destroys the handle with this identifier, if it is open; every other
    /// handle and the counter stay as they were.
    pub fn release(&mut self, fh: u64)
        requires
            old(self).wf(),
        ensures
            final(self).wf(),
            final(self).next_fh() == old(self).next_fh(),
            !table_has(final(self).handles(), fh),
            forall|f: u64| f != fh
                ==> #[trigger] table_has(final(self).handles(), f) == table_has(
                    old(self).handles(),
                    f,
                ),
            forall|f: u64| f != fh && table_has(old(self).handles(), f)
                ==> #[trigger] table_mode(final(self).handles(), f) == table_mode(
                    old(self).handles(),
                    f,
                ),
    {
        let n = self.handles.len();
        for i in 0..n
            invariant
                n == self.handles.len(),
                self.wf(),
                self.next_fh() == old(self).next_fh(),
                self.handles() == old(self).handles(),
                forall|j: int| 0 <= j < i ==> #[trigger] self.handles@[j].fh != fh,
        {
            if self.handles[i].fh == fh {
                let ghost pre = self.handles@;
                self.handles.remove(i);
                proof {
                    let hs = self.handles@;
                    assert(hs =~= pre.subrange(0, i as int) + pre.subrange(
                        i as int + 1,
                        pre.len() as int,
                    ));
                    assert forall|j: int| 0 <= j < hs.len() implies #[trigger] hs[j]
                        == if j < i as int {
                        pre[j]
                    } else {
                        pre[j + 1]
                    } by {}
                    assert(!table_has(hs, fh)) by {
                        if table_has(hs, fh) {
                            let k = table_index(hs, fh);
                            assert(hs[k].fh == fh);
                            if k < i as int {
                                assert(pre[k].fh == fh);
                            } else {
                                assert(pre[k + 1].fh == fh);
                                assert(pre[i as int].fh == fh);
                            }
                        }
                    }
                    assert forall|f: u64| f != fh implies #[trigger] table_has(hs, f) == table_has(
                        pre,
                        f,
                    ) by {
                        if table_has(pre, f) {
                            let k = table_index(pre, f);
                            assert(pre[k].fh == f);
                            assert(k != i as int);
                            if k < i as int {
                                assert(hs[k].fh == f);
                            } else {
                                assert(hs[k - 1].fh == f);
                            }
                        }
                        if table_has(hs, f) {
                            let k = table_index(hs, f);
                            assert(hs[k].fh == f);
                            if k < i as int {
                                assert(pre[k].fh == f);
                            } else {
                                assert(pre[k + 1].fh == f);
                            }
                        }
                    }
                    assert forall|f: u64| f != fh && table_has(pre, f) implies #[trigger] table_mode(
                        hs,
                        f,
                    ) == table_mode(pre, f) by {
                        let k = table_index(pre, f);
                        assert(pre[k].fh == f);
                        assert(k != i as int);
                        assert(table_has(hs, f)) by {
                            if k < i as int {
                                assert(hs[k].fh == f);
                            } else {
                                assert(hs[k - 1].fh == f);
                            }
                        }
                        let m = table_index(hs, f);
                        assert(hs[m].fh == f);
                        let morig: int = if m < i as int {
                            m
                        } else {
                            m + 1
                        };
                        assert(pre[morig].fh == f);
                        if morig != k {
                            assert(pre[morig].fh != pre[k].fh);
                        }
                    }
                }
                return;
            }
        }
        proof {
            if table_has(self.handles(), fh) {
                let k = table_index(self.handles(), fh);
                assert(self.handles()[k].fh == fh);
            }
        }
    }
}

} // verus!
