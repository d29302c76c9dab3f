//! The session that owns two stacks of quantum-sized memory regions, one of
//! locked and one of unlocked mappings, and drives their lifecycle from
//! discrete user actions: add a region, remove the most recent one, page the
//! unlocked heap in, and report aggregate sizes.
//!
//! The caller that owns the actual mappings performs the kernel requests and
//! reports each outcome (`map_ok`, `lock_ok`); the session's bookkeeping is
//! verified for every outcome.

use vstd::prelude::*;

use crate::region::{Backing, Region};

verus! {

/// The fixed size of every region a session manages, in megabytes.
pub const CHUNK_SIZE_MB: usize = 256;

/// The same quantum in bytes.
pub const CHUNK_SIZE_BYTES: usize = 256 * 1024 * 1024;

/// Which of the session's two heaps an action is aimed at.
#[derive(Clone, Copy, PartialEq, Eq, Structural, Debug)]
pub enum MlockHeap {
    Locked,
    Unlocked,
}

/// Why an `add` left the session unchanged: the kernel refused the mapping
/// request, or refused to pin the mapped pages.
#[derive(Clone, Copy, PartialEq, Eq, Structural, Debug)]
pub enum MemError {
    MapFailed,
    LockFailed,
}

/// The region that a successful `add(Locked)` appends: a quantum-sized
/// anonymous mapping, pinned (and therefore resident), never probe-filled.
pub open spec fn locked_region(quantum: usize) -> Region {
    Region { len: quantum, backing: Backing::Anonymous, locked: true, resident: true, fill: 0u8 }
}

/// The region that a successful `add(Unlocked)` appends when the unlocked
/// heap already holds `count` regions: a quantum-sized anonymous mapping,
/// probe-filled with `count + 1` truncated to a byte, which makes each
/// successive unlocked region's contents distinguishable and non-zero.
pub open spec fn unlocked_region(quantum: usize, count: nat) -> Region {
    Region {
        len: quantum,
        backing: Backing::Anonymous,
        locked: false,
        resident: true,
        fill: (((count + 1) % 256) as u8),
    }
}

/// A heap after a successful `add`: the new region is appended at the top.
pub open spec fn spec_add_locked(locked: Seq<Region>, quantum: usize) -> Seq<Region> {
    locked.push(locked_region(quantum))
}

/// See `spec_add_locked`; the unlocked heap's new region carries the probe
/// byte derived from the heap's size before the add.
pub open spec fn spec_add_unlocked(unlocked: Seq<Region>, quantum: usize) -> Seq<Region> {
    unlocked.push(unlocked_region(quantum, unlocked.len()))
}

/// A heap after `remove`: the most recently added region is dropped;
/// removing from an empty heap changes nothing.
pub open spec fn spec_remove(heap: Seq<Region>) -> Seq<Region> {
    if heap.len() > 0 {
        heap.drop_last()
    } else {
        heap
    }
}

/// A heap after paging every region in: each region becomes resident,
/// nothing else about it changes.
pub open spec fn spec_page_in_all(heap: Seq<Region>) -> Seq<Region> {
    heap.map_values(|r: Region| Region { resident: true, ..r })
}

/// The session: two independent stacks of regions plus the fixed quantum.
pub struct Mlock {
    pub locked: Vec<Region>,
    pub unlocked: Vec<Region>,
    pub quantum: usize,
}

impl Mlock {
    /// Both heaps hold only quantum-sized anonymous regions, locked ones in
    /// the locked heap, unlocked ones in the unlocked heap. The two heaps
    /// never share a region: each `Region` value is owned by exactly one
    /// position of one of the two vectors.
    pub open spec fn wf(&self) -> bool {
        &&& self.quantum > 0
        &&& forall|i: int|
            0 <= i < self.locked@.len() ==> {
                &&& (#[trigger] self.locked@[i]).len == self.quantum
                &&& self.locked@[i].backing == Backing::Anonymous
                &&& self.locked@[i].locked == true
            }
        &&& forall|i: int|
            0 <= i < self.unlocked@.len() ==> {
                &&& (#[trigger] self.unlocked@[i]).len == self.quantum
                &&& self.unlocked@[i].backing == Backing::Anonymous
                &&& self.unlocked@[i].locked == false
            }
    }

    /// A fresh session with empty heaps and the reference quantum.
    pub fn new() -> (r: Mlock)
        ensures
            r.wf(),
            r.locked@.len() == 0,
            r.unlocked@.len() == 0,
            r.quantum == CHUNK_SIZE_BYTES,
    {
        Mlock { locked: Vec::new(), unlocked: Vec::new(), quantum: CHUNK_SIZE_BYTES }
    }

    /// One interactive "add" action. The caller has requested one fresh
    /// quantum-sized anonymous mapping and, for the locked heap, asked the
    /// kernel to pin it; `map_ok` and `lock_ok` report those two outcomes.
    /// On success the new region is appended to the requested heap; on any
    /// failure the session is exactly as it was, with the error naming the
    /// step that failed (no partial state is retained).
    pub fn add(&mut self, heap: MlockHeap, map_ok: bool, lock_ok: bool) -> (r: Result<(), MemError>)
        requires
            old(self).wf(),
        ensures
            final(self).wf(),
            final(self).quantum == old(self).quantum,
            !map_ok ==> r == Err::<(), MemError>(MemError::MapFailed)
                && final(self).locked@ == old(self).locked@
                && final(self).unlocked@ == old(self).unlocked@,
            map_ok && heap == MlockHeap::Locked && !lock_ok ==> r == Err::<(), MemError>(
                MemError::LockFailed,
            ) && final(self).locked@ == old(self).locked@
                && final(self).unlocked@ == old(self).unlocked@,
            map_ok && heap == MlockHeap::Locked && lock_ok ==> r == Ok::<(), MemError>(())
                && final(self).locked@ == spec_add_locked(old(self).locked@, old(self).quantum)
                && final(self).unlocked@ == old(self).unlocked@,
            map_ok && heap == MlockHeap::Unlocked ==> r == Ok::<(), MemError>(())
                && final(self).unlocked@ == spec_add_unlocked(
                old(self).unlocked@,
                old(self).quantum,
            ) && final(self).locked@ == old(self).locked@,
    {
        if !map_ok {
            return Err(MemError::MapFailed);
        }
        let mut region = Region::anonymous(self.quantum);
        match heap {
            MlockHeap::Locked => {
                if !lock_ok {
                    // The kernel refused the pin: the whole add fails and
                    // the fresh mapping is released, not retained unlocked.
                    return Err(MemError::LockFailed);
                }
                region.lock();
                self.locked.push(region);
            },
            MlockHeap::Unlocked => {
                let count = self.unlocked.len() % 256;
                region.fill(((count + 1) % 256) as u8);
                self.unlocked.push(region);
                proof {
                    assert((((old(self).unlocked@.len() % 256) + 1) % 256) as u8 == (((
                    old(self).unlocked@.len() + 1) % 256) as u8));
                }
            },
        }
        Ok(())
    }

    /// One interactive "remove" action: release the most recently added
    /// region of the given heap, last-in-first-out. Reports whether a
    /// region existed to remove.
    pub fn remove(&mut self, heap: MlockHeap) -> (r: bool)
        requires
            old(self).wf(),
        ensures
            final(self).wf(),
            final(self).quantum == old(self).quantum,
            heap == MlockHeap::Locked ==> {
                &&& r == (old(self).locked@.len() > 0)
                &&& final(self).locked@ == spec_remove(old(self).locked@)
                &&& final(self).unlocked@ == old(self).unlocked@
            },
            heap == MlockHeap::Unlocked ==> {
                &&& r == (old(self).unlocked@.len() > 0)
                &&& final(self).unlocked@ == spec_remove(old(self).unlocked@)
                &&& final(self).locked@ == old(self).locked@
            },
    {
        let popped = match heap {
            MlockHeap::Locked => self.locked.pop(),
            MlockHeap::Unlocked => self.unlocked.pop(),
        };
        proof {
            if old(self).locked@.len() > 0 {
                assert(old(self).locked@.subrange(0, old(self).locked@.len() - 1)
                    =~= old(self).locked@.drop_last());
            }
            if old(self).unlocked@.len() > 0 {
                assert(old(self).unlocked@.subrange(0, old(self).unlocked@.len() - 1)
                    =~= old(self).unlocked@.drop_last());
            }
        }
        popped.is_some()
    }

    /// Force every region of the unlocked heap resident, in insertion
    /// order. Each region is paged in on a best-effort basis; whatever the
    /// outcome of the underlying faults, after return the model records
    /// every unlocked page as having been touched.
    pub fn page_in(&mut self)
        requires
            old(self).wf(),
        ensures
            final(self).wf(),
            final(self).quantum == old(self).quantum,
            final(self).locked@ == old(self).locked@,
            final(self).unlocked@ == spec_page_in_all(old(self).unlocked@),
    {
        let n = self.unlocked.len();
        let mut i: usize = 0;
        while i < n
            invariant
                old(self).wf(),
                n == self.unlocked@.len(),
                self.unlocked@.len() == old(self).unlocked@.len(),
                0 <= i <= n,
                self.locked@ == old(self).locked@,
                self.quantum == old(self).quantum,
                forall|j: int|
                    0 <= j < i ==> self.unlocked@[j] == (Region {
                        resident: true,
                        ..old(self).unlocked@[j]
                    }),
                forall|j: int| i <= j < n ==> self.unlocked@[j] == old(self).unlocked@[j],
            decreases n - i,
        {
            let mut region = self.unlocked[i];
            region.page_in();
            self.unlocked[i] = region;
            i = i + 1;
        }
        proof {
            assert(self.unlocked@ =~= spec_page_in_all(old(self).unlocked@));
        }
    }

    /// The number of bytes a heap holds: its region count times the
    /// quantum, always a whole multiple of the quantum.
    pub fn total_size(&self, heap: MlockHeap) -> (r: usize)
        requires
            heap == MlockHeap::Locked ==> self.locked@.len() * self.quantum <= usize::MAX,
            heap == MlockHeap::Unlocked ==> self.unlocked@.len() * self.quantum <= usize::MAX,
        ensures
            heap == MlockHeap::Locked ==> r == self.locked@.len() * self.quantum,
            heap == MlockHeap::Unlocked ==> r == self.unlocked@.len() * self.quantum,
    {
        match heap {
            MlockHeap::Locked => self.locked.len() * self.quantum,
            MlockHeap::Unlocked => self.unlocked.len() * self.quantum,
        }
    }

    /// The locked heap's size in megabytes, saturating at the machine
    /// limit; this is what the rendered status line shows.
    pub fn locked_mb(&self) -> (r: usize)
        ensures
            r == spec_heap_mb(self.locked@.len()),
    {
        mb_of_count(self.locked.len())
    }

    /// The unlocked heap's size in megabytes, saturating at the machine
    /// limit.
    pub fn unlocked_mb(&self) -> (r: usize)
        ensures
            r == spec_heap_mb(self.unlocked@.len()),
    {
        mb_of_count(self.unlocked.len())
    }

    /// The rendered session status line: the fixed layout over the two
    /// heap sizes in megabytes.
    pub fn render(&self) -> (r: String)
        ensures
            r@ == mlock_line_of(
                spec_heap_mb(self.locked@.len()),
                spec_heap_mb(self.unlocked@.len()),
            ),
    {
        fmt_mlock_line(self.locked_mb(), self.unlocked_mb())
    }
}

/// The text of the session status line for the two heap sizes: a function
/// of the two figures alone.
pub uninterp spec fn mlock_line_of(locked_mb: usize, unlocked_mb: usize) -> Seq<char>;

/// Relies on std's format macro: lays the two heap sizes out as the fixed
/// status line, whose text `mlock_line_of` names.
#[verifier::external_body]
fn fmt_mlock_line(locked_mb: usize, unlocked_mb: usize) -> (r: String)
    ensures
        r@ == mlock_line_of(locked_mb, unlocked_mb),
{
    format!("locked {:5} MB, unlocked {:5} MB", locked_mb, unlocked_mb)
}

/// A heap of `count` quantum-sized regions measured in megabytes, saturated
/// to the machine word.
pub open spec fn spec_heap_mb(count: nat) -> usize {
    if count * CHUNK_SIZE_MB <= usize::MAX {
        (count * CHUNK_SIZE_MB) as usize
    } else {
        usize::MAX
    }
}

fn mb_of_count(count: usize) -> (r: usize)
    ensures
        r == spec_heap_mb(count as nat),
{
    if count <= usize::MAX / CHUNK_SIZE_MB {
        proof {
            assert(count * CHUNK_SIZE_MB <= usize::MAX) by (nonlinear_arith)
                requires
                    count <= usize::MAX / CHUNK_SIZE_MB,
                    CHUNK_SIZE_MB == 256,
            ;
        }
        count * CHUNK_SIZE_MB
    } else {
        proof {
            assert(count * CHUNK_SIZE_MB > usize::MAX) by (nonlinear_arith)
                requires
                    count > usize::MAX / CHUNK_SIZE_MB,
                    CHUNK_SIZE_MB == 256,
            ;
        }
        usize::MAX
    }
}

/// One step of a locked-heap add/remove history.
#[derive(Clone, Copy, PartialEq, Eq, Structural, Debug)]
pub enum HeapOp {
    Add,
    Remove,
}

/// The heap's region count after one action: an add grows it by one, a
/// remove shrinks it by one and does nothing on an empty heap.
pub open spec fn op_step(n: nat, op: HeapOp) -> nat {
    match op {
        HeapOp::Add => n + 1,
        HeapOp::Remove => if n > 0 {
            (n - 1) as nat
        } else {
            0
        },
    }
}

/// The heap's region count after a whole sequence of actions.
pub open spec fn apply_ops(ops: Seq<HeapOp>, n: nat) -> nat
    decreases ops.len(),
{
    if ops.len() == 0 {
        n
    } else {
        apply_ops(ops.drop_first(), op_step(n, ops.first()))
    }
}

/// How many of the actions are adds.
pub open spec fn count_adds(ops: Seq<HeapOp>) -> nat
    decreases ops.len(),
{
    if ops.len() == 0 {
        0
    } else {
        (if ops.first() == HeapOp::Add {
            1nat
        } else {
            0nat
        }) + count_adds(ops.drop_first())
    }
}

/// How many of the actions are removes.
pub open spec fn count_removes(ops: Seq<HeapOp>) -> nat
    decreases ops.len(),
{
    if ops.len() == 0 {
        0
    } else {
        (if ops.first() == HeapOp::Remove {
            1nat
        } else {
            0nat
        }) + count_removes(ops.drop_first())
    }
}

/// Law: for any sequence of add/remove actions on one heap in which no
/// remove ever meets an empty heap (every prefix has at least as many adds
/// as removes), the heap's final region count is exactly the net number of
/// adds — and the heap's byte size is therefore that multiple of the
/// quantum, as `total_size` states. `add` and `remove` make the heap step
/// exactly as `op_step` describes, so this pins the count after any such
/// interactive history. (When a remove does meet an empty heap it is
/// dropped, so the count can exceed adds-minus-removes: after
/// add, remove, remove, add the count is 1, not 0.)
pub proof fn lemma_heap_count_net(ops: Seq<HeapOp>)
    requires
        forall|i: int|
            0 <= i <= ops.len() ==> count_removes(#[trigger] ops.take(i)) <= count_adds(
                ops.take(i),
            ),
    ensures
        apply_ops(ops, 0) == count_adds(ops) - count_removes(ops),
{
    lemma_heap_count_net_from(ops, 0);
}

/// The induction behind `lemma_heap_count_net`, generalized over the
/// starting count.
proof fn lemma_heap_count_net_from(ops: Seq<HeapOp>, n: nat)
    requires
        forall|i: int|
            0 <= i <= ops.len() ==> count_removes(#[trigger] ops.take(i)) <= n + count_adds(
                ops.take(i),
            ),
    ensures
        apply_ops(ops, n) == n + count_adds(ops) - count_removes(ops),
    decreases ops.len(),
{
    if ops.len() == 0 {
    } else {
        let head = ops.first();
        let tail = ops.drop_first();
        let n2 = op_step(n, head);
        assert forall|i: int| 0 <= i <= tail.len() implies count_removes(#[trigger] tail.take(i))
            <= n2 + count_adds(tail.take(i)) by {
            let pre = ops.take(i + 1);
            assert(pre.first() == head && pre.drop_first() =~= tail.take(i));
            assert(count_removes(pre) <= n + count_adds(pre));
            if head == HeapOp::Remove {
                // The prefix `ops.take(1)` shows n >= 1, so the remove
                // really shrinks the count.
                assert(ops.take(1).first() == head && ops.take(1).drop_first() =~= Seq::empty());
                assert(count_removes(ops.take(1)) <= n + count_adds(ops.take(1)));
            }
        }
        lemma_heap_count_net_from(tail, n2);
        assert(apply_ops(ops, n) == apply_ops(tail, n2));
        assert(count_adds(ops) == (if head == HeapOp::Add {
            1nat
        } else {
            0nat
        }) + count_adds(tail));
        assert(count_removes(ops) == (if head == HeapOp::Remove {
            1nat
        } else {
            0nat
        }) + count_removes(tail));
        if head == HeapOp::Remove {
            let one = ops.take(1);
            assert(one.first() == head && one.drop_first() =~= Seq::empty());
            assert(count_adds(one.drop_first()) == 0 && count_removes(one.drop_first()) == 0);
            assert(count_removes(one) <= n + count_adds(one));
            assert(n >= 1);
        }
    }
}

/// Law: an `add(Unlocked)` followed immediately by a `remove(Unlocked)`
/// leaves the unlocked heap exactly as it was — same size, same regions in
/// the same order. This is the round trip of `Mlock::add` and
/// `Mlock::remove` on the unlocked heap, stated over the transitions their
/// contracts use.
pub proof fn lemma_add_remove_roundtrip(unlocked: Seq<Region>, quantum: usize)
    ensures
        spec_remove(spec_add_unlocked(unlocked, quantum)) == unlocked,
{
    assert(spec_remove(spec_add_unlocked(unlocked, quantum)) =~= unlocked);
}

/// Law: paging the unlocked heap in is idempotent — a second `page_in`
/// right after a first one produces no further state change, because every
/// region is already resident.
pub proof fn lemma_page_in_idempotent(heap: Seq<Region>)
    ensures
        spec_page_in_all(spec_page_in_all(heap)) == spec_page_in_all(heap),
{
    assert(spec_page_in_all(spec_page_in_all(heap)) =~= spec_page_in_all(heap));
}

} // verus!
