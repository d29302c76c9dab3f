//! Model of one mapped range of virtual address space: its length, backing
//! kind, lock state and residency, together with the page-granular write
//! patterns (probe fill, chunked page-in) that operate on a region's bytes.
//!
//! The model carries no address: the caller that owns the actual mapping
//! performs the kernel calls and drives this model in step, so that the
//! bookkeeping and the page arithmetic are verified while the raw mapping
//! stays at the unverified edge.

use vstd::prelude::*;

verus! {

/// What backs a mapped region: fresh zero-initialized anonymous memory, or a
/// read-only view of a file.
#[derive(Clone, Copy, PartialEq, Eq, Structural, Debug)]
pub enum Backing {
    Anonymous,
    FileBacked,
}

/// Model of one contiguous mapped region. The length is fixed at creation;
/// `locked` tracks whether its pages are pinned in physical memory;
/// `resident` tracks whether every page has been faulted in; `fill` is the
/// probe byte last written to the start of each page (0 for a region still
/// holding its zero-initialized contents).
#[derive(Clone, Copy, PartialEq, Eq, Structural, Debug)]
pub struct Region {
    pub len: usize,
    pub backing: Backing,
    pub locked: bool,
    pub resident: bool,
    pub fill: u8,
}

impl Region {
    /// A fresh anonymous mapping: zero-initialized, unlocked, nothing
    /// faulted in yet.
    pub fn anonymous(len: usize) -> (r: Region)
        ensures
            r == (Region {
                len,
                backing: Backing::Anonymous,
                locked: false,
                resident: false,
                fill: 0u8,
            }),
    {
        Region { len, backing: Backing::Anonymous, locked: false, resident: false, fill: 0u8 }
    }

    /// A read-only mapping of a whole file of `len` bytes.
    pub fn file_backed(len: usize) -> (r: Region)
        ensures
            r == (Region {
                len,
                backing: Backing::FileBacked,
                locked: false,
                resident: false,
                fill: 0u8,
            }),
    {
        Region { len, backing: Backing::FileBacked, locked: false, resident: false, fill: 0u8 }
    }

    /// Pinning the region's pages; the pin itself faults every page in.
    /// The caller performs the kernel request and records a success here.
    pub fn lock(&mut self)
        ensures
            *final(self) == (Region { locked: true, resident: true, ..*old(self) }),
    {
        self.locked = true;
        self.resident = true;
    }

    /// Releasing the pin; residency is unaffected (pages stay resident until
    /// the kernel reclaims them, which this model does not track).
    pub fn unlock(&mut self)
        ensures
            *final(self) == (Region { locked: false, ..*old(self) }),
    {
        self.locked = false;
    }

    /// Forcing every page resident, whether by a lock/unlock pair or by
    /// copying each page through a buffer: both strategies leave every page
    /// faulted in and the lock state as it was.
    pub fn page_in(&mut self)
        ensures
            *final(self) == (Region { resident: true, ..*old(self) }),
    {
        self.resident = true;
    }

    /// Writing the probe byte to the first byte of every page marks each
    /// page dirty and resident.
    pub fn fill(&mut self, val: u8)
        ensures
            *final(self) == (Region { resident: true, fill: val, ..*old(self) }),
    {
        self.fill = val;
        self.resident = true;
    }
}

/// The number of pages needed to cover `len` bytes with pages of
/// `page_size` bytes: `len / page_size`, rounded up.
pub open spec fn page_count(len: int, page_size: int) -> int {
    (len + page_size - 1) / page_size
}

/// The host page size reported by the kernel, with the conventional fallback
/// when the report is absent or nonsensical.
pub fn effective_page_size(reported: i64) -> (r: usize)
    ensures
        reported > 0 ==> r == reported as usize,
        reported <= 0 ==> r == 4096,
{
    if reported > 0 {
        reported as usize
    } else {
        4096
    }
}

/// The distinct byte offsets that a probe write touches: the start of every
/// page of a `len`-byte region. There are exactly `ceil(len / page_size)`
/// of them, in increasing order, and every page-aligned offset below `len`
/// is among them.
pub fn page_offsets(len: usize, page_size: usize) -> (r: Vec<usize>)
    requires
        page_size > 0,
    ensures
        r@.len() == page_count(len as int, page_size as int),
        forall|k: int| 0 <= k < r@.len() ==> r@[k] == k * page_size,
        forall|k: int| 0 <= k < r@.len() ==> r@[k] < len,
        forall|j: int|
            0 <= j < len && #[trigger] (j % (page_size as int)) == 0 ==> r@.contains(j as usize),
{
    let mut r: Vec<usize> = Vec::new();
    let ghost p = page_size as int;
    if len == 0 {
        proof {
            assert(page_count(0, p) == 0) by (nonlinear_arith)
                requires
                    p > 0,
            ;
        }
        return r;
    }
    let mut off: usize = 0;
    proof {
        assert(0int * p == 0) by (nonlinear_arith);
    }
    while off < len
        invariant
            page_size > 0,
            p == page_size as int,
            0 < len,
            off == r@.len() * p || (off == len && r@.len() == page_count(len as int, p)),
            off <= len,
            forall|k: int| 0 <= k < r@.len() ==> r@[k] == k * p,
            forall|k: int| 0 <= k < r@.len() ==> r@[k] < len,
        decreases len - off,
    {
        let ghost c = r@.len() as int;
        assert(off == c * p);
        r.push(off);
        if page_size < len - off {
            proof {
                assert((c + 1) * p == c * p + p) by (nonlinear_arith);
            }
            off = off + page_size;
        } else {
            // The last page: it ends at or past `len`, so the count so far
            // is exactly the rounded-up page count.
            proof {
                assert(c * p < len && len <= (c + 1) * p ==> c + 1 == page_count(len as int, p))
                    by (nonlinear_arith)
                    requires
                        p > 0,
                ;
                assert((c + 1) * p == c * p + p) by (nonlinear_arith);
            }
            off = len;
        }
    }
    proof {
        let c = r@.len() as int;
        if off == c * p {
            assert(c > 0) by (nonlinear_arith)
                requires
                    p > 0,
                    off == c * p,
                    off >= len,
                    len > 0,
                    c >= 0,
            ;
            assert(r@[c - 1] == (c - 1) * p && r@[c - 1] < len);
            assert(c == page_count(len as int, p)) by (nonlinear_arith)
                requires
                    p > 0,
                    (c - 1) * p < len,
                    len <= c * p,
            ;
        }
        assert forall|j: int|
            0 <= j < len && #[trigger] (j % p) == 0 implies r@.contains(j as usize) by {
            let k = j / p;
            assert(k * p == j && 0 <= k && k < c) by (nonlinear_arith)
                requires
                    p > 0,
                    0 <= j < len,
                    j % p == 0,
                    k == j / p,
                    c == page_count(len as int, p),
            ;
            assert(r@[k] == k * p);
            assert(r@[k] == j as usize);
        }
    }
    r
}

/// The probe-fill pattern of `Region::fill`, spelled out on a byte view:
/// write `val` to the first byte of every page and nothing else. Exactly the
/// page-aligned offsets change; every other byte keeps its prior value.
pub fn fill_bytes(bytes: &mut Vec<u8>, val: u8, page_size: usize)
    requires
        page_size > 0,
    ensures
        final(bytes)@.len() == old(bytes)@.len(),
        forall|j: int|
            0 <= j < old(bytes)@.len() ==> final(bytes)@[j] == (if j % (page_size as int) == 0 {
                val
            } else {
                old(bytes)@[j]
            }),
{
    let len = bytes.len();
    let mut off: usize = 0;
    let ghost p = page_size as int;
    proof {
        assert(0int % p == 0) by (nonlinear_arith)
            requires
                p > 0,
        ;
    }
    while off < len
        invariant
            page_size > 0,
            p == page_size as int,
            (off as int) % p == 0 || off >= len,
            off <= len,
            len == bytes@.len(),
            bytes@.len() == old(bytes)@.len(),
            forall|j: int|
                0 <= j < len ==> bytes@[j] == (if j % p == 0 && j < off {
                    val
                } else {
                    old(bytes)@[j]
                }),
        decreases len - off,
    {
        bytes[off] = val;
        let prev = off;
        if page_size < len - off {
            proof {
                assert(((prev + p) as int) % p == 0) by (nonlinear_arith)
                    requires
                        p > 0,
                        (prev as int) % p == 0,
                ;
            }
            off = off + page_size;
        } else {
            off = len;
        }
        proof {
            let pv = prev as int;
            assert forall|j: int| pv < j < off && #[trigger] (j % p) == 0 implies false by {
                assert(!(pv < j && j < pv + p && j % p == 0 && pv % p == 0)) by (nonlinear_arith)
                    requires
                        p > 0,
                ;
                assert(off <= pv + p);
            }
        }
    }
}

/// The lengths of the successive copies that page in a `len`-byte region
/// through a bounce buffer of `buf_size` bytes: every chunk is as large as
/// the buffer except a final shorter remainder, and together they cover the
/// region exactly.
pub fn copy_chunks(len: usize, buf_size: usize) -> (r: Vec<usize>)
    requires
        buf_size > 0,
    ensures
        r@.len() == page_count(len as int, buf_size as int),
        forall|k: int|
            0 <= k < r@.len() ==> r@[k] == (if len - k * buf_size >= buf_size {
                buf_size as int
            } else {
                len - k * buf_size
            }),
{
    let mut r: Vec<usize> = Vec::new();
    let ghost b = buf_size as int;
    if len == 0 {
        proof {
            assert(page_count(0, b) == 0) by (nonlinear_arith)
                requires
                    b > 0,
            ;
        }
        return r;
    }
    let mut off: usize = 0;
    proof {
        assert(0int * b == 0) by (nonlinear_arith);
    }
    while off < len
        invariant
            buf_size > 0,
            b == buf_size as int,
            0 < len,
            off == r@.len() * b || (off == len && r@.len() == page_count(len as int, b)),
            off <= len,
            forall|k: int|
                0 <= k < r@.len() ==> r@[k] == (if len - k * b >= b {
                    b
                } else {
                    len - k * b
                }),
            forall|k: int| 0 <= k < r@.len() ==> r@[k] >= 1,
        decreases len - off,
    {
        let ghost c = r@.len() as int;
        assert(off == c * b);
        if buf_size < len - off {
            r.push(buf_size);
            proof {
                assert((c + 1) * b == c * b + b) by (nonlinear_arith);
            }
            off = off + buf_size;
        } else {
            r.push(len - off);
            proof {
                assert(c * b < len && len <= (c + 1) * b ==> c + 1 == page_count(len as int, b))
                    by (nonlinear_arith)
                    requires
                        b > 0,
                ;
                assert((c + 1) * b == c * b + b) by (nonlinear_arith);
            }
            off = len;
        }
    }
    proof {
        let c = r@.len() as int;
        if off == c * b {
            assert(c > 0) by (nonlinear_arith)
                requires
                    b > 0,
                    off == c * b,
                    off >= len,
                    len > 0,
                    c >= 0,
            ;
            assert(r@[c - 1] == (if len - (c - 1) * b >= b {
                b
            } else {
                len - (c - 1) * b
            }));
            assert(r@[c - 1] >= 1);
            assert(c == page_count(len as int, b)) by (nonlinear_arith)
                requires
                    b > 0,
                    len <= c * b,
                    r@[c - 1] == (if len - (c - 1) * b >= b {
                        b
                    } else {
                        len - (c - 1) * b
                    }),
                    r@[c - 1] >= 1,
            ;
        }
    }
    r
}

} // verus!
