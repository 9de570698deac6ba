//! The extent-map query: request/response record, its construction, and the
//! interpretation of a populated response, including pagination over the
//! bounded extent buffer.

use vstd::prelude::*;
use vstd::array::array_fill_for_copy_types;

verus! {

/// Capacity of the fixed extent buffer carried by one request record.
pub const FIEMAP_PAGE_SIZE: usize = 256;

/// Flag the kernel sets on the last extent of a file's map.
pub const FIEMAP_EXTENT_LAST: u32 = 1;

/// One contiguous allocated region of the file, as the kernel reports it:
/// logical and physical byte offsets, a byte length, and a flags bitmask.
/// The reserved words exist only to mirror the kernel record and must stay
/// zero.
#[derive(Clone, Copy, Debug)]
pub struct FiemapExtent {
    /// Logical offset in bytes for the start of the extent.
    pub fe_logical: u64,
    /// Physical offset in bytes for the start of the extent.
    pub fe_physical: u64,
    /// Length in bytes for the extent.
    pub fe_length: u64,
    pub fe_reserved64: [u64; 2],
    /// Per-extent flags bitmask.
    pub fe_flags: u32,
    pub fe_reserved: [u32; 3],
}

/// Every field of the extent, reserved words included, is zero.
pub open spec fn extent_zeroed(e: FiemapExtent) -> bool {
    &&& e.fe_logical == 0
    &&& e.fe_physical == 0
    &&& e.fe_length == 0
    &&& forall|i: int| 0 <= i < 2 ==> e.fe_reserved64@[i] == 0
    &&& e.fe_flags == 0
    &&& forall|i: int| 0 <= i < 3 ==> e.fe_reserved@[i] == 0
}

impl FiemapExtent {
    /// A fully zeroed extent entry, fit to populate a fresh request buffer:
    /// the kernel interface demands that reserved words start out zero.
    pub fn new() -> (e: FiemapExtent)
        ensures
            extent_zeroed(e),
    {
        FiemapExtent {
            fe_logical: 0,
            fe_physical: 0,
            fe_length: 0,
            fe_reserved64: array_fill_for_copy_types(0u64),
            fe_flags: 0,
            fe_reserved: array_fill_for_copy_types(0u32),
        }
    }
}

/// The logical end of an extent: one past the last byte it covers.
pub open spec fn extent_end(e: FiemapExtent) -> int {
    e.fe_logical + e.fe_length
}

/// The invariant of a populated response: every extent is a nonempty region
/// whose end still fits an unsigned 64-bit offset, and the extents come in
/// ascending logical order without overlapping.
pub open spec fn extents_ordered(s: Seq<FiemapExtent>) -> bool {
    &&& forall|i: int|
        0 <= i < s.len() ==> 0 < (#[trigger] s[i]).fe_length && extent_end(s[i]) <= u64::MAX
    &&& forall|i: int, j: int|
        0 <= i < j < s.len() ==> extent_end(#[trigger] s[i]) <= (#[trigger] s[j]).fe_logical
}

/// The in/out record of one extent-map query. The `fm_` fields up to
/// `fm_reserved` mirror the kernel's fixed header: requested logical start
/// and length, request flags, the output count of mapped extents, the
/// capacity of the extent buffer, and a reserved word that must stay zero.
/// The buffer itself always holds `FIEMAP_PAGE_SIZE` entries, of which only
/// the first `fm_mapped_extents` are meaningful after a successful query.
#[derive(Clone, Debug)]
pub struct FiemapReq {
    /// Logical offset (inclusive) at which to start mapping (in).
    pub fm_start: u64,
    /// Logical length of the mapping the caller cares about (in);
    /// `u64::MAX` is the sentinel for "to the current end of file".
    pub fm_length: u64,
    /// Per-request flags bitmask (in/out).
    pub fm_flags: u32,
    /// Number of extents that were mapped (out).
    pub fm_mapped_extents: u32,
    /// Capacity of the `fm_extents` buffer (in).
    pub fm_extent_count: u32,
    pub fm_reserved: u32,
    /// The bounded extent buffer (out); the first `fm_mapped_extents`
    /// entries are the response.
    pub fm_extents: Vec<FiemapExtent>,
}

impl FiemapReq {
    /// The record's structural invariant: the buffer really has the fixed
    /// capacity the header advertises, the mapped count never exceeds it,
    /// and the reserved word is zero.
    pub open spec fn wf(self) -> bool {
        &&& self.fm_extent_count == FIEMAP_PAGE_SIZE as u32
        &&& self.fm_extents@.len() == FIEMAP_PAGE_SIZE as int
        &&& self.fm_mapped_extents <= self.fm_extent_count
        &&& self.fm_reserved == 0
    }

    /// The meaningful prefix of the buffer: the extents the kernel mapped.
    pub open spec fn mapped_seq(self) -> Seq<FiemapExtent> {
        self.fm_extents@.take(self.fm_mapped_extents as int)
    }

    /// A fresh request covering the given sub-range of the file, with the
    /// fixed buffer capacity and every output, reserved and buffer word
    /// zeroed, as the kernel interface mandates.
    pub fn with_range(start: u64, length: u64) -> (req: FiemapReq)
        ensures
            req.wf(),
            req.fm_start == start,
            req.fm_length == length,
            req.fm_flags == 0,
            req.fm_mapped_extents == 0,
            forall|i: int| 0 <= i < req.fm_extents@.len() ==> extent_zeroed(#[trigger] req.fm_extents@[i]),
    {
        let mut buf: Vec<FiemapExtent> = Vec::new();
        let mut i: usize = 0;
        while i < FIEMAP_PAGE_SIZE
            invariant
                i <= FIEMAP_PAGE_SIZE,
                buf@.len() == i as int,
                forall|k: int| 0 <= k < i as int ==> extent_zeroed(#[trigger] buf@[k]),
            decreases FIEMAP_PAGE_SIZE - i,
        {
            buf.push(FiemapExtent::new());
            i = i + 1;
        }
        FiemapReq {
            fm_start: start,
            fm_length: length,
            fm_flags: 0,
            fm_mapped_extents: 0,
            fm_extent_count: FIEMAP_PAGE_SIZE as u32,
            fm_reserved: 0,
            fm_extents: buf,
        }
    }

    /// Whether this response is the final page of the file's extent map: the
    /// kernel returned fewer entries than the buffer holds, or the last
    /// returned extent carries the "last extent" flag. A full buffer without
    /// that flag means more extents may remain and the caller must re-query.
    pub open spec fn page_complete(self) -> bool {
        ||| self.fm_mapped_extents < self.fm_extent_count
        ||| (self.fm_mapped_extents > 0 && self.mapped_seq().last().fe_flags & FIEMAP_EXTENT_LAST
            != 0)
    }

    /// Where the follow-up query of a possibly truncated response must start:
    /// one past the last byte of the last returned extent. Returns `None`
    /// when this response is already the final page.
    pub fn next_query_start(&self) -> (r: Option<u64>)
        requires
            self.wf(),
            extents_ordered(self.mapped_seq()),
        ensures
            r is Some <==> !self.page_complete(),
            r matches Some(s) ==> s == extent_end(self.mapped_seq().last()),
    {
        let n = self.fm_mapped_extents;
        if n < self.fm_extent_count {
            return None;
        }
        let idx = (n as usize) - 1;
        let last = self.fm_extents[idx];
        proof {
            assert(self.mapped_seq() =~= self.fm_extents@);
            assert(last == self.mapped_seq()[idx as int]);
            assert(last == self.mapped_seq().last());
        }
        if last.fe_flags & FIEMAP_EXTENT_LAST != 0 {
            None
        } else {
            Some(last.fe_logical + last.fe_length)
        }
    }

    /// A fresh whole-file request: start 0, length "to end of file".
    pub fn new() -> (req: FiemapReq)
        ensures
            req.wf(),
            req.fm_start == 0,
            req.fm_length == u64::MAX,
            req.fm_flags == 0,
            req.fm_mapped_extents == 0,
            forall|i: int| 0 <= i < req.fm_extents@.len() ==> extent_zeroed(#[trigger] req.fm_extents@[i]),
    {
        FiemapReq::with_range(0, u64::MAX)
    }
}

/// Append the mapped extents of one response page to an accumulator, in
/// order, leaving everything already gathered in place.
pub fn append_page(acc: &mut Vec<FiemapExtent>, resp: &FiemapReq)
    requires
        resp.wf(),
    ensures
        final(acc)@ == old(acc)@ + resp.mapped_seq(),
{
    let n = resp.fm_mapped_extents as usize;
    let mut i: usize = 0;
    while i < n
        invariant
            i <= n,
            n == resp.fm_mapped_extents as usize,
            resp.wf(),
            acc@ == old(acc)@ + resp.fm_extents@.take(i as int),
        decreases n - i,
    {
        acc.push(resp.fm_extents[i]);
        proof {
            assert(resp.fm_extents@.take(i + 1) =~= resp.fm_extents@.take(i as int).push(
                resp.fm_extents@[i as int],
            ));
            assert(acc@ =~= old(acc)@ + resp.fm_extents@.take(i + 1));
        }
        i = i + 1;
    }
    proof {
        assert(acc@ =~= old(acc)@ + resp.mapped_seq());
    }
}

/// Continuity across pages of a truncated extent map: when a follow-up
/// query starts one past the last extent of the previous page, so that every
/// extent it returns begins at or after that boundary, the two pages
/// together are still in ascending, non-overlapping order, and no extent of
/// the earlier page is returned again — every extent of the later page
/// starts strictly past the start of every extent of the earlier page.
pub proof fn lemma_page_continuity(a: Seq<FiemapExtent>, b: Seq<FiemapExtent>)
    requires
        extents_ordered(a),
        extents_ordered(b),
        a.len() > 0,
        forall|j: int| 0 <= j < b.len() ==> extent_end(a.last()) <= (#[trigger] b[j]).fe_logical,
    ensures
        extents_ordered(a + b),
        forall|i: int, j: int|
            0 <= i < a.len() && 0 <= j < b.len() ==> (#[trigger] a[i]).fe_logical < (
            #[trigger] b[j]).fe_logical,
{
    let c = a + b;
    let la = a.len() - 1;
    assert forall|i: int| 0 <= i < a.len() implies extent_end(#[trigger] a[i]) <= extent_end(
        a.last(),
    ) by {
        if i < la {
            assert(extent_end(a[i]) <= a[la].fe_logical);
            assert(a[la].fe_logical < extent_end(a[la]));
        }
        assert(a.last() == a[la]);
    }
    assert forall|i: int|
        0 <= i < c.len() implies 0 < (#[trigger] c[i]).fe_length && extent_end(c[i])
        <= u64::MAX by {
        if i < a.len() {
            assert(c[i] == a[i]);
        } else {
            assert(c[i] == b[i - a.len()]);
        }
    }
    assert forall|i: int, j: int| 0 <= i < j < c.len() implies extent_end(#[trigger] c[i]) <= (
    #[trigger] c[j]).fe_logical by {
        if j < a.len() {
            assert(c[i] == a[i] && c[j] == a[j]);
        } else if i >= a.len() {
            assert(c[i] == b[i - a.len()] && c[j] == b[j - a.len()]);
        } else {
            assert(c[i] == a[i] && c[j] == b[j - a.len()]);
            assert(extent_end(a[i]) <= extent_end(a.last()));
            assert(extent_end(a.last()) <= b[j - a.len()].fe_logical);
        }
    }
    assert forall|i: int, j: int|
        0 <= i < a.len() && 0 <= j < b.len() implies (#[trigger] a[i]).fe_logical < (
    #[trigger] b[j]).fe_logical by {
        assert(a[i].fe_logical < extent_end(a[i]));
        assert(extent_end(a[i]) <= extent_end(a.last()));
        assert(extent_end(a.last()) <= b[j].fe_logical);
    }
}

} // verus!
