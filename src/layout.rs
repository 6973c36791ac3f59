use vstd::prelude::*;

use crate::error::BootError;

verus! {

/// Size of one physical page handed out by the firmware allocator.
pub const PAGE_SIZE: u64 = 0x1000;

/// A loadable segment of a kernel image.
///
/// The first `file_size` bytes come from the image at `file_offset`; the rest of
/// the `memory_size` bytes from `virtual_address` on read as zero.
#[derive(Clone, Copy, Debug, PartialEq, Eq, Structural)]
pub struct Segment {
    pub virtual_address: u64,
    pub file_offset: u64,
    pub file_size: u64,
    pub memory_size: u64,
}

/// The address range `[base, end)` that the segments of an image occupy.
#[derive(Clone, Copy, Debug, PartialEq, Eq, Structural)]
pub struct LoadRange {
    pub base: u64,
    pub end: u64,
}

/// One past the last byte of a segment in memory.
pub open spec fn segment_end(s: Segment) -> int {
    s.virtual_address + s.memory_size
}

/// The smallest virtual address of the segments (`u64::MAX` when there are none).
pub open spec fn lowest_address(segs: Seq<Segment>) -> int
    decreases segs.len(),
{
    if segs.len() == 0 {
        u64::MAX as int
    } else {
        let rest = lowest_address(segs.drop_last());
        let a = segs.last().virtual_address as int;
        if a < rest {
            a
        } else {
            rest
        }
    }
}

/// The largest segment end (zero when there are none).
pub open spec fn highest_end(segs: Seq<Segment>) -> int
    decreases segs.len(),
{
    if segs.len() == 0 {
        0
    } else {
        let rest = highest_end(segs.drop_last());
        let e = segment_end(segs.last());
        if e > rest {
            e
        } else {
            rest
        }
    }
}

/// No segment ends beyond the 64-bit address space.
pub open spec fn segments_fit(segs: Seq<Segment>) -> bool {
    forall|i: int| 0 <= i < segs.len() ==> segment_end(#[trigger] segs[i]) <= u64::MAX
}

/// The largest page boundary at or below `a`.
pub open spec fn page_floor_spec(a: int) -> int {
    a - a % (PAGE_SIZE as int)
}

/// The number of pages that cover `span` bytes.
pub open spec fn pages_for(span: int) -> int {
    (span + PAGE_SIZE - 1) / (PAGE_SIZE as int)
}

impl LoadRange {
    /// The page-aligned address where the kernel memory starts.
    pub open spec fn span_base(self) -> int {
        page_floor_spec(self.base as int)
    }

    /// The number of pages that cover `[span_base, end)`.
    pub open spec fn page_count(self) -> int {
        pages_for(self.end - self.span_base())
    }

    /// The size in bytes of the page allocation for this range.
    pub open spec fn allocation_size(self) -> int {
        self.page_count() * PAGE_SIZE
    }

    /// The page-aligned address at or below `base` where the allocation starts.
    pub fn page_base(&self) -> (r: u64)
        ensures
            r == self.span_base(),
    {
        self.base - self.base % PAGE_SIZE
    }

    /// The number of pages needed from `page_base()` up to `end`.
    pub fn num_pages(&self) -> (r: u64)
        requires
            self.base <= self.end,
        ensures
            r == self.page_count(),
    {
        let start = self.page_base();
        let span = self.end - start;
        let pages = span / PAGE_SIZE;
        if span % PAGE_SIZE == 0 {
            pages
        } else {
            pages + 1
        }
    }
}

/// Computes the range `[min(virtual_address), max(virtual_address + memory_size))`
/// of the segments. An image without segments, or with a segment that ends
/// beyond the address space, is malformed.
pub fn calculate_load_address_range(segments: &Vec<Segment>) -> (r: Result<LoadRange, BootError>)
    ensures
        r is Err <==> segments@.len() == 0 || !segments_fit(segments@),
        r is Err ==> r == Err::<LoadRange, BootError>(BootError::ParseFailed),
        r matches Ok(range) ==> range.base == lowest_address(segments@) && range.end
            == highest_end(segments@),
{
    if segments.len() == 0 {
        return Err(BootError::ParseFailed);
    }
    let mut start: u64 = u64::MAX;
    let mut end: u64 = 0;
    let mut i: usize = 0;
    while i < segments.len()
        invariant
            0 <= i <= segments@.len(),
            segments_fit(segments@.take(i as int)),
            start == lowest_address(segments@.take(i as int)),
            end == highest_end(segments@.take(i as int)),
        decreases segments@.len() - i,
    {
        let s = segments[i];
        proof {
            assert(segments@.take(i + 1).drop_last() == segments@.take(i as int));
        }
        if s.memory_size > u64::MAX - s.virtual_address {
            proof {
                assert(!segments_fit(segments@)) by {
                    assert(segments@[i as int] == s);
                }
            }
            return Err(BootError::ParseFailed);
        }
        if s.virtual_address < start {
            start = s.virtual_address;
        }
        if s.virtual_address + s.memory_size > end {
            end = s.virtual_address + s.memory_size;
        }
        i = i + 1;
    }
    proof {
        assert(segments@.take(segments@.len() as int) == segments@);
    }
    Ok(LoadRange { base: start, end })
}

/// Every segment starts at or above the lowest address and ends at or below the
/// highest end.
pub proof fn lemma_range_covers_segments(segs: Seq<Segment>)
    ensures
        forall|i: int|
            0 <= i < segs.len() ==> lowest_address(segs) <= (#[trigger] segs[i]).virtual_address
                && segment_end(segs[i]) <= highest_end(segs),
    decreases segs.len(),
{
    if segs.len() > 0 {
        lemma_range_covers_segments(segs.drop_last());
        assert forall|i: int| 0 <= i < segs.len() implies lowest_address(segs) <= (
        #[trigger] segs[i]).virtual_address && segment_end(segs[i]) <= highest_end(segs) by {
            if i < segs.len() - 1 {
                assert(segs.drop_last()[i] == segs[i]);
            }
        }
    }
}

/// For a non-empty list, the lowest address and the highest end are attained by
/// some segment.
pub proof fn lemma_range_attained(segs: Seq<Segment>)
    requires
        segs.len() > 0,
    ensures
        exists|i: int| 0 <= i < segs.len() && lowest_address(segs) == (#[trigger] segs[i]).virtual_address,
        exists|j: int| 0 <= j < segs.len() && highest_end(segs) == segment_end(#[trigger] segs[j]),
    decreases segs.len(),
{
    let n = segs.len() as int;
    if n == 1 {
        assert(segs.drop_last().len() == 0);
        assert(lowest_address(segs.drop_last()) == u64::MAX as int);
        assert(highest_end(segs.drop_last()) == 0);
        assert(lowest_address(segs) == segs[0].virtual_address);
        assert(highest_end(segs) == segment_end(segs[0]));
    } else {
        let rest = segs.drop_last();
        lemma_range_attained(rest);
        let i0 = choose|i: int| 0 <= i < rest.len() && lowest_address(rest) == (#[trigger] rest[i]).virtual_address;
        let j0 = choose|j: int| 0 <= j < rest.len() && highest_end(rest) == segment_end(#[trigger] rest[j]);
        assert(rest[i0] == segs[i0]);
        assert(rest[j0] == segs[j0]);
        if segs.last().virtual_address < lowest_address(rest) {
            assert(lowest_address(segs) == segs[n - 1].virtual_address);
        } else {
            assert(lowest_address(segs) == segs[i0].virtual_address);
        }
        if segment_end(segs.last()) > highest_end(rest) {
            assert(highest_end(segs) == segment_end(segs[n - 1]));
        } else {
            assert(highest_end(segs) == segment_end(segs[j0]));
        }
    }
}

/// The load range of a well-formed segment list starts at the smallest virtual
/// address and ends at the largest `virtual_address + memory_size`: it covers
/// every segment, and both of its bounds belong to some segment.
pub proof fn lemma_load_range_is_min_max(segs: Seq<Segment>, range: LoadRange)
    requires
        segs.len() > 0,
        range.base == lowest_address(segs),
        range.end == highest_end(segs),
    ensures
        forall|i: int|
            0 <= i < segs.len() ==> range.base <= (#[trigger] segs[i]).virtual_address
                && segment_end(segs[i]) <= range.end,
        exists|i: int| 0 <= i < segs.len() && range.base == (#[trigger] segs[i]).virtual_address,
        exists|j: int| 0 <= j < segs.len() && range.end == segment_end(#[trigger] segs[j]),
        range.base <= range.end,
{
    lemma_range_covers_segments(segs);
    lemma_range_attained(segs);
    assert(range.base <= segs[0].virtual_address);
    assert(segment_end(segs[0]) <= range.end);
}

/// The allocation for a range is a whole number of pages, covers the range from
/// its page-aligned base, and is the smallest such number of pages.
pub proof fn lemma_allocation_covers_range(range: LoadRange)
    requires
        range.base <= range.end,
    ensures
        range.span_base() % (PAGE_SIZE as int) == 0,
        range.span_base() <= range.base,
        range.allocation_size() % (PAGE_SIZE as int) == 0,
        range.allocation_size() >= range.end - range.span_base(),
        range.allocation_size() < range.end - range.span_base() + PAGE_SIZE,
        range.page_count() >= 0,
{
    let b = range.base as int;
    let span = range.end - range.span_base();
    let n = range.page_count();
    assert(b % 4096 >= 0 && b % 4096 < 4096);
    assert((b - b % 4096) % 4096 == 0) by (nonlinear_arith)
        requires b >= 0;
    assert(span >= 0);
    assert(n == (span + 4095) / 4096);
    assert(n * 4096 <= span + 4095 && n * 4096 > span + 4095 - 4096 && n >= 0) by (nonlinear_arith)
        requires n == (span + 4095) / 4096, span >= 0;
    assert((n * 4096) % 4096 == 0) by (nonlinear_arith)
        requires n >= 0;
}

} // verus!
