use vstd::prelude::*;

use crate::elf::ElfImage;
use crate::error::BootError;
use crate::layout::{
    calculate_load_address_range, highest_end, lowest_address, segment_end, segments_fit,
    LoadRange, Segment,
};

verus! {

/// Two segments claim a common byte of memory.
pub open spec fn segments_overlap(a: Segment, b: Segment) -> bool {
    &&& a.memory_size > 0
    &&& b.memory_size > 0
    &&& a.virtual_address < segment_end(b)
    &&& b.virtual_address < segment_end(a)
}

/// The segments of a loadable image: at least one, each within the address
/// space, each with no more file bytes than memory bytes, no two overlapping.
pub open spec fn segments_well_formed(segs: Seq<Segment>) -> bool {
    &&& segs.len() > 0
    &&& segments_fit(segs)
    &&& forall|i: int| 0 <= i < segs.len() ==> (#[trigger] segs[i]).file_size <= segs[i].memory_size
    &&& forall|i: int, j: int|
        0 <= i < segs.len() && 0 <= j < segs.len() && i != j ==> !segments_overlap(
            #[trigger] segs[i],
            #[trigger] segs[j],
        )
}

/// The file-backed bytes of a segment lie within an image of `image_len` bytes.
pub open spec fn segment_readable(s: Segment, image_len: int) -> bool {
    s.file_size == 0 || s.file_offset + s.file_size <= image_len
}

/// Every segment of the list can be read from an image of `image_len` bytes.
pub open spec fn segments_readable(segs: Seq<Segment>, image_len: int) -> bool {
    forall|i: int| 0 <= i < segs.len() ==> segment_readable(#[trigger] segs[i], image_len)
}

/// Whether `segs` is well formed.
pub fn check_segments(segs: &Vec<Segment>) -> (r: bool)
    ensures
        r == segments_well_formed(segs@),
{
    let n = segs.len();
    if n == 0 {
        return false;
    }
    let mut i: usize = 0;
    while i < n
        invariant
            n == segs@.len(),
            0 <= i <= n,
            forall|k: int| 0 <= k < i ==> segment_end(#[trigger] segs@[k]) <= u64::MAX,
            forall|k: int| 0 <= k < i ==> (#[trigger] segs@[k]).file_size <= segs@[k].memory_size,
            forall|k: int, l: int|
                0 <= k < i && 0 <= l < n && k != l ==> !segments_overlap(
                    #[trigger] segs@[k],
                    #[trigger] segs@[l],
                ),
        decreases n - i,
    {
        let a = segs[i];
        if a.memory_size > u64::MAX - a.virtual_address || a.file_size > a.memory_size {
            return false;
        }
        let mut j: usize = 0;
        while j < n
            invariant
                n == segs@.len(),
                0 <= i < n,
                0 <= j <= n,
                a == segs@[i as int],
                segment_end(a) <= u64::MAX,
                forall|l: int| 0 <= l < j && l != i ==> !segments_overlap(a, #[trigger] segs@[l]),
            decreases n - j,
        {
            let b = segs[j];
            if j != i && a.memory_size > 0 && b.memory_size > 0 {
                if b.memory_size > u64::MAX - b.virtual_address {
                    assert(!segments_fit(segs@)) by {
                        assert(segs@[j as int] == b);
                    }
                    return false;
                }
                if a.virtual_address < b.virtual_address + b.memory_size && b.virtual_address
                    < a.virtual_address + a.memory_size {
                    assert(segments_overlap(segs@[i as int], segs@[j as int]));
                    return false;
                }
            }
            j = j + 1;
        }
        i = i + 1;
    }
    true
}

/// The index of the first segment that cannot be read from an image of
/// `image_len` bytes, if any.
pub fn first_unreadable_segment(segs: &Vec<Segment>, image_len: usize) -> (r: Option<usize>)
    ensures
        r is None <==> segments_readable(segs@, image_len as int),
        r matches Some(i) ==> i < segs@.len() && !segment_readable(segs@[i as int], image_len as int)
            && forall|k: int| 0 <= k < i ==> segment_readable(#[trigger] segs@[k], image_len as int),
{
    let mut i: usize = 0;
    while i < segs.len()
        invariant
            0 <= i <= segs@.len(),
            forall|k: int| 0 <= k < i ==> segment_readable(#[trigger] segs@[k], image_len as int),
        decreases segs@.len() - i,
    {
        let s = segs[i];
        if s.file_size != 0 && (s.file_offset > image_len as u64 || s.file_size > image_len as u64
            - s.file_offset) {
            return Some(i);
        }
        i = i + 1;
    }
    None
}

/// A parsed kernel image whose segments were checked against the image bytes,
/// together with the memory range they occupy.
pub struct KernelImage {
    entry: u64,
    segments: Vec<Segment>,
    range: LoadRange,
    image_len: usize,
}

impl KernelImage {
    pub closed spec fn entry_spec(&self) -> u64 {
        self.entry
    }

    pub closed spec fn segments_spec(&self) -> Seq<Segment> {
        self.segments@
    }

    pub closed spec fn range_spec(&self) -> LoadRange {
        self.range
    }

    pub closed spec fn image_len_spec(&self) -> usize {
        self.image_len
    }

    /// The segments are well formed and readable, and the range is theirs.
    #[verifier::type_invariant]
    pub open spec fn wf(&self) -> bool {
        &&& segments_well_formed(self.segments_spec())
        &&& segments_readable(self.segments_spec(), self.image_len_spec() as int)
        &&& self.range_spec().base == lowest_address(self.segments_spec())
        &&& self.range_spec().end == highest_end(self.segments_spec())
    }

    /// Checks the layout read from an image of `image_len` bytes: malformed
    /// segments give `ParseFailed`, else the first segment whose file bytes lie
    /// outside the image gives `SegmentReadFailed` with its address.
    pub fn from_elf(elf: ElfImage, image_len: usize) -> (r: Result<KernelImage, BootError>)
        ensures
            !segments_well_formed(elf.segments@) ==> r == Err::<KernelImage, BootError>(
                BootError::ParseFailed,
            ),
            segments_well_formed(elf.segments@) && !segments_readable(
                elf.segments@,
                image_len as int,
            ) ==> exists|i: int|
                0 <= i < elf.segments@.len() && !segment_readable(
                    #[trigger] elf.segments@[i],
                    image_len as int,
                ) && (forall|k: int|
                    0 <= k < i ==> segment_readable(
                        #[trigger] elf.segments@[k],
                        image_len as int,
                    )) && r == Err::<KernelImage, BootError>(
                    BootError::SegmentReadFailed { address: elf.segments@[i].virtual_address },
                ),
            segments_well_formed(elf.segments@) && segments_readable(
                elf.segments@,
                image_len as int,
            ) <==> r is Ok,
            r matches Ok(k) ==> k.wf() && k.entry_spec() == elf.entry && k.segments_spec()
                == elf.segments@ && k.image_len_spec() == image_len,
    {
        if !check_segments(&elf.segments) {
            return Err(BootError::ParseFailed);
        }
        match first_unreadable_segment(&elf.segments, image_len) {
            Some(i) => {
                return Err(BootError::SegmentReadFailed { address: elf.segments[i].virtual_address });
            },
            None => {},
        }
        let range = match calculate_load_address_range(&elf.segments) {
            Ok(range) => range,
            Err(e) => return Err(e),
        };
        Ok(KernelImage { entry: elf.entry, segments: elf.segments, range, image_len })
    }

    /// The address of the kernel's entry point.
    pub fn entry(&self) -> (r: u64)
        ensures
            r == self.entry_spec(),
    {
        self.entry
    }

    /// The memory range that the segments occupy.
    pub fn range(&self) -> (r: LoadRange)
        ensures
            r == self.range_spec(),
    {
        self.range
    }

    /// The loadable segments, in image order.
    pub fn segments(&self) -> (r: &Vec<Segment>)
        ensures
            r@ == self.segments_spec(),
    {
        &self.segments
    }
}

} // verus!
