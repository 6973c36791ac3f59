use vstd::prelude::*;

use crate::image::{segment_readable, segments_overlap, segments_well_formed, KernelImage};
use crate::layout::{lemma_allocation_covers_range, lemma_range_covers_segments, Segment};

verus! {

/// The address lies in the file-backed part of the segment.
pub open spec fn in_file_part(s: Segment, addr: int) -> bool {
    s.virtual_address <= addr < s.virtual_address + s.file_size
}

/// The image byte that a segment places at an address of its file-backed part.
pub open spec fn file_byte(image: Seq<u8>, s: Segment, addr: int) -> u8 {
    image[s.file_offset + (addr - s.virtual_address)]
}

/// The byte at address `addr` once the segments are loaded: the file byte of the
/// last segment, in list order, whose file-backed part holds the address, and
/// zero where none does.
pub open spec fn loaded_byte(image: Seq<u8>, segs: Seq<Segment>, addr: int) -> u8
    decreases segs.len(),
{
    if segs.len() == 0 {
        0
    } else if in_file_part(segs.last(), addr) {
        file_byte(image, segs.last(), addr)
    } else {
        loaded_byte(image, segs.drop_last(), addr)
    }
}

/// Fills the kernel memory from the image: every byte is first set to zero, then
/// the file-backed bytes of each segment are copied to `virtual_address`, the
/// memory starting at the page boundary below the range's base.
pub fn load_segments(kernel: &KernelImage, image: &[u8], memory: &mut [u8])
    requires
        image@.len() == kernel.image_len_spec(),
        old(memory)@.len() == kernel.range_spec().allocation_size(),
    ensures
        final(memory)@.len() == old(memory)@.len(),
        forall|o: int|
            0 <= o < final(memory)@.len() ==> #[trigger] final(memory)@[o] == loaded_byte(
                image@,
                kernel.segments_spec(),
                kernel.range_spec().span_base() + o,
            ),
{
    let ghost segs = kernel.segments_spec();
    let range = kernel.range();
    let span_base = range.page_base();
    let len = memory.len();
    proof {
        use_type_invariant(kernel);
        lemma_range_covers_segments(segs);
        assert(range.base <= segs[0].virtual_address);
        lemma_allocation_covers_range(range);
    }
    let mut z: usize = 0;
    while z < len
        invariant
            len == memory@.len(),
            0 <= z <= len,
            forall|o: int| 0 <= o < z ==> memory@[o] == 0u8,
        decreases len - z,
    {
        memory[z] = 0;
        z = z + 1;
    }
    proof {
        assert forall|o: int| 0 <= o < len implies #[trigger] memory@[o] == loaded_byte(
            image@,
            segs.take(0),
            span_base + o,
        ) by {
            assert(segs.take(0).len() == 0);
        }
    }
    let segments = kernel.segments();
    let mut k: usize = 0;
    while k < segments.len()
        invariant
            segments@ == segs,
            segs == kernel.segments_spec(),
            kernel.wf(),
            image@.len() == kernel.image_len_spec(),
            span_base == range.span_base(),
            range == kernel.range_spec(),
            len == memory@.len(),
            len == range.allocation_size(),
            range.end - span_base <= len,
            span_base <= range.base,
            forall|i: int|
                0 <= i < segs.len() ==> range.base <= (#[trigger] segs[i]).virtual_address
                    && segs[i].virtual_address + segs[i].memory_size <= range.end,
            0 <= k <= segs.len(),
            forall|o: int|
                0 <= o < len ==> #[trigger] memory@[o] == loaded_byte(
                    image@,
                    segs.take(k as int),
                    span_base + o,
                ),
        decreases segs.len() - k,
    {
        let s = segments[k];
        proof {
            assert(segs[k as int] == s);
            assert(segment_readable(segs[k as int], image@.len() as int));
            assert(segs[k as int].file_size <= segs[k as int].memory_size);
            assert(s.file_size == 0 || s.file_offset + s.file_size <= image@.len());
            assert(s.file_size <= s.memory_size);
        }
        let image_len = image.len();
        let dst = (s.virtual_address - span_base) as usize;
        let size: usize = if s.file_size == 0 { 0 } else { s.file_size as usize };
        let offset: usize = if s.file_size == 0 { 0 } else { s.file_offset as usize };
        let ghost before = memory@;
        let mut j: usize = 0;
        while j < size
            invariant
                size == s.file_size,
                image_len == image@.len(),
                size > 0 ==> offset == s.file_offset,
                len == memory@.len(),
                before.len() == len,
                dst + s.file_size <= len,
                s.file_size > 0 ==> s.file_offset + s.file_size <= image@.len(),
                dst == s.virtual_address - span_base,
                0 <= j <= s.file_size,
                forall|o: int|
                    0 <= o < len ==> #[trigger] memory@[o] == if dst <= o < dst + j {
                        image@[s.file_offset + (o - dst)]
                    } else {
                        before[o]
                    },
            decreases s.file_size - j,
        {
            memory[dst + j] = image[offset + j];
            j = j + 1;
        }
        proof {
            let t = segs.take(k + 1);
            assert(t.drop_last() == segs.take(k as int));
            assert(t.last() == s);
            assert forall|o: int| 0 <= o < len implies #[trigger] memory@[o] == loaded_byte(
                image@,
                t,
                span_base + o,
            ) by {
                assert(in_file_part(s, span_base + o) <==> dst <= o < dst + s.file_size);
            }
        }
        k = k + 1;
    }
    proof {
        assert(segs.take(segs.len() as int) == segs);
    }
}

/// In the memory of a well-formed image, each byte in the file-backed part of a
/// segment is the corresponding byte of the file.
pub proof fn lemma_loaded_byte_in_segment(image: Seq<u8>, segs: Seq<Segment>, i: int, addr: int)
    requires
        segments_well_formed(segs),
        0 <= i < segs.len(),
        in_file_part(segs[i], addr),
    ensures
        loaded_byte(image, segs, addr) == file_byte(image, segs[i], addr),
    decreases segs.len(),
{
    let n = segs.len() - 1;
    if i != n {
        let rest = segs.drop_last();
        assert(!segments_overlap(segs[i], segs[n]));
        assert(!in_file_part(segs[n], addr));
        assert(segments_well_formed(rest)) by {
            assert forall|a: int, b: int|
                0 <= a < rest.len() && 0 <= b < rest.len() && a != b implies !segments_overlap(
                #[trigger] rest[a],
                #[trigger] rest[b],
            ) by {
                assert(rest[a] == segs[a] && rest[b] == segs[b]);
                assert(!segments_overlap(segs[a], segs[b]));
            }
            assert forall|a: int| 0 <= a < rest.len() implies (#[trigger] rest[a]).file_size
                <= rest[a].memory_size && rest[a].virtual_address + rest[a].memory_size
                <= u64::MAX by {
                assert(rest[a] == segs[a]);
            }
        }
        assert(rest[i] == segs[i]);
        lemma_loaded_byte_in_segment(image, rest, i, addr);
    }
}

/// A byte outside the file-backed part of every segment is zero: gaps between
/// segments and the tails beyond each segment's file bytes.
pub proof fn lemma_loaded_byte_outside(image: Seq<u8>, segs: Seq<Segment>, addr: int)
    requires
        forall|i: int| 0 <= i < segs.len() ==> !in_file_part(#[trigger] segs[i], addr),
    ensures
        loaded_byte(image, segs, addr) == 0,
    decreases segs.len(),
{
    if segs.len() > 0 {
        let rest = segs.drop_last();
        assert(!in_file_part(segs[segs.len() - 1], addr));
        assert forall|i: int| 0 <= i < rest.len() implies !in_file_part(#[trigger] rest[i], addr) by {
            assert(rest[i] == segs[i]);
        }
        lemma_loaded_byte_outside(image, rest, addr);
    }
}

/// After relocation of a well-formed image, a byte of kernel memory equals the
/// corresponding file byte where its address lies in some segment's file-backed
/// part, and zero everywhere else.
pub proof fn lemma_relocated_memory(image: Seq<u8>, segs: Seq<Segment>, addr: int)
    requires
        segments_well_formed(segs),
    ensures
        forall|i: int|
            0 <= i < segs.len() && in_file_part(#[trigger] segs[i], addr) ==> loaded_byte(
                image,
                segs,
                addr,
            ) == file_byte(image, segs[i], addr),
        (forall|i: int| 0 <= i < segs.len() ==> !in_file_part(#[trigger] segs[i], addr))
            ==> loaded_byte(image, segs, addr) == 0,
{
    assert forall|i: int| 0 <= i < segs.len() && in_file_part(#[trigger] segs[i], addr) implies loaded_byte(
        image,
        segs,
        addr,
    ) == file_byte(image, segs[i], addr) by {
        lemma_loaded_byte_in_segment(image, segs, i, addr);
    }
    if forall|i: int| 0 <= i < segs.len() ==> !in_file_part(#[trigger] segs[i], addr) {
        lemma_loaded_byte_outside(image, segs, addr);
    }
}

/// Once `load_segments` has run, each byte of kernel memory whose address lies in
/// the file-backed part of a segment equals the corresponding file byte, and
/// every other byte (gaps between segments, tails beyond the file bytes) is zero.
pub proof fn lemma_kernel_memory_after_relocation(kernel: KernelImage, image: Seq<u8>, memory: Seq<u8>)
    requires
        kernel.wf(),
        memory.len() == kernel.range_spec().allocation_size(),
        forall|o: int|
            0 <= o < memory.len() ==> #[trigger] memory[o] == loaded_byte(
                image,
                kernel.segments_spec(),
                kernel.range_spec().span_base() + o,
            ),
    ensures
        forall|o: int, i: int|
            0 <= o < memory.len() && 0 <= i < kernel.segments_spec().len() && in_file_part(
                #[trigger] kernel.segments_spec()[i],
                kernel.range_spec().span_base() + o,
            ) ==> #[trigger] memory[o] == file_byte(
                image,
                kernel.segments_spec()[i],
                kernel.range_spec().span_base() + o,
            ),
        forall|o: int|
            0 <= o < memory.len() && (forall|i: int|
                0 <= i < kernel.segments_spec().len() ==> !in_file_part(
                    #[trigger] kernel.segments_spec()[i],
                    kernel.range_spec().span_base() + o,
                )) ==> #[trigger] memory[o] == 0,
{
    let segs = kernel.segments_spec();
    let base = kernel.range_spec().span_base();
    assert forall|o: int| 0 <= o < memory.len() implies (forall|i: int|
        0 <= i < segs.len() && in_file_part(#[trigger] segs[i], base + o) ==> memory[o]
            == file_byte(image, segs[i], base + o)) && ((forall|i: int|
        0 <= i < segs.len() ==> !in_file_part(#[trigger] segs[i], base + o)) ==> memory[o]
        == 0) by {
        lemma_relocated_memory(image, segs, base + o);
    }
}

} // verus!
