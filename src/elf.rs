use vstd::prelude::*;

use object::{Object, ObjectSegment};

use crate::error::BootError;
use crate::layout::Segment;

verus! {

/// The error type of the `object` crate's readers, carried through opaquely.
#[verifier::external_type_specification]
#[verifier::external_body]
pub struct ExObjectError(object::read::Error);

/// What the ELF reader finds in an image: the entry point address and, for each
/// loadable segment in program-header order, its virtual address, file offset,
/// file size and memory size; `None` where the bytes are not an image it reads.
pub uninterp spec fn elf_layout(image: Seq<u8>) -> Option<(u64, Seq<(u64, u64, u64, u64)>)>;

/// A segment as the four numbers of its program header entry.
pub open spec fn segment_record(s: Segment) -> (u64, u64, u64, u64) {
    (s.virtual_address, s.file_offset, s.file_size, s.memory_size)
}

/// The segment records of a list of segments.
pub open spec fn segment_records(segs: Seq<Segment>) -> Seq<(u64, u64, u64, u64)> {
    segs.map_values(|s: Segment| segment_record(s))
}

/// The entry point and loadable segments of a kernel image.
pub struct ElfImage {
    pub entry: u64,
    pub segments: Vec<Segment>,
}

/// Relies on `object::File::parse` to check the format signature and headers,
/// then on `Object::entry`, `Object::segments` (the PT_LOAD entries, in order)
/// and `ObjectSegment::{address, file_range, size}` (p_vaddr, p_offset and
/// p_filesz, p_memsz) to read the layout out of the parsed file.
#[verifier::external_body]
fn read_elf(image: &[u8]) -> (r: Result<ElfImage, object::read::Error>)
    ensures
        match r {
            Ok(e) => elf_layout(image@) == Some((e.entry, segment_records(e.segments@))),
            Err(_) => elf_layout(image@) is None,
        },
{
    let file = object::File::parse(image)?;
    let mut segments = Vec::new();
    for s in file.segments() {
        let (file_offset, file_size) = s.file_range();
        let virtual_address = s.address();
        segments.push(Segment { virtual_address, file_offset, file_size, memory_size: s.size() });
    }
    Ok(ElfImage { entry: file.entry(), segments })
}

impl ElfImage {
    /// Reads the entry point and the loadable segments of an executable image.
    /// Bytes that are not a readable image are refused as malformed.
    pub fn parse(image: &[u8]) -> (r: Result<ElfImage, BootError>)
        ensures
            elf_layout(image@) is None <==> r is Err,
            r is Err ==> r == Err::<ElfImage, BootError>(BootError::ParseFailed),
            r matches Ok(e) ==> elf_layout(image@) == Some((e.entry, segment_records(e.segments@))),
    {
        match read_elf(image) {
            Ok(e) => Ok(e),
            Err(_) => Err(BootError::ParseFailed),
        }
    }
}

} // verus!
