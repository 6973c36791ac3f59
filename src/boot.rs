use vstd::prelude::*;

use crate::elf::{elf_layout, ElfImage};
use crate::error::BootError;
use crate::frame_buffer::{pixel_format_of, DisplayMode, FrameBufferConfig};
use crate::image::{segment_readable, segments_readable, segments_well_formed, KernelImage};
use crate::layout::Segment;
use crate::relocate::{load_segments, loaded_byte};

verus! {

/// Capacity of the buffer that receives the firmware memory map.
pub const MEMORY_MAP_BUFFER_SIZE: usize = 4 * 0x1000;

/// Path of the kernel image on the boot volume.
pub const KERNEL_FILE_NAME: &'static str = "\\kernel.elf";

/// The segments whose program header entries are `recs`.
pub open spec fn segments_of(recs: Seq<(u64, u64, u64, u64)>) -> Seq<Segment> {
    recs.map_values(
        |r: (u64, u64, u64, u64)|
            Segment { virtual_address: r.0, file_offset: r.1, file_size: r.2, memory_size: r.3 },
    )
}

/// The first phase: nothing has been acquired from the firmware yet.
pub struct Initializing;

/// The memory map fits its buffer.
pub struct MemoryMapCaptured {
    capacity: usize,
}

/// The kernel image was read in full and its layout checked.
pub struct ImageLoaded {
    kernel: KernelImage,
}

/// The pages of the kernel's range are reserved at their fixed address.
pub struct PagesReserved {
    kernel: KernelImage,
}

/// The kernel's segments stand in memory at the addresses they were linked for.
pub struct KernelRelocated {
    entry: u64,
}

/// The temporary copy of the image went back to the firmware pool.
pub struct ImageReleased {
    entry: u64,
}

/// The display surface was captured for the kernel.
pub struct DisplayCaptured {
    entry: u64,
    config: FrameBufferConfig,
}

/// Firmware services are gone; only the control transfer is left.
pub struct ServicesTerminated {
    entry: u64,
    config: FrameBufferConfig,
}

/// What control transfer needs: the entry point address and its one argument.
#[derive(Clone, Copy, Debug, PartialEq, Eq, Structural)]
pub struct KernelHandoff {
    pub entry_point: u64,
    pub config: FrameBufferConfig,
}

impl Initializing {
    pub fn new() -> (r: Initializing) {
        Initializing
    }

    /// Admits a memory map of `required_size` bytes into a buffer of `capacity`
    /// bytes; a map that does not fit strictly fails at once, before anything
    /// else is done.
    pub fn capture_memory_map(self, required_size: usize, capacity: usize) -> (r: Result<
        MemoryMapCaptured,
        BootError,
    >)
        ensures
            required_size >= capacity <==> r is Err,
            r is Err ==> r == Err::<MemoryMapCaptured, BootError>(BootError::MemoryMapUnavailable),
            r matches Ok(m) ==> m.capacity_spec() == capacity,
    {
        if required_size >= capacity {
            return Err(BootError::MemoryMapUnavailable);
        }
        Ok(MemoryMapCaptured { capacity })
    }
}

impl MemoryMapCaptured {
    pub closed spec fn capacity_spec(&self) -> usize {
        self.capacity
    }

    /// Capacity of the memory map buffer that was admitted.
    pub fn capacity(&self) -> (r: usize)
        ensures
            r == self.capacity_spec(),
    {
        self.capacity
    }

    /// Takes the image bytes read from the boot volume into a buffer of the
    /// file's reported size; `bytes_read` is what the read reported. A short or
    /// long read is corruption. The bytes are then parsed and the segments
    /// checked against them.
    pub fn load_image(self, image: &[u8], bytes_read: usize) -> (r: Result<ImageLoaded, BootError>)
        ensures
            bytes_read != image@.len() <==> r == Err::<ImageLoaded, BootError>(
                BootError::ReadSizeMismatch,
            ),
            bytes_read == image@.len() && elf_layout(image@) is None ==> r == Err::<
                ImageLoaded,
                BootError,
            >(BootError::ParseFailed),
            bytes_read == image@.len() && elf_layout(image@) is Some ==> ({
                let (entry, recs) = elf_layout(image@)->Some_0;
                let segs = segments_of(recs);
                &&& !segments_well_formed(segs) ==> r == Err::<ImageLoaded, BootError>(
                    BootError::ParseFailed,
                )
                &&& segments_well_formed(segs) && !segments_readable(segs, image@.len() as int)
                    ==> exists|i: int|
                    0 <= i < segs.len() && !segment_readable(#[trigger] segs[i], image@.len() as int)
                        && (forall|k: int|
                        0 <= k < i ==> segment_readable(#[trigger] segs[k], image@.len() as int))
                        && r == Err::<ImageLoaded, BootError>(
                        BootError::SegmentReadFailed { address: segs[i].virtual_address },
                    )
                &&& segments_well_formed(segs) && segments_readable(segs, image@.len() as int)
                    <==> r is Ok
                &&& r matches Ok(l) ==> l.kernel_spec().wf() && l.kernel_spec().entry_spec() == entry
                    && l.kernel_spec().segments_spec() == segs
                    && l.kernel_spec().image_len_spec() == image@.len()
            }),
    {
        if bytes_read != image.len() {
            return Err(BootError::ReadSizeMismatch);
        }
        let elf = match ElfImage::parse(image) {
            Ok(e) => e,
            Err(e) => return Err(e),
        };
        proof {
            let recs = elf_layout(image@)->Some_0.1;
            assert(segments_of(recs) == elf.segments@);
        }
        match KernelImage::from_elf(elf, image.len()) {
            Ok(kernel) => Ok(ImageLoaded { kernel }),
            Err(e) => Err(e),
        }
    }
}

impl ImageLoaded {
    pub closed spec fn kernel_spec(&self) -> KernelImage {
        self.kernel
    }

    /// The loaded image.
    pub fn kernel(&self) -> (r: &KernelImage)
        ensures
            *r == self.kernel_spec(),
    {
        &self.kernel
    }

    /// The fixed, page-aligned address where the kernel's pages must be allocated.
    pub fn allocation_address(&self) -> (r: u64)
        ensures
            r == self.kernel_spec().range_spec().span_base(),
    {
        self.kernel.range().page_base()
    }

    /// The number of pages to allocate at `allocation_address()`.
    pub fn num_pages(&self) -> (r: u64)
        ensures
            r == self.kernel_spec().range_spec().page_count(),
    {
        let range = self.kernel.range();
        proof {
            use_type_invariant(&self.kernel);
            crate::layout::lemma_load_range_is_min_max(self.kernel.segments_spec(), range);
        }
        range.num_pages()
    }

    /// Accepts the outcome of the page allocation at the fixed address: the
    /// address the firmware reserved, or `None` where it refused. Anything but
    /// the requested address stops the boot before memory is written.
    pub fn reserve(self, allocated_at: Option<u64>) -> (r: Result<PagesReserved, BootError>)
        ensures
            allocated_at == Some(self.kernel_spec().range_spec().span_base() as u64) <==> r is Ok,
            r is Err ==> r == Err::<PagesReserved, BootError>(BootError::PageAllocationFailed),
            r matches Ok(p) ==> p.kernel_spec() == self.kernel_spec(),
    {
        let address = self.allocation_address();
        match allocated_at {
            Some(a) => {
                if a == address {
                    Ok(PagesReserved { kernel: self.kernel })
                } else {
                    Err(BootError::PageAllocationFailed)
                }
            },
            None => Err(BootError::PageAllocationFailed),
        }
    }
}

impl PagesReserved {
    pub closed spec fn kernel_spec(&self) -> KernelImage {
        self.kernel
    }

    /// The image whose pages are reserved.
    pub fn kernel(&self) -> (r: &KernelImage)
        ensures
            *r == self.kernel_spec(),
    {
        &self.kernel
    }

    /// Zero-fills the reserved memory and copies each segment's file bytes to
    /// its address within it.
    pub fn relocate(self, image: &[u8], memory: &mut [u8]) -> (r: KernelRelocated)
        requires
            image@.len() == self.kernel_spec().image_len_spec(),
            old(memory)@.len() == self.kernel_spec().range_spec().allocation_size(),
        ensures
            r.entry_spec() == self.kernel_spec().entry_spec(),
            final(memory)@.len() == old(memory)@.len(),
            forall|o: int|
                0 <= o < final(memory)@.len() ==> #[trigger] final(memory)@[o] == loaded_byte(
                    image@,
                    self.kernel_spec().segments_spec(),
                    self.kernel_spec().range_spec().span_base() + o,
                ),
    {
        load_segments(&self.kernel, image, memory);
        KernelRelocated { entry: self.kernel.entry() }
    }
}

impl KernelRelocated {
    pub closed spec fn entry_spec(&self) -> u64 {
        self.entry
    }

    /// Accepts the outcome of handing the image buffer back to the firmware pool.
    pub fn release_image(self, freed: bool) -> (r: Result<ImageReleased, BootError>)
        ensures
            freed <==> r is Ok,
            r is Err ==> r == Err::<ImageReleased, BootError>(BootError::PoolFreeFailed),
            r matches Ok(i) ==> i.entry_spec() == self.entry_spec(),
    {
        if freed {
            Ok(ImageReleased { entry: self.entry })
        } else {
            Err(BootError::PoolFreeFailed)
        }
    }
}

impl ImageReleased {
    pub closed spec fn entry_spec(&self) -> u64 {
        self.entry
    }

    /// Captures the display surface from the firmware's current mode.
    pub fn capture_display(self, mode: &DisplayMode) -> (r: Result<DisplayCaptured, BootError>)
        ensures
            pixel_format_of(mode.pixel_format) is Some <==> r is Ok,
            r is Err ==> r == Err::<DisplayCaptured, BootError>(BootError::GraphicsUnavailable),
            r matches Ok(d) ==> d.entry_spec() == self.entry_spec() && d.config_spec()
                == (FrameBufferConfig {
                buffer_base: mode.buffer_base,
                buffer_size: mode.buffer_size,
                stride: mode.stride,
                horizontal_resolution: mode.horizontal_resolution,
                vertical_resolution: mode.vertical_resolution,
                format: pixel_format_of(mode.pixel_format)->Some_0,
            }),
    {
        match FrameBufferConfig::from_mode(mode) {
            Ok(config) => Ok(DisplayCaptured { entry: self.entry, config }),
            Err(e) => Err(e),
        }
    }
}

impl DisplayCaptured {
    pub closed spec fn entry_spec(&self) -> u64 {
        self.entry
    }

    pub closed spec fn config_spec(&self) -> FrameBufferConfig {
        self.config
    }

    /// Accepts the outcome of the call that ends firmware services.
    pub fn terminate_services(self, terminated: bool) -> (r: Result<ServicesTerminated, BootError>)
        ensures
            terminated <==> r is Ok,
            r is Err ==> r == Err::<ServicesTerminated, BootError>(
                BootError::ServiceTerminationFailed,
            ),
            r matches Ok(t) ==> t.entry_spec() == self.entry_spec() && t.config_spec()
                == self.config_spec(),
    {
        if terminated {
            Ok(ServicesTerminated { entry: self.entry, config: self.config })
        } else {
            Err(BootError::ServiceTerminationFailed)
        }
    }
}

impl ServicesTerminated {
    pub closed spec fn entry_spec(&self) -> u64 {
        self.entry
    }

    pub closed spec fn config_spec(&self) -> FrameBufferConfig {
        self.config
    }

    /// The last step: what the jump to the kernel's entry point takes.
    pub fn transfer_control(self) -> (r: KernelHandoff)
        ensures
            r == (KernelHandoff { entry_point: self.entry_spec(), config: self.config_spec() }),
    {
        KernelHandoff { entry_point: self.entry, config: self.config }
    }
}

} // verus!
