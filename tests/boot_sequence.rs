use osboot::boot::{Initializing, MEMORY_MAP_BUFFER_SIZE};
use osboot::elf::ElfImage;
use osboot::error::BootError;
use osboot::frame_buffer::{DisplayMode, FirmwarePixelFormat, FrameBufferConfig, PixelFormat};
use osboot::layout::{calculate_load_address_range, LoadRange, Segment, PAGE_SIZE};
use osboot::relocate::load_segments;

const PT_LOAD: u32 = 1;
const PT_NOTE: u32 = 4;

struct Phdr {
    kind: u32,
    offset: u64,
    vaddr: u64,
    filesz: u64,
    memsz: u64,
}

fn put16(v: &mut Vec<u8>, x: u16) {
    v.extend_from_slice(&x.to_le_bytes());
}

fn put32(v: &mut Vec<u8>, x: u32) {
    v.extend_from_slice(&x.to_le_bytes());
}

fn put64(v: &mut Vec<u8>, x: u64) {
    v.extend_from_slice(&x.to_le_bytes());
}

/// A little-endian ELF64 executable with the given program headers, padded
/// with a recognisable byte pattern up to `total_len` bytes.
fn build_elf(entry: u64, phdrs: &[Phdr], total_len: usize) -> Vec<u8> {
    let mut v = Vec::new();
    v.extend_from_slice(&[0x7f, b'E', b'L', b'F', 2, 1, 1, 0]);
    v.extend_from_slice(&[0; 8]);
    put16(&mut v, 2);
    put16(&mut v, 0x3e);
    put32(&mut v, 1);
    put64(&mut v, entry);
    put64(&mut v, 64);
    put64(&mut v, 0);
    put32(&mut v, 0);
    put16(&mut v, 64);
    put16(&mut v, 56);
    put16(&mut v, phdrs.len() as u16);
    put16(&mut v, 64);
    put16(&mut v, 0);
    put16(&mut v, 0);
    for p in phdrs {
        put32(&mut v, p.kind);
        put32(&mut v, 5);
        put64(&mut v, p.offset);
        put64(&mut v, p.vaddr);
        put64(&mut v, p.vaddr);
        put64(&mut v, p.filesz);
        put64(&mut v, p.memsz);
        put64(&mut v, 0x1000);
    }
    let mut i = v.len();
    while v.len() < total_len {
        v.push((i % 251) as u8 + 1);
        i += 1;
    }
    v
}

fn load(vaddr: u64, offset: u64, filesz: u64, memsz: u64) -> Phdr {
    Phdr { kind: PT_LOAD, offset, vaddr, filesz, memsz }
}

fn scenario_a_image() -> Vec<u8> {
    build_elf(
        0x100120,
        &[load(0x100000, 0x1000, 0x1000, 0x1000), load(0x102000, 0x2000, 0x2000, 0x3000)],
        0x4000,
    )
}

fn gop_mode(pixel_format: FirmwarePixelFormat) -> DisplayMode {
    DisplayMode {
        buffer_base: 0x8000_0000,
        buffer_size: 0x1d_4c00,
        stride: 832,
        horizontal_resolution: 800,
        vertical_resolution: 600,
        pixel_format,
    }
}

#[test]
fn scenario_a_end_to_end() {
    let image = scenario_a_image();
    let mapped = Initializing::new().capture_memory_map(0x1800, MEMORY_MAP_BUFFER_SIZE).unwrap();
    let loaded = mapped.load_image(&image, image.len()).unwrap();
    assert_eq!(loaded.kernel().range(), LoadRange { base: 0x100000, end: 0x105000 });
    assert_eq!(loaded.allocation_address(), 0x100000);
    assert_eq!(loaded.num_pages(), 5);
    let pages = loaded.num_pages() as usize;
    let reserved = loaded.reserve(Some(0x100000)).unwrap();
    let mut memory = vec![0xaau8; pages * PAGE_SIZE as usize];
    let relocated = reserved.relocate(&image, &mut memory);
    let base = 0x100000usize;
    assert_eq!(&memory[0x100000 - base..0x101000 - base], &image[0x1000..0x2000]);
    assert!(memory[0x101000 - base..0x102000 - base].iter().all(|&b| b == 0));
    assert_eq!(&memory[0x102000 - base..0x104000 - base], &image[0x2000..0x4000]);
    assert!(memory[0x104000 - base..0x105000 - base].iter().all(|&b| b == 0));
    let released = relocated.release_image(true).unwrap();
    let displayed = released.capture_display(&gop_mode(FirmwarePixelFormat::Bgr)).unwrap();
    let handoff = displayed.terminate_services(true).unwrap().transfer_control();
    assert_eq!(handoff.entry_point, 0x100120);
    assert_eq!(handoff.config.stride, 832);
    assert_eq!(handoff.config.format, PixelFormat::Bgr);
}

#[test]
fn scenario_b_short_read_is_refused() {
    let image = scenario_a_image();
    let mapped = Initializing::new().capture_memory_map(0, MEMORY_MAP_BUFFER_SIZE).unwrap();
    let r = mapped.load_image(&image, image.len() - 1);
    assert!(matches!(r, Err(BootError::ReadSizeMismatch)));
    let mapped = Initializing::new().capture_memory_map(0, MEMORY_MAP_BUFFER_SIZE).unwrap();
    let r = mapped.load_image(&image, image.len() + 1);
    assert!(matches!(r, Err(BootError::ReadSizeMismatch)));
}

#[test]
fn scenario_c_reserved_address_stops_the_boot() {
    let image = scenario_a_image();
    let mapped = Initializing::new().capture_memory_map(0, MEMORY_MAP_BUFFER_SIZE).unwrap();
    let loaded = mapped.load_image(&image, image.len()).unwrap();
    assert!(matches!(loaded.reserve(None), Err(BootError::PageAllocationFailed)));
    let mapped = Initializing::new().capture_memory_map(0, MEMORY_MAP_BUFFER_SIZE).unwrap();
    let loaded = mapped.load_image(&image, image.len()).unwrap();
    assert!(matches!(loaded.reserve(Some(0x200000)), Err(BootError::PageAllocationFailed)));
}

#[test]
fn memory_map_must_fit_strictly() {
    let cap = MEMORY_MAP_BUFFER_SIZE;
    assert!(matches!(
        Initializing::new().capture_memory_map(cap, cap),
        Err(BootError::MemoryMapUnavailable)
    ));
    assert!(matches!(
        Initializing::new().capture_memory_map(cap + 1, cap),
        Err(BootError::MemoryMapUnavailable)
    ));
    let ok = Initializing::new().capture_memory_map(cap - 1, cap).unwrap();
    assert_eq!(ok.capacity(), cap);
}

#[test]
fn display_mode_is_copied_verbatim() {
    let rgb = FrameBufferConfig::from_mode(&gop_mode(FirmwarePixelFormat::Rgb)).unwrap();
    assert_eq!(
        rgb,
        FrameBufferConfig {
            buffer_base: 0x8000_0000,
            buffer_size: 0x1d_4c00,
            stride: 832,
            horizontal_resolution: 800,
            vertical_resolution: 600,
            format: PixelFormat::Rgb,
        }
    );
    let bgr = FrameBufferConfig::from_mode(&gop_mode(FirmwarePixelFormat::Bgr)).unwrap();
    assert_eq!(bgr.format, PixelFormat::Bgr);
    assert_eq!(bgr.horizontal_resolution, 800);
    assert!(matches!(
        FrameBufferConfig::from_mode(&gop_mode(FirmwarePixelFormat::Bitmask)),
        Err(BootError::GraphicsUnavailable)
    ));
    assert!(matches!(
        FrameBufferConfig::from_mode(&gop_mode(FirmwarePixelFormat::BltOnly)),
        Err(BootError::GraphicsUnavailable)
    ));
}

#[test]
fn failed_steps_report_their_errors() {
    let image = scenario_a_image();
    let mapped = Initializing::new().capture_memory_map(0, MEMORY_MAP_BUFFER_SIZE).unwrap();
    let loaded = mapped.load_image(&image, image.len()).unwrap();
    let pages = loaded.num_pages() as usize;
    let reserved = loaded.reserve(Some(0x100000)).unwrap();
    let mut memory = vec![0u8; pages * PAGE_SIZE as usize];
    let relocated = reserved.relocate(&image, &mut memory);
    assert!(matches!(relocated.release_image(false), Err(BootError::PoolFreeFailed)));

    let mapped = Initializing::new().capture_memory_map(0, MEMORY_MAP_BUFFER_SIZE).unwrap();
    let loaded = mapped.load_image(&image, image.len()).unwrap();
    let reserved = loaded.reserve(Some(0x100000)).unwrap();
    let relocated = reserved.relocate(&image, &mut memory);
    let displayed = relocated
        .release_image(true)
        .unwrap()
        .capture_display(&gop_mode(FirmwarePixelFormat::Rgb))
        .unwrap();
    assert!(matches!(displayed.terminate_services(false), Err(BootError::ServiceTerminationFailed)));
}

#[test]
fn parse_reads_entry_and_loadable_segments_only() {
    let image = build_elf(
        0x200040,
        &[
            Phdr { kind: PT_NOTE, offset: 0x100, vaddr: 0, filesz: 0x10, memsz: 0x10 },
            load(0x200000, 0x200, 0x80, 0x100),
        ],
        0x400,
    );
    let elf = ElfImage::parse(&image).unwrap();
    assert_eq!(elf.entry, 0x200040);
    assert_eq!(
        elf.segments,
        vec![Segment { virtual_address: 0x200000, file_offset: 0x200, file_size: 0x80, memory_size: 0x100 }]
    );
}

#[test]
fn garbage_is_a_parse_failure() {
    let bytes = vec![0x12u8; 256];
    assert!(matches!(ElfImage::parse(&bytes), Err(BootError::ParseFailed)));
    let mapped = Initializing::new().capture_memory_map(0, MEMORY_MAP_BUFFER_SIZE).unwrap();
    assert!(matches!(mapped.load_image(&bytes, bytes.len()), Err(BootError::ParseFailed)));
}

#[test]
fn image_without_loadable_segments_is_malformed() {
    let image = build_elf(0x1000, &[], 0x100);
    let mapped = Initializing::new().capture_memory_map(0, MEMORY_MAP_BUFFER_SIZE).unwrap();
    assert!(matches!(mapped.load_image(&image, image.len()), Err(BootError::ParseFailed)));
}

#[test]
fn overlapping_segments_are_malformed() {
    let image = build_elf(
        0x1000,
        &[load(0x100000, 0x100, 0x100, 0x2000), load(0x101000, 0x200, 0x100, 0x100)],
        0x400,
    );
    let mapped = Initializing::new().capture_memory_map(0, MEMORY_MAP_BUFFER_SIZE).unwrap();
    assert!(matches!(mapped.load_image(&image, image.len()), Err(BootError::ParseFailed)));
}

#[test]
fn file_bytes_beyond_memory_size_are_malformed() {
    let image = build_elf(0x1000, &[load(0x100000, 0x100, 0x200, 0x100)], 0x400);
    let mapped = Initializing::new().capture_memory_map(0, MEMORY_MAP_BUFFER_SIZE).unwrap();
    assert!(matches!(mapped.load_image(&image, image.len()), Err(BootError::ParseFailed)));
}

#[test]
fn segment_beyond_the_file_cannot_be_read() {
    let image = build_elf(
        0x1000,
        &[load(0x100000, 0x100, 0x100, 0x100), load(0x300000, 0x300, 0x200, 0x200)],
        0x400,
    );
    let mapped = Initializing::new().capture_memory_map(0, MEMORY_MAP_BUFFER_SIZE).unwrap();
    assert!(matches!(
        mapped.load_image(&image, image.len()),
        Err(BootError::SegmentReadFailed { address: 0x300000 })
    ));
}

#[test]
fn load_range_is_min_and_max() {
    let segs = vec![
        Segment { virtual_address: 0x205000, file_offset: 0, file_size: 0x10, memory_size: 0x800 },
        Segment { virtual_address: 0x200100, file_offset: 0, file_size: 0, memory_size: 0x100 },
        Segment { virtual_address: 0x203000, file_offset: 0, file_size: 0x10, memory_size: 0x4000 },
    ];
    assert_eq!(calculate_load_address_range(&segs), Ok(LoadRange { base: 0x200100, end: 0x207000 }));
    assert_eq!(calculate_load_address_range(&vec![]), Err(BootError::ParseFailed));
    let wraps = vec![Segment { virtual_address: u64::MAX - 4, file_offset: 0, file_size: 0, memory_size: 8 }];
    assert_eq!(calculate_load_address_range(&wraps), Err(BootError::ParseFailed));
}

#[test]
fn page_count_rounds_up_from_the_page_floor() {
    let r = LoadRange { base: 0x100000, end: 0x105000 };
    assert_eq!(r.page_base(), 0x100000);
    assert_eq!(r.num_pages(), 5);
    let r = LoadRange { base: 0x100800, end: 0x101001 };
    assert_eq!(r.page_base(), 0x100000);
    assert_eq!(r.num_pages(), 2);
    assert_eq!(r.num_pages() * PAGE_SIZE % PAGE_SIZE, 0);
    assert!(r.num_pages() * PAGE_SIZE >= r.end - r.page_base());
    let r = LoadRange { base: 0x3000, end: 0x3000 };
    assert_eq!(r.num_pages(), 0);
}

#[test]
fn unaligned_base_places_bytes_at_their_addresses() {
    let image = build_elf(0x100900, &[load(0x100800, 0x100, 0x10, 0x20), load(0x101000, 0x200, 0x8, 0x8)], 0x300);
    let mapped = Initializing::new().capture_memory_map(0, MEMORY_MAP_BUFFER_SIZE).unwrap();
    let loaded = mapped.load_image(&image, image.len()).unwrap();
    assert_eq!(loaded.allocation_address(), 0x100000);
    assert_eq!(loaded.num_pages(), 2);
    let mut memory = vec![0x55u8; 2 * PAGE_SIZE as usize];
    load_segments(loaded.kernel(), &image, &mut memory);
    assert_eq!(&memory[0x800..0x810], &image[0x100..0x110]);
    assert!(memory[0x810..0x1000].iter().all(|&b| b == 0));
    assert_eq!(&memory[0x1000..0x1008], &image[0x200..0x208]);
    assert!(memory[..0x800].iter().all(|&b| b == 0));
    assert!(memory[0x1008..].iter().all(|&b| b == 0));
}
