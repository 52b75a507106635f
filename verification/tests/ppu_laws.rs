use rusty_raven::controller::Controller;
use rusty_raven::memory::{Bus, CpuMemory};
use rusty_raven::ppu::{Ppu, PpuMemory};
use rusty_raven::rom::NametableArrangement;

fn memory() -> CpuMemory {
    let ppu = Ppu::initialize(NametableArrangement::HorizontallyMirrored);
    CpuMemory::initialize(Bus::from(ppu, Controller::initialize(), Controller::initialize()))
}

#[test]
fn ppuaddr_then_ppudata_reads_back_through_the_buffer() {
    let mut m = memory();
    // Write 0x42, 0x43 at $2105, $2106.
    m.write_byte(0x2006, 0x21);
    m.write_byte(0x2006, 0x05);
    m.write_byte(0x2007, 0x42);
    m.write_byte(0x2007, 0x43);
    // Read them back: the first read returns the stale buffer.
    m.write_byte(0x2006, 0x21);
    m.write_byte(0x2006, 0x05);
    let _stale = m.read_byte(0x2007);
    assert_eq!(m.read_byte(0x2007), 0x42);
    assert_eq!(m.read_byte(0x2007), 0x43);
    // Horizontal mirroring: $2505 is $2105.
    m.write_byte(0x2006, 0x25);
    m.write_byte(0x2006, 0x05);
    let _stale = m.read_byte(0x2007);
    assert_eq!(m.read_byte(0x2007), 0x42);
}

#[test]
fn ppustatus_read_clears_vblank() {
    let mut ppu = Ppu::initialize(NametableArrangement::VerticallyMirrored);
    // From the pre-render line, vblank starts at scanline 241, dot 1.
    let mut cycles = 0u32;
    while !ppu.vblank() {
        assert!(ppu.can_execute_cycle());
        ppu.execute_cycle();
        cycles += 1;
    }
    assert_eq!(cycles, 341 + 241 * 341 + 2);
    assert_eq!(ppu.read_io_register(0x2002) & 0x80, 0x80);
    assert!(!ppu.vblank());
    assert_eq!(ppu.read_io_register(0x2002) & 0x80, 0x00);
}

#[test]
fn nmi_needs_vblank_and_the_enable_bit() {
    let mut ppu = Ppu::initialize(NametableArrangement::VerticallyMirrored);
    ppu.write_io_register(0x2000, 0x80);
    assert!(!ppu.nmi());
    while !ppu.vblank() {
        ppu.execute_cycle();
    }
    assert!(ppu.nmi());
    ppu.write_io_register(0x2000, 0x00);
    assert!(!ppu.nmi());
}

#[test]
fn palette_backdrop_mirrors() {
    let mut m = memory();
    // A write to $3F10 lands on $3F00.
    m.write_byte(0x2006, 0x3F);
    m.write_byte(0x2006, 0x10);
    m.write_byte(0x2007, 0x2A);
    m.write_byte(0x2006, 0x3F);
    m.write_byte(0x2006, 0x00);
    let _stale = m.read_byte(0x2007);
    m.write_byte(0x2006, 0x3F);
    m.write_byte(0x2006, 0x00);
    assert_eq!(m.read_byte(0x2007), 0x2A);
}

#[test]
fn nametable_arrangements_share_memory() {
    let v = NametableArrangement::VerticallyMirrored;
    let h = NametableArrangement::HorizontallyMirrored;
    assert_eq!(PpuMemory::get_mirrored_nametable_address(0x2005, v), 0x0005);
    assert_eq!(PpuMemory::get_mirrored_nametable_address(0x2805, v), 0x0005);
    assert_eq!(PpuMemory::get_mirrored_nametable_address(0x2405, v), 0x0405);
    assert_eq!(PpuMemory::get_mirrored_nametable_address(0x2405, h), 0x0005);
    assert_eq!(PpuMemory::get_mirrored_nametable_address(0x2C05, h), 0x0805);
    let lo = NametableArrangement::SingleScreenLo;
    let hi = NametableArrangement::SingleScreenHi;
    assert_eq!(PpuMemory::get_mirrored_nametable_address(0x2C05, lo), 0x0005);
    assert_eq!(PpuMemory::get_mirrored_nametable_address(0x2005, hi), 0x0405);
    // Within a single screen every offset keeps its own byte.
    assert_eq!(PpuMemory::get_mirrored_nametable_address(0x2105, hi), 0x0505);
    assert_eq!(PpuMemory::get_mirrored_nametable_address(0x2F05, hi), 0x0705);
    assert_eq!(PpuMemory::get_mirrored_nametable_address(0x2305, lo), 0x0305);
    // $3000-$3EFF mirror $2000-$2EFF.
    assert_eq!(PpuMemory::get_mirrored_nametable_address(0x3405, v), 0x0405);
}

#[test]
fn rendering_off_leaves_the_scroll_registers_alone() {
    let mut ppu = Ppu::initialize(NametableArrangement::VerticallyMirrored);
    ppu.write_io_register(0x2006, 0x21);
    ppu.write_io_register(0x2006, 0x05);
    for _ in 0..(2 * 341 * 262) {
        ppu.execute_cycle();
    }
    assert_eq!(ppu.peek_io_register(0x2006), 0x05);
    // With the background on, v moves during rendering.
    ppu.write_io_register(0x2001, 0x08);
    for _ in 0..(341 * 262) {
        ppu.execute_cycle();
    }
    assert_ne!(ppu.peek_io_register(0x2006), 0x05);
}

#[test]
fn nmi_enable_follows_the_last_control_write() {
    let mut ppu = Ppu::initialize(NametableArrangement::VerticallyMirrored);
    while !ppu.vblank() {
        ppu.execute_cycle();
    }
    assert!(!ppu.nmi());
    ppu.write_io_register(0x2000, 0x80);
    assert!(ppu.nmi());
    ppu.write_io_register(0x2001, 0x00);
    let _status = ppu.peek_io_register(0x2002);
    assert!(ppu.nmi());
    ppu.write_io_register(0x2000, 0x7F);
    assert!(!ppu.nmi());
}

#[test]
fn an_image_is_handed_out_once_per_frame() {
    let mut ppu = Ppu::initialize(NametableArrangement::VerticallyMirrored);
    ppu.write_io_register(0x2001, 0x08);
    // Pre-render line, then a full frame drawn: the second vblank start
    // brings a complete picture.
    for _ in 0..(341 + 341 * 262 + 241 * 341 + 2) {
        ppu.execute_cycle();
    }
    assert!(ppu.vblank());
    let image = ppu.get_image();
    assert_eq!(image.map(|pixels| pixels.len()), Some(256 * 240));
    assert!(ppu.get_image().is_none());
    // Up to the next vblank start no image is handed out again.
    for _ in 0..(341 * 262 - 1) {
        ppu.execute_cycle();
        assert!(ppu.get_image().is_none());
    }
    ppu.execute_cycle();
    assert!(ppu.get_image().is_some());
}
