use rusty_raven::controller::Controller;
use rusty_raven::memory::{Bus, CpuMemory, Segment};
use rusty_raven::ppu::Ppu;
use rusty_raven::rom::NametableArrangement::VerticallyMirrored;

#[test]
fn test_16_byte_memory() {
    let mut memory = Segment::<16>::initialize();
    assert_eq!(memory.read_byte(3), 0);
    memory.write_byte(2, b'A');
    assert_eq!(memory.read_byte(2), b'A');
}

#[test]
fn test_memory_mirroring() {
    let ppu = Ppu::initialize(VerticallyMirrored);
    let controller_1 = Controller::initialize();
    let controller_2 = Controller::initialize();
    let mut cpu_memory = CpuMemory::initialize(Bus::from(ppu, controller_1, controller_2));
    cpu_memory.write_byte(0x0803, 42);
    cpu_memory.write_byte(0x2009, 43);
    // Assert that the write can be read in a "mirrored" way throughout RAM.
    assert_eq!(cpu_memory.read_byte(0x0003), 42);
    assert_eq!(cpu_memory.read_byte(0x0803), 42);
    assert_eq!(cpu_memory.read_byte(0x1003), 42);
    assert_eq!(cpu_memory.read_byte(0x1803), 42);
    // And lower I/O
    assert_eq!(cpu_memory.read_byte(0x2001), 43);
    assert_eq!(cpu_memory.read_byte(0x2009), 43);
    assert_eq!(cpu_memory.read_byte(0x2011), 43);
}

fn new_memory() -> CpuMemory {
    let ppu = Ppu::initialize(VerticallyMirrored);
    CpuMemory::initialize(Bus::from(ppu, Controller::initialize(), Controller::initialize()))
}

#[test]
fn memory_segment_write_bytes() {
    let mut memory = Segment::<8>::initialize();
    memory.write_bytes(2, &[1, 2, 3]);
    assert_eq!(memory.read_byte(1), 0);
    assert_eq!(memory.read_byte(2), 1);
    assert_eq!(memory.read_byte(4), 3);
    assert_eq!(memory.read_byte(5), 0);
}

#[test]
fn memory_stack_and_words() {
    let mut memory = new_memory();
    memory.write_byte_to_stack(0xFD, 0x12);
    assert_eq!(memory.read_byte_from_stack(0xFD), 0x12);
    assert_eq!(memory.read_byte(0x01FD), 0x12);
    memory.write_bytes(0x00FF, &[0x34, 0x12]);
    assert_eq!(memory.read_two_bytes(0x00FF), 0x1234);
    // Within the zero page the high byte wraps to $00.
    memory.write_byte(0x0000, 0x56);
    assert_eq!(memory.read_two_bytes_zero_page(0xFF), 0x5634);
    // Within a page the high byte wraps to the page start.
    memory.write_byte(0x12FF, 0x78);
    memory.write_byte(0x1200, 0x9A);
    memory.write_byte(0x1300, 0xBC);
    assert_eq!(memory.read_two_bytes_wrapping_page(0x12FF), 0x9A78);
    assert_eq!(memory.read_two_bytes(0x12FF), 0xBC78);
    assert_eq!(memory.read_byte_zero_page(0x00), 0x56);
}

#[test]
fn memory_cartridge_space_and_controllers() {
    let mut memory = new_memory();
    memory.write_byte(0x8000, 0xAB);
    memory.write_byte(0xFFFF, 0xCD);
    assert_eq!(memory.read_byte(0x8000), 0xAB);
    assert_eq!(memory.read_byte(0xFFFF), 0xCD);
    memory.bus.controller_1.set_button(rusty_raven::controller::Button::A);
    memory.write_byte(0x4016, 0x01);
    memory.write_byte(0x4016, 0x00);
    assert_eq!(memory.read_byte(0x4016), 0x01);
    assert_eq!(memory.read_byte(0x4016), 0x00);
    assert_eq!(memory.read_byte(0x4017), 0x00);
}

#[test]
fn memory_oam_dma_copies_a_page() {
    let mut memory = new_memory();
    let page: Vec<u8> = (0..=255u8).collect();
    memory.write_bytes(0x0200, &page);
    memory.write_byte(0x4014, 0x02);
    assert!(memory.bus.ppu.dma_flag());
    assert!(!memory.bus.ppu.dma_flag());
    // OAMADDR is 0; OAMDATA reads give the copied bytes.
    memory.write_byte(0x2003, 0x05);
    assert_eq!(memory.read_byte(0x2004), 0x05);
}
