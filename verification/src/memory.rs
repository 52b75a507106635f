use vstd::prelude::*;
use crate::controller::Controller;
use crate::ppu::{Ppu, PpuModel};

verus! {

/// A static, contiguous block of `N` bytes with byte-wise reads and writes.
/// Several segments make up the CPU's and the PPU's memory.
pub struct Segment<const N: usize> {
    data: [u8; N],
}

impl<const N: usize> View for Segment<N> {
    type V = Seq<u8>;

    closed spec fn view(&self) -> Seq<u8> {
        self.data@
    }
}

impl<const N: usize> Segment<N> {
    /// `s` with the byte at `index` replaced by `value`.
    pub closed spec fn spec_with(s: Self, index: int, value: u8) -> Self {
        Segment { data: vstd::array::spec_array_update(s.data, index, value) }
    }

    /// `s` with `values` written from `start` on, one byte after another.
    pub open spec fn spec_with_bytes(s: Self, start: int, values: Seq<u8>) -> Self
        decreases values.len(),
    {
        if values.len() == 0 {
            s
        } else {
            Self::spec_with(
                Self::spec_with_bytes(s, start, values.drop_last()),
                start + values.len() - 1,
                values.last(),
            )
        }
    }

    /// Two segments with the same bytes are the same segment.
    pub proof fn lemma_view_eq(a: Self, b: Self)
        requires
            a@ == b@,
        ensures
            a == b,
    {
        broadcast use vstd::array::axiom_array_ext_equal;

        assert(a.data =~= b.data);
    }

    pub proof fn lemma_spec_with(s: Self, index: int, value: u8)
        requires
            0 <= index < N,
        ensures
            Self::spec_with(s, index, value)@ == s@.update(index, value),
    {
        broadcast use vstd::array::axiom_spec_array_update;

    }

    pub proof fn lemma_spec_with_one(s: Self, index: int, value: u8)
        requires
            0 <= index < N,
        ensures
            Self::spec_with_bytes(s, index, seq![value]) == Self::spec_with(s, index, value),
    {
        assert(seq![value].drop_last() =~= Seq::<u8>::empty());
        assert(Self::spec_with_bytes(s, index, seq![value].drop_last()) == s);
    }

    pub proof fn lemma_spec_with_bytes(s: Self, start: int, values: Seq<u8>)
        requires
            0 <= start,
            start + values.len() <= N,
        ensures
            Self::spec_with_bytes(s, start, values)@ == s@.take(start) + values + s@.skip(
                start + values.len(),
            ),
        decreases values.len(),
    {
        s.lemma_len();
        if values.len() > 0 {
            Self::lemma_spec_with_bytes(s, start, values.drop_last());
            let prev = Self::spec_with_bytes(s, start, values.drop_last());
            Self::lemma_spec_with(prev, start + values.len() - 1, values.last());
            assert(Self::spec_with_bytes(s, start, values)@ =~= s@.take(start) + values + s@.skip(
                start + values.len(),
            ));
        } else {
            assert(s@ =~= s@.take(start) + values + s@.skip(start + values.len()));
        }
    }

    /// Every segment holds exactly `N` bytes.
    pub proof fn lemma_len(&self)
        ensures
            self@.len() == N,
    {
    }

    /// A segment of `N` zero bytes.
    pub fn initialize() -> (r: Self)
        ensures
            r@ == Seq::new(N as nat, |i: int| 0u8),
    {
        let r = Self { data: [0u8; N] };
        assert(r@ =~= Seq::new(N as nat, |i: int| 0u8));
        r
    }

    /// Writes `values` starting at `address`.
    pub fn write_bytes(&mut self, address: usize, values: &[u8])
        requires
            address + values@.len() <= N,
        ensures
            *final(self) == Self::spec_with_bytes(*old(self), address as int, values@),
            final(self)@ == old(self)@.take(address as int) + values@ + old(self)@.skip(
                address + values@.len(),
            ),
    {
        let ghost start = self@;
        let mut i: usize = 0;
        while i < values.len()
            invariant
                i <= values@.len(),
                address + values@.len() <= N,
                self@.len() == N,
                start.len() == N,
                self@ =~= start.take(address as int) + values@.take(i as int) + start.skip(
                    address + i,
                ),
            decreases values@.len() - i,
        {
            self.write_byte(address + i, values[i]);
            i = i + 1;
            assert(self@ =~= start.take(address as int) + values@.take(i as int) + start.skip(
                address + i,
            ));
        }
        assert(values@.take(i as int) =~= values@);
        proof {
            Self::lemma_spec_with_bytes(*old(self), address as int, values@);
            Self::lemma_view_eq(*self, Self::spec_with_bytes(*old(self), address as int, values@));
        }
    }

    pub fn write_byte(&mut self, address: usize, value: u8)
        requires
            address < N,
        ensures
            *final(self) == Self::spec_with(*old(self), address as int, value),
            final(self)@ == old(self)@.update(address as int, value),
            // The byte written is read back; every other byte is kept.
            final(self)@[address as int] == value,
            forall|j: int| 0 <= j < N && j != address ==> #[trigger] final(self)@[j] == old(self)@[j],
    {
        self.data[address] = value;
        proof {
            Self::lemma_spec_with(*old(self), address as int, value);
            Self::lemma_view_eq(*self, Self::spec_with(*old(self), address as int, value));
        }
    }

    pub fn read_byte(&self, address: usize) -> (r: u8)
        requires
            address < N,
        ensures
            r == self@[address as int],
    {
        self.data[address]
    }
}

/// Reading a byte gives back what the last write at that address wrote, and
/// a write leaves every other byte as it was.
pub proof fn law_segment_read_after_write<const N: usize>(
    s: Segment<N>,
    address: int,
    value: u8,
    other: int,
)
    requires
        0 <= address < N,
        0 <= other < N,
        other != address,
    ensures
        s@.update(address, value)[address] == value,
        s@.update(address, value)[other] == s@[other],
        s@.update(address, value).len() == N,
{
    s.lemma_len();
}


/// What the CPU reaches besides memory: the PPU and the two controllers.
pub struct Bus {
    pub ppu: Ppu,
    pub controller_1: Controller,
    pub controller_2: Controller,
}

impl Bus {
    pub fn from(ppu: Ppu, controller_1: Controller, controller_2: Controller) -> (r: Self)
        ensures
            r.ppu == ppu,
            r.controller_1 == controller_1,
            r.controller_2 == controller_2,
    {
        Self { ppu, controller_1, controller_2 }
    }
}

/// The CPU's memory as plain values.
pub struct CpuMemoryModel {
    pub ram: Seq<u8>,
    pub lower_io: Seq<u8>,
    pub upper_memory: Seq<u8>,
    pub ppu: PpuModel,
    pub controller_1: Controller,
    pub controller_2: Controller,
}

/// The PPU register ($2000-$2007) that an address of $2000-$3FFF mirrors.
pub open spec fn ppu_register(address: u16) -> u16 {
    (0x2000 + (address - 0x2000) % 8) as u16
}

impl CpuMemoryModel {
    /// The byte that a CPU read of `address` returns.
    pub open spec fn read_value(self, address: u16) -> u8 {
        if address < 0x2000 {
            // RAM, mirrored every 2 KB
            self.ram[(address % 0x0800) as int]
        } else if address < 0x4000 {
            // PPU registers, mirrored every 8 bytes
            self.ppu.io_read_value(ppu_register(address))
        } else if address == 0x4016 {
            self.controller_1.read_value()
        } else if address == 0x4017 {
            self.controller_2.read_value()
        } else {
            self.upper_memory[address - 0x4000]
        }
    }

    /// The memory after a CPU read of `address` (reads of PPU registers and
    /// of the controllers have side effects).
    pub open spec fn after_read(self, address: u16) -> Self {
        if 0x2000 <= address < 0x4000 {
            CpuMemoryModel { ppu: self.ppu.after_io_read(ppu_register(address)), ..self }
        } else if address == 0x4016 {
            CpuMemoryModel { controller_1: self.controller_1.after_read(), ..self }
        } else if address == 0x4017 {
            CpuMemoryModel { controller_2: self.controller_2.after_read(), ..self }
        } else {
            self
        }
    }

    /// The 256 bytes of page `page` that an OAM DMA copies.
    pub open spec fn dma_bytes(self, page: u8) -> Seq<u8> {
        Seq::new(0x100, |i: int| self.read_value((page * 0x100 + i) as u16))
    }

    /// The memory after a CPU write of `value` to `address`.
    pub open spec fn after_write(self, address: u16, value: u8) -> Self {
        if address < 0x2000 {
            CpuMemoryModel { ram: self.ram.update((address % 0x0800) as int, value), ..self }
        } else if address < 0x4000 {
            CpuMemoryModel {
                lower_io: self.lower_io.update((address - 0x2000) % 8 as int, value),
                ppu: self.ppu.after_io_write(ppu_register(address), value),
                ..self
            }
        } else if address == 0x4014 {
            // OAM DMA from page `value`
            CpuMemoryModel {
                ppu: PpuModel {
                    memory: self.ppu.memory.after_oam_write(0, self.dma_bytes(value)),
                    dma_complete: true,
                    ..self.ppu
                },
                ..self
            }
        } else if address == 0x4016 {
            // Controller strobe
            CpuMemoryModel {
                controller_1: self.controller_1.after_strobe(value & 0x01 == 0x01),
                controller_2: self.controller_2.after_strobe(value & 0x01 == 0x01),
                ..self
            }
        } else if address < 0x4020 {
            self
        } else {
            CpuMemoryModel { upper_memory: self.upper_memory.update(address - 0x4000, value), ..self }
        }
    }

    /// The memory after writing `values` one by one from `address` on.
    pub open spec fn after_write_seq(self, address: int, values: Seq<u8>) -> Self
        decreases values.len(),
    {
        if values.len() == 0 {
            self
        } else {
            self.after_write_seq(address, values.drop_last()).after_write(
                (address + values.len() - 1) as u16,
                values.last(),
            )
        }
    }

    /// Writing bytes into cartridge space ($4020-$FFFF) replaces that range
    /// of it and leaves everything else as it was.
    pub proof fn lemma_write_seq_cartridge(self, address: int, values: Seq<u8>)
        requires
            0x4020 <= address,
            address + values.len() <= 0x10000,
            self.upper_memory.len() == 0xC000,
        ensures
            self.after_write_seq(address, values) == (CpuMemoryModel {
                upper_memory: self.upper_memory.take(address - 0x4000) + values
                    + self.upper_memory.skip(address - 0x4000 + values.len()),
                ..self
            }),
        decreases values.len(),
    {
        if values.len() == 0 {
            assert(self.upper_memory.take(address - 0x4000) + values + self.upper_memory.skip(
                address - 0x4000,
            ) =~= self.upper_memory);
        } else {
            let rest = values.drop_last();
            self.lemma_write_seq_cartridge(address, rest);
            let m = self.after_write_seq(address, rest);
            let a = (address + values.len() - 1) as u16;
            assert(m.after_write(a, values.last()).upper_memory =~= self.upper_memory.take(
                address - 0x4000,
            ) + values + self.upper_memory.skip(address - 0x4000 + values.len()));
        }
    }

    /// Two reads, of `lo_address` and then of `hi_address`, as a
    /// little-endian word, and the memory after them.
    pub open spec fn read_word(self, lo_address: u16, hi_address: u16) -> (u16, Self) {
        let lo = self.read_value(lo_address);
        let m1 = self.after_read(lo_address);
        let hi = m1.read_value(hi_address);
        ((lo + 256 * hi) as u16, m1.after_read(hi_address))
    }

    /// The little-endian word at `address` and `address + 1` of the zero page
    /// (wrapping within the zero page).
    pub open spec fn zero_page_word(self, address: u8) -> u16 {
        (self.read_value(address as u16) + 256 * self.read_value(
            vstd::wrapping::u8_specs::wrapping_add(address, 1) as u16,
        )) as u16
    }

    /// The address that follows `address` within its page.
    pub open spec fn next_in_page(address: u16) -> u16 {
        ((address & 0xFF00) + (vstd::wrapping::u8_specs::wrapping_add(address as u8, 1) as u16)) as u16
    }

    /// The sizes of the memory blocks.
    pub open spec fn sized(self) -> bool {
        &&& self.ram.len() == 0x0800
        &&& self.lower_io.len() == 0x0008
        &&& self.upper_memory.len() == 0xC000
        &&& self.ppu.valid()
    }
}

/// The CPU's memory map:
/// $0000-$1FFF RAM (2 KB, mirrored); $2000-$3FFF PPU registers (mirrored
/// every 8 bytes); $4000-$401F I/O (OAM DMA at $4014, controllers at
/// $4016/$4017); $4020-$FFFF cartridge space.
pub struct CpuMemory {
    pub ram: Segment<0x0800>,
    pub lower_io: Segment<0x0008>,
    pub upper_memory: Segment<0xC000>,
    pub bus: Bus,
}

impl View for CpuMemory {
    type V = CpuMemoryModel;

    open spec fn view(&self) -> CpuMemoryModel {
        CpuMemoryModel {
            ram: self.ram@,
            lower_io: self.lower_io@,
            upper_memory: self.upper_memory@,
            ppu: self.bus.ppu@,
            controller_1: self.bus.controller_1,
            controller_2: self.bus.controller_2,
        }
    }
}

impl CpuMemory {
    pub open spec fn wf(&self) -> bool {
        self.bus.ppu.wf()
    }

    pub proof fn lemma_view(&self)
        requires
            self.wf(),
        ensures
            self@.sized(),
    {
        self.ram.lemma_len();
        self.lower_io.lemma_len();
        self.upper_memory.lemma_len();
        self.bus.ppu.lemma_wf();
    }

    pub fn initialize(bus: Bus) -> (r: Self)
        requires
            bus.ppu.wf(),
        ensures
            r.wf(),
            r@.ram == Seq::new(0x0800, |i: int| 0u8),
            r@.lower_io == Seq::new(0x0008, |i: int| 0u8),
            r@.upper_memory == Seq::new(0xC000, |i: int| 0u8),
            r@.ppu == bus.ppu@,
            r@.controller_1 == bus.controller_1,
            r@.controller_2 == bus.controller_2,
    {
        Self {
            ram: Segment::<0x0800>::initialize(),
            lower_io: Segment::<0x0008>::initialize(),
            upper_memory: Segment::<0xC000>::initialize(),
            bus: bus,
        }
    }

    pub fn write_byte_to_stack(&mut self, sp: u8, value: u8)
        requires
            old(self).wf(),
        ensures
            final(self).wf(),
            final(self)@ == old(self)@.after_write((0x0100 + sp) as u16, value),
    {
        self.write_byte(0x0100 + (sp as u16), value);
    }

    pub fn read_byte_from_stack(&self, sp: u8) -> (r: u8)
        requires
            self.wf(),
        ensures
            r == self@.read_value((0x0100 + sp) as u16),
            self@.after_read((0x0100 + sp) as u16) == self@,
    {
        self.peek_byte(0x0100 + (sp as u16))
    }

    pub fn write_byte(&mut self, address: u16, value: u8)
        requires
            old(self).wf(),
        ensures
            final(self).wf(),
            final(self)@ == old(self)@.after_write(address, value),
    {
        proof {
            self.lemma_view();
        }
        if address < 0x2000 {
            // RAM
            let ram_address = address % 0x0800;
            self.ram.write_byte(ram_address as usize, value);
        } else if address < 0x4000 {
            // Lower I/O (PPU registers)
            let lower_io_address = (address - 0x2000) % 0x0008;
            self.lower_io.write_byte(lower_io_address as usize, value);
            // Pass the write on to the PPU.
            self.bus.ppu.write_io_register(0x2000 + lower_io_address, value);
        } else if address < 0x4020 {
            // Upper I/O
            let upper_io_address = address - 0x4000;

            // OAM DMA
            if upper_io_address == 0x0014 {
                let dma_bytes = self.get_dma_bytes(value);
                self.bus.ppu.dma(dma_bytes.as_slice());
            }
            // Controller strobes
            if upper_io_address == 0x0016 {
                if value & 0x01 == 0x01 {
                    self.bus.controller_1.strobe_high();
                    self.bus.controller_2.strobe_high();
                } else {
                    self.bus.controller_1.strobe_low();
                    self.bus.controller_2.strobe_low();
                }
            }
        } else {
            // Cartridge space
            self.upper_memory.write_byte((address - 0x4000) as usize, value);
        }
    }

    /// The 256 bytes at $XX00-$XXFF, for `address_hi` = XX (always
    /// page-aligned), read without side effects.
    fn get_dma_bytes(&self, address_hi: u8) -> (r: Vec<u8>)
        requires
            self.wf(),
        ensures
            r@ == self@.dma_bytes(address_hi),
    {
        let source_page = (address_hi as u16) * 256;
        let mut dma_bytes: Vec<u8> = Vec::with_capacity(0x100);
        let mut offset: u16 = 0;
        while offset < 0x0100
            invariant
                self.wf(),
                offset <= 0x100,
                source_page == address_hi * 256,
                dma_bytes@ == self@.dma_bytes(address_hi).take(offset as int),
            decreases 0x100 - offset,
        {
            dma_bytes.push(self.peek_byte(source_page + offset));
            offset = offset + 1;
            assert(dma_bytes@ =~= self@.dma_bytes(address_hi).take(offset as int));
        }
        assert(self@.dma_bytes(address_hi).take(0x100) =~= self@.dma_bytes(address_hi));
        dma_bytes
    }

    pub fn write_bytes(&mut self, address: u16, values: &[u8])
        requires
            old(self).wf(),
            address + values@.len() <= 0x10000,
        ensures
            final(self).wf(),
            final(self)@ == old(self)@.after_write_seq(address as int, values@),
    {
        let mut i: usize = 0;
        while i < values.len()
            invariant
                self.wf(),
                i <= values@.len(),
                address + values@.len() <= 0x10000,
                self@ == old(self)@.after_write_seq(address as int, values@.take(i as int)),
            decreases values@.len() - i,
        {
            self.write_byte(address + (i as u16), values[i]);
            proof {
                let t = values@.take(i + 1);
                assert(t.drop_last() =~= values@.take(i as int));
                assert(t.last() == values@[i as int]);
            }
            i = i + 1;
        }
        assert(values@.take(i as int) =~= values@);
    }

    /// The byte that a read of `address` would return, without the read's
    /// side effects.
    pub fn peek_byte(&self, address: u16) -> (r: u8)
        requires
            self.wf(),
        ensures
            r == self@.read_value(address),
    {
        proof {
            self.lemma_view();
        }
        if address < 0x2000 {
            self.ram.read_byte((address % 0x0800) as usize)
        } else if address < 0x4000 {
            self.bus.ppu.peek_io_register(0x2000 + (address - 0x2000) % 0x0008)
        } else if address == 0x4016 {
            if self.bus.controller_1.read_button(self.bus.controller_1.button()) { 0x01 } else { 0x00 }
        } else if address == 0x4017 {
            if self.bus.controller_2.read_button(self.bus.controller_2.button()) { 0x01 } else { 0x00 }
        } else {
            self.upper_memory.read_byte((address - 0x4000) as usize)
        }
    }

    pub fn read_byte(&mut self, address: u16) -> (r: u8)
        requires
            old(self).wf(),
        ensures
            final(self).wf(),
            r == old(self)@.read_value(address),
            final(self)@ == old(self)@.after_read(address),
    {
        proof {
            self.lemma_view();
        }
        if address < 0x2000 {
            // RAM
            let ram_address = address % 0x0800;
            self.ram.read_byte(ram_address as usize)
        } else if address < 0x4000 {
            // Lower I/O: the read goes to the PPU register (which may change
            // the PPU's state, e.g. clear the vblank flag).
            let lower_io_address = (address - 0x2000) % 0x0008;
            self.bus.ppu.read_io_register(0x2000 + lower_io_address)
        } else if address < 0x4020 {
            // Upper I/O
            let upper_io_address = address - 0x4000;

            // Controller 1
            if upper_io_address == 0x0016 {
                return self.bus.controller_1.read();
            }
            // Controller 2
            if upper_io_address == 0x0017 {
                return self.bus.controller_2.read();
            }
            self.upper_memory.read_byte(upper_io_address as usize)
        } else {
            self.upper_memory.read_byte((address - 0x4000) as usize)
        }
    }

    pub fn read_byte_zero_page(&self, address: u8) -> (r: u8)
        requires
            self.wf(),
        ensures
            r == self@.read_value(address as u16),
            self@.after_read(address as u16) == self@,
    {
        proof {
            self.lemma_view();
        }
        // This is within RAM.
        self.ram.read_byte(address as usize)
    }

    /// Reads two bytes as a little-endian word: `address` then the next
    /// address, wrapping around the whole address space.
    pub fn read_two_bytes(&mut self, address: u16) -> (r: u16)
        requires
            old(self).wf(),
        ensures
            final(self).wf(),
            (r, final(self)@) == old(self)@.read_word(address, address.wrapping_add(1)),
    {
        let lo = self.read_byte(address);
        let hi = self.read_byte(address.wrapping_add(1));
        (hi as u16) * 256 + (lo as u16)
    }

    /// Reads two bytes as a little-endian word: `address` then the next
    /// address within the same page (the 6502's indirect jump bug).
    pub fn read_two_bytes_wrapping_page(&mut self, address: u16) -> (r: u16)
        requires
            old(self).wf(),
        ensures
            final(self).wf(),
            (r, final(self)@) == old(self)@.read_word(address, CpuMemoryModel::next_in_page(address)),
    {
        proof {
            assert((address & 0xFF00) + 0xFF <= 0xFFFF) by (bit_vector);
        }
        let lo = self.read_byte(address);
        let hi = self.read_byte((address & 0xFF00) + ((address as u8).wrapping_add(1) as u16));
        (hi as u16) * 256 + (lo as u16)
    }

    /// Reads two bytes of the zero page as a little-endian word: `address`
    /// then the next address, wrapping within the zero page.
    pub fn read_two_bytes_zero_page(&self, address: u8) -> (r: u16)
        requires
            self.wf(),
        ensures
            r == self@.zero_page_word(address),
    {
        let lo = self.read_byte_zero_page(address);
        let hi = self.read_byte_zero_page(address.wrapping_add(1));
        (hi as u16) * 256 + (lo as u16)
    }
}

/// A write to RAM is read back at every mirror of its address (RAM repeats
/// every 2 KB across $0000-$1FFF), and leaves the rest of RAM as it was.
pub proof fn law_ram_mirroring(m: CpuMemoryModel, address: u16, other: u16, value: u8)
    requires
        m.sized(),
        address < 0x2000,
        other < 0x2000,
    ensures
        other % 0x800 == address % 0x800 ==> m.after_write(address, value).read_value(other) == value,
        other % 0x800 != address % 0x800 ==> m.after_write(address, value).read_value(other)
            == m.read_value(other),
{
}

/// A write to cartridge space ($4020-$FFFF) is read back, and leaves every
/// other address of cartridge space as it was.
pub proof fn law_cartridge_read_after_write(m: CpuMemoryModel, address: u16, other: u16, value: u8)
    requires
        m.sized(),
        0x4020 <= address,
        0x4020 <= other,
    ensures
        m.after_write(address, value).read_value(address) == value,
        other != address ==> m.after_write(address, value).read_value(other) == m.read_value(other),
{
}

/// $2000-$3FFF repeat the eight PPU registers: a read or a write of any
/// mirror acts as one of the register it mirrors.
pub proof fn law_ppu_register_mirroring(m: CpuMemoryModel, address: u16, value: u8)
    requires
        0x2000 <= address < 0x4000,
    ensures
        m.read_value(address) == m.read_value(ppu_register(address)),
        m.after_read(address) == m.after_read(ppu_register(address)),
        m.after_write(address, value) == m.after_write(ppu_register(address), value),
{
}

/// A write of page number XX to $4014 copies the 256 bytes read at
/// $XX00-$XXFF into sprite memory and flags the DMA.
pub proof fn law_oam_dma(m: CpuMemoryModel, page: u8)
    requires
        m.sized(),
    ensures
        m.after_write(0x4014, page).ppu.memory.oam_bytes() == m.dma_bytes(page),
        m.after_write(0x4014, page).ppu.dma_complete,
{
    m.ppu.memory.lemma_sizes();
    m.ppu.memory.lemma_after_oam_write(0, m.dma_bytes(page));
    assert(m.ppu.memory.oam_bytes().take(0) + m.dma_bytes(page) + m.ppu.memory.oam_bytes().skip(0x100)
        =~= m.dma_bytes(page));
}

} // verus!
