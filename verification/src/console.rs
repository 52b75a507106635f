use vstd::prelude::*;
use crate::cpu::{decode, Cpu, CpuModel, Nmi, RESET_ADDRESS};
use crate::memory::CpuMemoryModel;
use crate::ppu::{Pixel, PpuMemory, PpuModel};
use crate::rom::NesRom;

verus! {

/// CPU cycles that an OAM DMA stalls the CPU for.
pub const DMA_CPU_CYCLE_COUNT: i32 = 512;

/// Why the emulation cannot go on.
#[derive(Debug, Clone, Copy, PartialEq, Eq, Structural)]
pub enum EmulationError {
    /// The next instruction's opcode byte is not implemented.
    UnknownOpcode(u8),
    /// The cycle count or the cycle budget would leave its range.
    CounterOverflow,
    /// The PPU would draw with a backdrop color outside the 64 system colors.
    BackdropColorOutOfRange,
}

/// CPU memory $4000-$FFFF after loading PRG-ROM: the image at $8000, and a
/// single 16 KB bank again at $C000.
pub open spec fn cartridge_space(prg: Seq<u8>) -> Seq<u8> {
    Seq::new(
        0xC000,
        |i: int|
            if 0x4000 <= i < 0x4000 + prg.len() {
                prg[i - 0x4000]
            } else if prg.len() == 0x4000 && 0x8000 <= i {
                prg[i - 0x8000]
            } else {
                0u8
            },
    )
}

/// The PPU after one of its cycles within a system cycle.
pub open spec fn ppu_cycles(p: PpuModel, n: nat) -> PpuModel
    decreases n,
{
    if n == 0 {
        p
    } else {
        ppu_cycles(p, (n - 1) as nat).after_cycle()
    }
}

/// The CPU with its memory's PPU replaced.
pub open spec fn with_ppu(c: CpuModel, p: PpuModel) -> CpuModel {
    CpuModel { memory: CpuMemoryModel { ppu: p, ..c.memory }, ..c }
}

/// The first check that stops a system cycle, if any: the CPU's counters and
/// the next opcode, then the backdrop color before each of the three PPU
/// cycles, then the budget for a DMA stall.
pub open spec fn run_error(m: CpuModel) -> Option<EmulationError> {
    let runs = m.cycle_budget + 1 >= 0;
    if m.cycle_budget == i32::MAX || (runs && m.cycle_count + 7 > usize::MAX) {
        Some(EmulationError::CounterOverflow)
    } else if runs && !m.opcode_known() {
        Some(EmulationError::UnknownOpcode(m.memory.read_value(m.pc)))
    } else {
        let c = m.cycle().0;
        let p = c.memory.ppu;
        if !p.cycle_ok() || !ppu_cycles(p, 1).cycle_ok() || !ppu_cycles(p, 2).cycle_ok() {
            Some(EmulationError::BackdropColorOutOfRange)
        } else if ppu_cycles(p, 3).dma_complete && c.cycle_budget < i32::MIN + DMA_CPU_CYCLE_COUNT {
            Some(EmulationError::CounterOverflow)
        } else {
            None
        }
    }
}

/// One system cycle: a CPU step (`Cpu::execute_cycles_for_one_instruction`),
/// three PPU cycles, an NMI scheduled when the PPU asks for one, the CPU
/// stalled after a DMA, and the finished image handed out if there is one.
pub open spec fn system_cycle(m: CpuModel) -> (CpuModel, Option<Seq<Pixel>>) {
    let c = m.cycle().0;
    let p = ppu_cycles(c.memory.ppu, 3);
    let c1 = with_ppu(c, p);
    let c2 = if p.nmi && p.vblank {
        CpuModel { nmi: Nmi::CycleLatency(7), ..c1 }
    } else {
        c1
    };
    let c3 = if p.dma_complete {
        CpuModel {
            cycle_budget: (c2.cycle_budget - DMA_CPU_CYCLE_COUNT) as i32,
            ..with_ppu(c2, PpuModel { dma_complete: false, ..p })
        }
    } else {
        c2
    };
    let q = c3.memory.ppu;
    (with_ppu(c3, PpuModel { ready: false, ..q }), q.image())
}

/// A CPU at power-up with a cartridge loaded: PRG-ROM at $8000 (and a single
/// 16 KB bank mirrored at $C000), CHR-ROM in the pattern tables, the PC taken
/// from the reset vector at $FFFC, and the 7 cycles of the reset counted.
pub fn power_on(rom: &NesRom) -> (r: Cpu)
    requires
        rom.prg_rom_data@.len() <= 0x8000,
        rom.chr_rom_data@.len() <= 0x10000,
    ensures
        r.wf(),
        r@.memory.ram == Seq::new(0x0800, |i: int| 0u8),
        r@.memory.lower_io == Seq::new(0x0008, |i: int| 0u8),
        r@.memory.upper_memory == cartridge_space(rom.prg_rom_data@),
        r@.memory.controller_1.is_power_up(),
        r@.memory.controller_2.is_power_up(),
        r@.memory.ppu.registers_at_power_up(),
        r@.memory.ppu.memory.arrangement() == rom.name_table_arrangement,
        // CHR-ROM is written from PPU address $0000 on into the zeroed PPU memory.
        exists|m0: PpuMemory|
            #[trigger] m0.is_power_up(rom.name_table_arrangement) && r@.memory.ppu.memory
                == m0.after_write_seq(0, rom.chr_rom_data@),
        // CHR-ROM of 8 KB or less fills the start of the pattern tables.
        rom.chr_rom_data@.len() <= 0x2000 ==> {
            &&& r@.memory.ppu.memory.chr_bytes() == rom.chr_rom_data@ + Seq::new(
                (0x2000 - rom.chr_rom_data@.len()) as nat,
                |i: int| 0u8,
            )
            &&& r@.memory.ppu.memory.name_table_bytes() == Seq::new(0x1000, |i: int| 0u8)
            &&& r@.memory.ppu.memory.palette_bytes() == Seq::new(0x40, |i: int| 0u8)
            &&& r@.memory.ppu.memory.oam_bytes() == Seq::new(0x100, |i: int| 0u8)
        },
        r@.pc == cartridge_space(rom.prg_rom_data@)[0xBFFC] + 256 * cartridge_space(
            rom.prg_rom_data@,
        )[0xBFFD],
        r@.status == 0,
        r@.sp == 0xFD,
        r@.a == 0 && r@.x == 0 && r@.y == 0,
        r@.cycle_count == 7,
        r@.cycle_budget == 0,
        r@.nmi == Nmi::Idle,
{
    let mut cpu = Cpu::for_arrangement(rom.name_table_arrangement);
    let ghost m0 = cpu@.memory;
    proof {
        cpu.memory.lemma_view();
        m0.lemma_write_seq_cartridge(0x8000, rom.prg_rom_data@);
    }
    cpu.memory.write_bytes(0x8000, rom.prg_rom_data.as_slice());
    // A single 16 KB bank is mirrored into the upper bank as well.
    if rom.prg_rom_data.len() == 0x4000 {
        proof {
            cpu.memory.lemma_view();
            cpu@.memory.lemma_write_seq_cartridge(0xC000, rom.prg_rom_data@);
        }
        cpu.memory.write_bytes(0xC000, rom.prg_rom_data.as_slice());
    }
    assert(cpu@.memory.upper_memory =~= cartridge_space(rom.prg_rom_data@));
    let ghost p0 = cpu@.memory.ppu.memory;
    cpu.memory.bus.ppu.write_chr_rom_data(rom.chr_rom_data.as_slice());
    proof {
        assert(p0.is_power_up(rom.name_table_arrangement));
        p0.lemma_write_seq_arrangement(0, rom.chr_rom_data@);
        if rom.chr_rom_data@.len() <= 0x2000 {
            p0.lemma_write_seq_chr(rom.chr_rom_data@);
            assert(rom.chr_rom_data@ + p0.chr_bytes().skip(rom.chr_rom_data@.len() as int)
                =~= rom.chr_rom_data@ + Seq::new(
                (0x2000 - rom.chr_rom_data@.len()) as nat,
                |i: int| 0u8,
            ));
        }
    }
    // The reset vector.
    cpu.pc = cpu.memory.read_two_bytes(RESET_ADDRESS);
    cpu.cycle_count = 7;
    cpu
}

/// Runs one system cycle (see `system_cycle`), or reports the check of
/// `run_error` that stops it.
#[verifier::rlimit(40)]
pub fn run_cycle(cpu: &mut Cpu) -> (r: Result<Option<Vec<Pixel>>, EmulationError>)
    requires
        old(cpu).wf(),
    ensures
        final(cpu).wf(),
        r is Err <==> run_error(old(cpu)@) is Some,
        r matches Err(e) ==> run_error(old(cpu)@) == Some(e),
        r is Ok ==> final(cpu)@ == system_cycle(old(cpu)@).0,
        r matches Ok(Some(image)) ==> system_cycle(old(cpu)@).1 == Some(image@),
        r matches Ok(None) ==> system_cycle(old(cpu)@).1 is None,
{
    let ghost m = cpu@;
    let runs = cpu.cycle_budget >= -1;
    if cpu.cycle_budget == i32::MAX || (runs && cpu.cycle_count > usize::MAX - 7) {
        return Err(EmulationError::CounterOverflow);
    }
    if runs {
        let opcode_byte = cpu.memory.peek_byte(cpu.pc);
        if decode(opcode_byte).is_none() {
            return Err(EmulationError::UnknownOpcode(opcode_byte));
        }
    }
    cpu.execute_cycles_for_one_instruction();
    let ghost c = cpu@;
    let ghost p = c.memory.ppu;
    // Three PPU cycles for each CPU cycle.
    if !cpu.memory.bus.ppu.can_execute_cycle() {
        return Err(EmulationError::BackdropColorOutOfRange);
    }
    cpu.memory.bus.ppu.execute_cycle();
    assert(ppu_cycles(p, 0) == p);
    assert(ppu_cycles(p, 1) == p.after_cycle());
    if !cpu.memory.bus.ppu.can_execute_cycle() {
        return Err(EmulationError::BackdropColorOutOfRange);
    }
    cpu.memory.bus.ppu.execute_cycle();
    assert(ppu_cycles(p, 2) == ppu_cycles(p, 1).after_cycle());
    if !cpu.memory.bus.ppu.can_execute_cycle() {
        return Err(EmulationError::BackdropColorOutOfRange);
    }
    cpu.memory.bus.ppu.execute_cycle();
    assert(ppu_cycles(p, 3) == ppu_cycles(p, 2).after_cycle());
    assert(cpu@ == with_ppu(c, ppu_cycles(p, 3)));
    // An NMI when the PPU asks for one.
    if cpu.memory.bus.ppu.nmi() {
        cpu.set_nmi();
    }
    // A DMA stalls the CPU.
    if cpu.memory.bus.ppu.dma_flag() {
        if cpu.cycle_budget < i32::MIN + DMA_CPU_CYCLE_COUNT {
            return Err(EmulationError::CounterOverflow);
        }
        cpu.cycle_budget = cpu.cycle_budget - DMA_CPU_CYCLE_COUNT;
    }
    Ok(cpu.memory.bus.ppu.get_image())
}

} // verus!
