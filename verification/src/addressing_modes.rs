use vstd::prelude::*;
use crate::cpu::{Cpu, CpuModel};
use crate::memory::CpuMemoryModel;

verus! {

/// The operand of an instruction, as fetched after its opcode.
#[derive(Debug, Clone, Copy, PartialEq, Eq, Structural)]
pub enum AddressingMode {
    Implied,  // No data to fill in
    Immediate(u8),  // *($PC)
    Absolute(u16),  // *($HHLL)
    ZeroPage(u8),  // *($00LL)
    IndexedX(u16),  // *($HHLL + X)
    IndexedY(u16),  // *($HHLL + Y)
    IndexedZeroPageX(u8),  // *($00LL + X)
    IndexedZeroPageY(u8),  // *($00LL + Y)
    Indirect(u16),  // **($HHLL)
    IndirectZeroPageX(u8),  // **($00LL + X)
    IndirectZeroPageY(u8),  // *(*($00LL) + Y)
    Relative(u8),  // (data to be used as an offset for branches)
}

#[derive(Debug, PartialEq, Eq, Structural, Clone, Copy)]
pub enum PageBoundaryResult {
    Irrelevant,
    SamePage,
    PageBoundaryCrossed,
}

#[derive(Copy, Clone, Debug, PartialEq, Eq, Structural)]
pub enum AddressingModeData {
    Implied,
    Data(u8),  // The operand itself (immediate or relative modes)
    Address(u16),  // The address of the operand
}

impl AddressingModeData {
    pub fn as_data(self) -> (r: Option<u8>)
        ensures
            r == (match self {
                AddressingModeData::Data(d) => Some(d),
                _ => None,
            }),
    {
        if let AddressingModeData::Data(data) = self {
            Some(data)
        } else {
            None
        }
    }

    pub fn as_address(self) -> (r: Option<u16>)
        ensures
            r == (match self {
                AddressingModeData::Address(a) => Some(a),
                _ => None,
            }),
    {
        if let AddressingModeData::Address(address) = self {
            Some(address)
        } else {
            None
        }
    }
}

/// `SamePage`, or `PageBoundaryCrossed` when adding `index` to the low byte
/// `low` carries into the high byte.
pub open spec fn page_result(low: u8, index: u8) -> PageBoundaryResult {
    if low + index > 255 {
        PageBoundaryResult::PageBoundaryCrossed
    } else {
        PageBoundaryResult::SamePage
    }
}

fn page_boundary_result(low: u8, index: u8) -> (r: PageBoundaryResult)
    ensures
        r == page_result(low, index),
{
    if low.checked_add(index).is_none() {
        PageBoundaryResult::PageBoundaryCrossed
    } else {
        PageBoundaryResult::SamePage
    }
}

impl AddressingMode {
    /// The operand (data or address), the page boundary result, and the CPU
    /// after resolving this mode; measured with the PC at the next instruction.
    pub open spec fn resolve(self, cpu: CpuModel) -> (AddressingModeData, PageBoundaryResult, CpuModel) {
        match self {
            AddressingMode::Implied => (AddressingModeData::Implied, PageBoundaryResult::Irrelevant, cpu),
            AddressingMode::Immediate(d) => (AddressingModeData::Data(d), PageBoundaryResult::Irrelevant, cpu),
            AddressingMode::Absolute(address) => (
                AddressingModeData::Address(address),
                PageBoundaryResult::Irrelevant,
                cpu,
            ),
            AddressingMode::ZeroPage(address) => (
                AddressingModeData::Address(address as u16),
                PageBoundaryResult::Irrelevant,
                cpu,
            ),
            AddressingMode::IndexedX(address) => (
                AddressingModeData::Address(vstd::wrapping::u16_specs::wrapping_add(address, cpu.x as u16)),
                page_result(address as u8, cpu.x),
                cpu,
            ),
            AddressingMode::IndexedY(address) => (
                AddressingModeData::Address(vstd::wrapping::u16_specs::wrapping_add(address, cpu.y as u16)),
                page_result(address as u8, cpu.y),
                cpu,
            ),
            AddressingMode::IndexedZeroPageX(address) => (
                AddressingModeData::Address(vstd::wrapping::u8_specs::wrapping_add(address, cpu.x) as u16),
                PageBoundaryResult::Irrelevant,
                cpu,
            ),
            AddressingMode::IndexedZeroPageY(address) => (
                AddressingModeData::Address(vstd::wrapping::u8_specs::wrapping_add(address, cpu.y) as u16),
                PageBoundaryResult::Irrelevant,
                cpu,
            ),
            AddressingMode::Indirect(address) => {
                let (ptr_address, memory) = cpu.memory.read_word(
                    address,
                    CpuMemoryModel::next_in_page(address),
                );
                (
                    AddressingModeData::Address(ptr_address),
                    PageBoundaryResult::Irrelevant,
                    CpuModel { memory, ..cpu },
                )
            },
            AddressingMode::IndirectZeroPageX(address) => {
                let z = vstd::wrapping::u8_specs::wrapping_add(address, cpu.x);
                (
                    AddressingModeData::Address(cpu.memory.zero_page_word(z)),
                    PageBoundaryResult::Irrelevant,
                    cpu,
                )
            },
            AddressingMode::IndirectZeroPageY(address) => {
                let ptr_address = cpu.memory.zero_page_word(address);
                (
                    AddressingModeData::Address(
                        vstd::wrapping::u16_specs::wrapping_add(ptr_address, cpu.y as u16),
                    ),
                    page_result(ptr_address as u8, cpu.y),
                    cpu,
                )
            },
            AddressingMode::Relative(offset) => (
                AddressingModeData::Data(offset),
                page_result(cpu.pc as u8, offset),
                cpu,
            ),
        }
    }

    /// Resolves the mode to data or an address, and tells whether an index
    /// crossed a page boundary. This is measured with the PC set to the
    /// *next* instruction.
    pub fn into_data(self, cpu: &mut Cpu) -> (r: (AddressingModeData, PageBoundaryResult))
        requires
            old(cpu).wf(),
        ensures
            final(cpu).wf(),
            (r.0, r.1, final(cpu)@) == self.resolve(old(cpu)@),
    {
        match self {
            Self::Implied => (AddressingModeData::Implied, PageBoundaryResult::Irrelevant),
            Self::Immediate(d) => (AddressingModeData::Data(d), PageBoundaryResult::Irrelevant),
            Self::Absolute(address) => (AddressingModeData::Address(address), PageBoundaryResult::Irrelevant),
            Self::ZeroPage(address) => (
                AddressingModeData::Address(address as u16),
                PageBoundaryResult::Irrelevant,
            ),
            Self::IndexedX(address) => {
                let pbr = page_boundary_result(address as u8, cpu.x);
                let final_address = address.wrapping_add(cpu.x as u16);
                (AddressingModeData::Address(final_address), pbr)
            },
            Self::IndexedY(address) => {
                let pbr = page_boundary_result(address as u8, cpu.y);
                let final_address = address.wrapping_add(cpu.y as u16);
                (AddressingModeData::Address(final_address), pbr)
            },
            Self::IndexedZeroPageX(address) => {
                let final_address = address.wrapping_add(cpu.x);
                (AddressingModeData::Address(final_address as u16), PageBoundaryResult::Irrelevant)
            },
            Self::IndexedZeroPageY(address) => {
                let final_address = address.wrapping_add(cpu.y);
                (AddressingModeData::Address(final_address as u16), PageBoundaryResult::Irrelevant)
            },
            Self::Indirect(address) => {
                let ptr_address = cpu.memory.read_two_bytes_wrapping_page(address);
                (AddressingModeData::Address(ptr_address), PageBoundaryResult::Irrelevant)
            },
            Self::IndirectZeroPageX(address) => {
                let ptr_address = cpu.memory.read_two_bytes_zero_page(address.wrapping_add(cpu.x));
                (AddressingModeData::Address(ptr_address), PageBoundaryResult::Irrelevant)
            },
            Self::IndirectZeroPageY(address) => {
                let ptr_address = cpu.memory.read_two_bytes_zero_page(address);
                let pbr = page_boundary_result(ptr_address as u8, cpu.y);
                let ptr_address = ptr_address.wrapping_add(cpu.y as u16);
                (AddressingModeData::Address(ptr_address), pbr)
            },
            Self::Relative(offset) => {
                // Would PC + offset carry into the high byte?
                let pbr = page_boundary_result(cpu.pc as u8, offset);
                (AddressingModeData::Data(offset), pbr)
            },
        }
    }
}

} // verus!
