use rusty_raven::cpu::Cpu;
use rusty_raven::processor_status::ProcessorStatus;

#[test]
fn push_then_pull_gives_the_byte_back() {
    let mut cpu = Cpu::initialize();
    cpu.push_stack(0x5A);
    assert_eq!(cpu.sp, 0xFC);
    assert_eq!(cpu.pull_stack(), 0x5A);
    assert_eq!(cpu.sp, 0xFD);
    // The stack pointer wraps within page 1.
    cpu.sp = 0x00;
    cpu.push_stack(0x11);
    assert_eq!(cpu.sp, 0xFF);
    assert_eq!(cpu.memory.read_byte(0x0100), 0x11);
    assert_eq!(cpu.pull_stack(), 0x11);
    assert_eq!(cpu.sp, 0x00);
}

#[test]
fn brk_then_rti_resumes_after_the_padding_byte() {
    let mut cpu = Cpu::initialize();
    cpu.pc = 0x0200;
    cpu.processor_status = ProcessorStatus::from(0x81);
    // BRK at $0200; the handler at $0300 is a lone RTI.
    cpu.memory.write_bytes(0x0200, &[0x00, 0xEA]);
    cpu.memory.write_byte(0x0300, 0x40);
    cpu.fetch_instruction_and_execute();
    // This emulator's BRK does not jump through a vector: point the PC at the handler.
    cpu.pc = 0x0300;
    cpu.fetch_instruction_and_execute();
    assert_eq!(cpu.pc, 0x0202);
    assert_eq!(cpu.sp, 0xFD);
    // B is cleared and bit 5 set.
    assert_eq!(cpu.processor_status.into(), 0xA1);
}

#[test]
fn nmi_is_taken_after_its_latency_and_rti_returns() {
    let mut cpu = Cpu::initialize();
    // NMI vector -> $0400, which holds RTI; the program is NOPs from $0000.
    cpu.memory.write_bytes(0xFFFA, &[0x00, 0x04]);
    cpu.memory.write_byte(0x0400, 0x40);
    for address in 0x0000..0x0010u16 {
        cpu.memory.write_byte(address, 0xEA);
    }
    cpu.set_nmi();
    let mut pcs = Vec::new();
    for _ in 0..40 {
        if cpu.execute_cycles_for_one_instruction() {
            pcs.push(cpu.pc);
            if cpu.pc == 0x0400 {
                // Interrupts are disabled in the handler.
                assert!(cpu.processor_status.is_interrupt());
            }
        }
    }
    // Four NOPs (2 cycles each) cover the 7-cycle latency: after the fourth
    // the NMI is taken, and the RTI comes back to $0004.
    assert_eq!(&pcs[..6], &[0x0001, 0x0002, 0x0003, 0x0400, 0x0004, 0x0005]);
    // RTI restored the status (with bit 5 set).
    assert!(!cpu.processor_status.is_interrupt());
}

#[test]
fn adc_sets_carry_and_overflow() {
    let mut cpu = Cpu::initialize();
    // 0x50 + 0x50 = 0xA0: signed overflow, no carry.
    cpu.a = 0x50;
    cpu.memory.write_bytes(0x00, &[0x69, 0x50, 0x69, 0x70]);
    cpu.fetch_instruction_and_execute();
    assert_eq!(cpu.a, 0xA0);
    assert!(cpu.processor_status.is_overflow());
    assert!(!cpu.processor_status.is_carry());
    assert!(cpu.processor_status.is_negative());
    // 0xA0 + 0x70 = 0x110: carry, no signed overflow.
    cpu.fetch_instruction_and_execute();
    assert_eq!(cpu.a, 0x10);
    assert!(!cpu.processor_status.is_overflow());
    assert!(cpu.processor_status.is_carry());
}

#[test]
fn adc_overflow_rule_at_zero() {
    // The emulator's overflow rule reports V for 0 + 0 + C = 1.
    let mut cpu = Cpu::initialize();
    cpu.processor_status = ProcessorStatus::initialize().set_carry();
    cpu.memory.write_bytes(0x00, &[0x69, 0x00]);
    cpu.fetch_instruction_and_execute();
    assert_eq!(cpu.a, 0x01);
    assert!(cpu.processor_status.is_overflow());
}

#[test]
fn sbc_with_carry_set_borrows() {
    let mut cpu = Cpu::initialize();
    cpu.a = 0x05;
    cpu.processor_status = ProcessorStatus::initialize().set_carry();
    cpu.memory.write_bytes(0x00, &[0xE9, 0x03, 0xE9, 0x03]);
    cpu.fetch_instruction_and_execute();
    assert_eq!(cpu.a, 0x02);
    assert!(cpu.processor_status.is_carry());
    cpu.fetch_instruction_and_execute();
    assert_eq!(cpu.a, 0xFF);
    assert!(!cpu.processor_status.is_carry());
    assert!(cpu.processor_status.is_negative());
}

#[test]
fn fetch_moves_the_pc_past_each_operand_length() {
    let mut cpu = Cpu::initialize();
    // NOP; LDA #$01; LDA $0010; LDA $1234,X
    cpu.memory.write_bytes(0x00, &[0xEA, 0xA9, 0x01, 0xA5, 0x10, 0xBD, 0x34, 0x12]);
    let expected_pcs = [0x0001u16, 0x0003, 0x0005, 0x0008];
    for expected in expected_pcs {
        cpu.fetch_instruction();
        assert_eq!(cpu.pc, expected);
    }
}

#[test]
fn page_crossing_costs_a_cycle() {
    let mut cpu = Cpu::initialize();
    cpu.x = 0x01;
    // LDA $12FF,X crosses into $1300; LDA $1200,X does not.
    cpu.memory.write_bytes(0x00, &[0xBD, 0xFF, 0x12, 0xBD, 0x00, 0x12]);
    assert_eq!(cpu.fetch_instruction_and_execute(), 5);
    assert_eq!(cpu.fetch_instruction_and_execute(), 4);
}
