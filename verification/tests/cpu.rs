use rusty_raven::cpu::Cpu;
use rusty_raven::processor_status::ProcessorStatus;

#[test]
fn test_adc() {
    let mut cpu = Cpu::initialize();
    cpu.a = 0x03F;
    cpu.processor_status = ProcessorStatus::initialize().set_carry();
    cpu.memory.write_bytes(0x00, &[0x69, 0x02]);
    cpu.fetch_instruction_and_execute();

    assert_eq!(0x42, cpu.a);
    assert_eq!(0x02, cpu.pc);
    assert!(!cpu.processor_status.is_overflow());
    assert!(!cpu.processor_status.is_negative());
    assert!(!cpu.processor_status.is_zero());
    assert!(!cpu.processor_status.is_carry());
}

#[test]
fn test_and() {
    let mut cpu = Cpu::initialize();
    cpu.a = 0xFF;
    cpu.memory.write_bytes(0x00, &[0x29, 0x42]);
    cpu.fetch_instruction_and_execute();

    assert_eq!(0x42, cpu.a);
    assert_eq!(0x02, cpu.pc);
    assert!(!cpu.processor_status.is_negative());
    assert!(!cpu.processor_status.is_zero());
}

#[test]
fn test_asl() {
    let mut cpu = Cpu::initialize();
    cpu.a = 0x80;
    cpu.memory.write_bytes(0x00, &[0x0A, 0x06, 0x42]);
    cpu.memory.write_byte(0x0042, 0x40);

    // One instruction should just left shift A and set the carry.
    cpu.fetch_instruction_and_execute();

    assert_eq!(0x01, cpu.pc);
    assert_eq!(0x00, cpu.a);
    assert!(!cpu.processor_status.is_negative());
    assert!(cpu.processor_status.is_zero());
    assert!(cpu.processor_status.is_carry());

    // Now we'll left shift a value directly on the zero page at 0x42.
    cpu.fetch_instruction_and_execute();

    assert_eq!(0x03, cpu.pc);
    assert_eq!(0x00, cpu.a);
    assert_eq!(0x80, cpu.memory.read_byte(0x0042));
    assert!(cpu.processor_status.is_negative());
    assert!(!cpu.processor_status.is_zero());
    assert!(!cpu.processor_status.is_carry());
}

#[test]
fn test_bcc_and_bcs() {
    let mut cpu = Cpu::initialize();
    cpu.memory.write_bytes(0x00, &[0x90, 0x40]);
    cpu.memory.write_bytes(0x0042, &[0xB0, 0xFF, 0xB0, 0xFF]);

    // One instruction should just branch the CPU to address 0x0042.
    // Cycles should be 3 because we branched.
    cpu.fetch_instruction_and_execute();

    assert_eq!(0x0042, cpu.pc);
    assert_eq!(3, cpu.cycle_count);
    cpu.fetch_instruction_and_execute();
    cpu.processor_status = cpu.processor_status.set_carry();
    cpu.fetch_instruction_and_execute();

    assert_eq!(0x0046 + 0x00FF, cpu.pc);
    assert_eq!(3 + 2 + 4, cpu.cycle_count);
    // After fetching two more we will have *not* branched once and then branched
    // after the carry was set.
}


#[test]
fn test_bit() {
    let mut cpu = Cpu::initialize();
    cpu.a = 0x0F;
    cpu.memory.write_bytes(0x00, &[0x24, 0x42]);
    cpu.memory.write_byte(0x0042, 0xF0);

    cpu.fetch_instruction_and_execute();
    assert!(cpu.processor_status.is_overflow());
    assert!(cpu.processor_status.is_negative());
    assert!(cpu.processor_status.is_zero());
    assert_eq!(3, cpu.cycle_count);
}

#[test]
fn test_break() {
    let mut cpu = Cpu::initialize();
    cpu.processor_status = ProcessorStatus::from(0x42);
    cpu.fetch_instruction_and_execute();

    // Now we should have pushed our PC and the processor status to the stack.
    assert_eq!(0x01, cpu.pc);
    assert!(cpu.processor_status.is_break());
    assert_eq!(7, cpu.cycle_count);
    assert_eq!(0xFA, cpu.sp);
    assert_eq!(0x00, cpu.memory.read_byte(0x01FD));
    assert_eq!(0x02, cpu.memory.read_byte(0x01FC));
    assert_eq!(0x72, cpu.memory.read_byte(0x01FB));
}

#[test]
fn test_cmp() {
    let mut cpu = Cpu::initialize();
    cpu.a = 0x42;
    cpu.memory.write_bytes(0x00, &[0xC9, 0x43, 0xC9, 0x42, 0xC9, 0x41]);

    cpu.fetch_instruction_and_execute();
    assert!(cpu.processor_status.is_negative());
    assert!(!cpu.processor_status.is_zero());
    assert!(!cpu.processor_status.is_carry());

    cpu.fetch_instruction_and_execute();
    assert!(!cpu.processor_status.is_negative());
    assert!(cpu.processor_status.is_zero());
    assert!(cpu.processor_status.is_carry());

    cpu.fetch_instruction_and_execute();
    assert!(!cpu.processor_status.is_negative());
    assert!(!cpu.processor_status.is_zero());
    assert!(cpu.processor_status.is_carry());
}

#[test]
fn test_dec() {
    let mut cpu = Cpu::initialize();
    // We'll decrement three times (the last one will be using the absolute addressing mode)
    cpu.memory.write_bytes(0x00, &[0xC6, 0x42, 0xC6, 0x42, 0xCE, 0x42, 0x00]);
    cpu.memory.write_byte(0x42, 0x02);

    cpu.fetch_instruction_and_execute();
    assert!(!cpu.processor_status.is_negative());
    assert!(!cpu.processor_status.is_zero());
    assert_eq!(cpu.memory.read_byte(0x0042), 0x01);
    assert_eq!(5, cpu.cycle_count);

    cpu.fetch_instruction_and_execute();
    assert!(!cpu.processor_status.is_negative());
    assert!(cpu.processor_status.is_zero());
    assert_eq!(cpu.memory.read_byte(0x0042), 0x00);
    assert_eq!(10, cpu.cycle_count);

    cpu.fetch_instruction_and_execute();
    assert!(cpu.processor_status.is_negative());
    assert!(!cpu.processor_status.is_zero());
    assert_eq!(cpu.memory.read_byte(0x0042), 0xFF);
    assert_eq!(16, cpu.cycle_count);
}

#[test]
fn test_jmp() {
    let mut cpu = Cpu::initialize();
    cpu.memory.write_bytes(0x00, &[0x4C, 0x34, 0x12]);

    cpu.fetch_instruction_and_execute();
    assert_eq!(cpu.pc, 0x1234);
    assert_eq!(3, cpu.cycle_count);
}

#[test]
fn test_jmp_indirect() {
    let mut cpu = Cpu::initialize();
    cpu.memory.write_bytes(0x00, &[0x6C, 0xFF, 0x11]);
    cpu.memory.write_byte(0x11FF, 0x34);
    cpu.memory.write_byte(0x1100, 0x12);
    cpu.fetch_instruction_and_execute();

    assert_eq!(cpu.pc, 0x1234);
    assert_eq!(5, cpu.cycle_count);
}


#[test]
fn test_jsr() {
    let mut cpu = Cpu::initialize();
    cpu.pc = 0x1234;
    cpu.memory.write_bytes(0x1234, &[0x20, 0xEF, 0xBE]);

    cpu.fetch_instruction_and_execute();
    assert_eq!(cpu.pc, 0xBEEF);
    assert_eq!(cpu.cycle_count, 6);
    // Reading directly from the stack
    assert_eq!(0x12, cpu.memory.read_byte(0x01FD));
    assert_eq!(0x36, cpu.memory.read_byte(0x01FC));
}

#[test]
fn test_loads() {
    let mut cpu = Cpu::initialize();
    cpu.memory.write_bytes(0x00, &[0xA9, 0x42]);

    cpu.fetch_instruction_and_execute();
    assert_eq!(cpu.pc, 0x02);
    assert_eq!(cpu.cycle_count, 2);
    assert_eq!(cpu.a, 0x42);        
}

#[test]
fn test_lsr() {
    let mut cpu = Cpu::initialize();
    cpu.a = 0xF3; // 1 1 1 1 0 0 1 1
    cpu.memory.write_bytes(0x00, &[0x4A, 0x46, 0x42]);
    cpu.memory.write_byte(0x0042, 0x01);

    // One instruction should just right shift A and set the carry.
    cpu.fetch_instruction_and_execute();
    // 1 1 1 1 0 0 1 1 >> 1 = 0 1 1 1 1 0 0 1 = 0x79

    assert_eq!(0x01, cpu.pc);
    assert_eq!(0x79, cpu.a);
    assert!(!cpu.processor_status.is_negative());
    assert!(!cpu.processor_status.is_zero());
    assert!(cpu.processor_status.is_carry());

    // Now we'll right shift a value directly on the zero page at 0x42.
    cpu.fetch_instruction_and_execute();

    assert_eq!(0x03, cpu.pc);
    assert_eq!(0x79, cpu.a);
    assert_eq!(0x00, cpu.memory.read_byte(0x0042));
    assert!(!cpu.processor_status.is_negative());
    assert!(cpu.processor_status.is_zero());
    assert!(cpu.processor_status.is_carry());
}

#[test]
fn test_ora_and_eor() {
    let mut cpu = Cpu::initialize();
    cpu.a = 0x50;
    cpu.memory.write_bytes(0x00, &[0x09, 0x05, 0x49, 0xAA]);

    // One instruction should just OR A with 0x05.
    cpu.fetch_instruction_and_execute();
    assert_eq!(cpu.a, 0x55);
    assert!(!cpu.processor_status.is_negative());
    assert!(!cpu.processor_status.is_zero());

    // Another will effectively make A = 0xFF.
    cpu.fetch_instruction_and_execute();
    assert_eq!(cpu.a, 0xFF);
    assert!(cpu.processor_status.is_negative());
    assert!(!cpu.processor_status.is_zero());
}

#[test]
fn test_rol_and_ror() {
    let mut cpu = Cpu::initialize();
    cpu.a = 0xF3; // 1 1 1 1 0 0 1 1
    cpu.memory.write_bytes(0x00, &[0x6A, 0x26, 0x42]);
    cpu.memory.write_byte(0x0042, 0x7F);

    // One instruction should just rotate A to the right and set the carry.
    cpu.fetch_instruction_and_execute();
    // 1 1 1 1 0 0 1 1 >> 1 = 0 1 1 1 1 0 0 1 = 0x79

    assert_eq!(0x01, cpu.pc);
    assert_eq!(0x79, cpu.a);
    assert!(!cpu.processor_status.is_negative());
    assert!(!cpu.processor_status.is_zero());
    assert!(cpu.processor_status.is_carry());

    // Now we'll left rotate a value directly on the zero page at 0x42. The carry is set!
    // 0 1 1 1 1 1 1 1 << 1 + 1
    cpu.fetch_instruction_and_execute();

    assert_eq!(0x03, cpu.pc);
    assert_eq!(0x79, cpu.a);
    assert_eq!(0xFF, cpu.memory.read_byte(0x0042));
    assert!(cpu.processor_status.is_negative());
    assert!(!cpu.processor_status.is_zero());
    assert!(!cpu.processor_status.is_carry());
}

#[test]
fn test_rti() {
    let mut cpu = Cpu::initialize();
    cpu.memory.write_byte(0x00, 0x40);
    // Write to the stack directly like a maniac (as if we had done a BRK).
    cpu.push_stack(0x12);
    cpu.push_stack(0x34);
    cpu.push_stack(0xD8); // 1 1 0 1 1 0 0 0

    cpu.fetch_instruction_and_execute();

    assert_eq!(cpu.processor_status.into(), 0xE8); // Break is cleared
    assert_eq!(cpu.pc, 0x1234);
}

#[test]
fn test_rts() {
    let mut cpu = Cpu::initialize();
    // Jump to a subroutine where we load X, then come back and load the accumulator.
    // JSR #0x1234; LDA #0x42;
    cpu.memory.write_bytes(0x00, &[0x20, 0x34, 0x12, 0xA9, 0x42]);
    // LDX, #0xFF; RTI;
    cpu.memory.write_bytes(0x1234, &[0xA2, 0xFF, 0x60]);

    // Execute the four instructions.
    cpu.fetch_instruction_and_execute();
    cpu.fetch_instruction_and_execute();
    cpu.fetch_instruction_and_execute();
    cpu.fetch_instruction_and_execute();

    assert_eq!(cpu.pc, 0x05);
    assert_eq!(cpu.a, 0x42);
    assert_eq!(cpu.x, 0xFF);
    // Cycles for a JSR, LDA, RTI, and LDA
    assert_eq!(cpu.cycle_count, 6 + 2 + 6 + 2);
}

#[test]
fn test_sbc() {
    let mut cpu = Cpu::initialize();
    cpu.a = 0x03F;
    cpu.memory.write_bytes(0x00, &[0xE9, 0x02]);
    cpu.fetch_instruction_and_execute();

    assert_eq!(0x3C, cpu.a);
    assert_eq!(0x02, cpu.pc);
    assert!(!cpu.processor_status.is_overflow());
    assert!(!cpu.processor_status.is_negative());
    assert!(!cpu.processor_status.is_zero());
    assert!(!cpu.processor_status.is_carry());
}

#[test]
fn test_sta() {
    let mut cpu = Cpu::initialize();
    cpu.a = 0x42;
    cpu.memory.write_bytes(0x00, &[0x8D, 0x34, 0x12]);

    cpu.fetch_instruction_and_execute();
    assert_eq!(cpu.memory.read_byte(0x1234), 0x42);
}

#[test]
fn test_tax() {
    let mut cpu = Cpu::initialize();
    cpu.a = 0xF2;
    cpu.memory.write_bytes(0x00, &[0xAA, 0x9A]);

    cpu.fetch_instruction_and_execute();
    cpu.fetch_instruction_and_execute();

    assert_eq!(cpu.x, 0xF2);
    assert_eq!(cpu.sp, 0xF2);
}
