use rusty_raven::cpu::Cpu;
use rusty_raven::test_opcodes::LogLine;

#[test]
fn log_line_reads_a_nestest_line() {
    let line = "C000  4C F5 C5  JMP $C5F5                       A:00 X:00 Y:00 P:24 SP:FD PPU:  0, 21 CYC:7";
    assert_eq!(
        LogLine::from(line),
        Some(LogLine { pc: 0xC000, a: 0x00, x: 0x00, y: 0x00, p: 0x24, sp: 0xFD, cyc: 7 })
    );
    let line = "C72A  A9 80     LDA #$80                        A:FF X:0A Y:7F P:E5 SP:FB PPU: 30, 80 CYC:3415";
    assert_eq!(
        LogLine::from(line),
        Some(LogLine { pc: 0xC72A, a: 0xFF, x: 0x0A, y: 0x7F, p: 0xE5, sp: 0xFB, cyc: 3415 })
    );
}

#[test]
fn log_line_rejects_bad_lines() {
    // A missing field.
    assert_eq!(LogLine::from("C000 A:00 X:00 Y:00 P:24 SP:FD"), None);
    // A register that does not fit in a byte.
    assert_eq!(LogLine::from("C000 A:100 X:00 Y:00 P:24 SP:FD CYC:7"), None);
    // A PC that is not hexadecimal.
    assert_eq!(LogLine::from("C0G0 A:00 X:00 Y:00 P:24 SP:FD CYC:7"), None);
    // Hexadecimal is not accepted for the cycle count.
    assert_eq!(LogLine::from("C000 A:00 X:00 Y:00 P:24 SP:FD CYC:1F"), None);
    assert_eq!(LogLine::from(""), None);
    assert_eq!(LogLine::from("   "), None);
}

#[test]
fn log_line_last_field_counts_and_plus_is_accepted() {
    let line = "+c000\tA:01 A:02 X:ab Y:0 P:+24 SP:fd CYC:0 CYC:12";
    assert_eq!(
        LogLine::from(line),
        Some(LogLine { pc: 0xC000, a: 0x02, x: 0xAB, y: 0x00, p: 0x24, sp: 0xFD, cyc: 12 })
    );
}

#[test]
fn log_line_from_cpu_and_to_string() {
    let mut cpu = Cpu::initialize();
    cpu.pc = 0xC5F5;
    cpu.a = 0x0A;
    cpu.sp = 0xFD;
    cpu.cycle_count = 1234;
    let line = LogLine::from_cpu(&cpu);
    assert_eq!(line, LogLine { pc: 0xC5F5, a: 0x0A, x: 0, y: 0, p: 0, sp: 0xFD, cyc: 1234 });
    assert_eq!(
        line.to_string(),
        "PC:0xC5F5, A:0x0A, X:0x00, Y:0x00, P:0x00, SP:0xFD, CYC:1234"
    );
}

#[test]
fn cpu_to_string_lists_registers_and_counters() {
    let mut cpu = Cpu::initialize();
    cpu.pc = 0x00AB;
    cpu.y = 0xFF;
    cpu.cycle_budget = -3;
    assert_eq!(
        cpu.to_string(),
        "PC:0x00AB, A:0x00, X:0x00, Y:0xFF, P:0x00, SP:0xFD, CYC:0, cyc_budget:-3, nmi:None"
    );
    cpu.set_nmi();
    assert!(cpu.to_string().ends_with("cyc_budget:-3, nmi:CycleLatency(7)"));
}
