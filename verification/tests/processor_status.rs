use rusty_raven::processor_status::ProcessorStatus;

#[test]
fn test_processor_statuses() {
    let ps = ProcessorStatus::initialize().set_interrupt().set_break().set_negative().set_carry();

    assert!(ps.is_break());
    assert!(ps.is_interrupt());
    assert!(ps.is_negative());
    assert!(ps.is_carry());

    assert!(!ps.is_zero());
    assert!(!ps.is_overflow());
}

#[test]
fn processor_status_set_then_clear_restores() {
    let ps = ProcessorStatus::from(0x5A);
    assert_eq!(ps.set_carry().clear_carry().into(), 0x5A);
    assert_eq!(ps.set_overflow().into(), 0x5A);
    assert_eq!(ps.clear_zero().into(), 0x58);
    assert_eq!(ps.carry(), 0);
    assert_eq!(ps.set_carry().carry(), 1);
    assert!(ps.set_decimal().is_decimal());
    assert_eq!(ps.set_bit_five().into(), 0x7A);
}
