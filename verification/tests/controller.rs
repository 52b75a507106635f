use rusty_raven::controller::{Button, Controller};

#[test]
fn test_controller_button_presses() {
    let mut controller = Controller::initialize();
    controller.set_button(Button::B);
    controller.set_button(Button::Down);
    controller.set_button(Button::Start);

    assert_eq!(controller.read(), 0x00);
    controller.strobe_high();
    assert_eq!(controller.read(), 0x00);
    controller.strobe_low();
    // Now subsequent reads will use the filled out button states.
    assert_eq!(controller.read(), 0x00); // A
    assert_eq!(controller.read(), 0x01); // B
    assert_eq!(controller.read(), 0x00); // Select
    assert_eq!(controller.read(), 0x01); // Start
    assert_eq!(controller.read(), 0x00); // Up
    assert_eq!(controller.read(), 0x01); // Down
    assert_eq!(controller.read(), 0x00); // Left
    assert_eq!(controller.read(), 0x00); // Right
    assert_eq!(controller.read(), 0x00); // None
}

#[test]
fn controller_clear_button_and_restrobe() {
    let mut controller = Controller::initialize();
    controller.set_button(Button::A);
    controller.set_button(Button::Right);
    controller.clear_button(Button::A);
    controller.strobe_high();
    controller.strobe_low();
    let reads: Vec<u8> = (0..8).map(|_| controller.read()).collect();
    assert_eq!(reads, vec![0, 0, 0, 0, 0, 0, 0, 1]);
    // A new strobe starts again at A.
    controller.set_button(Button::A);
    controller.strobe_high();
    controller.strobe_low();
    assert_eq!(controller.read(), 0x01);
}

#[test]
fn no_button_never_reads_pressed() {
    let mut controller = Controller::initialize();
    controller.set_button(Button::NoButton);
    assert!(!controller.read_button(Button::NoButton));
    controller.strobe_high();
    controller.strobe_low();
    for _ in 0..8 {
        controller.read();
    }
    assert_eq!(controller.button(), Button::NoButton);
    assert_eq!(controller.read(), 0x00);
}
