use ccnes_core::controller::{Controller, ControllerButton, ControllerPort};

#[test]
fn test_controller_buttons() {
    let mut controller = Controller::new();

    // Test individual button presses
    controller.set_button(ControllerButton::A, true);
    assert!(controller.is_pressed(ControllerButton::A));
    assert!(!controller.is_pressed(ControllerButton::B));
    assert_eq!(controller.get_state(), 0x01);

    // Test multiple buttons
    controller.set_button(ControllerButton::B, true);
    controller.set_button(ControllerButton::START, true);
    assert!(controller.is_pressed(ControllerButton::A));
    assert!(controller.is_pressed(ControllerButton::B));
    assert!(controller.is_pressed(ControllerButton::START));
    assert_eq!(controller.get_state(), 0x0B);

    // Test button release
    controller.set_button(ControllerButton::A, false);
    assert!(!controller.is_pressed(ControllerButton::A));
    assert!(controller.is_pressed(ControllerButton::B));
    assert_eq!(controller.get_state(), 0x0A);

    // Test clear
    controller.clear();
    assert_eq!(controller.get_state(), 0x00);
}

#[test]
fn test_controller_set_buttons() {
    let mut controller = Controller::new();

    // Set multiple buttons at once
    controller.set_buttons(ControllerButton::UP | ControllerButton::A);
    assert!(controller.is_pressed(ControllerButton::UP));
    assert!(controller.is_pressed(ControllerButton::A));
    assert!(!controller.is_pressed(ControllerButton::DOWN));
    assert_eq!(controller.get_state(), 0x11);
}

#[test]
fn strobe_then_eight_reads_give_buttons_in_order() {
    let mut port = ControllerPort::new();
    port.set_buttons(0b1010_0101);
    // reads before the strobe do not matter
    port.read();
    port.read();
    port.write_strobe(1);
    port.write_strobe(0);
    let mut bits = Vec::new();
    for _ in 0..8 {
        bits.push(port.read());
    }
    assert_eq!(bits, vec![1, 0, 1, 0, 0, 1, 0, 1]);
    assert_eq!(port.read(), 1);
    assert_eq!(port.read(), 1);
}

#[test]
fn strobe_high_keeps_reloading_live_state() {
    let mut port = ControllerPort::new();
    port.write_strobe(1);
    port.set_buttons(ControllerButton::A);
    assert_eq!(port.read(), 1);
    assert_eq!(port.read(), 1);
    port.set_buttons(ControllerButton::B);
    assert_eq!(port.read(), 0);
}

#[test]
fn controller_default_is_released() {
    let c = Controller::default();
    assert_eq!(c.get_state(), 0);
    assert!(!c.is_pressed(ControllerButton::RIGHT));
}
