use nes_emu::joypad::Joypad;

#[test]
fn fresh_controller_reports_nothing_pressed() {
    let mut pad = Joypad::new();
    for _ in 0..8 {
        assert_eq!(pad.read_state(), 0);
    }
    assert_eq!(pad.read_state(), 1);
}

#[test]
fn latched_buttons_are_reported_in_order() {
    let mut pad = Joypad::new();
    // A, Start and Right held.
    pad.set_pressed_keys(0b1000_1001);
    pad.step(1);
    pad.step(0);
    let reads: Vec<u8> = (0..8).map(|_| pad.read_state()).collect();
    assert_eq!(reads, vec![1, 0, 0, 1, 0, 0, 0, 1]);
    assert_eq!(pad.read_state(), 1);
    assert_eq!(pad.read_state(), 1);
}

#[test]
fn strobe_high_keeps_reporting_button_a() {
    let mut pad = Joypad::new();
    pad.set_pressed_keys(0b0000_0001);
    pad.step(1);
    for _ in 0..10 {
        assert_eq!(pad.read_state(), 1);
    }
    pad.set_pressed_keys(0b0000_0010);
    pad.step(3);
    assert_eq!(pad.read_state(), 0);
    pad.step(2);
    assert_eq!(pad.read_state(), 0);
    assert_eq!(pad.read_state(), 1);
}

#[test]
fn keys_change_only_at_the_next_strobe() {
    let mut pad = Joypad::new();
    pad.set_pressed_keys(0xFF);
    pad.step(1);
    pad.step(0);
    pad.set_pressed_keys(0x00);
    assert_eq!(pad.read_state(), 1);
    assert_eq!(pad.read_state(), 1);
}
