use rust_nes_emulator::controller::{Controller, ControllerState};

#[test]
pub fn test_read_reset_at_end() {
    let mut controller = Controller::new();
    controller.set_controller_state(ControllerState::from_bits_retain(0b1010_0101));
    assert_eq!(1, controller.read());
    assert_eq!(0, controller.read());
    assert_eq!(1, controller.read());
    assert_eq!(0, controller.read());
    assert_eq!(0, controller.read());
    assert_eq!(1, controller.read());
    assert_eq!(0, controller.read());
    assert_eq!(1, controller.read());
    for _ in 0..10 {
        assert_eq!(1, controller.read());
    }
    controller.write(1);
    controller.write(0);
    assert_eq!(1, controller.read());
    assert_eq!(0, controller.read());
    assert_eq!(1, controller.read());
    assert_eq!(0, controller.read());
    assert_eq!(0, controller.read());
    assert_eq!(1, controller.read());
    assert_eq!(0, controller.read());
    assert_eq!(1, controller.read());
}

#[test]
pub fn test_read_strobe_on() {
    let mut controller = Controller::new();
    controller.set_controller_state(ControllerState::from_bits_retain(0b0010_0100));
    assert_eq!(0, controller.read());
    assert_eq!(0, controller.read());
    assert_eq!(1, controller.read());
    assert_eq!(0, controller.read());
    assert_eq!(0, controller.read());
    assert_eq!(1, controller.read());
    assert_eq!(0, controller.read());
    assert_eq!(0, controller.read());
    for _ in 0..10 {
        assert_eq!(1, controller.read());
    }
    controller.write(1);
    for _ in 0..10 {
        assert_eq!(0, controller.read());
    }
}

#[test]
pub fn test_read_reset_early() {
    let mut controller = Controller::new();
    controller.set_controller_state(ControllerState::from_bits_retain(0b0010_0100));
    assert_eq!(0, controller.read());
    assert_eq!(0, controller.read());
    assert_eq!(1, controller.read());
    assert_eq!(0, controller.read());
    assert_eq!(0, controller.read());
    controller.write(1);
    controller.write(0);
    assert_eq!(0, controller.read());
    assert_eq!(0, controller.read());
    assert_eq!(1, controller.read());
    assert_eq!(0, controller.read());
    assert_eq!(0, controller.read());
}

#[test]
fn test_strobe_mode() {
    let mut controller = Controller::new();
    controller.write(1);
    controller.controller_state.insert(ControllerState::A);
    for _x in 0..10 {
        assert_eq!(controller.read(), 1);
    }
}

#[test]
fn test_strobe_mode_on_off() {
    let mut controller = Controller::new();
    controller.write(0);
    controller.controller_state.insert(ControllerState::RIGHT);
    controller.controller_state.insert(ControllerState::LEFT);
    controller.controller_state.insert(ControllerState::SELECT);
    controller.controller_state.insert(ControllerState::B);
    for _ in 0..=1 {
        assert_eq!(controller.read(), 0);
        assert_eq!(controller.read(), 1);
        assert_eq!(controller.read(), 1);
        assert_eq!(controller.read(), 0);
        assert_eq!(controller.read(), 0);
        assert_eq!(controller.read(), 0);
        assert_eq!(controller.read(), 1);
        assert_eq!(controller.read(), 1);
        for _x in 0..10 {
            assert_eq!(controller.read(), 1);
        }
        controller.write(1);
        controller.write(0);
    }
}

#[test]
fn controller_shift_of_mask_lsb_first() {
    let mut controller = Controller::new();
    controller.set_controller_state(ControllerState::from_bits_retain(0b0110_1001));
    controller.write(0);
    let bits: Vec<u8> = (0..8).map(|_| controller.read()).collect();
    assert_eq!(vec![1, 0, 0, 1, 0, 1, 1, 0], bits);
    assert_eq!(1, controller.read());
    assert_eq!(1, controller.peek());
}

#[test]
fn controller_peek_does_not_shift() {
    let mut controller = Controller::new();
    controller.set_controller_state(ControllerState::from_bits_retain(0b0000_0010));
    assert_eq!(0, controller.peek());
    assert_eq!(0, controller.peek());
    assert_eq!(0, controller.read());
    assert_eq!(1, controller.peek());
    let mut state = ControllerState::from_bits_retain(0);
    state.set(ControllerState::START, true);
    assert_eq!(0b1000, state.bits());
    state.remove(ControllerState::START);
    assert_eq!(0, state.bits());
}
