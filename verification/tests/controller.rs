use keyboard_splitter::controller::{
    accumulate, button_bit, dpad_bit, finish, Accumulator, GamepadReport, BIT_A, BIT_DPAD_LEFT,
    BIT_GUIDE, BIT_Y,
};
use keyboard_splitter::model::{
    DpadDirection, GamepadButton, StickDirection, StickSide, Target, TriggerSide,
};

fn one(target: Target) -> GamepadReport {
    let mut acc = Accumulator::default();
    accumulate(target, &mut acc);
    finish(acc)
}

#[test]
fn digital_button_sets_bit() {
    let r = one(Target::Button { button: GamepadButton::A });
    assert_eq!(r.buttons, BIT_A);
}

#[test]
fn stick_direction_pushes_full_deflection() {
    let r = one(Target::Stick { side: StickSide::Left, direction: StickDirection::Up });
    assert_eq!(r.left_y, i16::MAX);
    assert_eq!(r.left_x, 0);

    let r = one(Target::Stick { side: StickSide::Right, direction: StickDirection::Left });
    assert_eq!(r.right_x, i16::MIN);
}

#[test]
fn trigger_is_full_analog_press() {
    let r = one(Target::Trigger { side: TriggerSide::Right });
    assert_eq!(r.right_trigger, 255);
}

#[test]
fn opposite_sticks_cancel_out() {
    let mut acc = Accumulator::default();
    accumulate(
        Target::Stick { side: StickSide::Left, direction: StickDirection::Up },
        &mut acc,
    );
    accumulate(
        Target::Stick { side: StickSide::Left, direction: StickDirection::Down },
        &mut acc,
    );
    let r = finish(acc);
    assert_eq!(r.left_y, 0);
}

#[test]
fn button_and_dpad_bits_match_xinput() {
    assert_eq!(button_bit(GamepadButton::Y), BIT_Y);
    assert_eq!(button_bit(GamepadButton::Guide), BIT_GUIDE);
    assert_eq!(button_bit(GamepadButton::LB), 0x0100);
    assert_eq!(dpad_bit(DpadDirection::Left), BIT_DPAD_LEFT);
    assert_eq!(dpad_bit(DpadDirection::Down), 0x0002);
}

#[test]
fn buttons_are_or_ed_and_triggers_saturate() {
    let mut acc = Accumulator::default();
    accumulate(Target::Button { button: GamepadButton::A }, &mut acc);
    accumulate(Target::Button { button: GamepadButton::A }, &mut acc);
    accumulate(Target::Dpad { direction: DpadDirection::Up }, &mut acc);
    accumulate(Target::Trigger { side: TriggerSide::Left }, &mut acc);
    accumulate(Target::Trigger { side: TriggerSide::Left }, &mut acc);
    assert_eq!(acc.left_trigger, 510);
    let r = finish(acc);
    assert_eq!(r.buttons, BIT_A | 0x0001);
    assert_eq!(r.left_trigger, 255);
    assert_eq!(r.right_trigger, 0);
}

#[test]
fn two_same_directions_clamp_to_the_axis_limit() {
    let mut acc = Accumulator::default();
    let down = Target::Stick { side: StickSide::Right, direction: StickDirection::Down };
    accumulate(down, &mut acc);
    accumulate(down, &mut acc);
    assert_eq!(acc.right_y, -65536);
    let r = finish(acc);
    assert_eq!(r.right_y, i16::MIN);
    assert_eq!(r.left_y, 0);
}

#[test]
fn default_report_is_idle() {
    let r = GamepadReport::default();
    assert_eq!(r.buttons, 0);
    assert_eq!(r.left_x, 0);
    assert_eq!(r.right_trigger, 0);
}
