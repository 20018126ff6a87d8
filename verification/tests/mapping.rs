use keyboard_splitter::controller::{GamepadReport, BIT_A};
use keyboard_splitter::mapping::{fits_report, report_for};
use keyboard_splitter::model::{Binding, StickDirection, StickSide, Target};
use keyboard_splitter::presets::default_bindings;

fn held(keys: &[&str]) -> Vec<String> {
    keys.iter().map(|k| k.to_string()).collect()
}

#[test]
fn wasd_moves_left_stick() {
    let map = default_bindings();
    let r = report_for(&map, &held(&["W"]));
    assert_eq!(r.left_y, i16::MAX);
    let r = report_for(&map, &held(&["D"]));
    assert_eq!(r.left_x, i16::MAX);
}

#[test]
fn space_presses_a() {
    let map = default_bindings();
    let r = report_for(&map, &held(&["Space"]));
    assert_eq!(r.buttons, BIT_A);
}

#[test]
fn nothing_held_is_idle() {
    let map = default_bindings();
    let r = report_for(&map, &held(&[]));
    assert_eq!(r, GamepadReport::default());
}

#[test]
fn w_and_s_cancel() {
    let map = default_bindings();
    let r = report_for(&map, &held(&["W", "S"]));
    assert_eq!(r.left_y, 0);
}

#[test]
fn unknown_keys_are_ignored() {
    let map = default_bindings();
    let r = report_for(&map, &held(&["F9", "W"]));
    assert_eq!(r.left_y, i16::MAX);
}

#[test]
fn held_keys_count_as_a_set() {
    let map = default_bindings();
    let a = report_for(&map, &held(&["W", "Space", "W"]));
    let b = report_for(&map, &held(&["Space", "W"]));
    assert_eq!(a, b);
}

#[test]
fn stick_sums_must_fit() {
    let up = Target::Stick { side: StickSide::Left, direction: StickDirection::Up };
    let many: Vec<Binding> = (0..65535).map(|_| Binding { key: "W".to_string(), target: up }).collect();
    assert!(fits_report(&many, &held(&["W"])));
    let mut too_many = many.clone();
    too_many.push(Binding { key: "W".to_string(), target: up });
    assert!(!fits_report(&too_many, &held(&["W"])));
    assert!(fits_report(&too_many, &held(&["S"])));
    assert!(fits_report(&default_bindings(), &held(&["W", "A"])));
}

#[test]
fn binding_order_does_not_matter() {
    let map = default_bindings();
    let mut reversed = map.clone();
    reversed.reverse();
    for keys in [&["W", "Space"][..], &["A", "D", "LCtrl"][..], &["Up", "I", "Tab"][..]] {
        assert_eq!(report_for(&map, &held(keys)), report_for(&reversed, &held(keys)));
    }
}
