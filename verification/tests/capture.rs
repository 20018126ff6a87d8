use std::collections::HashMap;

use keyboard_splitter::input::capture::{device_cache, key_action, packet_fits, RawKeyAction};
use keyboard_splitter::input::devices::RIM_TYPEKEYBOARD;
use keyboard_splitter::model::KeyboardDevice;

#[test]
fn packets_must_fit_the_buffer() {
    assert!(packet_fits(40, 1024, 40));
    assert!(!packet_fits(0, 1024, 40));
    assert!(!packet_fits(u32::MAX, 1024, 40));
    assert!(!packet_fits(39, 1024, 40));
    assert!(!packet_fits(2000, 1024, 40));
}

#[test]
fn key_packets_become_key_events() {
    let mut cache: HashMap<usize, String> = HashMap::new();
    cache.insert(7, "kb7".to_string());
    cache.insert(9, "kb9".to_string());
    match key_action(RIM_TYPEKEYBOARD, 0x41, 0, 7, &cache) {
        RawKeyAction::Key { device, key, down } => {
            assert_eq!(device, "kb7");
            assert_eq!(key, "A");
            assert!(down);
        }
        _ => panic!("expected a key"),
    }
    match key_action(RIM_TYPEKEYBOARD, 0x20, 1, 9, &cache) {
        RawKeyAction::Key { key, down, .. } => {
            assert_eq!(key, "Space");
            assert!(!down);
        }
        _ => panic!("expected a key"),
    }
    assert!(matches!(key_action(RIM_TYPEKEYBOARD, 0x41, 0, 3, &cache), RawKeyAction::Refresh));
    assert!(matches!(key_action(RIM_TYPEKEYBOARD, 0xFF, 0, 7, &cache), RawKeyAction::Ignore));
    assert!(matches!(key_action(0, 0x41, 0, 7, &cache), RawKeyAction::Ignore));
}

#[test]
fn enumeration_fills_the_cache() {
    let d = KeyboardDevice {
        id: "id".to_string(),
        name: "n".to_string(),
        vendor_id: 1,
        product_id: 2,
        path: "id".to_string(),
    };
    let (cache, list) = device_cache(&[(5, d.clone())]);
    assert_eq!(cache.len(), 1);
    assert_eq!(cache.get(&5).map(|s| s.as_str()), Some("id"));
    assert_eq!(list, vec![d]);
}

#[test]
fn a_later_enumeration_entry_wins_its_handle() {
    let mk = |id: &str| KeyboardDevice {
        id: id.to_string(),
        name: "n".to_string(),
        vendor_id: 0,
        product_id: 0,
        path: id.to_string(),
    };
    let (cache, list) = device_cache(&[(7, mk("old")), (9, mk("kb9")), (7, mk("kb7"))]);
    assert_eq!(cache.len(), 2);
    assert_eq!(list.len(), 3);
    match key_action(RIM_TYPEKEYBOARD, 0x41, 0, 7, &cache) {
        RawKeyAction::Key { device, .. } => assert_eq!(device, "kb7"),
        _ => panic!("expected a key"),
    }
}
