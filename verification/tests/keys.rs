use keyboard_splitter::model::keys::{name_for_vk, vk_for_name};

#[test]
fn letters_and_digits_round_trip() {
    assert_eq!(name_for_vk(0x41), "A");
    assert_eq!(name_for_vk(0x5A), "Z");
    assert_eq!(name_for_vk(0x30), "0");
    assert_eq!(vk_for_name("W"), Some(0x57));
    assert_eq!(vk_for_name("7"), Some(0x37));
}

#[test]
fn named_keys_round_trip() {
    assert_eq!(name_for_vk(0x20), "Space");
    assert_eq!(vk_for_name("Space"), Some(0x20));
    assert_eq!(name_for_vk(0x25), "Left");
    assert_eq!(vk_for_name("LCtrl"), Some(0xA2));
}

#[test]
fn function_keys() {
    assert_eq!(name_for_vk(0x70), "F1");
    assert_eq!(name_for_vk(0x87), "F24");
    assert_eq!(vk_for_name("F12"), Some(0x7B));
}

#[test]
fn unknown_keys_get_stable_fallback() {
    assert!(name_for_vk(0xEE).starts_with("VK_"));
}

#[test]
fn fallback_names_parse_back() {
    assert_eq!(name_for_vk(0xEE), "VK_EE");
    assert_eq!(name_for_vk(0x07), "VK_07");
    assert_eq!(vk_for_name("VK_EE"), None);
    assert_eq!(vk_for_name("  Space "), Some(0x20));
    assert_eq!(vk_for_name("Num7"), Some(0x67));
    assert_eq!(vk_for_name("nope"), None);
    assert_eq!(vk_for_name(""), None);
}

#[test]
fn every_code_round_trips_through_its_name() {
    for vk in 0u16..=0x1FF {
        let name = name_for_vk(vk);
        if !name.starts_with("VK_") {
            assert_eq!(vk_for_name(&name), Some(vk), "{name}");
        }
    }
}

#[test]
fn names_are_distinct_and_trim_insensitive() {
    let mut seen = std::collections::HashSet::new();
    for vk in 0u16..=0x3FF {
        let name = name_for_vk(vk);
        assert!(!name.is_empty());
        assert!(seen.insert(name.clone()), "{name} named twice");
        assert_eq!(vk_for_name(&format!("  {name}\t")), vk_for_name(&name));
    }
    assert_eq!(vk_for_name("F01"), Some(0x70));
    assert_eq!(vk_for_name(&name_for_vk(0x70)), Some(0x70));
}
