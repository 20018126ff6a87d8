use std::collections::HashSet;

use keyboard_splitter::model::keys::{name_for_vk, vk_for_name};
use keyboard_splitter::model::{Binding, GamepadButton, StickSide, Target, TriggerSide};
use keyboard_splitter::presets::{
    b, bindings, default_bindings, is_os_reserved, list, preset_table, preset_texts, trig, GENERAL_ID,
    PRESET_COUNT,
};

fn expected(p: usize) -> Vec<Binding> {
    preset_table(p)
        .iter()
        .map(|(k, t)| Binding { key: k.to_string(), target: *t })
        .collect()
}

#[test]
fn general_is_the_default() {
    assert_eq!(GENERAL_ID, "general");
    assert_eq!(default_bindings().len(), preset_table(0).len());
    let names: Vec<String> = default_bindings().iter().map(|b| b.key.clone()).collect();
    assert!(names.contains(&"W".to_string()));
    assert!(names.contains(&"Space".to_string()));
}

#[test]
fn bindings_mirror_the_preset_definitions() {
    let metas = list();
    for p in 0..PRESET_COUNT {
        let expected = expected(p);
        assert_eq!(bindings(&metas[p].id).as_ref(), Some(&expected), "preset {}", metas[p].id);
    }
    assert_eq!(bindings("nope"), None);
}

#[test]
fn every_preset_has_a_distinct_key_target_table() {
    let metas = list();
    let mut seen: HashSet<Vec<String>> = HashSet::new();
    for p in 0..PRESET_COUNT {
        let mut table: Vec<String> =
            preset_table(p).iter().map(|(k, t)| format!("{k}|{t:?}")).collect();
        table.sort();
        assert!(
            seen.insert(table),
            "preset '{}' has the exact same key->target table as another preset - the picker could not tell them apart",
            metas[p].id
        );
    }
}

#[test]
fn football_presets_follow_each_games_xbox_defaults() {
    let at = |bs: &[Binding], key: &str| {
        bs.iter()
            .find(|b| b.key == key)
            .map(|b| b.target)
            .unwrap_or_else(|| panic!("key {key} not bound"))
    };

    let fc = bindings("football-fc").unwrap();
    assert_eq!(at(&fc, "E"), b(GamepadButton::B));
    assert_eq!(at(&fc, "Q"), b(GamepadButton::X));
    assert_eq!(at(&fc, "R"), b(GamepadButton::Y));
    assert_eq!(at(&fc, "C"), trig(TriggerSide::Right));

    let pes = bindings("football-pes").unwrap();
    assert_eq!(at(&pes, "E"), b(GamepadButton::X));
    assert_eq!(at(&pes, "Q"), b(GamepadButton::B));
    assert_eq!(at(&pes, "R"), b(GamepadButton::Y));
    assert_eq!(at(&pes, "F"), b(GamepadButton::RB));
    assert_eq!(at(&pes, "C"), trig(TriggerSide::Right));

    let keys_of = |bs: &[Binding]| -> HashSet<String> { bs.iter().map(|b| b.key.clone()).collect() };
    assert_eq!(keys_of(&fc), keys_of(&pes));
    assert_ne!(bindings("football-fc").unwrap(), bindings("football-pes").unwrap());
}

#[test]
fn every_preset_id_is_unique_and_meta_is_consistent() {
    let metas = list();
    let ids: HashSet<&str> = metas.iter().map(|m| m.id.as_str()).collect();
    assert_eq!(ids.len(), PRESET_COUNT, "duplicate preset ids");
    assert_eq!(metas.len(), PRESET_COUNT);
    for (p, meta) in metas.iter().enumerate() {
        let (id, name, description) = preset_texts(p);
        assert_eq!(id, meta.id);
        assert_eq!(name, meta.name);
        assert_eq!(meta.key_count, preset_table(p).len());
        assert_eq!(description, meta.description);
        assert!(!description.is_empty());
        assert!(!preset_table(p).is_empty(), "preset {} is empty", meta.id);
    }
}

#[test]
fn every_key_round_trips_through_the_canonical_table() {
    let metas = list();
    for p in 0..PRESET_COUNT {
        for (key, _) in preset_table(p) {
            let vk = vk_for_name(key)
                .unwrap_or_else(|| panic!("preset {} uses unknown key '{}'", metas[p].id, key));
            let back = name_for_vk(vk);
            assert_eq!(
                &back, key,
                "preset {} key '{}' is not canonical (resolves to '{back}')",
                metas[p].id, key
            );
        }
    }
}

#[test]
fn no_key_is_bound_twice_or_reserved_in_any_preset() {
    let metas = list();
    for p in 0..PRESET_COUNT {
        let mut seen = HashSet::new();
        for (key, _) in preset_table(p) {
            assert!(seen.insert(key), "preset {} binds key '{}' more than once", metas[p].id, key);
            assert!(!is_os_reserved(key), "preset {} uses OS-reserved key '{key}'", metas[p].id);
        }
    }
}

#[test]
fn every_preset_has_movement_and_pause() {
    let metas = list();
    for p in 0..PRESET_COUNT {
        let targets: Vec<Target> = preset_table(p).iter().map(|(_, t)| *t).collect();
        let has_movement =
            targets.iter().any(|t| matches!(t, Target::Stick { side: StickSide::Left, .. }));
        assert!(has_movement, "preset {} has no left-stick movement", metas[p].id);
        assert!(
            targets.contains(&b(GamepadButton::Start)) || metas[p].id.contains("general"),
            "preset {} should bind Start for pausing",
            metas[p].id
        );
    }
}

#[test]
fn fighting_presets_use_distinct_faces_per_game() {
    let mk = bindings("mortal-kombat").unwrap();
    assert!(mk.iter().any(|x| x.target == trig(TriggerSide::Right)));
    let sf6 = bindings("street-fighter").unwrap();
    assert!(sf6.iter().any(|x| x.target == b(GamepadButton::RB)));
    let t7 = bindings("tekken").unwrap();
    assert!(t7.iter().all(|x| !matches!(x.target, Target::Trigger { .. })));
}

#[test]
fn reserved_keys() {
    assert!(is_os_reserved("LWin"));
    assert!(is_os_reserved("Escape"));
    assert!(!is_os_reserved("Space"));
    assert!(!is_os_reserved("escape"));
}

#[test]
fn preset_list_is_in_table_order() {
    let metas = list();
    assert_eq!(metas[0].id, "general");
    assert_eq!(metas[0].name, "General (WASD + arrows)");
    assert_eq!(metas[9].id, "fps-gamepad");
}
