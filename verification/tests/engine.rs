use std::cell::RefCell;
use std::rc::Rc;

use keyboard_splitter::controller::{GamepadReport, VirtualController, BIT_A};
use keyboard_splitter::engine::controllers::ControllerOutcome;
use keyboard_splitter::engine::key_events::KeyOutcome;
use keyboard_splitter::engine::{probe_driver_status, Core, PlayerRuntime, MAX_PLAYERS};
use keyboard_splitter::mapping::report_for;
use keyboard_splitter::model::{
    Binding, ControllerStatus, DriverStatus, GamepadButton, KeyboardDevice, SavedConfig,
    SavedPlayer, Target,
};
use keyboard_splitter::presets::default_bindings;

/// Records what the engine asked of the virtual controller.
#[derive(Default)]
struct Log {
    connects: usize,
    disconnects: usize,
    submitted: Vec<GamepadReport>,
}

struct Mock {
    log: Rc<RefCell<Log>>,
    connect_ok: bool,
    submit_ok: bool,
    connected: bool,
    submitted: Option<GamepadReport>,
}

impl VirtualController for Mock {
    fn connect(&mut self) -> Result<(), String> {
        self.log.borrow_mut().connects += 1;
        if self.connect_ok {
            self.connected = true;
            Ok(())
        } else {
            Err("connect failed".to_string())
        }
    }
    fn disconnect(&mut self) {
        self.log.borrow_mut().disconnects += 1;
        self.connected = false;
    }
    fn submit(&mut self, report: &GamepadReport) -> Result<(), String> {
        self.log.borrow_mut().submitted.push(*report);
        self.submitted = Some(*report);
        if self.submit_ok {
            Ok(())
        } else {
            Err("submit failed".to_string())
        }
    }
    fn connected(&self) -> bool {
        self.connected
    }
    fn submitted(&self) -> Option<GamepadReport> {
        self.submitted
    }
    fn is_connected(&self) -> bool {
        self.connected
    }
}

fn driver() -> DriverStatus {
    DriverStatus { available: true, message: "ok".to_string() }
}

fn device(id: &str, vid: u32, pid: u32) -> KeyboardDevice {
    KeyboardDevice {
        id: id.to_string(),
        name: format!("Name of {id}"),
        vendor_id: vid,
        product_id: pid,
        path: id.to_string(),
    }
}

fn fresh() -> Core<Mock> {
    Core::new(driver(), None)
}

fn maker(log: &Rc<RefCell<Log>>, connect_ok: bool, submit_ok: bool) -> impl Fn() -> Result<Mock, String> {
    let log = log.clone();
    move || Ok(Mock { log: log.clone(), connect_ok, submit_ok, connected: false, submitted: None })
}

fn names(c: &Core<Mock>) -> Vec<String> {
    c.players.iter().map(|p| p.name.clone()).collect()
}

#[test]
fn starts_with_two_fresh_players() {
    let c = fresh();
    assert!(!c.running);
    assert_eq!(names(&c), vec!["Player 1", "Player 2"]);
    assert_eq!(c.active_profile, "Default");
    assert_eq!(c.players[0].bindings, default_bindings());
    assert!(c.devices.is_empty());
    let p: PlayerRuntime<Mock> = PlayerRuntime::new(3);
    assert_eq!(p.name, "Player 4");
}

#[test]
fn loading_fills_up_and_caps_players() {
    let one = SavedConfig {
        players: vec![SavedPlayer { name: String::new(), keyboard: Some("k".to_string()), bindings: vec![] }],
    };
    let c: Core<Mock> = Core::new(driver(), Some(one));
    assert_eq!(names(&c), vec!["Player 1", "Player 2"]);
    assert_eq!(c.players[0].keyboard.as_deref(), Some("k"));
    assert_eq!(c.players[0].bindings, default_bindings());

    let bound = vec![Binding { key: "X".to_string(), target: Target::Button { button: GamepadButton::B } }];
    let many = SavedConfig {
        players: (0..6)
            .map(|i| SavedPlayer { name: format!("P{i}"), keyboard: None, bindings: bound.clone() })
            .collect(),
    };
    let mut c = fresh();
    c.load_players(Some(many));
    assert_eq!(names(&c), vec!["P0", "P1", "P2", "P3"]);
    assert_eq!(c.players[3].bindings, bound);

    c.load_players(Some(SavedConfig::default()));
    assert_eq!(names(&c), vec!["Player 1", "Player 2"]);
}

#[test]
fn at_most_four_players() {
    let mut c = fresh();
    assert_eq!(c.add_player(), Ok(()));
    assert_eq!(c.add_player(), Ok(()));
    assert_eq!(c.players.len(), MAX_PLAYERS);
    assert_eq!(c.add_player(), Err("XInput supports at most 4 controllers".to_string()));
    assert_eq!(names(&c), vec!["Player 1", "Player 2", "Player 3", "Player 4"]);
}

#[test]
fn removing_players_keeps_two_and_relabels_namesakes() {
    let mut c = fresh();
    c.add_player().unwrap();
    assert!(c.rename_player(1, "  Bob  "));
    assert!(c.rename_player(2, "Bob"));
    assert!(!c.rename_player(2, "   "));
    assert!(!c.rename_player(7, "Ann"));
    assert!(c.remove_player(1));
    assert_eq!(names(&c), vec!["Player 1", "Player 2"]);
    assert!(!c.remove_player(0));
    assert!(!c.remove_player(9));
}

#[test]
fn a_keyboard_feeds_one_player() {
    let log = Rc::new(RefCell::new(Log::default()));
    let make = maker(&log, true, true);
    let mut c = fresh();
    c.device_list(vec![device("kb1", 1, 2), device("kb2", 0, 0)]);
    assert_eq!(
        c.assign_keyboard(0, Some("gone".to_string()), &make),
        Err("That keyboard is not connected anymore".to_string())
    );
    assert_eq!(c.assign_keyboard(0, Some("kb1".to_string()), &make), Ok(ControllerOutcome::Replaced));
    assert!(c.players[0].controller.is_some());
    assert_eq!(c.assign_keyboard(1, Some("kb1".to_string()), &make), Ok(ControllerOutcome::Replaced));
    assert_eq!(c.players[0].keyboard, None);
    assert_eq!(c.players[1].keyboard.as_deref(), Some("kb1"));
    assert_eq!(c.assign_keyboard(5, Some("kb2".to_string()), &make), Ok(ControllerOutcome::Untouched));
    assert_eq!(log.borrow().connects, 2);
    let snap = c.snapshot();
    assert_eq!(snap.players[1].keyboard_name.as_deref(), Some("Name of kb1"));
    assert_eq!(snap.players[1].controller_state.status, ControllerStatus::Connected);
    assert_eq!(snap.players[0].controller_state.status, ControllerStatus::Connected);
}

#[test]
fn failing_controllers_are_reported() {
    let mut c = fresh();
    c.device_list(vec![device("kb1", 0, 0)]);
    let make = || -> Result<Mock, String> { Err("only on Windows".to_string()) };
    c.assign_keyboard(0, Some("kb1".to_string()), &make).unwrap();
    let snap = c.snapshot();
    assert_eq!(snap.players[0].controller_state.status, ControllerStatus::Error);
    assert_eq!(snap.players[0].controller_state.message.as_deref(), Some("only on Windows"));
    assert_eq!(snap.players[1].controller_state.status, ControllerStatus::NotConnected);
    assert_eq!(
        snap.players[1].controller_state.message.as_deref(),
        Some("No virtual controller - assign a keyboard first")
    );

    let log = Rc::new(RefCell::new(Log::default()));
    assert_eq!(c.ensure_controller(0, false, &maker(&log, false, true)), ControllerOutcome::Failed);
    assert_eq!(c.ensure_controller(1, false, &maker(&log, true, true)), ControllerOutcome::Untouched);
    assert_eq!(c.ensure_controller(9, true, &maker(&log, true, true)), ControllerOutcome::Untouched);
    assert!(c.players[0].controller.is_none());
    assert_eq!(c.players[0].controller_error.as_deref(), Some("connect failed"));
}

#[test]
fn key_events_drive_the_players_controller() {
    let log = Rc::new(RefCell::new(Log::default()));
    let make = maker(&log, true, true);
    let mut c = fresh();
    c.device_list(vec![device("kb1", 0, 0)]);
    c.assign_keyboard(0, Some("kb1".to_string()), &make).unwrap();

    match c.key_event("kb1", "Space", true) {
        KeyOutcome::Handled { event, submit_failed } => {
            assert_eq!(event.device_name, "Name of kb1");
            assert_eq!(event.key, "Space");
            assert!(event.down);
            assert!(!submit_failed);
        }
        _ => panic!("expected a handled event"),
    }
    assert!(c.players[0].held.is_empty(), "paused engine keeps held keys");
    assert!(log.borrow().submitted.is_empty());

    c.set_running(true, &make);
    assert!(c.running);
    c.key_event("kb1", "Space", true);
    c.key_event("kb1", "Space", true);
    assert_eq!(c.players[0].held, vec!["Space".to_string()]);
    assert_eq!(log.borrow().submitted.len(), 1);
    assert_eq!(log.borrow().submitted[0].buttons, BIT_A);
    assert_eq!(c.players[0].controller.as_ref().unwrap().submitted.map(|r| r.buttons), Some(BIT_A));
    assert_eq!(c.players[0].last_report.map(|r| r.buttons), Some(BIT_A));

    c.key_event("kb1", "Space", false);
    assert!(c.players[0].held.is_empty());
    assert_eq!(log.borrow().submitted[1], GamepadReport::default());

    assert!(matches!(c.key_event("other", "W", true), KeyOutcome::Unassigned));
}

#[test]
fn refused_reports_are_retried() {
    let log = Rc::new(RefCell::new(Log::default()));
    let make = maker(&log, true, false);
    let mut c = fresh();
    c.device_list(vec![device("kb1", 0, 0)]);
    c.assign_keyboard(0, Some("kb1".to_string()), &make).unwrap();
    c.set_running(true, &make);
    match c.key_event("kb1", "W", true) {
        KeyOutcome::Handled { submit_failed, .. } => assert!(submit_failed),
        _ => panic!("expected a handled event"),
    }
    assert_eq!(c.players[0].controller_error.as_deref(), Some("submit failed"));
    assert_eq!(c.players[0].last_report, None);
    let expected = report_for(&c.players[0].bindings, &c.players[0].held);
    assert_eq!(log.borrow().submitted, vec![expected]);
}

#[test]
fn unknown_device_names_fall_back() {
    let log = Rc::new(RefCell::new(Log::default()));
    let make = maker(&log, true, true);
    let mut c = fresh();
    c.device_list(vec![device("kb1", 0, 0)]);
    c.assign_keyboard(0, Some("kb1".to_string()), &make).unwrap();
    c.devices.clear();
    match c.key_event("kb1", "W", false) {
        KeyOutcome::Handled { event, .. } => assert_eq!(event.device_name, "Keyboard"),
        _ => panic!("expected a handled event"),
    }
}

#[test]
fn bindings_replace_instead_of_stacking() {
    let mut c = fresh();
    let before = c.players[0].bindings.len();
    let jump = Binding { key: "Space".to_string(), target: Target::Button { button: GamepadButton::Y } };
    assert!(c.set_binding(0, jump.clone()));
    assert_eq!(c.players[0].bindings.len(), before);
    assert_eq!(c.players[0].bindings.last(), Some(&jump));
    assert_eq!(c.players[0].bindings.iter().filter(|b| b.key == "Space").count(), 1);
    assert!(c.remove_binding(0, &"Space".to_string()));
    assert_eq!(c.players[0].bindings.iter().filter(|b| b.key == "Space").count(), 0);
    assert!(!c.set_binding(4, jump));
    assert!(c.clear_mapping(1));
    assert!(c.players[1].bindings.is_empty());
    assert!(c.reset_default(1));
    assert_eq!(c.players[1].bindings, default_bindings());
}

#[test]
fn unplugging_releases_and_replugging_reassociates() {
    let log = Rc::new(RefCell::new(Log::default()));
    let make = maker(&log, true, true);
    let mut c = fresh();
    c.device_list(vec![device("usb-1", 0x46D, 0xC52B), device("acpi", 0, 0)]);
    c.assign_keyboard(0, Some("usb-1".to_string()), &make).unwrap();
    c.assign_keyboard(1, Some("acpi".to_string()), &make).unwrap();
    c.set_running(true, &make);
    c.key_event("usb-1", "W", true);
    c.key_event("acpi", "W", true);
    assert_eq!(c.players[0].held.len(), 1);

    c.device_list(vec![device("usb-2", 0x46D, 0xC52B)]);
    assert_eq!(c.players[0].keyboard.as_deref(), Some("usb-2"));
    assert!(c.players[0].held.is_empty());
    assert_eq!(c.players[0].last_report, None);
    assert_eq!(c.players[1].keyboard.as_deref(), Some("acpi"));
    assert!(c.players[1].held.is_empty());
    assert_eq!(c.previous_device_ids.len(), 2);
}

#[test]
fn reconnecting_pushes_the_last_report_again() {
    let log = Rc::new(RefCell::new(Log::default()));
    let make = maker(&log, true, true);
    let mut c = fresh();
    c.device_list(vec![device("kb1", 0, 0)]);
    c.assign_keyboard(0, Some("kb1".to_string()), &make).unwrap();
    assert_eq!(c.set_running(true, &make), vec![ControllerOutcome::Kept, ControllerOutcome::Untouched]);
    c.key_event("kb1", "Space", true);
    assert_eq!(
        c.reconnect_controllers(&make),
        vec![ControllerOutcome::Replaced, ControllerOutcome::Untouched]
    );
    let resent = c.players[0].controller.as_ref().unwrap().submitted;
    assert_eq!(resent.map(|r| r.buttons), Some(BIT_A));
    assert!(c.set_running(false, &make).is_empty());
    let l = log.borrow();
    assert_eq!(l.disconnects, 1);
    assert_eq!(l.connects, 2);
    assert_eq!(l.submitted.last().map(|r| r.buttons), Some(BIT_A));
}

#[test]
fn profiles_switch_and_protect_the_active_one() {
    let log = Rc::new(RefCell::new(Log::default()));
    let make = maker(&log, true, true);
    let mut c = fresh();
    c.device_list(vec![device("kb1", 0, 0)]);
    c.assign_keyboard(0, Some("kb1".to_string()), &make).unwrap();

    c.save_profile("  Couch / Night ");
    assert_eq!(c.active_profile, "Couch _ Night");
    assert_eq!(c.saved_config().players.len(), 2);
    assert_eq!(c.saved_config().players[0].keyboard.as_deref(), Some("kb1"));
    assert_eq!(
        c.check_delete_profile("Couch / Night"),
        Err("Cannot delete the active profile".to_string())
    );
    assert_eq!(c.check_delete_profile("Other"), Ok(()));

    assert_eq!(
        c.load_profile("Nope", false, None, &make),
        Err("Profile 'Nope' does not exist".to_string())
    );
    assert_eq!(c.active_profile, "Couch _ Night");

    let saved = SavedConfig {
        players: vec![
            SavedPlayer { name: "Ann".to_string(), keyboard: Some("kb1".to_string()), bindings: vec![] },
            SavedPlayer { name: "Ben".to_string(), keyboard: None, bindings: vec![] },
        ],
    };
    assert_eq!(c.load_profile("Evening", true, Some(saved), &make), Ok(()));
    assert_eq!(c.active_profile, "Evening");
    assert_eq!(names(&c), vec!["Ann", "Ben"]);
    assert_eq!(log.borrow().disconnects, 1);
    assert!(c.players[0].controller.is_some());
    assert!(c.players[1].controller.is_none());

    c.shutdown();
    assert!(c.players.iter().all(|p| p.controller.is_none()));
    assert_eq!(log.borrow().disconnects, 2);
}

#[test]
fn driver_status_from_probe() {
    let ok = probe_driver_status(Ok(()));
    assert!(ok.available);
    assert_eq!(ok.message, "ViGEmBus driver detected");
    let err = probe_driver_status(Err("no bus".to_string()));
    assert!(!err.available);
    assert_eq!(err.message, "no bus");
}

#[test]
fn rebinding_a_key_keeps_the_last_target() {
    let mut c = fresh();
    let x = Binding { key: "K".to_string(), target: Target::Button { button: GamepadButton::X } };
    let y = Binding { key: "K".to_string(), target: Target::Button { button: GamepadButton::Y } };
    c.set_binding(0, x);
    c.set_binding(0, y.clone());
    let k: Vec<&Binding> = c.players[0].bindings.iter().filter(|b| b.key == "K").collect();
    assert_eq!(k, vec![&y]);
}

#[test]
fn stick_sums_out_of_range_are_reported() {
    let up = Target::Stick {
        side: keyboard_splitter::model::StickSide::Left,
        direction: keyboard_splitter::model::StickDirection::Up,
    };
    let many: Vec<Binding> = (0..65536).map(|_| Binding { key: "W".to_string(), target: up }).collect();
    let saved = SavedConfig {
        players: vec![SavedPlayer { name: "A".to_string(), keyboard: Some("kb1".to_string()), bindings: many }],
    };
    let mut c: Core<Mock> = Core::new(driver(), Some(saved));
    let log = Rc::new(RefCell::new(Log::default()));
    c.set_running(true, &maker(&log, true, true));
    assert!(matches!(c.key_event("kb1", "W", true), KeyOutcome::Overflow { .. }));
    assert_eq!(c.players[0].held, vec!["W".to_string()]);
    assert_eq!(c.players[0].last_report, None);
    assert!(matches!(c.key_event("kb1", "S", true), KeyOutcome::Overflow { .. }));
}

#[test]
fn a_dead_controller_is_replaced() {
    let log = Rc::new(RefCell::new(Log::default()));
    let make = maker(&log, true, true);
    let mut c = fresh();
    c.device_list(vec![device("kb1", 0, 0)]);
    c.assign_keyboard(0, Some("kb1".to_string()), &make).unwrap();
    c.players[0].controller.as_mut().unwrap().connected = false;
    assert_eq!(c.set_running(true, &make), vec![ControllerOutcome::Replaced, ControllerOutcome::Untouched]);
    assert_eq!(log.borrow().connects, 2);
    assert_eq!(log.borrow().disconnects, 0, "only a forced replacement unplugs the old controller");
}

#[test]
fn a_replugged_keyboard_goes_to_one_player_only() {
    let log = Rc::new(RefCell::new(Log::default()));
    let make = maker(&log, true, true);
    let mut c = fresh();
    c.device_list(vec![device("usb-1", 0x46D, 0xC52B), device("usb-2", 0x46D, 0xC52B)]);
    c.assign_keyboard(0, Some("usb-1".to_string()), &make).unwrap();
    c.assign_keyboard(1, Some("usb-2".to_string()), &make).unwrap();
    c.device_list(vec![device("usb-3", 0x46D, 0xC52B)]);
    assert_eq!(c.players[0].keyboard.as_deref(), Some("usb-3"));
    assert_eq!(c.players[1].keyboard.as_deref(), Some("usb-2"));
}

#[test]
fn a_connected_controller_is_kept_unless_forced() {
    let log = Rc::new(RefCell::new(Log::default()));
    let make = maker(&log, true, true);
    let mut c = fresh();
    c.device_list(vec![device("kb1", 0, 0)]);
    c.assign_keyboard(0, Some("kb1".to_string()), &make).unwrap();
    assert_eq!(c.ensure_controller(0, false, &make), ControllerOutcome::Kept);
    assert_eq!(c.ensure_controller(0, true, &make), ControllerOutcome::Replaced);
    assert_eq!(log.borrow().connects, 2);
}

#[test]
fn held_keys_never_repeat() {
    let log = Rc::new(RefCell::new(Log::default()));
    let make = maker(&log, true, true);
    let mut c = fresh();
    c.device_list(vec![device("kb1", 0, 0)]);
    c.assign_keyboard(0, Some("kb1".to_string()), &make).unwrap();
    c.set_running(true, &make);
    c.key_event("kb1", "W", true);
    c.key_event("kb1", "D", true);
    c.key_event("kb1", "W", true);
    assert_eq!(c.players[0].held, vec!["W".to_string(), "D".to_string()]);
    c.key_event("kb1", "W", false);
    assert_eq!(c.players[0].held, vec!["D".to_string()]);
}
