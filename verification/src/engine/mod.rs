//! Core engine state: devices, players, mappings and virtual controllers.
//!
//! The engine thread (outside this crate) owns one [`Core`] and feeds it
//! the requests of the user interface and the events of the raw input
//! capture; every state transition lives here. Reading and writing profile
//! files, probing the driver and emitting UI events stay with the caller,
//! which hands the results in as plain values. The virtual controllers are
//! driven through [`VirtualController`].

pub mod editing;
pub mod controllers;
pub mod keyboards;
pub mod persistence;
pub mod key_events;

use vstd::prelude::*;

use crate::controller::{GamepadReport, VirtualController};
use crate::model::{
    bindings_view, copy_bindings, copy_devices, copy_opt_string, devices_view, opt_view, strings_view,
    Binding, ControllerState, ControllerStatus, DriverStatus, KeyboardDevice, PlayerInfo,
    Snapshot,
};
use crate::presets::{default_bindings, preset_keys};
use crate::text::{decimal, push_decimal, str_eq};

verus! {

/// XInput exposes at most four controllers.
pub const MAX_PLAYERS: usize = 4;

/// Profile used at startup.
pub const DEFAULT_PROFILE: &'static str = "Default";

/// Message of a player without a virtual controller and without an error.
pub const NO_CONTROLLER_MESSAGE: &'static str = "No virtual controller - assign a keyboard first";

/// Default label of the player in slot `index`: "Player {index + 1}".
pub open spec fn player_label(index: int) -> Seq<char> {
    "Player "@ + decimal((index + 1) as nat)
}

/// "Player {index + 1}".
pub fn player_label_string(index: usize) -> (r: String)
    requires
        index < usize::MAX,
    ensures
        r@ == player_label(index as int),
{
    let mut s = "Player ".to_string();
    push_decimal(&mut s, (index as u64) + 1);
    s
}

/// Status shown when the driver answered.
pub const DRIVER_DETECTED: &'static str = "ViGEmBus driver detected";

/// The driver status after probing it: available when the probe
/// succeeded, otherwise unavailable with the probe's message.
pub fn probe_driver_status(probe: Result<(), String>) -> (r: DriverStatus)
    ensures
        (match probe {
            Ok(()) => r.available && r.message@ == DRIVER_DETECTED@,
            Err(e) => !r.available && r.message == e,
        }),
{
    match probe {
        Ok(()) => DriverStatus { available: true, message: DRIVER_DETECTED.to_string() },
        Err(e) => DriverStatus { available: false, message: e },
    }
}

/// One player slot at run time.
pub struct PlayerRuntime<C> {
    pub name: String,
    /// Device id of the assigned physical keyboard.
    pub keyboard: Option<String>,
    pub bindings: Vec<Binding>,
    /// Canonical names of the keys currently held on that keyboard.
    pub held: Vec<String>,
    pub controller: Option<C>,
    pub controller_error: Option<String>,
    /// Last report the virtual controller accepted.
    pub last_report: Option<GamepadReport>,
}

impl<C> PlayerRuntime<C> {
    /// A fresh slot: default label and bindings, nothing assigned or held.
    pub open spec fn is_fresh(self, index: int) -> bool {
        &&& self.name@ == player_label(index)
        &&& self.keyboard is None
        &&& bindings_view(self.bindings@) == preset_keys(0)
        &&& self.held@.len() == 0
        &&& self.controller is None
        &&& self.controller_error is None
        &&& self.last_report is None
    }

    pub fn new(index: usize) -> (p: Self)
        requires
            index < usize::MAX,
        ensures
            p.is_fresh(index as int),
    {
        PlayerRuntime {
            name: player_label_string(index),
            keyboard: None,
            bindings: default_bindings(),
            held: Vec::new(),
            controller: None,
            controller_error: None,
            last_report: None,
        }
    }

    /// Connected with a controller, Error with only an error, else NotConnected.
    pub open spec fn spec_status(self) -> ControllerStatus {
        if self.controller is Some {
            ControllerStatus::Connected
        } else if self.controller_error is Some {
            ControllerStatus::Error
        } else {
            ControllerStatus::NotConnected
        }
    }

    /// The error if there is one, else the hint for an unconnected slot.
    pub open spec fn spec_status_message(self) -> Option<Seq<char>> {
        match self.controller_error {
            Some(e) => Some(e@),
            None => if self.spec_status() == ControllerStatus::NotConnected {
                Some(NO_CONTROLLER_MESSAGE@)
            } else {
                None
            },
        }
    }

    pub fn controller_state(&self) -> (r: ControllerState)
        ensures
            r.status == self.spec_status(),
            opt_view(r.message) == self.spec_status_message(),
    {
        let status = if self.controller.is_some() {
            ControllerStatus::Connected
        } else if self.controller_error.is_some() {
            ControllerStatus::Error
        } else {
            ControllerStatus::NotConnected
        };
        let message = match &self.controller_error {
            Some(e) => Some(e.clone()),
            None => {
                if self.controller.is_none() {
                    Some(NO_CONTROLLER_MESSAGE.to_string())
                } else {
                    None
                }
            },
        };
        ControllerState { status, message }
    }
}

/// No key name occurs twice.
pub open spec fn no_repeats(s: Seq<Seq<char>>) -> bool {
    forall|i: int, j: int| 0 <= i < j < s.len() ==> s[i] != s[j]
}

/// The held keys of `p` form a set: no key is held twice.
pub open spec fn held_is_set<C>(p: PlayerRuntime<C>) -> bool {
    no_repeats(strings_view(p.held@))
}

/// The engine's authoritative state.
pub struct Core<C> {
    pub running: bool,
    pub driver: DriverStatus,
    pub devices: Vec<KeyboardDevice>,
    /// (id, vendor id, product id) of each device of the previous device
    /// list, used to re-associate a player with a re-plugged keyboard.
    pub previous_device_ids: Vec<(String, u32, u32)>,
    pub players: Vec<PlayerRuntime<C>>,
    pub active_profile: String,
}

impl<C> Core<C> {
    /// Between two and four player slots, each holding a set of keys.
    pub open spec fn wf(self) -> bool {
        &&& 2 <= self.players@.len() <= MAX_PLAYERS
        &&& forall|i: int| 0 <= i < self.players@.len() ==> held_is_set(#[trigger] self.players@[i])
    }

    /// `self` and `old` differ at most in player `i`.
    pub open spec fn only_player_changed(self, old: Core<C>, i: int) -> bool {
        &&& self == (Core { players: self.players, ..old })
        &&& self.players@.len() == old.players@.len()
        &&& forall|j: int| 0 <= j < old.players@.len() && j != i ==> self.players@[j] == old.players@[j]
    }

    /// Player `i` of `self` is player `i` of `old` with new bindings, no
    /// held keys and no last report; nothing else changed.
    pub open spec fn rebound(self, old: Core<C>, i: int) -> bool {
        &&& self.only_player_changed(old, i)
        &&& self.players@[i] == (PlayerRuntime {
            bindings: self.players@[i].bindings,
            held: self.players@[i].held,
            last_report: None,
            ..old.players@[i]
        })
        &&& self.players@[i].held@.len() == 0
    }

    /// Empties the held keys of player `i` and forgets its last report.
    fn release_keys(&mut self, i: usize)
        requires
            i < old(self).players@.len(),
        ensures
            final(self).only_player_changed(*old(self), i as int),
            final(self).players@[i as int] == (PlayerRuntime {
                held: final(self).players@[i as int].held,
                last_report: None,
                ..old(self).players@[i as int]
            }),
            final(self).players@[i as int].held@.len() == 0,
    {
        self.players[i].held = Vec::new();
        self.players[i].last_report = None;
    }
}

/// Some device of `devs` has id `id`.
pub open spec fn device_present(devs: Seq<KeyboardDevice>, id: Seq<char>) -> bool {
    exists|i: int| 0 <= i < devs.len() && (#[trigger] devs[i]).id@ == id
}

fn has_device(devs: &[KeyboardDevice], id: &String) -> (r: bool)
    ensures
        r == device_present(devs@, id@),
{
    let mut i: usize = 0;
    while i < devs.len()
        invariant
            i <= devs@.len(),
            forall|j: int| 0 <= j < i ==> (#[trigger] devs@[j]).id@ != id@,
        decreases devs@.len() - i,
    {
        if devs[i].id == *id {
            return true;
        }
        i = i + 1;
    }
    false
}

/// Name of the first device of `devs` with id `id`.
pub open spec fn device_name(devs: Seq<KeyboardDevice>, id: Seq<char>, n: int) -> Option<Seq<char>>
    decreases n,
{
    if n <= 0 {
        None
    } else {
        match device_name(devs, id, n - 1) {
            Some(name) => Some(name),
            None => if devs[n - 1].id@ == id {
                Some(devs[n - 1].name@)
            } else {
                None
            },
        }
    }
}

proof fn lemma_device_name_stays(devs: Seq<KeyboardDevice>, id: Seq<char>, n: int, m: int)
    requires
        0 <= n <= m,
        device_name(devs, id, n) is Some,
    ensures
        device_name(devs, id, m) == device_name(devs, id, n),
    decreases m - n,
{
    if m > n {
        lemma_device_name_stays(devs, id, n, m - 1);
    }
}

fn find_device_name(devs: &[KeyboardDevice], id: &str) -> (r: Option<String>)
    ensures
        opt_view(r) == device_name(devs@, id@, devs@.len() as int),
{
    let mut i: usize = 0;
    while i < devs.len()
        invariant
            i <= devs@.len(),
            device_name(devs@, id@, i as int) is None,
        decreases devs@.len() - i,
    {
        if str_eq(devs[i].id.as_str(), id) {
            proof {
                lemma_device_name_stays(devs@, id@, i + 1, devs@.len() as int);
            }
            return Some(devs[i].name.clone());
        }
        i = i + 1;
    }
    None
}

/// `info` describes player `p` in slot `i` of a snapshot over `devs`.
pub open spec fn describes<C>(info: PlayerInfo, p: PlayerRuntime<C>, i: int, devs: Seq<KeyboardDevice>) -> bool {
    &&& info.index == i
    &&& info.name@ == p.name@
    &&& opt_view(info.keyboard) == opt_view(p.keyboard)
    &&& opt_view(info.keyboard_name) == (match p.keyboard {
        Some(k) => device_name(devs, k@, devs.len() as int),
        None => None,
    })
    &&& info.controller_state.status == p.spec_status()
    &&& opt_view(info.controller_state.message) == p.spec_status_message()
    &&& bindings_view(info.bindings@) == bindings_view(p.bindings@)
}

impl<C> Core<C> {
    /// The state shown to the user interface.
    pub fn snapshot(&self) -> (r: Snapshot)
        ensures
            r.engine_running == self.running,
            r.driver.available == self.driver.available,
            r.driver.message@ == self.driver.message@,
            devices_view(r.devices@) == devices_view(self.devices@),
            r.active_profile@ == self.active_profile@,
            r.players@.len() == self.players@.len(),
            forall|i: int| 0 <= i < self.players@.len() ==> describes(
                #[trigger] r.players@[i],
                self.players@[i],
                i,
                self.devices@,
            ),
    {
        let mut players: Vec<PlayerInfo> = Vec::new();
        let mut i: usize = 0;
        while i < self.players.len()
            invariant
                i <= self.players@.len(),
                players@.len() == i,
                forall|j: int| 0 <= j < i ==> describes(#[trigger] players@[j], self.players@[j], j, self.devices@),
            decreases self.players@.len() - i,
        {
            let p = &self.players[i];
            let keyboard_name = match &p.keyboard {
                Some(k) => find_device_name(self.devices.as_slice(), k.as_str()),
                None => None,
            };
            players.push(PlayerInfo {
                index: i,
                name: p.name.clone(),
                keyboard: copy_opt_string(&p.keyboard),
                keyboard_name,
                controller_state: p.controller_state(),
                bindings: copy_bindings(p.bindings.as_slice()),
            });
            i = i + 1;
        }
        Snapshot {
            engine_running: self.running,
            driver: self.driver.duplicate(),
            devices: copy_devices(self.devices.as_slice()),
            players,
            active_profile: self.active_profile.clone(),
        }
    }
}

} // verus!
