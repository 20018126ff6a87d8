//! Shared data model used by the engine, the IPC layer and the frontend.

pub mod keys;

use vstd::prelude::*;

verus! {

// ---------------------------------------------------------------------------
// Gamepad "targets" - what a physical key press is turned into.
// ---------------------------------------------------------------------------

#[derive(Debug, Clone, Copy, PartialEq, Eq, Structural)]
pub enum GamepadButton {
    A,
    B,
    X,
    Y,
    LB,
    RB,
    Back,
    Start,
    LThumb,
    RThumb,
    Guide,
}

#[derive(Debug, Clone, Copy, PartialEq, Eq, Structural)]
pub enum DpadDirection {
    Up,
    Down,
    Left,
    Right,
}

#[derive(Debug, Clone, Copy, PartialEq, Eq, Structural)]
pub enum StickSide {
    Left,
    Right,
}

#[derive(Debug, Clone, Copy, PartialEq, Eq, Structural)]
pub enum StickDirection {
    Up,
    Down,
    Left,
    Right,
}

#[derive(Debug, Clone, Copy, PartialEq, Eq, Structural)]
pub enum TriggerSide {
    Left,
    Right,
}

/// A controller action a physical key can be bound to.
#[derive(Debug, Clone, Copy, PartialEq, Eq, Structural)]
#[allow(inconsistent_fields)]
pub enum Target {
    Button { button: GamepadButton },
    Dpad { direction: DpadDirection },
    Trigger { side: TriggerSide },
    Stick { side: StickSide, direction: StickDirection },
}

/// One "key -> controller action" entry of a player mapping.
#[derive(Debug, Clone, PartialEq, Eq)]
pub struct Binding {
    /// Canonical key name, see `crate::model::keys` ("W", "Space", "Left", ...).
    pub key: String,
    pub target: Target,
}

// ---------------------------------------------------------------------------
// Devices
// ---------------------------------------------------------------------------

/// A physical keyboard discovered through the Raw Input API.
#[derive(Debug, Clone, PartialEq, Eq)]
pub struct KeyboardDevice {
    /// Stable-ish per-instance identifier (Windows device path).
    pub id: String,
    /// Human readable name shown in the UI.
    pub name: String,
    pub vendor_id: u32,
    pub product_id: u32,
    /// Windows device path (useful for debugging / future matching).
    pub path: String,
}

// ---------------------------------------------------------------------------
// Controller driver status
// ---------------------------------------------------------------------------

#[derive(Debug, Clone, PartialEq, Eq)]
pub struct DriverStatus {
    pub available: bool,
    pub message: String,
}

// ---------------------------------------------------------------------------
// Runtime players / snapshots sent to the UI
// ---------------------------------------------------------------------------

/// Runtime view of one player slot exposed to the frontend.
#[derive(Debug, Clone, PartialEq)]
pub struct PlayerInfo {
    pub index: usize,
    pub name: String,
    /// Device id of the assigned physical keyboard, if any.
    pub keyboard: Option<String>,
    /// Human readable name of the assigned keyboard (resolved from devices).
    pub keyboard_name: Option<String>,
    pub controller_state: ControllerState,
    pub bindings: Vec<Binding>,
}

#[derive(Debug, Clone, PartialEq, Eq)]
pub struct ControllerState {
    pub status: ControllerStatus,
    pub message: Option<String>,
}

#[derive(Debug, Clone, Copy, PartialEq, Eq, Structural)]
pub enum ControllerStatus {
    Connected,
    Error,
    NotConnected,
}

/// Full state snapshot sent in reply to `snapshot` and after every mutation.
#[derive(Debug, Clone, PartialEq)]
pub struct Snapshot {
    pub engine_running: bool,
    pub driver: DriverStatus,
    pub devices: Vec<KeyboardDevice>,
    pub players: Vec<PlayerInfo>,
    pub active_profile: String,
}

/// Event payload emitted when a key is pressed/released on an assigned keyboard.
/// The mapping editor listens to this to "capture" the next physical key.
#[derive(Debug, Clone, PartialEq, Eq)]
pub struct KeyEventDto {
    pub device: String,
    pub device_name: String,
    pub key: String,
    pub down: bool,
}

// ---------------------------------------------------------------------------
// Persisted configuration (profiles)
// ---------------------------------------------------------------------------

#[derive(Debug, Clone, Default, PartialEq, Eq)]
pub struct SavedPlayer {
    pub name: String,
    pub keyboard: Option<String>,
    pub bindings: Vec<Binding>,
}

#[derive(Debug, Clone, Default, PartialEq, Eq)]
pub struct SavedConfig {
    pub players: Vec<SavedPlayer>,
}

} // verus!

verus! {

/// Spec view of a keyboard device.
pub struct KeyboardDeviceView {
    pub id: Seq<char>,
    pub name: Seq<char>,
    pub vendor_id: u32,
    pub product_id: u32,
    pub path: Seq<char>,
}

impl View for KeyboardDevice {
    type V = KeyboardDeviceView;

    open spec fn view(&self) -> KeyboardDeviceView {
        KeyboardDeviceView {
            id: self.id@,
            name: self.name@,
            vendor_id: self.vendor_id,
            product_id: self.product_id,
            path: self.path@,
        }
    }
}

/// View of an optional string.
pub open spec fn opt_view(o: Option<String>) -> Option<Seq<char>> {
    match o {
        Some(s) => Some(s@),
        None => None,
    }
}

/// View of a binding list as (key name, target) rows.
pub open spec fn bindings_view(v: Seq<Binding>) -> Seq<(Seq<char>, Target)> {
    Seq::new(v.len(), |i: int| (v[i].key@, v[i].target))
}

/// View of a device list.
pub open spec fn devices_view(v: Seq<KeyboardDevice>) -> Seq<KeyboardDeviceView> {
    Seq::new(v.len(), |i: int| v[i]@)
}

/// View of a string list.
pub open spec fn strings_view(v: Seq<String>) -> Seq<Seq<char>> {
    Seq::new(v.len(), |i: int| v[i]@)
}

/// A copy of an optional string.
pub fn copy_opt_string(o: &Option<String>) -> (r: Option<String>)
    ensures
        opt_view(r) == opt_view(*o),
{
    match o {
        Some(s) => Some(s.clone()),
        None => None,
    }
}

impl Binding {
    /// A copy of this binding.
    pub fn duplicate(&self) -> (r: Binding)
        ensures
            r.key@ == self.key@,
            r.target == self.target,
    {
        Binding { key: self.key.clone(), target: self.target }
    }
}

impl KeyboardDevice {
    /// A copy of this device.
    pub fn duplicate(&self) -> (r: KeyboardDevice)
        ensures
            r@ == self@,
    {
        KeyboardDevice {
            id: self.id.clone(),
            name: self.name.clone(),
            vendor_id: self.vendor_id,
            product_id: self.product_id,
            path: self.path.clone(),
        }
    }
}

impl DriverStatus {
    /// A copy of this status.
    pub fn duplicate(&self) -> (r: DriverStatus)
        ensures
            r.available == self.available,
            r.message@ == self.message@,
    {
        DriverStatus { available: self.available, message: self.message.clone() }
    }
}

/// A copy of a binding list.
pub fn copy_bindings(v: &[Binding]) -> (r: Vec<Binding>)
    ensures
        bindings_view(r@) == bindings_view(v@),
{
    let mut r: Vec<Binding> = Vec::new();
    let mut i: usize = 0;
    while i < v.len()
        invariant
            i <= v@.len(),
            r@.len() == i,
            bindings_view(r@) == bindings_view(v@).take(i as int),
        decreases v@.len() - i,
    {
        let ghost prev = r@;
        r.push(v[i].duplicate());
        i = i + 1;
        proof {
            assert forall|j: int| 0 <= j < i implies #[trigger] bindings_view(r@)[j] == bindings_view(v@).take(i as int)[j] by {
                if j < i - 1 {
                    assert(r@[j] == prev[j]);
                    assert(bindings_view(prev)[j] == bindings_view(v@).take(i - 1)[j]);
                }
            }
            assert(bindings_view(r@) =~= bindings_view(v@).take(i as int));
        }
    }
    proof {
        assert(bindings_view(v@).take(i as int) =~= bindings_view(v@));
    }
    r
}

/// A copy of a device list.
pub fn copy_devices(v: &[KeyboardDevice]) -> (r: Vec<KeyboardDevice>)
    ensures
        devices_view(r@) == devices_view(v@),
{
    let mut r: Vec<KeyboardDevice> = Vec::new();
    let mut i: usize = 0;
    while i < v.len()
        invariant
            i <= v@.len(),
            r@.len() == i,
            forall|j: int| 0 <= j < i ==> (#[trigger] r@[j])@ == v@[j]@,
        decreases v@.len() - i,
    {
        r.push(v[i].duplicate());
        i = i + 1;
    }
    proof {
        assert(devices_view(r@) =~= devices_view(v@));
    }
    r
}

} // verus!
