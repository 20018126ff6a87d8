//! Virtual controller abstraction and XInput report math.
//!
//! The engine only knows about [`VirtualController`] and [`GamepadReport`].
//! The concrete backend (ViGEmBus) lives outside this library and can be
//! swapped without touching engine / mapping code.

use vstd::prelude::*;

use crate::model::{DpadDirection, GamepadButton, StickDirection, StickSide, Target, TriggerSide};

verus! {

// XInput button bit layout (identical to the Xbox 360 XUSB report and to the
// bits ViGEmBus expects).
pub const BIT_DPAD_UP: u16 = 0x0001;
pub const BIT_DPAD_DOWN: u16 = 0x0002;
pub const BIT_DPAD_LEFT: u16 = 0x0004;
pub const BIT_DPAD_RIGHT: u16 = 0x0008;
pub const BIT_START: u16 = 0x0010;
pub const BIT_BACK: u16 = 0x0020;
pub const BIT_LTHUMB: u16 = 0x0040;
pub const BIT_RTHUMB: u16 = 0x0080;
pub const BIT_LB: u16 = 0x0100;
pub const BIT_RB: u16 = 0x0200;
pub const BIT_GUIDE: u16 = 0x0400;
pub const BIT_A: u16 = 0x1000;
pub const BIT_B: u16 = 0x2000;
pub const BIT_X: u16 = 0x4000;
pub const BIT_Y: u16 = 0x8000;

/// Full deflection a digital key adds to a stick axis (one unit past
/// `i16::MAX`; the sum is clamped into the i16 range by `finish`).
pub const STICK_MAGNITUDE: i32 = 32768;

/// Full XInput-compatible controller state that gets pushed to the driver.
#[derive(Debug, Clone, Copy, PartialEq, Eq, Structural)]
pub struct GamepadReport {
    pub buttons: u16,
    pub left_trigger: u8,
    pub right_trigger: u8,
    pub left_x: i16,
    pub left_y: i16,
    pub right_x: i16,
    pub right_y: i16,
}

/// The idle report: nothing pressed, sticks centred.
pub open spec fn idle_report() -> GamepadReport {
    GamepadReport {
        buttons: 0,
        left_trigger: 0,
        right_trigger: 0,
        left_x: 0,
        left_y: 0,
        right_x: 0,
        right_y: 0,
    }
}

impl Default for GamepadReport {
    fn default() -> (r: GamepadReport)
        ensures
            r == idle_report(),
    {
        GamepadReport {
            buttons: 0,
            left_trigger: 0,
            right_trigger: 0,
            left_x: 0,
            left_y: 0,
            right_x: 0,
            right_y: 0,
        }
    }
}

/// Intermediate accumulation buffer used while combining every pressed
/// binding of one player into a single report.
#[derive(Debug, Clone, Copy)]
pub struct Accumulator {
    pub buttons: u16,
    pub left_trigger: u32,
    pub right_trigger: u32,
    pub left_x: i32,
    pub left_y: i32,
    pub right_x: i32,
    pub right_y: i32,
}

/// The empty accumulator.
pub open spec fn empty_accumulator() -> Accumulator {
    Accumulator {
        buttons: 0,
        left_trigger: 0,
        right_trigger: 0,
        left_x: 0,
        left_y: 0,
        right_x: 0,
        right_y: 0,
    }
}

impl Default for Accumulator {
    fn default() -> (r: Accumulator)
        ensures
            r == empty_accumulator(),
    {
        Accumulator {
            buttons: 0,
            left_trigger: 0,
            right_trigger: 0,
            left_x: 0,
            left_y: 0,
            right_x: 0,
            right_y: 0,
        }
    }
}

pub open spec fn spec_button_bit(button: GamepadButton) -> u16 {
    match button {
        GamepadButton::A => BIT_A,
        GamepadButton::B => BIT_B,
        GamepadButton::X => BIT_X,
        GamepadButton::Y => BIT_Y,
        GamepadButton::LB => BIT_LB,
        GamepadButton::RB => BIT_RB,
        GamepadButton::Back => BIT_BACK,
        GamepadButton::Start => BIT_START,
        GamepadButton::LThumb => BIT_LTHUMB,
        GamepadButton::RThumb => BIT_RTHUMB,
        GamepadButton::Guide => BIT_GUIDE,
    }
}

pub open spec fn spec_dpad_bit(dir: DpadDirection) -> u16 {
    match dir {
        DpadDirection::Up => BIT_DPAD_UP,
        DpadDirection::Down => BIT_DPAD_DOWN,
        DpadDirection::Left => BIT_DPAD_LEFT,
        DpadDirection::Right => BIT_DPAD_RIGHT,
    }
}

pub fn button_bit(button: GamepadButton) -> (r: u16)
    ensures
        r == spec_button_bit(button),
{
    match button {
        GamepadButton::A => BIT_A,
        GamepadButton::B => BIT_B,
        GamepadButton::X => BIT_X,
        GamepadButton::Y => BIT_Y,
        GamepadButton::LB => BIT_LB,
        GamepadButton::RB => BIT_RB,
        GamepadButton::Back => BIT_BACK,
        GamepadButton::Start => BIT_START,
        GamepadButton::LThumb => BIT_LTHUMB,
        GamepadButton::RThumb => BIT_RTHUMB,
        GamepadButton::Guide => BIT_GUIDE,
    }
}

pub fn dpad_bit(dir: DpadDirection) -> (r: u16)
    ensures
        r == spec_dpad_bit(dir),
{
    match dir {
        DpadDirection::Up => BIT_DPAD_UP,
        DpadDirection::Down => BIT_DPAD_DOWN,
        DpadDirection::Left => BIT_DPAD_LEFT,
        DpadDirection::Right => BIT_DPAD_RIGHT,
    }
}

/// Horizontal unit step of a stick direction (right is positive).
pub open spec fn stick_dx(dir: StickDirection) -> int {
    match dir {
        StickDirection::Left => -1,
        StickDirection::Right => 1,
        _ => 0,
    }
}

/// Vertical unit step of a stick direction (up is positive).
pub open spec fn stick_dy(dir: StickDirection) -> int {
    match dir {
        StickDirection::Up => 1,
        StickDirection::Down => -1,
        _ => 0,
    }
}

pub open spec fn fits_i32(v: int) -> bool {
    i32::MIN <= v <= i32::MAX
}

/// u32 addition that sticks at `u32::MAX`.
pub open spec fn saturating_add_u32(x: u32, y: u32) -> u32 {
    if x + y > u32::MAX {
        u32::MAX
    } else {
        (x + y) as u32
    }
}

/// Adding `target` to `acc` does not overflow the i32 stick sums.
pub open spec fn accumulate_fits(target: Target, acc: Accumulator) -> bool {
    match target {
        Target::Stick { side, direction } => match side {
            StickSide::Left => fits_i32(acc.left_x + stick_dx(direction) * 32768) && fits_i32(
                acc.left_y + stick_dy(direction) * 32768,
            ),
            StickSide::Right => fits_i32(acc.right_x + stick_dx(direction) * 32768) && fits_i32(
                acc.right_y + stick_dy(direction) * 32768,
            ),
        },
        _ => true,
    }
}

/// The contribution of one target: buttons and D-pad are OR-ed in, a
/// trigger adds a full 255 press (saturating), a stick direction adds a
/// full deflection to its axis.
pub open spec fn spec_accumulate(target: Target, acc: Accumulator) -> Accumulator {
    match target {
        Target::Button { button } => Accumulator { buttons: acc.buttons | spec_button_bit(button), ..acc },
        Target::Dpad { direction } => Accumulator { buttons: acc.buttons | spec_dpad_bit(direction), ..acc },
        Target::Trigger { side } => match side {
            TriggerSide::Left => Accumulator {
                left_trigger: saturating_add_u32(acc.left_trigger, 255),
                ..acc
            },
            TriggerSide::Right => Accumulator {
                right_trigger: saturating_add_u32(acc.right_trigger, 255),
                ..acc
            },
        },
        Target::Stick { side, direction } => match side {
            StickSide::Left => Accumulator {
                left_x: (acc.left_x + stick_dx(direction) * 32768) as i32,
                left_y: (acc.left_y + stick_dy(direction) * 32768) as i32,
                ..acc
            },
            StickSide::Right => Accumulator {
                right_x: (acc.right_x + stick_dx(direction) * 32768) as i32,
                right_y: (acc.right_y + stick_dy(direction) * 32768) as i32,
                ..acc
            },
        },
    }
}

/// Add the contribution of one target to the accumulator.
/// Sticks/triggers are summed (W+S cancel out), buttons are OR-ed.
pub fn accumulate(target: Target, acc: &mut Accumulator)
    requires
        accumulate_fits(target, *old(acc)),
    ensures
        *final(acc) == spec_accumulate(target, *old(acc)),
{
    match target {
        Target::Button { button } => acc.buttons = acc.buttons | button_bit(button),
        Target::Dpad { direction } => acc.buttons = acc.buttons | dpad_bit(direction),
        Target::Trigger { side } => match side {
            TriggerSide::Left => acc.left_trigger = acc.left_trigger.saturating_add(255),
            TriggerSide::Right => acc.right_trigger = acc.right_trigger.saturating_add(255),
        },
        Target::Stick { side, direction } => {
            let (dx, dy): (i32, i32) = match direction {
                StickDirection::Up => (0, 1),
                StickDirection::Down => (0, -1),
                StickDirection::Left => (-1, 0),
                StickDirection::Right => (1, 0),
            };
            // XInput reports sticks as full-range i16: -32768 .. 32767.
            // A digital key pushes all the way in its direction; values are
            // summed first (W+S cancel out) and clamped in `finish`.
            let mag: i32 = STICK_MAGNITUDE;
            match side {
                StickSide::Left => {
                    acc.left_x = acc.left_x + dx * mag;
                    acc.left_y = acc.left_y + dy * mag;
                },
                StickSide::Right => {
                    acc.right_x = acc.right_x + dx * mag;
                    acc.right_y = acc.right_y + dy * mag;
                },
            }
        },
    }
}

/// `v` clamped into the i16 range.
pub open spec fn clamp_i16(v: int) -> i16 {
    if v < i16::MIN {
        i16::MIN
    } else if v > i16::MAX {
        i16::MAX
    } else {
        v as i16
    }
}

/// `v` capped at `u8::MAX`.
pub open spec fn cap_u8(v: int) -> u8 {
    if v > u8::MAX {
        u8::MAX
    } else {
        v as u8
    }
}

pub open spec fn spec_finish(acc: Accumulator) -> GamepadReport {
    GamepadReport {
        buttons: acc.buttons,
        left_trigger: cap_u8(acc.left_trigger as int),
        right_trigger: cap_u8(acc.right_trigger as int),
        left_x: clamp_i16(acc.left_x as int),
        left_y: clamp_i16(acc.left_y as int),
        right_x: clamp_i16(acc.right_x as int),
        right_y: clamp_i16(acc.right_y as int),
    }
}

fn min_u32_to_u8(v: u32) -> (r: u8)
    ensures
        r == cap_u8(v as int),
{
    if v > 255 {
        255
    } else {
        v as u8
    }
}

fn clamp_i32_to_i16(v: i32) -> (r: i16)
    ensures
        r == clamp_i16(v as int),
{
    if v < -32768 {
        -32768
    } else if v > 32767 {
        32767
    } else {
        v as i16
    }
}

/// Finalize an accumulator into a driver-ready report.
pub fn finish(acc: Accumulator) -> (r: GamepadReport)
    ensures
        r == spec_finish(acc),
{
    GamepadReport {
        buttons: acc.buttons,
        left_trigger: min_u32_to_u8(acc.left_trigger),
        right_trigger: min_u32_to_u8(acc.right_trigger),
        left_x: clamp_i32_to_i16(acc.left_x),
        left_y: clamp_i32_to_i16(acc.left_y),
        right_x: clamp_i32_to_i16(acc.right_x),
        right_y: clamp_i32_to_i16(acc.right_y),
    }
}

/// A connected virtual Xbox controller.
///
/// Implementations are responsible for driver plumbing only. `submit` pushes
/// a full report; engines are expected to only submit when something changed.
pub trait VirtualController {
    /// Connect / (re)create the virtual controller. Returns a user readable
    /// error on failure (e.g. ViGEmBus driver not installed).
    fn connect(&mut self) -> Result<(), String>;

    /// Unplug / destroy the virtual controller.
    fn disconnect(&mut self);

    /// Push a full report to the virtual controller. Whatever the driver
    /// answers, the report is the last one the controller was handed, and
    /// pushing a report does not plug or unplug it.
    fn submit(&mut self, report: &GamepadReport) -> (r: Result<(), String>)
        ensures
            final(self).submitted() == Some(*report),
            final(self).connected() == old(self).connected(),
    ;

    /// Whether the controller is plugged in, as its backend records it.
    spec fn connected(&self) -> bool;

    /// The last report the controller was handed, if any.
    spec fn submitted(&self) -> Option<GamepadReport>;

    /// Answers from the controller's own state: the recorded connection.
    fn is_connected(&self) -> (r: bool)
        ensures
            r == self.connected(),
    ;
}

} // verus!
