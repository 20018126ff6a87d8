//! Built-in starter layouts ("presets") for popular local-multiplayer games.
//!
//! A preset is a per-player key -> controller mapping template. Because each
//! player owns a separate physical keyboard, the *same* preset can be applied
//! to every player and both still press their own keys (unlike classic
//! one-keyboard splitters, where players had to use different zones).
//!
//! Controller-side layouts follow the games' documented Xbox defaults:
//!   - EA Sports FC / FIFA:      A pass · B shoot · X cross/lob · Y through (in-game "Classic")
//!   - eFootball / PES:          A low pass · X shoot · B lofted/cross · Y through, dash on RB
//!                               (Konami "Standard" - also the out-of-the-box PES 2017 layout;
//!                               eFootball's "Alternate" scheme is the EA-style one above)
//!   - Mortal Kombat 1/11:       X/Y/A/B = FP/BP/FK/BK · LB throw · RT block
//!   - Tekken 7/8:               X/Y/A/B = LP/RP/LK/RK (combos are key chords)
//!   - Street Fighter 6:         X/Y/RB = LP/MP/HP · A/B/RT = LK/MK/HK
//!
//! The keyboard keys themselves are free (per-player keyboards), so presets
//! only encode an ergonomic, non-conflicting arrangement. Game defaults can
//! be tweaked in-game; presets are starting points, not gospel.

use vstd::prelude::*;
use vstd::string::*;

use crate::model::{
    bindings_view, Binding, DpadDirection, GamepadButton, StickDirection, StickSide, Target, TriggerSide,
};
use crate::model::keys::{
    has_canonical_name, law_name_round_trip, law_names_are_distinct, lemma_preset_key_names,
    spec_name_for_vk, spec_vk_for_name,
};
use crate::text::str_eq;

verus! {

/// Public id of the default layout (also used for new player slots).
pub const GENERAL_ID: &'static str = "general";

/// Number of built-in presets.
pub const PRESET_COUNT: usize = 10;

// ---------------------------------------------------------------------------
// Preset metadata + binding tables
// ---------------------------------------------------------------------------

#[derive(Debug, Clone, PartialEq, Eq)]
pub struct PresetMeta {
    pub id: String,
    pub name: String,
    pub description: String,
    pub key_count: usize,
}

pub open spec fn button_t(button: GamepadButton) -> Target {
    Target::Button { button }
}

pub open spec fn dpad_t(direction: DpadDirection) -> Target {
    Target::Dpad { direction }
}

pub open spec fn trigger_t(side: TriggerSide) -> Target {
    Target::Trigger { side }
}

pub open spec fn stick_t(side: StickSide, direction: StickDirection) -> Target {
    Target::Stick { side, direction }
}

pub fn b(button: GamepadButton) -> (t: Target)
    ensures
        t == button_t(button),
{
    Target::Button { button }
}

pub fn dpad(dir: DpadDirection) -> (t: Target)
    ensures
        t == dpad_t(dir),
{
    Target::Dpad { direction: dir }
}

pub fn trig(side: TriggerSide) -> (t: Target)
    ensures
        t == trigger_t(side),
{
    Target::Trigger { side }
}

pub fn stick(side: StickSide, dir: StickDirection) -> (t: Target)
    ensures
        t == stick_t(side, dir),
{
    Target::Stick { side, direction: dir }
}

/// Movement on WASD (left hand), extra/aim controls on the arrows.
pub open spec fn general_keys() -> Seq<(Seq<char>, Target)> {
    seq![
        ("W"@, stick_t(StickSide::Left, StickDirection::Up)),
        ("A"@, stick_t(StickSide::Left, StickDirection::Left)),
        ("S"@, stick_t(StickSide::Left, StickDirection::Down)),
        ("D"@, stick_t(StickSide::Left, StickDirection::Right)),
        ("Up"@, stick_t(StickSide::Right, StickDirection::Up)),
        ("Left"@, stick_t(StickSide::Right, StickDirection::Left)),
        ("Down"@, stick_t(StickSide::Right, StickDirection::Down)),
        ("Right"@, stick_t(StickSide::Right, StickDirection::Right)),
        ("Space"@, button_t(GamepadButton::A)),
        ("LShift"@, button_t(GamepadButton::B)),
        ("E"@, button_t(GamepadButton::X)),
        ("R"@, button_t(GamepadButton::Y)),
        ("Q"@, button_t(GamepadButton::LB)),
        ("F"@, button_t(GamepadButton::RB)),
        ("LCtrl"@, trigger_t(TriggerSide::Left)),
        ("Z"@, trigger_t(TriggerSide::Right)),
        ("Tab"@, button_t(GamepadButton::Back)),
        ("Enter"@, button_t(GamepadButton::Start)),
        ("I"@, dpad_t(DpadDirection::Up)),
        ("K"@, dpad_t(DpadDirection::Down)),
        ("J"@, dpad_t(DpadDirection::Left)),
        ("L"@, dpad_t(DpadDirection::Right)),
    ]
}

/// Football: EA Sports FC / FIFA, in-game "Classic" scheme (the default).
/// Movement on the left stick, passing/shooting cluster on the left hand:
/// A pass · B shoot · X cross/lob · Y through ball. Dash/sprint is the right
/// trigger (C). EA's in-game "Alternate" scheme (sprint on RB, shoot on X)
/// matches the eFootball/PES Standard preset instead.
pub open spec fn football_fc_keys() -> Seq<(Seq<char>, Target)> {
    seq![
        ("W"@, stick_t(StickSide::Left, StickDirection::Up)),
        ("A"@, stick_t(StickSide::Left, StickDirection::Left)),
        ("S"@, stick_t(StickSide::Left, StickDirection::Down)),
        ("D"@, stick_t(StickSide::Left, StickDirection::Right)),
        ("Space"@, button_t(GamepadButton::A)),
        ("E"@, button_t(GamepadButton::B)),
        ("Q"@, button_t(GamepadButton::X)),
        ("R"@, button_t(GamepadButton::Y)),
        ("Tab"@, button_t(GamepadButton::LB)),
        ("F"@, button_t(GamepadButton::RB)),
        ("LCtrl"@, trigger_t(TriggerSide::Left)),
        ("C"@, trigger_t(TriggerSide::Right)),
        ("Up"@, dpad_t(DpadDirection::Up)),
        ("Left"@, dpad_t(DpadDirection::Left)),
        ("Down"@, dpad_t(DpadDirection::Down)),
        ("Right"@, dpad_t(DpadDirection::Right)),
        ("Enter"@, button_t(GamepadButton::Start)),
    ]
}

/// Football: eFootball / PES with the Konami "Standard" scheme that PES 2017,
/// PES 2021 and eFootball ship out of the box (verified against the games'
/// control charts/manuals): A low pass · X shoot · B lofted pass/cross ·
/// Y through ball, dash on RB, specials on RT. Note the Xbox labels are
/// positional - the PlayStation ▢/○/△ faces sit on Xbox X/B/Y. eFootball's
/// in-game "Alternate" scheme is the EA-style one (shoot B, dash RT); use
/// the EA FC preset for that feel.
pub open spec fn football_pes_keys() -> Seq<(Seq<char>, Target)> {
    seq![
        ("W"@, stick_t(StickSide::Left, StickDirection::Up)),
        ("A"@, stick_t(StickSide::Left, StickDirection::Left)),
        ("S"@, stick_t(StickSide::Left, StickDirection::Down)),
        ("D"@, stick_t(StickSide::Left, StickDirection::Right)),
        ("Space"@, button_t(GamepadButton::A)),
        ("E"@, button_t(GamepadButton::X)),
        ("Q"@, button_t(GamepadButton::B)),
        ("R"@, button_t(GamepadButton::Y)),
        ("Tab"@, button_t(GamepadButton::LB)),
        ("F"@, button_t(GamepadButton::RB)),
        ("C"@, trigger_t(TriggerSide::Right)),
        ("LCtrl"@, trigger_t(TriggerSide::Left)),
        ("Up"@, dpad_t(DpadDirection::Up)),
        ("Left"@, dpad_t(DpadDirection::Left)),
        ("Down"@, dpad_t(DpadDirection::Down)),
        ("Right"@, dpad_t(DpadDirection::Right)),
        ("Enter"@, button_t(GamepadButton::Start)),
    ]
}

/// Fighting: Mortal Kombat 1 / 11. Xbox default: X=front punch, Y=back punch,
/// A=front kick, B=back kick, LB=throw, RT=block, LT=stance (hold).
pub open spec fn mk_keys() -> Seq<(Seq<char>, Target)> {
    seq![
        ("W"@, stick_t(StickSide::Left, StickDirection::Up)),
        ("A"@, stick_t(StickSide::Left, StickDirection::Left)),
        ("S"@, stick_t(StickSide::Left, StickDirection::Down)),
        ("D"@, stick_t(StickSide::Left, StickDirection::Right)),
        ("U"@, button_t(GamepadButton::X)),
        ("I"@, button_t(GamepadButton::Y)),
        ("J"@, button_t(GamepadButton::A)),
        ("K"@, button_t(GamepadButton::B)),
        ("O"@, button_t(GamepadButton::LB)),
        ("L"@, button_t(GamepadButton::RB)),
        ("LCtrl"@, trigger_t(TriggerSide::Left)),
        (";"@, trigger_t(TriggerSide::Right)),
        ("Enter"@, button_t(GamepadButton::Start)),
        ("Tab"@, button_t(GamepadButton::Back)),
    ]
}

/// Fighting: Tekken 7 / 8. Xbox default: X=LP(1), Y=RP(2), A=LK(3), B=RK(4).
/// Grabs / specials are button chords (e.g. 1+3) - press two keys together.
pub open spec fn tekken_keys() -> Seq<(Seq<char>, Target)> {
    seq![
        ("W"@, stick_t(StickSide::Left, StickDirection::Up)),
        ("A"@, stick_t(StickSide::Left, StickDirection::Left)),
        ("S"@, stick_t(StickSide::Left, StickDirection::Down)),
        ("D"@, stick_t(StickSide::Left, StickDirection::Right)),
        ("U"@, button_t(GamepadButton::X)),
        ("I"@, button_t(GamepadButton::Y)),
        ("J"@, button_t(GamepadButton::A)),
        ("K"@, button_t(GamepadButton::B)),
        ("Enter"@, button_t(GamepadButton::Start)),
        ("Tab"@, button_t(GamepadButton::Back)),
    ]
}

/// Fighting: Street Fighter 6. Xbox default: X=LP, Y=MP, RB=HP,
/// A=LK, B=MK, RT=HK. Drive moves are chords (MP+MK parry, HP+HK DI).
// NOTE: SF6 binds heavy kick to the right trigger; the engine's trigger
// target is "full press while held", which matches a single tap just fine.
pub open spec fn sf6_keys() -> Seq<(Seq<char>, Target)> {
    seq![
        ("W"@, stick_t(StickSide::Left, StickDirection::Up)),
        ("A"@, stick_t(StickSide::Left, StickDirection::Left)),
        ("S"@, stick_t(StickSide::Left, StickDirection::Down)),
        ("D"@, stick_t(StickSide::Left, StickDirection::Right)),
        ("U"@, button_t(GamepadButton::X)),
        ("I"@, button_t(GamepadButton::Y)),
        ("O"@, button_t(GamepadButton::RB)),
        ("J"@, button_t(GamepadButton::A)),
        ("K"@, button_t(GamepadButton::B)),
        ("L"@, trigger_t(TriggerSide::Right)),
        ("Enter"@, button_t(GamepadButton::Start)),
        ("Tab"@, button_t(GamepadButton::Back)),
    ]
}

/// Co-op platformers (Cuphead, Overcooked, It Takes Two, ...). Classic
/// "player 1 = left side of the keyboard" ergonomics, per-player repeatable.
pub open spec fn platform_coop_keys() -> Seq<(Seq<char>, Target)> {
    seq![
        ("W"@, stick_t(StickSide::Left, StickDirection::Up)),
        ("A"@, stick_t(StickSide::Left, StickDirection::Left)),
        ("S"@, stick_t(StickSide::Left, StickDirection::Down)),
        ("D"@, stick_t(StickSide::Left, StickDirection::Right)),
        ("Space"@, button_t(GamepadButton::A)),
        ("E"@, button_t(GamepadButton::X)),
        ("R"@, button_t(GamepadButton::Y)),
        ("F"@, button_t(GamepadButton::RB)),
        ("Q"@, button_t(GamepadButton::LB)),
        ("LShift"@, button_t(GamepadButton::B)),
        ("LCtrl"@, trigger_t(TriggerSide::Left)),
        ("C"@, trigger_t(TriggerSide::Right)),
        ("Enter"@, button_t(GamepadButton::Start)),
        ("Tab"@, button_t(GamepadButton::Back)),
    ]
}

/// Arcade racing (Crash Team Racing, Hot Wheels Unleashed, Trackmania, ...).
/// Steering on the left stick, full-press triggers for brake / gas.
pub open spec fn racing_keys() -> Seq<(Seq<char>, Target)> {
    seq![
        ("W"@, stick_t(StickSide::Left, StickDirection::Up)),
        ("A"@, stick_t(StickSide::Left, StickDirection::Left)),
        ("S"@, stick_t(StickSide::Left, StickDirection::Down)),
        ("D"@, stick_t(StickSide::Left, StickDirection::Right)),
        ("LCtrl"@, trigger_t(TriggerSide::Left)),
        ("C"@, trigger_t(TriggerSide::Right)),
        ("Space"@, button_t(GamepadButton::A)),
        ("E"@, button_t(GamepadButton::X)),
        ("F"@, button_t(GamepadButton::RB)),
        ("Q"@, button_t(GamepadButton::LB)),
        ("LShift"@, button_t(GamepadButton::B)),
        ("Enter"@, button_t(GamepadButton::Start)),
        ("Tab"@, button_t(GamepadButton::Back)),
    ]
}

/// Twin-stick arena shooters (Enter the Gungeon, Nuclear Throne, ...):
/// WASD move on LS, arrows aim on RS, fire on a trigger.
pub open spec fn twin_stick_keys() -> Seq<(Seq<char>, Target)> {
    seq![
        ("W"@, stick_t(StickSide::Left, StickDirection::Up)),
        ("A"@, stick_t(StickSide::Left, StickDirection::Left)),
        ("S"@, stick_t(StickSide::Left, StickDirection::Down)),
        ("D"@, stick_t(StickSide::Left, StickDirection::Right)),
        ("Up"@, stick_t(StickSide::Right, StickDirection::Up)),
        ("Left"@, stick_t(StickSide::Right, StickDirection::Left)),
        ("Down"@, stick_t(StickSide::Right, StickDirection::Down)),
        ("Right"@, stick_t(StickSide::Right, StickDirection::Right)),
        ("Space"@, button_t(GamepadButton::A)),
        ("C"@, trigger_t(TriggerSide::Right)),
        ("LCtrl"@, trigger_t(TriggerSide::Left)),
        ("Q"@, button_t(GamepadButton::LB)),
        ("F"@, button_t(GamepadButton::RB)),
        ("E"@, button_t(GamepadButton::X)),
        ("Enter"@, button_t(GamepadButton::Start)),
        ("Tab"@, button_t(GamepadButton::Back)),
    ]
}

/// Third-person / platform shooters with aim: WASD move, arrows look,
/// trigger shoot, shoulder aim - classic controller muscle memory.
pub open spec fn fps_gamepad_keys() -> Seq<(Seq<char>, Target)> {
    seq![
        ("W"@, stick_t(StickSide::Left, StickDirection::Up)),
        ("A"@, stick_t(StickSide::Left, StickDirection::Left)),
        ("S"@, stick_t(StickSide::Left, StickDirection::Down)),
        ("D"@, stick_t(StickSide::Left, StickDirection::Right)),
        ("Up"@, stick_t(StickSide::Right, StickDirection::Up)),
        ("Left"@, stick_t(StickSide::Right, StickDirection::Left)),
        ("Down"@, stick_t(StickSide::Right, StickDirection::Down)),
        ("Right"@, stick_t(StickSide::Right, StickDirection::Right)),
        ("Space"@, button_t(GamepadButton::A)),
        ("LShift"@, button_t(GamepadButton::LB)),
        ("C"@, trigger_t(TriggerSide::Right)),
        ("LCtrl"@, trigger_t(TriggerSide::Left)),
        ("R"@, button_t(GamepadButton::Y)),
        ("E"@, button_t(GamepadButton::X)),
        ("F"@, button_t(GamepadButton::RB)),
        ("Enter"@, button_t(GamepadButton::Start)),
        ("Tab"@, button_t(GamepadButton::Back)),
    ]
}

/// Id of preset `p` (presets are listed in this order).
pub open spec fn preset_id(p: int) -> Seq<char> {
    if p == 0 {
        "general"@
    } else if p == 1 {
        "football-fc"@
    } else if p == 2 {
        "football-pes"@
    } else if p == 3 {
        "mortal-kombat"@
    } else if p == 4 {
        "tekken"@
    } else if p == 5 {
        "street-fighter"@
    } else if p == 6 {
        "platform-coop"@
    } else if p == 7 {
        "racing"@
    } else if p == 8 {
        "twin-stick"@
    } else if p == 9 {
        "fps-gamepad"@
    } else {
        Seq::empty()
    }
}

/// Display name of preset `p`.
pub open spec fn preset_name(p: int) -> Seq<char> {
    if p == 0 {
        "General (WASD + arrows)"@
    } else if p == 1 {
        "Football (FIFA / EA FC)"@
    } else if p == 2 {
        "Football (eFootball / PES)"@
    } else if p == 3 {
        "Fighting (Mortal Kombat)"@
    } else if p == 4 {
        "Fighting (Tekken)"@
    } else if p == 5 {
        "Fighting (Street Fighter 6)"@
    } else if p == 6 {
        "Co-op platformer"@
    } else if p == 7 {
        "Arcade racing"@
    } else if p == 8 {
        "Twin-stick shooter"@
    } else if p == 9 {
        "Shooter (gamepad style)"@
    } else {
        Seq::empty()
    }
}

/// Description of preset `p`.
pub open spec fn preset_description(p: int) -> Seq<char> {
    if p == 0 {
        "All-round starter: movement on WASD, right stick on the arrows, face buttons around Space/E/R and triggers on Ctrl/Z. Great default for most games."@
    } else if p == 1 {
        "EA FC defaults (in-game Classic scheme): pass Space, shoot E, cross Q, through R, sprint C (right trigger), teammate press F, change player Tab. Shooting feels wrong in PES? That game's default puts shoot on X - use the eFootball/PES preset instead."@
    } else if p == 2 {
        "PES/eFootball out-of-the-box layout (Konami Standard, same scheme as PES 2017): pass Space, shoot E, cross Q, through R, dash F (RB), specials C (RT), change player Tab. If eFootball is set to its Alternate scheme the buttons are EA-style - apply the EA FC preset instead."@
    } else if p == 3 {
        "MK 1/11 pad layout: punches/kicks on U I J K, throw on O, block on ; (right trigger). Reach every button without lifting a finger."@
    } else if p == 4 {
        "Tekken 7/8: LP/RP/LK/RK on U I J K (X/Y/A/B). Grabs and 1+3/2+4 moves are chords - press two keys at once, like two face buttons."@
    } else if p == 5 {
        "SF6 six-button layout: LP/MP/HP on U I O, LK/MK on J K and heavy kick on the right trigger. Drive parry/impact are chords."@
    } else if p == 6 {
        "Cuphead, Overcooked, It Takes Two and friends: jump on Space, interact on E, dash/shoot on R/F, run on Shift."@
    } else if p == 7 {
        "Steer with WASD, hold C to accelerate and Ctrl to brake, Space for handbrake/drift - old-school arcade controls that never ghost."@
    } else if p == 8 {
        "Move on WASD, aim on the arrows, fire on C. For Enter the Gungeon, Nuclear Throne and other dodge-and-shoot co-op games."@
    } else if p == 9 {
        "Move on WASD, look on the arrows, hold Shift to aim and C to fire - a controller feel for co-op shooters on one PC."@
    } else {
        Seq::empty()
    }
}

/// (canonical key name, target) rows of preset `p`; key order is display
/// order in the UI.
pub open spec fn preset_keys(p: int) -> Seq<(Seq<char>, Target)> {
    if p == 0 {
        general_keys()
    } else if p == 1 {
        football_fc_keys()
    } else if p == 2 {
        football_pes_keys()
    } else if p == 3 {
        mk_keys()
    } else if p == 4 {
        tekken_keys()
    } else if p == 5 {
        sf6_keys()
    } else if p == 6 {
        platform_coop_keys()
    } else if p == 7 {
        racing_keys()
    } else if p == 8 {
        twin_stick_keys()
    } else if p == 9 {
        fps_gamepad_keys()
    } else {
        Seq::empty()
    }
}

/// Id, display name and description of preset `p`.
pub fn preset_texts(p: usize) -> (r: (&'static str, &'static str, &'static str))
    requires
        p < PRESET_COUNT,
    ensures
        r.0@ == preset_id(p as int),
        r.1@ == preset_name(p as int),
        r.2@ == preset_description(p as int),
{
    match p {
        0 => (GENERAL_ID, "General (WASD + arrows)", "All-round starter: movement on WASD, right stick on the arrows, face buttons around Space/E/R and triggers on Ctrl/Z. Great default for most games."),
        1 => ("football-fc", "Football (FIFA / EA FC)", "EA FC defaults (in-game Classic scheme): pass Space, shoot E, cross Q, through R, sprint C (right trigger), teammate press F, change player Tab. Shooting feels wrong in PES? That game's default puts shoot on X - use the eFootball/PES preset instead."),
        2 => ("football-pes", "Football (eFootball / PES)", "PES/eFootball out-of-the-box layout (Konami Standard, same scheme as PES 2017): pass Space, shoot E, cross Q, through R, dash F (RB), specials C (RT), change player Tab. If eFootball is set to its Alternate scheme the buttons are EA-style - apply the EA FC preset instead."),
        3 => ("mortal-kombat", "Fighting (Mortal Kombat)", "MK 1/11 pad layout: punches/kicks on U I J K, throw on O, block on ; (right trigger). Reach every button without lifting a finger."),
        4 => ("tekken", "Fighting (Tekken)", "Tekken 7/8: LP/RP/LK/RK on U I J K (X/Y/A/B). Grabs and 1+3/2+4 moves are chords - press two keys at once, like two face buttons."),
        5 => ("street-fighter", "Fighting (Street Fighter 6)", "SF6 six-button layout: LP/MP/HP on U I O, LK/MK on J K and heavy kick on the right trigger. Drive parry/impact are chords."),
        6 => ("platform-coop", "Co-op platformer", "Cuphead, Overcooked, It Takes Two and friends: jump on Space, interact on E, dash/shoot on R/F, run on Shift."),
        7 => ("racing", "Arcade racing", "Steer with WASD, hold C to accelerate and Ctrl to brake, Space for handbrake/drift - old-school arcade controls that never ghost."),
        8 => ("twin-stick", "Twin-stick shooter", "Move on WASD, aim on the arrows, fire on C. For Enter the Gungeon, Nuclear Throne and other dodge-and-shoot co-op games."),
        9 => ("fps-gamepad", "Shooter (gamepad style)", "Move on WASD, look on the arrows, hold Shift to aim and C to fire - a controller feel for co-op shooters on one PC."),
        _ => ("", "", ""),
    }
}

/// View of a key table as (name, target) rows.
pub open spec fn table_view(v: Seq<(&'static str, Target)>) -> Seq<(Seq<char>, Target)> {
    Seq::new(v.len(), |i: int| (v[i].0@, v[i].1))
}

/// The key table of preset `p`: (canonical key name, target) rows.
pub fn preset_table(p: usize) -> (v: Vec<(&'static str, Target)>)
    requires
        p < PRESET_COUNT,
    ensures
        table_view(v@) == preset_keys(p as int),
{
    let v = match p {
        0 => vec![
            ("W", stick(StickSide::Left, StickDirection::Up)),
            ("A", stick(StickSide::Left, StickDirection::Left)),
            ("S", stick(StickSide::Left, StickDirection::Down)),
            ("D", stick(StickSide::Left, StickDirection::Right)),
            ("Up", stick(StickSide::Right, StickDirection::Up)),
            ("Left", stick(StickSide::Right, StickDirection::Left)),
            ("Down", stick(StickSide::Right, StickDirection::Down)),
            ("Right", stick(StickSide::Right, StickDirection::Right)),
            ("Space", b(GamepadButton::A)),
            ("LShift", b(GamepadButton::B)),
            ("E", b(GamepadButton::X)),
            ("R", b(GamepadButton::Y)),
            ("Q", b(GamepadButton::LB)),
            ("F", b(GamepadButton::RB)),
            ("LCtrl", trig(TriggerSide::Left)),
            ("Z", trig(TriggerSide::Right)),
            ("Tab", b(GamepadButton::Back)),
            ("Enter", b(GamepadButton::Start)),
            ("I", dpad(DpadDirection::Up)),
            ("K", dpad(DpadDirection::Down)),
            ("J", dpad(DpadDirection::Left)),
            ("L", dpad(DpadDirection::Right)),
        ],
        1 => vec![
            ("W", stick(StickSide::Left, StickDirection::Up)),
            ("A", stick(StickSide::Left, StickDirection::Left)),
            ("S", stick(StickSide::Left, StickDirection::Down)),
            ("D", stick(StickSide::Left, StickDirection::Right)),
            ("Space", b(GamepadButton::A)),
            ("E", b(GamepadButton::B)),
            ("Q", b(GamepadButton::X)),
            ("R", b(GamepadButton::Y)),
            ("Tab", b(GamepadButton::LB)),
            ("F", b(GamepadButton::RB)),
            ("LCtrl", trig(TriggerSide::Left)),
            ("C", trig(TriggerSide::Right)),
            ("Up", dpad(DpadDirection::Up)),
            ("Left", dpad(DpadDirection::Left)),
            ("Down", dpad(DpadDirection::Down)),
            ("Right", dpad(DpadDirection::Right)),
            ("Enter", b(GamepadButton::Start)),
        ],
        2 => vec![
            ("W", stick(StickSide::Left, StickDirection::Up)),
            ("A", stick(StickSide::Left, StickDirection::Left)),
            ("S", stick(StickSide::Left, StickDirection::Down)),
            ("D", stick(StickSide::Left, StickDirection::Right)),
            ("Space", b(GamepadButton::A)),
            ("E", b(GamepadButton::X)),
            ("Q", b(GamepadButton::B)),
            ("R", b(GamepadButton::Y)),
            ("Tab", b(GamepadButton::LB)),
            ("F", b(GamepadButton::RB)),
            ("C", trig(TriggerSide::Right)),
            ("LCtrl", trig(TriggerSide::Left)),
            ("Up", dpad(DpadDirection::Up)),
            ("Left", dpad(DpadDirection::Left)),
            ("Down", dpad(DpadDirection::Down)),
            ("Right", dpad(DpadDirection::Right)),
            ("Enter", b(GamepadButton::Start)),
        ],
        3 => vec![
            ("W", stick(StickSide::Left, StickDirection::Up)),
            ("A", stick(StickSide::Left, StickDirection::Left)),
            ("S", stick(StickSide::Left, StickDirection::Down)),
            ("D", stick(StickSide::Left, StickDirection::Right)),
            ("U", b(GamepadButton::X)),
            ("I", b(GamepadButton::Y)),
            ("J", b(GamepadButton::A)),
            ("K", b(GamepadButton::B)),
            ("O", b(GamepadButton::LB)),
            ("L", b(GamepadButton::RB)),
            ("LCtrl", trig(TriggerSide::Left)),
            (";", trig(TriggerSide::Right)),
            ("Enter", b(GamepadButton::Start)),
            ("Tab", b(GamepadButton::Back)),
        ],
        4 => vec![
            ("W", stick(StickSide::Left, StickDirection::Up)),
            ("A", stick(StickSide::Left, StickDirection::Left)),
            ("S", stick(StickSide::Left, StickDirection::Down)),
            ("D", stick(StickSide::Left, StickDirection::Right)),
            ("U", b(GamepadButton::X)),
            ("I", b(GamepadButton::Y)),
            ("J", b(GamepadButton::A)),
            ("K", b(GamepadButton::B)),
            ("Enter", b(GamepadButton::Start)),
            ("Tab", b(GamepadButton::Back)),
        ],
        5 => vec![
            ("W", stick(StickSide::Left, StickDirection::Up)),
            ("A", stick(StickSide::Left, StickDirection::Left)),
            ("S", stick(StickSide::Left, StickDirection::Down)),
            ("D", stick(StickSide::Left, StickDirection::Right)),
            ("U", b(GamepadButton::X)),
            ("I", b(GamepadButton::Y)),
            ("O", b(GamepadButton::RB)),
            ("J", b(GamepadButton::A)),
            ("K", b(GamepadButton::B)),
            ("L", trig(TriggerSide::Right)),
            ("Enter", b(GamepadButton::Start)),
            ("Tab", b(GamepadButton::Back)),
        ],
        6 => vec![
            ("W", stick(StickSide::Left, StickDirection::Up)),
            ("A", stick(StickSide::Left, StickDirection::Left)),
            ("S", stick(StickSide::Left, StickDirection::Down)),
            ("D", stick(StickSide::Left, StickDirection::Right)),
            ("Space", b(GamepadButton::A)),
            ("E", b(GamepadButton::X)),
            ("R", b(GamepadButton::Y)),
            ("F", b(GamepadButton::RB)),
            ("Q", b(GamepadButton::LB)),
            ("LShift", b(GamepadButton::B)),
            ("LCtrl", trig(TriggerSide::Left)),
            ("C", trig(TriggerSide::Right)),
            ("Enter", b(GamepadButton::Start)),
            ("Tab", b(GamepadButton::Back)),
        ],
        7 => vec![
            ("W", stick(StickSide::Left, StickDirection::Up)),
            ("A", stick(StickSide::Left, StickDirection::Left)),
            ("S", stick(StickSide::Left, StickDirection::Down)),
            ("D", stick(StickSide::Left, StickDirection::Right)),
            ("LCtrl", trig(TriggerSide::Left)),
            ("C", trig(TriggerSide::Right)),
            ("Space", b(GamepadButton::A)),
            ("E", b(GamepadButton::X)),
            ("F", b(GamepadButton::RB)),
            ("Q", b(GamepadButton::LB)),
            ("LShift", b(GamepadButton::B)),
            ("Enter", b(GamepadButton::Start)),
            ("Tab", b(GamepadButton::Back)),
        ],
        8 => vec![
            ("W", stick(StickSide::Left, StickDirection::Up)),
            ("A", stick(StickSide::Left, StickDirection::Left)),
            ("S", stick(StickSide::Left, StickDirection::Down)),
            ("D", stick(StickSide::Left, StickDirection::Right)),
            ("Up", stick(StickSide::Right, StickDirection::Up)),
            ("Left", stick(StickSide::Right, StickDirection::Left)),
            ("Down", stick(StickSide::Right, StickDirection::Down)),
            ("Right", stick(StickSide::Right, StickDirection::Right)),
            ("Space", b(GamepadButton::A)),
            ("C", trig(TriggerSide::Right)),
            ("LCtrl", trig(TriggerSide::Left)),
            ("Q", b(GamepadButton::LB)),
            ("F", b(GamepadButton::RB)),
            ("E", b(GamepadButton::X)),
            ("Enter", b(GamepadButton::Start)),
            ("Tab", b(GamepadButton::Back)),
        ],
        9 => vec![
            ("W", stick(StickSide::Left, StickDirection::Up)),
            ("A", stick(StickSide::Left, StickDirection::Left)),
            ("S", stick(StickSide::Left, StickDirection::Down)),
            ("D", stick(StickSide::Left, StickDirection::Right)),
            ("Up", stick(StickSide::Right, StickDirection::Up)),
            ("Left", stick(StickSide::Right, StickDirection::Left)),
            ("Down", stick(StickSide::Right, StickDirection::Down)),
            ("Right", stick(StickSide::Right, StickDirection::Right)),
            ("Space", b(GamepadButton::A)),
            ("LShift", b(GamepadButton::LB)),
            ("C", trig(TriggerSide::Right)),
            ("LCtrl", trig(TriggerSide::Left)),
            ("R", b(GamepadButton::Y)),
            ("E", b(GamepadButton::X)),
            ("F", b(GamepadButton::RB)),
            ("Enter", b(GamepadButton::Start)),
            ("Tab", b(GamepadButton::Back)),
        ],
        _ => Vec::new(),
    };
    assert(table_view(v@) =~= preset_keys(p as int));
    v
}

/// Index of the first preset at or after `p` whose id is `id`.
pub open spec fn find_preset(id: Seq<char>, p: int) -> Option<int>
    decreases PRESET_COUNT - p,
{
    if p < 0 || p >= PRESET_COUNT {
        None
    } else if preset_id(p) == id {
        Some(p)
    } else {
        find_preset(id, p + 1)
    }
}

/// The bindings of preset `p`, in table order.
fn preset_bindings(p: usize) -> (r: Vec<Binding>)
    requires
        p < PRESET_COUNT,
    ensures
        bindings_view(r@) == preset_keys(p as int),
{
    let table = preset_table(p);
    let mut r: Vec<Binding> = Vec::new();
    let mut i: usize = 0;
    while i < table.len()
        invariant
            i <= table@.len(),
            table_view(table@) == preset_keys(p as int),
            r@.len() == i,
            bindings_view(r@) == table_view(table@).take(i as int),
        decreases table@.len() - i,
    {
        let (k, t) = table[i];
        let key = k.to_string();
        assert(key@ == k@);
        let ghost prev = r@;
        r.push(Binding { key, target: t });
        assert(r@.last().key@ == table_view(table@)[i as int].0);
        i = i + 1;
        proof {
            assert forall|j: int| 0 <= j < i implies #[trigger] bindings_view(r@)[j] == table_view(table@).take(i as int)[j] by {
                if j < i - 1 {
                    assert(r@[j] == prev[j]);
                    assert(bindings_view(prev)[j] == table_view(table@).take(i - 1)[j]);
                }
            }
            assert(bindings_view(r@) =~= table_view(table@).take(i as int));
        }
    }
    proof {
        assert(table_view(table@).take(i as int) =~= table_view(table@));
    }
    r
}

/// All built-in presets with metadata, in preset order.
pub fn list() -> (r: Vec<PresetMeta>)
    ensures
        r@.len() == PRESET_COUNT,
        forall|p: int|
            0 <= p < PRESET_COUNT ==> {
                &&& (#[trigger] r@[p]).id@ == preset_id(p)
                &&& r@[p].name@ == preset_name(p)
                &&& r@[p].description@ == preset_description(p)
                &&& r@[p].key_count == preset_keys(p).len()
            },
{
    let mut r: Vec<PresetMeta> = Vec::new();
    let mut p: usize = 0;
    while p < PRESET_COUNT
        invariant
            p <= PRESET_COUNT,
            r@.len() == p,
            forall|q: int|
                0 <= q < p ==> {
                    &&& (#[trigger] r@[q]).id@ == preset_id(q)
                    &&& r@[q].name@ == preset_name(q)
                    &&& r@[q].description@ == preset_description(q)
                    &&& r@[q].key_count == preset_keys(q).len()
                },
        decreases PRESET_COUNT - p,
    {
        let (id, name, description) = preset_texts(p);
        let table = preset_table(p);
        proof {
            assert(table_view(table@).len() == table@.len());
        }
        r.push(
            PresetMeta {
                id: id.to_string(),
                name: name.to_string(),
                description: description.to_string(),
                key_count: table.len(),
            },
        );
        p = p + 1;
    }
    r
}

/// The bindings of a built-in preset: the rows of the first preset whose id
/// is `id`, or `None` when no preset has that id.
pub fn bindings(id: &str) -> (r: Option<Vec<Binding>>)
    ensures
        match find_preset(id@, 0) {
            Some(p) => r is Some && bindings_view(r->0@) == preset_keys(p),
            None => r is None,
        },
{
    let mut p: usize = 0;
    while p < PRESET_COUNT
        invariant
            p <= PRESET_COUNT,
            find_preset(id@, 0) == find_preset(id@, p as int),
        decreases PRESET_COUNT - p,
    {
        let (pid, _, _) = preset_texts(p);
        if str_eq(pid, id) {
            return Some(preset_bindings(p));
        }
        p = p + 1;
    }
    None
}

/// Every preset id is distinct: looking up the id of preset `p` finds `p`.
pub proof fn law_preset_ids_are_unique(p: int)
    requires
        0 <= p < PRESET_COUNT,
    ensures
        find_preset(preset_id(p), 0) == Some(p),
{
    reveal_strlit("general");
    reveal_strlit("football-fc");
    reveal_strlit("football-pes");
    reveal_strlit("mortal-kombat");
    reveal_strlit("tekken");
    reveal_strlit("street-fighter");
    reveal_strlit("platform-coop");
    reveal_strlit("racing");
    reveal_strlit("twin-stick");
    reveal_strlit("fps-gamepad");
    assert(preset_id(0).len() == 7);
    assert(preset_id(1).len() == 11);
    assert(preset_id(2).len() == 12);
    assert(preset_id(3).len() == 13);
    assert(preset_id(4).len() == 6);
    assert(preset_id(5).len() == 14);
    assert(preset_id(6).len() == 13);
    assert(preset_id(7).len() == 6);
    assert(preset_id(8).len() == 10);
    assert(preset_id(9).len() == 11);
    reveal_with_fuel(find_preset, 11);
    if p == 0 {
    } else if p == 1 {
    } else if p == 2 {
    } else if p == 3 {
    } else if p == 4 {
    } else if p == 5 {
    } else if p == 6 {
        assert(preset_id(3)[0] != preset_id(6)[0]);
    } else if p == 7 {
        assert(preset_id(4)[0] != preset_id(7)[0]);
    } else if p == 8 {
    } else if p == 9 {
        assert(preset_id(1)[1] != preset_id(9)[1]);
    }
}

/// Default layout for new players == the "general" preset.
pub fn default_bindings() -> (r: Vec<Binding>)
    ensures
        bindings_view(r@) == preset_keys(0),
{
    proof {
        law_preset_ids_are_unique(0);
        reveal_strlit("general");
    }
    assert(GENERAL_ID@ == preset_id(0));
    match bindings(GENERAL_ID) {
        Some(v) => v,
        None => Vec::new(),
    }
}

// ---------------------------------------------------------------------------
// Edge-case validation
// ---------------------------------------------------------------------------

/// Keys that could conflict with Windows/OS shortcuts when pressed while the
/// game has focus; presets stay away from them. They are also the keys that
/// "press a key to assign" treats as cancel, so they are never bindable.
pub open spec fn spec_is_os_reserved(key: Seq<char>) -> bool {
    ||| key == "LWin"@
    ||| key == "RWin"@
    ||| key == "Apps"@
    ||| key == "LAlt"@
    ||| key == "RAlt"@
    ||| key == "Escape"@
}

/// True if `key` could conflict with Windows/OS shortcuts (see
/// `spec_is_os_reserved`).
pub fn is_os_reserved(key: &str) -> (r: bool)
    ensures
        r == spec_is_os_reserved(key@),
{
    str_eq(key, "LWin") || str_eq(key, "RWin") || str_eq(key, "Apps") || str_eq(key, "LAlt")
        || str_eq(key, "RAlt") || str_eq(key, "Escape")
}

// ---------------------------------------------------------------------------
// Properties of every preset
// ---------------------------------------------------------------------------

/// Key codes of the rows of preset `p`, in table order: row `i` binds the
/// key named `spec_name_for_vk(preset_codes(p)[i])`.
pub open spec fn preset_codes(p: int) -> Seq<u16> {
    if p == 0 {
        seq![0x57, 0x41, 0x53, 0x44, 0x26, 0x25, 0x28, 0x27, 0x20, 0xA0, 0x45, 0x52, 0x51, 0x46, 0xA2, 0x5A, 0x09, 0x0D, 0x49, 0x4B, 0x4A, 0x4C]
    } else if p == 1 {
        seq![0x57, 0x41, 0x53, 0x44, 0x20, 0x45, 0x51, 0x52, 0x09, 0x46, 0xA2, 0x43, 0x26, 0x25, 0x28, 0x27, 0x0D]
    } else if p == 2 {
        seq![0x57, 0x41, 0x53, 0x44, 0x20, 0x45, 0x51, 0x52, 0x09, 0x46, 0x43, 0xA2, 0x26, 0x25, 0x28, 0x27, 0x0D]
    } else if p == 3 {
        seq![0x57, 0x41, 0x53, 0x44, 0x55, 0x49, 0x4A, 0x4B, 0x4F, 0x4C, 0xA2, 0xBA, 0x0D, 0x09]
    } else if p == 4 {
        seq![0x57, 0x41, 0x53, 0x44, 0x55, 0x49, 0x4A, 0x4B, 0x0D, 0x09]
    } else if p == 5 {
        seq![0x57, 0x41, 0x53, 0x44, 0x55, 0x49, 0x4F, 0x4A, 0x4B, 0x4C, 0x0D, 0x09]
    } else if p == 6 {
        seq![0x57, 0x41, 0x53, 0x44, 0x20, 0x45, 0x52, 0x46, 0x51, 0xA0, 0xA2, 0x43, 0x0D, 0x09]
    } else if p == 7 {
        seq![0x57, 0x41, 0x53, 0x44, 0xA2, 0x43, 0x20, 0x45, 0x46, 0x51, 0xA0, 0x0D, 0x09]
    } else if p == 8 {
        seq![0x57, 0x41, 0x53, 0x44, 0x26, 0x25, 0x28, 0x27, 0x20, 0x43, 0xA2, 0x51, 0x46, 0x45, 0x0D, 0x09]
    } else if p == 9 {
        seq![0x57, 0x41, 0x53, 0x44, 0x26, 0x25, 0x28, 0x27, 0x20, 0xA0, 0x43, 0xA2, 0x52, 0x45, 0x46, 0x0D, 0x09]
    } else {
        seq![]
    }
}

/// Codes of the keys that could conflict with OS shortcuts.
pub open spec fn reserved_code(c: u16) -> bool {
    c == 0x5B || c == 0x5C || c == 0x5D || c == 0xA4 || c == 0xA5 || c == 0x1B
}

proof fn lemma_preset_codes(p: int)
    requires
        0 <= p < PRESET_COUNT,
    ensures
        preset_codes(p).len() == preset_keys(p).len(),
        forall|i: int| 0 <= i < preset_keys(p).len() ==> spec_name_for_vk(#[trigger] preset_codes(p)[i])
            == preset_keys(p)[i].0 && has_canonical_name(preset_codes(p)[i]) && !reserved_code(preset_codes(p)[i]),
        forall|i: int, j: int| 0 <= i < j < preset_keys(p).len() ==> #[trigger] preset_codes(p)[i]
            != #[trigger] preset_codes(p)[j],
{
    lemma_preset_key_names();
}

/// Every key a preset binds is a canonical key name: it maps to a key code
/// whose name it is (raw input events can produce it).
pub proof fn law_preset_keys_round_trip(p: int, i: int)
    requires
        0 <= p < PRESET_COUNT,
        0 <= i < preset_keys(p).len(),
    ensures
        spec_vk_for_name(preset_keys(p)[i].0) matches Some(v) && spec_name_for_vk(v) == preset_keys(p)[i].0,
{
    lemma_preset_codes(p);
    law_name_round_trip(preset_codes(p)[i]);
}

/// No preset binds a key twice, and none binds an OS-reserved key.
pub proof fn law_preset_keys_distinct_and_free(p: int, i: int, j: int)
    requires
        0 <= p < PRESET_COUNT,
        0 <= i < preset_keys(p).len(),
        0 <= j < preset_keys(p).len(),
    ensures
        i != j ==> preset_keys(p)[i].0 != preset_keys(p)[j].0,
        !spec_is_os_reserved(preset_keys(p)[i].0),
{
    lemma_preset_codes(p);
    lemma_preset_key_names();
    let c = preset_codes(p)[i];
    law_names_are_distinct(c, preset_codes(p)[j]);
    law_names_are_distinct(c, 0x5B);
    law_names_are_distinct(c, 0x5C);
    law_names_are_distinct(c, 0x5D);
    law_names_are_distinct(c, 0xA4);
    law_names_are_distinct(c, 0xA5);
    law_names_are_distinct(c, 0x1B);
}

/// Every preset moves the left stick, and every preset but the general one
/// binds Start for pausing.
pub proof fn law_preset_has_movement_and_pause(p: int)
    requires
        0 <= p < PRESET_COUNT,
    ensures
        exists|i: int| 0 <= i < preset_keys(p).len() && (#[trigger] preset_keys(p)[i]).1 is Stick
            && preset_keys(p)[i].1->Stick_side == StickSide::Left,
        (exists|i: int| 0 <= i < preset_keys(p).len() && (#[trigger] preset_keys(p)[i]).1 == button_t(
            GamepadButton::Start,
        )) || preset_id(p) == GENERAL_ID@,
{
    if p == 0 {
        assert(preset_keys(0)[0].1 is Stick && preset_keys(0)[0].1->Stick_side == StickSide::Left);
        assert(preset_keys(0)[17].1 == button_t(GamepadButton::Start));
    } else if p == 1 {
        assert(preset_keys(1)[0].1 is Stick && preset_keys(1)[0].1->Stick_side == StickSide::Left);
        assert(preset_keys(1)[16].1 == button_t(GamepadButton::Start));
    } else if p == 2 {
        assert(preset_keys(2)[0].1 is Stick && preset_keys(2)[0].1->Stick_side == StickSide::Left);
        assert(preset_keys(2)[16].1 == button_t(GamepadButton::Start));
    } else if p == 3 {
        assert(preset_keys(3)[0].1 is Stick && preset_keys(3)[0].1->Stick_side == StickSide::Left);
        assert(preset_keys(3)[12].1 == button_t(GamepadButton::Start));
    } else if p == 4 {
        assert(preset_keys(4)[0].1 is Stick && preset_keys(4)[0].1->Stick_side == StickSide::Left);
        assert(preset_keys(4)[8].1 == button_t(GamepadButton::Start));
    } else if p == 5 {
        assert(preset_keys(5)[0].1 is Stick && preset_keys(5)[0].1->Stick_side == StickSide::Left);
        assert(preset_keys(5)[10].1 == button_t(GamepadButton::Start));
    } else if p == 6 {
        assert(preset_keys(6)[0].1 is Stick && preset_keys(6)[0].1->Stick_side == StickSide::Left);
        assert(preset_keys(6)[12].1 == button_t(GamepadButton::Start));
    } else if p == 7 {
        assert(preset_keys(7)[0].1 is Stick && preset_keys(7)[0].1->Stick_side == StickSide::Left);
        assert(preset_keys(7)[11].1 == button_t(GamepadButton::Start));
    } else if p == 8 {
        assert(preset_keys(8)[0].1 is Stick && preset_keys(8)[0].1->Stick_side == StickSide::Left);
        assert(preset_keys(8)[14].1 == button_t(GamepadButton::Start));
    } else if p == 9 {
        assert(preset_keys(9)[0].1 is Stick && preset_keys(9)[0].1->Stick_side == StickSide::Left);
        assert(preset_keys(9)[15].1 == button_t(GamepadButton::Start));
    }
}

/// Row `w` of preset `p` is bound differently in preset `q`.
proof fn lemma_row_missing(p: int, q: int, w: int)
    requires
        0 <= p < PRESET_COUNT,
        0 <= q < PRESET_COUNT,
        0 <= w < preset_keys(p).len(),
        forall|j: int| 0 <= j < preset_keys(q).len() ==> #[trigger] preset_codes(q)[j] != preset_codes(p)[w]
            || preset_keys(q)[j].1 != preset_keys(p)[w].1,
    ensures
        preset_keys(p).to_set() != preset_keys(q).to_set(),
{
    lemma_preset_codes(p);
    lemma_preset_codes(q);
    if preset_keys(q).contains(preset_keys(p)[w]) {
        let j = choose|j: int| 0 <= j < preset_keys(q).len() && preset_keys(q)[j] == preset_keys(p)[w];
        law_names_are_distinct(preset_codes(q)[j], preset_codes(p)[w]);
    }
    assert(preset_keys(p).to_set().contains(preset_keys(p)[w]));
    assert(!preset_keys(q).to_set().contains(preset_keys(p)[w]));
}

proof fn lemma_tables_differ_0(q: int)
    requires
        0 <= q < PRESET_COUNT,
        q != 0,
    ensures
        preset_keys(0).to_set() != preset_keys(q).to_set(),
{
    if q == 1 {
        lemma_row_missing(0, 1, 4);
    } else if q == 2 {
        lemma_row_missing(0, 2, 4);
    } else if q == 3 {
        lemma_row_missing(0, 3, 4);
    } else if q == 4 {
        lemma_row_missing(0, 4, 4);
    } else if q == 5 {
        lemma_row_missing(0, 5, 4);
    } else if q == 6 {
        lemma_row_missing(0, 6, 4);
    } else if q == 7 {
        lemma_row_missing(0, 7, 4);
    } else if q == 8 {
        lemma_row_missing(0, 8, 9);
    } else if q == 9 {
        lemma_row_missing(0, 9, 9);
    }
}

proof fn lemma_tables_differ_1(q: int)
    requires
        0 <= q < PRESET_COUNT,
        q != 1,
    ensures
        preset_keys(1).to_set() != preset_keys(q).to_set(),
{
    if q == 0 {
        lemma_row_missing(1, 0, 5);
    } else if q == 2 {
        lemma_row_missing(1, 2, 5);
    } else if q == 3 {
        lemma_row_missing(1, 3, 4);
    } else if q == 4 {
        lemma_row_missing(1, 4, 4);
    } else if q == 5 {
        lemma_row_missing(1, 5, 4);
    } else if q == 6 {
        lemma_row_missing(1, 6, 5);
    } else if q == 7 {
        lemma_row_missing(1, 7, 5);
    } else if q == 8 {
        lemma_row_missing(1, 8, 5);
    } else if q == 9 {
        lemma_row_missing(1, 9, 5);
    }
}

proof fn lemma_tables_differ_2(q: int)
    requires
        0 <= q < PRESET_COUNT,
        q != 2,
    ensures
        preset_keys(2).to_set() != preset_keys(q).to_set(),
{
    if q == 0 {
        lemma_row_missing(2, 0, 6);
    } else if q == 1 {
        lemma_row_missing(2, 1, 5);
    } else if q == 3 {
        lemma_row_missing(2, 3, 4);
    } else if q == 4 {
        lemma_row_missing(2, 4, 4);
    } else if q == 5 {
        lemma_row_missing(2, 5, 4);
    } else if q == 6 {
        lemma_row_missing(2, 6, 6);
    } else if q == 7 {
        lemma_row_missing(2, 7, 6);
    } else if q == 8 {
        lemma_row_missing(2, 8, 6);
    } else if q == 9 {
        lemma_row_missing(2, 9, 6);
    }
}

proof fn lemma_tables_differ_3(q: int)
    requires
        0 <= q < PRESET_COUNT,
        q != 3,
    ensures
        preset_keys(3).to_set() != preset_keys(q).to_set(),
{
    if q == 0 {
        lemma_row_missing(3, 0, 4);
    } else if q == 1 {
        lemma_row_missing(3, 1, 4);
    } else if q == 2 {
        lemma_row_missing(3, 2, 4);
    } else if q == 4 {
        lemma_row_missing(3, 4, 8);
    } else if q == 5 {
        lemma_row_missing(3, 5, 8);
    } else if q == 6 {
        lemma_row_missing(3, 6, 4);
    } else if q == 7 {
        lemma_row_missing(3, 7, 4);
    } else if q == 8 {
        lemma_row_missing(3, 8, 4);
    } else if q == 9 {
        lemma_row_missing(3, 9, 4);
    }
}

proof fn lemma_tables_differ_4(q: int)
    requires
        0 <= q < PRESET_COUNT,
        q != 4,
    ensures
        preset_keys(4).to_set() != preset_keys(q).to_set(),
{
    if q == 0 {
        lemma_row_missing(4, 0, 4);
    } else if q == 1 {
        lemma_row_missing(4, 1, 4);
    } else if q == 2 {
        lemma_row_missing(4, 2, 4);
    } else if q == 3 {
        lemma_row_missing(3, 4, 8);
    } else if q == 5 {
        lemma_row_missing(5, 4, 6);
    } else if q == 6 {
        lemma_row_missing(4, 6, 4);
    } else if q == 7 {
        lemma_row_missing(4, 7, 4);
    } else if q == 8 {
        lemma_row_missing(4, 8, 4);
    } else if q == 9 {
        lemma_row_missing(4, 9, 4);
    }
}

proof fn lemma_tables_differ_5(q: int)
    requires
        0 <= q < PRESET_COUNT,
        q != 5,
    ensures
        preset_keys(5).to_set() != preset_keys(q).to_set(),
{
    if q == 0 {
        lemma_row_missing(5, 0, 4);
    } else if q == 1 {
        lemma_row_missing(5, 1, 4);
    } else if q == 2 {
        lemma_row_missing(5, 2, 4);
    } else if q == 3 {
        lemma_row_missing(5, 3, 6);
    } else if q == 4 {
        lemma_row_missing(5, 4, 6);
    } else if q == 6 {
        lemma_row_missing(5, 6, 4);
    } else if q == 7 {
        lemma_row_missing(5, 7, 4);
    } else if q == 8 {
        lemma_row_missing(5, 8, 4);
    } else if q == 9 {
        lemma_row_missing(5, 9, 4);
    }
}

proof fn lemma_tables_differ_6(q: int)
    requires
        0 <= q < PRESET_COUNT,
        q != 6,
    ensures
        preset_keys(6).to_set() != preset_keys(q).to_set(),
{
    if q == 0 {
        lemma_row_missing(6, 0, 11);
    } else if q == 1 {
        lemma_row_missing(6, 1, 5);
    } else if q == 2 {
        lemma_row_missing(6, 2, 8);
    } else if q == 3 {
        lemma_row_missing(6, 3, 4);
    } else if q == 4 {
        lemma_row_missing(6, 4, 4);
    } else if q == 5 {
        lemma_row_missing(6, 5, 4);
    } else if q == 7 {
        lemma_row_missing(6, 7, 6);
    } else if q == 8 {
        lemma_row_missing(6, 8, 6);
    } else if q == 9 {
        lemma_row_missing(6, 9, 8);
    }
}

proof fn lemma_tables_differ_7(q: int)
    requires
        0 <= q < PRESET_COUNT,
        q != 7,
    ensures
        preset_keys(7).to_set() != preset_keys(q).to_set(),
{
    if q == 0 {
        lemma_row_missing(7, 0, 5);
    } else if q == 1 {
        lemma_row_missing(7, 1, 7);
    } else if q == 2 {
        lemma_row_missing(7, 2, 9);
    } else if q == 3 {
        lemma_row_missing(7, 3, 5);
    } else if q == 4 {
        lemma_row_missing(7, 4, 4);
    } else if q == 5 {
        lemma_row_missing(7, 5, 4);
    } else if q == 6 {
        lemma_row_missing(6, 7, 6);
    } else if q == 8 {
        lemma_row_missing(7, 8, 10);
    } else if q == 9 {
        lemma_row_missing(7, 9, 9);
    }
}

proof fn lemma_tables_differ_8(q: int)
    requires
        0 <= q < PRESET_COUNT,
        q != 8,
    ensures
        preset_keys(8).to_set() != preset_keys(q).to_set(),
{
    if q == 0 {
        lemma_row_missing(8, 0, 9);
    } else if q == 1 {
        lemma_row_missing(8, 1, 4);
    } else if q == 2 {
        lemma_row_missing(8, 2, 4);
    } else if q == 3 {
        lemma_row_missing(8, 3, 4);
    } else if q == 4 {
        lemma_row_missing(8, 4, 4);
    } else if q == 5 {
        lemma_row_missing(8, 5, 4);
    } else if q == 6 {
        lemma_row_missing(8, 6, 4);
    } else if q == 7 {
        lemma_row_missing(8, 7, 4);
    } else if q == 9 {
        lemma_row_missing(8, 9, 11);
    }
}

proof fn lemma_tables_differ_9(q: int)
    requires
        0 <= q < PRESET_COUNT,
        q != 9,
    ensures
        preset_keys(9).to_set() != preset_keys(q).to_set(),
{
    if q == 0 {
        lemma_row_missing(9, 0, 9);
    } else if q == 1 {
        lemma_row_missing(9, 1, 4);
    } else if q == 2 {
        lemma_row_missing(9, 2, 4);
    } else if q == 3 {
        lemma_row_missing(9, 3, 4);
    } else if q == 4 {
        lemma_row_missing(9, 4, 4);
    } else if q == 5 {
        lemma_row_missing(9, 5, 4);
    } else if q == 6 {
        lemma_row_missing(9, 6, 4);
    } else if q == 7 {
        lemma_row_missing(9, 7, 4);
    } else if q == 8 {
        lemma_row_missing(9, 8, 9);
    }
}

/// Two presets never have the same (key, target) table, so the preset a
/// player uses can be told from its bindings.
pub proof fn law_preset_tables_differ(p: int, q: int)
    requires
        0 <= p < PRESET_COUNT,
        0 <= q < PRESET_COUNT,
        p != q,
    ensures
        preset_keys(p).to_set() != preset_keys(q).to_set(),
{
    if p == 0 {
        lemma_tables_differ_0(q);
    } else if p == 1 {
        lemma_tables_differ_1(q);
    } else if p == 2 {
        lemma_tables_differ_2(q);
    } else if p == 3 {
        lemma_tables_differ_3(q);
    } else if p == 4 {
        lemma_tables_differ_4(q);
    } else if p == 5 {
        lemma_tables_differ_5(q);
    } else if p == 6 {
        lemma_tables_differ_6(q);
    } else if p == 7 {
        lemma_tables_differ_7(q);
    } else if p == 8 {
        lemma_tables_differ_8(q);
    } else if p == 9 {
        lemma_tables_differ_9(q);
    }
}


/// Every built-in layout's id, display name and rows, key by key: which
/// key drives which control. The general layout every new player gets moves the left stick
/// on WASD and the right stick on the arrows, A/B/X/Y on Space/LShift/E/R,
/// and the D-pad on I (up), K (down), J (left) and L (right).
pub proof fn law_preset_layouts()
    ensures
        preset_id(0) == "general"@,
        preset_name(0) == "General (WASD + arrows)"@,
        preset_id(1) == "football-fc"@,
        preset_name(1) == "Football (FIFA / EA FC)"@,
        preset_id(2) == "football-pes"@,
        preset_name(2) == "Football (eFootball / PES)"@,
        preset_id(3) == "mortal-kombat"@,
        preset_name(3) == "Fighting (Mortal Kombat)"@,
        preset_id(4) == "tekken"@,
        preset_name(4) == "Fighting (Tekken)"@,
        preset_id(5) == "street-fighter"@,
        preset_name(5) == "Fighting (Street Fighter 6)"@,
        preset_id(6) == "platform-coop"@,
        preset_name(6) == "Co-op platformer"@,
        preset_id(7) == "racing"@,
        preset_name(7) == "Arcade racing"@,
        preset_id(8) == "twin-stick"@,
        preset_name(8) == "Twin-stick shooter"@,
        preset_id(9) == "fps-gamepad"@,
        preset_name(9) == "Shooter (gamepad style)"@,
        preset_keys(0) == seq![
            ("W"@, Target::Stick { side: StickSide::Left, direction: StickDirection::Up }),
            ("A"@, Target::Stick { side: StickSide::Left, direction: StickDirection::Left }),
            ("S"@, Target::Stick { side: StickSide::Left, direction: StickDirection::Down }),
            ("D"@, Target::Stick { side: StickSide::Left, direction: StickDirection::Right }),
            ("Up"@, Target::Stick { side: StickSide::Right, direction: StickDirection::Up }),
            ("Left"@, Target::Stick { side: StickSide::Right, direction: StickDirection::Left }),
            ("Down"@, Target::Stick { side: StickSide::Right, direction: StickDirection::Down }),
            ("Right"@, Target::Stick { side: StickSide::Right, direction: StickDirection::Right }),
            ("Space"@, Target::Button { button: GamepadButton::A }),
            ("LShift"@, Target::Button { button: GamepadButton::B }),
            ("E"@, Target::Button { button: GamepadButton::X }),
            ("R"@, Target::Button { button: GamepadButton::Y }),
            ("Q"@, Target::Button { button: GamepadButton::LB }),
            ("F"@, Target::Button { button: GamepadButton::RB }),
            ("LCtrl"@, Target::Trigger { side: TriggerSide::Left }),
            ("Z"@, Target::Trigger { side: TriggerSide::Right }),
            ("Tab"@, Target::Button { button: GamepadButton::Back }),
            ("Enter"@, Target::Button { button: GamepadButton::Start }),
            ("I"@, Target::Dpad { direction: DpadDirection::Up }),
            ("K"@, Target::Dpad { direction: DpadDirection::Down }),
            ("J"@, Target::Dpad { direction: DpadDirection::Left }),
            ("L"@, Target::Dpad { direction: DpadDirection::Right }),
        ],
        preset_keys(1) == seq![
            ("W"@, Target::Stick { side: StickSide::Left, direction: StickDirection::Up }),
            ("A"@, Target::Stick { side: StickSide::Left, direction: StickDirection::Left }),
            ("S"@, Target::Stick { side: StickSide::Left, direction: StickDirection::Down }),
            ("D"@, Target::Stick { side: StickSide::Left, direction: StickDirection::Right }),
            ("Space"@, Target::Button { button: GamepadButton::A }),
            ("E"@, Target::Button { button: GamepadButton::B }),
            ("Q"@, Target::Button { button: GamepadButton::X }),
            ("R"@, Target::Button { button: GamepadButton::Y }),
            ("Tab"@, Target::Button { button: GamepadButton::LB }),
            ("F"@, Target::Button { button: GamepadButton::RB }),
            ("LCtrl"@, Target::Trigger { side: TriggerSide::Left }),
            ("C"@, Target::Trigger { side: TriggerSide::Right }),
            ("Up"@, Target::Dpad { direction: DpadDirection::Up }),
            ("Left"@, Target::Dpad { direction: DpadDirection::Left }),
            ("Down"@, Target::Dpad { direction: DpadDirection::Down }),
            ("Right"@, Target::Dpad { direction: DpadDirection::Right }),
            ("Enter"@, Target::Button { button: GamepadButton::Start }),
        ],
        preset_keys(2) == seq![
            ("W"@, Target::Stick { side: StickSide::Left, direction: StickDirection::Up }),
            ("A"@, Target::Stick { side: StickSide::Left, direction: StickDirection::Left }),
            ("S"@, Target::Stick { side: StickSide::Left, direction: StickDirection::Down }),
            ("D"@, Target::Stick { side: StickSide::Left, direction: StickDirection::Right }),
            ("Space"@, Target::Button { button: GamepadButton::A }),
            ("E"@, Target::Button { button: GamepadButton::X }),
            ("Q"@, Target::Button { button: GamepadButton::B }),
            ("R"@, Target::Button { button: GamepadButton::Y }),
            ("Tab"@, Target::Button { button: GamepadButton::LB }),
            ("F"@, Target::Button { button: GamepadButton::RB }),
            ("C"@, Target::Trigger { side: TriggerSide::Right }),
            ("LCtrl"@, Target::Trigger { side: TriggerSide::Left }),
            ("Up"@, Target::Dpad { direction: DpadDirection::Up }),
            ("Left"@, Target::Dpad { direction: DpadDirection::Left }),
            ("Down"@, Target::Dpad { direction: DpadDirection::Down }),
            ("Right"@, Target::Dpad { direction: DpadDirection::Right }),
            ("Enter"@, Target::Button { button: GamepadButton::Start }),
        ],
        preset_keys(3) == seq![
            ("W"@, Target::Stick { side: StickSide::Left, direction: StickDirection::Up }),
            ("A"@, Target::Stick { side: StickSide::Left, direction: StickDirection::Left }),
            ("S"@, Target::Stick { side: StickSide::Left, direction: StickDirection::Down }),
            ("D"@, Target::Stick { side: StickSide::Left, direction: StickDirection::Right }),
            ("U"@, Target::Button { button: GamepadButton::X }),
            ("I"@, Target::Button { button: GamepadButton::Y }),
            ("J"@, Target::Button { button: GamepadButton::A }),
            ("K"@, Target::Button { button: GamepadButton::B }),
            ("O"@, Target::Button { button: GamepadButton::LB }),
            ("L"@, Target::Button { button: GamepadButton::RB }),
            ("LCtrl"@, Target::Trigger { side: TriggerSide::Left }),
            (";"@, Target::Trigger { side: TriggerSide::Right }),
            ("Enter"@, Target::Button { button: GamepadButton::Start }),
            ("Tab"@, Target::Button { button: GamepadButton::Back }),
        ],
        preset_keys(4) == seq![
            ("W"@, Target::Stick { side: StickSide::Left, direction: StickDirection::Up }),
            ("A"@, Target::Stick { side: StickSide::Left, direction: StickDirection::Left }),
            ("S"@, Target::Stick { side: StickSide::Left, direction: StickDirection::Down }),
            ("D"@, Target::Stick { side: StickSide::Left, direction: StickDirection::Right }),
            ("U"@, Target::Button { button: GamepadButton::X }),
            ("I"@, Target::Button { button: GamepadButton::Y }),
            ("J"@, Target::Button { button: GamepadButton::A }),
            ("K"@, Target::Button { button: GamepadButton::B }),
            ("Enter"@, Target::Button { button: GamepadButton::Start }),
            ("Tab"@, Target::Button { button: GamepadButton::Back }),
        ],
        preset_keys(5) == seq![
            ("W"@, Target::Stick { side: StickSide::Left, direction: StickDirection::Up }),
            ("A"@, Target::Stick { side: StickSide::Left, direction: StickDirection::Left }),
            ("S"@, Target::Stick { side: StickSide::Left, direction: StickDirection::Down }),
            ("D"@, Target::Stick { side: StickSide::Left, direction: StickDirection::Right }),
            ("U"@, Target::Button { button: GamepadButton::X }),
            ("I"@, Target::Button { button: GamepadButton::Y }),
            ("O"@, Target::Button { button: GamepadButton::RB }),
            ("J"@, Target::Button { button: GamepadButton::A }),
            ("K"@, Target::Button { button: GamepadButton::B }),
            ("L"@, Target::Trigger { side: TriggerSide::Right }),
            ("Enter"@, Target::Button { button: GamepadButton::Start }),
            ("Tab"@, Target::Button { button: GamepadButton::Back }),
        ],
        preset_keys(6) == seq![
            ("W"@, Target::Stick { side: StickSide::Left, direction: StickDirection::Up }),
            ("A"@, Target::Stick { side: StickSide::Left, direction: StickDirection::Left }),
            ("S"@, Target::Stick { side: StickSide::Left, direction: StickDirection::Down }),
            ("D"@, Target::Stick { side: StickSide::Left, direction: StickDirection::Right }),
            ("Space"@, Target::Button { button: GamepadButton::A }),
            ("E"@, Target::Button { button: GamepadButton::X }),
            ("R"@, Target::Button { button: GamepadButton::Y }),
            ("F"@, Target::Button { button: GamepadButton::RB }),
            ("Q"@, Target::Button { button: GamepadButton::LB }),
            ("LShift"@, Target::Button { button: GamepadButton::B }),
            ("LCtrl"@, Target::Trigger { side: TriggerSide::Left }),
            ("C"@, Target::Trigger { side: TriggerSide::Right }),
            ("Enter"@, Target::Button { button: GamepadButton::Start }),
            ("Tab"@, Target::Button { button: GamepadButton::Back }),
        ],
        preset_keys(7) == seq![
            ("W"@, Target::Stick { side: StickSide::Left, direction: StickDirection::Up }),
            ("A"@, Target::Stick { side: StickSide::Left, direction: StickDirection::Left }),
            ("S"@, Target::Stick { side: StickSide::Left, direction: StickDirection::Down }),
            ("D"@, Target::Stick { side: StickSide::Left, direction: StickDirection::Right }),
            ("LCtrl"@, Target::Trigger { side: TriggerSide::Left }),
            ("C"@, Target::Trigger { side: TriggerSide::Right }),
            ("Space"@, Target::Button { button: GamepadButton::A }),
            ("E"@, Target::Button { button: GamepadButton::X }),
            ("F"@, Target::Button { button: GamepadButton::RB }),
            ("Q"@, Target::Button { button: GamepadButton::LB }),
            ("LShift"@, Target::Button { button: GamepadButton::B }),
            ("Enter"@, Target::Button { button: GamepadButton::Start }),
            ("Tab"@, Target::Button { button: GamepadButton::Back }),
        ],
        preset_keys(8) == seq![
            ("W"@, Target::Stick { side: StickSide::Left, direction: StickDirection::Up }),
            ("A"@, Target::Stick { side: StickSide::Left, direction: StickDirection::Left }),
            ("S"@, Target::Stick { side: StickSide::Left, direction: StickDirection::Down }),
            ("D"@, Target::Stick { side: StickSide::Left, direction: StickDirection::Right }),
            ("Up"@, Target::Stick { side: StickSide::Right, direction: StickDirection::Up }),
            ("Left"@, Target::Stick { side: StickSide::Right, direction: StickDirection::Left }),
            ("Down"@, Target::Stick { side: StickSide::Right, direction: StickDirection::Down }),
            ("Right"@, Target::Stick { side: StickSide::Right, direction: StickDirection::Right }),
            ("Space"@, Target::Button { button: GamepadButton::A }),
            ("C"@, Target::Trigger { side: TriggerSide::Right }),
            ("LCtrl"@, Target::Trigger { side: TriggerSide::Left }),
            ("Q"@, Target::Button { button: GamepadButton::LB }),
            ("F"@, Target::Button { button: GamepadButton::RB }),
            ("E"@, Target::Button { button: GamepadButton::X }),
            ("Enter"@, Target::Button { button: GamepadButton::Start }),
            ("Tab"@, Target::Button { button: GamepadButton::Back }),
        ],
        preset_keys(9) == seq![
            ("W"@, Target::Stick { side: StickSide::Left, direction: StickDirection::Up }),
            ("A"@, Target::Stick { side: StickSide::Left, direction: StickDirection::Left }),
            ("S"@, Target::Stick { side: StickSide::Left, direction: StickDirection::Down }),
            ("D"@, Target::Stick { side: StickSide::Left, direction: StickDirection::Right }),
            ("Up"@, Target::Stick { side: StickSide::Right, direction: StickDirection::Up }),
            ("Left"@, Target::Stick { side: StickSide::Right, direction: StickDirection::Left }),
            ("Down"@, Target::Stick { side: StickSide::Right, direction: StickDirection::Down }),
            ("Right"@, Target::Stick { side: StickSide::Right, direction: StickDirection::Right }),
            ("Space"@, Target::Button { button: GamepadButton::A }),
            ("LShift"@, Target::Button { button: GamepadButton::LB }),
            ("C"@, Target::Trigger { side: TriggerSide::Right }),
            ("LCtrl"@, Target::Trigger { side: TriggerSide::Left }),
            ("R"@, Target::Button { button: GamepadButton::Y }),
            ("E"@, Target::Button { button: GamepadButton::X }),
            ("F"@, Target::Button { button: GamepadButton::RB }),
            ("Enter"@, Target::Button { button: GamepadButton::Start }),
            ("Tab"@, Target::Button { button: GamepadButton::Back }),
        ],
{
}

} // verus!
