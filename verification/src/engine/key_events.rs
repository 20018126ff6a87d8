//! Key events from the physical keyboards.

use vstd::prelude::*;

use crate::controller::{GamepadReport, VirtualController};
use crate::mapping::{fits_report, report_fits, report_for, spec_report};
use crate::model::{opt_view, strings_view, KeyEventDto, KeyboardDevice};
use crate::text::str_eq;
use super::{device_name, find_device_name, held_is_set, no_repeats, Core, PlayerRuntime};
use super::editing::{lemma_without_name_keeps_set, names_without, without_name};

verus! {

/// Device name shown for a keyboard missing from the device list.
pub const UNKNOWN_KEYBOARD: &'static str = "Keyboard";

/// What a key event on a physical keyboard led to.
pub enum KeyOutcome {
    /// The keyboard feeds no player; the event is ignored.
    Unassigned,
    /// The event to show to the user interface; `submit_failed` when the
    /// virtual controller refused the new report (the player now holds the
    /// error).
    Handled { event: KeyEventDto, submit_failed: bool },
    /// The event to show; the player's held keys would push a stick sum
    /// out of the i32 range, so no report was computed.
    Overflow { event: KeyEventDto },
}

/// Index of the first of the first `n` players fed by keyboard `device`.
pub open spec fn player_of<C>(players: Seq<PlayerRuntime<C>>, device: Seq<char>, n: int) -> Option<int>
    decreases n,
{
    if n <= 0 {
        None
    } else {
        match player_of(players, device, n - 1) {
            Some(i) => Some(i),
            None => if opt_view(players[n - 1].keyboard) == Some(device) {
                Some(n - 1)
            } else {
                None
            },
        }
    }
}

proof fn lemma_player_of_stays<C>(players: Seq<PlayerRuntime<C>>, device: Seq<char>, n: int, m: int)
    requires
        0 <= n <= m,
        player_of(players, device, n) is Some,
    ensures
        player_of(players, device, m) == player_of(players, device, n),
    decreases m - n,
{
    if m > n {
        lemma_player_of_stays(players, device, n, m - 1);
    }
}

proof fn lemma_player_of_bounds<C>(players: Seq<PlayerRuntime<C>>, device: Seq<char>, n: int)
    ensures
        player_of(players, device, n) matches Some(i) ==> 0 <= i < n && opt_view(players[i].keyboard)
            == Some(device),
    decreases n,
{
    if n > 0 {
        lemma_player_of_bounds(players, device, n - 1);
    }
}

/// `held` with `key` added (a set: no repeat).
pub open spec fn with_name(held: Seq<Seq<char>>, key: Seq<char>) -> Seq<Seq<char>> {
    if held.contains(key) {
        held
    } else {
        held.push(key)
    }
}

/// `held` after `key` went down (`down`) or up.
pub open spec fn pressed(held: Seq<Seq<char>>, key: Seq<char>, down: bool) -> Seq<Seq<char>> {
    if down {
        with_name(held, key)
    } else {
        without_name(held, key)
    }
}

/// Held keys form a set: a key going down or up never makes a key held twice.
pub proof fn law_pressed_keeps_held_a_set(held: Seq<Seq<char>>, key: Seq<char>, down: bool)
    requires
        no_repeats(held),
    ensures
        no_repeats(pressed(held, key, down)),
{
    if down {
        if !held.contains(key) {
            let out = held.push(key);
            assert forall|a: int, b: int| 0 <= a < b < out.len() implies out[a] != out[b] by {
                if b == held.len() {
                    assert(out[a] == held[a]);
                }
            }
        }
    } else {
        lemma_without_name_keeps_set(held, key);
    }
}

/// The event reported for a key on `device`: its device name comes from
/// the device list, "Keyboard" when it is not listed.
pub open spec fn is_event(ev: KeyEventDto, devs: Seq<KeyboardDevice>, device: Seq<char>, key: Seq<char>, down: bool) -> bool {
    &&& ev.device@ == device
    &&& ev.device_name@ == (match device_name(devs, device, devs.len() as int) {
        Some(n) => n,
        None => UNKNOWN_KEYBOARD@,
    })
    &&& ev.key@ == key
    &&& ev.down == down
}

/// `q` is `p` after a key event while running: the held keys follow the
/// event; the report of the new held keys is pushed to the controller when
/// it differs from the last accepted one.
pub open spec fn key_step<C: VirtualController>(p: PlayerRuntime<C>, q: PlayerRuntime<C>, key: Seq<char>, down: bool, r: KeyOutcome) -> bool {
    &&& strings_view(q.held@) == pressed(strings_view(p.held@), key, down)
    &&& if !report_fits(p.bindings@, q.held@) {
        &&& r is Overflow
        &&& q == (PlayerRuntime { held: q.held, ..p })
    } else {
        let report = spec_report(p.bindings@, q.held@);
        &&& r is Handled
        &&& if p.last_report == Some(report) || p.controller is None {
            &&& q == (PlayerRuntime { held: q.held, ..p })
            &&& !r->submit_failed
        } else {
            &&& q == (PlayerRuntime {
                held: q.held,
                controller: q.controller,
                controller_error: q.controller_error,
                last_report: q.last_report,
                ..p
            })
            &&& q.controller is Some
            &&& q.controller->0.submitted() == Some(report)
            &&& q.controller->0.connected() == p.controller->0.connected()
            &&& if r->submit_failed {
                q.last_report is None && q.controller_error is Some
            } else {
                q.last_report == Some(report) && q.controller_error is None
            }
        }
    }
}

/// Records what the controller answered to a submitted report: accepted,
/// it becomes the last report; refused, the error is kept and the next
/// event submits again. Returns whether it was refused.
pub fn record_submit<C>(p: &mut PlayerRuntime<C>, report: GamepadReport, result: Result<(), String>) -> (failed: bool)
    ensures
        failed == result is Err,
        *final(p) == (PlayerRuntime {
            controller_error: final(p).controller_error,
            last_report: final(p).last_report,
            ..*old(p)
        }),
        (match result {
            Ok(()) => final(p).controller_error is None && final(p).last_report == Some(report),
            Err(e) => final(p).controller_error == Some(e) && final(p).last_report is None,
        }),
{
    match result {
        Ok(()) => {
            p.controller_error = None;
            p.last_report = Some(report);
            false
        },
        Err(e) => {
            p.controller_error = Some(e);
            p.last_report = None;
            true
        },
    }
}

fn holds_name(held: &[String], key: &String) -> (r: bool)
    ensures
        r == strings_view(held@).contains(key@),
{
    let mut i: usize = 0;
    while i < held.len()
        invariant
            i <= held@.len(),
            forall|j: int| 0 <= j < i ==> held@[j]@ != key@,
        decreases held@.len() - i,
    {
        if held[i] == *key {
            assert(strings_view(held@)[i as int] == key@);
            return true;
        }
        i = i + 1;
    }
    proof {
        if strings_view(held@).contains(key@) {
            let j = choose|j: int| 0 <= j < held@.len() && strings_view(held@)[j] == key@;
            assert(held@[j]@ == key@);
        }
    }
    false
}

impl<C: VirtualController> Core<C> {
    fn find_player(&self, device: &str) -> (r: Option<usize>)
        ensures
            r matches Some(i) ==> player_of(self.players@, device@, self.players@.len() as int) == Some(i as int),
            r is None ==> player_of(self.players@, device@, self.players@.len() as int) is None,
    {
        let mut i: usize = 0;
        while i < self.players.len()
            invariant
                i <= self.players@.len(),
                player_of(self.players@, device@, i as int) is None,
            decreases self.players@.len() - i,
        {
            let fed = match &self.players[i].keyboard {
                Some(k) => str_eq(k.as_str(), device),
                None => false,
            };
            if fed {
                proof {
                    lemma_player_of_stays(self.players@, device@, i + 1, self.players@.len() as int);
                }
                return Some(i);
            }
            i = i + 1;
        }
        None
    }

    /// A key went down or up on keyboard `device`. The event always reaches
    /// the user interface (the mapping editor captures keys even while
    /// paused); only a running engine updates the first player fed by that
    /// keyboard and pushes its new report.
    pub fn key_event(&mut self, device: &str, key: &str, down: bool) -> (r: KeyOutcome)
        ensures
            old(self).wf() ==> final(self).wf(),
            (match player_of(old(self).players@, device@, old(self).players@.len() as int) {
                None => r is Unassigned && *final(self) == *old(self),
                Some(i) => {
                    &&& final(self).only_player_changed(*old(self), i)
                    &&& (match r {
                        KeyOutcome::Handled { event, .. } => is_event(event, old(self).devices@, device@, key@, down),
                        KeyOutcome::Overflow { event } => is_event(event, old(self).devices@, device@, key@, down),
                        KeyOutcome::Unassigned => false,
                    })
                    &&& !old(self).running ==> *final(self) == *old(self) && r is Handled && !r->submit_failed
                    &&& old(self).running ==> key_step(old(self).players@[i], final(self).players@[i], key@, down, r)
                },
            }),
    {
        let found = self.find_player(device);
        proof {
            lemma_player_of_bounds(self.players@, device@, self.players@.len() as int);
        }
        let i = match found {
            Some(i) => i,
            None => return KeyOutcome::Unassigned,
        };
        let device_name = match find_device_name(self.devices.as_slice(), device) {
            Some(n) => n,
            None => UNKNOWN_KEYBOARD.to_string(),
        };
        let event = KeyEventDto {
            device: device.to_string(),
            device_name,
            key: key.to_string(),
            down,
        };
        if !self.running {
            return KeyOutcome::Handled { event, submit_failed: false };
        }
        let key_string = key.to_string();
        let ghost p = self.players@[i as int];
        if down {
            if !holds_name(self.players[i].held.as_slice(), &key_string) {
                let ghost before = self.players[i as int].held@;
                self.players[i].held.push(key_string);
                proof {
                    assert(strings_view(self.players@[i as int].held@) =~= strings_view(before).push(key@));
                }
            }
        } else {
            let rest = names_without(self.players[i].held.as_slice(), &key_string);
            self.players[i].held = rest;
        }
        proof {
            if old(self).wf() {
                law_pressed_keeps_held_a_set(strings_view(p.held@), key@, down);
                assert(strings_view(self.players@[i as int].held@) == pressed(strings_view(p.held@), key@, down));
                assert forall|j: int| 0 <= j < self.players@.len() implies held_is_set(
                    #[trigger] self.players@[j],
                ) by {
                    if j != i {
                        assert(self.players@[j] == old(self).players@[j]);
                    }
                }
            }
        }
        if !fits_report(self.players[i].bindings.as_slice(), self.players[i].held.as_slice()) {
            return KeyOutcome::Overflow { event };
        }
        let report = report_for(self.players[i].bindings.as_slice(), self.players[i].held.as_slice());
        let unchanged = match self.players[i].last_report {
            Some(last) => last == report,
            None => false,
        };
        if unchanged {
            return KeyOutcome::Handled { event, submit_failed: false };
        }
        let taken = self.players[i].controller.take();
        match taken {
            None => KeyOutcome::Handled { event, submit_failed: false },
            Some(mut c) => {
                let result = c.submit(&report);
                self.players[i].controller = Some(c);
                let failed = record_submit(&mut self.players[i], report, result);
                KeyOutcome::Handled { event, submit_failed: failed }
            },
        }
    }
}

proof fn lemma_without_absent_name(held: Seq<Seq<char>>, key: Seq<char>)
    requires
        !held.contains(key),
    ensures
        without_name(held, key) == held,
    decreases held.len(),
{
    if held.len() > 0 {
        assert(!held.drop_last().contains(key)) by {
            if held.drop_last().contains(key) {
                let j = choose|j: int| 0 <= j < held.drop_last().len() && held.drop_last()[j] == key;
                assert(held[j] == key);
            }
        }
        lemma_without_absent_name(held.drop_last(), key);
        assert(held.last() != key);
        assert(held.drop_last().push(held.last()) =~= held);
    }
}

/// Pressing a key that was not held and releasing it again restores the
/// held keys.
pub proof fn law_press_release_restores(held: Seq<Seq<char>>, key: Seq<char>)
    requires
        !held.contains(key),
    ensures
        pressed(pressed(held, key, true), key, false) == held,
{
    lemma_without_absent_name(held, key);
    assert(held.push(key).drop_last() =~= held);
}

/// A released key is not held, and a pressed one is.
pub proof fn law_pressed_membership(held: Seq<Seq<char>>, key: Seq<char>)
    ensures
        pressed(held, key, true).contains(key),
        !pressed(held, key, false).contains(key),
{
    lemma_without_name_drops(held, key);
    if !held.contains(key) {
        assert(held.push(key)[held.len() as int] == key);
    }
}

proof fn lemma_without_name_drops(held: Seq<Seq<char>>, key: Seq<char>)
    ensures
        !without_name(held, key).contains(key),
    decreases held.len(),
{
    if held.len() > 0 {
        lemma_without_name_drops(held.drop_last(), key);
        let rest = without_name(held.drop_last(), key);
        if held.last() != key {
            assert forall|j: int| 0 <= j < rest.push(held.last()).len() implies rest.push(held.last())[j] != key by {
                if j < rest.len() {
                    assert(rest.push(held.last())[j] == rest[j]);
                }
            }
        }
    }
}

} // verus!
