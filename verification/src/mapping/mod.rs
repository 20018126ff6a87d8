//! Mapping engine: turns "held physical keys of one player" into a single
//! controller report. Pure and platform independent.

use vstd::prelude::*;

use crate::controller::{
    accumulate, finish, idle_report, spec_button_bit, spec_dpad_bit, spec_accumulate,
    clamp_i16, saturating_add_u32, fits_i32, stick_dx, stick_dy, Accumulator,
    GamepadReport,
};
use crate::model::{Binding, DpadDirection, GamepadButton, StickDirection, StickSide, Target, TriggerSide};

verus! {

/// `key` is one of the held keys.
pub open spec fn key_held(held: Seq<String>, key: Seq<char>) -> bool {
    exists|i: int| 0 <= i < held.len() && held[i]@ == key
}

/// Binding `b` fires while `held` is held.
pub open spec fn binding_active(b: Binding, held: Seq<String>) -> bool {
    key_held(held, b.key@)
}

/// Number of the first `n` bindings that are active and target `t`.
pub open spec fn count_active(bs: Seq<Binding>, held: Seq<String>, t: Target, n: int) -> nat
    decreases n,
{
    if n <= 0 {
        0
    } else {
        count_active(bs, held, t, n - 1) + if binding_active(bs[n - 1], held) && bs[n - 1].target
            == t {
            1nat
        } else {
            0nat
        }
    }
}

/// Button bits of the first `n` bindings that are active (OR-ed).
pub open spec fn active_buttons(bs: Seq<Binding>, held: Seq<String>, n: int) -> u16
    decreases n,
{
    if n <= 0 {
        0
    } else {
        let prev = active_buttons(bs, held, n - 1);
        if binding_active(bs[n - 1], held) {
            match bs[n - 1].target {
                Target::Button { button } => prev | spec_button_bit(button),
                Target::Dpad { direction } => prev | spec_dpad_bit(direction),
                _ => prev,
            }
        } else {
            prev
        }
    }
}

pub open spec fn stick(side: StickSide, direction: StickDirection) -> Target {
    Target::Stick { side, direction }
}

/// Net horizontal deflection units of one stick over the first `n` bindings.
pub open spec fn units_x(bs: Seq<Binding>, held: Seq<String>, side: StickSide, n: int) -> int {
    count_active(bs, held, stick(side, StickDirection::Right), n) - count_active(
        bs,
        held,
        stick(side, StickDirection::Left),
        n,
    )
}

/// Net vertical deflection units of one stick over the first `n` bindings.
pub open spec fn units_y(bs: Seq<Binding>, held: Seq<String>, side: StickSide, n: int) -> int {
    count_active(bs, held, stick(side, StickDirection::Up), n) - count_active(
        bs,
        held,
        stick(side, StickDirection::Down),
        n,
    )
}

/// Every running stick sum stays inside i32 while the bindings are
/// accumulated in order (beyond that the i32 accumulator would overflow).
pub open spec fn report_fits(bs: Seq<Binding>, held: Seq<String>) -> bool {
    forall|n: int|
        0 <= n <= bs.len() ==> {
            &&& fits_i32(32768 * units_x(bs, held, StickSide::Left, n))
            &&& fits_i32(32768 * units_y(bs, held, StickSide::Left, n))
            &&& fits_i32(32768 * units_x(bs, held, StickSide::Right, n))
            &&& fits_i32(32768 * units_y(bs, held, StickSide::Right, n))
        }
}

/// A trigger is fully pressed (255) as soon as one active binding targets it.
pub open spec fn trigger_value(bs: Seq<Binding>, held: Seq<String>, side: TriggerSide) -> u8 {
    if count_active(bs, held, Target::Trigger { side }, bs.len() as int) > 0 {
        255
    } else {
        0
    }
}

/// The report for a player: buttons/D-pad OR-ed, triggers full while any of
/// their keys is held, each stick axis the clamped net sum of full
/// deflections (so opposite directions cancel).
pub open spec fn spec_report(bs: Seq<Binding>, held: Seq<String>) -> GamepadReport {
    let n = bs.len() as int;
    GamepadReport {
        buttons: active_buttons(bs, held, n),
        left_trigger: trigger_value(bs, held, TriggerSide::Left),
        right_trigger: trigger_value(bs, held, TriggerSide::Right),
        left_x: clamp_i16(32768 * units_x(bs, held, StickSide::Left, n)),
        left_y: clamp_i16(32768 * units_y(bs, held, StickSide::Left, n)),
        right_x: clamp_i16(32768 * units_x(bs, held, StickSide::Right, n)),
        right_y: clamp_i16(32768 * units_y(bs, held, StickSide::Right, n)),
    }
}

/// `min(255 * c, u32::MAX)`: a trigger accumulator after `c` presses.
pub open spec fn trigger_sum(c: nat) -> u32 {
    if 255 * c > u32::MAX {
        u32::MAX
    } else {
        (255 * c) as u32
    }
}

/// The accumulator after the first `n` bindings, described by counts.
pub open spec fn acc_after(bs: Seq<Binding>, held: Seq<String>, n: int) -> Accumulator {
    Accumulator {
        buttons: active_buttons(bs, held, n),
        left_trigger: trigger_sum(
            count_active(bs, held, Target::Trigger { side: TriggerSide::Left }, n),
        ),
        right_trigger: trigger_sum(
            count_active(bs, held, Target::Trigger { side: TriggerSide::Right }, n),
        ),
        left_x: (32768 * units_x(bs, held, StickSide::Left, n)) as i32,
        left_y: (32768 * units_y(bs, held, StickSide::Left, n)) as i32,
        right_x: (32768 * units_x(bs, held, StickSide::Right, n)) as i32,
        right_y: (32768 * units_y(bs, held, StickSide::Right, n)) as i32,
    }
}

proof fn lemma_trigger_sum_step(c: nat)
    ensures
        trigger_sum(c + 1) == saturating_add_u32(trigger_sum(c), 255),
{
}

/// One more binding moves the counted accumulator by exactly one
/// `spec_accumulate` step (when it is active) and leaves it alone otherwise.
proof fn lemma_acc_step(bs: Seq<Binding>, held: Seq<String>, n: int)
    requires
        0 <= n < bs.len(),
        report_fits(bs, held),
    ensures
        binding_active(bs[n], held) ==> accumulate_fits_at(bs, held, n),
        binding_active(bs[n], held) ==> acc_after(bs, held, n + 1) == spec_accumulate(
            bs[n].target,
            acc_after(bs, held, n),
        ),
        !binding_active(bs[n], held) ==> acc_after(bs, held, n + 1) == acc_after(bs, held, n),
{
    assert(fits_i32(32768 * units_x(bs, held, StickSide::Left, n)));
    assert(fits_i32(32768 * units_x(bs, held, StickSide::Left, n + 1)));
    assert(fits_i32(32768 * units_y(bs, held, StickSide::Left, n)));
    assert(fits_i32(32768 * units_y(bs, held, StickSide::Left, n + 1)));
    assert(fits_i32(32768 * units_x(bs, held, StickSide::Right, n)));
    assert(fits_i32(32768 * units_x(bs, held, StickSide::Right, n + 1)));
    assert(fits_i32(32768 * units_y(bs, held, StickSide::Right, n)));
    assert(fits_i32(32768 * units_y(bs, held, StickSide::Right, n + 1)));
    let t = Target::Trigger { side: TriggerSide::Left };
    let u = Target::Trigger { side: TriggerSide::Right };
    lemma_trigger_sum_step(count_active(bs, held, t, n));
    lemma_trigger_sum_step(count_active(bs, held, u, n));
}

pub open spec fn accumulate_fits_at(bs: Seq<Binding>, held: Seq<String>, n: int) -> bool {
    crate::controller::accumulate_fits(bs[n].target, acc_after(bs, held, n))
}

fn is_held(held: &[String], key: &String) -> (r: bool)
    ensures
        r == key_held(held@, key@),
{
    let mut i: usize = 0;
    while i < held.len()
        invariant
            i <= held@.len(),
            forall|j: int| 0 <= j < i ==> held@[j]@ != key@,
        decreases held@.len() - i,
    {
        if held[i] == *key {
            return true;
        }
        i = i + 1;
    }
    false
}

/// Every stick sum of the first `n` bindings fits in i32.
pub open spec fn prefix_fits(bs: Seq<Binding>, held: Seq<String>, n: int) -> bool {
    &&& fits_i32(32768 * units_x(bs, held, StickSide::Left, n))
    &&& fits_i32(32768 * units_y(bs, held, StickSide::Left, n))
    &&& fits_i32(32768 * units_x(bs, held, StickSide::Right, n))
    &&& fits_i32(32768 * units_y(bs, held, StickSide::Right, n))
}

/// Horizontal and vertical units binding `b` adds to stick `side`.
pub open spec fn step_x(b: Binding, held: Seq<String>, side: StickSide) -> int {
    if binding_active(b, held) {
        match b.target {
            Target::Stick { side: s, direction } => if s == side {
                stick_dx(direction)
            } else {
                0
            },
            _ => 0,
        }
    } else {
        0
    }
}

pub open spec fn step_y(b: Binding, held: Seq<String>, side: StickSide) -> int {
    if binding_active(b, held) {
        match b.target {
            Target::Stick { side: s, direction } => if s == side {
                stick_dy(direction)
            } else {
                0
            },
            _ => 0,
        }
    } else {
        0
    }
}

proof fn lemma_units_step(bs: Seq<Binding>, held: Seq<String>, n: int, side: StickSide)
    requires
        0 <= n < bs.len(),
    ensures
        units_x(bs, held, side, n + 1) == units_x(bs, held, side, n) + step_x(bs[n], held, side),
        units_y(bs, held, side, n + 1) == units_y(bs, held, side, n) + step_y(bs[n], held, side),
{
    assert(count_active(bs, held, stick(side, StickDirection::Right), n + 1) == count_active(bs, held, stick(side, StickDirection::Right), n) + if binding_active(bs[n], held) && bs[n].target == stick(side, StickDirection::Right) { 1nat } else { 0nat });
    assert(count_active(bs, held, stick(side, StickDirection::Left), n + 1) == count_active(bs, held, stick(side, StickDirection::Left), n) + if binding_active(bs[n], held) && bs[n].target == stick(side, StickDirection::Left) { 1nat } else { 0nat });
    assert(count_active(bs, held, stick(side, StickDirection::Up), n + 1) == count_active(bs, held, stick(side, StickDirection::Up), n) + if binding_active(bs[n], held) && bs[n].target == stick(side, StickDirection::Up) { 1nat } else { 0nat });
    assert(count_active(bs, held, stick(side, StickDirection::Down), n + 1) == count_active(bs, held, stick(side, StickDirection::Down), n) + if binding_active(bs[n], held) && bs[n].target == stick(side, StickDirection::Down) { 1nat } else { 0nat });
}

fn axis_fits(u: i64) -> (r: bool)
    ensures
        r == fits_i32(32768 * u),
{
    -65536 <= u && u <= 65535
}

/// Whether `report_for` can combine these bindings: every running stick
/// sum stays inside i32 (decides `report_fits`).
pub fn fits_report(bindings: &[Binding], held: &[String]) -> (r: bool)
    ensures
        r == report_fits(bindings@, held@),
{
    let ghost bs = bindings@;
    let ghost h = held@;
    let mut lx: i64 = 0;
    let mut ly: i64 = 0;
    let mut rx: i64 = 0;
    let mut ry: i64 = 0;
    let mut i: usize = 0;
    assert(prefix_fits(bs, h, 0));
    while i < bindings.len()
        invariant
            bs == bindings@,
            h == held@,
            i <= bs.len(),
            lx == units_x(bs, h, StickSide::Left, i as int),
            ly == units_y(bs, h, StickSide::Left, i as int),
            rx == units_x(bs, h, StickSide::Right, i as int),
            ry == units_y(bs, h, StickSide::Right, i as int),
            forall|n: int| 0 <= n <= i ==> prefix_fits(bs, h, n),
        decreases bs.len() - i,
    {
        proof {
            lemma_units_step(bs, h, i as int, StickSide::Left);
            lemma_units_step(bs, h, i as int, StickSide::Right);
            assert(prefix_fits(bs, h, i as int));
        }
        if is_held(held, &bindings[i].key) {
            match bindings[i].target {
                Target::Stick { side, direction } => {
                    let dx: i64 = match direction {
                        StickDirection::Right => 1,
                        StickDirection::Left => -1,
                        _ => 0,
                    };
                    let dy: i64 = match direction {
                        StickDirection::Up => 1,
                        StickDirection::Down => -1,
                        _ => 0,
                    };
                    match side {
                        StickSide::Left => {
                            lx = lx + dx;
                            ly = ly + dy;
                        },
                        StickSide::Right => {
                            rx = rx + dx;
                            ry = ry + dy;
                        },
                    }
                },
                _ => {},
            }
        }
        i = i + 1;
        if !(axis_fits(lx) && axis_fits(ly) && axis_fits(rx) && axis_fits(ry)) {
            assert(!prefix_fits(bs, h, i as int));
            return false;
        }
        assert(prefix_fits(bs, h, i as int));
    }
    assert forall|n: int| 0 <= n <= bs.len() implies {
        &&& fits_i32(32768 * units_x(bs, h, StickSide::Left, n))
        &&& fits_i32(32768 * units_y(bs, h, StickSide::Left, n))
        &&& fits_i32(32768 * units_x(bs, h, StickSide::Right, n))
        &&& fits_i32(32768 * units_y(bs, h, StickSide::Right, n))
    } by {
        assert(prefix_fits(bs, h, n));
    }
    true
}

proof fn lemma_count_active_bound(bs: Seq<Binding>, held: Seq<String>, t: Target, n: int)
    requires
        0 <= n,
    ensures
        count_active(bs, held, t, n) <= n,
    decreases n,
{
    if n > 0 {
        lemma_count_active_bound(bs, held, t, n - 1);
    }
}

/// Up to 65535 bindings always fit: no stick sum can leave the i32 range.
pub proof fn law_short_binding_lists_fit(bs: Seq<Binding>, held: Seq<String>)
    requires
        bs.len() <= 65535,
    ensures
        report_fits(bs, held),
{
    assert forall|n: int| 0 <= n <= bs.len() implies {
        &&& fits_i32(32768 * units_x(bs, held, StickSide::Left, n))
        &&& fits_i32(32768 * units_y(bs, held, StickSide::Left, n))
        &&& fits_i32(32768 * units_x(bs, held, StickSide::Right, n))
        &&& fits_i32(32768 * units_y(bs, held, StickSide::Right, n))
    } by {
        lemma_count_active_bound(bs, held, stick(StickSide::Left, StickDirection::Up), n);
        lemma_count_active_bound(bs, held, stick(StickSide::Left, StickDirection::Down), n);
        lemma_count_active_bound(bs, held, stick(StickSide::Left, StickDirection::Left), n);
        lemma_count_active_bound(bs, held, stick(StickSide::Left, StickDirection::Right), n);
        lemma_count_active_bound(bs, held, stick(StickSide::Right, StickDirection::Up), n);
        lemma_count_active_bound(bs, held, stick(StickSide::Right, StickDirection::Down), n);
        lemma_count_active_bound(bs, held, stick(StickSide::Right, StickDirection::Left), n);
        lemma_count_active_bound(bs, held, stick(StickSide::Right, StickDirection::Right), n);
    }
}

/// Compute the controller report for one player from its bindings and the
/// set of currently held canonical keys. Recomputed from scratch on every
/// event, so releasing W while S is held cannot leave a stuck axis.
pub fn report_for(bindings: &[Binding], held: &[String]) -> (r: GamepadReport)
    requires
        report_fits(bindings@, held@),
    ensures
        r == spec_report(bindings@, held@),
{
    let mut acc = Accumulator::default();
    let mut i: usize = 0;
    while i < bindings.len()
        invariant
            i <= bindings@.len(),
            report_fits(bindings@, held@),
            acc == acc_after(bindings@, held@, i as int),
        decreases bindings@.len() - i,
    {
        proof {
            lemma_acc_step(bindings@, held@, i as int);
        }
        if is_held(held, &bindings[i].key) {
            accumulate(bindings[i].target, &mut acc);
        }
        i = i + 1;
    }
    let r = finish(acc);
    assert(fits_i32(32768 * units_x(bindings@, held@, StickSide::Left, bindings@.len() as int)));
    assert(fits_i32(32768 * units_y(bindings@, held@, StickSide::Left, bindings@.len() as int)));
    assert(fits_i32(32768 * units_x(bindings@, held@, StickSide::Right, bindings@.len() as int)));
    assert(fits_i32(32768 * units_y(bindings@, held@, StickSide::Right, bindings@.len() as int)));
    r
}

/// Two held sets that activate exactly the same bindings produce the same
/// counts and buttons.
proof fn lemma_same_activity(bs: Seq<Binding>, h1: Seq<String>, h2: Seq<String>, n: int)
    requires
        0 <= n <= bs.len(),
        forall|i: int| 0 <= i < n ==> binding_active(bs[i], h1) == binding_active(bs[i], h2),
    ensures
        active_buttons(bs, h1, n) == active_buttons(bs, h2, n),
        forall|t: Target| count_active(bs, h1, t, n) == count_active(bs, h2, t, n),
    decreases n,
{
    if n > 0 {
        lemma_same_activity(bs, h1, h2, n - 1);
        assert forall|t: Target| count_active(bs, h1, t, n) == count_active(bs, h2, t, n) by {
            assert(count_active(bs, h1, t, n - 1) == count_active(bs, h2, t, n - 1));
        }
    }
}

proof fn lemma_same_activity_report(bs: Seq<Binding>, h1: Seq<String>, h2: Seq<String>)
    requires
        forall|i: int| 0 <= i < bs.len() ==> binding_active(bs[i], h1) == binding_active(bs[i], h2),
    ensures
        spec_report(bs, h1) == spec_report(bs, h2),
{
    lemma_same_activity(bs, h1, h2, bs.len() as int);
    let n = bs.len() as int;
    assert(count_active(bs, h1, stick(StickSide::Left, StickDirection::Right), n) == count_active(bs, h2, stick(StickSide::Left, StickDirection::Right), n));
    assert(count_active(bs, h1, stick(StickSide::Left, StickDirection::Left), n) == count_active(bs, h2, stick(StickSide::Left, StickDirection::Left), n));
    assert(count_active(bs, h1, stick(StickSide::Left, StickDirection::Up), n) == count_active(bs, h2, stick(StickSide::Left, StickDirection::Up), n));
    assert(count_active(bs, h1, stick(StickSide::Left, StickDirection::Down), n) == count_active(bs, h2, stick(StickSide::Left, StickDirection::Down), n));
    assert(count_active(bs, h1, stick(StickSide::Right, StickDirection::Right), n) == count_active(bs, h2, stick(StickSide::Right, StickDirection::Right), n));
    assert(count_active(bs, h1, stick(StickSide::Right, StickDirection::Left), n) == count_active(bs, h2, stick(StickSide::Right, StickDirection::Left), n));
    assert(count_active(bs, h1, stick(StickSide::Right, StickDirection::Up), n) == count_active(bs, h2, stick(StickSide::Right, StickDirection::Up), n));
    assert(count_active(bs, h1, stick(StickSide::Right, StickDirection::Down), n) == count_active(bs, h2, stick(StickSide::Right, StickDirection::Down), n));
    assert(count_active(bs, h1, Target::Trigger { side: TriggerSide::Left }, n) == count_active(bs, h2, Target::Trigger { side: TriggerSide::Left }, n));
    assert(count_active(bs, h1, Target::Trigger { side: TriggerSide::Right }, n) == count_active(bs, h2, Target::Trigger { side: TriggerSide::Right }, n));
}

/// With nothing held the report is idle, whatever the bindings.
pub proof fn law_nothing_held_is_idle(bs: Seq<Binding>)
    ensures
        spec_report(bs, Seq::<String>::empty()) == idle_report(),
{
    let e = Seq::<String>::empty();
    assert forall|i: int| 0 <= i < bs.len() implies !binding_active(bs[i], e) by {}
    lemma_nothing_active(bs, e, bs.len() as int);
}

proof fn lemma_nothing_active(bs: Seq<Binding>, h: Seq<String>, n: int)
    requires
        0 <= n <= bs.len(),
        forall|i: int| 0 <= i < bs.len() ==> !binding_active(bs[i], h),
    ensures
        active_buttons(bs, h, n) == 0,
        forall|t: Target| count_active(bs, h, t, n) == 0,
    decreases n,
{
    if n > 0 {
        lemma_nothing_active(bs, h, n - 1);
        assert forall|t: Target| count_active(bs, h, t, n) == 0 by {
            assert(count_active(bs, h, t, n - 1) == 0);
        }
    }
}

/// The report depends on the held keys only as a set: order and repeats of
/// the held keys do not matter.
pub proof fn law_report_depends_on_held_set(bs: Seq<Binding>, h1: Seq<String>, h2: Seq<String>)
    requires
        forall|k: Seq<char>| key_held(h1, k) <==> key_held(h2, k),
    ensures
        spec_report(bs, h1) == spec_report(bs, h2),
        report_fits(bs, h1) <==> report_fits(bs, h2),
{
    lemma_same_activity_report(bs, h1, h2);
    assert forall|n: int| 0 <= n <= bs.len() implies units_x(bs, h1, StickSide::Left, n) == units_x(bs, h2, StickSide::Left, n)
        && units_y(bs, h1, StickSide::Left, n) == units_y(bs, h2, StickSide::Left, n)
        && units_x(bs, h1, StickSide::Right, n) == units_x(bs, h2, StickSide::Right, n)
        && units_y(bs, h1, StickSide::Right, n) == units_y(bs, h2, StickSide::Right, n) by {
        lemma_same_activity(bs, h1, h2, n);
    }
}

/// Holding a key that no binding uses changes nothing.
pub proof fn law_unbound_keys_are_ignored(bs: Seq<Binding>, held: Seq<String>, extra: String)
    requires
        forall|i: int| 0 <= i < bs.len() ==> bs[i].key@ != extra@,
    ensures
        spec_report(bs, held.push(extra)) == spec_report(bs, held),
        report_fits(bs, held.push(extra)) <==> report_fits(bs, held),
{
    let h2 = held.push(extra);
    assert forall|i: int| 0 <= i < bs.len() implies binding_active(bs[i], h2) == binding_active(bs[i], held) by {
        if binding_active(bs[i], held) {
            let j = choose|j: int| 0 <= j < held.len() && held[j]@ == bs[i].key@;
            assert(h2[j]@ == bs[i].key@);
        }
        if binding_active(bs[i], h2) {
            let j = choose|j: int| 0 <= j < h2.len() && h2[j]@ == bs[i].key@;
            assert(j < held.len());
            assert(held[j]@ == bs[i].key@);
        }
    }
    lemma_same_activity_report(bs, h2, held);
    assert forall|n: int| 0 <= n <= bs.len() implies units_x(bs, h2, StickSide::Left, n) == units_x(bs, held, StickSide::Left, n)
        && units_y(bs, h2, StickSide::Left, n) == units_y(bs, held, StickSide::Left, n)
        && units_x(bs, h2, StickSide::Right, n) == units_x(bs, held, StickSide::Right, n)
        && units_y(bs, h2, StickSide::Right, n) == units_y(bs, held, StickSide::Right, n) by {
        lemma_same_activity(bs, h2, held, n);
    }
}

/// Opposite directions cancel: as many active "up" as "down" bindings on a
/// stick leave its vertical axis centred (and likewise left/right).
pub proof fn law_opposite_directions_cancel(bs: Seq<Binding>, held: Seq<String>, side: StickSide)
    ensures
        units_y(bs, held, side, bs.len() as int) == 0 ==> (match side {
            StickSide::Left => spec_report(bs, held).left_y == 0,
            StickSide::Right => spec_report(bs, held).right_y == 0,
        }),
        units_x(bs, held, side, bs.len() as int) == 0 ==> (match side {
            StickSide::Left => spec_report(bs, held).left_x == 0,
            StickSide::Right => spec_report(bs, held).right_x == 0,
        }),
{
}

/// The button bits binding `b` adds while `held` is held.
pub open spec fn button_contrib(b: Binding, held: Seq<String>) -> u16 {
    if binding_active(b, held) {
        match b.target {
            Target::Button { button } => spec_button_bit(button),
            Target::Dpad { direction } => spec_dpad_bit(direction),
            _ => 0,
        }
    } else {
        0
    }
}

/// 1 when binding `b` is active and targets `t`, else 0.
pub open spec fn counts_for(b: Binding, held: Seq<String>, t: Target) -> nat {
    if binding_active(b, held) && b.target == t {
        1
    } else {
        0
    }
}

proof fn lemma_or_facts(a: u16, b: u16, c: u16)
    ensures
        a | 0u16 == a,
        (a | b) | c == (a | c) | b,
{
    assert(a | 0u16 == a) by (bit_vector);
    assert((a | b) | c == (a | c) | b) by (bit_vector);
}

proof fn lemma_buttons_step(bs: Seq<Binding>, held: Seq<String>, n: int)
    requires
        0 < n,
    ensures
        active_buttons(bs, held, n) == active_buttons(bs, held, n - 1) | button_contrib(bs[n - 1], held),
{
    lemma_or_facts(active_buttons(bs, held, n - 1), 0, 0);
}

/// Up to `n` (not past `k`), removing binding `k` changes nothing.
proof fn lemma_remove_prefix(bs: Seq<Binding>, held: Seq<String>, k: int, n: int)
    requires
        0 <= n <= k < bs.len(),
    ensures
        active_buttons(bs.remove(k), held, n) == active_buttons(bs, held, n),
        forall|t: Target| #[trigger] count_active(bs.remove(k), held, t, n) == count_active(bs, held, t, n),
    decreases n,
{
    if n > 0 {
        lemma_remove_prefix(bs, held, k, n - 1);
        assert(bs.remove(k)[n - 1] == bs[n - 1]);
        assert forall|t: Target| #[trigger] count_active(bs.remove(k), held, t, n) == count_active(bs, held, t, n) by {
            assert(count_active(bs.remove(k), held, t, n - 1) == count_active(bs, held, t, n - 1));
        }
    }
}

/// Past `k`, removing binding `k` takes exactly its contribution away.
proof fn lemma_remove_after(bs: Seq<Binding>, held: Seq<String>, k: int, n: int)
    requires
        0 <= k < n <= bs.len(),
    ensures
        active_buttons(bs, held, n) == active_buttons(bs.remove(k), held, n - 1) | button_contrib(bs[k], held),
        forall|t: Target| #[trigger] count_active(bs, held, t, n) == count_active(bs.remove(k), held, t, n - 1)
            + counts_for(bs[k], held, t),
    decreases n,
{
    let r = bs.remove(k);
    lemma_buttons_step(bs, held, n);
    if n - 1 == k {
        lemma_remove_prefix(bs, held, k, k);
        assert forall|t: Target| #[trigger] count_active(bs, held, t, n) == count_active(r, held, t, n - 1)
            + counts_for(bs[k], held, t) by {
            assert(count_active(r, held, t, k) == count_active(bs, held, t, k));
        }
    } else {
        lemma_remove_after(bs, held, k, n - 1);
        assert(r[n - 2] == bs[n - 1]);
        lemma_buttons_step(r, held, n - 1);
        lemma_or_facts(active_buttons(r, held, n - 2), button_contrib(bs[k], held), button_contrib(bs[n - 1], held));
        assert forall|t: Target| #[trigger] count_active(bs, held, t, n) == count_active(r, held, t, n - 1)
            + counts_for(bs[k], held, t) by {
            assert(count_active(bs, held, t, n - 1) == count_active(r, held, t, n - 2) + counts_for(bs[k], held, t));
        }
    }
}

proof fn lemma_same_multiset_same_counts(bs: Seq<Binding>, bs2: Seq<Binding>, held: Seq<String>)
    requires
        bs.to_multiset() == bs2.to_multiset(),
    ensures
        bs.len() == bs2.len(),
        active_buttons(bs, held, bs.len() as int) == active_buttons(bs2, held, bs2.len() as int),
        forall|t: Target| #[trigger] count_active(bs, held, t, bs.len() as int) == count_active(bs2, held, t, bs2.len() as int),
    decreases bs.len(),
{
    broadcast use vstd::seq_lib::to_multiset_len, vstd::seq_lib::to_multiset_build,
        vstd::seq_lib::to_multiset_remove, vstd::seq_lib::to_multiset_contains,
        vstd::multiset::group_multiset_axioms;

    assert(bs.len() == bs.to_multiset().len());
    assert(bs2.len() == bs2.to_multiset().len());
    if bs.len() > 0 {
        let n = bs.len() as int;
        let x = bs.last();
        let front = bs.drop_last();
        assert(front.push(x) =~= bs);
        assert(bs.to_multiset().count(x) > 0) by {
            assert(bs.contains(x)) by {
                assert(bs[n - 1] == x);
            }
        }
        assert(bs2.contains(x));
        let k = choose|k: int| 0 <= k < bs2.len() && bs2[k] == x;
        let rest = bs2.remove(k);
        assert(rest.to_multiset() =~= front.to_multiset()) by {
            assert(rest.to_multiset() == bs2.to_multiset().remove(x));
            assert(front.push(x).to_multiset() == front.to_multiset().insert(x));
        }
        lemma_same_multiset_same_counts(front, rest, held);
        lemma_remove_after(bs2, held, k, n);
        lemma_buttons_step(bs, held, n);
        assert(bs[n - 1] == x);
        assert(front =~= bs.drop_last());
        lemma_remove_prefix(bs, held, n - 1, n - 1);
        assert(bs.remove(n - 1) =~= front);
        assert forall|t: Target| #[trigger] count_active(bs, held, t, n) == count_active(bs2, held, t, n) by {
            assert(count_active(bs, held, t, n) == count_active(bs, held, t, n - 1) + counts_for(x, held, t));
            assert(count_active(front, held, t, n - 1) == count_active(rest, held, t, n - 1));
        }
    }
}

/// The report does not depend on the order of the bindings: any
/// rearrangement of them gives the same report.
pub proof fn law_report_ignores_binding_order(bs: Seq<Binding>, bs2: Seq<Binding>, held: Seq<String>)
    requires
        bs.to_multiset() == bs2.to_multiset(),
    ensures
        spec_report(bs, held) == spec_report(bs2, held),
{
    lemma_same_multiset_same_counts(bs, bs2, held);
    let n = bs.len() as int;
    assert(count_active(bs, held, stick(StickSide::Left, StickDirection::Right), n) == count_active(bs2, held, stick(StickSide::Left, StickDirection::Right), n));
    assert(count_active(bs, held, stick(StickSide::Left, StickDirection::Left), n) == count_active(bs2, held, stick(StickSide::Left, StickDirection::Left), n));
    assert(count_active(bs, held, stick(StickSide::Left, StickDirection::Up), n) == count_active(bs2, held, stick(StickSide::Left, StickDirection::Up), n));
    assert(count_active(bs, held, stick(StickSide::Left, StickDirection::Down), n) == count_active(bs2, held, stick(StickSide::Left, StickDirection::Down), n));
    assert(count_active(bs, held, stick(StickSide::Right, StickDirection::Right), n) == count_active(bs2, held, stick(StickSide::Right, StickDirection::Right), n));
    assert(count_active(bs, held, stick(StickSide::Right, StickDirection::Left), n) == count_active(bs2, held, stick(StickSide::Right, StickDirection::Left), n));
    assert(count_active(bs, held, stick(StickSide::Right, StickDirection::Up), n) == count_active(bs2, held, stick(StickSide::Right, StickDirection::Up), n));
    assert(count_active(bs, held, stick(StickSide::Right, StickDirection::Down), n) == count_active(bs2, held, stick(StickSide::Right, StickDirection::Down), n));
    assert(count_active(bs, held, Target::Trigger { side: TriggerSide::Left }, n) == count_active(bs2, held, Target::Trigger { side: TriggerSide::Left }, n));
    assert(count_active(bs, held, Target::Trigger { side: TriggerSide::Right }, n) == count_active(bs2, held, Target::Trigger { side: TriggerSide::Right }, n));
}


/// Each button and D-pad direction sets its own bit of the XInput button
/// word (`XINPUT_GAMEPAD_*`): D-pad up/down/left/right 0x0001/0x0002/
/// 0x0004/0x0008, Start 0x0010, Back 0x0020, left/right thumb 0x0040/0x0080,
/// LB/RB 0x0100/0x0200, Guide 0x0400, A/B/X/Y 0x1000/0x2000/0x4000/0x8000.
pub proof fn law_buttons_are_xinput_bits()
    ensures
        spec_dpad_bit(DpadDirection::Up) == 0x0001u16,
        spec_dpad_bit(DpadDirection::Down) == 0x0002u16,
        spec_dpad_bit(DpadDirection::Left) == 0x0004u16,
        spec_dpad_bit(DpadDirection::Right) == 0x0008u16,
        spec_button_bit(GamepadButton::Start) == 0x0010u16,
        spec_button_bit(GamepadButton::Back) == 0x0020u16,
        spec_button_bit(GamepadButton::LThumb) == 0x0040u16,
        spec_button_bit(GamepadButton::RThumb) == 0x0080u16,
        spec_button_bit(GamepadButton::LB) == 0x0100u16,
        spec_button_bit(GamepadButton::RB) == 0x0200u16,
        spec_button_bit(GamepadButton::Guide) == 0x0400u16,
        spec_button_bit(GamepadButton::A) == 0x1000u16,
        spec_button_bit(GamepadButton::B) == 0x2000u16,
        spec_button_bit(GamepadButton::X) == 0x4000u16,
        spec_button_bit(GamepadButton::Y) == 0x8000u16,
{
}

/// Holding the key of a lone button (or D-pad) binding presses exactly that
/// button: the report's button word is the button's XInput bit and nothing
/// else; with the key released the word is empty.
pub proof fn law_lone_button_report(bs: Seq<Binding>, held: Seq<String>)
    requires
        bs.len() == 1,
        bs[0].target is Button || bs[0].target is Dpad,
    ensures
        spec_report(bs, held).buttons == (if binding_active(bs[0], held) {
            match bs[0].target {
                Target::Button { button } => spec_button_bit(button),
                Target::Dpad { direction } => spec_dpad_bit(direction),
                _ => 0u16,
            }
        } else {
            0u16
        }),
{
    let x = match bs[0].target {
        Target::Button { button } => spec_button_bit(button),
        Target::Dpad { direction } => spec_dpad_bit(direction),
        _ => 0u16,
    };
    assert(0u16 | x == x) by (bit_vector);
    assert(active_buttons(bs, held, 0) == 0u16);
}


/// A lone binding whose key is held drives exactly its control, fully: a
/// button or D-pad direction sets its XInput bit, a trigger reads 255, and
/// a stick direction deflects its axis to the end (up and right to 32767,
/// down and left to -32768); everything else rests. Released, the report is
/// idle.
pub proof fn law_lone_binding_report(bs: Seq<Binding>, held: Seq<String>)
    requires
        bs.len() == 1,
    ensures
        !binding_active(bs[0], held) ==> spec_report(bs, held) == idle_report(),
        binding_active(bs[0], held) ==> spec_report(bs, held) == (match bs[0].target {
            Target::Button { button } => GamepadReport {
                buttons: spec_button_bit(button),
                left_trigger: 0, right_trigger: 0, left_x: 0, left_y: 0, right_x: 0, right_y: 0,
            },
            Target::Dpad { direction } => GamepadReport {
                buttons: spec_dpad_bit(direction),
                left_trigger: 0, right_trigger: 0, left_x: 0, left_y: 0, right_x: 0, right_y: 0,
            },
            Target::Trigger { side: TriggerSide::Left } => GamepadReport {
                buttons: 0, left_trigger: 255, right_trigger: 0, left_x: 0, left_y: 0, right_x: 0, right_y: 0,
            },
            Target::Trigger { side: TriggerSide::Right } => GamepadReport {
                buttons: 0, left_trigger: 0, right_trigger: 255, left_x: 0, left_y: 0, right_x: 0, right_y: 0,
            },
            Target::Stick { side: StickSide::Left, direction } => GamepadReport {
                buttons: 0, left_trigger: 0, right_trigger: 0,
                left_x: if direction == StickDirection::Right { 32767i16 } else if direction == StickDirection::Left { -32768i16 } else { 0i16 },
                left_y: if direction == StickDirection::Up { 32767i16 } else if direction == StickDirection::Down { -32768i16 } else { 0i16 },
                right_x: 0, right_y: 0,
            },
            Target::Stick { side: StickSide::Right, direction } => GamepadReport {
                buttons: 0, left_trigger: 0, right_trigger: 0, left_x: 0, left_y: 0,
                right_x: if direction == StickDirection::Right { 32767i16 } else if direction == StickDirection::Left { -32768i16 } else { 0i16 },
                right_y: if direction == StickDirection::Up { 32767i16 } else if direction == StickDirection::Down { -32768i16 } else { 0i16 },
            },
        }),
{
    let x: u16 = match bs[0].target {
        Target::Button { button } => spec_button_bit(button),
        Target::Dpad { direction } => spec_dpad_bit(direction),
        _ => 0u16,
    };
    assert(0u16 | x == x) by (bit_vector);
    assert(active_buttons(bs, held, 0) == 0u16);
    reveal_with_fuel(count_active, 2);
}

} // verus!
