//! Editing players: their bindings, names and number.

use vstd::prelude::*;

use crate::controller::VirtualController;
use crate::model::{bindings_view, strings_view, Binding, Target};
use crate::presets::{default_bindings, preset_keys};
use crate::text::{chars_of, string_from_chars, trim, trim_bounds};
use super::{no_repeats, player_label, player_label_string, Core, PlayerRuntime, MAX_PLAYERS};

verus! {

/// Answer to adding a fifth player.
pub const TOO_MANY_PLAYERS: &'static str = "XInput supports at most 4 controllers";

/// The binding rows of `bs` whose key is not `key`, in order.
pub open spec fn without_key(bs: Seq<(Seq<char>, Target)>, key: Seq<char>) -> Seq<(Seq<char>, Target)>
    decreases bs.len(),
{
    if bs.len() == 0 {
        seq![]
    } else {
        let rest = without_key(bs.drop_last(), key);
        if bs.last().0 == key {
            rest
        } else {
            rest.push(bs.last())
        }
    }
}

/// Binding `key` to `target`: one key has only one target, so an earlier
/// binding of the key is replaced, not stacked.
pub open spec fn with_binding(bs: Seq<(Seq<char>, Target)>, key: Seq<char>, target: Target) -> Seq<(Seq<char>, Target)> {
    without_key(bs, key).push((key, target))
}

/// The names of `held` other than `key`, in order.
pub open spec fn without_name(held: Seq<Seq<char>>, key: Seq<char>) -> Seq<Seq<char>>
    decreases held.len(),
{
    if held.len() == 0 {
        seq![]
    } else {
        let rest = without_name(held.drop_last(), key);
        if held.last() == key {
            rest
        } else {
            rest.push(held.last())
        }
    }
}

/// Leaving `key` out keeps a set a set, and adds no name.
pub proof fn lemma_without_name_keeps_set(held: Seq<Seq<char>>, key: Seq<char>)
    requires
        no_repeats(held),
    ensures
        no_repeats(without_name(held, key)),
        forall|x: Seq<char>| without_name(held, key).contains(x) ==> held.contains(x),
    decreases held.len(),
{
    if held.len() > 0 {
        let init = held.drop_last();
        assert(no_repeats(init));
        lemma_without_name_keeps_set(init, key);
        let rest = without_name(init, key);
        assert forall|x: Seq<char>| rest.contains(x) implies held.contains(x) by {
            assert(init.contains(x));
            let k = choose|k: int| 0 <= k < init.len() && init[k] == x;
            assert(held[k] == x);
        }
        if held.last() != key {
            assert(!rest.contains(held.last())) by {
                if rest.contains(held.last()) {
                    assert(init.contains(held.last()));
                    let k = choose|k: int| 0 <= k < init.len() && init[k] == held.last();
                    assert(held[k] == held[held.len() - 1]);
                }
            }
            let out = rest.push(held.last());
            assert forall|x: Seq<char>| out.contains(x) implies held.contains(x) by {
                let k = choose|k: int| 0 <= k < out.len() && out[k] == x;
                if k < rest.len() {
                    assert(rest[k] == x);
                } else {
                    assert(held[held.len() - 1] == x);
                }
            }
            assert forall|a: int, b: int| 0 <= a < b < out.len() implies out[a] != out[b] by {
                if b == rest.len() {
                    assert(rest[a] == out[a]);
                }
            }
        }
    }
}

/// The bindings of `bs` whose key is not `key`.
fn bindings_without(bs: &[Binding], key: &String) -> (r: Vec<Binding>)
    ensures
        bindings_view(r@) == without_key(bindings_view(bs@), key@),
{
    let mut r: Vec<Binding> = Vec::new();
    let mut i: usize = 0;
    while i < bs.len()
        invariant
            i <= bs@.len(),
            bindings_view(r@) == without_key(bindings_view(bs@).take(i as int), key@),
        decreases bs@.len() - i,
    {
        let ghost prev = r@;
        let ghost s = bindings_view(bs@).take(i + 1);
        proof {
            assert(s.drop_last() =~= bindings_view(bs@).take(i as int));
        }
        if bs[i].key != *key {
            r.push(bs[i].duplicate());
            proof {
                assert(bindings_view(r@) =~= bindings_view(prev).push(s.last()));
            }
        }
        i = i + 1;
    }
    proof {
        assert(bindings_view(bs@).take(bs@.len() as int) =~= bindings_view(bs@));
    }
    r
}

/// The strings of `held` other than `key`.
pub(crate) fn names_without(held: &[String], key: &String) -> (r: Vec<String>)
    ensures
        strings_view(r@) == without_name(strings_view(held@), key@),
{
    let mut r: Vec<String> = Vec::new();
    let mut i: usize = 0;
    while i < held.len()
        invariant
            i <= held@.len(),
            strings_view(r@) == without_name(strings_view(held@).take(i as int), key@),
        decreases held@.len() - i,
    {
        let ghost prev = r@;
        let ghost s = strings_view(held@).take(i + 1);
        proof {
            assert(s.drop_last() =~= strings_view(held@).take(i as int));
        }
        if held[i] != *key {
            r.push(held[i].clone());
            proof {
                assert(strings_view(r@) =~= strings_view(prev).push(s.last()));
            }
        }
        i = i + 1;
    }
    proof {
        assert(strings_view(held@).take(held@.len() as int) =~= strings_view(held@));
    }
    r
}

/// Slot `j` after relabeling: `p` renamed to its default label if it
/// carried `name`, else unchanged.
pub open spec fn relabeled_at<C>(p: PlayerRuntime<C>, name: Seq<char>, j: int, q: PlayerRuntime<C>) -> bool {
    if p.name@ == name {
        &&& q == (PlayerRuntime { name: q.name, ..p })
        &&& q.name@ == player_label(j)
    } else {
        q == p
    }
}

/// `new` is `rest` where every player named `name` got the default label
/// of its new slot.
pub open spec fn relabeled<C>(rest: Seq<PlayerRuntime<C>>, name: Seq<char>, new: Seq<PlayerRuntime<C>>) -> bool {
    &&& new.len() == rest.len()
    &&& forall|j: int| 0 <= j < rest.len() ==> relabeled_at(rest[j], name, j, #[trigger] new[j])
}

impl<C> Core<C> {
    /// Binds `binding.key` to `binding.target` for `player`, replacing an
    /// earlier binding of that key. Returns whether a player was changed.
    pub fn set_binding(&mut self, player: usize, binding: Binding) -> (changed: bool)
        ensures
            old(self).wf() ==> final(self).wf(),
            changed == (player < old(self).players@.len()),
            !changed ==> *final(self) == *old(self),
            changed ==> final(self).rebound(*old(self), player as int),
            changed ==> bindings_view(final(self).players@[player as int].bindings@) == with_binding(
                bindings_view(old(self).players@[player as int].bindings@),
                binding.key@,
                binding.target,
            ),
    {
        if player >= self.players.len() {
            return false;
        }
        let mut nb = bindings_without(self.players[player].bindings.as_slice(), &binding.key);
        let ghost key = binding.key@;
        let ghost target = binding.target;
        nb.push(binding);
        proof {
            assert(bindings_view(nb@) =~= with_binding(
                bindings_view(old(self).players@[player as int].bindings@), key, target));
        }
        self.players[player].bindings = nb;
        self.release_keys(player);
        true
    }

    /// Unbinds `key` for `player`; the key no longer counts as held.
    pub fn remove_binding(&mut self, player: usize, key: &String) -> (changed: bool)
        ensures
            old(self).wf() ==> final(self).wf(),
            changed == (player < old(self).players@.len()),
            !changed ==> *final(self) == *old(self),
            changed ==> final(self).only_player_changed(*old(self), player as int),
            changed ==> final(self).players@[player as int] == (PlayerRuntime {
                bindings: final(self).players@[player as int].bindings,
                held: final(self).players@[player as int].held,
                last_report: None,
                ..old(self).players@[player as int]
            }),
            changed ==> bindings_view(final(self).players@[player as int].bindings@) == without_key(
                bindings_view(old(self).players@[player as int].bindings@),
                key@,
            ),
            changed ==> strings_view(final(self).players@[player as int].held@) == without_name(
                strings_view(old(self).players@[player as int].held@),
                key@,
            ),
    {
        if player >= self.players.len() {
            return false;
        }
        let nb = bindings_without(self.players[player].bindings.as_slice(), key);
        let nh = names_without(self.players[player].held.as_slice(), key);
        self.players[player].bindings = nb;
        self.players[player].held = nh;
        self.players[player].last_report = None;
        proof {
            if old(self).wf() {
                lemma_without_name_keeps_set(strings_view(old(self).players@[player as int].held@), key@);
                assert(super::held_is_set(self.players@[player as int]));
                assert forall|j: int| 0 <= j < self.players@.len() implies super::held_is_set(
                    #[trigger] self.players@[j],
                ) by {
                    if j != player {
                        assert(self.players@[j] == old(self).players@[j]);
                    }
                }
            }
        }
        true
    }

    /// Removes every binding of `player`.
    pub fn clear_mapping(&mut self, player: usize) -> (changed: bool)
        ensures
            old(self).wf() ==> final(self).wf(),
            changed == (player < old(self).players@.len()),
            !changed ==> *final(self) == *old(self),
            changed ==> final(self).rebound(*old(self), player as int),
            changed ==> final(self).players@[player as int].bindings@.len() == 0,
    {
        if player >= self.players.len() {
            return false;
        }
        self.players[player].bindings = Vec::new();
        self.release_keys(player);
        true
    }

    /// Restores the default ("general") bindings of `player`.
    pub fn reset_default(&mut self, player: usize) -> (changed: bool)
        ensures
            old(self).wf() ==> final(self).wf(),
            changed == (player < old(self).players@.len()),
            !changed ==> *final(self) == *old(self),
            changed ==> final(self).rebound(*old(self), player as int),
            changed ==> bindings_view(final(self).players@[player as int].bindings@) == preset_keys(0),
    {
        if player >= self.players.len() {
            return false;
        }
        self.players[player].bindings = default_bindings();
        self.release_keys(player);
        true
    }

    /// Renames `player` to `name` without surrounding whitespace; a name
    /// that is blank after trimming is ignored.
    pub fn rename_player(&mut self, player: usize, name: &str) -> (changed: bool)
        ensures
            old(self).wf() ==> final(self).wf(),
            changed == (player < old(self).players@.len() && trim(name@).len() > 0),
            !changed ==> *final(self) == *old(self),
            changed ==> final(self).only_player_changed(*old(self), player as int),
            changed ==> final(self).players@[player as int] == (PlayerRuntime {
                name: final(self).players@[player as int].name,
                ..old(self).players@[player as int]
            }),
            changed ==> final(self).players@[player as int].name@ == trim(name@),
    {
        if player >= self.players.len() {
            return false;
        }
        let cs = chars_of(name);
        let (lo, hi) = trim_bounds(cs.as_slice());
        if lo == hi {
            return false;
        }
        let trimmed = string_from_chars(cs.as_slice(), lo, hi);
        self.players[player].name = trimmed;
        true
    }

    /// Adds a fresh player slot, unless all four are taken.
    pub fn add_player(&mut self) -> (r: Result<(), String>)
        requires
            old(self).wf(),
        ensures
            final(self).wf(),
            r is Err <==> old(self).players@.len() >= MAX_PLAYERS,
            r matches Err(e) ==> e@ == TOO_MANY_PLAYERS@ && *final(self) == *old(self),
            r is Ok ==> *final(self) == (Core { players: final(self).players, ..*old(self) }),
            r is Ok ==> final(self).players@.drop_last() == old(self).players@,
            r is Ok ==> final(self).players@.len() == old(self).players@.len() + 1,
            r is Ok ==> final(self).players@.last().is_fresh(old(self).players@.len() as int),
    {
        if self.players.len() >= MAX_PLAYERS {
            return Err(TOO_MANY_PLAYERS.to_string());
        }
        let n = self.players.len();
        self.players.push(PlayerRuntime::new(n));
        proof {
            assert(self.players@.drop_last() =~= old(self).players@);
        }
        Ok(())
    }
}

impl<C: VirtualController> Core<C> {
    /// Removes `player`, unplugging its virtual controller, as long as two
    /// players remain. Players that carried the removed player's name get
    /// the default label of their slot.
    pub fn remove_player(&mut self, player: usize) -> (changed: bool)
        requires
            old(self).wf(),
        ensures
            final(self).wf(),
            changed == (player < old(self).players@.len() && old(self).players@.len() > 2),
            !changed ==> *final(self) == *old(self),
            changed ==> *final(self) == (Core { players: final(self).players, ..*old(self) }),
            changed ==> relabeled(
                old(self).players@.remove(player as int),
                old(self).players@[player as int].name@,
                final(self).players@,
            ),
    {
        if player >= self.players.len() || self.players.len() <= 2 {
            return false;
        }
        let ghost start = *self;
        let PlayerRuntime { name: removed_name, controller, .. } = self.players.remove(player);
        let ghost rest = self.players@;
        assert(rest == start.players@.remove(player as int));
        let mut i: usize = 0;
        while i < self.players.len()
            invariant
                self.players@.len() == rest.len(),
                rest.len() < MAX_PLAYERS,
                *self == (Core { players: self.players, ..start }),
                removed_name@ == start.players@[player as int].name@,
                forall|j: int| 0 <= j < i ==> relabeled_at(rest[j], removed_name@, j, #[trigger] self.players@[j]),
                forall|j: int| i <= j < rest.len() ==> #[trigger] self.players@[j] == rest[j],
            decreases rest.len() - i,
        {
            let ghost before = self.players@;
            if self.players[i].name == removed_name {
                self.players[i].name = player_label_string(i);
            }
            assert(forall|j: int| 0 <= j < rest.len() && j != i ==> self.players@[j] == before[j]);
            assert(relabeled_at(rest[i as int], removed_name@, i as int, self.players@[i as int]));
            i = i + 1;
        }
        if let Some(mut c) = controller {
            c.disconnect();
        }
        true
    }
}

/// Number of rows of `bs` bound to `key`.
pub open spec fn rows_for(bs: Seq<(Seq<char>, Target)>, key: Seq<char>) -> nat
    decreases bs.len(),
{
    if bs.len() == 0 {
        0
    } else {
        rows_for(bs.drop_last(), key) + if bs.last().0 == key {
            1nat
        } else {
            0nat
        }
    }
}

proof fn lemma_without_key_rows(bs: Seq<(Seq<char>, Target)>, key: Seq<char>, other: Seq<char>)
    ensures
        rows_for(without_key(bs, key), key) == 0,
        other != key ==> rows_for(without_key(bs, key), other) == rows_for(bs, other),
    decreases bs.len(),
{
    if bs.len() > 0 {
        lemma_without_key_rows(bs.drop_last(), key, other);
        let rest = without_key(bs.drop_last(), key);
        if bs.last().0 != key {
            assert(rest.push(bs.last()).drop_last() =~= rest);
        }
    }
}

proof fn lemma_without_key_twice(bs: Seq<(Seq<char>, Target)>, key: Seq<char>)
    ensures
        without_key(without_key(bs, key), key) == without_key(bs, key),
    decreases bs.len(),
{
    if bs.len() > 0 {
        lemma_without_key_twice(bs.drop_last(), key);
        let rest = without_key(bs.drop_last(), key);
        if bs.last().0 != key {
            assert(rest.push(bs.last()).drop_last() =~= rest);
        }
    }
}

/// One key has one target: after binding `key`, exactly one row binds it,
/// to the new target, and every other key keeps its rows.
pub proof fn law_binding_replaces(bs: Seq<(Seq<char>, Target)>, key: Seq<char>, target: Target, other: Seq<char>)
    ensures
        rows_for(with_binding(bs, key, target), key) == 1,
        with_binding(bs, key, target).last() == (key, target),
        other != key ==> rows_for(with_binding(bs, key, target), other) == rows_for(bs, other),
{
    lemma_without_key_rows(bs, key, other);
    let w = without_key(bs, key);
    assert(w.push((key, target)).drop_last() =~= w);
}

/// Binding a key twice is binding it once, to the second target.
pub proof fn law_rebinding_keeps_last(bs: Seq<(Seq<char>, Target)>, key: Seq<char>, first: Target, second: Target)
    ensures
        with_binding(with_binding(bs, key, first), key, second) == with_binding(bs, key, second),
{
    let w = without_key(bs, key);
    assert(w.push((key, first)).drop_last() =~= w);
    lemma_without_key_twice(bs, key);
}

/// Unbinding a key right after binding it leaves the other bindings as
/// they were before, and the key unbound.
pub proof fn law_unbind_after_bind(bs: Seq<(Seq<char>, Target)>, key: Seq<char>, target: Target)
    ensures
        without_key(with_binding(bs, key, target), key) == without_key(bs, key),
{
    let w = without_key(bs, key);
    assert(w.push((key, target)).drop_last() =~= w);
    lemma_without_key_twice(bs, key);
}

} // verus!
