//! Which keyboard feeds which player: assignment, and re-association
//! when the device list changes.

use vstd::prelude::*;

use crate::controller::VirtualController;
use crate::model::{opt_view, KeyboardDevice};
use super::{device_present, has_device, Core, PlayerRuntime};
use super::controllers::{ensured, ControllerOutcome};

verus! {

/// Answer to assigning a keyboard that is not in the device list.
pub const NOT_CONNECTED: &'static str = "That keyboard is not connected anymore";

/// Both are absent, or both hold the same text.
fn same_keyboard(a: &Option<String>, b: &Option<String>) -> (r: bool)
    ensures
        r == (opt_view(*a) == opt_view(*b)),
{
    match (a, b) {
        (Some(x), Some(y)) => *x == *y,
        (None, None) => true,
        _ => false,
    }
}

/// `q` is `p` after keyboard `k` was given to another player: a player
/// that had `k` loses it and its held keys; others are untouched.
pub open spec fn detached<C>(p: PlayerRuntime<C>, q: PlayerRuntime<C>, k: Option<Seq<char>>) -> bool {
    if k is Some && opt_view(p.keyboard) == k {
        &&& q == (PlayerRuntime { keyboard: None, held: q.held, last_report: None, ..p })
        &&& q.held@.len() == 0
    } else {
        q == p
    }
}

/// `q` is `p` after being assigned `keyboard`: held keys are dropped when
/// the keyboard changes, then the player is given a controller.
pub open spec fn assigned<C: VirtualController>(p: PlayerRuntime<C>, q: PlayerRuntime<C>, keyboard: Option<String>, o: ControllerOutcome) -> bool {
    let changed = opt_view(p.keyboard) != opt_view(keyboard);
    let m = if changed {
        PlayerRuntime { keyboard, held: q.held, last_report: None, ..p }
    } else {
        PlayerRuntime { keyboard, ..p }
    };
    &&& changed ==> q.held@.len() == 0
    &&& ensured(m, q, false, o)
}

impl<C: VirtualController> Core<C> {
    /// Gives `keyboard` to `player` (or unassigns with `None`). A keyboard
    /// feeds only one player: any other player holding it lets go first.
    pub fn assign_keyboard<F: Fn() -> Result<C, String>>(
        &mut self,
        player: usize,
        keyboard: Option<String>,
        make: &F,
    ) -> (r: Result<ControllerOutcome, String>)
        requires
            make.requires(()),
        ensures
            old(self).wf() ==> final(self).wf(),
            r is Err <==> (keyboard matches Some(id) && !device_present(old(self).devices@, id@)),
            r matches Err(e) ==> e@ == NOT_CONNECTED@ && *final(self) == *old(self),
            r is Ok && player >= old(self).players@.len() ==> *final(self) == *old(self) && r->Ok_0 == ControllerOutcome::Untouched,
            r is Ok && player < old(self).players@.len() ==> {
                &&& *final(self) == (Core { players: final(self).players, ..*old(self) })
                &&& final(self).players@.len() == old(self).players@.len()
                &&& assigned(old(self).players@[player as int], final(self).players@[player as int], keyboard, r->Ok_0)
                &&& forall|j: int| 0 <= j < old(self).players@.len() && j != player ==> detached(
                    old(self).players@[j],
                    #[trigger] final(self).players@[j],
                    opt_view(keyboard),
                )
            },
            r is Ok && player < old(self).players@.len() ==> opt_view(final(self).players@[player as int].keyboard) == opt_view(keyboard),
            r is Ok && player < old(self).players@.len() && keyboard is Some ==> forall|j: int|
                0 <= j < old(self).players@.len() && j != player ==> opt_view(
                    #[trigger] final(self).players@[j].keyboard,
                ) != opt_view(keyboard),
    {
        if let Some(id) = &keyboard {
            if !has_device(self.devices.as_slice(), id) {
                return Err(NOT_CONNECTED.to_string());
            }
        }
        if player >= self.players.len() {
            return Ok(ControllerOutcome::Untouched);
        }
        let ghost start = *self;
        if !same_keyboard(&self.players[player].keyboard, &keyboard) {
            self.release_keys(player);
        }
        let ghost released = self.players@[player as int];
        if let Some(id) = &keyboard {
            let mut i: usize = 0;
            while i < self.players.len()
                invariant
                    self.players@.len() == start.players@.len(),
                    *self == (Core { players: self.players, ..start }),
                    player < start.players@.len(),
                    self.players@[player as int] == released,
                    keyboard == Some(*id),
                    i <= self.players@.len(),
                    forall|j: int| 0 <= j < i && j != player ==> detached(
                        start.players@[j],
                        #[trigger] self.players@[j],
                        opt_view(keyboard),
                    ),
                    forall|j: int| i <= j < start.players@.len() && j != player ==> #[trigger] self.players@[j] == start.players@[j],
                decreases start.players@.len() - i,
            {
                if i != player {
                    let holds = match &self.players[i].keyboard {
                        Some(k) => *k == *id,
                        None => false,
                    };
                    if holds {
                        self.players[i].keyboard = None;
                        self.release_keys(i);
                    }
                }
                i = i + 1;
            }
        }
        self.players[player].keyboard = keyboard;
        let o = self.ensure_controller(player, false, make);
        Ok(o)
    }
}

/// Vendor and product id recorded for device `id` in `prev`; a later entry
/// wins over an earlier one.
pub open spec fn previous_ids(prev: Seq<(String, u32, u32)>, id: Seq<char>) -> Option<(u32, u32)>
    decreases prev.len(),
{
    if prev.len() == 0 {
        None
    } else if prev.last().0@ == id {
        Some((prev.last().1, prev.last().2))
    } else {
        previous_ids(prev.drop_last(), id)
    }
}

/// Id of the first of the first `n` devices with a known vendor and the
/// given vendor/product ids.
pub open spec fn first_with_ids(devs: Seq<KeyboardDevice>, vid: u32, pid: u32, n: int) -> Option<Seq<char>>
    decreases n,
{
    if n <= 0 {
        None
    } else {
        match first_with_ids(devs, vid, pid, n - 1) {
            Some(r) => Some(r),
            None => if devs[n - 1].vendor_id != 0 && devs[n - 1].vendor_id == vid
                && devs[n - 1].product_id == pid {
                Some(devs[n - 1].id@)
            } else {
                None
            },
        }
    }
}

/// The keyboards assigned to `players`, in slot order.
pub open spec fn keyboards_of<C>(players: Seq<PlayerRuntime<C>>) -> Seq<Option<Seq<char>>> {
    Seq::new(players.len(), |i: int| opt_view(players[i].keyboard))
}

/// Some slot of `kbs` holds keyboard `id`, and that keyboard is present.
pub open spec fn in_use(kbs: Seq<Option<Seq<char>>>, devs: Seq<KeyboardDevice>, id: Seq<char>) -> bool {
    &&& exists|q: int| 0 <= q < kbs.len() && #[trigger] kbs[q] == Some(id)
    &&& device_present(devs, id)
}

/// The device that replaces a vanished keyboard `k`: the first present
/// device with the vendor/product ids `k` had before (a USB keyboard gets a
/// new id on every plug), unless a slot of `kbs` already holds it.
pub open spec fn replug_target(
    devs: Seq<KeyboardDevice>,
    prev: Seq<(String, u32, u32)>,
    kbs: Seq<Option<Seq<char>>>,
    k: Seq<char>,
) -> Option<Seq<char>> {
    if device_present(devs, k) {
        None
    } else {
        match previous_ids(prev, k) {
            None => None,
            Some(ids) => if ids.0 == 0 {
                None
            } else {
                match first_with_ids(devs, ids.0, ids.1, devs.len() as int) {
                    None => None,
                    Some(r) => if in_use(kbs, devs, r) {
                        None
                    } else {
                        Some(r)
                    },
                }
            },
        }
    }
}

/// The keyboard of slot `j` after re-association, given the slots `kbs`
/// as they stand at that point.
pub open spec fn replug_step(
    devs: Seq<KeyboardDevice>,
    prev: Seq<(String, u32, u32)>,
    kbs: Seq<Option<Seq<char>>>,
    j: int,
) -> Option<Seq<char>> {
    match kbs[j] {
        Some(k) => match replug_target(devs, prev, kbs, k) {
            Some(r) => Some(r),
            None => Some(k),
        },
        None => None,
    }
}

/// The keyboards after re-associating the first `n` slots in order: a
/// keyboard handed to an earlier slot counts as in use for later ones.
pub open spec fn reconciled(
    devs: Seq<KeyboardDevice>,
    prev: Seq<(String, u32, u32)>,
    kbs: Seq<Option<Seq<char>>>,
    n: int,
) -> Seq<Option<Seq<char>>>
    decreases n,
{
    if n <= 0 {
        kbs
    } else {
        let s = reconciled(devs, prev, kbs, n - 1);
        s.update(n - 1, replug_step(devs, prev, s, n - 1))
    }
}

/// `o` holds a keyboard that is present.
pub open spec fn holds_present(devs: Seq<KeyboardDevice>, o: Option<Seq<char>>) -> bool {
    o is Some && device_present(devs, o->0)
}

/// No present keyboard is held by two slots.
pub open spec fn exclusive(devs: Seq<KeyboardDevice>, kbs: Seq<Option<Seq<char>>>) -> bool {
    forall|i: int, j: int|
        0 <= i < kbs.len() && 0 <= j < kbs.len() && i != j && holds_present(devs, #[trigger] kbs[i])
            ==> #[trigger] kbs[j] != kbs[i]
}

/// `p` has a keyboard that is not in `devs`.
pub open spec fn unplugged<C>(devs: Seq<KeyboardDevice>, p: PlayerRuntime<C>) -> bool {
    p.keyboard is Some && !device_present(devs, p.keyboard->0@)
}

/// `q` is `p` after the device list became `devs`: a player whose keyboard
/// vanished drops its held keys (no button stays stuck); nothing else but
/// the keyboard changes.
pub open spec fn after_device_change<C>(p: PlayerRuntime<C>, q: PlayerRuntime<C>, devs: Seq<KeyboardDevice>) -> bool {
    let unplugged = unplugged(devs, p);
    &&& q == (PlayerRuntime {
        keyboard: q.keyboard,
        held: q.held,
        last_report: q.last_report,
        ..p
    })
    &&& unplugged ==> q.held@.len() == 0 && q.last_report is None
    &&& !unplugged ==> q == p
}

proof fn lemma_first_with_ids_present(devs: Seq<KeyboardDevice>, vid: u32, pid: u32, n: int)
    requires
        n <= devs.len(),
    ensures
        first_with_ids(devs, vid, pid, n) matches Some(r) ==> device_present(devs, r),
    decreases n,
{
    if n > 0 {
        lemma_first_with_ids_present(devs, vid, pid, n - 1);
        if first_with_ids(devs, vid, pid, n - 1) is None && first_with_ids(devs, vid, pid, n) is Some {
            assert(devs[n - 1].id@ == first_with_ids(devs, vid, pid, n)->0);
        }
    }
}

/// Re-association never changes slots at or after `n`, and a slot whose
/// keyboard is absent from nothing (none, or present) keeps it.
proof fn lemma_reconciled_frame(
    devs: Seq<KeyboardDevice>,
    prev: Seq<(String, u32, u32)>,
    kbs: Seq<Option<Seq<char>>>,
    n: int,
)
    requires
        0 <= n <= kbs.len(),
    ensures
        reconciled(devs, prev, kbs, n).len() == kbs.len(),
        forall|j: int| n <= j < kbs.len() ==> #[trigger] reconciled(devs, prev, kbs, n)[j] == kbs[j],
        forall|j: int| 0 <= j < n && (kbs[j] is None || device_present(devs, kbs[j]->0)) ==>
            #[trigger] reconciled(devs, prev, kbs, n)[j] == kbs[j],
    decreases n,
{
    if n > 0 {
        lemma_reconciled_frame(devs, prev, kbs, n - 1);
    }
}

/// Re-association keeps every present keyboard fed to one slot at most: a
/// keyboard handed out is taken only when no slot holds it.
pub proof fn law_replug_keeps_keyboards_exclusive(
    devs: Seq<KeyboardDevice>,
    prev: Seq<(String, u32, u32)>,
    kbs: Seq<Option<Seq<char>>>,
    n: int,
)
    requires
        0 <= n <= kbs.len(),
        exclusive(devs, kbs),
    ensures
        exclusive(devs, reconciled(devs, prev, kbs, n)),
    decreases n,
{
    if n > 0 {
        law_replug_keeps_keyboards_exclusive(devs, prev, kbs, n - 1);
        lemma_reconciled_frame(devs, prev, kbs, n - 1);
        let s = reconciled(devs, prev, kbs, n - 1);
        let m = n - 1;
        let v = replug_step(devs, prev, s, m);
        let t = s.update(m, v);
        if v != s[m] {
            let k = s[m]->0;
            let ids = previous_ids(prev, k)->0;
            lemma_first_with_ids_present(devs, ids.0, ids.1, devs.len() as int);
            let r = v->0;
            assert(!in_use(s, devs, r));
            assert forall|i: int, j: int|
                0 <= i < t.len() && 0 <= j < t.len() && i != j && holds_present(devs, #[trigger] t[i])
                    implies #[trigger] t[j] != t[i] by {
                if i == m {
                    assert(s[j] != Some(r));
                } else if j == m {
                    assert(s[i] != Some(r));
                } else {
                    assert(t[i] == s[i] && t[j] == s[j]);
                }
            }
        } else {
            assert(t =~= s);
        }
    }
}

fn lookup_previous(prev: &[(String, u32, u32)], id: &String) -> (r: Option<(u32, u32)>)
    ensures
        r == previous_ids(prev@, id@),
{
    let mut found: Option<(u32, u32)> = None;
    let mut i: usize = 0;
    while i < prev.len()
        invariant
            i <= prev@.len(),
            found == previous_ids(prev@.take(i as int), id@),
        decreases prev@.len() - i,
    {
        proof {
            assert(prev@.take(i + 1).drop_last() =~= prev@.take(i as int));
        }
        if prev[i].0 == *id {
            found = Some((prev[i].1, prev[i].2));
        }
        i = i + 1;
    }
    proof {
        assert(prev@.take(prev@.len() as int) =~= prev@);
    }
    found
}

fn find_with_ids(devs: &[KeyboardDevice], vid: u32, pid: u32) -> (r: Option<String>)
    ensures
        opt_view(r) == first_with_ids(devs@, vid, pid, devs@.len() as int),
{
    let mut i: usize = 0;
    while i < devs.len()
        invariant
            i <= devs@.len(),
            first_with_ids(devs@, vid, pid, i as int) is None,
        decreases devs@.len() - i,
    {
        if devs[i].vendor_id != 0 && devs[i].vendor_id == vid && devs[i].product_id == pid {
            proof {
                lemma_first_with_ids_stays(devs@, vid, pid, i + 1, devs@.len() as int);
            }
            return Some(devs[i].id.clone());
        }
        i = i + 1;
    }
    None
}

proof fn lemma_first_with_ids_stays(devs: Seq<KeyboardDevice>, vid: u32, pid: u32, n: int, m: int)
    requires
        0 <= n <= m,
        first_with_ids(devs, vid, pid, n) is Some,
    ensures
        first_with_ids(devs, vid, pid, m) == first_with_ids(devs, vid, pid, n),
    decreases m - n,
{
    if m > n {
        lemma_first_with_ids_stays(devs, vid, pid, n, m - 1);
    }
}

impl<C> Core<C> {
    fn keyboard_in_use(&self, id: &String) -> (r: bool)
        ensures
            r == in_use(keyboards_of(self.players@), self.devices@, id@),
    {
        if !has_device(self.devices.as_slice(), id) {
            return false;
        }
        let mut i: usize = 0;
        while i < self.players.len()
            invariant
                i <= self.players@.len(),
                device_present(self.devices@, id@),
                forall|q: int| 0 <= q < i ==> opt_view((#[trigger] self.players@[q]).keyboard) != Some(id@),
            decreases self.players@.len() - i,
        {
            let holds = match &self.players[i].keyboard {
                Some(k) => *k == *id,
                None => false,
            };
            if holds {
                assert(keyboards_of(self.players@)[i as int] == Some(id@));
                return true;
            }
            i = i + 1;
        }
        proof {
            if in_use(keyboards_of(self.players@), self.devices@, id@) {
                let q = choose|q: int| 0 <= q < keyboards_of(self.players@).len() && #[trigger] keyboards_of(self.players@)[q] == Some(id@);
                assert(opt_view(self.players@[q].keyboard) == Some(id@));
            }
        }
        false
    }

    fn replacement_for(&self, k: &String) -> (r: Option<String>)
        ensures
            opt_view(r) == replug_target(self.devices@, self.previous_device_ids@, keyboards_of(self.players@), k@),
    {
        if has_device(self.devices.as_slice(), k) {
            return None;
        }
        match lookup_previous(self.previous_device_ids.as_slice(), k) {
            None => None,
            Some(ids) => {
                if ids.0 == 0 {
                    return None;
                }
                match find_with_ids(self.devices.as_slice(), ids.0, ids.1) {
                    None => None,
                    Some(r) => {
                        if self.keyboard_in_use(&r) {
                            None
                        } else {
                            Some(r)
                        }
                    },
                }
            },
        }
    }

    /// Re-associates players whose keyboard was unplugged with a newly
    /// plugged device of the same vendor/product ids (USB keyboards get a
    /// new instance id on every plug). Players are taken in slot order, and
    /// a device handed to one player is in use for the next ones, so a
    /// keyboard still feeds one player only.
    pub fn reconcile_replugged_devices(&mut self)
        ensures
            old(self).wf() ==> final(self).wf(),
            *final(self) == (Core { players: final(self).players, ..*old(self) }),
            final(self).players@.len() == old(self).players@.len(),
            forall|j: int| 0 <= j < old(self).players@.len() ==> #[trigger] final(self).players@[j] == (
            PlayerRuntime { keyboard: final(self).players@[j].keyboard, ..old(self).players@[j] }),
            keyboards_of(final(self).players@) == reconciled(
                old(self).devices@,
                old(self).previous_device_ids@,
                keyboards_of(old(self).players@),
                old(self).players@.len() as int,
            ),
            forall|j: int| 0 <= j < old(self).players@.len() && !unplugged(old(self).devices@, #[trigger] old(self).players@[j])
                ==> final(self).players@[j] == old(self).players@[j],
            exclusive(old(self).devices@, keyboards_of(old(self).players@)) ==> exclusive(
                old(self).devices@,
                keyboards_of(final(self).players@),
            ),
    {
        let ghost start = *self;
        let ghost kbs = keyboards_of(start.players@);
        let ghost devs = start.devices@;
        let ghost prev = start.previous_device_ids@;
        let mut i: usize = 0;
        while i < self.players.len()
            invariant
                self.players@.len() == start.players@.len(),
                *self == (Core { players: self.players, ..start }),
                kbs == keyboards_of(start.players@),
                devs == start.devices@,
                prev == start.previous_device_ids@,
                i <= self.players@.len(),
                keyboards_of(self.players@) =~= reconciled(devs, prev, kbs, i as int),
                forall|j: int| 0 <= j < start.players@.len() ==> #[trigger] self.players@[j] == (
                PlayerRuntime { keyboard: self.players@[j].keyboard, ..start.players@[j] }),
                forall|j: int| 0 <= j < start.players@.len() && !unplugged(devs, #[trigger] start.players@[j])
                    ==> self.players@[j] == start.players@[j],
            decreases start.players@.len() - i,
        {
            proof {
                lemma_reconciled_frame(devs, prev, kbs, i as int);
            }
            let ghost before = self.players@;
            let t = match &self.players[i].keyboard {
                Some(k) => self.replacement_for(k),
                None => None,
            };
            if let Some(r) = t {
                self.players[i].keyboard = Some(r);
            }
            proof {
                let s = reconciled(devs, prev, kbs, i as int);
                assert(keyboards_of(before)[i as int] == s[i as int]);
                assert(keyboards_of(self.players@) =~= s.update(i as int, replug_step(devs, prev, s, i as int)));
            }
            i = i + 1;
        }
        proof {
            if exclusive(devs, kbs) {
                law_replug_keeps_keyboards_exclusive(devs, prev, kbs, kbs.len() as int);
            }
        }
    }

    /// The device list changed (startup, plug/unplug): remember the old ids,
    /// drop the held keys of players whose keyboard vanished, then
    /// re-associate re-plugged keyboards.
    pub fn device_list(&mut self, devices: Vec<KeyboardDevice>)
        ensures
            old(self).wf() ==> final(self).wf(),
            final(self).devices == devices,
            final(self).running == old(self).running,
            final(self).driver == old(self).driver,
            final(self).active_profile == old(self).active_profile,
            final(self).previous_device_ids@.len() == old(self).devices@.len(),
            forall|i: int| 0 <= i < old(self).devices@.len() ==> {
                &&& (#[trigger] final(self).previous_device_ids@[i]).0@ == old(self).devices@[i].id@
                &&& final(self).previous_device_ids@[i].1 == old(self).devices@[i].vendor_id
                &&& final(self).previous_device_ids@[i].2 == old(self).devices@[i].product_id
            },
            final(self).players@.len() == old(self).players@.len(),
            forall|j: int| 0 <= j < old(self).players@.len() ==> after_device_change(
                old(self).players@[j],
                #[trigger] final(self).players@[j],
                devices@,
            ),
            keyboards_of(final(self).players@) == reconciled(
                devices@,
                final(self).previous_device_ids@,
                keyboards_of(old(self).players@),
                old(self).players@.len() as int,
            ),
            exclusive(devices@, keyboards_of(old(self).players@)) ==> exclusive(
                devices@,
                keyboards_of(final(self).players@),
            ),
    {
        let mut prev: Vec<(String, u32, u32)> = Vec::new();
        let mut i: usize = 0;
        while i < self.devices.len()
            invariant
                i <= self.devices@.len(),
                prev@.len() == i,
                forall|k: int| 0 <= k < i ==> {
                    &&& (#[trigger] prev@[k]).0@ == self.devices@[k].id@
                    &&& prev@[k].1 == self.devices@[k].vendor_id
                    &&& prev@[k].2 == self.devices@[k].product_id
                },
            decreases self.devices@.len() - i,
        {
            prev.push((self.devices[i].id.clone(), self.devices[i].vendor_id, self.devices[i].product_id));
            i = i + 1;
        }
        self.previous_device_ids = prev;
        self.devices = devices;
        let ghost start = *self;
        let mut i: usize = 0;
        while i < self.players.len()
            invariant
                self.players@.len() == start.players@.len(),
                *self == (Core { players: self.players, ..start }),
                i <= self.players@.len(),
                forall|j: int| 0 <= j < i ==> {
                    let p = start.players@[j];
                    let q = #[trigger] self.players@[j];
                    let unplugged = p.keyboard matches Some(k) && !device_present(start.devices@, k@);
                    &&& q == (PlayerRuntime { held: q.held, last_report: q.last_report, ..p })
                    &&& unplugged ==> q.held@.len() == 0 && q.last_report is None
                    &&& !unplugged ==> q == p
                },
                forall|j: int| i <= j < start.players@.len() ==> #[trigger] self.players@[j] == start.players@[j],
            decreases start.players@.len() - i,
        {
            let gone = match &self.players[i].keyboard {
                Some(k) => !has_device(self.devices.as_slice(), k),
                None => false,
            };
            if gone {
                self.release_keys(i);
            }
            i = i + 1;
        }
        let ghost mid = *self;
        self.reconcile_replugged_devices();
        proof {
            assert(keyboards_of(mid.players@) =~= keyboards_of(old(self).players@));
            assert forall|j: int| 0 <= j < old(self).players@.len() implies after_device_change(
                old(self).players@[j],
                #[trigger] self.players@[j],
                devices@,
            ) by {
                assert(self.players@[j] == (PlayerRuntime { keyboard: self.players@[j].keyboard, ..mid.players@[j] }));
                if !unplugged(mid.devices@, mid.players@[j]) {
                    assert(self.players@[j] == mid.players@[j]);
                }
            }
        }
    }
}


/// `first_with_ids` finds the first device with a known vendor whose vendor
/// id and product id both equal the given ones, and nothing when there is
/// none.
proof fn lemma_first_with_ids_is_first(devs: Seq<KeyboardDevice>, vid: u32, pid: u32, n: int)
    requires
        0 <= n <= devs.len(),
    ensures
        (match first_with_ids(devs, vid, pid, n) {
            Some(r) => exists|i: int| {
                &&& 0 <= i < n
                &&& vid != 0
                &&& (#[trigger] devs[i]).id@ == r
                &&& devs[i].vendor_id == vid
                &&& devs[i].product_id == pid
                &&& forall|j: int| 0 <= j < i ==> !(devs[j].vendor_id == vid && devs[j].product_id == pid)
            },
            None => vid == 0 || forall|j: int| 0 <= j < n ==> !(devs[j].vendor_id == vid && devs[j].product_id == pid),
        }),
    decreases n,
{
    if n > 0 {
        lemma_first_with_ids_is_first(devs, vid, pid, n - 1);
        if first_with_ids(devs, vid, pid, n - 1) is None && first_with_ids(devs, vid, pid, n) is Some {
            assert(devs[n - 1].id@ == first_with_ids(devs, vid, pid, n)->0);
        }
    }
}

/// A vanished keyboard is only replaced by the same model: the replacement
/// is the first present device whose vendor id and product id both equal
/// the ids the vanished keyboard had (and that vendor id is known), and it
/// is taken exactly when no slot holds it. A present keyboard, or one whose
/// ids were never seen, is never replaced.
pub proof fn law_replug_takes_same_model(
    devs: Seq<KeyboardDevice>,
    prev: Seq<(String, u32, u32)>,
    kbs: Seq<Option<Seq<char>>>,
    k: Seq<char>,
)
    ensures
        replug_target(devs, prev, kbs, k) matches Some(r) ==> {
            &&& !device_present(devs, k)
            &&& previous_ids(prev, k) matches Some(ids)
            &&& ids.0 != 0
            &&& !in_use(kbs, devs, r)
            &&& exists|i: int| {
                &&& 0 <= i < devs.len()
                &&& (#[trigger] devs[i]).id@ == r
                &&& devs[i].vendor_id == ids.0
                &&& devs[i].product_id == ids.1
            }
        },
        forall|i: int| #![trigger devs[i]]
            {
                &&& !device_present(devs, k)
                &&& previous_ids(prev, k) matches Some(ids)
                &&& ids.0 != 0
                &&& 0 <= i < devs.len()
                &&& devs[i].vendor_id == ids.0
                &&& devs[i].product_id == ids.1
                &&& forall|j: int| 0 <= j < i ==> !(devs[j].vendor_id == ids.0 && devs[j].product_id == ids.1)
            } ==> replug_target(devs, prev, kbs, k) == (if in_use(kbs, devs, devs[i].id@) {
                None
            } else {
                Some(devs[i].id@)
            }),
        ({
            &&& !device_present(devs, k)
            &&& previous_ids(prev, k) matches Some(ids)
            &&& forall|j: int| #![trigger devs[j]]
                0 <= j < devs.len() ==> !(devs[j].vendor_id == ids.0 && devs[j].product_id == ids.1)
        }) ==> replug_target(devs, prev, kbs, k) is None,
{
    match previous_ids(prev, k) {
        Some(ids) => {
            lemma_first_with_ids_is_first(devs, ids.0, ids.1, devs.len() as int);
            assert forall|i: int| #![trigger devs[i]]
                {
                    &&& !device_present(devs, k)
                    &&& ids.0 != 0
                    &&& 0 <= i < devs.len()
                    &&& devs[i].vendor_id == ids.0
                    &&& devs[i].product_id == ids.1
                    &&& forall|j: int| 0 <= j < i ==> !(devs[j].vendor_id == ids.0 && devs[j].product_id == ids.1)
                } implies first_with_ids(devs, ids.0, ids.1, devs.len() as int) == Some(devs[i].id@) by {
                let f = first_with_ids(devs, ids.0, ids.1, devs.len() as int);
                if f is None {
                    assert(!(devs[i].vendor_id == ids.0 && devs[i].product_id == ids.1));
                } else {
                    let i2 = choose|i2: int| {
                        &&& 0 <= i2 < devs.len()
                        &&& ids.0 != 0
                        &&& (#[trigger] devs[i2]).id@ == f->0
                        &&& devs[i2].vendor_id == ids.0
                        &&& devs[i2].product_id == ids.1
                        &&& forall|j: int| 0 <= j < i2 ==> !(devs[j].vendor_id == ids.0 && devs[j].product_id == ids.1)
                    };
                    if i2 < i {
                        assert(!(devs[i2].vendor_id == ids.0 && devs[i2].product_id == ids.1));
                    } else if i < i2 {
                        assert(!(devs[i].vendor_id == ids.0 && devs[i].product_id == ids.1));
                    }
                }
            }
        },
        None => {},
    }
}

} // verus!
