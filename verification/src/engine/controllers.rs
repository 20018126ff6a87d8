//! Giving players live virtual controllers.

use vstd::prelude::*;

use crate::controller::{idle_report, GamepadReport, VirtualController};
use super::{Core, PlayerRuntime};

verus! {

/// What making sure a player has a live controller did.
#[derive(Debug, Clone, Copy, PartialEq, Eq, Structural)]
pub enum ControllerOutcome {
    /// No such player, or the player has no keyboard: nothing was done.
    Untouched,
    /// The player's controller reported being connected and was kept.
    Kept,
    /// A new controller was created and connected.
    Replaced,
    /// Creating or connecting a new controller failed; the player holds the
    /// error.
    Failed,
}

/// Whether the current controller stays: only without `force`, when there
/// is one (`has`) and it answered that it is `connected`.
pub fn keep_controller(force: bool, has: bool, connected: bool) -> (k: bool)
    ensures
        k == (!force && has && connected),
{
    !force && has && connected
}

/// Records the outcome of giving `p` a new virtual controller: `made` is
/// what creating one gave and, for a created controller, what `connect`
/// answered. Only a connected controller is kept; otherwise the error is.
pub fn settle_controller<C>(p: &mut PlayerRuntime<C>, made: Result<(C, Result<(), String>), String>) -> (o: ControllerOutcome)
    ensures
        o == (if made matches Ok((_, Ok(()))) { ControllerOutcome::Replaced } else { ControllerOutcome::Failed }),
        *final(p) == (PlayerRuntime {
            controller: final(p).controller,
            controller_error: final(p).controller_error,
            ..*old(p)
        }),
        (match made {
            Ok((c, Ok(()))) => final(p).controller == Some(c) && final(p).controller_error is None,
            Ok((_, Err(e))) => final(p).controller is None && final(p).controller_error == Some(e),
            Err(e) => final(p).controller is None && final(p).controller_error == Some(e),
        }),
{
    match made {
        Ok((c, Ok(()))) => {
            p.controller = Some(c);
            p.controller_error = None;
            ControllerOutcome::Replaced
        },
        Ok((_, Err(e))) => {
            p.controller = None;
            p.controller_error = Some(e);
            ControllerOutcome::Failed
        },
        Err(e) => {
            p.controller = None;
            p.controller_error = Some(e);
            ControllerOutcome::Failed
        },
    }
}

/// `p` has a controller that records being connected.
pub open spec fn has_live_controller<C: VirtualController>(p: PlayerRuntime<C>) -> bool {
    p.controller is Some && p.controller->0.connected()
}

/// `q` is `p` after making sure it has a live controller, with outcome
/// `o`: a player without a keyboard is left alone; a controller that is
/// connected is kept unless `force`d, and only then; a kept controller
/// leaves the player as it was; otherwise the player holds either a new
/// controller and no error, or no controller and the error.
pub open spec fn ensured<C: VirtualController>(p: PlayerRuntime<C>, q: PlayerRuntime<C>, force: bool, o: ControllerOutcome) -> bool {
    &&& (o == ControllerOutcome::Untouched) == (p.keyboard is None)
    &&& p.keyboard is Some ==> ((o == ControllerOutcome::Kept) == (!force && has_live_controller(p)))
    &&& (match o {
        ControllerOutcome::Untouched => q == p,
        ControllerOutcome::Kept => p.controller is Some && q == p,
        ControllerOutcome::Replaced => q.controller is Some && q == (PlayerRuntime {
            controller: q.controller,
            controller_error: None,
            ..p
        }),
        ControllerOutcome::Failed => q.controller_error is Some && q == (PlayerRuntime {
            controller: None,
            controller_error: q.controller_error,
            ..p
        }),
    })
}

/// The report pushed again after a reconnect: the last accepted one, or
/// the idle report.
pub fn resend_report<C>(p: &PlayerRuntime<C>) -> (r: GamepadReport)
    ensures
        r == spec_resend_report(*p),
{
    match p.last_report {
        Some(last) => last,
        None => GamepadReport::default(),
    }
}

/// The report a reconnect pushes again to `p`'s controller.
pub open spec fn spec_resend_report<C>(p: PlayerRuntime<C>) -> GamepadReport {
    match p.last_report {
        Some(last) => last,
        None => idle_report(),
    }
}

/// `q` is `p` after a full reconnect with outcome `o`: a controller is
/// never kept; a player without a keyboard keeps what it had; a player with
/// one holds either a new controller and no error, or no controller and the
/// error. Every controller left was pushed `p`'s last report again.
pub open spec fn reconnected<C: VirtualController>(p: PlayerRuntime<C>, q: PlayerRuntime<C>, o: ControllerOutcome) -> bool {
    &&& o != ControllerOutcome::Kept
    &&& q.controller is Some ==> q.controller->0.submitted() == Some(spec_resend_report(p))
    &&& (o == ControllerOutcome::Untouched) == (p.keyboard is None)
    &&& q == (PlayerRuntime { controller: q.controller, controller_error: q.controller_error, ..p })
    &&& (match o {
        ControllerOutcome::Untouched => q.controller_error == p.controller_error && (q.controller is Some
            <==> p.controller is Some),
        ControllerOutcome::Replaced => q.controller is Some && q.controller_error is None,
        _ => q.controller is None && q.controller_error is Some,
    })
}

impl<C: VirtualController> Core<C> {
    /// Makes sure `player` has a live virtual controller: an existing one is
    /// kept when it answers that it is connected (`keep_controller`);
    /// otherwise `make` creates a new one and `connect` plugs it in
    /// (`settle_controller`), which takes the old one's place. With `force`
    /// the old one is unplugged first.
    pub fn ensure_controller<F: Fn() -> Result<C, String>>(&mut self, player: usize, force: bool, make: &F) -> (o: ControllerOutcome)
        requires
            make.requires(()),
        ensures
            old(self).wf() ==> final(self).wf(),
            player >= old(self).players@.len() ==> o == ControllerOutcome::Untouched && *final(self) == *old(self),
            player < old(self).players@.len() ==> final(self).only_player_changed(*old(self), player as int),
            player < old(self).players@.len() ==> ensured(
                old(self).players@[player as int],
                final(self).players@[player as int],
                force,
                o,
            ),
    {
        if player >= self.players.len() {
            return ControllerOutcome::Untouched;
        }
        if self.players[player].keyboard.is_none() {
            return ControllerOutcome::Untouched;
        }
        let has = self.players[player].controller.is_some();
        let connected = match &self.players[player].controller {
            Some(c) => c.is_connected(),
            None => false,
        };
        if keep_controller(force, has, connected) {
            return ControllerOutcome::Kept;
        }
        if force {
            let taken = self.players[player].controller.take();
            if let Some(mut c) = taken {
                c.disconnect();
            }
            self.players[player].controller_error = None;
        }
        let made = match make() {
            Ok(mut ctrl) => {
                let connected = ctrl.connect();
                Ok((ctrl, connected))
            },
            Err(e) => Err(e),
        };
        settle_controller(&mut self.players[player], made)
    }

    /// Makes sure every player has a live controller (see `ensure_controller`).
    pub(crate) fn ensure_all<F: Fn() -> Result<C, String>>(&mut self, force: bool, make: &F) -> (out: Vec<ControllerOutcome>)
        requires
            make.requires(()),
        ensures
            *final(self) == (Core { players: final(self).players, ..*old(self) }),
            final(self).players@.len() == old(self).players@.len(),
            out@.len() == old(self).players@.len(),
            forall|i: int| 0 <= i < old(self).players@.len() ==> ensured(
                old(self).players@[i],
                #[trigger] final(self).players@[i],
                force,
                out@[i],
            ),
    {
        let ghost start = *self;
        let mut out: Vec<ControllerOutcome> = Vec::new();
        let mut i: usize = 0;
        while i < self.players.len()
            invariant
                make.requires(()),
                self.players@.len() == start.players@.len(),
                *self == (Core { players: self.players, ..start }),
                i <= self.players@.len(),
                out@.len() == i,
                forall|j: int| 0 <= j < i ==> ensured(start.players@[j], #[trigger] self.players@[j], force, out@[j]),
                forall|j: int| i <= j < start.players@.len() ==> #[trigger] self.players@[j] == start.players@[j],
            decreases start.players@.len() - i,
        {
            let o = self.ensure_controller(i, force, make);
            out.push(o);
            i = i + 1;
        }
        out
    }

    /// Starts or pauses the engine; starting gives every player with a
    /// keyboard a controller.
    /// The outcome of each player when starting; none when pausing.
    pub fn set_running<F: Fn() -> Result<C, String>>(&mut self, running: bool, make: &F) -> (out: Vec<ControllerOutcome>)
        requires
            make.requires(()),
        ensures
            old(self).wf() ==> final(self).wf(),
            *final(self) == (Core { running, players: final(self).players, ..*old(self) }),
            final(self).players@.len() == old(self).players@.len(),
            out@.len() == (if running { old(self).players@.len() } else { 0 }),
            forall|i: int| 0 <= i < old(self).players@.len() ==> if running {
                ensured(old(self).players@[i], #[trigger] final(self).players@[i], false, out@[i])
            } else {
                final(self).players@[i] == old(self).players@[i]
            },
    {
        self.running = running;
        if running {
            self.ensure_all(false, make)
        } else {
            Vec::new()
        }
    }

    /// Replaces every player's controller, then pushes each connected one
    /// its last report again so nothing stays stuck.
    /// Returns each player's outcome.
    pub fn reconnect_controllers<F: Fn() -> Result<C, String>>(&mut self, make: &F) -> (out: Vec<ControllerOutcome>)
        requires
            make.requires(()),
        ensures
            old(self).wf() ==> final(self).wf(),
            *final(self) == (Core { players: final(self).players, ..*old(self) }),
            final(self).players@.len() == old(self).players@.len(),
            out@.len() == old(self).players@.len(),
            forall|i: int| 0 <= i < old(self).players@.len() ==> reconnected(
                old(self).players@[i],
                #[trigger] final(self).players@[i],
                out@[i],
            ),
    {
        let ghost start = *self;
        let out = self.ensure_all(true, make);
        let ghost mid = *self;
        let mut i: usize = 0;
        while i < self.players.len()
            invariant
                self.players@.len() == start.players@.len(),
                *self == (Core { players: self.players, ..start }),
                i <= self.players@.len(),
                out@.len() == start.players@.len(),
                forall|j: int| 0 <= j < start.players@.len() ==> ensured(start.players@[j], #[trigger] mid.players@[j], true, out@[j]),
                forall|j: int| 0 <= j < i ==> {
                    &&& #[trigger] self.players@[j] == (PlayerRuntime { controller: self.players@[j].controller, ..mid.players@[j] })
                    &&& (self.players@[j].controller is Some <==> mid.players@[j].controller is Some)
                    &&& self.players@[j].controller is Some ==> self.players@[j].controller->0.submitted()
                        == Some(spec_resend_report(mid.players@[j]))
                },
                forall|j: int| i <= j < start.players@.len() ==> #[trigger] self.players@[j] == mid.players@[j],
            decreases start.players@.len() - i,
        {
            let report = resend_report(&self.players[i]);
            let taken = self.players[i].controller.take();
            if let Some(mut c) = taken {
                let _ = c.submit(&report);
                self.players[i].controller = Some(c);
            }
            i = i + 1;
        }
        assert forall|j: int| 0 <= j < start.players@.len() implies reconnected(
            start.players@[j],
            #[trigger] self.players@[j],
            out@[j],
        ) by {
            assert(ensured(start.players@[j], mid.players@[j], true, out@[j]));
        }
        out
    }

    /// Unplugs every player's virtual controller.
    pub fn shutdown(&mut self)
        ensures
            old(self).wf() ==> final(self).wf(),
            *final(self) == (Core { players: final(self).players, ..*old(self) }),
            final(self).players@.len() == old(self).players@.len(),
            forall|i: int| 0 <= i < old(self).players@.len() ==> #[trigger] final(self).players@[i] == (
            PlayerRuntime { controller: None, ..old(self).players@[i] }),
    {
        let ghost start = *self;
        let mut i: usize = 0;
        while i < self.players.len()
            invariant
                self.players@.len() == start.players@.len(),
                *self == (Core { players: self.players, ..start }),
                i <= self.players@.len(),
                forall|j: int| 0 <= j < i ==> #[trigger] self.players@[j] == (PlayerRuntime { controller: None, ..start.players@[j] }),
                forall|j: int| i <= j < start.players@.len() ==> #[trigger] self.players@[j] == start.players@[j],
            decreases start.players@.len() - i,
        {
            let taken = self.players[i].controller.take();
            if let Some(mut c) = taken {
                c.disconnect();
            }
            i = i + 1;
        }
    }
}

} // verus!
