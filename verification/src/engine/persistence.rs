//! Profiles: the players a profile loads to and what it stores.

use vstd::prelude::*;

use crate::controller::VirtualController;
use crate::model::{
    bindings_view, copy_bindings, copy_opt_string, opt_view, DriverStatus, SavedConfig,
    SavedPlayer,
};
use crate::presets::{default_bindings, preset_keys};
use crate::profiles::{sanitize_name, spec_sanitize};
use crate::text::push_str;
use super::{player_label, player_label_string, Core, PlayerRuntime, DEFAULT_PROFILE, MAX_PLAYERS};

verus! {

/// Number of player slots loaded from `n` saved players: at least two,
/// at most four.
pub open spec fn loaded_count(n: nat) -> nat {
    if n < 2 {
        2
    } else if n > MAX_PLAYERS {
        MAX_PLAYERS as nat
    } else {
        n
    }
}

/// `p` is slot `i` loaded from `s`: a blank name becomes the default label
/// and an empty mapping the default bindings.
pub open spec fn is_loaded<C>(p: PlayerRuntime<C>, s: SavedPlayer, i: int) -> bool {
    &&& p.name@ == (if s.name@.len() == 0 {
        player_label(i)
    } else {
        s.name@
    })
    &&& opt_view(p.keyboard) == opt_view(s.keyboard)
    &&& bindings_view(p.bindings@) == (if s.bindings@.len() == 0 {
        preset_keys(0)
    } else {
        bindings_view(s.bindings@)
    })
    &&& p.held@.len() == 0
    &&& p.controller is None
    &&& p.controller_error is None
    &&& p.last_report is None
}

/// The saved players of a profile, none for a missing profile.
pub open spec fn saved_rows(saved: Option<SavedConfig>) -> Seq<SavedPlayer> {
    match saved {
        Some(c) => c.players@,
        None => seq![],
    }
}

/// `players` is what a profile loads to: the saved players (at most four),
/// topped up with fresh slots to two. A missing or unreadable profile
/// (`None`) gives two fresh slots.
pub open spec fn loaded_players<C>(players: Seq<PlayerRuntime<C>>, saved: Option<SavedConfig>) -> bool {
    let rows = saved_rows(saved);
    &&& players.len() == loaded_count(rows.len())
    &&& forall|i: int| 0 <= i < players.len() ==> if i < rows.len() {
        is_loaded(#[trigger] players[i], rows[i], i)
    } else {
        players[i].is_fresh(i)
    }
}

fn load_player<C>(s: &SavedPlayer, i: usize) -> (p: PlayerRuntime<C>)
    requires
        i < MAX_PLAYERS,
    ensures
        is_loaded(p, *s, i as int),
{
    let name = if s.name.as_str().unicode_len() == 0 {
        player_label_string(i)
    } else {
        s.name.clone()
    };
    let bindings = if s.bindings.len() == 0 {
        default_bindings()
    } else {
        copy_bindings(s.bindings.as_slice())
    };
    PlayerRuntime {
        name,
        keyboard: copy_opt_string(&s.keyboard),
        bindings,
        held: Vec::new(),
        controller: None,
        controller_error: None,
        last_report: None,
    }
}

fn load_all<C>(saved: &Option<SavedConfig>) -> (r: Vec<PlayerRuntime<C>>)
    ensures
        loaded_players(r@, *saved),
{
    let ghost rows = saved_rows(*saved);
    let mut r: Vec<PlayerRuntime<C>> = Vec::new();
    if let Some(config) = saved {
        let mut i: usize = 0;
        while i < config.players.len() && i < MAX_PLAYERS
            invariant
                rows == config.players@,
                i <= rows.len(),
                i <= MAX_PLAYERS,
                r@.len() == i,
                forall|j: int| 0 <= j < i ==> is_loaded(#[trigger] r@[j], rows[j], j),
            decreases MAX_PLAYERS - i,
        {
            r.push(load_player(&config.players[i], i));
            i = i + 1;
        }
    }
    assert(r@.len() == rows.len() || (r@.len() == MAX_PLAYERS && rows.len() >= MAX_PLAYERS));
    while r.len() < 2
        invariant
            r@.len() <= loaded_count(rows.len()),
            rows.len() >= 2 ==> r@.len() == loaded_count(rows.len()),
            r@.len() >= rows.len() || r@.len() == MAX_PLAYERS,
            forall|j: int| 0 <= j < r@.len() ==> if j < rows.len() {
                is_loaded(#[trigger] r@[j], rows[j], j)
            } else {
                r@[j].is_fresh(j)
            },
        decreases 2 - r@.len(),
    {
        let n = r.len();
        r.push(PlayerRuntime::new(n));
    }
    r
}

impl<C> Core<C> {
    /// A core with the players of the startup profile (`None`: no usable
    /// profile file), paused, with no devices yet.
    pub fn new(driver: DriverStatus, saved: Option<SavedConfig>) -> (core: Core<C>)
        ensures
            core.wf(),
            !core.running,
            core.driver == driver,
            core.devices@.len() == 0,
            core.previous_device_ids@.len() == 0,
            core.active_profile@ == DEFAULT_PROFILE@,
            loaded_players(core.players@, saved),
    {
        Core {
            running: false,
            driver,
            devices: Vec::new(),
            previous_device_ids: Vec::new(),
            players: load_all(&saved),
            active_profile: DEFAULT_PROFILE.to_string(),
        }
    }

    /// Replaces the players with those of a profile (`None`: the profile
    /// is missing or unreadable).
    pub fn load_players(&mut self, saved: Option<SavedConfig>)
        ensures
            final(self).wf(),
            *final(self) == (Core { players: final(self).players, ..*old(self) }),
            loaded_players(final(self).players@, saved),
    {
        self.players = load_all(&saved);
    }

    /// What a profile stores: each player's name, keyboard and bindings.
    pub fn saved_config(&self) -> (r: SavedConfig)
        ensures
            r.players@.len() == self.players@.len(),
            forall|i: int| 0 <= i < self.players@.len() ==> {
                &&& (#[trigger] r.players@[i]).name@ == self.players@[i].name@
                &&& opt_view(r.players@[i].keyboard) == opt_view(self.players@[i].keyboard)
                &&& bindings_view(r.players@[i].bindings@) == bindings_view(self.players@[i].bindings@)
            },
    {
        let mut players: Vec<SavedPlayer> = Vec::new();
        let mut i: usize = 0;
        while i < self.players.len()
            invariant
                i <= self.players@.len(),
                players@.len() == i,
                forall|j: int| 0 <= j < i ==> {
                    &&& (#[trigger] players@[j]).name@ == self.players@[j].name@
                    &&& opt_view(players@[j].keyboard) == opt_view(self.players@[j].keyboard)
                    &&& bindings_view(players@[j].bindings@) == bindings_view(self.players@[j].bindings@)
                },
            decreases self.players@.len() - i,
        {
            let p = &self.players[i];
            players.push(SavedPlayer {
                name: p.name.clone(),
                keyboard: copy_opt_string(&p.keyboard),
                bindings: copy_bindings(p.bindings.as_slice()),
            });
            i = i + 1;
        }
        SavedConfig { players }
    }
}

/// Answer to deleting the profile in use.
pub const CANNOT_DELETE_ACTIVE: &'static str = "Cannot delete the active profile";

/// `p` without controller and controller error.
pub open spec fn without_controller<C>(p: PlayerRuntime<C>) -> PlayerRuntime<C> {
    PlayerRuntime { controller: None, controller_error: None, ..p }
}

/// `players` are the players of profile `saved`, each given a controller:
/// one with a keyboard holds exactly one of a controller and an error, one
/// without holds neither.
pub open spec fn loaded_and_connected<C>(players: Seq<PlayerRuntime<C>>, saved: Option<SavedConfig>) -> bool {
    &&& loaded_players(players.map_values(|p: PlayerRuntime<C>| without_controller(p)), saved)
    &&& forall|i: int| 0 <= i < players.len() && (#[trigger] players[i]).keyboard is None ==> players[i].controller is None
        && players[i].controller_error is None
    &&& forall|i: int| 0 <= i < players.len() && (#[trigger] players[i]).keyboard is Some ==> (players[i].controller is Some
        <==> players[i].controller_error is None)
}

/// "Profile '{name}' does not exist".
pub open spec fn missing_profile_message(name: Seq<char>) -> Seq<char> {
    "Profile '"@ + name + "' does not exist"@
}

impl<C> Core<C> {
    /// Makes `name` (sanitized) the active profile; the caller then writes
    /// `saved_config` under `profile_file_name` of it.
    pub fn save_profile(&mut self, name: &str)
        ensures
            old(self).wf() ==> final(self).wf(),
            *final(self) == (Core { active_profile: final(self).active_profile, ..*old(self) }),
            final(self).active_profile@ == spec_sanitize(name@),
    {
        self.active_profile = sanitize_name(name);
    }

    /// Whether the profile `name` may be deleted: not the active one.
    pub fn check_delete_profile(&self, name: &str) -> (r: Result<(), String>)
        ensures
            r is Err <==> spec_sanitize(name@) == spec_sanitize(self.active_profile@),
            r matches Err(e) ==> e@ == CANNOT_DELETE_ACTIVE@,
    {
        let a = sanitize_name(name);
        let b = sanitize_name(self.active_profile.as_str());
        if a == b {
            Err(CANNOT_DELETE_ACTIVE.to_string())
        } else {
            Ok(())
        }
    }
}

impl<C: VirtualController> Core<C> {
    /// Switches to profile `name`. `exists` tells whether its file exists and
    /// `saved` is its contents (`None`: unreadable). The current controllers
    /// are unplugged and the loaded players get new ones.
    pub fn load_profile<F: Fn() -> Result<C, String>>(
        &mut self,
        name: &str,
        exists: bool,
        saved: Option<SavedConfig>,
        make: &F,
    ) -> (r: Result<(), String>)
        requires
            make.requires(()),
        ensures
            old(self).wf() ==> final(self).wf(),
            r is Ok <==> exists,
            r matches Err(e) ==> e@ == missing_profile_message(name@) && *final(self) == *old(self),
            r is Ok ==> *final(self) == (Core {
                players: final(self).players,
                active_profile: final(self).active_profile,
                ..*old(self)
            }),
            r is Ok ==> final(self).wf(),
            r is Ok ==> final(self).active_profile@ == spec_sanitize(name@),
            r is Ok ==> loaded_and_connected(final(self).players@, saved),
    {
        if !exists {
            let mut m = "Profile '".to_string();
            push_str(&mut m, name);
            push_str(&mut m, "' does not exist");
            return Err(m);
        }
        self.shutdown();
        self.load_players(saved);
        let ghost loaded = self.players@;
        self.active_profile = sanitize_name(name);
        self.ensure_all(false, make);
        proof {
            let ps = self.players@;
            assert(ps.map_values(|p: PlayerRuntime<C>| without_controller(p)) =~= loaded);
        }
        Ok(())
    }
}

} // verus!
