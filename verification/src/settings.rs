use crate::timer::TimerState;
use vstd::prelude::*;

verus! {

/// Which timer commands the player has asked for.
///
/// Every field is one independent switch; the evaluator consults a rule only
/// while its switch is on.
#[derive(Clone, Copy, Debug, PartialEq, Eq, Structural)]
pub struct Settings {
    pub menu_split: bool,
    pub menu_reset: bool,
    pub sleep: bool,
    pub wear_suit: bool,
    pub first_warp: bool,
    pub warp_core: bool,
    pub exit_warp: bool,
    pub dark_bramble: bool,
    pub dark_bramble_vessel: bool,
    pub quantum_moon_in: bool,
    pub vessel_warp: bool,
    pub big_bang: bool,
    pub dst: bool,
    pub eye_surface: bool,
    pub eye_tunnel: bool,
    pub eye_observatory: bool,
    pub eye_map: bool,
    pub eye_instruments: bool,
    pub death_hp: bool,
    pub death_impact: bool,
    pub death_oxygen: bool,
    pub death_sun: bool,
    pub death_supernova: bool,
    pub death_fish: bool,
    pub death_crushed: bool,
    pub death_elevator: bool,
    pub death_lava: bool,
    pub death_dream: bool,
    pub death_dream_explosion: bool,
    pub death_black_hole: bool,
    pub death_meditation: bool,
    pub death_time_loop: bool,
}

impl Settings {
    /// The settings with every switch off.
    pub open spec fn all_off() -> Settings {
        Settings {
            menu_split: false,
            menu_reset: false,
            sleep: false,
            wear_suit: false,
            first_warp: false,
            warp_core: false,
            exit_warp: false,
            dark_bramble: false,
            dark_bramble_vessel: false,
            quantum_moon_in: false,
            vessel_warp: false,
            big_bang: false,
            dst: false,
            eye_surface: false,
            eye_tunnel: false,
            eye_observatory: false,
            eye_map: false,
            eye_instruments: false,
            death_hp: false,
            death_impact: false,
            death_oxygen: false,
            death_sun: false,
            death_supernova: false,
            death_fish: false,
            death_crushed: false,
            death_elevator: false,
            death_lava: false,
            death_dream: false,
            death_dream_explosion: false,
            death_black_hole: false,
            death_meditation: false,
            death_time_loop: false,
        }
    }
}

impl Default for Settings {
    fn default() -> (settings: Settings)
        ensures
            settings == Settings::all_off(),
    {
        Settings {
            menu_split: false,
            menu_reset: false,
            sleep: false,
            wear_suit: false,
            first_warp: false,
            warp_core: false,
            exit_warp: false,
            dark_bramble: false,
            dark_bramble_vessel: false,
            quantum_moon_in: false,
            vessel_warp: false,
            big_bang: false,
            dst: false,
            eye_surface: false,
            eye_tunnel: false,
            eye_observatory: false,
            eye_map: false,
            eye_instruments: false,
            death_hp: false,
            death_impact: false,
            death_oxygen: false,
            death_sun: false,
            death_supernova: false,
            death_fish: false,
            death_crushed: false,
            death_elevator: false,
            death_lava: false,
            death_dream: false,
            death_dream_explosion: false,
            death_black_hole: false,
            death_meditation: false,
            death_time_loop: false,
        }
    }
}

/// What the evaluator remembers from tick to tick within one attempt.
#[derive(Clone, Copy, Debug, PartialEq, Eq, Structural)]
pub struct StickyState {
    pub sleep: bool,
    pub wear_suit: bool,
    pub first_warp: bool,
    pub exit_warp: bool,
    pub warp_core: bool,
    pub dark_bramble: bool,
    pub dark_bramble_vessel: bool,
    pub quantum_moon_in: bool,
    pub vessel_warp: bool,
    /// Time-loop resets seen so far in this attempt.
    pub loop_counter: u32,
    /// The loop in which the player last entered the warp field.
    pub warp_core_loop: Option<u32>,
}

impl StickyState {
    /// The state at the start of an attempt: nothing has fired, no loop has
    /// been counted and no warp entry is on record.
    pub open spec fn fresh() -> StickyState {
        StickyState {
            sleep: false,
            wear_suit: false,
            first_warp: false,
            exit_warp: false,
            warp_core: false,
            dark_bramble: false,
            dark_bramble_vessel: false,
            quantum_moon_in: false,
            vessel_warp: false,
            loop_counter: 0,
            warp_core_loop: None,
        }
    }
}

impl StickyState {
    /// The memory of the attempt once the timer has been looked at: a timer
    /// that is not running means that no attempt is under way, and nothing
    /// is kept.
    pub open spec fn after_timer(self, timer: TimerState) -> StickyState {
        if timer is NotRunning {
            StickyState::fresh()
        } else {
            self
        }
    }

    /// Forgets everything if the timer is not running.
    pub fn observe_timer(&mut self, timer: TimerState)
        ensures
            *final(self) == old(self).after_timer(timer),
            timer is NotRunning ==> *final(self) == StickyState::fresh(),
            !(timer is NotRunning) ==> *final(self) == *old(self),
    {
        if timer == TimerState::NotRunning {
            *self = StickyState::default();
        }
    }
}

impl Default for StickyState {
    fn default() -> (s: StickyState)
        ensures
            s == StickyState::fresh(),
    {
        StickyState {
            sleep: false,
            wear_suit: false,
            first_warp: false,
            exit_warp: false,
            warp_core: false,
            dark_bramble: false,
            dark_bramble_vessel: false,
            quantum_moon_in: false,
            vessel_warp: false,
            loop_counter: 0,
            warp_core_loop: None,
        }
    }
}

} // verus!
