use crate::pointer::{decimal_value, offset_value, AddressChain, Hop, SymbolicPath};
use crate::resolver::LookupError;
use crate::rules::Rule;
use crate::settings::{Settings, StickyState};
use crate::watcher::{Pair, Sample, Watcher};
use vstd::prelude::*;

verus! {

/// The wildcard of a scene pattern: any scene is accepted as the one that
/// is showing.
pub const ANY_SCENE: i32 = -1;

/// One monitored value: where it lives in the game, and what was last read
/// there.
#[derive(Debug)]
pub struct Variable<T> {
    pub var: Watcher<T>,
    pub pointer: AddressChain,
}

impl<T: Sample> Variable<T> {
    /// The pair that this tick's sample produces. A sample that could not
    /// be read counts as the zero of its type, and so does the first sample
    /// of all.
    pub open spec fn sampled(self, sample: Option<T>) -> Pair<T> {
        self.var.next(
            match sample {
                Some(value) => value,
                None => T::zero_value(),
            },
        )
    }

    /// A variable at the end of `pointer` that has not been sampled yet.
    pub fn new(pointer: AddressChain) -> (variable: Self)
        ensures
            variable.var.pair is None,
            variable.pointer == pointer,
    {
        Variable { var: Watcher::new(), pointer }
    }

    /// Pairs this tick's sample with the last one, without taking it in.
    pub fn peek(&self, sample: Option<T>) -> (pair: Pair<T>)
        ensures
            pair == self.sampled(sample),
    {
        let value = match sample {
            Some(value) => value,
            None => T::zero(),
        };
        self.var.peek(value)
    }

    /// Takes in this tick's sample, `None` if the read failed.
    pub fn update(&mut self, sample: Option<T>) -> (pair: Pair<T>)
        ensures
            pair == old(self).sampled(sample),
            final(self).var.pair == Some(pair),
            final(self).pointer == old(self).pointer,
    {
        let value = match sample {
            Some(value) => value,
            None => T::zero(),
        };
        self.var.update_infallible(value)
    }
}

/// What was read from the game on one tick: one entry for each monitored
/// value, `None` where the read failed.
#[derive(Clone, Copy, Debug)]
pub struct Samples {
    pub pauses: Option<[u8; 7]>,
    pub campfire_sleep: Option<u8>,
    pub exiting_dream: Option<u8>,
    pub scene: Option<i32>,
    pub scene_current: Option<i32>,
    pub fade_type: Option<i32>,
    pub allow_async: Option<u8>,
    pub death_type: Option<i32>,
    pub is_reality_shatter_effect_complete: Option<u8>,
    pub is_dying: Option<u8>,
    pub is_wearing_suit: Option<u8>,
    pub in_warp_field: Option<u8>,
    pub held_item: Option<i32>,
    pub prompt_item: Option<i32>,
    pub in_bramble_dimension: Option<u8>,
    pub in_vessel_dimension: Option<u8>,
    pub in_quantum_moon: Option<u8>,
    pub eye_initialized: Option<u8>,
    pub eye_state: Option<u8>,
}

/// The snapshot of the game: every monitored value, and the two flags that
/// are latched from tick to tick.
#[derive(Debug)]
pub struct State {
    pub pauses: Variable<[u8; 7]>,
    pub campfire_sleep: Variable<u8>,
    pub exiting_dream: Variable<u8>,
    pub scene: Variable<i32>,
    pub scene_current: Variable<i32>,
    pub fade_type: Variable<i32>,
    pub allow_async: Variable<u8>,
    pub death_type: Variable<i32>,
    pub is_reality_shatter_effect_complete: Variable<u8>,
    pub is_dying: Variable<u8>,
    pub is_wearing_suit: Variable<u8>,
    pub in_warp_field: Variable<u8>,
    pub held_item: Variable<i32>,
    pub prompt_item: Variable<i32>,
    pub in_bramble_dimension: Variable<u8>,
    pub in_vessel_dimension: Variable<u8>,
    pub in_quantum_moon: Variable<u8>,
    pub eye_initialized: Variable<u8>,
    pub eye_state: Variable<u8>,
    pub load: bool,
    pub menu: bool,
}

impl State {
    /// Every value paired with this tick's sample, and the flags as the
    /// last tick left them.
    pub open spec fn sampled(self, samples: Samples) -> Variables {
        Variables {
            pauses: self.pauses.sampled(samples.pauses),
            campfire_sleep: self.campfire_sleep.sampled(samples.campfire_sleep),
            exiting_dream: self.exiting_dream.sampled(samples.exiting_dream),
            scene: self.scene.sampled(samples.scene),
            scene_current: self.scene_current.sampled(samples.scene_current),
            fade_type: self.fade_type.sampled(samples.fade_type),
            allow_async: self.allow_async.sampled(samples.allow_async),
            death_type: self.death_type.sampled(samples.death_type),
            is_reality_shatter_effect_complete: self.is_reality_shatter_effect_complete.sampled(
                samples.is_reality_shatter_effect_complete,
            ),
            is_dying: self.is_dying.sampled(samples.is_dying),
            is_wearing_suit: self.is_wearing_suit.sampled(samples.is_wearing_suit),
            in_warp_field: self.in_warp_field.sampled(samples.in_warp_field),
            held_item: self.held_item.sampled(samples.held_item),
            prompt_item: self.prompt_item.sampled(samples.prompt_item),
            in_bramble_dimension: self.in_bramble_dimension.sampled(samples.in_bramble_dimension),
            in_vessel_dimension: self.in_vessel_dimension.sampled(samples.in_vessel_dimension),
            in_quantum_moon: self.in_quantum_moon.sampled(samples.in_quantum_moon),
            eye_initialized: self.eye_initialized.sampled(samples.eye_initialized),
            eye_state: self.eye_state.sampled(samples.eye_state),
            load: self.load,
            menu: self.menu,
        }
    }

    /// The snapshot that remembers `vars`: each value keeps its pointer and
    /// holds the pair of `vars`, and the flags are those of `vars`.
    pub open spec fn remembering(self, vars: Variables) -> State {
        State {
            pauses: Variable {
                var: Watcher { pair: Some(vars.pauses) },
                pointer: self.pauses.pointer,
            },
            campfire_sleep: Variable {
                var: Watcher { pair: Some(vars.campfire_sleep) },
                pointer: self.campfire_sleep.pointer,
            },
            exiting_dream: Variable {
                var: Watcher { pair: Some(vars.exiting_dream) },
                pointer: self.exiting_dream.pointer,
            },
            scene: Variable { var: Watcher { pair: Some(vars.scene) }, pointer: self.scene.pointer },
            scene_current: Variable {
                var: Watcher { pair: Some(vars.scene_current) },
                pointer: self.scene_current.pointer,
            },
            fade_type: Variable {
                var: Watcher { pair: Some(vars.fade_type) },
                pointer: self.fade_type.pointer,
            },
            allow_async: Variable {
                var: Watcher { pair: Some(vars.allow_async) },
                pointer: self.allow_async.pointer,
            },
            death_type: Variable {
                var: Watcher { pair: Some(vars.death_type) },
                pointer: self.death_type.pointer,
            },
            is_reality_shatter_effect_complete: Variable {
                var: Watcher { pair: Some(vars.is_reality_shatter_effect_complete) },
                pointer: self.is_reality_shatter_effect_complete.pointer,
            },
            is_dying: Variable {
                var: Watcher { pair: Some(vars.is_dying) },
                pointer: self.is_dying.pointer,
            },
            is_wearing_suit: Variable {
                var: Watcher { pair: Some(vars.is_wearing_suit) },
                pointer: self.is_wearing_suit.pointer,
            },
            in_warp_field: Variable {
                var: Watcher { pair: Some(vars.in_warp_field) },
                pointer: self.in_warp_field.pointer,
            },
            held_item: Variable {
                var: Watcher { pair: Some(vars.held_item) },
                pointer: self.held_item.pointer,
            },
            prompt_item: Variable {
                var: Watcher { pair: Some(vars.prompt_item) },
                pointer: self.prompt_item.pointer,
            },
            in_bramble_dimension: Variable {
                var: Watcher { pair: Some(vars.in_bramble_dimension) },
                pointer: self.in_bramble_dimension.pointer,
            },
            in_vessel_dimension: Variable {
                var: Watcher { pair: Some(vars.in_vessel_dimension) },
                pointer: self.in_vessel_dimension.pointer,
            },
            in_quantum_moon: Variable {
                var: Watcher { pair: Some(vars.in_quantum_moon) },
                pointer: self.in_quantum_moon.pointer,
            },
            eye_initialized: Variable {
                var: Watcher { pair: Some(vars.eye_initialized) },
                pointer: self.eye_initialized.pointer,
            },
            eye_state: Variable {
                var: Watcher { pair: Some(vars.eye_state) },
                pointer: self.eye_state.pointer,
            },
            load: vars.load,
            menu: vars.menu,
        }
    }

    /// The snapshot after a tick on which `samples` were read.
    pub open spec fn refreshed(self, samples: Samples) -> State {
        self.remembering(self.sampled(samples).settled())
    }

    /// The flags `(load, menu)` after each of the ticks on which `samples`
    /// were read, one after the other.
    pub open spec fn replay(self, samples: Seq<Samples>) -> Seq<(bool, bool)>
        decreases samples.len(),
    {
        if samples.len() == 0 {
            Seq::empty()
        } else {
            let next = self.refreshed(samples[0]);
            seq![(next.load, next.menu)] + next.replay(samples.drop_first())
        }
    }

    /// The time loops counted over the ticks on which `samples` were read,
    /// one after the other.
    pub open spec fn loops_counted(self, samples: Seq<Samples>) -> nat
        decreases samples.len(),
    {
        if samples.len() == 0 {
            0
        } else {
            let here: nat = if self.sampled(samples[0]).leaves_menu() {
                1
            } else {
                0
            };
            here + self.refreshed(samples[0]).loops_counted(samples.drop_first())
        }
    }

    /// The two snapshots stand alike for the decision: the same flags, and
    /// the same last reading of the pause flags and of the four values that
    /// describe a scene transition.
    pub open spec fn decides_like(self, other: State) -> bool {
        &&& self.load == other.load
        &&& self.menu == other.menu
        &&& self.pauses.var.last() == other.pauses.var.last()
        &&& self.scene.var.last() == other.scene.var.last()
        &&& self.scene_current.var.last() == other.scene_current.var.last()
        &&& self.fade_type.var.last() == other.fade_type.var.last()
        &&& self.allow_async.var.last() == other.allow_async.var.last()
    }

    /// Pairs what was read on this tick with what was read on the last,
    /// without taking it in: the values that `update` would decide on.
    pub fn peek(&self, samples: &Samples) -> (vars: Variables)
        ensures
            vars == self.sampled(*samples),
    {
        Variables {
            pauses: self.pauses.peek(samples.pauses),
            campfire_sleep: self.campfire_sleep.peek(samples.campfire_sleep),
            exiting_dream: self.exiting_dream.peek(samples.exiting_dream),
            scene: self.scene.peek(samples.scene),
            scene_current: self.scene_current.peek(samples.scene_current),
            fade_type: self.fade_type.peek(samples.fade_type),
            allow_async: self.allow_async.peek(samples.allow_async),
            death_type: self.death_type.peek(samples.death_type),
            is_reality_shatter_effect_complete: self.is_reality_shatter_effect_complete.peek(samples.is_reality_shatter_effect_complete),
            is_dying: self.is_dying.peek(samples.is_dying),
            is_wearing_suit: self.is_wearing_suit.peek(samples.is_wearing_suit),
            in_warp_field: self.in_warp_field.peek(samples.in_warp_field),
            held_item: self.held_item.peek(samples.held_item),
            prompt_item: self.prompt_item.peek(samples.prompt_item),
            in_bramble_dimension: self.in_bramble_dimension.peek(samples.in_bramble_dimension),
            in_vessel_dimension: self.in_vessel_dimension.peek(samples.in_vessel_dimension),
            in_quantum_moon: self.in_quantum_moon.peek(samples.in_quantum_moon),
            eye_initialized: self.eye_initialized.peek(samples.eye_initialized),
            eye_state: self.eye_state.peek(samples.eye_state),
            load: self.load,
            menu: self.menu,
        }
    }

    /// Tells whether `update` would count a new time loop on `samples`.
    pub fn counts_loop(&self, samples: &Samples) -> (counts: bool)
        ensures
            counts == self.sampled(*samples).leaves_menu(),
    {
        self.peek(samples).leaving_menu()
    }

    /// Refreshes the snapshot with what was read on this tick and settles
    /// the two flags. Leaving the menu starts a new time loop, which is
    /// counted in `sticky`.
    pub fn update(&mut self, samples: &Samples, sticky: &mut StickyState) -> (vars: Variables)
        requires
            old(self).sampled(*samples).leaves_menu() ==> old(sticky).loop_counter < u32::MAX,
        ensures
            vars == old(self).sampled(*samples).settled(),
            *final(self) == old(self).refreshed(*samples),
            *final(sticky) == old(sticky).after_decision(old(self).sampled(*samples)),
    {
        let mut v = Variables {
            pauses: self.pauses.update(samples.pauses),
            campfire_sleep: self.campfire_sleep.update(samples.campfire_sleep),
            exiting_dream: self.exiting_dream.update(samples.exiting_dream),
            scene: self.scene.update(samples.scene),
            scene_current: self.scene_current.update(samples.scene_current),
            fade_type: self.fade_type.update(samples.fade_type),
            allow_async: self.allow_async.update(samples.allow_async),
            death_type: self.death_type.update(samples.death_type),
            is_reality_shatter_effect_complete: self.is_reality_shatter_effect_complete.update(
                samples.is_reality_shatter_effect_complete,
            ),
            is_dying: self.is_dying.update(samples.is_dying),
            is_wearing_suit: self.is_wearing_suit.update(samples.is_wearing_suit),
            in_warp_field: self.in_warp_field.update(samples.in_warp_field),
            held_item: self.held_item.update(samples.held_item),
            prompt_item: self.prompt_item.update(samples.prompt_item),
            in_bramble_dimension: self.in_bramble_dimension.update(samples.in_bramble_dimension),
            in_vessel_dimension: self.in_vessel_dimension.update(samples.in_vessel_dimension),
            in_quantum_moon: self.in_quantum_moon.update(samples.in_quantum_moon),
            eye_initialized: self.eye_initialized.update(samples.eye_initialized),
            eye_state: self.eye_state.update(samples.eye_state),
            load: self.load,
            menu: self.menu,
        };
        if v.pauses.check(|t: &[u8; 7]| -> (b: bool)
            ensures b == (t[4] == 0),
            { t[4] == 0 }) {
            v.load = false;
        } else if !v.menu && v.load_compare(0, 1, ANY_SCENE, 1, true) {
            v.menu = true;
        } else if v.menu && (v.pauses.check(|t: &[u8; 7]| -> (b: bool)
            ensures b == (t[3] == 0),
            { t[3] == 0 }) || v.load_compare(3, 0, 3, 1, true)) {
            v.menu = false;
            sticky.loop_counter += 1;
        } else if v.load_compare(2, 0, 2, 0, true) || v.load_compare(0, 3, 2, 2, false) {
            v.load = !v.menu;
        } else if v.load_compare(0, 2, 1, 1, false) || v.load_compare(0, 3, 1, 1, true) {
            v.load = true;
        }
        self.load = v.load;
        self.menu = v.menu;
        v
    }
}

/// The names under which one monitored value is found: the class and its
/// static field, then the hops as pairs of class and field. A hop with an
/// empty class name is a literal offset.
pub struct Names {
    pub static_class: &'static str,
    pub static_field: &'static str,
    pub hops: Seq<(&'static str, &'static str)>,
}

/// The number of monitored values.
pub const SIGNALS: usize = 19;

impl State {
    /// The names of the monitored values, in the order of the fields of
    /// `State`.
    pub open spec fn names(signal: int) -> Names {
        if signal == 0 {
            Names { static_class: "OWTime", static_field: "s_pauseFlags", hops: seq![("", "32")] }
        } else if signal == 1 {
            Names {
                static_class: "Locator",
                static_field: "_audioMixer",
                hops: seq![("OWAudioMixer", "_sleepingAtCampfire")],
            }
        } else if signal == 2 {
            Names {
                static_class: "Locator",
                static_field: "_dreamWorldController",
                hops: seq![("DreamWorldController", "_exitingDream")],
            }
        } else if signal == 3 {
            Names {
                static_class: "LoadManager",
                static_field: "s_loadingScene",
                hops: Seq::empty(),
            }
        } else if signal == 4 {
            Names {
                static_class: "LoadManager",
                static_field: "s_currentScene",
                hops: Seq::empty(),
            }
        } else if signal == 5 {
            Names { static_class: "LoadManager", static_field: "s_fadeType", hops: Seq::empty() }
        } else if signal == 6 {
            Names {
                static_class: "LoadManager",
                static_field: "s_allowAsyncTransition",
                hops: Seq::empty(),
            }
        } else if signal == 7 {
            Names {
                static_class: "Locator",
                static_field: "_deathManager",
                hops: seq![("DeathManager", "_deathType")],
            }
        } else if signal == 8 {
            Names {
                static_class: "Locator",
                static_field: "_timelineObliterationController",
                hops: seq![
                    ("TimelineObliterationController", "_cameraEffect"),
                    ("PlayerCameraEffectController", "_isRealityShatterEffectComplete"),
                ],
            }
        } else if signal == 9 {
            Names {
                static_class: "Locator",
                static_field: "_deathManager",
                hops: seq![("DeathManager", "_isDying")],
            }
        } else if signal == 10 {
            Names {
                static_class: "Locator",
                static_field: "_playerController",
                hops: seq![("PlayerCharacterController", "_isWearingSuit")],
            }
        } else if signal == 11 {
            Names {
                static_class: "Locator",
                static_field: "_playerController",
                hops: seq![("PlayerCharacterController", "_inWarpField")],
            }
        } else if signal == 12 {
            Names {
                static_class: "Locator",
                static_field: "_toolModeSwapper",
                hops: seq![
                    ("ToolModeSwapper", "_itemCarryTool"),
                    ("ItemTool", "_heldItem"),
                    ("OWItem", "_type"),
                ],
            }
        } else if signal == 13 {
            Names {
                static_class: "Locator",
                static_field: "_toolModeSwapper",
                hops: seq![("ToolModeSwapper", "_itemCarryTool"), ("ItemTool", "_promptState")],
            }
        } else if signal == 14 {
            Names {
                static_class: "Locator",
                static_field: "_playerSectorDetector",
                hops: seq![("PlayerSectorDetector", "_inBrambleDimension")],
            }
        } else if signal == 15 {
            Names {
                static_class: "Locator",
                static_field: "_playerSectorDetector",
                hops: seq![("PlayerSectorDetector", "_inVesselDimension")],
            }
        } else if signal == 16 {
            Names {
                static_class: "Locator",
                static_field: "_quantumMoon",
                hops: seq![("QuantumMoon", "_isPlayerInside")],
            }
        } else if signal == 17 {
            Names {
                static_class: "Locator",
                static_field: "_eyeStateManager",
                hops: seq![("EyeStateManager", "_initialized")],
            }
        } else {
            Names {
                static_class: "Locator",
                static_field: "_eyeStateManager",
                hops: seq![("EyeStateManager", "_state")],
            }
        }
    }

    /// `path` is the path that `names` spell out.
    pub open spec fn spells(names: Names, path: SymbolicPath) -> bool {
        &&& path.static_class == names.static_class
        &&& path.static_field == names.static_field
        &&& path.hops@.len() == names.hops.len()
        &&& forall|i: int|
            0 <= i < names.hops.len() ==> Hop::of(#[trigger] names.hops[i]) == Some(path.hops@[i])
    }

    /// The paths of the monitored values, in the order of the fields of
    /// `State`.
    pub fn paths() -> (paths: Vec<SymbolicPath>)
        ensures
            paths@.len() == SIGNALS,
            forall|signal: int|
                0 <= signal < SIGNALS ==> State::spells(
                    State::names(signal),
                    #[trigger] paths@[signal],
                ),
    {
        proof {
            reveal_strlit("");
            reveal_strlit("32");
            reveal_strlit("OWAudioMixer");
            reveal_strlit("DreamWorldController");
            reveal_strlit("DeathManager");
            reveal_strlit("TimelineObliterationController");
            reveal_strlit("PlayerCameraEffectController");
            reveal_strlit("PlayerCharacterController");
            reveal_strlit("ToolModeSwapper");
            reveal_strlit("ItemTool");
            reveal_strlit("OWItem");
            reveal_strlit("PlayerSectorDetector");
            reveal_strlit("QuantumMoon");
            reveal_strlit("EyeStateManager");
            assert(offset_value("32"@) == Some(32u64)) by {
                reveal_with_fuel(decimal_value, 3);
            }
        }
        let mut paths: Vec<SymbolicPath> = Vec::new();
        let names = [("", "32")];
        paths.push(State::path("OWTime", "s_pauseFlags", names.as_slice()));
        let names = [("OWAudioMixer", "_sleepingAtCampfire")];
        paths.push(State::path("Locator", "_audioMixer", names.as_slice()));
        let names = [("DreamWorldController", "_exitingDream")];
        paths.push(State::path("Locator", "_dreamWorldController", names.as_slice()));
        let names = [];
        paths.push(State::path("LoadManager", "s_loadingScene", names.as_slice()));
        let names = [];
        paths.push(State::path("LoadManager", "s_currentScene", names.as_slice()));
        let names = [];
        paths.push(State::path("LoadManager", "s_fadeType", names.as_slice()));
        let names = [];
        paths.push(State::path("LoadManager", "s_allowAsyncTransition", names.as_slice()));
        let names = [("DeathManager", "_deathType")];
        paths.push(State::path("Locator", "_deathManager", names.as_slice()));
        let names = [
            ("TimelineObliterationController", "_cameraEffect"),
            ("PlayerCameraEffectController", "_isRealityShatterEffectComplete"),
        ];
        paths.push(State::path("Locator", "_timelineObliterationController", names.as_slice()));
        let names = [("DeathManager", "_isDying")];
        paths.push(State::path("Locator", "_deathManager", names.as_slice()));
        let names = [("PlayerCharacterController", "_isWearingSuit")];
        paths.push(State::path("Locator", "_playerController", names.as_slice()));
        let names = [("PlayerCharacterController", "_inWarpField")];
        paths.push(State::path("Locator", "_playerController", names.as_slice()));
        let names = [
            ("ToolModeSwapper", "_itemCarryTool"),
            ("ItemTool", "_heldItem"),
            ("OWItem", "_type"),
        ];
        paths.push(State::path("Locator", "_toolModeSwapper", names.as_slice()));
        let names = [("ToolModeSwapper", "_itemCarryTool"), ("ItemTool", "_promptState")];
        paths.push(State::path("Locator", "_toolModeSwapper", names.as_slice()));
        let names = [("PlayerSectorDetector", "_inBrambleDimension")];
        paths.push(State::path("Locator", "_playerSectorDetector", names.as_slice()));
        let names = [("PlayerSectorDetector", "_inVesselDimension")];
        paths.push(State::path("Locator", "_playerSectorDetector", names.as_slice()));
        let names = [("QuantumMoon", "_isPlayerInside")];
        paths.push(State::path("Locator", "_quantumMoon", names.as_slice()));
        let names = [("EyeStateManager", "_initialized")];
        paths.push(State::path("Locator", "_eyeStateManager", names.as_slice()));
        let names = [("EyeStateManager", "_state")];
        paths.push(State::path("Locator", "_eyeStateManager", names.as_slice()));
        paths
    }

    /// The path that names known to be in order spell out.
    fn path(
        static_class: &'static str,
        static_field: &'static str,
        hops: &[(&'static str, &'static str)],
    ) -> (path: SymbolicPath)
        requires
            forall|i: int| 0 <= i < hops@.len() ==> Hop::of(#[trigger] hops@[i]) is Some,
        ensures
            State::spells(Names { static_class, static_field, hops: hops@ }, path),
    {
        SymbolicPath::new(static_class, static_field, hops).unwrap()
    }

    /// The snapshot before its first tick: each value at the end of its
    /// chain and not sampled yet, both flags down.
    pub open spec fn fresh(chains: Seq<AddressChain>) -> State {
        State {
            pauses: Variable { var: Watcher { pair: None }, pointer: chains[0] },
            campfire_sleep: Variable { var: Watcher { pair: None }, pointer: chains[1] },
            exiting_dream: Variable { var: Watcher { pair: None }, pointer: chains[2] },
            scene: Variable { var: Watcher { pair: None }, pointer: chains[3] },
            scene_current: Variable { var: Watcher { pair: None }, pointer: chains[4] },
            fade_type: Variable { var: Watcher { pair: None }, pointer: chains[5] },
            allow_async: Variable { var: Watcher { pair: None }, pointer: chains[6] },
            death_type: Variable { var: Watcher { pair: None }, pointer: chains[7] },
            is_reality_shatter_effect_complete: Variable {
                var: Watcher { pair: None },
                pointer: chains[8],
            },
            is_dying: Variable { var: Watcher { pair: None }, pointer: chains[9] },
            is_wearing_suit: Variable { var: Watcher { pair: None }, pointer: chains[10] },
            in_warp_field: Variable { var: Watcher { pair: None }, pointer: chains[11] },
            held_item: Variable { var: Watcher { pair: None }, pointer: chains[12] },
            prompt_item: Variable { var: Watcher { pair: None }, pointer: chains[13] },
            in_bramble_dimension: Variable { var: Watcher { pair: None }, pointer: chains[14] },
            in_vessel_dimension: Variable { var: Watcher { pair: None }, pointer: chains[15] },
            in_quantum_moon: Variable { var: Watcher { pair: None }, pointer: chains[16] },
            eye_initialized: Variable { var: Watcher { pair: None }, pointer: chains[17] },
            eye_state: Variable { var: Watcher { pair: None }, pointer: chains[18] },
            load: false,
            menu: false,
        }
    }

    /// Builds the snapshot on the chains of `paths`, given in that order.
    /// There is no snapshot unless there is a chain for every value.
    pub fn setup(chains: Vec<AddressChain>) -> (state: Option<State>)
        ensures
            state == if chains@.len() == SIGNALS {
                Some(State::fresh(chains@))
            } else {
                None
            },
    {
        if chains.len() != SIGNALS {
            return None;
        }
        let mut rest = chains;
        let eye_state = Variable::new(rest.pop().unwrap());
        let eye_initialized = Variable::new(rest.pop().unwrap());
        let in_quantum_moon = Variable::new(rest.pop().unwrap());
        let in_vessel_dimension = Variable::new(rest.pop().unwrap());
        let in_bramble_dimension = Variable::new(rest.pop().unwrap());
        let prompt_item = Variable::new(rest.pop().unwrap());
        let held_item = Variable::new(rest.pop().unwrap());
        let in_warp_field = Variable::new(rest.pop().unwrap());
        let is_wearing_suit = Variable::new(rest.pop().unwrap());
        let is_dying = Variable::new(rest.pop().unwrap());
        let is_reality_shatter_effect_complete = Variable::new(rest.pop().unwrap());
        let death_type = Variable::new(rest.pop().unwrap());
        let allow_async = Variable::new(rest.pop().unwrap());
        let fade_type = Variable::new(rest.pop().unwrap());
        let scene_current = Variable::new(rest.pop().unwrap());
        let scene = Variable::new(rest.pop().unwrap());
        let exiting_dream = Variable::new(rest.pop().unwrap());
        let campfire_sleep = Variable::new(rest.pop().unwrap());
        let pauses = Variable::new(rest.pop().unwrap());
        Some(
            State {
                pauses,
                campfire_sleep,
                exiting_dream,
                scene,
                scene_current,
                fade_type,
                allow_async,
                death_type,
                is_reality_shatter_effect_complete,
                is_dying,
                is_wearing_suit,
                in_warp_field,
                held_item,
                prompt_item,
                in_bramble_dimension,
                in_vessel_dimension,
                in_quantum_moon,
                eye_initialized,
                eye_state,
                load: false,
                menu: false,
            },
        )
    }
}

/// What the driver saw of the game on one tick. While there is a connection
/// only a sample keeps it: anything else means that the game is gone.
#[derive(Debug)]
pub enum Observation {
    /// It did not look.
    Idle,
    /// The game is not running, or has stopped running.
    NoProcess,
    /// The game is running, but the snapshot could not be built on it.
    Unresolved(LookupError),
    /// The game is running and the snapshot has been built on it.
    Resolved(State),
    /// The monitored values of the running game.
    Sampled(Samples),
}

/// A live connection to the game: the snapshot that was built on it.
#[derive(Debug)]
pub struct GameProcess {
    pub state: State,
}

impl GameProcess {
    /// One tick without a connection, as a function: the ticks still to wait
    /// afterwards, and the connection if one was made.
    ///
    /// While ticks remain to be waited, one of them passes and nothing else
    /// happens. Otherwise a snapshot that was built makes the connection; a
    /// snapshot that could not be built starts a wait of `cooldown` ticks;
    /// and with the game not running the next tick may try again.
    pub open spec fn connected(waiting: u32, cooldown: u32, seen: Observation) -> (
        u32,
        Option<GameProcess>,
    ) {
        if waiting > 0 {
            ((waiting - 1) as u32, None)
        } else {
            match seen {
                Observation::Resolved(state) => (0, Some(GameProcess { state })),
                Observation::Unresolved(_) => (cooldown, None),
                _ => (0, None),
            }
        }
    }

    /// Handles one tick without a connection: `seen` tells how the attempt
    /// to connect went, if one was due and made.
    pub fn connect(waiting: &mut u32, cooldown: u32, seen: Observation) -> (game: Option<GameProcess>)
        ensures
            (*final(waiting), game) == GameProcess::connected(*old(waiting), cooldown, seen),
    {
        if *waiting > 0 {
            *waiting = *waiting - 1;
            return None;
        }
        match seen {
            Observation::Resolved(state) => Some(GameProcess { state }),
            Observation::Unresolved(_) => {
                *waiting = cooldown;
                None
            },
            _ => None,
        }
    }
}

impl StickyState {
    /// The memory of the attempt after the flags have been settled on
    /// `vars`: a new time loop is counted if the menu was left.
    pub open spec fn after_decision(self, vars: Variables) -> StickyState {
        if vars.leaves_menu() {
            StickyState { loop_counter: (self.loop_counter + 1) as u32, ..self }
        } else {
            self
        }
    }
}

/// What one run of the split rules comes to.
pub struct Evaluation {
    /// The rule that asks for a split, if one does.
    pub fired: Option<Rule>,
    /// The memory of the attempt after the run.
    pub sticky: StickyState,
}

/// Every monitored value as sampled on this tick and the one before, with
/// the two latched flags as they stand after this tick's decision.
#[derive(Clone, Copy, Debug)]
pub struct Variables {
    pub pauses: Pair<[u8; 7]>,
    pub campfire_sleep: Pair<u8>,
    pub exiting_dream: Pair<u8>,
    pub scene: Pair<i32>,
    pub scene_current: Pair<i32>,
    pub fade_type: Pair<i32>,
    pub allow_async: Pair<u8>,
    pub death_type: Pair<i32>,
    pub is_reality_shatter_effect_complete: Pair<u8>,
    pub is_dying: Pair<u8>,
    pub is_wearing_suit: Pair<u8>,
    pub in_warp_field: Pair<u8>,
    pub held_item: Pair<i32>,
    pub prompt_item: Pair<i32>,
    pub in_bramble_dimension: Pair<u8>,
    pub in_vessel_dimension: Pair<u8>,
    pub in_quantum_moon: Pair<u8>,
    pub eye_initialized: Pair<u8>,
    pub eye_state: Pair<u8>,
    pub load: bool,
    pub menu: bool,
}

impl Variables {
    /// A scene pattern matches: the scene being loaded went from
    /// `loading_scene_old` to `loading_scene_current`, the scene that is
    /// showing is `current_scene` (or the pattern takes any), the fade is of
    /// kind `fade_type`, and the transition is asynchronous exactly if
    /// `async_transition` says so.
    pub open spec fn transition(
        self,
        loading_scene_old: i32,
        loading_scene_current: i32,
        current_scene: i32,
        fade_type: i32,
        async_transition: bool,
    ) -> bool {
        &&& self.scene.old == loading_scene_old
        &&& self.scene.current == loading_scene_current
        &&& (current_scene == self.scene_current.current || current_scene == ANY_SCENE)
        &&& self.fade_type.current == fade_type
        &&& (self.allow_async.current != 0) == async_transition
    }

    /// The pause flag at `index` has just been cleared.
    pub open spec fn pause_lifted(self, index: int) -> bool {
        self.pauses.rises(|flags: [u8; 7]| flags[index] == 0)
    }

    /// The values of a tick on which nothing has been read before: every
    /// value is the zero of its type and was so the tick before, and both
    /// flags are down.
    pub open spec fn blank() -> Variables {
        Variables {
            pauses: Pair { old: <[u8; 7]>::zero_value(), current: <[u8; 7]>::zero_value() },
            campfire_sleep: Pair { old: <u8>::zero_value(), current: <u8>::zero_value() },
            exiting_dream: Pair { old: <u8>::zero_value(), current: <u8>::zero_value() },
            scene: Pair { old: <i32>::zero_value(), current: <i32>::zero_value() },
            scene_current: Pair { old: <i32>::zero_value(), current: <i32>::zero_value() },
            fade_type: Pair { old: <i32>::zero_value(), current: <i32>::zero_value() },
            allow_async: Pair { old: <u8>::zero_value(), current: <u8>::zero_value() },
            death_type: Pair { old: <i32>::zero_value(), current: <i32>::zero_value() },
            is_reality_shatter_effect_complete: Pair { old: <u8>::zero_value(), current: <u8>::zero_value() },
            is_dying: Pair { old: <u8>::zero_value(), current: <u8>::zero_value() },
            is_wearing_suit: Pair { old: <u8>::zero_value(), current: <u8>::zero_value() },
            in_warp_field: Pair { old: <u8>::zero_value(), current: <u8>::zero_value() },
            held_item: Pair { old: <i32>::zero_value(), current: <i32>::zero_value() },
            prompt_item: Pair { old: <i32>::zero_value(), current: <i32>::zero_value() },
            in_bramble_dimension: Pair { old: <u8>::zero_value(), current: <u8>::zero_value() },
            in_vessel_dimension: Pair { old: <u8>::zero_value(), current: <u8>::zero_value() },
            in_quantum_moon: Pair { old: <u8>::zero_value(), current: <u8>::zero_value() },
            eye_initialized: Pair { old: <u8>::zero_value(), current: <u8>::zero_value() },
            eye_state: Pair { old: <u8>::zero_value(), current: <u8>::zero_value() },
            load: false,
            menu: false,
        }
    }

    /// Gameplay has come back: the pause flag at index 4 has just been
    /// cleared.
    pub open spec fn resumes(self) -> bool {
        self.pause_lifted(4)
    }

    /// The menu comes up: nothing has decided the tick before, the menu is
    /// not up yet, and the scene pattern of the way into it matches.
    pub open spec fn enters_menu(self) -> bool {
        !self.resumes() && !self.menu && self.transition(0, 1, ANY_SCENE, 1, true)
    }

    /// The menu is left, which starts a time loop: nothing has decided the
    /// tick before, the menu is up, and either the pause flag at index 3 has
    /// just been cleared or the scene pattern of the way out of it matches.
    pub open spec fn leaves_menu(self) -> bool {
        !self.resumes() && self.menu && (self.pause_lifted(3) || self.transition(3, 0, 3, 1, true))
    }

    /// The flags after this tick's decision. The conditions are tried in
    /// this order and the first that holds decides alone: gameplay has come
    /// back, so no load is under way; the menu comes up; the menu is left;
    /// a load begins unless the menu is up; a load begins.
    pub open spec fn settled(self) -> Variables {
        if self.resumes() {
            Variables { load: false, ..self }
        } else if self.enters_menu() {
            Variables { menu: true, ..self }
        } else if self.leaves_menu() {
            Variables { menu: false, ..self }
        } else if self.transition(2, 0, 2, 0, true) || self.transition(0, 3, 2, 2, false) {
            Variables { load: !self.menu, ..self }
        } else if self.transition(0, 2, 1, 1, false) || self.transition(0, 3, 1, 1, true) {
            Variables { load: true, ..self }
        } else {
            self
        }
    }

    /// What the samples must show for `rule` to fire, whatever the settings
    /// and the memory of the attempt say.
    pub open spec fn cue(self, rule: Rule) -> bool {
        match rule {
            Rule::MenuSplit => self.transition(0, 1, ANY_SCENE, 1, true),
            Rule::BigBang => self.death_type.turned(6),
            Rule::Dst => self.is_reality_shatter_effect_complete.left(0),
            Rule::DeathHp => self.is_dying.left(0) && self.death_type.current == 0,
            Rule::DeathImpact => self.death_type.turned(1),
            Rule::DeathOxygen => self.death_type.turned(2),
            Rule::DeathSun => self.death_type.turned(3),
            Rule::DeathSupernova => self.death_type.turned(4),
            Rule::DeathFish => self.death_type.turned(5),
            Rule::DeathCrushed => self.death_type.turned(7),
            Rule::DeathMeditation => self.death_type.turned(8),
            Rule::DeathTimeLoop => self.death_type.turned(9),
            Rule::DeathLava => self.death_type.turned(10),
            Rule::DeathBlackHole => self.death_type.turned(11),
            Rule::DeathDream => self.death_type.turned(12),
            Rule::DeathDreamExplosion => self.death_type.turned(13),
            Rule::DeathElevator => self.death_type.turned(14),
            Rule::Sleep => self.campfire_sleep.left(0),
            Rule::WearSuit => self.is_wearing_suit.left(0),
            Rule::FirstWarp => self.in_warp_field.left(0),
            Rule::WarpCore => {
                &&& self.held_item.current == 2
                &&& {
                    ||| self.prompt_item.old == 3 && self.prompt_item.current > 3
                    ||| self.prompt_item.old < 4 && self.prompt_item.current == 4
                }
            },
            Rule::ExitWarp => self.in_warp_field.turned(0),
            Rule::DarkBramble => self.in_bramble_dimension.left(0),
            Rule::DarkBrambleVessel => self.in_vessel_dimension.left(0),
            Rule::QuantumMoonIn => self.in_quantum_moon.left(0),
            Rule::VesselWarp => self.eye_initialized.left(0),
            Rule::EyeSurface => self.eye_state.turned(10),
            Rule::EyeTunnel => self.eye_state.turned(20),
            Rule::EyeObservatory => self.eye_state.turned(40),
            Rule::EyeMap => self.eye_state.turned(50),
            Rule::EyeInstruments => self.eye_state.turned(80),
        }
    }

    /// `rule` fires: it is switched on, the samples give its cue, and the
    /// memory of the attempt admits it.
    pub open spec fn fires(self, rule: Rule, settings: Settings, sticky: StickyState) -> bool {
        rule.enabled(settings) && sticky.admits(rule) && self.cue(rule)
    }

    /// The first rule of `rules` that fires.
    pub open spec fn first_to_fire(
        self,
        rules: Seq<Rule>,
        settings: Settings,
        sticky: StickyState,
    ) -> Option<Rule>
        decreases rules.len(),
    {
        if rules.len() == 0 {
            None
        } else if self.fires(rules[0], settings, sticky) {
            Some(rules[0])
        } else {
            self.first_to_fire(rules.drop_first(), settings, sticky)
        }
    }

    /// The player has just entered the warp field with the warp core still
    /// to be picked up.
    pub open spec fn enters_warp(self, sticky: StickyState) -> bool {
        self.cue(Rule::FirstWarp) && !sticky.warp_core
    }

    /// A step of the warp sequence is taken: the samples give its cue and
    /// the memory of the attempt admits it, whatever its switch says.
    pub open spec fn takes(self, rule: Rule, sticky: StickyState) -> bool {
        self.cue(rule) && sticky.admits(rule)
    }

    /// The memory of the attempt once a followed step has had its turn: the
    /// step is marked if it is taken.
    pub open spec fn following(self, rule: Rule, sticky: StickyState) -> StickyState {
        if self.takes(rule, sticky) {
            sticky.marked(rule)
        } else {
            sticky
        }
    }

    /// The memory of the attempt as the last rules of a run find it: with the
    /// entry into the warp field on record, and the two followed steps marked
    /// as far as they are taken.
    pub open spec fn followed_up(self, sticky: StickyState) -> StickyState {
        let recorded = if self.enters_warp(sticky) {
            sticky.entered()
        } else {
            sticky
        };
        self.following(Rule::WarpCore, self.following(Rule::FirstWarp, recorded))
    }

    /// One run of the rules. It ends at the first rule that fires, which
    /// splits and is marked; if none fires there is no split.
    ///
    /// The rules before the warp field come first. Then an entry into the
    /// warp field puts the running loop on record. Then the two followed
    /// steps of the warp sequence, the first entry and the pick-up of the
    /// warp core, have their turn one after the other: a step that is taken
    /// is marked, and it ends the run with a split only if its switch is on.
    /// The remaining rules come last. Each rule is consulted against the
    /// memory as the turns before it have left it.
    pub open spec fn evaluate(self, settings: Settings, sticky: StickyState) -> Evaluation {
        match self.first_to_fire(Rule::before_warp(), settings, sticky) {
            Some(rule) => Evaluation { fired: Some(rule), sticky: sticky.marked(rule) },
            None => {
                let recorded = if self.enters_warp(sticky) {
                    sticky.entered()
                } else {
                    sticky
                };
                let entered = self.following(Rule::FirstWarp, recorded);
                if self.fires(Rule::FirstWarp, settings, recorded) {
                    Evaluation { fired: Some(Rule::FirstWarp), sticky: entered }
                } else {
                    let picked = self.following(Rule::WarpCore, entered);
                    if self.fires(Rule::WarpCore, settings, entered) {
                        Evaluation { fired: Some(Rule::WarpCore), sticky: picked }
                    } else {
                        match self.first_to_fire(Rule::after_warp(), settings, picked) {
                            Some(rule) => Evaluation {
                                fired: Some(rule),
                                sticky: picked.marked(rule),
                            },
                            None => Evaluation { fired: None, sticky: picked },
                        }
                    }
                }
            },
        }
    }

    /// Game time stands still: a load is under way, the menu is up, or the
    /// player sleeps at a campfire without being on the way out of a dream.
    pub open spec fn is_loading(self) -> bool {
        self.load || self.menu || (self.campfire_sleep.current != 0 && self.exiting_dream.current
            == 0)
    }

    /// A run begins: the pause flag at index 3 has just been cleared, or the
    /// scene pattern of a fresh start matches.
    pub open spec fn is_starting(self) -> bool {
        self.pause_lifted(3) || self.transition(0, 3, 1, 1, true)
    }

    /// Tells whether the decision on these values leaves the menu.
    pub fn leaving_menu(&self) -> (r: bool)
        ensures
            r == self.leaves_menu(),
    {
        !self.pauses.check(|t: &[u8; 7]| -> (b: bool)
            ensures b == (t[4] == 0),
            { t[4] == 0 }) && self.menu && (self.pauses.check(|t: &[u8; 7]| -> (b: bool)
            ensures b == (t[3] == 0),
            { t[3] == 0 }) || self.load_compare(3, 0, 3, 1, true))
    }

    pub fn loading(&self) -> (r: bool)
        ensures
            r == self.is_loading(),
            self.menu ==> r,
    {
        self.load || self.menu || (self.campfire_sleep.current != 0 && self.exiting_dream.current
            == 0)
    }

    pub fn starting(&self) -> (r: bool)
        ensures
            r == self.is_starting(),
    {
        self.pauses.check(|t: &[u8; 7]| -> (b: bool)
            ensures b == (t[3] == 0),
            { t[3] == 0 })
            || self.load_compare(0, 3, 1, 1, true)
    }

    pub fn load_compare(
        &self,
        loading_scene_old: i32,
        loading_scene_current: i32,
        current_scene: i32,
        fade_type: i32,
        async_transition: bool,
    ) -> (r: bool)
        ensures
            r == self.transition(
                loading_scene_old,
                loading_scene_current,
                current_scene,
                fade_type,
                async_transition,
            ),
    {
        if loading_scene_old == self.scene.old && loading_scene_current == self.scene.current {
            return (current_scene == self.scene_current.current || current_scene == ANY_SCENE)
                && fade_type == self.fade_type.current && async_transition == (
            self.allow_async.current != 0);
        }
        false
    }

    /// Tells whether the samples give the cue of `rule`.
    pub fn has_cue(&self, rule: Rule) -> (r: bool)
        ensures
            r == self.cue(rule),
    {
        match rule {
            Rule::MenuSplit => self.load_compare(0, 1, ANY_SCENE, 1, true),
            Rule::BigBang => self.death_type.check(|t: &i32| -> (b: bool)
                ensures b == (*t == 6),
                { *t == 6 }),
            Rule::Dst => self.is_reality_shatter_effect_complete.check(|t: &u8| -> (b: bool)
                ensures b == (*t != 0),
                { *t != 0 }),
            Rule::DeathHp => self.is_dying.check(|t: &u8| -> (b: bool)
                ensures b == (*t != 0),
                { *t != 0 }) && self.death_type.current == 0,
            Rule::DeathImpact => self.death_type.check(|t: &i32| -> (b: bool)
                ensures b == (*t == 1),
                { *t == 1 }),
            Rule::DeathOxygen => self.death_type.check(|t: &i32| -> (b: bool)
                ensures b == (*t == 2),
                { *t == 2 }),
            Rule::DeathSun => self.death_type.check(|t: &i32| -> (b: bool)
                ensures b == (*t == 3),
                { *t == 3 }),
            Rule::DeathSupernova => self.death_type.check(|t: &i32| -> (b: bool)
                ensures b == (*t == 4),
                { *t == 4 }),
            Rule::DeathFish => self.death_type.check(|t: &i32| -> (b: bool)
                ensures b == (*t == 5),
                { *t == 5 }),
            Rule::DeathCrushed => self.death_type.check(|t: &i32| -> (b: bool)
                ensures b == (*t == 7),
                { *t == 7 }),
            Rule::DeathMeditation => self.death_type.check(|t: &i32| -> (b: bool)
                ensures b == (*t == 8),
                { *t == 8 }),
            Rule::DeathTimeLoop => self.death_type.check(|t: &i32| -> (b: bool)
                ensures b == (*t == 9),
                { *t == 9 }),
            Rule::DeathLava => self.death_type.check(|t: &i32| -> (b: bool)
                ensures b == (*t == 10),
                { *t == 10 }),
            Rule::DeathBlackHole => self.death_type.check(|t: &i32| -> (b: bool)
                ensures b == (*t == 11),
                { *t == 11 }),
            Rule::DeathDream => self.death_type.check(|t: &i32| -> (b: bool)
                ensures b == (*t == 12),
                { *t == 12 }),
            Rule::DeathDreamExplosion => self.death_type.check(|t: &i32| -> (b: bool)
                ensures b == (*t == 13),
                { *t == 13 }),
            Rule::DeathElevator => self.death_type.check(|t: &i32| -> (b: bool)
                ensures b == (*t == 14),
                { *t == 14 }),
            Rule::Sleep => self.campfire_sleep.check(|t: &u8| -> (b: bool)
                ensures b == (*t != 0),
                { *t != 0 }),
            Rule::WearSuit => self.is_wearing_suit.check(|t: &u8| -> (b: bool)
                ensures b == (*t != 0),
                { *t != 0 }),
            Rule::FirstWarp => self.in_warp_field.check(|t: &u8| -> (b: bool)
                ensures b == (*t != 0),
                { *t != 0 }),
            Rule::WarpCore => (self.held_item.current == 2 && self.prompt_item.old == 3
                && self.prompt_item.current > 3) || (self.held_item.current == 2
                && self.prompt_item.old < 4 && self.prompt_item.current == 4),
            Rule::ExitWarp => self.in_warp_field.check(|t: &u8| -> (b: bool)
                ensures b == (*t == 0),
                { *t == 0 }),
            Rule::DarkBramble => self.in_bramble_dimension.check(|t: &u8| -> (b: bool)
                ensures b == (*t != 0),
                { *t != 0 }),
            Rule::DarkBrambleVessel => self.in_vessel_dimension.check(|t: &u8| -> (b: bool)
                ensures b == (*t != 0),
                { *t != 0 }),
            Rule::QuantumMoonIn => self.in_quantum_moon.check(|t: &u8| -> (b: bool)
                ensures b == (*t != 0),
                { *t != 0 }),
            Rule::VesselWarp => self.eye_initialized.check(|t: &u8| -> (b: bool)
                ensures b == (*t != 0),
                { *t != 0 }),
            Rule::EyeSurface => self.eye_state.check(|t: &u8| -> (b: bool)
                ensures b == (*t == 10),
                { *t == 10 }),
            Rule::EyeTunnel => self.eye_state.check(|t: &u8| -> (b: bool)
                ensures b == (*t == 20),
                { *t == 20 }),
            Rule::EyeObservatory => self.eye_state.check(|t: &u8| -> (b: bool)
                ensures b == (*t == 40),
                { *t == 40 }),
            Rule::EyeMap => self.eye_state.check(|t: &u8| -> (b: bool)
                ensures b == (*t == 50),
                { *t == 50 }),
            Rule::EyeInstruments => self.eye_state.check(|t: &u8| -> (b: bool)
                ensures b == (*t == 80),
                { *t == 80 }),
        }
    }

    /// Finds the first rule of `rules` that fires.
    fn first_rule(&self, rules: &[Rule], settings: &Settings, sticky: &StickyState) -> (found:
        Option<Rule>)
        ensures
            found == self.first_to_fire(rules@, *settings, *sticky),
    {
        let mut i: usize = 0;
        assert(rules@.subrange(0, rules@.len() as int) == rules@);
        while i < rules.len()
            invariant
                i <= rules.len(),
                self.first_to_fire(rules@, *settings, *sticky) == self.first_to_fire(
                    rules@.subrange(i as int, rules@.len() as int),
                    *settings,
                    *sticky,
                ),
            decreases rules.len() - i,
        {
            let rule = rules[i];
            let ghost rest = rules@.subrange(i as int, rules@.len() as int);
            assert(rest.drop_first() == rules@.subrange(i + 1, rules@.len() as int));
            if rule.is_enabled(*settings) && sticky.is_admitted(rule) && self.has_cue(rule) {
                return Some(rule);
            }
            i += 1;
        }
        None
    }

    /// Gives a followed step of the warp sequence its turn: marks it if it is
    /// taken, and tells whether it splits.
    fn follow(&self, rule: Rule, settings: &Settings, sticky: &mut StickyState) -> (fired: bool)
        ensures
            fired == self.fires(rule, *settings, *old(sticky)),
            *final(sticky) == self.following(rule, *old(sticky)),
    {
        if sticky.is_admitted(rule) && self.has_cue(rule) {
            sticky.mark(rule);
            rule.is_enabled(*settings)
        } else {
            false
        }
    }

    /// Runs the split rules for this tick: tells whether the timer is to
    /// split, and leaves in `sticky` what the attempt has to remember.
    pub fn split(&self, settings: &Settings, sticky: &mut StickyState) -> (fired: bool)
        ensures
            fired == self.evaluate(*settings, *old(sticky)).fired.is_some(),
            *final(sticky) == self.evaluate(*settings, *old(sticky)).sticky,
    {
        let before = Rule::list_before_warp();
        if let Some(rule) = self.first_rule(before.as_slice(), settings, sticky) {
            sticky.mark(rule);
            return true;
        }
        if self.has_cue(Rule::FirstWarp) && !sticky.warp_core {
            sticky.warp_core_loop = Some(sticky.loop_counter);
        }
        if self.follow(Rule::FirstWarp, settings, sticky) {
            return true;
        }
        if self.follow(Rule::WarpCore, settings, sticky) {
            return true;
        }
        let after = Rule::list_after_warp();
        if let Some(rule) = self.first_rule(after.as_slice(), settings, sticky) {
            sticky.mark(rule);
            return true;
        }
        false
    }

    /// The timer goes back to zero: the menu is up and the player has asked
    /// for that.
    pub fn resetting(&self, settings: &Settings) -> (r: bool)
        ensures
            r == (self.menu && settings.menu_reset),
    {
        self.menu && settings.menu_reset
    }
}


/// What `first_to_fire` finds is one of `rules` and fires; where it finds
/// nothing, no rule of `rules` fires.
pub proof fn lemma_first_to_fire(
    vars: Variables,
    rules: Seq<Rule>,
    settings: Settings,
    sticky: StickyState,
)
    ensures
        match vars.first_to_fire(rules, settings, sticky) {
            Some(rule) => rules.contains(rule) && vars.fires(rule, settings, sticky),
            None => forall|i: int|
                0 <= i < rules.len() ==> !vars.fires(#[trigger] rules[i], settings, sticky),
        },
    decreases rules.len(),
{
    if rules.len() > 0 && !vars.fires(rules[0], settings, sticky) {
        let rest = rules.drop_first();
        lemma_first_to_fire(vars, rest, settings, sticky);
        if vars.first_to_fire(rest, settings, sticky) is None {
            assert forall|i: int| 0 <= i < rules.len() implies !vars.fires(
                #[trigger] rules[i],
                settings,
                sticky,
            ) by {
                if i > 0 {
                    assert(rest[i - 1] == rules[i]);
                }
            }
        }
    }
}

/// A rule splits only if it is switched on, the samples give its cue, and it
/// is not spent.
pub proof fn law_fired_rule_was_due(vars: Variables, settings: Settings, sticky: StickyState)
    ensures
        match vars.evaluate(settings, sticky).fired {
            Some(rule) => rule.enabled(settings) && vars.cue(rule) && !sticky.spent(rule),
            None => true,
        },
{
    lemma_first_to_fire(vars, Rule::before_warp(), settings, sticky);
    lemma_first_to_fire(vars, Rule::after_warp(), settings, vars.followed_up(sticky));
}

/// With every switch off nothing splits, whatever the samples show and
/// whatever the attempt remembers.
pub proof fn law_nothing_splits_with_every_switch_off(vars: Variables, sticky: StickyState)
    ensures
        vars.evaluate(Settings::all_off(), sticky).fired is None,
{
    law_fired_rule_was_due(vars, Settings::all_off(), sticky);
}

/// Marking `fired` spends it if it is one-shot, keeps `other` spent if it
/// was, and leaves the loop count alone.
proof fn lemma_marked(sticky: StickyState, fired: Rule, other: Rule)
    ensures
        sticky.spent(other) ==> sticky.marked(fired).spent(other),
        fired.one_shot() ==> sticky.marked(fired).spent(fired),
        sticky.marked(fired).loop_counter == sticky.loop_counter,
{
}

/// The turns of the warp field and of the two followed steps keep `other`
/// spent if it was, and leave the loop count alone.
pub proof fn lemma_followed_up(vars: Variables, sticky: StickyState, other: Rule)
    ensures
        sticky.spent(other) ==> vars.followed_up(sticky).spent(other),
        vars.followed_up(sticky).loop_counter == sticky.loop_counter,
        vars.takes(Rule::FirstWarp, sticky) ==> vars.followed_up(sticky).spent(Rule::FirstWarp),
        vars.takes(Rule::WarpCore, sticky) ==> vars.followed_up(sticky).spent(Rule::WarpCore),
{
    let recorded = if vars.enters_warp(sticky) {
        sticky.entered()
    } else {
        sticky
    };
    let entered = vars.following(Rule::FirstWarp, recorded);
    lemma_marked(recorded, Rule::FirstWarp, other);
    lemma_marked(entered, Rule::WarpCore, other);
    lemma_marked(entered, Rule::WarpCore, Rule::FirstWarp);
}

/// A run of the rules only ever adds to the memory of the attempt: what is
/// spent stays spent, the rule that fired is spent if it is one-shot, and
/// the loop count is left alone.
pub proof fn law_marks_accumulate(
    vars: Variables,
    settings: Settings,
    sticky: StickyState,
    rule: Rule,
)
    ensures
        sticky.spent(rule) ==> vars.evaluate(settings, sticky).sticky.spent(rule),
        vars.evaluate(settings, sticky).fired == Some(rule) && rule.one_shot()
            ==> vars.evaluate(settings, sticky).sticky.spent(rule),
        vars.evaluate(settings, sticky).sticky.loop_counter == sticky.loop_counter,
{
    let recorded = if vars.enters_warp(sticky) {
        sticky.entered()
    } else {
        sticky
    };
    let entered = vars.following(Rule::FirstWarp, recorded);
    let picked = vars.followed_up(sticky);
    match vars.first_to_fire(Rule::before_warp(), settings, sticky) {
        Some(first) => {
            lemma_marked(sticky, first, rule);
        },
        None => {
            lemma_marked(recorded, Rule::FirstWarp, rule);
            lemma_marked(entered, Rule::WarpCore, rule);
            match vars.first_to_fire(Rule::after_warp(), settings, picked) {
                Some(first) => {
                    lemma_marked(picked, first, rule);
                },
                None => {},
            }
        },
    }
}

/// A run spends no rule in silence but a followed step of the warp
/// sequence: a rule that is spent after the run and was not before is the
/// rule that fired, or a followed step that was taken.
pub proof fn law_only_followed_steps_are_marked_in_silence(
    vars: Variables,
    settings: Settings,
    sticky: StickyState,
    rule: Rule,
)
    requires
        !sticky.spent(rule),
        vars.evaluate(settings, sticky).sticky.spent(rule),
    ensures
        vars.evaluate(settings, sticky).fired == Some(rule) || (rule.followed() && vars.cue(rule)),
{
    let recorded = if vars.enters_warp(sticky) {
        sticky.entered()
    } else {
        sticky
    };
    let entered = vars.following(Rule::FirstWarp, recorded);
    let picked = vars.followed_up(sticky);
    lemma_first_to_fire(vars, Rule::before_warp(), settings, sticky);
    lemma_first_to_fire(vars, Rule::after_warp(), settings, picked);
    match vars.first_to_fire(Rule::before_warp(), settings, sticky) {
        Some(first) => {
            lemma_mark_spends_one(sticky, first, rule);
        },
        None => {
            lemma_mark_spends_one(recorded, Rule::FirstWarp, rule);
            lemma_mark_spends_one(entered, Rule::WarpCore, rule);
            match vars.first_to_fire(Rule::after_warp(), settings, picked) {
                Some(first) => {
                    lemma_mark_spends_one(picked, first, rule);
                },
                None => {},
            }
        },
    }
}

/// Marking a rule spends no other rule.
proof fn lemma_mark_spends_one(sticky: StickyState, fired: Rule, other: Rule)
    ensures
        sticky.marked(fired).spent(other) && !sticky.spent(other) ==> other == fired,
{
}

/// The last step of the warp sequence splits only in the loop in which the
/// warp field was entered, and only with the warp core picked up, be it on
/// this very tick: once the loop count has moved on from the loop on
/// record, leaving the warp field no longer splits.
pub proof fn law_exit_warp_needs_its_loop(
    vars: Variables,
    settings: Settings,
    sticky: StickyState,
)
    ensures
        vars.evaluate(settings, sticky).fired == Some(Rule::ExitWarp) ==> {
            &&& sticky.warp_core_loop == Some(sticky.loop_counter)
            &&& sticky.warp_core || vars.takes(Rule::WarpCore, sticky)
        },
{
    lemma_first_to_fire(vars, Rule::before_warp(), settings, sticky);
    lemma_first_to_fire(vars, Rule::after_warp(), settings, vars.followed_up(sticky));
}

/// One evaluation within an attempt: the samples and settings of a tick, and
/// the loop count that the tick's decision left behind.
pub struct Moment {
    pub vars: Variables,
    pub settings: Settings,
    pub loop_counter: u32,
}

/// How often `rule` splits over the run of `moments`, starting from the
/// memory `sticky` and with no reset in between.
pub open spec fn firings(rule: Rule, sticky: StickyState, moments: Seq<Moment>) -> nat
    decreases moments.len(),
{
    if moments.len() == 0 {
        0
    } else {
        let now = moments[0];
        let run = now.vars.evaluate(
            now.settings,
            StickyState { loop_counter: now.loop_counter, ..sticky },
        );
        let here: nat = if run.fired == Some(rule) {
            1
        } else {
            0
        };
        here + firings(rule, run.sticky, moments.drop_first())
    }
}

/// A one-shot rule splits at most once in an attempt, however long its cue
/// lasts and however often it comes back; once spent it does not split
/// again.
pub proof fn law_one_shot_fires_once(rule: Rule, sticky: StickyState, moments: Seq<Moment>)
    requires
        rule.one_shot(),
    ensures
        firings(rule, sticky, moments) <= 1,
        sticky.spent(rule) ==> firings(rule, sticky, moments) == 0,
    decreases moments.len(),
{
    if moments.len() > 0 {
        let now = moments[0];
        let start = StickyState { loop_counter: now.loop_counter, ..sticky };
        let run = now.vars.evaluate(now.settings, start);
        law_fired_rule_was_due(now.vars, now.settings, start);
        law_marks_accumulate(now.vars, now.settings, start, rule);
        law_one_shot_fires_once(rule, run.sticky, moments.drop_first());
    }
}

/// The first tick of a snapshot only sets it going: whatever is read, every
/// value is paired as zero with zero, so that the decision leaves the flags
/// down, no loop is counted, and no rule has its cue.
pub proof fn law_first_tick_is_blank(chains: Seq<AddressChain>, samples: Samples, rule: Rule)
    ensures
        State::fresh(chains).sampled(samples) == Variables::blank(),
        Variables::blank().settled() == Variables::blank(),
        !Variables::blank().leaves_menu(),
        !Variables::blank().cue(rule),
{
}

/// A flag that read zero on the last tick and reads anything else on this
/// one gives the cue of its one-shot rule.
pub proof fn law_raised_flag_gives_the_cue(state: State, samples: Samples)
    ensures
        state.campfire_sleep.var.last() == Some(0u8) && samples.campfire_sleep is Some
            && samples.campfire_sleep != Some(0u8) ==> state.sampled(samples).cue(Rule::Sleep),
        state.is_wearing_suit.var.last() == Some(0u8) && samples.is_wearing_suit is Some
            && samples.is_wearing_suit != Some(0u8) ==> state.sampled(samples).cue(
            Rule::WearSuit,
        ),
        state.in_bramble_dimension.var.last() == Some(0u8) && samples.in_bramble_dimension
            is Some && samples.in_bramble_dimension != Some(0u8) ==> state.sampled(samples).cue(
            Rule::DarkBramble,
        ),
        state.in_vessel_dimension.var.last() == Some(0u8) && samples.in_vessel_dimension is Some
            && samples.in_vessel_dimension != Some(0u8) ==> state.sampled(samples).cue(
            Rule::DarkBrambleVessel,
        ),
        state.in_quantum_moon.var.last() == Some(0u8) && samples.in_quantum_moon is Some
            && samples.in_quantum_moon != Some(0u8) ==> state.sampled(samples).cue(
            Rule::QuantumMoonIn,
        ),
        state.eye_initialized.var.last() == Some(0u8) && samples.eye_initialized is Some
            && samples.eye_initialized != Some(0u8) ==> state.sampled(samples).cue(
            Rule::VesselWarp,
        ),
{
}

/// An abandoned warp sequence stays abandoned: with the warp core picked up
/// in a loop that is over, leaving the warp field never splits again in the
/// attempt, whatever the samples show, as long as that loop does not come
/// back.
pub proof fn law_abandoned_warp_never_splits(sticky: StickyState, moments: Seq<Moment>)
    requires
        sticky.warp_core,
        forall|i: int|
            0 <= i < moments.len() ==> sticky.warp_core_loop != Some(
                (#[trigger] moments[i]).loop_counter,
            ),
    ensures
        firings(Rule::ExitWarp, sticky, moments) == 0,
    decreases moments.len(),
{
    if moments.len() > 0 {
        let now = moments[0];
        let start = StickyState { loop_counter: now.loop_counter, ..sticky };
        let run = now.vars.evaluate(now.settings, start);
        law_exit_warp_needs_its_loop(now.vars, now.settings, start);
        law_marks_accumulate(now.vars, now.settings, start, Rule::WarpCore);
        lemma_record_is_kept(now.vars, now.settings, start);
        law_abandoned_warp_never_splits(run.sticky, moments.drop_first());
    }
}

/// With the warp core picked up, the loop on record is not written again.
proof fn lemma_record_is_kept(vars: Variables, settings: Settings, sticky: StickyState)
    requires
        sticky.warp_core,
    ensures
        vars.evaluate(settings, sticky).sticky.warp_core_loop == sticky.warp_core_loop,
{
    match vars.first_to_fire(Rule::before_warp(), settings, sticky) {
        Some(first) => {
            lemma_marked_keeps_record(sticky, first);
        },
        None => {
            match vars.first_to_fire(Rule::after_warp(), settings, sticky) {
                Some(first) => {
                    lemma_marked_keeps_record(sticky, first);
                },
                None => {},
            }
        },
    }
}

/// Marking a rule does not write the loop on record.
proof fn lemma_marked_keeps_record(sticky: StickyState, fired: Rule)
    ensures
        sticky.marked(fired).warp_core_loop == sticky.warp_core_loop,
{
}

impl Samples {
    /// The two readings give the decision the same to go on: the same pause
    /// flags and the same four values of the scene transition.
    pub open spec fn decides_like(self, other: Samples) -> bool {
        &&& self.pauses == other.pauses
        &&& self.scene == other.scene
        &&& self.scene_current == other.scene_current
        &&& self.fade_type == other.fade_type
        &&& self.allow_async == other.allow_async
    }
}

/// The decision is reproducible: the flags and the count of time loops
/// follow from the flags before, from the pause flags and from the scene
/// transition as read tick by tick, and from nothing else. Two snapshots
/// that stand alike for the decision, fed readings that are alike for it,
/// go through the same flags and count the same loops.
pub proof fn law_flags_are_reproducible(
    one: State,
    other: State,
    samples: Seq<Samples>,
    others: Seq<Samples>,
)
    requires
        one.decides_like(other),
        samples.len() == others.len(),
        forall|i: int| 0 <= i < samples.len() ==> (#[trigger] samples[i]).decides_like(others[i]),
    ensures
        one.replay(samples) == other.replay(others),
        one.loops_counted(samples) == other.loops_counted(others),
    decreases samples.len(),
{
    if samples.len() > 0 {
        law_flags_are_reproducible(
            one.refreshed(samples[0]),
            other.refreshed(others[0]),
            samples.drop_first(),
            others.drop_first(),
        );
    }
}

/// While the menu is up, game time stands still.
pub proof fn law_menu_is_loading(vars: Variables)
    ensures
        vars.menu ==> vars.is_loading(),
{
}

} // verus!
