use crate::settings::{Settings, StickyState};
use vstd::prelude::*;

verus! {

/// The conditions that can ask the timer for a split.
#[derive(Clone, Copy, Debug, PartialEq, Eq, Structural)]
pub enum Rule {
    MenuSplit,
    BigBang,
    Dst,
    DeathHp,
    DeathImpact,
    DeathOxygen,
    DeathSun,
    DeathSupernova,
    DeathFish,
    DeathCrushed,
    DeathMeditation,
    DeathTimeLoop,
    DeathLava,
    DeathBlackHole,
    DeathDream,
    DeathDreamExplosion,
    DeathElevator,
    Sleep,
    WearSuit,
    FirstWarp,
    WarpCore,
    ExitWarp,
    DarkBramble,
    DarkBrambleVessel,
    QuantumMoonIn,
    VesselWarp,
    EyeSurface,
    EyeTunnel,
    EyeObservatory,
    EyeMap,
    EyeInstruments,
}

impl Rule {
    /// The rules consulted before the warp field is looked at, first to last.
    pub open spec fn before_warp() -> Seq<Rule> {
        seq![
            Rule::MenuSplit,
            Rule::BigBang,
            Rule::Dst,
            Rule::DeathHp,
            Rule::DeathImpact,
            Rule::DeathOxygen,
            Rule::DeathSun,
            Rule::DeathSupernova,
            Rule::DeathFish,
            Rule::DeathCrushed,
            Rule::DeathMeditation,
            Rule::DeathTimeLoop,
            Rule::DeathLava,
            Rule::DeathBlackHole,
            Rule::DeathDream,
            Rule::DeathDreamExplosion,
            Rule::DeathElevator,
            Rule::Sleep,
            Rule::WearSuit,
        ]
    }

    /// The rules consulted once the two followed steps of the warp sequence
    /// have been looked at, first to last.
    pub open spec fn after_warp() -> Seq<Rule> {
        seq![
            Rule::ExitWarp,
            Rule::DarkBramble,
            Rule::DarkBrambleVessel,
            Rule::QuantumMoonIn,
            Rule::VesselWarp,
            Rule::EyeSurface,
            Rule::EyeTunnel,
            Rule::EyeObservatory,
            Rule::EyeMap,
            Rule::EyeInstruments,
        ]
    }

    /// The rules of `before_warp`, to run through.
    pub fn list_before_warp() -> (rules: [Rule; 19])
        ensures
            rules@ == Rule::before_warp(),
    {
        let rules = [
            Rule::MenuSplit,
            Rule::BigBang,
            Rule::Dst,
            Rule::DeathHp,
            Rule::DeathImpact,
            Rule::DeathOxygen,
            Rule::DeathSun,
            Rule::DeathSupernova,
            Rule::DeathFish,
            Rule::DeathCrushed,
            Rule::DeathMeditation,
            Rule::DeathTimeLoop,
            Rule::DeathLava,
            Rule::DeathBlackHole,
            Rule::DeathDream,
            Rule::DeathDreamExplosion,
            Rule::DeathElevator,
            Rule::Sleep,
            Rule::WearSuit,
        ];
        rules
    }

    /// The rules of `after_warp`, to run through.
    pub fn list_after_warp() -> (rules: [Rule; 10])
        ensures
            rules@ == Rule::after_warp(),
    {
        let rules = [
            Rule::ExitWarp,
            Rule::DarkBramble,
            Rule::DarkBrambleVessel,
            Rule::QuantumMoonIn,
            Rule::VesselWarp,
            Rule::EyeSurface,
            Rule::EyeTunnel,
            Rule::EyeObservatory,
            Rule::EyeMap,
            Rule::EyeInstruments,
        ];
        rules
    }

    /// Whether the settings let this rule split: each rule has its own
    /// switch.
    pub open spec fn enabled(self, settings: Settings) -> bool {
        match self {
            Rule::MenuSplit => settings.menu_split,
            Rule::BigBang => settings.big_bang,
            Rule::Dst => settings.dst,
            Rule::DeathHp => settings.death_hp,
            Rule::DeathImpact => settings.death_impact,
            Rule::DeathOxygen => settings.death_oxygen,
            Rule::DeathSun => settings.death_sun,
            Rule::DeathSupernova => settings.death_supernova,
            Rule::DeathFish => settings.death_fish,
            Rule::DeathCrushed => settings.death_crushed,
            Rule::DeathMeditation => settings.death_meditation,
            Rule::DeathTimeLoop => settings.death_time_loop,
            Rule::DeathLava => settings.death_lava,
            Rule::DeathBlackHole => settings.death_black_hole,
            Rule::DeathDream => settings.death_dream,
            Rule::DeathDreamExplosion => settings.death_dream_explosion,
            Rule::DeathElevator => settings.death_elevator,
            Rule::Sleep => settings.sleep,
            Rule::WearSuit => settings.wear_suit,
            Rule::FirstWarp => settings.first_warp,
            Rule::WarpCore => settings.warp_core,
            Rule::ExitWarp => settings.exit_warp,
            Rule::DarkBramble => settings.dark_bramble,
            Rule::DarkBrambleVessel => settings.dark_bramble_vessel,
            Rule::QuantumMoonIn => settings.quantum_moon_in,
            Rule::VesselWarp => settings.vessel_warp,
            Rule::EyeSurface => settings.eye_surface,
            Rule::EyeTunnel => settings.eye_tunnel,
            Rule::EyeObservatory => settings.eye_observatory,
            Rule::EyeMap => settings.eye_map,
            Rule::EyeInstruments => settings.eye_instruments,
        }
    }

    /// Whether the rule is a step of the warp sequence that a later step
    /// builds on. Such a step is followed, and marked when it is taken, even
    /// while its switch is off; the switch decides only whether it splits.
    pub open spec fn followed(self) -> bool {
        self == Rule::FirstWarp || self == Rule::WarpCore
    }

    /// Whether the rule is a step of the warp sequence.
    pub open spec fn in_warp_sequence(self) -> bool {
        self == Rule::FirstWarp || self == Rule::WarpCore || self == Rule::ExitWarp
    }

    /// Whether the rule fires once per attempt only.
    pub open spec fn one_shot(self) -> bool {
        match self {
            Rule::Sleep
            | Rule::WearSuit
            | Rule::FirstWarp
            | Rule::WarpCore
            | Rule::ExitWarp
            | Rule::DarkBramble
            | Rule::DarkBrambleVessel
            | Rule::QuantumMoonIn
            | Rule::VesselWarp => true,
            _ => false,
        }
    }

    pub fn is_enabled(self, settings: Settings) -> (on: bool)
        ensures
            on == self.enabled(settings),
    {
        match self {
            Rule::MenuSplit => settings.menu_split,
            Rule::BigBang => settings.big_bang,
            Rule::Dst => settings.dst,
            Rule::DeathHp => settings.death_hp,
            Rule::DeathImpact => settings.death_impact,
            Rule::DeathOxygen => settings.death_oxygen,
            Rule::DeathSun => settings.death_sun,
            Rule::DeathSupernova => settings.death_supernova,
            Rule::DeathFish => settings.death_fish,
            Rule::DeathCrushed => settings.death_crushed,
            Rule::DeathMeditation => settings.death_meditation,
            Rule::DeathTimeLoop => settings.death_time_loop,
            Rule::DeathLava => settings.death_lava,
            Rule::DeathBlackHole => settings.death_black_hole,
            Rule::DeathDream => settings.death_dream,
            Rule::DeathDreamExplosion => settings.death_dream_explosion,
            Rule::DeathElevator => settings.death_elevator,
            Rule::Sleep => settings.sleep,
            Rule::WearSuit => settings.wear_suit,
            Rule::FirstWarp => settings.first_warp,
            Rule::WarpCore => settings.warp_core,
            Rule::ExitWarp => settings.exit_warp,
            Rule::DarkBramble => settings.dark_bramble,
            Rule::DarkBrambleVessel => settings.dark_bramble_vessel,
            Rule::QuantumMoonIn => settings.quantum_moon_in,
            Rule::VesselWarp => settings.vessel_warp,
            Rule::EyeSurface => settings.eye_surface,
            Rule::EyeTunnel => settings.eye_tunnel,
            Rule::EyeObservatory => settings.eye_observatory,
            Rule::EyeMap => settings.eye_map,
            Rule::EyeInstruments => settings.eye_instruments,
        }
    }
}

impl StickyState {
    /// Whether the rule has used up its one firing in this attempt. A rule
    /// that may fire again and again is never spent.
    pub open spec fn spent(self, rule: Rule) -> bool {
        match rule {
            Rule::Sleep => self.sleep,
            Rule::WearSuit => self.wear_suit,
            Rule::FirstWarp => self.first_warp,
            Rule::WarpCore => self.warp_core,
            Rule::ExitWarp => self.exit_warp,
            Rule::DarkBramble => self.dark_bramble,
            Rule::DarkBrambleVessel => self.dark_bramble_vessel,
            Rule::QuantumMoonIn => self.quantum_moon_in,
            Rule::VesselWarp => self.vessel_warp,
            _ => false,
        }
    }

    /// The warp field was last entered in the loop that is running now.
    pub open spec fn in_warp_loop(self) -> bool {
        self.warp_core_loop == Some(self.loop_counter)
    }

    /// Whether the memory of the attempt lets the rule fire: it is not spent,
    /// and each step of the warp sequence has its earlier steps behind it, in
    /// the loop that is running now.
    pub open spec fn admits(self, rule: Rule) -> bool {
        &&& !self.spent(rule)
        &&& match rule {
            Rule::FirstWarp => !self.warp_core,
            Rule::WarpCore => self.in_warp_loop(),
            Rule::ExitWarp => self.warp_core && self.in_warp_loop(),
            _ => true,
        }
    }

    /// The state after `rule` has fired: a one-shot rule is spent, nothing
    /// else changes.
    pub open spec fn marked(self, rule: Rule) -> StickyState {
        match rule {
            Rule::Sleep => StickyState { sleep: true, ..self },
            Rule::WearSuit => StickyState { wear_suit: true, ..self },
            Rule::FirstWarp => StickyState { first_warp: true, ..self },
            Rule::WarpCore => StickyState { warp_core: true, ..self },
            Rule::ExitWarp => StickyState { exit_warp: true, ..self },
            Rule::DarkBramble => StickyState { dark_bramble: true, ..self },
            Rule::DarkBrambleVessel => StickyState { dark_bramble_vessel: true, ..self },
            Rule::QuantumMoonIn => StickyState { quantum_moon_in: true, ..self },
            Rule::VesselWarp => StickyState { vessel_warp: true, ..self },
            _ => self,
        }
    }

    /// The state after the warp field has been entered: the loop that is
    /// running now goes on record.
    pub open spec fn entered(self) -> StickyState {
        StickyState { warp_core_loop: Some(self.loop_counter), ..self }
    }

    pub fn is_admitted(&self, rule: Rule) -> (ok: bool)
        ensures
            ok == self.admits(rule),
    {
        let in_loop = match self.warp_core_loop {
            Some(recorded) => recorded == self.loop_counter,
            None => false,
        };
        match rule {
            Rule::Sleep => !self.sleep,
            Rule::WearSuit => !self.wear_suit,
            Rule::FirstWarp => !self.first_warp && !self.warp_core,
            Rule::WarpCore => !self.warp_core && in_loop,
            Rule::ExitWarp => !self.exit_warp && self.warp_core && in_loop,
            Rule::DarkBramble => !self.dark_bramble,
            Rule::DarkBrambleVessel => !self.dark_bramble_vessel,
            Rule::QuantumMoonIn => !self.quantum_moon_in,
            Rule::VesselWarp => !self.vessel_warp,
            _ => true,
        }
    }

    /// Records that `rule` has fired.
    pub fn mark(&mut self, rule: Rule)
        ensures
            *final(self) == old(self).marked(rule),
    {
        match rule {
            Rule::Sleep => { self.sleep = true; },
            Rule::WearSuit => { self.wear_suit = true; },
            Rule::FirstWarp => { self.first_warp = true; },
            Rule::WarpCore => { self.warp_core = true; },
            Rule::ExitWarp => { self.exit_warp = true; },
            Rule::DarkBramble => { self.dark_bramble = true; },
            Rule::DarkBrambleVessel => { self.dark_bramble_vessel = true; },
            Rule::QuantumMoonIn => { self.quantum_moon_in = true; },
            Rule::VesselWarp => { self.vessel_warp = true; },
            _ => {},
        }
    }
}

} // verus!
