use outer_wilds_autosplitter::rules::Rule;
use outer_wilds_autosplitter::settings::{Settings, StickyState};

#[test]
fn the_rules_run_in_a_fixed_order() {
    assert_eq!(
        Rule::list_before_warp().to_vec(),
        vec![
            Rule::MenuSplit,
            Rule::BigBang,
            Rule::Dst,
            Rule::DeathHp,
            Rule::DeathImpact,
            Rule::DeathOxygen,
            Rule::DeathSun,
            Rule::DeathSupernova,
            Rule::DeathFish,
            Rule::DeathCrushed,
            Rule::DeathMeditation,
            Rule::DeathTimeLoop,
            Rule::DeathLava,
            Rule::DeathBlackHole,
            Rule::DeathDream,
            Rule::DeathDreamExplosion,
            Rule::DeathElevator,
            Rule::Sleep,
            Rule::WearSuit,
        ]
    );
    assert_eq!(
        Rule::list_after_warp().to_vec(),
        vec![
            Rule::ExitWarp,
            Rule::DarkBramble,
            Rule::DarkBrambleVessel,
            Rule::QuantumMoonIn,
            Rule::VesselWarp,
            Rule::EyeSurface,
            Rule::EyeTunnel,
            Rule::EyeObservatory,
            Rule::EyeMap,
            Rule::EyeInstruments,
        ]
    );
}

fn all_rules() -> Vec<Rule> {
    Rule::list_before_warp()
        .into_iter()
        .chain([Rule::FirstWarp, Rule::WarpCore])
        .chain(Rule::list_after_warp())
        .collect()
}

#[test]
fn no_rule_is_switched_on_by_default() {
    let rules = all_rules();
    assert_eq!(rules.len(), 31);
    for rule in rules {
        assert!(!rule.is_enabled(Settings::default()), "{:?}", rule);
    }
}

#[test]
fn every_rule_has_its_own_switch() {
    let switches: [(Rule, fn(&mut Settings)); 31] = [
        (Rule::MenuSplit, |s| s.menu_split = true),
        (Rule::BigBang, |s| s.big_bang = true),
        (Rule::Dst, |s| s.dst = true),
        (Rule::DeathHp, |s| s.death_hp = true),
        (Rule::DeathImpact, |s| s.death_impact = true),
        (Rule::DeathOxygen, |s| s.death_oxygen = true),
        (Rule::DeathSun, |s| s.death_sun = true),
        (Rule::DeathSupernova, |s| s.death_supernova = true),
        (Rule::DeathFish, |s| s.death_fish = true),
        (Rule::DeathCrushed, |s| s.death_crushed = true),
        (Rule::DeathMeditation, |s| s.death_meditation = true),
        (Rule::DeathTimeLoop, |s| s.death_time_loop = true),
        (Rule::DeathLava, |s| s.death_lava = true),
        (Rule::DeathBlackHole, |s| s.death_black_hole = true),
        (Rule::DeathDream, |s| s.death_dream = true),
        (Rule::DeathDreamExplosion, |s| s.death_dream_explosion = true),
        (Rule::DeathElevator, |s| s.death_elevator = true),
        (Rule::Sleep, |s| s.sleep = true),
        (Rule::WearSuit, |s| s.wear_suit = true),
        (Rule::FirstWarp, |s| s.first_warp = true),
        (Rule::WarpCore, |s| s.warp_core = true),
        (Rule::ExitWarp, |s| s.exit_warp = true),
        (Rule::DarkBramble, |s| s.dark_bramble = true),
        (Rule::DarkBrambleVessel, |s| s.dark_bramble_vessel = true),
        (Rule::QuantumMoonIn, |s| s.quantum_moon_in = true),
        (Rule::VesselWarp, |s| s.vessel_warp = true),
        (Rule::EyeSurface, |s| s.eye_surface = true),
        (Rule::EyeTunnel, |s| s.eye_tunnel = true),
        (Rule::EyeObservatory, |s| s.eye_observatory = true),
        (Rule::EyeMap, |s| s.eye_map = true),
        (Rule::EyeInstruments, |s| s.eye_instruments = true),
    ];
    for (rule, switch) in switches {
        let mut settings = Settings::default();
        switch(&mut settings);
        for other in all_rules() {
            assert_eq!(other.is_enabled(settings), other == rule, "{:?} {:?}", rule, other);
        }
    }
    // The switch that resets the timer in the menu belongs to no rule.
    let mut settings = Settings::default();
    settings.menu_reset = true;
    for rule in all_rules() {
        assert!(!rule.is_enabled(settings));
    }
}

#[test]
fn a_mark_spends_a_one_shot_rule() {
    let one_shot = [
        Rule::Sleep,
        Rule::WearSuit,
        Rule::FirstWarp,
        Rule::DarkBramble,
        Rule::DarkBrambleVessel,
        Rule::QuantumMoonIn,
        Rule::VesselWarp,
    ];
    for rule in one_shot {
        let mut sticky = StickyState::default();
        assert!(sticky.is_admitted(rule));
        sticky.mark(rule);
        assert!(!sticky.is_admitted(rule));
        assert_ne!(sticky, StickyState::default());
        for other in one_shot {
            assert_eq!(sticky.is_admitted(other), other != rule);
        }
    }
}

#[test]
fn a_mark_leaves_a_rule_that_may_fire_again_alone() {
    for rule in [Rule::MenuSplit, Rule::BigBang, Rule::Dst, Rule::DeathHp, Rule::DeathFish, Rule::EyeMap] {
        let mut sticky = StickyState { loop_counter: 3, ..StickyState::default() };
        sticky.mark(rule);
        assert_eq!(sticky, StickyState { loop_counter: 3, ..StickyState::default() });
        assert!(sticky.is_admitted(rule));
    }
}

#[test]
fn the_warp_sequence_is_admitted_step_by_step() {
    let mut sticky = StickyState { loop_counter: 2, ..StickyState::default() };
    assert!(sticky.is_admitted(Rule::FirstWarp));
    assert!(!sticky.is_admitted(Rule::WarpCore));
    assert!(!sticky.is_admitted(Rule::ExitWarp));
    sticky.warp_core_loop = Some(2);
    assert!(sticky.is_admitted(Rule::WarpCore));
    assert!(!sticky.is_admitted(Rule::ExitWarp));
    sticky.mark(Rule::WarpCore);
    assert!(!sticky.is_admitted(Rule::WarpCore));
    assert!(!sticky.is_admitted(Rule::FirstWarp));
    assert!(sticky.is_admitted(Rule::ExitWarp));
    sticky.loop_counter = 3;
    assert!(!sticky.is_admitted(Rule::ExitWarp));
    sticky.loop_counter = 2;
    sticky.mark(Rule::ExitWarp);
    assert!(!sticky.is_admitted(Rule::ExitWarp));
    assert_eq!(
        sticky,
        StickyState {
            warp_core: true,
            exit_warp: true,
            loop_counter: 2,
            warp_core_loop: Some(2),
            ..StickyState::default()
        }
    );
}
