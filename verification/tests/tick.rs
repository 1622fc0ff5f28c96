use outer_wilds_autosplitter::game::{GameProcess, Observation, Samples, State, SIGNALS};
use outer_wilds_autosplitter::pointer::AddressChain;
use outer_wilds_autosplitter::resolver::LookupError;
use outer_wilds_autosplitter::settings::{Settings, StickyState};
use outer_wilds_autosplitter::timer::{TimerCommands, TimerState};
use outer_wilds_autosplitter::{update, Globals, Plan, COOLDOWN};

const NOTHING: TimerCommands = TimerCommands {
    pause_game_time: false,
    resume_game_time: false,
    start: false,
    reset: false,
    split: false,
};

const RESUME: TimerCommands = TimerCommands { resume_game_time: true, ..NOTHING };

const PAUSE: TimerCommands = TimerCommands { pause_game_time: true, ..NOTHING };

fn snapshot() -> State {
    let chains = (0..SIGNALS as u64)
        .map(|i| AddressChain { base_address: i, base_offset: 0, hops: vec![] })
        .collect();
    State::setup(chains).unwrap()
}

fn zeros() -> Samples {
    Samples {
        pauses: Some([0; 7]),
        campfire_sleep: Some(0),
        exiting_dream: Some(0),
        scene: Some(0),
        scene_current: Some(0),
        fade_type: Some(0),
        allow_async: Some(0),
        death_type: Some(0),
        is_reality_shatter_effect_complete: Some(0),
        is_dying: Some(0),
        is_wearing_suit: Some(0),
        in_warp_field: Some(0),
        held_item: Some(0),
        prompt_item: Some(0),
        in_bramble_dimension: Some(0),
        in_vessel_dimension: Some(0),
        in_quantum_moon: Some(0),
        eye_initialized: Some(0),
        eye_state: Some(0),
    }
}

fn connected() -> Globals {
    let mut globals = Globals::new(COOLDOWN);
    let commands =
        update(&mut globals, TimerState::Running, &Settings::default(), Observation::Resolved(snapshot()));
    assert_eq!(commands, NOTHING);
    assert_eq!(globals.plan(), Plan::Sample);
    globals
}

fn sample(globals: &mut Globals, settings: &Settings, samples: Samples) -> TimerCommands {
    update(globals, TimerState::Running, settings, Observation::Sampled(samples))
}

fn unresolved() -> Observation {
    Observation::Unresolved(LookupError::StaticField { path: 3 })
}

#[test]
fn the_first_plan_is_to_connect() {
    let globals = Globals::new(COOLDOWN);
    assert_eq!(COOLDOWN, 300);
    assert_eq!(globals.plan(), Plan::Connect);
    assert!(globals.game.is_none());
    assert_eq!(globals.waiting, 0);
    assert_eq!(globals.cooldown, 300);
    assert_eq!(globals.sticky_state, StickyState::default());
}

#[test]
fn a_game_that_is_not_there_is_looked_for_again_on_the_next_tick() {
    let mut globals = Globals::new(5);
    for _ in 0..10 {
        assert_eq!(globals.plan(), Plan::Connect);
        let commands =
            update(&mut globals, TimerState::Running, &Settings::default(), Observation::NoProcess);
        assert_eq!(commands, NOTHING);
        assert_eq!(globals.waiting, 0);
    }
}

#[test]
fn a_snapshot_that_was_built_makes_the_connection() {
    let mut globals = Globals::new(5);
    let commands =
        update(&mut globals, TimerState::Running, &Settings::default(), Observation::Resolved(snapshot()));
    assert_eq!(commands, NOTHING);
    assert_eq!(globals.plan(), Plan::Sample);
    assert_eq!(globals.waiting, 0);
    let state = &globals.game.as_ref().unwrap().state;
    assert_eq!(state.eye_state.pointer.base_address, 18);
    assert!(!state.load && !state.menu);
}

#[test]
fn a_failed_build_is_followed_by_exactly_the_cooldown() {
    for cooldown in [0u32, 1, 2, 7, 300] {
        let mut globals = Globals::new(cooldown);
        let mut attempts = 0;
        let mut idle_ticks = Vec::new();
        let mut idle = 0;
        for _ in 0..(3 * (cooldown + 1)) {
            match globals.plan() {
                Plan::Connect => {
                    if attempts > 0 {
                        idle_ticks.push(idle);
                    }
                    attempts += 1;
                    idle = 0;
                    update(&mut globals, TimerState::Running, &Settings::default(), unresolved());
                }
                Plan::Wait => {
                    idle += 1;
                    update(&mut globals, TimerState::Running, &Settings::default(), Observation::Idle);
                }
                Plan::Sample => panic!("no connection was made"),
            }
        }
        assert_eq!(attempts, 3);
        assert_eq!(idle_ticks, vec![cooldown, cooldown]);
    }
}

#[test]
fn nothing_that_is_seen_shortens_the_cooldown() {
    let mut globals = Globals::new(4);
    update(&mut globals, TimerState::Running, &Settings::default(), unresolved());
    assert_eq!(globals.waiting, 4);
    let seen = [
        Observation::Resolved(snapshot()),
        Observation::NoProcess,
        Observation::Sampled(zeros()),
        unresolved(),
    ];
    let mut left = 4;
    for observation in seen {
        assert_eq!(globals.plan(), Plan::Wait);
        let commands = update(&mut globals, TimerState::Running, &Settings::default(), observation);
        left -= 1;
        assert_eq!(commands, NOTHING);
        assert_eq!(globals.waiting, left);
        assert!(globals.game.is_none());
    }
    assert_eq!(globals.plan(), Plan::Connect);
}

#[test]
fn a_sample_without_a_connection_does_nothing() {
    let mut globals = Globals::new(4);
    let mut samples = zeros();
    samples.death_type = Some(6);
    let commands = update(&mut globals, TimerState::Running, &Settings::default(), Observation::Sampled(samples));
    assert_eq!(commands, NOTHING);
    assert_eq!(globals.plan(), Plan::Connect);
}

#[test]
fn a_game_that_is_gone_stops_game_time_and_ends_the_connection() {
    let mut globals = connected();
    globals.sticky_state.sleep = true;
    globals.sticky_state.loop_counter = 3;
    let commands =
        update(&mut globals, TimerState::Running, &Settings::default(), Observation::NoProcess);
    assert_eq!(commands, PAUSE);
    assert!(globals.game.is_none());
    // No cooldown: the next tick looks for the game again.
    assert_eq!(globals.plan(), Plan::Connect);
    // The memory of the attempt outlives the connection.
    assert!(globals.sticky_state.sleep);
    assert_eq!(globals.sticky_state.loop_counter, 3);
}

#[test]
fn every_sampled_tick_sends_one_command_about_game_time() {
    let mut globals = connected();
    let settings = Settings::default();
    let mut ticks = Vec::new();
    for scene in [0, 2, 2, 0, 1, 1, 3, 0] {
        for fade in [0, 1, 2] {
            for sleep in [0u8, 1] {
                for flags in [[0u8; 7], [0, 0, 0, 1, 0, 0, 0], [0, 0, 0, 0, 1, 0, 0]] {
                    ticks.push(Samples {
                        pauses: Some(flags),
                        scene: Some(scene),
                        scene_current: Some(scene % 3),
                        fade_type: Some(fade),
                        allow_async: Some((scene % 2) as u8),
                        campfire_sleep: Some(sleep),
                        exiting_dream: Some((fade % 2) as u8),
                        ..zeros()
                    });
                }
            }
        }
    }
    let mut paused = 0;
    let mut resumed = 0;
    for samples in ticks {
        let commands = sample(&mut globals, &settings, samples);
        assert_ne!(commands.pause_game_time, commands.resume_game_time);
        let state = &globals.game.as_ref().unwrap().state;
        if state.menu || state.load {
            assert!(commands.pause_game_time);
        }
        paused += commands.pause_game_time as u32;
        resumed += commands.resume_game_time as u32;
    }
    assert!(paused > 0);
    assert!(resumed > 0);
}

#[test]
fn a_tick_without_a_look_at_the_game_sends_no_command_about_game_time() {
    let mut globals = Globals::new(2);
    for observation in [Observation::Idle, Observation::NoProcess, unresolved(), Observation::Idle] {
        let commands = update(&mut globals, TimerState::Running, &Settings::default(), observation);
        assert_eq!(commands, NOTHING);
    }
}

#[test]
fn a_connected_tick_without_a_sample_has_lost_the_game() {
    for observation in [
        Observation::Idle,
        Observation::NoProcess,
        unresolved(),
        Observation::Resolved(snapshot()),
    ] {
        let mut globals = connected();
        globals.waiting = 5;
        let commands = update(&mut globals, TimerState::Running, &Settings::default(), observation);
        assert_eq!(commands, PAUSE);
        assert!(globals.game.is_none());
        assert_eq!(globals.waiting, 0);
        assert_eq!(globals.plan(), Plan::Connect);
    }
}

#[test]
fn every_connected_tick_sends_one_command_about_game_time() {
    let observations = || {
        vec![
            Observation::Idle,
            Observation::NoProcess,
            unresolved(),
            Observation::Resolved(snapshot()),
            Observation::Sampled(zeros()),
            Observation::Sampled(Samples { campfire_sleep: Some(1), ..zeros() }),
        ]
    };
    for timer in [TimerState::NotRunning, TimerState::Running, TimerState::Paused] {
        for observation in observations() {
            let mut globals = connected();
            let commands = update(&mut globals, timer, &Settings::default(), observation);
            assert_ne!(commands.pause_game_time, commands.resume_game_time);
        }
        for observation in observations() {
            let mut globals = Globals::new(3);
            let commands = update(&mut globals, timer, &Settings::default(), observation);
            assert!(!commands.pause_game_time && !commands.resume_game_time);
        }
    }
}

#[test]
fn a_quiet_game_keeps_game_time_running() {
    let mut globals = connected();
    for _ in 0..5 {
        assert_eq!(sample(&mut globals, &Settings::default(), zeros()), RESUME);
    }
}

#[test]
fn the_menu_stops_game_time_and_resets_if_asked() {
    let mut settings = Settings::default();
    settings.menu_reset = true;
    let mut globals = connected();
    assert_eq!(sample(&mut globals, &settings, zeros()), RESUME);
    let menu = Samples { scene: Some(1), fade_type: Some(1), allow_async: Some(1), ..zeros() };
    let expected = TimerCommands { pause_game_time: true, reset: true, ..NOTHING };
    assert_eq!(sample(&mut globals, &settings, menu), expected);
    assert_eq!(sample(&mut globals, &settings, menu), expected);
    assert_eq!(sample(&mut globals, &Settings::default(), menu), PAUSE);
    assert!(globals.game.as_ref().unwrap().state.menu);
}

#[test]
fn the_way_into_the_menu_splits_on_its_tick_only() {
    let mut settings = Settings::default();
    settings.menu_split = true;
    let mut globals = connected();
    sample(&mut globals, &settings, zeros());
    let menu = Samples { scene: Some(1), fade_type: Some(1), allow_async: Some(1), ..zeros() };
    assert_eq!(
        sample(&mut globals, &settings, menu),
        TimerCommands { pause_game_time: true, split: true, ..NOTHING }
    );
    assert_eq!(sample(&mut globals, &settings, menu), PAUSE);
}

#[test]
fn leaving_the_menu_starts_the_timer_and_counts_a_loop() {
    let mut globals = connected();
    let settings = Settings::default();
    let held = Samples { pauses: Some([0, 0, 0, 1, 0, 0, 0]), ..zeros() };
    sample(&mut globals, &settings, held);
    let menu = Samples { scene: Some(1), fade_type: Some(1), allow_async: Some(1), ..held };
    assert_eq!(sample(&mut globals, &settings, menu), PAUSE);
    let go = Samples { pauses: Some([0; 7]), ..menu };
    assert_eq!(
        sample(&mut globals, &settings, go),
        TimerCommands { resume_game_time: true, start: true, ..NOTHING }
    );
    assert_eq!(globals.sticky_state.loop_counter, 1);
    assert_eq!(sample(&mut globals, &settings, go), RESUME);
    assert_eq!(globals.sticky_state.loop_counter, 1);
}

#[test]
fn the_start_pattern_starts_the_timer_while_it_loads() {
    let mut globals = connected();
    let settings = Settings::default();
    sample(&mut globals, &settings, zeros());
    let wake = Samples {
        scene: Some(3),
        scene_current: Some(1),
        fade_type: Some(1),
        allow_async: Some(1),
        ..zeros()
    };
    assert_eq!(
        sample(&mut globals, &settings, wake),
        TimerCommands { pause_game_time: true, start: true, ..NOTHING }
    );
}

#[test]
fn sleeping_at_a_campfire_stops_game_time() {
    let mut globals = connected();
    let settings = Settings::default();
    sample(&mut globals, &settings, zeros());
    let asleep = Samples { campfire_sleep: Some(1), ..zeros() };
    assert_eq!(sample(&mut globals, &settings, asleep), PAUSE);
    let waking = Samples { campfire_sleep: Some(1), exiting_dream: Some(1), ..zeros() };
    assert_eq!(sample(&mut globals, &settings, waking), RESUME);
}

#[test]
fn a_condition_that_lasts_a_hundred_ticks_splits_once() {
    let mut settings = Settings::default();
    settings.wear_suit = true;
    let mut globals = connected();
    sample(&mut globals, &settings, zeros());
    let mut splits = 0;
    for _ in 0..100 {
        let commands = sample(&mut globals, &settings, Samples { is_wearing_suit: Some(1), ..zeros() });
        splits += commands.split as u32;
    }
    assert_eq!(splits, 1);
    // Taking the suit off and on again does not split either.
    for worn in [0u8, 1, 0, 1, 1, 0, 1] {
        let commands = sample(&mut globals, &settings, Samples { is_wearing_suit: Some(worn), ..zeros() });
        assert!(!commands.split);
    }
    assert!(globals.sticky_state.wear_suit);
}

#[test]
fn a_timer_that_is_not_running_clears_the_memory() {
    let full = StickyState {
        sleep: true,
        wear_suit: true,
        first_warp: true,
        exit_warp: true,
        warp_core: true,
        dark_bramble: true,
        dark_bramble_vessel: true,
        quantum_moon_in: true,
        vessel_warp: true,
        loop_counter: 17,
        warp_core_loop: Some(16),
    };
    // Whatever the tick is given, and with or without a connection.
    for with_game in [false, true] {
        for observation in [
            Observation::Idle,
            Observation::NoProcess,
            unresolved(),
            Observation::Resolved(snapshot()),
            Observation::Sampled(zeros()),
        ] {
            let mut globals = if with_game { connected() } else { Globals::new(3) };
            globals.sticky_state = full;
            update(&mut globals, TimerState::NotRunning, &Settings::default(), observation);
            assert_eq!(globals.sticky_state, StickyState::default());
            assert_eq!(globals.sticky_state.loop_counter, 0);
            assert_eq!(globals.sticky_state.warp_core_loop, None);
        }
    }
}

#[test]
fn any_other_timer_state_keeps_the_memory() {
    let kept = StickyState { sleep: true, loop_counter: 17, warp_core_loop: Some(16), ..StickyState::default() };
    for timer in [TimerState::Running, TimerState::Paused, TimerState::Ended, TimerState::Unknown] {
        let mut globals = connected();
        globals.sticky_state = kept;
        update(&mut globals, timer, &Settings::default(), Observation::Sampled(zeros()));
        assert_eq!(globals.sticky_state, kept);
        let mut sticky = kept;
        sticky.observe_timer(timer);
        assert_eq!(sticky, kept);
    }
    let mut sticky = kept;
    sticky.observe_timer(TimerState::NotRunning);
    assert_eq!(sticky, StickyState::default());
}

#[test]
fn a_reset_lets_a_one_shot_rule_split_again() {
    let mut settings = Settings::default();
    settings.sleep = true;
    let mut globals = connected();
    sample(&mut globals, &settings, zeros());
    let asleep = Samples { campfire_sleep: Some(1), ..zeros() };
    assert!(sample(&mut globals, &settings, asleep).split);
    assert!(!sample(&mut globals, &settings, zeros()).split);
    assert!(!sample(&mut globals, &settings, asleep).split);
    // The attempt ends; the next one starts on the very tick of the edge.
    sample(&mut globals, &settings, zeros());
    let commands = update(&mut globals, TimerState::NotRunning, &settings, Observation::Sampled(asleep));
    assert!(commands.split);
    assert_eq!(globals.sticky_state, StickyState { sleep: true, ..StickyState::default() });
}

#[test]
fn the_warp_sequence_through_whole_ticks() {
    let mut settings = Settings::default();
    settings.first_warp = true;
    settings.exit_warp = true;
    let mut globals = connected();
    let mut splits = Vec::new();
    let ticks = [
        zeros(),
        Samples { in_warp_field: Some(1), ..zeros() },
        Samples { in_warp_field: Some(1), held_item: Some(2), prompt_item: Some(3), ..zeros() },
        Samples { in_warp_field: Some(1), held_item: Some(2), prompt_item: Some(4), ..zeros() },
        Samples { in_warp_field: Some(1), held_item: Some(2), prompt_item: Some(4), ..zeros() },
        Samples { in_warp_field: Some(0), held_item: Some(2), prompt_item: Some(4), ..zeros() },
        Samples { in_warp_field: Some(1), held_item: Some(2), prompt_item: Some(4), ..zeros() },
        Samples { in_warp_field: Some(0), held_item: Some(2), prompt_item: Some(4), ..zeros() },
    ];
    for samples in ticks {
        splits.push(sample(&mut globals, &settings, samples).split);
    }
    // The pick-up on the fourth tick is followed but switched off.
    assert_eq!(splits, vec![false, true, false, false, false, true, false, false]);
    assert_eq!(
        globals.sticky_state,
        StickyState {
            first_warp: true,
            warp_core: true,
            exit_warp: true,
            loop_counter: 0,
            warp_core_loop: Some(0),
            ..StickyState::default()
        }
    );
}

#[test]
fn a_loop_reset_inside_the_warp_sequence_stops_the_last_split() {
    let mut settings = Settings::default();
    settings.exit_warp = true;
    let mut globals = connected();
    globals.game.as_mut().unwrap().state.menu = true;
    let base = Samples { pauses: Some([0, 0, 0, 1, 0, 0, 0]), ..zeros() };
    let mut splits = Vec::new();
    let ticks = [
        base,
        Samples { in_warp_field: Some(1), ..base },
        Samples { in_warp_field: Some(1), held_item: Some(2), prompt_item: Some(3), ..base },
        Samples { in_warp_field: Some(1), held_item: Some(2), prompt_item: Some(4), ..base },
        // The menu is left here: a new loop.
        Samples { pauses: Some([0; 7]), in_warp_field: Some(1), held_item: Some(2), prompt_item: Some(4), ..base },
        Samples { pauses: Some([0; 7]), in_warp_field: Some(0), held_item: Some(2), prompt_item: Some(4), ..base },
    ];
    for samples in ticks {
        splits.push(sample(&mut globals, &settings, samples).split);
    }
    assert_eq!(splits, vec![false, false, false, false, false, false]);
    assert_eq!(globals.sticky_state.loop_counter, 1);
    assert_eq!(globals.sticky_state.warp_core_loop, Some(0));
    assert!(globals.sticky_state.warp_core);
    assert!(!globals.sticky_state.exit_warp);
}

#[test]
fn the_warp_sequence_with_every_step_switched_on() {
    let mut settings = Settings::default();
    settings.first_warp = true;
    settings.warp_core = true;
    settings.exit_warp = true;
    let mut globals = connected();
    let mut splits = Vec::new();
    let ticks = [
        zeros(),
        Samples { in_warp_field: Some(1), ..zeros() },
        Samples { in_warp_field: Some(1), held_item: Some(2), prompt_item: Some(3), ..zeros() },
        Samples { in_warp_field: Some(1), held_item: Some(2), prompt_item: Some(4), ..zeros() },
        Samples { in_warp_field: Some(0), held_item: Some(2), prompt_item: Some(4), ..zeros() },
        Samples { in_warp_field: Some(1), held_item: Some(2), prompt_item: Some(4), ..zeros() },
    ];
    for samples in ticks {
        splits.push(sample(&mut globals, &settings, samples).split);
    }
    assert_eq!(splits, vec![false, true, false, true, true, false]);
}

#[test]
fn sleep_that_lasts_a_hundred_ticks_splits_on_the_first_of_them() {
    let mut settings = Settings::default();
    settings.sleep = true;
    let mut globals = connected();
    assert!(!sample(&mut globals, &settings, zeros()).split);
    let mut splits = Vec::new();
    for tick in 0..100 {
        let commands = sample(&mut globals, &settings, Samples { campfire_sleep: Some(1), ..zeros() });
        if commands.split {
            splits.push(tick);
        }
        assert!(globals.sticky_state.sleep);
    }
    assert_eq!(splits, vec![0]);
}

#[test]
fn the_first_sampled_tick_sends_resume_and_nothing_else() {
    let busy = Samples {
        pauses: Some([1; 7]),
        scene: Some(3),
        scene_current: Some(1),
        fade_type: Some(1),
        allow_async: Some(1),
        death_type: Some(6),
        campfire_sleep: Some(1),
        is_wearing_suit: Some(1),
        in_warp_field: Some(1),
        held_item: Some(2),
        prompt_item: Some(4),
        eye_state: Some(10),
        ..zeros()
    };
    let mut every = Settings::default();
    every.sleep = true;
    every.wear_suit = true;
    every.big_bang = true;
    every.first_warp = true;
    every.warp_core = true;
    every.eye_surface = true;
    every.menu_split = true;
    every.menu_reset = true;
    let mut globals = connected();
    assert_eq!(sample(&mut globals, &every, busy), RESUME);
    assert_eq!(globals.sticky_state, StickyState::default());
    // The second tick sees all of it appear.
    let commands = sample(&mut globals, &every, busy);
    assert!(commands.split);
    assert!(commands.pause_game_time);
}

#[test]
fn the_loop_count_needs_room_only_when_a_loop_is_counted() {
    let held = Samples { pauses: Some([0, 0, 0, 1, 0, 0, 0]), ..zeros() };
    let go = zeros();
    let mut globals = connected();
    globals.game.as_mut().unwrap().state.menu = true;
    sample(&mut globals, &Settings::default(), held);
    sample(&mut globals, &Settings::default(), held);
    globals.sticky_state.loop_counter = u32::MAX;
    {
        let state = &globals.game.as_ref().unwrap().state;
        assert!(state.counts_loop(&go));
        assert!(!state.counts_loop(&held));
        assert_eq!(state.peek(&go).pauses.old, [0, 0, 0, 1, 0, 0, 0]);
        assert_eq!(state.peek(&go).pauses.current, [0; 7]);
        assert!(state.peek(&go).leaving_menu());
    }
    // Leaving the menu would count one loop too many.
    assert!(!globals.check_room(TimerState::Running, &Observation::Sampled(go)));
    // A timer that is not running starts the count afresh first.
    assert!(globals.check_room(TimerState::NotRunning, &Observation::Sampled(go)));
    // Nothing else counts a loop.
    assert!(globals.check_room(TimerState::Running, &Observation::Sampled(held)));
    assert!(globals.check_room(TimerState::Running, &Observation::NoProcess));
    assert!(globals.check_room(TimerState::Running, &Observation::Idle));
    let commands = sample(&mut globals, &Settings::default(), held);
    assert_eq!(commands, PAUSE);
    assert_eq!(globals.sticky_state.loop_counter, u32::MAX);
    // One below the end there is room.
    globals.sticky_state.loop_counter = u32::MAX - 1;
    assert!(globals.check_room(TimerState::Running, &Observation::Sampled(go)));
    sample(&mut globals, &Settings::default(), go);
    assert_eq!(globals.sticky_state.loop_counter, u32::MAX);
    // Without a connection no loop is counted either.
    let mut globals = Globals::new(3);
    globals.sticky_state.loop_counter = u32::MAX;
    assert!(globals.check_room(TimerState::Running, &Observation::Sampled(go)));
}

#[test]
fn connect_waits_before_it_looks_at_what_was_seen() {
    let mut waiting = 2;
    assert!(GameProcess::connect(&mut waiting, 9, Observation::Resolved(snapshot())).is_none());
    assert_eq!(waiting, 1);
    assert!(GameProcess::connect(&mut waiting, 9, unresolved()).is_none());
    assert_eq!(waiting, 0);
    assert!(GameProcess::connect(&mut waiting, 9, Observation::NoProcess).is_none());
    assert_eq!(waiting, 0);
    assert!(GameProcess::connect(&mut waiting, 9, Observation::Idle).is_none());
    assert_eq!(waiting, 0);
    assert!(GameProcess::connect(&mut waiting, 9, Observation::Sampled(zeros())).is_none());
    assert_eq!(waiting, 0);
    assert!(GameProcess::connect(&mut waiting, 9, unresolved()).is_none());
    assert_eq!(waiting, 9);
    let mut waiting = 0;
    let game = GameProcess::connect(&mut waiting, 9, Observation::Resolved(snapshot())).unwrap();
    assert_eq!(waiting, 0);
    assert_eq!(game.state.death_type.pointer.base_address, 7);
}
