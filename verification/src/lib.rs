use vstd::prelude::*;

pub mod game;
pub mod pointer;
pub mod resolver;
pub mod rules;
pub mod settings;
pub mod timer;
pub mod watcher;

use game::{GameProcess, Observation};
use settings::{Settings, StickyState};
use timer::{TimerCommands, TimerState};

verus! {

/// The ticks to wait after a snapshot could not be built, unless the driver
/// asks for another number.
pub const COOLDOWN: u32 = 300;

/// What the driver is to do about the game on the coming tick.
#[derive(Clone, Copy, Debug, PartialEq, Eq, Structural)]
pub enum Plan {
    /// Leave the game alone.
    Wait,
    /// Try to attach to the game and to build the snapshot on it.
    Connect,
    /// Check that the game still runs, and sample it.
    Sample,
}

/// Everything that lasts from tick to tick.
#[derive(Debug)]
pub struct Globals {
    /// The connection, while there is one.
    pub game: Option<GameProcess>,
    /// The ticks still to wait before the next attempt to connect.
    pub waiting: u32,
    /// The ticks to wait after a snapshot could not be built.
    pub cooldown: u32,
    pub sticky_state: StickyState,
}

/// What one tick is given: the state of the timer, the settings as they
/// stand, and what the driver saw of the game.
pub struct Tick {
    pub timer: TimerState,
    pub settings: Settings,
    pub seen: Observation,
}

impl Globals {
    /// What the driver is to do on the coming tick.
    pub open spec fn planned(self) -> Plan {
        if self.game is Some {
            Plan::Sample
        } else if self.waiting > 0 {
            Plan::Wait
        } else {
            Plan::Connect
        }
    }

    /// One tick as a function: the state it leaves behind and the commands
    /// it sends.
    ///
    /// The timer is looked at first: if it is not running, the memory of the
    /// attempt starts afresh. Without a connection the tick belongs to
    /// `GameProcess::connected` and sends nothing. With one, a sample
    /// refreshes the snapshot, settles the flags, counts a new time loop,
    /// runs the split rules, and sends what the outcome calls for; a tick
    /// that brings no sample has lost the game, which ends the connection
    /// at once, with no wait to follow, and stops game time.
    pub open spec fn after(self, timer: TimerState, settings: Settings, seen: Observation) -> (
        Globals,
        TimerCommands,
    ) {
        let sticky = self.sticky_state.after_timer(timer);
        match self.game {
            None => {
                let (waiting, game) = GameProcess::connected(self.waiting, self.cooldown, seen);
                (
                    Globals { game, waiting, sticky_state: sticky, ..self },
                    TimerCommands::nothing(),
                )
            },
            Some(game) => match seen {
                Observation::Sampled(samples) => {
                    let sampled = game.state.sampled(samples);
                    let vars = sampled.settled();
                    let run = vars.evaluate(settings, sticky.after_decision(sampled));
                    (
                        Globals {
                            game: Some(GameProcess { state: game.state.remembering(vars) }),
                            sticky_state: run.sticky,
                            ..self
                        },
                        TimerCommands {
                            pause_game_time: vars.is_loading(),
                            resume_game_time: !vars.is_loading(),
                            start: vars.is_starting(),
                            reset: vars.menu && settings.menu_reset,
                            split: run.fired is Some,
                        },
                    )
                },
                _ => (
                    Globals { game: None, waiting: 0, sticky_state: sticky, ..self },
                    TimerCommands::pause_only(),
                ),
            },
        }
    }

    /// The state after the ticks of `ticks`, one after the other.
    pub open spec fn run(self, ticks: Seq<Tick>) -> Globals
        decreases ticks.len(),
    {
        if ticks.len() == 0 {
            self
        } else {
            let last = ticks.last();
            self.run(ticks.drop_last()).after(last.timer, last.settings, last.seen).0
        }
    }

    /// The loop count has room for the loop that this tick may count: either
    /// the tick counts none, or the count, as it stands once the timer has
    /// been looked at, is not at the end of its type.
    pub open spec fn has_room(self, timer: TimerState, seen: Observation) -> bool {
        match (self.game, seen) {
            (Some(game), Observation::Sampled(samples)) => game.state.sampled(
                samples,
            ).leaves_menu() ==> self.sticky_state.after_timer(timer).loop_counter < u32::MAX,
            _ => true,
        }
    }

    /// Tells whether `update` may be called on this tick.
    pub fn check_room(&self, timer: TimerState, seen: &Observation) -> (room: bool)
        ensures
            room == self.has_room(timer, *seen),
    {
        match (&self.game, seen) {
            (Some(game), Observation::Sampled(samples)) => {
                let timer_idle = match timer {
                    TimerState::NotRunning => true,
                    _ => false,
                };
                !game.state.counts_loop(samples) || timer_idle
                    || self.sticky_state.loop_counter < u32::MAX
            },
            _ => true,
        }
    }

    /// The state before the first tick: no connection, no wait, nothing
    /// remembered.
    pub fn new(cooldown: u32) -> (globals: Globals)
        ensures
            globals.game is None,
            globals.waiting == 0,
            globals.cooldown == cooldown,
            globals.sticky_state == StickyState::fresh(),
    {
        Globals { game: None, waiting: 0, cooldown, sticky_state: StickyState::default() }
    }

    /// Tells the driver what to do about the game on the coming tick.
    pub fn plan(&self) -> (plan: Plan)
        ensures
            plan == self.planned(),
    {
        if self.game.is_some() {
            Plan::Sample
        } else if self.waiting > 0 {
            Plan::Wait
        } else {
            Plan::Connect
        }
    }
}

/// Runs one tick on what the driver has gathered, and returns the commands
/// to send to the timer.
pub fn update(
    globals: &mut Globals,
    timer: TimerState,
    settings: &Settings,
    seen: Observation,
) -> (commands: TimerCommands)
    requires
        old(globals).has_room(timer, seen),
    ensures
        (*final(globals), commands) == old(globals).after(timer, *settings, seen),
{
    globals.sticky_state.observe_timer(timer);
    let nothing = TimerCommands {
        pause_game_time: false,
        resume_game_time: false,
        start: false,
        reset: false,
        split: false,
    };
    match &mut globals.game {
        None => {
            globals.game = GameProcess::connect(&mut globals.waiting, globals.cooldown, seen);
            nothing
        },
        Some(game) => match seen {
            Observation::Sampled(samples) => {
                let vars = game.state.update(&samples, &mut globals.sticky_state);
                let loading = vars.loading();
                let start = vars.starting();
                let reset = vars.resetting(settings);
                let split = vars.split(settings, &mut globals.sticky_state);
                TimerCommands {
                    pause_game_time: loading,
                    resume_game_time: !loading,
                    start,
                    reset,
                    split,
                }
            },
            _ => {
                globals.game = None;
                globals.waiting = 0;
                TimerCommands { pause_game_time: true, ..nothing }
            },
        },
    }
}

/// Every tick with a connection sends exactly one of the two commands about
/// game time: a sampled tick the one that its values call for, a tick that
/// has lost the game the one that stops game time. A tick without a
/// connection has no game to speak of and sends neither.
pub proof fn law_one_game_time_command(
    globals: Globals,
    timer: TimerState,
    settings: Settings,
    seen: Observation,
)
    ensures
        ({
            let commands = globals.after(timer, settings, seen).1;
            &&& globals.game is Some ==> commands.pause_game_time != commands.resume_game_time
            &&& globals.game is None ==> !commands.pause_game_time && !commands.resume_game_time
            &&& match (globals.game, seen) {
                (Some(game), Observation::Sampled(samples)) => commands.pause_game_time
                    == game.state.sampled(samples).settled().is_loading(),
                (Some(_), _) => commands.pause_game_time,
                _ => true,
            }
        }),
{
}

/// A tick that leaves the menu up stops game time.
pub proof fn law_menu_stops_game_time(
    globals: Globals,
    timer: TimerState,
    settings: Settings,
    samples: game::Samples,
)
    requires
        globals.game is Some,
    ensures
        ({
            let (next, commands) = globals.after(timer, settings, Observation::Sampled(samples));
            next.game is Some && (next.game->0.state.menu ==> commands.pause_game_time
                && !commands.resume_game_time)
        }),
{
}

/// With the timer not running, nothing of the attempt before is kept: the
/// tick goes as it would on a memory that holds nothing, and unless it
/// samples the game through a connection it leaves such a memory behind.
pub proof fn law_idle_timer_forgets(globals: Globals, settings: Settings, seen: Observation)
    ensures
        globals.after(TimerState::NotRunning, settings, seen) == (Globals {
            sticky_state: StickyState::fresh(),
            ..globals
        }).after(TimerState::NotRunning, settings, seen),
        !(globals.game is Some && seen is Sampled) ==> globals.after(
            TimerState::NotRunning,
            settings,
            seen,
        ).0.sticky_state == StickyState::fresh(),
{
}

/// The cooldown: after a snapshot that could not be built, the next
/// `cooldown` ticks leave the game alone, whatever they are given, and the
/// tick after them tries again.
pub proof fn law_cooldown(
    globals: Globals,
    timer: TimerState,
    settings: Settings,
    error: resolver::LookupError,
    ticks: Seq<Tick>,
)
    requires
        globals.planned() == Plan::Connect,
        ticks.len() == globals.cooldown,
    ensures
        ({
            let failed = globals.after(timer, settings, Observation::Unresolved(error)).0;
            &&& forall|passed: int|
                0 <= passed < globals.cooldown ==> (#[trigger] failed.run(
                    ticks.take(passed),
                )).planned() == Plan::Wait
            &&& failed.run(ticks).planned() == Plan::Connect
        }),
{
    let failed = globals.after(timer, settings, Observation::Unresolved(error)).0;
    assert forall|passed: int| 0 <= passed <= globals.cooldown implies ({
        let now = #[trigger] failed.run(ticks.take(passed));
        now.game is None && now.waiting == globals.cooldown - passed
    }) by {
        lemma_waiting(failed, ticks, passed);
    }
    assert(ticks.take(ticks.len() as int) == ticks);
}

/// Without a connection, each tick of a wait takes one tick off it.
proof fn lemma_waiting(start: Globals, ticks: Seq<Tick>, passed: int)
    requires
        start.game is None,
        0 <= passed <= start.waiting,
        passed <= ticks.len(),
    ensures
        start.run(ticks.take(passed)).game is None,
        start.run(ticks.take(passed)).waiting == start.waiting - passed,
        start.run(ticks.take(passed)).cooldown == start.cooldown,
    decreases passed,
{
    if passed > 0 {
        lemma_waiting(start, ticks, passed - 1);
        assert(ticks.take(passed).drop_last() == ticks.take(passed - 1));
    }
}

impl Tick {
    /// The tick samples the game while an attempt runs, with `rule` switched
    /// on and every other rule switched off.
    pub open spec fn samples_for(self, rule: rules::Rule) -> bool {
        &&& !(self.timer is NotRunning)
        &&& self.seen is Sampled
        &&& forall|other: rules::Rule| #[trigger] other.enabled(self.settings) <==> other == rule
    }
}

/// A lasting condition splits once. Take a one-shot rule outside the warp
/// sequence that is not spent, and a run of sampled ticks of one attempt on
/// which it alone is switched on. If the first tick gives the rule its cue,
/// that tick splits and no later tick does, whatever the later ticks read;
/// the rule is spent from the first tick on, and the connection holds.
pub proof fn law_lasting_condition_splits_once(
    globals: Globals,
    rule: rules::Rule,
    ticks: Seq<Tick>,
    tick: int,
)
    requires
        rule.one_shot(),
        !rule.in_warp_sequence(),
        !globals.sticky_state.spent(rule),
        0 <= tick < ticks.len(),
        forall|i: int| 0 <= i < ticks.len() ==> (#[trigger] ticks[i]).samples_for(rule),
        globals.game matches Some(game) && ticks[0].seen matches Observation::Sampled(samples)
            && game.state.sampled(samples).cue(rule),
    ensures
        ({
            let now = ticks[tick];
            let (next, commands) = globals.run(ticks.take(tick)).after(
                now.timer,
                now.settings,
                now.seen,
            );
            &&& commands.split == (tick == 0)
            &&& next.sticky_state.spent(rule)
            &&& next.game is Some
        }),
    decreases tick,
{
    if tick == 0 {
        lemma_cued_tick_splits(globals, rule, ticks[0]);
    } else {
        law_lasting_condition_splits_once(globals, rule, ticks, tick - 1);
        assert(ticks.take(tick).drop_last() == ticks.take(tick - 1));
        lemma_spent_tick_is_silent(globals.run(ticks.take(tick)), rule, ticks[tick]);
    }
}

/// A sampled tick that gives the one rule switched on its cue, with the
/// rule not spent, splits and spends it.
proof fn lemma_cued_tick_splits(globals: Globals, rule: rules::Rule, now: Tick)
    requires
        rule.one_shot(),
        !rule.in_warp_sequence(),
        !globals.sticky_state.spent(rule),
        now.samples_for(rule),
        globals.game matches Some(game) && now.seen matches Observation::Sampled(samples)
            && game.state.sampled(samples).cue(rule),
    ensures
        globals.after(now.timer, now.settings, now.seen).1.split,
        globals.after(now.timer, now.settings, now.seen).0.sticky_state.spent(rule),
        globals.after(now.timer, now.settings, now.seen).0.game is Some,
{
    let sampled = globals.game->0.state.sampled(now.seen->Sampled_0);
    let vars = sampled.settled();
    let sticky = globals.sticky_state.after_timer(now.timer).after_decision(sampled);
    game::lemma_first_to_fire(vars, rules::Rule::before_warp(), now.settings, sticky);
    game::lemma_first_to_fire(
        vars,
        rules::Rule::after_warp(),
        now.settings,
        vars.followed_up(sticky),
    );
    game::law_marks_accumulate(vars, now.settings, sticky, rule);
    game::lemma_followed_up(vars, sticky, rule);
    lemma_one_shot_has_its_place(rule);
}

/// A one-shot rule outside the warp sequence stands before or after the
/// warp field.
proof fn lemma_one_shot_has_its_place(rule: rules::Rule)
    requires
        rule.one_shot(),
        !rule.in_warp_sequence(),
    ensures
        rules::Rule::before_warp().contains(rule) || rules::Rule::after_warp().contains(rule),
{
    let before = rules::Rule::before_warp();
    let after = rules::Rule::after_warp();
    assert(before[17] == rules::Rule::Sleep && before[18] == rules::Rule::WearSuit);
    assert(after[1] == rules::Rule::DarkBramble && after[2] == rules::Rule::DarkBrambleVessel);
    assert(after[3] == rules::Rule::QuantumMoonIn && after[4] == rules::Rule::VesselWarp);
}

/// A sampled tick on which the one rule switched on is spent does not
/// split, and leaves it spent.
proof fn lemma_spent_tick_is_silent(globals: Globals, rule: rules::Rule, now: Tick)
    requires
        globals.game is Some,
        globals.sticky_state.spent(rule),
        now.samples_for(rule),
    ensures
        !globals.after(now.timer, now.settings, now.seen).1.split,
        globals.after(now.timer, now.settings, now.seen).0.sticky_state.spent(rule),
        globals.after(now.timer, now.settings, now.seen).0.game is Some,
{
    let sampled = globals.game->0.state.sampled(now.seen->Sampled_0);
    let vars = sampled.settled();
    let sticky = globals.sticky_state.after_timer(now.timer).after_decision(sampled);
    game::law_fired_rule_was_due(vars, now.settings, sticky);
    game::law_marks_accumulate(vars, now.settings, sticky, rule);
}

} // verus!
