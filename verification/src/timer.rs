use vstd::prelude::*;

verus! {

/// What the timer is doing.
#[derive(Clone, Copy, Debug, PartialEq, Eq, Structural)]
pub enum TimerState {
    NotRunning,
    Running,
    Paused,
    Ended,
    Unknown,
}

/// The commands for the timer that one tick comes to. Each is sent once if
/// its flag is up.
#[derive(Clone, Copy, Debug, PartialEq, Eq, Structural)]
pub struct TimerCommands {
    pub pause_game_time: bool,
    pub resume_game_time: bool,
    pub start: bool,
    pub reset: bool,
    pub split: bool,
}

impl TimerCommands {
    /// No command at all.
    pub open spec fn nothing() -> TimerCommands {
        TimerCommands {
            pause_game_time: false,
            resume_game_time: false,
            start: false,
            reset: false,
            split: false,
        }
    }

    /// Game time is to stand still, and nothing else.
    pub open spec fn pause_only() -> TimerCommands {
        TimerCommands { pause_game_time: true, ..TimerCommands::nothing() }
    }
}

} // verus!
