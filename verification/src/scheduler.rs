//! The break scheduler: the state machine of the break cycle. It counts down
//! to a break, warns ahead of it, holds the break, and suspends itself while
//! a meeting is going on. It emits requests and never waits for them.

use crate::config::{BreakConfig, BreakMode};
use crate::window_config::WindowKind;
use vstd::prelude::*;
use vstd::string::*;

verus! {

/// What the user is experiencing. Countdowns are in seconds.
#[derive(Clone, Copy, Debug, PartialEq, Eq, Structural)]
pub enum SchedulerState {
    /// The timer is not running.
    Idle,
    /// The countdown to the next break is running.
    CountingDown { remaining: u32 },
    /// The countdown is running and the warning is on the screen.
    PreBreakWarning { remaining: u32 },
    /// A break is going on; `remaining` is what is left of it.
    OnBreak { mode: BreakMode, remaining: u32 },
    /// A meeting was detected; `remaining` is the suspended countdown.
    Paused { remaining: u32 },
}

/// A request that the scheduler emits.
#[derive(Clone, Copy, Debug, PartialEq, Eq, Structural)]
pub enum SchedulerAction {
    /// Show the warning that a break begins in `remaining_seconds`.
    ShowPreBreak { remaining_seconds: u32 },
    /// Show the break window of `mode` for a break of `duration_seconds`.
    ShowBreak { mode: BreakMode, duration_seconds: u32 },
    /// Close the window of `kind` if it is open.
    CloseWindow { kind: WindowKind },
    /// Sound the chime.
    PlayChime,
}

/// Why the scheduler turned a command down.
#[derive(Clone, Copy, Debug, PartialEq, Eq, Structural)]
pub enum SchedulerError {
    /// The settings cannot be run.
    InvalidConfig,
    /// The timer is running already.
    AlreadyRunning,
}

impl SchedulerError {
    /// The error in words.
    pub open spec fn message_spec(self) -> Seq<char> {
        match self {
            SchedulerError::InvalidConfig => "Settings cannot be run"@,
            SchedulerError::AlreadyRunning => "Timer is already running"@,
        }
    }

    /// The error in words.
    pub fn message(&self) -> (text: String)
        ensures
            text@ == self.message_spec(),
    {
        let words: &'static str = match self {
            SchedulerError::InvalidConfig => "Settings cannot be run",
            SchedulerError::AlreadyRunning => "Timer is already running",
        };
        String::from_str(words)
    }
}

/// An event from the user interface.
#[derive(Clone, Copy, Debug, PartialEq, Eq, Structural)]
pub enum SchedulerEvent {
    StartTimer,
    StopTimer,
    SkipBreak,
    EarlyReturn,
    UpdateConfig { config: BreakConfig },
}

/// Where a step leads: the next state and the requests emitted on the way.
pub struct Transition {
    pub state: SchedulerState,
    pub actions: Seq<SchedulerAction>,
}

/// What a command does: where it leads, or why it was turned down.
pub struct Verdict {
    pub config: BreakConfig,
    pub outcome: Result<Transition, SchedulerError>,
}

/// The window in which a break of `mode` is shown.
pub open spec fn break_window(mode: BreakMode) -> WindowKind {
    match mode {
        BreakMode::Notify => WindowKind::Notify,
        BreakMode::Force => WindowKind::ForceBreak,
    }
}

/// The request to close the window of `kind`.
pub open spec fn close(kind: WindowKind) -> SchedulerAction {
    SchedulerAction::CloseWindow { kind }
}

/// The state in which the countdown has just been set to the full interval.
pub open spec fn armed(config: BreakConfig) -> SchedulerState {
    SchedulerState::CountingDown { remaining: config.interval_spec() as u32 }
}

/// The state after a break: counting down the full interval again where the
/// cycle recurs, idle where it does not.
pub open spec fn rearmed(config: BreakConfig) -> SchedulerState {
    if config.recurring {
        armed(config)
    } else {
        SchedulerState::Idle
    }
}

/// The state in which a scheduler starts.
pub open spec fn initial_state(config: BreakConfig) -> SchedulerState {
    if config.auto_start_timer {
        armed(config)
    } else {
        SchedulerState::Idle
    }
}

/// The signal `meeting` suspends the countdown: a meeting was seen, and the
/// settings ask to look for meetings and to pause on them.
pub open spec fn pauses(config: BreakConfig, meeting: Option<bool>) -> bool {
    config.meeting_detect && config.auto_pause && meeting == Some(true)
}

/// The signal `meeting` ends a pause: the meeting is seen to be over, or the
/// settings no longer ask to pause on meetings.
pub open spec fn resumes(config: BreakConfig, meeting: Option<bool>) -> bool {
    meeting == Some(false) || !(config.meeting_detect && config.auto_pause)
}

/// A countdown one second later.
pub open spec fn one_less(remaining: u32) -> u32 {
    if remaining > 0 {
        (remaining - 1) as u32
    } else {
        0
    }
}

/// The beginning of a break: the warning, if it was open, is closed, the
/// break window is requested, and the chime where the settings ask for it.
pub open spec fn begin_break(config: BreakConfig, warned: bool) -> Transition {
    Transition {
        state: SchedulerState::OnBreak {
            mode: config.break_mode,
            remaining: config.duration_spec() as u32,
        },
        actions: (if warned {
            seq![close(WindowKind::PreBreak)]
        } else {
            Seq::empty()
        }) + seq![
            SchedulerAction::ShowBreak {
                mode: config.break_mode,
                duration_seconds: config.duration_spec() as u32,
            },
        ] + (if config.break_chime {
            seq![SchedulerAction::PlayChime]
        } else {
            Seq::empty()
        }),
    }
}

/// The end of a break of `mode`, for whatever reason: the windows in
/// `closing` are closed and the cycle starts again or rests.
pub open spec fn end_break(config: BreakConfig, closing: Seq<SchedulerAction>) -> Transition {
    Transition { state: rearmed(config), actions: closing }
}

/// One tick of the clock: a second has passed, and `meeting` is what the
/// meeting detector said, if it was asked on this tick.
///
/// A detected meeting goes before everything else. While counting down, the
/// warning goes before the break, so that a break is always announced where
/// warnings are on.
pub open spec fn tick_spec(config: BreakConfig, state: SchedulerState, meeting: Option<bool>) -> Transition {
    match state {
        SchedulerState::Idle => Transition { state, actions: Seq::empty() },
        SchedulerState::CountingDown { remaining } => {
            let left = one_less(remaining);
            if pauses(config, meeting) {
                Transition { state: SchedulerState::Paused { remaining }, actions: Seq::empty() }
            } else if config.pre_break && left <= config.lead_spec() {
                Transition {
                    state: SchedulerState::PreBreakWarning { remaining: left },
                    actions: seq![SchedulerAction::ShowPreBreak { remaining_seconds: left }],
                }
            } else if left == 0 {
                begin_break(config, false)
            } else {
                Transition {
                    state: SchedulerState::CountingDown { remaining: left },
                    actions: Seq::empty(),
                }
            }
        },
        SchedulerState::PreBreakWarning { remaining } => {
            let left = one_less(remaining);
            if pauses(config, meeting) {
                Transition {
                    state: SchedulerState::Paused { remaining },
                    actions: seq![close(WindowKind::PreBreak)],
                }
            } else if left == 0 {
                begin_break(config, true)
            } else {
                Transition {
                    state: SchedulerState::PreBreakWarning { remaining: left },
                    actions: Seq::empty(),
                }
            }
        },
        SchedulerState::OnBreak { mode, remaining } => {
            let left = one_less(remaining);
            if left == 0 {
                end_break(config, seq![close(break_window(mode))])
            } else {
                Transition {
                    state: SchedulerState::OnBreak { mode, remaining: left },
                    actions: Seq::empty(),
                }
            }
        },
        SchedulerState::Paused { remaining } => {
            if resumes(config, meeting) {
                Transition {
                    state: SchedulerState::CountingDown { remaining },
                    actions: Seq::empty(),
                }
            } else {
                Transition { state, actions: Seq::empty() }
            }
        },
    }
}

/// Starting the timer: from idle the countdown is set to the full interval;
/// a running timer turns the command down.
pub open spec fn start_spec(config: BreakConfig, state: SchedulerState) -> Result<
    Transition,
    SchedulerError,
> {
    if state is Idle {
        Ok(Transition { state: armed(config), actions: Seq::empty() })
    } else {
        Err(SchedulerError::AlreadyRunning)
    }
}

/// Stopping the timer: whatever window the state had on the screen is
/// closed, and the scheduler rests.
pub open spec fn stop_spec(state: SchedulerState) -> Transition {
    Transition {
        state: SchedulerState::Idle,
        actions: match state {
            SchedulerState::PreBreakWarning { .. } => seq![close(WindowKind::PreBreak)],
            SchedulerState::OnBreak { mode, .. } => seq![close(break_window(mode))],
            _ => Seq::empty(),
        },
    }
}

/// The windows of the break family, all of which a skipped break closes.
pub open spec fn break_family() -> Seq<SchedulerAction> {
    seq![close(WindowKind::PreBreak), close(WindowKind::ForceBreak), close(WindowKind::Notify)]
}

/// Skipping the break, from any state: every window of the break family is
/// closed, whether it is open or not. A break that is going on, or that the
/// warning has announced, is skipped, and the cycle starts again or rests.
/// In any other state there is no break to skip and the state stays.
pub open spec fn skip_spec(config: BreakConfig, state: SchedulerState) -> Transition {
    Transition {
        state: if state is OnBreak || state is PreBreakWarning {
            rearmed(config)
        } else {
            state
        },
        actions: break_family(),
    }
}

/// Returning early, from any state: a break that is a reminder ends, its
/// window is closed and the cycle starts again or rests. A forced break
/// cannot be left, and outside a break there is nothing to leave: the state
/// stays and nothing is closed.
pub open spec fn early_return_spec(config: BreakConfig, state: SchedulerState) -> Transition {
    match state {
        SchedulerState::OnBreak { mode: BreakMode::Notify, .. } => end_break(
            config,
            seq![close(WindowKind::Notify)],
        ),
        _ => Transition { state, actions: Seq::empty() },
    }
}

/// What an event from the user interface does to settings and state.
pub open spec fn handle_spec(config: BreakConfig, state: SchedulerState, event: SchedulerEvent) -> Verdict {
    match event {
        SchedulerEvent::StartTimer => Verdict { config, outcome: start_spec(config, state) },
        SchedulerEvent::StopTimer => Verdict { config, outcome: Ok(stop_spec(state)) },
        SchedulerEvent::SkipBreak => Verdict { config, outcome: Ok(skip_spec(config, state)) },
        SchedulerEvent::EarlyReturn => Verdict {
            config,
            outcome: Ok(early_return_spec(config, state)),
        },
        SchedulerEvent::UpdateConfig { config: replacement } => {
            if replacement.is_valid_spec() {
                Verdict {
                    config: replacement,
                    outcome: Ok(Transition { state, actions: Seq::empty() }),
                }
            } else {
                Verdict { config, outcome: Err(SchedulerError::InvalidConfig) }
            }
        },
    }
}

/// The state that a verdict leaves: the new one where the command was
/// taken, the old one where it was turned down.
pub open spec fn state_after(verdict: Verdict, before: SchedulerState) -> SchedulerState {
    match verdict.outcome {
        Ok(t) => t.state,
        Err(_) => before,
    }
}

/// The state after a run of ticks with the meeting signals `signals`, in
/// order.
pub open spec fn run_ticks(config: BreakConfig, state: SchedulerState, signals: Seq<Option<bool>>) -> SchedulerState
    decreases signals.len(),
{
    if signals.len() == 0 {
        state
    } else {
        tick_spec(config, run_ticks(config, state, signals.drop_last()), signals.last()).state
    }
}

/// The break scheduler: the settings and the one state of the cycle.
pub struct BreakScheduler {
    config: BreakConfig,
    state: SchedulerState,
}

impl BreakScheduler {
    /// The settings in force.
    pub closed spec fn config(&self) -> BreakConfig {
        self.config
    }

    /// The state of the cycle.
    pub closed spec fn state(&self) -> SchedulerState {
        self.state
    }

    /// The settings in force can always be run.
    #[verifier::type_invariant]
    spec fn settings_can_be_run(&self) -> bool {
        self.config.is_valid_spec()
    }


    /// A scheduler for `config`. It rests until the timer is started, unless
    /// the settings start the timer with the application. Settings that
    /// cannot be run are turned down.
    pub fn new(config: BreakConfig) -> (made: Result<BreakScheduler, SchedulerError>)
        ensures
            config.is_valid_spec() ==> made is Ok && made->Ok_0.config()
                == config && made->Ok_0.state() == initial_state(config),
            !config.is_valid_spec() ==> made is Err && made->Err_0
                == SchedulerError::InvalidConfig,
    {
        if !config.is_valid() {
            return Err(SchedulerError::InvalidConfig);
        }
        let state = if config.auto_start_timer {
            SchedulerState::CountingDown { remaining: config.interval_seconds() as u32 }
        } else {
            SchedulerState::Idle
        };
        Ok(BreakScheduler { config, state })
    }

    /// The state of the cycle.
    pub fn get_state(&self) -> (state: SchedulerState)
        ensures
            state == self.state(),
    {
        self.state
    }

    /// The settings in force. They can be run, whatever the scheduler has
    /// been through.
    pub fn get_config(&self) -> (config: BreakConfig)
        ensures
            config == self.config(),
            config.is_valid_spec(),
    {
        proof {
            use_type_invariant(self);
        }
        self.config
    }

    /// Whether the meeting detector is worth asking: the settings pause on
    /// meetings and the state is one that a meeting can change.
    pub fn wants_meeting_signal(&self) -> (wanted: bool)
        ensures
            wanted == (self.config().meeting_detect && self.config().auto_pause && (self.state()
                is CountingDown || self.state() is PreBreakWarning || self.state() is Paused)),
    {
        self.config.meeting_detect && self.config.auto_pause && match self.state {
            SchedulerState::CountingDown { .. } => true,
            SchedulerState::PreBreakWarning { .. } => true,
            SchedulerState::Paused { .. } => true,
            _ => false,
        }
    }

    fn rearmed_state(&self) -> (state: SchedulerState)
        ensures
            state == rearmed(self.config()),
    {
        proof {
            use_type_invariant(self);
        }
        if self.config.recurring {
            SchedulerState::CountingDown { remaining: self.config.interval_seconds() as u32 }
        } else {
            SchedulerState::Idle
        }
    }

    fn enter_break(&mut self, warned: bool) -> (actions: Vec<SchedulerAction>)
        ensures
            final(self).config() == old(self).config(),
            final(self).state() == begin_break(old(self).config(), warned).state,
            actions@ == begin_break(old(self).config(), warned).actions,
    {
        proof {
            use_type_invariant(&*self);
        }
        let duration: u32 = self.config.duration_seconds() as u32;
        let mut actions: Vec<SchedulerAction> = Vec::new();
        if warned {
            actions.push(SchedulerAction::CloseWindow { kind: WindowKind::PreBreak });
        }
        actions.push(
            SchedulerAction::ShowBreak { mode: self.config.break_mode, duration_seconds: duration },
        );
        if self.config.break_chime {
            actions.push(SchedulerAction::PlayChime);
        }
        self.state = SchedulerState::OnBreak { mode: self.config.break_mode, remaining: duration };
        assert(actions@ =~= begin_break(old(self).config(), warned).actions);
        actions
    }

    /// One tick of the clock: a second has passed. `meeting` is what the
    /// meeting detector said, or `None` where it was not asked on this tick.
    /// Returns the requests to carry out, in order.
    pub fn tick(&mut self, meeting: Option<bool>) -> (actions: Vec<SchedulerAction>)
        ensures
            final(self).config() == old(self).config(),
            final(self).state() == tick_spec(old(self).config(), old(self).state(), meeting).state,
            actions@ == tick_spec(old(self).config(), old(self).state(), meeting).actions,
    {
        proof {
            use_type_invariant(&*self);
        }
        let pausing: bool = self.config.meeting_detect && self.config.auto_pause && match meeting {
            Some(seen) => seen,
            None => false,
        };
        let resuming: bool = !(self.config.meeting_detect && self.config.auto_pause) || match meeting {
            Some(seen) => !seen,
            None => false,
        };
        assert(pausing == pauses(self.config(), meeting));
        assert(resuming == resumes(self.config(), meeting));
        match self.state {
            SchedulerState::Idle => Vec::new(),
            SchedulerState::CountingDown { remaining } => {
                let left: u32 = if remaining > 0 {
                    remaining - 1
                } else {
                    0
                };
                if pausing {
                    self.state = SchedulerState::Paused { remaining };
                    Vec::new()
                } else if self.config.pre_break && left as u64 <= self.config.lead_seconds() {
                    self.state = SchedulerState::PreBreakWarning { remaining: left };
                    let mut actions: Vec<SchedulerAction> = Vec::new();
                    actions.push(SchedulerAction::ShowPreBreak { remaining_seconds: left });
                    assert(actions@ =~= seq![
                        SchedulerAction::ShowPreBreak { remaining_seconds: left },
                    ]);
                    actions
                } else if left == 0 {
                    self.enter_break(false)
                } else {
                    self.state = SchedulerState::CountingDown { remaining: left };
                    Vec::new()
                }
            },
            SchedulerState::PreBreakWarning { remaining } => {
                let left: u32 = if remaining > 0 {
                    remaining - 1
                } else {
                    0
                };
                if pausing {
                    self.state = SchedulerState::Paused { remaining };
                    let mut actions: Vec<SchedulerAction> = Vec::new();
                    actions.push(SchedulerAction::CloseWindow { kind: WindowKind::PreBreak });
                    assert(actions@ =~= seq![close(WindowKind::PreBreak)]);
                    actions
                } else if left == 0 {
                    self.enter_break(true)
                } else {
                    self.state = SchedulerState::PreBreakWarning { remaining: left };
                    Vec::new()
                }
            },
            SchedulerState::OnBreak { mode, remaining } => {
                let left: u32 = if remaining > 0 {
                    remaining - 1
                } else {
                    0
                };
                if left == 0 {
                    self.state = self.rearmed_state();
                    let mut actions: Vec<SchedulerAction> = Vec::new();
                    actions.push(SchedulerAction::CloseWindow { kind: window_of(mode) });
                    assert(actions@ =~= seq![close(break_window(mode))]);
                    actions
                } else {
                    self.state = SchedulerState::OnBreak { mode, remaining: left };
                    Vec::new()
                }
            },
            SchedulerState::Paused { remaining } => {
                if resuming {
                    self.state = SchedulerState::CountingDown { remaining };
                }
                Vec::new()
            },
        }
    }

    /// Starts the timer: from idle the countdown is set to the full
    /// interval. A running timer turns the command down and stays as it is.
    pub fn start_timer(&mut self) -> (outcome: Result<Vec<SchedulerAction>, SchedulerError>)
        ensures
            final(self).config() == old(self).config(),
            old(self).state() is Idle ==> outcome is Ok && outcome->Ok_0@
                == Seq::<SchedulerAction>::empty() && final(self).state() == armed(
                old(self).config(),
            ),
            !(old(self).state() is Idle) ==> outcome is Err && outcome->Err_0
                == SchedulerError::AlreadyRunning && final(self).state() == old(self).state(),
            agrees(
                outcome,
                final(self).state(),
                start_spec(old(self).config(), old(self).state()),
                old(self).state(),
            ),
    {
        proof {
            use_type_invariant(&*self);
        }
        match self.state {
            SchedulerState::Idle => {
                self.state =
                SchedulerState::CountingDown { remaining: self.config.interval_seconds() as u32 };
                Ok(Vec::new())
            },
            _ => Err(SchedulerError::AlreadyRunning),
        }
    }

    /// Stops the timer from any state. The window that the state had on the
    /// screen is named for closing.
    pub fn stop_timer(&mut self) -> (actions: Vec<SchedulerAction>)
        ensures
            final(self).config() == old(self).config(),
            final(self).state() == SchedulerState::Idle,
            actions@ == stop_spec(old(self).state()).actions,
    {
        proof {
            use_type_invariant(&*self);
        }
        let mut actions: Vec<SchedulerAction> = Vec::new();
        match self.state {
            SchedulerState::PreBreakWarning { .. } => {
                actions.push(SchedulerAction::CloseWindow { kind: WindowKind::PreBreak });
            },
            SchedulerState::OnBreak { mode, .. } => {
                actions.push(SchedulerAction::CloseWindow { kind: window_of(mode) });
            },
            _ => {},
        }
        self.state = SchedulerState::Idle;
        assert(actions@ =~= stop_spec(old(self).state()).actions);
        actions
    }

    /// Skips the break, from any state. Every window of the break family is
    /// named for closing, whether it is open or not. From a break, or from
    /// the warning that announces one, the countdown is set to the full
    /// interval again, or the scheduler rests where the cycle does not
    /// recur. In any other state there is no break to skip and the state
    /// stays. The command is never turned down.
    pub fn skip_break(&mut self) -> (actions: Vec<SchedulerAction>)
        ensures
            final(self).config() == old(self).config(),
            actions@ == break_family(),
            final(self).state() == if old(self).state() is OnBreak || old(self).state()
                is PreBreakWarning {
                rearmed(old(self).config())
            } else {
                old(self).state()
            },
            final(self).state() == skip_spec(old(self).config(), old(self).state()).state,
            actions@ == skip_spec(old(self).config(), old(self).state()).actions,
    {
        proof {
            use_type_invariant(&*self);
        }
        let mut actions: Vec<SchedulerAction> = Vec::new();
        actions.push(SchedulerAction::CloseWindow { kind: WindowKind::PreBreak });
        actions.push(SchedulerAction::CloseWindow { kind: WindowKind::ForceBreak });
        actions.push(SchedulerAction::CloseWindow { kind: WindowKind::Notify });
        assert(actions@ =~= break_family());
        match self.state {
            SchedulerState::OnBreak { .. } => {
                self.state = self.rearmed_state();
            },
            SchedulerState::PreBreakWarning { .. } => {
                self.state = self.rearmed_state();
            },
            _ => {},
        }
        actions
    }

    /// The user is back before the break is over. A reminder ends: its
    /// window is named for closing and the countdown is set to the full
    /// interval again, or the scheduler rests where the cycle does not
    /// recur. A forced break cannot be left, and outside a break there is
    /// nothing to leave: the state stays and nothing is closed. The command
    /// is never turned down.
    pub fn early_return_from_break(&mut self) -> (actions: Vec<SchedulerAction>)
        ensures
            final(self).config() == old(self).config(),
            final(self).state() == early_return_spec(
                old(self).config(),
                old(self).state(),
            ).state,
            actions@ == early_return_spec(old(self).config(), old(self).state()).actions,
    {
        proof {
            use_type_invariant(&*self);
        }
        match self.state {
            SchedulerState::OnBreak { mode: BreakMode::Notify, .. } => {
                let mut actions: Vec<SchedulerAction> = Vec::new();
                actions.push(SchedulerAction::CloseWindow { kind: WindowKind::Notify });
                self.state = self.rearmed_state();
                assert(actions@ =~= seq![close(WindowKind::Notify)]);
                actions
            },
            _ => Vec::new(),
        }
    }

    /// Puts new settings in force. The state stays as it is; the new
    /// interval counts from the next time the countdown is set. Settings
    /// that cannot be run are turned down and the old ones stay.
    pub fn update_config(&mut self, config: BreakConfig) -> (outcome: Result<(), SchedulerError>)
        ensures
            final(self).state() == old(self).state(),
            config.is_valid_spec() ==> outcome is Ok && final(self).config() == config,
            !config.is_valid_spec() ==> outcome is Err && outcome->Err_0
                == SchedulerError::InvalidConfig && final(self).config() == old(self).config(),
    {
        if config.is_valid() {
            self.config = config;
            Ok(())
        } else {
            Err(SchedulerError::InvalidConfig)
        }
    }

    /// Applies one event from the user interface.
    pub fn handle(&mut self, event: SchedulerEvent) -> (outcome: Result<
        Vec<SchedulerAction>,
        SchedulerError,
    >)
        ensures
            final(self).config() == handle_spec(
                old(self).config(),
                old(self).state(),
                event,
            ).config,
            agrees(
                outcome,
                final(self).state(),
                handle_spec(old(self).config(), old(self).state(), event).outcome,
                old(self).state(),
            ),
    {
        match event {
            SchedulerEvent::StartTimer => self.start_timer(),
            SchedulerEvent::StopTimer => Ok(self.stop_timer()),
            SchedulerEvent::SkipBreak => Ok(self.skip_break()),
            SchedulerEvent::EarlyReturn => Ok(self.early_return_from_break()),
            SchedulerEvent::UpdateConfig { config } => match self.update_config(config) {
                Ok(()) => Ok(Vec::new()),
                Err(e) => Err(e),
            },
        }
    }

    /// One tick of the clock together with the event from the user interface
    /// that arrived with it, if any. The event goes first, so that a skip or
    /// an early return wins over what the clock would have done; the tick
    /// then works on the state that the event left. Returns what the event
    /// came to and the requests of the tick.
    pub fn advance(&mut self, pending: Option<SchedulerEvent>, meeting: Option<bool>) -> (done: (
        Option<Result<Vec<SchedulerAction>, SchedulerError>>,
        Vec<SchedulerAction>,
    ))
        ensures
            final(self).config() == settled(old(self).config(), old(self).state(), pending).0,
            final(self).state() == tick_spec(
                settled(old(self).config(), old(self).state(), pending).0,
                settled(old(self).config(), old(self).state(), pending).1,
                meeting,
            ).state,
            done.1@ == tick_spec(
                settled(old(self).config(), old(self).state(), pending).0,
                settled(old(self).config(), old(self).state(), pending).1,
                meeting,
            ).actions,
            match pending {
                Some(event) => done.0 is Some && agrees(
                    done.0->0,
                    settled(old(self).config(), old(self).state(), pending).1,
                    handle_spec(old(self).config(), old(self).state(), event).outcome,
                    old(self).state(),
                ),
                None => done.0 is None,
            },
    {
        let handled = match pending {
            Some(event) => Some(self.handle(event)),
            None => None,
        };
        let actions = self.tick(meeting);
        (handled, actions)
    }
}

/// The window in which a break of `mode` is shown.
pub fn window_of(mode: BreakMode) -> (kind: WindowKind)
    ensures
        kind == break_window(mode),
{
    match mode {
        BreakMode::Notify => WindowKind::Notify,
        BreakMode::Force => WindowKind::ForceBreak,
    }
}

/// What a command returned and left agrees with what the model says: the
/// same requests and the new state where it was taken, the same error and
/// the old state where it was turned down.
pub open spec fn agrees(
    outcome: Result<Vec<SchedulerAction>, SchedulerError>,
    after: SchedulerState,
    model: Result<Transition, SchedulerError>,
    before: SchedulerState,
) -> bool {
    match model {
        Ok(t) => outcome is Ok && outcome->Ok_0@ == t.actions && after == t.state,
        Err(e) => outcome is Err && outcome->Err_0 == e && after == before,
    }
}

/// Settings and state after the event that arrived with a tick, if any.
pub open spec fn settled(config: BreakConfig, state: SchedulerState, pending: Option<SchedulerEvent>) -> (
    BreakConfig,
    SchedulerState,
) {
    match pending {
        Some(event) => {
            let verdict = handle_spec(config, state, event);
            (verdict.config, state_after(verdict, state))
        },
        None => (config, state),
    }
}

/// The tick of a cycle on which the warning appears, counted from the
/// setting of the countdown: when the countdown comes down to the lead time,
/// and not before the first tick.
pub open spec fn warning_tick(config: BreakConfig) -> int {
    if config.interval_spec() - config.lead_spec() >= 1 {
        config.interval_spec() - config.lead_spec()
    } else {
        1
    }
}

/// The tick of a cycle on which the break begins where warnings are on: when
/// the countdown comes down to zero, and not before the warning has been on
/// for a tick.
pub open spec fn break_tick(config: BreakConfig) -> int {
    if config.interval_spec() >= warning_tick(config) + 1 {
        config.interval_spec()
    } else {
        warning_tick(config) + 1
    }
}

/// What is left of the full interval after `ticks` seconds.
pub open spec fn left_after(config: BreakConfig, ticks: int) -> u32 {
    if ticks <= config.interval_spec() {
        (config.interval_spec() - ticks) as u32
    } else {
        0
    }
}

/// None of the signals suspends the countdown.
pub open spec fn undisturbed(config: BreakConfig, signals: Seq<Option<bool>>) -> bool {
    forall|i: int| 0 <= i < signals.len() ==> !pauses(config, #[trigger] signals[i])
}

/// Where warnings are on, a cycle that no meeting disturbs goes through the
/// warning exactly once before the break: from the setting of the countdown
/// the scheduler counts down until `warning_tick`, shows the warning from
/// then until `break_tick`, and on that tick begins the break.
pub proof fn lemma_one_warning_per_cycle(config: BreakConfig, signals: Seq<Option<bool>>)
    requires
        config.is_valid_spec(),
        config.pre_break,
        undisturbed(config, signals),
        signals.len() <= break_tick(config),
    ensures
        1 <= warning_tick(config) < break_tick(config),
        signals.len() < warning_tick(config) ==> run_ticks(config, armed(config), signals)
            == (SchedulerState::CountingDown {
            remaining: left_after(config, signals.len() as int),
        }),
        warning_tick(config) <= signals.len() < break_tick(config) ==> run_ticks(
            config,
            armed(config),
            signals,
        ) == (SchedulerState::PreBreakWarning {
            remaining: left_after(config, signals.len() as int),
        }),
        signals.len() == break_tick(config) ==> run_ticks(config, armed(config), signals)
            == begin_break(config, true).state,
    decreases signals.len(),
{
    if signals.len() > 0 {
        let earlier = signals.drop_last();
        assert forall|i: int| 0 <= i < earlier.len() implies !pauses(
            config,
            #[trigger] earlier[i],
        ) by {
            assert(earlier[i] == signals[i]);
        }
        lemma_one_warning_per_cycle(config, earlier);
        assert(!pauses(config, signals[signals.len() - 1]));
    }
}

/// How often a run of ticks enters the warning: the number of ticks before
/// which the warning was not on and after which it is.
pub open spec fn warning_entries(
    config: BreakConfig,
    start: SchedulerState,
    signals: Seq<Option<bool>>,
) -> nat
    decreases signals.len(),
{
    if signals.len() == 0 {
        0
    } else {
        let before = run_ticks(config, start, signals.drop_last());
        let after = run_ticks(config, start, signals);
        warning_entries(config, start, signals.drop_last()) + if !(before is PreBreakWarning)
            && after is PreBreakWarning {
            1nat
        } else {
            0nat
        }
    }
}

/// No meeting interrupts the warning in this run: on no tick is the warning
/// on the screen and the signal one that suspends the countdown.
pub open spec fn warning_uninterrupted(
    config: BreakConfig,
    start: SchedulerState,
    signals: Seq<Option<bool>>,
) -> bool {
    forall|k: int|
        0 <= k < signals.len() ==> !(#[trigger] run_ticks(config, start, signals.take(k))
            is PreBreakWarning && pauses(config, signals[k]))
}

/// No break has begun before the last tick of this run.
pub open spec fn no_break_before_last(
    config: BreakConfig,
    start: SchedulerState,
    signals: Seq<Option<bool>>,
) -> bool {
    forall|k: int|
        0 <= k < signals.len() ==> !(#[trigger] run_ticks(config, start, signals.take(k))
            is OnBreak)
}

/// Where warnings are on, every cycle goes through the warning exactly once
/// before the break, whatever the settings and however often a meeting
/// suspends the countdown, as long as no meeting interrupts the warning
/// itself: from the setting of the countdown up to the tick on which the
/// break begins, the warning has not been entered while the scheduler counts
/// down or is paused, and has been entered once when the warning is on and
/// when the break begins. (A meeting that interrupts the warning closes it,
/// and the warning comes a second time when the countdown goes on.)
pub proof fn lemma_warning_once_before_break(config: BreakConfig, signals: Seq<Option<bool>>)
    requires
        config.pre_break,
        warning_uninterrupted(config, armed(config), signals),
        no_break_before_last(config, armed(config), signals),
    ensures
        !(run_ticks(config, armed(config), signals) is Idle),
        run_ticks(config, armed(config), signals) is CountingDown || run_ticks(
            config,
            armed(config),
            signals,
        ) is Paused ==> warning_entries(config, armed(config), signals) == 0,
        run_ticks(config, armed(config), signals) is PreBreakWarning ==> warning_entries(
            config,
            armed(config),
            signals,
        ) == 1,
        run_ticks(config, armed(config), signals) is OnBreak ==> warning_entries(
            config,
            armed(config),
            signals,
        ) == 1 && run_ticks(config, armed(config), signals.drop_last()) is PreBreakWarning,
    decreases signals.len(),
{
    if signals.len() > 0 {
        let earlier = signals.drop_last();
        let last = signals.len() - 1;
        assert(signals.take(last) =~= earlier);
        assert forall|k: int| 0 <= k < earlier.len() implies !(#[trigger] run_ticks(
            config,
            armed(config),
            earlier.take(k),
        ) is PreBreakWarning && pauses(config, earlier[k])) by {
            assert(earlier.take(k) =~= signals.take(k));
            assert(earlier[k] == signals[k]);
        }
        assert forall|k: int| 0 <= k < earlier.len() implies !(#[trigger] run_ticks(
            config,
            armed(config),
            earlier.take(k),
        ) is OnBreak) by {
            assert(earlier.take(k) =~= signals.take(k));
        }
        lemma_warning_once_before_break(config, earlier);
        let before = run_ticks(config, armed(config), earlier);
        assert(before == run_ticks(config, armed(config), signals.take(last)));
        assert(!(before is OnBreak));
        assert(!(before is PreBreakWarning && pauses(config, signals[last])));
    }
}

/// A meeting that is detected while the countdown runs suspends it at its
/// value; the value stays while the meeting lasts, whatever the number of
/// ticks; and when the meeting is seen to be over the countdown goes on from
/// exactly that value.
pub proof fn lemma_pause_keeps_countdown(
    config: BreakConfig,
    remaining: u32,
    during: Seq<Option<bool>>,
)
    requires
        config.meeting_detect,
        config.auto_pause,
        forall|i: int| 0 <= i < during.len() ==> #[trigger] during[i] != Some(false),
    ensures
        tick_spec(config, SchedulerState::CountingDown { remaining }, Some(true)).state == (
        SchedulerState::Paused { remaining }),
        tick_spec(config, SchedulerState::CountingDown { remaining }, Some(true)).actions
            == Seq::<SchedulerAction>::empty(),
        run_ticks(config, SchedulerState::Paused { remaining }, during) == (
        SchedulerState::Paused { remaining }),
        tick_spec(config, SchedulerState::Paused { remaining }, Some(false)).state == (
        SchedulerState::CountingDown { remaining }),
    decreases during.len(),
{
    if during.len() > 0 {
        let earlier = during.drop_last();
        assert forall|i: int| 0 <= i < earlier.len() implies #[trigger] earlier[i] != Some(
            false,
        ) by {
            assert(earlier[i] == during[i]);
        }
        lemma_pause_keeps_countdown(config, remaining, earlier);
        assert(during[during.len() - 1] != Some(false));
    }
}

/// Skipping a forced break closes the window of the forced break and sets
/// the countdown to the full interval again; where the cycle does not recur
/// the scheduler rests instead.
pub proof fn lemma_skip_forced_break(config: BreakConfig, remaining: u32)
    ensures
        skip_spec(
            config,
            SchedulerState::OnBreak { mode: BreakMode::Force, remaining },
        ).actions.contains(close(WindowKind::ForceBreak)),
        config.recurring ==> skip_spec(
            config,
            SchedulerState::OnBreak { mode: BreakMode::Force, remaining },
        ).state == (SchedulerState::CountingDown { remaining: config.interval_spec() as u32 }),
        !config.recurring ==> skip_spec(
            config,
            SchedulerState::OnBreak { mode: BreakMode::Force, remaining },
        ).state == SchedulerState::Idle,
{
    assert(break_family()[1] == close(WindowKind::ForceBreak));
}

} // verus!
