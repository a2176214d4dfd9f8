//! The decisions of the splash loop, as a state machine.
//!
//! The caller owns the window, the child process, the clock and the sleep.
//! It performs the `Action` that the machine hands out, reports what came of
//! it as an `Event`, and stops once the action is `Stop`:
//! - `PumpMessages`: drain the window's message queue, report `Pumped`.
//! - `Redraw`: repaint the splash for the given frame, then read the clock and
//!   report `Clock`.
//! - `ReadClock`: read the time since the child was spawned, report `Clock`.
//! - `PollChild`: check without blocking whether the child has exited, report
//!   `Status`.
//! - `Sleep`: sleep for the given milliseconds, then drain the message queue
//!   and report `Pumped`.
//! - `Stop`: the loop is over, for the reason given.
use vstd::prelude::*;

verus! {

/// The splash stays up at least this long, in milliseconds.
pub const MIN_DISPLAY_MS: u64 = 2000;

/// Pause between two iterations of the loop, in milliseconds.
pub const FRAME_INTERVAL_MS: u64 = 16;

/// What a non-blocking status check of the child found.
#[derive(Clone, Copy, Debug, PartialEq, Eq)]
pub enum ChildStatus {
    Exited { code: Option<i32> },
    Running,
    /// The check itself failed.
    Unknown,
}

/// Why the loop ended.
#[derive(Clone, Copy, Debug, PartialEq, Eq)]
pub enum LoopExit {
    /// The window system asked the application to quit.
    QuitMessage,
    /// The floor had passed and the child had exited.
    ChildExited { code: Option<i32> },
    /// The floor had passed and the child was still running.
    ChildRunning,
    /// The floor had passed and the child's status could not be read; the
    /// child is taken to be running.
    StatusUnknown,
}

/// What the caller reports back.
#[derive(Clone, Copy, Debug, PartialEq, Eq)]
pub enum Event {
    /// The message queue was drained; `quit` if a quit message was seen.
    Pumped { quit: bool },
    /// Milliseconds since the child was spawned.
    Clock { elapsed_ms: u64 },
    /// The result of a status check of the child.
    Status { status: ChildStatus },
}

/// What the caller is to do next.
#[derive(Clone, Copy, Debug, PartialEq, Eq)]
pub enum Action {
    PumpMessages,
    Redraw { frame: u32 },
    ReadClock,
    PollChild,
    Sleep { ms: u64 },
    Stop { exit: LoopExit },
}

/// Which report the machine waits for.
#[derive(Clone, Copy, Debug, PartialEq, Eq)]
pub enum Phase {
    /// Waits for `Pumped`.
    Pump,
    /// Waits for `Clock`.
    Clock,
    /// Waits for `Status`.
    Poll,
    /// The loop is over.
    Done { exit: LoopExit },
}

#[derive(Clone, Copy, Debug)]
pub struct SplashLoop {
    /// The frame counter; it wraps around at the end of its range.
    pub frame: u32,
    /// The latest clock reading, in milliseconds since the spawn.
    pub elapsed_ms: u64,
    pub phase: Phase,
}

/// The frame after `frame`, wrapping around to zero.
pub open spec fn next_frame(frame: u32) -> u32 {
    if frame == u32::MAX {
        0
    } else {
        (frame + 1) as u32
    }
}

/// How a status check ends the loop: a check that fails counts as a running
/// child.
pub open spec fn exit_for(status: ChildStatus) -> LoopExit {
    match status {
        ChildStatus::Exited { code } => LoopExit::ChildExited { code },
        ChildStatus::Running => LoopExit::ChildRunning,
        ChildStatus::Unknown => LoopExit::StatusUnknown,
    }
}

impl SplashLoop {
    /// The state before the first iteration.
    pub open spec fn initial() -> SplashLoop {
        SplashLoop { frame: 0, elapsed_ms: 0, phase: Phase::Pump }
    }

    /// A status check happens only once the floor has passed, and the loop
    /// ends for a reason other than a quit message only once it has passed.
    pub open spec fn wf(self) -> bool {
        &&& (self.phase is Poll ==> self.elapsed_ms >= MIN_DISPLAY_MS)
        &&& (self.phase matches Phase::Done { exit } && exit != LoopExit::QuitMessage
            ==> self.elapsed_ms >= MIN_DISPLAY_MS)
    }

    /// The action that the current phase asks for.
    pub open spec fn pending(self) -> Action {
        match self.phase {
            Phase::Pump => Action::PumpMessages,
            Phase::Clock => Action::ReadClock,
            Phase::Poll => Action::PollChild,
            Phase::Done { exit } => Action::Stop { exit },
        }
    }

    /// The next state and action after `event`. An event that the phase does
    /// not wait for changes nothing and repeats the pending action.
    pub open spec fn after(self, event: Event) -> (SplashLoop, Action) {
        match (self.phase, event) {
            (Phase::Pump, Event::Pumped { quit }) => if quit {
                (
                    SplashLoop { phase: Phase::Done { exit: LoopExit::QuitMessage }, ..self },
                    Action::Stop { exit: LoopExit::QuitMessage },
                )
            } else {
                (
                    SplashLoop { frame: next_frame(self.frame), phase: Phase::Clock, ..self },
                    Action::Redraw { frame: next_frame(self.frame) },
                )
            },
            (Phase::Clock, Event::Clock { elapsed_ms }) => if elapsed_ms >= MIN_DISPLAY_MS {
                (SplashLoop { elapsed_ms, phase: Phase::Poll, ..self }, Action::PollChild)
            } else {
                (
                    SplashLoop { elapsed_ms, phase: Phase::Pump, ..self },
                    Action::Sleep { ms: FRAME_INTERVAL_MS },
                )
            },
            (Phase::Poll, Event::Status { status }) => (
                SplashLoop { phase: Phase::Done { exit: exit_for(status) }, ..self },
                Action::Stop { exit: exit_for(status) },
            ),
            _ => (self, self.pending()),
        }
    }

    /// The state after each event of `events` in turn.
    pub open spec fn run(self, events: Seq<Event>) -> SplashLoop
        decreases events.len(),
    {
        if events.len() == 0 {
            self
        } else {
            self.after(events[0]).0.run(events.drop_first())
        }
    }

    /// Returns the state before the first iteration.
    pub fn new() -> (r: SplashLoop)
        ensures
            r == SplashLoop::initial(),
            r.wf(),
    {
        SplashLoop { frame: 0, elapsed_ms: 0, phase: Phase::Pump }
    }

    /// Returns the action that the current phase asks for.
    pub fn pending_action(&self) -> (r: Action)
        ensures
            r == self.pending(),
    {
        match self.phase {
            Phase::Pump => Action::PumpMessages,
            Phase::Clock => Action::ReadClock,
            Phase::Poll => Action::PollChild,
            Phase::Done { exit } => Action::Stop { exit },
        }
    }

    /// Takes in what came of the last action and returns the next one.
    pub fn step(&mut self, event: Event) -> (r: Action)
        ensures
            (*final(self), r) == old(self).after(event),
            old(self).wf() ==> final(self).wf(),
    {
        match (self.phase, event) {
            (Phase::Pump, Event::Pumped { quit }) => {
                if quit {
                    self.phase = Phase::Done { exit: LoopExit::QuitMessage };
                    Action::Stop { exit: LoopExit::QuitMessage }
                } else {
                    self.frame = self.frame.wrapping_add(1);
                    self.phase = Phase::Clock;
                    Action::Redraw { frame: self.frame }
                }
            },
            (Phase::Clock, Event::Clock { elapsed_ms }) => {
                self.elapsed_ms = elapsed_ms;
                if elapsed_ms >= MIN_DISPLAY_MS {
                    self.phase = Phase::Poll;
                    Action::PollChild
                } else {
                    self.phase = Phase::Pump;
                    Action::Sleep { ms: FRAME_INTERVAL_MS }
                }
            },
            (Phase::Poll, Event::Status { status }) => {
                let exit = exit_for_status(status);
                self.phase = Phase::Done { exit };
                Action::Stop { exit }
            },
            _ => self.pending_action(),
        }
    }
}

/// Every step keeps the machine well formed.
pub proof fn lemma_step_keeps_wf(state: SplashLoop, event: Event)
    requires
        state.wf(),
    ensures
        state.after(event).0.wf(),
{
}

/// The loop never ends before the minimum display time has passed, except on a
/// quit message from the window system: whatever the events, from the first
/// state on, a loop that is over for another reason last read a clock at or
/// past the floor.
pub proof fn lemma_no_exit_before_floor(events: Seq<Event>)
    ensures
        SplashLoop::initial().run(events).wf(),
        SplashLoop::initial().run(events).phase matches Phase::Done { exit }
            && exit != LoopExit::QuitMessage
            ==> SplashLoop::initial().run(events).elapsed_ms >= MIN_DISPLAY_MS,
{
    lemma_run_keeps_wf(SplashLoop::initial(), events);
}

/// Running any events from a well-formed state leaves it well formed.
pub proof fn lemma_run_keeps_wf(state: SplashLoop, events: Seq<Event>)
    requires
        state.wf(),
    ensures
        state.run(events).wf(),
    decreases events.len(),
{
    if events.len() > 0 {
        lemma_run_keeps_wf(state.after(events[0]).0, events.drop_first());
    }
}

/// Before the floor the child is not even looked at: a clock reading under it
/// sends the loop to sleep and back to the message queue, so a child that has
/// already exited leaves the splash up. At or past the floor the loop polls
/// the child, and an exited child then ends the loop with its exit code.
pub proof fn lemma_exited_child_waits_for_floor(
    state: SplashLoop,
    elapsed_ms: u64,
    code: Option<i32>,
)
    requires
        state.phase is Clock,
    ensures
        elapsed_ms < MIN_DISPLAY_MS ==> {
            &&& state.after(Event::Clock { elapsed_ms }).1 == (Action::Sleep { ms: FRAME_INTERVAL_MS })
            &&& state.after(Event::Clock { elapsed_ms }).0.phase is Pump
        },
        elapsed_ms >= MIN_DISPLAY_MS ==> {
            &&& state.after(Event::Clock { elapsed_ms }).1 == Action::PollChild
            &&& state.after(Event::Clock { elapsed_ms }).0.after(
                Event::Status { status: ChildStatus::Exited { code } },
            ).1 == (Action::Stop { exit: LoopExit::ChildExited { code } })
        },
{
}

/// A child still running once the floor has passed ends the loop at once: the
/// clock reading at the floor leads straight to a poll, and the poll straight
/// to the end, with no sleep in between.
pub proof fn lemma_running_child_ends_at_floor(state: SplashLoop, elapsed_ms: u64)
    requires
        state.phase is Clock,
        elapsed_ms >= MIN_DISPLAY_MS,
    ensures
        state.after(Event::Clock { elapsed_ms }).1 == Action::PollChild,
        state.after(Event::Clock { elapsed_ms }).0.after(
            Event::Status { status: ChildStatus::Running },
        ).1 == (Action::Stop { exit: LoopExit::ChildRunning }),
        state.after(Event::Clock { elapsed_ms }).0.after(
            Event::Status { status: ChildStatus::Unknown },
        ).1 == (Action::Stop { exit: LoopExit::StatusUnknown }),
{
}

/// Returns how a status check ends the loop: a check that fails counts as a
/// running child.
pub fn exit_for_status(status: ChildStatus) -> (r: LoopExit)
    ensures
        r == exit_for(status),
{
    match status {
        ChildStatus::Exited { code } => LoopExit::ChildExited { code },
        ChildStatus::Running => LoopExit::ChildRunning,
        ChildStatus::Unknown => LoopExit::StatusUnknown,
    }
}

} // verus!
