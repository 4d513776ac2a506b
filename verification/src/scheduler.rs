//! The refresh scheduler: a state machine that decides, the surrounding
//! program that performs.
//!
//! The scheduler never sleeps or injects anything itself. It hands out one
//! [`Command`] at a time — sleep for so many milliseconds, inject one event,
//! or stop — and the surrounding program carries the command out and reports
//! back one [`Event`]: the sleep elapsed, the injection succeeded or failed,
//! or the user interrupt arrived. Every decision of the loop — when the
//! settle delay ends, which plan step comes next, what a failed injection
//! aborts, how long the inter-attempt wait is, and that an interrupt ends
//! everything — is made here, and verified.
//!
//! The cycle is: an initial settle delay ([`Settling`](Phase::Settling)),
//! then attempts of the refresh plan ([`Sequencing`](Phase::Sequencing)),
//! each followed by a wait of the configured number of minutes
//! ([`Waiting`](Phase::Waiting)), forever — until the interrupt moves any
//! live state to [`Terminated`](Phase::Terminated).

use vstd::prelude::*;

use crate::input::InputEvent;
use crate::sequence::{refresh_sequence, refresh_sequence_spec, Step};

verus! {

/// Milliseconds in one minute.
pub const MINUTE_MS: u64 = 60000;

/// The settle delay before the first attempt, in milliseconds.
pub const SETTLE_MS: u64 = 5000;

/// The default refresh interval, in minutes.
pub const DEFAULT_INTERVAL_MINUTES: u64 = 15;

/// The largest interval, in minutes, whose wait still fits in a `u64` of
/// milliseconds.
pub const MAX_INTERVAL_MINUTES: u64 = u64::MAX / MINUTE_MS;

/// Where the scheduler stands in its settle/attempt/wait cycle.
#[derive(Clone, Copy, Debug, PartialEq, Eq, Structural)]
pub enum Phase {
    /// The initial settle delay is running; no attempt has started yet.
    Settling,
    /// A refresh attempt is running; `step` is the index of the plan step
    /// whose command is outstanding.
    Sequencing { step: usize },
    /// An attempt has ended; the inter-attempt wait is running.
    Waiting,
    /// The user interrupt arrived; nothing further happens.
    Terminated,
}

/// What the surrounding program reports after carrying out a command.
#[derive(Clone, Copy, Debug, PartialEq, Eq, Structural)]
pub enum Event {
    /// The commanded sleep ran to completion.
    Elapsed,
    /// The commanded injection was delivered.
    InjectOk,
    /// The commanded injection failed at the OS level.
    InjectFailed,
    /// The user interrupt arrived instead of the command's completion.
    Interrupted,
}

/// What the scheduler asks the surrounding program to do next.
#[derive(Clone, Copy, Debug, PartialEq, Eq, Structural)]
pub enum Command {
    /// Suspend for the given number of milliseconds, or until interrupted.
    Sleep(u64),
    /// Inject one synthetic input event and report whether it was delivered.
    Inject(InputEvent),
    /// Terminate: no further attempts.
    Stop,
}

/// The fixed plan every attempt follows.
pub open spec fn plan() -> Seq<Step> {
    refresh_sequence_spec()
}

/// The command that carries out step `k` of the plan.
pub open spec fn step_command(k: int) -> Command {
    match plan()[k] {
        Step::Inject(ev) => Command::Inject(ev),
        Step::Pause(ms) => Command::Sleep(ms),
    }
}

/// The scheduler's whole state: the immutable configuration (the interval),
/// the attempt counter, and the phase of the cycle.
#[derive(Clone, Copy, Debug, PartialEq, Eq, Structural)]
pub struct Scheduler {
    /// The configured interval between attempts, in minutes.
    pub interval: u64,
    /// How many refresh sequences have been attempted so far.
    pub attempts: u64,
    /// Where the scheduler stands in its cycle.
    pub phase: Phase,
}

impl Scheduler {
    /// A state is well formed when the interval is positive and small
    /// enough that the inter-attempt wait fits in a `u64` of milliseconds,
    /// and a running attempt points at a real step of the plan.
    pub open spec fn wf(self) -> bool {
        &&& 1 <= self.interval <= MAX_INTERVAL_MINUTES
        &&& (self.phase matches Phase::Sequencing { step } ==> step < plan().len())
    }

    /// Which events the surrounding program may report in this state: the
    /// completion of the outstanding command, or — in any live state — the
    /// user interrupt.
    pub open spec fn accepts(self, ev: Event) -> bool {
        match self.phase {
            Phase::Settling => ev == Event::Elapsed || ev == Event::Interrupted,
            Phase::Sequencing { step } => ev == Event::Interrupted || (match plan()[step as int] {
                Step::Inject(_) => ev == Event::InjectOk || ev == Event::InjectFailed,
                Step::Pause(_) => ev == Event::Elapsed,
            }),
            Phase::Waiting => ev == Event::Elapsed || ev == Event::Interrupted,
            Phase::Terminated => false,
        }
    }

    /// The state after `ev` is reported in state `self`: the interrupt
    /// terminates from anywhere; the settle delay or the wait elapsing
    /// starts a fresh attempt and counts it; a delivered step advances the
    /// attempt, its last step ending it; a failed injection abandons the
    /// rest of the attempt for the wait.
    pub open spec fn next_spec(self, ev: Event) -> Scheduler {
        if ev == Event::Interrupted {
            Scheduler { phase: Phase::Terminated, ..self }
        } else {
            match self.phase {
                Phase::Settling => Scheduler {
                    attempts: (self.attempts + 1) as u64,
                    phase: Phase::Sequencing { step: 0 },
                    ..self
                },
                Phase::Sequencing { step } => {
                    if ev == Event::InjectFailed {
                        Scheduler { phase: Phase::Waiting, ..self }
                    } else if step + 1 < plan().len() {
                        Scheduler { phase: Phase::Sequencing { step: (step + 1) as usize }, ..self }
                    } else {
                        Scheduler { phase: Phase::Waiting, ..self }
                    }
                },
                Phase::Waiting => Scheduler {
                    attempts: (self.attempts + 1) as u64,
                    phase: Phase::Sequencing { step: 0 },
                    ..self
                },
                Phase::Terminated => self,
            }
        }
    }

    /// The command handed out with the transition on `ev`: the next plan
    /// step while an attempt runs, the full interval wait when one ends,
    /// and stop on the interrupt.
    pub open spec fn command_spec(self, ev: Event) -> Command {
        match self.next_spec(ev).phase {
            Phase::Terminated => Command::Stop,
            Phase::Sequencing { step } => step_command(step as int),
            Phase::Waiting => Command::Sleep((self.interval * MINUTE_MS) as u64),
            Phase::Settling => Command::Sleep(SETTLE_MS),
        }
    }

    /// A fresh scheduler for the given interval: no attempt counted yet,
    /// settling.
    pub fn new(interval_minutes: u64) -> (s: Scheduler)
        requires
            1 <= interval_minutes <= MAX_INTERVAL_MINUTES,
        ensures
            s == (Scheduler {
                interval: interval_minutes,
                attempts: 0,
                phase: Phase::Settling,
            }),
            s.wf(),
    {
        Scheduler { interval: interval_minutes, attempts: 0, phase: Phase::Settling }
    }

    /// The first command of the cycle: the settle delay, before any attempt.
    pub fn initial_command(&self) -> (c: Command)
        requires
            self.phase is Settling,
        ensures
            c == Command::Sleep(SETTLE_MS),
    {
        Command::Sleep(SETTLE_MS)
    }

    /// Reports the outcome of the last command and returns the next one.
    pub fn on_event(&mut self, ev: Event) -> (c: Command)
        requires
            old(self).wf(),
            old(self).accepts(ev),
            old(self).attempts < u64::MAX,
        ensures
            *final(self) == old(self).next_spec(ev),
            c == old(self).command_spec(ev),
            final(self).wf(),
    {
        match ev {
            Event::Interrupted => {
                self.phase = Phase::Terminated;
                Command::Stop
            },
            _ => {
                let phase = self.phase;
                match phase {
                    Phase::Settling => {
                        self.attempts = self.attempts + 1;
                        self.phase = Phase::Sequencing { step: 0 };
                        let p = refresh_sequence();
                        plan_command(&p, 0)
                    },
                    Phase::Sequencing { step } => {
                        if ev == Event::InjectFailed {
                            self.phase = Phase::Waiting;
                            Command::Sleep(self.interval * MINUTE_MS)
                        } else {
                            let p = refresh_sequence();
                            if step + 1 < p.len() {
                                self.phase = Phase::Sequencing { step: step + 1 };
                                plan_command(&p, step + 1)
                            } else {
                                self.phase = Phase::Waiting;
                                Command::Sleep(self.interval * MINUTE_MS)
                            }
                        }
                    },
                    Phase::Waiting => {
                        self.attempts = self.attempts + 1;
                        self.phase = Phase::Sequencing { step: 0 };
                        let p = refresh_sequence();
                        plan_command(&p, 0)
                    },
                    Phase::Terminated => {
                        proof {
                            assert(false);
                        }
                        Command::Stop
                    },
                }
            },
        }
    }
}

/// Every transition keeps the state well formed and never touches the
/// configuration: the interval is immutable for the scheduler's lifetime.
pub proof fn lemma_step_preserves_wf(s: Scheduler, ev: Event)
    requires
        s.wf(),
        s.accepts(ev),
    ensures
        s.next_spec(ev).wf(),
        s.next_spec(ev).interval == s.interval,
{
}

/// Whenever an attempt ends — its last step delivered, or any step failed —
/// the scheduler commands a sleep of exactly the configured number of
/// minutes, converted to milliseconds, and that product fits in a `u64`.
pub proof fn lemma_interval_wait(s: Scheduler, ev: Event)
    requires
        s.wf(),
        s.accepts(ev),
        s.next_spec(ev).phase is Waiting,
    ensures
        s.interval * MINUTE_MS <= u64::MAX,
        s.command_spec(ev) == Command::Sleep((s.interval * MINUTE_MS) as u64),
        (s.interval * MINUTE_MS) as u64 == s.interval * MINUTE_MS,
{
}

/// From `Waiting`, a next sequence starts only once the full wait has
/// elapsed, and then at the first step of the plan; the interrupt instead
/// ends everything.
pub proof fn lemma_wait_then_next_attempt(s: Scheduler, ev: Event)
    requires
        s.wf(),
        s.accepts(ev),
        s.phase is Waiting,
    ensures
        ev == Event::Elapsed ==> s.next_spec(ev).phase == (Phase::Sequencing { step: 0usize })
            && s.command_spec(ev) == step_command(0),
        ev == Event::Interrupted ==> s.next_spec(ev).phase is Terminated,
{
}

/// The attempt counter never decreases, and it increases — by exactly one —
/// exactly when a new attempt starts: on the settle delay or an
/// inter-attempt wait elapsing, and never otherwise.
pub proof fn lemma_attempts_monotonic(s: Scheduler, ev: Event)
    requires
        s.wf(),
        s.accepts(ev),
        s.attempts < u64::MAX,
    ensures
        s.next_spec(ev).attempts >= s.attempts,
        s.next_spec(ev).attempts <= s.attempts + 1,
        (s.next_spec(ev).attempts == s.attempts + 1) <==> (ev != Event::Interrupted && (
        s.phase is Settling || s.phase is Waiting)),
        s.next_spec(ev).phase == (Phase::Sequencing { step: 0usize }) ==> s.next_spec(
            ev,
        ).attempts == s.attempts + 1,
{
    crate::sequence::lemma_refresh_sequence_len();
}

/// In any live state the user interrupt moves the scheduler straight to
/// `Terminated`, commands a stop, and leaves the attempt counter unchanged:
/// delivered during the settle delay it leaves the counter at zero, and
/// delivered during the wait no further sequence starts.
pub proof fn lemma_interrupt_terminates(s: Scheduler)
    requires
        s.wf(),
        !(s.phase is Terminated),
    ensures
        s.next_spec(Event::Interrupted).phase is Terminated,
        s.next_spec(Event::Interrupted).attempts == s.attempts,
        s.next_spec(Event::Interrupted).interval == s.interval,
        s.command_spec(Event::Interrupted) == Command::Stop,
{
}

/// An interrupt during the settle delay terminates at once with zero
/// attempts: from the fresh state, no sequence is ever started.
pub proof fn lemma_interrupt_while_settling(interval: u64)
    requires
        1 <= interval <= MAX_INTERVAL_MINUTES,
    ensures
        ({
            let s = Scheduler { interval, attempts: 0, phase: Phase::Settling };
            &&& s.next_spec(Event::Interrupted) == (Scheduler {
                interval,
                attempts: 0,
                phase: Phase::Terminated,
            })
            &&& s.command_spec(Event::Interrupted) == Command::Stop
        }),
{
}

/// A failed injection at step `k` abandons steps `k+1..` of that attempt —
/// the scheduler goes straight to `Waiting`, issuing no further plan step —
/// but does not terminate: the full interval wait is commanded, and when it
/// elapses a fresh attempt starts at the first step, counted as usual.
pub proof fn lemma_failure_aborts_attempt(s: Scheduler, k: usize)
    requires
        s.wf(),
        s.phase == (Phase::Sequencing { step: k }),
        s.accepts(Event::InjectFailed),
        s.attempts < u64::MAX,
    ensures
        s.next_spec(Event::InjectFailed).phase is Waiting,
        s.next_spec(Event::InjectFailed).attempts == s.attempts,
        s.command_spec(Event::InjectFailed) == Command::Sleep((s.interval * MINUTE_MS) as u64),
        s.next_spec(Event::InjectFailed).next_spec(Event::Elapsed).phase == (Phase::Sequencing {
            step: 0usize,
        }),
        s.next_spec(Event::InjectFailed).next_spec(Event::Elapsed).attempts == s.attempts + 1,
{
}

/// Reads the command for step `k` out of a built copy of the plan.
fn plan_command(p: &Vec<Step>, k: usize) -> (c: Command)
    requires
        p@ == plan(),
        k < plan().len(),
    ensures
        c == step_command(k as int),
{
    match p[k] {
        Step::Inject(ev) => Command::Inject(ev),
        Step::Pause(ms) => Command::Sleep(ms),
    }
}

} // verus!

