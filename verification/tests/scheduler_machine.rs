use deskshow::input::{InputEvent, Key};
use deskshow::scheduler::{
    Command, Event, Phase, Scheduler, DEFAULT_INTERVAL_MINUTES, MAX_INTERVAL_MINUTES, MINUTE_MS,
    SETTLE_MS,
};
use deskshow::sequence::{refresh_sequence, Step};

/// Answers commands until the running attempt ends, reporting success for
/// every injection; returns the command issued when the attempt ended and
/// the events injected along the way.
fn run_attempt(s: &mut Scheduler, mut cmd: Command) -> (Command, Vec<InputEvent>) {
    let mut injected = Vec::new();
    while matches!(s.phase, Phase::Sequencing { .. }) {
        cmd = match cmd {
            Command::Inject(ev) => {
                injected.push(ev);
                s.on_event(Event::InjectOk)
            }
            Command::Sleep(_) => s.on_event(Event::Elapsed),
            Command::Stop => panic!("stop during a running attempt"),
        };
    }
    (cmd, injected)
}

#[test]
fn fresh_scheduler_settles_first() {
    let s = Scheduler::new(15);
    assert_eq!(s.interval, 15);
    assert_eq!(s.attempts, 0);
    assert_eq!(s.phase, Phase::Settling);
    assert_eq!(s.initial_command(), Command::Sleep(SETTLE_MS));
    assert_eq!(s.initial_command(), Command::Sleep(5000));
}

#[test]
fn default_interval_is_fifteen_minutes() {
    assert_eq!(DEFAULT_INTERVAL_MINUTES, 15);
    let s = Scheduler::new(DEFAULT_INTERVAL_MINUTES);
    assert_eq!(s.interval, 15);
}

#[test]
fn interrupt_during_settle_means_zero_attempts() {
    let mut s = Scheduler::new(15);
    let cmd = s.on_event(Event::Interrupted);
    assert_eq!(cmd, Command::Stop);
    assert_eq!(s.phase, Phase::Terminated);
    assert_eq!(s.attempts, 0);
}

#[test]
fn settle_elapsing_starts_the_first_attempt() {
    let mut s = Scheduler::new(15);
    let cmd = s.on_event(Event::Elapsed);
    assert_eq!(s.attempts, 1);
    assert_eq!(s.phase, Phase::Sequencing { step: 0 });
    assert_eq!(
        cmd,
        Command::Inject(InputEvent::KeyPress(Key::MetaLeft))
    );
}

#[test]
fn completed_attempt_waits_the_full_interval() {
    let mut s = Scheduler::new(15);
    let cmd = s.on_event(Event::Elapsed);
    let (after, injected) = run_attempt(&mut s, cmd);
    assert_eq!(s.phase, Phase::Waiting);
    assert_eq!(after, Command::Sleep(15 * MINUTE_MS));
    assert_eq!(after, Command::Sleep(900000));
    // every injection of the plan ran, in order
    let plan_events: Vec<InputEvent> = refresh_sequence()
        .iter()
        .filter_map(|st| match st {
            Step::Inject(ev) => Some(*ev),
            Step::Pause(_) => None,
        })
        .collect();
    assert_eq!(injected, plan_events);
    assert_eq!(injected.len(), 13);
}

#[test]
fn each_interval_waits_its_own_minutes() {
    for interval in [1u64, 2, 15, 60, 1440] {
        let mut s = Scheduler::new(interval);
        let cmd = s.on_event(Event::Elapsed);
        let (after, _) = run_attempt(&mut s, cmd);
        assert_eq!(after, Command::Sleep(interval * 60 * 1000));
    }
}

#[test]
fn largest_interval_still_fits() {
    let mut s = Scheduler::new(MAX_INTERVAL_MINUTES);
    let cmd = s.on_event(Event::Elapsed);
    let (after, _) = run_attempt(&mut s, cmd);
    assert_eq!(after, Command::Sleep(MAX_INTERVAL_MINUTES * MINUTE_MS));
}

#[test]
fn interrupt_during_wait_starts_no_further_sequence() {
    let mut s = Scheduler::new(15);
    let cmd = s.on_event(Event::Elapsed);
    let _ = run_attempt(&mut s, cmd);
    assert_eq!(s.phase, Phase::Waiting);
    assert_eq!(s.attempts, 1);
    let cmd = s.on_event(Event::Interrupted);
    assert_eq!(cmd, Command::Stop);
    assert_eq!(s.phase, Phase::Terminated);
    assert_eq!(s.attempts, 1);
}

#[test]
fn interrupt_mid_attempt_terminates_at_once() {
    let mut s = Scheduler::new(15);
    let cmd = s.on_event(Event::Elapsed);
    assert!(matches!(cmd, Command::Inject(_)));
    let cmd = s.on_event(Event::InjectOk);
    assert!(matches!(cmd, Command::Sleep(_)));
    let cmd = s.on_event(Event::Interrupted);
    assert_eq!(cmd, Command::Stop);
    assert_eq!(s.phase, Phase::Terminated);
    assert_eq!(s.attempts, 1);
}

#[test]
fn failed_injection_aborts_the_rest_of_the_attempt() {
    let mut s = Scheduler::new(15);
    let mut cmd = s.on_event(Event::Elapsed);
    // carry out the first two injections (meta press, D press), then fail
    // the third one (the D release)
    let mut injections = 0;
    loop {
        match cmd {
            Command::Inject(_) => {
                injections += 1;
                if injections == 3 {
                    break;
                }
                cmd = s.on_event(Event::InjectOk);
            }
            Command::Sleep(_) => cmd = s.on_event(Event::Elapsed),
            Command::Stop => panic!("stop during a running attempt"),
        }
    }
    assert_eq!(cmd, Command::Inject(InputEvent::KeyRelease(Key::KeyD)));
    let cmd = s.on_event(Event::InjectFailed);
    // the attempt is over: no further step, straight to the interval wait
    assert_eq!(s.phase, Phase::Waiting);
    assert_eq!(s.attempts, 1);
    assert_eq!(cmd, Command::Sleep(15 * MINUTE_MS));
    // the process lives on: the wait elapsing starts a fresh attempt at
    // the first step of the plan
    let cmd = s.on_event(Event::Elapsed);
    assert_eq!(s.attempts, 2);
    assert_eq!(s.phase, Phase::Sequencing { step: 0 });
    assert_eq!(cmd, Command::Inject(InputEvent::KeyPress(Key::MetaLeft)));
}

#[test]
fn attempts_count_one_per_iteration_and_never_reset() {
    let mut s = Scheduler::new(1);
    let mut cmd = s.on_event(Event::Elapsed);
    assert_eq!(s.attempts, 1);
    let mut seen = s.attempts;
    for _ in 0..5 {
        let (after, _) = run_attempt(&mut s, cmd);
        // the counter did not move while the attempt ran
        assert_eq!(s.attempts, seen);
        cmd = s.on_event(Event::Elapsed);
        // one more iteration, exactly one more attempt
        assert_eq!(s.attempts, seen + 1);
        seen = s.attempts;
        assert_eq!(after, Command::Sleep(MINUTE_MS));
    }
    assert_eq!(s.attempts, 6);
}

#[test]
fn end_to_end_one_minute_interval() {
    // interval of one minute, every injection succeeds: settle, attempt 1,
    // one-minute wait, attempt 2, then an interrupt during the second wait
    let mut s = Scheduler::new(1);
    assert_eq!(s.initial_command(), Command::Sleep(5000));
    assert_eq!(s.attempts, 0);

    let cmd = s.on_event(Event::Elapsed);
    assert_eq!(s.attempts, 1);
    let (after, injected) = run_attempt(&mut s, cmd);
    assert_eq!(injected.len(), 13);
    assert_eq!(after, Command::Sleep(60000));

    let cmd = s.on_event(Event::Elapsed);
    assert_eq!(s.attempts, 2);
    let (after, injected) = run_attempt(&mut s, cmd);
    assert_eq!(injected.len(), 13);
    assert_eq!(after, Command::Sleep(60000));

    let cmd = s.on_event(Event::Interrupted);
    assert_eq!(cmd, Command::Stop);
    assert_eq!(s.phase, Phase::Terminated);
    assert_eq!(s.attempts, 2);
}
