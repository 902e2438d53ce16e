//! The top-level run: evaluate the entry script as a promise, await it, report
//! an uncaught failure, then wait until every host task has drained before
//! the process ends.
use vstd::prelude::*;

verus! {

/// Where a run stands.
#[derive(PartialEq, Eq, Structural, Clone, Copy, Debug)]
pub enum RunPhase {
    /// The entry script is being evaluated.
    Evaluating,
    /// Evaluation produced a promise; the host awaits its settlement.
    AwaitingEntry,
    /// The entry outcome is known; the host waits for its tasks to drain.
    WaitingIdle,
    /// Every host task has completed; the run is over.
    Finished,
}

/// What the host reports back to the run.
pub enum RunEvent {
    /// Evaluation ended: `Ok` with a promise to await, or the guest
    /// exception's message.
    Evaluated(Result<(), String>),
    /// The entry promise settled: fulfilled, or rejected with this message.
    EntrySettled(Result<(), String>),
    /// No host task is outstanding any more.
    Idle,
}

/// What the host does next.
#[derive(PartialEq, Eq, Structural, Clone, Copy, Debug)]
pub enum RunAction {
    /// Await the entry promise.
    AwaitEntry,
    /// Wait until no host task is outstanding.
    WaitIdle,
    /// End the run.
    Exit,
    /// The event does not belong to this phase: nothing to do.
    Ignore,
}

/// The run's decision on an event: the next phase, the message to write to
/// the error stream (if any), and the host's next action.
pub open spec fn run_step(p: RunPhase, e: RunEvent) -> (RunPhase, Option<String>, RunAction) {
    match (p, e) {
        (RunPhase::Evaluating, RunEvent::Evaluated(Ok(()))) => (
            RunPhase::AwaitingEntry,
            None,
            RunAction::AwaitEntry,
        ),
        (RunPhase::Evaluating, RunEvent::Evaluated(Err(m))) => (
            RunPhase::WaitingIdle,
            Some(m),
            RunAction::WaitIdle,
        ),
        (RunPhase::AwaitingEntry, RunEvent::EntrySettled(Ok(()))) => (
            RunPhase::WaitingIdle,
            None,
            RunAction::WaitIdle,
        ),
        (RunPhase::AwaitingEntry, RunEvent::EntrySettled(Err(m))) => (
            RunPhase::WaitingIdle,
            Some(m),
            RunAction::WaitIdle,
        ),
        (RunPhase::WaitingIdle, RunEvent::Idle) => (RunPhase::Finished, None, RunAction::Exit),
        _ => (p, None, RunAction::Ignore),
    }
}

/// The state of a top-level run.
pub struct Run {
    pub phase: RunPhase,
}

impl Run {
    /// A run whose entry script is about to be evaluated.
    pub fn new() -> (r: Run)
        ensures
            r.phase == RunPhase::Evaluating,
    {
        Run { phase: RunPhase::Evaluating }
    }

    /// Takes one event; returns the message to write to the error stream, if
    /// any, and what the host does next.
    pub fn step(&mut self, e: RunEvent) -> (r: (Option<String>, RunAction))
        ensures
            (final(self).phase, r.0, r.1) == run_step(old(self).phase, e),
    {
        let p = self.phase;
        match p {
            RunPhase::Evaluating => match e {
                RunEvent::Evaluated(Ok(())) => {
                    self.phase = RunPhase::AwaitingEntry;
                    (None, RunAction::AwaitEntry)
                },
                RunEvent::Evaluated(Err(m)) => {
                    self.phase = RunPhase::WaitingIdle;
                    (Some(m), RunAction::WaitIdle)
                },
                _ => (None, RunAction::Ignore),
            },
            RunPhase::AwaitingEntry => match e {
                RunEvent::EntrySettled(Ok(())) => {
                    self.phase = RunPhase::WaitingIdle;
                    (None, RunAction::WaitIdle)
                },
                RunEvent::EntrySettled(Err(m)) => {
                    self.phase = RunPhase::WaitingIdle;
                    (Some(m), RunAction::WaitIdle)
                },
                _ => (None, RunAction::Ignore),
            },
            RunPhase::WaitingIdle => match e {
                RunEvent::Idle => {
                    self.phase = RunPhase::Finished;
                    (None, RunAction::Exit)
                },
                _ => (None, RunAction::Ignore),
            },
            RunPhase::Finished => (None, RunAction::Ignore),
        }
    }

    /// Whether the run is over.
    pub fn is_finished(&self) -> (r: bool)
        ensures
            r == (self.phase == RunPhase::Finished),
    {
        self.phase == RunPhase::Finished
    }
}

/// The phase and the actions of a run that takes `events` in order from phase
/// `p`.
pub open spec fn run_all(p: RunPhase, events: Seq<RunEvent>) -> (RunPhase, Seq<RunAction>)
    decreases events.len(),
{
    if events.len() == 0 {
        (p, seq![])
    } else {
        let (q, _, a) = run_step(p, events[0]);
        let (last, rest) = run_all(q, events.subrange(1, events.len() as int));
        (last, seq![a].add(rest))
    }
}

/// A run ends only when the host has found no task outstanding, after the
/// entry outcome was known: `Exit` comes only from waiting for idleness, on
/// the idle event.
pub proof fn lemma_exit_only_after_idle(p: RunPhase, e: RunEvent)
    ensures
        run_step(p, e).2 == RunAction::Exit <==> (p == RunPhase::WaitingIdle && e is Idle),
        run_step(p, e).2 == RunAction::Exit ==> run_step(p, e).0 == RunPhase::Finished,
{
}

proof fn lemma_run_len(p: RunPhase, events: Seq<RunEvent>)
    ensures
        run_all(p, events).1.len() == events.len(),
    decreases events.len(),
{
    if events.len() > 0 {
        let (q, _, a) = run_step(p, events[0]);
        lemma_run_len(q, events.subrange(1, events.len() as int));
    }
}

proof fn lemma_exit_index(p: RunPhase, events: Seq<RunEvent>) -> (j: int)
    requires
        p != RunPhase::Finished,
        run_all(p, events).0 == RunPhase::Finished,
    ensures
        0 <= j < events.len(),
        run_all(p, events).1[j] == RunAction::Exit,
    decreases events.len(),
{
    assert(events.len() > 0);
    let (q, _, a) = run_step(p, events[0]);
    let tail = events.subrange(1, events.len() as int);
    lemma_run_len(q, tail);
    assert(run_all(p, events).1 == seq![a].add(run_all(q, tail).1));
    if q == RunPhase::Finished {
        assert(a == RunAction::Exit);
        0
    } else {
        let k = lemma_exit_index(q, tail);
        k + 1
    }
}

proof fn lemma_wait_then_exit(p: RunPhase, events: Seq<RunEvent>) -> (r: (int, int))
    requires
        p == RunPhase::Evaluating || p == RunPhase::AwaitingEntry,
        run_all(p, events).0 == RunPhase::Finished,
    ensures
        0 <= r.0 < r.1 < events.len(),
        run_all(p, events).1[r.0] == RunAction::WaitIdle,
        run_all(p, events).1[r.1] == RunAction::Exit,
    decreases events.len(),
{
    assert(events.len() > 0);
    let (q, _, a) = run_step(p, events[0]);
    let tail = events.subrange(1, events.len() as int);
    lemma_run_len(q, tail);
    assert(run_all(p, events).1 == seq![a].add(run_all(q, tail).1));
    if q == RunPhase::WaitingIdle {
        assert(a == RunAction::WaitIdle);
        let k = lemma_exit_index(q, tail);
        (0, k + 1)
    } else {
        let (i, j) = lemma_wait_then_exit(q, tail);
        (i + 1, j + 1)
    }
}

/// Over any sequence of events from the start, a run that has finished has
/// asked the host to wait for idleness, and only after that did it exit.
pub proof fn lemma_run_waits_for_idle_before_exit(events: Seq<RunEvent>)
    ensures
        run_all(RunPhase::Evaluating, events).0 == RunPhase::Finished ==> exists|i: int, j: int|
            0 <= i < j < events.len() && run_all(RunPhase::Evaluating, events).1[i]
                == RunAction::WaitIdle && run_all(RunPhase::Evaluating, events).1[j]
                == RunAction::Exit,
{
    if run_all(RunPhase::Evaluating, events).0 == RunPhase::Finished {
        let (i, j) = lemma_wait_then_exit(RunPhase::Evaluating, events);
        assert(0 <= i < j < events.len());
    }
}

} // verus!
