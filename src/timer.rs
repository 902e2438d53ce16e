//! One delayed callback: the host task that sleeps for the delay, then
//! re-enters the interpreter to invoke the callback, and reports a failure of
//! the callback instead of aborting.
use vstd::prelude::*;

verus! {

/// Where a timer task stands.
#[derive(PartialEq, Eq, Structural, Clone, Copy, Debug)]
pub enum TimerPhase {
    /// Waiting for its delay to pass.
    Sleeping,
    /// Its delay passed; the callback is being invoked.
    Invoking,
    /// The callback returned or threw.
    Done,
}

/// A scheduled callback's task, as the host runs it.
#[derive(PartialEq, Eq, Structural, Clone, Copy, Debug)]
pub struct TimerTask {
    /// The delay in milliseconds, from the moment of scheduling.
    pub delay_ms: u64,
    pub phase: TimerPhase,
}

/// A new task for a delay asked for by the guest: sleeping for that many
/// milliseconds.
pub open spec fn scheduled(delay_ms: usize) -> TimerTask {
    TimerTask { delay_ms: delay_ms as u64, phase: TimerPhase::Sleeping }
}

/// The task once its delay has passed, and whether the callback is to be
/// invoked now; a task fires once.
pub open spec fn expired(t: TimerTask) -> (TimerTask, bool) {
    if t.phase == TimerPhase::Sleeping {
        (TimerTask { phase: TimerPhase::Invoking, ..t }, true)
    } else {
        (t, false)
    }
}

/// The failure to report once the callback has returned: the error it threw,
/// if any.
pub open spec fn callback_report<E>(returned: Result<(), E>) -> Option<E> {
    match returned {
        Ok(()) => None,
        Err(e) => Some(e),
    }
}

impl TimerTask {
    /// The task for a callback scheduled with `delay_ms` milliseconds.
    pub fn new(delay_ms: usize) -> (r: TimerTask)
        ensures
            r == scheduled(delay_ms),
            r.delay_ms as int == delay_ms as int,
    {
        TimerTask { delay_ms: delay_ms as u64, phase: TimerPhase::Sleeping }
    }

    /// How long the host sleeps before it invokes the callback, in
    /// milliseconds.
    pub fn sleep_millis(&self) -> (r: u64)
        ensures
            r == self.delay_ms,
    {
        self.delay_ms
    }

    /// Records that the delay has passed; returns whether the callback is to
    /// be invoked now.
    pub fn expire(&mut self) -> (r: bool)
        ensures
            (*final(self), r) == expired(*old(self)),
    {
        if self.phase == TimerPhase::Sleeping {
            self.phase = TimerPhase::Invoking;
            true
        } else {
            false
        }
    }

    /// Records that the callback returned; returns the error to report where
    /// it threw. The task ends either way: a failing callback never takes the
    /// host down.
    pub fn finish<E>(&mut self, returned: Result<(), E>) -> (r: Option<E>)
        ensures
            r == callback_report(returned),
            final(self).phase == TimerPhase::Done,
            final(self).delay_ms == old(self).delay_ms,
    {
        self.phase = TimerPhase::Done;
        match returned {
            Ok(()) => None,
            Err(e) => Some(e),
        }
    }
}

/// Of two callbacks scheduled at the same instant, the one with the shorter
/// delay has its task sleep for strictly less time.
pub proof fn lemma_shorter_delay_sleeps_less(d1: usize, d2: usize)
    requires
        d1 < d2,
    ensures
        scheduled(d1).delay_ms < scheduled(d2).delay_ms,
{
}

/// A callback that throws has its error reported, and its task ends; a task
/// scheduled afterwards still fires when its delay passes.
pub proof fn lemma_failure_is_reported_and_later_timers_fire<E>(e: E, later_delay_ms: usize)
    ensures
        callback_report(Err::<(), E>(e)) == Some(e),
        expired(scheduled(later_delay_ms)).1,
        expired(scheduled(later_delay_ms)).0.phase == TimerPhase::Invoking,
{
}

/// A task fires once: a second expiry invokes nothing.
pub proof fn lemma_fires_once(t: TimerTask)
    ensures
        !expired(expired(t).0).1,
{
}

} // verus!
