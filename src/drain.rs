//! The synchronous drain: waiting on a promise from inside the interpreter by
//! running its pending jobs one at a time.
//!
//! The loop itself is driven by the host, which owns the interpreter: it polls
//! the promise, hands the settlement to [`after_poll`], runs one pending job
//! when told to, and hands whether a job ran to [`after_job`]. The drain gives
//! up as soon as no job is pending, even if the promise is still pending: its
//! settlement may wait on a timer that has not fired, which no amount of job
//! running can bring about.
use vstd::prelude::*;

verus! {

/// What a non-blocking poll of a promise observed.
pub enum Settlement<V, E> {
    Pending,
    Fulfilled(V),
    Rejected(E),
}

/// How a drain ended.
pub enum DrainOutcome<V, E> {
    /// The promise fulfilled with this value.
    Fulfilled(V),
    /// The promise rejected with this error.
    Rejected(E),
    /// No pending job was left while the promise was still pending.
    GaveUp,
}

/// What the host does after a poll.
pub enum DrainStep<V, E> {
    /// Stop draining, with this outcome.
    Finish(DrainOutcome<V, E>),
    /// Run one pending job of the interpreter, then report whether one ran.
    RunJob,
}

pub open spec fn poll_step<V, E>(s: Settlement<V, E>) -> DrainStep<V, E> {
    match s {
        Settlement::Pending => DrainStep::RunJob,
        Settlement::Fulfilled(v) => DrainStep::Finish(DrainOutcome::Fulfilled(v)),
        Settlement::Rejected(e) => DrainStep::Finish(DrainOutcome::Rejected(e)),
    }
}

pub open spec fn job_step<V, E>(ran: bool) -> Option<DrainOutcome<V, E>> {
    if ran {
        None
    } else {
        Some(DrainOutcome::GaveUp)
    }
}

/// Decides what follows a poll: a settled promise ends the drain with its
/// result; a pending one asks for a job to be run.
pub fn after_poll<V, E>(s: Settlement<V, E>) -> (r: DrainStep<V, E>)
    ensures
        r == poll_step(s),
{
    match s {
        Settlement::Pending => DrainStep::RunJob,
        Settlement::Fulfilled(v) => DrainStep::Finish(DrainOutcome::Fulfilled(v)),
        Settlement::Rejected(e) => DrainStep::Finish(DrainOutcome::Rejected(e)),
    }
}

/// Decides what follows an attempt to run a job: `None` means poll again;
/// where no job was pending the drain gives up.
pub fn after_job<V, E>(ran: bool) -> (r: Option<DrainOutcome<V, E>>)
    ensures
        r == job_step::<V, E>(ran),
{
    if ran {
        None
    } else {
        Some(DrainOutcome::GaveUp)
    }
}

/// The outcome of a drain that, from its `i`-th poll on, observes the
/// settlements `polls` (the `j`-th poll comes after `j` jobs were asked for)
/// and the job reports `jobs`; `None` where the observations run out first.
pub open spec fn drain_from<V, E>(polls: Seq<Settlement<V, E>>, jobs: Seq<bool>, i: nat) -> Option<
    DrainOutcome<V, E>,
>
    decreases polls.len() - i,
{
    if i >= polls.len() {
        None
    } else {
        match poll_step(polls[i as int]) {
            DrainStep::Finish(o) => Some(o),
            DrainStep::RunJob => {
                if i >= jobs.len() {
                    None
                } else {
                    match job_step::<V, E>(jobs[i as int]) {
                        Some(o) => Some(o),
                        None => drain_from(polls, jobs, i + 1),
                    }
                }
            },
        }
    }
}

/// The outcome of a whole drain over the given observations.
pub open spec fn drain_outcome<V, E>(polls: Seq<Settlement<V, E>>, jobs: Seq<bool>) -> Option<
    DrainOutcome<V, E>,
> {
    drain_from(polls, jobs, 0)
}

proof fn lemma_drain_reaches<V, E>(
    polls: Seq<Settlement<V, E>>,
    jobs: Seq<bool>,
    k: nat,
    v: V,
    i: nat,
)
    requires
        i <= k < polls.len(),
        k <= jobs.len(),
        forall|j: int| 0 <= j < k ==> (#[trigger] polls[j]) is Pending,
        forall|j: int| 0 <= j < k ==> #[trigger] jobs[j],
        polls[k as int] == Settlement::<V, E>::Fulfilled(v),
    ensures
        drain_from(polls, jobs, i) == Some(DrainOutcome::<V, E>::Fulfilled(v)),
    decreases k - i,
{
    if i < k {
        assert(polls[i as int] is Pending && jobs[i as int]);
        lemma_drain_reaches::<V, E>(polls, jobs, k, v, i + 1);
    }
}

/// A promise that settles with a value once the jobs already queued have run
/// is drained to that value: where the first `k` polls find it pending, each
/// job asked for in between runs, and the next poll finds it fulfilled with
/// `v`, the drain ends with `v`.
pub proof fn lemma_queued_settlement_is_drained<V, E>(
    polls: Seq<Settlement<V, E>>,
    jobs: Seq<bool>,
    k: nat,
    v: V,
)
    requires
        k < polls.len(),
        k <= jobs.len(),
        forall|j: int| 0 <= j < k ==> (#[trigger] polls[j]) is Pending,
        forall|j: int| 0 <= j < k ==> #[trigger] jobs[j],
        polls[k as int] == Settlement::<V, E>::Fulfilled(v),
    ensures
        drain_outcome(polls, jobs) == Some(DrainOutcome::<V, E>::Fulfilled(v)),
{
    lemma_drain_reaches::<V, E>(polls, jobs, k, v, 0);
}

/// A drain on a promise that is pending while no job is queued gives up at
/// once, without a value: this is the case of a promise that waits on a timer
/// that has not fired.
pub proof fn lemma_pending_without_jobs_gives_up<V, E>(
    polls: Seq<Settlement<V, E>>,
    jobs: Seq<bool>,
)
    requires
        polls.len() > 0,
        jobs.len() > 0,
        polls[0] is Pending,
        !jobs[0],
    ensures
        drain_outcome(polls, jobs) == Some(DrainOutcome::<V, E>::GaveUp),
{
}

} // verus!
