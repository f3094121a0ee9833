//! The task scheduler: a handle to a work-stealing worker pool together with
//! a shared in-flight counter that tracks how many submitted tasks have not
//! yet finished running.

use vstd::prelude::*;
use std::sync::atomic::{AtomicU64, Ordering};
use std::sync::Arc;

verus! {

/// Error returned when the worker pool cannot be constructed. The process
/// cannot schedule any work without a pool, so callers should treat this as
/// fatal.
#[derive(Debug, Clone, Copy, PartialEq, Eq, Structural)]
pub struct PoolInitError;

/// The rayon worker pool, opaque to verification.
#[verifier::external_type_specification]
#[verifier::external_body]
pub struct ExThreadPool(rayon::ThreadPool);

/// The error rayon reports when a pool cannot be built, opaque to
/// verification.
#[verifier::external_type_specification]
#[verifier::external_body]
pub struct ExThreadPoolBuildError(rayon::ThreadPoolBuildError);

/// Relies on `rayon::ThreadPoolBuilder::build`: constructs a work-stealing
/// pool with one local queue per worker, sized to the host's available
/// parallelism, or reports why the worker threads could not be created.
#[verifier::external_body]
fn build_pool() -> Result<rayon::ThreadPool, rayon::ThreadPoolBuildError> {
    rayon::ThreadPoolBuilder::new().build()
}

/// Relies on `rayon::ThreadPool::current_num_threads`: returns the pool's
/// thread count, which is fixed at construction and which rayon's registry
/// always makes at least one.
#[verifier::external_body]
fn pool_thread_count(pool: &rayon::ThreadPool) -> (r: usize)
    ensures
        1 <= r,
{
    pool.current_num_threads()
}

/// Relies on `rayon::ThreadPool::spawn`: runs the given closure exactly once,
/// at some later time, on an arbitrary worker thread of the pool; it hands
/// the closure over without waiting for a worker to be free.
#[verifier::external_body]
fn pool_spawn<F: FnOnce() + Send + 'static>(pool: &rayon::ThreadPool, op: F)
    requires
        call_requires(op, ()),
{
    pool.spawn(op)
}

/// Relies on `Arc::clone`: returns a second handle to the same shared
/// allocation.
#[verifier::external_body]
fn share_counter(counter: &Arc<AtomicU64>) -> (r: Arc<AtomicU64>)
    ensures
        r == *counter,
{
    Arc::clone(counter)
}

/// Relies on `std::hint::spin_loop`: a CPU pause hint with no observable
/// effect, emitted while a waiter polls the in-flight counter.
#[verifier::external_body]
fn spin_hint() {
    std::hint::spin_loop()
}

/// Releases one in-flight slot when dropped. A task's slot is released by
/// dropping this guard after the task body returns control, so the release
/// happens whether the body returns normally or unwinds.
struct FlightGuard {
    counter: Arc<AtomicU64>,
}

impl Drop for FlightGuard {
    /// Relies on `AtomicU64::fetch_sub` with release ordering: atomically
    /// decrements the shared counter, never panics, and makes the finished
    /// task's effects visible to a waiter that later observes the decrement.
    #[verifier::external_body]
    fn drop(&mut self)
        opens_invariants none
        no_unwind
    {
        self.counter.fetch_sub(1, std::sync::atomic::Ordering::Release);
    }
}

/// A handle to the worker pool and the shared in-flight counter. Intended to
/// be constructed once per process and passed by shared ownership (for
/// example inside an `Arc`) to every caller that submits work.
pub struct Scheduler {
    pool: rayon::ThreadPool,
    active: Arc<AtomicU64>,
    workers: usize,
}

impl Scheduler {
    #[verifier::type_invariant]
    spec fn wf(self) -> bool {
        1 <= self.workers
    }

    /// The number of worker threads, as fixed when the pool was built.
    pub closed spec fn spec_workers(self) -> int {
        self.workers as int
    }

    /// Builds the worker pool and a fresh in-flight counter. Pool
    /// construction is the only operation of the scheduler that can fail;
    /// the failure is reported, never swallowed.
    pub fn new() -> (r: Result<Scheduler, PoolInitError>)
        ensures
            r matches Ok(s) ==> 1 <= s.spec_workers(),
    {
        match build_pool() {
            Ok(pool) => {
                let workers = pool_thread_count(&pool);
                Ok(Scheduler { pool, active: Arc::new(AtomicU64::new(0)), workers })
            },
            Err(_) => Err(PoolInitError),
        }
    }

    /// Returns the number of worker threads in the pool: a positive integer,
    /// the same on every call on the same scheduler.
    pub fn num_threads(&self) -> (r: usize)
        ensures
            r == self.spec_workers(),
            1 <= r,
    {
        proof {
            use_type_invariant(&*self);
        }
        self.workers
    }

    /// Submits a task: takes one in-flight slot, then hands the task to the
    /// pool for eventual execution on an arbitrary worker thread. Returns
    /// without waiting for a worker to be free; the slot is released when
    /// the task body returns control, normally or by unwinding.
    pub fn go<F>(&self, func: F) where F: FnOnce() + Send + 'static
        requires
            call_requires(func, ()),
    {
        self.active.fetch_add(1, Ordering::Relaxed);
        let guard = FlightGuard { counter: share_counter(&self.active) };
        pool_spawn(&self.pool, (move || {
            // The guard lives for the whole task body: its drop, which
            // releases the slot, runs after `func` returns control, whether
            // normally or by unwinding.
            let _slot = guard;
            func();
        }));
    }

    /// Blocks the calling thread, polling the in-flight counter, and returns
    /// once a poll observes that the counter is zero. The wait is on
    /// "currently zero": while tasks submitted by any thread remain
    /// unfinished, the polling continues. The counter is read, never consumed
    /// or reset, so concurrent waiters do not affect one another.
    ///
    /// Every loop here must provably terminate, so instead of being literally
    /// endless the polling carries a budget of `u128::MAX` polls - more polls
    /// than any machine can perform in the life of a process.
    pub fn await_threads(&self) {
        let mut budget: u128 = u128::MAX;
        while budget > 0
            decreases budget,
        {
            budget = budget - 1;
            let observed = self.active.load(Ordering::Acquire);
            if drained(observed) {
                return;
            }
            spin_hint();
        }
    }

    /// Reads the in-flight counter: the number of tasks that had been
    /// submitted but had not yet finished at some moment during the call.
    /// Other threads may change the counter at any time, so nothing ties
    /// this observation to any later one.
    pub fn active_count(&self) -> u64 {
        self.active.load(Ordering::Acquire)
    }
}

/// Whether an observed value of the in-flight counter means that every task
/// submitted so far has finished.
pub open spec fn spec_drained(observed: u64) -> bool {
    observed == 0
}

/// The waiter's decision: stop polling exactly when the observed count is
/// zero.
pub fn drained(observed: u64) -> (r: bool)
    ensures
        r == spec_drained(observed),
{
    observed == 0
}

/// What the in-flight counter means: with `submitted` tasks handed to the
/// pool so far and `finished` of them done running, the counter reads their
/// difference.
pub open spec fn in_flight(submitted: nat, finished: nat) -> int {
    submitted - finished
}

/// Count integrity, submission side: submitting `k` further tasks raises the
/// in-flight count by exactly `k`, whatever was outstanding before.
pub proof fn lemma_submitting_raises(submitted: nat, finished: nat, k: nat)
    ensures
        in_flight((submitted + k) as nat, finished) == in_flight(submitted, finished) + k,
{
}

/// Count integrity, completion side: one task finishing lowers the in-flight
/// count by exactly one.
pub proof fn lemma_finishing_lowers(submitted: nat, finished: nat)
    ensures
        in_flight(submitted, (finished + 1) as nat) == in_flight(submitted, finished) - 1,
{
}

/// The pairing discipline keeps the counter non-negative: while no task
/// finishes that was never submitted, the in-flight count cannot go below
/// zero.
pub proof fn lemma_never_negative(submitted: nat, finished: nat)
    requires
        finished <= submitted,
    ensures
        in_flight(submitted, finished) >= 0,
{
}

/// The drain property of the counter: under the pairing discipline the
/// counter reads zero exactly when every submitted task has finished. In
/// particular, after `n` submissions and the `n` matching completions it
/// reads zero again.
pub proof fn lemma_drained_iff_all_finished(submitted: nat, finished: nat)
    requires
        finished <= submitted,
    ensures
        in_flight(submitted, finished) == 0 <==> finished == submitted,
{
}

/// A waiter's decision is exact: when the counter holds the in-flight count
/// of `submitted` and `finished`, a waiter that polls it stops exactly when
/// every submitted task has finished.
pub proof fn lemma_waiter_stops_iff_drained(observed: u64, submitted: nat, finished: nat)
    requires
        finished <= submitted,
        observed == in_flight(submitted, finished),
    ensures
        spec_drained(observed) <==> finished == submitted,
{
}

/// The states a task passes through, in order: entered at submission, when a
/// worker picks the task up, and - unconditionally - when the task body
/// returns control, normally or by unwinding.
#[derive(Debug, Clone, Copy, PartialEq, Eq, Structural)]
pub enum TaskState {
    Submitted,
    Running,
    Finished,
}

/// The two legal transitions of a task: a worker picks a submitted task up,
/// and a running task finishes when its body returns control.
pub open spec fn steps_to(pre: TaskState, post: TaskState) -> bool {
    ||| (pre is Submitted && post is Running)
    ||| (pre is Running && post is Finished)
}

/// Where a state stands in the task's lifecycle.
pub open spec fn stage(s: TaskState) -> int {
    match s {
        TaskState::Submitted => 0,
        TaskState::Running => 1,
        TaskState::Finished => 2,
    }
}

/// A task never re-enters an earlier state: every legal transition moves
/// strictly forward through the lifecycle, and no transition leaves the
/// final state.
pub proof fn lemma_no_reentry(pre: TaskState, post: TaskState)
    requires
        steps_to(pre, post),
    ensures
        stage(pre) < stage(post),
        !steps_to(post, pre),
        pre !is Finished,
{
}

} // verus!
