//! A cooperative single-task executor over a foreign event loop's
//! idle-callback primitive, as a verified state machine: a task cell owning
//! one pollable computation plus a marker for the one pending registration,
//! the scheduler adapter that keeps registrations idempotent, and the four
//! waker-handle operations that request resumption from any wake source.

use vstd::prelude::*;

verus! {

/// One suspended computation: an address-independent unit of work exposing a
/// single poll-once operation. Implementors characterize their own behaviour
/// through the two spec functions; a poll must never block.
pub trait Computation: Sized {
    /// Whether the next poll reports completion.
    spec fn ready_now(&self) -> bool;

    /// The computation's state after one more poll.
    spec fn after_poll(&self) -> Self;

    /// Poll the computation once; reports `true` exactly on completion.
    fn poll_once(&mut self) -> (ready: bool)
        ensures
            ready == old(self).ready_now(),
            *final(self) == old(self).after_poll(),
    ;
}

/// What a resumption step tells the host loop about the registration that
/// invoked it: keep invoking it, or stop because the task completed.
#[derive(Clone, Copy, Debug, PartialEq, Eq, Structural)]
pub enum StepVerdict {
    /// The computation is not ready; the host must invoke this registration
    /// at least once more.
    Repeat,
    /// The computation completed; the registration is retired and must not
    /// be invoked again.
    Finished,
}

/// The host event loop's scheduling bookkeeping, as this executor observes
/// it: how many registrations are live (each will be invoked until its step
/// answers `Finished`) and which token is issued next.
pub struct HostLoop {
    next_token: u64,
    live: usize,
}

impl HostLoop {
    /// Registrations the host will keep invoking.
    pub closed spec fn live(self) -> nat {
        self.live as nat
    }

    /// Tokens handed out so far; the next registration gets this one.
    pub closed spec fn issued(self) -> u64 {
        self.next_token
    }

    /// The host can accept one more registration (a machine limit, not a
    /// design one: counters must fit their carriers).
    pub open spec fn can_register(self) -> bool {
        self.live() < usize::MAX && self.issued() < u64::MAX
    }

    /// A host with no live registration and no token issued.
    pub fn new() -> (h: Self)
        ensures
            h.live() == 0,
            h.issued() == 0,
    {
        HostLoop { next_token: 0, live: 0 }
    }

    /// Accept one registration and hand back its fresh token.
    fn register(&mut self) -> (token: u64)
        requires
            old(self).can_register(),
        ensures
            token == old(self).issued(),
            final(self).issued() == old(self).issued() + 1,
            final(self).live() == old(self).live() + 1,
    {
        let token = self.next_token;
        self.next_token = self.next_token + 1;
        self.live = self.live + 1;
        token
    }

    /// How many registrations are live right now.
    pub fn live_count(&self) -> (n: usize)
        ensures
            n as nat == self.live(),
    {
        self.live
    }

    /// Retire the registration whose step answered `Finished`.
    fn retire(&mut self)
        requires
            old(self).live() > 0,
        ensures
            final(self).live() == old(self).live() - 1,
            final(self).issued() == old(self).issued(),
    {
        self.live = self.live - 1;
    }
}

/// One task: the cell owning a submitted computation (until it completes and
/// is released), the token of the pending resumption step if one is
/// registered, and the count of outstanding waker handles that refer to the
/// cell.
pub struct Task<C> {
    computation: Option<C>,
    scheduled: Option<u64>,
    handles: usize,
}

impl<C> Task<C> {
    /// The computation still owned by the cell; `None` once it completed and
    /// its resources were released.
    pub closed spec fn current(self) -> Option<C> {
        self.computation
    }

    /// The task completed and was released.
    pub open spec fn done(self) -> bool {
        self.current() is None
    }

    /// The token of the registered, not yet executed resumption step.
    pub closed spec fn registration(self) -> Option<u64> {
        self.scheduled
    }

    /// Outstanding waker handles referring to this cell.
    pub closed spec fn handle_count(self) -> nat {
        self.handles as nat
    }

    /// The cell's invariant: a released task holds no pending registration,
    /// so nothing can step it again.
    pub open spec fn wf(self) -> bool {
        self.done() ==> self.registration() is None
    }

    /// Whether the task completed and was released.
    pub fn is_done(&self) -> (b: bool)
        ensures
            b == self.done(),
    {
        self.computation.is_none()
    }

    /// Whether a resumption step is registered and not yet executed.
    pub fn is_scheduled(&self) -> (b: bool)
        ensures
            b == (self.registration() is Some),
    {
        self.scheduled.is_some()
    }

    /// How many waker handles are outstanding.
    pub fn outstanding_handles(&self) -> (n: usize)
        ensures
            n as nat == self.handle_count(),
    {
        self.handles
    }
}

/// Spec-level view of one task's scheduling state together with its host:
/// whether the task was released, whether a resumption step is pending, and
/// how many registrations the host holds live.
pub struct SchedState {
    /// The task completed and was released.
    pub done: bool,
    /// A resumption step is registered and has not yet executed.
    pub pending_step: bool,
    /// Live registrations on the host.
    pub live: nat,
}

/// The scheduling state a task and its host present together.
pub open spec fn sched_state<C>(task: Task<C>, host: HostLoop) -> SchedState {
    SchedState {
        done: task.done(),
        pending_step: task.registration() is Some,
        live: host.live(),
    }
}

/// What one resume request (wake or wake-without-consuming) does to the
/// scheduling state: nothing when the task was released or a step is already
/// pending; otherwise exactly one step becomes pending.
pub open spec fn wake_effect(s: SchedState) -> SchedState {
    if s.done || s.pending_step {
        s
    } else {
        SchedState { done: s.done, pending_step: true, live: s.live + 1 }
    }
}

/// `n` resume requests in a row.
pub open spec fn wake_effect_n(s: SchedState, n: nat) -> SchedState
    decreases n,
{
    if n == 0 {
        s
    } else {
        wake_effect(wake_effect_n(s, (n - 1) as nat))
    }
}

/// Law: scheduling is idempotent. Any positive number of resume requests
/// arriving before the next step runs has exactly the effect of a single
/// one — at most one additional step becomes pending, never `n`.
pub proof fn lemma_wake_coalescing(s: SchedState, n: nat)
    requires
        n >= 1,
    ensures
        wake_effect_n(s, n) == wake_effect(s),
    decreases n,
{
    if n == 1 {
        assert(wake_effect_n(s, 1) == wake_effect(wake_effect_n(s, 0)));
    } else {
        lemma_wake_coalescing(s, (n - 1) as nat);
        assert(wake_effect_n(s, n) == wake_effect(wake_effect_n(s, (n - 1) as nat)));
        assert(wake_effect(wake_effect(s)) == wake_effect(s));
    }
}

/// Law: no wake is lost. Whatever state a resume request finds — wakes may
/// arrive from any wake source, in any order relative to steps — afterwards
/// either the task has completed and nothing remains to run, or a resumption
/// step is pending.
pub proof fn lemma_no_missed_wakeup(s: SchedState)
    ensures
        wake_effect(s).done == s.done,
        !s.done ==> wake_effect(s).pending_step,
{
}

impl<C: Computation> Task<C> {
    /// A fresh cell owning the computation, with no pending registration and
    /// no outstanding handle. Scheduling the first step is the submitter's
    /// next move.
    pub fn new(computation: C) -> (task: Task<C>)
        ensures
            task.current() == Some(computation),
            task.registration() is None,
            task.handle_count() == 0,
            task.wf(),
    {
        Task { computation: Some(computation), scheduled: None, handles: 0 }
    }

    /// Scheduler decision for any host: a new resumption step must be
    /// registered exactly when the task still runs and no step is pending.
    pub fn needs_registration(&self) -> (b: bool)
        ensures
            b == (!self.done() && self.registration() is None),
    {
        self.computation.is_some() && self.scheduled.is_none()
    }

    /// Mark a resumption step as pending, under the token the host handed
    /// back for it.
    pub fn note_registered(&mut self, token: u64)
        requires
            !old(self).done(),
            old(self).registration() is None,
        ensures
            final(self).current() == old(self).current(),
            final(self).registration() == Some(token),
            final(self).handle_count() == old(self).handle_count(),
            final(self).wf(),
    {
        self.scheduled = Some(token);
    }

    /// Entry point: wrap a computation in a fresh task cell with no pending
    /// registration and no outstanding handle, then register its first
    /// resumption step with the host.
    pub fn submit(computation: C, host: &mut HostLoop) -> (task: Task<C>)
        requires
            old(host).can_register(),
        ensures
            task.current() == Some(computation),
            task.registration() == Some(old(host).issued()),
            task.handle_count() == 0,
            task.wf(),
            final(host).live() == old(host).live() + 1,
            final(host).issued() == old(host).issued() + 1,
    {
        let mut task = Task::new(computation);
        let _ = task.schedule(host);
        task
    }

    /// Scheduler adapter: register a resumption step with the host unless
    /// the task was released or a step is already pending, so at most one
    /// registration per task is ever requested; every further request before
    /// that step executes coalesces into it.
    pub fn schedule(&mut self, host: &mut HostLoop) -> (registered: bool)
        requires
            old(host).can_register(),
        ensures
            registered == (!old(self).done() && old(self).registration() is None),
            final(self).current() == old(self).current(),
            final(self).handle_count() == old(self).handle_count(),
            registered ==> final(self).registration() == Some(old(host).issued())
                && final(host).live() == old(host).live() + 1
                && final(host).issued() == old(host).issued() + 1,
            !registered ==> *final(self) == *old(self) && *final(host) == *old(host),
            sched_state(*final(self), *final(host))
                == wake_effect(sched_state(*old(self), *old(host))),
            old(self).wf() ==> final(self).wf(),
    {
        if self.needs_registration() {
            let token = host.register();
            self.note_registered(token);
            true
        } else {
            false
        }
    }

    /// Waker-handle operation `wake`: request resumption through one
    /// outstanding handle and consume the handle.
    pub fn wake(&mut self, host: &mut HostLoop) -> (registered: bool)
        requires
            old(self).handle_count() > 0,
            old(host).can_register(),
        ensures
            registered == (!old(self).done() && old(self).registration() is None),
            final(self).current() == old(self).current(),
            final(self).handle_count() == old(self).handle_count() - 1,
            registered ==> final(self).registration() == Some(old(host).issued())
                && final(host).live() == old(host).live() + 1
                && final(host).issued() == old(host).issued() + 1,
            !registered ==> final(self).registration() == old(self).registration()
                && *final(host) == *old(host),
            sched_state(*final(self), *final(host))
                == wake_effect(sched_state(*old(self), *old(host))),
            old(self).wf() ==> final(self).wf(),
    {
        let registered = self.schedule(host);
        self.handles = self.handles - 1;
        registered
    }

    /// Waker-handle operation `wake-without-consuming`: request resumption
    /// through one outstanding handle and keep the handle.
    pub fn wake_by_ref(&mut self, host: &mut HostLoop) -> (registered: bool)
        requires
            old(self).handle_count() > 0,
            old(host).can_register(),
        ensures
            registered == (!old(self).done() && old(self).registration() is None),
            final(self).current() == old(self).current(),
            final(self).handle_count() == old(self).handle_count(),
            registered ==> final(self).registration() == Some(old(host).issued())
                && final(host).live() == old(host).live() + 1
                && final(host).issued() == old(host).issued() + 1,
            !registered ==> final(self).registration() == old(self).registration()
                && *final(host) == *old(host),
            sched_state(*final(self), *final(host))
                == wake_effect(sched_state(*old(self), *old(host))),
            old(self).wf() ==> final(self).wf(),
    {
        self.schedule(host)
    }

    /// Waker-handle operation `clone`: one more handle refers to the cell.
    /// A step takes the first handle fresh from the cell itself; a wake
    /// source keeps one by cloning it.
    pub fn clone_handle(&mut self)
        requires
            old(self).handle_count() < usize::MAX,
        ensures
            final(self).handle_count() == old(self).handle_count() + 1,
            final(self).current() == old(self).current(),
            final(self).registration() == old(self).registration(),
            old(self).wf() ==> final(self).wf(),
    {
        self.handles = self.handles + 1;
    }

    /// Waker-handle operation `drop`: release one outstanding handle without
    /// requesting resumption.
    pub fn drop_handle(&mut self)
        requires
            old(self).handle_count() > 0,
        ensures
            final(self).handle_count() == old(self).handle_count() - 1,
            final(self).current() == old(self).current(),
            final(self).registration() == old(self).registration(),
            old(self).wf() ==> final(self).wf(),
    {
        self.handles = self.handles - 1;
    }

    /// One resumption step, host side effects aside. A running task is
    /// polled exactly once; on not-ready the marker is cleared after the
    /// poll returns and the verdict asks the host to repeat, so the task is
    /// re-polled even when a wake that raced the poll skipped scheduling. On
    /// completion the computation and the registration are released and the
    /// verdict asks the host to stop. A released task polls nothing and
    /// answers stop. Never blocks.
    pub fn step_once(&mut self) -> (verdict: StepVerdict)
        ensures
            final(self).handle_count() == old(self).handle_count(),
            old(self).done() ==> verdict is Finished && *final(self) == *old(self),
            !old(self).done() && old(self).current().unwrap().ready_now() ==> verdict
                is Finished
                && final(self).done()
                && final(self).registration() is None,
            !old(self).done() && !old(self).current().unwrap().ready_now() ==> verdict
                is Repeat
                && final(self).current() == Some(old(self).current().unwrap().after_poll())
                && final(self).registration() is None,
            old(self).wf() ==> final(self).wf(),
    {
        if self.computation.is_none() {
            return StepVerdict::Finished;
        }
        let ready = match &mut self.computation {
            Some(computation) => computation.poll_once(),
            None => false,
        };
        self.scheduled = None;
        if ready {
            self.computation = None;
            StepVerdict::Finished
        } else {
            StepVerdict::Repeat
        }
    }

    /// One resumption step, as the host invokes it for a live registration:
    /// `step_once`, with the registration retired on a stop verdict.
    pub fn step(&mut self, host: &mut HostLoop) -> (verdict: StepVerdict)
        requires
            old(host).live() > 0,
        ensures
            final(self).handle_count() == old(self).handle_count(),
            final(host).issued() == old(host).issued(),
            old(self).done() ==> verdict is Finished
                && *final(self) == *old(self)
                && final(host).live() == old(host).live() - 1,
            !old(self).done() && old(self).current().unwrap().ready_now() ==> verdict
                is Finished
                && final(self).done()
                && final(self).registration() is None
                && final(host).live() == old(host).live() - 1,
            !old(self).done() && !old(self).current().unwrap().ready_now() ==> verdict
                is Repeat
                && final(self).current() == Some(old(self).current().unwrap().after_poll())
                && final(self).registration() is None
                && *final(host) == *old(host),
            old(self).wf() ==> final(self).wf(),
    {
        let verdict = self.step_once();
        if matches!(verdict, StepVerdict::Finished) {
            host.retire();
        }
        verdict
    }
}

/// A computation that reports not ready a fixed number of times and then
/// completes: the canonical shape for checking the executor's step and
/// release accounting end to end.
pub struct Countdown {
    /// Polls this computation still answers "not ready" before completing.
    pub remaining_polls: usize,
}

impl Countdown {
    /// Polls this computation still answers "not ready" before completing.
    pub open spec fn remaining(self) -> nat {
        self.remaining_polls as nat
    }

    /// A computation that will report not ready exactly
    /// `polls_before_ready` times, then complete.
    pub fn new(polls_before_ready: usize) -> (c: Self)
        ensures
            c.remaining() == polls_before_ready,
    {
        Countdown { remaining_polls: polls_before_ready }
    }
}

impl Computation for Countdown {
    open spec fn ready_now(&self) -> bool {
        self.remaining() == 0
    }

    open spec fn after_poll(&self) -> Self {
        if self.remaining_polls > 0 {
            Countdown { remaining_polls: (self.remaining_polls - 1) as usize }
        } else {
            *self
        }
    }

    fn poll_once(&mut self) -> (ready: bool) {
        if self.remaining_polls > 0 {
            self.remaining_polls = self.remaining_polls - 1;
            false
        } else {
            true
        }
    }
}

/// Law: termination and release. Submitting a computation that reports not
/// ready exactly `k` times and then completes, to a host that honours the
/// repeat signal, runs exactly `k + 1` resumption steps; completion releases
/// the computation, clears the registration and leaves the host with no live
/// registration, so no further step can run (a later wake finds the released
/// task and registers nothing, as `wake`'s own contract states).
pub fn run_countdown(k: usize) -> (r: (Task<Countdown>, HostLoop, usize))
    requires
        k < usize::MAX,
    ensures
        r.2 == k + 1,
        r.0.done(),
        r.0.registration() is None,
        r.0.handle_count() == 0,
        r.1.live() == 0,
{
    let mut host = HostLoop::new();
    let mut task = Task::submit(Countdown::new(k), &mut host);
    let mut steps: usize = 0;
    let mut finished = false;
    while !finished
        invariant
            k < usize::MAX,
            steps <= k + 1,
            task.handle_count() == 0,
            !finished ==> steps <= k
                && task.current() is Some
                && task.current().unwrap().remaining() == k - steps
                && host.live() == 1,
            finished ==> steps == k + 1
                && task.done()
                && task.registration() is None
                && host.live() == 0,
        decreases k + 1 - steps,
    {
        let verdict = task.step(&mut host);
        steps = steps + 1;
        finished = matches!(verdict, StepVerdict::Finished);
    }
    (task, host, steps)
}

} // verus!
