use vstd::prelude::*;
use crate::job::{AiReq, Job, JobState};
use crate::queue::{id_of, job_matches, pulled, JobQueue, JobStatus, QueueError};
use crate::store::ResultStore;

verus! {

/// Delay before a failed job becomes eligible again.
#[derive(Clone, Copy, Debug, PartialEq, Eq, Structural)]
pub enum Backoff {
    /// The same delay after every failure.
    Fixed { delay: u64 },
    /// `base` after the first failure, doubling after each further one, never above `cap`.
    Exponential { base: u64, cap: u64 },
}

/// How failed completion attempts are handled.
#[derive(Clone, Copy, Debug, PartialEq, Eq, Structural)]
pub struct RetryPolicy {
    /// Number of attempts a job gets before it is marked `Failed`.
    pub max_attempts: u32,
    pub backoff: Backoff,
}

/// Default number of attempts per job.
pub const DEFAULT_MAX_ATTEMPTS: u32 = 3;

/// Default fixed retry delay, in milliseconds.
pub const DEFAULT_RETRY_DELAY_MS: u64 = 5000;

/// A failure reported by the completion service; every failure is retried.
#[derive(Debug)]
pub struct TransientError {
    pub message: String,
}

/// What the dispatcher does with a job whose attempt has just resolved.
#[derive(Clone, Copy, Debug, PartialEq, Eq, Structural)]
pub enum Decision {
    /// Store the output and mark the job `Done`.
    Complete,
    /// Put the job back, eligible again after `delay` milliseconds.
    Retry { delay: u64 },
    /// Attempts are used up: mark the job `Failed`, storing nothing.
    GiveUp,
}

pub open spec fn min_nat(a: nat, b: nat) -> nat {
    if a <= b {
        a
    } else {
        b
    }
}

/// Exponential delay after the `n`-th failure: `min(cap, base * 2^(n-1))`.
pub open spec fn exp_delay(base: nat, cap: nat, n: nat) -> nat
    decreases n,
{
    if n <= 1 {
        min_nat(base, cap)
    } else {
        min_nat(2 * exp_delay(base, cap, (n - 1) as nat), cap)
    }
}

/// The delay that follows the `n`-th failed attempt.
pub open spec fn backoff_delay(b: Backoff, n: nat) -> nat {
    match b {
        Backoff::Fixed { delay } => delay as nat,
        Backoff::Exponential { base, cap } => exp_delay(base as nat, cap as nat, n),
    }
}

/// The retry rule: success completes; a failure is retried while attempts
/// remain, and gives up once `attempt_count` has reached `max_attempts`.
pub open spec fn decision_for(p: RetryPolicy, attempt_count: u32, succeeded: bool) -> Decision {
    if succeeded {
        Decision::Complete
    } else if attempt_count < p.max_attempts {
        Decision::Retry { delay: backoff_delay(p.backoff, attempt_count as nat) as u64 }
    } else {
        Decision::GiveUp
    }
}

pub open spec fn sat_add(a: u64, b: u64) -> u64 {
    if a + b <= u64::MAX {
        (a + b) as u64
    } else {
        u64::MAX
    }
}

/// A job's status once its attempt resolved at `now`.
pub open spec fn after_attempt(p: RetryPolicy, s: JobStatus, succeeded: bool, now: u64) -> JobStatus {
    match decision_for(p, s.attempt_count, succeeded) {
        Decision::Complete => JobStatus { state: JobState::Done, ..s },
        Decision::Retry { delay } => JobStatus {
            state: JobState::Pending,
            scheduled_at: sat_add(now, delay),
            ..s
        },
        Decision::GiveUp => JobStatus { state: JobState::Failed, ..s },
    }
}

/// Job statuses after job `id`'s attempt resolved with output `out` (`None` on failure).
pub open spec fn finish_statuses(
    p: RetryPolicy,
    s: Seq<JobStatus>,
    id: u64,
    out: Option<Seq<char>>,
    now: u64,
) -> Seq<JobStatus> {
    s.update(id as int, after_attempt(p, s[id as int], out is Some, now))
}

/// Stored outputs after job `id`'s attempt resolved: written on success only.
pub open spec fn finish_outputs(o: Map<u64, Seq<char>>, id: u64, out: Option<Seq<char>>) -> Map<
    u64,
    Seq<char>,
> {
    match out {
        Some(t) => o.insert(id, t),
        None => o,
    }
}

/// The text of a completion outcome, `None` on failure.
pub open spec fn output_of(r: Result<String, TransientError>) -> Option<Seq<char>> {
    match r {
        Ok(t) => Some(t@),
        Err(_) => None,
    }
}

pub open spec fn policy_wf(p: RetryPolicy) -> bool {
    p.max_attempts >= 1
}

/// The invariant of one job: its attempts stay within the policy, a job
/// that has left `Pending` was attempted at least once, a `Pending`
/// job has attempts left, a `Failed` one used them all, and an output is
/// stored exactly for `Done` jobs.
pub open spec fn job_inv(p: RetryPolicy, s: JobStatus, has_output: bool) -> bool {
    &&& s.attempt_count <= p.max_attempts
    &&& s.state != JobState::Pending ==> s.attempt_count >= 1
    &&& s.state == JobState::Pending ==> s.attempt_count < p.max_attempts
    &&& s.state == JobState::Failed ==> s.attempt_count == p.max_attempts
    &&& has_output <==> s.state == JobState::Done
}

/// The invariant tying job statuses and stored outputs together.
pub open spec fn dispatch_inv(p: RetryPolicy, s: Seq<JobStatus>, o: Map<u64, Seq<char>>) -> bool {
    &&& policy_wf(p)
    &&& s.len() <= u64::MAX
    &&& forall|i: int| 0 <= i < s.len() ==> job_inv(p, #[trigger] s[i], o.contains_key(i as u64))
    &&& forall|k: u64| #[trigger] o.contains_key(k) ==> k < s.len()
}

impl RetryPolicy {
    /// A policy with `max_attempts` attempts; `None` when `max_attempts` is 0.
    pub fn new(max_attempts: u32, backoff: Backoff) -> (r: Option<RetryPolicy>)
        ensures
            max_attempts == 0 <==> r is None,
            r matches Some(p) ==> p.max_attempts == max_attempts && p.backoff == backoff,
    {
        if max_attempts == 0 {
            None
        } else {
            Some(RetryPolicy { max_attempts, backoff })
        }
    }

    /// Three attempts, five seconds apart.
    pub fn default_policy() -> (r: RetryPolicy)
        ensures
            r.max_attempts == DEFAULT_MAX_ATTEMPTS,
            r.backoff == (Backoff::Fixed { delay: DEFAULT_RETRY_DELAY_MS }),
            policy_wf(r),
    {
        RetryPolicy {
            max_attempts: DEFAULT_MAX_ATTEMPTS,
            backoff: Backoff::Fixed { delay: DEFAULT_RETRY_DELAY_MS },
        }
    }

    /// The delay after the `n`-th failed attempt.
    pub fn delay_after(&self, n: u32) -> (r: u64)
        ensures
            r == backoff_delay(self.backoff, n as nat),
    {
        match self.backoff {
            Backoff::Fixed { delay } => delay,
            Backoff::Exponential { base, cap } => {
                let mut d: u64 = if base <= cap {
                    base
                } else {
                    cap
                };
                let mut k: u32 = 1;
                while k < n
                    invariant
                        1 <= k,
                        n <= 1 ==> k == 1,
                        n > 1 ==> k <= n,
                        d as nat == exp_delay(base as nat, cap as nat, k as nat),
                        d <= cap,
                    decreases n - k,
                {
                    d = if d > cap - d {
                        cap
                    } else {
                        d + d
                    };
                    k = k + 1;
                }
                d
            },
        }
    }

    /// What to do with a job whose `attempt_count`-th attempt has resolved.
    pub fn decide(&self, attempt_count: u32, succeeded: bool) -> (d: Decision)
        ensures
            d == decision_for(*self, attempt_count, succeeded),
    {
        if succeeded {
            Decision::Complete
        } else if attempt_count < self.max_attempts {
            let delay = self.delay_after(attempt_count);
            Decision::Retry { delay }
        } else {
            Decision::GiveUp
        }
    }
}

/// The job lifecycle: a queue of jobs, a store of their outputs, and the
/// retry policy that drives each job from `Pending` to `Done` or `Failed`.
pub struct Dispatcher {
    queue: JobQueue,
    store: ResultStore,
    policy: RetryPolicy,
}

impl Dispatcher {
    /// Status of each job, indexed by id.
    pub closed spec fn statuses(&self) -> Seq<JobStatus> {
        self.queue.statuses()
    }

    /// Prompt text of each job, indexed by id.
    pub closed spec fn texts(&self) -> Seq<Seq<char>> {
        self.queue.texts()
    }

    /// Stored outputs, by job id.
    pub closed spec fn outputs(&self) -> Map<u64, Seq<char>> {
        self.store.outputs()
    }

    pub closed spec fn spec_policy(&self) -> RetryPolicy {
        self.policy
    }

    pub closed spec fn wf(&self) -> bool {
        &&& self.queue.wf()
        &&& dispatch_inv(self.policy, self.queue.statuses(), self.store.outputs())
    }

    /// Well-formedness gives one text per job and the invariant that ties
    /// statuses, attempts and stored outputs together.
    pub proof fn lemma_wf(&self)
        requires
            self.wf(),
        ensures
            self.texts().len() == self.statuses().len(),
            dispatch_inv(self.spec_policy(), self.statuses(), self.outputs()),
    {
        self.queue.lemma_wf();
    }

    /// A finished job was attempted at least once and at most
    /// `max_attempts` times; it is `Failed` only after all of them, and a
    /// finished job with attempts left is `Done`.
    pub proof fn law_finished_attempts(&self, id: u64)
        requires
            self.wf(),
            id < self.statuses().len(),
            self.statuses()[id as int].state.spec_is_terminal(),
        ensures
            1 <= self.statuses()[id as int].attempt_count <= self.spec_policy().max_attempts,
            self.statuses()[id as int].state == JobState::Failed ==> self.statuses()[id as int].attempt_count
                == self.spec_policy().max_attempts,
            self.statuses()[id as int].attempt_count < self.spec_policy().max_attempts
                ==> self.statuses()[id as int].state == JobState::Done,
    {
        law_attempt_bounds(self.policy, self.statuses(), self.outputs(), id as int);
    }

    /// An output is stored for a job exactly when it is `Done`: never for an
    /// unknown id, nor for a `Pending`, `Running` or `Failed` job.
    pub proof fn law_output_iff_done(&self, id: u64)
        requires
            self.wf(),
        ensures
            self.outputs().contains_key(id) <==> (id < self.statuses().len()
                && self.statuses()[id as int].state == JobState::Done),
    {
        if id < self.statuses().len() {
            assert(job_inv(self.policy, self.statuses()[id as int], self.outputs().contains_key(id)));
        }
    }

    pub fn new(policy: RetryPolicy) -> (r: Dispatcher)
        requires
            policy_wf(policy),
        ensures
            r.wf(),
            r.spec_policy() == policy,
            r.statuses() == Seq::<JobStatus>::empty(),
            r.texts() == Seq::<Seq<char>>::empty(),
            r.outputs() == Map::<u64, Seq<char>>::empty(),
    {
        Dispatcher { queue: JobQueue::new(), store: ResultStore::new(), policy }
    }

    /// Number of jobs ever created.
    pub fn job_count(&self) -> (r: usize)
        requires
            self.wf(),
        ensures
            r == self.statuses().len(),
    {
        self.queue.len()
    }

    pub fn policy(&self) -> (r: RetryPolicy)
        ensures
            r == self.spec_policy(),
    {
        self.policy
    }

    /// Enqueues a job eligible at `at` and returns its id.
    pub fn schedule(&mut self, payload: AiReq, at: u64) -> (id: u64)
        requires
            old(self).wf(),
            old(self).statuses().len() < u64::MAX,
        ensures
            final(self).wf(),
            final(self).spec_policy() == old(self).spec_policy(),
            id == old(self).statuses().len(),
            final(self).statuses() == old(self).statuses().push(
                JobStatus { scheduled_at: at, state: JobState::Pending, attempt_count: 0 },
            ),
            final(self).texts() == old(self).texts().push(payload.text@),
            final(self).texts()[id as int] == payload.text@,
            final(self).outputs() == old(self).outputs(),
            !final(self).outputs().contains_key(id),
    {
        let ghost t = payload.text@;
        proof {
            self.queue.lemma_wf();
        }
        let id = self.queue.schedule(payload, at);
        assert(self.texts()[id as int] == t);
        assert forall|i: int| 0 <= i < self.statuses().len() implies job_inv(
            self.policy,
            #[trigger] self.statuses()[i],
            self.outputs().contains_key(i as u64),
        ) by {
            if i == id {
                assert(!self.outputs().contains_key(id));
            } else {
                assert(self.statuses()[i] == old(self).statuses()[i]);
            }
        }
        id
    }

    /// Enqueues a job eligible at once (`now`) and returns its id.
    pub fn push(&mut self, payload: AiReq, now: u64) -> (id: u64)
        requires
            old(self).wf(),
            old(self).statuses().len() < u64::MAX,
        ensures
            final(self).wf(),
            final(self).spec_policy() == old(self).spec_policy(),
            id == old(self).statuses().len(),
            final(self).statuses() == old(self).statuses().push(
                JobStatus { scheduled_at: now, state: JobState::Pending, attempt_count: 0 },
            ),
            final(self).texts() == old(self).texts().push(payload.text@),
            final(self).texts()[id as int] == payload.text@,
            final(self).outputs() == old(self).outputs(),
            !final(self).outputs().contains_key(id),
    {
        self.schedule(payload, now)
    }

    /// Claims the oldest ready job for a worker (see `JobQueue::pull_next_ready`).
    pub fn pull_next_ready(&mut self, now: u64) -> (r: Option<Job>)
        requires
            old(self).wf(),
        ensures
            final(self).wf(),
            final(self).spec_policy() == old(self).spec_policy(),
            final(self).texts() == old(self).texts(),
            final(self).outputs() == old(self).outputs(),
            pulled(old(self).statuses(), now, final(self).statuses(), id_of(r)),
            r matches Some(j) ==> job_matches(
                j,
                j.id,
                final(self).texts()[j.id as int],
                final(self).statuses()[j.id as int],
            ),
    {
        let r = self.queue.pull_next_ready(now);
        assert forall|i: int| 0 <= i < self.statuses().len() implies job_inv(
            self.policy,
            #[trigger] self.statuses()[i],
            self.outputs().contains_key(i as u64),
        ) by {
            assert(job_inv(self.policy, old(self).statuses()[i], self.outputs().contains_key(i as u64)));
        }
        r
    }

    /// Records how the attempt of the `Running` job `id` resolved at `now`:
    /// on success the output is stored and the job is `Done`; on failure the
    /// job is requeued after the backoff delay while attempts remain, and is
    /// `Failed` otherwise, with nothing stored. Returns the job's new state.
    pub fn finish_attempt(
        &mut self,
        id: u64,
        outcome: Result<String, TransientError>,
        now: u64,
    ) -> (r: Result<JobState, QueueError>)
        requires
            old(self).wf(),
        ensures
            final(self).wf(),
            final(self).spec_policy() == old(self).spec_policy(),
            final(self).texts() == old(self).texts(),
            id >= old(self).statuses().len() ==> r == Err::<JobState, QueueError>(QueueError::UnknownJob),
            id < old(self).statuses().len() && old(self).statuses()[id as int].state
                != JobState::Running ==> r == Err::<JobState, QueueError>(QueueError::NotRunning),
            r is Ok <==> id < old(self).statuses().len() && old(self).statuses()[id as int].state
                == JobState::Running,
            r is Err ==> final(self).statuses() == old(self).statuses() && final(self).outputs()
                == old(self).outputs(),
            r is Ok ==> {
                &&& id < old(self).statuses().len()
                &&& old(self).statuses()[id as int].state == JobState::Running
                &&& final(self).statuses() == finish_statuses(
                    old(self).spec_policy(),
                    old(self).statuses(),
                    id,
                    output_of(outcome),
                    now,
                )
                &&& final(self).outputs() == finish_outputs(old(self).outputs(), id, output_of(outcome))
                &&& r == Ok::<JobState, QueueError>(final(self).statuses()[id as int].state)
            },
    {
        let job = match self.queue.get_job(id) {
            None => return Err(QueueError::UnknownJob),
            Some(j) => j,
        };
        if job.state != JobState::Running {
            return Err(QueueError::NotRunning);
        }
        let ghost out = output_of(outcome);
        let ghost s0 = self.statuses();
        let ghost o0 = self.outputs();
        let decision = self.policy.decide(job.attempt_count, outcome.is_ok());
        let state = match decision {
            Decision::Complete => {
                let _ = self.queue.complete(id);
                match outcome {
                    Ok(text) => self.store.put(id, text),
                    Err(_) => {},
                }
                JobState::Done
            },
            Decision::Retry { delay } => {
                let _ = self.queue.requeue(id, now, delay);
                JobState::Pending
            },
            Decision::GiveUp => {
                let _ = self.queue.fail(id);
                JobState::Failed
            },
        };
        assert(self.statuses() =~= finish_statuses(self.policy, s0, id, out, now));
        assert(self.outputs() =~= finish_outputs(o0, id, out));
        assert forall|i: int| 0 <= i < self.statuses().len() implies job_inv(
            self.policy,
            #[trigger] self.statuses()[i],
            self.outputs().contains_key(i as u64),
        ) by {
            if i == id as int {
                assert(job_inv(self.policy, s0[i], o0.contains_key(id)));
                assert(self.outputs().contains_key(id) == (out is Some));
            } else {
                assert(job_inv(self.policy, s0[i], o0.contains_key(i as u64)));
            }
        }
        Ok(state)
    }

    /// The stored output of job `id`; `None` while it is unfinished, after it
    /// failed, or when no such job exists. Reading changes nothing.
    pub fn get(&self, id: u64) -> (r: Option<String>)
        requires
            self.wf(),
        ensures
            r is Some <==> id < self.statuses().len() && self.statuses()[id as int].state
                == JobState::Done,
            match r {
                Some(s) => self.outputs().contains_key(id) && s@ == self.outputs()[id],
                None => !self.outputs().contains_key(id),
            },
    {
        proof {
            self.law_output_iff_done(id);
        }
        self.store.get(id)
    }

    /// The job record of `id`, if it exists.
    pub fn job(&self, id: u64) -> (r: Option<Job>)
        requires
            self.wf(),
        ensures
            match r {
                None => id >= self.statuses().len(),
                Some(j) => id < self.statuses().len() && job_matches(
                    j,
                    id,
                    self.texts()[id as int],
                    self.statuses()[id as int],
                ),
            },
    {
        self.queue.get_job(id)
    }
}

/// What a worker does next.
#[derive(Debug)]
pub enum WorkerStep {
    /// Shutdown was requested: pull nothing more and stop.
    Stop,
    /// No job is ready: wait before looking again.
    Idle,
    /// Run the completion for this claimed job, then report its outcome
    /// through `Dispatcher::finish_attempt`.
    Attempt(Job),
}

/// How long an idle worker waits before pulling again, in milliseconds.
pub const IDLE_WAIT_MS: u64 = 500;

/// One turn of a worker's loop: stop on shutdown without claiming anything,
/// otherwise claim the next ready job or go idle.
pub fn worker_step(d: &mut Dispatcher, shutdown: bool, now: u64) -> (r: WorkerStep)
    requires
        old(d).wf(),
    ensures
        final(d).wf(),
        final(d).spec_policy() == old(d).spec_policy(),
        final(d).texts() == old(d).texts(),
        final(d).outputs() == old(d).outputs(),
        shutdown ==> r is Stop && final(d).statuses() == old(d).statuses(),
        !shutdown ==> match r {
            WorkerStep::Stop => false,
            WorkerStep::Idle => pulled(old(d).statuses(), now, final(d).statuses(), None),
            WorkerStep::Attempt(j) => pulled(
                old(d).statuses(),
                now,
                final(d).statuses(),
                Some(j.id),
            ) && job_matches(
                j,
                j.id,
                final(d).texts()[j.id as int],
                final(d).statuses()[j.id as int],
            ),
        },
{
    if shutdown {
        return WorkerStep::Stop;
    }
    match d.pull_next_ready(now) {
        Some(j) => WorkerStep::Attempt(j),
        None => WorkerStep::Idle,
    }
}

/// The output stored for a job that succeeds is the text of the attempt that
/// succeeded; attempts that failed before it store nothing.
pub proof fn law_output_is_successful_text(
    p: RetryPolicy,
    s: Seq<JobStatus>,
    o: Map<u64, Seq<char>>,
    id: u64,
    out: Option<Seq<char>>,
    now: u64,
)
    requires
        dispatch_inv(p, s, o),
        id < s.len(),
        s[id as int].state == JobState::Running,
    ensures
        out matches Some(t) ==> finish_outputs(o, id, out).contains_key(id) && finish_outputs(
            o,
            id,
            out,
        )[id] == t && finish_statuses(p, s, id, out, now)[id as int].state == JobState::Done,
        out is None ==> finish_outputs(o, id, out) == o && !o.contains_key(id),
        dispatch_inv(p, finish_statuses(p, s, id, out, now), finish_outputs(o, id, out)),
{
    assert(job_inv(p, s[id as int], o.contains_key(id)));
    let s2 = finish_statuses(p, s, id, out, now);
    let o2 = finish_outputs(o, id, out);
    assert forall|i: int| 0 <= i < s2.len() implies job_inv(
        p,
        #[trigger] s2[i],
        o2.contains_key(i as u64),
    ) by {
        if i == id as int {
            assert(o2.contains_key(id) == (out is Some));
        } else {
            assert(job_inv(p, s[i], o.contains_key(i as u64)));
        }
    }
}

/// Attempt counts stay within the policy: a terminal job has used at least
/// one and at most `max_attempts` attempts, a `Failed` job exactly `max_attempts`, and a
/// terminal job with attempts left is `Done`.
pub proof fn law_attempt_bounds(p: RetryPolicy, s: Seq<JobStatus>, o: Map<u64, Seq<char>>, i: int)
    requires
        dispatch_inv(p, s, o),
        0 <= i < s.len(),
        s[i].state.spec_is_terminal(),
    ensures
        1 <= s[i].attempt_count <= p.max_attempts,
        s[i].state == JobState::Failed ==> s[i].attempt_count == p.max_attempts,
        s[i].attempt_count < p.max_attempts ==> s[i].state == JobState::Done,
{
    assert(job_inv(p, s[i], o.contains_key(i as u64)));
}

/// Two pulls in a row never hand out the same job: the first claims it, so
/// it is no longer `Pending` when the second looks.
pub proof fn law_pull_exclusive(
    s0: Seq<JobStatus>,
    s1: Seq<JobStatus>,
    s2: Seq<JobStatus>,
    now1: u64,
    now2: u64,
    a: u64,
    b: u64,
)
    requires
        pulled(s0, now1, s1, Some(a)),
        pulled(s1, now2, s2, Some(b)),
    ensures
        a != b,
{
    assert(s1[a as int].state == JobState::Running);
}

/// Once a job is `Done`, its stored output and status stay as they are
/// whatever other job's attempt resolves next, so reading it again gives
/// the same text.
pub proof fn law_done_output_stable(
    p: RetryPolicy,
    s: Seq<JobStatus>,
    o: Map<u64, Seq<char>>,
    done: u64,
    id: u64,
    out: Option<Seq<char>>,
    now: u64,
)
    requires
        dispatch_inv(p, s, o),
        done < s.len(),
        s[done as int].state == JobState::Done,
        id < s.len(),
        s[id as int].state == JobState::Running,
    ensures
        finish_outputs(o, id, out).contains_key(done),
        finish_outputs(o, id, out)[done] == o[done],
        finish_statuses(p, s, id, out, now)[done as int] == s[done as int],
{
    assert(job_inv(p, s[done as int], o.contains_key(done)));
}

/// No output is stored under an id that no job has.
pub proof fn law_unknown_id_has_no_output(p: RetryPolicy, s: Seq<JobStatus>, o: Map<u64, Seq<char>>, id: u64)
    requires
        dispatch_inv(p, s, o),
        id >= s.len(),
    ensures
        !o.contains_key(id),
{
}

} // verus!
