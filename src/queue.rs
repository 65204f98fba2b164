use vstd::prelude::*;
use crate::job::{AiReq, Job, JobState};

verus! {

/// The mutable bookkeeping of a job; its id is its position in the queue.
#[derive(Clone, Copy, Debug, PartialEq, Eq, Structural)]
pub struct JobStatus {
    pub scheduled_at: u64,
    pub state: JobState,
    pub attempt_count: u32,
}

/// Why a queue operation on a given job was refused.
#[derive(Clone, Copy, Debug, PartialEq, Eq, Structural)]
pub enum QueueError {
    /// No job was ever created with this id.
    UnknownJob,
    /// The job is not `Running`, so it cannot be requeued or finished.
    NotRunning,
}

/// A job may be dispatched at `now`.
pub open spec fn is_ready(s: JobStatus, now: u64) -> bool {
    s.state == JobState::Pending && s.scheduled_at <= now
}

/// `i` is the oldest job that may be dispatched at `now`.
pub open spec fn first_ready(s: Seq<JobStatus>, now: u64, i: int) -> bool {
    &&& 0 <= i < s.len()
    &&& is_ready(s[i], now)
    &&& forall|k: int| 0 <= k < i ==> !is_ready(#[trigger] s[k], now)
}

/// No job may be dispatched at `now`.
pub open spec fn none_ready(s: Seq<JobStatus>, now: u64) -> bool {
    forall|k: int| 0 <= k < s.len() ==> !is_ready(#[trigger] s[k], now)
}

/// One more attempt, saturating at the largest count.
pub open spec fn bumped(n: u32) -> u32 {
    if n < u32::MAX {
        (n + 1) as u32
    } else {
        n
    }
}

/// The job at `i` after it has been claimed by a worker.
pub open spec fn claimed(s: JobStatus) -> JobStatus {
    JobStatus { state: JobState::Running, attempt_count: bumped(s.attempt_count), ..s }
}

/// What `pull_next_ready` does: on `None` nothing was ready and nothing
/// changed; on `Some(id)` the oldest ready job `id` was claimed.
pub open spec fn pulled(
    old_s: Seq<JobStatus>,
    now: u64,
    new_s: Seq<JobStatus>,
    r: Option<u64>,
) -> bool {
    match r {
        None => none_ready(old_s, now) && new_s == old_s,
        Some(id) => first_ready(old_s, now, id as int) && new_s == old_s.update(
            id as int,
            claimed(old_s[id as int]),
        ),
    }
}

/// The id of a pulled job, if any.
pub open spec fn id_of(r: Option<Job>) -> Option<u64> {
    match r {
        Some(j) => Some(j.id),
        None => None,
    }
}

/// A pull never claims a job that is not ready at its time: a job that is
/// not `Pending`, or whose time has not come, is left exactly as it was.
/// So a scheduled job is not handed out before its time, and a claimed job
/// is not handed out again until it is put back.
pub proof fn law_pull_takes_only_ready(
    s0: Seq<JobStatus>,
    now: u64,
    s1: Seq<JobStatus>,
    r: Option<u64>,
    id: u64,
)
    requires
        pulled(s0, now, s1, r),
        id < s0.len(),
        !is_ready(s0[id as int], now),
    ensures
        r != Some(id),
        s1[id as int] == s0[id as int],
{
}

/// A job record assembled from its id, payload text and status.
pub open spec fn job_matches(j: Job, id: u64, text: Seq<char>, s: JobStatus) -> bool {
    &&& j.id == id
    &&& j.payload.text@ == text
    &&& j.scheduled_at == s.scheduled_at
    &&& j.state == s.state
    &&& j.attempt_count == s.attempt_count
}

/// The job queue: every job ever created, in order of creation. A job's id is
/// its position; finished jobs stay as terminal records.
pub struct JobQueue {
    statuses: Vec<JobStatus>,
    payloads: Vec<AiReq>,
}

impl JobQueue {
    /// Status of each job, indexed by id.
    pub closed spec fn statuses(&self) -> Seq<JobStatus> {
        self.statuses@
    }

    /// Prompt text of each job, indexed by id.
    pub closed spec fn texts(&self) -> Seq<Seq<char>> {
        self.payloads@.map_values(|p: AiReq| p.text@)
    }

    pub closed spec fn wf(&self) -> bool {
        &&& self.statuses@.len() == self.payloads@.len()
        &&& self.statuses@.len() <= u64::MAX
    }

    /// Well-formedness gives one text per job, and ids that fit in a `u64`.
    pub proof fn lemma_wf(&self)
        requires
            self.wf(),
        ensures
            self.texts().len() == self.statuses().len(),
            self.statuses().len() <= u64::MAX,
    {
    }

    pub fn new() -> (r: JobQueue)
        ensures
            r.wf(),
            r.statuses() == Seq::<JobStatus>::empty(),
            r.texts() == Seq::<Seq<char>>::empty(),
    {
        let r = JobQueue { statuses: Vec::new(), payloads: Vec::new() };
        assert(r.texts() =~= Seq::<Seq<char>>::empty());
        r
    }

    /// Number of jobs ever created.
    pub fn len(&self) -> (r: usize)
        requires
            self.wf(),
        ensures
            r == self.statuses().len(),
    {
        self.statuses.len()
    }

    /// Creates a `Pending` job that becomes eligible at `at`, and returns its id.
    pub fn schedule(&mut self, payload: AiReq, at: u64) -> (id: u64)
        requires
            old(self).wf(),
            old(self).statuses().len() < u64::MAX,
        ensures
            final(self).wf(),
            id == old(self).statuses().len(),
            final(self).statuses() == old(self).statuses().push(
                JobStatus { scheduled_at: at, state: JobState::Pending, attempt_count: 0 },
            ),
            final(self).texts() == old(self).texts().push(payload.text@),
    {
        let id = self.statuses.len() as u64;
        self.statuses.push(JobStatus { scheduled_at: at, state: JobState::Pending, attempt_count: 0 });
        let ghost t = payload.text@;
        self.payloads.push(payload);
        assert(self.texts() =~= old(self).texts().push(t));
        id
    }

    /// Creates a `Pending` job that is eligible at once (`now`), and returns its id.
    pub fn push(&mut self, payload: AiReq, now: u64) -> (id: u64)
        requires
            old(self).wf(),
            old(self).statuses().len() < u64::MAX,
        ensures
            final(self).wf(),
            id == old(self).statuses().len(),
            final(self).statuses() == old(self).statuses().push(
                JobStatus { scheduled_at: now, state: JobState::Pending, attempt_count: 0 },
            ),
            final(self).texts() == old(self).texts().push(payload.text@),
    {
        self.schedule(payload, now)
    }

    /// The job with this id, if it exists.
    pub fn get_job(&self, id: u64) -> (r: Option<Job>)
        requires
            self.wf(),
        ensures
            match r {
                None => id >= self.statuses().len(),
                Some(j) => id < self.statuses().len() && job_matches(
                    j,
                    id,
                    self.texts()[id as int],
                    self.statuses()[id as int],
                ),
            },
    {
        if id >= self.statuses.len() as u64 {
            return None;
        }
        let i = id as usize;
        let s = self.statuses[i];
        Some(Job {
            id,
            payload: self.payloads[i].duplicate(),
            scheduled_at: s.scheduled_at,
            state: s.state,
            attempt_count: s.attempt_count,
        })
    }

    /// Claims the oldest `Pending` job whose time has come: it becomes
    /// `Running` and its attempt count goes up by one, in the same step that
    /// finds it, so a claimed job is never handed out again while it runs.
    pub fn pull_next_ready(&mut self, now: u64) -> (r: Option<Job>)
        requires
            old(self).wf(),
        ensures
            final(self).wf(),
            final(self).texts() == old(self).texts(),
            pulled(old(self).statuses(), now, final(self).statuses(), id_of(r)),
            r matches Some(j) ==> job_matches(
                j,
                j.id,
                final(self).texts()[j.id as int],
                final(self).statuses()[j.id as int],
            ),
    {
        let n = self.statuses.len();
        let mut i: usize = 0;
        while i < n
            invariant
                n == self.statuses@.len(),
                self.wf(),
                self.statuses@ == old(self).statuses@,
                self.payloads@ == old(self).payloads@,
                i <= n,
                forall|k: int| 0 <= k < i ==> !is_ready(#[trigger] self.statuses@[k], now),
            decreases n - i,
        {
            let s = self.statuses[i];
            if s.state == JobState::Pending && s.scheduled_at <= now {
                let count = if s.attempt_count < u32::MAX {
                    s.attempt_count + 1
                } else {
                    s.attempt_count
                };
                let c = JobStatus { scheduled_at: s.scheduled_at, state: JobState::Running, attempt_count: count };
                self.statuses.set(i, c);
                let job = Job {
                    id: i as u64,
                    payload: self.payloads[i].duplicate(),
                    scheduled_at: c.scheduled_at,
                    state: c.state,
                    attempt_count: c.attempt_count,
                };
                return Some(job);
            }
            i = i + 1;
        }
        None
    }

    /// Puts a `Running` job back to `Pending`, eligible again at
    /// `now + delay` (saturating). The attempt count is left as it is.
    pub fn requeue(&mut self, id: u64, now: u64, delay: u64) -> (r: Result<(), QueueError>)
        requires
            old(self).wf(),
        ensures
            final(self).wf(),
            final(self).texts() == old(self).texts(),
            id >= old(self).statuses().len() ==> r == Err::<(), QueueError>(QueueError::UnknownJob),
            id < old(self).statuses().len() && old(self).statuses()[id as int].state
                != JobState::Running ==> r == Err::<(), QueueError>(QueueError::NotRunning),
            r is Ok <==> id < old(self).statuses().len() && old(self).statuses()[id as int].state
                == JobState::Running,
            r is Err ==> final(self).statuses() == old(self).statuses(),
            r is Ok ==> id < old(self).statuses().len() && old(self).statuses()[id as int].state
                == JobState::Running && final(self).statuses() == old(self).statuses().update(
                id as int,
                JobStatus {
                    scheduled_at: if now + delay <= u64::MAX {
                        (now + delay) as u64
                    } else {
                        u64::MAX
                    },
                    state: JobState::Pending,
                    ..old(self).statuses()[id as int]
                },
            ),
    {
        let at = now.saturating_add(delay);
        self.set_state(id, JobState::Pending, at)
    }

    /// Marks a `Running` job `Done`.
    pub fn complete(&mut self, id: u64) -> (r: Result<(), QueueError>)
        requires
            old(self).wf(),
        ensures
            final(self).wf(),
            final(self).texts() == old(self).texts(),
            id >= old(self).statuses().len() ==> r == Err::<(), QueueError>(QueueError::UnknownJob),
            id < old(self).statuses().len() && old(self).statuses()[id as int].state
                != JobState::Running ==> r == Err::<(), QueueError>(QueueError::NotRunning),
            r is Ok <==> id < old(self).statuses().len() && old(self).statuses()[id as int].state
                == JobState::Running,
            r is Err ==> final(self).statuses() == old(self).statuses(),
            r is Ok ==> id < old(self).statuses().len() && old(self).statuses()[id as int].state
                == JobState::Running && final(self).statuses() == old(self).statuses().update(
                id as int,
                JobStatus { state: JobState::Done, ..old(self).statuses()[id as int] },
            ),
    {
        let at = if id < self.statuses.len() as u64 {
            self.statuses[id as usize].scheduled_at
        } else {
            0
        };
        self.set_state(id, JobState::Done, at)
    }

    /// Marks a `Running` job `Failed`.
    pub fn fail(&mut self, id: u64) -> (r: Result<(), QueueError>)
        requires
            old(self).wf(),
        ensures
            final(self).wf(),
            final(self).texts() == old(self).texts(),
            id >= old(self).statuses().len() ==> r == Err::<(), QueueError>(QueueError::UnknownJob),
            id < old(self).statuses().len() && old(self).statuses()[id as int].state
                != JobState::Running ==> r == Err::<(), QueueError>(QueueError::NotRunning),
            r is Ok <==> id < old(self).statuses().len() && old(self).statuses()[id as int].state
                == JobState::Running,
            r is Err ==> final(self).statuses() == old(self).statuses(),
            r is Ok ==> id < old(self).statuses().len() && old(self).statuses()[id as int].state
                == JobState::Running && final(self).statuses() == old(self).statuses().update(
                id as int,
                JobStatus { state: JobState::Failed, ..old(self).statuses()[id as int] },
            ),
    {
        let at = if id < self.statuses.len() as u64 {
            self.statuses[id as usize].scheduled_at
        } else {
            0
        };
        self.set_state(id, JobState::Failed, at)
    }

    /// Moves a `Running` job to `state` with the given eligibility time.
    fn set_state(&mut self, id: u64, state: JobState, at: u64) -> (r: Result<(), QueueError>)
        requires
            old(self).wf(),
        ensures
            final(self).wf(),
            final(self).texts() == old(self).texts(),
            id >= old(self).statuses().len() ==> r == Err::<(), QueueError>(QueueError::UnknownJob),
            id < old(self).statuses().len() && old(self).statuses()[id as int].state
                != JobState::Running ==> r == Err::<(), QueueError>(QueueError::NotRunning),
            r is Ok <==> id < old(self).statuses().len() && old(self).statuses()[id as int].state
                == JobState::Running,
            r is Err ==> final(self).statuses() == old(self).statuses(),
            r is Ok ==> id < old(self).statuses().len() && old(self).statuses()[id as int].state
                == JobState::Running && final(self).statuses() == old(self).statuses().update(
                id as int,
                JobStatus { scheduled_at: at, state, ..old(self).statuses()[id as int] },
            ),
    {
        if id >= self.statuses.len() as u64 {
            return Err(QueueError::UnknownJob);
        }
        let i = id as usize;
        let s = self.statuses[i];
        if s.state != JobState::Running {
            return Err(QueueError::NotRunning);
        }
        self.statuses.set(i, JobStatus { scheduled_at: at, state, attempt_count: s.attempt_count });
        Ok(())
    }
}

} // verus!
