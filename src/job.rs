use vstd::prelude::*;

verus! {

/// The lifecycle state of a job.
#[derive(Clone, Copy, Debug, PartialEq, Eq, Structural)]
pub enum JobState {
    Pending,
    Running,
    Done,
    Failed,
}

impl JobState {
    pub open spec fn spec_is_terminal(self) -> bool {
        self == JobState::Done || self == JobState::Failed
    }

    /// `Done` and `Failed` are terminal: no transition leaves them.
    #[verifier::when_used_as_spec(spec_is_terminal)]
    pub fn is_terminal(self) -> (r: bool)
        ensures
            r == self.spec_is_terminal(),
    {
        match self {
            JobState::Done | JobState::Failed => true,
            _ => false,
        }
    }
}

/// The payload of a completion request: the prompt text.
#[derive(Debug)]
pub struct AiReq {
    pub text: String,
}

impl AiReq {
    pub fn new(text: String) -> (r: AiReq)
        ensures
            r.text@ == text@,
    {
        AiReq { text }
    }

    /// A copy of the payload with the same text.
    pub fn duplicate(&self) -> (r: AiReq)
        ensures
            r.text@ == self.text@,
    {
        AiReq { text: self.text.clone() }
    }
}

/// One unit of requested work.
#[derive(Debug)]
pub struct Job {
    pub id: u64,
    pub payload: AiReq,
    /// Time (milliseconds) before which the job must not be dispatched.
    pub scheduled_at: u64,
    pub state: JobState,
    /// Number of dispatch attempts so far.
    pub attempt_count: u32,
}

/// Two jobs agree on every field (texts compared as character sequences).
pub open spec fn same_job(a: Job, b: Job) -> bool {
    &&& a.id == b.id
    &&& a.payload.text@ == b.payload.text@
    &&& a.scheduled_at == b.scheduled_at
    &&& a.state == b.state
    &&& a.attempt_count == b.attempt_count
}

impl Job {
    /// A copy of the job record.
    pub fn duplicate(&self) -> (r: Job)
        ensures
            same_job(r, *self),
    {
        Job {
            id: self.id,
            payload: self.payload.duplicate(),
            scheduled_at: self.scheduled_at,
            state: self.state,
            attempt_count: self.attempt_count,
        }
    }
}

} // verus!
