use vstd::prelude::*;
use crate::decimal::{decimal, law_decimal_round_trip, parse_u64, parsed_u64, push_decimal};
use crate::dispatcher::{dispatch_inv, Dispatcher, RetryPolicy};
use crate::job::AiReq;
use crate::queue::JobStatus;
use crate::job::JobState;

verus! {

/// Reply to a submission: `Request with job_id [<id>] added to queue`.
pub open spec fn push_reply_of(id: u64) -> Seq<char> {
    "Request with job_id ["@ + decimal(id as nat) + "] added to queue"@
}

/// Reply to a lookup that found nothing: `no result found for job_id: <id>`.
pub open spec fn no_result_reply_of(job_id: Seq<char>) -> Seq<char> {
    "no result found for job_id: "@ + job_id
}

/// Reply to a lookup of `job_id` (as text) against the stored outputs: the
/// output when the text names a job with a stored output, else the
/// "no result" reply.
pub open spec fn lookup_reply_of(job_id: Seq<char>, outputs: Map<u64, Seq<char>>) -> Seq<char> {
    match parsed_u64(job_id) {
        Some(k) => if outputs.contains_key(k) {
            outputs[k]
        } else {
            no_result_reply_of(job_id)
        },
        None => no_result_reply_of(job_id),
    }
}

pub fn push_reply(id: u64) -> (r: String)
    ensures
        r@ == push_reply_of(id),
{
    let mut s = String::from_str("Request with job_id [");
    push_decimal(&mut s, id);
    s.append("] added to queue");
    assert(s@ =~= push_reply_of(id));
    s
}

/// The reply body for a lookup of `job_id` that found `found`.
pub fn get_reply(job_id: &str, found: Option<String>) -> (r: String)
    ensures
        match found {
            Some(t) => r@ == t@,
            None => r@ == no_result_reply_of(job_id@),
        },
{
    match found {
        Some(t) => t,
        None => {
            let mut s = String::from_str("no result found for job_id: ");
            s.append(job_id);
            s
        },
    }
}

/// Enqueues an immediate job for `text`; `None` when the queue has run out
/// of job ids.
pub fn submit(d: &mut Dispatcher, text: String, now: u64) -> (r: Option<u64>)
    requires
        old(d).wf(),
    ensures
        final(d).wf(),
        final(d).spec_policy() == old(d).spec_policy(),
        final(d).outputs() == old(d).outputs(),
        r is None <==> old(d).statuses().len() == u64::MAX,
        r is None ==> final(d).statuses() == old(d).statuses() && final(d).texts() == old(d).texts(),
        r matches Some(id) ==> {
            &&& id == old(d).statuses().len()
            &&& final(d).statuses() == old(d).statuses().push(
                JobStatus { scheduled_at: now, state: JobState::Pending, attempt_count: 0 },
            )
            &&& final(d).texts() == old(d).texts().push(text@)
            &&& final(d).texts()[id as int] == text@
            &&& !final(d).outputs().contains_key(id)
        },
{
    let n = d.job_count();
    if n as u64 == u64::MAX {
        return None;
    }
    Some(d.push(AiReq::new(text), now))
}

/// Answers a lookup by job id text: the stored output of that job, or the
/// "no result" reply for an unfinished, failed, unknown or malformed id.
pub fn lookup(d: &Dispatcher, job_id: &str) -> (r: String)
    requires
        d.wf(),
    ensures
        r@ == lookup_reply_of(job_id@, d.outputs()),
{
    let found = match parse_u64(job_id) {
        Some(id) => d.get(id),
        None => None,
    };
    get_reply(job_id, found)
}

/// Looking up a `Done` job by the decimal id that its submission reply
/// carried gives the job's stored output.
pub proof fn law_lookup_finds_done_output(
    p: RetryPolicy,
    s: Seq<JobStatus>,
    o: Map<u64, Seq<char>>,
    id: u64,
)
    requires
        dispatch_inv(p, s, o),
        id < s.len(),
        s[id as int].state == JobState::Done,
    ensures
        o.contains_key(id),
        lookup_reply_of(decimal(id as nat), o) == o[id],
{
    law_decimal_round_trip(id);
    assert(crate::dispatcher::job_inv(p, s[id as int], o.contains_key(id)));
}

} // verus!
