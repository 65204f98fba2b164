use ai_req_queue::dispatcher::{Backoff, Dispatcher, RetryPolicy, TransientError, WorkerStep, worker_step, Decision};
use ai_req_queue::gateway::{lookup, push_reply, submit, get_reply};
use ai_req_queue::job::{AiReq, JobState};
use ai_req_queue::queue::{JobQueue, QueueError};

fn fail() -> Result<String, TransientError> {
    Err(TransientError { message: "upstream 503".to_string() })
}

fn dispatcher() -> Dispatcher {
    Dispatcher::new(RetryPolicy::default_policy())
}

#[test]
fn scenario_first_attempt_succeeds() {
    let mut d = dispatcher();
    let id = submit(&mut d, "Write a haiku about cheese.".to_string(), 1000).unwrap();
    assert_eq!(id, 0);
    let job = d.pull_next_ready(1000).unwrap();
    assert_eq!(job.id, id);
    assert_eq!(job.payload.text, "Write a haiku about cheese.");
    assert_eq!(job.state, JobState::Running);
    let st = d.finish_attempt(id, Ok("Cheese so mellow".to_string()), 1200);
    assert_eq!(st, Ok(JobState::Done));
    assert_eq!(d.get(id), Some("Cheese so mellow".to_string()));
    let j = d.job(id).unwrap();
    assert_eq!(j.attempt_count, 1);
    assert_eq!(j.state, JobState::Done);
    assert_eq!(lookup(&d, "0"), "Cheese so mellow");
}

#[test]
fn scenario_two_failures_then_success() {
    let mut d = dispatcher();
    let id = d.push(AiReq::new("p".to_string()), 0);
    let mut now: u64 = 0;
    for _ in 0..2 {
        let job = d.pull_next_ready(now).unwrap();
        assert_eq!(d.finish_attempt(job.id, fail(), now), Ok(JobState::Pending));
        assert_eq!(d.get(id), None);
        // not eligible before the backoff delay
        assert!(d.pull_next_ready(now + 4999).is_none());
        now += 5000;
    }
    let job = d.pull_next_ready(now).unwrap();
    assert_eq!(job.attempt_count, 3);
    assert_eq!(d.finish_attempt(id, Ok("third time".to_string()), now), Ok(JobState::Done));
    let j = d.job(id).unwrap();
    assert_eq!(j.state, JobState::Done);
    assert_eq!(j.attempt_count, 3);
    assert_eq!(d.get(id), Some("third time".to_string()));
}

#[test]
fn scenario_all_attempts_fail() {
    let mut d = dispatcher();
    let id = d.push(AiReq::new("p".to_string()), 0);
    let mut now: u64 = 0;
    let mut last = Ok(JobState::Running);
    for _ in 0..3 {
        let job = d.pull_next_ready(now).unwrap();
        last = d.finish_attempt(job.id, fail(), now);
        now += 5000;
    }
    assert_eq!(last, Ok(JobState::Failed));
    let j = d.job(id).unwrap();
    assert_eq!(j.state, JobState::Failed);
    assert_eq!(j.attempt_count, 3);
    assert_eq!(d.get(id), None);
    assert_eq!(lookup(&d, "0"), "no result found for job_id: 0");
    assert!(d.pull_next_ready(u64::MAX).is_none());
}

#[test]
fn scenario_scheduled_job_waits() {
    let mut d = dispatcher();
    let now: u64 = 1_000_000;
    let id = d.schedule(AiReq::new("later".to_string()), now + 10_000);
    assert!(d.pull_next_ready(now).is_none());
    assert!(d.pull_next_ready(now + 9_999).is_none());
    let job = d.pull_next_ready(now + 10_000).unwrap();
    assert_eq!(job.id, id);
    assert!(d.pull_next_ready(now + 10_000).is_none());
    assert!(d.pull_next_ready(now + 20_000).is_none());
}

#[test]
fn get_unknown_id_is_no_result() {
    let d = dispatcher();
    assert_eq!(d.get(42), None);
    assert_eq!(lookup(&d, "42"), "no result found for job_id: 42");
    assert_eq!(lookup(&d, "abc"), "no result found for job_id: abc");
    assert_eq!(lookup(&d, ""), "no result found for job_id: ");
}

#[test]
fn get_twice_returns_same_output() {
    let mut d = dispatcher();
    let id = d.push(AiReq::new("p".to_string()), 0);
    d.pull_next_ready(0).unwrap();
    d.finish_attempt(id, Ok("out".to_string()), 0).unwrap();
    let a = d.get(id);
    let b = d.get(id);
    assert_eq!(a, b);
    assert_eq!(a, Some("out".to_string()));
    assert_eq!(lookup(&d, "0"), lookup(&d, "0"));
}

#[test]
fn done_output_survives_other_jobs() {
    let mut d = dispatcher();
    let a = d.push(AiReq::new("a".to_string()), 0);
    let b = d.push(AiReq::new("b".to_string()), 0);
    assert_eq!(d.pull_next_ready(0).unwrap().id, a);
    d.finish_attempt(a, Ok("A".to_string()), 0).unwrap();
    assert_eq!(d.pull_next_ready(0).unwrap().id, b);
    d.finish_attempt(b, Ok("B".to_string()), 0).unwrap();
    assert_eq!(d.get(a), Some("A".to_string()));
    assert_eq!(d.get(b), Some("B".to_string()));
    assert_eq!(d.finish_attempt(a, Ok("again".to_string()), 0), Err(QueueError::NotRunning));
    assert_eq!(d.get(a), Some("A".to_string()));
}

#[test]
fn pulls_never_hand_out_a_job_twice() {
    let mut d = dispatcher();
    for i in 0..100u64 {
        d.push(AiReq::new(format!("job {i}")), 0);
    }
    let mut seen = vec![false; 100];
    while let Some(j) = d.pull_next_ready(0) {
        assert!(!seen[j.id as usize]);
        seen[j.id as usize] = true;
    }
    assert!(seen.iter().all(|s| *s));
}

#[test]
fn pull_is_fifo_among_ready_jobs() {
    let mut q = JobQueue::new();
    let a = q.schedule(AiReq::new("a".to_string()), 50);
    let b = q.push(AiReq::new("b".to_string()), 10);
    let c = q.push(AiReq::new("c".to_string()), 10);
    assert_eq!(q.pull_next_ready(20).unwrap().id, b);
    assert_eq!(q.pull_next_ready(60).unwrap().id, a);
    assert_eq!(q.pull_next_ready(60).unwrap().id, c);
    assert_eq!(q.len(), 3);
}

#[test]
fn queue_errors() {
    let mut q = JobQueue::new();
    assert_eq!(q.complete(0), Err(QueueError::UnknownJob));
    let id = q.push(AiReq::new("x".to_string()), 0);
    assert_eq!(q.fail(id), Err(QueueError::NotRunning));
    assert_eq!(q.requeue(id, 0, 10), Err(QueueError::NotRunning));
    q.pull_next_ready(0).unwrap();
    assert_eq!(q.requeue(id, 100, 10), Ok(()));
    let j = q.get_job(id).unwrap();
    assert_eq!(j.state, JobState::Pending);
    assert_eq!(j.scheduled_at, 110);
    assert_eq!(j.attempt_count, 1);
    q.pull_next_ready(110).unwrap();
    assert_eq!(q.requeue(id, u64::MAX - 1, 10), Ok(()));
    assert_eq!(q.get_job(id).unwrap().scheduled_at, u64::MAX);
    assert!(q.get_job(7).is_none());
}

#[test]
fn finish_attempt_errors() {
    let mut d = dispatcher();
    assert_eq!(d.finish_attempt(3, Ok("x".to_string()), 0), Err(QueueError::UnknownJob));
    let id = d.push(AiReq::new("x".to_string()), 0);
    assert_eq!(d.finish_attempt(id, Ok("x".to_string()), 0), Err(QueueError::NotRunning));
    assert_eq!(d.get(id), None);
}

#[test]
fn policy_decisions_and_backoff() {
    assert!(RetryPolicy::new(0, Backoff::Fixed { delay: 1 }).is_none());
    let p = RetryPolicy::new(5, Backoff::Exponential { base: 100, cap: 1000 }).unwrap();
    assert_eq!(p.delay_after(1), 100);
    assert_eq!(p.delay_after(2), 200);
    assert_eq!(p.delay_after(3), 400);
    assert_eq!(p.delay_after(4), 800);
    assert_eq!(p.delay_after(5), 1000);
    assert_eq!(p.delay_after(40), 1000);
    let big = RetryPolicy::new(5, Backoff::Exponential { base: u64::MAX / 2 + 1, cap: u64::MAX }).unwrap();
    assert_eq!(big.delay_after(2), u64::MAX);
    assert_eq!(p.decide(1, true), Decision::Complete);
    assert_eq!(p.decide(2, false), Decision::Retry { delay: 200 });
    assert_eq!(p.decide(5, false), Decision::GiveUp);
    let d = RetryPolicy::default_policy();
    assert_eq!(d.max_attempts, 3);
    assert_eq!(d.decide(1, false), Decision::Retry { delay: 5000 });
}

#[test]
fn exponential_backoff_in_dispatcher() {
    let p = RetryPolicy::new(3, Backoff::Exponential { base: 100, cap: 150 }).unwrap();
    let mut d = Dispatcher::new(p);
    let id = d.push(AiReq::new("x".to_string()), 0);
    d.pull_next_ready(0).unwrap();
    d.finish_attempt(id, fail(), 10).unwrap();
    assert_eq!(d.job(id).unwrap().scheduled_at, 110);
    d.pull_next_ready(110).unwrap();
    d.finish_attempt(id, fail(), 200).unwrap();
    assert_eq!(d.job(id).unwrap().scheduled_at, 350);
}

#[test]
fn worker_step_stops_on_shutdown() {
    let mut d = dispatcher();
    d.push(AiReq::new("x".to_string()), 0);
    assert!(matches!(worker_step(&mut d, true, 0), WorkerStep::Stop));
    assert_eq!(d.job(0).unwrap().state, JobState::Pending);
    match worker_step(&mut d, false, 0) {
        WorkerStep::Attempt(j) => assert_eq!(j.id, 0),
        _ => panic!("expected a job"),
    }
    assert!(matches!(worker_step(&mut d, false, 0), WorkerStep::Idle));
}

#[test]
fn replies() {
    assert_eq!(push_reply(0), "Request with job_id [0] added to queue");
    assert_eq!(push_reply(1234567890), "Request with job_id [1234567890] added to queue");
    assert_eq!(get_reply("9", Some("hi".to_string())), "hi");
    assert_eq!(get_reply("9", None), "no result found for job_id: 9");
}

#[test]
fn unfinished_jobs_have_no_result() {
    let mut d = dispatcher();
    let id = submit(&mut d, "queued".to_string(), 0).unwrap();
    assert_eq!(d.job(id).unwrap().payload.text, "queued");
    assert_eq!(d.get(id), None);
    assert_eq!(lookup(&d, "0"), "no result found for job_id: 0");
    d.pull_next_ready(0).unwrap();
    assert_eq!(d.job(id).unwrap().state, JobState::Running);
    assert_eq!(d.get(id), None);
}
