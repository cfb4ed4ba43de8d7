use voda_core::executor::{Decision, FunctionCallRequest, HandlerError, RequestExecution, RetryPolicy, TerminalState};
use voda_core::queue::{ExecutionQueue, DEFAULT_QUEUE_CAPACITY};
use voda_core::registry::FunctionRegistry;
use voda_core::runtime::{submit_function_call, RuntimeError};

fn call(id: u128, name: &str) -> FunctionCallRequest {
    FunctionCallRequest {
        id,
        function_name: name.to_string(),
        arguments: "{\"amount\":10}".to_string(),
        conversation_id: 1,
        message_id: 2,
        enqueued_at: 0,
        attempts: 0,
    }
}

fn transient() -> Result<String, HandlerError> {
    Err(HandlerError::Transient("network timeout".to_string()))
}

#[test]
fn backoff_doubles_up_to_the_cap() {
    let p = RetryPolicy::default_policy();
    assert_eq!(p.backoff_delay(1), 500);
    assert_eq!(p.backoff_delay(2), 1000);
    assert_eq!(p.backoff_delay(3), 2000);
    assert_eq!(p.backoff_delay(6), 16000);
    assert_eq!(p.backoff_delay(7), 30000);
    assert_eq!(p.backoff_delay(40), 30000);
    let q = RetryPolicy::new(3, 100, 250);
    assert_eq!(q.backoff_delay(2), 200);
    assert_eq!(q.backoff_delay(3), 250);
}

#[test]
fn decide_by_result_kind() {
    let p = RetryPolicy::new(3, 100, 1000);
    assert_eq!(p.decide(1, &Ok("tx".to_string())), Decision::Terminal(TerminalState::Succeeded));
    assert_eq!(p.decide(1, &transient()), Decision::Retry { delay_ms: 100 });
    assert_eq!(p.decide(2, &transient()), Decision::Retry { delay_ms: 200 });
    assert_eq!(p.decide(3, &transient()), Decision::Terminal(TerminalState::FailedExhaustedRetries));
    assert_eq!(
        p.decide(1, &Err(HandlerError::Permanent("bad".to_string()))),
        Decision::Terminal(TerminalState::FailedPermanently)
    );
}

#[test]
fn transient_failures_exhaust_retries() {
    let p = RetryPolicy::new(4, 10, 100);
    let mut ex = RequestExecution::start(call(1, "f"), p);
    let mut decisions = vec![];
    while !ex.is_finished() {
        decisions.push(ex.record_attempt(transient(), 5));
    }
    assert_eq!(decisions.len(), 4);
    let o = ex.outcome.unwrap();
    assert_eq!(o.state, TerminalState::FailedExhaustedRetries);
    assert_eq!(o.attempts, 4);
    assert_eq!(o.elapsed_ms, 20);
    assert_eq!(o.payload, "network timeout");
}

#[test]
fn permanent_failure_stops_after_one_attempt() {
    let mut ex = RequestExecution::start(call(1, "f"), RetryPolicy::default_policy());
    let d = ex.record_attempt(Err(HandlerError::Permanent("insufficient balance".to_string())), 7);
    assert_eq!(d, Decision::Terminal(TerminalState::FailedPermanently));
    let o = ex.outcome.unwrap();
    assert_eq!(o.state, TerminalState::FailedPermanently);
    assert_eq!(o.attempts, 1);
    assert_eq!(o.payload, "insufficient balance");
}

#[test]
fn allocate_grant_succeeds_on_third_attempt() {
    let mut ex = RequestExecution::start(call(77, "allocate_grant"), RetryPolicy::default_policy());
    assert_eq!(ex.record_attempt(transient(), 100), Decision::Retry { delay_ms: 500 });
    assert_eq!(ex.record_attempt(transient(), 100), Decision::Retry { delay_ms: 1000 });
    assert_eq!(ex.record_attempt(Ok("0xabc".to_string()), 100), Decision::Terminal(TerminalState::Succeeded));
    let o = ex.outcome.unwrap();
    assert_eq!(o.request_id, 77);
    assert_eq!(o.state, TerminalState::Succeeded);
    assert_eq!(o.attempts, 3);
    assert_eq!(o.payload, "0xabc");
    assert_eq!(o.elapsed_ms, 300);
}

#[test]
fn elapsed_time_saturates() {
    let mut ex = RequestExecution::start(call(1, "f"), RetryPolicy::default_policy());
    ex.record_attempt(transient(), u64::MAX - 1);
    ex.record_attempt(transient(), 10);
    assert_eq!(ex.elapsed_ms, u64::MAX);
}

#[test]
fn start_resets_attempts() {
    let mut r = call(1, "f");
    r.attempts = 9;
    let ex = RequestExecution::start(r, RetryPolicy::default_policy());
    assert_eq!(ex.request.attempts, 0);
    assert!(!ex.is_finished());
}

#[test]
fn queue_is_fifo() {
    let mut q = ExecutionQueue::with_default_capacity();
    assert_eq!(q.capacity(), DEFAULT_QUEUE_CAPACITY);
    assert!(q.dequeue().is_none());
    q.try_enqueue(call(1, "a")).unwrap();
    q.try_enqueue(call(2, "b")).unwrap();
    q.try_enqueue(call(3, "c")).unwrap();
    assert_eq!(q.dequeue().unwrap().id, 1);
    assert_eq!(q.dequeue().unwrap().id, 2);
    assert_eq!(q.dequeue().unwrap().id, 3);
    assert!(q.dequeue().is_none());
}

#[test]
fn full_queue_hands_requests_back() {
    let mut q = ExecutionQueue::new(2);
    assert!(q.try_enqueue(call(1, "a")).is_ok());
    assert!(q.try_enqueue(call(2, "a")).is_ok());
    let back = q.try_enqueue(call(3, "a")).unwrap_err();
    assert_eq!(back.id, 3);
    assert_eq!(q.len(), 2);
}

#[test]
fn enqueue_all_beyond_capacity_drops_nothing() {
    let mut q = ExecutionQueue::new(3);
    q.try_enqueue(call(0, "a")).unwrap();
    let rejected = q.enqueue_all((1..=5).map(|i| call(i, "a")).collect());
    let rejected_ids: Vec<u128> = rejected.iter().map(|r| r.id).collect();
    assert_eq!(rejected_ids, vec![3, 4, 5]);
    assert_eq!(q.len(), 3);
    let mut got = vec![];
    while let Some(r) = q.dequeue() {
        got.push(r.id);
    }
    assert_eq!(got, vec![0, 1, 2]);
}

#[test]
fn registry_lookup() {
    let reg = FunctionRegistry::new(vec!["gitcoin_allocate_grant".to_string(), "transfer".to_string(), "transfer".to_string()]);
    assert_eq!(reg.len(), 3);
    assert_eq!(reg.lookup(&"gitcoin_allocate_grant".to_string()), Some(0));
    assert_eq!(reg.lookup(&"transfer".to_string()), Some(1));
    assert_eq!(reg.lookup(&"mint".to_string()), None);
    assert_eq!(FunctionRegistry::new(vec![]).lookup(&"transfer".to_string()), None);
}

#[test]
fn unknown_function_is_refused_before_queueing() {
    let reg = FunctionRegistry::new(vec!["transfer".to_string()]);
    let mut q = ExecutionQueue::new(1);
    assert_eq!(submit_function_call(&reg, &mut q, call(1, "mint")), Err(RuntimeError::UnknownFunction));
    assert_eq!(q.len(), 0);
    assert_eq!(submit_function_call(&reg, &mut q, call(2, "transfer")), Ok(()));
    assert_eq!(submit_function_call(&reg, &mut q, call(3, "transfer")), Err(RuntimeError::QueueSaturated));
    // an unknown name on a full queue is still reported as unknown
    assert_eq!(submit_function_call(&reg, &mut q, call(4, "mint")), Err(RuntimeError::UnknownFunction));
    assert_eq!(q.len(), 1);
}
