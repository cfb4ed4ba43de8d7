//! The function executor: the retry policy, and the state of one request from
//! its dequeueing to its terminal outcome.

use vstd::prelude::*;
use vstd::arithmetic::power2::{pow2, lemma2_to64, lemma_pow2_unfold, lemma_pow2_pos};

verus! {

/// A pending side-effecting action that generated content asked for.
#[derive(Debug, Clone)]
pub struct FunctionCallRequest {
    pub id: u128,
    pub function_name: String,
    pub arguments: String,
    pub conversation_id: u128,
    pub message_id: u128,
    pub enqueued_at: u64,
    pub attempts: u32,
}

/// How a handler failed: worth another attempt, or not.
#[derive(Debug, Clone)]
pub enum HandlerError {
    /// Network timeout, rate limiting, congestion: retried.
    Transient(String),
    /// Malformed arguments, insufficient balance, rejected signature: not
    /// retried.
    Permanent(String),
}

/// The terminal state of one request.
#[derive(Debug, Clone, Copy, PartialEq, Eq, Structural)]
pub enum TerminalState {
    Succeeded,
    FailedPermanently,
    FailedExhaustedRetries,
}

/// What the executor does after an attempt.
#[derive(Debug, Clone, Copy, PartialEq, Eq, Structural)]
pub enum Decision {
    /// Dispatch again after the delay.
    Retry { delay_ms: u64 },
    /// Stop in this state.
    Terminal(TerminalState),
}

/// The record written when a request reaches its terminal state.
#[derive(Debug, Clone)]
pub struct ExecutionOutcome {
    pub request_id: u128,
    pub state: TerminalState,
    /// The handler's result on success, the failure reason otherwise.
    pub payload: String,
    pub attempts: u32,
    pub elapsed_ms: u64,
}

/// The three kinds of result an attempt can have.
#[derive(Debug, Clone, Copy, PartialEq, Eq, Structural)]
pub enum AttemptKind {
    Success,
    Transient,
    Permanent,
}

pub open spec fn kind_of(result: Result<String, HandlerError>) -> AttemptKind {
    match result {
        Ok(_) => AttemptKind::Success,
        Err(HandlerError::Transient(_)) => AttemptKind::Transient,
        Err(HandlerError::Permanent(_)) => AttemptKind::Permanent,
    }
}

pub const DEFAULT_MAX_ATTEMPTS: u32 = 5;
pub const DEFAULT_BASE_DELAY_MS: u64 = 500;
pub const DEFAULT_MAX_DELAY_MS: u64 = 30000;

/// Bounded attempts, with a delay that doubles after each failed attempt up
/// to a cap.
#[derive(Debug, Clone, Copy, PartialEq, Eq, Structural)]
pub struct RetryPolicy {
    pub max_attempts: u32,
    pub base_delay_ms: u64,
    pub max_delay_ms: u64,
}

pub open spec fn min_int(a: int, b: int) -> int {
    if a <= b { a } else { b }
}

impl RetryPolicy {
    pub open spec fn wf(&self) -> bool {
        &&& self.max_attempts >= 1
        &&& self.base_delay_ms <= self.max_delay_ms
    }

    /// The delay before the attempt that follows `attempt` failed attempts:
    /// the base delay doubled once per earlier failure, capped.
    pub open spec fn spec_backoff(&self, attempt: nat) -> int {
        min_int(self.base_delay_ms * pow2((attempt - 1) as nat), self.max_delay_ms as int)
    }

    /// What follows the `attempt`-th attempt of a request, by its result.
    pub open spec fn spec_decide(&self, attempt: nat, kind: AttemptKind) -> Decision {
        match kind {
            AttemptKind::Success => Decision::Terminal(TerminalState::Succeeded),
            AttemptKind::Permanent => Decision::Terminal(TerminalState::FailedPermanently),
            AttemptKind::Transient => if attempt < self.max_attempts {
                Decision::Retry { delay_ms: self.spec_backoff(attempt) as u64 }
            } else {
                Decision::Terminal(TerminalState::FailedExhaustedRetries)
            },
        }
    }

    /// The terminal state and the number of attempts made, when the handler
    /// gives these results one attempt after the other, from attempt
    /// `done + 1`; `None` where the results run out first.
    pub open spec fn spec_run(&self, kinds: Seq<AttemptKind>, done: nat) -> Option<(TerminalState, nat)>
        decreases kinds.len(),
    {
        if kinds.len() == 0 {
            None
        } else {
            match self.spec_decide(done + 1, kinds[0]) {
                Decision::Terminal(s) => Some((s, done + 1)),
                Decision::Retry { .. } => self.spec_run(kinds.drop_first(), done + 1),
            }
        }
    }

    pub fn new(max_attempts: u32, base_delay_ms: u64, max_delay_ms: u64) -> (r: Self)
        requires
            max_attempts >= 1,
            base_delay_ms <= max_delay_ms,
        ensures
            r.wf(),
            r.max_attempts == max_attempts,
            r.base_delay_ms == base_delay_ms,
            r.max_delay_ms == max_delay_ms,
    {
        RetryPolicy { max_attempts, base_delay_ms, max_delay_ms }
    }

    pub fn default_policy() -> (r: Self)
        ensures
            r.wf(),
            r.max_attempts == DEFAULT_MAX_ATTEMPTS,
            r.base_delay_ms == DEFAULT_BASE_DELAY_MS,
            r.max_delay_ms == DEFAULT_MAX_DELAY_MS,
    {
        RetryPolicy {
            max_attempts: DEFAULT_MAX_ATTEMPTS,
            base_delay_ms: DEFAULT_BASE_DELAY_MS,
            max_delay_ms: DEFAULT_MAX_DELAY_MS,
        }
    }

    /// The delay before the attempt that follows `attempt` failed attempts.
    pub fn backoff_delay(&self, attempt: u32) -> (r: u64)
        requires
            self.wf(),
            attempt >= 1,
        ensures
            r == self.spec_backoff(attempt as nat),
    {
        let cap = self.max_delay_ms;
        let mut d: u64 = self.base_delay_ms;
        let mut k: u32 = 1;
        proof {
            lemma2_to64();
            assert(pow2(((k - 1) as int) as nat) == 1);
            assert(self.base_delay_ms * pow2(((k - 1) as int) as nat) == self.base_delay_ms);
        }
        while k < attempt
            invariant
                1 <= k <= attempt,
                d <= cap,
                cap == self.max_delay_ms,
                d == min_int(self.base_delay_ms * pow2((k - 1) as nat), cap as int),
            decreases attempt - k,
        {
            proof {
                lemma_pow2_unfold(k as nat);
                lemma_pow2_pos((k - 1) as nat);
                let b = self.base_delay_ms as int;
                let p = pow2((k - 1) as nat) as int;
                assert(b * (2 * p) == 2 * (b * p)) by (nonlinear_arith);
            }
            if d >= cap - d {
                d = cap;
            } else {
                d = 2 * d;
            }
            k = k + 1;
        }
        d
    }

    /// What follows the `attempt`-th attempt of a request, by its result:
    /// success and permanent failures end it; a transient failure is retried
    /// after the backoff delay until the attempts are used up.
    pub fn decide(&self, attempt: u32, result: &Result<String, HandlerError>) -> (r: Decision)
        requires
            self.wf(),
            attempt >= 1,
        ensures
            r == self.spec_decide(attempt as nat, kind_of(*result)),
    {
        match result {
            Ok(_) => Decision::Terminal(TerminalState::Succeeded),
            Err(HandlerError::Permanent(_)) => Decision::Terminal(TerminalState::FailedPermanently),
            Err(HandlerError::Transient(_)) => {
                if attempt < self.max_attempts {
                    Decision::Retry { delay_ms: self.backoff_delay(attempt) }
                } else {
                    Decision::Terminal(TerminalState::FailedExhaustedRetries)
                }
            },
        }
    }
}

/// A request whose handler fails transiently on every attempt is attempted
/// exactly the policy's maximum number of times and ends in
/// `FailedExhaustedRetries`.
pub proof fn lemma_transient_failures_exhaust_retries(policy: RetryPolicy, kinds: Seq<AttemptKind>)
    requires
        policy.wf(),
        kinds.len() >= policy.max_attempts,
        forall|i: int| 0 <= i < policy.max_attempts ==> kinds[i] == AttemptKind::Transient,
    ensures
        policy.spec_run(kinds, 0) == Some((TerminalState::FailedExhaustedRetries, policy.max_attempts as nat)),
{
    lemma_transient_run_from(policy, kinds, 0);
}

proof fn lemma_transient_run_from(policy: RetryPolicy, kinds: Seq<AttemptKind>, done: nat)
    requires
        policy.wf(),
        done < policy.max_attempts,
        kinds.len() >= policy.max_attempts - done,
        forall|i: int| 0 <= i < policy.max_attempts - done ==> kinds[i] == AttemptKind::Transient,
    ensures
        policy.spec_run(kinds, done) == Some((TerminalState::FailedExhaustedRetries, policy.max_attempts as nat)),
    decreases policy.max_attempts - done,
{
    if done + 1 < policy.max_attempts {
        let rest = kinds.drop_first();
        assert forall|i: int| 0 <= i < policy.max_attempts - (done + 1) implies rest[i] == AttemptKind::Transient by {
            assert(rest[i] == kinds[i + 1]);
        }
        lemma_transient_run_from(policy, rest, done + 1);
    }
}

/// A request whose handler fails permanently ends in `FailedPermanently`
/// after exactly one attempt, whatever the policy.
pub proof fn lemma_permanent_failure_stops_at_once(policy: RetryPolicy, kinds: Seq<AttemptKind>)
    requires
        policy.wf(),
        kinds.len() >= 1,
        kinds[0] == AttemptKind::Permanent,
    ensures
        policy.spec_run(kinds, 0) == Some((TerminalState::FailedPermanently, 1nat)),
{
}

/// The reason or result that an outcome records for an attempt's result.
pub open spec fn payload_of(result: Result<String, HandlerError>) -> Seq<char> {
    match result {
        Ok(s) => s@,
        Err(HandlerError::Transient(s)) => s@,
        Err(HandlerError::Permanent(s)) => s@,
    }
}

pub open spec fn saturating_sum(a: u64, b: u64) -> u64 {
    if a + b > u64::MAX { u64::MAX } else { (a + b) as u64 }
}

/// One request held by the executor, from its dequeueing to its terminal
/// outcome. Only the executor advances it, one attempt at a time.
#[derive(Debug)]
pub struct RequestExecution {
    pub request: FunctionCallRequest,
    pub policy: RetryPolicy,
    pub elapsed_ms: u64,
    pub outcome: Option<ExecutionOutcome>,
}

impl RequestExecution {
    pub open spec fn wf(&self) -> bool {
        &&& self.policy.wf()
        &&& self.request.attempts <= self.policy.max_attempts
        &&& self.outcome is None ==> self.request.attempts < self.policy.max_attempts
    }

    /// Takes a dequeued request: no attempt made yet, no time spent.
    pub fn start(request: FunctionCallRequest, policy: RetryPolicy) -> (r: Self)
        requires
            policy.wf(),
        ensures
            r.wf(),
            r.request.id == request.id,
            r.request.function_name@ == request.function_name@,
            r.request.arguments@ == request.arguments@,
            r.request.attempts == 0,
            r.policy == policy,
            r.elapsed_ms == 0,
            r.outcome is None,
    {
        let mut request = request;
        request.attempts = 0;
        RequestExecution { request, policy, elapsed_ms: 0, outcome: None }
    }

    pub fn is_finished(&self) -> (r: bool)
        ensures
            r == self.outcome is Some,
    {
        self.outcome.is_some()
    }

    /// Records the result of one dispatch that took `attempt_ms`, and says
    /// what follows. A terminal decision writes the outcome.
    pub fn record_attempt(&mut self, result: Result<String, HandlerError>, attempt_ms: u64) -> (d: Decision)
        requires
            old(self).wf(),
            old(self).outcome is None,
        ensures
            final(self).wf(),
            final(self).request.attempts == old(self).request.attempts + 1,
            final(self).request.id == old(self).request.id,
            final(self).policy == old(self).policy,
            final(self).elapsed_ms == saturating_sum(old(self).elapsed_ms, attempt_ms),
            d == old(self).policy.spec_decide((old(self).request.attempts + 1) as nat, kind_of(result)),
            d is Retry ==> final(self).outcome is None,
            d matches Decision::Terminal(s) ==> final(self).outcome matches Some(o) && {
                &&& o.request_id == old(self).request.id
                &&& o.state == s
                &&& o.payload@ == payload_of(result)
                &&& o.attempts == final(self).request.attempts
                &&& o.elapsed_ms == final(self).elapsed_ms
            },
    {
        let attempt = self.request.attempts + 1;
        self.request.attempts = attempt;
        if self.elapsed_ms > u64::MAX - attempt_ms {
            self.elapsed_ms = u64::MAX;
        } else {
            self.elapsed_ms = self.elapsed_ms + attempt_ms;
        }
        let d = self.policy.decide(attempt, &result);
        match d {
            Decision::Retry { .. } => {},
            Decision::Terminal(state) => {
                let payload = match result {
                    Ok(s) => s,
                    Err(HandlerError::Transient(s)) => s,
                    Err(HandlerError::Permanent(s)) => s,
                };
                self.outcome = Some(ExecutionOutcome {
                    request_id: self.request.id,
                    state,
                    payload,
                    attempts: attempt,
                    elapsed_ms: self.elapsed_ms,
                });
            },
        }
        d
    }
}

} // verus!
