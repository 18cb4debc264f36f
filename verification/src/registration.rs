//! The registration protocol: classify the remote server's answer to one
//! registration attempt, and drive the bounded retry loop around it.
//!
//! The HTTP call itself is the caller's: it sends the request, reads the
//! status and body, classifies them with `classify_response`, reports the
//! outcome to the `RegisterRun` state machine, and sleeps the fixed delay
//! before the next attempt. The machine tracks logical elapsed time as the
//! sum of those delays and bounds the number of attempts by the deadline.

use crate::text::{contains_seq, contains_str};
use vstd::arithmetic::div_mod::lemma_fundamental_div_mod;
use vstd::prelude::*;

verus! {

/// The body text by which the remote server reports that the callback URL
/// is already registered.
pub open spec fn already_exists_marker() -> Seq<char> {
    "Webhook endpoint already exists"@
}

/// How one registration attempt ended. An already-registered conflict is
/// success (registration is idempotent); any other failure carries the
/// server's reason verbatim.
#[derive(Debug, Clone, PartialEq, Eq)]
pub enum AttemptOutcome {
    Accepted,
    AlreadyRegistered,
    Rejected(String),
}

impl AttemptOutcome {
    /// True exactly when the attempt counts as a successful registration.
    pub fn is_success(&self) -> (b: bool)
        ensures
            b == !(self is Rejected),
    {
        match self {
            AttemptOutcome::Rejected(_) => false,
            _ => true,
        }
    }
}

/// Classify the remote server's answer to one registration attempt: a
/// success status is accepted; a failure whose body reports an existing
/// registration is the idempotent no-op; any other failure is rejected with
/// the body preserved verbatim as the reason.
pub fn classify_response(status_success: bool, body: &str) -> (r: AttemptOutcome)
    ensures
        status_success ==> r == AttemptOutcome::Accepted,
        !status_success && contains_seq(body@, already_exists_marker()) ==> r
            == AttemptOutcome::AlreadyRegistered,
        !status_success && !contains_seq(body@, already_exists_marker()) ==> (r matches
            AttemptOutcome::Rejected(reason) && reason@ == body@),
{
    if status_success {
        AttemptOutcome::Accepted
    } else if contains_str(body, "Webhook endpoint already exists") {
        AttemptOutcome::AlreadyRegistered
    } else {
        AttemptOutcome::Rejected(body.to_owned())
    }
}

/// How a finished retry loop ended.
#[derive(Debug, Clone, Copy, PartialEq, Eq, Structural)]
pub enum RegisterResult {
    Registered,
    TimedOut,
}

/// The retry loop's state: attempts are made while the total time waited
/// between attempts stays under the deadline; each failed attempt adds one
/// fixed delay to the waited time.
#[derive(Debug, Clone, Copy, PartialEq, Eq, Structural)]
pub struct RegisterRun {
    pub deadline_ms: u64,
    pub delay_ms: u64,
    pub waited_ms: u64,
    pub attempts: u64,
    pub succeeded: bool,
}

impl RegisterRun {
    /// The run's invariant: the waited time is exactly one delay per failed
    /// attempt, and every attempt so far started before the deadline.
    pub open spec fn wf(self) -> bool {
        &&& self.delay_ms > 0
        &&& self.deadline_ms + self.delay_ms <= u64::MAX
        &&& (self.succeeded ==> self.attempts >= 1)
        &&& self.waited_ms == (if self.succeeded {
            (self.attempts - 1) as int
        } else {
            self.attempts as int
        }) * self.delay_ms
        &&& (self.attempts >= 1 ==> (self.attempts - 1) * self.delay_ms < self.deadline_ms)
    }

    /// The state of a fresh run.
    pub open spec fn spec_new(deadline_ms: u64, delay_ms: u64) -> RegisterRun {
        RegisterRun { deadline_ms, delay_ms, waited_ms: 0, attempts: 0, succeeded: false }
    }

    /// Another attempt is due: none has succeeded yet and the waited time is
    /// still under the deadline.
    pub open spec fn spec_should_attempt(self) -> bool {
        !self.succeeded && self.waited_ms < self.deadline_ms
    }

    /// The state after one attempt with the given outcome: a failure adds
    /// one delay of waiting before the next attempt.
    pub open spec fn spec_step(self, success: bool) -> RegisterRun {
        RegisterRun {
            attempts: (self.attempts + 1) as u64,
            succeeded: success,
            waited_ms: if success {
                self.waited_ms
            } else {
                (self.waited_ms + self.delay_ms) as u64
            },
            ..self
        }
    }

    /// Begin a retry loop bounded by `deadline_ms`, sleeping `delay_ms`
    /// after each failed attempt.
    pub fn new(deadline_ms: u64, delay_ms: u64) -> (r: Self)
        requires
            delay_ms > 0,
            deadline_ms + delay_ms <= u64::MAX,
        ensures
            r == Self::spec_new(deadline_ms, delay_ms),
            r.wf(),
    {
        proof {
            assert(0int * delay_ms == 0) by (nonlinear_arith);
        }
        RegisterRun { deadline_ms, delay_ms, waited_ms: 0, attempts: 0, succeeded: false }
    }

    /// Whether the caller should make (another) registration attempt.
    pub fn should_attempt(&self) -> (b: bool)
        ensures
            b == self.spec_should_attempt(),
    {
        !self.succeeded && self.waited_ms < self.deadline_ms
    }

    /// Record the outcome of one attempt. On failure the caller sleeps
    /// `delay_ms` before asking `should_attempt` again; the machine accounts
    /// that delay as waited time.
    pub fn record_attempt(&mut self, success: bool)
        requires
            old(self).wf(),
            old(self).spec_should_attempt(),
        ensures
            *final(self) == old(self).spec_step(success),
            final(self).wf(),
    {
        proof {
            lemma_step_preserves_wf(*self, success);
        }
        self.attempts = self.attempts + 1;
        if !success {
            self.waited_ms = self.waited_ms + self.delay_ms;
        }
        self.succeeded = success;
    }

    /// The result once no further attempt is due: registered exactly when
    /// some attempt succeeded, timed out otherwise.
    pub fn outcome(&self) -> (r: RegisterResult)
        requires
            !self.spec_should_attempt(),
        ensures
            r == (if self.succeeded {
                RegisterResult::Registered
            } else {
                RegisterResult::TimedOut
            }),
    {
        if self.succeeded {
            RegisterResult::Registered
        } else {
            RegisterResult::TimedOut
        }
    }
}

/// One step keeps the invariant: the attempt count and the waited time stay
/// in lockstep and under the deadline bound.
pub proof fn lemma_step_preserves_wf(r: RegisterRun, success: bool)
    requires
        r.wf(),
        r.spec_should_attempt(),
    ensures
        r.spec_step(success).wf(),
        r.attempts + 1 <= u64::MAX,
        r.waited_ms + r.delay_ms <= u64::MAX,
{
    let a = r.attempts as int;
    let d = r.delay_ms as int;
    assert(a * d == r.waited_ms);
    assert(a <= a * d) by (nonlinear_arith)
        requires
            d >= 1,
            a >= 0,
    ;
    assert((a + 1) * d == a * d + d) by (nonlinear_arith);
}

/// The state after a whole sequence of attempt outcomes, oldest first,
/// starting from a fresh run; outcomes beyond the loop's end change nothing.
pub open spec fn spec_run(deadline_ms: u64, delay_ms: u64, outcomes: Seq<bool>) -> RegisterRun
    decreases outcomes.len(),
{
    if outcomes.len() == 0 {
        RegisterRun::spec_new(deadline_ms, delay_ms)
    } else {
        let prev = spec_run(deadline_ms, delay_ms, outcomes.drop_last());
        if prev.spec_should_attempt() {
            prev.spec_step(outcomes.last())
        } else {
            prev
        }
    }
}

/// Every run reached from a fresh state satisfies the invariant.
pub proof fn lemma_run_wf(deadline_ms: u64, delay_ms: u64, outcomes: Seq<bool>)
    requires
        delay_ms > 0,
        deadline_ms + delay_ms <= u64::MAX,
    ensures
        spec_run(deadline_ms, delay_ms, outcomes).wf(),
        spec_run(deadline_ms, delay_ms, outcomes).deadline_ms == deadline_ms,
        spec_run(deadline_ms, delay_ms, outcomes).delay_ms == delay_ms,
    decreases outcomes.len(),
{
    if outcomes.len() > 0 {
        lemma_run_wf(deadline_ms, delay_ms, outcomes.drop_last());
        let prev = spec_run(deadline_ms, delay_ms, outcomes.drop_last());
        if prev.spec_should_attempt() {
            lemma_step_preserves_wf(prev, outcomes.last());
        }
    }
}

/// The attempt bound: however the attempts turn out, a run makes at most
/// `deadline / delay + 1` of them.
pub proof fn lemma_attempt_bound(r: RegisterRun)
    requires
        r.wf(),
    ensures
        r.attempts <= r.deadline_ms as int / r.delay_ms as int + 1,
{
    if r.attempts >= 1 {
        let a = r.attempts as int;
        let d = r.delay_ms as int;
        let dl = r.deadline_ms as int;
        lemma_fundamental_div_mod(dl, d);
        assert(a - 1 <= dl / d) by (nonlinear_arith)
            requires
                d > 0,
                (a - 1) * d < dl,
                dl == d * (dl / d) + dl % d,
                0 <= dl % d < d,
        ;
    }
}

/// A run whose attempts all fail never claims success: once the deadline is
/// spent it times out, after at most `deadline / delay + 1` attempts.
pub proof fn lemma_all_failures_time_out(deadline_ms: u64, delay_ms: u64, outcomes: Seq<bool>)
    requires
        delay_ms > 0,
        deadline_ms + delay_ms <= u64::MAX,
        forall|i: int| 0 <= i < outcomes.len() ==> !outcomes[i],
    ensures
        !spec_run(deadline_ms, delay_ms, outcomes).succeeded,
        spec_run(deadline_ms, delay_ms, outcomes).attempts <= deadline_ms as int / delay_ms as int
            + 1,
    decreases outcomes.len(),
{
    lemma_run_wf(deadline_ms, delay_ms, outcomes);
    lemma_attempt_bound(spec_run(deadline_ms, delay_ms, outcomes));
    if outcomes.len() > 0 {
        assert(forall|i: int|
            0 <= i < outcomes.drop_last().len() ==> !outcomes.drop_last()[i]);
        lemma_all_failures_time_out(deadline_ms, delay_ms, outcomes.drop_last());
        assert(!outcomes.last());
    }
}

/// Retry until success: when the first `k` attempts fail within the deadline
/// and the next succeeds, the run registers after exactly `k + 1` attempts,
/// having waited exactly one fixed delay per failed attempt.
pub proof fn lemma_retry_until_success(
    deadline_ms: u64,
    delay_ms: u64,
    outcomes: Seq<bool>,
    k: int,
)
    requires
        delay_ms > 0,
        deadline_ms + delay_ms <= u64::MAX,
        0 <= k,
        outcomes.len() == k + 1,
        forall|i: int| 0 <= i < k ==> !outcomes[i],
        outcomes[k],
        k * delay_ms < deadline_ms,
    ensures
        spec_run(deadline_ms, delay_ms, outcomes).succeeded,
        spec_run(deadline_ms, delay_ms, outcomes).attempts == k + 1,
        spec_run(deadline_ms, delay_ms, outcomes).waited_ms == k * delay_ms,
{
    let d = delay_ms as int;
    assert(forall|i: int| 0 <= i < outcomes.drop_last().len() ==> !outcomes.drop_last()[i]);
    assert(k >= 1 ==> (k - 1) * d < k * d) by (nonlinear_arith)
        requires
            d > 0,
    ;
    let prev = spec_run(deadline_ms, delay_ms, outcomes.drop_last());
    lemma_run_wf(deadline_ms, delay_ms, outcomes.drop_last());
    lemma_failures_all_attempted(deadline_ms, delay_ms, outcomes.drop_last());
    assert(outcomes.last() == outcomes[k]);
    assert(prev.spec_should_attempt());
    lemma_step_preserves_wf(prev, true);
}

/// When every outcome in a sequence is a failure and even the last attempt
/// started before the deadline, every attempt was actually made: the run
/// counts them all and waited one delay for each.
pub proof fn lemma_failures_all_attempted(deadline_ms: u64, delay_ms: u64, outcomes: Seq<bool>)
    requires
        delay_ms > 0,
        deadline_ms + delay_ms <= u64::MAX,
        forall|i: int| 0 <= i < outcomes.len() ==> !outcomes[i],
        outcomes.len() >= 1 ==> (outcomes.len() - 1) * delay_ms < deadline_ms,
    ensures
        !spec_run(deadline_ms, delay_ms, outcomes).succeeded,
        spec_run(deadline_ms, delay_ms, outcomes).attempts == outcomes.len(),
        spec_run(deadline_ms, delay_ms, outcomes).waited_ms == outcomes.len() * delay_ms,
    decreases outcomes.len(),
{
    let n = outcomes.len() as int;
    let d = delay_ms as int;
    if n >= 1 {
        assert(forall|i: int|
            0 <= i < outcomes.drop_last().len() ==> !outcomes.drop_last()[i]);
        assert((n - 2) * d < (n - 1) * d) by (nonlinear_arith)
            requires
                d > 0,
        ;
        lemma_run_wf(deadline_ms, delay_ms, outcomes.drop_last());
        lemma_failures_all_attempted(deadline_ms, delay_ms, outcomes.drop_last());
        let prev = spec_run(deadline_ms, delay_ms, outcomes.drop_last());
        assert(prev.waited_ms == (n - 1) * d);
        assert(prev.spec_should_attempt());
        lemma_step_preserves_wf(prev, false);
        assert(!outcomes.last());
        assert((n - 1) * d + d == n * d) by (nonlinear_arith);
    }
}

} // verus!
