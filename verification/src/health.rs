//! Health-check polling: the outcome of one liveness probe and the machine
//! that decides, attempt by attempt, whether to keep polling, succeed, or
//! give up.
//!
//! The machine holds the attempt budget and the verdict; the driver issues
//! the HTTP requests and sleeps, and feeds each observed outcome back through
//! [`HealthPoller::observe`].

use vstd::arithmetic::div_mod::lemma_fundamental_div_mod;
use vstd::arithmetic::mul::lemma_mul_inequality;
use vstd::prelude::*;
use vstd::string::*;

verus! {

/// Result of a single health-check attempt.
#[derive(Debug, Clone)]
pub struct HealthCheckResult {
    /// HTTP status code; absent on a transport failure.
    pub status_code: Option<u16>,
    /// Response time of the attempt.
    pub latency_ms: u64,
    /// When the attempt began, relative to the supervisor's clock.
    pub timestamp_ms: u64,
    /// Error text when the attempt failed in transport.
    pub error: Option<String>,
}

impl HealthCheckResult {
    /// An attempt is healthy exactly when it observed status 200.
    pub open spec fn spec_is_healthy(self) -> bool {
        self.status_code == Some(200u16)
    }

    /// Whether this attempt observed status 200.
    pub fn is_healthy(&self) -> (r: bool)
        ensures
            r == self.spec_is_healthy(),
    {
        match self.status_code {
            Some(code) => code == 200,
            None => false,
        }
    }
}

/// Health-check configuration.
#[derive(Debug, Clone)]
pub struct HealthCheckConfig {
    /// URL to poll.
    pub url: String,
    /// Time between poll attempts.
    pub poll_interval_ms: u64,
    /// Maximum total time to wait for a healthy response.
    pub timeout_ms: u64,
    /// Timeout for each individual request.
    pub request_timeout_ms: u64,
}

impl HealthCheckConfig {
    /// The poll interval must be strictly positive and strictly below the
    /// total timeout.
    pub open spec fn wf(self) -> bool {
        0 < self.poll_interval_ms < self.timeout_ms
    }

    /// The attempt budget: how many whole poll intervals fit in the total
    /// timeout.
    pub open spec fn spec_max_attempts(self) -> nat
        recommends
            self.wf(),
    {
        (self.timeout_ms / self.poll_interval_ms) as nat
    }

    /// Compute the attempt budget.
    pub fn max_attempts(&self) -> (r: u64)
        requires
            self.wf(),
        ensures
            r == self.spec_max_attempts(),
            r >= 1,
    {
        proof {
            assert(self.timeout_ms / self.poll_interval_ms >= 1) by (nonlinear_arith)
                requires
                    0 < self.poll_interval_ms < self.timeout_ms,
            ;
        }
        self.timeout_ms / self.poll_interval_ms
    }
}

impl Default for HealthCheckConfig {
    /// Poll the fixed loopback URL every 500 ms for up to 30 s, capping each
    /// request at 3 s.
    fn default() -> (r: Self)
        ensures
            r.url@ == "http://127.0.0.1:8123/"@,
            r.poll_interval_ms == 500u64,
            r.timeout_ms == 30000u64,
            r.request_timeout_ms == 3000u64,
            r.wf(),
    {
        HealthCheckConfig {
            url: "http://127.0.0.1:8123/".to_owned(),
            poll_interval_ms: 500,
            timeout_ms: 30000,
            request_timeout_ms: 3000,
        }
    }
}

/// Verdict of the polling loop so far.
#[derive(Debug, Clone, Copy, PartialEq, Eq, Structural)]
pub enum PollStatus {
    /// More attempts may follow.
    InProgress,
    /// Some attempt observed status 200.
    Succeeded,
    /// The budget or the total timeout ran out without a healthy response.
    TimedOut,
}

/// What the driver must do next.
#[derive(Debug, Clone, Copy, PartialEq, Eq, Structural)]
pub enum PollAction {
    /// Issue one liveness request with the per-request timeout.
    Request,
    /// Suspend for the poll interval, then issue the next request.
    Wait { duration_ms: u64 },
    /// Report success to the caller.
    Succeed,
    /// Report `HealthCheckTimeout` to the caller.
    Fail,
}

/// The polling decision machine. Attempts are numbered from 1; the machine
/// succeeds on the first healthy outcome, and times out when the total
/// elapsed time exceeds the budget or the last allowed attempt was unhealthy.
pub struct HealthPoller {
    /// Time between attempts.
    pub poll_interval_ms: u64,
    /// Total budget in wall time.
    pub timeout_ms: u64,
    /// Attempt budget, fixed at construction.
    pub max_attempts: u64,
    /// Attempts observed so far.
    pub attempts_made: u64,
    /// Verdict so far.
    pub status: PollStatus,
    /// Every outcome observed, in order.
    pub history: Ghost<Seq<HealthCheckResult>>,
    /// Total wait time prescribed so far.
    pub waited_ms: Ghost<int>,
}

impl HealthPoller {
    /// Well-formedness: the history matches the attempt count, the budget is
    /// respected, and the verdict agrees with the history — while polling
    /// goes on nothing healthy has been seen; success means exactly the last
    /// outcome was healthy; timeout means nothing ever was.
    pub open spec fn inv(self) -> bool {
        &&& 0 < self.poll_interval_ms < self.timeout_ms
        &&& self.max_attempts == self.timeout_ms / self.poll_interval_ms
        &&& 1 <= self.max_attempts
        &&& self.attempts_made <= self.max_attempts
        &&& self.history@.len() == self.attempts_made
        &&& (self.status is InProgress ==> self.waited_ms@ == self.poll_interval_ms
            * self.attempts_made)
        &&& (!(self.status is InProgress) ==> self.attempts_made >= 1 && self.waited_ms@
            == self.poll_interval_ms * (self.attempts_made - 1))
        &&& match self.status {
            PollStatus::InProgress => {
                &&& self.attempts_made < self.max_attempts
                &&& forall|i: int|
                    0 <= i < self.history@.len() ==> !(#[trigger] self.history@[i]).spec_is_healthy()
            },
            PollStatus::Succeeded => {
                &&& self.history@.len() >= 1
                &&& self.history@.last().spec_is_healthy()
                &&& forall|i: int|
                    0 <= i < self.history@.len() - 1 ==> !(#[trigger] self.history@[i]).spec_is_healthy()
            },
            PollStatus::TimedOut => {
                forall|i: int|
                    0 <= i < self.history@.len() ==> !(#[trigger] self.history@[i]).spec_is_healthy()
            },
        }
    }

    /// Begin a polling run over the given configuration.
    pub fn new(config: &HealthCheckConfig) -> (r: HealthPoller)
        requires
            config.wf(),
        ensures
            r.inv(),
            r.status is InProgress,
            r.attempts_made == 0,
            r.history@ == Seq::<HealthCheckResult>::empty(),
            r.poll_interval_ms == config.poll_interval_ms,
            r.timeout_ms == config.timeout_ms,
            r.max_attempts == config.spec_max_attempts(),
            r.waited_ms@ == 0,
    {
        let max_attempts = config.max_attempts();
        HealthPoller {
            poll_interval_ms: config.poll_interval_ms,
            timeout_ms: config.timeout_ms,
            max_attempts,
            attempts_made: 0,
            status: PollStatus::InProgress,
            history: Ghost(Seq::empty()),
            waited_ms: Ghost(0),
        }
    }

    /// What the driver must do next: request while polling goes on, otherwise
    /// report the verdict.
    pub fn next_action(&self) -> (r: PollAction)
        ensures
            self.status is InProgress ==> r is Request,
            self.status is Succeeded ==> r is Succeed,
            self.status is TimedOut ==> r is Fail,
    {
        match self.status {
            PollStatus::InProgress => PollAction::Request,
            PollStatus::Succeeded => PollAction::Succeed,
            PollStatus::TimedOut => PollAction::Fail,
        }
    }

    /// Record the outcome of one attempt, together with the total wall time
    /// elapsed since polling began, and decide what follows: success on
    /// status 200; timeout when the total budget is exceeded, even with
    /// attempts remaining, or when this was the last allowed attempt; else
    /// one poll-interval wait before the next request.
    pub fn observe(&mut self, result: &HealthCheckResult, elapsed_ms: u64) -> (r: PollAction)
        requires
            old(self).inv(),
            old(self).status is InProgress,
        ensures
            final(self).inv(),
            final(self).history@ == old(self).history@.push(*result),
            final(self).attempts_made == old(self).attempts_made + 1,
            final(self).poll_interval_ms == old(self).poll_interval_ms,
            final(self).timeout_ms == old(self).timeout_ms,
            final(self).max_attempts == old(self).max_attempts,
            result.spec_is_healthy() ==> final(self).status is Succeeded && r is Succeed,
            !result.spec_is_healthy() && elapsed_ms >= old(self).timeout_ms
                ==> final(self).status is TimedOut && r is Fail,
            !result.spec_is_healthy() && elapsed_ms < old(self).timeout_ms && old(self).attempts_made
                + 1 == old(self).max_attempts ==> final(self).status is TimedOut && r is Fail,
            !result.spec_is_healthy() && elapsed_ms < old(self).timeout_ms && old(self).attempts_made
                + 1 < old(self).max_attempts ==> final(self).status is InProgress && r == (
            PollAction::Wait { duration_ms: old(self).poll_interval_ms }) && final(self).waited_ms@
                == old(self).waited_ms@ + old(self).poll_interval_ms,
            !(final(self).status is InProgress) ==> final(self).waited_ms@ == old(self).waited_ms@,
    {
        self.attempts_made = self.attempts_made + 1;
        self.history = Ghost(self.history@.push(*result));
        if result.is_healthy() {
            self.status = PollStatus::Succeeded;
            PollAction::Succeed
        } else if elapsed_ms >= self.timeout_ms {
            self.status = PollStatus::TimedOut;
            PollAction::Fail
        } else if self.attempts_made == self.max_attempts {
            self.status = PollStatus::TimedOut;
            PollAction::Fail
        } else {
            self.waited_ms = Ghost(self.waited_ms@ + self.poll_interval_ms);
            proof {
                assert(self.poll_interval_ms * (self.attempts_made - 1) + self.poll_interval_ms
                    == self.poll_interval_ms * self.attempts_made) by (nonlinear_arith);
            }
            PollAction::Wait { duration_ms: self.poll_interval_ms }
        }
    }
}

/// The waits a polling run prescribes always leave at least one poll
/// interval of the total budget free: the loop never sleeps past its
/// timeout.
pub proof fn lemma_wait_time_bounded(p: HealthPoller)
    requires
        p.inv(),
    ensures
        p.waited_ms@ + p.poll_interval_ms <= p.timeout_ms,
{
    let i = p.poll_interval_ms as int;
    let t = p.timeout_ms as int;
    let max = p.max_attempts as int;
    lemma_fundamental_div_mod(t, i);
    assert(i * max <= t);
    if p.status is InProgress {
        lemma_mul_inequality(p.attempts_made as int, max - 1, i);
    } else {
        lemma_mul_inequality(p.attempts_made as int - 1, max - 1, i);
    }
    assert(i * (max - 1) == i * max - i) by (nonlinear_arith);
}

/// A finished polling run succeeded if and only if some attempt observed
/// status 200.
pub proof fn lemma_success_iff_healthy_observed(p: HealthPoller)
    requires
        p.inv(),
        !(p.status is InProgress),
    ensures
        (p.status is Succeeded) <==> exists|i: int|
            0 <= i < p.history@.len() && (#[trigger] p.history@[i]).spec_is_healthy(),
{
    if p.status is Succeeded {
        assert(p.history@[p.history@.len() - 1].spec_is_healthy());
    }
}

} // verus!
