//! When the server counts as ready: a bounded number of reachability checks
//! with a capped, doubling pause after each failed one.

use vstd::prelude::*;
use vstd::arithmetic::power2::{lemma2_to64, lemma_pow2_strictly_increases, pow2};

verus! {

/// The loopback endpoint whose acceptance of a connection means "reachable".
pub const PROBE_ADDRESS: &'static str = "127.0.0.1:3000";

/// How many checks the background wait makes after a spawn.
pub const READINESS_ATTEMPTS: u32 = 10;

/// The longest pause after a failed check, in seconds.
pub const BACKOFF_CAP_SECS: u64 = 8;

/// The pause after the failed check number `attempt` (counted from 0), in
/// seconds: doubling from 1, capped.
pub open spec fn backoff_secs(attempt: nat) -> nat {
    if pow2(attempt) < BACKOFF_CAP_SECS {
        pow2(attempt)
    } else {
        BACKOFF_CAP_SECS as nat
    }
}

/// The pauses after the first `sleeps` failed checks, added up.
pub open spec fn total_backoff(sleeps: nat) -> nat
    decreases sleeps,
{
    if sleeps == 0 {
        0
    } else {
        total_backoff((sleeps - 1) as nat) + backoff_secs((sleeps - 1) as nat)
    }
}

/// The pauses are 1, 2, 4 and from then on 8 seconds.
pub proof fn lemma_backoff_values(attempt: nat)
    ensures
        backoff_secs(attempt) == if attempt == 0 {
            1nat
        } else if attempt == 1 {
            2nat
        } else if attempt == 2 {
            4nat
        } else {
            8nat
        },
{
    lemma2_to64();
    if attempt > 3 {
        lemma_pow2_strictly_increases(3, attempt);
    }
}

/// The total pause grows with the number of sleeps and by at most the cap
/// for each.
pub proof fn lemma_total_backoff_grows(fewer: nat, more: nat)
    requires
        fewer <= more,
    ensures
        total_backoff(fewer) <= total_backoff(more),
        total_backoff(more) <= total_backoff(fewer) + BACKOFF_CAP_SECS * (more - fewer),
    decreases more,
{
    if fewer < more {
        lemma_total_backoff_grows(fewer, (more - 1) as nat);
        lemma_backoff_values((more - 1) as nat);
    }
}

/// The total pause in closed form: 0, 1, 3, 7, and 8 more for each further
/// sleep.
pub proof fn lemma_total_backoff_closed_form(sleeps: nat)
    ensures
        total_backoff(sleeps) == if sleeps == 0 {
            0
        } else if sleeps == 1 {
            1
        } else if sleeps == 2 {
            3
        } else {
            8 * sleeps - 17
        },
    decreases sleeps,
{
    if sleeps > 0 {
        lemma_total_backoff_closed_form((sleeps - 1) as nat);
        lemma_backoff_values((sleeps - 1) as nat);
    }
}

/// The pause after the failed check number `attempt`, in seconds.
pub fn backoff_delay(attempt: u32) -> (secs: u64)
    ensures
        secs == backoff_secs(attempt as nat),
{
    proof {
        lemma_backoff_values(attempt as nat);
    }
    if attempt == 0 {
        1
    } else if attempt == 1 {
        2
    } else if attempt == 2 {
        4
    } else {
        BACKOFF_CAP_SECS
    }
}

/// Where a wait stands.
#[derive(Clone, Copy, Debug, PartialEq, Eq, Structural)]
pub enum WaitPhase {
    /// A reachability check is due.
    Checking,
    /// The last check failed and its pause is due.
    Sleeping,
    /// The wait is over, with this result.
    Done(bool),
}

/// What the host has to do for a wait.
#[derive(Clone, Copy, Debug, PartialEq, Eq, Structural)]
pub enum WaitAction {
    /// Check once whether the endpoint answers, and report it.
    Check,
    /// Sleep for so many seconds, and report it.
    Sleep(u64),
    /// Nothing more: the wait ended with this result.
    Finished(bool),
}

/// The mathematical state of a wait.
pub struct WaitState {
    /// The bound on the number of checks.
    pub max_attempts: nat,
    pub phase: WaitPhase,
    /// The checks made so far.
    pub checks: nat,
    /// The seconds slept so far.
    pub slept_secs: nat,
}

impl WaitState {
    /// Never more checks than allowed, a pause after every failed check and
    /// after nothing else, and `false` only once every check has failed.
    pub open spec fn wf(self) -> bool {
        &&& self.checks <= self.max_attempts
        &&& match self.phase {
            WaitPhase::Checking => {
                &&& self.checks < self.max_attempts
                &&& self.slept_secs == total_backoff(self.checks)
            },
            WaitPhase::Sleeping => {
                &&& self.checks >= 1
                &&& self.slept_secs == total_backoff((self.checks - 1) as nat)
            },
            WaitPhase::Done(true) => {
                &&& self.checks >= 1
                &&& self.slept_secs == total_backoff((self.checks - 1) as nat)
            },
            WaitPhase::Done(false) => {
                &&& self.checks == self.max_attempts
                &&& self.slept_secs == total_backoff(self.max_attempts)
            },
        }
    }

    /// A wait that has done nothing yet; with no check allowed it is over
    /// at once.
    pub open spec fn begin(max_attempts: nat) -> Self {
        WaitState {
            max_attempts,
            phase: if max_attempts == 0 {
                WaitPhase::Done(false)
            } else {
                WaitPhase::Checking
            },
            checks: 0,
            slept_secs: 0,
        }
    }

    /// What is due in this state.
    pub open spec fn action(self) -> WaitAction {
        match self.phase {
            WaitPhase::Checking => WaitAction::Check,
            WaitPhase::Sleeping => WaitAction::Sleep(
                backoff_secs((self.checks - 1) as nat) as u64,
            ),
            WaitPhase::Done(ready) => WaitAction::Finished(ready),
        }
    }

    /// The state after a check that was due. A report that no check was due
    /// for changes nothing.
    pub open spec fn checked(self, reachable: bool) -> Self {
        if self.phase == WaitPhase::Checking {
            WaitState {
                phase: if reachable {
                    WaitPhase::Done(true)
                } else {
                    WaitPhase::Sleeping
                },
                checks: self.checks + 1,
                ..self
            }
        } else {
            self
        }
    }

    /// The state after a pause that was due. A report that no pause was due
    /// for changes nothing.
    pub open spec fn slept(self) -> Self {
        if self.phase == WaitPhase::Sleeping {
            WaitState {
                phase: if self.checks < self.max_attempts {
                    WaitPhase::Checking
                } else {
                    WaitPhase::Done(false)
                },
                slept_secs: self.slept_secs + backoff_secs((self.checks - 1) as nat),
                ..self
            }
        } else {
            self
        }
    }

    /// How many reports the wait can still take before it is over.
    pub open spec fn reports_left(self) -> nat {
        match self.phase {
            WaitPhase::Checking => (2 * (self.max_attempts - self.checks)) as nat,
            WaitPhase::Sleeping => (2 * (self.max_attempts - self.checks) + 1) as nat,
            WaitPhase::Done(_) => 0,
        }
    }
}

/// A wait in progress: the host does what is due and reports it, until the
/// wait is finished.
#[derive(Clone, Copy, Debug)]
pub struct ReadinessWait {
    max_attempts: u32,
    phase: WaitPhase,
    checks: u32,
    slept_secs: u64,
}

impl View for ReadinessWait {
    type V = WaitState;

    closed spec fn view(&self) -> WaitState {
        WaitState {
            max_attempts: self.max_attempts as nat,
            phase: self.phase,
            checks: self.checks as nat,
            slept_secs: self.slept_secs as nat,
        }
    }
}

impl ReadinessWait {
    #[verifier::type_invariant]
    closed spec fn inv(self) -> bool {
        self@.wf()
    }

    /// Starts a wait of at most `max_attempts` checks.
    pub fn begin(max_attempts: u32) -> (wait: Self)
        ensures
            wait@ == WaitState::begin(max_attempts as nat),
            wait@.wf(),
    {
        let phase = if max_attempts == 0 {
            WaitPhase::Done(false)
        } else {
            WaitPhase::Checking
        };
        ReadinessWait { max_attempts, phase, checks: 0, slept_secs: 0 }
    }

    /// What the host has to do next.
    pub fn action(&self) -> (action: WaitAction)
        ensures
            action == self@.action(),
            self@.wf(),
    {
        proof {
            use_type_invariant(self);
        }
        match self.phase {
            WaitPhase::Checking => WaitAction::Check,
            WaitPhase::Sleeping => WaitAction::Sleep(backoff_delay(self.checks - 1)),
            WaitPhase::Done(ready) => WaitAction::Finished(ready),
        }
    }

    /// The checks made so far.
    pub fn checks(&self) -> (count: u32)
        ensures
            count == self@.checks,
    {
        self.checks
    }

    /// The seconds slept so far.
    pub fn slept_secs(&self) -> (secs: u64)
        ensures
            secs == self@.slept_secs,
    {
        self.slept_secs
    }

    /// Reports the result of the check that was due.
    pub fn checked(&mut self, reachable: bool)
        ensures
            final(self)@ == old(self)@.checked(reachable),
            final(self)@.wf(),
    {
        proof {
            use_type_invariant(&*self);
        }
        match self.phase {
            WaitPhase::Checking => {
                let phase = if reachable {
                    WaitPhase::Done(true)
                } else {
                    WaitPhase::Sleeping
                };
                *self = ReadinessWait {
                    max_attempts: self.max_attempts,
                    phase,
                    checks: self.checks + 1,
                    slept_secs: self.slept_secs,
                };
            },
            _ => {},
        }
    }

    /// Reports that the pause that was due is over.
    pub fn slept(&mut self)
        ensures
            final(self)@ == old(self)@.slept(),
            final(self)@.wf(),
    {
        proof {
            use_type_invariant(&*self);
        }
        match self.phase {
            WaitPhase::Sleeping => {
                let phase = if self.checks < self.max_attempts {
                    WaitPhase::Checking
                } else {
                    WaitPhase::Done(false)
                };
                proof {
                    lemma_total_backoff_grows(0, self.checks as nat);
                    lemma_backoff_values((self.checks - 1) as nat);
                }
                *self = ReadinessWait {
                    max_attempts: self.max_attempts,
                    phase,
                    checks: self.checks,
                    slept_secs: self.slept_secs + backoff_delay(self.checks - 1),
                };
            },
            _ => {},
        }
    }
}

/// How a wait ended.
#[derive(Clone, Copy, Debug, PartialEq, Eq, Structural)]
pub struct WaitReport {
    /// A check found the endpoint reachable.
    pub ready: bool,
    /// The checks that were made.
    pub checks: u32,
    /// The seconds that were slept.
    pub slept_secs: u64,
}

/// The check number `check` (counted from 0) finds the endpoint reachable.
/// Where `results` says nothing of a check, it finds nothing.
pub open spec fn reachable_at(results: Seq<bool>, check: int) -> bool {
    0 <= check < results.len() && results[check]
}

/// What a wait of at most `max_attempts` checks owes, given what each check
/// finds: `ready` with the first check that finds the endpoint reachable,
/// after a pause for each failed check before it; not `ready` only after
/// `max_attempts` failed checks and a pause for each.
pub open spec fn wait_outcome(max_attempts: nat, results: Seq<bool>, report: WaitReport) -> bool {
    if report.ready {
        &&& 1 <= report.checks <= max_attempts
        &&& reachable_at(results, report.checks - 1)
        &&& forall|earlier: int| 0 <= earlier < report.checks - 1 ==> !reachable_at(results, earlier)
        &&& report.slept_secs == total_backoff((report.checks - 1) as nat)
    } else {
        &&& report.checks == max_attempts
        &&& forall|check: int| 0 <= check < max_attempts ==> !reachable_at(results, check)
        &&& report.slept_secs == total_backoff(max_attempts)
    }
}

/// Runs a wait of at most `max_retries` checks to its end, where the check
/// number `k` finds what `results[k]` says.
pub fn wait_for_server(max_retries: u32, results: &Vec<bool>) -> (report: WaitReport)
    ensures
        wait_outcome(max_retries as nat, results@, report),
        report.checks <= max_retries,
        report.slept_secs <= total_backoff(max_retries as nat),
{
    let mut wait = ReadinessWait::begin(max_retries);
    loop
        invariant
            wait@.wf(),
            wait@.max_attempts == max_retries,
            match wait@.phase {
                WaitPhase::Done(true) => reachable_at(results@, wait@.checks - 1) && forall|
                    earlier: int,
                | 0 <= earlier < wait@.checks - 1 ==> !reachable_at(results@, earlier),
                _ => forall|earlier: int|
                    0 <= earlier < wait@.checks ==> !reachable_at(results@, earlier),
            },
        decreases wait@.reports_left(),
    {
        match wait.action() {
            WaitAction::Check => {
                let check: usize = wait.checks() as usize;
                let reachable = check < results.len() && results[check];
                wait.checked(reachable);
            },
            WaitAction::Sleep(_) => {
                wait.slept();
            },
            WaitAction::Finished(ready) => {
                proof {
                    lemma_wait_is_bounded(wait@);
                }
                return WaitReport {
                    ready,
                    checks: wait.checks(),
                    slept_secs: wait.slept_secs(),
                };
            },
        }
    }
}

/// However a wait goes, it makes at most `max_attempts` checks and sleeps no
/// longer than the pauses of `max_attempts` failed checks add up to.
pub proof fn lemma_wait_is_bounded(state: WaitState)
    requires
        state.wf(),
    ensures
        state.checks <= state.max_attempts,
        state.slept_secs <= total_backoff(state.max_attempts),
        state.slept_secs <= BACKOFF_CAP_SECS * state.max_attempts,
{
    if state.checks >= 1 {
        lemma_total_backoff_grows((state.checks - 1) as nat, state.checks);
    }
    lemma_total_backoff_grows(state.checks, state.max_attempts);
    lemma_total_backoff_grows(0, state.max_attempts);
}

/// Every report keeps a wait well formed and, where it was due, brings the
/// wait nearer its end.
pub proof fn lemma_wait_advances(state: WaitState, reachable: bool)
    requires
        state.wf(),
    ensures
        state.checked(reachable).wf(),
        state.slept().wf(),
        state.phase == WaitPhase::Checking ==> state.checked(reachable).reports_left()
            < state.reports_left(),
        state.phase == WaitPhase::Sleeping ==> state.slept().reports_left() < state.reports_left(),
        state.phase == WaitPhase::Checking && reachable ==> state.checked(reachable).phase
            == WaitPhase::Done(true),
        state.slept().phase == WaitPhase::Done(false) ==> state.slept().checks
            == state.max_attempts,
{
}

} // verus!
