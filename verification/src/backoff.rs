//! Reconnect delays: doubled after each failed attempt, reset by a success.

use vstd::prelude::*;
use vstd::arithmetic::power2::pow2;
use vstd::arithmetic::power2::lemma_pow2_unfold;
use vstd::arithmetic::power2::lemma_pow2_pos;
use vstd::arithmetic::power2::lemma2_to64;

verus! {

/// Delay before the first retry, in seconds.
pub const INITIAL_DELAY: u64 = 1;

/// Delay from which a failed attempt is reported to the user, in seconds.
pub const ESCALATION_THRESHOLD: u64 = 256;

/// Twice `d`, or the largest `u64` where that does not fit.
pub open spec fn doubled(d: u64) -> u64 {
    if 2 * d <= u64::MAX {
        (2 * d) as u64
    } else {
        u64::MAX
    }
}

/// The delay in force after `failures` failed attempts in a row that began
/// with the delay `initial`.
pub open spec fn delay_after(initial: u64, failures: nat) -> u64
    decreases failures,
{
    if failures == 0 {
        initial
    } else {
        doubled(delay_after(initial, (failures - 1) as nat))
    }
}

/// The retry schedule of one account.
#[derive(Clone, Copy, Debug, PartialEq, Eq, Structural)]
pub struct Backoff {
    /// Delay that a success goes back to.
    pub initial: u64,
    /// Delay from which a failure is escalated.
    pub threshold: u64,
    /// Delay that the next failure will wait.
    pub delay: u64,
}

/// What to do about one failed attempt.
#[derive(Clone, Copy, Debug, PartialEq, Eq, Structural)]
pub struct Retry {
    /// How long to sleep before the next attempt.
    pub seconds: u64,
    /// Whether the failure has lasted long enough to tell the user.
    pub escalate: bool,
}

impl Backoff {
    /// The schedule after one more failed attempt.
    pub open spec fn failed(self) -> Backoff {
        Backoff { delay: doubled(self.delay), ..self }
    }

    /// The schedule after a successful attempt.
    pub open spec fn succeeded(self) -> Backoff {
        Backoff { delay: self.initial, ..self }
    }

    /// What a failure in this state asks for.
    pub open spec fn retry(self) -> Retry {
        Retry { seconds: self.delay, escalate: self.delay >= self.threshold }
    }

    /// The schedule after `failures` failed attempts in a row.
    pub open spec fn failed_times(self, failures: nat) -> Backoff
        decreases failures,
    {
        if failures == 0 {
            self
        } else {
            self.failed_times((failures - 1) as nat).failed()
        }
    }

    /// A fresh schedule.
    pub fn new(initial: u64, threshold: u64) -> (b: Backoff)
        ensures
            b == (Backoff { initial, threshold, delay: initial }),
    {
        Backoff { initial, threshold, delay: initial }
    }

    /// The schedule with the usual first delay and escalation threshold.
    pub fn standard() -> (b: Backoff)
        ensures
            b == (Backoff {
                initial: INITIAL_DELAY,
                threshold: ESCALATION_THRESHOLD,
                delay: INITIAL_DELAY,
            }),
    {
        Backoff::new(INITIAL_DELAY, ESCALATION_THRESHOLD)
    }

    /// Records a failed attempt: says how long to wait and whether to
    /// escalate, and doubles the delay for the next failure.
    pub fn fail(&mut self) -> (r: Retry)
        ensures
            r == old(self).retry(),
            *final(self) == old(self).failed(),
    {
        let seconds: u64 = self.delay;
        let escalate = seconds >= self.threshold;
        self.delay = match seconds.checked_mul(2) {
            Some(next) => next,
            None => u64::MAX,
        };
        Retry { seconds, escalate }
    }

    /// Records a successful attempt: the next failure waits the first delay
    /// again.
    pub fn succeed(&mut self)
        ensures
            *final(self) == old(self).succeeded(),
    {
        self.delay = self.initial;
    }
}

/// Failures in a row wait `d`, `2d`, `4d`, ...: the failure that follows
/// `failures` earlier ones waits the first delay times two to the power of
/// `failures`, as long as that fits in a `u64`, and the largest `u64` from
/// then on.
pub proof fn lemma_backoff_doubles(b: Backoff, failures: nat)
    requires
        b.delay == b.initial,
    ensures
        b.failed_times(failures).initial == b.initial,
        b.failed_times(failures).threshold == b.threshold,
        b.failed_times(failures).delay == delay_after(b.initial, failures),
        b.failed_times(failures).retry().seconds == if b.initial * pow2(failures) <= u64::MAX {
            b.initial * pow2(failures)
        } else {
            u64::MAX as int
        },
    decreases failures,
{
    lemma_pow2_pos(failures);
    if failures == 0 {
        assert(pow2(0) == 1) by {
            lemma2_to64();
        }
    } else {
        let k = (failures - 1) as nat;
        lemma_backoff_doubles(b, k);
        lemma_pow2_unfold(failures);
        lemma_pow2_pos(k);
        let d = b.initial as int;
        let p = pow2(k) as int;
        assert(d * (2 * p) == 2 * (d * p)) by (nonlinear_arith);
        assert(0 <= d * p) by (nonlinear_arith)
            requires
                0 <= d,
                0 < p,
        ;
    }
}

/// A success wipes out the failures before it: however many came earlier,
/// the schedule after a success is the one a success gives at once, and the
/// first failure after it waits the first delay.
pub proof fn lemma_success_resets(b: Backoff, failures: nat)
    ensures
        b.failed_times(failures).succeeded() == b.succeeded(),
        b.failed_times(failures).succeeded().retry().seconds == b.initial,
    decreases failures,
{
    if failures > 0 {
        lemma_success_resets(b, (failures - 1) as nat);
    }
}

/// A failure is escalated exactly when the delay it is about to wait has
/// reached the threshold.
pub proof fn lemma_escalation_gate(b: Backoff)
    ensures
        b.retry().escalate <==> b.retry().seconds >= b.threshold,
        b.retry().seconds == b.delay,
{
}

} // verus!
