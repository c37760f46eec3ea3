//! Retry policy of the request layer. A transport-level failure (connection
//! error, timeout) schedules a retry after a delay that starts at one time
//! unit and doubles after every failed attempt, with no attempt cap and no
//! ceiling; a completed exchange is accepted at once, whatever its HTTP
//! status — HTTP-level failure is the caller's concern and is never
//! retried here.

use vstd::prelude::*;

verus! {

/// Backoff state between transport attempts of one request: the delay to
/// wait before the next attempt, should the current one fail.
pub struct Backoff {
    pub delay_seconds: u64,
}

/// What one transport attempt came to: a completed HTTP exchange (with
/// whatever status the server chose), or no exchange at all.
pub enum SendOutcome {
    Delivered { status: u16, body: String },
    TransportFailed,
}

/// What the requester does with the outcome: hand the exchange to the
/// caller untouched, or wait the given delay and send again.
pub enum RetryDecision {
    Accept { status: u16, body: String },
    RetryAfter { delay_seconds: u64 },
}

impl Backoff {
    /// The delay before the first retry is one time unit.
    pub fn new() -> (r: Backoff)
        ensures
            r.delay_seconds == 1,
    {
        Backoff { delay_seconds: 1 }
    }

    /// Decides after one transport attempt. A delivered response is
    /// accepted as it is and the state is untouched; a transport failure
    /// schedules a retry after the current delay and doubles the delay for
    /// the next failure. A failure never gives up, so some later attempt is
    /// always issued.
    pub fn on_send_outcome(&mut self, outcome: SendOutcome) -> (d: RetryDecision)
        requires
            old(self).delay_seconds <= u64::MAX / 2,
        ensures
            outcome matches SendOutcome::Delivered { status, body } ==> d == (
            RetryDecision::Accept { status, body }) && *final(self) == *old(self),
            outcome is TransportFailed ==> d == (RetryDecision::RetryAfter {
                delay_seconds: old(self).delay_seconds,
            }) && final(self).delay_seconds == 2 * old(self).delay_seconds,
    {
        match outcome {
            SendOutcome::Delivered { status, body } => RetryDecision::Accept { status, body },
            SendOutcome::TransportFailed => {
                let d = RetryDecision::RetryAfter { delay_seconds: self.delay_seconds };
                self.delay_seconds = self.delay_seconds * 2;
                d
            },
        }
    }
}

/// The delay the requester waits before issuing the given attempt (the
/// first attempt waits for nothing; attempt k + 1 comes after the k-th
/// consecutive failure).
pub open spec fn delay_before_attempt(attempt: nat) -> nat
    decreases attempt,
{
    if attempt <= 1 {
        1
    } else {
        2 * delay_before_attempt((attempt - 1) as nat)
    }
}

/// Backoff monotonicity: under consecutive transport failures the delay
/// before attempt k + 1 is twice the delay before attempt k, the first
/// delay is one time unit, and every delay is positive (so waiting always
/// ends and the next attempt is issued).
pub proof fn lemma_backoff_monotonic(k: nat)
    requires
        k >= 1,
    ensures
        delay_before_attempt(1) == 1,
        delay_before_attempt(k + 1) == 2 * delay_before_attempt(k),
        delay_before_attempt(k) >= 1,
    decreases k,
{
    if k > 1 {
        lemma_backoff_monotonic((k - 1) as nat);
    }
}

/// A delay trace that starts at one and doubles step by step — what
/// consecutive failed calls of [`Backoff::on_send_outcome`] produce —
/// follows [`delay_before_attempt`] exactly.
pub proof fn lemma_backoff_schedule(delays: Seq<nat>, k: int)
    requires
        delays.len() > 0,
        delays[0] == 1,
        forall|i: int| 0 <= i < delays.len() - 1 ==> delays[i + 1] == 2 * #[trigger] delays[i],
        0 <= k < delays.len(),
    ensures
        delays[k] == delay_before_attempt((k + 1) as nat),
    decreases k,
{
    if k > 0 {
        lemma_backoff_schedule(delays, k - 1);
    }
}

} // verus!
