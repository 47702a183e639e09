//! What to do with the answer of storage to a batch that was handed to it:
//! accept it, try again after a pause, or give the batch up.

use vstd::prelude::*;
use vstd::string::StringExecFns;

verus! {

/// The answer of storage to one attempt to store a batch.
#[derive(Debug)]
pub enum StorageResult {
    /// The batch is stored.
    Stored,
    /// Storage cannot take the batch now and may take it later.
    Retryable(String),
    /// Storage will never take the batch.
    Fatal(String),
}

/// How often a batch is offered to storage, and how long to wait in between.
#[derive(Clone, Copy, Debug, PartialEq, Eq, Structural)]
pub struct RetryPolicy {
    /// The number of attempts after which a batch is given up. The first
    /// attempt is made whatever this number is: with 0 or 1 a batch is
    /// given up on the first retryable answer.
    pub max_attempts: u32,
    /// The pause before the second attempt, in milliseconds; the pause
    /// before each later attempt is one such pause longer.
    pub backoff_ms: u64,
}

/// What follows an attempt.
#[derive(Debug)]
pub enum RouteDecision {
    /// The batch is stored; nothing is left to do.
    Done,
    /// Offer the batch again: this will be attempt `attempt`, after a pause
    /// of `delay_ms` milliseconds.
    Retry { attempt: u32, delay_ms: u64 },
    /// The batch is given up; the text says why.
    Failed(String),
}

/// The pause after `attempt` failed attempts: `attempt` times the policy's
/// pause, or the largest `u64` where that does not fit.
pub open spec fn retry_delay(policy: RetryPolicy, attempt: u32) -> u64 {
    if policy.backoff_ms * attempt <= u64::MAX {
        (policy.backoff_ms * attempt) as u64
    } else {
        u64::MAX
    }
}

/// The text for a batch that storage refused for good.
pub open spec fn fatal_text(cause: Seq<char>) -> Seq<char> {
    "storage error: "@ + cause
}

/// The text for a batch that storage could not take in any attempt.
pub open spec fn exhausted_text(cause: Seq<char>) -> Seq<char> {
    "storage unavailable: "@ + cause
}

/// The text for a batch that is given up has more than two characters.
pub proof fn lemma_failure_texts_are_long(cause: Seq<char>)
    ensures
        fatal_text(cause).len() > 2,
        exhausted_text(cause).len() > 2,
{
    reveal_strlit("storage error: ");
    reveal_strlit("storage unavailable: ");
}

impl RouteDecision {
    /// Whether this decision gives the batch up with the text `text`.
    pub open spec fn fails_with(&self, text: Seq<char>) -> bool {
        match self {
            RouteDecision::Failed(own) => own@ == text,
            _ => false,
        }
    }
}

/// Whether `decision` is the one that the policy asks for after attempt
/// number `attempt` was answered with `result`. A stored batch is done. A
/// fatal answer gives the batch up at once. A retryable answer asks for one
/// more attempt as long as fewer than `max_attempts` were made, and gives the
/// batch up after that.
pub open spec fn decides(
    policy: RetryPolicy,
    attempt: u32,
    result: StorageResult,
    decision: RouteDecision,
) -> bool {
    match result {
        StorageResult::Stored => decision is Done,
        StorageResult::Fatal(cause) => decision.fails_with(fatal_text(cause@)),
        StorageResult::Retryable(cause) => if attempt < policy.max_attempts {
            decision == (RouteDecision::Retry {
                attempt: (attempt + 1) as u32,
                delay_ms: retry_delay(policy, attempt),
            })
        } else {
            decision.fails_with(exhausted_text(cause@))
        },
    }
}

/// Decides what follows attempt number `attempt`, counted from one, which
/// storage answered with `result`.
pub fn route(policy: RetryPolicy, attempt: u32, result: StorageResult) -> (decision: RouteDecision)
    ensures
        decides(policy, attempt, result, decision),
{
    match result {
        StorageResult::Stored => RouteDecision::Done,
        StorageResult::Fatal(cause) => {
            RouteDecision::Failed(String::from_str("storage error: ").concat(cause.as_str()))
        },
        StorageResult::Retryable(cause) => {
            if attempt < policy.max_attempts {
                let delay_ms = match policy.backoff_ms.checked_mul(attempt as u64) {
                    Some(delay) => delay,
                    None => u64::MAX,
                };
                RouteDecision::Retry { attempt: attempt + 1, delay_ms }
            } else {
                RouteDecision::Failed(
                    String::from_str("storage unavailable: ").concat(cause.as_str()),
                )
            }
        },
    }
}

/// A fatal answer is never retried, whatever the policy and the attempt.
pub proof fn lemma_fatal_is_final(
    policy: RetryPolicy,
    attempt: u32,
    cause: String,
    decision: RouteDecision,
)
    requires
        decides(policy, attempt, StorageResult::Fatal(cause), decision),
    ensures
        decision is Failed,
{
}

/// Retries are bounded: no decision asks for an attempt beyond the policy's
/// `max_attempts`.
pub proof fn lemma_attempts_are_bounded(
    policy: RetryPolicy,
    attempt: u32,
    result: StorageResult,
    decision: RouteDecision,
)
    requires
        decides(policy, attempt, result, decision),
    ensures
        decision matches RouteDecision::Retry { attempt: next, .. } ==> next == attempt + 1 && next
            <= policy.max_attempts,
{
}

} // verus!
