//! The retry policy evaluator.
//!
//! Given the pending request's headers, the outcome of the attempt just made,
//! the number of attempts already made and the retry budget, the evaluator
//! decides whether another attempt should be made and computes the backoff
//! delay before it. The content-type short-circuit runs first: a body that
//! cannot be replayed (multipart form, raw octet stream) is never retried,
//! whatever the outcome and however much budget is left.

use vstd::prelude::*;
use vstd::arithmetic::mul::{
    lemma_mul_inequality, lemma_mul_is_associative, lemma_mul_is_commutative,
    lemma_mul_strict_inequality, lemma_mul_strictly_positive,
};
use vstd::arithmetic::power::{
    lemma_pow0, lemma_pow1, lemma_pow_adds, lemma_pow_increases, lemma_pow_positive,
    lemma_pow_strictly_increases, pow,
};
use crate::http::{spec_content_type, spec_retry_eligible, retry_eligible, Header};
use crate::outcome::{AttemptOutcome, OutcomeView};

verus! {

/// The exponential-backoff schedule for one logical call: at most
/// `max_attempts` additional attempts, with a delay of
/// `base_ms * multiplier^attempts_so_far` plus a caller-chosen jitter of at
/// most `jitter_cap_ms` before each one.
#[derive(Debug, Clone, Copy, PartialEq, Eq, Structural)]
pub struct RetryBudget {
    pub max_attempts: u32,
    pub base_ms: u64,
    pub multiplier: u64,
    pub jitter_cap_ms: u64,
}

/// A well-formed budget: the base is positive, the schedule actually grows,
/// and even the largest delay it can ever ask for fits in a `u64`.
pub open spec fn spec_budget_wf(b: RetryBudget) -> bool {
    &&& b.base_ms >= 1
    &&& b.multiplier >= 2
    &&& b.base_ms * pow(b.multiplier as int, b.max_attempts as nat) + b.jitter_cap_ms <= u64::MAX
}

/// The backoff delay, ignoring jitter, before the attempt that would follow
/// `attempts_so_far` completed ones.
pub open spec fn spec_backoff(b: RetryBudget, attempts_so_far: u32) -> int {
    b.base_ms * pow(b.multiplier as int, attempts_so_far as nat)
}

/// What the evaluator decides about a failed (or finished) attempt.
#[derive(Debug, Clone, Copy, PartialEq, Eq, Structural)]
pub enum RetryDecision {
    /// Make another attempt after waiting `after_ms` milliseconds.
    Retry { after_ms: u64 },
    /// Stop: hand the outcome to the classifier.
    GiveUp,
}

/// One more completed attempt multiplies the power term once.
proof fn lemma_pow_step(m: int, e: nat)
    ensures
        pow(m, e + 1) == pow(m, e) * m,
{
    lemma_pow1(m);
    lemma_pow_adds(m, e, 1);
}

/// Every delay the schedule can ask for, up to `attempts_so_far` many
/// completed attempts, fits in a `u64` with room for the jitter.
pub proof fn lemma_backoff_fits(b: RetryBudget, attempts_so_far: u32)
    requires
        spec_budget_wf(b),
        attempts_so_far <= b.max_attempts,
    ensures
        0 < spec_backoff(b, attempts_so_far),
        spec_backoff(b, attempts_so_far) + b.jitter_cap_ms <= u64::MAX,
{
    let m = b.multiplier as int;
    lemma_pow_positive(m, attempts_so_far as nat);
    lemma_mul_strictly_positive(b.base_ms as int, pow(m, attempts_so_far as nat));
    lemma_pow_increases(b.multiplier as nat, attempts_so_far as nat, b.max_attempts as nat);
    lemma_mul_inequality(
        pow(m, attempts_so_far as nat),
        pow(m, b.max_attempts as nat),
        b.base_ms as int,
    );
    lemma_mul_is_commutative(b.base_ms as int, pow(m, attempts_so_far as nat));
    lemma_mul_is_commutative(b.base_ms as int, pow(m, b.max_attempts as nat));
}

/// Ignoring jitter, the backoff delay grows strictly with the number of
/// attempts already made.
pub proof fn lemma_backoff_strictly_increasing(b: RetryBudget, a1: u32, a2: u32)
    requires
        spec_budget_wf(b),
        a1 < a2,
    ensures
        spec_backoff(b, a1) < spec_backoff(b, a2),
{
    lemma_pow_strictly_increases(b.multiplier as nat, a1 as nat, a2 as nat);
    lemma_mul_strict_inequality(
        pow(b.multiplier as int, a1 as nat),
        pow(b.multiplier as int, a2 as nat),
        b.base_ms as int,
    );
}

impl RetryBudget {
    /// Builds a budget after checking that it is well formed: the base must
    /// be positive, the multiplier at least 2, and the largest delay the
    /// schedule can ask for (plus jitter headroom) must fit in a `u64`.
    /// Returns `None` exactly when one of those checks fails.
    pub fn new(max_attempts: u32, base_ms: u64, multiplier: u64, jitter_cap_ms: u64) -> (r: Option<
        RetryBudget,
    >)
        ensures
            r is Some <==> (base_ms >= 1 && multiplier >= 2 && base_ms * pow(
                multiplier as int,
                max_attempts as nat,
            ) + jitter_cap_ms <= u64::MAX),
            r matches Some(b) ==> b == (RetryBudget { max_attempts, base_ms, multiplier, jitter_cap_ms })
                && spec_budget_wf(b),
    {
        if base_ms < 1 || multiplier < 2 {
            return None;
        }
        let m = Ghost(multiplier as int);
        let mut p: u64 = 1;
        proof {
            lemma_pow0(m@);
        }
        let mut i: u32 = 0;
        while i < max_attempts
            invariant
                i <= max_attempts,
                multiplier >= 2,
                base_ms >= 1,
                m@ == multiplier as int,
                p == pow(m@, i as nat),
            decreases max_attempts - i,
        {
            proof {
                lemma_pow_step(m@, i as nat);
            }
            p = match p.checked_mul(multiplier) {
                Some(v) => v,
                None => {
                    proof {
                        // The schedule's largest delay would overflow:
                        // base * pow(mult, max) >= pow(mult, i + 1) > u64::MAX.
                        lemma_pow_positive(m@, (i + 1) as nat);
                        lemma_pow_increases(multiplier as nat, (i + 1) as nat, max_attempts as nat);
                        lemma_mul_inequality(1, base_ms as int, pow(m@, max_attempts as nat));
                        lemma_mul_is_commutative(base_ms as int, pow(m@, max_attempts as nat));
                    }
                    return None;
                },
            };
            i += 1;
        }
        proof {
            lemma_pow_positive(m@, max_attempts as nat);
            lemma_mul_is_commutative(base_ms as int, pow(m@, max_attempts as nat));
        }
        let with_base = match p.checked_mul(base_ms) {
            Some(v) => v,
            None => {
                return None;
            },
        };
        match with_base.checked_add(jitter_cap_ms) {
            Some(_) => Some(RetryBudget { max_attempts, base_ms, multiplier, jitter_cap_ms }),
            None => None,
        }
    }
}

/// The backoff delay, ignoring jitter, before the next attempt.
pub fn backoff_ms(b: &RetryBudget, attempts_so_far: u32) -> (d: u64)
    requires
        spec_budget_wf(*b),
        attempts_so_far <= b.max_attempts,
    ensures
        d == spec_backoff(*b, attempts_so_far),
{
    let mut d: u64 = b.base_ms;
    proof {
        lemma_pow0(b.multiplier as int);
    }
    let mut i: u32 = 0;
    while i < attempts_so_far
        invariant
            spec_budget_wf(*b),
            attempts_so_far <= b.max_attempts,
            i <= attempts_so_far,
            d == spec_backoff(*b, i),
        decreases attempts_so_far - i,
    {
        proof {
            let m = b.multiplier as int;
            lemma_pow_step(m, i as nat);
            lemma_mul_is_associative(b.base_ms as int, pow(m, i as nat), m);
            lemma_backoff_fits(*b, (i + 1) as u32);
        }
        d = d * b.multiplier;
        i += 1;
    }
    d
}

/// What the retry policy decides: give up at once when the body cannot be
/// replayed; otherwise retry a transient failure while budget remains, with
/// an exponential backoff delay plus the given jitter; give up on success,
/// on a permanent failure, and when the budget is exhausted.
pub open spec fn spec_evaluate(
    headers: Seq<Header>,
    o: OutcomeView,
    attempts_so_far: u32,
    b: RetryBudget,
    jitter_ms: u64,
) -> RetryDecision {
    if !spec_retry_eligible(spec_content_type(headers)) {
        RetryDecision::GiveUp
    } else if o is Transient && attempts_so_far < b.max_attempts {
        RetryDecision::Retry { after_ms: (spec_backoff(b, attempts_so_far) + jitter_ms) as u64 }
    } else {
        RetryDecision::GiveUp
    }
}

/// The retry policy evaluator. `attempts_so_far` is zero-based; `jitter_ms`
/// is the caller's jitter draw for this decision, at most the budget's cap.
pub fn evaluate(
    headers: &Vec<Header>,
    outcome: &AttemptOutcome,
    attempts_so_far: u32,
    budget: &RetryBudget,
    jitter_ms: u64,
) -> (d: RetryDecision)
    requires
        spec_budget_wf(*budget),
        jitter_ms <= budget.jitter_cap_ms,
    ensures
        d == spec_evaluate(headers@, outcome@, attempts_so_far, *budget, jitter_ms),
{
    if !retry_eligible(headers) {
        return RetryDecision::GiveUp;
    }
    match outcome {
        AttemptOutcome::TransientFailure { .. } => {
            if attempts_so_far < budget.max_attempts {
                proof {
                    lemma_backoff_fits(*budget, attempts_so_far);
                }
                let base = backoff_ms(budget, attempts_so_far);
                RetryDecision::Retry { after_ms: base + jitter_ms }
            } else {
                RetryDecision::GiveUp
            }
        },
        _ => RetryDecision::GiveUp,
    }
}

/// A request whose content type declares a multipart form is never retried:
/// the evaluator gives up on the first consultation, whatever the outcome,
/// the attempt count and the remaining budget.
pub proof fn lemma_multipart_never_retried(
    headers: Seq<Header>,
    o: OutcomeView,
    attempts_so_far: u32,
    b: RetryBudget,
    jitter_ms: u64,
)
    requires
        spec_content_type(headers) matches Some(v) && crate::strutil::contains_seq(
            v,
            "multipart/form-data"@,
        ),
    ensures
        spec_evaluate(headers, o, attempts_so_far, b, jitter_ms) == RetryDecision::GiveUp,
{
}

/// With a replayable (for instance JSON) content type and a transient
/// failure, the evaluator retries exactly while `attempts_so_far` is below
/// the budget's maximum, and gives up from then on.
pub proof fn lemma_transient_retried_until_budget(
    headers: Seq<Header>,
    o: OutcomeView,
    attempts_so_far: u32,
    b: RetryBudget,
    jitter_ms: u64,
)
    requires
        spec_retry_eligible(spec_content_type(headers)),
        o is Transient,
    ensures
        attempts_so_far < b.max_attempts ==> spec_evaluate(headers, o, attempts_so_far, b, jitter_ms)
            == (RetryDecision::Retry {
            after_ms: (spec_backoff(b, attempts_so_far) + jitter_ms) as u64,
        }),
        attempts_so_far >= b.max_attempts ==> spec_evaluate(
            headers,
            o,
            attempts_so_far,
            b,
            jitter_ms,
        ) == RetryDecision::GiveUp,
{
}

/// A successful outcome never enters the retry loop: the evaluator gives up
/// at once, whatever the headers, the attempt count and the budget.
pub proof fn lemma_success_never_retried(
    headers: Seq<Header>,
    o: OutcomeView,
    attempts_so_far: u32,
    b: RetryBudget,
    jitter_ms: u64,
)
    requires
        o is Success,
    ensures
        spec_evaluate(headers, o, attempts_so_far, b, jitter_ms) == RetryDecision::GiveUp,
{
}

} // verus!
