//! The dispatch pipeline and the observability tap.
//!
//! The pipeline owns and sequences the retry policy evaluator and the tap
//! explicitly: the content-type short-circuit runs before any backoff
//! computation, and the tap records every attempt, retried ones included.
//! The network exchange itself stays with the caller: after each attempt the
//! caller feeds the outcome to `dispatch_step`, which either asks for another
//! attempt after a delay or finishes with the classified result.
//! `dispatch_with_outcomes` replays a whole call from a list of outcomes,
//! which is the same loop with the transport abstracted away.

use vstd::prelude::*;
use crate::http::{spec_content_type, spec_retry_eligible, retry_eligible, Header, HttpMethod, PendingRequest};
use crate::outcome::{
    classify, result_view, spec_classify, spec_kind_of_status, AttemptOutcome, ApiError, ErrorView,
    FailureKind, OutcomeView, SuccessBody, SuccessView,
};
use crate::retry::{evaluate, spec_budget_wf, spec_evaluate, RetryBudget, RetryDecision};

verus! {

/// Default per-attempt timeout, in milliseconds.
pub const DEFAULT_TIMEOUT_MS: u64 = 30000;

/// Base backoff delay of the default schedule, in milliseconds.
pub const DEFAULT_BASE_MS: u64 = 500;

/// Backoff multiplier of the default schedule.
pub const DEFAULT_MULTIPLIER: u64 = 2;

/// Largest jitter the default schedule adds to a delay, in milliseconds.
pub const DEFAULT_JITTER_CAP_MS: u64 = 1000;

/// Largest retry count the default schedule can honor: with a base of
/// 500 ms and a multiplier of 2, the delay before attempt 56 would already
/// overflow a `u64` of milliseconds, so this is the machine limit, not a
/// policy choice.
pub const MAX_RETRY_CAP: u32 = 55;

/// The SDK's configuration: where to send requests, the bearer token to
/// attach (empty means none), the retry budget, and the per-attempt timeout.
#[derive(Debug)]
pub struct LlmSdk {
    pub base_url: String,
    pub token: String,
    pub budget: RetryBudget,
    pub timeout_ms: u64,
}

impl LlmSdk {
    /// Builds an SDK configuration with the default backoff schedule.
    /// `max_retries` bounds the additional attempts for one logical call,
    /// exactly as given; zero disables retrying entirely. Only counts above
    /// `MAX_RETRY_CAP` are lowered to it, because the delay the schedule
    /// would compute for a later attempt no longer fits in a `u64` of
    /// milliseconds.
    pub fn new(base_url: String, token: String, max_retries: u32) -> (r: LlmSdk)
        ensures
            r.base_url@ == base_url@,
            r.token@ == token@,
            r.timeout_ms == DEFAULT_TIMEOUT_MS,
            spec_budget_wf(r.budget),
            r.budget.max_attempts == if max_retries > MAX_RETRY_CAP {
                MAX_RETRY_CAP
            } else {
                max_retries
            },
            r.budget.base_ms == DEFAULT_BASE_MS,
            r.budget.multiplier == DEFAULT_MULTIPLIER,
            r.budget.jitter_cap_ms == DEFAULT_JITTER_CAP_MS,
    {
        let capped = if max_retries > MAX_RETRY_CAP {
            MAX_RETRY_CAP
        } else {
            max_retries
        };
        proof {
            lemma_default_budget_fits(capped);
        }
        let budget = match RetryBudget::new(
            capped,
            DEFAULT_BASE_MS,
            DEFAULT_MULTIPLIER,
            DEFAULT_JITTER_CAP_MS,
        ) {
            Some(b) => b,
            None => unreached(),
        };
        LlmSdk { base_url, token, budget, timeout_ms: DEFAULT_TIMEOUT_MS }
    }

    /// Overrides the per-attempt timeout.
    pub fn with_timeout_ms(self, timeout_ms: u64) -> (r: LlmSdk)
        ensures
            r.base_url == self.base_url,
            r.token == self.token,
            r.budget == self.budget,
            r.timeout_ms == timeout_ms,
    {
        LlmSdk { timeout_ms, ..self }
    }

    /// Overrides the retry budget with another well-formed one.
    pub fn with_budget(self, budget: RetryBudget) -> (r: LlmSdk)
        requires
            spec_budget_wf(budget),
        ensures
            r.base_url == self.base_url,
            r.token == self.token,
            r.budget == budget,
            r.timeout_ms == self.timeout_ms,
    {
        LlmSdk { budget, ..self }
    }

    /// Prepares a materialized request for dispatch: attaches the bearer
    /// token when one is configured, and the per-attempt timeout. Never
    /// disturbs the content-type header, so the retry eligibility of the
    /// request is unchanged.
    pub fn prepare(&self, req: &mut PendingRequest)
        ensures
            final(req).method == old(req).method,
            final(req).url == old(req).url,
            final(req).body == old(req).body,
            final(req).timeout_ms == Some(self.timeout_ms),
            self.token@.len() == 0 ==> final(req).headers@ == old(req).headers@,
            self.token@.len() > 0 ==> {
                &&& final(req).headers@.len() == old(req).headers@.len() + 1
                &&& forall|i: int|
                    0 <= i < old(req).headers@.len() ==> final(req).headers@[i]
                        == old(req).headers@[i]
                &&& final(req).headers@.last().name@ == "authorization"@
                &&& final(req).headers@.last().value@ == "Bearer "@ + self.token@
            },
            spec_content_type(final(req).headers@) == spec_content_type(old(req).headers@),
    {
        req.apply_auth(self.token.as_str());
        req.apply_timeout(self.timeout_ms);
    }
}

/// The default schedule fits in a `u64` for every capped retry count.
proof fn lemma_default_budget_fits(max_attempts: u32)
    requires
        max_attempts <= MAX_RETRY_CAP,
    ensures
        DEFAULT_BASE_MS * vstd::arithmetic::power::pow(
            DEFAULT_MULTIPLIER as int,
            max_attempts as nat,
        ) + DEFAULT_JITTER_CAP_MS <= u64::MAX,
{
    vstd::arithmetic::power2::lemma2_to64_rest();
    vstd::arithmetic::power2::lemma_pow2(max_attempts as nat);
    vstd::arithmetic::power2::lemma_pow2(55);
    vstd::arithmetic::power::lemma_pow_increases(2, max_attempts as nat, 55);
    vstd::arithmetic::mul::lemma_mul_inequality(
        vstd::arithmetic::power::pow(2, max_attempts as nat),
        vstd::arithmetic::power::pow(2, 55),
        DEFAULT_BASE_MS as int,
    );
    vstd::arithmetic::mul::lemma_mul_is_commutative(
        DEFAULT_BASE_MS as int,
        vstd::arithmetic::power::pow(2, max_attempts as nat),
    );
}

/// A one-line summary of an attempt's outcome, as the tap records it.
#[derive(Debug, Clone, Copy, PartialEq, Eq, Structural)]
pub enum OutcomeSummary {
    Succeeded { status: u16 },
    FailedTransient { status: Option<u16> },
    FailedPermanent { status: u16 },
}

/// The summary of an outcome.
pub open spec fn spec_summary(o: OutcomeView) -> OutcomeSummary {
    match o {
        OutcomeView::Success { status, .. } => OutcomeSummary::Succeeded { status },
        OutcomeView::Transient { status, .. } => OutcomeSummary::FailedTransient { status },
        OutcomeView::Permanent { status, .. } => OutcomeSummary::FailedPermanent { status },
    }
}

/// The summary of an outcome.
pub fn summary_of(o: &AttemptOutcome) -> (s: OutcomeSummary)
    ensures
        s == spec_summary(o@),
{
    match o {
        AttemptOutcome::Success { status, .. } => OutcomeSummary::Succeeded { status: *status },
        AttemptOutcome::TransientFailure { status, .. } => OutcomeSummary::FailedTransient {
            status: *status,
        },
        AttemptOutcome::PermanentFailure { status, .. } => OutcomeSummary::FailedPermanent {
            status: *status,
        },
    }
}

/// One entry of the observability tap: which attempt, what was sent where,
/// how long it took, and how it ended.
#[derive(Debug)]
pub struct AttemptRecord {
    /// One-based attempt number within the logical call.
    pub attempt: u64,
    pub method: HttpMethod,
    pub url: String,
    pub duration_ms: u64,
    pub summary: OutcomeSummary,
}

/// Mathematical image of an `AttemptRecord`.
pub struct RecordView {
    pub attempt: u64,
    pub method: HttpMethod,
    pub url: Seq<char>,
    pub duration_ms: u64,
    pub summary: OutcomeSummary,
}

impl View for AttemptRecord {
    type V = RecordView;

    open spec fn view(&self) -> RecordView {
        RecordView {
            attempt: self.attempt,
            method: self.method,
            url: self.url@,
            duration_ms: self.duration_ms,
            summary: self.summary,
        }
    }
}

/// The observability tap: a passive log of every attempt. Recording cannot
/// fail and returns nothing, so it can never change dispatch behavior.
#[derive(Debug)]
pub struct Tap {
    pub records: Vec<AttemptRecord>,
}

/// The record views of a tap's contents.
pub open spec fn record_views(records: Seq<AttemptRecord>) -> Seq<RecordView> {
    records.map_values(|r: AttemptRecord| r@)
}

impl Tap {
    /// An empty tap.
    pub fn new() -> (t: Tap)
        ensures
            t.records@.len() == 0,
    {
        Tap { records: Vec::new() }
    }

    /// Appends one attempt record.
    pub fn record(&mut self, r: AttemptRecord)
        ensures
            final(self).records@ == old(self).records@.push(r),
    {
        self.records.push(r);
    }

    /// How many attempts have been recorded.
    pub fn len(&self) -> (n: usize)
        ensures
            n == self.records@.len(),
    {
        self.records.len()
    }
}

/// The result the caller observes once the evaluator has said `GiveUp`:
/// the classified outcome, except that a transient failure the policy
/// refused to retry because the body cannot be replayed is reported as
/// `MultipartNonRetryable` (on a permanent failure or a success the policy
/// changed nothing, so the plain classification stands).
pub open spec fn spec_finalize(eligible: bool, o: OutcomeView) -> Result<SuccessView, ErrorView> {
    match spec_classify(o) {
        Ok(s) => Ok(s),
        Err(e) => Err(
            if !eligible && o is Transient {
                ErrorView { kind: FailureKind::MultipartNonRetryable, ..e }
            } else {
                e
            },
        ),
    }
}

/// Classifies the final outcome, marking a transient failure that the
/// content-type rule kept from being retried as `MultipartNonRetryable`.
pub fn finalize(eligible: bool, outcome: AttemptOutcome) -> (r: Result<SuccessBody, ApiError>)
    ensures
        result_view(r) == spec_finalize(eligible, outcome@),
        r is Ok <==> outcome@ is Success,
{
    let transient = match &outcome {
        AttemptOutcome::TransientFailure { .. } => true,
        _ => false,
    };
    match classify(outcome) {
        Ok(s) => Ok(s),
        Err(e) => {
            if !eligible && transient {
                Err(ApiError { kind: FailureKind::MultipartNonRetryable, status: e.status, body: e.body })
            } else {
                Err(e)
            }
        },
    }
}

/// What one turn of the dispatch loop asks the caller to do next.
#[derive(Debug)]
pub enum DispatchStep {
    /// Wait this long, then resubmit the same logical request.
    RetryAfter { delay_ms: u64 },
    /// The call is over; this is the one terminal result.
    Done { result: Result<SuccessBody, ApiError> },
}

/// One turn of the dispatch loop. The caller has just made an attempt (the
/// `*old(attempts_so_far)`-th, zero-based) and hands in its outcome; the
/// evaluator decides. On `Retry` the attempt counter advances and the caller
/// is told how long to wait; on `GiveUp` the counter stays and the outcome
/// is classified into the terminal result.
pub fn dispatch_step(
    headers: &Vec<Header>,
    budget: &RetryBudget,
    attempts_so_far: &mut u32,
    outcome: AttemptOutcome,
    jitter_ms: u64,
) -> (r: DispatchStep)
    requires
        spec_budget_wf(*budget),
        jitter_ms <= budget.jitter_cap_ms,
    ensures
        ({
            let decision = spec_evaluate(headers@, outcome@, *old(attempts_so_far), *budget, jitter_ms);
            match decision {
                RetryDecision::Retry { after_ms } => {
                    &&& *final(attempts_so_far) == *old(attempts_so_far) + 1
                    &&& r matches DispatchStep::RetryAfter { delay_ms } && delay_ms == after_ms
                },
                RetryDecision::GiveUp => {
                    &&& *final(attempts_so_far) == *old(attempts_so_far)
                    &&& r matches DispatchStep::Done { result } && result_view(result)
                        == spec_finalize(
                        spec_retry_eligible(spec_content_type(headers@)),
                        outcome@,
                    )
                },
            }
        }),
{
    let decision = evaluate(headers, &outcome, *attempts_so_far, budget, jitter_ms);
    match decision {
        RetryDecision::Retry { after_ms } => {
            *attempts_so_far = *attempts_so_far + 1;
            DispatchStep::RetryAfter { delay_ms: after_ms }
        },
        RetryDecision::GiveUp => {
            let eligible = retry_eligible(headers);
            DispatchStep::Done { result: finalize(eligible, outcome) }
        },
    }
}

/// The views of a list of outcomes.
pub open spec fn outcome_views(outcomes: Seq<AttemptOutcome>) -> Seq<OutcomeView> {
    outcomes.map_values(|o: AttemptOutcome| o@)
}

/// Scanning a retry-eligible call from attempt `i` on: each transient
/// failure within budget consumes one more attempt; the scan ends one past
/// the first outcome that is not transient, or once the budget is exhausted.
pub open spec fn spec_attempts_from(outcomes: Seq<OutcomeView>, i: nat, max: nat) -> nat
    decreases max - i,
{
    if i >= max || !(outcomes[i as int] is Transient) {
        i + 1
    } else {
        spec_attempts_from(outcomes, i + 1, max)
    }
}

/// How many attempts one logical call makes when the successive exchanges
/// end in `outcomes`: one when the body cannot be replayed (the evaluator
/// gives up on the first consultation), and otherwise one per transient
/// failure within budget plus the final attempt.
pub open spec fn spec_attempt_count(eligible: bool, max: nat, outcomes: Seq<OutcomeView>) -> nat {
    if eligible {
        spec_attempts_from(outcomes, 0, max)
    } else {
        1
    }
}

/// The scan never runs past the budget: at most `max + 1` attempts, and it
/// always counts at least the first.
pub proof fn lemma_attempts_from_bounds(outcomes: Seq<OutcomeView>, i: nat, max: nat)
    requires
        i <= max,
    ensures
        i < spec_attempts_from(outcomes, i, max) <= max + 1,
    decreases max - i,
{
    if !(i >= max || !(outcomes[i as int] is Transient)) {
        lemma_attempts_from_bounds(outcomes, i + 1, max);
    }
}

/// The record the tap holds for the `k`-th (zero-based) attempt of a replay.
pub open spec fn spec_replay_record(req: PendingRequest, k: int, o: OutcomeView) -> AttemptRecord {
    AttemptRecord {
        attempt: (k + 1) as u64,
        method: req.method,
        url: req.url,
        duration_ms: 0,
        summary: spec_summary(o),
    }
}

/// Replays one whole logical call from a list of attempt outcomes: the same
/// loop the live dispatcher runs, with the transport abstracted into
/// `outcomes[k]` being what the `k`-th attempt came back with. The list must
/// be long enough that the budget runs out before the outcomes do. The tap
/// receives exactly one record per attempt made, in order; the replay has no
/// clock, so the recorded durations are zero. The caller observes exactly
/// one terminal result: the final outcome, classified.
pub fn dispatch_with_outcomes(
    req: &PendingRequest,
    budget: &RetryBudget,
    outcomes: &Vec<AttemptOutcome>,
    jitter_ms: u64,
    tap: &mut Tap,
) -> (r: Result<SuccessBody, ApiError>)
    requires
        spec_budget_wf(*budget),
        jitter_ms <= budget.jitter_cap_ms,
        spec_attempt_count(
            spec_retry_eligible(spec_content_type(req.headers@)),
            budget.max_attempts as nat,
            outcome_views(outcomes@),
        ) <= outcomes@.len(),
    ensures
        ({
            let eligible = spec_retry_eligible(spec_content_type(req.headers@));
            let n = spec_attempt_count(eligible, budget.max_attempts as nat, outcome_views(outcomes@));
            &&& 1 <= n <= budget.max_attempts + 1
            &&& final(tap).records@ == old(tap).records@ + Seq::new(
                n as nat,
                |k: int| spec_replay_record(*req, k, outcome_views(outcomes@)[k]),
            )
            &&& result_view(r) == spec_finalize(eligible, outcomes@[n - 1]@)
        }),
{
    let eligible = retry_eligible(&req.headers);
    let ghost views = outcome_views(outcomes@);
    let ghost max = budget.max_attempts as nat;
    proof {
        lemma_attempts_from_bounds(views, 0, max);
    }
    let mut i: usize = 0;
    loop
        invariant
            spec_budget_wf(*budget),
            jitter_ms <= budget.jitter_cap_ms,
            spec_attempt_count(eligible, max, views) <= outcomes@.len(),
            views == outcome_views(outcomes@),
            max == budget.max_attempts as nat,
            eligible == spec_retry_eligible(spec_content_type(req.headers@)),
            i <= budget.max_attempts,
            !eligible ==> i == 0,
            eligible ==> spec_attempts_from(views, i as nat, max) == spec_attempts_from(
                views,
                0,
                max,
            ),
            forall|j: int| 0 <= j < i ==> views[j] is Transient,
            tap.records@ == old(tap).records@ + Seq::new(
                i as nat,
                |k: int| spec_replay_record(*req, k, views[k]),
            ),
        decreases outcomes@.len() - i,
    {
        proof {
            if eligible {
                lemma_attempts_from_bounds(views, i as nat, max);
            }
        }
        let o_ref = &outcomes[i];
        let s = summary_of(o_ref);
        let rec = AttemptRecord {
            attempt: (i as u64) + 1,
            method: req.method,
            url: req.url.clone(),
            duration_ms: 0,
            summary: s,
        };
        proof {
            assert(views[i as int] == outcomes@[i as int]@);
        }
        tap.record(rec);
        proof {
            assert(tap.records@ =~= old(tap).records@ + Seq::new(
                (i + 1) as nat,
                |k: int| spec_replay_record(*req, k, views[k]),
            ));
        }
        let decision = evaluate(&req.headers, o_ref, i as u32, budget, jitter_ms);
        match decision {
            RetryDecision::Retry { .. } => {
                i += 1;
            },
            RetryDecision::GiveUp => {
                proof {
                    if eligible {
                        assert(spec_attempts_from(views, i as nat, max) == i + 1);
                    }
                }
                let last = outcomes[i].duplicate();
                return finalize(eligible, last);
            },
        }
    }
}

/// A permanent failure (for instance a 404) on a retry-eligible request
/// ends the call after the single attempt that produced it — the evaluator
/// gives up at once — and the error surfaced to the caller carries the
/// response's literal body text and status.
pub proof fn lemma_permanent_fails_first_attempt(
    headers: Seq<Header>,
    status: u16,
    body: Seq<char>,
    b: RetryBudget,
    jitter_ms: u64,
    outcomes: Seq<OutcomeView>,
)
    requires
        spec_retry_eligible(spec_content_type(headers)),
        outcomes.len() > 0,
        outcomes[0] == (OutcomeView::Permanent { status, body }),
    ensures
        spec_evaluate(headers, outcomes[0], 0, b, jitter_ms) == RetryDecision::GiveUp,
        spec_attempt_count(true, b.max_attempts as nat, outcomes) == 1,
        spec_finalize(true, outcomes[0]) matches Err(e) && e.status == Some(status) && e.body
            == body && e.kind == spec_kind_of_status(status),
{
}

/// A successful outcome always yields `GiveUp` with a success
/// classification: the call never enters the retry loop and the caller
/// receives the body unparsed.
pub proof fn lemma_success_classified(
    headers: Seq<Header>,
    o: OutcomeView,
    attempts_so_far: u32,
    b: RetryBudget,
    jitter_ms: u64,
    eligible: bool,
)
    requires
        o is Success,
    ensures
        spec_evaluate(headers, o, attempts_so_far, b, jitter_ms) == RetryDecision::GiveUp,
        spec_finalize(eligible, o) matches Ok(s) && s.status == o->Success_status && s.body
            == o->Success_body,
{
}

} // verus!
