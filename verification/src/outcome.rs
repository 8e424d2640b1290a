//! Attempt outcomes and the outcome classifier.
//!
//! A finished HTTP exchange (or its transport-level failure) is first sorted
//! into an `AttemptOutcome`: statuses 408, 429 and the 5xx range, as well as
//! transport errors, are transient; any other 4xx is permanent; everything
//! outside 400..=599 counts as success and its body is handed back unparsed.
//! The classifier then turns the final outcome into either a success value or
//! a structured failure carrying the status and the raw body text.

use vstd::prelude::*;

verus! {

/// How one attempt ended, as the retry policy and the classifier see it.
#[derive(Debug)]
pub enum AttemptOutcome {
    /// The exchange finished with a non-failure status; the body is kept as
    /// raw bytes for the caller to decode.
    Success { status: u16, body: Vec<u8> },
    /// A failure that a later attempt may resolve: status 408, 429 or 5xx,
    /// or a transport-level error (`status` is `None` then) whose message is
    /// kept in `body`.
    TransientFailure { status: Option<u16>, body: String },
    /// A failure not expected to change on retry: any other 4xx status.
    PermanentFailure { status: u16, body: String },
}

/// Mathematical image of an `AttemptOutcome`.
#[allow(inconsistent_fields)]
pub enum OutcomeView {
    Success { status: u16, body: Seq<u8> },
    Transient { status: Option<u16>, body: Seq<char> },
    Permanent { status: u16, body: Seq<char> },
}

impl View for AttemptOutcome {
    type V = OutcomeView;

    open spec fn view(&self) -> OutcomeView {
        match self {
            AttemptOutcome::Success { status, body } => OutcomeView::Success {
                status: *status,
                body: body@,
            },
            AttemptOutcome::TransientFailure { status, body } => OutcomeView::Transient {
                status: *status,
                body: body@,
            },
            AttemptOutcome::PermanentFailure { status, body } => OutcomeView::Permanent {
                status: *status,
                body: body@,
            },
        }
    }
}

/// Statuses that are worth another attempt: request timeout, rate limiting,
/// and every server error.
pub open spec fn spec_transient_status(status: u16) -> bool {
    status == 408 || status == 429 || (500 <= status && status <= 599)
}

/// Statuses that count as a failed exchange at all.
pub open spec fn spec_failure_status(status: u16) -> bool {
    400 <= status && status <= 599
}

/// How a completed exchange with the given status is sorted.
pub open spec fn spec_outcome_of_status(status: u16, body: Seq<u8>, body_text: Seq<char>) -> OutcomeView {
    if spec_failure_status(status) {
        if spec_transient_status(status) {
            OutcomeView::Transient { status: Some(status), body: body_text }
        } else {
            OutcomeView::Permanent { status, body: body_text }
        }
    } else {
        OutcomeView::Success { status, body }
    }
}

/// Sorts a completed exchange by its status code. The caller supplies the
/// body twice: as the raw bytes (kept on success) and as text (kept for
/// failure diagnostics).
pub fn outcome_of_response(status: u16, body: Vec<u8>, body_text: String) -> (o: AttemptOutcome)
    ensures
        o@ == spec_outcome_of_status(status, body@, body_text@),
{
    if 400 <= status && status <= 599 {
        if status == 408 || status == 429 || status >= 500 {
            AttemptOutcome::TransientFailure { status: Some(status), body: body_text }
        } else {
            AttemptOutcome::PermanentFailure { status, body: body_text }
        }
    } else {
        AttemptOutcome::Success { status, body }
    }
}

/// A byte-for-byte copy of a byte vector.
fn clone_bytes(v: &Vec<u8>) -> (r: Vec<u8>)
    ensures
        r@ == v@,
{
    let mut r: Vec<u8> = Vec::new();
    let n = v.len();
    let mut i: usize = 0;
    while i < n
        invariant
            i <= n,
            n == v@.len(),
            r@ == v@.subrange(0, i as int),
        decreases n - i,
    {
        r.push(v[i]);
        proof {
            assert(r@ =~= v@.subrange(0, i + 1));
        }
        i += 1;
    }
    proof {
        assert(r@ =~= v@);
    }
    r
}

impl AttemptOutcome {
    /// An exact copy of an outcome.
    pub fn duplicate(&self) -> (r: AttemptOutcome)
        ensures
            r@ == self@,
    {
        match self {
            AttemptOutcome::Success { status, body } => AttemptOutcome::Success {
                status: *status,
                body: clone_bytes(body),
            },
            AttemptOutcome::TransientFailure { status, body } => AttemptOutcome::TransientFailure {
                status: *status,
                body: body.clone(),
            },
            AttemptOutcome::PermanentFailure { status, body } => AttemptOutcome::PermanentFailure {
                status: *status,
                body: body.clone(),
            },
        }
    }
}

/// The failure taxonomy that the dispatcher reports.
#[derive(Debug, Clone, Copy, PartialEq, Eq, Structural)]
pub enum FailureKind {
    /// A network, connection or timeout error with no HTTP status.
    Transport,
    /// A 4xx status other than 429.
    HttpClient,
    /// A 5xx status.
    HttpServer,
    /// Status 429, kept apart from the other client errors because a longer
    /// backoff may help.
    RateLimited,
    /// A transient failure that the policy refused to retry because the
    /// request body (multipart or raw octet stream) cannot be replayed.
    MultipartNonRetryable,
}

/// The body of a successful exchange, returned unparsed.
#[derive(Debug)]
pub struct SuccessBody {
    pub status: u16,
    pub body: Vec<u8>,
}

/// Mathematical image of a `SuccessBody`.
pub struct SuccessView {
    pub status: u16,
    pub body: Seq<u8>,
}

impl View for SuccessBody {
    type V = SuccessView;

    open spec fn view(&self) -> SuccessView {
        SuccessView { status: self.status, body: self.body@ }
    }
}

/// The single error value surfaced to callers: enough (status and raw body
/// text) for them to decide further action.
#[derive(Debug)]
pub struct ApiError {
    pub kind: FailureKind,
    /// `None` exactly when the failure was transport-level.
    pub status: Option<u16>,
    /// The raw response body text, or the transport error's message.
    pub body: String,
}

/// Mathematical image of an `ApiError`.
pub struct ErrorView {
    pub kind: FailureKind,
    pub status: Option<u16>,
    pub body: Seq<char>,
}

impl View for ApiError {
    type V = ErrorView;

    open spec fn view(&self) -> ErrorView {
        ErrorView { kind: self.kind, status: self.status, body: self.body@ }
    }
}

/// The failure category of a failed status code.
pub open spec fn spec_kind_of_status(status: u16) -> FailureKind
    recommends
        spec_failure_status(status),
{
    if status == 429 {
        FailureKind::RateLimited
    } else if 500 <= status {
        FailureKind::HttpServer
    } else {
        FailureKind::HttpClient
    }
}

/// The failure category of a failed status code.
pub fn kind_of_status(status: u16) -> (k: FailureKind)
    ensures
        k == spec_kind_of_status(status),
{
    if status == 429 {
        FailureKind::RateLimited
    } else if 500 <= status {
        FailureKind::HttpServer
    } else {
        FailureKind::HttpClient
    }
}

/// View of a classification result.
pub open spec fn result_view(r: Result<SuccessBody, ApiError>) -> Result<SuccessView, ErrorView> {
    match r {
        Ok(s) => Ok(s@),
        Err(e) => Err(e@),
    }
}

/// What the outcome classifier returns for a final outcome: the unparsed body
/// on success, and otherwise a structured failure carrying the status (when
/// there was one) and the raw body text.
pub open spec fn spec_classify(o: OutcomeView) -> Result<SuccessView, ErrorView> {
    match o {
        OutcomeView::Success { status, body } => Ok(SuccessView { status, body }),
        OutcomeView::Transient { status, body } => Err(
            ErrorView {
                kind: match status {
                    Some(s) => spec_kind_of_status(s),
                    None => FailureKind::Transport,
                },
                status,
                body,
            },
        ),
        OutcomeView::Permanent { status, body } => Err(
            ErrorView { kind: spec_kind_of_status(status), status: Some(status), body },
        ),
    }
}

/// The outcome classifier: turns the final attempt's outcome into the value
/// the caller observes. Returns `Ok` exactly when the outcome is a success.
pub fn classify(outcome: AttemptOutcome) -> (r: Result<SuccessBody, ApiError>)
    ensures
        result_view(r) == spec_classify(outcome@),
        r is Ok <==> outcome@ is Success,
{
    match outcome {
        AttemptOutcome::Success { status, body } => Ok(SuccessBody { status, body }),
        AttemptOutcome::TransientFailure { status, body } => {
            let kind = match status {
                Some(s) => kind_of_status(s),
                None => FailureKind::Transport,
            };
            Err(ApiError { kind, status, body })
        },
        AttemptOutcome::PermanentFailure { status, body } => Err(
            ApiError { kind: kind_of_status(status), status: Some(status), body },
        ),
    }
}

} // verus!
