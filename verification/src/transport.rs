//! Outcome classification and the bounded retry policy.
//!
//! The network exchange itself is the caller's: each attempt hands back an
//! [`AttemptOutcome`], and the functions here classify it and decide whether
//! to re-attempt. Everything is a pure function of the outcome, so the whole
//! policy is checked without a network.

use vstd::prelude::*;

use crate::error::{DeepSeekError, DeepSeekErrorV, spec_is_retryable};
use crate::json::Json;
use crate::models::response::ChatCompletionResponse;
use crate::parse::{parse_json, sp_parse_json};
use crate::text::{dec_chars, push_dec_u64};
use crate::wire::{
    ChatCompletionResponseV, api_error_from_json, response_from_json, spec_api_error_from_json,
    spec_response_from_json,
};

verus! {

use vstd::string::StringExecFns;

/// What one HTTP attempt produced, as the dispatching caller observed it.
#[derive(Debug, Clone, PartialEq)]
pub enum AttemptOutcome {
    /// An HTTP response arrived, with its status code and body text.
    HttpResponse { status: u16, body: String },
    /// The exchange failed below HTTP (connection reset, DNS, TLS), with
    /// detail text.
    TransportFailure(String),
    /// The attempt exceeded the configured timeout, in elapsed whole seconds.
    TimedOut(u64),
}

/// The mathematical value of an attempt outcome.
pub enum AttemptOutcomeV {
    /// An HTTP response arrived.
    HttpResponse { status: u16, body: Seq<char> },
    /// The exchange failed below HTTP.
    TransportFailure(Seq<char>),
    /// The attempt timed out.
    TimedOut(u64),
}

impl View for AttemptOutcome {
    type V = AttemptOutcomeV;

    open spec fn view(&self) -> AttemptOutcomeV {
        match self {
            AttemptOutcome::HttpResponse { status, body } => AttemptOutcomeV::HttpResponse {
                status: *status,
                body: body@,
            },
            AttemptOutcome::TransportFailure(d) => AttemptOutcomeV::TransportFailure(d@),
            AttemptOutcome::TimedOut(s) => AttemptOutcomeV::TimedOut(*s),
        }
    }
}

/// The response a success body denotes: the body parsed as JSON and read as
/// the completion shape.
pub open spec fn spec_body_success(body: Seq<char>) -> Option<ChatCompletionResponseV> {
    match sp_parse_json(body) {
        Some(j) => spec_response_from_json(j),
        None => None,
    }
}

/// The message an error body carries: the message of the API-error shape
/// when the body parses as one, else the raw body text.
pub open spec fn spec_body_error_message(body: Seq<char>) -> Seq<char> {
    match sp_parse_json(body) {
        Some(j) => match spec_api_error_from_json(j) {
            Some(d) => d.message,
            None => body,
        },
        None => body,
    }
}

/// How one attempt's outcome is classified:
/// - a 2xx response with a body in the success shape is the terminal success;
/// - a 2xx response with any other body is the terminal empty-response error;
/// - a 429 response is the retryable rate-limit error;
/// - a 5xx response is a retryable transport-class error;
/// - any other response is the terminal API-reported error, with the body's
///   error message when it parses as the error shape and the raw body text
///   otherwise;
/// - a transport failure is the retryable transport error;
/// - a timeout is the retryable timeout error.
pub open spec fn spec_classify(o: AttemptOutcomeV) -> Result<
    ChatCompletionResponseV,
    DeepSeekErrorV,
> {
    match o {
        AttemptOutcomeV::HttpResponse { status, body } => {
            if 200 <= status < 300 {
                match spec_body_success(body) {
                    Some(resp) => Ok(resp),
                    None => Err(DeepSeekErrorV::EmptyResponse),
                }
            } else if status == 429 {
                Err(DeepSeekErrorV::RateLimitExceeded)
            } else if 500 <= status <= 599 {
                Err(
                    DeepSeekErrorV::HttpError(
                        "server error, status "@ + dec_chars(status as int),
                    ),
                )
            } else {
                Err(
                    DeepSeekErrorV::ApiError {
                        status,
                        message: spec_body_error_message(body),
                    },
                )
            }
        },
        AttemptOutcomeV::TransportFailure(d) => Err(DeepSeekErrorV::HttpError(d)),
        AttemptOutcomeV::TimedOut(s) => Err(DeepSeekErrorV::TimeoutError(s)),
    }
}

/// Classifies one attempt's outcome, exactly as [`spec_classify`] says.
pub fn classify_outcome(outcome: &AttemptOutcome) -> (r: Result<
    ChatCompletionResponse,
    DeepSeekError,
>)
    ensures
        match r {
            Ok(resp) => spec_classify(outcome@) == Ok::<ChatCompletionResponseV, DeepSeekErrorV>(
                resp@,
            ),
            Err(e) => spec_classify(outcome@) == Err::<ChatCompletionResponseV, DeepSeekErrorV>(
                e@,
            ),
        },
{
    match outcome {
        AttemptOutcome::HttpResponse { status, body } => {
            if 200 <= *status && *status < 300 {
                match parse_json(body.as_str()) {
                    Some(j) => match response_from_json(&j) {
                        Ok(resp) => Ok(resp),
                        Err(_) => Err(DeepSeekError::EmptyResponse),
                    },
                    None => Err(DeepSeekError::EmptyResponse),
                }
            } else if *status == 429 {
                Err(DeepSeekError::RateLimitExceeded)
            } else if 500 <= *status && *status <= 599 {
                let mut m = String::from_str("server error, status ");
                push_dec_u64(&mut m, *status as u64);
                Err(DeepSeekError::HttpError(m))
            } else {
                let message: String = match parse_json(body.as_str()) {
                    Some(j) => match api_error_from_json(&j) {
                        Some(detail) => detail.error.message,
                        None => body.clone(),
                    },
                    None => body.clone(),
                };
                Err(DeepSeekError::ApiError { status: *status, message })
            }
        },
        AttemptOutcome::TransportFailure(d) => Err(DeepSeekError::HttpError(d.clone())),
        AttemptOutcome::TimedOut(s) => Err(DeepSeekError::TimeoutError(*s)),
    }
}

/// The backoff delay before re-attempt number `attempt + 1`: half a second
/// doubled per attempt already made, capped at one minute.
pub open spec fn spec_backoff_ms(attempt: int) -> int
    decreases attempt,
{
    if attempt <= 0 {
        500
    } else {
        let p = spec_backoff_ms(attempt - 1);
        if 2 * p >= 60000 {
            60000
        } else {
            2 * p
        }
    }
}

/// The exponential backoff delay in milliseconds before the next attempt.
pub fn backoff_ms(attempt: u32) -> (r: u64)
    ensures
        r == spec_backoff_ms(attempt as int),
{
    let mut cur: u64 = 500;
    let mut i: u32 = 0;
    while i < attempt
        invariant
            i <= attempt,
            cur == spec_backoff_ms(i as int),
            cur <= 60000,
        decreases attempt - i,
    {
        if cur >= 30000 {
            cur = 60000;
        } else {
            cur = cur * 2;
        }
        i = i + 1;
    }
    cur
}

/// What the retry engine does after one attempt.
#[derive(Debug, Clone, PartialEq)]
pub enum RetryStep {
    /// The attempt succeeded; the typed response is final.
    Success(ChatCompletionResponse),
    /// The attempt failed with a retryable error and budget remains: wait
    /// for the delay, then re-attempt.
    RetryAfter {
        /// How long to back off before the next attempt, in milliseconds.
        delay_ms: u64,
        /// The classified error of this attempt.
        error: DeepSeekError,
    },
    /// The attempt failed terminally: a non-retryable error, or an exhausted
    /// retry budget.
    Fail(DeepSeekError),
}

/// The bounded retry policy: how many re-attempts may follow the first
/// attempt.
#[derive(Debug, Clone, Copy, PartialEq, Eq, Structural)]
pub struct RetryPolicy {
    /// The number of automatic re-attempts allowed after the first attempt.
    pub max_retries: u32,
}

impl RetryPolicy {
    /// Decides what follows attempt number `attempts_made` (counted from
    /// zero) given its outcome: success is final; a retryable error within
    /// budget backs off and re-attempts; anything else is terminal.
    pub fn step(&self, attempts_made: u32, outcome: &AttemptOutcome) -> (r: RetryStep)
        ensures
            r matches RetryStep::Success(resp) ==> spec_classify(outcome@) == Ok::<
                ChatCompletionResponseV,
                DeepSeekErrorV,
            >(resp@),
            spec_classify(outcome@) is Ok ==> r is Success,
            r matches RetryStep::RetryAfter { delay_ms, error } ==> spec_classify(outcome@)
                == Err::<ChatCompletionResponseV, DeepSeekErrorV>(error@) && spec_is_retryable(
                error@,
            ) && attempts_made < self.max_retries && delay_ms == spec_backoff_ms(
                attempts_made as int,
            ),
            r matches RetryStep::Fail(e) ==> spec_classify(outcome@) == Err::<
                ChatCompletionResponseV,
                DeepSeekErrorV,
            >(e@) && !(spec_is_retryable(e@) && attempts_made < self.max_retries),
    {
        match classify_outcome(outcome) {
            Ok(resp) => RetryStep::Success(resp),
            Err(e) => {
                if e.is_retryable() && attempts_made < self.max_retries {
                    RetryStep::RetryAfter { delay_ms: backoff_ms(attempts_made), error: e }
                } else {
                    RetryStep::Fail(e)
                }
            },
        }
    }
}

/// The result and attempt count of running the retry policy against a fixed
/// sequence of outcomes, starting at attempt `i`: attempts stop at the first
/// success or terminal error, and a retryable error within budget moves on
/// to the next outcome. Absent when the outcomes run out first.
pub open spec fn spec_resolve(
    max_retries: u32,
    outcomes: Seq<AttemptOutcomeV>,
    i: int,
) -> Option<(Result<ChatCompletionResponseV, DeepSeekErrorV>, int)>
    decreases outcomes.len() - i,
{
    if i < 0 || i >= outcomes.len() {
        None
    } else {
        match spec_classify(outcomes[i]) {
            Ok(resp) => Some((Ok(resp), i + 1)),
            Err(e) => {
                if spec_is_retryable(e) && i < max_retries {
                    spec_resolve(max_retries, outcomes, i + 1)
                } else {
                    Some((Err(e), i + 1))
                }
            },
        }
    }
}


/// The retry budget is a hard bound: however the outcomes fall, a resolved
/// run makes at least one attempt, never more attempts than outcomes, and --
/// starting from the first attempt -- at most `max_retries + 1` attempts.
pub proof fn lemma_resolve_attempt_bound(
    max_retries: u32,
    outcomes: Seq<AttemptOutcomeV>,
    i: int,
)
    requires
        spec_resolve(max_retries, outcomes, i) is Some,
    ensures
        spec_resolve(max_retries, outcomes, i) matches Some((_, n)) && i < n <= outcomes.len(),
        i <= max_retries ==> (spec_resolve(max_retries, outcomes, i) matches Some((_, n)) && n
            <= max_retries + 1),
    decreases outcomes.len() - i,
{
    match spec_classify(outcomes[i]) {
        Ok(_) => {},
        Err(e) => {
            if spec_is_retryable(e) && i < max_retries {
                lemma_resolve_attempt_bound(max_retries, outcomes, i + 1);
            }
        },
    }
}

impl RetryPolicy {
    /// Runs the retry policy against a fixed sequence of attempt outcomes,
    /// starting at attempt `i`, and returns the final result together with
    /// the total number of attempts made; absent when the outcomes run out
    /// before a terminal step.
    pub fn resolve_from(&self, outcomes: &Vec<AttemptOutcome>, i: usize) -> (r: Option<
        (Result<ChatCompletionResponse, DeepSeekError>, usize),
    >)
        requires
            i <= outcomes@.len(),
        ensures
            r is Some <==> spec_resolve(
                self.max_retries,
                outcomes@.map_values(|o: AttemptOutcome| o@),
                i as int,
            ) is Some,
            r matches Some((res, attempts)) ==> spec_resolve(
                self.max_retries,
                outcomes@.map_values(|o: AttemptOutcome| o@),
                i as int,
            ) == Some(
                (
                    match res {
                        Ok(resp) => Ok::<ChatCompletionResponseV, DeepSeekErrorV>(resp@),
                        Err(e) => Err::<ChatCompletionResponseV, DeepSeekErrorV>(e@),
                    },
                    attempts as int,
                ),
            ),
        decreases outcomes@.len() - i,
    {
        let ghost omap = outcomes@.map_values(|o: AttemptOutcome| o@);
        if i == outcomes.len() {
            return None;
        }
        proof {
            assert(omap[i as int] == outcomes@[i as int]@);
        }
        if i >= u32::MAX as usize {
            // Attempt numbers are counted in u32; beyond that every policy
            // budget is exhausted, so classify terminally.
            match classify_outcome(&outcomes[i]) {
                Ok(resp) => {
                    return Some((Ok(resp), i + 1));
                },
                Err(e) => {
                    proof {
                        assert(!(i < self.max_retries));
                    }
                    return Some((Err(e), i + 1));
                },
            }
        }
        match self.step(i as u32, &outcomes[i]) {
            RetryStep::Success(resp) => Some((Ok(resp), i + 1)),
            RetryStep::Fail(e) => Some((Err(e), i + 1)),
            RetryStep::RetryAfter { delay_ms: _, error: _ } => self.resolve_from(outcomes, i + 1),
        }
    }

    /// Runs the retry policy against a fixed sequence of attempt outcomes
    /// from the first attempt on.
    pub fn resolve_with_outcomes(&self, outcomes: &Vec<AttemptOutcome>) -> (r: Option<
        (Result<ChatCompletionResponse, DeepSeekError>, usize),
    >)
        ensures
            r is Some <==> spec_resolve(
                self.max_retries,
                outcomes@.map_values(|o: AttemptOutcome| o@),
                0,
            ) is Some,
            r matches Some((res, attempts)) ==> spec_resolve(
                self.max_retries,
                outcomes@.map_values(|o: AttemptOutcome| o@),
                0,
            ) == Some(
                (
                    match res {
                        Ok(resp) => Ok::<ChatCompletionResponseV, DeepSeekErrorV>(resp@),
                        Err(e) => Err::<ChatCompletionResponseV, DeepSeekErrorV>(e@),
                    },
                    attempts as int,
                ),
            ),
    {
        self.resolve_from(outcomes, 0)
    }
}

} // verus!
