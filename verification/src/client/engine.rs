//! The retry policy: what follows each attempt of a call.
//!
//! The engine makes no attempt itself. Its caller sends the request, hands the
//! outcome to `step`, and does what the step says: wait and try again, or return.

use vstd::prelude::*;
use crate::client::response::{classify, is_classification};
use crate::error::Error;
use crate::transport::headers::header_fields;
use crate::transport::{TransportError, TransportErrorKind, TransportResponse};
use crate::types::{AqaraValueResponse, BodySnippetConfig, RetryConfig};
use crate::util::retry::{
    backoff_cap, compute_backoff_with_jitter, nanos_of, retry_after_at, retry_after_of,
};
use crate::util::time::{read_clock, ClockReading, Duration};

verus! {

/// Where a call stands: the number of the attempt that is under way, and how many
/// there may be.
#[derive(Clone, Copy, Debug)]
pub struct RetryState {
    /// The number of the attempt under way; the first is 1.
    pub attempt: u32,
    /// The attempts that the call may take.
    pub max_attempts: u32,
    /// Whether the call may be repeated at all.
    pub idempotent: bool,
}

/// What ended an attempt.
pub enum AttemptOutcome {
    /// A response was had, whatever its status.
    Response(TransportResponse),
    /// No response was had.
    Failed(TransportError),
}

/// What follows an attempt.
pub enum Step {
    /// Wait for `delay` (not at all where it is zero), then make the next attempt.
    Retry { delay: Duration, next: RetryState },
    /// The call is over.
    Done(Result<AqaraValueResponse, Error>),
}

/// The attempts that a call may take: one, and for an idempotent call one more for
/// each retry.
pub open spec fn max_attempts_of(retry: RetryConfig, idempotent: bool) -> u32 {
    if idempotent {
        if retry.max_retries < u32::MAX {
            (retry.max_retries + 1) as u32
        } else {
            u32::MAX
        }
    } else {
        1
    }
}

/// Whether the business code `code` stands for a failure that may pass.
pub open spec fn retryable_api_code(code: i64) -> bool {
    code == 100 || code == 104 || code == 429 || code == 500 || code == 501
}

/// Whether the status alone asks for another attempt: 429 and the server errors.
pub open spec fn retryable_status(status: u16) -> bool {
    status == 429 || (500 <= status <= 599)
}

/// Whether the classified error `e` may pass: a rate limit, or an API error with a
/// retryable code.
pub open spec fn retryable_error(e: Error) -> bool {
    match e {
        Error::RateLimited { .. } => true,
        Error::Api { error } => error.code matches Some(c) && retryable_api_code(c),
        _ => false,
    }
}

impl RetryState {
    /// Whether another attempt may follow this one.
    pub open spec fn may_retry(self) -> bool {
        self.idempotent && self.attempt < self.max_attempts
    }

    /// The state of the attempt that follows.
    pub open spec fn following(self) -> RetryState {
        RetryState {
            attempt: if self.attempt < u32::MAX {
                (self.attempt + 1) as u32
            } else {
                u32::MAX
            },
            max_attempts: self.max_attempts,
            idempotent: self.idempotent,
        }
    }

    /// The state of the first attempt of a call.
    pub fn start(retry: RetryConfig, idempotent: bool) -> (r: RetryState)
        ensures
            r.attempt == 1,
            r.max_attempts == max_attempts_of(retry, idempotent),
            r.idempotent == idempotent,
    {
        let max_attempts: u32 = if idempotent {
            if retry.max_retries < 0xffff_ffff {
                retry.max_retries + 1
            } else {
                0xffff_ffff
            }
        } else {
            1
        };
        RetryState { attempt: 1, max_attempts, idempotent }
    }

    fn advance(self) -> (r: RetryState)
        ensures
            r == self.following(),
    {
        let attempt: u32 = if self.attempt < 0xffff_ffff {
            self.attempt + 1
        } else {
            0xffff_ffff
        };
        RetryState { attempt, max_attempts: self.max_attempts, idempotent: self.idempotent }
    }
}

/// Whether the business code `code` stands for a failure that may pass.
pub fn is_retryable_api_code(code: i64) -> (r: bool)
    ensures
        r == retryable_api_code(code),
{
    code == 100 || code == 104 || code == 429 || code == 500 || code == 501
}

/// Whether a response of this status is tried again: the call is idempotent, attempts
/// remain, and the status is 429 or a server error.
pub fn should_retry_status(status: u16, idempotent: bool, attempt: u32, max_attempts: u32) -> (r:
    bool)
    ensures
        r == (idempotent && attempt < max_attempts && retryable_status(status)),
{
    if !idempotent || attempt >= max_attempts {
        return false;
    }
    status == 429 || (500 <= status && status <= 599)
}

/// Whether the classified error may pass.
pub fn should_retry_error(err: &Error) -> (r: bool)
    ensures
        r == retryable_error(*err),
{
    match err {
        Error::RateLimited { .. } => true,
        Error::Api { error } => match error.code {
            Some(c) => is_retryable_api_code(c),
            None => false,
        },
        _ => false,
    }
}

/// The delay before a retry, in nanoseconds: what the server asks for, else the
/// backoff that was drawn.
pub open spec fn chosen_delay(asked: Option<nat>, backoff: Duration) -> nat {
    match asked {
        Some(n) => n,
        None => backoff.total_nanos(),
    }
}

/// The delay before the retry of a response with a retryable status.
pub fn retry_delay_for_status(resp: &TransportResponse, reading: ClockReading, backoff: Duration) -> (r:
    Duration)
    ensures
        r.total_nanos() == chosen_delay(
            retry_after_of(header_fields(resp.headers), reading),
            backoff,
        ),
{
    match retry_after_at(&resp.headers, reading) {
        Some(d) => d,
        None => backoff,
    }
}

/// The delay, in nanoseconds, before the retry of a classified error: for a rate
/// limit what it carries from the server, else the backoff that was drawn.
pub open spec fn error_delay(e: Error, backoff: Duration) -> nat {
    match e {
        Error::RateLimited { retry_after, .. } => chosen_delay(nanos_of(retry_after), backoff),
        _ => backoff.total_nanos(),
    }
}

/// The delay before the retry of a classified error.
pub fn retry_delay_for_error(err: &Error, backoff: Duration) -> (r: Duration)
    ensures
        r.total_nanos() == error_delay(*err, backoff),
{
    match err {
        Error::RateLimited { retry_after, .. } => match retry_after {
            Some(d) => *d,
            None => backoff,
        },
        _ => backoff,
    }
}

/// Whether `step` is what follows the attempt that ended with the response of the
/// given status, headers and body.
pub open spec fn follows_response(
    state: RetryState,
    status: u16,
    fields: Map<Seq<char>, Seq<u8>>,
    body: Seq<u8>,
    config: BodySnippetConfig,
    reading: ClockReading,
    backoff: Duration,
    step: Step,
) -> bool {
    if state.may_retry() && retryable_status(status) {
        &&& step matches Step::Retry { delay, next }
        &&& delay.total_nanos() == chosen_delay(retry_after_of(fields, reading), backoff)
        &&& next == state.following()
    } else {
        match step {
            Step::Done(r) => {
                &&& is_classification(status, fields, body, config, reading, r)
                &&& r matches Err(e) ==> !(state.may_retry() && retryable_error(e))
            },
            Step::Retry { delay, next } => {
                &&& state.may_retry()
                &&& next == state.following()
                &&& exists|e: Error|
                    #![trigger retryable_error(e)]
                    is_classification(status, fields, body, config, reading, Err(e))
                        && retryable_error(e) && delay.total_nanos() == error_delay(e, backoff)
            },
        }
    }
}

/// Whether `step` is what follows the attempt that failed without a response.
pub open spec fn follows_failure(
    state: RetryState,
    kind: TransportErrorKind,
    message: Seq<char>,
    backoff: Duration,
    step: Step,
) -> bool {
    if state.may_retry() && (kind == TransportErrorKind::Timeout || kind
        == TransportErrorKind::Connect) {
        step matches Step::Retry { delay, next } && delay == backoff && next == state.following()
    } else {
        step matches Step::Done(Err(Error::Transport { message: m })) && m@ == message
    }
}

/// Whether `step` is what follows the attempt that ended with `outcome`.
pub open spec fn follows(
    state: RetryState,
    outcome: AttemptOutcome,
    config: BodySnippetConfig,
    reading: ClockReading,
    backoff: Duration,
    step: Step,
) -> bool {
    match outcome {
        AttemptOutcome::Response(resp) => follows_response(
            state,
            resp.status@,
            header_fields(resp.headers),
            resp.body@,
            config,
            reading,
            backoff,
            step,
        ),
        AttemptOutcome::Failed(e) => follows_failure(state, e.kind, e.message@, backoff, step),
    }
}

/// What follows an attempt, for a given reading of the clock and a given draw of the
/// backoff.
pub fn decide(
    state: RetryState,
    outcome: AttemptOutcome,
    config: BodySnippetConfig,
    reading: ClockReading,
    backoff: Duration,
) -> (step: Step)
    ensures
        follows(state, outcome, config, reading, backoff, step),
{
    let may_retry = state.idempotent && state.attempt < state.max_attempts;
    match outcome {
        AttemptOutcome::Response(resp) => {
            if should_retry_status(
                resp.status.as_u16(),
                state.idempotent,
                state.attempt,
                state.max_attempts,
            ) {
                let delay = retry_delay_for_status(&resp, reading, backoff);
                return Step::Retry { delay, next: state.advance() };
            }
            match classify(resp, config, reading) {
                Ok(ok) => Step::Done(Ok(ok)),
                Err(e) => {
                    if may_retry && should_retry_error(&e) {
                        let delay = retry_delay_for_error(&e, backoff);
                        return Step::Retry { delay, next: state.advance() };
                    }
                    Step::Done(Err(e))
                },
            }
        },
        AttemptOutcome::Failed(e) => {
            if may_retry && e.retryable() {
                return Step::Retry { delay: backoff, next: state.advance() };
            }
            Step::Done(Err(Error::Transport { message: e.message }))
        },
    }
}

/// What follows an attempt.
///
/// The clock is read and the backoff is drawn: the step is what `follows` describes
/// for some reading and for some backoff within the cap of this attempt, which never
/// exceeds the maximal delay. A call that is not idempotent is over after its first
/// attempt.
pub fn step(state: RetryState, outcome: AttemptOutcome, retry: RetryConfig, config: BodySnippetConfig) -> (step:
    Step)
    ensures
        exists|reading: ClockReading, backoff: Duration|
            backoff.millis() <= backoff_cap(state.attempt, retry) && backoff.total_nanos()
                <= retry.max_delay.total_nanos() && #[trigger] follows(
                state,
                outcome,
                config,
                reading,
                backoff,
                step,
            ),
        !state.idempotent ==> step is Done,
{
    let reading = read_clock();
    let backoff = compute_backoff_with_jitter(state.attempt, retry);
    decide(state, outcome, config, reading, backoff)
}

/// A call that is not idempotent is never retried, whatever its attempt ended with.
pub proof fn lemma_non_idempotent_never_retried(
    state: RetryState,
    outcome: AttemptOutcome,
    config: BodySnippetConfig,
    reading: ClockReading,
    backoff: Duration,
    step: Step,
)
    requires
        !state.idempotent,
        follows(state, outcome, config, reading, backoff, step),
    ensures
        step is Done,
{
}

/// A retry is made only while attempts remain: the attempt that follows is within the
/// attempts that the call may take.
pub proof fn lemma_retry_within_attempts(
    state: RetryState,
    outcome: AttemptOutcome,
    config: BodySnippetConfig,
    reading: ClockReading,
    backoff: Duration,
    step: Step,
)
    requires
        follows(state, outcome, config, reading, backoff, step),
        step is Retry,
    ensures
        state.idempotent,
        state.attempt < state.max_attempts,
        step->next.attempt == state.attempt + 1,
        step->next.attempt <= state.max_attempts,
{
}

/// A call that is not idempotent and gets a server error whose body is no envelope
/// ends with an HTTP error that carries the status.
pub proof fn lemma_server_error_surfaces(
    state: RetryState,
    status: u16,
    fields: Map<Seq<char>, Seq<u8>>,
    body: Seq<u8>,
    config: BodySnippetConfig,
    reading: ClockReading,
    backoff: Duration,
    step: Step,
)
    requires
        !state.idempotent,
        500 <= status <= 599,
        crate::client::response::envelope_in(crate::util::json::json_parse(body)) is None,
        follows_response(state, status, fields, body, config, reading, backoff, step),
    ensures
        step matches Step::Done(Err(Error::Http { status: s, .. })) && s@ == status,
{
}

/// An idempotent call with attempts left that is answered by 429 or a server error is
/// tried again, after the delay that the server asks for or else after the backoff.
pub proof fn lemma_retryable_status_is_retried(
    state: RetryState,
    status: u16,
    fields: Map<Seq<char>, Seq<u8>>,
    body: Seq<u8>,
    config: BodySnippetConfig,
    reading: ClockReading,
    backoff: Duration,
    step: Step,
)
    requires
        state.idempotent,
        state.attempt < state.max_attempts,
        status == 429 || 500 <= status <= 599,
        follows_response(state, status, fields, body, config, reading, backoff, step),
    ensures
        step matches Step::Retry { delay, next } && next.attempt == state.attempt + 1
            && delay.total_nanos() == chosen_delay(retry_after_of(fields, reading), backoff),
{
}

/// A failure without a response is tried again only after a timeout or a failure to
/// connect, and only by an idempotent call with attempts left; else it is surfaced as
/// a transport error with the message of the failure.
pub proof fn lemma_transport_failure(
    state: RetryState,
    kind: TransportErrorKind,
    message: Seq<char>,
    backoff: Duration,
    step: Step,
)
    requires
        follows_failure(state, kind, message, backoff, step),
    ensures
        step is Retry <==> state.may_retry() && kind != TransportErrorKind::Other,
        step matches Step::Done(r) ==> (r matches Err(Error::Transport { message: m }) && m@
            == message),
{
}

} // verus!
