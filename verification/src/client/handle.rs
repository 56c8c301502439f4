//! The client without its transport: what it sends and what it makes of the answers.

use http::HeaderMap;
use vstd::prelude::*;
use vstd::utf8::encode_utf8;
use crate::auth::{
    generate_nonce, is_nonce, lemma_hex_lower_shape, md5_digest, sign_with, signature_of,
    signing_text, unicode_lower,
};
use crate::client::builder::ClientConfig;
use crate::client::engine::{follows, max_attempts_of, AttemptOutcome, RetryState, Step};
use crate::client::request::{
    all_valid, body_text, encode_body, insert_required_headers, insert_signature_headers,
    is_put_refusal, lemma_put_is_owed, lemma_put_refusal_with_more_names,
    lemma_required_entries_valid, put_all, required_entries, signature_entries, EntryModel,
};
use crate::client::token::AccessTokenStore;
use crate::error::Error;
use crate::transport::headers::{
    header_fields, header_names, lemma_visible_ascii_is_valid, refusing_names,
    valid_header_value,
};
use crate::transport::TransportRequest;
use crate::types::{
    secret_of, BodySnippetConfig, CallOptions, Credentials, CredentialsView, RetryConfig,
    SecretString,
};
use crate::util::json::{Json, JsonModel};
use crate::util::text::lemma_decimal_digits;
use crate::util::retry::backoff_cap;
use crate::util::time::{
    clock_error_message, read_clock, timestamp_of, ClockReading, Duration,
};

verus! {

/// The part of a client that is no transport: its configuration and its access token.
pub struct ClientCore {
    /// The URL that requests go to, as text.
    pub base_url: String,
    /// The credentials that sign every request.
    pub credentials: Credentials,
    /// The access token of the moment, shared by all handles of the client.
    pub access_token: AccessTokenStore,
    /// The value of the `Lang` header.
    pub lang: String,
    /// The value of the `User-Agent` header.
    pub user_agent: String,
    /// The retry policy of idempotent calls.
    pub retry: RetryConfig,
    /// Whether and how long errors carry a snippet of the response body.
    pub body_snippet: BodySnippetConfig,
    /// Headers that go with every request, beside the required ones.
    pub extra_headers: HeaderMap,
}

/// The options of a call that is given by two flags.
pub fn call_json_options(include_access_token: bool, idempotent: bool) -> (r: CallOptions)
    ensures
        r.include_access_token == include_access_token,
        r.idempotent == idempotent,
{
    let options = if include_access_token {
        CallOptions::with_access_token()
    } else {
        CallOptions::without_access_token()
    };
    options.idempotent(idempotent)
}

/// The fields of the headers of a signed request.
pub open spec fn request_fields(
    extra: Map<Seq<char>, Seq<u8>>,
    user_agent: Seq<char>,
    lang: Seq<char>,
    credentials: CredentialsView,
    token: Option<Seq<char>>,
    include_access_token: bool,
    nonce: Seq<char>,
    time: Seq<char>,
) -> Map<Seq<char>, Seq<u8>> {
    put_all(
        put_all(extra, required_entries(user_agent, lang)),
        signature_entries(
            credentials,
            nonce,
            time,
            signature_of(credentials, token, include_access_token, nonce, time),
            token,
            include_access_token,
        ),
    )
}

impl ClientCore {
    /// The core of the client that `config` describes.
    pub fn from_config(config: ClientConfig) -> (r: ClientCore)
        ensures
            r.base_url == config.base_url,
            r.credentials == config.credentials,
            r.lang == config.lang,
            r.user_agent == config.user_agent,
            r.retry == config.retry,
            r.body_snippet == config.body_snippet,
            r.extra_headers == config.extra_headers,
            r.access_token@ == secret_of(config.access_token),
    {
        ClientCore {
            base_url: config.base_url,
            credentials: config.credentials,
            access_token: AccessTokenStore::new(config.access_token),
            lang: config.lang,
            user_agent: config.user_agent,
            retry: config.retry,
            body_snippet: config.body_snippet,
            extra_headers: config.extra_headers,
        }
    }

    /// Base URL used by this client.
    pub fn base_url(&self) -> (r: &str)
        ensures
            r@ == self.base_url@,
    {
        self.base_url.as_str()
    }

    /// Update access token used for endpoints that require it.
    pub fn set_access_token(&mut self, access_token: &str)
        ensures
            final(self).access_token@ == Some(access_token@),
            *final(self) == (ClientCore { access_token: final(self).access_token, ..*old(self) }),
    {
        self.access_token.set(access_token);
    }

    /// Clear access token.
    pub fn clear_access_token(&mut self)
        ensures
            final(self).access_token@ is None,
            *final(self) == (ClientCore { access_token: final(self).access_token, ..*old(self) }),
    {
        self.access_token.clear();
    }

    /// A copy of the access token that the client holds.
    pub fn read_access_token(&self) -> (r: Option<SecretString>)
        ensures
            secret_of(r) == self.access_token@,
    {
        self.access_token.read()
    }

    /// The state of the first attempt of a call.
    pub fn start(&self, options: CallOptions) -> (r: RetryState)
        ensures
            r.attempt == 1,
            r.max_attempts == max_attempts_of(self.retry, options.idempotent),
            r.idempotent == options.idempotent,
    {
        RetryState::start(self.retry, options.idempotent)
    }

    /// Whether `r` is the request of one attempt, for the token, the nonce and the
    /// reading of the clock that are given.
    ///
    /// A request has the body of the call and, over the extra headers of the client,
    /// the required headers and the headers that sign it. There is none where a header
    /// is refused, where the clock stands before 1970, or where the call includes the
    /// access token and the client has none; `is_request_refusal` says which error
    /// comes.
    pub open spec fn is_request(
        &self,
        intent: Seq<char>,
        data: JsonModel,
        options: CallOptions,
        token: Option<Seq<char>>,
        nonce: Seq<char>,
        reading: ClockReading,
        r: Result<TransportRequest, Error>,
    ) -> bool {
        match r {
            Ok(request) => {
                &&& all_valid(required_entries(self.user_agent@, self.lang@))
                &&& timestamp_of(reading) matches Some(time)
                &&& !(options.include_access_token && token is None)
                &&& header_fields(request.headers) == request_fields(
                    header_fields(self.extra_headers),
                    self.user_agent@,
                    self.lang@,
                    self.credentials@,
                    token,
                    options.include_access_token,
                    nonce,
                    time,
                )
                &&& request.body@ == encode_utf8(body_text(intent, data))
                &&& request.url@ == self.base_url@
            },
            Err(e) => self.is_request_refusal(options, token, nonce, reading, e),
        }
    }

    /// The headers that sign a request of this client, for the token, the nonce and the
    /// time that are given.
    pub open spec fn signing_entries(
        &self,
        options: CallOptions,
        token: Option<Seq<char>>,
        nonce: Seq<char>,
        time: Seq<char>,
    ) -> Seq<EntryModel> {
        signature_entries(
            self.credentials@,
            nonce,
            time,
            signature_of(self.credentials@, token, options.include_access_token, nonce, time),
            token,
            options.include_access_token,
        )
    }

    /// Whether `e` is the error with which no request is built. In this order: the
    /// refusal of a required header; the transport-class error for a clock that stands
    /// before 1970; the `InvalidConfig` error for a call that includes the access token
    /// where there is none; the refusal of a header that signs the request.
    pub open spec fn is_request_refusal(
        &self,
        options: CallOptions,
        token: Option<Seq<char>>,
        nonce: Seq<char>,
        reading: ClockReading,
        e: Error,
    ) -> bool {
        let names = header_names(self.extra_headers);
        let required = required_entries(self.user_agent@, self.lang@);
        ||| is_put_refusal(names, required, e)
        ||| {
            &&& all_valid(required)
            &&& match timestamp_of(reading) {
                None => e matches Error::Transport { message } && message@
                    == clock_error_message(),
                Some(time) => if options.include_access_token && token is None {
                    e matches Error::InvalidConfig { message } && message@
                        == "access token is required for this operation"@
                } else {
                    is_put_refusal(names + 3, self.signing_entries(options, token, nonce, time), e)
                },
            }
        }
    }

    /// Whether a request is owed: the required headers and the headers that sign the
    /// request may stand in a header, the clock stands at or after the start of 1970,
    /// the access token is there where the call includes it, and the extra headers are
    /// so few that the map cannot refuse the nine that may be added.
    pub open spec fn request_is_owed(
        &self,
        options: CallOptions,
        token: Option<Seq<char>>,
        nonce: Seq<char>,
        reading: ClockReading,
    ) -> bool {
        &&& all_valid(required_entries(self.user_agent@, self.lang@))
        &&& timestamp_of(reading) matches Some(time)
        &&& !(options.include_access_token && token is None)
        &&& all_valid(self.signing_entries(options, token, nonce, time))
        &&& header_names(self.extra_headers) + 9 <= refusing_names()
    }

    /// Builds the request of one attempt from the token, the nonce and the reading of
    /// the clock that are given.
    pub fn prepare_with(
        &self,
        intent: &str,
        data: &Json,
        options: CallOptions,
        token: Option<SecretString>,
        nonce: String,
        reading: ClockReading,
    ) -> (r: Result<TransportRequest, Error>)
        ensures
            self.is_request(intent@, data@, options, secret_of(token), nonce@, reading, r),
            self.request_is_owed(options, secret_of(token), nonce@, reading) ==> r is Ok,
            options.include_access_token && token is None ==> r is Err,
            timestamp_of(reading) is None ==> r is Err,
            !all_valid(required_entries(self.user_agent@, self.lang@)) ==> r is Err,
    {
        let ghost names = header_names(self.extra_headers);
        let ghost required = required_entries(self.user_agent@, self.lang@);
        let body = encode_body(intent, data);
        let mut headers = self.extra_headers.clone();
        match insert_required_headers(&mut headers, self.user_agent.as_str(), self.lang.as_str()) {
            Ok(()) => {},
            Err(e) => {
                proof {
                    assert(is_put_refusal(names, required, e));
                    if self.request_is_owed(options, secret_of(token), nonce@, reading) {
                        lemma_put_is_owed(names, required, e);
                    }
                }
                return Err(e);
            },
        }
        let signature = match sign_with(
            &self.credentials,
            token.as_ref(),
            options.include_access_token,
            nonce,
            reading,
        ) {
            Ok(s) => s,
            Err(e) => {
                return Err(e);
            },
        };
        let ghost signing = self.signing_entries(
            options,
            secret_of(token),
            nonce@,
            signature.time_millis@,
        );
        let ghost held = header_names(headers);
        match insert_signature_headers(
            &mut headers,
            &self.credentials,
            &signature,
            token.as_ref(),
            options.include_access_token,
        ) {
            Ok(()) => {},
            Err(e) => {
                proof {
                    assert(is_put_refusal(held, signing, e));
                    lemma_put_refusal_with_more_names(held, (names + 3) as nat, signing, e);
                    if self.request_is_owed(options, secret_of(token), nonce@, reading) {
                        lemma_put_is_owed((names + 3) as nat, signing, e);
                    }
                }
                return Err(e);
            },
        }
        Ok(TransportRequest { url: self.base_url.clone(), headers, body })
    }

    /// Builds the request of one attempt: freshly signed, with the token of the client,
    /// a new nonce and the current time.
    ///
    /// Chance picks the nonce and the clock gives the time: the result is the request
    /// for some nonce of the right shape and some reading of the clock. A call that
    /// includes the access token, on a client that holds none, gets no request.
    pub fn prepare(&self, intent: &str, data: &Json, options: CallOptions) -> (r: Result<
        TransportRequest,
        Error,
    >)
        ensures
            exists|nonce: Seq<char>, reading: ClockReading|
                is_nonce(nonce) && #[trigger] self.is_request(
                    intent@,
                    data@,
                    options,
                    self.access_token@,
                    nonce,
                    reading,
                    r,
                ),
            options.include_access_token && self.access_token@ is None ==> r is Err,
    {
        let token = self.access_token.read();
        let nonce = generate_nonce();
        let reading = read_clock();
        self.prepare_with(intent, data, options, token, nonce, reading)
    }

    /// What follows an attempt of a call of this client.
    ///
    /// The clock is read and the backoff is drawn: the step is what `follows` describes
    /// for some reading and for some backoff within the cap of this attempt.
    pub fn step(&self, state: RetryState, outcome: AttemptOutcome) -> (step: Step)
        ensures
            exists|reading: ClockReading, backoff: Duration|
                backoff.millis() <= backoff_cap(state.attempt, self.retry) && backoff.total_nanos()
                    <= self.retry.max_delay.total_nanos() && #[trigger] follows(
                    state,
                    outcome,
                    self.body_snippet,
                    reading,
                    backoff,
                    step,
                ),
            !state.idempotent ==> step is Done,
    {
        crate::client::engine::step(state, outcome, self.retry, self.body_snippet)
    }
}

/// A call that includes the access token, on a client without one, gets no request:
/// it fails with `InvalidConfig` before anything is sent, unless the clock, which is
/// read first, stands before 1970.
pub proof fn lemma_missing_token_is_refused(
    core: ClientCore,
    intent: Seq<char>,
    data: JsonModel,
    options: CallOptions,
    nonce: Seq<char>,
    reading: ClockReading,
    r: Result<TransportRequest, Error>,
)
    requires
        options.include_access_token,
        core.is_request(intent, data, options, None, nonce, reading, r),
    ensures
        r is Err,
        timestamp_of(reading) is Some ==> (r matches Err(e) && e is InvalidConfig),
{
}

/// A request is owed where the texts that the client and the caller give may stand in
/// a header: the nonce, the time stamp and the signature always may. The clock must
/// stand at or after the start of 1970, the access token must be there where the call
/// includes it, and the extra headers must be so few that the map cannot refuse.
pub proof fn lemma_request_is_owed(
    core: ClientCore,
    options: CallOptions,
    token: Option<Seq<char>>,
    nonce: Seq<char>,
    reading: ClockReading,
)
    requires
        valid_header_value(core.user_agent@),
        valid_header_value(core.lang@),
        valid_header_value(core.credentials@.app_id),
        valid_header_value(core.credentials@.key_id),
        options.include_access_token ==> (token matches Some(t) && valid_header_value(t)),
        is_nonce(nonce),
        timestamp_of(reading) is Some,
        header_names(core.extra_headers) + 9 <= refusing_names(),
    ensures
        core.request_is_owed(options, token, nonce, reading),
{
    lemma_required_entries_valid(core.user_agent@, core.lang@);
    let time = timestamp_of(reading)->0;
    let sign = signature_of(core.credentials@, token, options.include_access_token, nonce, time);
    let entries = core.signing_entries(options, token, nonce, time);
    assert(valid_header_value(nonce)) by {
        lemma_visible_ascii_is_valid(nonce);
    }
    assert(valid_header_value(time)) by {
        let millis = reading->Since_0.millis();
        lemma_decimal_digits(millis);
        lemma_visible_ascii_is_valid(time);
    }
    assert(valid_header_value(sign)) by {
        let digest = md5_digest(
            encode_utf8(
                unicode_lower(
                    signing_text(
                        core.credentials@,
                        token,
                        options.include_access_token,
                        nonce,
                        time,
                    ),
                ),
            ),
        );
        lemma_hex_lower_shape(digest);
        lemma_visible_ascii_is_valid(sign);
    }
    assert forall|i: int| 0 <= i < entries.len() implies valid_header_value(
        #[trigger] entries[i].value,
    ) by {}
}

} // verus!
