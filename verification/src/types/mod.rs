//! Public types shared by every client.

pub mod auth;
pub mod devices;
pub mod events;
pub mod ifttt;
pub mod ir;
pub mod linkages;
pub mod networking;
pub mod ota;
pub mod positions;
pub mod push;
pub mod resources;
pub mod scenes;

use vstd::prelude::*;
use crate::status::StatusCode;
use crate::util::json::Json;
use crate::util::time::Duration;

verus! {

/// The formatter of std's `Debug` and `Display`.
#[verifier::external_type_specification]
#[verifier::external_body]
pub struct ExFormatter<'a>(core::fmt::Formatter<'a>);

/// What std's `Debug` and `Display` fail with.
#[verifier::external_type_specification]
#[verifier::external_body]
pub struct ExFmtError(core::fmt::Error);

/// `Formatter::write_str` writes `s` to the formatter, or fails as the formatter's
/// sink fails.
pub assume_specification<'a>[ core::fmt::Formatter::<'a>::write_str ](
    f: &mut core::fmt::Formatter<'a>,
    s: &str,
) -> (r: core::fmt::Result);

/// A string that should not be logged.
#[derive(PartialEq, Eq, PartialOrd, Ord, Hash)]
pub struct SecretString {
    value: String,
}

impl View for SecretString {
    type V = Seq<char>;

    closed spec fn view(&self) -> Seq<char> {
        self.value@
    }
}

impl SecretString {
    /// Create a new secret string.
    pub fn new(value: &str) -> (r: SecretString)
        ensures
            r@ == value@,
    {
        SecretString { value: value.to_owned() }
    }

    /// Expose the underlying secret value.
    pub fn expose(&self) -> (r: &str)
        ensures
            r@ == self@,
    {
        self.value.as_str()
    }
}

impl Clone for SecretString {
    fn clone(&self) -> (r: SecretString)
        ensures
            r@ == self@,
    {
        SecretString { value: self.value.clone() }
    }
}

impl core::fmt::Debug for SecretString {
    /// Writes the marker `[REDACTED]`, never the secret.
    fn fmt(&self, f: &mut core::fmt::Formatter<'_>) -> core::fmt::Result {
        f.write_str("[REDACTED]")
    }
}

impl core::fmt::Display for SecretString {
    /// Writes the marker `[REDACTED]`, never the secret.
    fn fmt(&self, f: &mut core::fmt::Formatter<'_>) -> core::fmt::Result {
        f.write_str("[REDACTED]")
    }
}

/// The secret of an optional `SecretString`.
pub open spec fn secret_of(s: Option<SecretString>) -> Option<Seq<char>> {
    match s {
        Some(s) => Some(s@),
        None => None,
    }
}

/// The secret of an optional reference to a `SecretString`.
pub open spec fn secret_of_ref(s: Option<&SecretString>) -> Option<Seq<char>> {
    match s {
        Some(s) => Some(s@),
        None => None,
    }
}

/// What a `Credentials` holds.
pub struct CredentialsView {
    pub app_id: Seq<char>,
    pub key_id: Seq<char>,
    pub app_key: Seq<char>,
}

/// Credentials required by the Open API.
pub struct Credentials {
    app_id: String,
    key_id: String,
    app_key: SecretString,
}

impl View for Credentials {
    type V = CredentialsView;

    closed spec fn view(&self) -> CredentialsView {
        CredentialsView { app_id: self.app_id@, key_id: self.key_id@, app_key: self.app_key@ }
    }
}

impl Credentials {
    /// Create credentials.
    pub fn new(app_id: &str, key_id: &str, app_key: &str) -> (r: Credentials)
        ensures
            r@.app_id == app_id@,
            r@.key_id == key_id@,
            r@.app_key == app_key@,
    {
        Credentials {
            app_id: app_id.to_owned(),
            key_id: key_id.to_owned(),
            app_key: SecretString::new(app_key),
        }
    }

    /// App id (public).
    pub fn app_id(&self) -> (r: &str)
        ensures
            r@ == self@.app_id,
    {
        self.app_id.as_str()
    }

    /// Key id (public).
    pub fn key_id(&self) -> (r: &str)
        ensures
            r@ == self@.key_id,
    {
        self.key_id.as_str()
    }

    /// App key (secret).
    pub fn app_key(&self) -> (r: &SecretString)
        ensures
            r@ == self@.app_key,
    {
        &self.app_key
    }
}

impl Clone for Credentials {
    fn clone(&self) -> (r: Credentials)
        ensures
            r@ == self@,
    {
        Credentials {
            app_id: self.app_id.clone(),
            key_id: self.key_id.clone(),
            app_key: self.app_key.clone(),
        }
    }
}

impl core::fmt::Debug for Credentials {
    /// Writes the two ids and, for the key, what `SecretString` writes for itself, with
    /// `Formatter::debug_struct`.
    #[verifier::external_body]
    fn fmt(&self, f: &mut core::fmt::Formatter<'_>) -> core::fmt::Result {
        f.debug_struct("Credentials").field("app_id", &self.app_id).field(
            "key_id",
            &self.key_id,
        ).field("app_key", &self.app_key).finish()
    }
}

/// Cloud endpoint selection.
#[derive(Clone, Debug)]
#[non_exhaustive]
pub enum Endpoint {
    /// Mainland China.
    China,
    /// United States.
    Usa,
    /// Europe (Germany).
    Europe,
    /// Korea.
    Korea,
    /// Russia.
    Russia,
    /// Singapore.
    Singapore,
    /// Custom base URL, as text.
    Custom(String),
}

impl Endpoint {
    /// The base URL of a named endpoint; a custom one has none.
    pub open spec fn base_url_text(&self) -> Option<Seq<char>> {
        match self {
            Endpoint::China => Some("https://open-cn.aqara.com/v3.0/open/api"@),
            Endpoint::Usa => Some("https://open-usa.aqara.com/v3.0/open/api"@),
            Endpoint::Europe => Some("https://open-ger.aqara.com/v3.0/open/api"@),
            Endpoint::Korea => Some("https://open-kr.aqara.com/v3.0/open/api"@),
            Endpoint::Russia => Some("https://open-ru.aqara.com/v3.0/open/api"@),
            Endpoint::Singapore => Some("https://open-sg.aqara.com/v3.0/open/api"@),
            Endpoint::Custom(_) => None,
        }
    }

    /// The base URL of a named endpoint.
    pub fn base_url_str(&self) -> (r: Option<&'static str>)
        ensures
            match r {
                Some(s) => self.base_url_text() == Some(s@),
                None => self.base_url_text() is None,
            },
    {
        match self {
            Endpoint::China => Some("https://open-cn.aqara.com/v3.0/open/api"),
            Endpoint::Usa => Some("https://open-usa.aqara.com/v3.0/open/api"),
            Endpoint::Europe => Some("https://open-ger.aqara.com/v3.0/open/api"),
            Endpoint::Korea => Some("https://open-kr.aqara.com/v3.0/open/api"),
            Endpoint::Russia => Some("https://open-ru.aqara.com/v3.0/open/api"),
            Endpoint::Singapore => Some("https://open-sg.aqara.com/v3.0/open/api"),
            Endpoint::Custom(_) => None,
        }
    }

    /// The URL of a custom endpoint.
    pub fn custom_url(&self) -> (r: Option<&str>)
        ensures
            match r {
                Some(url) => self matches Endpoint::Custom(text) && text@ == url@,
                None => !(self is Custom),
            },
    {
        match self {
            Endpoint::Custom(url) => Some(url.as_str()),
            _ => None,
        }
    }
}

/// Timeout configuration. A phase without a limit is `None`.
#[derive(Clone, Copy, Debug)]
#[non_exhaustive]
pub struct TimeoutConfig {
    /// Connection / TLS handshake timeout.
    pub connect: Option<Duration>,
    /// Timeout for sending the request (excluding reading the full response body).
    pub request: Option<Duration>,
    /// Timeout for reading the response body.
    pub read: Option<Duration>,
}

impl Default for TimeoutConfig {
    fn default() -> (r: TimeoutConfig)
        ensures
            r.connect matches Some(d) && d.secs() == 10 && d.subsec() == 0,
            r.request matches Some(d) && d.secs() == 30 && d.subsec() == 0,
            r.read matches Some(d) && d.secs() == 30 && d.subsec() == 0,
    {
        TimeoutConfig {
            connect: Some(Duration::from_secs(10)),
            request: Some(Duration::from_secs(30)),
            read: Some(Duration::from_secs(30)),
        }
    }
}

impl TimeoutConfig {
    /// Create a timeout configuration.
    pub fn new(connect: Option<Duration>, request: Option<Duration>, read: Option<Duration>) -> (r:
        TimeoutConfig)
        ensures
            r.connect == connect,
            r.request == request,
            r.read == read,
    {
        TimeoutConfig { connect, request, read }
    }
}

/// Retry configuration (applies only to idempotent operations).
#[derive(Clone, Copy, Debug)]
#[non_exhaustive]
pub struct RetryConfig {
    /// Maximum number of retries (excluding the first attempt).
    pub max_retries: u32,
    /// Base delay for exponential backoff.
    pub base_delay: Duration,
    /// Maximum delay between retries.
    pub max_delay: Duration,
}

impl Default for RetryConfig {
    fn default() -> (r: RetryConfig)
        ensures
            r.max_retries == 3,
            r.base_delay.secs() == 0 && r.base_delay.subsec() == 200_000_000,
            r.max_delay.secs() == 2 && r.max_delay.subsec() == 0,
    {
        RetryConfig {
            max_retries: 3,
            base_delay: Duration::from_millis(200),
            max_delay: Duration::from_secs(2),
        }
    }
}

impl RetryConfig {
    /// Create a retry configuration.
    pub fn new(max_retries: u32, base_delay: Duration, max_delay: Duration) -> (r: RetryConfig)
        ensures
            r.max_retries == max_retries,
            r.base_delay == base_delay,
            r.max_delay == max_delay,
    {
        RetryConfig { max_retries, base_delay, max_delay }
    }
}

/// Response body snippet capture configuration (used for diagnostics on errors).
#[derive(Clone, Copy, Debug)]
#[non_exhaustive]
pub struct BodySnippetConfig {
    /// Enable capturing a truncated, redacted snippet on errors.
    pub enabled: bool,
    /// Max snippet length in bytes.
    pub max_len: usize,
}

impl Default for BodySnippetConfig {
    fn default() -> (r: BodySnippetConfig)
        ensures
            r.enabled,
            r.max_len == 2048,
    {
        BodySnippetConfig { enabled: true, max_len: 2048 }
    }
}

impl BodySnippetConfig {
    /// Create a body snippet configuration.
    pub fn new(enabled: bool, max_len: usize) -> (r: BodySnippetConfig)
        ensures
            r.enabled == enabled,
            r.max_len == max_len,
    {
        BodySnippetConfig { enabled, max_len }
    }
}

/// Options for calling an intent.
#[derive(Clone, Copy, Debug)]
#[non_exhaustive]
pub struct CallOptions {
    /// Include `Accesstoken` header and participate in signing.
    pub include_access_token: bool,
    /// Whether the operation is idempotent (enables retries).
    pub idempotent: bool,
}

impl CallOptions {
    /// Create options for an endpoint requiring an access token.
    pub fn with_access_token() -> (r: CallOptions)
        ensures
            r.include_access_token,
            !r.idempotent,
    {
        CallOptions { include_access_token: true, idempotent: false }
    }

    /// Create options for an endpoint that does not use an access token.
    pub fn without_access_token() -> (r: CallOptions)
        ensures
            !r.include_access_token,
            !r.idempotent,
    {
        CallOptions { include_access_token: false, idempotent: false }
    }

    /// Set whether the operation is idempotent (enables retries).
    pub fn idempotent(self, idempotent: bool) -> (r: CallOptions)
        ensures
            r.include_access_token == self.include_access_token,
            r.idempotent == idempotent,
    {
        CallOptions { include_access_token: self.include_access_token, idempotent }
    }
}

/// The response envelope described in the Open API docs.
#[derive(Debug)]
#[non_exhaustive]
pub struct AqaraEnvelope<T> {
    /// Business status code (`0` means success).
    pub code: i64,
    /// Request id.
    pub request_id: String,
    /// Human-readable message.
    pub message: String,
    /// Result payload (optional).
    pub result: Option<T>,
}

/// A successful response.
#[derive(Debug)]
#[non_exhaustive]
pub struct AqaraResponse<T> {
    /// HTTP status.
    pub status: StatusCode,
    /// Response envelope.
    pub envelope: AqaraEnvelope<T>,
}

impl<T> AqaraEnvelope<T> {
    /// An envelope of the four parts.
    pub fn new(code: i64, request_id: String, message: String, result: Option<T>) -> (r:
        AqaraEnvelope<T>)
        ensures
            r.code == code,
            r.request_id == request_id,
            r.message == message,
            r.result == result,
    {
        AqaraEnvelope { code, request_id, message, result }
    }
}

impl<T> AqaraResponse<T> {
    /// A response of a status and an envelope.
    pub fn new(status: StatusCode, envelope: AqaraEnvelope<T>) -> (r: AqaraResponse<T>)
        ensures
            r.status == status,
            r.envelope == envelope,
    {
        AqaraResponse { status, envelope }
    }

    /// Convenience accessor for `requestId`.
    pub fn request_id(&self) -> (r: &str)
        ensures
            r@ == self.envelope.request_id@,
    {
        self.envelope.request_id.as_str()
    }

    /// Convenience accessor for `message`.
    pub fn message(&self) -> (r: &str)
        ensures
            r@ == self.envelope.message@,
    {
        self.envelope.message.as_str()
    }

    /// Convenience accessor for `result`.
    pub fn result(&self) -> (r: Option<&T>)
        ensures
            match r {
                Some(t) => self.envelope.result == Some(*t),
                None => self.envelope.result is None,
            },
    {
        match &self.envelope.result {
            Some(t) => Some(t),
            None => None,
        }
    }
}

/// A successful response whose result is raw JSON.
pub type AqaraValueResponse = AqaraResponse<Json>;

} // verus!
