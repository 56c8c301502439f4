//! Configuration of a client, fixed when it is built.

use http::HeaderMap;
use url::Url;
use vstd::prelude::*;
use vstd::string::StringExecFns;
use crate::client::request::{full_message, invalid_value_message, put, value_label};
use crate::error::{text_of, Error};
use crate::transport::headers::{
    header_fields, header_names, new_headers, no_fields, put_named_header, refusing_names,
    valid_header_name, valid_header_value, NamedPutOutcome,
};
use crate::types::{
    secret_of, BodySnippetConfig, Credentials, Endpoint, RetryConfig, SecretString, TimeoutConfig,
};
use crate::util::text::{ascii_lower, chars_of, same_text, string_of, to_ascii_lower};

verus! {

/// The message of the error with which `Url::parse` refuses `text`; `None` where it
/// takes the text as a URL.
pub uninterp spec fn url_parse_error(text: Seq<char>) -> Option<Seq<char>>;

/// The scheme of the URL that `text` spells, as `Url::scheme` gives it.
pub uninterp spec fn url_scheme_of(text: Seq<char>) -> Seq<char>;

/// The path of the URL that `text` spells, as `Url::path` gives it.
pub uninterp spec fn url_path_of(text: Seq<char>) -> Seq<char>;

/// The text of the URL that `text` spells, after `Url::set_fragment` took its fragment.
pub uninterp spec fn url_without_fragment(text: Seq<char>) -> Seq<char>;

/// The text of the URL that `text` spells, after `Url::set_query` took its query.
pub uninterp spec fn url_without_query(text: Seq<char>) -> Seq<char>;

/// The text of the URL that `text` spells, after `Url::set_path` gave it the path `path`.
pub uninterp spec fn url_with_path(text: Seq<char>, path: Seq<char>) -> Seq<char>;

/// `Url::parse`: the message of the error with which the parser refuses `text`, or
/// `None` where `text` is a URL. The result depends on the text alone.
#[verifier::external_body]
fn url_error(text: &str) -> (r: Option<String>)
    ensures
        text_of(r) == url_parse_error(text@),
{
    Url::parse(text).err().map(|e| e.to_string())
}

/// `Url::scheme` of the URL that `Url::parse` reads from `text`: its scheme, in lower
/// case.
#[verifier::external_body]
fn url_scheme(text: &str) -> (r: String)
    requires
        url_parse_error(text@) is None,
    ensures
        r@ == url_scheme_of(text@),
{
    match Url::parse(text) {
        Ok(url) => url.scheme().to_owned(),
        Err(_) => String::new(),
    }
}

/// `Url::path` of the URL that `Url::parse` reads from `text`.
#[verifier::external_body]
fn url_path(text: &str) -> (r: String)
    requires
        url_parse_error(text@) is None,
    ensures
        r@ == url_path_of(text@),
{
    match Url::parse(text) {
        Ok(url) => url.path().to_owned(),
        Err(_) => String::new(),
    }
}

/// `Url::set_fragment` with `None` on the URL that `Url::parse` reads from `text`: the
/// text of the URL without its fragment.
#[verifier::external_body]
fn clear_fragment(text: &str) -> (r: String)
    requires
        url_parse_error(text@) is None,
    ensures
        r@ == url_without_fragment(text@),
{
    match Url::parse(text) {
        Ok(mut url) => {
            url.set_fragment(None);
            url.into()
        },
        Err(_) => String::new(),
    }
}

/// `Url::set_query` with `None` on the URL that `Url::parse` reads from `text`: the
/// text of the URL without its query.
#[verifier::external_body]
fn clear_query(text: &str) -> (r: String)
    requires
        url_parse_error(text@) is None,
    ensures
        r@ == url_without_query(text@),
{
    match Url::parse(text) {
        Ok(mut url) => {
            url.set_query(None);
            url.into()
        },
        Err(_) => String::new(),
    }
}

/// `Url::set_path` on the URL that `Url::parse` reads from `text`: the text of the URL
/// with the path `path`.
#[verifier::external_body]
fn set_url_path(text: &str, path: &str) -> (r: String)
    requires
        url_parse_error(text@) is None,
    ensures
        r@ == url_with_path(text@, path@),
{
    match Url::parse(text) {
        Ok(mut url) => {
            url.set_path(path);
            url.into()
        },
        Err(_) => String::new(),
    }
}

/// `s` without the slashes at its end.
pub open spec fn without_trailing_slashes(s: Seq<char>) -> Seq<char>
    decreases s.len(),
{
    if s.len() > 0 && s.last() == '/' {
        without_trailing_slashes(s.drop_last())
    } else {
        s
    }
}

proof fn lemma_trailing_slashes(s: Seq<char>, n: int)
    requires
        0 <= n <= s.len(),
        forall|k: int| n <= k < s.len() ==> s[k] == '/',
    ensures
        without_trailing_slashes(s) == without_trailing_slashes(s.take(n)),
    decreases s.len() - n,
{
    if n < s.len() {
        assert(s.drop_last().take(n) == s.take(n));
        lemma_trailing_slashes(s.drop_last(), n);
    } else {
        assert(s.take(n) == s);
    }
}

/// The path of a base URL, made ready: without the slashes at its end. A path of
/// which nothing is left is refused.
pub fn checked_base_path(path: &str) -> (r: Result<String, Error>)
    ensures
        match r {
            Ok(p) => p@ == without_trailing_slashes(path@) && p@.len() > 0,
            Err(e) => {
                &&& without_trailing_slashes(path@).len() == 0
                &&& e matches Error::InvalidConfig { message }
                &&& message@ == "base_url path cannot be empty"@
            },
        },
{
    let chars = chars_of(path);
    let mut end: usize = chars.len();
    while end > 0 && chars[end - 1] == '/'
        invariant
            end <= chars.len(),
            forall|k: int| end <= k < chars.len() ==> chars@[k] == '/',
        decreases end,
    {
        end -= 1;
    }
    let mut kept: Vec<char> = Vec::new();
    let mut i: usize = 0;
    while i < end
        invariant
            i <= end <= chars.len(),
            kept@ == chars@.take(i as int),
        decreases end - i,
    {
        kept.push(chars[i]);
        i += 1;
    }
    proof {
        lemma_trailing_slashes(chars@, end as int);
    }
    if end == 0 {
        return Err(Error::InvalidConfig { message: "base_url path cannot be empty".to_owned() });
    }
    Ok(string_of(&kept))
}

/// The message of the error for a base URL that the parser refuses.
pub open spec fn invalid_url_message(reason: Seq<char>) -> Seq<char> {
    "invalid base_url: "@ + reason
}

/// The message with which `text` is refused as a URL; `None` where it is one.
pub open spec fn url_refusal(text: Seq<char>) -> Option<Seq<char>> {
    match url_parse_error(text) {
        Some(reason) => Some(invalid_url_message(reason)),
        None => None,
    }
}

/// Whether `r` is what an attempt to get the text `value` comes to, where `outcome`
/// is that text or the message with which it is refused: every refusal is an
/// `InvalidConfig` error with that message.
pub open spec fn is_text_or_refusal(
    outcome: Result<Seq<char>, Seq<char>>,
    r: Result<String, Error>,
) -> bool {
    match outcome {
        Ok(text) => r matches Ok(s) && s@ == text,
        Err(m) => r matches Err(Error::InvalidConfig { message }) && message@ == m,
    }
}

/// The base URL as requests use it, or the message with which it is refused: the URL
/// that `text` spells, without fragment and query, with the slashes at the end of its
/// path taken away; a path of which nothing is left then is refused. What is not a
/// URL is refused, at the start and after each step.
pub open spec fn normalized_base_url(text: Seq<char>) -> Result<Seq<char>, Seq<char>> {
    let plain = url_without_query(url_without_fragment(text));
    let path = without_trailing_slashes(url_path_of(plain));
    let ready = url_with_path(plain, path);
    if url_refusal(text) is Some {
        Err(url_refusal(text)->0)
    } else if url_refusal(url_without_fragment(text)) is Some {
        Err(url_refusal(url_without_fragment(text))->0)
    } else if url_refusal(plain) is Some {
        Err(url_refusal(plain)->0)
    } else if path.len() == 0 {
        Err("base_url path cannot be empty"@)
    } else if url_refusal(ready) is Some {
        Err(url_refusal(ready)->0)
    } else {
        Ok(ready)
    }
}

/// Refuses what is no URL.
pub fn check_url(text: &str) -> (r: Result<(), Error>)
    ensures
        match r {
            Ok(()) => url_parse_error(text@) is None,
            Err(e) => {
                &&& url_refusal(text@) is Some
                &&& e matches Error::InvalidConfig { message }
                &&& message@ == url_refusal(text@)->0
            },
        },
{
    match url_error(text) {
        Some(reason) => {
            let mut message = "invalid base_url: ".to_owned();
            message.append(reason.as_str());
            Err(Error::InvalidConfig { message })
        },
        None => Ok(()),
    }
}

/// The base URL as requests use it: without fragment and query, and without slashes
/// at the end of its path. A URL whose path is empty then is refused, and so is what
/// is no URL.
pub fn normalize_base_url(url: &str) -> (r: Result<String, Error>)
    ensures
        is_text_or_refusal(normalized_base_url(url@), r),
        r matches Ok(s) ==> url_parse_error(s@) is None,
{
    match check_url(url) {
        Ok(()) => {},
        Err(e) => {
            return Err(e);
        },
    }
    let without_fragment = clear_fragment(url);
    match check_url(without_fragment.as_str()) {
        Ok(()) => {},
        Err(e) => {
            return Err(e);
        },
    }
    let plain = clear_query(without_fragment.as_str());
    match check_url(plain.as_str()) {
        Ok(()) => {},
        Err(e) => {
            return Err(e);
        },
    }
    let path = url_path(plain.as_str());
    let trimmed = match checked_base_path(path.as_str()) {
        Ok(p) => p,
        Err(e) => {
            return Err(e);
        },
    };
    let ready = set_url_path(plain.as_str(), trimmed.as_str());
    match check_url(ready.as_str()) {
        Ok(()) => {},
        Err(e) => {
            return Err(e);
        },
    }
    Ok(ready)
}

/// The text of the URL of an endpoint: the custom one, or the one that the name
/// stands for.
pub open spec fn endpoint_text(endpoint: Endpoint) -> Seq<char> {
    match endpoint {
        Endpoint::Custom(url) => url@,
        named => match named.base_url_text() {
            Some(text) => text,
            None => Seq::empty(),
        },
    }
}

/// The URL of an endpoint, or the message with which it is refused as no URL.
pub open spec fn endpoint_url(endpoint: Endpoint) -> Result<Seq<char>, Seq<char>> {
    match url_refusal(endpoint_text(endpoint)) {
        Some(m) => Err(m),
        None => Ok(endpoint_text(endpoint)),
    }
}

/// The URL of an endpoint: the custom one, or the one that the name stands for. What
/// is no URL is refused.
pub fn endpoint_to_url(endpoint: &Endpoint) -> (r: Result<String, Error>)
    ensures
        is_text_or_refusal(endpoint_url(*endpoint), r),
{
    let text = match endpoint {
        Endpoint::Custom(url) => url.clone(),
        _ => match endpoint.base_url_str() {
            Some(t) => t.to_owned(),
            None => String::new(),
        },
    };
    match check_url(text.as_str()) {
        Ok(()) => Ok(text),
        Err(e) => Err(e),
    }
}

/// Client builder.
#[derive(Clone, Debug)]
pub struct ClientBuilder {
    /// The credentials that sign every request.
    pub credentials: Credentials,
    /// The endpoint that requests go to.
    pub endpoint: Endpoint,
    /// The access token, for calls that include it.
    pub access_token: Option<SecretString>,
    /// The value of the `Lang` header.
    pub lang: String,
    /// The value of the `User-Agent` header.
    pub user_agent: String,
    /// The timeouts of the transport.
    pub timeouts: TimeoutConfig,
    /// The retry policy of idempotent calls.
    pub retry: RetryConfig,
    /// Whether and how long errors carry a snippet of the response body.
    pub body_snippet: BodySnippetConfig,
    /// Headers that go with every request, beside the required ones.
    pub extra_headers: HeaderMap,
    /// The message for the first extra header that was refused, if one was.
    pub refusal: Option<String>,
}

/// What a client is built from.
pub struct ClientConfig {
    /// The URL that requests go to, made ready.
    pub base_url: String,
    /// The credentials that sign every request.
    pub credentials: Credentials,
    /// The access token that the client starts with.
    pub access_token: Option<SecretString>,
    /// The value of the `Lang` header.
    pub lang: String,
    /// The value of the `User-Agent` header.
    pub user_agent: String,
    /// The timeouts of the transport.
    pub timeouts: TimeoutConfig,
    /// The retry policy of idempotent calls.
    pub retry: RetryConfig,
    /// Whether and how long errors carry a snippet of the response body.
    pub body_snippet: BodySnippetConfig,
    /// Headers that go with every request, beside the required ones.
    pub extra_headers: HeaderMap,
}

impl ClientBuilder {
    /// Create a new builder with required credentials.
    pub fn new(credentials: Credentials) -> (r: ClientBuilder)
        ensures
            r.credentials == credentials,
            r.endpoint is China,
            r.access_token is None,
            r.lang@ == "en"@,
            r.user_agent@ == "aqara-sdk-rust/0.1.0"@,
            header_fields(r.extra_headers) == no_fields(),
            header_names(r.extra_headers) == 0,
            r.refusal is None,
    {
        ClientBuilder {
            credentials,
            endpoint: Endpoint::China,
            access_token: None,
            lang: "en".to_owned(),
            user_agent: "aqara-sdk-rust/0.1.0".to_owned(),
            timeouts: TimeoutConfig::default(),
            retry: RetryConfig::default(),
            body_snippet: BodySnippetConfig::default(),
            extra_headers: new_headers(),
            refusal: None,
        }
    }

    /// Select the endpoint.
    pub fn endpoint(self, endpoint: Endpoint) -> (r: ClientBuilder)
        ensures
            r == (ClientBuilder { endpoint, ..self }),
    {
        let mut r = self;
        r.endpoint = endpoint;
        r
    }

    /// Override base URL.
    pub fn base_url(self, base_url: &str) -> (r: ClientBuilder)
        ensures
            r.endpoint matches Endpoint::Custom(url) && url@ == base_url@,
            r == (ClientBuilder { endpoint: r.endpoint, ..self }),
    {
        let mut r = self;
        r.endpoint = Endpoint::Custom(base_url.to_owned());
        r
    }

    /// Set an access token for endpoints that require it.
    pub fn access_token(self, access_token: &str) -> (r: ClientBuilder)
        ensures
            secret_of(r.access_token) == Some(access_token@),
            r == (ClientBuilder { access_token: r.access_token, ..self }),
    {
        let mut r = self;
        r.access_token = Some(SecretString::new(access_token));
        r
    }

    /// Set `Lang` header value (default: `"en"`).
    pub fn lang(self, lang: &str) -> (r: ClientBuilder)
        ensures
            r.lang@ == lang@,
            r == (ClientBuilder { lang: r.lang, ..self }),
    {
        let mut r = self;
        r.lang = lang.to_owned();
        r
    }

    /// Set `User-Agent` header value.
    pub fn user_agent(self, user_agent: &str) -> (r: ClientBuilder)
        ensures
            r.user_agent@ == user_agent@,
            r == (ClientBuilder { user_agent: r.user_agent, ..self }),
    {
        let mut r = self;
        r.user_agent = user_agent.to_owned();
        r
    }

    /// Set timeout configuration.
    pub fn timeouts(self, timeouts: TimeoutConfig) -> (r: ClientBuilder)
        ensures
            r == (ClientBuilder { timeouts, ..self }),
    {
        let mut r = self;
        r.timeouts = timeouts;
        r
    }

    /// Set retry configuration.
    pub fn retry(self, retry: RetryConfig) -> (r: ClientBuilder)
        ensures
            r == (ClientBuilder { retry, ..self }),
    {
        let mut r = self;
        r.retry = retry;
        r
    }

    /// Configure response snippet capture for diagnostics.
    pub fn body_snippet(self, config: BodySnippetConfig) -> (r: ClientBuilder)
        ensures
            r == (ClientBuilder { body_snippet: config, ..self }),
    {
        let mut r = self;
        r.body_snippet = config;
        r
    }

    /// Add an extra header sent with every request: the header of this name, in lower
    /// case, gets this one value. A name or a value that may not stand in a header is
    /// refused, and so is a header that the map cannot take: the map stays as it was,
    /// the builder keeps the message of its first refusal, and `into_config` fails
    /// with it.
    pub fn extra_header(self, name: &str, value: &str) -> (r: ClientBuilder)
        ensures
            r == (ClientBuilder { extra_headers: r.extra_headers, refusal: r.refusal, ..self }),
            is_extra_header_result(
                header_fields(self.extra_headers),
                header_names(self.extra_headers),
                self.refusal,
                name@,
                value@,
                header_fields(r.extra_headers),
                r.refusal,
            ),
            extra_header_refusal(name@, value@) is None && header_names(self.extra_headers)
                < refusing_names() ==> r.refusal == self.refusal && header_fields(r.extra_headers)
                == put(header_fields(self.extra_headers), ascii_lower(name@), value@),
            header_names(r.extra_headers) <= header_names(self.extra_headers) + 1,
    {
        let mut r = self;
        let message = match put_named_header(&mut r.extra_headers, name, value) {
            NamedPutOutcome::Stored => {
                return r;
            },
            NamedPutOutcome::InvalidName => {
                let mut message = "invalid header name: ".to_owned();
                message.append(name);
                message
            },
            NamedPutOutcome::InvalidValue => {
                let lower = string_of(&to_ascii_lower(&chars_of(name)));
                let mut message = "invalid header value for ".to_owned();
                message.append(lower.as_str());
                message.append(": failed to parse header value");
                message
            },
            NamedPutOutcome::Full => "too many headers: max size reached".to_owned(),
        };
        if r.refusal.is_none() {
            r.refusal = Some(message);
        }
        r
    }

    /// Checks the configuration and fixes the base URL.
    ///
    /// An extra header that was refused fails the configuration, and so does a base
    /// URL that is refused. `tls_backend` says whether the transport can speak TLS:
    /// without it a base URL of the scheme `https` is refused. Every failure is an
    /// `InvalidConfig` error. On success the configuration holds the base URL, made
    /// ready, and what the builder held.
    pub fn into_config(self, tls_backend: bool) -> (r: Result<ClientConfig, Error>)
        ensures
            match r {
                Ok(config) => {
                    &&& config_url(self, tls_backend) == Ok::<Seq<char>, Seq<char>>(
                        config.base_url@,
                    )
                    &&& config.credentials == self.credentials
                    &&& config.access_token == self.access_token
                    &&& config.lang == self.lang
                    &&& config.user_agent == self.user_agent
                    &&& config.timeouts == self.timeouts
                    &&& config.retry == self.retry
                    &&& config.body_snippet == self.body_snippet
                    &&& config.extra_headers == self.extra_headers
                },
                Err(e) => {
                    &&& e matches Error::InvalidConfig { message }
                    &&& config_url(self, tls_backend) == Err::<Seq<char>, Seq<char>>(message@)
                },
            },
    {
        if let Some(message) = self.refusal {
            return Err(Error::InvalidConfig { message });
        }
        let url = match endpoint_to_url(&self.endpoint) {
            Ok(url) => url,
            Err(e) => {
                return Err(e);
            },
        };
        let base_url = match normalize_base_url(url.as_str()) {
            Ok(url) => url,
            Err(e) => {
                return Err(e);
            },
        };
        let scheme = url_scheme(base_url.as_str());
        match check_tls(scheme.as_str(), tls_backend) {
            Ok(()) => {},
            Err(e) => {
                return Err(e);
            },
        }
        Ok(
            ClientConfig {
                base_url,
                credentials: self.credentials,
                access_token: self.access_token,
                lang: self.lang,
                user_agent: self.user_agent,
                timeouts: self.timeouts,
                retry: self.retry,
                body_snippet: self.body_snippet,
                extra_headers: self.extra_headers,
            },
        )
    }
}

/// The message with which an extra header of this name and value is refused before
/// the map is asked; `None` where both may stand in a header.
pub open spec fn extra_header_refusal(name: Seq<char>, value: Seq<char>) -> Option<Seq<char>> {
    if !valid_header_name(name) {
        Some("invalid header name: "@ + name)
    } else if !valid_header_value(value) {
        Some(invalid_value_message(value_label(ascii_lower(name))))
    } else {
        None
    }
}

/// The refusal that a builder keeps after one more: the earlier one, where there is
/// one.
pub open spec fn first_refusal(earlier: Option<String>, now: Seq<char>) -> Seq<char> {
    match earlier {
        Some(m) => m@,
        None => now,
    }
}

/// Whether the fields `after` and the refusal `kept` are what adding an extra header
/// comes to, from the fields `before` of a map that holds `names` names and the
/// refusal `earlier`. A name or value that may not stand in a header is refused. Any
/// other header is set, under its name in lower case, unless the map holds so many
/// names that it refuses to grow.
pub open spec fn is_extra_header_result(
    before: Map<Seq<char>, Seq<u8>>,
    names: nat,
    earlier: Option<String>,
    name: Seq<char>,
    value: Seq<char>,
    after: Map<Seq<char>, Seq<u8>>,
    kept: Option<String>,
) -> bool {
    match extra_header_refusal(name, value) {
        Some(m) => after == before && text_of(kept) == Some(first_refusal(earlier, m)),
        None => {
            ||| after == put(before, ascii_lower(name), value) && kept == earlier
            ||| {
                &&& names >= refusing_names()
                &&& after == before
                &&& text_of(kept) == Some(first_refusal(earlier, full_message()))
            }
        },
    }
}

/// The base URL of the configuration that a builder gives, or the message with which
/// it gives none: the first refusal of an extra header, else the refusal of the URL of
/// the endpoint, else the refusal of a URL that needs a TLS backend where there is
/// none.
pub open spec fn config_url(builder: ClientBuilder, tls_backend: bool) -> Result<
    Seq<char>,
    Seq<char>,
> {
    match builder.refusal {
        Some(m) => Err(m@),
        None => match normalized_base_url(endpoint_text(builder.endpoint)) {
            Err(m) => Err(m),
            Ok(url) => if url_scheme_of(url) == "https"@ && !tls_backend {
                Err("https base_url requires enabling one of: rustls, native-tls"@)
            } else {
                Ok(url)
            },
        },
    }
}

/// Whether a URL of the scheme `scheme` is spoken over TLS.
pub fn needs_tls(scheme: &str) -> (r: bool)
    ensures
        r == (scheme@ == "https"@),
{
    same_text(scheme, "https")
}

/// Refuses a base URL of a scheme that is spoken over TLS where the transport has no
/// TLS backend.
pub fn check_tls(scheme: &str, tls_backend: bool) -> (r: Result<(), Error>)
    ensures
        r is Err <==> scheme@ == "https"@ && !tls_backend,
        r matches Err(e) ==> (e matches Error::InvalidConfig { message } && message@
            == "https base_url requires enabling one of: rustls, native-tls"@),
{
    if needs_tls(scheme) && !tls_backend {
        return Err(
            Error::InvalidConfig {
                message: "https base_url requires enabling one of: rustls, native-tls".to_owned(),
            },
        );
    }
    Ok(())
}

} // verus!
