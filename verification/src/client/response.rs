//! Reading a response: the request id, the envelope, and the error that a response
//! stands for.

use http::HeaderMap;
use vstd::prelude::*;
use crate::error::{number_of, text_of, ApiError, Error};
use crate::status::StatusCode;
use crate::transport::headers::{
    ascii_text, header_fields, header_text, is_header_name, is_visible_text, HeaderText,
};
use crate::transport::TransportResponse;
use crate::types::{AqaraEnvelope, AqaraResponse, AqaraValueResponse, BodySnippetConfig};
use crate::util::json::{json_parse, json_text, model_of, parse_json, print_json, Json, JsonModel};
use crate::util::redact::{snippet_from_bytes, snippet_from_parsed, snippet_source};
use crate::util::retry::{nanos_of, retry_after_at, retry_after_of};
use crate::util::text::truncated;
use crate::util::time::{read_clock, ClockReading};
use vstd::utf8::encode_utf8;

verus! {

/// What an envelope holds.
pub struct EnvelopeModel {
    pub code: i64,
    pub request_id: Seq<char>,
    pub message: Seq<char>,
    pub result: Option<JsonModel>,
}

/// What an `AqaraEnvelope` of raw JSON holds.
pub open spec fn envelope_model(e: AqaraEnvelope<Json>) -> EnvelopeModel {
    EnvelopeModel {
        code: e.code,
        request_id: e.request_id@,
        message: e.message@,
        result: model_of(e.result),
    }
}

/// The string under `name` or under `alias` in the object `j`. There is none where
/// both are missing, where both are present, or where what is there is no string.
pub open spec fn string_field(j: JsonModel, name: Seq<char>, alias: Seq<char>) -> Option<
    Seq<char>,
> {
    match (j.member(name), j.member(alias)) {
        (Some(v), None) => v.text(),
        (None, Some(v)) => v.text(),
        _ => None,
    }
}

/// The envelope that the JSON value `j` is: an object with a whole number under
/// `code`, a string under `requestId` (or `request_id`), a string under `message` (or
/// `msg`), and, where it is there and not `null`, a value under `result`.
pub open spec fn envelope_of(j: JsonModel) -> Option<EnvelopeModel> {
    let code = match j.member("code"@) {
        Some(v) => v.integer(),
        None => None,
    };
    let request_id = string_field(j, "requestId"@, "request_id"@);
    let message = string_field(j, "message"@, "msg"@);
    let result = match j.member("result"@) {
        Some(JsonModel::Null) => None,
        other => other,
    };
    if j is Object && code is Some && request_id is Some && message is Some {
        Some(
            EnvelopeModel {
                code: code->0,
                request_id: request_id->0,
                message: message->0,
                result,
            },
        )
    } else {
        None
    }
}

/// The envelope that a body is, where `parsed` is its reading as JSON.
pub open spec fn envelope_in(parsed: Option<JsonModel>) -> Option<EnvelopeModel> {
    match parsed {
        Some(j) => envelope_of(j),
        None => None,
    }
}

fn read_string_field(j: &Json, name: &str, alias: &str) -> (r: Option<String>)
    ensures
        text_of(r) == string_field(j@, name@, alias@),
{
    match (j.get(name), j.get(alias)) {
        (Some(v), None) => match v.as_str() {
            Some(s) => Some(s.to_owned()),
            None => None,
        },
        (None, Some(v)) => match v.as_str() {
            Some(s) => Some(s.to_owned()),
            None => None,
        },
        _ => None,
    }
}

/// Reads the envelope out of a JSON value.
pub fn decode_envelope(j: &Json) -> (r: Option<AqaraEnvelope<Json>>)
    ensures
        match r {
            Some(e) => envelope_of(j@) == Some(envelope_model(e)),
            None => envelope_of(j@) is None,
        },
{
    let is_object = match j {
        Json::Object(_) => true,
        _ => false,
    };
    if !is_object {
        return None;
    }
    let code = match j.get("code") {
        Some(v) => match v.as_i64() {
            Some(c) => c,
            None => {
                return None;
            },
        },
        None => {
            return None;
        },
    };
    let request_id = match read_string_field(j, "requestId", "request_id") {
        Some(s) => s,
        None => {
            return None;
        },
    };
    let message = match read_string_field(j, "message", "msg") {
        Some(s) => s,
        None => {
            return None;
        },
    };
    let result = match j.get("result") {
        Some(v) => if v.is_null() {
            None
        } else {
            Some(v.clone())
        },
        None => None,
    };
    Some(AqaraEnvelope { code, request_id, message, result })
}

/// The header that names the request: the first that is present of `x-request-id`,
/// `request-id` and `x-correlation-id`.
pub open spec fn request_id_header(fields: Map<Seq<char>, Seq<u8>>) -> Option<Seq<u8>> {
    if fields.contains_key("x-request-id"@) {
        Some(fields["x-request-id"@])
    } else if fields.contains_key("request-id"@) {
        Some(fields["request-id"@])
    } else if fields.contains_key("x-correlation-id"@) {
        Some(fields["x-correlation-id"@])
    } else {
        None
    }
}

/// The request id that the headers give: the value of the header that names the
/// request, where it is readable text.
pub open spec fn header_request_id(fields: Map<Seq<char>, Seq<u8>>) -> Option<Seq<char>> {
    match request_id_header(fields) {
        Some(bytes) => if is_visible_text(bytes) {
            Some(ascii_text(bytes))
        } else {
            None
        },
        None => None,
    }
}

/// The request id that a body gives, where `parsed` is its reading as JSON: the
/// string under `requestId`, or, where nothing is there, under `request_id`.
pub open spec fn body_request_id(parsed: Option<JsonModel>) -> Option<Seq<char>> {
    match parsed {
        Some(j) => match j.member("requestId"@) {
            Some(v) => v.text(),
            None => match j.member("request_id"@) {
                Some(v) => v.text(),
                None => None,
            },
        },
        None => None,
    }
}

/// The request id of a response before its envelope is read: from the headers, else
/// from the body.
pub open spec fn request_id_of(fields: Map<Seq<char>, Seq<u8>>, parsed: Option<JsonModel>) -> Option<
    Seq<char>,
> {
    match header_request_id(fields) {
        Some(id) => Some(id),
        None => body_request_id(parsed),
    }
}

proof fn lemma_request_id_names()
    ensures
        is_header_name("x-request-id"@),
        is_header_name("request-id"@),
        is_header_name("x-correlation-id"@),
{
    reveal_strlit("x-request-id");
    reveal_strlit("request-id");
    reveal_strlit("x-correlation-id");
}

fn request_id_from_headers(headers: &HeaderMap) -> (r: Option<String>)
    ensures
        text_of(r) == header_request_id(header_fields(*headers)),
{
    proof {
        lemma_request_id_names();
    }
    let first = header_text(headers, "x-request-id");
    let found = match first {
        HeaderText::Absent => {
            let second = header_text(headers, "request-id");
            match second {
                HeaderText::Absent => header_text(headers, "x-correlation-id"),
                other => other,
            }
        },
        other => other,
    };
    match found {
        HeaderText::Text(s) => Some(s),
        _ => None,
    }
}

fn request_id_from_body(parsed: &Option<Json>) -> (r: Option<String>)
    ensures
        text_of(r) == body_request_id(model_of(*parsed)),
{
    match parsed {
        Some(j) => {
            let found = match j.get("requestId") {
                Some(v) => Some(v),
                None => j.get("request_id"),
            };
            match found {
                Some(v) => match v.as_str() {
                    Some(s) => Some(s.to_owned()),
                    None => None,
                },
                None => None,
            }
        },
        None => None,
    }
}

/// The request id of a response of which `parsed` is the body's reading as JSON.
pub fn request_id_from(headers: &HeaderMap, parsed: &Option<Json>) -> (r: Option<String>)
    ensures
        text_of(r) == request_id_of(header_fields(*headers), model_of(*parsed)),
{
    match request_id_from_headers(headers) {
        Some(id) => Some(id),
        None => request_id_from_body(parsed),
    }
}

/// The request id of a response, from its headers or else from its body.
pub fn extract_request_id(headers: &HeaderMap, body: &[u8]) -> (r: Option<String>)
    ensures
        text_of(r) == request_id_of(header_fields(*headers), json_parse(body@)),
{
    match request_id_from_headers(headers) {
        Some(id) => Some(id),
        None => {
            let parsed = parse_json(body);
            request_id_from_body(&parsed)
        },
    }
}

/// The snippet that an error carries of a body: none where snippets are disabled.
pub open spec fn snippet_of(config: BodySnippetConfig, parsed: Option<JsonModel>, body: Seq<u8>) -> Option<
    Seq<char>,
> {
    if config.enabled {
        Some(truncated(snippet_source(parsed, body), config.max_len as nat))
    } else {
        None
    }
}

/// A redacted snippet of `body`, if snippets are enabled.
pub fn snippet_if_enabled(config: BodySnippetConfig, body: &[u8]) -> (r: Option<String>)
    ensures
        text_of(r) == snippet_of(config, json_parse(body@), body@),
{
    if !config.enabled {
        return None;
    }
    Some(snippet_from_bytes(body, config.max_len))
}

/// A redacted snippet of the compact text of `value`, if snippets are enabled.
pub fn snippet_json_if_enabled(config: BodySnippetConfig, value: &Json) -> (r: Option<String>)
    ensures
        text_of(r) == snippet_of(
            config,
            json_parse(encode_utf8(json_text(value@))),
            encode_utf8(json_text(value@)),
        ),
{
    if !config.enabled {
        return None;
    }
    let text = print_json(value);
    Some(snippet_from_bytes(text.as_str().as_bytes(), config.max_len))
}

/// Whether `r` is what a response stands for, where `parsed` is the reading of its body
/// as JSON: the classification of its status, headers and body, at the given reading
/// of the clock.
///
/// - status 429: rate limited, before the body is looked at;
/// - a body that is no envelope: a decode error under a success status, else an HTTP
///   error;
/// - an envelope with code 429: rate limited; with another code but 0: an API error;
/// - an envelope with code 0: an HTTP error under a status that is no success, else
///   the response.
///
/// Once the envelope is read, its request id is the one that is given.
pub open spec fn is_classification_of(
    status: u16,
    fields: Map<Seq<char>, Seq<u8>>,
    parsed: Option<JsonModel>,
    body: Seq<u8>,
    config: BodySnippetConfig,
    reading: ClockReading,
    r: Result<AqaraValueResponse, Error>,
) -> bool {
    let early_id = request_id_of(fields, parsed);
    let snippet = snippet_of(config, parsed, body);
    if status == 429 {
        &&& r matches Err(Error::RateLimited { retry_after, request_id, body_snippet })
        &&& nanos_of(retry_after) == retry_after_of(fields, reading)
        &&& text_of(request_id) == early_id
        &&& text_of(body_snippet) == snippet
    } else {
        match envelope_in(parsed) {
            None => if 200 <= status <= 299 {
                &&& r matches Err(Error::Decode { message, status: s, request_id, body_snippet })
                &&& message@ == "failed to decode response body"@
                &&& number_of(s) == Some(status)
                &&& text_of(request_id) == early_id
                &&& text_of(body_snippet) == snippet
            } else {
                &&& r matches Err(Error::Http { status: s, request_id, body_snippet })
                &&& s@ == status
                &&& text_of(request_id) == early_id
                &&& text_of(body_snippet) == snippet
            },
            Some(envelope) => if envelope.code == 429 {
                &&& r matches Err(Error::RateLimited { retry_after, request_id, body_snippet })
                &&& nanos_of(retry_after) == retry_after_of(fields, reading)
                &&& text_of(request_id) == Some(envelope.request_id)
                &&& text_of(body_snippet) == snippet
            } else if envelope.code != 0 {
                &&& r matches Err(Error::Api { error })
                &&& number_of(error.status) == Some(status)
                &&& error.code == Some(envelope.code)
                &&& text_of(error.message) == Some(envelope.message)
                &&& text_of(error.request_id) == Some(envelope.request_id)
                &&& text_of(error.body_snippet) == snippet
            } else if !(200 <= status <= 299) {
                &&& r matches Err(Error::Http { status: s, request_id, body_snippet })
                &&& s@ == status
                &&& text_of(request_id) == Some(envelope.request_id)
                &&& text_of(body_snippet) == snippet
            } else {
                &&& r matches Ok(response)
                &&& response.status@ == status
                &&& envelope_model(response.envelope) == envelope
            },
        }
    }
}

/// Whether `r` is what the response stands for: the classification of its status,
/// headers and body, with the body read as JSON, at the given reading of the clock.
pub open spec fn is_classification(
    status: u16,
    fields: Map<Seq<char>, Seq<u8>>,
    body: Seq<u8>,
    config: BodySnippetConfig,
    reading: ClockReading,
    r: Result<AqaraValueResponse, Error>,
) -> bool {
    is_classification_of(status, fields, json_parse(body), body, config, reading, r)
}

/// Reads a response of which `parsed` is the reading of the body as JSON, at the given
/// reading of the clock: the envelope of a successful call, or the error that the
/// response stands for.
pub fn classify_parsed(
    status: StatusCode,
    headers: &HeaderMap,
    parsed: Option<Json>,
    body: &[u8],
    config: BodySnippetConfig,
    reading: ClockReading,
) -> (r: Result<AqaraValueResponse, Error>)
    ensures
        is_classification_of(
            status@,
            header_fields(*headers),
            model_of(parsed),
            body@,
            config,
            reading,
            r,
        ),
{
    let request_id = request_id_from(headers, &parsed);
    let envelope = match &parsed {
        Some(j) => decode_envelope(j),
        None => None,
    };
    let snippet = if config.enabled {
        Some(snippet_from_parsed(parsed, body, config.max_len))
    } else {
        None
    };
    if status.as_u16() == 429 {
        return Err(
            Error::RateLimited {
                retry_after: retry_after_at(headers, reading),
                request_id,
                body_snippet: snippet,
            },
        );
    }
    let envelope = match envelope {
        Some(e) => e,
        None => {
            if status.is_success() {
                return Err(
                    Error::Decode {
                        message: "failed to decode response body".to_owned(),
                        status: Some(status),
                        request_id,
                        body_snippet: snippet,
                    },
                );
            }
            return Err(Error::Http { status: status, request_id, body_snippet: snippet });
        },
    };
    let request_id = Some(envelope.request_id.clone());
    if envelope.code == 429 {
        return Err(
            Error::RateLimited {
                retry_after: retry_after_at(headers, reading),
                request_id,
                body_snippet: snippet,
            },
        );
    }
    if envelope.code != 0 {
        return Err(
            Error::Api {
                error: ApiError {
                    status: Some(status),
                    code: Some(envelope.code),
                    message: Some(envelope.message.clone()),
                    request_id,
                    body_snippet: snippet,
                },
            },
        );
    }
    if !status.is_success() {
        return Err(Error::Http { status: status, request_id, body_snippet: snippet });
    }
    Ok(AqaraResponse { status: status, envelope })
}

/// Reads a response at the given reading of the clock: the envelope of a successful
/// call, or the error that the response stands for.
pub fn classify(resp: TransportResponse, config: BodySnippetConfig, reading: ClockReading) -> (r:
    Result<AqaraValueResponse, Error>)
    ensures
        is_classification(resp.status@, header_fields(resp.headers), resp.body@, config, reading, r),
{
    let parsed = parse_json(resp.body.as_slice());
    classify_parsed(resp.status, &resp.headers, parsed, resp.body.as_slice(), config, reading)
}

/// Reads a response: the envelope of a successful call, or the error that the
/// response stands for.
///
/// A rate limit given as a date is measured against the clock: the result is the
/// classification at some reading of it.
pub fn parse_response(resp: TransportResponse, config: BodySnippetConfig) -> (r: Result<
    AqaraValueResponse,
    Error,
>)
    ensures
        exists|reading: ClockReading| #[trigger]
            is_classification(
                resp.status@,
                header_fields(resp.headers),
                resp.body@,
                config,
                reading,
                r,
            ),
{
    let reading = read_clock();
    classify(resp, config, reading)
}

/// A body that is not JSON, under a success status other than 429, is a decode error
/// that carries the status.
pub proof fn lemma_undecodable_success_is_decode_error(
    status: u16,
    fields: Map<Seq<char>, Seq<u8>>,
    body: Seq<u8>,
    config: BodySnippetConfig,
    reading: ClockReading,
    r: Result<AqaraValueResponse, Error>,
)
    requires
        200 <= status <= 299,
        json_parse(body) is None,
        is_classification(status, fields, body, config, reading, r),
    ensures
        r matches Err(e) && e is Decode && e.status_spec() == Some(status),
{
}

/// With snippets disabled an error carries no snippet at all; with snippets enabled
/// the error for a response carries one of at most the configured length.
pub proof fn lemma_snippet_only_when_enabled(
    status: u16,
    fields: Map<Seq<char>, Seq<u8>>,
    body: Seq<u8>,
    config: BodySnippetConfig,
    reading: ClockReading,
    r: Result<AqaraValueResponse, Error>,
)
    requires
        is_classification(status, fields, body, config, reading, r),
        r is Err,
    ensures
        !config.enabled ==> r->Err_0.body_snippet_spec() is None,
        config.enabled ==> r->Err_0.body_snippet_spec() == Some(
            truncated(snippet_source(json_parse(body), body), config.max_len as nat),
        ),
        config.enabled ==> encode_utf8(r->Err_0.body_snippet_spec()->0).len() <= config.max_len,
{
    crate::util::text::lemma_truncated_fits(
        snippet_source(json_parse(body), body),
        config.max_len as nat,
    );
}

/// The response with its result read as the caller's type, where `decoded` is what
/// reading the result came to: `None` where it could not be read, else the result as
/// read. A result that could not be read is a decode error that carries the status,
/// the request id of the envelope and `snippet`.
pub fn typed_response<T>(
    resp: AqaraValueResponse,
    decoded: Option<Option<T>>,
    snippet: Option<String>,
) -> (r: Result<AqaraResponse<T>, Error>)
    ensures
        decoded is None ==> (r matches Err(
            Error::Decode { message, status, request_id, body_snippet },
        ) && message@ == "failed to decode response result"@ && number_of(status) == Some(
            resp.status@,
        ) && text_of(request_id) == Some(resp.envelope.request_id@) && text_of(body_snippet)
            == text_of(snippet)),
        decoded matches Some(v) ==> (r matches Ok(out) && out.status == resp.status
            && out.envelope.code == resp.envelope.code && out.envelope.request_id
            == resp.envelope.request_id && out.envelope.message == resp.envelope.message
            && out.envelope.result == v),
{
    let status = resp.status;
    let envelope = resp.envelope;
    match decoded {
        None => Err(
            Error::Decode {
                message: "failed to decode response result".to_owned(),
                status: Some(status),
                request_id: Some(envelope.request_id),
                body_snippet: snippet,
            },
        ),
        Some(result) => Ok(
            AqaraResponse {
                status,
                envelope: AqaraEnvelope {
                    code: envelope.code,
                    request_id: envelope.request_id,
                    message: envelope.message,
                    result,
                },
            },
        ),
    }
}

} // verus!
