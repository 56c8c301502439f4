//! Request signing: the nonce, the time stamp and the signature of one attempt.

use rand::distr::Alphanumeric;
use rand::Rng;
use vstd::prelude::*;
use vstd::string::StringExecFns;
use vstd::utf8::encode_utf8;
use crate::error::Error;
use crate::types::{secret_of_ref, Credentials, CredentialsView, SecretString};
use crate::util::time::{
    clock_error_message, read_clock, timestamp_millis, timestamp_of, ClockReading,
};

verus! {

/// The three values that sign one attempt.
#[derive(Debug)]
pub struct SignatureParts {
    /// The nonce of the attempt.
    pub nonce: String,
    /// The time of the attempt, in milliseconds since 1970, in decimal.
    pub time_millis: String,
    /// The signature over the credentials, the token, the nonce and the time.
    pub sign: String,
}

/// Whether `c` is an ASCII letter or digit.
pub open spec fn is_alphanumeric(c: char) -> bool {
    ('a' <= c && c <= 'z') || ('A' <= c && c <= 'Z') || ('0' <= c && c <= '9')
}

/// The shape of a nonce: 30 ASCII letters and digits.
pub open spec fn is_nonce(s: Seq<char>) -> bool {
    s.len() == 30 && forall|i: int| 0 <= i < s.len() ==> is_alphanumeric(#[trigger] s[i])
}

/// `rand`: `len` samples of `Alphanumeric`, each an ASCII letter or digit, drawn from
/// the generator of the thread with `Rng::sample_iter`. Which ones come is chance.
/// The generator is seeded from the operating system on first use and panics where
/// that source fails.
#[verifier::external_body]
fn random_alphanumeric(len: usize) -> (r: String)
    ensures
        r@.len() == len,
        forall|i: int| 0 <= i < r@.len() ==> is_alphanumeric(#[trigger] r@[i]),
{
    rand::rng().sample_iter(&Alphanumeric).take(len).map(char::from).collect()
}

/// A fresh nonce for one attempt.
pub fn generate_nonce() -> (r: String)
    ensures
        is_nonce(r@),
{
    random_alphanumeric(30)
}

/// The lower-case form of `s` after Unicode, as `str::to_lowercase` gives it.
pub uninterp spec fn unicode_lower(s: Seq<char>) -> Seq<char>;

/// `str::to_lowercase` gives the lower-case equivalent of a string; it depends on the
/// string alone.
pub assume_specification[ str::to_lowercase ](s: &str) -> (r: String)
    ensures
        r@ == unicode_lower(s@),
;

/// The MD5 digest of `data`, as `md5::compute` gives it.
pub uninterp spec fn md5_digest(data: Seq<u8>) -> Seq<u8>;

/// `md5::compute`: the 16 bytes of the MD5 digest of `data`; they depend on the data
/// alone.
#[verifier::external_body]
fn md5_of(data: &[u8]) -> (r: [u8; 16])
    ensures
        r@ == md5_digest(data@),
{
    md5::compute(data).0
}

/// The lower-case hexadecimal digit for `n < 16`.
pub open spec fn hex_digit(n: u8) -> char {
    if n < 10 {
        ((48 + n) as u8) as char
    } else {
        ((87 + n) as u8) as char
    }
}

/// `bytes` in lower-case hexadecimal, two digits for each byte.
pub open spec fn hex_lower(bytes: Seq<u8>) -> Seq<char>
    decreases bytes.len(),
{
    if bytes.len() == 0 {
        Seq::empty()
    } else {
        hex_lower(bytes.drop_last()).push(hex_digit(bytes.last() / 16)).push(
            hex_digit(bytes.last() % 16),
        )
    }
}

/// Whether `c` is one of `0` to `9` and `a` to `f`.
pub open spec fn is_lower_hex(c: char) -> bool {
    ('0' <= c && c <= '9') || ('a' <= c && c <= 'f')
}

/// Hexadecimal text has two digits for each byte, each of them lower-case.
pub proof fn lemma_hex_lower_shape(bytes: Seq<u8>)
    ensures
        hex_lower(bytes).len() == 2 * bytes.len(),
        forall|i: int| 0 <= i < hex_lower(bytes).len() ==> is_lower_hex(#[trigger] hex_lower(bytes)[i]),
    decreases bytes.len(),
{
    if bytes.len() > 0 {
        lemma_hex_lower_shape(bytes.drop_last());
    }
}

fn hex_char(n: u8) -> (r: char)
    requires
        n < 16,
    ensures
        r == hex_digit(n),
{
    if n < 10 {
        (48 + n) as char
    } else {
        (87 + n) as char
    }
}

/// `bytes` as lower-case hexadecimal text.
pub fn to_hex_lower(bytes: &[u8]) -> (r: String)
    ensures
        r@ == hex_lower(bytes@),
{
    let mut r = String::new();
    let mut i: usize = 0;
    while i < bytes.len()
        invariant
            i <= bytes.len(),
            r@ == hex_lower(bytes@.take(i as int)),
        decreases bytes.len() - i,
    {
        let b: u8 = bytes[i];
        proof {
            assert(bytes@.take(i + 1).drop_last() == bytes@.take(i as int));
        }
        r.push(hex_char(b / 16));
        r.push(hex_char(b % 16));
        i += 1;
    }
    assert(bytes@.take(bytes.len() as int) == bytes@);
    r
}

/// The access token that takes part in signing: the one given, where the call
/// includes it and it is not empty.
pub open spec fn signing_token(token: Option<Seq<char>>, include_access_token: bool) -> Option<
    Seq<char>,
> {
    match token {
        Some(t) => if include_access_token && t.len() > 0 {
            Some(t)
        } else {
            None
        },
        None => None,
    }
}

/// The text that is signed: the fields in their fixed order, each as `Key=Value`,
/// joined with `&`, then the app key with nothing before it.
pub open spec fn signing_text(
    credentials: CredentialsView,
    token: Option<Seq<char>>,
    include_access_token: bool,
    nonce: Seq<char>,
    time: Seq<char>,
) -> Seq<char> {
    let head = match signing_token(token, include_access_token) {
        Some(t) => "Accesstoken="@ + t + "&"@,
        None => Seq::<char>::empty(),
    };
    head + "Appid="@ + credentials.app_id + "&Keyid="@ + credentials.key_id + "&Nonce="@ + nonce
        + "&Time="@ + time + credentials.app_key
}

/// The signature: the MD5 digest, in lower-case hexadecimal, of the UTF-8 bytes of the
/// signing text in lower case.
pub open spec fn signature_of(
    credentials: CredentialsView,
    token: Option<Seq<char>>,
    include_access_token: bool,
    nonce: Seq<char>,
    time: Seq<char>,
) -> Seq<char> {
    hex_lower(
        md5_digest(
            encode_utf8(
                unicode_lower(signing_text(credentials, token, include_access_token, nonce, time)),
            ),
        ),
    )
}

/// The signature of one attempt. It is 32 lower-case hexadecimal digits.
pub fn generate_signature(
    credentials: &Credentials,
    access_token: Option<&SecretString>,
    nonce: &str,
    time: &str,
    include_access_token: bool,
) -> (r: String)
    ensures
        r@ == signature_of(
            credentials@,
            secret_of_ref(access_token),
            include_access_token,
            nonce@,
            time@,
        ),
        r@.len() == 32,
        forall|i: int| 0 <= i < r@.len() ==> is_lower_hex(#[trigger] r@[i]),
{
    let mut sign_str = String::new();
    if include_access_token {
        if let Some(token) = access_token {
            if !token.expose().is_empty() {
                sign_str.append("Accesstoken=");
                sign_str.append(token.expose());
                sign_str.append("&");
            }
        }
    }
    sign_str.append("Appid=");
    sign_str.append(credentials.app_id());
    sign_str.append("&Keyid=");
    sign_str.append(credentials.key_id());
    sign_str.append("&Nonce=");
    sign_str.append(nonce);
    sign_str.append("&Time=");
    sign_str.append(time);
    sign_str.append(credentials.app_key().expose());
    let lowered = sign_str.as_str().to_lowercase();
    let digest = md5_of(lowered.as_str().as_bytes());
    proof {
        lemma_hex_lower_shape(digest@);
    }
    to_hex_lower(digest.as_slice())
}

/// What signing comes to for a nonce and a reading of the clock: the time stamp must be
/// had first, then the access token where the call includes one.
pub open spec fn signing_outcome(
    credentials: CredentialsView,
    token: Option<Seq<char>>,
    include_access_token: bool,
    nonce: Seq<char>,
    reading: ClockReading,
    r: Result<SignatureParts, Error>,
) -> bool {
    match timestamp_of(reading) {
        None => r matches Err(Error::Transport { message }) && message@ == clock_error_message(),
        Some(time) => if include_access_token && token is None {
            r matches Err(Error::InvalidConfig { message }) && message@
                == "access token is required for this operation"@
        } else {
            r matches Ok(parts) && parts.nonce@ == nonce && parts.time_millis@ == time && parts.sign@
                == signature_of(credentials, token, include_access_token, nonce, time)
        },
    }
}

/// Signs one attempt with the nonce and the reading of the clock that it is given.
pub fn sign_with(
    credentials: &Credentials,
    access_token: Option<&SecretString>,
    include_access_token: bool,
    nonce: String,
    reading: ClockReading,
) -> (r: Result<SignatureParts, Error>)
    ensures
        signing_outcome(
            credentials@,
            secret_of_ref(access_token),
            include_access_token,
            nonce@,
            reading,
            r,
        ),
{
    let time_millis = match timestamp_millis(reading) {
        Ok(t) => t,
        Err(e) => {
            return Err(e);
        },
    };
    if include_access_token && access_token.is_none() {
        return Err(
            Error::InvalidConfig { message: "access token is required for this operation".to_owned() },
        );
    }
    let sign = generate_signature(
        credentials,
        access_token,
        nonce.as_str(),
        time_millis.as_str(),
        include_access_token,
    );
    Ok(SignatureParts { nonce, time_millis, sign })
}

/// Signs one attempt: a fresh nonce, the current time, and the signature over both.
///
/// Chance picks the nonce and the clock gives the time: the result is what
/// `signing_outcome` describes for some nonce of the right shape and some reading of
/// the clock. A call that includes the access token never succeeds without one.
pub fn sign_headers(
    credentials: &Credentials,
    access_token: Option<&SecretString>,
    include_access_token: bool,
) -> (r: Result<SignatureParts, Error>)
    ensures
        exists|nonce: Seq<char>, reading: ClockReading|
            is_nonce(nonce) && #[trigger] signing_outcome(
                credentials@,
                secret_of_ref(access_token),
                include_access_token,
                nonce,
                reading,
                r,
            ),
        include_access_token && access_token is None ==> r is Err,
{
    let nonce = generate_nonce();
    let reading = read_clock();
    sign_with(credentials, access_token, include_access_token, nonce, reading)
}

/// The signature is a function of the credentials, the token, the flag, the nonce and
/// the time: the same inputs give the same signature.
pub proof fn lemma_signature_deterministic(
    credentials: CredentialsView,
    other_credentials: CredentialsView,
    token: Option<Seq<char>>,
    other_token: Option<Seq<char>>,
    include_access_token: bool,
    nonce: Seq<char>,
    other_nonce: Seq<char>,
    time: Seq<char>,
    other_time: Seq<char>,
)
    requires
        credentials.app_id == other_credentials.app_id,
        credentials.key_id == other_credentials.key_id,
        credentials.app_key == other_credentials.app_key,
        token == other_token,
        nonce == other_nonce,
        time == other_time,
    ensures
        signature_of(credentials, token, include_access_token, nonce, time) == signature_of(
            other_credentials,
            other_token,
            include_access_token,
            other_nonce,
            other_time,
        ),
{
    assert(signing_text(credentials, token, include_access_token, nonce, time) =~= signing_text(
        other_credentials,
        other_token,
        include_access_token,
        other_nonce,
        other_time,
    ));
}

/// A call that does not include the access token signs the same text, and so gets the
/// same signature, whatever token the client holds.
pub proof fn lemma_token_left_out(
    credentials: CredentialsView,
    token: Option<Seq<char>>,
    nonce: Seq<char>,
    time: Seq<char>,
)
    ensures
        signing_text(credentials, token, false, nonce, time) == signing_text(
            credentials,
            None,
            false,
            nonce,
            time,
        ),
        signature_of(credentials, token, false, nonce, time) == signature_of(
            credentials,
            None,
            false,
            nonce,
            time,
        ),
{
}

/// A call that includes a token that is not empty signs a text other than the one
/// that is signed without the token: the text with the token is the longer one.
pub proof fn lemma_token_changes_signing_text(
    credentials: CredentialsView,
    token: Seq<char>,
    nonce: Seq<char>,
    time: Seq<char>,
)
    requires
        token.len() > 0,
    ensures
        signing_text(credentials, Some(token), true, nonce, time) != signing_text(
            credentials,
            Some(token),
            false,
            nonce,
            time,
        ),
        signing_text(credentials, Some(token), true, nonce, time).len() > signing_text(
            credentials,
            Some(token),
            false,
            nonce,
            time,
        ).len(),
{
}

} // verus!
