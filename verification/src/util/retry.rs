//! The delay before a retry: exponential backoff with full jitter, or what the server
//! asks for in `Retry-After`.

use rand::Rng;
use vstd::prelude::*;
use crate::transport::headers::{
    ascii_text, header_fields, header_text, is_header_name, is_visible_text, HeaderText,
};
use crate::types::RetryConfig;
use crate::util::text::{chars_of, parse_u64, parse_u64_spec, string_of, trim, trimmed};
use crate::util::time::{read_clock, ClockReading, Duration};

verus! {

/// Two to the power `e`.
pub open spec fn two_to(e: nat) -> nat
    decreases e,
{
    if e == 0 {
        1
    } else {
        2 * two_to((e - 1) as nat)
    }
}

/// The whole milliseconds of `d`, at most `u64::MAX`.
pub open spec fn millis_of(d: Duration) -> nat {
    if d.millis() <= u64::MAX {
        d.millis()
    } else {
        u64::MAX as nat
    }
}

/// The exponent of the backoff before retry number `attempt`: one less than the
/// attempt, and at most 30.
pub open spec fn backoff_exponent(attempt: u32) -> nat {
    if attempt <= 1 {
        0
    } else if attempt - 1 <= 30 {
        (attempt - 1) as nat
    } else {
        30
    }
}

/// The longest delay, in milliseconds, that may precede the retry after attempt
/// `attempt`: the base delay doubled for every earlier attempt, at most the maximal
/// delay (and at most `u64::MAX`).
pub open spec fn backoff_cap(attempt: u32, retry: RetryConfig) -> nat {
    let grown = millis_of(retry.base_delay) * two_to(backoff_exponent(attempt));
    let bounded = if grown <= u64::MAX {
        grown
    } else {
        u64::MAX as nat
    };
    if bounded <= millis_of(retry.max_delay) {
        bounded
    } else {
        millis_of(retry.max_delay)
    }
}

/// The backoff never exceeds the maximal delay, whatever the attempt.
pub proof fn lemma_backoff_cap_within_max_delay(attempt: u32, retry: RetryConfig)
    ensures
        backoff_cap(attempt, retry) <= millis_of(retry.max_delay),
        backoff_cap(attempt, retry) <= retry.max_delay.millis(),
        backoff_cap(attempt, retry) * 1_000_000 <= retry.max_delay.total_nanos(),
{
    let cap = backoff_cap(attempt, retry);
    let max = retry.max_delay;
    assert(max.millis() * 1_000_000 <= max.total_nanos()) by {
        let sub = max.subsec();
        assert((max.secs() * 1000 + sub / 1_000_000) * 1_000_000 == max.secs() * 1_000_000_000 + (sub
            / 1_000_000) * 1_000_000) by (nonlinear_arith);
    }
    assert(cap * 1_000_000 <= max.millis() * 1_000_000) by (nonlinear_arith)
        requires
            cap <= max.millis(),
    ;
}

proof fn lemma_two_to_bound(e: nat)
    requires
        e <= 30,
    ensures
        1 <= two_to(e) <= 0x4000_0000,
    decreases 30 - e,
{
    reveal_with_fuel(two_to, 31);
}

fn duration_to_millis(d: Duration) -> (r: u64)
    ensures
        r == millis_of(d),
{
    let ms: u128 = d.as_millis();
    if ms <= 0xffff_ffff_ffff_ffff {
        ms as u64
    } else {
        0xffff_ffff_ffff_ffff
    }
}

fn power_of_two(e: u32) -> (r: u64)
    requires
        e <= 30,
    ensures
        r == two_to(e as nat),
{
    let mut r: u64 = 1;
    let mut i: u32 = 0;
    while i < e
        invariant
            i <= e <= 30,
            r == two_to(i as nat),
        decreases e - i,
    {
        proof {
            lemma_two_to_bound(i as nat);
        }
        r = r * 2;
        i += 1;
    }
    r
}

/// The longest delay, in milliseconds, before the retry after attempt `attempt`.
pub fn backoff_cap_millis(attempt: u32, retry: RetryConfig) -> (r: u64)
    ensures
        r == backoff_cap(attempt, retry),
{
    let base_ms: u64 = duration_to_millis(retry.base_delay);
    let exp: u32 = if attempt <= 1 {
        0
    } else if attempt - 1 <= 30 {
        attempt - 1
    } else {
        30
    };
    let factor: u64 = power_of_two(exp);
    let exp_ms: u64 = match base_ms.checked_mul(factor) {
        Some(x) => x,
        None => 0xffff_ffff_ffff_ffff,
    };
    let max_ms: u64 = duration_to_millis(retry.max_delay);
    if exp_ms <= max_ms {
        exp_ms
    } else {
        max_ms
    }
}

/// `rand`: `Rng::random_range` over `0..=cap` on the generator of the thread gives a
/// number of that range; which one is chance. The range is never empty. The generator
/// is seeded from the operating system on first use and panics where that source fails.
#[verifier::external_body]
fn random_up_to(cap: u64) -> (r: u64)
    ensures
        r <= cap,
{
    rand::rng().random_range(0..=cap)
}

/// The delay before the retry after attempt `attempt`: a number of milliseconds drawn
/// from zero to the backoff cap. It never exceeds the maximal delay.
pub fn compute_backoff_with_jitter(attempt: u32, retry: RetryConfig) -> (r: Duration)
    ensures
        r.total_nanos() % 1_000_000 == 0,
        r.millis() <= backoff_cap(attempt, retry),
        r.total_nanos() <= retry.max_delay.total_nanos(),
{
    let capped: u64 = backoff_cap_millis(attempt, retry);
    if capped == 0 {
        return Duration::from_millis(0);
    }
    let jitter_ms: u64 = random_up_to(capped);
    let r = Duration::from_millis(jitter_ms);
    proof {
        lemma_backoff_cap_within_max_delay(attempt, retry);
        lemma_whole_millis(r, jitter_ms);
        assert(jitter_ms * 1_000_000 <= capped * 1_000_000) by (nonlinear_arith)
            requires
                jitter_ms <= capped,
        ;
    }
    r
}

proof fn lemma_whole_millis(d: Duration, ms: u64)
    requires
        d.secs() == ms / 1000,
        d.subsec() == (ms % 1000) * 1_000_000,
    ensures
        d.total_nanos() == ms * 1_000_000,
        d.total_nanos() % 1_000_000 == 0,
{
}

/// The seconds from the start of 1970 to the date that `httpdate::parse_http_date`
/// reads from `text`, or `None` where it reads none.
pub uninterp spec fn http_date_seconds(text: Seq<char>) -> Option<u64>;

/// `httpdate::parse_http_date`: the date that `text` spells in one of the three HTTP
/// date formats, as whole seconds since the start of 1970 (its dates never lie before
/// that), or `None` where the text is no such date. The result depends on the text
/// alone.
#[verifier::external_body]
fn parse_http_date(text: &str) -> (r: Option<u64>)
    ensures
        r == http_date_seconds(text@),
{
    match httpdate::parse_http_date(text) {
        Ok(at) => at.duration_since(std::time::UNIX_EPOCH).ok().map(|d| d.as_secs()),
        Err(_) => None,
    }
}

/// The nanoseconds from a reading of the clock to the point `at` seconds after the
/// start of 1970; zero where the clock is past it.
pub open spec fn remaining_nanos(at: u64, reading: ClockReading) -> nat {
    match reading {
        ClockReading::Since(now) => if at * 1_000_000_000 >= now.total_nanos() {
            (at * 1_000_000_000 - now.total_nanos()) as nat
        } else {
            0
        },
        ClockReading::Before(gap) => {
            let secs: nat = if at + gap.secs() <= u64::MAX {
                (at + gap.secs()) as nat
            } else {
                u64::MAX as nat
            };
            secs * 1_000_000_000 + gap.subsec()
        },
    }
}

/// The delay, in nanoseconds, that the value of a `Retry-After` header asks for: a
/// number of seconds, or an HTTP date, from which the time to wait is taken at the
/// given reading of the clock. `None` where the value is neither.
pub open spec fn retry_after_nanos(value: Seq<char>, reading: ClockReading) -> Option<nat> {
    let v = trimmed(value);
    match parse_u64_spec(v) {
        Some(secs) => Some((secs * 1_000_000_000) as nat),
        None => match http_date_seconds(v) {
            Some(at) => Some(remaining_nanos(at, reading)),
            None => None,
        },
    }
}

/// The delay, in nanoseconds, that the headers ask for in `Retry-After`, if they do.
pub open spec fn retry_after_of(fields: Map<Seq<char>, Seq<u8>>, reading: ClockReading) -> Option<
    nat,
> {
    if fields.contains_key("retry-after"@) && is_visible_text(fields["retry-after"@]) {
        retry_after_nanos(ascii_text(fields["retry-after"@]), reading)
    } else {
        None
    }
}

/// The length of an optional span, in nanoseconds.
pub open spec fn nanos_of(d: Option<Duration>) -> Option<nat> {
    match d {
        Some(d) => Some(d.total_nanos()),
        None => None,
    }
}

fn remaining_until(at: u64, reading: ClockReading) -> (r: Duration)
    ensures
        r.total_nanos() == remaining_nanos(at, reading),
{
    match reading {
        ClockReading::Since(now) => Duration::from_secs(at).saturating_sub(&now),
        ClockReading::Before(gap) => gap.saturating_add_secs(at),
    }
}

/// The delay that the value of a `Retry-After` header asks for, at the given reading
/// of the clock.
pub fn retry_after_value(value: &str, reading: ClockReading) -> (r: Option<Duration>)
    ensures
        nanos_of(r) == retry_after_nanos(value@, reading),
{
    let raw = chars_of(value);
    let cut = trim(&raw);
    if let Some(seconds) = parse_u64(&cut) {
        return Some(Duration::from_secs(seconds));
    }
    let text = string_of(&cut);
    match parse_http_date(text.as_str()) {
        Some(at) => Some(remaining_until(at, reading)),
        None => None,
    }
}

/// The delay that the headers ask for in `Retry-After`, at the given reading of the
/// clock.
pub fn retry_after_at(headers: &http::HeaderMap, reading: ClockReading) -> (r: Option<Duration>)
    ensures
        nanos_of(r) == retry_after_of(header_fields(*headers), reading),
{
    proof {
        lemma_retry_after_name();
    }
    match header_text(headers, "retry-after") {
        HeaderText::Text(value) => retry_after_value(value.as_str(), reading),
        _ => None,
    }
}

/// The delay that the headers ask for in `Retry-After`, if they do.
///
/// For a delay given as a date the clock is read: the result is what the headers ask
/// for at some reading of it.
pub fn parse_retry_after(headers: &http::HeaderMap) -> (r: Option<Duration>)
    ensures
        exists|reading: ClockReading| nanos_of(r) == #[trigger] retry_after_of(
            header_fields(*headers),
            reading,
        ),
{
    let reading = read_clock();
    retry_after_at(headers, reading)
}

proof fn lemma_retry_after_name()
    ensures
        is_header_name("retry-after"@),
{
    reveal_strlit("retry-after");
}

} // verus!
