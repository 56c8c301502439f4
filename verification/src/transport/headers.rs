//! Header maps of the `http` crate, as far as requests are built and responses read.

use http::HeaderMap;
use vstd::prelude::*;
use vstd::utf8::encode_utf8;
use crate::util::text::{ascii_lower, lemma_ascii_encoding};

verus! {

/// The header map of the `http` crate.
#[verifier::external_type_specification]
#[verifier::external_body]
#[verifier::reject_recursive_types(T)]
pub struct ExHeaderMap<T>(http::HeaderMap<T>);

/// The header value of the `http` crate.
#[verifier::external_type_specification]
#[verifier::external_body]
pub struct ExHeaderValue(http::HeaderValue);

/// What a header map holds, as far as `get` shows it: for each name that is present,
/// in lower case, the bytes of its first value.
pub uninterp spec fn header_fields(headers: HeaderMap) -> Map<Seq<char>, Seq<u8>>;

/// The number of names that a header map holds, as `keys_len` gives it.
pub uninterp spec fn header_names(headers: HeaderMap) -> nat;

/// The least number of names that a map holds when `try_insert` refuses: the map
/// refuses only where it would have to grow beyond 32768 slots, and it grows only when
/// at least a fifth of its slots is taken.
pub open spec fn refusing_names() -> nat {
    6554
}

/// The fields of a map without headers.
pub open spec fn no_fields() -> Map<Seq<char>, Seq<u8>> {
    Map::empty()
}

/// Whether `c` may stand in a header name in lower case: a small letter, a digit, or
/// one of the signs that HTTP allows in a name.
pub open spec fn is_name_char(c: char) -> bool {
    ||| 'a' <= c && c <= 'z'
    ||| '0' <= c && c <= '9'
    ||| c == '!'
    ||| c == '#'
    ||| c == '$'
    ||| c == '%'
    ||| c == '&'
    ||| c == '\''
    ||| c == '*'
    ||| c == '+'
    ||| c == '-'
    ||| c == '.'
    ||| c == '^'
    ||| c == '_'
    ||| c == '`'
    ||| c == '|'
    ||| c == '~'
}

/// Whether `name` is a header name in lower case: not empty, of at most 65535
/// characters, each of which may stand in a name. `HeaderName::from_static` takes such
/// a name, and a lookup by text finds the header of exactly this name.
pub open spec fn is_header_name(name: Seq<char>) -> bool {
    0 < name.len() <= 65535 && forall|i: int|
        0 <= i < name.len() ==> is_name_char(#[trigger] name[i])
}

/// Whether `HeaderName::from_bytes` takes `name`: it is not empty, has at most 65535
/// characters, and each is one that may stand in a name, or an ASCII capital letter.
pub open spec fn valid_header_name(name: Seq<char>) -> bool {
    0 < name.len() <= 65535 && forall|i: int|
        0 <= i < name.len() ==> is_name_char(#[trigger] name[i]) || ('A' <= name[i] && name[i]
            <= 'Z')
}

/// Whether `b` may stand in a header value: not a control character, but for the tab.
pub open spec fn is_value_byte(b: u8) -> bool {
    (b >= 32 && b != 127) || b == 9
}

/// Whether `b` is a visible ASCII character, a space or a tab.
pub open spec fn is_visible_byte(b: u8) -> bool {
    (32 <= b && b < 127) || b == 9
}

/// Whether `HeaderValue::from_str` accepts `value`: each of its bytes may stand in a
/// header value.
pub open spec fn valid_header_value(value: Seq<char>) -> bool {
    forall|i: int| 0 <= i < encode_utf8(value).len() ==> is_value_byte(#[trigger] encode_utf8(value)[i])
}

/// Text of visible ASCII characters and spaces may stand in a header value.
pub proof fn lemma_visible_ascii_is_valid(value: Seq<char>)
    requires
        forall|i: int| 0 <= i < value.len() ==> 32 <= (#[trigger] value[i] as u32) < 127,
    ensures
        valid_header_value(value),
{
    lemma_ascii_encoding(value);
    assert forall|i: int| 0 <= i < encode_utf8(value).len() implies is_value_byte(
        #[trigger] encode_utf8(value)[i],
    ) by {
        assert(encode_utf8(value)[i] as u32 == value[i] as u32);
    }
}

/// Whether `HeaderValue::to_str` reads `bytes` as text: each of them is visible ASCII,
/// a space or a tab.
pub open spec fn is_visible_text(bytes: Seq<u8>) -> bool {
    forall|i: int| 0 <= i < bytes.len() ==> is_visible_byte(#[trigger] bytes[i])
}

/// ASCII bytes as characters.
pub open spec fn ascii_text(bytes: Seq<u8>) -> Seq<char> {
    Seq::new(bytes.len(), |i: int| bytes[i] as char)
}

/// What reading one header as text comes to.
pub enum HeaderText {
    /// The map has no such header.
    Absent,
    /// The first value of the header is not visible ASCII.
    Unreadable,
    /// The first value of the header, as text.
    Text(String),
}

/// What the attempt to set a header came to.
pub enum PutOutcome {
    /// The header now has this one value.
    Stored,
    /// The value may not stand in a header: the map is as it was.
    InvalidValue,
    /// The map refused to grow: it is as it was.
    Full,
}

/// What the attempt to set a header of a name that is given as text came to.
pub enum NamedPutOutcome {
    /// The header now has this one value.
    Stored,
    /// The name is no header name: the map is as it was.
    InvalidName,
    /// The value may not stand in a header: the map is as it was.
    InvalidValue,
    /// The map refused to grow: it is as it was.
    Full,
}

/// `HeaderMap::new`: a map without headers.
#[verifier::external_body]
pub(crate) fn new_headers() -> (r: HeaderMap)
    ensures
        header_fields(r) == no_fields(),
        header_names(r) == 0,
{
    HeaderMap::new()
}

/// `HeaderMap::clone`: the same map once more, with the same headers.
pub assume_specification<T: Clone>[ <HeaderMap<T> as Clone>::clone ](headers: &HeaderMap<T>) -> (r:
    HeaderMap<T>)
    ensures
        r == *headers,
;

/// `HeaderMap::get` with `HeaderValue::to_str`: the first value of the header `name`,
/// where the map has that header, read as text where each of its bytes is visible
/// ASCII, a space or a tab.
#[verifier::external_body]
pub(crate) fn header_text(headers: &HeaderMap, name: &str) -> (r: HeaderText)
    requires
        is_header_name(name@),
    ensures
        match r {
            HeaderText::Absent => !header_fields(*headers).contains_key(name@),
            HeaderText::Unreadable => header_fields(*headers).contains_key(name@)
                && !is_visible_text(header_fields(*headers)[name@]),
            HeaderText::Text(s) => header_fields(*headers).contains_key(name@) && is_visible_text(
                header_fields(*headers)[name@],
            ) && s@ == ascii_text(header_fields(*headers)[name@]),
        },
{
    match headers.get(name) {
        None => HeaderText::Absent,
        Some(value) => match value.to_str() {
            Ok(s) => HeaderText::Text(s.to_owned()),
            Err(_) => HeaderText::Unreadable,
        },
    }
}

/// `HeaderValue::from_str`, then `HeaderMap::try_insert` under
/// `HeaderName::from_static(name)`. `from_str` refuses a value with a byte that may
/// not stand in a header value. `try_insert` gives the header this one value in place
/// of all it had, or refuses, where the map would have to grow beyond its limit, and
/// leaves the map as it was. It refuses no map that holds fewer than 6554 names, and
/// adds at most one name.
#[verifier::external_body]
pub(crate) fn put_header(headers: &mut HeaderMap, name: &'static str, value: &str) -> (r: PutOutcome)
    requires
        is_header_name(name@),
    ensures
        r is InvalidValue <==> !valid_header_value(value@),
        r is Stored ==> header_fields(*final(headers)) == header_fields(*old(headers)).insert(
            name@,
            encode_utf8(value@),
        ),
        !(r is Stored) ==> header_fields(*final(headers)) == header_fields(*old(headers)),
        r is Full ==> header_names(*old(headers)) >= refusing_names(),
        r is Stored ==> header_names(*final(headers)) <= header_names(*old(headers)) + 1,
        !(r is Stored) ==> header_names(*final(headers)) == header_names(*old(headers)),
{
    match http::HeaderValue::from_str(value) {
        Err(_) => PutOutcome::InvalidValue,
        Ok(v) => match headers.try_insert(http::HeaderName::from_static(name), v) {
            Ok(_) => PutOutcome::Stored,
            Err(_) => PutOutcome::Full,
        },
    }
}

/// `HeaderName::from_bytes` and `HeaderValue::from_str`, then `HeaderMap::try_insert`.
/// `from_bytes` refuses a name that is empty, too long or has a character that may not
/// stand in a name, and puts any other name in lower case. `from_str` refuses a value
/// with a byte that may not stand in a header value. `try_insert` gives the header
/// this one value in place of all it had, or refuses, where the map would have to grow
/// beyond its limit, and leaves the map as it was. It refuses no map that holds fewer
/// than 6554 names, and adds at most one name.
#[verifier::external_body]
pub(crate) fn put_named_header(
    headers: &mut HeaderMap,
    name: &str,
    value: &str,
) -> (r: NamedPutOutcome)
    ensures
        (r is InvalidName) == !valid_header_name(name@),
        (r is InvalidValue) == (valid_header_name(name@) && !valid_header_value(value@)),
        r is Stored ==> header_fields(*final(headers)) == header_fields(*old(headers)).insert(
            ascii_lower(name@),
            encode_utf8(value@),
        ),
        !(r is Stored) ==> header_fields(*final(headers)) == header_fields(*old(headers)),
        r is Full ==> header_names(*old(headers)) >= refusing_names(),
        r is Stored ==> header_names(*final(headers)) <= header_names(*old(headers)) + 1,
        !(r is Stored) ==> header_names(*final(headers)) == header_names(*old(headers)),
{
    match (http::HeaderName::from_bytes(name.as_bytes()), http::HeaderValue::from_str(value)) {
        (Err(_), _) => NamedPutOutcome::InvalidName,
        (Ok(_), Err(_)) => NamedPutOutcome::InvalidValue,
        (Ok(n), Ok(v)) => match headers.try_insert(n, v) {
            Ok(_) => NamedPutOutcome::Stored,
            Err(_) => NamedPutOutcome::Full,
        },
    }
}

} // verus!
