//! Redaction of secrets in diagnostic snippets of request and response bodies.

use vstd::prelude::*;
use vstd::utf8::encode_utf8;
use crate::util::json::{
    json_parse, json_text, lemma_items_model, lemma_members_model, members_model, items_model,
    model_of, parse_json, print_json, Json, JsonModel, Member,
};
use crate::util::text::{
    ascii_lower, chars_of, contains, contains_run, lemma_truncated_to_nothing, same_chars,
    string_of, to_ascii_lower, trim, trimmed, truncate_chars, truncated,
};

verus! {

/// What stands in a snippet in place of a secret value.
pub open spec fn marker() -> Seq<char> {
    "[REDACTED]"@
}

/// Whether the value under `key` is a secret: the key, without surrounding white space
/// and in lower case, is one of the listed names or contains `token`.
pub open spec fn sensitive_key(key: Seq<char>) -> bool {
    let k = ascii_lower(trimmed(key));
    ||| k == "accesstoken"@
    ||| k == "access_token"@
    ||| k == "access-token"@
    ||| k == "token"@
    ||| k == "refresh_token"@
    ||| k == "refreshtoken"@
    ||| k == "appkey"@
    ||| k == "app_key"@
    ||| k == "password"@
    ||| k == "secret"@
    ||| contains_run(k, "token"@)
}

/// `j` with every secret replaced by the marker: in an object, the value under a
/// sensitive key; the other values, and the items of an array, are redacted in turn.
pub open spec fn redacted(j: JsonModel) -> JsonModel
    decreases j,
{
    match j {
        JsonModel::Array(items) => JsonModel::Array(redacted_items(items)),
        JsonModel::Object(members) => JsonModel::Object(redacted_members(members)),
        other => other,
    }
}

/// A list of values, each redacted.
pub open spec fn redacted_items(items: Seq<JsonModel>) -> Seq<JsonModel>
    decreases items,
{
    if items.len() == 0 {
        Seq::empty()
    } else {
        redacted_items(items.drop_last()).push(redacted(items.last()))
    }
}

/// The members of an object, each redacted.
pub open spec fn redacted_members(members: Seq<(Seq<char>, JsonModel)>) -> Seq<
    (Seq<char>, JsonModel),
>
    decreases members,
{
    if members.len() == 0 {
        Seq::empty()
    } else {
        redacted_members(members.drop_last()).push(
            if sensitive_key(members.last().0) {
                (members.last().0, JsonModel::Text(marker()))
            } else {
                (members.last().0, redacted(members.last().1))
            },
        )
    }
}

/// One member of an object, redacted: the marker under a sensitive key, else the
/// redacted value; the key stays.
pub open spec fn redacted_member(key: Seq<char>, value: JsonModel) -> (Seq<char>, JsonModel) {
    if sensitive_key(key) {
        (key, JsonModel::Text(marker()))
    } else {
        (key, redacted(value))
    }
}

/// Redaction of a list works item by item.
pub proof fn lemma_redacted_items(items: Seq<JsonModel>)
    ensures
        redacted_items(items).len() == items.len(),
        forall|i: int| 0 <= i < items.len() ==> #[trigger] redacted_items(items)[i] == redacted(items[i]),
    decreases items.len(),
{
    if items.len() > 0 {
        lemma_redacted_items(items.drop_last());
    }
}

/// Redaction of an object works member by member, and keeps every key in its place.
pub proof fn lemma_redacted_members(members: Seq<(Seq<char>, JsonModel)>)
    ensures
        redacted_members(members).len() == members.len(),
        forall|i: int|
            0 <= i < members.len() ==> #[trigger] redacted_members(members)[i] == redacted_member(
                members[i].0,
                members[i].1,
            ),
    decreases members.len(),
{
    if members.len() > 0 {
        lemma_redacted_members(members.drop_last());
    }
}

/// Redacting twice is redacting once.
pub proof fn lemma_redacted_again(j: JsonModel)
    ensures
        redacted(redacted(j)) == redacted(j),
    decreases j,
{
    match j {
        JsonModel::Array(items) => {
            lemma_redacted_items(items);
            lemma_redacted_items(redacted_items(items));
            assert forall|i: int| 0 <= i < items.len() implies redacted(
                #[trigger] redacted_items(items)[i],
            ) == redacted_items(items)[i] by {
                lemma_redacted_again(items[i]);
            }
            assert(redacted_items(redacted_items(items)) =~= redacted_items(items));
        },
        JsonModel::Object(members) => {
            lemma_redacted_members(members);
            lemma_redacted_members(redacted_members(members));
            assert forall|i: int| 0 <= i < members.len() implies redacted_member(
                (#[trigger] redacted_members(members)[i]).0,
                redacted_members(members)[i].1,
            ) == redacted_members(members)[i] by {
                if !sensitive_key(members[i].0) {
                    lemma_redacted_again(members[i].1);
                }
            }
            assert(redacted_members(redacted_members(members)) =~= redacted_members(members));
        },
        _ => {},
    }
}

fn is_name(key: &Vec<char>, name: &str) -> (r: bool)
    ensures
        r == (key@ == name@),
{
    let n = chars_of(name);
    same_chars(key, &n)
}

/// Whether the value under `key` must not appear in a snippet.
pub fn is_sensitive_key(key: &str) -> (r: bool)
    ensures
        r == sensitive_key(key@),
{
    let raw = chars_of(key);
    let cut = trim(&raw);
    let k = to_ascii_lower(&cut);
    let token = chars_of("token");
    is_name(&k, "accesstoken") || is_name(&k, "access_token") || is_name(&k, "access-token")
        || is_name(&k, "token") || is_name(&k, "refresh_token") || is_name(&k, "refreshtoken")
        || is_name(&k, "appkey") || is_name(&k, "app_key") || is_name(&k, "password") || is_name(
        &k,
        "secret",
    ) || contains(&k, &token)
}

/// A copy of `value` with every secret replaced by the marker.
#[verifier::loop_isolation(false)]
pub fn redact_value(value: &Json) -> (r: Json)
    ensures
        r@ == redacted(value@),
    decreases value,
{
    match value {
        Json::Array(items) => {
            let mut out: Vec<Json> = Vec::new();
            let mut i: usize = 0;
            while i < items.len()
                invariant
                    i <= items.len(),
                    out.len() == i,
                    forall|k: int| 0 <= k < i ==> out@[k]@ == redacted(items@[k]@),
                decreases items.len() - i,
            {
                proof {
                    vstd::std_specs::vec::axiom_vec_index_decreases(*items, i as int);
                }
                let item = redact_value(&items[i]);
                out.push(item);
                i += 1;
            }
            proof {
                lemma_items_model(items@);
                lemma_items_model(out@);
                lemma_redacted_items(items_model(items@));
                assert(items_model(out@) =~= redacted_items(items_model(items@)));
            }
            Json::Array(out)
        },
        Json::Object(members) => {
            let mut out: Vec<Member> = Vec::new();
            let mut i: usize = 0;
            while i < members.len()
                invariant
                    i <= members.len(),
                    out.len() == i,
                    forall|k: int|
                        0 <= k < i ==> (#[trigger] out@[k].key@, out@[k].value@) == redacted_member(
                            members@[k].key@,
                            members@[k].value@,
                        ),
                decreases members.len() - i,
            {
                let key = members[i].key.clone();
                let value = if is_sensitive_key(key.as_str()) {
                    Json::Text("[REDACTED]".to_owned())
                } else {
                    proof {
                        vstd::std_specs::vec::axiom_vec_index_decreases(*members, i as int);
                    }
                    redact_value(&members[i].value)
                };
                out.push(Member { key, value });
                i += 1;
            }
            proof {
                lemma_members_model(members@);
                lemma_members_model(out@);
                lemma_redacted_members(members_model(members@));
                assert(members_model(out@) =~= redacted_members(members_model(members@)));
            }
            Json::Object(out)
        },
        other => other.clone(),
    }
}

/// `value` with every secret replaced by the marker.
pub fn redact_json(value: Json) -> (r: Json)
    ensures
        r@ == redacted(value@),
{
    redact_value(&value)
}

/// The text that `String::from_utf8_lossy` makes of `bytes`: the text they spell in
/// UTF-8, with U+FFFD in place of what is no UTF-8.
pub uninterp spec fn utf8_lossy(bytes: Seq<u8>) -> Seq<char>;

/// `String::from_utf8_lossy`: bytes read as UTF-8 text, never failing. The result
/// depends on the bytes alone.
#[verifier::external_body]
fn lossy_text(bytes: &[u8]) -> (r: String)
    ensures
        r@ == utf8_lossy(bytes@),
{
    String::from_utf8_lossy(bytes).into_owned()
}

/// The text that a snippet is cut from: for a body that is JSON, the compact text of
/// the redacted value; for any other body, its bytes read as text.
pub open spec fn snippet_source(parsed: Option<JsonModel>, bytes: Seq<u8>) -> Seq<char> {
    match parsed {
        Some(j) => json_text(redacted(j)),
        None => utf8_lossy(bytes),
    }
}

/// The snippet of a body of which `parsed` is the JSON reading: its source text, cut
/// to at most `max_len` bytes.
pub fn snippet_from_parsed(parsed: Option<Json>, bytes: &[u8], max_len: usize) -> (r: String)
    ensures
        r@ == truncated(snippet_source(model_of(parsed), bytes@), max_len as nat),
        encode_utf8(r@).len() <= max_len,
{
    let text = match parsed {
        Some(value) => print_json(&redact_json(value)),
        None => lossy_text(bytes),
    };
    let chars = chars_of(text.as_str());
    let cut = truncate_chars(&chars, max_len);
    string_of(&cut)
}

/// A redacted snippet of `bytes`, at most `max_len` bytes long.
pub fn snippet_from_bytes(bytes: &[u8], max_len: usize) -> (r: String)
    ensures
        r@ == truncated(snippet_source(json_parse(bytes@), bytes@), max_len as nat),
        encode_utf8(r@).len() <= max_len,
{
    if max_len == 0 {
        proof {
            lemma_truncated_to_nothing(snippet_source(json_parse(bytes@), bytes@));
        }
        return String::new();
    }
    let parsed = parse_json(bytes);
    snippet_from_parsed(parsed, bytes, max_len)
}

} // verus!
