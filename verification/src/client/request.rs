//! Building the request of one attempt: its body and its headers.

use http::HeaderMap;
use vstd::prelude::*;
use vstd::string::StrSliceExecFns;
use vstd::string::StringExecFns;
use vstd::utf8::encode_utf8;
use crate::auth::SignatureParts;
use crate::error::Error;
use crate::transport::headers::{
    header_fields, header_names, is_header_name, put_header, refusing_names, valid_header_value,
    PutOutcome,
};
use crate::types::{secret_of_ref, Credentials, CredentialsView, SecretString};
use crate::util::json::{json_text, print_json, Json, JsonModel};

verus! {

/// The text of the body of a call: the intent and the data as one JSON object, the
/// intent first.
pub open spec fn body_text(intent: Seq<char>, data: JsonModel) -> Seq<char> {
    "{\"intent\":"@ + json_text(JsonModel::Text(intent)) + ",\"data\":"@ + json_text(data) + "}"@
}

/// The bytes of the body of a call.
pub fn encode_body(intent: &str, data: &Json) -> (r: Vec<u8>)
    ensures
        r@ == encode_utf8(body_text(intent@, data@)),
{
    let name = Json::Text(intent.to_owned());
    let mut text = String::new();
    text.append("{\"intent\":");
    text.append(print_json(&name).as_str());
    text.append(",\"data\":");
    text.append(print_json(data).as_str());
    text.append("}");
    text.as_str().as_bytes_vec()
}

/// The message of the error for a value that may not stand in the header `label`.
pub open spec fn invalid_value_message(label: Seq<char>) -> Seq<char> {
    label + ": failed to parse header value"@
}

/// The message of the error for a header map that cannot take one more header.
pub open spec fn full_message() -> Seq<char> {
    "too many headers: max size reached"@
}

/// The fields after the header `name` was given the value `value`.
pub open spec fn put(fields: Map<Seq<char>, Seq<u8>>, name: Seq<char>, value: Seq<char>) -> Map<
    Seq<char>,
    Seq<u8>,
> {
    fields.insert(name, encode_utf8(value))
}

/// Whether `e` is the refusal to set a header to `value` in a map that holds at most
/// `names` names: an `InvalidConfig` error that names `label` where the value is at
/// fault. A value that may stand in a header is refused only by a map that holds so
/// many names that it may refuse to grow.
pub open spec fn is_refusal(label: Seq<char>, value: Seq<char>, names: nat, e: Error) -> bool {
    &&& e matches Error::InvalidConfig { message }
    &&& if valid_header_value(value) {
        message@ == full_message() && names >= refusing_names()
    } else {
        message@ == invalid_value_message(label)
    }
}

/// Gives the header `name` the one value `value`. A value that may not stand in a
/// header is refused under the label `label`, and the map stays as it was. A value
/// that may stand in a header is set, unless the map holds so many names that it
/// refuses to grow.
fn set_header(headers: &mut HeaderMap, name: &'static str, value: &str, label: &str) -> (r: Result<
    (),
    Error,
>)
    requires
        is_header_name(name@),
    ensures
        !valid_header_value(value@) ==> r is Err,
        valid_header_value(value@) && header_names(*old(headers)) < refusing_names() ==> r is Ok,
        match r {
            Ok(()) => {
                &&& valid_header_value(value@)
                &&& header_fields(*final(headers)) == put(
                    header_fields(*old(headers)),
                    name@,
                    value@,
                )
                &&& header_names(*final(headers)) <= header_names(*old(headers)) + 1
            },
            Err(e) => {
                &&& header_fields(*final(headers)) == header_fields(*old(headers))
                &&& header_names(*final(headers)) == header_names(*old(headers))
                &&& is_refusal(label@, value@, header_names(*old(headers)), e)
            },
        },
{
    match put_header(headers, name, value) {
        PutOutcome::Stored => Ok(()),
        PutOutcome::InvalidValue => {
            let mut message = label.to_owned();
            message.append(": failed to parse header value");
            Err(Error::InvalidConfig { message })
        },
        PutOutcome::Full => Err(
            Error::InvalidConfig { message: "too many headers: max size reached".to_owned() },
        ),
    }
}

/// The label under which a bad value of the header `name` is refused.
pub open spec fn value_label(name: Seq<char>) -> Seq<char> {
    "invalid header value for "@ + name
}

/// Gives the header `name` the one value `value`, or refuses a value that may not
/// stand in a header and leaves the map as it was. A value that may stand in a header
/// is set, unless the map holds so many names that it refuses to grow.
pub fn insert_header_str(headers: &mut HeaderMap, name: &'static str, value: &str) -> (r: Result<
    (),
    Error,
>)
    requires
        is_header_name(name@),
    ensures
        !valid_header_value(value@) ==> r is Err,
        valid_header_value(value@) && header_names(*old(headers)) < refusing_names() ==> r is Ok,
        match r {
            Ok(()) => {
                &&& valid_header_value(value@)
                &&& header_fields(*final(headers)) == put(
                    header_fields(*old(headers)),
                    name@,
                    value@,
                )
                &&& header_names(*final(headers)) <= header_names(*old(headers)) + 1
            },
            Err(e) => {
                &&& header_fields(*final(headers)) == header_fields(*old(headers))
                &&& header_names(*final(headers)) == header_names(*old(headers))
                &&& is_refusal(value_label(name@), value@, header_names(*old(headers)), e)
            },
        },
{
    let mut label = "invalid header value for ".to_owned();
    label.append(name);
    set_header(headers, name, value, label.as_str())
}

/// One header to set: its name, its value, and the label under which a bad value is
/// refused.
pub struct HeaderEntry {
    /// The name of the header, in lower case.
    pub name: &'static str,
    /// The value to set.
    pub value: String,
    /// What the error says is invalid where the value is refused.
    pub label: String,
}

/// What a `HeaderEntry` holds.
pub struct EntryModel {
    pub name: Seq<char>,
    pub value: Seq<char>,
    pub label: Seq<char>,
}

impl View for HeaderEntry {
    type V = EntryModel;

    open spec fn view(&self) -> EntryModel {
        EntryModel { name: self.name@, value: self.value@, label: self.label@ }
    }
}

/// The fields after each of `entries` was set, in order.
pub open spec fn put_all(fields: Map<Seq<char>, Seq<u8>>, entries: Seq<EntryModel>) -> Map<
    Seq<char>,
    Seq<u8>,
>
    decreases entries.len(),
{
    if entries.len() == 0 {
        fields
    } else {
        put(put_all(fields, entries.drop_last()), entries.last().name, entries.last().value)
    }
}

/// Whether every value of `entries` may stand in a header.
pub open spec fn all_valid(entries: Seq<EntryModel>) -> bool {
    forall|i: int| 0 <= i < entries.len() ==> valid_header_value(#[trigger] entries[i].value)
}

/// Whether `e` is the refusal of the entry at `k`, where the map held at most `names`
/// names before the first entry: the entries before it may stand in a header, and this
/// one may not, or the map, with at most one name more for each entry before, refuses
/// to grow.
pub open spec fn refused_at(names: nat, entries: Seq<EntryModel>, k: int, e: Error) -> bool {
    &&& 0 <= k < entries.len()
    &&& all_valid(entries.take(k))
    &&& is_refusal(entries[k].label, entries[k].value, (names + k) as nat, e)
}

/// Whether `e` is the error with which setting `entries` in order fails, in a map that
/// held at most `names` names: the refusal of the first entry that cannot be set.
pub open spec fn is_put_refusal(names: nat, entries: Seq<EntryModel>, e: Error) -> bool {
    exists|k: int| #[trigger] refused_at(names, entries, k, e)
}

/// Whether `r` and `after` are what setting `entries` in order comes to, from the
/// fields `before` of a map that held `names` names: all are set, or the first that
/// cannot be set is refused and those before it stay set.
pub open spec fn is_put_result(
    before: Map<Seq<char>, Seq<u8>>,
    names: nat,
    entries: Seq<EntryModel>,
    after: Map<Seq<char>, Seq<u8>>,
    r: Result<(), Error>,
) -> bool {
    match r {
        Ok(()) => all_valid(entries) && after == put_all(before, entries),
        Err(e) => exists|k: int|
            #[trigger] refused_at(names, entries, k, e) && after == put_all(before, entries.take(k)),
    }
}

/// Whether setting `entries` in order is sure to succeed in a map that holds `names`
/// names: each value may stand in a header, and the map is too small to refuse.
pub open spec fn put_is_owed(names: nat, entries: Seq<EntryModel>) -> bool {
    all_valid(entries) && names + entries.len() <= refusing_names()
}

/// Setting entries that are sure to succeed is not refused.
pub proof fn lemma_put_is_owed(names: nat, entries: Seq<EntryModel>, e: Error)
    requires
        put_is_owed(names, entries),
    ensures
        !is_put_refusal(names, entries, e),
{
    assert forall|k: int| !#[trigger] refused_at(names, entries, k, e) by {
        if 0 <= k < entries.len() {
            assert(valid_header_value(entries[k].value));
        }
    }
}

/// A refusal in a map of few names is a refusal in a map of more.
pub proof fn lemma_put_refusal_with_more_names(
    names: nat,
    more: nat,
    entries: Seq<EntryModel>,
    e: Error,
)
    requires
        names <= more,
        is_put_refusal(names, entries, e),
    ensures
        is_put_refusal(more, entries, e),
{
    let k = choose|k: int| #[trigger] refused_at(names, entries, k, e);
    assert(refused_at(more, entries, k, e));
}

/// The models of a list of entries.
pub open spec fn entry_models(entries: Seq<HeaderEntry>) -> Seq<EntryModel> {
    Seq::new(entries.len(), |i: int| entries[i]@)
}

/// Sets the headers of `entries` in order, and stops at the first that cannot be set.
/// It succeeds where each value may stand in a header and the map is too small to
/// refuse; each entry adds at most one name.
pub fn put_entries(headers: &mut HeaderMap, entries: &Vec<HeaderEntry>) -> (r: Result<(), Error>)
    requires
        forall|i: int| 0 <= i < entries.len() ==> is_header_name(#[trigger] entries[i].name@),
    ensures
        is_put_result(
            header_fields(*old(headers)),
            header_names(*old(headers)),
            entry_models(entries@),
            header_fields(*final(headers)),
            r,
        ),
        !all_valid(entry_models(entries@)) ==> r is Err,
        put_is_owed(header_names(*old(headers)), entry_models(entries@)) ==> r is Ok,
        header_names(*final(headers)) <= header_names(*old(headers)) + entries.len(),
{
    let ghost before = header_fields(*headers);
    let ghost names = header_names(*headers);
    let ghost models = entry_models(entries@);
    let mut i: usize = 0;
    while i < entries.len()
        invariant
            i <= entries.len(),
            before == header_fields(*old(headers)),
            names == header_names(*old(headers)),
            models == entry_models(entries@),
            forall|k: int| 0 <= k < entries.len() ==> is_header_name(#[trigger] entries[k].name@),
            all_valid(models.take(i as int)),
            header_fields(*headers) == put_all(before, models.take(i as int)),
            header_names(*headers) <= names + i,
        decreases entries.len() - i,
    {
        let entry = &entries[i];
        let r = set_header(headers, entry.name, entry.value.as_str(), entry.label.as_str());
        proof {
            assert(models[i as int] == entry@);
            assert(models.take(i + 1).drop_last() == models.take(i as int));
        }
        match r {
            Ok(()) => {
                assert(all_valid(models.take(i + 1))) by {
                    assert forall|k: int| 0 <= k < i + 1 implies valid_header_value(
                        #[trigger] models.take(i + 1)[k].value,
                    ) by {
                        if k < i {
                            assert(models.take(i as int)[k] == models.take(i + 1)[k]);
                        }
                    }
                }
            },
            Err(e) => {
                proof {
                    assert(refused_at(names, models, i as int, e));
                    if put_is_owed(names, models) {
                        lemma_put_is_owed(names, models, e);
                    }
                    if all_valid(models) {
                        assert(valid_header_value(models[i as int].value));
                    }
                }
                return Err(e);
            },
        }
        i += 1;
    }
    assert(models.take(entries.len() as int) == models);
    Ok(())
}

/// The headers that every request has: user agent, content type and language.
pub open spec fn required_entries(user_agent: Seq<char>, lang: Seq<char>) -> Seq<EntryModel> {
    seq![
        EntryModel {
            name: "user-agent"@,
            value: user_agent,
            label: "invalid user-agent header value"@,
        },
        EntryModel {
            name: "content-type"@,
            value: "application/json"@,
            label: value_label("content-type"@),
        },
        EntryModel { name: "lang"@, value: lang, label: "invalid lang header value"@ },
    ]
}

/// The access token that goes into the headers: the one given, where the call
/// includes it.
pub open spec fn header_token(token: Option<Seq<char>>, include_access_token: bool) -> Option<
    Seq<char>,
> {
    if include_access_token {
        token
    } else {
        None
    }
}

/// The headers that sign a request: the two ids, the nonce, the time and the
/// signature, and the access token where the call includes it.
pub open spec fn signature_entries(
    credentials: CredentialsView,
    nonce: Seq<char>,
    time: Seq<char>,
    sign: Seq<char>,
    token: Option<Seq<char>>,
    include_access_token: bool,
) -> Seq<EntryModel> {
    let fixed = seq![
        EntryModel { name: "appid"@, value: credentials.app_id, label: value_label("appid"@) },
        EntryModel { name: "keyid"@, value: credentials.key_id, label: value_label("keyid"@) },
        EntryModel { name: "nonce"@, value: nonce, label: value_label("nonce"@) },
        EntryModel { name: "time"@, value: time, label: value_label("time"@) },
        EntryModel { name: "sign"@, value: sign, label: value_label("sign"@) },
    ];
    match header_token(token, include_access_token) {
        Some(t) => fixed.push(
            EntryModel { name: "accesstoken"@, value: t, label: value_label("accesstoken"@) },
        ),
        None => fixed,
    }
}

proof fn lemma_header_names()
    ensures
        is_header_name("user-agent"@),
        is_header_name("content-type"@),
        is_header_name("lang"@),
        is_header_name("appid"@),
        is_header_name("keyid"@),
        is_header_name("nonce"@),
        is_header_name("time"@),
        is_header_name("sign"@),
        is_header_name("accesstoken"@),
{
    reveal_strlit("user-agent");
    reveal_strlit("content-type");
    reveal_strlit("lang");
    reveal_strlit("appid");
    reveal_strlit("keyid");
    reveal_strlit("nonce");
    reveal_strlit("time");
    reveal_strlit("sign");
    reveal_strlit("accesstoken");
}

fn entry(name: &'static str, value: &str) -> (r: HeaderEntry)
    ensures
        r.name@ == name@,
        r.value@ == value@,
        r.label@ == value_label(name@),
{
    let mut label = "invalid header value for ".to_owned();
    label.append(name);
    HeaderEntry { name, value: value.to_owned(), label }
}

/// Sets the headers that every request has. It succeeds where the user agent and the
/// language may stand in a header and the map is too small to refuse.
pub fn insert_required_headers(headers: &mut HeaderMap, user_agent: &str, lang: &str) -> (r: Result<
    (),
    Error,
>)
    ensures
        is_put_result(
            header_fields(*old(headers)),
            header_names(*old(headers)),
            required_entries(user_agent@, lang@),
            header_fields(*final(headers)),
            r,
        ),
        !valid_header_value(user_agent@) || !valid_header_value(lang@) ==> r is Err,
        valid_header_value(user_agent@) && valid_header_value(lang@) && header_names(*old(headers))
            + 3 <= refusing_names() ==> r is Ok,
        header_names(*final(headers)) <= header_names(*old(headers)) + 3,
{
    let mut entries: Vec<HeaderEntry> = Vec::new();
    entries.push(
        HeaderEntry {
            name: "user-agent",
            value: user_agent.to_owned(),
            label: "invalid user-agent header value".to_owned(),
        },
    );
    entries.push(entry("content-type", "application/json"));
    entries.push(
        HeaderEntry {
            name: "lang",
            value: lang.to_owned(),
            label: "invalid lang header value".to_owned(),
        },
    );
    proof {
        lemma_header_names();
        assert(entry_models(entries@) =~= required_entries(user_agent@, lang@));
        assert(required_entries(user_agent@, lang@)[0].value == user_agent@);
        assert(required_entries(user_agent@, lang@)[2].value == lang@);
        lemma_required_entries_valid(user_agent@, lang@);
    }
    put_entries(headers, &entries)
}

/// The required headers may all stand in a header where the user agent and the
/// language may.
pub proof fn lemma_required_entries_valid(user_agent: Seq<char>, lang: Seq<char>)
    ensures
        all_valid(required_entries(user_agent, lang)) <==> valid_header_value(user_agent)
            && valid_header_value(lang),
{
    let entries = required_entries(user_agent, lang);
    assert(entries[0].value == user_agent);
    assert(entries[1].value == "application/json"@);
    assert(entries[2].value == lang);
    lemma_content_type_valid();
}

proof fn lemma_content_type_valid()
    ensures
        valid_header_value("application/json"@),
{
    reveal_strlit("application/json");
    let text = "application/json"@;
    crate::util::text::lemma_ascii_encoding(text);
}

/// Sets the headers that sign a request. It succeeds where each value may stand in a
/// header and the map is too small to refuse.
pub fn insert_signature_headers(
    headers: &mut HeaderMap,
    credentials: &Credentials,
    signature: &SignatureParts,
    access_token: Option<&SecretString>,
    include_access_token: bool,
) -> (r: Result<(), Error>)
    ensures
        is_put_result(
            header_fields(*old(headers)),
            header_names(*old(headers)),
            signature_entries(
                credentials@,
                signature.nonce@,
                signature.time_millis@,
                signature.sign@,
                secret_of_ref(access_token),
                include_access_token,
            ),
            header_fields(*final(headers)),
            r,
        ),
        put_is_owed(
            header_names(*old(headers)),
            signature_entries(
                credentials@,
                signature.nonce@,
                signature.time_millis@,
                signature.sign@,
                secret_of_ref(access_token),
                include_access_token,
            ),
        ) ==> r is Ok,
        header_names(*final(headers)) <= header_names(*old(headers)) + 6,
{
    let mut entries: Vec<HeaderEntry> = Vec::new();
    entries.push(entry("appid", credentials.app_id()));
    entries.push(entry("keyid", credentials.key_id()));
    entries.push(entry("nonce", signature.nonce.as_str()));
    entries.push(entry("time", signature.time_millis.as_str()));
    entries.push(entry("sign", signature.sign.as_str()));
    if include_access_token {
        if let Some(token) = access_token {
            entries.push(entry("accesstoken", token.expose()));
        }
    }
    proof {
        lemma_header_names();
        assert(entry_models(entries@) =~= signature_entries(
            credentials@,
            signature.nonce@,
            signature.time_millis@,
            signature.sign@,
            secret_of_ref(access_token),
            include_access_token,
        ));
    }
    put_entries(headers, &entries)
}

} // verus!
