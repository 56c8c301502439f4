//! The calls of the Open API: for each intent, the data that goes with it and how the
//! call is to be made.

pub mod auth;
pub mod devices;
pub mod events;
pub mod ifttt;
pub mod ir;
pub mod linkages;
pub mod networking;
pub mod ota;
pub mod positions;
pub mod push;
pub mod raw;
pub mod resources;
pub mod scenes;
pub mod voice;

use vstd::prelude::*;
use crate::types::CallOptions;
use crate::util::json::{
    items_model, lemma_items_model, members_model, Json, JsonModel, JsonNumber, Member,
    NumberModel,
};
use crate::util::text::{decimal, decimal_string};

verus! {

/// One call of the Open API: the intent, its data, and how it is to be made.
#[derive(Debug)]
pub struct IntentCall {
    /// The name of the remote operation.
    pub intent: String,
    /// The data of the call.
    pub data: Json,
    /// Whether the access token goes with the call and is signed.
    pub include_access_token: bool,
    /// Whether the call may be repeated after a failure that may pass.
    pub idempotent: bool,
}

impl IntentCall {
    /// The options under which the call is made.
    pub fn options(&self) -> (r: CallOptions)
        ensures
            r.include_access_token == self.include_access_token,
            r.idempotent == self.idempotent,
    {
        let options = if self.include_access_token {
            CallOptions::with_access_token()
        } else {
            CallOptions::without_access_token()
        };
        options.idempotent(self.idempotent)
    }
}

/// The members of a JSON object, in the order in which they are given.
pub struct Fields {
    pub members: Seq<(Seq<char>, JsonModel)>,
}

impl Fields {
    /// No members.
    pub open spec fn new() -> Fields {
        Fields { members: Seq::empty() }
    }

    /// These members, and `value` under `key` after them.
    pub open spec fn with(self, key: Seq<char>, value: JsonModel) -> Fields {
        Fields { members: self.members.push((key, value)) }
    }

    /// These members, and the value under `key` after them, where there is a value.
    pub open spec fn with_some(self, key: Seq<char>, value: Option<JsonModel>) -> Fields {
        match value {
            Some(v) => self.with(key, v),
            None => self,
        }
    }

    /// The object of these members.
    pub open spec fn object(self) -> JsonModel {
        JsonModel::Object(self.members)
    }
}

/// A JSON object in the making.
pub struct ObjectBuilder {
    members: Vec<Member>,
}

impl View for ObjectBuilder {
    type V = Fields;

    closed spec fn view(&self) -> Fields {
        Fields { members: members_model(self.members@) }
    }
}

impl ObjectBuilder {
    /// An object without members.
    pub fn new() -> (r: ObjectBuilder)
        ensures
            r@ == Fields::new(),
    {
        ObjectBuilder { members: Vec::new() }
    }

    /// Adds `value` under `key`.
    pub fn with(self, key: &str, value: Json) -> (r: ObjectBuilder)
        ensures
            r@ == self@.with(key@, value@),
    {
        let mut members = self.members;
        members.push(Member { key: key.to_owned(), value });
        proof {
            assert(members@.drop_last() == self.members@);
        }
        ObjectBuilder { members }
    }

    /// Adds the value under `key`, where there is one.
    pub fn with_some(self, key: &str, value: Option<Json>) -> (r: ObjectBuilder)
        ensures
            r@ == self@.with_some(
                key@,
                match value {
                    Some(v) => Some(v@),
                    None => None,
                },
            ),
    {
        match value {
            Some(v) => self.with(key, v),
            None => self,
        }
    }

    /// The object.
    pub fn build(self) -> (r: Json)
        ensures
            r@ == self@.object(),
    {
        Json::Object(self.members)
    }
}

/// The JSON number that `n` is.
pub open spec fn number_model(n: int) -> JsonModel {
    if n >= 0 {
        JsonModel::Number(NumberModel::PosInt(n as u64))
    } else {
        JsonModel::Number(NumberModel::NegInt(n as i64))
    }
}

/// The JSON string of an optional string.
pub open spec fn opt_text(value: Option<String>) -> Option<JsonModel> {
    match value {
        Some(s) => Some(JsonModel::Text(s@)),
        None => None,
    }
}

/// The JSON number of an optional number.
pub open spec fn opt_number(value: Option<int>) -> Option<JsonModel> {
    match value {
        Some(n) => Some(number_model(n)),
        None => None,
    }
}

/// An optional `u32` as an optional `int`.
pub open spec fn opt_u32(value: Option<u32>) -> Option<int> {
    match value {
        Some(n) => Some(n as int),
        None => None,
    }
}

/// An optional `i64` as an optional `int`.
pub open spec fn opt_i64(value: Option<i64>) -> Option<int> {
    match value {
        Some(n) => Some(n as int),
        None => None,
    }
}

/// The JSON boolean of an optional boolean.
pub open spec fn opt_bool(value: Option<bool>) -> Option<JsonModel> {
    match value {
        Some(b) => Some(JsonModel::Bool(b)),
        None => None,
    }
}

/// The JSON array of the strings `items`.
pub open spec fn text_array(items: Seq<String>) -> JsonModel {
    JsonModel::Array(Seq::new(items.len(), |i: int| JsonModel::Text(items[i]@)))
}

/// The JSON array of optional strings.
pub open spec fn opt_text_array(value: Option<Vec<String>>) -> Option<JsonModel> {
    match value {
        Some(items) => Some(text_array(items@)),
        None => None,
    }
}

/// The JSON array of the numbers `items`.
pub open spec fn number_array(items: Seq<i32>) -> JsonModel {
    JsonModel::Array(Seq::new(items.len(), |i: int| number_model(items[i] as int)))
}

/// The characters of an optional string, or `fallback`.
pub open spec fn text_or(value: Option<String>, fallback: Seq<char>) -> Seq<char> {
    match value {
        Some(s) => s@,
        None => fallback,
    }
}

/// The JSON string of `s`.
pub fn text(s: &str) -> (r: Json)
    ensures
        r@ == JsonModel::Text(s@),
{
    Json::Text(s.to_owned())
}

/// The JSON string of `value`, or of `fallback` where there is none.
pub fn text_or_else(value: &Option<String>, fallback: &str) -> (r: Json)
    ensures
        r@ == JsonModel::Text(text_or(*value, fallback@)),
{
    match value {
        Some(s) => text(s.as_str()),
        None => text(fallback),
    }
}

/// The JSON string of `n` in decimal.
pub fn decimal_text(n: u32) -> (r: Json)
    ensures
        r@ == JsonModel::Text(decimal(n as nat)),
{
    Json::Text(decimal_string(n as u128))
}

/// The JSON number of `n`.
pub fn number(n: i64) -> (r: Json)
    ensures
        r@ == number_model(n as int),
{
    if n >= 0 {
        Json::Number(JsonNumber::PosInt(n as u64))
    } else {
        Json::Number(JsonNumber::NegInt(n))
    }
}

/// The JSON string of an optional string.
pub fn some_text(value: &Option<String>) -> (r: Option<Json>)
    ensures
        crate::util::json::model_of(r) == opt_text(*value),
{
    match value {
        Some(s) => Some(text(s.as_str())),
        None => None,
    }
}

/// The JSON number of an optional `u32`.
pub fn some_u32(value: Option<u32>) -> (r: Option<Json>)
    ensures
        crate::util::json::model_of(r) == opt_number(opt_u32(value)),
{
    match value {
        Some(n) => Some(number(n as i64)),
        None => None,
    }
}

/// The JSON number of an optional `i64`.
pub fn some_i64(value: Option<i64>) -> (r: Option<Json>)
    ensures
        crate::util::json::model_of(r) == opt_number(opt_i64(value)),
{
    match value {
        Some(n) => Some(number(n)),
        None => None,
    }
}

/// The JSON boolean of an optional boolean.
pub fn some_bool(value: Option<bool>) -> (r: Option<Json>)
    ensures
        crate::util::json::model_of(r) == opt_bool(value),
{
    match value {
        Some(b) => Some(Json::Bool(b)),
        None => None,
    }
}

/// The JSON array of the strings `items`.
pub fn texts(items: &Vec<String>) -> (r: Json)
    ensures
        r@ == text_array(items@),
{
    let mut out: Vec<Json> = Vec::new();
    let mut i: usize = 0;
    while i < items.len()
        invariant
            i <= items.len(),
            out.len() == i,
            forall|k: int| 0 <= k < i ==> out@[k]@ == JsonModel::Text(items@[k]@),
        decreases items.len() - i,
    {
        out.push(text(items[i].as_str()));
        i += 1;
    }
    proof {
        lemma_items_model(out@);
        assert(items_model(out@) =~= Seq::new(
            items@.len(),
            |i: int| JsonModel::Text(items@[i]@),
        ));
    }
    Json::Array(out)
}

/// The JSON array of optional strings.
pub fn some_texts(value: &Option<Vec<String>>) -> (r: Option<Json>)
    ensures
        crate::util::json::model_of(r) == opt_text_array(*value),
{
    match value {
        Some(items) => Some(texts(items)),
        None => None,
    }
}

/// The JSON array of the numbers `items`.
pub fn numbers(items: &Vec<i32>) -> (r: Json)
    ensures
        r@ == number_array(items@),
{
    let mut out: Vec<Json> = Vec::new();
    let mut i: usize = 0;
    while i < items.len()
        invariant
            i <= items.len(),
            out.len() == i,
            forall|k: int| 0 <= k < i ==> out@[k]@ == number_model(items@[k] as int),
        decreases items.len() - i,
    {
        out.push(number(items[i] as i64));
        i += 1;
    }
    proof {
        lemma_items_model(out@);
        assert(items_model(out@) =~= Seq::new(
            items@.len(),
            |i: int| number_model(items@[i] as int),
        ));
    }
    Json::Array(out)
}

} // verus!
