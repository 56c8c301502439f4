//! JSON values as the library holds them, and the two calls that turn bytes into a
//! value and a value into text.

use vstd::prelude::*;
use crate::util::text::same_text;

verus! {

/// A JSON number.
#[derive(Debug)]
pub enum JsonNumber {
    /// A whole number that is not negative.
    PosInt(u64),
    /// A whole number below zero.
    NegInt(i64),
    /// Any other number, kept as its JSON text.
    Real(String),
}

/// A JSON value. The members of an object are kept as a list, in the order in which
/// they are written.
#[derive(Debug)]
pub enum Json {
    Null,
    Bool(bool),
    Number(JsonNumber),
    Text(String),
    Array(Vec<Json>),
    Object(Vec<Member>),
}

/// One member of a JSON object.
#[derive(Debug)]
pub struct Member {
    pub key: String,
    pub value: Json,
}

/// The mathematical value of a `JsonNumber`.
pub enum NumberModel {
    PosInt(u64),
    NegInt(i64),
    Real(Seq<char>),
}

/// The mathematical value of a `Json`.
pub enum JsonModel {
    Null,
    Bool(bool),
    Number(NumberModel),
    Text(Seq<char>),
    Array(Seq<JsonModel>),
    Object(Seq<(Seq<char>, JsonModel)>),
}

impl View for JsonNumber {
    type V = NumberModel;

    open spec fn view(&self) -> NumberModel {
        match self {
            JsonNumber::PosInt(n) => NumberModel::PosInt(*n),
            JsonNumber::NegInt(n) => NumberModel::NegInt(*n),
            JsonNumber::Real(s) => NumberModel::Real(s@),
        }
    }
}

/// The value of `j`.
pub open spec fn json_model(j: Json) -> JsonModel
    decreases j,
{
    match j {
        Json::Null => JsonModel::Null,
        Json::Bool(b) => JsonModel::Bool(b),
        Json::Number(n) => JsonModel::Number(n@),
        Json::Text(s) => JsonModel::Text(s@),
        Json::Array(items) => JsonModel::Array(items_model(items@)),
        Json::Object(members) => JsonModel::Object(members_model(members@)),
    }
}

/// The values of a list of `Json`, in order.
pub open spec fn items_model(items: Seq<Json>) -> Seq<JsonModel>
    decreases items,
{
    if items.len() == 0 {
        Seq::empty()
    } else {
        items_model(items.drop_last()).push(json_model(items.last()))
    }
}

/// The keys and values of a list of members, in order.
pub open spec fn members_model(members: Seq<Member>) -> Seq<(Seq<char>, JsonModel)>
    decreases members,
{
    if members.len() == 0 {
        Seq::empty()
    } else {
        members_model(members.drop_last()).push(
            (members.last().key@, json_model(members.last().value)),
        )
    }
}

impl View for Json {
    type V = JsonModel;

    open spec fn view(&self) -> JsonModel {
        json_model(*self)
    }
}

/// `items_model` works item by item.
pub proof fn lemma_items_model(items: Seq<Json>)
    ensures
        items_model(items).len() == items.len(),
        forall|i: int| 0 <= i < items.len() ==> #[trigger] items_model(items)[i] == items[i]@,
    decreases items.len(),
{
    if items.len() > 0 {
        lemma_items_model(items.drop_last());
    }
}

/// `members_model` works member by member.
pub proof fn lemma_members_model(members: Seq<Member>)
    ensures
        members_model(members).len() == members.len(),
        forall|i: int|
            0 <= i < members.len() ==> #[trigger] members_model(members)[i] == (
                members[i].key@,
                members[i].value@,
            ),
    decreases members.len(),
{
    if members.len() > 0 {
        lemma_members_model(members.drop_last());
    }
}

impl Clone for JsonNumber {
    fn clone(&self) -> (r: JsonNumber)
        ensures
            r@ == self@,
    {
        match self {
            JsonNumber::PosInt(n) => JsonNumber::PosInt(*n),
            JsonNumber::NegInt(n) => JsonNumber::NegInt(*n),
            JsonNumber::Real(s) => JsonNumber::Real(s.clone()),
        }
    }
}

impl Clone for Json {
    #[verifier::loop_isolation(false)]
    fn clone(&self) -> (r: Json)
        ensures
            r@ == self@,
        decreases self,
    {
        match self {
            Json::Null => Json::Null,
            Json::Bool(b) => Json::Bool(*b),
            Json::Number(n) => Json::Number(n.clone()),
            Json::Text(s) => Json::Text(s.clone()),
            Json::Array(items) => {
                let mut out: Vec<Json> = Vec::new();
                let mut i: usize = 0;
                while i < items.len()
                    invariant
                        i <= items.len(),
                        out.len() == i,
                        forall|k: int| 0 <= k < i ==> out@[k]@ == items@[k]@,
                    decreases items.len() - i,
                {
                    proof {
                        vstd::std_specs::vec::axiom_vec_index_decreases(*items, i as int);
                    }
                    let item = items[i].clone();
                    out.push(item);
                    i += 1;
                }
                let r = Json::Array(out);
                proof {
                    lemma_items_model(items@);
                    lemma_items_model(out@);
                    assert(items_model(out@) =~= items_model(items@));
                }
                r
            },
            Json::Object(members) => {
                let mut out: Vec<Member> = Vec::new();
                let mut i: usize = 0;
                while i < members.len()
                    invariant
                        i <= members.len(),
                        out.len() == i,
                        forall|k: int|
                            0 <= k < i ==> (#[trigger] out@[k]).key@ == members@[k].key@
                                && out@[k].value@ == members@[k].value@,
                    decreases members.len() - i,
                {
                    proof {
                        vstd::std_specs::vec::axiom_vec_index_decreases(*members, i as int);
                    }
                    let key = members[i].key.clone();
                    let value = members[i].value.clone();
                    out.push(Member { key, value });
                    i += 1;
                }
                let r = Json::Object(out);
                proof {
                    lemma_members_model(members@);
                    lemma_members_model(out@);
                    assert(members_model(out@) =~= members_model(members@));
                }
                r
            },
        }
    }
}

/// The value of an optional `Json`.
pub open spec fn model_of(j: Option<Json>) -> Option<JsonModel> {
    match j {
        Some(j) => Some(j@),
        None => None,
    }
}

/// The place of the member that `key` names in a list of members: the last one with
/// that key, as a later member replaces an earlier one of the same key when the object
/// is printed. `-1` where no member has the key.
pub open spec fn member_index(members: Seq<(Seq<char>, JsonModel)>, key: Seq<char>) -> int
    decreases members.len(),
{
    if members.len() == 0 {
        -1
    } else if members.last().0 == key {
        members.len() - 1
    } else {
        member_index(members.drop_last(), key)
    }
}

impl JsonModel {
    /// The member of an object that `key` names; `None` for other values and for
    /// objects without it.
    pub open spec fn member(self, key: Seq<char>) -> Option<JsonModel> {
        match self {
            JsonModel::Object(members) => {
                let i = member_index(members, key);
                if i >= 0 {
                    Some(members[i].1)
                } else {
                    None
                }
            },
            _ => None,
        }
    }

    /// The characters of a JSON string; `None` for other values.
    pub open spec fn text(self) -> Option<Seq<char>> {
        match self {
            JsonModel::Text(s) => Some(s),
            _ => None,
        }
    }

    /// The number as an `i64`, where it is a whole number in that range.
    pub open spec fn integer(self) -> Option<i64> {
        match self {
            JsonModel::Number(NumberModel::PosInt(n)) => if n <= i64::MAX {
                Some(n as i64)
            } else {
                None
            },
            JsonModel::Number(NumberModel::NegInt(n)) => Some(n),
            _ => None,
        }
    }
}

/// A JSON value as `serde_json` holds it.
#[verifier::external_type_specification]
#[verifier::external_body]
pub struct ExValue(serde_json::Value);

/// What `serde_json::from_slice` reads from `bytes` as a JSON value, or `None` where it
/// refuses them.
pub uninterp spec fn json_parse(bytes: Seq<u8>) -> Option<JsonModel>;

/// The compact JSON text that `serde_json` writes for `value`.
pub uninterp spec fn json_text(value: JsonModel) -> Seq<char>;

/// A JSON number as `serde_json` holds it.
#[verifier::external_type_specification]
#[verifier::external_body]
pub struct ExNumber(serde_json::Number);

/// Rewrites a number of `serde_json` as a `JsonNumber`. It is told apart by `as_u64`
/// and `as_i64`; one that is neither is kept as the text that `serde_json` prints for it.
#[verifier::external_body]
fn number_from_value(n: &serde_json::Number) -> JsonNumber {
    match (n.as_u64(), n.as_i64()) {
        (Some(u), _) => JsonNumber::PosInt(u),
        (_, Some(i)) => JsonNumber::NegInt(i),
        _ => JsonNumber::Real(n.to_string()),
    }
}

/// Rewrites a `JsonNumber` as a value of `serde_json`. The text of a `Real` is read
/// back as a number; text that is no number becomes `null`.
#[verifier::external_body]
fn number_to_value(n: &JsonNumber) -> serde_json::Value {
    match n {
        JsonNumber::PosInt(u) => serde_json::Value::from(*u),
        JsonNumber::NegInt(i) => serde_json::Value::from(*i),
        JsonNumber::Real(s) => s.parse::<serde_json::Number>().map_or(
            serde_json::Value::Null,
            serde_json::Value::Number,
        ),
    }
}

/// Rewrites a value of `serde_json` as a `Json`, variant by variant.
#[verifier::external_body]
fn json_from_value(value: &serde_json::Value) -> Json {
    match value {
        serde_json::Value::Null => Json::Null,
        serde_json::Value::Bool(b) => Json::Bool(*b),
        serde_json::Value::Number(n) => Json::Number(number_from_value(n)),
        serde_json::Value::String(s) => Json::Text(s.clone()),
        serde_json::Value::Array(items) => Json::Array(items.iter().map(json_from_value).collect()),
        serde_json::Value::Object(map) => Json::Object(
            map.iter().map(|(k, v)| Member { key: k.clone(), value: json_from_value(v) }).collect(),
        ),
    }
}

/// Rewrites a `Json` as a value of `serde_json`, variant by variant.
#[verifier::external_body]
fn json_to_value(value: &Json) -> serde_json::Value {
    match value {
        Json::Null => serde_json::Value::Null,
        Json::Bool(b) => serde_json::Value::Bool(*b),
        Json::Number(n) => number_to_value(n),
        Json::Text(s) => serde_json::Value::String(s.clone()),
        Json::Array(items) => serde_json::Value::Array(items.iter().map(json_to_value).collect()),
        Json::Object(members) => serde_json::Value::Object(
            members.iter().map(|m| (m.key.clone(), json_to_value(&m.value))).collect(),
        ),
    }
}

/// `serde_json::from_slice`, reading a `serde_json::Value`: the JSON value that `bytes`
/// spell, or `None` where they are not one JSON value. The result depends on the bytes
/// alone.
#[verifier::external_body]
pub(crate) fn parse_json(bytes: &[u8]) -> (r: Option<Json>)
    ensures
        model_of(r) == json_parse(bytes@),
{
    match serde_json::from_slice::<serde_json::Value>(bytes) {
        Ok(value) => Some(json_from_value(&value)),
        Err(_) => None,
    }
}

/// `to_string` of a `serde_json::Value`: the compact JSON text of `value`. The result
/// depends on the value alone.
#[verifier::external_body]
pub(crate) fn print_json(value: &Json) -> (r: String)
    ensures
        r@ == json_text(value@),
{
    json_to_value(value).to_string()
}

/// The place in `members` of the member that `key` names.
fn find_member(members: &Vec<Member>, key: &str) -> (r: Option<usize>)
    ensures
        match r {
            Some(i) => i < members.len() && member_index(members_model(members@), key@) == i,
            None => member_index(members_model(members@), key@) == -1,
        },
{
    let ghost all = members_model(members@);
    proof {
        lemma_members_model(members@);
        assert(all.take(members.len() as int) == all);
    }
    let mut i: usize = members.len();
    while i > 0
        invariant
            i <= members.len(),
            all == members_model(members@),
            all.len() == members@.len(),
            member_index(all, key@) == member_index(all.take(i as int), key@),
            forall|k: int|
                0 <= k < members@.len() ==> #[trigger] all[k] == (
                    members@[k].key@,
                    members@[k].value@,
                ),
        decreases i,
    {
        let ghost prefix = all.take(i as int);
        i -= 1;
        assert(prefix.drop_last() == all.take(i as int));
        if same_text(members[i].key.as_str(), key) {
            return Some(i);
        }
    }
    None
}

impl Json {
    /// The JSON value that `bytes` spell, if they spell one.
    pub fn parse(bytes: &[u8]) -> (r: Option<Json>)
        ensures
            model_of(r) == json_parse(bytes@),
    {
        parse_json(bytes)
    }

    /// The compact JSON text of this value.
    pub fn to_text(&self) -> (r: String)
        ensures
            r@ == json_text(self@),
    {
        print_json(self)
    }

    /// The member of an object that `key` names.
    pub fn get(&self, key: &str) -> (r: Option<&Json>)
        ensures
            match r {
                Some(j) => self@.member(key@) == Some(j@),
                None => self@.member(key@) is None,
            },
    {
        match self {
            Json::Object(members) => {
                proof {
                    lemma_members_model(members@);
                }
                match find_member(members, key) {
                    Some(i) => Some(&members[i].value),
                    None => None,
                }
            },
            _ => None,
        }
    }

    /// The string that this value is, if it is one.
    pub fn as_str(&self) -> (r: Option<&str>)
        ensures
            match r {
                Some(s) => self@.text() == Some(s@),
                None => self@.text() is None,
            },
    {
        match self {
            Json::Text(s) => Some(s.as_str()),
            _ => None,
        }
    }

    /// The whole number that this value is, if it is one and fits.
    pub fn as_i64(&self) -> (r: Option<i64>)
        ensures
            r == self@.integer(),
    {
        match self {
            Json::Number(JsonNumber::PosInt(n)) => if *n <= 0x7fff_ffff_ffff_ffff {
                Some(*n as i64)
            } else {
                None
            },
            Json::Number(JsonNumber::NegInt(n)) => Some(*n),
            _ => None,
        }
    }

    /// Whether this value is `null`.
    pub fn is_null(&self) -> (r: bool)
        ensures
            r == (self@ is Null),
    {
        match self {
            Json::Null => true,
            _ => false,
        }
    }
}

} // verus!
