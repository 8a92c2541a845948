use vstd::prelude::*;

use crate::snapshot::{Leader, LeaderView, leaders_view, opt_leaders_view};

verus! {

#[verifier::external_type_specification]
#[verifier::external_body]
pub struct ExJsonValue(serde_json::Value);

/// What a JSON value holds, as far as the decoder reads it. Objects are
/// maps: serde_json keeps one value per key.
pub enum JsonModel {
    Null,
    Bool(bool),
    Number,
    Str(Seq<char>),
    Array(Seq<JsonModel>),
    Object(Map<Seq<char>, JsonModel>),
}

/// What a parsed `serde_json::Value` holds.
pub uninterp spec fn json_model(v: serde_json::Value) -> JsonModel;

/// What serde_json's parser makes of a byte string: `None` where the bytes
/// are not one complete JSON text.
pub uninterp spec fn json_text(b: Seq<u8>) -> Option<JsonModel>;

/// Relies on `serde_json::from_slice::<Value>`: it parses the bytes as one
/// JSON text, and fails exactly where they are not one.
#[verifier::external_body]
fn parse_json(bytes: &[u8]) -> (r: Option<serde_json::Value>)
    ensures
        match r {
            Some(v) => json_text(bytes@) == Some(json_model(v)),
            None => json_text(bytes@) is None,
        },
{
    serde_json::from_slice::<serde_json::Value>(bytes).ok()
}

/// Relies on `serde_json::Value::get` with a `&str` index: the map's value
/// under that key for an object, `None` for a missing key or a non-object.
#[verifier::external_body]
fn object_field<'a>(v: &'a serde_json::Value, key: &str) -> (r: Option<&'a serde_json::Value>)
    ensures
        match json_model(*v) {
            JsonModel::Object(m) => if m.contains_key(key@) {
                r is Some && json_model(*r->Some_0) == m[key@]
            } else {
                r is None
            },
            _ => r is None,
        },
{
    v.get(key)
}

/// Relies on `serde_json::Value::as_array`: the elements, in order, of an
/// array, and `None` for anything else.
#[verifier::external_body]
fn array_items(v: &serde_json::Value) -> (r: Option<&Vec<serde_json::Value>>)
    ensures
        match json_model(*v) {
            JsonModel::Array(items) => r is Some && r->Some_0@.len() == items.len() && forall|
                i: int,
            |
                0 <= i < items.len() ==> json_model(#[trigger] r->Some_0@[i]) == items[i],
            _ => r is None,
        },
{
    v.as_array()
}

/// Relies on `serde_json::Value::as_str`: the text of a string, and `None`
/// for anything else.
#[verifier::external_body]
fn string_value(v: &serde_json::Value) -> (r: Option<&str>)
    ensures
        match json_model(*v) {
            JsonModel::Str(s) => r is Some && r->Some_0@ == s,
            _ => r is None,
        },
{
    v.as_str()
}

/// A leader entry: an object with string fields `userId` and `clicks`;
/// other fields are ignored.
pub open spec fn leader_of_json(j: JsonModel) -> Option<LeaderView> {
    match j {
        JsonModel::Object(m) => if m.contains_key("userId"@) && m.contains_key("clicks"@) {
            match (m["userId"@], m["clicks"@]) {
                (JsonModel::Str(u), JsonModel::Str(c)) => Some(
                    LeaderView { user_id: u, clicks: c },
                ),
                _ => None,
            }
        } else {
            None
        },
        _ => None,
    }
}

/// The leaderboard answer: an object whose `topClickers` field is an array
/// of leader entries, every one of them well formed. The list keeps the
/// array's order.
pub open spec fn leaders_of_json(j: JsonModel) -> Option<Seq<LeaderView>> {
    match j {
        JsonModel::Object(m) => if m.contains_key("topClickers"@) {
            match m["topClickers"@] {
                JsonModel::Array(items) => if forall|i: int|
                    0 <= i < items.len() ==> (#[trigger] leader_of_json(items[i])) is Some {
                    Some(items.map_values(|x: JsonModel| leader_of_json(x)->Some_0))
                } else {
                    None
                },
                _ => None,
            }
        } else {
            None
        },
        _ => None,
    }
}

/// The leader list that a response body decodes to, if any.
pub open spec fn decode_spec(body: Seq<u8>) -> Option<Seq<LeaderView>> {
    match json_text(body) {
        Some(j) => leaders_of_json(j),
        None => None,
    }
}

/// Reads one leader entry from a parsed value.
pub fn leader_from_json(v: &serde_json::Value) -> (r: Option<Leader>)
    ensures
        match r {
            Some(l) => leader_of_json(json_model(*v)) == Some(l@),
            None => leader_of_json(json_model(*v)) is None,
        },
{
    let user_id = match object_field(v, "userId") {
        Some(f) => string_value(f),
        None => None,
    };
    let clicks = match object_field(v, "clicks") {
        Some(f) => string_value(f),
        None => None,
    };
    match (user_id, clicks) {
        (Some(u), Some(c)) => Some(Leader { user_id: u.to_owned(), clicks: c.to_owned() }),
        _ => None,
    }
}

/// Reads the leader list from a parsed leaderboard answer.
pub fn leaders_from_json(v: &serde_json::Value) -> (r: Option<Vec<Leader>>)
    ensures
        opt_leaders_view(r) == leaders_of_json(json_model(*v)),
{
    let items = match object_field(v, "topClickers") {
        Some(f) => match array_items(f) {
            Some(a) => a,
            None => return None,
        },
        None => return None,
    };
    let ghost model = json_model(*v);
    let ghost arr = model->Object_0["topClickers"@]->Array_0;
    let mut out: Vec<Leader> = Vec::new();
    let mut i: usize = 0;
    while i < items.len()
        invariant
            i <= items@.len(),
            items@.len() == arr.len(),
            model == json_model(*v),
            model is Object,
            model->Object_0.contains_key("topClickers"@),
            model->Object_0["topClickers"@] == JsonModel::Array(arr),
            forall|j: int| 0 <= j < arr.len() ==> json_model(#[trigger] items@[j]) == arr[j],
            out@.len() == i,
            forall|j: int|
                0 <= j < i ==> leader_of_json(arr[j]) == Some((#[trigger] out@[j])@),
        decreases items@.len() - i,
    {
        match leader_from_json(&items[i]) {
            Some(l) => out.push(l),
            None => {
                assert(leader_of_json(arr[i as int]) is None);
                return None;
            },
        }
        i = i + 1;
    }
    assert forall|j: int| 0 <= j < arr.len() implies (#[trigger] leader_of_json(arr[j])) is Some by {
        assert(leader_of_json(arr[j]) == Some(out@[j]@));
    }
    assert(leaders_view(out@) =~= arr.map_values(|x: JsonModel| leader_of_json(x)->Some_0));
    Some(out)
}

/// Decodes a response body of the leaderboard service into its leader
/// list; `None` where the body is not JSON or not of that shape.
pub fn decode_leaders(body: &[u8]) -> (r: Option<Vec<Leader>>)
    ensures
        opt_leaders_view(r) == decode_spec(body@),
{
    match parse_json(body) {
        Some(v) => leaders_from_json(&v),
        None => None,
    }
}

} // verus!
