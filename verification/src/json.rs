use vstd::prelude::*;

verus! {

/// A JSON document as the price service sends it. Numbers keep the text that
/// `serde_json` writes for them; an object lists its members in order, each
/// key once.
#[derive(Debug, PartialEq)]
pub enum JsonValue {
    Null,
    Bool(bool),
    Number(String),
    String(String),
    Array(Vec<JsonValue>),
    Object(Vec<(String, JsonValue)>),
}

/// The value of the first member named `key`, if any.
pub open spec fn member(entries: Seq<(String, JsonValue)>, key: Seq<char>) -> Option<JsonValue>
    decreases entries.len(),
{
    if entries.len() == 0 {
        None
    } else if entries[0].0@ == key {
        Some(entries[0].1)
    } else {
        member(entries.drop_first(), key)
    }
}

/// `v[key]`: the member of an object, or `Null` when `v` is not an object or
/// has no such member.
pub open spec fn at_key(v: JsonValue, key: Seq<char>) -> JsonValue {
    match v {
        JsonValue::Object(entries) => match member(entries@, key) {
            Some(x) => x,
            None => JsonValue::Null,
        },
        _ => JsonValue::Null,
    }
}

/// `v[i]`: the element of an array, or `Null` when `v` is not an array or is
/// too short.
pub open spec fn at_index(v: JsonValue, i: int) -> JsonValue {
    match v {
        JsonValue::Array(items) => if 0 <= i < items@.len() { items@[i] } else { JsonValue::Null },
        _ => JsonValue::Null,
    }
}

/// `json["pairs"][0][key]`: a field of the first pair in an answer of the
/// price service.
pub open spec fn first_pair_field(v: JsonValue, key: Seq<char>) -> JsonValue {
    at_key(at_index(at_key(v, "pairs"@), 0), key)
}

fn get_member<'a>(v: &'a JsonValue, key: &String) -> (r: &'a JsonValue)
    ensures
        *r == at_key(*v, key@),
{
    match v {
        JsonValue::Object(entries) => {
            let mut i: usize = 0;
            proof {
                assert(entries@.skip(0) =~= entries@);
            }
            while i < entries.len()
                invariant
                    0 <= i <= entries@.len(),
                    *v == JsonValue::Object(*entries),
                    member(entries@, key@) == member(entries@.skip(i as int), key@),
                decreases entries@.len() - i,
            {
                proof {
                    assert(entries@.skip(i as int).drop_first() =~= entries@.skip(i + 1));
                }
                if entries[i].0 == *key {
                    proof {
                        assert(entries@.skip(i as int)[0] == entries@[i as int]);
                    }
                    return &entries[i].1;
                }
                i = i + 1;
            }
            &JsonValue::Null
        },
        _ => &JsonValue::Null,
    }
}

fn get_index<'a>(v: &'a JsonValue, i: usize) -> (r: &'a JsonValue)
    ensures
        *r == at_index(*v, i as int),
{
    match v {
        JsonValue::Array(items) => if i < items.len() { &items[i] } else { &JsonValue::Null },
        _ => &JsonValue::Null,
    }
}

fn first_pair<'a>(v: &'a JsonValue, key: &str) -> (r: &'a JsonValue)
    ensures
        *r == first_pair_field(*v, key@),
{
    let pairs = get_member(v, &String::from_str("pairs"));
    let first = get_index(pairs, 0);
    get_member(first, &String::from_str(key))
}

/// The USD price of the token in an answer of the price service:
/// `json["pairs"][0]["priceUsd"]` when it is a string.
pub fn price_usd_text(v: &JsonValue) -> (r: Option<String>)
    ensures
        r == match first_pair_field(*v, "priceUsd"@) {
            JsonValue::String(s) => Some(s),
            _ => None::<String>,
        },
{
    match first_pair(v, "priceUsd") {
        JsonValue::String(s) => Some(s.clone()),
        _ => None,
    }
}

/// The market cap in an answer of the price service:
/// `json["pairs"][0]["marketCap"]` when it is a number, as written.
pub fn market_cap_text(v: &JsonValue) -> (r: Option<String>)
    ensures
        r == match first_pair_field(*v, "marketCap"@) {
            JsonValue::Number(n) => Some(n),
            _ => None::<String>,
        },
{
    match first_pair(v, "marketCap") {
        JsonValue::Number(n) => Some(n.clone()),
        _ => None,
    }
}

} // verus!
