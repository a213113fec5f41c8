use bot_telegram::json::{market_cap_text, price_usd_text, JsonValue};

fn s(x: &str) -> String {
    x.to_string()
}

fn answer(first_pair: JsonValue) -> JsonValue {
    JsonValue::Object(vec![
        (s("schemaVersion"), JsonValue::String(s("1.0.0"))),
        (s("pairs"), JsonValue::Array(vec![first_pair, JsonValue::Null])),
    ])
}

#[test]
fn price_and_market_cap_of_first_pair() {
    let v = answer(JsonValue::Object(vec![
        (s("priceUsd"), JsonValue::String(s("0.0123"))),
        (s("marketCap"), JsonValue::Number(s("1234567.5"))),
    ]));
    assert_eq!(price_usd_text(&v), Some(s("0.0123")));
    assert_eq!(market_cap_text(&v), Some(s("1234567.5")));
}

#[test]
fn wrong_kinds_give_none() {
    let v = answer(JsonValue::Object(vec![
        (s("priceUsd"), JsonValue::Number(s("2"))),
        (s("marketCap"), JsonValue::String(s("99"))),
    ]));
    assert_eq!(price_usd_text(&v), None);
    assert_eq!(market_cap_text(&v), None);
}

#[test]
fn missing_parts_give_none() {
    assert_eq!(price_usd_text(&JsonValue::Null), None);
    let no_pairs = JsonValue::Object(vec![(s("pairs"), JsonValue::Null)]);
    assert_eq!(market_cap_text(&no_pairs), None);
    let empty = JsonValue::Object(vec![(s("pairs"), JsonValue::Array(vec![]))]);
    assert_eq!(price_usd_text(&empty), None);
    let not_object = answer(JsonValue::Array(vec![JsonValue::String(s("priceUsd"))]));
    assert_eq!(price_usd_text(&not_object), None);
}
