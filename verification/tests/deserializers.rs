use backpacktf::decimal::parse_u64;
use backpacktf::error::{DeError, Expected};
use backpacktf::json::{find_field, JsonNumber, JsonValue};
use backpacktf::response::attributes::Value as AttributeValue;
use backpacktf::response::deserializers::{
    attribute_value, bool_from_int, currency_type_enum_from_str, default_on_null,
    deserialize_attributes, empty_string_as_none, enum_key, enum_name, from_optional_float_or_string,
    from_optional_number_or_string, from_str, listing_intent_enum_from_str, map_to_enum,
    map_to_enum_option, map_to_enum_option_from_name, number_to_u32, presence, string_or_number,
    EnumKey, FloatSource, Scalar,
};
use backpacktf::{CurrencyType, ListingIntent};

fn text(s: &str) -> JsonValue {
    JsonValue::String(s.to_string())
}

fn num(n: u64) -> JsonValue {
    JsonValue::Number(JsonNumber::PosInt(n))
}

fn object(entries: Vec<(&str, JsonValue)>) -> JsonValue {
    JsonValue::Object(entries.into_iter().map(|(k, v)| (k.to_string(), v)).collect())
}

fn custom(msg: &str) -> DeError {
    DeError::Custom(msg.to_string())
}

/// A conversion by id as an enum with ids 1 to 3 would do it.
fn id_to_name(id: u32) -> Result<String, String> {
    match id {
        1 => Ok("One".to_string()),
        2 => Ok("Two".to_string()),
        3 => Ok("Three".to_string()),
        _ => Err(format!("no variant with id {}", id)),
    }
}

/// A conversion by name that takes the names `One` to `Three`.
fn name_to_name(s: String) -> Result<String, String> {
    match s.as_str() {
        "One" | "Two" | "Three" => Ok(s),
        _ => Err("Matching variant not found".to_string()),
    }
}

#[test]
fn bool_from_int_reads_zero_and_one() {
    assert_eq!(bool_from_int(0), Ok(false));
    assert_eq!(bool_from_int(1), Ok(true));
}

#[test]
fn bool_from_int_refuses_other_integers() {
    assert_eq!(
        bool_from_int(2),
        Err(DeError::InvalidUnsigned { value: 2, expected: "zero or one".to_string() })
    );
    assert_eq!(
        bool_from_int(255),
        Err(DeError::InvalidUnsigned { value: 255, expected: "zero or one".to_string() })
    );
}

#[test]
fn presence_is_anything_but_null() {
    assert!(!presence(&JsonValue::Null));
    assert!(presence(&JsonValue::Bool(false)));
    assert!(presence(&num(0)));
    assert!(presence(&text("")));
    assert!(presence(&JsonValue::Array(vec![])));
    assert!(presence(&object(vec![])));
}

#[test]
fn number_to_u32_takes_integers_that_fit() {
    assert_eq!(number_to_u32(&JsonNumber::PosInt(0)), Ok(0));
    assert_eq!(number_to_u32(&JsonNumber::PosInt(4294967295)), Ok(u32::MAX));
}

#[test]
fn number_to_u32_refuses_too_large_numbers() {
    assert_eq!(
        number_to_u32(&JsonNumber::PosInt(4294967296)),
        Err("number does not fit into u32".to_string())
    );
}

#[test]
fn number_to_u32_refuses_negative_and_fractional_numbers() {
    assert_eq!(number_to_u32(&JsonNumber::NegInt(-1)), Err("not an integer".to_string()));
    assert_eq!(
        number_to_u32(&JsonNumber::Float(1.5f64.to_bits())),
        Err("not an integer".to_string())
    );
}

#[test]
fn find_field_finds_the_first_entry() {
    let entries = vec![
        ("a".to_string(), num(1)),
        ("id".to_string(), num(2)),
        ("id".to_string(), num(3)),
    ];
    assert_eq!(find_field(&entries, &"id".to_string()), Some(1));
    assert_eq!(find_field(&entries, &"name".to_string()), None);
}

#[test]
fn enum_key_reads_id_objects_names_and_numbers() {
    assert_eq!(enum_key(object(vec![("id", num(5))])), Ok(EnumKey::Id(5)));
    assert_eq!(
        enum_key(object(vec![("name", text("Unusual"))])),
        Ok(EnumKey::Name("Unusual".to_string()))
    );
    assert_eq!(enum_key(num(7)), Ok(EnumKey::Id(7)));
}

#[test]
fn enum_key_prefers_the_id() {
    assert_eq!(
        enum_key(object(vec![("name", text("Unusual")), ("id", num(5))])),
        Ok(EnumKey::Id(5))
    );
    assert_eq!(
        enum_key(object(vec![("id", text("5")), ("name", text("Unusual"))])),
        Err(DeError::ExpectedGot { kind: Expected::Number, got: text("5") })
    );
}

#[test]
fn enum_key_errors() {
    assert_eq!(enum_key(object(vec![])), Err(custom("expected a number, got `1`")));
    assert_eq!(
        enum_key(object(vec![("name", num(3))])),
        Err(DeError::ExpectedGot { kind: Expected::Number, got: num(3) })
    );
    assert_eq!(enum_key(text("x")), Err(DeError::ExpectedGot { kind: Expected::Number, got: text("x") }));
    assert_eq!(enum_key(JsonValue::Null), Err(DeError::ExpectedGot { kind: Expected::Number, got: JsonValue::Null }));
    assert_eq!(enum_key(JsonValue::Number(JsonNumber::NegInt(-3))), Err(custom("not an integer")));
    assert_eq!(
        enum_key(object(vec![("id", num(1 << 40))])),
        Err(custom("number does not fit into u32"))
    );
}

#[test]
fn map_to_enum_converts_the_key() {
    assert_eq!(map_to_enum(object(vec![("id", num(2))]), id_to_name, name_to_name), Ok("Two".to_string()));
    assert_eq!(map_to_enum(num(3), id_to_name, name_to_name), Ok("Three".to_string()));
    assert_eq!(
        map_to_enum(object(vec![("name", text("One"))]), id_to_name, name_to_name),
        Ok("One".to_string())
    );
}

#[test]
fn map_to_enum_reports_conversion_errors() {
    assert_eq!(
        map_to_enum(num(9), id_to_name, name_to_name),
        Err(custom("no variant with id 9"))
    );
    assert_eq!(
        map_to_enum(object(vec![("name", text("Four"))]), id_to_name, name_to_name),
        Err(custom("Matching variant not found"))
    );
    assert_eq!(
        map_to_enum(JsonValue::Bool(true), id_to_name, name_to_name),
        Err(DeError::ExpectedGot { kind: Expected::Number, got: JsonValue::Bool(true) })
    );
}

#[test]
fn map_to_enum_option_wraps_in_some() {
    assert_eq!(
        map_to_enum_option(object(vec![("id", num(1))]), id_to_name, name_to_name),
        Ok(Some("One".to_string()))
    );
    assert_eq!(map_to_enum_option(num(2), id_to_name, name_to_name), Ok(Some("Two".to_string())));
    assert_eq!(
        map_to_enum_option(object(vec![]), id_to_name, name_to_name),
        Err(custom("expected a number, got `1`"))
    );
    assert_eq!(map_to_enum_option(num(0), id_to_name, name_to_name), Err(custom("no variant with id 0")));
}

#[test]
fn enum_name_reads_name_objects_and_strings() {
    assert_eq!(enum_name(object(vec![("name", text("Two"))])), Ok("Two".to_string()));
    assert_eq!(enum_name(text("Two")), Ok("Two".to_string()));
    assert_eq!(enum_name(object(vec![("id", num(2))])), Err(custom("expected a string, got `1`")));
    assert_eq!(
        enum_name(object(vec![("name", num(2))])),
        Err(DeError::ExpectedGot { kind: Expected::String, got: num(2) })
    );
    assert_eq!(enum_name(num(2)), Err(DeError::ExpectedGot { kind: Expected::String, got: num(2) }));
}

#[test]
fn map_to_enum_option_from_name_converts_the_name() {
    assert_eq!(
        map_to_enum_option_from_name(object(vec![("name", text("Three"))]), name_to_name),
        Ok(Some("Three".to_string()))
    );
    assert_eq!(map_to_enum_option_from_name(text("One"), name_to_name), Ok(Some("One".to_string())));
    assert_eq!(
        map_to_enum_option_from_name(text("Five"), name_to_name),
        Err(custom("Matching variant not found"))
    );
}

#[test]
fn from_str_reports_the_parse_error() {
    let parse = |s: String| s.parse::<u16>().map_err(|e| e.to_string());
    assert_eq!(from_str("640".to_string(), parse), Ok(640u16));
    assert_eq!(from_str("x".to_string(), parse), Err(custom("invalid digit found in string")));
}

#[test]
fn parse_u64_reads_decimal_text() {
    assert_eq!(parse_u64("0"), Some(0));
    assert_eq!(parse_u64("+42"), Some(42));
    assert_eq!(parse_u64("007"), Some(7));
    assert_eq!(parse_u64("18446744073709551615"), Some(u64::MAX));
}

#[test]
fn parse_u64_refuses_what_std_refuses() {
    for s in ["", "+", "-1", "1.5", " 1", "1 ", "18446744073709551616", "abc", "١٢"] {
        assert_eq!(parse_u64(s), s.parse::<u64>().ok(), "{:?}", s);
        assert_eq!(parse_u64(s), None);
    }
}

#[test]
fn parse_u64_agrees_with_std() {
    for s in ["0", "1", "+0", "99", "4294967296", "18446744073709551615", "99999999999999999999", "12a"] {
        assert_eq!(parse_u64(s), s.parse::<u64>().ok(), "{:?}", s);
    }
}

#[test]
fn attribute_value_reads_numbers_and_text() {
    assert_eq!(attribute_value(text("")), Ok(None));
    assert_eq!(attribute_value(JsonValue::Null), Ok(None));
    assert_eq!(attribute_value(text("15185211")), Ok(Some(AttributeValue::Number(15185211))));
    assert_eq!(attribute_value(text("+3")), Ok(Some(AttributeValue::Number(3))));
    assert_eq!(attribute_value(text("Team Spirit")), Ok(Some(AttributeValue::String("Team Spirit".to_string()))));
    assert_eq!(attribute_value(text("-5")), Ok(Some(AttributeValue::String("-5".to_string()))));
    assert_eq!(
        attribute_value(text("18446744073709551616")),
        Ok(Some(AttributeValue::String("18446744073709551616".to_string())))
    );
    assert_eq!(attribute_value(num(1)), Ok(Some(AttributeValue::Number(1))));
}

#[test]
fn attribute_value_errors() {
    assert_eq!(attribute_value(JsonValue::Number(JsonNumber::NegInt(-1))), Err(custom("Invalid number")));
    assert_eq!(
        attribute_value(JsonValue::Number(JsonNumber::Float(0.5f64.to_bits()))),
        Err(custom("Invalid number"))
    );
    assert_eq!(attribute_value(JsonValue::Bool(true)), Err(custom("Invalid attribute")));
    assert_eq!(attribute_value(JsonValue::Array(vec![])), Err(custom("Invalid attribute")));
    assert_eq!(attribute_value(object(vec![])), Err(custom("Invalid attribute")));
}

#[test]
fn attribute_value_decimal_text_reads_as_the_number() {
    for n in [0u64, 9, 10, 4166, u64::MAX] {
        assert_eq!(attribute_value(text(&n.to_string())), attribute_value(num(n)));
    }
}

fn parse_u8(s: String) -> Result<u8, String> {
    s.parse::<u8>().map_err(|e| e.to_string())
}

#[test]
fn from_optional_number_or_string_reads_both() {
    assert_eq!(from_optional_number_or_string(text(""), parse_u8), Ok(None));
    assert_eq!(from_optional_number_or_string(JsonValue::Null, parse_u8), Ok(None));
    assert_eq!(from_optional_number_or_string(text("12"), parse_u8), Ok(Some(12u8)));
    assert_eq!(from_optional_number_or_string(num(200), parse_u8), Ok(Some(200u8)));
}

#[test]
fn from_optional_number_or_string_errors() {
    assert_eq!(
        from_optional_number_or_string(text("300"), parse_u8),
        Err(custom("number too large to fit in target type"))
    );
    assert_eq!(
        from_optional_number_or_string(num(300), parse_u8),
        Err(custom("Number too large to fit in target type"))
    );
    assert_eq!(
        from_optional_number_or_string(JsonValue::Number(JsonNumber::NegInt(-2)), parse_u8),
        Err(custom("Invalid number"))
    );
    assert_eq!(from_optional_number_or_string(JsonValue::Bool(false), parse_u8), Err(custom("Not a number")));
}

#[test]
fn from_optional_float_or_string_decides_the_source() {
    assert_eq!(from_optional_float_or_string(text("")), Ok(None));
    assert_eq!(from_optional_float_or_string(JsonValue::Null), Ok(None));
    assert_eq!(
        from_optional_float_or_string(text("1.5")),
        Ok(Some(FloatSource::Text("1.5".to_string())))
    );
    assert_eq!(
        from_optional_float_or_string(JsonValue::Number(JsonNumber::NegInt(-4))),
        Ok(Some(FloatSource::Number(JsonNumber::NegInt(-4))))
    );
    assert_eq!(from_optional_float_or_string(JsonValue::Array(vec![])), Err(custom("Not a number")));
}

#[test]
fn string_or_number_reads_integers_and_text() {
    assert_eq!(string_or_number(Scalar::Signed(7), parse_u8), Ok(7u8));
    assert_eq!(string_or_number(Scalar::Unsigned(255), parse_u8), Ok(255u8));
    assert_eq!(string_or_number(Scalar::Str("31".to_string()), parse_u8), Ok(31u8));
}

#[test]
fn string_or_number_errors() {
    assert_eq!(
        string_or_number(Scalar::Signed(-1), parse_u8),
        Err(custom("Number too large to fit in target type"))
    );
    assert_eq!(
        string_or_number(Scalar::Unsigned(256), parse_u8),
        Err(custom("Number too large to fit in target type"))
    );
    assert_eq!(
        string_or_number(Scalar::Str("abc".to_string()), parse_u8),
        Err(custom("invalid digit found in string"))
    );
}

#[test]
fn empty_string_as_none_skips_missing_and_empty() {
    let deserialize = |s: String| -> Result<u32, String> { s.parse::<u32>().map_err(|e| e.to_string()) };
    assert_eq!(empty_string_as_none(None, deserialize), Ok(None));
    assert_eq!(empty_string_as_none(Some(String::new()), deserialize), Ok(None));
    assert_eq!(empty_string_as_none(Some("44".to_string()), deserialize), Ok(Some(44)));
    assert_eq!(
        empty_string_as_none(Some("x".to_string()), deserialize),
        Err("invalid digit found in string".to_string())
    );
}

#[test]
fn default_on_null_gives_the_default() {
    assert_eq!(default_on_null(Some(3u32)), 3);
    assert_eq!(default_on_null::<u32>(None), 0);
    assert_eq!(default_on_null::<String>(None), String::new());
}

#[test]
fn listing_intent_reads_buy_and_sell() {
    assert_eq!(listing_intent_enum_from_str("buy".to_string()), Ok(ListingIntent::Buy));
    assert_eq!(listing_intent_enum_from_str("sell".to_string()), Ok(ListingIntent::Sell));
    assert_eq!(listing_intent_enum_from_str("Buy".to_string()), Err(custom("Invalid intent")));
    assert_eq!(listing_intent_enum_from_str("".to_string()), Err(custom("Invalid intent")));
}

#[test]
fn currency_type_reads_keys_and_metal() {
    assert_eq!(currency_type_enum_from_str("keys".to_string()), Ok(CurrencyType::Keys));
    assert_eq!(currency_type_enum_from_str("metal".to_string()), Ok(CurrencyType::Metal));
    assert_eq!(currency_type_enum_from_str("usd".to_string()), Err(custom("Invalid currency type")));
}

#[test]
fn deserialize_attributes_keeps_the_last_of_each_defindex() {
    let map = deserialize_attributes(vec![(142u32, "a"), (380, "b"), (142, "c")]);
    assert_eq!(map.len(), 2);
    assert_eq!(map.get(&142), Some(&"c"));
    assert_eq!(map.get(&380), Some(&"b"));
    assert!(deserialize_attributes(Vec::<(u32, u8)>::new()).is_empty());
}

#[test]
fn map_to_enum_id_object_means_the_bare_number() {
    assert_eq!(
        map_to_enum(object(vec![("id", num(2)), ("name", text("Three"))]), id_to_name, name_to_name),
        map_to_enum(num(2), id_to_name, name_to_name)
    );
    assert_eq!(
        map_to_enum(object(vec![("id", num(8))]), id_to_name, name_to_name),
        map_to_enum(num(8), id_to_name, name_to_name)
    );
}

#[test]
fn map_to_enum_option_is_map_to_enum_in_some() {
    for v in [num(1), num(6), text("x"), object(vec![("name", text("Two"))]), object(vec![])] {
        let plain = map_to_enum(clone_value(&v), id_to_name, name_to_name);
        let option = map_to_enum_option(v, id_to_name, name_to_name);
        assert_eq!(option, plain.map(Some));
    }
}

#[test]
fn map_to_enum_option_from_name_object_means_the_bare_string() {
    assert_eq!(
        map_to_enum_option_from_name(object(vec![("id", num(1)), ("name", text("Two"))]), name_to_name),
        map_to_enum_option_from_name(text("Two"), name_to_name)
    );
}

fn clone_value(v: &JsonValue) -> JsonValue {
    match v {
        JsonValue::Null => JsonValue::Null,
        JsonValue::Bool(b) => JsonValue::Bool(*b),
        JsonValue::Number(n) => JsonValue::Number(*n),
        JsonValue::String(s) => JsonValue::String(s.clone()),
        JsonValue::Array(items) => JsonValue::Array(items.iter().map(clone_value).collect()),
        JsonValue::Object(entries) => {
            JsonValue::Object(entries.iter().map(|(k, v)| (k.clone(), clone_value(v))).collect())
        }
    }
}
