//! The decisions of the response deserializers. Each function takes what
//! the deserializer reads (a JSON value, an integer, a string) and decides
//! what the field becomes or which error is reported.

use vstd::prelude::*;
use vstd::std_specs::convert::TryFromSpec;
use crate::decimal::{
    decimal_text, is_digit, law_parse_refuses_non_digit, lemma_parse_decimal_text, parse_u64, spec_parse_u64,
};
use crate::enums::{CurrencyType, ListingIntent};
use crate::error::{custom, DeError, DeErrorView, Expected};
use crate::json::{find_field, get_field, law_as_u64, spec_as_u64, JsonNumber, JsonValue};
use crate::response::attributes::Value as AttributeValue;
use std::collections::HashMap;

verus! {

/// Reads a boolean written as the integer 0 or 1.
pub fn bool_from_int(n: u8) -> (r: Result<bool, DeError>)
    ensures
        n == 0 ==> r == Ok::<bool, DeError>(false),
        n == 1 ==> r == Ok::<bool, DeError>(true),
        n > 1 ==> (r matches Err(e) && e@ == (DeErrorView::InvalidUnsigned {
            value: n as u64,
            expected: "zero or one"@,
        })),
{
    match n {
        0 => Ok(false),
        1 => Ok(true),
        other => Err(
            DeError::InvalidUnsigned { value: other as u64, expected: String::from_str("zero or one") },
        ),
    }
}

/// Whether a field is present: anything but `null`.
pub fn presence(value: &JsonValue) -> (r: bool)
    ensures
        r == !(*value is Null),
{
    match value {
        JsonValue::Null => false,
        _ => true,
    }
}

/// A `Result` whose error text is taken as a character sequence.
pub open spec fn text_result<T>(r: Result<T, String>) -> Result<T, Seq<char>> {
    match r {
        Ok(v) => Ok(v),
        Err(m) => Err(m@),
    }
}

/// A `Result` whose error is taken by its view.
pub open spec fn error_view<T>(r: Result<T, DeError>) -> Result<T, DeErrorView> {
    match r {
        Ok(v) => Ok(v),
        Err(e) => Err(e@),
    }
}

pub open spec fn spec_number_to_u32(n: JsonNumber) -> Result<u32, Seq<char>> {
    match spec_as_u64(n) {
        None => Err("not an integer"@),
        Some(v) => if v <= u32::MAX {
            Ok(v as u32)
        } else {
            Err("number does not fit into u32"@)
        },
    }
}

/// Reads a JSON number as a `u32`: it must be a non-negative integer that
/// fits.
pub fn number_to_u32(value: &JsonNumber) -> (r: Result<u32, String>)
    ensures
        text_result(r) == spec_number_to_u32(*value),
{
    let number = match value.as_u64() {
        Some(n) => n,
        None => {
            return Err(String::from_str("not an integer"));
        },
    };
    match u32::try_from(number) {
        Ok(n) => Ok(n),
        Err(_e) => Err(String::from_str("number does not fit into u32")),
    }
}

/// How a JSON value names an enum variant: by its numeric id, or by its name.
#[derive(Debug, PartialEq)]
pub enum EnumKey {
    Id(u32),
    Name(String),
}

/// The error for a value of the wrong kind.
pub open spec fn expected_got(kind: Expected, got: JsonValue) -> DeErrorView {
    DeErrorView::ExpectedGot { kind, got }
}

/// The key that a number gives: its value as a `u32`.
pub open spec fn spec_id_key(n: JsonNumber) -> Result<EnumKey, DeErrorView> {
    match spec_number_to_u32(n) {
        Ok(id) => Ok(EnumKey::Id(id)),
        Err(m) => Err(DeErrorView::Custom(m)),
    }
}

/// How `map_to_enum` reads a value: `{"id": n}` (the `id` field first),
/// `{"name": s}`, or a bare number `n`.
pub open spec fn spec_enum_key(value: JsonValue) -> Result<EnumKey, DeErrorView> {
    match value {
        JsonValue::Object(entries) => match get_field(entries@, "id"@) {
            Some(JsonValue::Number(n)) => spec_id_key(n),
            Some(other) => Err(expected_got(Expected::Number, other)),
            None => match get_field(entries@, "name"@) {
                Some(JsonValue::String(s)) => Ok(EnumKey::Name(s)),
                Some(other) => Err(expected_got(Expected::Number, other)),
                None => Err(DeErrorView::Custom("expected a number, got `1`"@)),
            },
        },
        JsonValue::Number(n) => spec_id_key(n),
        other => Err(expected_got(Expected::Number, other)),
    }
}

/// How `map_to_enum_option_from_name` reads a value: `{"name": s}` or a bare
/// string `s`.
pub open spec fn spec_enum_name(value: JsonValue) -> Result<String, DeErrorView> {
    match value {
        JsonValue::Object(entries) => match get_field(entries@, "name"@) {
            Some(JsonValue::String(s)) => Ok(s),
            Some(other) => Err(expected_got(Expected::String, other)),
            None => Err(DeErrorView::Custom("expected a string, got `1`"@)),
        },
        JsonValue::String(s) => Ok(s),
        other => Err(expected_got(Expected::String, other)),
    }
}

fn id_key(n: &JsonNumber) -> (r: Result<EnumKey, DeError>)
    ensures
        error_view(r) == spec_id_key(*n),
{
    match number_to_u32(n) {
        Ok(id) => Ok(EnumKey::Id(id)),
        Err(m) => Err(DeError::Custom(m)),
    }
}

/// Takes the value of an object's entry at `i` out of the object.
fn take_entry(entries: Vec<(String, JsonValue)>, i: usize) -> (v: JsonValue)
    requires
        i < entries@.len(),
    ensures
        v == entries@[i as int].1,
{
    let mut entries = entries;
    let (_key, v) = entries.remove(i);
    v
}

/// Reads which enum variant a JSON value names: `{"id": n}` (the `id` field
/// first), `{"name": s}`, or a bare number `n`.
pub fn enum_key(value: JsonValue) -> (r: Result<EnumKey, DeError>)
    ensures
        error_view(r) == spec_enum_key(value),
{
    match value {
        JsonValue::Object(entries) => {
            let id_field = String::from_str("id");
            match find_field(&entries, &id_field) {
                Some(i) => match take_entry(entries, i) {
                    JsonValue::Number(n) => id_key(&n),
                    other => Err(DeError::ExpectedGot { kind: Expected::Number, got: other }),
                },
                None => {
                    let name_field = String::from_str("name");
                    match find_field(&entries, &name_field) {
                        Some(i) => match take_entry(entries, i) {
                            JsonValue::String(s) => Ok(EnumKey::Name(s)),
                            other => Err(DeError::ExpectedGot { kind: Expected::Number, got: other }),
                        },
                        None => Err(custom("expected a number, got `1`")),
                    }
                },
            }
        },
        JsonValue::Number(n) => id_key(&n),
        other => Err(DeError::ExpectedGot { kind: Expected::Number, got: other }),
    }
}

/// Reads the name of an enum variant: `{"name": s}` or a bare string `s`.
pub fn enum_name(value: JsonValue) -> (r: Result<String, DeError>)
    ensures
        error_view(r) == spec_enum_name(value),
{
    match value {
        JsonValue::Object(entries) => {
            let name_field = String::from_str("name");
            match find_field(&entries, &name_field) {
                Some(i) => match take_entry(entries, i) {
                    JsonValue::String(s) => Ok(s),
                    other => Err(DeError::ExpectedGot { kind: Expected::String, got: other }),
                },
                None => Err(custom("expected a string, got `1`")),
            }
        },
        JsonValue::String(s) => Ok(s),
        other => Err(DeError::ExpectedGot { kind: Expected::String, got: other }),
    }
}

/// `r` is what the conversion result `c` becomes: its value wrapped by
/// `wrap`, or its message as a custom error.
pub open spec fn lifts<T, U>(c: Result<T, String>, r: Result<U, DeError>, wrap: spec_fn(T) -> U) -> bool {
    match c {
        Ok(t) => r == Ok::<U, DeError>(wrap(t)),
        Err(m) => r matches Err(e) && e@ == DeErrorView::Custom(m@),
    }
}

/// `r` is what a read key becomes: the read error, or the result of
/// converting the id with `from_id` or the name with `from_name`.
pub open spec fn enum_converted<T, U, F, G>(
    key: Result<EnumKey, DeErrorView>,
    from_id: F,
    from_name: G,
    r: Result<U, DeError>,
    wrap: spec_fn(T) -> U,
) -> bool where F: Fn(u32) -> Result<T, String>, G: Fn(String) -> Result<T, String> {
    match key {
        Err(e) => r matches Err(e2) && e2@ == e,
        Ok(EnumKey::Id(id)) => exists|c: Result<T, String>|
            call_ensures(from_id, (id,), c) && lifts(c, r, wrap),
        Ok(EnumKey::Name(s)) => exists|c: Result<T, String>|
            call_ensures(from_name, (s,), c) && lifts(c, r, wrap),
    }
}

/// `r` is what a read name becomes: the read error, or the result of
/// converting the name with `from_name`.
pub open spec fn name_converted<T, U, G>(
    name: Result<String, DeErrorView>,
    from_name: G,
    r: Result<U, DeError>,
    wrap: spec_fn(T) -> U,
) -> bool where G: Fn(String) -> Result<T, String> {
    match name {
        Err(e) => r matches Err(e2) && e2@ == e,
        Ok(s) => exists|c: Result<T, String>| call_ensures(from_name, (s,), c) && lifts(c, r, wrap),
    }
}

fn lift<T>(c: Result<T, String>) -> (r: Result<T, DeError>)
    ensures
        lifts(c, r, |t: T| t),
{
    match c {
        Ok(t) => Ok(t),
        Err(m) => Err(DeError::Custom(m)),
    }
}

fn lift_some<T>(c: Result<T, String>) -> (r: Result<Option<T>, DeError>)
    ensures
        lifts(c, r, |t: T| Some(t)),
{
    match c {
        Ok(t) => Ok(Some(t)),
        Err(m) => Err(DeError::Custom(m)),
    }
}

/// Reads a value of type `T` from its text with `parse`, whose error message
/// becomes a custom error.
pub fn from_str<T, P>(s: String, parse: P) -> (r: Result<T, DeError>)
    where P: Fn(String) -> Result<T, String>,
    requires
        forall|t: String| parse.requires((t,)),
    ensures
        exists|c: Result<T, String>| call_ensures(parse, (s,), c) && lifts(c, r, |t: T| t),
{
    let c = parse(s);
    lift(c)
}

/// Reads an enum variant from `{"id": n}`, `{"name": s}` or a bare number
/// `n`: the id is converted with `from_id`, the name with `from_name`.
pub fn map_to_enum<T, F, G>(value: JsonValue, from_id: F, from_name: G) -> (r: Result<T, DeError>)
    where F: Fn(u32) -> Result<T, String>, G: Fn(String) -> Result<T, String>,
    requires
        forall|id: u32| from_id.requires((id,)),
        forall|s: String| from_name.requires((s,)),
    ensures
        enum_converted(spec_enum_key(value), from_id, from_name, r, |t: T| t),
{
    match enum_key(value) {
        Err(e) => Err(e),
        Ok(EnumKey::Id(id)) => {
            let c = from_id(id);
            lift(c)
        },
        Ok(EnumKey::Name(s)) => {
            let c = from_name(s);
            lift(c)
        },
    }
}

/// As `map_to_enum`, with the variant wrapped in `Some`.
pub fn map_to_enum_option<T, F, G>(value: JsonValue, from_id: F, from_name: G) -> (r: Result<Option<T>, DeError>)
    where F: Fn(u32) -> Result<T, String>, G: Fn(String) -> Result<T, String>,
    requires
        forall|id: u32| from_id.requires((id,)),
        forall|s: String| from_name.requires((s,)),
    ensures
        enum_converted(spec_enum_key(value), from_id, from_name, r, |t: T| Some(t)),
{
    match enum_key(value) {
        Err(e) => Err(e),
        Ok(EnumKey::Id(id)) => {
            let c = from_id(id);
            lift_some(c)
        },
        Ok(EnumKey::Name(s)) => {
            let c = from_name(s);
            lift_some(c)
        },
    }
}

/// Reads an enum variant, wrapped in `Some`, from `{"name": s}` or a bare
/// string `s`, converting the name with `from_name`.
pub fn map_to_enum_option_from_name<T, G>(value: JsonValue, from_name: G) -> (r: Result<Option<T>, DeError>)
    where G: Fn(String) -> Result<T, String>,
    requires
        forall|s: String| from_name.requires((s,)),
    ensures
        name_converted(spec_enum_name(value), from_name, r, |t: T| Some(t)),
{
    match enum_name(value) {
        Err(e) => Err(e),
        Ok(s) => {
            let c = from_name(s);
            lift_some(c)
        },
    }
}

/// How an attribute value is read: an empty string or `null` is no value, a
/// string that `str::parse::<u64>` reads is a number, any other string stays
/// text, a JSON number must be a non-negative integer.
pub open spec fn spec_attribute_value(value: JsonValue) -> Result<Option<AttributeValue>, DeErrorView> {
    match value {
        JsonValue::String(s) => if s@.len() == 0 {
            Ok(None)
        } else {
            match spec_parse_u64(s@) {
                Some(n) => Ok(Some(AttributeValue::Number(n))),
                None => Ok(Some(AttributeValue::String(s))),
            }
        },
        JsonValue::Number(num) => match spec_as_u64(num) {
            Some(n) => Ok(Some(AttributeValue::Number(n))),
            None => Err(DeErrorView::Custom("Invalid number"@)),
        },
        JsonValue::Null => Ok(None),
        _ => Err(DeErrorView::Custom("Invalid attribute"@)),
    }
}

/// Reads the value of an item attribute.
pub fn attribute_value(value: JsonValue) -> (r: Result<Option<AttributeValue>, DeError>)
    ensures
        error_view(r) == spec_attribute_value(value),
{
    match value {
        JsonValue::String(s) => {
            if s.as_str().is_empty() {
                return Ok(None);
            }
            match parse_u64(s.as_str()) {
                Some(n) => Ok(Some(AttributeValue::Number(n))),
                None => Ok(Some(AttributeValue::String(s))),
            }
        },
        JsonValue::Number(num) => match num.as_u64() {
            Some(n) => Ok(Some(AttributeValue::Number(n))),
            None => Err(custom("Invalid number")),
        },
        JsonValue::Null => Ok(None),
        _ => Err(custom("Invalid attribute")),
    }
}

/// What `from_optional_number_or_string` makes of an integer `n`: the
/// value that `T::try_from(n)` gives, or the too-large error where it
/// refuses `n`; where `T`'s conversion follows its specification, that
/// value is the specified one.
pub open spec fn number_converted<T: TryFrom<u64>>(n: u64, r: Result<Option<T>, DeError>) -> bool {
    &&& exists|c: Result<T, <T as TryFrom<u64>>::Error>|
        #[trigger] call_ensures(<T as TryFrom<u64>>::try_from, (n,), c) && match c {
            Ok(t) => r == Ok::<Option<T>, DeError>(Some(t)),
            Err(_) => is_too_large(r),
        }
    &&& T::obeys_try_from_spec() ==> match T::try_from_spec(n) {
        Ok(c) => r == Ok::<Option<T>, DeError>(Some(c)),
        Err(_) => r matches Err(e) && e@ == DeErrorView::Custom("Number too large to fit in target type"@),
    }
    &&& (r matches Ok(Some(_)) || (r matches Err(e) && e@ == DeErrorView::Custom(
        "Number too large to fit in target type"@,
    )))
}

/// Reads an optional value of type `T` from a number or a string: an empty
/// string or `null` gives `None`, a string is read with `parse`, a number
/// must be a non-negative integer that `T::try_from` takes.
pub fn from_optional_number_or_string<T, P>(value: JsonValue, parse: P) -> (r: Result<Option<T>, DeError>)
    where T: TryFrom<u64>, P: Fn(String) -> Result<T, String>,
    requires
        forall|t: String| parse.requires((t,)),
    ensures
        match value {
            JsonValue::String(s) => if s@.len() == 0 {
                r == Ok::<Option<T>, DeError>(None)
            } else {
                exists|c: Result<T, String>| call_ensures(parse, (s,), c) && lifts(c, r, |t: T| Some(t))
            },
            JsonValue::Number(num) => match spec_as_u64(num) {
                Some(n) => number_converted(n, r),
                None => r matches Err(e) && e@ == DeErrorView::Custom("Invalid number"@),
            },
            JsonValue::Null => r == Ok::<Option<T>, DeError>(None),
            _ => r matches Err(e) && e@ == DeErrorView::Custom("Not a number"@),
        },
{
    match value {
        JsonValue::String(s) => {
            if s.as_str().is_empty() {
                return Ok(None);
            }
            let c = parse(s);
            lift_some(c)
        },
        JsonValue::Number(num) => {
            let n = match num.as_u64() {
                Some(n) => n,
                None => {
                    return Err(custom("Invalid number"));
                },
            };
            match T::try_from(n) {
                Ok(c) => Ok(Some(c)),
                Err(_e) => Err(custom("Number too large to fit in target type")),
            }
        },
        JsonValue::Null => Ok(None),
        _ => Err(custom("Not a number")),
    }
}

/// What a floating-point field is read from: text to parse, or a JSON
/// number to take as a float.
#[derive(Debug, PartialEq)]
pub enum FloatSource {
    Text(String),
    Number(JsonNumber),
}

/// Decides how an optional floating-point field is read: an empty string or
/// `null` gives `None`, other text is to be parsed, a number taken as it is;
/// anything else is not a number.
pub fn from_optional_float_or_string(value: JsonValue) -> (r: Result<Option<FloatSource>, DeError>)
    ensures
        match value {
            JsonValue::String(s) => if s@.len() == 0 {
                r matches Ok(None)
            } else {
                r matches Ok(Some(FloatSource::Text(t))) && t == s
            },
            JsonValue::Number(n) => r matches Ok(Some(FloatSource::Number(m))) && m == n,
            JsonValue::Null => r matches Ok(None),
            _ => r matches Err(e) && e@ == DeErrorView::Custom("Not a number"@),
        },
{
    match value {
        JsonValue::String(s) => {
            if s.as_str().is_empty() {
                return Ok(None);
            }
            Ok(Some(FloatSource::Text(s)))
        },
        JsonValue::Number(n) => Ok(Some(FloatSource::Number(n))),
        JsonValue::Null => Ok(None),
        _ => Err(custom("Not a number")),
    }
}

/// A scalar as a deserializer hands it over: a signed integer, an unsigned
/// integer, or a string.
#[derive(Debug, PartialEq)]
pub enum Scalar {
    Signed(i64),
    Unsigned(u64),
    Str(String),
}

/// The error for an integer that the target type does not take.
pub open spec fn is_too_large<U>(r: Result<U, DeError>) -> bool {
    r matches Err(e) && e@ == DeErrorView::Custom("Number too large to fit in target type"@)
}

/// Reads a value of type `T` from an integer or a string: an integer goes
/// through `T::try_from`, a string through `parse`.
pub fn string_or_number<T, P>(input: Scalar, parse: P) -> (r: Result<T, DeError>)
    where T: TryFrom<i64> + TryFrom<u64>, P: Fn(String) -> Result<T, String>,
    requires
        forall|t: String| parse.requires((t,)),
    ensures
        match input {
            Scalar::Signed(v) => {
                &&& exists|c: Result<T, <T as TryFrom<i64>>::Error>|
                    #[trigger] call_ensures(<T as TryFrom<i64>>::try_from, (v,), c) && match c {
                        Ok(t) => r == Ok::<T, DeError>(t),
                        Err(_) => is_too_large(r),
                    }
                &&& (r is Ok || is_too_large(r))
                &&& <T as TryFromSpec<i64>>::obeys_try_from_spec() ==> match <T as TryFromSpec<
                    i64,
                >>::try_from_spec(v) {
                    Ok(c) => r == Ok::<T, DeError>(c),
                    Err(_) => is_too_large(r),
                }
            },
            Scalar::Unsigned(v) => {
                &&& exists|c: Result<T, <T as TryFrom<u64>>::Error>|
                    #[trigger] call_ensures(<T as TryFrom<u64>>::try_from, (v,), c) && match c {
                        Ok(t) => r == Ok::<T, DeError>(t),
                        Err(_) => is_too_large(r),
                    }
                &&& (r is Ok || is_too_large(r))
                &&& <T as TryFromSpec<u64>>::obeys_try_from_spec() ==> match <T as TryFromSpec<
                    u64,
                >>::try_from_spec(v) {
                    Ok(c) => r == Ok::<T, DeError>(c),
                    Err(_) => is_too_large(r),
                }
            },
            Scalar::Str(s) => exists|c: Result<T, String>|
                call_ensures(parse, (s,), c) && lifts(c, r, |t: T| t),
        },
{
    match input {
        Scalar::Signed(v) => match <T as TryFrom<i64>>::try_from(v) {
            Ok(c) => Ok(c),
            Err(_e) => Err(custom("Number too large to fit in target type")),
        },
        Scalar::Unsigned(v) => match <T as TryFrom<u64>>::try_from(v) {
            Ok(c) => Ok(c),
            Err(_e) => Err(custom("Number too large to fit in target type")),
        },
        Scalar::Str(s) => {
            let c = parse(s);
            lift(c)
        },
    }
}

/// Reads an optional value of type `T`: a missing or empty string gives
/// `None`, any other string is handed to `deserialize`, whose error stays
/// as it is.
pub fn empty_string_as_none<T, E, F>(opt: Option<String>, deserialize: F) -> (r: Result<Option<T>, E>)
    where F: Fn(String) -> Result<T, E>,
    requires
        forall|t: String| deserialize.requires((t,)),
    ensures
        match opt {
            None => r == Ok::<Option<T>, E>(None),
            Some(s) => if s@.len() == 0 {
                r == Ok::<Option<T>, E>(None)
            } else {
                exists|c: Result<T, E>| call_ensures(deserialize, (s,), c) && r == match c {
                    Ok(t) => Ok::<Option<T>, E>(Some(t)),
                    Err(e) => Err(e),
                }
            },
        },
{
    match opt {
        None => Ok(None),
        Some(s) => {
            if s.as_str().is_empty() {
                return Ok(None);
            }
            match deserialize(s) {
                Ok(t) => Ok(Some(t)),
                Err(e) => Err(e),
            }
        },
    }
}

/// The value that was given, or `T`'s default in place of `null`.
pub fn default_on_null<T: Default>(opt: Option<T>) -> (r: T)
    ensures
        opt matches Some(t) ==> r == t,
        opt is None ==> call_ensures(T::default, (), r),
{
    match opt {
        Some(t) => t,
        None => T::default(),
    }
}

/// Reads a listing's intent: `"buy"` or `"sell"`.
pub fn listing_intent_enum_from_str(s: String) -> (r: Result<ListingIntent, DeError>)
    ensures
        s@ == "buy"@ ==> r == Ok::<ListingIntent, DeError>(ListingIntent::Buy),
        s@ == "sell"@ ==> r == Ok::<ListingIntent, DeError>(ListingIntent::Sell),
        s@ != "buy"@ && s@ != "sell"@ ==> (r matches Err(e) && e@ == DeErrorView::Custom(
            "Invalid intent"@,
        )),
{
    let buy = String::from_str("buy");
    let sell = String::from_str("sell");
    proof {
        reveal_strlit("buy");
        reveal_strlit("sell");
        assert("buy"@.len() != "sell"@.len());
    }
    if s == buy {
        Ok(ListingIntent::Buy)
    } else if s == sell {
        Ok(ListingIntent::Sell)
    } else {
        Err(custom("Invalid intent"))
    }
}

/// Reads a currency type: `"keys"` or `"metal"`.
pub fn currency_type_enum_from_str(s: String) -> (r: Result<CurrencyType, DeError>)
    ensures
        s@ == "keys"@ ==> r == Ok::<CurrencyType, DeError>(CurrencyType::Keys),
        s@ == "metal"@ ==> r == Ok::<CurrencyType, DeError>(CurrencyType::Metal),
        s@ != "keys"@ && s@ != "metal"@ ==> (r matches Err(e) && e@ == DeErrorView::Custom(
            "Invalid currency type"@,
        )),
{
    let keys = String::from_str("keys");
    let metal = String::from_str("metal");
    proof {
        reveal_strlit("keys");
        reveal_strlit("metal");
        assert("keys"@.len() != "metal"@.len());
    }
    if s == keys {
        Ok(CurrencyType::Keys)
    } else if s == metal {
        Ok(CurrencyType::Metal)
    } else {
        Err(custom("Invalid currency type"))
    }
}

/// The map that inserting `items` in order builds: each defindex mapped to
/// the last item that carries it.
pub open spec fn attributes_map<A>(items: Seq<(u32, A)>) -> Map<u32, A>
    decreases items.len(),
{
    if items.len() == 0 {
        Map::empty()
    } else {
        attributes_map(items.drop_last()).insert(items.last().0, items.last().1)
    }
}

/// Collects a sequence of attributes, each given with its defindex, into a
/// map from defindex to attribute; a later attribute replaces an earlier
/// one with the same defindex.
pub fn deserialize_attributes<A>(items: Vec<(u32, A)>) -> (map: HashMap<u32, A>)
    ensures
        map@ == attributes_map(items@),
{
    broadcast use vstd::std_specs::hash::group_hash_axioms;
    broadcast use vstd::std_specs::vec::group_vec_axioms;

    let mut map: HashMap<u32, A> = HashMap::with_capacity(items.len());
    let ghost all = items@;
    assert(all.take(0) =~= Seq::<(u32, A)>::empty());
    for item in it: items.into_iter()
        invariant
            it.seq() == all,
            map@ == attributes_map(all.take(it.index() as int)),
    {
        let ghost k = it.index() as int;
        assert(all.take(k + 1).drop_last() =~= all.take(k));
        let (defindex, attribute) = item;
        map.insert(defindex, attribute);
    }
    assert(all.take(all.len() as int) =~= all);
    map
}

/// A result with its value wrapped in `Some`.
pub open spec fn wrap_some<T>(r: Result<T, DeError>) -> Result<Option<T>, DeError> {
    match r {
        Ok(t) => Ok(Some(t)),
        Err(e) => Err(e),
    }
}

/// What `map_to_enum` may give, `map_to_enum_option` may give wrapped in
/// `Some`: both read the value alike and convert alike.
pub proof fn law_option_wraps_plain<T, F, G>(value: JsonValue, from_id: F, from_name: G, r: Result<T, DeError>)
    where F: Fn(u32) -> Result<T, String>, G: Fn(String) -> Result<T, String>,
    requires
        enum_converted(spec_enum_key(value), from_id, from_name, r, |t: T| t),
    ensures
        enum_converted(spec_enum_key(value), from_id, from_name, wrap_some(r), |t: T| Some(t)),
{
    match spec_enum_key(value) {
        Err(e) => {},
        Ok(EnumKey::Id(id)) => {
            let c = choose|c: Result<T, String>| call_ensures(from_id, (id,), c) && lifts(c, r, |t: T| t);
            assert(lifts(c, wrap_some(r), |t: T| Some(t)));
        },
        Ok(EnumKey::Name(s)) => {
            let c = choose|c: Result<T, String>| call_ensures(from_name, (s,), c) && lifts(c, r, |t: T| t);
            assert(lifts(c, wrap_some(r), |t: T| Some(t)));
        },
    }
}

/// A conversion that gives one result for each argument, as a function does.
pub open spec fn deterministic<A, R, F: Fn(A) -> R>(f: F) -> bool {
    forall|a: A, c1: R, c2: R| call_ensures(f, (a,), c1) && call_ensures(f, (a,), c2) ==> c1 == c2
}

/// Two results of converting one read key alike agree, where the
/// conversions are functions.
pub proof fn lemma_converted_agree<T, U, F, G>(
    key: Result<EnumKey, DeErrorView>,
    from_id: F,
    from_name: G,
    r1: Result<U, DeError>,
    r2: Result<U, DeError>,
    wrap: spec_fn(T) -> U,
)
    where F: Fn(u32) -> Result<T, String>, G: Fn(String) -> Result<T, String>,
    requires
        deterministic(from_id),
        deterministic(from_name),
        enum_converted(key, from_id, from_name, r1, wrap),
        enum_converted(key, from_id, from_name, r2, wrap),
    ensures
        error_view(r1) == error_view(r2),
{
    match key {
        Err(e) => {},
        Ok(EnumKey::Id(id)) => {
            let c1 = choose|c: Result<T, String>| call_ensures(from_id, (id,), c) && lifts(c, r1, wrap);
            let c2 = choose|c: Result<T, String>| call_ensures(from_id, (id,), c) && lifts(c, r2, wrap);
            assert(c1 == c2);
        },
        Ok(EnumKey::Name(n)) => {
            let c1 = choose|c: Result<T, String>| call_ensures(from_name, (n,), c) && lifts(c, r1, wrap);
            let c2 = choose|c: Result<T, String>| call_ensures(from_name, (n,), c) && lifts(c, r2, wrap);
            assert(c1 == c2);
        },
    }
}

/// `map_to_enum` on `{"id": n, ...}` gives what it gives on the bare `n`,
/// whatever else the object holds, where the conversions are functions.
pub proof fn law_map_to_enum_id_object<T, F, G>(
    entries: Vec<(String, JsonValue)>,
    n: JsonNumber,
    from_id: F,
    from_name: G,
    r_object: Result<T, DeError>,
    r_number: Result<T, DeError>,
)
    where F: Fn(u32) -> Result<T, String>, G: Fn(String) -> Result<T, String>,
    requires
        get_field(entries@, "id"@) == Some(JsonValue::Number(n)),
        deterministic(from_id),
        deterministic(from_name),
        enum_converted(spec_enum_key(JsonValue::Object(entries)), from_id, from_name, r_object, |t: T| t),
        enum_converted(spec_enum_key(JsonValue::Number(n)), from_id, from_name, r_number, |t: T| t),
    ensures
        error_view(r_object) == error_view(r_number),
{
    law_id_object_reads_as_number(entries, n);
    lemma_converted_agree(spec_enum_key(JsonValue::Number(n)), from_id, from_name, r_object, r_number, |t: T| t);
}

/// `map_to_enum_option` gives what `map_to_enum` gives on the same value,
/// wrapped in `Some`, where the conversions are functions.
pub proof fn law_map_to_enum_option_is_wrapped<T, F, G>(
    value: JsonValue,
    from_id: F,
    from_name: G,
    r_plain: Result<T, DeError>,
    r_option: Result<Option<T>, DeError>,
)
    where F: Fn(u32) -> Result<T, String>, G: Fn(String) -> Result<T, String>,
    requires
        deterministic(from_id),
        deterministic(from_name),
        enum_converted(spec_enum_key(value), from_id, from_name, r_plain, |t: T| t),
        enum_converted(spec_enum_key(value), from_id, from_name, r_option, |t: T| Some(t)),
    ensures
        error_view(r_option) == error_view(wrap_some(r_plain)),
{
    law_option_wraps_plain(value, from_id, from_name, r_plain);
    lemma_converted_agree(spec_enum_key(value), from_id, from_name, r_option, wrap_some(r_plain), |t: T| Some(t));
}

/// `map_to_enum_option_from_name` on `{"name": s, ...}` gives what it gives
/// on the bare string `s`, whatever else the object holds, where the
/// conversion is a function.
pub proof fn law_map_to_enum_option_from_name_object<T, G>(
    entries: Vec<(String, JsonValue)>,
    s: String,
    from_name: G,
    r_object: Result<Option<T>, DeError>,
    r_string: Result<Option<T>, DeError>,
)
    where G: Fn(String) -> Result<T, String>,
    requires
        get_field(entries@, "name"@) == Some(JsonValue::String(s)),
        deterministic(from_name),
        name_converted(spec_enum_name(JsonValue::Object(entries)), from_name, r_object, |t: T| Some(t)),
        name_converted(spec_enum_name(JsonValue::String(s)), from_name, r_string, |t: T| Some(t)),
    ensures
        error_view(r_object) == error_view(r_string),
{
    law_name_object_reads_as_string(entries, s);
    let c1 = choose|c: Result<T, String>| call_ensures(from_name, (s,), c) && lifts(c, r_object, |t: T| Some(t));
    let c2 = choose|c: Result<T, String>| call_ensures(from_name, (s,), c) && lifts(c, r_string, |t: T| Some(t));
    assert(c1 == c2);
}

/// An object whose `id` field is a number reads as that bare number.
pub proof fn law_id_object_reads_as_number(entries: Vec<(String, JsonValue)>, n: JsonNumber)
    requires
        get_field(entries@, "id"@) == Some(JsonValue::Number(n)),
    ensures
        spec_enum_key(JsonValue::Object(entries)) == spec_enum_key(JsonValue::Number(n)),
{
}

/// Once an object has an `id` field, that field alone decides what the
/// object reads as.
pub proof fn law_id_field_decides(a: Vec<(String, JsonValue)>, b: Vec<(String, JsonValue)>)
    requires
        get_field(a@, "id"@) is Some,
        get_field(a@, "id"@) == get_field(b@, "id"@),
    ensures
        spec_enum_key(JsonValue::Object(a)) == spec_enum_key(JsonValue::Object(b)),
{
}

/// Every `u32`, given as a number, reads as that id.
pub proof fn law_u32_reads_as_id(x: u32)
    ensures
        spec_enum_key(JsonValue::Number(JsonNumber::PosInt(x as u64))) == Ok::<EnumKey, DeErrorView>(
            EnumKey::Id(x),
        ),
{
}

/// An object whose `name` field is a string reads as that bare string; for
/// `map_to_enum` it reads as that name where it has no `id` field.
pub proof fn law_name_object_reads_as_string(entries: Vec<(String, JsonValue)>, s: String)
    requires
        get_field(entries@, "name"@) == Some(JsonValue::String(s)),
    ensures
        spec_enum_name(JsonValue::Object(entries)) == spec_enum_name(JsonValue::String(s)),
        spec_enum_name(JsonValue::Object(entries)) == Ok::<String, DeErrorView>(s),
        get_field(entries@, "id"@) is None ==> spec_enum_key(JsonValue::Object(entries))
            == Ok::<EnumKey, DeErrorView>(EnumKey::Name(s)),
{
}

/// An attribute value given as the decimal text of a number reads as that
/// number given as a JSON number.
pub proof fn law_decimal_text_attribute(n: u64, s: String)
    requires
        s@ == decimal_text(n as nat),
    ensures
        spec_attribute_value(JsonValue::String(s)) == spec_attribute_value(
            JsonValue::Number(JsonNumber::PosInt(n)),
        ),
        spec_attribute_value(JsonValue::String(s)) == Ok::<Option<AttributeValue>, DeErrorView>(
            Some(AttributeValue::Number(n)),
        ),
{
    lemma_parse_decimal_text(n);
    law_attribute_number(n);
}

/// Every non-negative JSON integer, zero included, is an attribute number
/// with that value.
pub proof fn law_attribute_number(n: u64)
    ensures
        spec_attribute_value(JsonValue::Number(JsonNumber::PosInt(n)))
            == Ok::<Option<AttributeValue>, DeErrorView>(Some(AttributeValue::Number(n))),
{
    law_as_u64(JsonNumber::PosInt(n));
}

/// Any non-empty text that `str::parse::<u64>` reads as `n` is the attribute
/// number `n`.
pub proof fn law_attribute_parsed_text(s: String, n: u64)
    requires
        s@.len() > 0,
        spec_parse_u64(s@) == Some(n),
    ensures
        spec_attribute_value(JsonValue::String(s)) == Ok::<Option<AttributeValue>, DeErrorView>(
            Some(AttributeValue::Number(n)),
        ),
{
}

/// Text with a character that is neither a digit nor a leading `+` stays
/// text.
pub proof fn law_attribute_text(s: String, i: int)
    requires
        0 <= i < s@.len(),
        !is_digit(s@[i]),
        !(i == 0 && s@[i] == '+'),
    ensures
        spec_attribute_value(JsonValue::String(s)) == Ok::<Option<AttributeValue>, DeErrorView>(
            Some(AttributeValue::String(s)),
        ),
{
    law_parse_refuses_non_digit(s@, i);
}

/// An empty string and `null` are no attribute value; a negative or
/// fractional number is an invalid number; a boolean, array or object is
/// an invalid attribute.
pub proof fn law_attribute_none_and_errors(s: String, v: JsonValue, neg: i64, bits: u64)
    requires
        s@.len() == 0,
        v is Bool || v is Array || v is Object,
    ensures
        spec_attribute_value(JsonValue::String(s)) == Ok::<Option<AttributeValue>, DeErrorView>(None),
        spec_attribute_value(JsonValue::Null) == Ok::<Option<AttributeValue>, DeErrorView>(None),
        spec_attribute_value(JsonValue::Number(JsonNumber::NegInt(neg)))
            == Err::<Option<AttributeValue>, DeErrorView>(DeErrorView::Custom("Invalid number"@)),
        spec_attribute_value(JsonValue::Number(JsonNumber::Float(bits)))
            == Err::<Option<AttributeValue>, DeErrorView>(DeErrorView::Custom("Invalid number"@)),
        spec_attribute_value(v) == Err::<Option<AttributeValue>, DeErrorView>(
            DeErrorView::Custom("Invalid attribute"@),
        ),
{
    law_as_u64(JsonNumber::NegInt(neg));
    law_as_u64(JsonNumber::Float(bits));
}

/// The name read from a bare string is that string itself, whatever it
/// holds.
pub proof fn law_enum_name_of_string(s: String)
    ensures
        spec_enum_name(JsonValue::String(s)) == Ok::<String, DeErrorView>(s),
{
}

/// A value that is neither a string nor an object names no enum variant.
pub proof fn law_enum_name_of_other(v: JsonValue)
    requires
        v is Null || v is Bool || v is Number || v is Array,
    ensures
        spec_enum_name(v) == Err::<String, DeErrorView>(
            DeErrorView::ExpectedGot { kind: Expected::String, got: v },
        ),
{
}

/// A JSON number reads as the id it holds where that is a `u32`; a larger
/// integer does not fit, a negative or fractional number is no integer.
pub proof fn law_enum_key_of_number(n: u64, neg: i64, bits: u64)
    ensures
        n <= u32::MAX ==> spec_enum_key(JsonValue::Number(JsonNumber::PosInt(n)))
            == Ok::<EnumKey, DeErrorView>(EnumKey::Id(n as u32)),
        n > u32::MAX ==> spec_enum_key(JsonValue::Number(JsonNumber::PosInt(n)))
            == Err::<EnumKey, DeErrorView>(DeErrorView::Custom("number does not fit into u32"@)),
        spec_enum_key(JsonValue::Number(JsonNumber::NegInt(neg))) == Err::<EnumKey, DeErrorView>(
            DeErrorView::Custom("not an integer"@),
        ),
        spec_enum_key(JsonValue::Number(JsonNumber::Float(bits))) == Err::<EnumKey, DeErrorView>(
            DeErrorView::Custom("not an integer"@),
        ),
{
    law_as_u64(JsonNumber::PosInt(n));
    law_as_u64(JsonNumber::NegInt(neg));
    law_as_u64(JsonNumber::Float(bits));
}

/// A value that is neither a number nor an object names no enum variant by
/// id; an object with neither field gives the error that mentions `1`.
pub proof fn law_enum_key_of_other(v: JsonValue, entries: Vec<(String, JsonValue)>)
    requires
        v is Null || v is Bool || v is String || v is Array,
        get_field(entries@, "id"@) is None,
        get_field(entries@, "name"@) is None,
    ensures
        spec_enum_key(v) == Err::<EnumKey, DeErrorView>(
            DeErrorView::ExpectedGot { kind: Expected::Number, got: v },
        ),
        spec_enum_key(JsonValue::Object(entries)) == Err::<EnumKey, DeErrorView>(
            DeErrorView::Custom("expected a number, got `1`"@),
        ),
{
}

/// A non-negative integer goes to the conversion as it is: what
/// `from_optional_number_or_string` makes of the JSON number `n` is what
/// `T::try_from(n)` gives, wrapped in `Some`, or the too-large error.
pub proof fn law_number_goes_to_try_from<T: TryFrom<u64>>(n: u64, r: Result<Option<T>, DeError>)
    requires
        match spec_as_u64(JsonNumber::PosInt(n)) {
            Some(m) => number_converted(m, r),
            None => r matches Err(e) && e@ == DeErrorView::Custom("Invalid number"@),
        },
    ensures
        exists|c: Result<T, <T as TryFrom<u64>>::Error>|
            #[trigger] call_ensures(<T as TryFrom<u64>>::try_from, (n,), c) && match c {
                Ok(t) => r == Ok::<Option<T>, DeError>(Some(t)),
                Err(_) => is_too_large(r),
            },
{
    law_as_u64(JsonNumber::PosInt(n));
}

/// An attribute map holds exactly the defindexes that the items carry, each
/// with the last item that carries it.
pub proof fn law_attributes_map<A>(items: Seq<(u32, A)>, k: u32)
    ensures
        attributes_map(items).contains_key(k) <==> exists|i: int|
            0 <= i < items.len() && #[trigger] items[i].0 == k,
        attributes_map(items).contains_key(k) ==> exists|i: int|
            0 <= i < items.len() && #[trigger] items[i].0 == k && attributes_map(items)[k]
                == items[i].1 && forall|j: int| i < j < items.len() ==> items[j].0 != k,
    decreases items.len(),
{
    if items.len() > 0 {
        let init = items.drop_last();
        law_attributes_map(init, k);
        let last = items.len() - 1;
        if items[last].0 == k {
            assert(items[last].0 == k && attributes_map(items)[k] == items[last].1);
        } else {
            if attributes_map(init).contains_key(k) {
                let i = choose|i: int|
                    0 <= i < init.len() && #[trigger] init[i].0 == k && attributes_map(init)[k]
                        == init[i].1 && forall|j: int| i < j < init.len() ==> init[j].0 != k;
                assert(items[i] == init[i]);
                assert(attributes_map(items)[k] == attributes_map(init)[k]);
                assert forall|j: int| i < j < items.len() implies items[j].0 != k by {
                    if j < last {
                        assert(items[j] == init[j]);
                    }
                }
                assert(items[i].0 == k && attributes_map(items)[k] == items[i].1);
            }
            if exists|i: int| 0 <= i < items.len() && #[trigger] items[i].0 == k {
                let i = choose|i: int| 0 <= i < items.len() && #[trigger] items[i].0 == k;
                assert(init[i].0 == k);
            }
        }
    }
}

/// A number reads as a `u32` exactly when it is a non-negative integer no
/// larger than `u32::MAX`, and then as that integer.
pub proof fn law_number_to_u32(n: u64, neg: i64, bits: u64)
    ensures
        n <= u32::MAX ==> text_result(Ok::<u32, String>(n as u32)) == spec_number_to_u32(
            JsonNumber::PosInt(n),
        ),
        n <= u32::MAX ==> spec_number_to_u32(JsonNumber::PosInt(n)) == Ok::<u32, Seq<char>>(n as u32),
        n > u32::MAX ==> spec_number_to_u32(JsonNumber::PosInt(n)) == Err::<u32, Seq<char>>(
            "number does not fit into u32"@,
        ),
        spec_number_to_u32(JsonNumber::NegInt(neg)) == Err::<u32, Seq<char>>("not an integer"@),
        spec_number_to_u32(JsonNumber::Float(bits)) == Err::<u32, Seq<char>>("not an integer"@),
{
    law_as_u64(JsonNumber::PosInt(n));
    law_as_u64(JsonNumber::NegInt(neg));
    law_as_u64(JsonNumber::Float(bits));
}

/// Results are taken by the views of their errors and texts, values kept.
pub proof fn law_result_views<T>(t: T, e: DeError, m: String)
    ensures
        error_view(Ok::<T, DeError>(t)) == Ok::<T, DeErrorView>(t),
        error_view(Err::<T, DeError>(e)) == Err::<T, DeErrorView>(e@),
        text_result(Ok::<T, String>(t)) == Ok::<T, Seq<char>>(t),
        text_result(Err::<T, String>(m)) == Err::<T, Seq<char>>(m@),
        DeError::Custom(m)@ == DeErrorView::Custom(m@),
        wrap_some(Ok::<T, DeError>(t)) == Ok::<Option<T>, DeError>(Some(t)),
        wrap_some(Err::<T, DeError>(e)) == Err::<Option<T>, DeError>(e),
        is_too_large(Err::<T, DeError>(e)) <==> e@ == DeErrorView::Custom(
            "Number too large to fit in target type"@,
        ),
        !is_too_large(Ok::<T, DeError>(t)),
{
}

/// A converted value is returned as it is (wrapped as asked), and a
/// conversion's message becomes a custom error with that message.
pub proof fn law_lifts<T, U>(c: Result<T, String>, r: Result<U, DeError>, wrap: spec_fn(T) -> U)
    requires
        lifts(c, r, wrap),
    ensures
        c matches Ok(t) ==> r == Ok::<U, DeError>(wrap(t)),
        c matches Err(m) ==> (r matches Err(e) && e@ == DeErrorView::Custom(m@)),
{
}

/// What `map_to_enum` gives is what the conversion of the id or name read
/// gives, or the reading error.
pub proof fn law_enum_converted<T, U, F, G>(
    key: Result<EnumKey, DeErrorView>,
    from_id: F,
    from_name: G,
    r: Result<U, DeError>,
    wrap: spec_fn(T) -> U,
)
    where F: Fn(u32) -> Result<T, String>, G: Fn(String) -> Result<T, String>,
    requires
        enum_converted(key, from_id, from_name, r, wrap),
    ensures
        key matches Err(e) ==> (r matches Err(e2) && e2@ == e),
        key matches Ok(EnumKey::Id(id)) ==> exists|c: Result<T, String>|
            #[trigger] call_ensures(from_id, (id,), c) && match c {
                Ok(t) => r == Ok::<U, DeError>(wrap(t)),
                Err(m) => r matches Err(e) && e@ == DeErrorView::Custom(m@),
            },
        key matches Ok(EnumKey::Name(s)) ==> exists|c: Result<T, String>|
            #[trigger] call_ensures(from_name, (s,), c) && match c {
                Ok(t) => r == Ok::<U, DeError>(wrap(t)),
                Err(m) => r matches Err(e) && e@ == DeErrorView::Custom(m@),
            },
{
    match key {
        Err(_) => {},
        Ok(EnumKey::Id(id)) => {
            let c = choose|c: Result<T, String>| call_ensures(from_id, (id,), c) && lifts(c, r, wrap);
            assert(call_ensures(from_id, (id,), c));
        },
        Ok(EnumKey::Name(s)) => {
            let c = choose|c: Result<T, String>| call_ensures(from_name, (s,), c) && lifts(c, r, wrap);
            assert(call_ensures(from_name, (s,), c));
        },
    }
}

/// What `map_to_enum_option_from_name` gives is what the conversion of the
/// name read gives, or the reading error.
pub proof fn law_name_converted<T, U, G>(
    name: Result<String, DeErrorView>,
    from_name: G,
    r: Result<U, DeError>,
    wrap: spec_fn(T) -> U,
)
    where G: Fn(String) -> Result<T, String>,
    requires
        name_converted(name, from_name, r, wrap),
    ensures
        name matches Err(e) ==> (r matches Err(e2) && e2@ == e),
        name matches Ok(s) ==> exists|c: Result<T, String>|
            #[trigger] call_ensures(from_name, (s,), c) && match c {
                Ok(t) => r == Ok::<U, DeError>(wrap(t)),
                Err(m) => r matches Err(e) && e@ == DeErrorView::Custom(m@),
            },
{
    match name {
        Err(_) => {},
        Ok(s) => {
            let c = choose|c: Result<T, String>| call_ensures(from_name, (s,), c) && lifts(c, r, wrap);
            assert(call_ensures(from_name, (s,), c));
        },
    }
}

/// An object's `id` field that is not a number, or (without `id`) a `name`
/// field that is not a string, is refused as not a number.
pub proof fn law_enum_key_of_bad_fields(entries: Vec<(String, JsonValue)>, v: JsonValue)
    requires
        !(v is Number),
        !(v is String),
    ensures
        get_field(entries@, "id"@) == Some(v) ==> spec_enum_key(JsonValue::Object(entries))
            == Err::<EnumKey, DeErrorView>(DeErrorView::ExpectedGot { kind: Expected::Number, got: v }),
        get_field(entries@, "id"@) is None && get_field(entries@, "name"@) == Some(v) ==> spec_enum_key(
            JsonValue::Object(entries),
        ) == Err::<EnumKey, DeErrorView>(DeErrorView::ExpectedGot { kind: Expected::Number, got: v }),
{
}

/// An object without a `name` field, or with one that is not a string,
/// names no enum variant.
pub proof fn law_enum_name_of_bad_object(entries: Vec<(String, JsonValue)>, v: JsonValue)
    requires
        !(v is String),
    ensures
        get_field(entries@, "name"@) is None ==> spec_enum_name(JsonValue::Object(entries))
            == Err::<String, DeErrorView>(DeErrorView::Custom("expected a string, got `1`"@)),
        get_field(entries@, "name"@) == Some(v) ==> spec_enum_name(JsonValue::Object(entries))
            == Err::<String, DeErrorView>(DeErrorView::ExpectedGot { kind: Expected::String, got: v }),
{
}

} // verus!
