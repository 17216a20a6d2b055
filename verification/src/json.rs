//! A plain model of a JSON document, as `serde_json::Value` holds one.

use vstd::prelude::*;

verus! {

/// A JSON number: a non-negative integer, a negative integer, or a float,
/// the float carried by its IEEE-754 bit pattern.
#[derive(Debug, Clone, Copy, PartialEq, Eq, Structural)]
pub enum JsonNumber {
    PosInt(u64),
    NegInt(i64),
    Float(u64),
}

/// A JSON value. An object keeps its entries in order; a key that occurs
/// more than once is found at its first occurrence.
#[derive(Debug, PartialEq)]
pub enum JsonValue {
    Null,
    Bool(bool),
    Number(JsonNumber),
    String(String),
    Array(Vec<JsonValue>),
    Object(Vec<(String, JsonValue)>),
}

/// The value that an object's entries hold under `key`: that of the first
/// entry whose key is `key`.
pub open spec fn get_field(entries: Seq<(String, JsonValue)>, key: Seq<char>) -> Option<JsonValue>
    decreases entries.len(),
{
    if entries.len() == 0 {
        None
    } else if entries[0].0@ == key {
        Some(entries[0].1)
    } else {
        get_field(entries.drop_first(), key)
    }
}

/// The number as an unsigned 64-bit integer, where it is one.
pub open spec fn spec_as_u64(n: JsonNumber) -> Option<u64> {
    match n {
        JsonNumber::PosInt(v) => Some(v),
        _ => None,
    }
}

/// A number is an unsigned 64-bit integer exactly when it is a
/// non-negative integer, and then it is that integer, zero included.
pub proof fn law_as_u64(n: JsonNumber)
    ensures
        n matches JsonNumber::PosInt(v) ==> spec_as_u64(n) == Some(v),
        n is NegInt ==> spec_as_u64(n) is None,
        n is Float ==> spec_as_u64(n) is None,
{
}

/// An object's field is the value of the first entry with that key.
pub proof fn law_get_field_first(entries: Seq<(String, JsonValue)>, key: Seq<char>, i: int)
    requires
        0 <= i < entries.len(),
        entries[i].0@ == key,
        forall|j: int| 0 <= j < i ==> entries[j].0@ != key,
    ensures
        get_field(entries, key) == Some(entries[i].1),
    decreases i,
{
    if i > 0 {
        assert(entries[0].0@ != key);
        let rest = entries.drop_first();
        assert forall|j: int| 0 <= j < i - 1 implies rest[j].0@ != key by {
            assert(rest[j] == entries[j + 1]);
        }
        law_get_field_first(rest, key, i - 1);
    }
}

/// An object has no field under a key that no entry carries.
pub proof fn law_get_field_absent(entries: Seq<(String, JsonValue)>, key: Seq<char>)
    requires
        forall|j: int| 0 <= j < entries.len() ==> entries[j].0@ != key,
    ensures
        get_field(entries, key) is None,
    decreases entries.len(),
{
    if entries.len() > 0 {
        let rest = entries.drop_first();
        assert forall|j: int| 0 <= j < rest.len() implies rest[j].0@ != key by {
            assert(rest[j] == entries[j + 1]);
        }
        law_get_field_absent(rest, key);
    }
}

impl JsonNumber {
    /// The number as an unsigned 64-bit integer, where it is one.
    pub fn as_u64(&self) -> (r: Option<u64>)
        ensures
            r == spec_as_u64(*self),
    {
        match self {
            JsonNumber::PosInt(v) => Some(*v),
            _ => None,
        }
    }
}

/// Index of the first entry whose key is `key`.
pub fn find_field(entries: &Vec<(String, JsonValue)>, key: &String) -> (r: Option<usize>)
    ensures
        match r {
            Some(i) => i < entries@.len() && entries@[i as int].0@ == key@
                && get_field(entries@, key@) == Some(entries@[i as int].1),
            None => get_field(entries@, key@) is None,
        },
{
    let mut i: usize = 0;
    assert(entries@.skip(0) =~= entries@);
    while i < entries.len()
        invariant
            i <= entries@.len(),
            get_field(entries@, key@) == get_field(entries@.skip(i as int), key@),
        decreases entries@.len() - i,
    {
        assert(entries@.skip(i as int)[0] == entries@[i as int]);
        if entries[i].0 == *key {
            return Some(i);
        }
        assert(entries@.skip(i as int).drop_first() =~= entries@.skip(i + 1));
        i = i + 1;
    }
    assert(entries@.skip(i as int).len() == 0);
    None
}

} // verus!
