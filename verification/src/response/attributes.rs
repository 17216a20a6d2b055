//! Item attributes in responses.

use vstd::prelude::*;

verus! {

/// The value of an item attribute: a number, or text that is not one.
#[derive(Debug, PartialEq)]
pub enum Value {
    Number(u64),
    String(String),
}

} // verus!
