//! Enumerations that listings carry.

use vstd::prelude::*;

verus! {

/// Whether a listing buys or sells.
#[derive(Debug, Clone, Copy, PartialEq, Eq, Structural)]
pub enum ListingIntent {
    Buy,
    Sell,
}

/// The currency that a price is given in.
#[derive(Debug, Clone, Copy, PartialEq, Eq, Structural)]
pub enum CurrencyType {
    Keys,
    Metal,
}

} // verus!
