//! Decoding of backpack.tf API responses: the decisions that the response
//! deserializers make on JSON values, proved against their contracts.

pub mod decimal;
pub mod enums;
pub mod error;
pub mod json;
pub mod response;

pub use enums::{CurrencyType, ListingIntent};
