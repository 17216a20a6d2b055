//! Responses of the backpack.tf API.

pub mod attributes;
pub mod deserializers;
pub mod listing;
