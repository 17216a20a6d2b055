//! Listings in responses.

pub mod attributes;
