//! A typed client library for the SimpleMMO web API.
//!
//! The upstream API returns inconsistent JSON encodings for booleans, dates,
//! enums and optional fields.  This crate normalises those wire values into a
//! single strongly-typed representation: a small JSON layer, a family of
//! lenient field decoders, the domain models, and the response envelope that
//! separates a successful payload from an API-reported error.

pub mod client;
pub mod custom_serde;
pub mod datetime;
pub mod json;
pub mod json_parse;
pub mod json_print;
pub mod models;
pub mod strings;
