//! A typed client library for the FRED economic-data web API.
//!
//! The crate builds query fragments for the series-observations endpoint
//! through a fluent builder with closed enumerations for the accepted
//! parameter values, models the typed observation response, decodes JSON
//! response bodies into that model, and maps transport and decoding failures
//! into a single error type. The HTTP transport itself and credential
//! loading are left to the embedding program.

pub mod encode;
pub mod series;
pub mod response;
pub mod error;
pub mod decode;
pub mod client;
