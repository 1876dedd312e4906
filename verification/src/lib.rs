//! A typed client library for PayPal's checkout Orders API and webhook
//! signature verification.
//!
//! The library models the provider's JSON schemas as plain record types,
//! gives each one a verified encoder and decoder against a mathematical
//! JSON model, and builds the request bodies and response classification
//! that the API operations need. The HTTP transport itself is left to the
//! caller; every operation here is pure request construction or response
//! interpretation.

pub mod api;
pub mod capture;
pub mod codec;
pub mod common;
pub mod errors;
pub mod json;
pub mod orders;
pub mod webhooks;
