//! Client-side core of a mobile-money payment gateway SDK.
//!
//! The crate covers the logic that every gateway operation shares: deriving a
//! basic-auth value from a key/secret pair, turning the token endpoint's reply
//! into a bearer token, deciding which response schema an HTTP status selects,
//! and pulling named, loosely-typed fields out of callback payloads. The HTTP
//! transport itself and JSON (de)serialization stay outside the library; they
//! hand plain values in and take plain values back.

pub mod credentials;
pub mod extract;
pub mod operations;
pub mod requests;
pub mod text;
pub mod token;
pub mod values;
