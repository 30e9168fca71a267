//! Resolution and dereferencing of `did:indy` identifiers against an Indy
//! ledger: identifier parsing, translation into ledger requests, decoding of
//! ledger replies, and the resolution steps that tie them together.

pub mod error;
pub mod text;
pub mod did_url;
pub mod request;
pub mod reply;
pub mod resolution;
