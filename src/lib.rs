//! Decentralized-identity documents: a JSON record naming an identity
//! subject, its verification methods, and the roles those methods play.
//!
//! Decoding normalizes the permissive wire format (a context given as one
//! string or a list, role-list elements given as embedded methods or bare
//! references, key material in one of several fields) into typed values, and
//! keeps every unrecognized member so that encoding writes it back unchanged.
//! `laws` proves that decoding what was encoded gives the same document.

pub mod context;
pub mod doc;
pub mod error;
pub mod extension;
pub mod json;
pub mod key_set_entry;
pub mod laws;
pub mod names;
pub mod subject;
pub mod verification_method;
