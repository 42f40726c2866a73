//! Verification service core: resolves a trusted configuration bundle,
//! decides whether a target cluster matches it, and maps the result to a
//! response.
pub mod bytes;
pub mod error;
pub mod config;
pub mod engine;
pub mod claim_match;
pub mod handler;
pub mod guarantees;
