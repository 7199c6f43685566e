//! One-time-password arithmetic and key handling for an OATH credential engine.
//!
//! A secret is bound to a cryptographic backend for exactly one keyed-hash
//! operation; the digest is either returned as it is or reduced to a 31-bit
//! value by dynamic truncation.

pub mod algorithm;
pub mod backend;
pub mod calculate;
pub mod command;
pub mod credential;
pub mod key_scope;
pub mod short_data;
pub mod status;
pub mod truncation;
