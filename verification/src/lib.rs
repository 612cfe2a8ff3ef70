//! Verified core of a TDLib JSON client binding.
//!
//! The engine itself is reached through a C interface and is never called
//! from here. This crate holds every decision that surrounds those calls:
//! which text may cross to the engine, how an answer is decoded, which
//! answer is still valid, who holds a session, when it is destroyed, and
//! which log settings are accepted. The caller performs the calls and
//! hands their results back.

pub mod client;
pub mod decimal;
pub mod log;
pub mod response;
pub mod session;
pub mod text;

