//! Ownership and lifetime protocol for a native TrueType font subsystem.
//!
//! A native font library exposes opaque resources (fonts, rendered surfaces)
//! whose release is only legal while the library's process-wide subsystem is
//! initialized, and a single global last-error string that must be read
//! immediately after a failing call.  This crate is the verified model of
//! that protocol: the subsystem state machine, the flag and enum translation
//! between native integers and semantic values, the value types for metrics
//! and versions, and the decision logic that turns a raw native return value
//! into either an owning handle or an error carrying the native message.
//!
//! The native calls themselves live outside this crate; callers perform them
//! and feed the raw results (status codes, addresses, error strings) into the
//! functions here, which decide what they mean and how ownership moves.

pub mod error;
pub mod font;
pub mod handle;
pub mod hinting;
pub mod metrics;
pub mod stream;
pub mod style;
pub mod subsystem;
pub mod version;
