//! Trace correlation and exporter-configuration resolution for a reverse
//! proxy's OpenTelemetry module.
//!
//! The proxy invokes independent callbacks over a request's lifetime; this
//! library provides the pieces that let those callbacks build one coherent
//! trace: a correlation cache keyed by the hex-encoded trace identifier, a
//! span lifecycle engine, and a layered configuration resolver.

pub mod cache;
pub mod config;
pub mod headers;
pub mod hex;
pub mod laws;
pub mod lifecycle;
pub mod span;
pub mod strutil;

use vstd::prelude::*;

verus! {

/// The number of bytes in a trace identifier.
pub const TRACE_ID_LEN: usize = 16;

} // verus!
