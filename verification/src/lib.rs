//! A persistence core for a small fleet-management domain.
//!
//! The crate provides a durable keyed record store with paged region
//! management and monotonic identifier allocation, a bounded binary codec
//! for each record type, and the domain services (drivers, vehicles,
//! bookings, fuel logs, maintenance, emergency calls, routes) that sit on
//! top of the store and enforce the cross-entity rules.

use vstd::prelude::*;

pub mod codec;
pub mod records;
pub mod storage;
pub mod store;
pub mod services;
pub mod laws;










verus! {

/// Maximum number of bytes a single encoded record may occupy in its region.
/// Exceeding this bound at encode time is reported to the caller, never
/// silently truncated.
pub const MAX_RECORD_BYTES: usize = 1024;

/// The shared result vocabulary of every request entry point.
/// `NotFound` and `InvalidPayload` are the two failures the domain services
/// actually return; `Success` and `Error` complete the vocabulary.
#[derive(Debug)]
pub enum Message {
    Success(String),
    Error(String),
    NotFound(String),
    InvalidPayload(String),
}

} // verus!
