//! Time-ordered event identifiers and count queries over a tagged event store.
//!
//! The core is a snowflake-style identifier generator: a 64-bit identifier
//! packs a 41-bit millisecond offset from a configured epoch, a 5-bit worker
//! id, a 5-bit process id and a 12-bit wrapping sequence counter. On top of
//! it, a query translator turns millisecond time ranges into identifier-space
//! bounds and counts the stored events matching an external id and a tag key.

use vstd::prelude::*;

pub mod snowflake;
pub mod events;

verus! {

/// Base URL under which the surrounding service is reachable.
pub struct ApplicationBaseUrl(pub String);

} // verus!
