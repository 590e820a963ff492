//! The engine's only notion of time: the monotonic instant at which a
//! detection was confirmed. The instant is opaque to the verified logic; it
//! is captured and carried through unread.

use vstd::prelude::*;

verus! {

#[verifier::external_type_specification]
#[verifier::external_body]
pub struct ExInstant(tokio::time::Instant);

/// Relies on tokio::time::Instant::now for the capture time of a detection.
/// The clock's reading depends on when the call happens, so nothing is
/// promised of the returned instant.
pub assume_specification[ tokio::time::Instant::now ]() -> (r: tokio::time::Instant);

} // verus!
