//! The one clock access of the framework.
//!
//! Every record carries the instant of its creation.  The instant
//! depends on the wall clock, so nothing is promised of the returned
//! text; every contract that mentions a timestamp treats it as an
//! arbitrary string.

use vstd::prelude::*;

verus! {

/// Relies on chrono::Utc::now: reads the wall clock; the instant is
/// converted to its RFC 3339 text.  The result depends on the clock,
/// so nothing is stated of it.
#[verifier::external_body]
pub fn now_rfc3339() -> String {
    chrono::Utc::now().to_rfc3339()
}

} // verus!
