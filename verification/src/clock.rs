//! The one place the ledger reads the wall clock.

use vstd::prelude::*;

verus! {

/// Relies on chrono::Utc::now().to_rfc3339() for the current time as an
/// RFC 3339 text. The result depends on the clock, so nothing is promised
/// of it; every contract downstream holds whatever text came back.
#[verifier::external_body]
pub(crate) fn now_rfc3339() -> String {
    chrono::Utc::now().to_rfc3339()
}

} // verus!
