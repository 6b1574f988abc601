//! The wall clock.

use vstd::prelude::*;

verus! {

/// Calls `chrono::Utc::now` and formats the instant with
/// `DateTime::to_rfc3339`. Nothing is claimed of the text: it depends on when
/// the call is made.
#[verifier::external_body]
pub(crate) fn now_rfc3339() -> (r: String) {
    chrono::Utc::now().to_rfc3339()
}

} // verus!
