//! The check-time timestamp that snapshots and alerts carry.

use vstd::prelude::*;

verus! {

/// Relies on chrono's `Utc::now` and `DateTime::format`: the current UTC
/// wall-clock time rendered as "YYYY-MM-DD HH:MM:SS". The value depends on
/// the clock at the moment of the call, so nothing is assumed of it.
#[verifier::external_body]
pub(crate) fn now_timestamp() -> (r: String) {
    chrono::Utc::now().format("%Y-%m-%d %H:%M:%S").to_string()
}

} // verus!
