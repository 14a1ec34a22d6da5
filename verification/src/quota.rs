//! The quota ledger: admits or rejects a prospective storage change.

use vstd::prelude::*;

use crate::errors::ApiError;

verus! {

/// Decides whether a storage change of `delta_mb` megabytes may be
/// persisted for a client currently using `current_usage_mb` of a package
/// granting `capacity_mb`.
///
/// The change is admitted exactly when the prospective total
/// `current_usage_mb + delta_mb` stays within `capacity_mb`; the admitted
/// total is returned for the caller to persist. A rejection reports the
/// prospective total and the capacity it would exceed, exactly.
///
/// A prospective total must be a storable usage value: the caller may not
/// ask about a change that would drive usage negative, and a replacement's
/// delta is bounded by the stored (64-bit) sizes themselves.
pub fn check_and_reserve(current_usage_mb: u64, delta_mb: i128, capacity_mb: u64) -> (r: Result<u64, ApiError>)
    requires
        0 <= current_usage_mb + delta_mb,
        delta_mb <= u64::MAX,
    ensures
        current_usage_mb + delta_mb <= capacity_mb ==> r == Result::<u64, ApiError>::Ok(
            (current_usage_mb + delta_mb) as u64,
        ),
        current_usage_mb + delta_mb > capacity_mb ==> (r matches Result::Err(e) && e@
            == (crate::errors::ApiErrorV::QuotaExceeded {
            requested: (current_usage_mb + delta_mb) as u128,
            limit: capacity_mb,
        })),
{
    let total: i128 = current_usage_mb as i128 + delta_mb;
    if total <= capacity_mb as i128 {
        Ok(total as u64)
    } else {
        Err(ApiError::QuotaExceeded { requested: total as u128, limit: capacity_mb })
    }
}

} // verus!
