//! Time ranges of the analytics views and the retraining decision.
use vstd::prelude::*;

verus! {

/// Seconds in a day.
pub const SECONDS_PER_DAY: i64 = 86_400;

/// Corrected labelled windows needed before retraining is offered.
pub const MIN_LABELLED_FOR_RETRAINING: i64 = 50;

/// The start of a range of `range_days` days ending at `now`.
pub fn since_timestamp(now: i64, range_days: i64) -> (r: i64)
    requires
        i64::MIN <= range_days * SECONDS_PER_DAY <= i64::MAX,
        i64::MIN <= now - range_days * SECONDS_PER_DAY <= i64::MAX,
    ensures
        r == now - range_days * SECONDS_PER_DAY,
{
    now - range_days * SECONDS_PER_DAY
}

/// Retraining is needed when more than a quarter of the recent predictions
/// were corrected by the user and at least fifty windows carry a truth label.
pub fn retraining_needed(corrected: i64, total: i64, labelled_count: i64) -> (r: bool)
    ensures
        r == (total > 0 && 4 * corrected > total && labelled_count >= MIN_LABELLED_FOR_RETRAINING),
{
    total > 0 && (corrected as i128) * 4 > total as i128 && labelled_count >= MIN_LABELLED_FOR_RETRAINING
}

} // verus!
