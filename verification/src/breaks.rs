//! Break sessions: extensions and whether the user came back on time.
use vstd::prelude::*;
use crate::models::EndBreak;

verus! {

/// The user is back on time when the break ends no later than its planned
/// end, `planned_minutes` after its start.
pub open spec fn back_on_time(start_timestamp: int, planned_minutes: int, end_timestamp: int) -> bool {
    end_timestamp <= start_timestamp + planned_minutes * 60
}

/// The record that closes a break session ending at `end_timestamp`.
pub fn end_break_record(break_session_id: i64, start_timestamp: i64, planned_minutes: i64, end_timestamp: i64) -> (r:
    EndBreak)
    requires
        i64::MIN <= planned_minutes * 60 <= i64::MAX,
        i64::MIN <= start_timestamp + planned_minutes * 60 <= i64::MAX,
    ensures
        r.break_session_id == break_session_id,
        r.returned_on_time == back_on_time(start_timestamp as int, planned_minutes as int, end_timestamp as int),
{
    let planned_end = start_timestamp + planned_minutes * 60;
    EndBreak { break_session_id, returned_on_time: end_timestamp <= planned_end }
}

/// Accepts an extension of a break by a positive number of minutes.
pub fn check_extension(extra_minutes: i64) -> (r: Result<(), String>)
    ensures
        r is Ok <==> extra_minutes > 0,
        r matches Err(e) ==> e@ == "extra_minutes must be > 0"@,
{
    if extra_minutes <= 0 {
        return Err("extra_minutes must be > 0".to_string());
    }
    Ok(())
}

/// Extending a break never turns an on-time return into a late one.
pub proof fn lemma_extension_keeps_on_time(start_timestamp: int, planned_minutes: int, extra_minutes: int, end_timestamp: int)
    requires
        extra_minutes > 0,
        back_on_time(start_timestamp, planned_minutes, end_timestamp),
    ensures
        back_on_time(start_timestamp, planned_minutes + extra_minutes, end_timestamp),
{
    assert((planned_minutes + extra_minutes) * 60 == planned_minutes * 60 + extra_minutes * 60) by (nonlinear_arith);
}

} // verus!
