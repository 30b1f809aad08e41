//! What a download does after an attempt fails, and the state it ends in.
use crate::downloads::job::JobState;
use crate::error::MonoryxError;
use crate::text::{concat2, contains, lit, str_contains, to_chars, from_chars};
use vstd::prelude::*;

verus! {

/// `<dest>.part`, where a download is written before it is complete.
pub fn part_path(dest: &str) -> (r: String)
    ensures
        r@ == dest@ + ".part"@,
{
    let v = concat2(&to_chars(dest), &lit(".part"));
    from_chars(&v)
}

/// An HTTP status that retrying cannot change: 400, 401, 403, 404 or 422.
pub open spec fn names_permanent_status(msg: Seq<char>) -> bool {
    contains(msg, "HTTP 404"@) || contains(msg, "HTTP 400"@) || contains(msg, "HTTP 401"@) || contains(
        msg,
        "HTTP 403"@,
    ) || contains(msg, "HTTP 422"@)
}

/// Whether a download error reports a permanent HTTP failure.
pub fn is_permanent_http(e: &MonoryxError) -> (r: bool)
    ensures
        r == (e matches MonoryxError::Download(msg) && names_permanent_status(msg@)),
{
    match e {
        MonoryxError::Download(msg) => {
            let m = to_chars(msg.as_str());
            str_contains(&m, "HTTP 404") || str_contains(&m, "HTTP 400") || str_contains(&m, "HTTP 401")
                || str_contains(&m, "HTTP 403") || str_contains(&m, "HTTP 422")
        },
        _ => false,
    }
}

/// The pause before the next attempt: 400 ms doubled per attempt made, at
/// most four doublings.
pub open spec fn backoff_ms_spec(attempt: u32) -> u64 {
    if attempt >= 4 {
        6400
    } else if attempt == 3 {
        3200
    } else if attempt == 2 {
        1600
    } else if attempt == 1 {
        800
    } else {
        400
    }
}

/// After attempt number `attempt` failed with `e`: `None` to give up (a
/// hash mismatch, a permanent HTTP status, or more than `max_retries`
/// attempts made), else the pause in milliseconds before trying again.
pub fn retry_after(e: &MonoryxError, attempt: u32, max_retries: u32) -> (r: Option<u64>)
    ensures
        r is None <==> (e is HashMismatch || (e matches MonoryxError::Download(msg) && names_permanent_status(msg@))
            || attempt > max_retries),
        r matches Some(ms) ==> ms == backoff_ms_spec(attempt),
{
    let hash = match e {
        MonoryxError::HashMismatch { .. } => true,
        _ => false,
    };
    if hash || is_permanent_http(e) || attempt > max_retries {
        return None;
    }
    let ms: u64 = if attempt >= 4 {
        6400
    } else if attempt == 3 {
        3200
    } else if attempt == 2 {
        1600
    } else if attempt == 1 {
        800
    } else {
        400
    };
    Some(ms)
}

/// The number of downloads run at once: the setting kept between 1 and 16.
pub fn clamp_concurrency(n: usize) -> (r: usize)
    ensures
        r == (if n < 1 { 1 } else if n > 16 { 16 } else { n }),
{
    if n < 1 {
        1
    } else if n > 16 {
        16
    } else {
        n
    }
}

/// The state a download ends in: completed or failed by its result, or
/// cancelled when it stopped before finishing.
pub fn final_state(finished: bool, succeeded: bool) -> (r: JobState)
    ensures
        !finished ==> r == JobState::Cancelled,
        finished && succeeded ==> r == JobState::Completed,
        finished && !succeeded ==> r == JobState::Failed,
{
    if !finished {
        JobState::Cancelled
    } else if succeeded {
        JobState::Completed
    } else {
        JobState::Failed
    }
}

} // verus!
