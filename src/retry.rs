use vstd::prelude::*;

verus! {

/// Attempts at opening a log file before the pipeline gives up.
pub const OPEN_ATTEMPTS: u32 = 5;

/// The delay, in milliseconds, after the first failed attempt.
pub const FIRST_RETRY_DELAY_MS: u64 = 100;

/// The delay after `failed` failed attempts (at least one): 100 ms, doubling
/// after each further failure.
pub open spec fn retry_delay_spec(failed: nat) -> nat
    decreases failed,
{
    if failed <= 1 {
        FIRST_RETRY_DELAY_MS as nat
    } else {
        2 * retry_delay_spec((failed - 1) as nat)
    }
}

/// After `failed` failed attempts at opening a log file: how long to wait before
/// the next attempt, or `None` where the pipeline gives up. The first attempt
/// comes at once.
pub fn open_retry_delay_ms(failed: u32) -> (r: Option<u64>)
    ensures
        failed == 0 ==> r == Some(0u64),
        1 <= failed < OPEN_ATTEMPTS ==> r == Some(retry_delay_spec(failed as nat) as u64),
        failed >= OPEN_ATTEMPTS ==> r is None,
{
    assert(retry_delay_spec(1) == 100);
    assert(retry_delay_spec(2) == 200);
    assert(retry_delay_spec(3) == 400);
    assert(retry_delay_spec(4) == 800);
    if failed == 0 {
        Some(0)
    } else if failed >= OPEN_ATTEMPTS {
        None
    } else if failed == 1 {
        Some(FIRST_RETRY_DELAY_MS)
    } else if failed == 2 {
        Some(2 * FIRST_RETRY_DELAY_MS)
    } else if failed == 3 {
        Some(4 * FIRST_RETRY_DELAY_MS)
    } else {
        Some(8 * FIRST_RETRY_DELAY_MS)
    }
}

} // verus!
