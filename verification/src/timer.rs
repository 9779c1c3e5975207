//! The deadline of the periodic timer interrupt.
//!
//! The core-local timer raises its interrupt once its free-running counter
//! has reached the hart's compare register. The kernel keeps the interrupt
//! periodic by moving the compare register one period past the counter each
//! time the interrupt is serviced.

use vstd::prelude::*;

verus! {

/// Ticks per second of the timer's counter.
pub const MTIME_FREQ: usize = 32_768;

/// Ticks between the service of a timer interrupt and the next deadline: one
/// second's worth at the counter's frequency.
pub const PERIOD: u64 = MTIME_FREQ as u64;

/// The deadline that follows a service at counter value `now`.
pub open spec fn deadline_after(now: u64) -> int {
    now + PERIOD
}

/// Whether the deadline that follows `now` still fits the compare register.
pub open spec fn can_rearm(now: u64) -> bool {
    deadline_after(now) <= u64::MAX
}

/// Whether the deadline that follows `now` still fits the compare register.
pub fn fits(now: u64) -> (r: bool)
    ensures
        r == can_rearm(now),
{
    now <= u64::MAX - PERIOD
}

/// Computes the value to write to the compare register when a timer
/// interrupt is serviced at counter value `now`.
///
/// The deadline lies exactly one period after `now`; as the counter only
/// grows, it has not passed when it is written.
pub fn next_deadline(now: u64) -> (deadline: u64)
    requires
        can_rearm(now),
    ensures
        deadline == deadline_after(now),
        deadline > now,
{
    now + PERIOD
}

} // verus!
