//! The serial-port surface that protocol clients use: deadlines, the read
//! pre-check, input discarding and timeout classification.
use vstd::prelude::*;

use crate::clock::{now_ticks, ticks_from_micros};
use crate::error::UartError;
use crate::transport::Rs485Uart;

verus! {

/// The deadline `ticks` after `now`; one past the clock's range saturates at
/// the last tick, a deadline that never passes.
pub open spec fn deadline_at(now: u64, ticks: u64) -> u64 {
    if now + ticks <= u64::MAX {
        (now + ticks) as u64
    } else {
        u64::MAX
    }
}

/// The read pre-check: a deadline that has passed at `now` gives a timeout.
pub open spec fn deadline_check<T, R, C>(deadline: u64, now: u64) -> Result<(), UartError<T, R, C>> {
    if deadline < now {
        Err(UartError::Timeout)
    } else {
        Ok(())
    }
}

impl<U, D, M> Rs485Uart<U, D, M> {
    /// Whether `error` is the timeout kind; false for every other kind.
    pub fn is_timeout_error<T, R, C>(error: &UartError<T, R, C>) -> (r: bool)
        ensures
            r == (*error is Timeout),
    {
        match error {
            UartError::Timeout => true,
            _ => false,
        }
    }

    /// This transport keeps no input buffer of its own to clear: always
    /// succeeds and changes nothing.
    pub fn discard_input_buffer<T, R, C>(&mut self) -> (r: Result<(), UartError<T, R, C>>)
        ensures
            r is Ok,
            *final(self) == *old(self),
    {
        Ok(())
    }

    /// The check made before a read touches the hardware, at time `now`:
    /// a deadline already in the past fails with a timeout at once.
    pub fn check_deadline_at<T, R, C>(&self, deadline: u64, now: u64) -> (r: Result<(), UartError<T, R, C>>)
        ensures
            r == deadline_check::<T, R, C>(deadline, now),
    {
        if deadline < now {
            Err(UartError::Timeout)
        } else {
            Ok(())
        }
    }

    /// The same check against the clock: either the read may go ahead, or it
    /// fails with a timeout without touching the hardware.
    pub fn check_deadline<T, R, C>(&self, deadline: u64) -> (r: Result<(), UartError<T, R, C>>)
        ensures
            r is Ok || r == Err::<(), UartError<T, R, C>>(UartError::Timeout),
            deadline == u64::MAX ==> r is Ok,
    {
        let now = now_ticks();
        self.check_deadline_at(deadline, now)
    }

    /// The deadline `timeout_micros` microseconds after the clock reading `now`.
    pub fn deadline_after(&self, now: u64, timeout_micros: u64) -> (r: u64)
        ensures
            r == deadline_at(now, timeout_micros),
    {
        if timeout_micros == u64::MAX {
            return u64::MAX;
        }
        let ticks = ticks_from_micros(timeout_micros);
        if ticks <= u64::MAX - now {
            now + ticks
        } else {
            u64::MAX
        }
    }

    /// The deadline `timeout_micros` microseconds from now on the clock.
    pub fn make_deadline(&self, timeout_micros: u64) -> (r: u64)
        ensures
            exists|now: u64| r == #[trigger] deadline_at(now, timeout_micros),
            r >= timeout_micros,
    {
        let now = now_ticks();
        let r = self.deadline_after(now, timeout_micros);
        assert(r == deadline_at(now, timeout_micros));
        r
    }
}

} // verus!
