//! Receiving: a single poll in immediate mode, a read bounded by a deadline in
//! suspension-capable mode. Receiving never drives the direction pin.
use vstd::prelude::*;

use crate::error::UartError;
use crate::transport::{Async, Blocking, Rs485Uart};

verus! {

/// What a read reports once the receive primitive has answered.
pub open spec fn received<T, R, C>(polled: Result<usize, R>) -> Result<usize, UartError<T, R, C>> {
    match polled {
        Ok(n) => Ok(n),
        Err(e) => Err(UartError::RxError(e)),
    }
}

/// What a deadline-bounded read reports once the scheduler has resolved it.
pub open spec fn received_by_deadline<T, R, C>(
    outcome: Result<Result<usize, R>, embassy_time::TimeoutError>,
) -> Result<usize, UartError<T, R, C>> {
    match outcome {
        Ok(polled) => received(polled),
        Err(_) => Err(UartError::Timeout),
    }
}

/// The decision after one poll of the receive primitive at time `now`:
/// `None` to wait and poll again, `Some` with the read's result otherwise.
/// Data or a receive failure ends the read; an empty poll ends it with a
/// timeout once the deadline is reached.
pub open spec fn poll_decision<T, R, C>(deadline: u64, now: u64, polled: Result<usize, R>) -> Option<
    Result<usize, UartError<T, R, C>>,
> {
    match polled {
        Ok(0) => if deadline <= now {
            Some(Err(UartError::Timeout))
        } else {
            None
        },
        _ => Some(received(polled)),
    }
}

fn fold_received<T, R, C>(polled: Result<usize, R>) -> (r: Result<usize, UartError<T, R, C>>)
    ensures
        r == received::<T, R, C>(polled),
{
    match polled {
        Ok(n) => Ok(n),
        Err(e) => Err(UartError::RxError(e)),
    }
}

impl<U, D> Rs485Uart<U, D, Blocking> {
    /// The result of one non-blocking poll of already received bytes; `polled`
    /// is what the UART's buffered read returned. Zero bytes is no error: the
    /// caller polls again.
    pub fn read<T, R, C>(&self, polled: Result<usize, R>) -> (r: Result<usize, UartError<T, R, C>>)
        ensures
            r == received::<T, R, C>(polled),
    {
        fold_received(polled)
    }
}

impl<U, D> Rs485Uart<U, D, Async> {
    /// The result of a read that was awaited under a deadline; `outcome` is
    /// what the deadline-bounded receive resolved to. The scheduler's timeout
    /// becomes [`UartError::Timeout`] and never reaches the caller as such.
    pub fn read_async<T, R, C>(&self, outcome: Result<Result<usize, R>, embassy_time::TimeoutError>) -> (r: Result<
        usize,
        UartError<T, R, C>,
    >)
        ensures
            r == received_by_deadline::<T, R, C>(outcome),
    {
        match outcome {
            Ok(polled) => fold_received(polled),
            Err(e) => Err(UartError::from(e)),
        }
    }

    /// One round of a deadline-bounded read over a polled receive primitive:
    /// `polled` is what the poll at time `now` returned.
    pub fn read_poll<T, R, C>(&self, deadline: u64, now: u64, polled: Result<usize, R>) -> (r: Option<
        Result<usize, UartError<T, R, C>>,
    >)
        ensures
            r == poll_decision::<T, R, C>(deadline, now, polled),
    {
        match polled {
            Ok(0) => if deadline <= now {
                Some(Err(UartError::Timeout))
            } else {
                None
            },
            _ => Some(fold_received(polled)),
        }
    }
}

} // verus!
