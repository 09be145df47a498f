//! The transport: an owned UART handle, an owned direction pin and the baud rate
//! last applied to the UART, in one of two execution modes.
use vstd::prelude::*;

use crate::write::{WriteAction, WriteAll, WriteState};

verus! {

/// Marker of the immediate (blocking) execution mode.
#[derive(Debug, Clone, Copy, PartialEq, Eq, Structural)]
pub struct Blocking;

/// Marker of the suspension-capable (async) execution mode.
#[derive(Debug, Clone, Copy, PartialEq, Eq, Structural)]
pub struct Async;

/// RS485 transport over a UART handle `U` and a direction pin `D`, in mode `M`.
///
/// The stored baud rate is the rate last applied to the UART with success:
/// the caller applies a rate to the hardware first and hands the outcome to
/// [`Rs485Uart::new`] or [`Rs485Uart::set_baud_rate`].
pub struct Rs485Uart<U, D, M> {
    uart: U,
    dir: D,
    baud_rate: u32,
    mode: M,
}

/// The stored rate after an attempt to apply `new_rate`: the new rate when the
/// hardware took it, the old one otherwise.
pub open spec fn baud_after<C>(old_rate: u32, new_rate: u32, applied: Result<(), C>) -> u32 {
    match applied {
        Ok(()) => new_rate,
        Err(_) => old_rate,
    }
}

impl<U, D, M> Rs485Uart<U, D, M> {
    pub closed spec fn uart_spec(&self) -> U {
        self.uart
    }

    pub closed spec fn dir_spec(&self) -> D {
        self.dir
    }

    pub closed spec fn baud_spec(&self) -> u32 {
        self.baud_rate
    }

    /// Builds a transport from a UART and a direction pin, once `baud_rate`
    /// has been applied to the UART; `applied` is the outcome of that. Fails
    /// with the configuration error, and yields no transport, if it failed.
    pub fn new<C>(uart: U, dir: D, baud_rate: u32, mode: M, applied: Result<(), C>) -> (r: Result<
        Self,
        C,
    >)
        ensures
            applied is Ok <==> r is Ok,
            r matches Ok(t) ==> t.baud_spec() == baud_rate && t.uart_spec() == uart && t.dir_spec()
                == dir,
            applied matches Err(e) ==> r == Err::<Self, C>(e),
    {
        match applied {
            Ok(()) => Ok(Rs485Uart { uart, dir, baud_rate, mode }),
            Err(e) => Err(e),
        }
    }

    /// The rate last applied to the UART with success.
    pub fn baud_rate(&self) -> (r: u32)
        ensures
            r == self.baud_spec(),
    {
        self.baud_rate
    }

    /// Records the outcome of applying `baud_rate` to the UART: the stored
    /// rate changes only when the hardware took it, and the error is handed
    /// back otherwise, so the field and the hardware never disagree.
    pub fn set_baud_rate<C>(&mut self, baud_rate: u32, applied: Result<(), C>) -> (r: Result<(), C>)
        ensures
            r == applied,
            final(self).baud_spec() == baud_after(old(self).baud_spec(), baud_rate, applied),
            final(self).uart_spec() == old(self).uart_spec(),
            final(self).dir_spec() == old(self).dir_spec(),
    {
        match applied {
            Ok(u) => {
                self.baud_rate = baud_rate;
                Ok(u)
            },
            Err(e) => Err(e),
        }
    }

    /// The UART handle, for the caller to perform the hardware steps on.
    pub fn uart_mut(&mut self) -> (r: &mut U)
        ensures
            *r == old(self).uart_spec(),
            final(self).uart_spec() == *final(r),
            final(self).dir_spec() == old(self).dir_spec(),
            final(self).baud_spec() == old(self).baud_spec(),
    {
        &mut self.uart
    }

    /// The direction pin, for the caller to drive.
    pub fn dir_mut(&mut self) -> (r: &mut D)
        ensures
            *r == old(self).dir_spec(),
            final(self).dir_spec() == *final(r),
            final(self).uart_spec() == old(self).uart_spec(),
            final(self).baud_spec() == old(self).baud_spec(),
    {
        &mut self.dir
    }

    /// Starts the direction-bracketed write of `buffer`; the session says
    /// which hardware step comes next, beginning with the pin going high.
    fn begin_write<T>(&self, buffer: &[u8]) -> (r: (WriteAll<T>, WriteAction))
        ensures
            r.0.wf(),
            r.0@ == WriteState::<T>::initial(buffer@.len()),
            r.1 == WriteAction::SetHigh,
    {
        WriteAll::begin(buffer.len())
    }

    /// Re-wraps the same UART, converted by `convert`, and the same pin in
    /// mode `N`. The baud rate is kept and nothing is applied to the hardware.
    fn into_mode<V, N, F: FnOnce(U) -> V>(self, mode: N, convert: F) -> (r: Rs485Uart<V, D, N>)
        requires
            call_requires(convert, (self.uart_spec(),)),
        ensures
            call_ensures(convert, (self.uart_spec(),), r.uart_spec()),
            r.dir_spec() == self.dir_spec(),
            r.baud_spec() == self.baud_spec(),
    {
        let Rs485Uart { uart, dir, baud_rate, mode: _ } = self;
        let uart = convert(uart);
        Rs485Uart { uart, dir, baud_rate, mode }
    }
}

impl<U, D> Rs485Uart<U, D, Blocking> {
    /// Turns the transport into its suspension-capable form; `convert` turns
    /// the UART handle into its async form. The baud rate is kept and no
    /// hardware reconfiguration takes place.
    pub fn into_async<V, F: FnOnce(U) -> V>(self, convert: F) -> (r: Rs485Uart<V, D, Async>)
        requires
            call_requires(convert, (self.uart_spec(),)),
        ensures
            call_ensures(convert, (self.uart_spec(),), r.uart_spec()),
            r.dir_spec() == self.dir_spec(),
            r.baud_spec() == self.baud_spec(),
    {
        self.into_mode(Async, convert)
    }

    /// Starts a blocking direction-bracketed write of `buffer`: pin high, the
    /// whole buffer written, flushed, pin low; the pin is released on every
    /// path once it went high. `T` is the UART's transmit error. The caller performs each step
    /// that the session asks for and reports its outcome.
    pub fn write_all<T>(&self, buffer: &[u8]) -> (r: (WriteAll<T>, WriteAction))
        ensures
            r.0.wf(),
            r.0@ == WriteState::<T>::initial(buffer@.len()),
            r.1 == WriteAction::SetHigh,
    {
        self.begin_write(buffer)
    }
}

impl<U, D> Rs485Uart<U, D, Async> {
    /// Turns the transport back into its blocking form; `convert` turns the
    /// UART handle into its blocking form. The baud rate is kept and no
    /// hardware reconfiguration takes place.
    pub fn into_blocking<V, F: FnOnce(U) -> V>(self, convert: F) -> (r: Rs485Uart<V, D, Blocking>)
        requires
            call_requires(convert, (self.uart_spec(),)),
        ensures
            call_ensures(convert, (self.uart_spec(),), r.uart_spec()),
            r.dir_spec() == self.dir_spec(),
            r.baud_spec() == self.baud_spec(),
    {
        self.into_mode(Blocking, convert)
    }

    /// Starts a suspension-capable direction-bracketed write of `buffer`, with
    /// the same steps as the blocking one, the pin released on every path once
    /// it went high; the caller awaits the write and flush steps.
    pub fn write_all_async<T>(&self, buffer: &[u8]) -> (r: (WriteAll<T>, WriteAction))
        ensures
            r.0.wf(),
            r.0@ == WriteState::<T>::initial(buffer@.len()),
            r.1 == WriteAction::SetHigh,
    {
        self.begin_write(buffer)
    }
}

/// Setting a rate and reading it back gives the new rate when the hardware
/// took it, and the rate from before the call when it refused it.
pub proof fn lemma_set_then_get<C>(old_rate: u32, new_rate: u32, applied: Result<(), C>)
    ensures
        applied is Ok ==> baud_after(old_rate, new_rate, applied) == new_rate,
        applied is Err ==> baud_after(old_rate, new_rate, applied) == old_rate,
{
}

/// A trip to the other execution mode and back keeps the baud rate and the
/// direction pin: each conversion carries them over unchanged.
pub proof fn lemma_mode_round_trip<U, V, W, D>(
    t: Rs485Uart<U, D, Blocking>,
    a: Rs485Uart<V, D, Async>,
    b: Rs485Uart<W, D, Blocking>,
)
    requires
        a.baud_spec() == t.baud_spec() && a.dir_spec() == t.dir_spec(),
        b.baud_spec() == a.baud_spec() && b.dir_spec() == a.dir_spec(),
    ensures
        b.baud_spec() == t.baud_spec(),
        b.dir_spec() == t.dir_spec(),
{
}

} // verus!
