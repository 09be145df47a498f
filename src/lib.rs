//! Half-duplex RS485 transport over a full-duplex UART and one direction pin.
//!
//! The hardware itself (UART driver, GPIO pin, scheduler) stays with the caller;
//! this crate owns the decisions: which hardware operation comes next, what the
//! stored baud rate is, and how every downstream outcome maps onto [`UartError`].

mod clock;
pub mod error;
pub mod port;
pub mod read;
pub mod transport;
pub mod write;

pub use error::UartError;
pub use transport::{Async, Blocking, Rs485Uart};

pub use write::{WriteAction, WriteAll, WriteEvent, WritePhase};
