use vstd::prelude::*;

verus! {

/// The closed set of failures that the transport reports.
///
/// `T`, `R` and `C` are the UART driver's transmit, receive and configuration
/// error types; each downstream failure is carried, never dropped.
#[derive(Debug, Clone, Copy, PartialEq, Eq)]
pub enum UartError<T, R, C> {
    TxError(T),
    RxError(R),
    DirPinError,
    Timeout,
    SetBaudError(C),
}

} // verus!

verus! {

#[verifier::external_type_specification]
#[verifier::external_body]
pub struct ExTimeoutError(embassy_time::TimeoutError);

/// A scheduler-level timeout folds into the transport's own timeout kind.
impl<T, R, C> std::convert::From<embassy_time::TimeoutError> for UartError<T, R, C> {
    fn from(_e: embassy_time::TimeoutError) -> Self {
        UartError::Timeout
    }
}

impl<T, R, C> vstd::std_specs::convert::FromSpecImpl<embassy_time::TimeoutError> for UartError<T, R, C> {
    open spec fn obeys_from_spec() -> bool {
        true
    }

    open spec fn from_spec(v: embassy_time::TimeoutError) -> Self {
        UartError::Timeout
    }
}

} // verus!
