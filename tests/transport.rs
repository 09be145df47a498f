use rs485_uart::{Async, Blocking, Rs485Uart, UartError, WriteAction, WriteAll, WriteEvent, WritePhase};

type Err3 = UartError<u8, u8, u8>;

/// A UART stand-in that records every primitive call.
#[derive(Debug, Default, Clone, PartialEq)]
struct MockUart {
    config_calls: usize,
    write_calls: usize,
    flush_calls: usize,
    chunks: Vec<usize>,
    written: Vec<u8>,
    log: Vec<String>,
    pin_high: bool,
    pin_high_fails: bool,
    pin_low_fails: bool,
    write_fails: bool,
    flush_fails: bool,
    pin_low_during_write: bool,
}

impl MockUart {
    fn apply_config(&mut self, _baud: u32, accept: bool) -> Result<(), u8> {
        self.config_calls += 1;
        if accept {
            Ok(())
        } else {
            Err(7)
        }
    }
}

/// Performs each step that the session asks for on the mock.
fn run_write(uart: &mut MockUart, buffer: &[u8], start: (WriteAll<u8>, WriteAction)) -> Result<(), Err3> {
    let (mut session, mut action) = start;
    loop {
        let event = match action {
            WriteAction::SetHigh => {
                uart.log.push("high".to_string());
                if uart.pin_high_fails {
                    WriteEvent::DirSet(false)
                } else {
                    uart.pin_high = true;
                    WriteEvent::DirSet(true)
                }
            }
            WriteAction::Write { from } => {
                uart.log.push("write".to_string());
                uart.write_calls += 1;
                if !uart.pin_high {
                    uart.pin_low_during_write = true;
                }
                if uart.write_fails {
                    WriteEvent::Wrote(Err(1))
                } else {
                    let rest = &buffer[from..];
                    let n = if uart.chunks.is_empty() { rest.len() } else { uart.chunks.remove(0) };
                    uart.written.extend_from_slice(&rest[..n]);
                    WriteEvent::Wrote(Ok(n))
                }
            }
            WriteAction::Flush => {
                uart.log.push("flush".to_string());
                uart.flush_calls += 1;
                if uart.flush_fails {
                    WriteEvent::Flushed(Err(2))
                } else {
                    WriteEvent::Flushed(Ok(()))
                }
            }
            WriteAction::SetLow => {
                uart.log.push("low".to_string());
                if uart.pin_low_fails {
                    WriteEvent::DirSet(false)
                } else {
                    uart.pin_high = false;
                    WriteEvent::DirSet(true)
                }
            }
            WriteAction::Done => return Ok(()),
        };
        action = session.step::<u8, u8>(event)?;
    }
}

fn transport(uart: MockUart) -> Rs485Uart<MockUart, u32, Blocking> {
    let mut uart = uart;
    let applied = uart.apply_config(115_200, true);
    Rs485Uart::new(uart, 10u32, 115_200, Blocking, applied).unwrap()
}

#[test]
fn new_keeps_applied_rate() {
    let t = transport(MockUart::default());
    assert_eq!(t.baud_rate(), 115_200);
}

#[test]
fn new_fails_when_hardware_refuses_rate() {
    let r = Rs485Uart::new(MockUart::default(), 10u32, 9_600, Blocking, Err::<(), u8>(7));
    assert!(matches!(r, Err(7)));
}

#[test]
fn set_baud_rate_applied() {
    let mut t = transport(MockUart::default());
    let applied = t.uart_mut().apply_config(1_000_000, true);
    assert_eq!(t.set_baud_rate(1_000_000, applied), Ok(()));
    assert_eq!(t.baud_rate(), 1_000_000);
}

#[test]
fn set_baud_rate_refused_keeps_old_rate() {
    let mut t = transport(MockUart::default());
    let applied = t.uart_mut().apply_config(57_600, false);
    assert_eq!(t.set_baud_rate(57_600, applied), Err(7));
    assert_eq!(t.baud_rate(), 115_200);
}

#[test]
fn mode_round_trip_keeps_rate_without_reconfiguring() {
    let t = transport(MockUart::default());
    let a: Rs485Uart<MockUart, u32, Async> = t.into_async(|u| u);
    assert_eq!(a.baud_rate(), 115_200);
    let mut b: Rs485Uart<MockUart, u32, Blocking> = a.into_blocking(|u| u);
    assert_eq!(b.baud_rate(), 115_200);
    assert_eq!(b.uart_mut().config_calls, 1);
    assert_eq!(*b.dir_mut(), 10);
}

#[test]
fn write_all_in_two_chunks() {
    let mut t = transport(MockUart { chunks: vec![3, 5], ..MockUart::default() });
    let buffer = [1u8, 2, 3, 4, 5, 6, 7, 8];
    let start = t.write_all(&buffer);
    let r = run_write(t.uart_mut(), &buffer, start);
    assert_eq!(r, Ok(()));
    let uart = t.uart_mut();
    assert_eq!(uart.write_calls, 2);
    assert_eq!(uart.log, vec!["high", "write", "write", "flush", "low"]);
    assert_eq!(uart.written, buffer.to_vec());
    assert!(!uart.pin_high);
}

#[test]
fn write_all_brackets_every_write_with_the_pin() {
    let mut t = transport(MockUart { chunks: vec![1, 1, 1, 1], ..MockUart::default() });
    let buffer = [9u8, 8, 7, 6];
    let start = t.write_all(&buffer);
    assert_eq!(start.1, WriteAction::SetHigh);
    assert_eq!(run_write(t.uart_mut(), &buffer, start), Ok(()));
    let uart = t.uart_mut();
    assert!(!uart.pin_low_during_write);
    assert_eq!(uart.log.iter().filter(|s| *s == "high").count(), 1);
    assert_eq!(uart.log.iter().filter(|s| *s == "low").count(), 1);
    assert_eq!(uart.log.first().map(|s| s.as_str()), Some("high"));
    assert_eq!(uart.log.last().map(|s| s.as_str()), Some("low"));
    assert_eq!(uart.write_calls, 4);
}

#[test]
fn write_all_dir_failure_writes_nothing() {
    let mut t = transport(MockUart { pin_high_fails: true, ..MockUart::default() });
    let buffer = [1u8, 2, 3];
    let start = t.write_all(&buffer);
    let r = run_write(t.uart_mut(), &buffer, start);
    assert_eq!(r, Err(UartError::DirPinError));
    assert_eq!(t.uart_mut().write_calls, 0);
    assert_eq!(t.uart_mut().flush_calls, 0);
}

#[test]
fn write_all_empty_buffer_still_brackets() {
    let mut t = transport(MockUart::default());
    let buffer: [u8; 0] = [];
    let start = t.write_all(&buffer);
    assert_eq!(run_write(t.uart_mut(), &buffer, start), Ok(()));
    assert_eq!(t.uart_mut().log, vec!["high", "flush", "low"]);
}

#[test]
fn write_all_transmit_failure() {
    let mut t = transport(MockUart { write_fails: true, ..MockUart::default() });
    let buffer = [1u8, 2];
    let start = t.write_all(&buffer);
    assert_eq!(run_write(t.uart_mut(), &buffer, start), Err(UartError::TxError(1)));
    let uart = t.uart_mut();
    assert_eq!(uart.log, vec!["high", "write", "low"]);
    assert_eq!(uart.write_calls, 1);
    assert!(!uart.pin_high);
}

#[test]
fn write_all_transmit_failure_reported_when_release_fails_too() {
    let mut t = transport(MockUart { write_fails: true, pin_low_fails: true, ..MockUart::default() });
    let buffer = [1u8, 2];
    let start = t.write_all(&buffer);
    assert_eq!(run_write(t.uart_mut(), &buffer, start), Err(UartError::TxError(1)));
    assert_eq!(t.uart_mut().log, vec!["high", "write", "low"]);
}

#[test]
fn write_session_releases_pin_after_failure() {
    let (mut s, _) = WriteAll::<u8>::begin(4);
    assert_eq!(s.step::<u8, u8>(WriteEvent::DirSet(true)), Ok(WriteAction::Write { from: 0 }));
    assert_eq!(s.step::<u8, u8>(WriteEvent::Wrote(Ok(1))), Ok(WriteAction::Write { from: 1 }));
    assert_eq!(s.step::<u8, u8>(WriteEvent::Wrote(Err(5))), Ok(WriteAction::SetLow));
    assert_eq!(s.phase(), WritePhase::Aborting);
    assert_eq!(s.step::<u8, u8>(WriteEvent::DirSet(true)), Err(UartError::TxError(5)));
    assert_eq!(s.phase(), WritePhase::Failed);
}

#[test]
fn write_all_flush_failure() {
    let mut t = transport(MockUart { flush_fails: true, ..MockUart::default() });
    let buffer = [1u8, 2];
    let start = t.write_all(&buffer);
    assert_eq!(run_write(t.uart_mut(), &buffer, start), Err(UartError::TxError(2)));
    let uart = t.uart_mut();
    assert_eq!(uart.log, vec!["high", "write", "flush", "low"]);
    assert!(!uart.pin_high);
}

#[test]
fn write_all_release_failure_is_reported_after_sending() {
    let mut t = transport(MockUart { pin_low_fails: true, ..MockUart::default() });
    let buffer = [1u8, 2, 3];
    let start = t.write_all(&buffer);
    assert_eq!(run_write(t.uart_mut(), &buffer, start), Err(UartError::DirPinError));
    assert_eq!(t.uart_mut().written, vec![1, 2, 3]);
}

#[test]
fn write_all_async_same_steps() {
    let t = transport(MockUart { chunks: vec![2, 1], ..MockUart::default() });
    let mut a = t.into_async(|u| u);
    let buffer = [4u8, 5, 6];
    let start = a.write_all_async(&buffer);
    assert_eq!(run_write(a.uart_mut(), &buffer, start), Ok(()));
    assert_eq!(a.uart_mut().log, vec!["high", "write", "write", "flush", "low"]);
}

#[test]
fn write_session_reports_progress() {
    let (mut s, a) = WriteAll::<u8>::begin(5);
    assert_eq!(a, WriteAction::SetHigh);
    assert_eq!(s.phase(), WritePhase::AssertingDir);
    assert_eq!(s.step::<u8, u8>(WriteEvent::DirSet(true)), Ok(WriteAction::Write { from: 0 }));
    assert_eq!(s.step::<u8, u8>(WriteEvent::Wrote(Ok(2))), Ok(WriteAction::Write { from: 2 }));
    assert_eq!(s.sent(), 2);
    assert_eq!(s.phase(), WritePhase::Writing);
    assert_eq!(s.step::<u8, u8>(WriteEvent::Wrote(Ok(3))), Ok(WriteAction::Flush));
    assert_eq!(s.step::<u8, u8>(WriteEvent::Flushed(Ok(()))), Ok(WriteAction::SetLow));
    assert_eq!(s.phase(), WritePhase::ReleasingDir);
    assert_eq!(s.step::<u8, u8>(WriteEvent::DirSet(true)), Ok(WriteAction::Done));
    assert_eq!(s.phase(), WritePhase::Done);
}

#[test]
fn blocking_read_results() {
    let t = transport(MockUart::default());
    assert_eq!(t.read::<u8, u8, u8>(Ok(0)), Ok(0));
    assert_eq!(t.read::<u8, u8, u8>(Ok(4)), Ok(4));
    assert_eq!(t.read::<u8, u8, u8>(Err(3)), Err(UartError::RxError(3)));
}

#[test]
fn async_read_folds_scheduler_timeout() {
    let a = transport(MockUart::default()).into_async(|u| u);
    let timed_out: Result<Result<usize, u8>, embassy_time::TimeoutError> = Err(embassy_time::TimeoutError);
    assert_eq!(a.read_async::<u8, u8, u8>(timed_out), Err(UartError::Timeout));
    assert_eq!(a.read_async::<u8, u8, u8>(Ok(Ok(6))), Ok(6));
    assert_eq!(a.read_async::<u8, u8, u8>(Ok(Err(4))), Err(UartError::RxError(4)));
}

#[test]
fn timeout_error_converts_to_timeout_kind() {
    let e: Err3 = UartError::from(embassy_time::TimeoutError);
    assert_eq!(e, UartError::Timeout);
}

#[test]
fn polled_read_waits_for_data() {
    let a = transport(MockUart::default()).into_async(|u| u);
    let mut answers = vec![0usize, 0, 0, 4];
    let incoming = [0xAAu8, 0xBB, 0xCC, 0xDD];
    let mut buffer = [0u8; 8];
    let deadline: u64 = 1_000;
    let mut now: u64 = 100;
    let mut polls = 0;
    let result = loop {
        let n = answers.remove(0);
        buffer[..n].copy_from_slice(&incoming[..n]);
        polls += 1;
        match a.read_poll::<u8, u8, u8>(deadline, now, Ok(n)) {
            Some(r) => break r,
            None => now += 100,
        }
    };
    assert_eq!(result, Ok(4));
    assert_eq!(polls, 4);
    assert_eq!(&buffer[..4], &incoming);
}

#[test]
fn polled_read_times_out_without_data() {
    let a = transport(MockUart::default()).into_async(|u| u);
    assert_eq!(a.read_poll::<u8, u8, u8>(500, 400, Ok(0)), None);
    assert_eq!(a.read_poll::<u8, u8, u8>(500, 500, Ok(0)), Some(Err(UartError::Timeout)));
    assert_eq!(a.read_poll::<u8, u8, u8>(500, 600, Ok(2)), Some(Ok(2)));
    assert_eq!(a.read_poll::<u8, u8, u8>(500, 100, Err(9)), Some(Err(UartError::RxError(9))));
}

#[test]
fn past_deadline_times_out_before_reading() {
    let t = transport(MockUart::default());
    assert_eq!(t.check_deadline_at::<u8, u8, u8>(10, 11), Err(UartError::Timeout));
    assert_eq!(t.check_deadline_at::<u8, u8, u8>(10, 10), Ok(()));
    assert_eq!(t.check_deadline_at::<u8, u8, u8>(10, 3), Ok(()));
}

#[test]
fn past_deadline_times_out_in_async_mode() {
    let a = transport(MockUart::default()).into_async(|u| u);
    assert_eq!(a.check_deadline_at::<u8, u8, u8>(0, 1), Err(UartError::Timeout));
    assert_eq!(a.check_deadline_at::<u8, u8, u8>(5, 5), Ok(()));
}

#[test]
fn far_deadline_passes_check_against_clock() {
    let t = transport(MockUart::default());
    assert_eq!(t.check_deadline::<u8, u8, u8>(u64::MAX), Ok(()));
}

#[test]
fn is_timeout_error_over_every_kind() {
    type T = Rs485Uart<MockUart, u32, Blocking>;
    assert!(T::is_timeout_error::<u8, u8, u8>(&UartError::Timeout));
    assert!(!T::is_timeout_error::<u8, u8, u8>(&UartError::TxError(1)));
    assert!(!T::is_timeout_error::<u8, u8, u8>(&UartError::RxError(1)));
    assert!(!T::is_timeout_error::<u8, u8, u8>(&UartError::DirPinError));
    assert!(!T::is_timeout_error::<u8, u8, u8>(&UartError::SetBaudError(1)));
}

#[test]
fn discard_input_buffer_always_succeeds() {
    let mut t = transport(MockUart::default());
    assert_eq!(t.discard_input_buffer::<u8, u8, u8>(), Ok(()));
    assert_eq!(t.baud_rate(), 115_200);
}

#[test]
fn deadline_after_adds_microseconds() {
    let t = transport(MockUart::default());
    assert_eq!(t.deadline_after(1_000, 250), 1_250);
    assert_eq!(t.deadline_after(0, 0), 0);
    assert_eq!(t.deadline_after(u64::MAX - 5, 10), u64::MAX);
    assert_eq!(t.deadline_after(0, u64::MAX), u64::MAX);
    assert_eq!(t.deadline_after(7, u64::MAX - 7), u64::MAX);
}

#[test]
fn make_deadline_lies_ahead() {
    let t = transport(MockUart::default());
    let d = t.make_deadline(5_000_000);
    assert!(d >= 5_000_000);
    assert_eq!(t.check_deadline::<u8, u8, u8>(d), Ok(()));
}
