//! The direction-bracketed write: pin high, write the buffer fully, flush, pin low.
//!
//! The hardware steps are performed by the caller; a [`WriteAll`] session says
//! which step comes next and folds each step's outcome into the result.
use vstd::prelude::*;

use crate::error::UartError;

verus! {

/// One hardware step that the caller performs next.
#[derive(Debug, Clone, Copy, PartialEq, Eq, Structural)]
pub enum WriteAction {
    /// Drive the direction pin high (enable the bus driver).
    SetHigh,
    /// Hand `buffer[from..]` to the UART's write primitive.
    Write { from: usize },
    /// Wait until the UART has physically sent everything.
    Flush,
    /// Drive the direction pin low (release the bus).
    SetLow,
    /// Nothing left to do: the write succeeded.
    Done,
}

/// The outcome of the step that was last requested.
#[derive(Debug, PartialEq, Eq)]
pub enum WriteEvent<T> {
    /// The direction pin was set (`true`) or setting it failed (`false`).
    DirSet(bool),
    /// The write primitive accepted that many bytes, or failed.
    Wrote(Result<usize, T>),
    /// The flush completed, or failed.
    Flushed(Result<(), T>),
}

#[derive(Debug, Clone, Copy, PartialEq, Eq, Structural)]
pub enum WritePhase {
    AssertingDir,
    Writing,
    Flushing,
    ReleasingDir,
    /// A write or flush failed: the pin is being released before the
    /// transmit error is reported.
    Aborting,
    Done,
    Failed,
}

/// Abstract state of a write session: the buffer length, how much of it the
/// UART has accepted, the phase, the transmit error held while the pin is
/// released, and every hardware step requested so far.
pub ghost struct WriteState<T> {
    pub len: nat,
    pub sent: nat,
    pub phase: WritePhase,
    pub pending: Option<T>,
    pub history: Seq<WriteAction>,
}

/// Every step in `h[lo..hi]` is a write.
pub open spec fn writes_only(h: Seq<WriteAction>, lo: int, hi: int) -> bool {
    forall|i: int| lo <= i < hi ==> (#[trigger] h[i]) is Write
}

/// The pin goes high first, only writes follow, then one flush, then the pin
/// goes low as the very last step.
pub open spec fn bracketed(h: Seq<WriteAction>) -> bool {
    &&& h.len() >= 3
    &&& h[0] == WriteAction::SetHigh
    &&& writes_only(h, 1, h.len() - 2)
    &&& h[h.len() - 2] == WriteAction::Flush
    &&& h[h.len() - 1] == WriteAction::SetLow
}

/// The pin went high first, only writes followed, then one write or flush
/// that was the last step on the bus, then the pin went low as the very last
/// step.
pub open spec fn released(h: Seq<WriteAction>) -> bool {
    &&& h.len() >= 3
    &&& h[0] == WriteAction::SetHigh
    &&& writes_only(h, 1, h.len() - 2)
    &&& (h[h.len() - 2] is Write || h[h.len() - 2] == WriteAction::Flush)
    &&& h[h.len() - 1] == WriteAction::SetLow
}

impl<T> WriteState<T> {
    /// The state in which a session starts: the pin-high step has been requested.
    pub open spec fn initial(len: nat) -> WriteState<T> {
        WriteState {
            len,
            sent: 0,
            phase: WritePhase::AssertingDir,
            pending: None,
            history: seq![WriteAction::SetHigh],
        }
    }

    /// The shape that every reachable state has.
    pub open spec fn wf(self) -> bool {
        &&& self.sent <= self.len
        &&& self.history.len() >= 1
        &&& self.history[0] == WriteAction::SetHigh
        &&& (self.pending is Some <==> self.phase == WritePhase::Aborting)
        &&& match self.phase {
            WritePhase::AssertingDir => self.sent == 0 && self.history.len() == 1,
            WritePhase::Writing => {
                &&& self.sent < self.len
                &&& self.history.len() >= 2
                &&& writes_only(self.history, 1, self.history.len() as int)
                &&& self.history.last() == WriteAction::Write { from: self.sent as usize }
            },
            WritePhase::Flushing => {
                &&& self.sent == self.len
                &&& self.history.len() >= 2
                &&& writes_only(self.history, 1, self.history.len() - 1)
                &&& self.history.last() == WriteAction::Flush
                &&& (self.len > 0 ==> self.history[1] is Write)
            },
            WritePhase::ReleasingDir | WritePhase::Done => {
                &&& self.sent == self.len
                &&& bracketed(self.history)
                &&& (self.len > 0 ==> self.history[1] is Write)
            },
            WritePhase::Aborting => released(self.history),
            WritePhase::Failed => self.history.len() == 1 || released(self.history),
        }
    }

    /// Whether `ev` is an outcome of the step that this state is waiting for.
    /// A write that reports zero bytes, or more bytes than remain, breaks the
    /// write primitive's own contract and is never accepted.
    pub open spec fn accepts(self, ev: WriteEvent<T>) -> bool {
        match self.phase {
            WritePhase::AssertingDir | WritePhase::ReleasingDir | WritePhase::Aborting => ev is DirSet,
            WritePhase::Writing => match ev {
                WriteEvent::Wrote(Ok(n)) => 0 < n && n + self.sent <= self.len,
                WriteEvent::Wrote(Err(_)) => true,
                _ => false,
            },
            WritePhase::Flushing => ev is Flushed,
            _ => false,
        }
    }

    pub open spec fn issue<R, C>(self, phase: WritePhase, a: WriteAction) -> (
        WriteState<T>,
        Result<WriteAction, UartError<T, R, C>>,
    ) {
        (WriteState { phase, history: self.history.push(a), ..self }, Ok(a))
    }

    pub open spec fn fail<R, C>(self, e: UartError<T, R, C>) -> (
        WriteState<T>,
        Result<WriteAction, UartError<T, R, C>>,
    ) {
        (WriteState { phase: WritePhase::Failed, pending: None, ..self }, Err(e))
    }

    /// A write or flush failed with `t`: hold it and ask for the pin to go low.
    pub open spec fn abort<R, C>(self, t: T) -> (
        WriteState<T>,
        Result<WriteAction, UartError<T, R, C>>,
    ) {
        (
            WriteState {
                phase: WritePhase::Aborting,
                pending: Some(t),
                history: self.history.push(WriteAction::SetLow),
                ..self
            },
            Ok(WriteAction::SetLow),
        )
    }

    /// After the pin went high, or after a write: the next write, or the flush
    /// once the whole buffer was accepted.
    pub open spec fn continue_from<R, C>(self, sent: nat) -> (
        WriteState<T>,
        Result<WriteAction, UartError<T, R, C>>,
    ) {
        let s = WriteState { sent, ..self };
        if sent < self.len {
            s.issue(WritePhase::Writing, WriteAction::Write { from: sent as usize })
        } else {
            s.issue(WritePhase::Flushing, WriteAction::Flush)
        }
    }

    /// The session's transition: the next state, and either the next step or
    /// the final error. The pin is released on every path once it went high:
    /// after a failed write or flush the pin-low step comes first, and the
    /// transmit error is reported once its outcome is in. Should the pin then
    /// fail to go low as well, the transmit error is still the one reported,
    /// since it is the first failure and the bytes were not all sent. Events
    /// that [`WriteState::accepts`] refuses leave the state as it is.
    pub open spec fn next<R, C>(self, ev: WriteEvent<T>) -> (
        WriteState<T>,
        Result<WriteAction, UartError<T, R, C>>,
    ) {
        match (self.phase, ev) {
            (WritePhase::AssertingDir, WriteEvent::DirSet(ok)) => if ok {
                self.continue_from(0)
            } else {
                self.fail(UartError::DirPinError)
            },
            (WritePhase::Writing, WriteEvent::Wrote(Ok(n))) => self.continue_from((self.sent + n) as nat),
            (WritePhase::Writing, WriteEvent::Wrote(Err(t))) => self.abort(t),
            (WritePhase::Flushing, WriteEvent::Flushed(Ok(()))) => self.issue(
                WritePhase::ReleasingDir,
                WriteAction::SetLow,
            ),
            (WritePhase::Flushing, WriteEvent::Flushed(Err(t))) => self.abort(t),
            (WritePhase::ReleasingDir, WriteEvent::DirSet(ok)) => if ok {
                (WriteState { phase: WritePhase::Done, ..self }, Ok(WriteAction::Done))
            } else {
                self.fail(UartError::DirPinError)
            },
            (WritePhase::Aborting, WriteEvent::DirSet(_)) => match self.pending {
                Some(t) => self.fail(UartError::TxError(t)),
                None => self.fail(UartError::DirPinError),
            },
            _ => (self, Ok(WriteAction::Done)),
        }
    }
}

/// The state after the session took each outcome of `evs` in turn.
pub open spec fn run_state<T, R, C>(s: WriteState<T>, evs: Seq<WriteEvent<T>>) -> WriteState<T>
    decreases evs.len(),
{
    if evs.len() == 0 {
        s
    } else {
        run_state::<T, R, C>(s.next::<R, C>(evs[0]).0, evs.drop_first())
    }
}

/// Each outcome of `evs` answers the step that the session was waiting for.
pub open spec fn run_accepted<T, R, C>(s: WriteState<T>, evs: Seq<WriteEvent<T>>) -> bool
    decreases evs.len(),
{
    evs.len() == 0 || (s.accepts(evs[0]) && run_accepted::<T, R, C>(
        s.next::<R, C>(evs[0]).0,
        evs.drop_first(),
    ))
}

/// An accepted outcome takes a well-formed state to a well-formed state.
pub proof fn lemma_next_keeps_wf<T, R, C>(s: WriteState<T>, ev: WriteEvent<T>)
    requires
        s.wf(),
        s.accepts(ev),
    ensures
        s.next::<R, C>(ev).0.wf(),
        s.next::<R, C>(ev).0.len == s.len,
{
    let h0 = s.history;
    let t = s.next::<R, C>(ev).0;
    let h = t.history;
    if s.phase == WritePhase::Writing && t.phase == WritePhase::Flushing && s.len > 0 {
        assert(h0[1] is Write);
    }
    if s.phase == WritePhase::AssertingDir && t.phase == WritePhase::Writing {
        assert(h[1] == h.last());
    }
    if s.phase == WritePhase::Writing && t.phase == WritePhase::Writing {
        assert(writes_only(h, 1, h.len() as int)) by {
            assert forall|i: int| 1 <= i < h.len() implies (#[trigger] h[i]) is Write by {
                if i < h0.len() {
                    assert(h[i] == h0[i]);
                }
            }
        }
    }
    if s.phase == WritePhase::Writing && t.phase == WritePhase::Flushing {
        assert(writes_only(h, 1, h.len() - 1)) by {
            assert forall|i: int| 1 <= i < h.len() - 1 implies (#[trigger] h[i]) is Write by {
                assert(h[i] == h0[i]);
            }
        }
    }
    if (s.phase == WritePhase::Flushing || s.phase == WritePhase::Writing) && t.phase
        != WritePhase::Writing && t.phase != WritePhase::Flushing {
        assert(h[h.len() - 2] == h0.last());
        assert(writes_only(h, 1, h.len() - 2)) by {
            assert forall|i: int| 1 <= i < h.len() - 2 implies (#[trigger] h[i]) is Write by {
                assert(h[i] == h0[i]);
            }
        }
        if s.len > 0 {
            assert(h[1] == h0[1]);
        }
    }
}

/// Every state that a run of accepted outcomes reaches is well formed.
pub proof fn lemma_run_keeps_wf<T, R, C>(s: WriteState<T>, evs: Seq<WriteEvent<T>>)
    requires
        s.wf(),
        run_accepted::<T, R, C>(s, evs),
    ensures
        run_state::<T, R, C>(s, evs).wf(),
        run_state::<T, R, C>(s, evs).len == s.len,
    decreases evs.len(),
{
    if evs.len() > 0 {
        lemma_next_keeps_wf::<T, R, C>(s, evs[0]);
        lemma_run_keeps_wf::<T, R, C>(s.next::<R, C>(evs[0]).0, evs.drop_first());
    }
}

/// In a history in which the pin went high first and low last with one write
/// or flush before that, the pin went high exactly once and low exactly once.
proof fn lemma_released_once(h: Seq<WriteAction>)
    requires
        released(h),
    ensures
        forall|i: int| 0 <= i < h.len() ==> (h[i] == WriteAction::SetHigh <==> i == 0),
        forall|i: int| 0 <= i < h.len() ==> (h[i] == WriteAction::SetLow <==> i == h.len() - 1),
        forall|i: int| 0 <= i < h.len() && (#[trigger] h[i]) is Write ==> 0 < i < h.len() - 1,
{
    assert forall|i: int| 0 <= i < h.len() implies (h[i] == WriteAction::SetHigh <==> i == 0) by {
        if 0 < i < h.len() - 2 {
            assert(h[i] is Write);
        }
    }
    assert forall|i: int| 0 <= i < h.len() implies (h[i] == WriteAction::SetLow <==> i == h.len()
        - 1) by {
        if 0 < i < h.len() - 2 {
            assert(h[i] is Write);
        }
    }
}

/// Whatever outcomes the hardware reports, a write session for `len` bytes
/// that succeeds drove the direction pin high exactly once, as the very first
/// step, and low exactly once, as the very last step after the flush; every
/// write to the UART came in between, so none while the pin was low. The
/// whole buffer was accepted, and a non-empty buffer saw a write.
pub proof fn lemma_success_is_bracketed<T, R, C>(len: nat, evs: Seq<WriteEvent<T>>)
    requires
        run_accepted::<T, R, C>(WriteState::initial(len), evs),
        run_state::<T, R, C>(WriteState::initial(len), evs).phase == WritePhase::Done,
    ensures
        ({
            let t = run_state::<T, R, C>(WriteState::initial(len), evs);
            let h = t.history;
            &&& bracketed(h)
            &&& t.sent == len
            &&& forall|i: int| 0 <= i < h.len() ==> (h[i] == WriteAction::SetHigh <==> i == 0)
            &&& forall|i: int| 0 <= i < h.len() ==> (h[i] == WriteAction::SetLow <==> i == h.len() - 1)
            &&& forall|i: int| 0 <= i < h.len() && (#[trigger] h[i]) is Write ==> 0 < i < h.len() - 2
            &&& (len > 0 ==> h[1] is Write)
        }),
{
    lemma_run_keeps_wf::<T, R, C>(WriteState::initial(len), evs);
    let h = run_state::<T, R, C>(WriteState::initial(len), evs).history;
    lemma_released_once(h);
}

/// Whatever outcomes the hardware reports, a write session that got past
/// driving the pin high and then ends in an error asked for the pin to go low
/// as its very last step, exactly once, and asked for no write or flush after
/// that.
pub proof fn lemma_failure_releases_pin<T, R, C>(len: nat, evs: Seq<WriteEvent<T>>)
    requires
        run_accepted::<T, R, C>(WriteState::initial(len), evs),
        run_state::<T, R, C>(WriteState::initial(len), evs).phase == WritePhase::Failed,
        run_state::<T, R, C>(WriteState::initial(len), evs).history.len() > 1,
    ensures
        ({
            let h = run_state::<T, R, C>(WriteState::initial(len), evs).history;
            &&& released(h)
            &&& forall|i: int| 0 <= i < h.len() ==> (h[i] == WriteAction::SetHigh <==> i == 0)
            &&& forall|i: int| 0 <= i < h.len() ==> (h[i] == WriteAction::SetLow <==> i == h.len() - 1)
        }),
{
    lemma_run_keeps_wf::<T, R, C>(WriteState::initial(len), evs);
    let h = run_state::<T, R, C>(WriteState::initial(len), evs).history;
    lemma_released_once(h);
}

/// A failed write or flush first asks for the pin to go low, requests nothing
/// else on the bus, and then ends with that transmit error whether or not the
/// pin went low.
pub proof fn lemma_transmit_failure_reported_after_release<T, R, C>(
    s: WriteState<T>,
    t: T,
    pin_ok: bool,
)
    requires
        s.wf(),
        s.phase == WritePhase::Writing || s.phase == WritePhase::Flushing,
    ensures
        ({
            let ev = if s.phase == WritePhase::Writing {
                WriteEvent::Wrote(Err(t))
            } else {
                WriteEvent::Flushed(Err(t))
            };
            let (s1, r1) = s.next::<R, C>(ev);
            let (s2, r2) = s1.next::<R, C>(WriteEvent::DirSet(pin_ok));
            &&& r1 == Ok::<WriteAction, UartError<T, R, C>>(WriteAction::SetLow)
            &&& s1.history == s.history.push(WriteAction::SetLow)
            &&& r2 == Err::<WriteAction, UartError<T, R, C>>(UartError::TxError(t))
            &&& s2.history == s1.history
            &&& s2.phase == WritePhase::Failed
        }),
{
}

/// When driving the direction pin high fails, the write ends at once with
/// `DirPinError`, and the UART's write primitive was never asked for anything.
pub proof fn lemma_dir_failure_writes_nothing<T, R, C>(len: nat)
    ensures
        ({
            let (t, r) = WriteState::<T>::initial(len).next::<R, C>(WriteEvent::DirSet(false));
            &&& r == Err::<WriteAction, UartError<T, R, C>>(UartError::DirPinError)
            &&& t.phase == WritePhase::Failed
            &&& t.sent == 0
            &&& forall|i: int| 0 <= i < t.history.len() ==> !((#[trigger] t.history[i]) is Write)
        }),
{
}

/// A write session for one buffer, holding `T`, the UART's transmit error,
/// while the pin is released after a failure.
pub struct WriteAll<T> {
    len: usize,
    sent: usize,
    phase: WritePhase,
    pending: Option<T>,
    history: Ghost<Seq<WriteAction>>,
}

impl<T> View for WriteAll<T> {
    type V = WriteState<T>;

    closed spec fn view(&self) -> WriteState<T> {
        WriteState {
            len: self.len as nat,
            sent: self.sent as nat,
            phase: self.phase,
            pending: self.pending,
            history: self.history@,
        }
    }
}

impl<T> WriteAll<T> {
    /// The session is in a state that some run of outcomes reaches.
    pub open spec fn wf(&self) -> bool {
        self@.wf()
    }

    /// Starts a session for a buffer of `len` bytes. The first step is always
    /// to drive the direction pin high, before any byte reaches the UART.
    pub fn begin(len: usize) -> (r: (WriteAll<T>, WriteAction))
        ensures
            r.0.wf(),
            r.0@ == WriteState::<T>::initial(len as nat),
            r.1 == WriteAction::SetHigh,
    {
        let ghost h = seq![WriteAction::SetHigh];
        let s = WriteAll {
            len,
            sent: 0,
            phase: WritePhase::AssertingDir,
            pending: None,
            history: Ghost(h),
        };
        (s, WriteAction::SetHigh)
    }

    /// The current phase.
    pub fn phase(&self) -> (r: WritePhase)
        ensures
            r == self@.phase,
    {
        self.phase
    }

    /// How many bytes the UART has accepted so far.
    pub fn sent(&self) -> (r: usize)
        ensures
            r == self@.sent,
    {
        self.sent
    }

    fn advance<R, C>(&mut self, sent: usize) -> (r: Result<WriteAction, UartError<T, R, C>>)
        ensures
            (final(self)@, r) == old(self)@.continue_from::<R, C>(sent as nat),
    {
        let ghost h0 = self.history@;
        self.sent = sent;
        if sent < self.len {
            let a = WriteAction::Write { from: sent };
            self.phase = WritePhase::Writing;
            self.history = Ghost(h0.push(a));
            Ok(a)
        } else {
            self.phase = WritePhase::Flushing;
            self.history = Ghost(h0.push(WriteAction::Flush));
            Ok(WriteAction::Flush)
        }
    }

    fn abort<R, C>(&mut self, t: T) -> (r: Result<WriteAction, UartError<T, R, C>>)
        ensures
            (final(self)@, r) == old(self)@.abort::<R, C>(t),
    {
        let ghost h0 = self.history@;
        self.phase = WritePhase::Aborting;
        self.pending = Some(t);
        self.history = Ghost(h0.push(WriteAction::SetLow));
        Ok(WriteAction::SetLow)
    }

    fn fail<R, C>(&mut self, e: UartError<T, R, C>) -> (r: Result<WriteAction, UartError<T, R, C>>)
        ensures
            (final(self)@, r) == old(self)@.fail::<R, C>(e),
    {
        self.phase = WritePhase::Failed;
        self.pending = None;
        Err(e)
    }

    /// Folds the outcome of the last requested step into the session and says
    /// what to do next: `Ok(Done)` once the pin is low again after a complete
    /// write and flush, `Err` once the session has ended in a failure, with
    /// the pin released first wherever it went high (see [`WriteState::next`]).
    pub fn step<R, C>(&mut self, ev: WriteEvent<T>) -> (r: Result<WriteAction, UartError<T, R, C>>)
        requires
            old(self).wf(),
            old(self)@.accepts(ev),
        ensures
            final(self).wf(),
            (final(self)@, r) == old(self)@.next::<R, C>(ev),
    {
        proof {
            lemma_next_keeps_wf::<T, R, C>(self@, ev);
        }
        let ghost h0 = self.history@;
        match self.phase {
            WritePhase::AssertingDir => {
                match ev {
                    WriteEvent::DirSet(ok) => {
                        if ok {
                            self.advance(0)
                        } else {
                            self.fail(UartError::DirPinError)
                        }
                    },
                    _ => Ok(WriteAction::Done),
                }
            },
            WritePhase::Writing => {
                match ev {
                    WriteEvent::Wrote(Ok(n)) => {
                        let sent = self.sent + n;
                        self.advance(sent)
                    },
                    WriteEvent::Wrote(Err(t)) => self.abort(t),
                    _ => Ok(WriteAction::Done),
                }
            },
            WritePhase::Flushing => {
                match ev {
                    WriteEvent::Flushed(Ok(())) => {
                        self.phase = WritePhase::ReleasingDir;
                        self.history = Ghost(h0.push(WriteAction::SetLow));
                        Ok(WriteAction::SetLow)
                    },
                    WriteEvent::Flushed(Err(t)) => self.abort(t),
                    _ => Ok(WriteAction::Done),
                }
            },
            WritePhase::ReleasingDir => {
                match ev {
                    WriteEvent::DirSet(ok) => {
                        if ok {
                            self.phase = WritePhase::Done;
                            Ok(WriteAction::Done)
                        } else {
                            self.fail(UartError::DirPinError)
                        }
                    },
                    _ => Ok(WriteAction::Done),
                }
            },
            WritePhase::Aborting => {
                match ev {
                    WriteEvent::DirSet(_) => {
                        let mut held: Option<T> = None;
                        core::mem::swap(&mut held, &mut self.pending);
                        match held {
                            Some(t) => self.fail(UartError::TxError(t)),
                            None => self.fail(UartError::DirPinError),
                        }
                    },
                    _ => Ok(WriteAction::Done),
                }
            },
            _ => Ok(WriteAction::Done),
        }
    }
}

} // verus!
