//! The session's bind state machine.
//!
//! A session is bound while a duplication channel is open for the selected
//! output, and unbound otherwise. The platform work (binding an output,
//! acquiring a frame) is done by the caller; the session decides, from the
//! outcome of each step, what the binding and the selected output become and
//! which error a capture reports.
use crate::error::{capture_error_from_code, capture_error_of_code, CaptureError};
use vstd::prelude::*;

verus! {

/// What a session holds: the selected output, the frame wait and whether a
/// duplication channel is bound.
#[derive(Copy, Clone, Debug, PartialEq, Eq, Structural)]
pub struct SessionModel {
    /// Zero-based index among the desktop-attached outputs; 0 is the primary.
    pub capture_source_index: usize,
    /// How long a capture waits for a new frame, in milliseconds.
    pub timeout_ms: u32,
    /// Whether a duplication channel is open for the selected output.
    pub bound: bool,
}

impl SessionModel {
    /// A capture on this session must first bind the selected output.
    pub open spec fn needs_bind(self) -> bool {
        !self.bound
    }

    /// The session once a bind attempt of its selected output has ended.
    pub open spec fn with_bind_result(self, ok: bool) -> SessionModel {
        SessionModel { bound: ok, ..self }
    }

    /// The session once a capture has failed with `e`: only a timeout keeps the binding.
    pub open spec fn after_error(self, e: CaptureError) -> SessionModel {
        SessionModel { bound: self.bound && e.spec_keeps_binding(), ..self }
    }

    /// The session once output `index` has been selected and its binding begun.
    pub open spec fn after_source_request(self, index: usize) -> SessionModel {
        SessionModel { capture_source_index: index, bound: false, ..self }
    }

    /// Whether a failed bind of a newly selected output goes back to the
    /// previous one: only a failed switch to the primary output does.
    pub open spec fn falls_back(self, previous: usize, ok: bool) -> bool {
        !ok && self.capture_source_index == 0 && previous != 0
    }

    /// The session once the bind of a newly selected output has ended; when it
    /// falls back, the previous output is selected again, still to be bound.
    pub open spec fn after_source_bind(self, previous: usize, ok: bool) -> SessionModel {
        if self.falls_back(previous, ok) {
            SessionModel { capture_source_index: previous, bound: false, ..self }
        } else {
            SessionModel { bound: ok, ..self }
        }
    }

    /// The session with a new frame wait.
    pub open spec fn with_timeout(self, timeout_ms: u32) -> SessionModel {
        SessionModel { timeout_ms, ..self }
    }
}

/// The state of a capture session, apart from the platform handles.
pub struct SessionState {
    capture_source_index: usize,
    timeout_ms: u32,
    bound: bool,
}

impl View for SessionState {
    type V = SessionModel;

    closed spec fn view(&self) -> SessionModel {
        SessionModel {
            capture_source_index: self.capture_source_index,
            timeout_ms: self.timeout_ms,
            bound: self.bound,
        }
    }
}

impl SessionState {
    /// A session on the primary output, not yet bound.
    pub fn new(timeout_ms: u32) -> (s: SessionState)
        ensures
            s@ == (SessionModel { capture_source_index: 0, timeout_ms, bound: false }),
    {
        SessionState { capture_source_index: 0, timeout_ms, bound: false }
    }

    /// The selected output's index.
    pub fn get_capture_source_index(&self) -> (r: usize)
        ensures
            r == self@.capture_source_index,
    {
        self.capture_source_index
    }

    /// The frame wait, in milliseconds.
    pub fn get_timeout_ms(&self) -> (r: u32)
        ensures
            r == self@.timeout_ms,
    {
        self.timeout_ms
    }

    /// Sets the frame wait; it applies from the next capture on.
    pub fn set_timeout_ms(&mut self, timeout_ms: u32)
        ensures
            final(self)@ == old(self)@.with_timeout(timeout_ms),
    {
        self.timeout_ms = timeout_ms;
    }

    /// Whether a duplication channel is bound.
    pub fn is_bound(&self) -> (r: bool)
        ensures
            r == self@.bound,
    {
        self.bound
    }

    /// Whether a capture must first bind the selected output.
    pub fn needs_bind(&self) -> (r: bool)
        ensures
            r == self@.needs_bind(),
    {
        !self.bound
    }

    /// Records the outcome of a bind of the selected output outside a capture
    /// (at opening, on a manual rebind, or on the return to a previous output).
    pub fn record_bind(&mut self, ok: bool)
        ensures
            final(self)@ == old(self)@.with_bind_result(ok),
    {
        self.bound = ok;
    }

    /// Records the outcome of the bind that a capture on an unbound session
    /// makes first; a failed bind ends the capture with `RefreshFailure`.
    pub fn rebind_for_capture(&mut self, ok: bool) -> (r: Result<(), CaptureError>)
        ensures
            final(self)@ == old(self)@.with_bind_result(ok),
            r == if ok {
                Ok::<(), CaptureError>(())
            } else {
                Err::<(), CaptureError>(CaptureError::RefreshFailure)
            },
    {
        self.bound = ok;
        if ok {
            Ok(())
        } else {
            Err(CaptureError::RefreshFailure)
        }
    }

    /// Records a failed capture step with platform status `code` and returns
    /// the error the capture reports; every error but a timeout drops the binding.
    pub fn capture_failed(&mut self, code: i32) -> (r: CaptureError)
        ensures
            r == capture_error_of_code(code),
            final(self)@ == old(self)@.after_error(r),
    {
        let e = capture_error_from_code(code);
        if !e.keeps_binding() {
            self.bound = false;
        }
        e
    }

    /// Selects output `index` and drops the current binding, before the caller
    /// binds the new output; returns the index selected until now.
    pub fn request_source(&mut self, index: usize) -> (previous: usize)
        ensures
            previous == old(self)@.capture_source_index,
            final(self)@ == old(self)@.after_source_request(index),
    {
        let previous = self.capture_source_index;
        self.capture_source_index = index;
        self.bound = false;
        previous
    }

    /// Records the outcome of the bind of a newly selected output. Returns
    /// whether the session fell back to the `previous` output, which the caller
    /// then binds and records with `record_bind`.
    pub fn source_bind_finished(&mut self, previous: usize, ok: bool) -> (fell_back: bool)
        ensures
            fell_back == old(self)@.falls_back(previous, ok),
            final(self)@ == old(self)@.after_source_bind(previous, ok),
    {
        if !ok && self.capture_source_index == 0 && previous != 0 {
            self.capture_source_index = previous;
            self.bound = false;
            true
        } else {
            self.bound = ok;
            false
        }
    }
}

/// A timeout never changes the session: the binding and the selection stay.
pub proof fn lemma_timeout_keeps_binding(s: SessionModel)
    ensures
        s.after_error(capture_error_of_code(crate::error::DXGI_ERROR_WAIT_TIMEOUT)) == s,
        s.after_error(CaptureError::Timeout) == s,
{
}

/// After any error other than a timeout the next capture binds first; it goes
/// on to acquire a frame exactly when that bind succeeds.
pub proof fn lemma_error_forces_rebind(s: SessionModel, e: CaptureError, ok: bool)
    requires
        e != CaptureError::Timeout,
    ensures
        s.after_error(e).needs_bind(),
        !s.after_error(e).with_bind_result(ok).needs_bind() <==> ok,
        s.after_error(e).capture_source_index == s.capture_source_index,
{
}

/// A session opened with frame wait `t` reports `t` through every step but a
/// change of the wait itself.
pub proof fn lemma_timeout_kept(t: u32, s: SessionModel, e: CaptureError, ok: bool, index: usize, previous: usize)
    requires
        s.timeout_ms == t,
    ensures
        s.with_bind_result(ok).timeout_ms == t,
        s.after_error(e).timeout_ms == t,
        s.after_source_request(index).timeout_ms == t,
        s.after_source_bind(previous, ok).timeout_ms == t,
{
}

/// Selecting output `k` leaves `k` selected, unless the bind of `k` failed,
/// `k` is the primary and another output was selected before: then that
/// previous output is selected again, whatever its own bind gives.
pub proof fn lemma_source_selection(s: SessionModel, k: usize, ok: bool, retry_ok: bool)
    ensures
        ({
            let requested = s.after_source_request(k);
            let fell_back = requested.falls_back(s.capture_source_index, ok);
            let after = requested.after_source_bind(s.capture_source_index, ok);
            let last = if fell_back {
                after.with_bind_result(retry_ok)
            } else {
                after
            };
            &&& fell_back <==> (!ok && k == 0 && s.capture_source_index != 0)
            &&& last.capture_source_index == if fell_back {
                s.capture_source_index
            } else {
                k
            }
            &&& !fell_back ==> last.bound == ok
            &&& fell_back ==> last.bound == retry_ok
        }),
{
}

} // verus!
