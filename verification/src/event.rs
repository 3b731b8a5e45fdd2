//! The asynchronous-completion primitive.
//!
//! An event is pending until it becomes ready with success or ready with a
//! failure. It is single-shot: once a terminal status has been observed, the
//! adapter records it and answers every further poll or wait from the record,
//! without re-entering the plugin. Events come in two kinds: completion
//! tokens the plugin hands out, and standalone events the adapter creates for
//! producer/consumer signaling, which alone may be forced terminal with
//! [`PJRTEvent::note_set`].

use vstd::prelude::*;

use crate::error::ERROR_CODE_OK;
use crate::error::PJRTError;
use crate::error::PJRTErrorKind;
use crate::handle::HandleState;
use crate::handle::OwnedHandle;
use crate::raw::PluginFailure;

verus! {

/// A terminal status, as observed once.
#[derive(Debug)]
pub enum EventOutcome {
    Success,
    Failure { code: i32, message: String },
}

/// An event handle and what the adapter knows of its lifecycle.
#[derive(Debug)]
pub struct PJRTEvent {
    pub handle: OwnedHandle,
    /// Created standalone by the adapter (so it may be set), rather than
    /// handed out by the plugin as a completion token.
    pub local: bool,
    /// The terminal status, once one was observed.
    pub observed: Option<EventOutcome>,
}

impl PJRTEvent {
    /// A completion token the plugin handed out.
    pub fn new(addr: u64) -> (e: PJRTEvent)
        ensures
            e.handle.addr == addr,
            e.handle.state == HandleState::Live,
            !e.local,
            e.observed is None,
    {
        PJRTEvent { handle: OwnedHandle::new(addr), local: false, observed: None }
    }

    /// Reads the outcome of the standalone-creation call: a success must
    /// carry a non-null event.
    pub fn interpret_create(status: Option<PluginFailure>, addr: u64) -> (r: Result<
        PJRTEvent,
        PJRTError,
    >)
        ensures
            r is Ok <==> (status is None && addr != 0),
            r is Ok ==> (r->Ok_0.handle.addr == addr && r->Ok_0.handle.state == HandleState::Live
                && r->Ok_0.local && r->Ok_0.observed is None),
            status is Some ==> r->Err_0.kind == PJRTErrorKind::PluginReported,
            status is None && r is Err ==> r->Err_0.kind == PJRTErrorKind::ProtocolViolation,
    {
        match status {
            Some(failure) => Err(failure.into_error()),
            None => {
                if addr == 0 {
                    Err(PJRTError::protocol("standalone event creation returned a null event"))
                } else {
                    Ok(PJRTEvent { handle: OwnedHandle::new(addr), local: true, observed: None })
                }
            },
        }
    }

    /// Whether a terminal status is already on record.
    pub fn is_ready(&self) -> (b: bool)
        ensures
            b == (self.observed is Some),
    {
        self.observed.is_some()
    }

    /// Decides what a wait must do: answer from the record when the event is
    /// already terminal (never re-entering the plugin), or cross the boundary
    /// through the returned non-null event address.
    pub fn plan_await(&self) -> (r: Result<Option<u64>, PJRTError>)
        ensures
            self.observed is Some ==> r == Ok::<Option<u64>, PJRTError>(None),
            self.observed is None ==> (r is Ok <==> self.handle.addr != 0),
            self.observed is None && self.handle.addr != 0 ==> r == Ok::<Option<u64>, PJRTError>(
                Some(self.handle.addr),
            ),
            r is Err ==> r->Err_0.kind == PJRTErrorKind::LocalValidation,
    {
        if self.observed.is_some() {
            Ok(None)
        } else {
            match self.handle.raw_checked("PJRT_Event is null") {
                Ok(addr) => Ok(Some(addr)),
                Err(e) => Err(e),
            }
        }
    }

    /// Records the terminal status a wait or poll observed. An event is
    /// observed terminal at most once; afterwards the record answers.
    pub fn note_ready(&mut self, outcome: EventOutcome)
        requires
            old(self).observed is None,
        ensures
            final(self).observed == Some(outcome),
            final(self).handle == old(self).handle,
            final(self).local == old(self).local,
    {
        self.observed = Some(outcome);
    }

    /// Validates a callback registration: the callback pointer must be
    /// non-null and the event live. Nothing reaches the plugin on failure.
    pub fn on_ready(&self, callback_present: bool) -> (r: Result<u64, PJRTError>)
        ensures
            r is Ok <==> (self.handle.addr != 0 && callback_present),
            r is Ok ==> r->Ok_0 == self.handle.addr,
            r is Err ==> r->Err_0.kind == PJRTErrorKind::LocalValidation,
    {
        let addr = self.handle.raw_checked("PJRT_Event is null")?;
        if !callback_present {
            return Err(PJRTError::invalid_arg("event-ready callback is null"));
        }
        Ok(addr)
    }

    /// Validates a forced completion: only a live, still-pending, standalone
    /// event may be set.
    pub fn plan_set(&self) -> (r: Result<u64, PJRTError>)
        ensures
            r is Ok <==> (self.handle.addr != 0 && self.local && self.observed is None),
            r is Ok ==> r->Ok_0 == self.handle.addr,
            r is Err ==> r->Err_0.kind == PJRTErrorKind::LocalValidation,
    {
        let addr = self.handle.raw_checked("PJRT_Event is null")?;
        if !self.local {
            return Err(PJRTError::invalid_arg("only a standalone event can be set"));
        }
        if self.observed.is_some() {
            return Err(PJRTError::invalid_arg("event is already terminal"));
        }
        Ok(addr)
    }

    /// Records the status a successful forced completion established: the
    /// reserved success code makes the event succeed, any other code makes it
    /// fail with that code and message.
    pub fn note_set(&mut self, code: i32, message: &str)
        requires
            old(self).observed is None,
        ensures
            code == ERROR_CODE_OK ==> final(self).observed == Some(EventOutcome::Success),
            code != ERROR_CODE_OK ==> (final(self).observed matches Some(
                EventOutcome::Failure { code: c, message: m },
            ) && c == code && m@ == message@),
            final(self).handle == old(self).handle,
            final(self).local == old(self).local,
    {
        if code == ERROR_CODE_OK {
            self.observed = Some(EventOutcome::Success);
        } else {
            self.observed = Some(EventOutcome::Failure { code, message: message.to_owned() });
        }
    }

    /// Translates the recorded terminal status into a plain result, as a
    /// wait-then-check does.
    pub fn ok(&self) -> (r: Result<(), PJRTError>)
        requires
            self.observed is Some,
        ensures
            r is Ok <==> self.observed == Some(EventOutcome::Success),
            r is Err ==> (self.observed matches Some(EventOutcome::Failure { code: c, message: m })
                && r->Err_0.kind == PJRTErrorKind::PluginReported && r->Err_0.code == c
                && r->Err_0.message@ == m@),
    {
        match &self.observed {
            Some(EventOutcome::Success) => Ok(()),
            Some(EventOutcome::Failure { code, message }) => Err(
                PJRTError::plugin(*code, message.clone()),
            ),
            None => Err(PJRTError::invalid_arg("event has no recorded status")),
        }
    }

    /// Hands the raw event to the caller; this wrapper will not destroy it.
    pub fn into_raw(&mut self) -> (a: u64)
        ensures
            a == old(self).handle.addr,
            final(self).handle.state == HandleState::Released,
            final(self).handle.addr == old(self).handle.addr,
            final(self).local == old(self).local,
            final(self).observed == old(self).observed,
    {
        self.handle.release()
    }

    /// Decides whether dropping this wrapper must issue the destroy entry
    /// point.
    pub fn begin_destroy(&mut self) -> (do_destroy: bool)
        ensures
            do_destroy == (old(self).handle.state == HandleState::Live && old(self).handle.addr
                != 0),
            final(self).handle.state != HandleState::Live,
    {
        self.handle.begin_destroy()
    }
}

} // verus!
