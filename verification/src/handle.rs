//! Ownership of opaque plugin objects.
//!
//! Every destroyable plugin object (client, buffer, executable, event,
//! transfer manager, execute context, topology, error) is allocated by the
//! plugin and destroyed by exactly one wrapper, exactly once, and only while
//! the wrapper still owns a non-null pointer. The wrapper may instead release
//! ownership, handing the destroy duty to another call.

use vstd::prelude::*;

use crate::error::ERROR_CODE_INVALID_ARGUMENT;
use crate::error::PJRTError;
use crate::error::PJRTErrorKind;

verus! {

/// Where a wrapper stands in its object's life.
#[derive(Clone, Copy, Debug, PartialEq, Eq, Structural)]
pub enum HandleState {
    /// The wrapper owns the object and will destroy it.
    Live,
    /// Ownership was handed away; this wrapper must never destroy.
    Released,
    /// The destroy entry point was already issued once.
    Destroyed,
}

/// A foreign opaque object: its address (zero standing for a null pointer)
/// paired with the duty to destroy it exactly once.
#[derive(Debug)]
pub struct OwnedHandle {
    pub addr: u64,
    pub state: HandleState,
}

impl OwnedHandle {
    pub open spec fn is_live(&self) -> bool {
        self.state == HandleState::Live
    }

    /// Wraps an address the plugin handed out. A zero address is allowed:
    /// such a wrapper answers metadata queries with a validation error and
    /// never destroys anything.
    pub fn new(addr: u64) -> (h: OwnedHandle)
        ensures
            h.addr == addr,
            h.state == HandleState::Live,
    {
        OwnedHandle { addr, state: HandleState::Live }
    }

    /// The raw address, unchecked.
    pub fn raw(&self) -> (a: u64)
        ensures
            a == self.addr,
    {
        self.addr
    }

    /// The raw address, or a validation error when it is null.
    pub fn raw_checked(&self, what: &str) -> (r: Result<u64, PJRTError>)
        ensures
            r is Ok <==> self.addr != 0,
            r is Ok ==> r->Ok_0 == self.addr,
            r is Err ==> (r->Err_0.kind == PJRTErrorKind::LocalValidation && r->Err_0.code
                == ERROR_CODE_INVALID_ARGUMENT && r->Err_0.message@ == what@),
    {
        if self.addr == 0 {
            Err(PJRTError::invalid_arg(what))
        } else {
            Ok(self.addr)
        }
    }

    /// Hands ownership away: the address is returned and this wrapper will
    /// never destroy the object.
    pub fn release(&mut self) -> (a: u64)
        ensures
            a == old(self).addr,
            final(self).addr == old(self).addr,
            final(self).state == HandleState::Released,
    {
        self.state = HandleState::Released;
        self.addr
    }

    /// Decides whether the destroy entry point must be issued now. True is
    /// returned at most once over the wrapper's whole life, and only while
    /// the wrapper still owns a non-null object; afterwards the wrapper is
    /// never live again, so destruction can never be issued twice.
    pub fn begin_destroy(&mut self) -> (do_destroy: bool)
        ensures
            do_destroy == (old(self).state == HandleState::Live && old(self).addr != 0),
            final(self).addr == old(self).addr,
            final(self).state == (if old(self).state == HandleState::Live {
                HandleState::Destroyed
            } else {
                old(self).state
            }),
            final(self).state != HandleState::Live,
    {
        match self.state {
            HandleState::Live => {
                self.state = HandleState::Destroyed;
                self.addr != 0
            },
            HandleState::Released => false,
            HandleState::Destroyed => false,
        }
    }
}

} // verus!
