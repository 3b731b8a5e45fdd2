//! The execute context: an opaque side-channel handle threaded into
//! execution calls.

use vstd::prelude::*;

use crate::error::PJRTError;
use crate::error::PJRTErrorKind;
use crate::handle::HandleState;
use crate::handle::OwnedHandle;
use crate::raw::PluginFailure;

verus! {

/// An execute-context handle.
#[derive(Debug)]
pub struct PJRTExecuteContext {
    pub handle: OwnedHandle,
}

impl PJRTExecuteContext {
    /// Reads the outcome of the creation call: a success must carry a
    /// non-null context.
    pub fn interpret_create(status: Option<PluginFailure>, addr: u64) -> (r: Result<
        PJRTExecuteContext,
        PJRTError,
    >)
        ensures
            r is Ok <==> (status is None && addr != 0),
            r is Ok ==> (r->Ok_0.handle.addr == addr && r->Ok_0.handle.state == HandleState::Live),
            status is Some ==> r->Err_0.kind == PJRTErrorKind::PluginReported,
            status is None && r is Err ==> r->Err_0.kind == PJRTErrorKind::ProtocolViolation,
    {
        if status.is_some() {
            return Err(status.unwrap().into_error());
        }
        if addr == 0 {
            return Err(PJRTError::protocol("execute context creation returned a null context"));
        }
        Ok(PJRTExecuteContext { handle: OwnedHandle::new(addr) })
    }

    /// The raw context address.
    pub fn raw(&self) -> (a: u64)
        ensures
            a == self.handle.addr,
    {
        self.handle.raw()
    }

    /// Hands the raw context to the caller; this wrapper will not destroy
    /// it.
    pub fn into_raw(&mut self) -> (a: u64)
        ensures
            a == old(self).handle.addr,
            final(self).handle.state == HandleState::Released,
            final(self).handle.addr == old(self).handle.addr,
    {
        self.handle.release()
    }

    /// Decides whether dropping this wrapper must issue the destroy entry
    /// point.
    pub fn begin_destroy(&mut self) -> (do_destroy: bool)
        ensures
            do_destroy == (old(self).handle.state == HandleState::Live && old(self).handle.addr
                != 0),
            final(self).handle.state != HandleState::Live,
    {
        self.handle.begin_destroy()
    }
}

} // verus!
