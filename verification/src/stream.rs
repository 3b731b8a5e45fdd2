//! The copy-to-device stream fed from inside a receive callback.

use vstd::prelude::*;

use crate::error::PJRTError;
use crate::error::PJRTErrorKind;
use crate::handle::HandleState;
use crate::handle::OwnedHandle;

verus! {

/// A stream handle.
#[derive(Debug)]
pub struct PJRTCopyToDeviceStreamRef {
    pub handle: OwnedHandle,
}

impl PJRTCopyToDeviceStreamRef {
    pub fn new(addr: u64) -> (s: PJRTCopyToDeviceStreamRef)
        ensures
            s.handle.addr == addr,
            s.handle.state == HandleState::Live,
    {
        PJRTCopyToDeviceStreamRef { handle: OwnedHandle::new(addr) }
    }

    /// The raw stream address, or a validation error when it is null.
    pub fn raw_checked(&self) -> (r: Result<u64, PJRTError>)
        ensures
            r is Ok <==> self.handle.addr != 0,
            r is Ok ==> r->Ok_0 == self.handle.addr,
            r is Err ==> r->Err_0.kind == PJRTErrorKind::LocalValidation,
    {
        self.handle.raw_checked("PJRT_CopyToDeviceStream is null")
    }

    /// Validates adding a chunk to the stream: the chunk must be non-null.
    pub fn plan_add_chunk(&self, chunk_present: bool) -> (r: Result<u64, PJRTError>)
        ensures
            r is Ok <==> (self.handle.addr != 0 && chunk_present),
            r is Ok ==> r->Ok_0 == self.handle.addr,
            r is Err ==> r->Err_0.kind == PJRTErrorKind::LocalValidation,
    {
        let addr = self.raw_checked()?;
        if !chunk_present {
            return Err(PJRTError::invalid_arg("add_chunk chunk is null"));
        }
        Ok(addr)
    }

    /// Decides whether dropping this wrapper must issue the destroy entry
    /// point.
    pub fn begin_destroy(&mut self) -> (do_destroy: bool)
        ensures
            do_destroy == (old(self).handle.state == HandleState::Live && old(self).handle.addr
                != 0),
            final(self).handle.state != HandleState::Live,
    {
        self.handle.begin_destroy()
    }
}

} // verus!
