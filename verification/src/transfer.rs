//! The transfer manager: an asynchronous host-to-device upload session over
//! a batch of device buffers obtained together.
//!
//! Each buffer of the batch can be fed in chunks at explicit offsets, with
//! an is-last flag that finalizes its completion, or be marked permanently
//! failed — terminal for that buffer only, its siblings unaffected.

use vstd::prelude::*;

use crate::error::PJRTError;
use crate::error::PJRTErrorKind;
use crate::event::PJRTEvent;
use crate::handle::HandleState;
use crate::handle::OwnedHandle;
use crate::raw::PluginFailure;

verus! {

/// A transfer-manager handle and the per-buffer failure marks of its batch.
#[derive(Debug)]
pub struct PjrtHtoDeviceManager {
    pub handle: OwnedHandle,
    /// One mark per buffer of the batch; true once that buffer was marked
    /// permanently failed.
    pub failed: Vec<bool>,
}

impl PjrtHtoDeviceManager {
    /// Wraps a transfer manager over a batch of `buffer_count` buffers.
    pub fn new(addr: u64, buffer_count: usize) -> (m: PjrtHtoDeviceManager)
        ensures
            m.handle.addr == addr,
            m.handle.state == HandleState::Live,
            m.failed@.len() == buffer_count,
            forall|i: int| 0 <= i < buffer_count ==> !(#[trigger] m.failed@[i]),
    {
        let mut failed: Vec<bool> = Vec::new();
        let mut i: usize = 0;
        while i < buffer_count
            invariant
                failed@.len() == i,
                i <= buffer_count,
                forall|j: int| 0 <= j < i ==> !(#[trigger] failed@[j]),
            decreases buffer_count - i,
        {
            failed.push(false);
            i = i + 1;
        }
        PjrtHtoDeviceManager { handle: OwnedHandle::new(addr), failed }
    }

    /// The raw manager address, or a validation error when it is null.
    pub fn raw_checked(&self) -> (r: Result<u64, PJRTError>)
        ensures
            r is Ok <==> self.handle.addr != 0,
            r is Ok ==> r->Ok_0 == self.handle.addr,
            r is Err ==> r->Err_0.kind == PJRTErrorKind::LocalValidation,
    {
        self.handle.raw_checked("PJRT_AsyncHostToDeviceTransferManager is null")
    }

    /// The number of buffers in the batch.
    pub fn buffer_count(&self) -> (n: usize)
        ensures
            n == self.failed@.len(),
    {
        self.failed.len()
    }

    /// Validates a raw chunk transfer into one buffer: the offset must be
    /// non-negative and the chunk length must fit the ABI's signed transfer
    /// width. The transfer size handed to the plugin is returned.
    pub fn plan_transfer_data(&self, data_len: usize, offset: i64) -> (r: Result<i64, PJRTError>)
        ensures
            r is Ok <==> (self.handle.addr != 0 && offset >= 0 && data_len <= i64::MAX),
            r is Ok ==> r->Ok_0 == data_len,
            r is Err ==> r->Err_0.kind == PJRTErrorKind::LocalValidation,
    {
        let _addr = self.raw_checked()?;
        if offset < 0 {
            return Err(PJRTError::invalid_arg("transfer_data offset must be >= 0"));
        }
        if data_len as u64 > i64::MAX as u64 {
            return Err(PJRTError::invalid_arg("transfer_data size does not fit i64"));
        }
        Ok(data_len as i64)
    }

    /// Validates transferring a full literal into one buffer: the data
    /// pointer must be non-null.
    pub fn plan_transfer_literal(&self, data_present: bool) -> (r: Result<u64, PJRTError>)
        ensures
            r is Ok <==> (self.handle.addr != 0 && data_present),
            r is Ok ==> r->Ok_0 == self.handle.addr,
            r is Err ==> r->Err_0.kind == PJRTErrorKind::LocalValidation,
    {
        let addr = self.raw_checked()?;
        if !data_present {
            return Err(PJRTError::invalid_arg("transfer_literal data is null"));
        }
        Ok(addr)
    }

    /// Reads the optional per-chunk completion event a transfer returned.
    pub fn interpret_transfer_event(status: Option<PluginFailure>, event: u64) -> (r: Result<
        Option<PJRTEvent>,
        PJRTError,
    >)
        ensures
            r is Ok <==> status is None,
            r is Ok ==> (r->Ok_0 is Some <==> event != 0),
            r is Ok && event != 0 ==> (r->Ok_0 matches Some(e) && e.handle.addr == event
                && !e.local && e.observed is None),
            r is Err ==> r->Err_0.kind == PJRTErrorKind::PluginReported,
    {
        if status.is_some() {
            return Err(status.unwrap().into_error());
        }
        if event == 0 {
            Ok(None)
        } else {
            Ok(Some(PJRTEvent::new(event)))
        }
    }

    /// Records marking one buffer of the batch as permanently failed:
    /// terminal for that buffer alone, every sibling untouched.
    pub fn finish_set_buffer_error(&mut self, buffer_index: usize, status: Option<PluginFailure>) -> (r:
        Result<(), PJRTError>)
        ensures
            r is Ok <==> (status is None && buffer_index < old(self).failed@.len()),
            r is Ok ==> final(self).failed@ == old(self).failed@.update(buffer_index as int, true),
            r is Err ==> final(self).failed@ == old(self).failed@,
            status is Some ==> r->Err_0.kind == PJRTErrorKind::PluginReported,
            status is None && r is Err ==> r->Err_0.kind == PJRTErrorKind::LocalValidation,
            final(self).handle == old(self).handle,
    {
        if status.is_some() {
            return Err(status.unwrap().into_error());
        }
        if buffer_index >= self.failed.len() {
            return Err(PJRTError::invalid_arg("buffer_index is out of range"));
        }
        self.failed.set(buffer_index, true);
        Ok(())
    }

    /// Whether one buffer of the batch was marked permanently failed.
    pub fn is_buffer_failed(&self, buffer_index: usize) -> (r: bool)
        requires
            buffer_index < self.failed@.len(),
        ensures
            r == self.failed@[buffer_index as int],
    {
        self.failed[buffer_index]
    }

    /// Decides whether dropping this wrapper must issue the destroy entry
    /// point.
    pub fn begin_destroy(&mut self) -> (do_destroy: bool)
        ensures
            do_destroy == (old(self).handle.state == HandleState::Live && old(self).handle.addr
                != 0),
            final(self).handle.state != HandleState::Live,
    {
        self.handle.begin_destroy()
    }
}

} // verus!
