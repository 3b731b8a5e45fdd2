//! Memories: the read-only memory spaces reached from a client or a device.
//!
//! A memory is plugin-owned and never destroyed by the adapter; all its
//! metadata flows through the generic output decisions.

use vstd::prelude::*;

use crate::error::PJRTError;
use crate::error::PJRTErrorKind;

verus! {

/// A memory handle.
#[derive(Debug)]
pub struct PJRTMemory {
    pub addr: u64,
}

impl PJRTMemory {
    pub fn new(addr: u64) -> (m: PJRTMemory)
        ensures
            m.addr == addr,
    {
        PJRTMemory { addr }
    }

    /// The raw memory address.
    pub fn raw(&self) -> (a: u64)
        ensures
            a == self.addr,
    {
        self.addr
    }

    /// The raw memory address, or a validation error when it is null.
    pub fn raw_checked(&self) -> (r: Result<u64, PJRTError>)
        ensures
            r is Ok <==> self.addr != 0,
            r is Ok ==> r->Ok_0 == self.addr,
            r is Err ==> r->Err_0.kind == PJRTErrorKind::LocalValidation,
    {
        if self.addr == 0 {
            Err(PJRTError::invalid_arg("PJRT_Memory is null"))
        } else {
            Ok(self.addr)
        }
    }
}

} // verus!
