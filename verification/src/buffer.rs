//! On-device buffers.
//!
//! A buffer is live until it is deleted (its data released, the handle still
//! answering metadata queries) or destroyed (the wrapper dropped). The
//! adapter fixes a buffer's element type and dimensions when it creates one
//! from host data, tracks the uploaded payload size, and holds every
//! plugin-reported on-device size to being at least that payload.

use vstd::prelude::*;

use crate::error::ERROR_CODE_OK;
use crate::error::ERROR_CODE_UNKNOWN;
use crate::error::PJRTError;
use crate::error::PJRTErrorKind;
use crate::event::EventOutcome;
use crate::handle::HandleState;
use crate::handle::OwnedHandle;
use crate::raw::clone_i64s;
use crate::raw::PluginFailure;

verus! {

/// Element-type codes of the plugin ABI.
pub const BUFFER_TYPE_INVALID: i32 = 0;

pub const BUFFER_TYPE_PRED: i32 = 1;

pub const BUFFER_TYPE_S8: i32 = 2;

pub const BUFFER_TYPE_S16: i32 = 3;

pub const BUFFER_TYPE_S32: i32 = 4;

pub const BUFFER_TYPE_S64: i32 = 5;

pub const BUFFER_TYPE_U8: i32 = 6;

pub const BUFFER_TYPE_U16: i32 = 7;

pub const BUFFER_TYPE_U32: i32 = 8;

pub const BUFFER_TYPE_U64: i32 = 9;

pub const BUFFER_TYPE_F16: i32 = 10;

pub const BUFFER_TYPE_F32: i32 = 11;

pub const BUFFER_TYPE_F64: i32 = 12;

pub const BUFFER_TYPE_BF16: i32 = 13;

pub const BUFFER_TYPE_C64: i32 = 14;

pub const BUFFER_TYPE_C128: i32 = 15;

/// Bytes per element of a type code, where the ABI fixes one.
pub open spec fn spec_element_size(t: i32) -> Option<u64> {
    if t == BUFFER_TYPE_PRED || t == BUFFER_TYPE_S8 || t == BUFFER_TYPE_U8 {
        Some(1u64)
    } else if t == BUFFER_TYPE_S16 || t == BUFFER_TYPE_U16 || t == BUFFER_TYPE_F16 || t
        == BUFFER_TYPE_BF16 {
        Some(2u64)
    } else if t == BUFFER_TYPE_S32 || t == BUFFER_TYPE_U32 || t == BUFFER_TYPE_F32 {
        Some(4u64)
    } else if t == BUFFER_TYPE_S64 || t == BUFFER_TYPE_U64 || t == BUFFER_TYPE_F64 || t
        == BUFFER_TYPE_C64 {
        Some(8u64)
    } else if t == BUFFER_TYPE_C128 {
        Some(16u64)
    } else {
        None
    }
}

/// Bytes per element of a type code.
pub fn element_size_in_bytes(t: i32) -> (r: Option<u64>)
    ensures
        r == spec_element_size(t),
{
    if t == BUFFER_TYPE_PRED || t == BUFFER_TYPE_S8 || t == BUFFER_TYPE_U8 {
        Some(1u64)
    } else if t == BUFFER_TYPE_S16 || t == BUFFER_TYPE_U16 || t == BUFFER_TYPE_F16 || t
        == BUFFER_TYPE_BF16 {
        Some(2u64)
    } else if t == BUFFER_TYPE_S32 || t == BUFFER_TYPE_U32 || t == BUFFER_TYPE_F32 {
        Some(4u64)
    } else if t == BUFFER_TYPE_S64 || t == BUFFER_TYPE_U64 || t == BUFFER_TYPE_F64 || t
        == BUFFER_TYPE_C64 {
        Some(8u64)
    } else if t == BUFFER_TYPE_C128 {
        Some(16u64)
    } else {
        None
    }
}

/// The byte size of a host payload of `count` elements of type `t`: the
/// element size times the count, `None` when the ABI fixes no size for the
/// type or the product does not fit the machine. A payload whose size the
/// adapter cannot pin down contributes no size claim.
pub open spec fn spec_payload_bytes(t: i32, count: usize) -> Option<usize> {
    match spec_element_size(t) {
        Some(s) => {
            if s * count <= usize::MAX {
                Some((s * count) as usize)
            } else {
                None
            }
        },
        None => None,
    }
}

/// Computes the byte size of a host payload.
pub fn payload_bytes_of(t: i32, count: usize) -> (r: Option<usize>)
    ensures
        r == spec_payload_bytes(t, count),
{
    match element_size_in_bytes(t) {
        Some(s) => {
            if count as u64 <= u64::MAX / s {
                let total: u64 = s * (count as u64);
                if total <= usize::MAX as u64 {
                    proof {
                        assert(s * count <= usize::MAX) by (nonlinear_arith)
                            requires
                                s * (count as u64) == total,
                                total <= usize::MAX as u64,
                        ;
                    }
                    Some(total as usize)
                } else {
                    proof {
                        assert(s * count > usize::MAX) by (nonlinear_arith)
                            requires
                                s * (count as u64) == total,
                                total > usize::MAX as u64,
                        ;
                    }
                    None
                }
            } else {
                proof {
                    assert(s * count > u64::MAX >= usize::MAX) by (nonlinear_arith)
                        requires
                            1 <= s <= 16,
                            count as u64 > u64::MAX / s,
                            s * (u64::MAX / s) + s > u64::MAX,
                    ;
                }
                None
            }
        },
        None => None,
    }
}

/// A buffer handle, the metadata the adapter fixed when it created it, and
/// its deletion state.
#[derive(Debug)]
pub struct PJRTBuffer {
    pub handle: OwnedHandle,
    pub element_type: i32,
    pub dims: Vec<i64>,
    /// Bytes of host data uploaded into this buffer; zero when the buffer was
    /// not created from host data.
    pub payload_bytes: usize,
    pub deleted: bool,
    pub external_refs: u64,
}

impl PJRTBuffer {
    /// Wraps a buffer the plugin handed out, with the metadata fixed for it.
    pub fn new(addr: u64, element_type: i32, dims: Vec<i64>, payload_bytes: usize) -> (b:
        PJRTBuffer)
        ensures
            b.handle.addr == addr,
            b.handle.state == HandleState::Live,
            b.element_type == element_type,
            b.dims@ == dims@,
            b.payload_bytes == payload_bytes,
            !b.deleted,
            b.external_refs == 0,
    {
        PJRTBuffer {
            handle: OwnedHandle::new(addr),
            element_type,
            dims,
            payload_bytes,
            deleted: false,
            external_refs: 0,
        }
    }

    /// The raw buffer address, or a validation error when it is null.
    pub fn raw_checked(&self) -> (r: Result<u64, PJRTError>)
        ensures
            r is Ok <==> self.handle.addr != 0,
            r is Ok ==> r->Ok_0 == self.handle.addr,
            r is Err ==> r->Err_0.kind == PJRTErrorKind::LocalValidation,
    {
        self.handle.raw_checked("PJRTBuffer is null")
    }

    /// The element type fixed for this buffer.
    pub fn element_type(&self) -> (t: i32)
        ensures
            t == self.element_type,
    {
        self.element_type
    }

    /// The dimensions fixed for this buffer.
    pub fn dimensions(&self) -> (d: Vec<i64>)
        ensures
            d@ == self.dims@,
    {
        clone_i64s(&self.dims)
    }

    /// Whether the buffer's data was released. False until a delete call
    /// succeeds, true from then on.
    pub fn is_deleted(&self) -> (d: bool)
        ensures
            d == self.deleted,
    {
        self.deleted
    }

    /// Records the outcome of the delete call: on success the buffer's data
    /// is released, while the handle stays valid for metadata queries.
    pub fn finish_delete(&mut self, status: Option<PluginFailure>) -> (r: Result<(), PJRTError>)
        ensures
            r is Ok <==> status is None,
            r is Ok ==> final(self).deleted,
            r is Err ==> (final(self).deleted == old(self).deleted && r->Err_0.kind
                == PJRTErrorKind::PluginReported),
            final(self).handle == old(self).handle,
            final(self).element_type == old(self).element_type,
            final(self).dims@ == old(self).dims@,
            final(self).payload_bytes == old(self).payload_bytes,
            final(self).external_refs == old(self).external_refs,
    {
        match status {
            Some(failure) => Err(failure.into_error()),
            None => {
                self.deleted = true;
                Ok(())
            },
        }
    }

    /// Reads a reported on-device size. The plugin stores at least the
    /// uploaded payload, so a smaller report is a protocol violation: every
    /// size this returns is at least the payload's byte size.
    pub fn on_device_size_in_bytes(&self, status: Option<PluginFailure>, reported: usize) -> (r:
        Result<usize, PJRTError>)
        ensures
            r is Ok <==> (status is None && reported >= self.payload_bytes),
            r is Ok ==> r->Ok_0 == reported && r->Ok_0 >= self.payload_bytes,
            status is Some ==> r->Err_0.kind == PJRTErrorKind::PluginReported,
            status is None && r is Err ==> r->Err_0.kind == PJRTErrorKind::ProtocolViolation,
    {
        match status {
            Some(failure) => Err(failure.into_error()),
            None => {
                if reported < self.payload_bytes {
                    Err(
                        PJRTError::protocol(
                            "on-device size is smaller than the uploaded payload",
                        ),
                    )
                } else {
                    Ok(reported)
                }
            },
        }
    }

    /// Validates a raw device-to-host transfer: the byte offset must be
    /// non-negative and the destination length must fit the ABI's signed
    /// transfer width. The transfer size handed to the plugin is returned.
    pub fn plan_copy_raw_to_host(&self, dst_len: usize, offset: i64) -> (r: Result<i64, PJRTError>)
        ensures
            r is Ok <==> (self.handle.addr != 0 && offset >= 0 && dst_len <= i64::MAX),
            r is Ok ==> r->Ok_0 == dst_len,
            r is Err ==> r->Err_0.kind == PJRTErrorKind::LocalValidation,
    {
        let _addr = self.raw_checked()?;
        if offset < 0 {
            return Err(PJRTError::invalid_arg("offset must be >= 0"));
        }
        if dst_len as u64 > i64::MAX as u64 {
            return Err(
                PJRTError::invalid_arg("destination size does not fit the transfer width"),
            );
        }
        Ok(dst_len as i64)
    }

    /// Records a paired external reference taken on the buffer.
    pub fn finish_increase_external_ref(&mut self, status: Option<PluginFailure>) -> (r: Result<
        (),
        PJRTError,
    >)
        requires
            old(self).external_refs < u64::MAX,
        ensures
            r is Ok <==> status is None,
            r is Ok ==> final(self).external_refs == old(self).external_refs + 1,
            r is Err ==> (final(self).external_refs == old(self).external_refs && r->Err_0.kind
                == PJRTErrorKind::PluginReported),
            final(self).handle == old(self).handle,
            final(self).deleted == old(self).deleted,
    {
        match status {
            Some(failure) => Err(failure.into_error()),
            None => {
                self.external_refs = self.external_refs + 1;
                Ok(())
            },
        }
    }

    /// Validates and records the release of an external reference: a release
    /// without a matching earlier take is rejected locally.
    pub fn plan_decrease_external_ref(&self) -> (r: Result<u64, PJRTError>)
        ensures
            r is Ok <==> (self.handle.addr != 0 && self.external_refs > 0),
            r is Ok ==> r->Ok_0 == self.handle.addr,
            r is Err ==> r->Err_0.kind == PJRTErrorKind::LocalValidation,
    {
        let addr = self.raw_checked()?;
        if self.external_refs == 0 {
            return Err(PJRTError::invalid_arg("no external reference is held"));
        }
        Ok(addr)
    }

    /// Records the outcome of the release call.
    pub fn finish_decrease_external_ref(&mut self, status: Option<PluginFailure>) -> (r: Result<
        (),
        PJRTError,
    >)
        requires
            old(self).external_refs > 0,
        ensures
            r is Ok <==> status is None,
            r is Ok ==> final(self).external_refs == old(self).external_refs - 1,
            r is Err ==> (final(self).external_refs == old(self).external_refs && r->Err_0.kind
                == PJRTErrorKind::PluginReported),
            final(self).handle == old(self).handle,
            final(self).deleted == old(self).deleted,
    {
        match status {
            Some(failure) => Err(failure.into_error()),
            None => {
                self.external_refs = self.external_refs - 1;
                Ok(())
            },
        }
    }

    /// Reads the result of a device-to-device or device-to-memory copy: a
    /// success must carry a non-null new buffer, which inherits this buffer's
    /// metadata while the original stays untouched.
    pub fn interpret_copy(&self, status: Option<PluginFailure>, dst_buffer: u64) -> (r: Result<
        PJRTBuffer,
        PJRTError,
    >)
        ensures
            r is Ok <==> (status is None && dst_buffer != 0),
            r is Ok ==> (r->Ok_0.handle.addr == dst_buffer && r->Ok_0.handle.state
                == HandleState::Live && r->Ok_0.element_type == self.element_type
                && r->Ok_0.dims@ == self.dims@ && r->Ok_0.payload_bytes == self.payload_bytes
                && !r->Ok_0.deleted),
            status is Some ==> r->Err_0.kind == PJRTErrorKind::PluginReported,
            status is None && r is Err ==> r->Err_0.kind == PJRTErrorKind::ProtocolViolation,
    {
        match status {
            Some(failure) => Err(failure.into_error()),
            None => {
                if dst_buffer == 0 {
                    Err(PJRTError::protocol("copy returned a null destination buffer"))
                } else {
                    Ok(
                        PJRTBuffer::new(
                            dst_buffer,
                            self.element_type,
                            clone_i64s(&self.dims),
                            self.payload_bytes,
                        ),
                    )
                }
            },
        }
    }

    /// Reads the result of a donation with a control dependency and decides
    /// the mandatory fulfillment. The plugin must hand back both the new
    /// buffer and the dependency-ready callback; when it does, the caller
    /// owes the callback exactly one report of the awaited dependency's
    /// terminal status, and the donated buffer is usable only when that
    /// status was success.
    pub fn finish_donation(
        &self,
        status: Option<PluginFailure>,
        callback_present: bool,
        out_buffer: u64,
        dep: &EventOutcome,
    ) -> (r: (Result<PJRTBuffer, PJRTError>, Option<DonationFulfillment>))
        ensures
            r.1 is Some <==> (status is None && callback_present && out_buffer != 0),
            r.1 matches Some(f) ==> (match dep {
                EventOutcome::Success => f.error_code == ERROR_CODE_OK && f.message@.len() == 0,
                EventOutcome::Failure { code: _, message: m } => f.error_code
                    == ERROR_CODE_UNKNOWN && f.message@ == m@,
            }),
            r.0 is Ok <==> (status is None && callback_present && out_buffer != 0 && dep
                is Success),
            r.0 is Ok ==> {
                let b = r.0->Ok_0;
                &&& b.handle.addr == out_buffer
                &&& b.handle.state == HandleState::Live
                &&& b.element_type == self.element_type
                &&& b.dims@ == self.dims@
                &&& !b.deleted
            },
            status is Some ==> r.0->Err_0.kind == PJRTErrorKind::PluginReported,
            status is None && !(callback_present && out_buffer != 0) && r.0 is Err
                ==> r.0->Err_0.kind == PJRTErrorKind::ProtocolViolation,
            status is None && callback_present && out_buffer != 0 && r.0 is Err ==> (dep matches
                EventOutcome::Failure { code: c, message: m } && r.0->Err_0.kind
                == PJRTErrorKind::PluginReported && r.0->Err_0.code == c
                && r.0->Err_0.message@ == m@),
    {
        if status.is_some() {
            return (Err(status.unwrap().into_error()), None);
        }
        if !callback_present {
            return (
                (Err(PJRTError::protocol("donation returned a null dependency-ready callback"))),
                None,
            );
        }
        if out_buffer == 0 {
            return ((Err(PJRTError::protocol("donation returned a null buffer"))), None);
        }
        match dep {
            EventOutcome::Success => {
                let fulfillment = DonationFulfillment {
                    error_code: ERROR_CODE_OK,
                    message: String::new(),
                };
                let buffer = PJRTBuffer::new(
                    out_buffer,
                    self.element_type,
                    clone_i64s(&self.dims),
                    self.payload_bytes,
                );
                (Ok(buffer), Some(fulfillment))
            },
            EventOutcome::Failure { code, message } => {
                let fulfillment = DonationFulfillment {
                    error_code: ERROR_CODE_UNKNOWN,
                    message: message.clone(),
                };
                (Err(PJRTError::plugin(*code, message.clone())), Some(fulfillment))
            },
        }
    }

    /// Decides whether dropping this wrapper must issue the destroy entry
    /// point.
    pub fn begin_destroy(&mut self) -> (do_destroy: bool)
        ensures
            do_destroy == (old(self).handle.state == HandleState::Live && old(self).handle.addr
                != 0),
            final(self).handle.state != HandleState::Live,
    {
        self.handle.begin_destroy()
    }
}

/// What the mandatory dependency-ready callback reports back to the plugin:
/// the reserved success code with no message when the dependency succeeded,
/// else the unknown code with the dependency's failure text.
#[derive(Debug)]
pub struct DonationFulfillment {
    pub error_code: i32,
    pub message: String,
}

} // verus!
