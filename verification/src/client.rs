//! The client: a connection to the plugin's runtime instance.
//!
//! The client enumerates devices and memories, uploads host data into
//! buffers, registers DMA regions, and asks for default device assignments.
//! Its decisions stand here: which device an upload resolves to (the first
//! one, when none is given, failing when there is none), which argument
//! shapes are rejected before the boundary, and how the two-phase sized
//! query for device assignments is driven.

use vstd::prelude::*;

use crate::buffer::spec_payload_bytes;
use crate::buffer::payload_bytes_of;
use crate::buffer::PJRTBuffer;
use crate::error::ERROR_CODE_OK;
use crate::error::PJRTError;
use crate::error::PJRTErrorKind;
use crate::event::PJRTEvent;
use crate::handle::HandleState;
use crate::handle::OwnedHandle;
use crate::raw::PluginFailure;

verus! {

/// A client handle and the device list enumerated through it, in the order
/// the plugin defined.
#[derive(Debug)]
pub struct PJRTClient {
    pub handle: OwnedHandle,
    pub devices: Vec<u64>,
}

/// What a validated alias-buffer fulfillment hands to the plugin.
#[derive(Debug)]
pub struct FulfillAliasPlan {
    /// The buffer that fulfills the alias, zero when failing it.
    pub buffer: u64,
    /// Whether the error message is handed over: only on failure, and only
    /// when there is one.
    pub use_error_message: bool,
}

impl PJRTClient {
    /// Wraps a client the plugin handed out; no devices are recorded yet.
    pub fn new(addr: u64) -> (c: PJRTClient)
        ensures
            c.handle.addr == addr,
            c.handle.state == HandleState::Live,
            c.devices@.len() == 0,
    {
        PJRTClient { handle: OwnedHandle::new(addr), devices: Vec::new() }
    }

    /// Records the device list the plugin enumerated, in its order.
    pub fn note_devices(&mut self, devices: Vec<u64>)
        ensures
            final(self).devices@ == devices@,
            final(self).handle == old(self).handle,
    {
        self.devices = devices;
    }

    /// The raw client address, or a validation error when it is null.
    pub fn raw_checked(&self) -> (r: Result<u64, PJRTError>)
        ensures
            r is Ok <==> self.handle.addr != 0,
            r is Ok ==> r->Ok_0 == self.handle.addr,
            r is Err ==> r->Err_0.kind == PJRTErrorKind::LocalValidation,
    {
        self.handle.raw_checked("PJRT_Client is null")
    }

    /// The first enumerated device, or a validation error when the client
    /// has none.
    pub fn first_device(&self) -> (r: Result<u64, PJRTError>)
        ensures
            r is Ok <==> self.devices@.len() != 0,
            r is Ok ==> r->Ok_0 == self.devices@[0],
            r is Err ==> r->Err_0.kind == PJRTErrorKind::LocalValidation,
    {
        if self.devices.len() == 0 {
            Err(PJRTError::invalid_arg("PJRT_Client has no devices"))
        } else {
            Ok(self.devices[0])
        }
    }

    /// Validates a host-to-device upload and resolves its device: the host
    /// pointer must be non-null, explicit byte strides must match the
    /// dimension count, and with no device given the first enumerated one is
    /// taken, failing when the client has none.
    pub fn plan_buffer_from_host(
        &self,
        data_present: bool,
        dims_len: usize,
        byte_strides_len: Option<usize>,
        device: Option<u64>,
    ) -> (r: Result<u64, PJRTError>)
        ensures
            r is Ok <==> (self.handle.addr != 0 && data_present && (match byte_strides_len {
                Some(l) => l == dims_len,
                None => true,
            }) && (device is Some || self.devices@.len() != 0)),
            r is Ok ==> r->Ok_0 == (match device {
                Some(d) => d,
                None => self.devices@[0],
            }),
            r is Err ==> r->Err_0.kind == PJRTErrorKind::LocalValidation,
    {
        let _client = self.raw_checked()?;
        if !data_present {
            return Err(PJRTError::invalid_arg("host data pointer is null"));
        }
        if let Some(l) = byte_strides_len {
            if l != dims_len {
                return Err(
                    PJRTError::invalid_arg("byte_strides length must match dims length"),
                );
            }
        }
        match device {
            Some(d) => Ok(d),
            None => self.first_device(),
        }
    }

    /// Reads the result of a buffer-creating call: a success must carry a
    /// non-null buffer. The new buffer records the element type, dimensions
    /// and payload size the adapter fixed for it; the optional
    /// done-with-host-memory event comes along when the plugin returned one.
    pub fn interpret_buffer_from_host(
        status: Option<PluginFailure>,
        buffer_addr: u64,
        done_event: u64,
        element_type: i32,
        dims: Vec<i64>,
        payload_bytes: usize,
    ) -> (r: Result<(PJRTBuffer, Option<PJRTEvent>), PJRTError>)
        ensures
            r is Ok <==> (status is None && buffer_addr != 0),
            r is Ok ==> {
                let b = r->Ok_0.0;
                &&& b.handle.addr == buffer_addr
                &&& b.handle.state == HandleState::Live
                &&& b.element_type == element_type
                &&& b.dims@ == dims@
                &&& b.payload_bytes == payload_bytes
                &&& !b.deleted
            },
            r is Ok ==> (r->Ok_0.1 is Some <==> done_event != 0),
            r is Ok && done_event != 0 ==> (r->Ok_0.1 matches Some(e) && e.handle.addr
                == done_event && !e.local && e.observed is None),
            status is Some ==> r->Err_0.kind == PJRTErrorKind::PluginReported,
            status is None && r is Err ==> r->Err_0.kind == PJRTErrorKind::ProtocolViolation,
    {
        if status.is_some() {
            return Err(status.unwrap().into_error());
        }
        if buffer_addr == 0 {
            return Err(PJRTError::protocol("upload succeeded but returned a null buffer"));
        }
        let buffer = PJRTBuffer::new(buffer_addr, element_type, dims, payload_bytes);
        let event = if done_event == 0 {
            None
        } else {
            Some(PJRTEvent::new(done_event))
        };
        Ok((buffer, event))
    }

    /// The payload size recorded for an upload of `elem_count` elements of
    /// type `element_type`: the exact byte size where the ABI fixes one, and
    /// zero (no claim) where it does not or the product overflows.
    pub fn upload_payload_bytes(element_type: i32, elem_count: usize) -> (r: usize)
        ensures
            spec_payload_bytes(element_type, elem_count) matches Some(p) ==> r == p,
            spec_payload_bytes(element_type, elem_count) is None ==> r == 0,
    {
        match payload_bytes_of(element_type, elem_count) {
            Some(p) => p,
            None => 0,
        }
    }

    /// Validates registering a host region for direct memory access: a
    /// nonzero region needs a non-null pointer.
    pub fn plan_dma_map(&self, data_present: bool, size: usize) -> (r: Result<(), PJRTError>)
        ensures
            r is Ok <==> (self.handle.addr != 0 && (size == 0 || data_present)),
            r is Err ==> r->Err_0.kind == PJRTErrorKind::LocalValidation,
    {
        let _client = self.raw_checked()?;
        if size > 0 && !data_present {
            return Err(PJRTError::invalid_arg("dma_map data pointer is null with nonzero size"));
        }
        Ok(())
    }

    /// Validates unregistering a host region: the pointer must be non-null.
    pub fn plan_dma_unmap(&self, data_present: bool) -> (r: Result<(), PJRTError>)
        ensures
            r is Ok <==> (self.handle.addr != 0 && data_present),
            r is Err ==> r->Err_0.kind == PJRTErrorKind::LocalValidation,
    {
        let _client = self.raw_checked()?;
        if !data_present {
            return Err(PJRTError::invalid_arg("dma_unmap data pointer is null"));
        }
        Ok(())
    }

    /// Validates wrapping caller-owned device memory as a buffer: the memory
    /// pointer must be non-null, the shape non-empty, and the device
    /// resolves as for an upload but must come out non-null.
    pub fn plan_create_view_of_device_buffer(
        &self,
        device_buffer_present: bool,
        dims_len: usize,
        device: Option<u64>,
    ) -> (r: Result<u64, PJRTError>)
        ensures
            r is Ok <==> (self.handle.addr != 0 && device_buffer_present && dims_len != 0 && (
            match device {
                Some(d) => d != 0,
                None => self.devices@.len() != 0 && self.devices@[0] != 0,
            })),
            r is Ok ==> r->Ok_0 == (match device {
                Some(d) => d,
                None => self.devices@[0],
            }),
            r is Err ==> r->Err_0.kind == PJRTErrorKind::LocalValidation,
    {
        let _client = self.raw_checked()?;
        if !device_buffer_present {
            return Err(PJRTError::invalid_arg("device_buffer_ptr is null"));
        }
        if dims_len == 0 {
            return Err(PJRTError::invalid_arg("dims must not be empty"));
        }
        let chosen: u64 = match device {
            Some(d) => d,
            None => self.first_device()?,
        };
        if chosen == 0 {
            return Err(PJRTError::invalid_arg("resolved device is null"));
        }
        Ok(chosen)
    }

    /// Validates a default device assignment request: both counts must be
    /// non-negative. The expected assignment size is their product.
    pub fn plan_default_device_assignment(&self, num_replicas: i32, num_partitions: i32) -> (r:
        Result<u64, PJRTError>)
        ensures
            r is Ok <==> (num_replicas >= 0 && num_partitions >= 0 && self.handle.addr != 0),
            r is Ok ==> r->Ok_0 == num_replicas * num_partitions,
            r is Err ==> r->Err_0.kind == PJRTErrorKind::LocalValidation,
    {
        if num_replicas < 0 || num_partitions < 0 {
            return Err(PJRTError::invalid_arg("num_replicas and num_partitions must be >= 0"));
        }
        let _client = self.raw_checked()?;
        proof {
            assert((num_replicas as u64) * (num_partitions as u64) < 0x4000_0000_0000_0000)
                by (nonlinear_arith)
                requires
                    0 <= num_replicas < 0x8000_0000,
                    0 <= num_partitions < 0x8000_0000,
            ;
        }
        let expected: u64 = (num_replicas as u64) * (num_partitions as u64);
        Ok(expected)
    }

    /// Reads the zero-capacity probe of the two-phase sized query. A probe
    /// failure is fatal only when the expected size was already known to be
    /// nonzero; otherwise the fill size is the larger of the probe's report
    /// and the expectation.
    pub fn interpret_assignment_probe(
        probe_status: Option<PluginFailure>,
        expected: u64,
        probe_reported: usize,
    ) -> (r: Result<usize, PJRTError>)
        ensures
            r is Ok <==> (!(probe_status is Some && expected != 0) && (if probe_reported as u64
                >= expected {
                probe_reported as u64
            } else {
                expected
            }) <= usize::MAX),
            r is Ok ==> r->Ok_0 == (if probe_reported as u64 >= expected {
                probe_reported as u64
            } else {
                expected
            }),
            probe_status is Some && expected != 0 ==> r->Err_0.kind
                == PJRTErrorKind::PluginReported,
    {
        if probe_status.is_some() {
            if expected != 0 {
                return Err(probe_status.unwrap().into_error());
            }
        }
        let want: u64 = if probe_reported as u64 >= expected {
            probe_reported as u64
        } else {
            expected
        };
        if want > usize::MAX as u64 {
            return Err(PJRTError::invalid_arg("assignment size exceeds the machine limit"));
        }
        Ok(want as usize)
    }

    /// Reads the fill phase: the assignment is the filled buffer cut to the
    /// size the plugin reported, never grown.
    pub fn interpret_assignment_fill(
        status: Option<PluginFailure>,
        reported: usize,
        filled: Vec<i32>,
    ) -> (r: Result<Vec<i32>, PJRTError>)
        ensures
            r is Ok <==> status is None,
            r is Ok ==> r->Ok_0@ == filled@.take(
                if reported <= filled@.len() {
                    reported as int
                } else {
                    filled@.len() as int
                },
            ),
            r is Err ==> r->Err_0.kind == PJRTErrorKind::PluginReported,
    {
        if status.is_some() {
            return Err(status.unwrap().into_error());
        }
        let mut out = filled;
        let n = out.len();
        let keep = if reported <= n {
            reported
        } else {
            n
        };
        out.truncate(keep);
        proof {
            assert(out@ =~= filled@.take(
                if reported <= filled@.len() {
                    reported as int
                } else {
                    filled@.len() as int
                },
            ));
        }
        Ok(out)
    }

    /// Validates fulfilling an alias buffer: the callback must be non-null,
    /// and a success fulfillment must carry a buffer. The error message is
    /// handed over only for a failure that has one.
    pub fn plan_fulfill_alias_buffer(
        &self,
        callback_present: bool,
        buffer: Option<u64>,
        status_code: i32,
        error_message_len: usize,
    ) -> (r: Result<FulfillAliasPlan, PJRTError>)
        ensures
            r is Ok <==> (self.handle.addr != 0 && callback_present && !(status_code
                == ERROR_CODE_OK && (match buffer {
                Some(b) => b == 0,
                None => true,
            }))),
            r is Ok ==> {
                let p = r->Ok_0;
                &&& p.buffer == (match buffer {
                    Some(b) => b,
                    None => 0u64,
                })
                &&& p.use_error_message == (status_code != ERROR_CODE_OK && error_message_len != 0)
            },
            r is Err ==> r->Err_0.kind == PJRTErrorKind::LocalValidation,
    {
        let _client = self.raw_checked()?;
        if !callback_present {
            return Err(PJRTError::invalid_arg("fulfill_alias_buffer_cb is null"));
        }
        let raw_buffer: u64 = match buffer {
            Some(b) => b,
            None => 0,
        };
        if status_code == ERROR_CODE_OK && raw_buffer == 0 {
            return Err(
                PJRTError::invalid_arg("buffer must be non-null when the fulfillment succeeds"),
            );
        }
        Ok(
            FulfillAliasPlan {
                buffer: raw_buffer,
                use_error_message: status_code != ERROR_CODE_OK && error_message_len != 0,
            },
        )
    }

    /// Reads the result of creating an alias buffer: a success must carry
    /// both the buffer and the fulfillment callback.
    pub fn interpret_create_alias_buffer(
        status: Option<PluginFailure>,
        alias_buffer: u64,
        fulfill_cb: u64,
        element_type: i32,
        dims: Vec<i64>,
    ) -> (r: Result<(PJRTBuffer, u64), PJRTError>)
        ensures
            r is Ok <==> (status is None && alias_buffer != 0 && fulfill_cb != 0),
            r is Ok ==> {
                let b = r->Ok_0.0;
                &&& b.handle.addr == alias_buffer
                &&& b.element_type == element_type
                &&& b.dims@ == dims@
                &&& b.payload_bytes == 0
                &&& !b.deleted
                &&& r->Ok_0.1 == fulfill_cb
            },
            status is Some ==> r->Err_0.kind == PJRTErrorKind::PluginReported,
            status is None && r is Err ==> r->Err_0.kind == PJRTErrorKind::ProtocolViolation,
    {
        if status.is_some() {
            return Err(status.unwrap().into_error());
        }
        if alias_buffer == 0 {
            return Err(PJRTError::protocol("alias creation returned a null buffer"));
        }
        if fulfill_cb == 0 {
            return Err(PJRTError::protocol("alias creation returned a null callback"));
        }
        Ok((PJRTBuffer::new(alias_buffer, element_type, dims, 0), fulfill_cb))
    }

    /// Hands the raw client to an explicit close; this wrapper will not
    /// destroy it again when dropped.
    pub fn close(&mut self) -> (a: u64)
        ensures
            a == old(self).handle.addr,
            final(self).handle.state == HandleState::Released,
            final(self).handle.addr == old(self).handle.addr,
    {
        self.handle.release()
    }

    /// Decides whether dropping this wrapper must issue the destroy entry
    /// point.
    pub fn begin_destroy(&mut self) -> (do_destroy: bool)
        ensures
            do_destroy == (old(self).handle.state == HandleState::Live && old(self).handle.addr
                != 0),
            final(self).handle.state != HandleState::Live,
    {
        self.handle.begin_destroy()
    }
}

} // verus!
