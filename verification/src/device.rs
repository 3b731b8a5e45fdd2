//! Devices and their read-only metadata surface.
//!
//! A device is reached from a client and never destroyed by the adapter; its
//! description carries identity metadata. The memory-usage statistics come
//! as a fixed set of counters, each with its own presence flag, and are
//! surfaced as present or absent, never defaulted to zero.

use vstd::prelude::*;

use crate::error::PJRTError;
use crate::error::PJRTErrorKind;
use crate::handle::HandleState;
use crate::handle::OwnedHandle;
use crate::raw::clone_bytes;
use crate::raw::PluginFailure;

verus! {

/// A device handle; devices are plugin-owned and never destroyed by the
/// adapter.
#[derive(Debug)]
pub struct PJRTDevice {
    pub addr: u64,
}

impl PJRTDevice {
    pub fn new(addr: u64) -> (d: PJRTDevice)
        ensures
            d.addr == addr,
    {
        PJRTDevice { addr }
    }

    /// The raw device address.
    pub fn raw(&self) -> (a: u64)
        ensures
            a == self.addr,
    {
        self.addr
    }

    /// The raw device address, or a validation error when it is null.
    pub fn raw_checked(&self) -> (r: Result<u64, PJRTError>)
        ensures
            r is Ok <==> self.addr != 0,
            r is Ok ==> r->Ok_0 == self.addr,
            r is Err ==> r->Err_0.kind == PJRTErrorKind::LocalValidation,
    {
        if self.addr == 0 {
            Err(PJRTError::invalid_arg("PJRT_Device is null"))
        } else {
            Ok(self.addr)
        }
    }
}

/// A device description and the identity metadata read from it: the integer
/// id, the process index, and the human-readable kind.
#[derive(Debug)]
pub struct PJRTDeviceDescriptionRef {
    pub addr: u64,
    pub id: i32,
    pub process_index: i32,
    pub kind: Vec<u8>,
}

impl PJRTDeviceDescriptionRef {
    /// The description's kind string fits the serialized form.
    pub open spec fn wf(&self) -> bool {
        self.kind@.len() <= u32::MAX
    }

    pub fn new(addr: u64, id: i32, process_index: i32, kind: Vec<u8>) -> (d:
        PJRTDeviceDescriptionRef)
        ensures
            d.addr == addr,
            d.id == id,
            d.process_index == process_index,
            d.kind@ == kind@,
    {
        PJRTDeviceDescriptionRef { addr, id, process_index, kind }
    }

    pub fn raw(&self) -> (a: u64)
        ensures
            a == self.addr,
    {
        self.addr
    }

    /// The recorded device id.
    pub fn id(&self) -> (r: i32)
        ensures
            r == self.id,
    {
        self.id
    }

    /// The recorded process index.
    pub fn process_index(&self) -> (r: i32)
        ensures
            r == self.process_index,
    {
        self.process_index
    }

    /// The recorded kind string.
    pub fn kind(&self) -> (r: Vec<u8>)
        ensures
            r@ == self.kind@,
    {
        clone_bytes(&self.kind)
    }
}

/// An async-tracking event created against a device; destroyable.
#[derive(Debug)]
pub struct PJRTAsyncTrackingEvent {
    pub handle: OwnedHandle,
}

impl PJRTAsyncTrackingEvent {
    /// Reads the outcome of the creation call: a success must carry a
    /// non-null event.
    pub fn interpret_create(status: Option<PluginFailure>, addr: u64) -> (r: Result<
        PJRTAsyncTrackingEvent,
        PJRTError,
    >)
        ensures
            r is Ok <==> (status is None && addr != 0),
            r is Ok ==> (r->Ok_0.handle.addr == addr && r->Ok_0.handle.state == HandleState::Live),
            status is Some ==> r->Err_0.kind == PJRTErrorKind::PluginReported,
            status is None && r is Err ==> r->Err_0.kind == PJRTErrorKind::ProtocolViolation,
    {
        if status.is_some() {
            return Err(status.unwrap().into_error());
        }
        if addr == 0 {
            return Err(PJRTError::protocol("async tracking event creation returned null"));
        }
        Ok(PJRTAsyncTrackingEvent { handle: OwnedHandle::new(addr) })
    }

    /// Decides whether dropping this wrapper must issue the destroy entry
    /// point.
    pub fn begin_destroy(&mut self) -> (do_destroy: bool)
        ensures
            do_destroy == (old(self).handle.state == HandleState::Live && old(self).handle.addr
                != 0),
            final(self).handle.state != HandleState::Live,
    {
        self.handle.begin_destroy()
    }
}

/// The memory-statistics record as the call reports it: one value and one
/// presence flag per optional counter.
#[derive(Debug)]
pub struct RawMemoryStats {
    pub bytes_in_use: i64,
    pub peak_bytes_in_use: i64,
    pub peak_bytes_in_use_is_set: bool,
    pub num_allocs: i64,
    pub num_allocs_is_set: bool,
    pub largest_alloc_size: i64,
    pub largest_alloc_size_is_set: bool,
    pub bytes_limit: i64,
    pub bytes_limit_is_set: bool,
    pub bytes_reserved: i64,
    pub bytes_reserved_is_set: bool,
    pub peak_bytes_reserved: i64,
    pub peak_bytes_reserved_is_set: bool,
    pub bytes_reservable_limit: i64,
    pub bytes_reservable_limit_is_set: bool,
    pub largest_free_block_bytes: i64,
    pub largest_free_block_bytes_is_set: bool,
    pub pool_bytes: i64,
    pub pool_bytes_is_set: bool,
    pub peak_pool_bytes: i64,
    pub peak_pool_bytes_is_set: bool,
}

/// A device's memory-usage statistics: the one mandatory counter, and each
/// optional counter present exactly when the plugin set its flag.
#[derive(Debug, Clone)]
pub struct PJRTDeviceMemoryStats {
    pub bytes_in_use: i64,
    pub peak_bytes_in_use: Option<i64>,
    pub num_allocs: Option<i64>,
    pub largest_alloc_size: Option<i64>,
    pub bytes_limit: Option<i64>,
    pub bytes_reserved: Option<i64>,
    pub peak_bytes_reserved: Option<i64>,
    pub bytes_reservable_limit: Option<i64>,
    pub largest_free_block_bytes: Option<i64>,
    pub pool_bytes: Option<i64>,
    pub peak_pool_bytes: Option<i64>,
}

/// One optional counter: its value exactly when its presence flag was set.
pub open spec fn spec_counter(value: i64, is_set: bool) -> Option<i64> {
    if is_set {
        Some(value)
    } else {
        None
    }
}

fn counter(value: i64, is_set: bool) -> (r: Option<i64>)
    ensures
        r == spec_counter(value, is_set),
{
    if is_set {
        Some(value)
    } else {
        None
    }
}

/// Decodes the memory-statistics record: every optional counter is surfaced
/// as present or absent by its own flag, never defaulted.
pub fn decode_memory_stats(status: Option<PluginFailure>, raw: RawMemoryStats) -> (r: Result<
    PJRTDeviceMemoryStats,
    PJRTError,
>)
    ensures
        r is Ok <==> status is None,
        r is Ok ==> {
            let s = r->Ok_0;
            &&& s.bytes_in_use == raw.bytes_in_use
            &&& s.peak_bytes_in_use == spec_counter(raw.peak_bytes_in_use, raw.peak_bytes_in_use_is_set)
            &&& s.num_allocs == spec_counter(raw.num_allocs, raw.num_allocs_is_set)
            &&& s.largest_alloc_size == spec_counter(
                raw.largest_alloc_size,
                raw.largest_alloc_size_is_set,
            )
            &&& s.bytes_limit == spec_counter(raw.bytes_limit, raw.bytes_limit_is_set)
            &&& s.bytes_reserved == spec_counter(raw.bytes_reserved, raw.bytes_reserved_is_set)
            &&& s.peak_bytes_reserved == spec_counter(
                raw.peak_bytes_reserved,
                raw.peak_bytes_reserved_is_set,
            )
            &&& s.bytes_reservable_limit == spec_counter(
                raw.bytes_reservable_limit,
                raw.bytes_reservable_limit_is_set,
            )
            &&& s.largest_free_block_bytes == spec_counter(
                raw.largest_free_block_bytes,
                raw.largest_free_block_bytes_is_set,
            )
            &&& s.pool_bytes == spec_counter(raw.pool_bytes, raw.pool_bytes_is_set)
            &&& s.peak_pool_bytes == spec_counter(raw.peak_pool_bytes, raw.peak_pool_bytes_is_set)
        },
        r is Err ==> r->Err_0.kind == PJRTErrorKind::PluginReported,
{
    if status.is_some() {
        return Err(status.unwrap().into_error());
    }
    Ok(
        PJRTDeviceMemoryStats {
            bytes_in_use: raw.bytes_in_use,
            peak_bytes_in_use: counter(raw.peak_bytes_in_use, raw.peak_bytes_in_use_is_set),
            num_allocs: counter(raw.num_allocs, raw.num_allocs_is_set),
            largest_alloc_size: counter(raw.largest_alloc_size, raw.largest_alloc_size_is_set),
            bytes_limit: counter(raw.bytes_limit, raw.bytes_limit_is_set),
            bytes_reserved: counter(raw.bytes_reserved, raw.bytes_reserved_is_set),
            peak_bytes_reserved: counter(raw.peak_bytes_reserved, raw.peak_bytes_reserved_is_set),
            bytes_reservable_limit: counter(
                raw.bytes_reservable_limit,
                raw.bytes_reservable_limit_is_set,
            ),
            largest_free_block_bytes: counter(
                raw.largest_free_block_bytes,
                raw.largest_free_block_bytes_is_set,
            ),
            pool_bytes: counter(raw.pool_bytes, raw.pool_bytes_is_set),
            peak_pool_bytes: counter(raw.peak_pool_bytes, raw.peak_pool_bytes_is_set),
        },
    )
}

} // verus!
