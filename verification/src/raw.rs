//! Plain-value mirrors of what a plugin call hands back, and the decisions
//! that turn them into safe values.
//!
//! Every variable-length output of the ABI is a pointer and a length. The
//! unverified shell observes whether the pointer was null, reads the length,
//! and copies the elements out only when the pointer was present; the copy
//! and those two observations arrive here as a [`RawArray`]. Length zero is
//! always valid, with or without a pointer; a nonzero length behind a null
//! pointer is a protocol violation and is surfaced as an error, never read.

use vstd::prelude::*;

use crate::error::PJRTError;
use crate::error::PJRTErrorKind;

verus! {

/// A variable-length plugin output: whether the pointer was non-null, the
/// element count the plugin reported, and a copy of the elements (taken only
/// when the pointer was present).
#[derive(Debug)]
pub struct RawArray<T> {
    pub present: bool,
    pub count: usize,
    pub items: Vec<T>,
}

impl<T> RawArray<T> {
    /// A faithful copy: when the pointer was present the copy holds exactly
    /// the reported count of elements, and when it was null nothing was read.
    pub open spec fn wf(&self) -> bool {
        &&& (self.present ==> self.items@.len() == self.count)
        &&& (!self.present ==> self.items@.len() == 0)
    }

    /// The output as observed when the plugin handed back a non-null pointer.
    pub fn of(items: Vec<T>) -> (r: RawArray<T>)
        ensures
            r.wf(),
            r.present,
            r.items@ == items@,
            r.count == items@.len(),
    {
        let count = items.len();
        RawArray { present: true, count, items }
    }

    /// The output as observed when the plugin handed back a null pointer
    /// beside the given count.
    pub fn absent(count: usize) -> (r: RawArray<T>)
        ensures
            r.wf(),
            !r.present,
            r.count == count,
            r.items@.len() == 0,
    {
        RawArray { present: false, count, items: Vec::new() }
    }
}

/// Copies a byte vector.
pub fn clone_bytes(v: &Vec<u8>) -> (r: Vec<u8>)
    ensures
        r@ == v@,
{
    vstd::slice::slice_to_vec(v.as_slice())
}

/// Copies a vector of 64-bit integers.
pub fn clone_i64s(v: &Vec<i64>) -> (r: Vec<i64>)
    ensures
        r@ == v@,
{
    vstd::slice::slice_to_vec(v.as_slice())
}

/// A failure the plugin reported through a call's error pointer, after the
/// failure object's code and message were extracted and it was destroyed.
#[derive(Debug)]
pub struct PluginFailure {
    pub code: i32,
    pub message: String,
}

/// What a failed call surfaces: the plugin's own code and message.
impl PluginFailure {
    pub fn into_error(self) -> (r: PJRTError)
        ensures
            r.kind == PJRTErrorKind::PluginReported,
            r.code == self.code,
            r.message@ == self.message@,
    {
        PJRTError::plugin(self.code, self.message)
    }
}

/// Reads a variable-length output. Empty is always valid; a null pointer
/// beside a nonzero count is a protocol violation.
pub fn read_array_out<T>(status: Option<PluginFailure>, out: RawArray<T>, what: &str) -> (r: Result<
    Vec<T>,
    PJRTError,
>)
    requires
        out.wf(),
    ensures
        r is Ok <==> (status is None && (out.present || out.count == 0)),
        r is Ok ==> r->Ok_0@ == out.items@,
        status is Some ==> (r->Err_0.kind == PJRTErrorKind::PluginReported && r->Err_0.code
            == status->Some_0.code),
        status is None && r is Err ==> (r->Err_0.kind == PJRTErrorKind::ProtocolViolation
            && r->Err_0.message@ == what@),
{
    match status {
        Some(failure) => Err(failure.into_error()),
        None => {
            if !out.present && out.count != 0 {
                Err(PJRTError::protocol(what))
            } else {
                Ok(out.items)
            }
        },
    }
}

/// Reads an output that must be present even when empty (a name, a
/// fingerprint): a null pointer is a protocol violation at any count.
pub fn read_required_array<T>(
    status: Option<PluginFailure>,
    out: RawArray<T>,
    what: &str,
) -> (r: Result<Vec<T>, PJRTError>)
    requires
        out.wf(),
    ensures
        r is Ok <==> (status is None && out.present),
        r is Ok ==> r->Ok_0@ == out.items@,
        status is Some ==> (r->Err_0.kind == PJRTErrorKind::PluginReported && r->Err_0.code
            == status->Some_0.code),
        status is None && r is Err ==> (r->Err_0.kind == PJRTErrorKind::ProtocolViolation
            && r->Err_0.message@ == what@),
{
    match status {
        Some(failure) => Err(failure.into_error()),
        None => {
            if !out.present {
                Err(PJRTError::protocol(what))
            } else {
                Ok(out.items)
            }
        },
    }
}

/// Reads a scalar output: the value stands whenever the call succeeded.
pub fn read_scalar_out<T>(status: Option<PluginFailure>, value: T) -> (r: Result<T, PJRTError>)
    ensures
        r is Ok <==> status is None,
        status is None ==> r->Ok_0 == value,
        status is Some ==> (r->Err_0.kind == PJRTErrorKind::PluginReported && r->Err_0.code
            == status->Some_0.code && r->Err_0.message@ == status->Some_0.message@),
{
    match status {
        Some(failure) => Err(failure.into_error()),
        None => Ok(value),
    }
}

/// Reads a handle output: a successful call must hand back a non-null
/// object pointer, observed here as a nonzero address.
pub fn read_handle_out(status: Option<PluginFailure>, addr: u64, what: &str) -> (r: Result<
    u64,
    PJRTError,
>)
    ensures
        r is Ok <==> (status is None && addr != 0),
        r is Ok ==> r->Ok_0 == addr,
        status is Some ==> (r->Err_0.kind == PJRTErrorKind::PluginReported && r->Err_0.code
            == status->Some_0.code),
        status is None && r is Err ==> (r->Err_0.kind == PJRTErrorKind::ProtocolViolation
            && r->Err_0.message@ == what@),
{
    match status {
        Some(failure) => Err(failure.into_error()),
        None => {
            if addr == 0 {
                Err(PJRTError::protocol(what))
            } else {
                Ok(addr)
            }
        },
    }
}

/// A serialized blob as the plugin returns one: the byte span, plus whether a
/// holder object and its deleter came along.
#[derive(Debug)]
pub struct SerializedBlob {
    pub bytes: RawArray<u8>,
    pub holder_present: bool,
    pub deleter_present: bool,
}

impl SerializedBlob {
    pub open spec fn wf(&self) -> bool {
        self.bytes.wf()
    }
}

/// Reads a serialized blob and decides whether the holder's deleter must be
/// run. A holder without a deleter can never be freed: that is a protocol
/// violation. The second component is true exactly when the shell must run
/// the deleter on the holder.
pub fn read_serialized_blob(status: Option<PluginFailure>, blob: SerializedBlob, what: &str) -> (r:
    (Result<Vec<u8>, PJRTError>, bool))
    requires
        blob.wf(),
    ensures
        r.1 == (status is None && blob.holder_present && blob.deleter_present),
        r.0 is Ok <==> (status is None && (blob.holder_present ==> blob.deleter_present) && (
        blob.bytes.present || blob.bytes.count == 0)),
        r.0 is Ok ==> r.0->Ok_0@ == blob.bytes.items@,
        status is Some ==> (r.0->Err_0.kind == PJRTErrorKind::PluginReported && r.0->Err_0.code
            == status->Some_0.code),
        status is None && r.0 is Err ==> r.0->Err_0.kind == PJRTErrorKind::ProtocolViolation,
{
    match status {
        Some(failure) => (Err(failure.into_error()), false),
        None => {
            let run_deleter = blob.holder_present && blob.deleter_present;
            if blob.holder_present && !blob.deleter_present {
                (Err(PJRTError::protocol(what)), run_deleter)
            } else if !blob.bytes.present && blob.bytes.count != 0 {
                (Err(PJRTError::protocol(what)), run_deleter)
            } else {
                (Ok(blob.bytes.items), run_deleter)
            }
        },
    }
}

} // verus!
