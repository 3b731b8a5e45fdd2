//! The error channel: every failure the adapter can surface.
//!
//! Three origins, kept apart because callers handle them differently:
//! a locally synthesized validation failure (no plugin call was made),
//! a failure object the plugin reported (code and message were extracted
//! through the ABI), and a protocol violation (the plugin returned a shape
//! inconsistent with its own contract). A missing optional entry point is
//! its own kind, distinct from a plugin-returned failure.

use vstd::prelude::*;

verus! {

/// Failure-code values of the plugin ABI.
pub const ERROR_CODE_OK: i32 = 0;

pub const ERROR_CODE_CANCELLED: i32 = 1;

pub const ERROR_CODE_UNKNOWN: i32 = 2;

pub const ERROR_CODE_INVALID_ARGUMENT: i32 = 3;

pub const ERROR_CODE_DEADLINE_EXCEEDED: i32 = 4;

pub const ERROR_CODE_NOT_FOUND: i32 = 5;

pub const ERROR_CODE_ALREADY_EXISTS: i32 = 6;

pub const ERROR_CODE_PERMISSION_DENIED: i32 = 7;

pub const ERROR_CODE_RESOURCE_EXHAUSTED: i32 = 8;

pub const ERROR_CODE_FAILED_PRECONDITION: i32 = 9;

pub const ERROR_CODE_ABORTED: i32 = 10;

pub const ERROR_CODE_OUT_OF_RANGE: i32 = 11;

pub const ERROR_CODE_UNIMPLEMENTED: i32 = 12;

pub const ERROR_CODE_INTERNAL: i32 = 13;

pub const ERROR_CODE_UNAVAILABLE: i32 = 14;

pub const ERROR_CODE_DATA_LOSS: i32 = 15;

pub const ERROR_CODE_UNAUTHENTICATED: i32 = 16;

/// Where a failure came from.
#[derive(Clone, Copy, Debug, PartialEq, Eq, Structural)]
pub enum PJRTErrorKind {
    /// An argument was rejected before any plugin entry point was called.
    LocalValidation,
    /// The plugin surfaced a failure object; its code and message were read.
    PluginReported,
    /// The plugin returned a shape inconsistent with its own contract
    /// (an ABI mismatch, not a normal operational failure).
    ProtocolViolation,
    /// An optional entry point is absent from the loaded function table.
    MissingSymbol,
}

/// A failure as the adapter hands it to callers: a kind, a failure code of
/// the plugin ABI, and a human-readable message.
#[derive(Debug)]
pub struct PJRTError {
    pub kind: PJRTErrorKind,
    pub code: i32,
    pub message: String,
}

impl PJRTError {
    /// A local validation failure with the default code.
    pub fn invalid_arg(msg: &str) -> (r: PJRTError)
        ensures
            r.kind == PJRTErrorKind::LocalValidation,
            r.code == ERROR_CODE_INVALID_ARGUMENT,
            r.message@ == msg@,
    {
        PJRTError {
            kind: PJRTErrorKind::LocalValidation,
            code: ERROR_CODE_INVALID_ARGUMENT,
            message: msg.to_owned(),
        }
    }

    /// A local validation failure with a caller-chosen code.
    pub fn local(code: i32, msg: &str) -> (r: PJRTError)
        ensures
            r.kind == PJRTErrorKind::LocalValidation,
            r.code == code,
            r.message@ == msg@,
    {
        PJRTError { kind: PJRTErrorKind::LocalValidation, code, message: msg.to_owned() }
    }

    /// A failure the plugin reported, after its code and message were
    /// extracted and the failure object was destroyed.
    pub fn plugin(code: i32, message: String) -> (r: PJRTError)
        ensures
            r.kind == PJRTErrorKind::PluginReported,
            r.code == code,
            r.message@ == message@,
    {
        PJRTError { kind: PJRTErrorKind::PluginReported, code, message }
    }

    /// A protocol violation: the plugin broke its own output contract.
    pub fn protocol(msg: &str) -> (r: PJRTError)
        ensures
            r.kind == PJRTErrorKind::ProtocolViolation,
            r.code == ERROR_CODE_INTERNAL,
            r.message@ == msg@,
    {
        PJRTError {
            kind: PJRTErrorKind::ProtocolViolation,
            code: ERROR_CODE_INTERNAL,
            message: msg.to_owned(),
        }
    }

    /// An optional entry point was absent from the function table.
    pub fn missing_symbol(name: &str) -> (r: PJRTError)
        ensures
            r.kind == PJRTErrorKind::MissingSymbol,
            r.code == ERROR_CODE_UNIMPLEMENTED,
            r.message@ == name@,
    {
        PJRTError {
            kind: PJRTErrorKind::MissingSymbol,
            code: ERROR_CODE_UNIMPLEMENTED,
            message: name.to_owned(),
        }
    }

    /// The failure code, as the plugin ABI numbers them.
    pub fn get_code(&self) -> (c: i32)
        ensures
            c == self.code,
    {
        self.code
    }

    /// The human-readable message.
    pub fn message(&self) -> (m: String)
        ensures
            m@ == self.message@,
    {
        self.message.clone()
    }

    /// The failure's origin.
    pub fn error_kind(&self) -> (k: PJRTErrorKind)
        ensures
            k == self.kind,
    {
        self.kind
    }
}

} // verus!
