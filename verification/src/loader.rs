//! The loader: version negotiation, plugin initialization, symbol presence,
//! and the failure-object text protocol.
//!
//! The shell opens the shared object, resolves the single entry symbol and
//! reads the two-part version from the table; everything it then decides is
//! here. A major-version mismatch is a hard failure; an older minor version
//! only earns a warning. Every entry point of the table is optional, and a
//! missing one is its own error kind, distinct from a plugin-returned
//! failure.

use vstd::prelude::*;

use crate::abi::check_api_version;
use crate::abi::VersionCheck;
use crate::abi::PJRT_API_MAJOR;
use crate::abi::PJRT_API_MINOR;
use crate::error::PJRTError;
use crate::error::PJRTErrorKind;
use crate::raw::clone_bytes;
use crate::raw::PluginFailure;

verus! {

/// What the adapter knows of a loaded plugin: the version its table
/// declared, and whether the one-time initialization ran.
#[derive(Debug)]
pub struct PjrtRuntime {
    pub plugin_major: i32,
    pub plugin_minor: i32,
    pub initialized: bool,
}

impl PjrtRuntime {
    /// Negotiates the version read from the plugin's table. A differing
    /// major version rejects the plugin; an older minor version is accepted
    /// with a warning owed (the second component).
    pub fn accept(plugin_major: i32, plugin_minor: i32) -> (r: Result<
        (PjrtRuntime, bool),
        PJRTError,
    >)
        ensures
            r is Ok <==> plugin_major == PJRT_API_MAJOR,
            r is Ok ==> {
                let (rt, warn) = r->Ok_0;
                &&& rt.plugin_major == plugin_major
                &&& rt.plugin_minor == plugin_minor
                &&& !rt.initialized
                &&& warn == (plugin_minor < PJRT_API_MINOR)
            },
            r is Err ==> r->Err_0.kind == PJRTErrorKind::LocalValidation,
    {
        match check_api_version(plugin_major, plugin_minor) {
            VersionCheck::MajorMismatch => Err(
                PJRTError::invalid_arg("plugin ABI major version mismatch"),
            ),
            VersionCheck::Compatible { warn_older_minor } => Ok(
                (PjrtRuntime { plugin_major, plugin_minor, initialized: false }, warn_older_minor),
            ),
        }
    }

    /// Surfaces a missing optional entry point as its own error kind.
    pub fn require_symbol(present: bool, name: &str) -> (r: Result<(), PJRTError>)
        ensures
            r is Ok <==> present,
            r is Err ==> (r->Err_0.kind == PJRTErrorKind::MissingSymbol && r->Err_0.message@
                == name@),
    {
        if present {
            Ok(())
        } else {
            Err(PJRTError::missing_symbol(name))
        }
    }

    /// Records the outcome of the one-time plugin initialization. Once it
    /// has run, running it again is benign.
    pub fn finish_initialize(&mut self, status: Option<PluginFailure>) -> (r: Result<
        (),
        PJRTError,
    >)
        ensures
            r is Ok <==> status is None,
            r is Ok ==> final(self).initialized,
            r is Err ==> (final(self).initialized == old(self).initialized && r->Err_0.kind
                == PJRTErrorKind::PluginReported),
            final(self).plugin_major == old(self).plugin_major,
            final(self).plugin_minor == old(self).plugin_minor,
    {
        if status.is_some() {
            return Err(status.unwrap().into_error());
        }
        self.initialized = true;
        Ok(())
    }

    /// Whether the one-time initialization already ran.
    pub fn is_initialized(&self) -> (b: bool)
        ensures
            b == self.initialized,
    {
        self.initialized
    }
}

/// The rendered text of a failure object.
#[derive(Debug)]
pub enum ErrorText {
    /// The message the plugin handed out.
    Message(Vec<u8>),
    /// No message could be read; the flag records that the failure object
    /// additionally could not be destroyed for want of the destroy entry.
    Unknown { destroy_unavailable: bool },
}

/// What the failure-text extraction decided: the text to render and whether
/// the failure object must be destroyed now.
#[derive(Debug)]
pub struct ErrorTextDecision {
    pub text: ErrorText,
    pub destroy: bool,
}

/// Decides how a plugin failure object is rendered and disposed of. The
/// message is read only when the failure, the message entry point and the
/// returned message pointer are all present; the object is destroyed exactly
/// when it exists and the destroy entry point does.
pub fn decide_error_text(
    error_present: bool,
    msg_fn_present: bool,
    msg_present: bool,
    msg_bytes: &Vec<u8>,
    destroy_fn_present: bool,
) -> (r: ErrorTextDecision)
    ensures
        r.destroy == (error_present && destroy_fn_present),
        (error_present && msg_fn_present && msg_present) ==> (r.text matches ErrorText::Message(m)
            && m@ == msg_bytes@),
        !(error_present && msg_fn_present && msg_present) ==> (r.text matches ErrorText::Unknown {
            destroy_unavailable,
        } && destroy_unavailable == (error_present && !destroy_fn_present)),
{
    let destroy = error_present && destroy_fn_present;
    if error_present && msg_fn_present && msg_present {
        ErrorTextDecision { text: ErrorText::Message(clone_bytes(msg_bytes)), destroy }
    } else {
        ErrorTextDecision {
            text: ErrorText::Unknown {
                destroy_unavailable: error_present && !destroy_fn_present,
            },
            destroy,
        }
    }
}

/// Builds the plain failure record from a failure object's extracted code
/// and message, applying the message rule: a null message span is tolerated
/// only when its length is zero. The message text arrives already rendered
/// from the observed bytes.
pub fn extract_failure(code: i32, msg_present: bool, msg_len: usize, message: String) -> (r:
    Result<PluginFailure, PJRTError>)
    ensures
        r is Ok <==> (msg_present || msg_len == 0),
        r is Ok ==> (r->Ok_0.code == code && r->Ok_0.message@ == message@),
        r is Err ==> r->Err_0.kind == PJRTErrorKind::ProtocolViolation,
{
    if !msg_present && msg_len != 0 {
        return Err(PJRTError::protocol("failure message is null with nonzero size"));
    }
    Ok(PluginFailure { code, message })
}

} // verus!
