//! Compilation of programs through a client.
//!
//! Compilation rejects an empty program source or an empty format tag
//! locally, before anything crosses the boundary; a plugin-reported compile
//! failure is propagated verbatim.

use vstd::prelude::*;

use crate::error::PJRTError;
use crate::error::PJRTErrorKind;

verus! {

/// The compile entry of a client.
#[derive(Debug)]
pub struct PJRTCompiler {
    /// The raw client the compilation goes through, zero standing for null.
    pub client: u64,
}

impl PJRTCompiler {
    pub fn new(client: u64) -> (c: PJRTCompiler)
        ensures
            c.client == client,
    {
        PJRTCompiler { client }
    }

    /// Validates compiling program text: the source and the format tag must
    /// both be non-empty, and the client non-null. Nothing reaches the
    /// plugin when this fails.
    pub fn plan_compile(&self, program_code: &str, format: &str) -> (r: Result<(), PJRTError>)
        ensures
            r is Ok <==> (program_code@.len() != 0 && format@.len() != 0 && self.client != 0),
            r is Err ==> r->Err_0.kind == PJRTErrorKind::LocalValidation,
    {
        if program_code.is_empty() {
            return Err(PJRTError::invalid_arg("program_code must not be empty"));
        }
        if format.is_empty() {
            return Err(PJRTError::invalid_arg("format must not be empty"));
        }
        if self.client == 0 {
            return Err(PJRTError::invalid_arg("PJRT_Client is null"));
        }
        Ok(())
    }

    /// Validates a pre-built program record: a nonzero source or format size
    /// needs its pointer to be non-null.
    pub fn validate_program_spec(
        &self,
        code_present: bool,
        code_size: usize,
        format_present: bool,
        format_size: usize,
    ) -> (r: Result<(), PJRTError>)
        ensures
            r is Ok <==> (self.client != 0 && (code_size == 0 || code_present) && (format_size == 0
                || format_present)),
            r is Err ==> r->Err_0.kind == PJRTErrorKind::LocalValidation,
    {
        if self.client == 0 {
            return Err(PJRTError::invalid_arg("PJRT_Client is null"));
        }
        if code_size > 0 && !code_present {
            return Err(PJRTError::invalid_arg("program code is null with nonzero size"));
        }
        if format_size > 0 && !format_present {
            return Err(PJRTError::invalid_arg("program format is null with nonzero size"));
        }
        Ok(())
    }
}

} // verus!
