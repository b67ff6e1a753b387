//! Structured configuration errors and the process-wide last-error
//! slot they are recorded into.
//!
//! The slot is modelled as an explicit mutable cell that the caller
//! owns and threads through the factory: it starts empty, is
//! overwritten (never appended to) on each failure, and is read by the
//! embedding boundary's own query surface.

use vstd::prelude::*;
use crate::config::{wasmer_compiler_t, wasmer_engine_t};

verus! {

broadcast use vstd::string::to_string_from_display_ensures_for_str;

/// A structured engine-configuration error: the selected backend is
/// not compiled into this build. These are the only recoverable errors
/// of the embedding boundary; embedder contract violations are
/// documented preconditions, not error values.
#[derive(Debug, Copy, Clone, PartialEq, Eq, Structural)]
pub enum ConfigError {
    /// The selected code-generation backend is not compiled in.
    CodegenUnavailable(wasmer_compiler_t),
    /// The selected execution backend is not compiled in.
    ExecutionUnavailable(wasmer_engine_t),
}

/// The diagnostic recorded for a configuration error, naming the
/// missing backend's build feature.
pub open spec fn spec_error_message(e: ConfigError) -> Seq<char> {
    match e {
        ConfigError::CodegenUnavailable(wasmer_compiler_t::CRANELIFT) =>
            "Wasmer has not been compiled with the `cranelift` feature."@,
        ConfigError::CodegenUnavailable(wasmer_compiler_t::LLVM) =>
            "Wasmer has not been compiled with the `llvm` feature."@,
        ConfigError::CodegenUnavailable(wasmer_compiler_t::SINGLEPASS) =>
            "Wasmer has not been compiled with the `singlepass` feature."@,
        ConfigError::ExecutionUnavailable(wasmer_engine_t::JIT) =>
            "Wasmer has not been compiled with the `jit` feature."@,
        ConfigError::ExecutionUnavailable(wasmer_engine_t::NATIVE) =>
            "Wasmer has not been compiled with the `native` feature."@,
        ConfigError::ExecutionUnavailable(wasmer_engine_t::OBJECT_FILE) =>
            "Wasmer has not been compiled with the `object-file` feature."@,
    }
}

/// Renders the diagnostic for a configuration error.
pub fn error_message(e: &ConfigError) -> (s: String)
    ensures
        s@ == spec_error_message(*e),
{
    match e {
        ConfigError::CodegenUnavailable(wasmer_compiler_t::CRANELIFT) =>
            "Wasmer has not been compiled with the `cranelift` feature.".to_string(),
        ConfigError::CodegenUnavailable(wasmer_compiler_t::LLVM) =>
            "Wasmer has not been compiled with the `llvm` feature.".to_string(),
        ConfigError::CodegenUnavailable(wasmer_compiler_t::SINGLEPASS) =>
            "Wasmer has not been compiled with the `singlepass` feature.".to_string(),
        ConfigError::ExecutionUnavailable(wasmer_engine_t::JIT) =>
            "Wasmer has not been compiled with the `jit` feature.".to_string(),
        ConfigError::ExecutionUnavailable(wasmer_engine_t::NATIVE) =>
            "Wasmer has not been compiled with the `native` feature.".to_string(),
        ConfigError::ExecutionUnavailable(wasmer_engine_t::OBJECT_FILE) =>
            "Wasmer has not been compiled with the `object-file` feature.".to_string(),
    }
}

/// The process-wide "last error" cell: empty at process start, holding
/// the diagnostic of the most recent configuration failure afterwards.
pub struct LastErrorSlot {
    /// The most recently recorded diagnostic, if any.
    pub message: Option<String>,
}

impl LastErrorSlot {
    /// The state of the slot at process start: no error yet.
    pub fn empty() -> (s: Self)
        ensures
            s.message is None,
    {
        LastErrorSlot { message: None }
    }

    /// Overwrites the slot with a new diagnostic. Earlier contents are
    /// discarded, never appended to.
    pub fn record(&mut self, msg: String)
        ensures
            final(self).message == Some(msg),
    {
        self.message = Some(msg);
    }
}

} // verus!
