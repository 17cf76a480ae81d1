//! The three kinds of failure the host surfaces, never swallows: a startup
//! failure while compiling or linking a module, a runtime failure while a
//! guest handles one message, and a JSON failure in the bytes selected as the
//! transform result.

use vstd::prelude::*;

use crate::wasm::error_text;

verus! {

/// A failure surfaced to the caller of the facade or of a constructor.
#[derive(Debug)]
pub enum HostError {
    /// Compilation, linking, or export-binding failure; always fatal to
    /// constructing a usable transformer or instance.
    Startup { error: String },
    /// A guest execution trap or host-function call failure while handling
    /// one message; surfaced per-message.
    Runtime { error: String },
    /// The bytes selected as the transform result are not valid JSON;
    /// surfaced per-message.
    Json { source: serde_json::Error },
}

/// Wraps an engine diagnostic as a startup failure.
pub fn startup_error(error: &wasmtime::Error) -> (r: HostError)
    ensures
        r is Startup,
{
    HostError::Startup { error: error_text(error) }
}

/// Wraps an engine diagnostic as a per-message runtime failure.
pub fn runtime_error(error: &wasmtime::Error) -> (r: HostError)
    ensures
        r is Runtime,
{
    HostError::Runtime { error: error_text(error) }
}

} // verus!
