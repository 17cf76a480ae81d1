//! Host runtime that executes sandboxed guest modules to transform streamed
//! messages. The host links a fixed set of functions into the guest, feeds it
//! one message at a time through a per-instance registry, and turns the
//! guest's numeric verdict into either "no output" or a replacement JSON
//! value harvested from the guest's response buffer.

mod abi;
mod clock;
mod errors;
mod exports;
mod json;
mod message;
mod registry;
mod transform;
mod verdict;
mod wasm;

pub use abi::ACTIVE_HANDLE;
pub use abi::host_imports;
pub use clock::le_bytes_of_i64;
pub use clock::spec_le_bytes;
pub use errors::HostError;
pub use json::json_of;
pub use message::MessageContext;
pub use message::MessageEnvelope;
pub use message::Timestamp;
pub use registry::HostState;
pub use registry::context_view;
pub use registry::lemma_registry_view_empty;
pub use registry::lemma_registry_view_insert;
pub use registry::lemma_registry_view_remove;
pub use registry::registry_view;
pub use registry::MessageRegistry;
pub use transform::WasmHost;
pub use transform::lemma_selection_prefers_response;
pub use transform::WasmTransformer;
pub use transform::conclude;
pub use transform::selected_bytes;
pub use verdict::Status;
pub use wasm::caller_held;
pub use wasm::context_func_of_store;
pub use wasm::instance_of_store;
pub use wasm::linker_engine;
pub use wasm::memory_of_caller;
pub use wasm::message_func_of_store;
pub use wasm::module_compiles;
pub use wasm::store_engine;
pub use wasm::context_export_bound;
pub use wasm::linker_defs;
pub use wasm::memory_bytes;
pub use wasm::message_export_bound;
pub use wasm::splice;
pub use wasm::store_held;
pub use verdict::lemma_unrecognized_code_defaults_to_use;
pub use verdict::Verdict;
