//! The export invocation layer: typed bindings to the two entry points every
//! guest must export, and the decoding of the message-received result into a
//! verdict with its fail-safe default.

use vstd::prelude::*;

use crate::errors::HostError;
use crate::errors::runtime_error;
use crate::errors::startup_error;
use crate::registry::HostState;
use crate::verdict::Verdict;
use crate::wasm::call_context_func;
use crate::wasm::call_message_func;
use crate::wasm::context_export_bound;
use crate::wasm::context_func_of_store;
use crate::wasm::get_context_func;
use crate::wasm::get_message_func;
use crate::wasm::instance_of_store;
use crate::wasm::message_export_bound;
use crate::wasm::message_func_of_store;

verus! {

/// The two guest-exported entry points, bound once at instantiation time.
pub struct ExportCollection {
    on_message_received: wasmtime::TypedFunc<(i32, u32), i32>,
    on_context_create: wasmtime::TypedFunc<(i32, i32), ()>,
}

impl ExportCollection {
    /// Whether both bound entry points live in the given store, so that
    /// calling them through it cannot misuse a foreign store.
    pub closed spec fn bound_to(self, store: wasmtime::Store<HostState>) -> bool {
        message_func_of_store(self.on_message_received, store) && context_func_of_store(
            self.on_context_create,
            store,
        )
    }

    /// Whatever only grows a store's contents keeps the bound exports in
    /// it.
    pub proof fn lemma_bound_to_preserved(
        self,
        s1: wasmtime::Store<HostState>,
        s2: wasmtime::Store<HostState>,
    )
        requires
            self.bound_to(s1),
            forall|f: wasmtime::TypedFunc<(i32, u32), i32>|
                message_func_of_store(f, s1) ==> #[trigger] message_func_of_store(f, s2),
            forall|f: wasmtime::TypedFunc<(i32, i32), ()>|
                context_func_of_store(f, s1) ==> #[trigger] context_func_of_store(f, s2),
        ensures
            self.bound_to(s2),
    {
    }

    /// Binds both required exports, succeeding exactly when the instance
    /// exports both entry points under their fixed names with their exact
    /// signatures, and failing with a startup error otherwise.
    pub fn new(
        instance: &wasmtime::Instance,
        store: &mut wasmtime::Store<HostState>,
    ) -> (r: Result<ExportCollection, HostError>)
        requires
            instance_of_store(*instance, *old(store)),
        ensures
            (r matches Err(e) ==> e is Startup),
            r is Ok <==> (message_export_bound(*instance, "proxy_on_message_received"@)
                && context_export_bound(*instance, "proxy_on_context_create"@)),
            (r matches Ok(c) ==> c.bound_to(*final(store))),
    {
        let on_message_received = match get_message_func(
            instance,
            store,
            "proxy_on_message_received",
        ) {
            Ok(func) => func,
            Err(e) => {
                return Err(startup_error(&e));
            },
        };
        let on_context_create = match get_context_func(instance, store, "proxy_on_context_create") {
            Ok(func) => func,
            Err(e) => {
                return Err(startup_error(&e));
            },
        };
        Ok(ExportCollection { on_message_received, on_context_create })
    }

    /// Notifies the guest that a context was created. A guest trap surfaces
    /// as a runtime failure; the call is never retried.
    pub fn trigger_context_create(
        &self,
        store: &mut wasmtime::Store<HostState>,
        context_id: i32,
        parent_id: i32,
    ) -> (r: Result<(), HostError>)
        requires
            self.bound_to(*old(store)),
        ensures
            (r matches Err(e) ==> e is Runtime),
            self.bound_to(*final(store)),
    {
        match call_context_func(&self.on_context_create, store, context_id, parent_id) {
            Ok(()) => Ok(()),
            Err(e) => Err(runtime_error(&e)),
        }
    }

    /// Notifies the guest that a message of the given payload length is
    /// ready to be read, and decodes the returned integer into a verdict,
    /// defaulting to `Use` on any unrecognized code. A guest trap surfaces
    /// as a runtime failure; the call is never retried.
    pub fn on_message_received(
        &self,
        store: &mut wasmtime::Store<HostState>,
        context_id: i32,
        length: u32,
    ) -> (r: Result<Verdict, HostError>)
        requires
            self.bound_to(*old(store)),
        ensures
            (r matches Err(e) ==> e is Runtime),
            self.bound_to(*final(store)),
    {
        match call_message_func(&self.on_message_received, store, context_id, length) {
            Ok(code) => Ok(Verdict::from_code(code)),
            Err(e) => Err(runtime_error(&e)),
        }
    }
}

} // verus!
