//! The transform facade: turns the guest's verdict and the harvested message
//! context into the host-level result — no output, a replacement JSON value,
//! or an error.

use vstd::prelude::*;

use crate::abi::ACTIVE_HANDLE;
use crate::abi::host_imports;
use crate::abi::link_host_functions;
use crate::errors::HostError;
use crate::errors::startup_error;
use crate::exports::ExportCollection;
use crate::json::json_of;
use crate::json::parse_json;
use crate::message::MessageContext;
use crate::message::MessageEnvelope;
use crate::registry::HostState;
use crate::registry::registry_view;
use crate::verdict::Verdict;
use crate::wasm::store_held;
use crate::wasm::clone_engine;
use crate::wasm::clone_linker;
use crate::wasm::clone_module;
use crate::wasm::config_memory_guard_size;
use crate::wasm::config_memory_reservation;
use crate::wasm::engine_with_config;
use crate::wasm::instantiate;
use crate::wasm::new_config;
use crate::wasm::new_linker;
use crate::wasm::new_module;
use crate::wasm::new_store;
use crate::wasm::linker_defs;
use crate::wasm::linker_engine;
use crate::wasm::store_engine;
use crate::wasm::store_put_state;
use crate::wasm::store_take_state;

verus! {

/// The bytes the facade selects as the transform result once the verdict is
/// known: the response slot if the guest populated it, else the original
/// payload.
pub open spec fn selected_bytes(context: MessageContext) -> Seq<u8> {
    match context.response {
        Some(b) => b@,
        None => context.message.payload@,
    }
}

/// Law: the facade's selection prefers the guest's response slot and falls
/// back to the original payload only where the guest set none.
pub proof fn lemma_selection_prefers_response(context: MessageContext)
    ensures
        context.response matches Some(b) ==> selected_bytes(context) == b@,
        context.response is None ==> selected_bytes(context) == context.message.payload@,
{
}

/// Translates a harvested message context and the guest's verdict into the
/// transform result. A `Use` verdict yields no output and never parses
/// anything; any other verdict yields the JSON value parsed from the response
/// slot — or from the original payload when the guest set no response — and a
/// `Json` error when those bytes are not valid JSON.
pub fn conclude(verdict: Verdict, context: MessageContext) -> (r: Result<
    Option<serde_json::Value>,
    HostError,
>)
    ensures
        verdict == Verdict::Use ==> (r matches Ok(out) && out is None),
        verdict != Verdict::Use ==> match json_of(selected_bytes(context)) {
            Some(v) => (r matches Ok(out) && out == Some(v)),
            None => (r matches Err(e) && e is Json),
        },
        (r matches Err(e) ==> e is Json),
{
    match verdict {
        Verdict::Use => Ok(None),
        Verdict::Replace => {
            let bytes: &Vec<u8> = match &context.response {
                Some(b) => b,
                None => &context.message.payload,
            };
            match parse_json(bytes.as_slice()) {
                Ok(value) => Ok(Some(value)),
                Err(e) => Err(HostError::Json { source: e }),
            }
        },
    }
}

/// One execution instance: an instantiated guest module bound to one store,
/// one registry, and the two bound exports. Created once per worker thread
/// and never shared: each instance exclusively owns its sandbox and its
/// registry.
pub struct WasmHost {
    instance: wasmtime::Instance,
    store: wasmtime::Store<HostState>,
    module: wasmtime::Module,
    exports: ExportCollection,
}

impl WasmHost {
    /// The registry this instance's store holds, each context reduced to
    /// its payload and response bytes.
    pub closed spec fn held(self) -> Map<u32, (Seq<u8>, Option<Seq<u8>>)> {
        store_held(self.store)
    }

    /// Well-formedness: the bound exports live in this instance's own
    /// store, so invoking them can never misuse a foreign store.
    pub closed spec fn wf(self) -> bool {
        self.exports.bound_to(self.store)
    }

    /// Runs one message through the guest: registers it under the active
    /// handle, invokes the message-received export with the payload length,
    /// removes the registry entry, and translates the verdict and the
    /// harvested context through `conclude`, whose contract pins the result
    /// for every verdict and registry outcome. A guest trap surfaces as a
    /// runtime failure.
    pub fn process(&mut self, message: MessageEnvelope) -> (r: Result<
        Option<serde_json::Value>,
        HostError,
    >)
        requires
            old(self).wf(),
            message.payload@.len() <= 0xffff_ffff,
        ensures
            final(self).wf(),
            (r matches Err(e) ==> (e is Runtime || e is Json)),
            (r is Ok || (r matches Err(e) && e is Json)) ==> !final(self).held().contains_key(
                ACTIVE_HANDLE,
            ),
    {
        let length = message.payload.len() as u32;
        let mut state = store_take_state(&mut self.store, HostState::new());
        proof {
            self.exports.lemma_bound_to_preserved(old(self).store, self.store);
        }
        state.registry.add_message(ACTIVE_HANDLE, message);
        let ghost fed = self.store;
        store_put_state(&mut self.store, state);
        proof {
            self.exports.lemma_bound_to_preserved(fed, self.store);
        }
        let verdict = match self.exports.on_message_received(
            &mut self.store,
            ACTIVE_HANDLE as i32,
            length,
        ) {
            Ok(verdict) => verdict,
            Err(e) => {
                return Err(e);
            },
        };
        let ghost answered = self.store;
        let mut state = store_take_state(&mut self.store, HostState::new());
        proof {
            self.exports.lemma_bound_to_preserved(answered, self.store);
        }
        let ghost taken = state.registry@;
        let removed = state.registry.remove_message(ACTIVE_HANDLE);
        proof {
            crate::registry::lemma_registry_view_remove(taken, ACTIVE_HANDLE);
        }
        let ghost harvested = self.store;
        store_put_state(&mut self.store, state);
        proof {
            self.exports.lemma_bound_to_preserved(harvested, self.store);
        }
        match removed {
            Some(context) => conclude(verdict, context),
            None => Err(
                HostError::Runtime { error: "message context missing after guest call".to_string() },
            ),
        }
    }
}

/// The transform facade: owns the compiled module and the import-linkage
/// template, both immutable after construction and cheaply shareable. Each
/// worker thread drives its own `WasmHost`, created lazily through
/// `new_wasm_host` and kept in a caller-owned slot.
pub struct WasmTransformer {
    engine: wasmtime::Engine,
    module: wasmtime::Module,
    linker: wasmtime::Linker<HostState>,
}

impl WasmTransformer {
    /// Well-formedness: the import template was built against this
    /// transformer's own engine, as instantiation demands.
    pub closed spec fn wf(self) -> bool {
        linker_engine(self.linker) == self.engine
    }

    /// The import-linkage template's definitions, as (namespace, name)
    /// pairs.
    pub closed spec fn template(self) -> Set<(Seq<char>, Seq<char>)> {
        linker_defs(self.linker)
    }

    /// Compiles a guest module from its raw bytes, up front, and prepares
    /// the import-linkage template with all eight host functions. Any
    /// failure here is a startup failure, fatal to constructing a usable
    /// transformer; on success the template holds exactly the eight host
    /// imports.
    pub fn try_from_bytes(bytes: &[u8]) -> (r: Result<WasmTransformer, HostError>)
        ensures
            (r matches Err(e) ==> e is Startup),
            (r matches Ok(t) ==> (t.wf() && t.template() == host_imports("host"@))),
    {
        let mut config = new_config();
        config_memory_reservation(&mut config, 0x1000000);
        config_memory_guard_size(&mut config, 0x10000);
        let engine = match engine_with_config(&config) {
            Ok(engine) => engine,
            Err(e) => {
                return Err(startup_error(&e));
            },
        };
        let module = match new_module(&engine, bytes) {
            Ok(module) => module,
            Err(e) => {
                return Err(startup_error(&e));
            },
        };
        let mut linker = new_linker(&engine);
        match link_host_functions(&mut linker, "host") {
            Ok(()) => (),
            Err(e) => {
                return Err(e);
            },
        }
        Ok(WasmTransformer { engine, module, linker })
    }

    /// Builds one execution instance: instantiates the compiled module in a
    /// fresh store with an empty registry, binds the two required exports,
    /// and establishes the root and message-processing contexts. Linking and
    /// export-binding failures are startup failures; a guest trap during a
    /// context-creation call is a runtime failure.
    pub fn new_wasm_host(&self) -> (r: Result<WasmHost, HostError>)
        requires
            self.wf(),
        ensures
            (r matches Err(e) ==> (e is Startup || e is Runtime)),
            (r matches Ok(h) ==> (h.wf() && h.held() == Map::<
                u32,
                (Seq<u8>, Option<Seq<u8>>),
            >::empty())),
    {
        let engine = clone_engine(&self.engine);
        let module = clone_module(&self.module);
        let linker = clone_linker(&self.linker);
        let mut store = new_store(&engine, HostState::new());
        proof {
            crate::registry::lemma_registry_view_empty();
            assert(store_held(store) == Map::<u32, (Seq<u8>, Option<Seq<u8>>)>::empty());
        }
        let instance = match instantiate(&linker, &mut store, &module) {
            Ok(instance) => instance,
            Err(e) => {
                return Err(startup_error(&e));
            },
        };
        let exports = match ExportCollection::new(&instance, &mut store) {
            Ok(exports) => exports,
            Err(e) => {
                return Err(e);
            },
        };
        match exports.trigger_context_create(&mut store, ACTIVE_HANDLE as i32, 0) {
            Ok(()) => (),
            Err(e) => {
                return Err(e);
            },
        }
        match exports.trigger_context_create(&mut store, ACTIVE_HANDLE as i32, 1) {
            Ok(()) => (),
            Err(e) => {
                return Err(e);
            },
        }
        let ghost contexts_made = store;
        store_put_state(&mut store, HostState::new());
        proof {
            exports.lemma_bound_to_preserved(contexts_made, store);
            crate::registry::lemma_registry_view_empty();
        }
        Ok(WasmHost { instance, store, module, exports })
    }

    /// Routes one message to the worker's own execution instance, creating
    /// and caching it in the caller-owned slot on first use. The compiled
    /// module and import template are shared read-only; everything mutable
    /// lives in the slot, so calls from different workers never touch each
    /// other's registry.
    pub fn process(&self, host_slot: &mut Option<WasmHost>, message: MessageEnvelope) -> (r:
        Result<Option<serde_json::Value>, HostError>)
        requires
            self.wf(),
            ((*old(host_slot)) matches Some(h) ==> h.wf()),
            message.payload@.len() <= 0xffff_ffff,
        ensures
            ((*final(host_slot)) matches Some(h) ==> h.wf()),
            (r is Ok ==> (*final(host_slot)) is Some),
            ((*old(host_slot)) is Some ==> (*final(host_slot)) is Some),
            ((*old(host_slot)) is Some ==> (r matches Err(e) ==> (e is Runtime || e is Json))),
            ((r matches Err(e) && e is Startup) ==> ((*old(host_slot)) is None
                && (*final(host_slot)) is None)),
    {
        match host_slot {
            Some(host) => {
                return host.process(message);
            },
            None => (),
        }
        let created = match self.new_wasm_host() {
            Ok(host) => host,
            Err(e) => {
                return Err(e);
            },
        };
        *host_slot = Some(created);
        match host_slot {
            Some(host) => host.process(message),
            None => Err(
                HostError::Runtime { error: "execution instance slot left empty".to_string() },
            ),
        }
    }
}

} // verus!
