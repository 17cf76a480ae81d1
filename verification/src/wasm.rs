//! The trusted boundary to the sandboxing engine. Every type of the engine is
//! opaque here, and each engine call the host makes goes through exactly one
//! wrapper below. What a guest does during a call is its own: no wrapper
//! claims anything about it.

use vstd::prelude::*;

use crate::registry::HostState;
use crate::registry::registry_view;

verus! {

/// The import definitions a linker holds, as (namespace, name) pairs: what
/// `wasmtime::Linker::func_wrap` grows and instantiation resolves against.
pub uninterp spec fn linker_defs(linker: wasmtime::Linker<HostState>) -> Set<(Seq<char>, Seq<char>)>;

/// The registry a store holds for its instance, reduced to payload and
/// response bytes per handle.
pub uninterp spec fn store_held(store: wasmtime::Store<HostState>) -> Map<
    u32,
    (Seq<u8>, Option<Seq<u8>>),
>;

/// The registry the calling store of a host function holds, reduced to
/// payload and response bytes per handle.
pub uninterp spec fn caller_held(caller: wasmtime::Caller<HostState>) -> Map<
    u32,
    (Seq<u8>, Option<Seq<u8>>),
>;

/// The bytes of one guest linear memory, as the calling store sees them.
pub uninterp spec fn memory_bytes(memory: wasmtime::Memory, caller: wasmtime::Caller<HostState>) -> Seq<
    u8,
>;

/// The engine a store was created against: handles of one store may only
/// be used with that store.
pub uninterp spec fn store_engine(store: wasmtime::Store<HostState>) -> wasmtime::Engine;

/// The engine a linker was created against: a linker instantiates only into
/// stores of the same engine.
pub uninterp spec fn linker_engine(linker: wasmtime::Linker<HostState>) -> wasmtime::Engine;

/// Whether an instance lives in (is owned by) a store: instance handles may
/// only be used with the store that owns them.
pub uninterp spec fn instance_of_store(
    instance: wasmtime::Instance,
    store: wasmtime::Store<HostState>,
) -> bool;

/// Whether a typed message-received function lives in a store: function
/// handles may only be called through the store that owns them.
pub uninterp spec fn message_func_of_store(
    func: wasmtime::TypedFunc<(i32, u32), i32>,
    store: wasmtime::Store<HostState>,
) -> bool;

/// Whether a typed context-creation function lives in a store: function
/// handles may only be called through the store that owns them.
pub uninterp spec fn context_func_of_store(
    func: wasmtime::TypedFunc<(i32, i32), ()>,
    store: wasmtime::Store<HostState>,
) -> bool;

/// Whether a memory lives in the calling store: memory handles may only be
/// read or written through the store that owns them.
pub uninterp spec fn memory_of_caller(
    memory: wasmtime::Memory,
    caller: wasmtime::Caller<HostState>,
) -> bool;

/// Whether a module compiles under an engine: deterministic in the engine
/// and the bytes.
pub uninterp spec fn module_compiles(engine: wasmtime::Engine, bytes: Seq<u8>) -> bool;

/// Whether an instance exports a function of the given name with the
/// message-received signature, as `wasmtime::Instance::get_typed_func`
/// resolves it.
pub uninterp spec fn message_export_bound(instance: wasmtime::Instance, name: Seq<char>) -> bool;

/// Whether an instance exports a function of the given name with the
/// context-creation signature, as `wasmtime::Instance::get_typed_func`
/// resolves it.
pub uninterp spec fn context_export_bound(instance: wasmtime::Instance, name: Seq<char>) -> bool;

/// A buffer with `data` written over its bytes at `at`, everything else
/// unchanged.
pub open spec fn splice(buffer: Seq<u8>, at: int, data: Seq<u8>) -> Seq<u8> {
    buffer.subrange(0, at) + data + buffer.subrange(at + data.len(), buffer.len() as int)
}

#[verifier::external_type_specification]
#[verifier::external_body]
pub struct ExConfig(wasmtime::Config);

#[verifier::external_type_specification]
#[verifier::external_body]
pub struct ExEngine(wasmtime::Engine);

#[verifier::external_type_specification]
#[verifier::external_body]
pub struct ExModule(wasmtime::Module);

#[verifier::external_type_specification]
#[verifier::external_body]
#[verifier::reject_recursive_types(T)]
pub struct ExLinker<T>(wasmtime::Linker<T>);

#[verifier::external_type_specification]
#[verifier::external_body]
#[verifier::reject_recursive_types(T)]
pub struct ExStore<T: 'static>(wasmtime::Store<T>);

#[verifier::external_type_specification]
#[verifier::external_body]
#[verifier::reject_recursive_types(T)]
pub struct ExCaller<'a, T: 'static>(wasmtime::Caller<'a, T>);

#[verifier::external_type_specification]
#[verifier::external_body]
#[verifier::reject_recursive_types(Params)]
#[verifier::reject_recursive_types(Results)]
pub struct ExTypedFunc<Params, Results>(wasmtime::TypedFunc<Params, Results>);

#[verifier::external_type_specification]
#[verifier::external_body]
pub struct ExInstance(wasmtime::Instance);

#[verifier::external_type_specification]
#[verifier::external_body]
pub struct ExMemory(wasmtime::Memory);

#[verifier::external_type_specification]
#[verifier::external_body]
pub struct ExWasmError(wasmtime::Error);

#[verifier::external_type_specification]
#[verifier::external_body]
pub struct ExMemoryAccessError(wasmtime::MemoryAccessError);

/// Relies on wasmtime::Config::new: a fresh engine configuration with the
/// default settings.
#[verifier::external_body]
pub fn new_config() -> wasmtime::Config {
    wasmtime::Config::new()
}

/// Relies on wasmtime::Config::memory_reservation: bounds the address-space
/// reservation made for each linear memory to the given byte count.
#[verifier::external_body]
pub fn config_memory_reservation(config: &mut wasmtime::Config, bytes: u64) {
    config.memory_reservation(bytes);
}

/// Relies on wasmtime::Config::memory_guard_size: bounds the guard region
/// reserved after each linear memory to the given byte count.
#[verifier::external_body]
pub fn config_memory_guard_size(config: &mut wasmtime::Config, bytes: u64) {
    config.memory_guard_size(bytes);
}

/// Relies on wasmtime::Engine::new: an engine with the given configuration,
/// failing on incompatible settings.
#[verifier::external_body]
pub fn engine_with_config(config: &wasmtime::Config) -> Result<
    wasmtime::Engine,
    wasmtime::Error,
> {
    wasmtime::Engine::new(config)
}

/// Relies on wasmtime::Engine::clone: a cheap shared handle to the same
/// engine — an engine value stands for the engine's identity, which the
/// clone shares.
#[verifier::external_body]
pub fn clone_engine(engine: &wasmtime::Engine) -> (r: wasmtime::Engine)
    ensures
        r == *engine,
{
    engine.clone()
}

/// Relies on wasmtime::Module::new: compiles a binary or text module,
/// succeeding exactly when the bytes compile under the engine's
/// configuration — deterministic in the engine and the bytes.
#[verifier::external_body]
pub fn new_module(engine: &wasmtime::Engine, bytes: &[u8]) -> (r: Result<
    wasmtime::Module,
    wasmtime::Error,
>)
    ensures
        r is Ok <==> module_compiles(*engine, bytes@),
{
    wasmtime::Module::new(engine, bytes)
}

/// Relies on wasmtime::Module::clone: a cheap shared handle to the same
/// compiled module.
#[verifier::external_body]
pub fn clone_module(module: &wasmtime::Module) -> wasmtime::Module {
    module.clone()
}

/// Relies on wasmtime::Linker::new: a fresh linker with no definitions.
#[verifier::external_body]
pub fn new_linker(engine: &wasmtime::Engine) -> (r: wasmtime::Linker<HostState>)
    ensures
        linker_defs(r) == Set::<(Seq<char>, Seq<char>)>::empty(),
        linker_engine(r) == *engine,
{
    wasmtime::Linker::new(engine)
}

/// Relies on wasmtime::Linker::clone: a copy of the linker's import
/// definitions.
#[verifier::external_body]
pub fn clone_linker(linker: &wasmtime::Linker<HostState>) -> (r: wasmtime::Linker<HostState>)
    ensures
        linker_defs(r) == linker_defs(*linker),
        linker_engine(r) == linker_engine(*linker),
{
    linker.clone()
}

/// Relies on wasmtime::Store::new: a fresh store owning the given host
/// state.
#[verifier::external_body]
pub fn new_store(engine: &wasmtime::Engine, state: HostState) -> (r: wasmtime::Store<HostState>)
    ensures
        store_held(r) == registry_view(state.registry@),
        store_engine(r) == *engine,
{
    wasmtime::Store::new(engine, state)
}

/// Relies on wasmtime::Linker::instantiate: instantiates the module in the
/// store, failing on any import outside the linker's definitions or on a
/// failing start section. The linker and the store must share one engine:
/// wasmtime documents a panic otherwise. The returned instance lives in the
/// store.
#[verifier::external_body]
pub fn instantiate(
    linker: &wasmtime::Linker<HostState>,
    store: &mut wasmtime::Store<HostState>,
    module: &wasmtime::Module,
) -> (r: Result<wasmtime::Instance, wasmtime::Error>)
    requires
        linker_engine(*linker) == store_engine(*old(store)),
    ensures
        (r matches Ok(i) ==> instance_of_store(i, *final(store))),
{
    linker.instantiate(&mut *store, module)
}

/// Relies on wasmtime::Store::data_mut and std::mem::replace: hands out the
/// state the store currently owns and leaves the replacement in its place.
#[verifier::external_body]
pub fn store_take_state(
    store: &mut wasmtime::Store<HostState>,
    replacement: HostState,
) -> (r: HostState)
    ensures
        registry_view(r.registry@) == store_held(*old(store)),
        store_held(*final(store)) == registry_view(replacement.registry@),
        forall|f: wasmtime::TypedFunc<(i32, u32), i32>|
            message_func_of_store(f, *old(store)) ==> #[trigger] message_func_of_store(
                f,
                *final(store),
            ),
        forall|f: wasmtime::TypedFunc<(i32, i32), ()>|
            context_func_of_store(f, *old(store)) ==> #[trigger] context_func_of_store(
                f,
                *final(store),
            ),
{
    std::mem::replace(store.data_mut(), replacement)
}

/// Relies on wasmtime::Store::data_mut: stores the given state in the store,
/// dropping what it held.
#[verifier::external_body]
pub fn store_put_state(store: &mut wasmtime::Store<HostState>, state: HostState)
    ensures
        store_held(*final(store)) == registry_view(state.registry@),
        forall|f: wasmtime::TypedFunc<(i32, u32), i32>|
            message_func_of_store(f, *old(store)) ==> #[trigger] message_func_of_store(
                f,
                *final(store),
            ),
        forall|f: wasmtime::TypedFunc<(i32, i32), ()>|
            context_func_of_store(f, *old(store)) ==> #[trigger] context_func_of_store(
                f,
                *final(store),
            ),
{
    *store.data_mut() = state;
}

/// Relies on wasmtime::Instance::get_typed_func: binds the guest export of
/// the given name with the message-received signature (context handle and
/// payload length in, verdict code out), failing if it is missing or typed
/// otherwise. The instance must live in the store: wasmtime documents a
/// panic otherwise. What lives in the store stays in it.
#[verifier::external_body]
pub fn get_message_func(
    instance: &wasmtime::Instance,
    store: &mut wasmtime::Store<HostState>,
    name: &str,
) -> (r: Result<wasmtime::TypedFunc<(i32, u32), i32>, wasmtime::Error>)
    requires
        instance_of_store(*instance, *old(store)),
    ensures
        r is Ok <==> message_export_bound(*instance, name@),
        (r matches Ok(f) ==> message_func_of_store(f, *final(store))),
        forall|i: wasmtime::Instance|
            instance_of_store(i, *old(store)) ==> #[trigger] instance_of_store(
                i,
                *final(store),
            ),
        forall|f: wasmtime::TypedFunc<(i32, u32), i32>|
            message_func_of_store(f, *old(store)) ==> #[trigger] message_func_of_store(
                f,
                *final(store),
            ),
        forall|f: wasmtime::TypedFunc<(i32, i32), ()>|
            context_func_of_store(f, *old(store)) ==> #[trigger] context_func_of_store(
                f,
                *final(store),
            ),
{
    instance.get_typed_func::<(i32, u32), i32>(&mut *store, name)
}

/// Relies on wasmtime::Instance::get_typed_func: binds the guest export of
/// the given name with the context-creation signature (context handle and
/// parent handle in, nothing out), failing if it is missing or typed
/// otherwise. The instance must live in the store: wasmtime documents a
/// panic otherwise. What lives in the store stays in it.
#[verifier::external_body]
pub fn get_context_func(
    instance: &wasmtime::Instance,
    store: &mut wasmtime::Store<HostState>,
    name: &str,
) -> (r: Result<wasmtime::TypedFunc<(i32, i32), ()>, wasmtime::Error>)
    requires
        instance_of_store(*instance, *old(store)),
    ensures
        r is Ok <==> context_export_bound(*instance, name@),
        (r matches Ok(f) ==> context_func_of_store(f, *final(store))),
        forall|i: wasmtime::Instance|
            instance_of_store(i, *old(store)) ==> #[trigger] instance_of_store(
                i,
                *final(store),
            ),
        forall|f: wasmtime::TypedFunc<(i32, u32), i32>|
            message_func_of_store(f, *old(store)) ==> #[trigger] message_func_of_store(
                f,
                *final(store),
            ),
        forall|f: wasmtime::TypedFunc<(i32, i32), ()>|
            context_func_of_store(f, *old(store)) ==> #[trigger] context_func_of_store(
                f,
                *final(store),
            ),
{
    instance.get_typed_func::<(i32, i32), ()>(&mut *store, name)
}

/// Relies on wasmtime::TypedFunc::call: runs the guest's context-creation
/// export, failing on a trap. The function must live in the store: wasmtime
/// documents a panic otherwise. The guest may call any linked host function
/// while it runs, so nothing is stated about the store's held state; what
/// lives in the store stays in it.
#[verifier::external_body]
pub fn call_context_func(
    func: &wasmtime::TypedFunc<(i32, i32), ()>,
    store: &mut wasmtime::Store<HostState>,
    context_id: i32,
    parent_id: i32,
) -> (r: Result<(), wasmtime::Error>)
    requires
        context_func_of_store(*func, *old(store)),
    ensures
        forall|f: wasmtime::TypedFunc<(i32, u32), i32>|
            message_func_of_store(f, *old(store)) ==> #[trigger] message_func_of_store(
                f,
                *final(store),
            ),
        forall|f: wasmtime::TypedFunc<(i32, i32), ()>|
            context_func_of_store(f, *old(store)) ==> #[trigger] context_func_of_store(
                f,
                *final(store),
            ),
{
    func.call(&mut *store, (context_id, parent_id))
}

/// Relies on wasmtime::TypedFunc::call: runs the guest's message-received
/// export and returns the verdict code the guest chose, failing on a trap.
/// The function must live in the store: wasmtime documents a panic
/// otherwise. The guest may call any linked host function while it runs, so
/// nothing is stated about the store's held state or the code; what lives
/// in the store stays in it.
#[verifier::external_body]
pub fn call_message_func(
    func: &wasmtime::TypedFunc<(i32, u32), i32>,
    store: &mut wasmtime::Store<HostState>,
    context_id: i32,
    length: u32,
) -> (r: Result<i32, wasmtime::Error>)
    requires
        message_func_of_store(*func, *old(store)),
    ensures
        forall|f: wasmtime::TypedFunc<(i32, u32), i32>|
            message_func_of_store(f, *old(store)) ==> #[trigger] message_func_of_store(
                f,
                *final(store),
            ),
        forall|f: wasmtime::TypedFunc<(i32, i32), ()>|
            context_func_of_store(f, *old(store)) ==> #[trigger] context_func_of_store(
                f,
                *final(store),
            ),
{
    func.call(&mut *store, (context_id, length))
}

/// Relies on wasmtime::Caller::data: a view of the state the calling store
/// owns.
#[verifier::external_body]
pub fn caller_state<'a, 'b>(caller: &'a wasmtime::Caller<'b, HostState>) -> (r: &'a HostState)
    ensures
        registry_view(r.registry@) == caller_held(*caller),
{
    caller.data()
}

/// Relies on wasmtime::Caller::data_mut and std::mem::replace: hands out the
/// state the calling store owns and leaves the replacement in its place.
#[verifier::external_body]
pub fn caller_take_state(
    caller: &mut wasmtime::Caller<'_, HostState>,
    replacement: HostState,
) -> (r: HostState)
    ensures
        registry_view(r.registry@) == caller_held(*old(caller)),
        caller_held(*final(caller)) == registry_view(replacement.registry@),
        forall|m: wasmtime::Memory|
            memory_of_caller(m, *old(caller)) ==> #[trigger] memory_of_caller(
                m,
                *final(caller),
            ),
{
    std::mem::replace(caller.data_mut(), replacement)
}

/// Relies on wasmtime::Caller::data_mut: stores the given state in the
/// calling store, dropping what it held.
#[verifier::external_body]
pub fn caller_put_state(caller: &mut wasmtime::Caller<'_, HostState>, state: HostState)
    ensures
        caller_held(*final(caller)) == registry_view(state.registry@),
        forall|m: wasmtime::Memory|
            memory_of_caller(m, *old(caller)) ==> #[trigger] memory_of_caller(
                m,
                *final(caller),
            ),
{
    *caller.data_mut() = state;
}

/// Relies on wasmtime::Caller::get_export: the guest's exported memory of the
/// given name, or `None` where the guest exports none (or something else)
/// under that name.
#[verifier::external_body]
pub fn caller_memory(
    caller: &mut wasmtime::Caller<'_, HostState>,
    name: &str,
) -> (r: Option<wasmtime::Memory>)
    ensures
        caller_held(*final(caller)) == caller_held(*old(caller)),
        (r matches Some(m) ==> memory_of_caller(m, *final(caller))),
{
    match caller.get_export(name) {
        Some(wasmtime::Extern::Memory(memory)) => Some(memory),
        _ => None,
    }
}

/// Relies on wasmtime::Memory::write: copies the buffer into the guest's
/// linear memory at the offset, all or nothing — it fails exactly when the
/// range runs past the memory's current size, and on success exactly those
/// bytes change. The memory must live in the calling store: wasmtime
/// documents a panic otherwise. The store's held state is not touched, and
/// the memory stays in the store.
#[verifier::external_body]
pub fn memory_write(
    memory: &wasmtime::Memory,
    caller: &mut wasmtime::Caller<'_, HostState>,
    offset: usize,
    data: &[u8],
) -> (r: Result<(), wasmtime::MemoryAccessError>)
    requires
        memory_of_caller(*memory, *old(caller)),
    ensures
        caller_held(*final(caller)) == caller_held(*old(caller)),
        memory_of_caller(*memory, *final(caller)),
        offset + data@.len() <= memory_bytes(*memory, *old(caller)).len() ==> r is Ok,
        r is Ok ==> offset + data@.len() <= memory_bytes(*memory, *old(caller)).len()
            && memory_bytes(*memory, *final(caller)) == splice(
            memory_bytes(*memory, *old(caller)),
            offset as int,
            data@,
        ),
        r is Err ==> memory_bytes(*memory, *final(caller)) == memory_bytes(
            *memory,
            *old(caller),
        ),
{
    memory.write(&mut *caller, offset, data)
}

/// Relies on wasmtime::Memory::read: copies `length` bytes out of the
/// guest's linear memory at the offset, failing exactly when the range runs
/// past the memory's current size. The memory must live in the calling
/// store: wasmtime documents a panic otherwise.
#[verifier::external_body]
pub fn memory_read(
    memory: &wasmtime::Memory,
    caller: &wasmtime::Caller<'_, HostState>,
    offset: usize,
    length: usize,
) -> (r: Result<Vec<u8>, wasmtime::MemoryAccessError>)
    requires
        memory_of_caller(*memory, *caller),
    ensures
        offset + length <= memory_bytes(*memory, *caller).len() ==> r is Ok,
        (r matches Ok(data) ==> offset + length <= memory_bytes(*memory, *caller).len()
            && data@ == memory_bytes(*memory, *caller).subrange(
            offset as int,
            offset + length,
        )),
{
    let mut data = vec![0u8; length];
    match memory.read(&*caller, offset, &mut data) {
        Ok(()) => Ok(data),
        Err(e) => Err(e),
    }
}

/// Relies on wasmtime::Error::msg: an engine error carrying the given text,
/// used to raise a trap out of a host function.
#[verifier::external_body]
pub fn trap_message(text: &str) -> wasmtime::Error {
    wasmtime::Error::msg(format!("{}", text))
}

/// Relies on the Display impl of wasmtime::Error: its human-readable
/// diagnostic.
#[verifier::external_body]
pub fn error_text(error: &wasmtime::Error) -> String {
    format!("{}", error)
}

} // verus!
