//! The host-callable surface a guest imports: payload accessors, the clock
//! read, the output-setter, and the reserved tick-period call. The engine
//! calls the `host_*` entry points, each a thin shim that fetches the guest
//! memory and hands everything else to a verified function whose contract
//! states the effect on the held registry and the guest memory. A missing
//! memory export or an out-of-bounds access is fatal to the call: the
//! function raises a trap rather than silently truncating.

use vstd::prelude::*;

use crate::clock::le_bytes_of_i64;
use crate::clock::now_nanos;
use crate::clock::spec_le_bytes;
use crate::errors::HostError;
use crate::errors::startup_error;
use crate::registry::HostState;
use crate::verdict::Status;
use crate::verdict::spec_status_code;
use crate::wasm::caller_held;
use crate::wasm::caller_memory;
use crate::wasm::caller_put_state;
use crate::wasm::caller_state;
use crate::wasm::caller_take_state;
use crate::wasm::linker_defs;
use crate::wasm::linker_engine;
use crate::wasm::memory_of_caller;
use crate::wasm::memory_bytes;
use crate::wasm::memory_read;
use crate::wasm::memory_write;
use crate::wasm::splice;
use crate::wasm::trap_message;

verus! {

/// The single context handle under which the one in-flight message of an
/// instance is registered.
pub const ACTIVE_HANDLE: u32 = 1;

/// Every payload accessor the guest can import (log, log-level, message
/// body, buffer bytes, property): a trap if the guest exports no memory,
/// else `copy_payload_into`.
pub fn host_copy_payload(
    mut caller: wasmtime::Caller<'_, HostState>,
    offset: i32,
    _length: i32,
) -> Result<(), wasmtime::Error> {
    let memory = match caller_memory(&mut caller, "memory") {
        Some(memory) => memory,
        None => {
            return Err(trap_message("no memory exported from wasm module"));
        },
    };
    copy_payload_into(&memory, &mut caller, offset)
}

/// Writes the payload of the active message into guest memory at the
/// offset. With no message registered under the active handle it is a
/// complete no-op; with one, a negative offset or an out-of-bounds write is
/// a trap that changes nothing. The held registry is never modified, and
/// the length the guest passed plays no part.
pub fn copy_payload_into(
    memory: &wasmtime::Memory,
    caller: &mut wasmtime::Caller<'_, HostState>,
    offset: i32,
) -> (r: Result<(), wasmtime::Error>)
    requires
        memory_of_caller(*memory, *old(caller)),
    ensures
        caller_held(*final(caller)) == caller_held(*old(caller)),
        (caller_held(*old(caller)).contains_key(ACTIVE_HANDLE) && offset >= 0 && offset
            + caller_held(*old(caller))[ACTIVE_HANDLE].0.len() <= memory_bytes(
            *memory,
            *old(caller),
        ).len()) ==> r is Ok,
        !caller_held(*old(caller)).contains_key(ACTIVE_HANDLE) ==> (r is Ok && memory_bytes(
            *memory,
            *final(caller),
        ) == memory_bytes(*memory, *old(caller))),
        (caller_held(*old(caller)).contains_key(ACTIVE_HANDLE) && offset < 0) ==> r is Err,
        (caller_held(*old(caller)).contains_key(ACTIVE_HANDLE) && r is Ok) ==> ({
            let payload = caller_held(*old(caller))[ACTIVE_HANDLE].0;
            &&& offset >= 0
            &&& offset + payload.len() <= memory_bytes(*memory, *old(caller)).len()
            &&& memory_bytes(*memory, *final(caller)) == splice(
                memory_bytes(*memory, *old(caller)),
                offset as int,
                payload,
            )
        }),
        r is Err ==> memory_bytes(*memory, *final(caller)) == memory_bytes(
            *memory,
            *old(caller),
        ),
{
    let payload = match caller_state(caller).registry.payload_for(ACTIVE_HANDLE) {
        Some(payload) => payload,
        None => {
            return Ok(());
        },
    };
    if offset < 0 {
        return Err(trap_message("payload write offset out of range"));
    }
    match memory_write(memory, caller, offset as usize, payload.as_slice()) {
        Ok(()) => Ok(()),
        Err(_) => Err(trap_message("unable to write payload into guest memory")),
    }
}

/// The output-setter the guest can import: a trap if the guest exports no
/// memory, else `set_output_from`.
pub fn host_set_output(
    mut caller: wasmtime::Caller<'_, HostState>,
    offset: i32,
    length: i32,
) -> Result<(), wasmtime::Error> {
    let memory = match caller_memory(&mut caller, "memory") {
        Some(memory) => memory,
        None => {
            return Err(trap_message("no memory exported from wasm module"));
        },
    };
    set_output_from(&memory, &mut caller, offset, length)
}

/// Reads `length` bytes from guest memory at `offset` and stores them as
/// the response slot of the active message, overwriting any earlier
/// response (last write wins); with no active message the registry is left
/// as it was. A negative offset or length, or a read past the memory's end,
/// is a trap, and then the registry is untouched.
pub fn set_output_from(
    memory: &wasmtime::Memory,
    caller: &mut wasmtime::Caller<'_, HostState>,
    offset: i32,
    length: i32,
) -> (r: Result<(), wasmtime::Error>)
    requires
        memory_of_caller(*memory, *old(caller)),
    ensures
        (offset < 0 || length < 0) ==> r is Err,
        (offset >= 0 && length >= 0 && offset + length <= memory_bytes(
            *memory,
            *old(caller),
        ).len()) ==> r is Ok,
        r is Err ==> caller_held(*final(caller)) == caller_held(*old(caller)),
        r is Ok ==> ({
            let held = caller_held(*old(caller));
            let mem = memory_bytes(*memory, *old(caller));
            let data = mem.subrange(offset as int, offset + length);
            &&& offset >= 0
            &&& length >= 0
            &&& offset + length <= mem.len()
            &&& (held.contains_key(ACTIVE_HANDLE) ==> caller_held(*final(caller))
                == held.insert(ACTIVE_HANDLE, (held[ACTIVE_HANDLE].0, Some(data))))
            &&& (!held.contains_key(ACTIVE_HANDLE) ==> caller_held(*final(caller)) == held)
        }),
{
    if offset < 0 || length < 0 {
        return Err(trap_message("response read range out of range"));
    }
    let data = match memory_read(memory, caller, offset as usize, length as usize) {
        Ok(data) => data,
        Err(_) => {
            return Err(trap_message("unable to read response from guest memory"));
        },
    };
    let mut state = caller_take_state(caller, HostState::new());
    let ghost taken = state.registry@;
    state.registry.save_response(ACTIVE_HANDLE, data);
    proof {
        if taken.contains_key(ACTIVE_HANDLE) {
            crate::registry::lemma_registry_view_insert(
                taken,
                ACTIVE_HANDLE,
                (crate::message::MessageContext {
                    message: taken[ACTIVE_HANDLE].message,
                    response: Some(data),
                }),
            );
        }
    }
    caller_put_state(caller, state);
    Ok(())
}

/// The clock read the guest can import: a trap if the guest exports no
/// memory, else `write_time` on the clock's reading.
pub fn host_current_time(
    mut caller: wasmtime::Caller<'_, HostState>,
    return_at: i64,
) -> Result<i32, wasmtime::Error> {
    let memory = match caller_memory(&mut caller, "memory") {
        Some(memory) => memory,
        None => {
            return Err(trap_message("no memory exported from wasm module"));
        },
    };
    let nanos = now_nanos();
    write_time(&memory, &mut caller, return_at, nanos)
}

/// Writes a clock reading into guest memory as nanoseconds since the epoch,
/// little-endian two's complement, 8 bytes, at the given offset, and
/// returns the `Success` status code; a reading the clock could not yield
/// is reported as `InternalFailure`, writing nothing. A negative offset or
/// an out-of-bounds write is a trap. The held registry is never touched.
pub fn write_time(
    memory: &wasmtime::Memory,
    caller: &mut wasmtime::Caller<'_, HostState>,
    return_at: i64,
    nanos: Option<i64>,
) -> (r: Result<i32, wasmtime::Error>)
    requires
        memory_of_caller(*memory, *old(caller)),
    ensures
        caller_held(*final(caller)) == caller_held(*old(caller)),
        (return_at < 0 || return_at as int > usize::MAX as int) ==> r is Err,
        (0 <= return_at && return_at as int <= usize::MAX as int && nanos is None) ==> (r
            == Ok::<i32, wasmtime::Error>(spec_status_code(Status::InternalFailure))
            && memory_bytes(*memory, *final(caller)) == memory_bytes(*memory, *old(caller))),
        (nanos matches Some(t) ==> ((0 <= return_at && r is Ok) ==> (r == Ok::<
            i32,
            wasmtime::Error,
        >(spec_status_code(Status::Success)) && memory_bytes(*memory, *final(caller)) == splice(
            memory_bytes(*memory, *old(caller)),
            return_at as int,
            spec_le_bytes(t),
        )))),
        (nanos is Some && 0 <= return_at && return_at as int <= usize::MAX as int && return_at
            as int + 8 <= memory_bytes(*memory, *old(caller)).len()) ==> r is Ok,
        r is Err ==> memory_bytes(*memory, *final(caller)) == memory_bytes(
            *memory,
            *old(caller),
        ),
{
    if return_at < 0 {
        return Err(trap_message("timestamp write offset out of range"));
    }
    if return_at as u64 > usize::MAX as u64 {
        return Err(trap_message("timestamp write offset out of range"));
    }
    match nanos {
        Some(t) => {
            let bytes = le_bytes_of_i64(t);
            match memory_write(memory, caller, return_at as usize, bytes.as_slice()) {
                Ok(()) => Ok(Status::Success.code()),
                Err(_) => Err(trap_message("unable to write timestamp in nanoseconds")),
            }
        },
        None => Ok(Status::InternalFailure.code()),
    }
}

/// The reserved tick-period call: periodic callbacks are not implemented, so
/// calling it is fatal to the guest call.
pub fn host_set_tick_period(
    _caller: wasmtime::Caller<'_, HostState>,
    _interval: u64,
) -> (r: Result<(), wasmtime::Error>)
    ensures
        r is Err,
{
    Err(trap_message("set_tick_period_milliseconds is not implemented"))
}

/// Relies on wasmtime::Linker::func_wrap: registers `host_copy_payload`
/// under the given import name: it fails only on a name already defined
/// (shadowing is off; allocation failure aside), on success the definitions
/// grew by exactly that name, on failure they are unchanged — so the guest
/// reaches only that verified function through it.
#[verifier::external_body]
pub fn link_payload_accessor(
    linker: &mut wasmtime::Linker<HostState>,
    module: &str,
    name: &str,
) -> (r: Result<(), wasmtime::Error>)
    ensures
        r is Ok ==> linker_defs(*final(linker)) == linker_defs(*old(linker)).insert(
            (module@, name@),
        ),
        r is Err ==> linker_defs(*final(linker)) == linker_defs(*old(linker)),
        !linker_defs(*old(linker)).contains((module@, name@)) ==> r is Ok,
        linker_engine(*final(linker)) == linker_engine(*old(linker)),
{
    match linker.func_wrap(module, name, host_copy_payload) {
        Ok(_) => Ok(()),
        Err(e) => Err(e),
    }
}

/// Relies on wasmtime::Linker::func_wrap: registers `host_set_output`
/// under the given import name: it fails only on a name already defined
/// (shadowing is off; allocation failure aside), on success the definitions
/// grew by exactly that name, on failure they are unchanged — so the guest
/// reaches only that verified function through it.
#[verifier::external_body]
pub fn link_set_output(
    linker: &mut wasmtime::Linker<HostState>,
    module: &str,
    name: &str,
) -> (r: Result<(), wasmtime::Error>)
    ensures
        r is Ok ==> linker_defs(*final(linker)) == linker_defs(*old(linker)).insert(
            (module@, name@),
        ),
        r is Err ==> linker_defs(*final(linker)) == linker_defs(*old(linker)),
        !linker_defs(*old(linker)).contains((module@, name@)) ==> r is Ok,
        linker_engine(*final(linker)) == linker_engine(*old(linker)),
{
    match linker.func_wrap(module, name, host_set_output) {
        Ok(_) => Ok(()),
        Err(e) => Err(e),
    }
}

/// Relies on wasmtime::Linker::func_wrap: registers `host_current_time`
/// under the given import name: it fails only on a name already defined
/// (shadowing is off; allocation failure aside), on success the definitions
/// grew by exactly that name, on failure they are unchanged — so the guest
/// reaches only that verified function through it.
#[verifier::external_body]
pub fn link_current_time(
    linker: &mut wasmtime::Linker<HostState>,
    module: &str,
    name: &str,
) -> (r: Result<(), wasmtime::Error>)
    ensures
        r is Ok ==> linker_defs(*final(linker)) == linker_defs(*old(linker)).insert(
            (module@, name@),
        ),
        r is Err ==> linker_defs(*final(linker)) == linker_defs(*old(linker)),
        !linker_defs(*old(linker)).contains((module@, name@)) ==> r is Ok,
        linker_engine(*final(linker)) == linker_engine(*old(linker)),
{
    match linker.func_wrap(module, name, host_current_time) {
        Ok(_) => Ok(()),
        Err(e) => Err(e),
    }
}

/// Relies on wasmtime::Linker::func_wrap: registers `host_set_tick_period`
/// under the given import name: it fails only on a name already defined
/// (shadowing is off; allocation failure aside), on success the definitions
/// grew by exactly that name, on failure they are unchanged — so the guest
/// reaches only that verified function through it.
#[verifier::external_body]
pub fn link_set_tick_period(
    linker: &mut wasmtime::Linker<HostState>,
    module: &str,
    name: &str,
) -> (r: Result<(), wasmtime::Error>)
    ensures
        r is Ok ==> linker_defs(*final(linker)) == linker_defs(*old(linker)).insert(
            (module@, name@),
        ),
        r is Err ==> linker_defs(*final(linker)) == linker_defs(*old(linker)),
        !linker_defs(*old(linker)).contains((module@, name@)) ==> r is Ok,
        linker_engine(*final(linker)) == linker_engine(*old(linker)),
{
    match linker.func_wrap(module, name, host_set_tick_period) {
        Ok(_) => Ok(()),
        Err(e) => Err(e),
    }
}

/// The eight host import names under a namespace: everything a guest may
/// import from the host.
pub open spec fn host_imports(ns: Seq<char>) -> Set<(Seq<char>, Seq<char>)> {
    Set::empty().insert((ns, "proxy_log"@)).insert((ns, "proxy_get_log_level"@)).insert(
        (ns, "proxy_get_current_time_nanoseconds"@),
    ).insert((ns, "proxy_set_tick_period_milliseconds"@)).insert((ns, "proxy_set_output"@)).insert(
        (ns, "proxy_get_message_body"@),
    ).insert((ns, "proxy_get_buffer_bytes"@)).insert((ns, "proxy_get_property"@))
}

/// Links all eight host functions the guest may import, each under its
/// fixed name in the given host module namespace: on a linker that defines
/// nothing yet this succeeds, and on success the definitions grew by
/// exactly those eight names. Every payload accessor resolves to the same
/// verified payload copy.
pub fn link_host_functions(
    linker: &mut wasmtime::Linker<HostState>,
    host_module: &str,
) -> (r: Result<(), HostError>)
    ensures
        (r matches Err(e) ==> e is Startup),
        r is Ok ==> linker_defs(*final(linker)) == linker_defs(*old(linker)).insert(
            (host_module@, "proxy_log"@),
        ).insert((host_module@, "proxy_get_log_level"@)).insert(
            (host_module@, "proxy_get_current_time_nanoseconds"@),
        ).insert((host_module@, "proxy_set_tick_period_milliseconds"@)).insert(
            (host_module@, "proxy_set_output"@),
        ).insert((host_module@, "proxy_get_message_body"@)).insert(
            (host_module@, "proxy_get_buffer_bytes"@),
        ).insert((host_module@, "proxy_get_property"@)),
        linker_defs(*old(linker)) == Set::<(Seq<char>, Seq<char>)>::empty() ==> r is Ok,
        linker_engine(*final(linker)) == linker_engine(*old(linker)),
{
    proof {
        reveal_strlit("proxy_log");
        reveal_strlit("proxy_get_log_level");
        reveal_strlit("proxy_get_current_time_nanoseconds");
        reveal_strlit("proxy_set_tick_period_milliseconds");
        reveal_strlit("proxy_set_output");
        reveal_strlit("proxy_get_message_body");
        reveal_strlit("proxy_get_buffer_bytes");
        reveal_strlit("proxy_get_property");
        assert("proxy_log"@ != "proxy_get_log_level"@) by {
            assert("proxy_log"@.len() != "proxy_get_log_level"@.len());
        }
        assert("proxy_log"@ != "proxy_get_current_time_nanoseconds"@) by {
            assert("proxy_log"@.len() != "proxy_get_current_time_nanoseconds"@.len());
        }
        assert("proxy_log"@ != "proxy_set_tick_period_milliseconds"@) by {
            assert("proxy_log"@.len() != "proxy_set_tick_period_milliseconds"@.len());
        }
        assert("proxy_log"@ != "proxy_set_output"@) by {
            assert("proxy_log"@.len() != "proxy_set_output"@.len());
        }
        assert("proxy_log"@ != "proxy_get_message_body"@) by {
            assert("proxy_log"@.len() != "proxy_get_message_body"@.len());
        }
        assert("proxy_log"@ != "proxy_get_buffer_bytes"@) by {
            assert("proxy_log"@.len() != "proxy_get_buffer_bytes"@.len());
        }
        assert("proxy_log"@ != "proxy_get_property"@) by {
            assert("proxy_log"@.len() != "proxy_get_property"@.len());
        }
        assert("proxy_get_log_level"@ != "proxy_get_current_time_nanoseconds"@) by {
            assert("proxy_get_log_level"@.len() != "proxy_get_current_time_nanoseconds"@.len());
        }
        assert("proxy_get_log_level"@ != "proxy_set_tick_period_milliseconds"@) by {
            assert("proxy_get_log_level"@.len() != "proxy_set_tick_period_milliseconds"@.len());
        }
        assert("proxy_get_log_level"@ != "proxy_set_output"@) by {
            assert("proxy_get_log_level"@.len() != "proxy_set_output"@.len());
        }
        assert("proxy_get_log_level"@ != "proxy_get_message_body"@) by {
            assert("proxy_get_log_level"@.len() != "proxy_get_message_body"@.len());
        }
        assert("proxy_get_log_level"@ != "proxy_get_buffer_bytes"@) by {
            assert("proxy_get_log_level"@.len() != "proxy_get_buffer_bytes"@.len());
        }
        assert("proxy_get_log_level"@ != "proxy_get_property"@) by {
            assert("proxy_get_log_level"@.len() != "proxy_get_property"@.len());
        }
        assert("proxy_get_current_time_nanoseconds"@ != "proxy_set_tick_period_milliseconds"@) by {
            assert("proxy_get_current_time_nanoseconds"@[6] != "proxy_set_tick_period_milliseconds"@[6]);
        }
        assert("proxy_get_current_time_nanoseconds"@ != "proxy_set_output"@) by {
            assert("proxy_get_current_time_nanoseconds"@.len() != "proxy_set_output"@.len());
        }
        assert("proxy_get_current_time_nanoseconds"@ != "proxy_get_message_body"@) by {
            assert("proxy_get_current_time_nanoseconds"@.len() != "proxy_get_message_body"@.len());
        }
        assert("proxy_get_current_time_nanoseconds"@ != "proxy_get_buffer_bytes"@) by {
            assert("proxy_get_current_time_nanoseconds"@.len() != "proxy_get_buffer_bytes"@.len());
        }
        assert("proxy_get_current_time_nanoseconds"@ != "proxy_get_property"@) by {
            assert("proxy_get_current_time_nanoseconds"@.len() != "proxy_get_property"@.len());
        }
        assert("proxy_set_tick_period_milliseconds"@ != "proxy_set_output"@) by {
            assert("proxy_set_tick_period_milliseconds"@.len() != "proxy_set_output"@.len());
        }
        assert("proxy_set_tick_period_milliseconds"@ != "proxy_get_message_body"@) by {
            assert("proxy_set_tick_period_milliseconds"@.len() != "proxy_get_message_body"@.len());
        }
        assert("proxy_set_tick_period_milliseconds"@ != "proxy_get_buffer_bytes"@) by {
            assert("proxy_set_tick_period_milliseconds"@.len() != "proxy_get_buffer_bytes"@.len());
        }
        assert("proxy_set_tick_period_milliseconds"@ != "proxy_get_property"@) by {
            assert("proxy_set_tick_period_milliseconds"@.len() != "proxy_get_property"@.len());
        }
        assert("proxy_set_output"@ != "proxy_get_message_body"@) by {
            assert("proxy_set_output"@.len() != "proxy_get_message_body"@.len());
        }
        assert("proxy_set_output"@ != "proxy_get_buffer_bytes"@) by {
            assert("proxy_set_output"@.len() != "proxy_get_buffer_bytes"@.len());
        }
        assert("proxy_set_output"@ != "proxy_get_property"@) by {
            assert("proxy_set_output"@.len() != "proxy_get_property"@.len());
        }
        assert("proxy_get_message_body"@ != "proxy_get_buffer_bytes"@) by {
            assert("proxy_get_message_body"@[10] != "proxy_get_buffer_bytes"@[10]);
        }
        assert("proxy_get_message_body"@ != "proxy_get_property"@) by {
            assert("proxy_get_message_body"@.len() != "proxy_get_property"@.len());
        }
        assert("proxy_get_buffer_bytes"@ != "proxy_get_property"@) by {
            assert("proxy_get_buffer_bytes"@.len() != "proxy_get_property"@.len());
        }
    }
    match link_payload_accessor(linker, host_module, "proxy_log") {
        Ok(()) => (),
        Err(e) => {
            return Err(startup_error(&e));
        },
    }
    match link_payload_accessor(linker, host_module, "proxy_get_log_level") {
        Ok(()) => (),
        Err(e) => {
            return Err(startup_error(&e));
        },
    }
    match link_current_time(linker, host_module, "proxy_get_current_time_nanoseconds") {
        Ok(()) => (),
        Err(e) => {
            return Err(startup_error(&e));
        },
    }
    match link_set_tick_period(linker, host_module, "proxy_set_tick_period_milliseconds") {
        Ok(()) => (),
        Err(e) => {
            return Err(startup_error(&e));
        },
    }
    match link_set_output(linker, host_module, "proxy_set_output") {
        Ok(()) => (),
        Err(e) => {
            return Err(startup_error(&e));
        },
    }
    match link_payload_accessor(linker, host_module, "proxy_get_message_body") {
        Ok(()) => (),
        Err(e) => {
            return Err(startup_error(&e));
        },
    }
    match link_payload_accessor(linker, host_module, "proxy_get_buffer_bytes") {
        Ok(()) => (),
        Err(e) => {
            return Err(startup_error(&e));
        },
    }
    match link_payload_accessor(linker, host_module, "proxy_get_property") {
        Ok(()) => (),
        Err(e) => {
            return Err(startup_error(&e));
        },
    }
    Ok(())
}

} // verus!
