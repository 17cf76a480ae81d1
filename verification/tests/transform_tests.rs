use kafka_delta_ingest_wasm::HostError;
use kafka_delta_ingest_wasm::MessageEnvelope;
use kafka_delta_ingest_wasm::Timestamp;
use kafka_delta_ingest_wasm::WasmTransformer;
use serde_json::Value;

/// A guest that reads the message body and echoes `{"ok":true}` through the
/// output-setter, returning a replace verdict.
const ECHO_GUEST: &str = r#"
(module
  (import "host" "proxy_get_message_body" (func $body (param i32 i32)))
  (import "host" "proxy_set_output" (func $out (param i32 i32)))
  (memory (export "memory") 1)
  (data (i32.const 64) "{\22ok\22:true}")
  (func (export "proxy_on_context_create") (param i32 i32))
  (func (export "proxy_on_message_received") (param i32 i32) (result i32)
    (call $body (i32.const 0) (local.get 1))
    (call $out (i32.const 64) (i32.const 11))
    (i32.const 1)))
"#;

/// A guest that always answers with the use-original verdict.
const IGNORE_GUEST: &str = r#"
(module
  (memory (export "memory") 1)
  (func (export "proxy_on_context_create") (param i32 i32))
  (func (export "proxy_on_message_received") (param i32 i32) (result i32)
    (i32.const 0)))
"#;

/// A guest that answers with a verdict code outside the recognized mapping.
const UNRECOGNIZED_GUEST: &str = r#"
(module
  (memory (export "memory") 1)
  (func (export "proxy_on_context_create") (param i32 i32))
  (func (export "proxy_on_message_received") (param i32 i32) (result i32)
    (i32.const 999)))
"#;

/// A guest that asks for a replacement but never sets an output.
const SILENT_REPLACE_GUEST: &str = r#"
(module
  (memory (export "memory") 1)
  (func (export "proxy_on_context_create") (param i32 i32))
  (func (export "proxy_on_message_received") (param i32 i32) (result i32)
    (i32.const 1)))
"#;

/// A guest that calls the reserved tick-period function.
const TICK_GUEST: &str = r#"
(module
  (import "host" "proxy_set_tick_period_milliseconds" (func $tick (param i64)))
  (memory (export "memory") 1)
  (func (export "proxy_on_context_create") (param i32 i32))
  (func (export "proxy_on_message_received") (param i32 i32) (result i32)
    (call $tick (i64.const 5))
    (i32.const 0)))
"#;

/// A guest that reads the clock into its memory and passes the message on.
const CLOCK_GUEST: &str = r#"
(module
  (import "host" "proxy_get_current_time_nanoseconds" (func $clock (param i64) (result i32)))
  (memory (export "memory") 1)
  (func (export "proxy_on_context_create") (param i32 i32))
  (func (export "proxy_on_message_received") (param i32 i32) (result i32)
    (call $clock (i64.const 128))
    drop
    (i32.const 0)))
"#;

/// A guest that asks for the clock at a negative offset.
const NEGATIVE_CLOCK_GUEST: &str = r#"
(module
  (import "host" "proxy_get_current_time_nanoseconds" (func $clock (param i64) (result i32)))
  (memory (export "memory") 1)
  (func (export "proxy_on_context_create") (param i32 i32))
  (func (export "proxy_on_message_received") (param i32 i32) (result i32)
    (call $clock (i64.const -1))
    drop
    (i32.const 0)))
"#;

/// A guest importing a name outside the host-callable surface.
const BOGUS_IMPORT_GUEST: &str = r#"
(module
  (import "host" "proxy_bogus" (func $bogus (param i32)))
  (memory (export "memory") 1)
  (func (export "proxy_on_context_create") (param i32 i32))
  (func (export "proxy_on_message_received") (param i32 i32) (result i32)
    (i32.const 0)))
"#;

/// A guest that touches every aliased payload accessor and passes the
/// original payload on as the result.
const ALIASED_ACCESSORS_GUEST: &str = r#"
(module
  (import "host" "proxy_log" (func $log (param i32 i32)))
  (import "host" "proxy_get_log_level" (func $level (param i32 i32)))
  (import "host" "proxy_get_buffer_bytes" (func $buffer (param i32 i32)))
  (import "host" "proxy_get_property" (func $property (param i32 i32)))
  (memory (export "memory") 1)
  (func (export "proxy_on_context_create") (param i32 i32))
  (func (export "proxy_on_message_received") (param i32 i32) (result i32)
    (call $log (i32.const 0) (local.get 1))
    (call $level (i32.const 0) (local.get 1))
    (call $buffer (i32.const 0) (local.get 1))
    (call $property (i32.const 0) (local.get 1))
    (i32.const 1)))
"#;

/// A guest that calls an accessor without exporting any memory.
const NO_MEMORY_GUEST: &str = r#"
(module
  (import "host" "proxy_log" (func $log (param i32 i32)))
  (func (export "proxy_on_context_create") (param i32 i32))
  (func (export "proxy_on_message_received") (param i32 i32) (result i32)
    (call $log (i32.const 0) (local.get 1))
    (i32.const 0)))
"#;

/// A guest missing the message-received export.
const MISSING_EXPORT_GUEST: &str = r#"
(module
  (memory (export "memory") 1)
  (func (export "proxy_on_context_create") (param i32 i32)))
"#;

fn sample_message(payload: Vec<u8>) -> MessageEnvelope {
    MessageEnvelope::new(
        payload,
        Some("test.into".as_bytes().to_vec()),
        "test".to_string(),
        Timestamp::NotAvailable,
        0,
        0,
        Some(Vec::new()),
    )
}

#[test]
fn proxy_sample_keep() {
    let ctx = WasmTransformer::try_from_bytes(ECHO_GUEST.as_bytes())
        .expect("failed to load wat file");
    let message = sample_message(vec![5, 4, 3, 2, 1]);
    let mut slot = None;
    let result = ctx.process(&mut slot, message).unwrap();
    let content = result.expect("content should return");
    match content {
        Value::Object(_) => {}
        _ => panic!("should have returned an object"),
    }
}

#[test]
fn proxy_sample_ignore() {
    let ctx = WasmTransformer::try_from_bytes(IGNORE_GUEST.as_bytes())
        .expect("failed to load wat file");
    let message = sample_message(vec![5, 4, 3, 2, 1]);
    let mut slot = None;
    if ctx.process(&mut slot, message).unwrap().is_some() {
        panic!("response should be none")
    }
}

#[test]
fn echo_guest_returns_expected_object() {
    let ctx = WasmTransformer::try_from_bytes(ECHO_GUEST.as_bytes()).unwrap();
    let message = sample_message(vec![5, 4, 3, 2, 1]);
    let mut slot = None;
    let content = ctx.process(&mut slot, message).unwrap().unwrap();
    let mut expected_map = serde_json::Map::new();
    expected_map.insert("ok".to_string(), Value::Bool(true));
    assert_eq!(content, Value::Object(expected_map));
}

#[test]
fn one_instance_serves_repeated_messages() {
    let ctx = WasmTransformer::try_from_bytes(ECHO_GUEST.as_bytes()).unwrap();
    let mut slot = None;
    let first = ctx.process(&mut slot, sample_message(vec![5, 4, 3, 2, 1])).unwrap();
    let second = ctx.process(&mut slot, sample_message(vec![1, 2, 3])).unwrap();
    assert!(slot.is_some());
    assert_eq!(first, second);
}

#[test]
fn two_slots_process_the_same_bytes_to_the_same_result() {
    let ctx = WasmTransformer::try_from_bytes(ECHO_GUEST.as_bytes()).unwrap();
    let mut first_slot = None;
    let mut second_slot = None;
    let first = ctx.process(&mut first_slot, sample_message(vec![5, 4, 3, 2, 1])).unwrap();
    let second = ctx.process(&mut second_slot, sample_message(vec![5, 4, 3, 2, 1])).unwrap();
    assert_eq!(first, second);
    assert!(first.is_some());
}

#[test]
fn unrecognized_verdict_code_defaults_to_use() {
    let ctx = WasmTransformer::try_from_bytes(UNRECOGNIZED_GUEST.as_bytes()).unwrap();
    let message = sample_message(vec![5, 4, 3, 2, 1]);
    let mut slot = None;
    assert!(ctx.process(&mut slot, message).unwrap().is_none());
}

#[test]
fn replace_without_output_parses_original_payload() {
    let ctx = WasmTransformer::try_from_bytes(SILENT_REPLACE_GUEST.as_bytes()).unwrap();
    let message = sample_message("[5,4,3,2,1]".as_bytes().to_vec());
    let mut slot = None;
    let content = ctx.process(&mut slot, message).unwrap().unwrap();
    let expected = Value::Array(vec![
        Value::from(5u8),
        Value::from(4u8),
        Value::from(3u8),
        Value::from(2u8),
        Value::from(1u8),
    ]);
    assert_eq!(content, expected);
}

#[test]
fn malformed_result_bytes_surface_json_error() {
    let ctx = WasmTransformer::try_from_bytes(SILENT_REPLACE_GUEST.as_bytes()).unwrap();
    let message = sample_message(vec![5, 4, 3, 2, 1]);
    let mut slot = None;
    match ctx.process(&mut slot, message) {
        Err(HostError::Json { .. }) => {}
        _ => panic!("invalid result bytes should surface a json error"),
    }
}

#[test]
fn tick_period_call_is_fatal_to_the_call() {
    let ctx = WasmTransformer::try_from_bytes(TICK_GUEST.as_bytes()).unwrap();
    let message = sample_message(vec![1]);
    let mut slot = None;
    match ctx.process(&mut slot, message) {
        Err(HostError::Runtime { .. }) => {}
        _ => panic!("the reserved tick-period call should trap"),
    }
}

#[test]
fn clock_guest_passes_message_through() {
    let ctx = WasmTransformer::try_from_bytes(CLOCK_GUEST.as_bytes()).unwrap();
    let message = sample_message(vec![1]);
    let mut slot = None;
    assert!(ctx.process(&mut slot, message).unwrap().is_none());
}

#[test]
fn aliased_accessors_share_the_payload_copy() {
    let ctx = WasmTransformer::try_from_bytes(ALIASED_ACCESSORS_GUEST.as_bytes()).unwrap();
    let message = sample_message("[7]".as_bytes().to_vec());
    let mut slot = None;
    let content = ctx.process(&mut slot, message).unwrap().unwrap();
    assert_eq!(content, Value::Array(vec![Value::from(7u8)]));
}

#[test]
fn missing_memory_export_is_fatal_to_the_call() {
    let ctx = WasmTransformer::try_from_bytes(NO_MEMORY_GUEST.as_bytes()).unwrap();
    let message = sample_message(vec![1]);
    let mut slot = None;
    match ctx.process(&mut slot, message) {
        Err(HostError::Runtime { .. }) => {}
        _ => panic!("an accessor without a memory export should trap"),
    }
}

#[test]
fn clock_with_negative_offset_traps() {
    let ctx = WasmTransformer::try_from_bytes(NEGATIVE_CLOCK_GUEST.as_bytes()).unwrap();
    let message = sample_message(vec![1]);
    let mut slot = None;
    match ctx.process(&mut slot, message) {
        Err(HostError::Runtime { .. }) => {}
        _ => panic!("a negative clock offset should trap"),
    }
}

#[test]
fn malformed_module_is_startup_error() {
    match WasmTransformer::try_from_bytes("not a module".as_bytes()) {
        Err(HostError::Startup { .. }) => {}
        _ => panic!("malformed module bytes should fail compilation"),
    }
}

#[test]
fn unknown_import_is_startup_error() {
    let ctx = WasmTransformer::try_from_bytes(BOGUS_IMPORT_GUEST.as_bytes()).unwrap();
    match ctx.new_wasm_host() {
        Err(HostError::Startup { .. }) => {}
        _ => panic!("an import outside the host surface should fail instantiation"),
    }
}

#[test]
fn missing_export_is_startup_error() {
    let ctx = WasmTransformer::try_from_bytes(MISSING_EXPORT_GUEST.as_bytes()).unwrap();
    match ctx.new_wasm_host() {
        Err(HostError::Startup { .. }) => {}
        _ => panic!("a missing required export should fail instance construction"),
    }
}
