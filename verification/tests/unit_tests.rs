use kafka_delta_ingest_wasm::HostError;
use kafka_delta_ingest_wasm::MessageContext;
use kafka_delta_ingest_wasm::MessageEnvelope;
use kafka_delta_ingest_wasm::MessageRegistry;
use kafka_delta_ingest_wasm::Status;
use kafka_delta_ingest_wasm::Timestamp;
use kafka_delta_ingest_wasm::Verdict;
use kafka_delta_ingest_wasm::conclude;
use kafka_delta_ingest_wasm::le_bytes_of_i64;
use serde_json::Value;

fn envelope(payload: Vec<u8>) -> MessageEnvelope {
    MessageEnvelope::new(
        payload,
        Some("key".as_bytes().to_vec()),
        "topic".to_string(),
        Timestamp::CreateTime(12),
        3,
        77,
        None,
    )
}

#[test]
fn verdict_decoding_recognizes_the_mapping() {
    assert_eq!(Verdict::from_code(0), Verdict::Use);
    assert_eq!(Verdict::from_code(1), Verdict::Replace);
}

#[test]
fn verdict_decoding_defaults_to_use() {
    assert_eq!(Verdict::from_code(2), Verdict::Use);
    assert_eq!(Verdict::from_code(999), Verdict::Use);
    assert_eq!(Verdict::from_code(-3), Verdict::Use);
    assert_eq!(Verdict::from_code(i32::MAX), Verdict::Use);
}

#[test]
fn status_codes_are_stable() {
    assert_eq!(Status::Success.code(), 0);
    assert_eq!(Status::InternalFailure.code(), 10);
}

#[test]
fn conclude_use_returns_no_output_without_parsing() {
    // The payload is not valid JSON; a `Use` verdict must not even try it.
    let context = MessageContext::new(envelope(vec![5, 4, 3, 2, 1]));
    let result = conclude(Verdict::Use, context).unwrap();
    assert!(result.is_none());
}

#[test]
fn conclude_replace_prefers_the_response_slot() {
    let mut context = MessageContext::new(envelope("{\"original\":1}".as_bytes().to_vec()));
    context.response = Some("{\"replaced\":2}".as_bytes().to_vec());
    let result = conclude(Verdict::Replace, context).unwrap().unwrap();
    let mut expected_map = serde_json::Map::new();
    expected_map.insert("replaced".to_string(), Value::from(2u8));
    assert_eq!(result, Value::Object(expected_map));
}

#[test]
fn conclude_replace_falls_back_to_the_payload() {
    let context = MessageContext::new(envelope("{\"original\":1}".as_bytes().to_vec()));
    let result = conclude(Verdict::Replace, context).unwrap().unwrap();
    let mut expected_map = serde_json::Map::new();
    expected_map.insert("original".to_string(), Value::from(1u8));
    assert_eq!(result, Value::Object(expected_map));
}

#[test]
fn conclude_replace_with_invalid_bytes_is_json_error() {
    let mut context = MessageContext::new(envelope("{\"original\":1}".as_bytes().to_vec()));
    context.response = Some(vec![0xff, 0x00]);
    match conclude(Verdict::Replace, context) {
        Err(HostError::Json { .. }) => {}
        _ => panic!("invalid response bytes should surface a json error"),
    }
}

#[test]
fn le_bytes_encode_least_significant_first() {
    assert_eq!(le_bytes_of_i64(0), vec![0u8; 8]);
    assert_eq!(le_bytes_of_i64(1), vec![1, 0, 0, 0, 0, 0, 0, 0]);
    assert_eq!(le_bytes_of_i64(258), vec![2, 1, 0, 0, 0, 0, 0, 0]);
    let sample: i64 = 1_000_000_444;
    assert_eq!(le_bytes_of_i64(sample), sample.to_le_bytes().to_vec());
    assert_eq!(le_bytes_of_i64(i64::MAX), i64::MAX.to_le_bytes().to_vec());
}

#[test]
fn le_bytes_encode_negative_values_in_twos_complement() {
    assert_eq!(le_bytes_of_i64(-1), vec![0xff; 8]);
    let sample: i64 = -1_000_000_444;
    assert_eq!(le_bytes_of_i64(sample), sample.to_le_bytes().to_vec());
    assert_eq!(le_bytes_of_i64(i64::MIN), i64::MIN.to_le_bytes().to_vec());
}

#[test]
fn conclude_parses_exactly_the_selected_bytes() {
    let mut context = MessageContext::new(envelope(vec![1]));
    context.response = Some("[1,2]".as_bytes().to_vec());
    let result = conclude(Verdict::Replace, context).unwrap().unwrap();
    assert_eq!(result, Value::Array(vec![Value::from(1u8), Value::from(2u8)]));
}

#[test]
fn registry_pairs_insertion_and_removal() {
    let mut registry = MessageRegistry::new();
    registry.add_message(1, envelope(vec![9, 8, 7]));
    let removed = registry.remove_message(1).expect("the handle should be present");
    assert_eq!(removed.message.payload, vec![9, 8, 7]);
    assert!(removed.response.is_none());
    assert!(registry.remove_message(1).is_none());
}

#[test]
fn registry_saves_the_last_response() {
    let mut registry = MessageRegistry::new();
    registry.add_message(1, envelope(vec![1]));
    registry.save_response(1, vec![10]);
    registry.save_response(1, vec![20, 21]);
    let removed = registry.remove_message(1).unwrap();
    assert_eq!(removed.response, Some(vec![20, 21]));
}

#[test]
fn registry_ignores_responses_for_absent_handles() {
    let mut registry = MessageRegistry::new();
    registry.save_response(1, vec![10]);
    assert!(registry.remove_message(1).is_none());
}

#[test]
fn registry_payload_for_copies_the_active_payload() {
    let mut registry = MessageRegistry::new();
    assert!(registry.payload_for(1).is_none());
    registry.add_message(1, envelope(vec![3, 1, 4]));
    assert_eq!(registry.payload_for(1), Some(vec![3, 1, 4]));
}

#[test]
fn envelope_and_context_keep_their_parts() {
    let message = envelope(vec![1, 2]);
    assert_eq!(message.payload, vec![1, 2]);
    assert_eq!(message.key, Some("key".as_bytes().to_vec()));
    assert_eq!(message.topic, "topic".to_string());
    assert_eq!(message.timestamp, Timestamp::CreateTime(12));
    assert_eq!(message.partition, 3);
    assert_eq!(message.offset, 77);
    assert!(message.headers.is_none());
    let context = MessageContext::new(message);
    assert!(context.response.is_none());
}
