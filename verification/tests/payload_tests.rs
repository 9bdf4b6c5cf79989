use temporal_sdk::payload::{MetadataEntry, Payload, PayloadDecodeError};

fn entry(key: &str, value: &[u8]) -> MetadataEntry {
    MetadataEntry { key: key.to_string(), value: value.to_vec() }
}

#[test]
fn json_payload_is_marked_json_plain() {
    let p = Payload::json(b"{\"one\":\"one\",\"two\":42}".to_vec());
    assert_eq!(p.metadata, vec![entry("encoding", b"json/plain")]);
    assert_eq!(p.data, b"{\"one\":\"one\",\"two\":42}".to_vec());
}

#[test]
fn json_payload_roundtrip_gives_back_the_bytes() {
    let bytes = b"[\"hello\",7]".to_vec();
    let p = Payload::json(bytes.clone());
    assert_eq!(p.json_data(), Ok(&bytes));
}

#[test]
fn json_payload_roundtrip_of_empty_data() {
    let p = Payload::json(Vec::new());
    assert_eq!(p.json_data(), Ok(&Vec::new()));
}

#[test]
fn default_payload_is_not_json() {
    let p = Payload::default();
    assert!(p.metadata.is_empty());
    assert!(p.data.is_empty());
    assert_eq!(p.json_data(), Err(PayloadDecodeError::DeserializerDoesNotHandle));
}

#[test]
fn other_encoding_is_refused() {
    let p = Payload { metadata: vec![entry("encoding", b"binary/plain")], data: b"abc".to_vec() };
    assert_eq!(p.json_data(), Err(PayloadDecodeError::DeserializerDoesNotHandle));
}

#[test]
fn encoding_prefix_is_refused() {
    let p = Payload { metadata: vec![entry("encoding", b"json")], data: b"1".to_vec() };
    assert_eq!(p.json_data(), Err(PayloadDecodeError::DeserializerDoesNotHandle));
}

#[test]
fn json_marker_under_another_key_is_refused() {
    let p = Payload { metadata: vec![entry("encodingx", b"json/plain")], data: b"1".to_vec() };
    assert_eq!(p.json_data(), Err(PayloadDecodeError::DeserializerDoesNotHandle));
}

#[test]
fn json_marker_after_other_entries_is_found() {
    let p = Payload {
        metadata: vec![entry("messageType", b"x"), entry("encoding", b"json/plain")],
        data: b"true".to_vec(),
    };
    assert_eq!(p.json_data(), Ok(&b"true".to_vec()));
}

#[test]
fn first_entry_of_a_key_counts() {
    let p = Payload {
        metadata: vec![entry("encoding", b"binary/plain"), entry("encoding", b"json/plain")],
        data: b"1".to_vec(),
    };
    assert_eq!(p.metadata_value(&"encoding".to_string()), Some(&b"binary/plain".to_vec()));
    assert_eq!(p.json_data(), Err(PayloadDecodeError::DeserializerDoesNotHandle));
}

#[test]
fn metadata_value_of_missing_key_is_none() {
    let p = Payload::json(b"1".to_vec());
    assert_eq!(p.metadata_value(&"messageType".to_string()), None);
    assert_eq!(p.metadata_value(&"encoding".to_string()), Some(&b"json/plain".to_vec()));
}

#[test]
fn json_payload_holds_each_key_once() {
    let p = Payload::json(b"{}".to_vec());
    for (i, a) in p.metadata.iter().enumerate() {
        for (j, b) in p.metadata.iter().enumerate() {
            if i != j {
                assert_ne!(a.key, b.key);
            }
        }
    }
    for e in &p.metadata {
        assert_eq!(p.metadata_value(&e.key), Some(&e.value));
    }
}
