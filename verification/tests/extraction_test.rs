use libkafka::error::LibKafkaError;
use libkafka::string_map::StringMap;
use libkafka::utils::{extract_message, WireHeader, WireMessage};
use libkafka::KafkaMessage;

#[test]
fn test_extract_message_payload_only() {
    let wire = WireMessage { payload: Some(b"abc".to_vec()), key: None, headers: None };
    let expected = KafkaMessage { headers: None, key: None, payload: "abc".to_string() };
    assert_eq!(extract_message(&wire).unwrap(), expected);
}

#[test]
fn test_extract_message_full() {
    let wire = WireMessage {
        payload: Some(b"body".to_vec()),
        key: Some(b"k1".to_vec()),
        headers: Some(vec![WireHeader { key: "h1".to_string(), value: Some(b"v1".to_vec()) }]),
    };
    let message = extract_message(&wire).unwrap();
    assert_eq!(message.payload, "body");
    assert_eq!(message.key.as_deref(), Some("k1"));
    let headers = message.headers.unwrap();
    assert_eq!(headers.len(), 1);
    assert_eq!(headers.get("h1").unwrap(), "v1");
}

#[test]
fn test_extract_message_empty_payload_is_valid() {
    let wire = WireMessage { payload: Some(Vec::new()), key: None, headers: None };
    let message = extract_message(&wire).unwrap();
    assert_eq!(message.payload, "");
}

#[test]
fn test_extract_message_absent_payload() {
    let wire = WireMessage { payload: None, key: None, headers: None };
    assert_eq!(extract_message(&wire), Err(LibKafkaError::EmptyMsgError));
}

#[test]
fn test_extract_message_invalid_payload() {
    let wire = WireMessage { payload: Some(vec![0xc0, 0x00]), key: None, headers: None };
    assert_eq!(extract_message(&wire), Err(LibKafkaError::Utf8FormatError));
}

#[test]
fn test_extract_message_invalid_key_propagates() {
    let wire = WireMessage {
        payload: Some(b"fine".to_vec()),
        key: Some(vec![0xff]),
        headers: Some(vec![WireHeader { key: "h".to_string(), value: Some(b"v".to_vec()) }]),
    };
    assert_eq!(extract_message(&wire), Err(LibKafkaError::Utf8FormatError));
}

#[test]
fn test_extract_message_invalid_header_does_not_propagate() {
    let wire = WireMessage {
        payload: Some(b"fine".to_vec()),
        key: None,
        headers: Some(vec![
            WireHeader { key: "good".to_string(), value: Some(b"v".to_vec()) },
            WireHeader { key: "bad".to_string(), value: Some(vec![0xff]) },
        ]),
    };
    let message = extract_message(&wire).unwrap();
    let headers = message.headers.unwrap();
    assert_eq!(headers.len(), 1);
    assert_eq!(headers.get("good").unwrap(), "v");
}

#[test]
fn test_extract_message_empty_header_list_stays_present() {
    let wire = WireMessage { payload: Some(b"p".to_vec()), key: None, headers: Some(Vec::new()) };
    let message = extract_message(&wire).unwrap();
    assert_eq!(message.headers, Some(StringMap::new()));
}

#[test]
fn test_extract_message_absent_headers_stay_absent() {
    let wire = WireMessage { payload: Some(b"p".to_vec()), key: None, headers: None };
    let message = extract_message(&wire).unwrap();
    assert_eq!(message.headers, None);
}
