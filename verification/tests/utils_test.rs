use libkafka::string_map::StringMap;
use libkafka::utils::{headers_to_map, map_to_header, WireHeader};

#[test]
fn test_headers_to_map() {
    let headers = vec![
        WireHeader { key: "test1".to_string(), value: Some(b"test1".to_vec()) },
        WireHeader { key: "test2".to_string(), value: Some(b"test2".to_vec()) },
    ];

    let mut expected = StringMap::new();
    expected.insert("test1".to_string(), "test1".to_string());
    expected.insert("test2".to_string(), "test2".to_string());

    let map = headers_to_map(&headers).unwrap();
    assert_eq!(map, expected);
}

#[test]
fn test_map_to_header() {
    let expected = vec![
        WireHeader { key: "test".to_string(), value: Some(b"test".to_vec()) },
        WireHeader { key: "test2".to_string(), value: Some(b"test2".to_vec()) },
    ];
    let mut input = StringMap::new();
    input.insert("test".to_string(), "test".to_string());
    input.insert("test2".to_string(), "test2".to_string());

    let headers = map_to_header(&input);
    assert_eq!(headers, expected);
}

#[test]
fn test_headers_round_trip() {
    let mut input = StringMap::new();
    input.insert("content-type".to_string(), "text/plain".to_string());
    input.insert("trace".to_string(), "abc123".to_string());
    input.insert("empty".to_string(), String::new());

    let wire = map_to_header(&input);
    let decoded = headers_to_map(&wire).unwrap();
    assert_eq!(decoded, input);
}

#[test]
fn test_headers_round_trip_empty_mapping() {
    let input = StringMap::new();
    let wire = map_to_header(&input);
    assert!(wire.is_empty());
    let decoded = headers_to_map(&wire).unwrap();
    assert_eq!(decoded, input);
}

#[test]
fn test_headers_to_map_skips_invalid_entry() {
    let headers = vec![
        WireHeader { key: "a".to_string(), value: Some(b"1".to_vec()) },
        WireHeader { key: "bad".to_string(), value: Some(vec![0xff, 0xfe]) },
        WireHeader { key: "c".to_string(), value: Some(b"3".to_vec()) },
    ];
    let map = headers_to_map(&headers).unwrap();
    assert_eq!(map.len(), 2);
    assert_eq!(map.get("a").unwrap(), "1");
    assert_eq!(map.get("c").unwrap(), "3");
    assert!(map.get("bad").is_none());
}

#[test]
fn test_headers_to_map_skips_entry_without_value() {
    let headers = vec![
        WireHeader { key: "present".to_string(), value: Some(b"v".to_vec()) },
        WireHeader { key: "absent".to_string(), value: None },
    ];
    let map = headers_to_map(&headers).unwrap();
    assert_eq!(map.len(), 1);
    assert!(map.get("absent").is_none());
}

#[test]
fn test_headers_to_map_later_entry_overrides() {
    let headers = vec![
        WireHeader { key: "k".to_string(), value: Some(b"first".to_vec()) },
        WireHeader { key: "k".to_string(), value: Some(b"second".to_vec()) },
    ];
    let map = headers_to_map(&headers).unwrap();
    assert_eq!(map.len(), 1);
    assert_eq!(map.get("k").unwrap(), "second");
}
