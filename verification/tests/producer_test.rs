use std::time::Duration;

use libkafka::consumer::{KafkaConsumer, PollOutcome};
use libkafka::producer::{default_config, generate_base_message, wire_of_record, KafkaProducer,
    ProducerMode};
use libkafka::string_map::StringMap;
use libkafka::KafkaMessage;

#[test]
fn producer_test_base_consumer_new() {
    KafkaProducer::new(&default_config("test"), "test", ProducerMode::Buffered).unwrap();
}

#[test]
fn test_base_consumer_produce() {
    let message = KafkaMessage { payload: "test".to_owned(), key: None, headers: None };
    let producer = KafkaProducer::new(&default_config("test"), "test", ProducerMode::Buffered)
        .unwrap();
    producer.produce(message).unwrap();
    producer.poll(Some(Duration::from_secs(0)));
}

#[test]
fn test_threaded_consumer_new() {
    KafkaProducer::new(&default_config("test"), "test", ProducerMode::Threaded).unwrap();
}

#[test]
fn test_threaded_consumer_produce() {
    let message = KafkaMessage { payload: "test".to_owned(), key: None, headers: None };
    let producer = KafkaProducer::new(&default_config("test"), "test", ProducerMode::Threaded)
        .unwrap();
    producer.produce(message).unwrap();
}

#[test]
fn test_producer_default_config() {
    let config = default_config("broker:9092");
    assert_eq!(config.get("bootstrap.servers").unwrap(), "broker:9092");
    assert_eq!(config.len(), 1);
}

#[test]
fn test_generate_base_message_marshalling() {
    let mut headers = StringMap::new();
    headers.insert("h1".to_string(), "v1".to_string());
    let message = KafkaMessage {
        headers: Some(headers),
        key: Some("k1".to_string()),
        payload: "x".to_string(),
    };
    let record = generate_base_message(&message, "topic");
    assert_eq!(record.topic, "topic");
    assert_eq!(record.payload, b"x".to_vec());
    assert_eq!(record.key, Some(b"k1".to_vec()));
    let wire_headers = record.headers.unwrap();
    assert_eq!(wire_headers.len(), 1);
    assert_eq!(wire_headers[0].key, "h1");
    assert_eq!(wire_headers[0].value, Some(b"v1".to_vec()));
}

#[test]
fn test_produce_consume_round_trip_plain() {
    let message = KafkaMessage { payload: "abc".to_string(), key: None, headers: None };
    let record = generate_base_message(&message, "T");
    let consumer = KafkaConsumer::scripted(PollOutcome::Deliver(wire_of_record(record)));
    let received = consumer.consume(None).unwrap().unwrap();
    assert_eq!(received, message);
}

#[test]
fn test_produce_consume_round_trip_with_metadata() {
    let mut headers = StringMap::new();
    headers.insert("h1".to_string(), "v1".to_string());
    let message = KafkaMessage {
        headers: Some(headers),
        key: Some("k1".to_string()),
        payload: "x".to_string(),
    };
    let record = generate_base_message(&message, "T");
    let consumer = KafkaConsumer::scripted(PollOutcome::Deliver(wire_of_record(record)));
    let received = consumer.consume(None).unwrap().unwrap();
    assert_eq!(received.payload, "x");
    assert_eq!(received.key.as_deref(), Some("k1"));
    let received_headers = received.headers.unwrap();
    assert_eq!(received_headers.len(), 1);
    assert_eq!(received_headers.get("h1").unwrap(), "v1");
}

#[test]
fn test_producer_new_connection_error() {
    let mut config = default_config("test");
    config.insert("definitely.not.a.known.option".to_string(), "1".to_string());
    let outcome = KafkaProducer::new(&config, "test", ProducerMode::Buffered);
    assert!(matches!(outcome, Err(libkafka::error::LibKafkaError::ConnectionError(_))));
}

#[test]
fn test_produce_delivery_error_on_oversized_message() {
    let mut config = default_config("test");
    config.insert("message.max.bytes".to_string(), "1000".to_string());
    let producer = KafkaProducer::new(&config, "test", ProducerMode::Buffered).unwrap();
    let message = KafkaMessage { payload: "x".repeat(100_000), key: None, headers: None };
    let outcome = producer.produce(message);
    assert!(matches!(outcome, Err(libkafka::error::LibKafkaError::DeliveryError(_))));
}
