use std::time::Duration;

use libkafka::consumer::{default_config, KafkaConsumer, PollOutcome};
use libkafka::error::LibKafkaError;
use libkafka::utils::WireMessage;
use libkafka::KafkaMessage;

#[test]
fn consumer_test_base_consumer_new() {
    KafkaConsumer::new(&default_config("test", "test"), &["test".to_string()]).unwrap();
}

#[test]
fn test_base_consumer_consume() {
    let expected = KafkaMessage { headers: None, key: None, payload: "debug".to_owned() };
    let consumer = KafkaConsumer::scripted(PollOutcome::Deliver(WireMessage {
        payload: Some(b"debug".to_vec()),
        key: None,
        headers: None,
    }));
    let message = consumer.consume(Some(Duration::from_millis(0))).unwrap();
    assert_eq!(message.unwrap(), expected)
}

#[test]
fn test_consume_timeout_yields_ok_none() {
    let consumer = KafkaConsumer::scripted(PollOutcome::Empty);
    let outcome = consumer.consume(Some(Duration::from_millis(0)));
    assert_eq!(outcome, Ok(None));
}

#[test]
fn test_consume_transport_fault_yields_error() {
    let consumer = KafkaConsumer::scripted(PollOutcome::Fault("broker unreachable".to_string()));
    let outcome = consumer.consume(None);
    assert_eq!(outcome, Err(LibKafkaError::RDKafkaError("broker unreachable".to_string())));
}

#[test]
fn test_consume_extraction_fault_drops_message() {
    let consumer = KafkaConsumer::scripted(PollOutcome::Deliver(WireMessage {
        payload: None,
        key: None,
        headers: None,
    }));
    let outcome = consumer.consume(None);
    assert_eq!(outcome, Err(LibKafkaError::EmptyMsgError));
}

#[test]
fn test_default_config_contents() {
    let config = default_config("broker:9092", "grp");
    assert_eq!(config.get("bootstrap.servers").unwrap(), "broker:9092");
    assert_eq!(config.get("group.id").unwrap(), "grp_ID");
    assert_eq!(config.get("session.timeout.ms").unwrap(), "6000");
    assert_eq!(config.get("enable.partition.eof").unwrap(), "false");
    assert_eq!(config.get("enable.auto.commit").unwrap(), "true");
    assert_eq!(config.get("auto.offset.reset").unwrap(), "earliest");
    assert_eq!(config.len(), 6);
}

#[test]
fn test_default_config_caller_overrides() {
    let mut config = default_config("broker:9092", "grp");
    config.insert("group.id".to_string(), "custom".to_string());
    assert_eq!(config.get("group.id").unwrap(), "custom");
    assert_eq!(config.len(), 6);
}

#[test]
fn test_consumer_new_connection_error() {
    let mut config = default_config("test", "test");
    config.insert("definitely.not.a.known.option".to_string(), "1".to_string());
    let outcome = KafkaConsumer::new(&config, &["test".to_string()]);
    assert!(matches!(outcome, Err(LibKafkaError::ConnectionError(_))));
}

#[test]
fn test_consumer_new_subscription_error() {
    let outcome = KafkaConsumer::new(&default_config("test", "test"), &[]);
    assert!(matches!(outcome, Err(LibKafkaError::SubscriptionError(_))));
}
