//! The trusted boundary to the `rdkafka` transport library.
//!
//! Everything the library asks of the broker goes through the items of
//! this module: handle types that hold the transport's objects opaquely,
//! and thin wrappers around the transport calls.  Each wrapper's contract
//! states no more than the transport's own source shows; what a call's
//! outcome means for the library is decided by verified code in the
//! consumer and producer modules.

use vstd::prelude::*;

use core::time::Duration;

use rdkafka::config::ClientConfig;
use rdkafka::consumer::{BaseConsumer, Consumer};
use rdkafka::error::KafkaError;
use rdkafka::message::{Header, Headers, Message, OwnedHeaders};
use rdkafka::producer::{BaseProducer, BaseRecord, DefaultProducerContext, Producer,
    ThreadedProducer};

use crate::utils::{WireHeader, WireMessage, WireRecord};

verus! {

#[verifier::external_type_specification]
#[verifier::external_body]
pub struct ExKafkaError(KafkaError);

/// A transport client configuration under construction; holds the
/// outside configuration object, opaque to the verifier.
#[verifier::external_body]
pub struct TransportConfig {
    inner: ClientConfig,
}

/// A connected, broker-backed consumer handle.
#[verifier::external_body]
pub struct ConsumerHandle {
    inner: BaseConsumer,
}

/// A buffered producer handle: sends are enqueued and delivery events are
/// served by explicit polling.
#[verifier::external_body]
pub struct BufferedProducerHandle {
    inner: BaseProducer,
}

/// A background-threaded producer handle: a worker thread of the
/// transport polls for delivery events automatically.
#[verifier::external_body]
pub struct ThreadedProducerHandle {
    inner: ThreadedProducer<DefaultProducerContext>,
}

/// The options held by a transport client configuration, as a map from
/// option name to option value.
pub uninterp spec fn client_config_entries(config: TransportConfig) -> Map<Seq<char>, Seq<char>>;

/// The option map of a freshly created client configuration: no options.
pub open spec fn no_options() -> Map<Seq<char>, Seq<char>> {
    Map::empty()
}

/// Relies on `ClientConfig::new`: a new configuration holds no options.
#[verifier::external_body]
pub(crate) fn client_config_new() -> (r: TransportConfig)
    ensures
        client_config_entries(r) == no_options(),
{
    TransportConfig { inner: ClientConfig::new() }
}

/// Relies on `ClientConfig::set`: the option is stored verbatim in the
/// configuration's map, overriding an existing value under the same name.
#[verifier::external_body]
pub(crate) fn client_config_set(config: &mut TransportConfig, key: &str, value: &str)
    ensures
        client_config_entries(*final(config)) == client_config_entries(*old(config)).insert(
            key@,
            value@,
        ),
{
    config.inner.set(key, value);
}

/// Relies on `KafkaError`'s `Display` implementation: the underlying
/// cause of a transport error, as text.
#[verifier::external_body]
pub(crate) fn kafka_error_text(error: &KafkaError) -> String {
    error.to_string()
}

/// Relies on `ClientConfig::create`: builds a consumer per the
/// configuration; whether creation succeeds is the transport's decision.
#[verifier::external_body]
pub(crate) fn create_base_consumer(config: &TransportConfig) -> Result<
    ConsumerHandle,
    KafkaError,
> {
    config.inner.create().map(|consumer: BaseConsumer| ConsumerHandle { inner: consumer })
}

/// True when the text holds no NUL character.  The transport represents
/// topic names as C strings, so a name with an interior NUL cannot be
/// handed to it.
pub open spec fn nul_free(s: Seq<char>) -> bool {
    forall|i: int| 0 <= i < s.len() ==> s[i] != '\0'
}

/// The views of a sequence of borrowed strings.
pub open spec fn str_views(topics: Seq<&str>) -> Seq<Seq<char>> {
    topics.map_values(|t: &str| t@)
}

/// The views of a sequence of owned strings.
pub open spec fn string_views(topics: Seq<String>) -> Seq<Seq<char>> {
    topics.map_values(|t: String| t@)
}

/// The set of names in a sequence of topic names.
pub open spec fn topic_set(names: Seq<Seq<char>>) -> Set<Seq<char>> {
    Set::new(|k: Seq<char>| names.contains(k))
}

/// The set of topics a consumer handle is subscribed to.
pub uninterp spec fn consumer_subscription(consumer: ConsumerHandle) -> Set<Seq<char>>;

/// Relies on `Consumer::subscribe`: on success the consumer's
/// subscription is replaced by exactly the given topics; whether
/// subscription succeeds is the transport's decision.  Topic names must
/// be free of NUL characters: the transport converts each to a C string
/// and does not return on one that cannot be.
#[verifier::external_body]
pub(crate) fn consumer_subscribe(consumer: &mut ConsumerHandle, topics: &[&str]) -> (r: Result<
    (),
    KafkaError,
>)
    requires
        forall|i: int| 0 <= i < topics@.len() ==> nul_free(topics@[i]@),
    ensures
        r is Ok ==> consumer_subscription(*final(consumer)) == topic_set(str_views(topics@)),
{
    consumer.inner.subscribe(topics)
}

/// Relies on `BaseConsumer::poll` and the `Message` accessors: polls the
/// broker once, copying payload, key and header bytes out of the received
/// message; `None` means the poll timed out with no message.
#[verifier::external_body]
pub(crate) fn consumer_poll(consumer: &ConsumerHandle, timeout: Option<Duration>) -> Option<
    Result<WireMessage, KafkaError>,
> {
    let message = match consumer.inner.poll(timeout) {
        None => return None,
        Some(Err(e)) => return Some(Err(e)),
        Some(Ok(m)) => m,
    };
    Some(Ok(WireMessage {
        payload: message.payload().map(<[u8]>::to_vec),
        key: message.key().map(<[u8]>::to_vec),
        headers: message.headers().map(|hs| hs.iter().map(|h| WireHeader {
            key: h.key.to_owned(),
            value: h.value.map(<[u8]>::to_vec),
        }).collect()),
    }))
}

/// Relies on `ClientConfig::create`: builds a buffered producer per the
/// configuration; whether creation succeeds is the transport's decision.
#[verifier::external_body]
pub(crate) fn create_base_producer(config: &TransportConfig) -> Result<
    BufferedProducerHandle,
    KafkaError,
> {
    config.inner.create().map(|producer: BaseProducer| BufferedProducerHandle { inner: producer })
}

/// Relies on `ClientConfig::create`: builds a background-threaded
/// producer per the configuration.
#[verifier::external_body]
pub(crate) fn create_threaded_producer(config: &TransportConfig) -> Result<
    ThreadedProducerHandle,
    KafkaError,
> {
    config.inner.create().map(
        |producer: ThreadedProducer<DefaultProducerContext>| ThreadedProducerHandle {
            inner: producer,
        },
    )
}

/// Relies on `BaseProducer::send` and the record builders: enqueues one
/// record built from the wire record's topic, payload, key and headers.
#[verifier::external_body]
pub(crate) fn base_producer_send(producer: &BufferedProducerHandle, record: &WireRecord) -> Result<
    (),
    KafkaError,
> {
    let mut rec: BaseRecord<[u8], [u8]> = BaseRecord::to(&record.topic).payload(&record.payload);
    if let Some(key) = &record.key {
        rec = rec.key(key);
    }
    if let Some(headers) = &record.headers {
        let mut encoded = OwnedHeaders::new();
        for h in headers {
            encoded = encoded.insert(Header { key: &h.key, value: h.value.as_deref() });
        }
        rec = rec.headers(encoded);
    }
    producer.inner.send(rec).map_err(|(e, _)| e)
}

/// Relies on `ThreadedProducer::send` and the record builders: enqueues
/// one record built from the wire record's topic, payload, key and
/// headers; the producer's own thread polls for delivery events.
#[verifier::external_body]
pub(crate) fn threaded_producer_send(
    producer: &ThreadedProducerHandle,
    record: &WireRecord,
) -> Result<(), KafkaError> {
    let mut rec: BaseRecord<[u8], [u8]> = BaseRecord::to(&record.topic).payload(&record.payload);
    if let Some(key) = &record.key {
        rec = rec.key(key);
    }
    if let Some(headers) = &record.headers {
        let mut encoded = OwnedHeaders::new();
        for h in headers {
            encoded = encoded.insert(Header { key: &h.key, value: h.value.as_deref() });
        }
        rec = rec.headers(encoded);
    }
    producer.inner.send(rec).map_err(|(e, _)| e)
}

/// Relies on `BaseProducer::poll`: serves queued delivery events for up
/// to the given timeout.
#[verifier::external_body]
pub(crate) fn base_producer_poll(producer: &BufferedProducerHandle, timeout: Option<Duration>) {
    producer.inner.poll(timeout);
}

/// Relies on `Producer::flush` of the buffered producer: blocks until the
/// send buffer drains or the timeout elapses, polling internally.
#[verifier::external_body]
pub(crate) fn base_producer_flush(
    producer: &BufferedProducerHandle,
    timeout: Option<Duration>,
) -> Result<(), KafkaError> {
    producer.inner.flush(timeout)
}

/// Relies on `Producer::flush` of the background-threaded producer:
/// blocks until the send buffer drains or the timeout elapses.
#[verifier::external_body]
pub(crate) fn threaded_producer_flush(
    producer: &ThreadedProducerHandle,
    timeout: Option<Duration>,
) -> Result<(), KafkaError> {
    producer.inner.flush(timeout)
}

} // verus!
