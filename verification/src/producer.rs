//! The producer: sends application messages to a topic, in one of two
//! delivery modes behind a single interface.
//!
//! A buffered producer enqueues into an internal send buffer and returns
//! immediately; delivery callbacks are served by explicit [`KafkaProducer::poll`]
//! calls, and [`KafkaProducer::flush`] drains the buffer before shutdown.
//! A background-threaded producer is polled automatically by a worker
//! thread of the transport, so only `flush` remains meaningful.  Every
//! mode marshals the message the same way: payload bytes from the text
//! payload, key bytes when a key is present, encoded headers when a
//! header mapping is present.

use vstd::prelude::*;

use core::time::Duration;

use vstd::slice::slice_to_vec;
use vstd::utf8::{encode_utf8, encode_utf8_decode_utf8, encode_utf8_valid_utf8};

use crate::consumer::build_client_config;
use crate::error::{ErrorView, LibKafkaError};
use crate::string_map::StringMap;
use crate::transport::{base_producer_flush, base_producer_poll, base_producer_send,
    create_base_producer, create_threaded_producer, kafka_error_text, threaded_producer_flush,
    threaded_producer_send, BufferedProducerHandle, ThreadedProducerHandle};
use crate::utils::{extract_spec, map_to_header, WireMessage, WireMessageView, WireRecord,
    WireRecordView};
use crate::{KafkaMessage, MessageView};

verus! {

/// The configuration mapping that [`default_config`] generates: only the
/// broker address.
pub open spec fn default_config_spec(broker: Seq<char>) -> Map<Seq<char>, Seq<char>> {
    Map::empty().insert("bootstrap.servers"@, broker)
}

/// Generates a simple producer configuration: the broker address alone.
pub fn default_config(broker: &str) -> (r: StringMap)
    ensures
        r.wf(),
        r@ == default_config_spec(broker@),
        r@["bootstrap.servers"@] == broker@,
{
    let mut config = StringMap::new();
    config.insert(String::from_str("bootstrap.servers"), String::from_str(broker));
    config
}

/// True when the wire record is the correct marshalling of the message to
/// the topic: payload bytes encode the text payload, key bytes encode a
/// present key and are absent otherwise, and a present header mapping is
/// encoded so that decoding restores it, an absent one stays absent.
pub open spec fn marshals(m: MessageView, topic: Seq<char>, r: WireRecordView) -> bool {
    &&& r.topic == topic
    &&& r.payload == encode_utf8(m.payload)
    &&& match (m.key, r.key) {
        (Some(k), Some(kb)) => kb == encode_utf8(k),
        (None, None) => true,
        _ => false,
    }
    &&& match (m.headers, r.headers) {
        (Some(h), Some(hs)) => crate::utils::decoded_headers(hs) == h,
        (None, None) => true,
        _ => false,
    }
}

/// Builds the wire record for a message: the marshalling shared by every
/// producer variant.
pub fn generate_base_message(data: &KafkaMessage, topic: &str) -> (r: WireRecord)
    requires
        data.wf(),
    ensures
        marshals(data@, topic@, r@),
{
    let payload = slice_to_vec(data.payload.as_str().as_bytes());
    let key = match &data.key {
        Some(k) => Some(slice_to_vec(k.as_str().as_bytes())),
        None => None,
    };
    let headers = match &data.headers {
        Some(h) => Some(map_to_header(h)),
        None => None,
    };
    WireRecord { topic: String::from_str(topic), payload, key, headers }
}

/// The wire message a consumer receives when the broker delivers a
/// produced record verbatim: the record's payload, key and headers, with
/// the payload now present on the receiving side.
pub open spec fn record_as_wire(r: WireRecordView) -> WireMessageView {
    WireMessageView { payload: Some(r.payload), key: r.key, headers: r.headers }
}

/// Reinterprets a produced wire record as the wire message a consumer
/// would receive when the broker delivers the record verbatim.
pub fn wire_of_record(record: WireRecord) -> (r: WireMessage)
    ensures
        r@ == record_as_wire(record@),
{
    WireMessage { payload: Some(record.payload), key: record.key, headers: record.headers }
}

/// End-to-end round trip: a message marshalled by a produce call and
/// delivered verbatim by the broker extracts back to an equal message —
/// same payload, same key, same header mapping.
pub proof fn lemma_produce_extract_round_trip(m: MessageView, topic: Seq<char>, r: WireRecordView)
    requires
        marshals(m, topic, r),
    ensures
        extract_spec(record_as_wire(r)) == Ok::<MessageView, ErrorView>(m),
{
    encode_utf8_valid_utf8(m.payload);
    encode_utf8_decode_utf8(m.payload);
    match m.key {
        Some(k) => {
            encode_utf8_valid_utf8(k);
            encode_utf8_decode_utf8(k);
        },
        None => {},
    }
    assert(extract_spec(record_as_wire(r)) =~~= Ok::<MessageView, ErrorView>(m));
}

/// The transport behind a producer: a buffered handle polled explicitly,
/// or a background-threaded handle polled by the transport's own worker
/// thread.
pub enum ProducerTransport {
    Buffered(BufferedProducerHandle),
    Threaded(ThreadedProducerHandle),
}

/// The delivery mode a producer is created in.
#[derive(Debug, PartialEq, Eq, Clone, Copy)]
pub enum ProducerMode {
    /// Sends are buffered; the caller polls for delivery callbacks.
    Buffered,
    /// A worker thread polls automatically; callers never poll.
    Threaded,
}

/// A producer bound to one topic.
pub struct KafkaProducer {
    pub transport: ProducerTransport,
    pub topic: String,
}

impl KafkaProducer {
    /// The delivery mode of this producer.
    pub open spec fn mode_spec(&self) -> ProducerMode {
        match self.transport {
            ProducerTransport::Buffered(_) => ProducerMode::Buffered,
            ProducerTransport::Threaded(_) => ProducerMode::Threaded,
        }
    }

    /// Creates a new producer from the given config and topic name, in
    /// the requested delivery mode.
    pub fn new(config: &StringMap, topic_name: &str, mode: ProducerMode) -> (r: Result<
        KafkaProducer,
        LibKafkaError,
    >)
        requires
            config.wf(),
        ensures
            r matches Ok(p) ==> p.topic@ == topic_name@ && p.mode_spec() == mode,
            r matches Err(e) ==> e is ConnectionError,
    {
        let client_config = build_client_config(config);
        let transport = match mode {
            ProducerMode::Buffered => match create_base_producer(&client_config) {
                Ok(p) => ProducerTransport::Buffered(p),
                Err(e) => {
                    return Err(LibKafkaError::ConnectionError(kafka_error_text(&e)));
                },
            },
            ProducerMode::Threaded => match create_threaded_producer(&client_config) {
                Ok(p) => ProducerTransport::Threaded(p),
                Err(e) => {
                    return Err(LibKafkaError::ConnectionError(kafka_error_text(&e)));
                },
            },
        };
        Ok(KafkaProducer { transport, topic: String::from_str(topic_name) })
    }

    /// Puts a new message in the producer's memory buffer, marshalled as
    /// [`marshals`] states.  Under the buffered mode, [`KafkaProducer::poll`]
    /// must be called for the message to be sent; the threaded mode is
    /// polled automatically.
    ///
    /// Enqueue failure surfaces immediately as the delivery error;
    /// delivery confirmation is a separate concern of `poll` and `flush`.
    pub fn produce(&self, data: KafkaMessage) -> (r: Result<(), LibKafkaError>)
        requires
            data.wf(),
        ensures
            r matches Err(e) ==> e is DeliveryError,
    {
        let record = generate_base_message(&data, self.topic.as_str());
        let status = match &self.transport {
            ProducerTransport::Buffered(p) => base_producer_send(p, &record),
            ProducerTransport::Threaded(p) => threaded_producer_send(p, &record),
        };
        match status {
            Ok(_) => Ok(()),
            Err(e) => Err(LibKafkaError::DeliveryError(kafka_error_text(&e))),
        }
    }

    /// Polls the producer, serving queued delivery events and executing
    /// message delivery callbacks.
    ///
    /// Regular calls are required under the buffered mode; the threaded
    /// mode is polled by its own worker thread, and the call does
    /// nothing there.
    pub fn poll(&self, timeout: Option<Duration>) {
        match &self.transport {
            ProducerTransport::Buffered(p) => base_producer_poll(p, timeout),
            ProducerTransport::Threaded(_) => {},
        }
    }

    /// Flushes any pending messages, blocking until the send buffer
    /// drains or the timeout elapses.
    ///
    /// This method should be called before termination to ensure
    /// delivery of all enqueued messages; it polls internally.
    pub fn flush(&self, timeout: Option<Duration>) -> (r: Result<(), LibKafkaError>)
        ensures
            r matches Err(e) ==> e is DeliveryError,
    {
        let status = match &self.transport {
            ProducerTransport::Buffered(p) => base_producer_flush(p, timeout),
            ProducerTransport::Threaded(p) => threaded_producer_flush(p, timeout),
        };
        match status {
            Ok(_) => Ok(()),
            Err(e) => Err(LibKafkaError::DeliveryError(kafka_error_text(&e))),
        }
    }
}

} // verus!
