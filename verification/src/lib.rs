//! A client-side abstraction layer over a Kafka message broker.
//!
//! The crate wraps the broker transport behind unified producer and
//! consumer types, and verifies the logic that surrounds the transport:
//! the conversion between the wire message representation (payload bytes,
//! optional key bytes, ordered header list) and the application-facing
//! [`KafkaMessage`], the header codec, the configuration builder, and the
//! outcome handling of the produce and consume operations.

pub mod consumer;
pub mod error;
pub mod producer;
pub mod string_map;
pub mod transport;
pub mod utils;

use vstd::prelude::*;

use crate::string_map::StringMap;

verus! {

/// The canonical application-facing message: a UTF-8 text payload, an
/// optional UTF-8 routing key, and an optional mapping of header names to
/// header values.
#[derive(Debug, PartialEq, Eq, Clone)]
pub struct KafkaMessage {
    pub headers: Option<StringMap>,
    pub key: Option<String>,
    pub payload: String,
}

/// The mathematical model of a [`KafkaMessage`]: the payload and key as
/// character sequences and the headers as a map.
#[verifier::ext_equal]
pub ghost struct MessageView {
    pub headers: Option<Map<Seq<char>, Seq<char>>>,
    pub key: Option<Seq<char>>,
    pub payload: Seq<char>,
}

impl KafkaMessage {
    /// Well-formedness: a present header mapping is itself well-formed.
    pub open spec fn wf(&self) -> bool {
        match self.headers {
            Some(h) => h.wf(),
            None => true,
        }
    }
}

impl View for KafkaMessage {
    type V = MessageView;

    open spec fn view(&self) -> MessageView {
        MessageView {
            headers: match self.headers {
                Some(h) => Some(h@),
                None => None,
            },
            key: match self.key {
                Some(k) => Some(k@),
                None => None,
            },
            payload: self.payload@,
        }
    }
}

} // verus!
