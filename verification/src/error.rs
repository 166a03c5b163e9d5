//! The error taxonomy of the library.
//!
//! Encoding failures on a payload or key and an unexpectedly absent
//! payload are distinct variants, as are the stages at which the
//! transport can fail: creating a client, subscribing at setup, getting a
//! produced message delivered, and a broker or protocol failure surfaced
//! while receiving.  Every transport-side variant carries the underlying
//! cause as text.

use vstd::prelude::*;

verus! {

/// An error surfaced by a producer or consumer operation.
#[derive(Debug, PartialEq, Eq, Clone)]
pub enum LibKafkaError {
    /// A payload or key held bytes that are not valid UTF-8 text.
    Utf8FormatError,
    /// The consumer unexpectedly returned a message without a payload.
    EmptyMsgError,
    /// Client or handle creation failed; fatal, never retried internally.
    ConnectionError(String),
    /// A topic subscription failed at setup; fatal, the handle is not
    /// returned.
    SubscriptionError(String),
    /// A producer send or delivery failed; the caller decides whether to
    /// retry.
    DeliveryError(String),
    /// A generic broker or protocol failure surfaced while receiving.
    RDKafkaError(String),
}

/// The mathematical model of a [`LibKafkaError`].
#[verifier::ext_equal]
pub ghost enum ErrorView {
    Utf8Format,
    EmptyMsg,
    Connection(Seq<char>),
    Subscription(Seq<char>),
    Delivery(Seq<char>),
    RDKafka(Seq<char>),
}

impl View for LibKafkaError {
    type V = ErrorView;

    open spec fn view(&self) -> ErrorView {
        match self {
            LibKafkaError::Utf8FormatError => ErrorView::Utf8Format,
            LibKafkaError::EmptyMsgError => ErrorView::EmptyMsg,
            LibKafkaError::ConnectionError(s) => ErrorView::Connection(s@),
            LibKafkaError::SubscriptionError(s) => ErrorView::Subscription(s@),
            LibKafkaError::DeliveryError(s) => ErrorView::Delivery(s@),
            LibKafkaError::RDKafkaError(s) => ErrorView::RDKafka(s@),
        }
    }
}

} // verus!
