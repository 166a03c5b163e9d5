//! The consumer: blocking single-message retrieval from a subscribed
//! topic set, with extraction into the application-facing message model.
//!
//! A consume call has three outcomes, kept strictly apart: a message
//! arrives and is extracted, the poll times out with no message — a
//! deliberate distinct outcome, not a failure —, or the transport reports
//! a broker error.

use vstd::prelude::*;

use core::time::Duration;

use crate::error::{ErrorView, LibKafkaError};
use crate::string_map::StringMap;
use crate::transport::{client_config_entries, client_config_new, client_config_set,
    consumer_poll, consumer_subscribe, consumer_subscription, create_base_consumer,
    kafka_error_text, nul_free, str_views, string_views, topic_set, ConsumerHandle,
    TransportConfig};
use crate::utils::{extract_message, extract_spec, WireMessage, WireMessageView};
use crate::{KafkaMessage, MessageView};

verus! {

/// The configuration mapping that [`default_config`] generates: the
/// broker address, a six-second session timeout, no partition-EOF events,
/// auto-commit on, the earliest offset-reset policy, and a group id
/// derived from the given name by appending `_ID`.
pub open spec fn default_config_spec(broker: Seq<char>, group_id: Seq<char>) -> Map<
    Seq<char>,
    Seq<char>,
> {
    Map::empty().insert("bootstrap.servers"@, broker).insert("session.timeout.ms"@, "6000"@)
        .insert("enable.partition.eof"@, "false"@)
        .insert("enable.auto.commit"@, "true"@)
        .insert("auto.offset.reset"@, "earliest"@)
        .insert("group.id"@, group_id + "_ID"@)
}

/// Generates a simple consumer configuration.
///
/// The generated options are suggestions for quick setup, not
/// requirements: a caller may override every key before handing the
/// mapping to [`KafkaConsumer::new`].
pub fn default_config(broker: &str, group_id: &str) -> (r: StringMap)
    ensures
        r.wf(),
        r@ == default_config_spec(broker@, group_id@),
        r@["bootstrap.servers"@] == broker@,
        r@["group.id"@] == group_id@ + "_ID"@,
{
    let mut config = StringMap::new();
    config.insert(String::from_str("bootstrap.servers"), String::from_str(broker));
    config.insert(String::from_str("session.timeout.ms"), String::from_str("6000"));
    config.insert(String::from_str("enable.partition.eof"), String::from_str("false"));
    config.insert(String::from_str("enable.auto.commit"), String::from_str("true"));
    config.insert(String::from_str("auto.offset.reset"), String::from_str("earliest"));
    let mut group: String = String::from_str(group_id);
    group.append("_ID");
    config.insert(String::from_str("group.id"), group);
    proof {
        reveal_strlit("bootstrap.servers");
        reveal_strlit("session.timeout.ms");
        reveal_strlit("enable.partition.eof");
        reveal_strlit("enable.auto.commit");
        reveal_strlit("auto.offset.reset");
        reveal_strlit("group.id");
        assert("bootstrap.servers"@ != "session.timeout.ms"@) by {
            assert("bootstrap.servers"@.len() != "session.timeout.ms"@.len());
        }
        assert("bootstrap.servers"@ != "enable.partition.eof"@) by {
            assert("bootstrap.servers"@.len() != "enable.partition.eof"@.len());
        }
        assert("bootstrap.servers"@ != "enable.auto.commit"@) by {
            assert("bootstrap.servers"@.len() != "enable.auto.commit"@.len());
        }
        assert("bootstrap.servers"@ != "auto.offset.reset"@) by {
            assert("bootstrap.servers"@[0] != "auto.offset.reset"@[0]);
        }
        assert("bootstrap.servers"@ != "group.id"@) by {
            assert("bootstrap.servers"@.len() != "group.id"@.len());
        }
    }
    config
}

/// Builds a transport client configuration from an option mapping: every
/// option is set verbatim, unknown names included — the transport layer
/// is the validator.
pub(crate) fn build_client_config(options: &StringMap) -> (r: TransportConfig)
    requires
        options.wf(),
    ensures
        client_config_entries(r) == options@,
{
    let mut config = client_config_new();
    let n = options.len();
    let mut i: usize = 0;
    proof {
        assert(crate::string_map::map_of(options.pairs_view().take(0)) =~= Map::<
            Seq<char>,
            Seq<char>,
        >::empty());
    }
    while i < n
        invariant
            options.wf(),
            n == options.pairs_view().len(),
            i <= n,
            client_config_entries(config) == crate::string_map::map_of(
                options.pairs_view().take(i as int),
            ),
        decreases n - i,
    {
        client_config_set(&mut config, options.key_at(i).as_str(), options.value_at(i).as_str());
        proof {
            assert(options.pairs_view().take(i + 1).drop_last() =~= options.pairs_view().take(
                i as int,
            ));
            assert(options.pairs_view().take(i + 1).last() == options.pairs_view()[i as int]);
        }
        i += 1;
    }
    proof {
        assert(options.pairs_view().take(n as int) =~= options.pairs_view());
    }
    config
}

/// The outcome of one poll against a consumer's transport.
pub enum PollOutcome {
    /// The poll timed out with no message available.
    Empty,
    /// The transport reported a broker or protocol error, as cause text.
    Fault(String),
    /// A wire message arrived.
    Deliver(WireMessage),
}

/// The mathematical model of a [`PollOutcome`].
#[verifier::ext_equal]
pub ghost enum PollOutcomeView {
    Empty,
    Fault(Seq<char>),
    Deliver(WireMessageView),
}

impl View for PollOutcome {
    type V = PollOutcomeView;

    open spec fn view(&self) -> PollOutcomeView {
        match self {
            PollOutcome::Empty => PollOutcomeView::Empty,
            PollOutcome::Fault(cause) => PollOutcomeView::Fault(cause@),
            PollOutcome::Deliver(w) => PollOutcomeView::Deliver(w@),
        }
    }
}

/// What a consume call returns for each poll outcome: a timed-out poll
/// yields `Ok(None)` — never an error —, a transport fault yields the
/// transport error, and a delivered message is extracted, propagating
/// payload and key faults.
pub open spec fn consume_spec(polled: PollOutcomeView) -> Result<Option<MessageView>, ErrorView> {
    match polled {
        PollOutcomeView::Empty => Ok(None),
        PollOutcomeView::Fault(cause) => Err(ErrorView::RDKafka(cause)),
        PollOutcomeView::Deliver(w) => match extract_spec(w) {
            Ok(m) => Ok(Some(m)),
            Err(e) => Err(e),
        },
    }
}

/// The model of a consume result: the optional message or error it
/// carries, viewed mathematically.
pub open spec fn consume_result_view(r: Result<Option<KafkaMessage>, LibKafkaError>) -> Result<
    Option<MessageView>,
    ErrorView,
> {
    match r {
        Ok(Some(m)) => Ok(Some(m@)),
        Ok(None) => Ok(None),
        Err(e) => Err(e@),
    }
}

/// Maps the outcome of one poll to the result of a consume call, exactly
/// as [`consume_spec`] states.
pub fn consume_outcome(polled: &PollOutcome) -> (r: Result<Option<KafkaMessage>, LibKafkaError>)
    ensures
        consume_result_view(r) == consume_spec(polled@),
        r matches Ok(Some(m)) ==> m.wf(),
        polled is Empty ==> r == Ok::<Option<KafkaMessage>, LibKafkaError>(None),
        *polled matches PollOutcome::Fault(cause) ==> r == Err::<
            Option<KafkaMessage>,
            LibKafkaError,
        >(LibKafkaError::RDKafkaError(cause)),
{
    match polled {
        PollOutcome::Empty => Ok(None),
        PollOutcome::Fault(cause) => Err(LibKafkaError::RDKafkaError(cause.clone())),
        PollOutcome::Deliver(w) => match extract_message(w) {
            Ok(m) => Ok(Some(m)),
            Err(e) => Err(e),
        },
    }
}

/// The transport behind a consumer: a broker-backed handle, or a scripted
/// adapter that yields a fixed outcome on every poll.  The scripted
/// adapter is the injected fake transport for test builds.
pub enum ConsumerTransport {
    Broker(ConsumerHandle),
    Scripted(PollOutcome),
}

/// A consumer subscribed to a set of topics.
pub struct KafkaConsumer {
    pub transport: ConsumerTransport,
}

impl KafkaConsumer {
    /// Initialises a new consumer with the given config and subscribes it
    /// to all of the given topics.  Topic names must be free of NUL
    /// characters, which the transport's C strings cannot carry.
    ///
    /// Creation failure and subscription failure are both fatal: no
    /// handle is returned, and the error names the stage that failed and
    /// carries the transport's cause.
    pub fn new(config: &StringMap, topics_name: &[String]) -> (r: Result<
        KafkaConsumer,
        LibKafkaError,
    >)
        requires
            config.wf(),
            forall|i: int| 0 <= i < topics_name@.len() ==> nul_free(topics_name@[i]@),
        ensures
            r matches Ok(c) ==> (c.transport matches ConsumerTransport::Broker(h)
                && consumer_subscription(h) == topic_set(string_views(topics_name@))),
            r matches Err(e) ==> e is ConnectionError || e is SubscriptionError,
    {
        let client_config = build_client_config(config);
        let mut consumer = match create_base_consumer(&client_config) {
            Ok(c) => c,
            Err(e) => {
                return Err(LibKafkaError::ConnectionError(kafka_error_text(&e)));
            },
        };
        let mut topic_refs: Vec<&str> = Vec::new();
        let n = topics_name.len();
        let mut i: usize = 0;
        while i < n
            invariant
                n == topics_name@.len(),
                i <= n,
                topic_refs@.len() == i,
                forall|j: int| 0 <= j < i ==> (#[trigger] topic_refs@[j])@ == topics_name@[j]@,
            decreases n - i,
        {
            topic_refs.push(topics_name[i].as_str());
            i += 1;
        }
        match consumer_subscribe(&mut consumer, topic_refs.as_slice()) {
            Ok(_) => {
                proof {
                    assert(str_views(topic_refs@) =~= string_views(topics_name@));
                }
                Ok(KafkaConsumer { transport: ConsumerTransport::Broker(consumer) })
            },
            Err(e) => Err(LibKafkaError::SubscriptionError(kafka_error_text(&e))),
        }
    }

    /// Creates a consumer over a scripted transport adapter that yields
    /// the given outcome on every poll: the injected fake transport.
    pub fn scripted(polled: PollOutcome) -> (r: KafkaConsumer)
        ensures
            r.transport == ConsumerTransport::Scripted(polled),
    {
        KafkaConsumer { transport: ConsumerTransport::Scripted(polled) }
    }

    /// Extracts one message from the consumer.  If the timeout is `None`
    /// this function blocks until a message is received.
    ///
    /// Three outcomes: a message arrives and is extracted into
    /// `Ok(Some(_))`; the poll times out and yields `Ok(None)`, which is
    /// not an error; the transport reports a broker error, which is
    /// returned as the transport error.
    pub fn consume(&self, timeout: Option<Duration>) -> (r: Result<
        Option<KafkaMessage>,
        LibKafkaError,
    >)
        ensures
            self.transport matches ConsumerTransport::Scripted(p) ==> consume_result_view(r)
                == consume_spec(p@),
            self.transport matches ConsumerTransport::Scripted(p) && p is Empty ==> r == Ok::<
                Option<KafkaMessage>,
                LibKafkaError,
            >(None),
            r matches Ok(Some(m)) ==> m.wf() && exists|w: WireMessageView| extract_spec(w)
                == Ok::<MessageView, ErrorView>(m@),
    {
        let polled: PollOutcome = match &self.transport {
            ConsumerTransport::Broker(consumer) => match consumer_poll(consumer, timeout) {
                None => PollOutcome::Empty,
                Some(Err(e)) => PollOutcome::Fault(kafka_error_text(&e)),
                Some(Ok(w)) => PollOutcome::Deliver(w),
            },
            ConsumerTransport::Scripted(p) => {
                let r = consume_outcome(p);
                proof {
                    match &r {
                        Ok(Some(m)) => {
                            let w = (p@)->Deliver_0;
                            assert(extract_spec(w) == Ok::<MessageView, ErrorView>(m@));
                        },
                        _ => {},
                    }
                }
                return r;
            },
        };
        let r = consume_outcome(&polled);
        proof {
            match &r {
                Ok(Some(m)) => {
                    let w = (polled@)->Deliver_0;
                    assert(extract_spec(w) == Ok::<MessageView, ErrorView>(m@));
                },
                _ => {},
            }
        }
        r
    }
}

} // verus!
