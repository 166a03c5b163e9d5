//! The wire message model, the header codec and message extraction.
//!
//! A wire message is the raw form returned by the transport: payload
//! bytes, optional key bytes and an optional ordered list of header
//! entries, each a name with an optional byte value.  Extraction turns a
//! wire message into an application-facing [`KafkaMessage`]; the header
//! codec converts between the ordered wire header list and a header
//! mapping.
//!
//! Headers are auxiliary metadata, so a header entry whose value is absent
//! or is not valid UTF-8 is skipped rather than failing the whole message.
//! Payload and key failures do propagate: a malformed key indicates a
//! corrupted producer, not optional metadata.

use vstd::prelude::*;
use vstd::slice::slice_to_vec;
use vstd::utf8::{decode_utf8, encode_utf8, encode_utf8_decode_utf8, encode_utf8_valid_utf8,
    valid_utf8};

use crate::error::{ErrorView, LibKafkaError};
use crate::string_map::{map_of, StringMap};
use crate::{KafkaMessage, MessageView};

verus! {

/// One entry of the ordered wire header list: a header name and an
/// optional value as raw bytes.
#[derive(Debug, PartialEq, Eq, Clone)]
pub struct WireHeader {
    pub key: String,
    pub value: Option<Vec<u8>>,
}

/// The mathematical model of a [`WireHeader`].
#[verifier::ext_equal]
pub ghost struct WireHeaderView {
    pub key: Seq<char>,
    pub value: Option<Seq<u8>>,
}

impl View for WireHeader {
    type V = WireHeaderView;

    open spec fn view(&self) -> WireHeaderView {
        WireHeaderView {
            key: self.key@,
            value: match self.value {
                Some(v) => Some(v@),
                None => None,
            },
        }
    }
}

impl DeepView for WireHeader {
    type V = WireHeaderView;

    open spec fn deep_view(&self) -> WireHeaderView {
        self.view()
    }
}

/// The raw message form returned by the transport before extraction:
/// optional payload bytes, optional key bytes and an optional ordered
/// header list.
#[derive(Debug, PartialEq, Eq, Clone)]
pub struct WireMessage {
    pub payload: Option<Vec<u8>>,
    pub key: Option<Vec<u8>>,
    pub headers: Option<Vec<WireHeader>>,
}

/// The mathematical model of a [`WireMessage`].
#[verifier::ext_equal]
pub ghost struct WireMessageView {
    pub payload: Option<Seq<u8>>,
    pub key: Option<Seq<u8>>,
    pub headers: Option<Seq<WireHeaderView>>,
}

impl View for WireMessage {
    type V = WireMessageView;

    open spec fn view(&self) -> WireMessageView {
        WireMessageView {
            payload: match self.payload {
                Some(p) => Some(p@),
                None => None,
            },
            key: match self.key {
                Some(k) => Some(k@),
                None => None,
            },
            headers: match self.headers {
                Some(hs) => Some(hs.deep_view()),
                None => None,
            },
        }
    }
}

/// The wire record handed to the transport by a produce call: the target
/// topic, the payload bytes, optional key bytes and an optional encoded
/// header list.
#[derive(Debug, PartialEq, Eq, Clone)]
pub struct WireRecord {
    pub topic: String,
    pub payload: Vec<u8>,
    pub key: Option<Vec<u8>>,
    pub headers: Option<Vec<WireHeader>>,
}

/// The mathematical model of a [`WireRecord`].
#[verifier::ext_equal]
pub ghost struct WireRecordView {
    pub topic: Seq<char>,
    pub payload: Seq<u8>,
    pub key: Option<Seq<u8>>,
    pub headers: Option<Seq<WireHeaderView>>,
}

impl View for WireRecord {
    type V = WireRecordView;

    open spec fn view(&self) -> WireRecordView {
        WireRecordView {
            topic: self.topic@,
            payload: self.payload@,
            key: match self.key {
                Some(k) => Some(k@),
                None => None,
            },
            headers: match self.headers {
                Some(hs) => Some(hs.deep_view()),
                None => None,
            },
        }
    }
}

/// The mapping decoded from an ordered wire header list: entries without a
/// value and entries whose value is not valid UTF-8 are skipped, and a
/// later entry overrides an earlier one under the same name.
pub open spec fn decoded_headers(hs: Seq<WireHeaderView>) -> Map<Seq<char>, Seq<char>>
    decreases hs.len(),
{
    if hs.len() == 0 {
        Map::empty()
    } else {
        let rest = decoded_headers(hs.drop_last());
        match hs.last().value {
            Some(b) => if valid_utf8(b) {
                rest.insert(hs.last().key, decode_utf8(b))
            } else {
                rest
            },
            None => rest,
        }
    }
}

/// True when some entry of the wire header list holds the name.
pub open spec fn wire_has_key(hs: Seq<WireHeaderView>, k: Seq<char>) -> bool {
    exists|i: int| 0 <= i < hs.len() && (#[trigger] hs[i]).key == k
}

/// True when no two entries of the wire header list share a name.
pub open spec fn wire_keys_unique(hs: Seq<WireHeaderView>) -> bool {
    forall|i: int, j: int| 0 <= i < j < hs.len() ==> hs[i].key != hs[j].key
}

/// Decoding totality: a wire header list whose entries all carry a valid
/// UTF-8 value under unique names decodes to a mapping with exactly one
/// entry per wire entry, each name sent to its decoded value.
pub proof fn lemma_decoded_headers_total(hs: Seq<WireHeaderView>)
    requires
        forall|i: int|
            0 <= i < hs.len() ==> (#[trigger] hs[i]).value is Some && valid_utf8(hs[i].value->0),
        wire_keys_unique(hs),
    ensures
        decoded_headers(hs).dom().finite(),
        decoded_headers(hs).dom().len() == hs.len(),
        forall|i: int|
            0 <= i < hs.len() ==> decoded_headers(hs).contains_key((#[trigger] hs[i]).key)
                && decoded_headers(hs)[hs[i].key] == decode_utf8(hs[i].value->0),
        forall|k: Seq<char>| #[trigger] decoded_headers(hs).contains_key(k) ==> wire_has_key(
            hs,
            k,
        ),
    decreases hs.len(),
{
    if hs.len() > 0 {
        let prefix = hs.drop_last();
        assert(forall|i: int| 0 <= i < prefix.len() ==> prefix[i] == hs[i]);
        lemma_decoded_headers_total(prefix);
        let last = hs.last();
        assert(!decoded_headers(prefix).contains_key(last.key)) by {
            if decoded_headers(prefix).contains_key(last.key) {
                assert(wire_has_key(prefix, last.key));
                let i = choose|i: int|
                    0 <= i < prefix.len() && (#[trigger] prefix[i]).key == last.key;
                assert(hs[i].key == hs[hs.len() - 1].key);
            }
        }
        assert forall|i: int| 0 <= i < hs.len() implies decoded_headers(hs).contains_key(
            (#[trigger] hs[i]).key,
        ) && decoded_headers(hs)[hs[i].key] == decode_utf8(hs[i].value->0) by {
            if i < hs.len() - 1 {
                assert(prefix[i] == hs[i]);
                assert(hs[i].key != last.key);
            }
        }
        assert forall|k: Seq<char>| #[trigger] decoded_headers(hs).contains_key(k) implies
            wire_has_key(hs, k) by {
            if k == last.key {
                assert((hs[hs.len() - 1]).key == k);
            } else {
                assert(decoded_headers(prefix).contains_key(k));
                let i = choose|i: int| 0 <= i < prefix.len() && (#[trigger] prefix[i]).key == k;
                assert((hs[i]).key == k);
            }
        }
    }
}

/// Header fault isolation: a wire header list holding one entry whose
/// value is not valid UTF-8 among otherwise valid entries under unique
/// names decodes to a mapping of one entry fewer — never an error — with
/// the malformed entry's name absent and every other name sent to its
/// decoded value.
pub proof fn lemma_header_fault_isolation(hs: Seq<WireHeaderView>, j: int)
    requires
        0 <= j < hs.len(),
        forall|i: int| 0 <= i < hs.len() ==> (#[trigger] hs[i]).value is Some,
        forall|i: int|
            0 <= i < hs.len() && i != j ==> valid_utf8((#[trigger] hs[i]).value->0),
        !valid_utf8(hs[j].value->0),
        wire_keys_unique(hs),
    ensures
        decoded_headers(hs).dom().finite(),
        decoded_headers(hs).dom().len() == hs.len() - 1,
        !decoded_headers(hs).contains_key(hs[j].key),
        forall|i: int|
            0 <= i < hs.len() && i != j ==> decoded_headers(hs).contains_key(
                (#[trigger] hs[i]).key,
            ) && decoded_headers(hs)[hs[i].key] == decode_utf8(hs[i].value->0),
        forall|k: Seq<char>| #[trigger] decoded_headers(hs).contains_key(k) ==> wire_has_key(
            hs,
            k,
        ),
    decreases hs.len(),
{
    let prefix = hs.drop_last();
    let last = hs.last();
    assert(forall|i: int| 0 <= i < prefix.len() ==> prefix[i] == hs[i]);
    if j == hs.len() - 1 {
        lemma_decoded_headers_total(prefix);
        assert(decoded_headers(hs) == decoded_headers(prefix));
        assert(!decoded_headers(prefix).contains_key(hs[j].key)) by {
            if decoded_headers(prefix).contains_key(hs[j].key) {
                let i = choose|i: int|
                    0 <= i < prefix.len() && (#[trigger] prefix[i]).key == hs[j].key;
                assert(hs[i].key == hs[hs.len() - 1].key);
            }
        }
        assert forall|k: Seq<char>| #[trigger] decoded_headers(hs).contains_key(k) implies
            wire_has_key(hs, k) by {
            let i = choose|i: int| 0 <= i < prefix.len() && (#[trigger] prefix[i]).key == k;
            assert((hs[i]).key == k);
        }
    } else {
        lemma_header_fault_isolation(prefix, j);
        assert(!decoded_headers(prefix).contains_key(last.key)) by {
            if decoded_headers(prefix).contains_key(last.key) {
                let i = choose|i: int|
                    0 <= i < prefix.len() && (#[trigger] prefix[i]).key == last.key;
                assert(hs[i].key == hs[hs.len() - 1].key);
            }
        }
        assert(decoded_headers(hs) == decoded_headers(prefix).insert(
            last.key,
            decode_utf8(last.value->0),
        ));
        assert(hs[j].key != last.key);
        assert forall|i: int| 0 <= i < hs.len() && i != j implies decoded_headers(
            hs,
        ).contains_key((#[trigger] hs[i]).key) && decoded_headers(hs)[hs[i].key] == decode_utf8(
            hs[i].value->0,
        ) by {
            if i < hs.len() - 1 {
                assert(prefix[i] == hs[i]);
                assert(hs[i].key != last.key);
            }
        }
        assert forall|k: Seq<char>| #[trigger] decoded_headers(hs).contains_key(k) implies
            wire_has_key(hs, k) by {
            if k == last.key {
                assert((hs[hs.len() - 1]).key == k);
            } else {
                assert(decoded_headers(prefix).contains_key(k));
                let i = choose|i: int| 0 <= i < prefix.len() && (#[trigger] prefix[i]).key == k;
                assert((hs[i]).key == k);
            }
        }
    }
}

/// The wire header list encoded from a pair sequence: one entry per pair,
/// in order, with the value present and UTF-8 encoded.
pub open spec fn encoded_pairs(pairs: Seq<(Seq<char>, Seq<char>)>) -> Seq<WireHeaderView> {
    pairs.map_values(
        |p: (Seq<char>, Seq<char>)|
            WireHeaderView { key: p.0, value: Some(encode_utf8(p.1)) },
    )
}

/// Header round trip: decoding an encoded pair sequence yields exactly the
/// mapping of those pairs, since every encoded value is valid UTF-8 and
/// both sides let a later pair override an earlier one.
pub proof fn lemma_decode_encode_round_trip(pairs: Seq<(Seq<char>, Seq<char>)>)
    ensures
        decoded_headers(encoded_pairs(pairs)) == map_of(pairs),
    decreases pairs.len(),
{
    if pairs.len() == 0 {
        assert(encoded_pairs(pairs) =~= Seq::<WireHeaderView>::empty());
    } else {
        let encoded = encoded_pairs(pairs);
        assert(encoded.drop_last() =~= encoded_pairs(pairs.drop_last()));
        lemma_decode_encode_round_trip(pairs.drop_last());
        encode_utf8_valid_utf8(pairs.last().1);
        encode_utf8_decode_utf8(pairs.last().1);
        assert(encoded.last().key == pairs.last().0);
    }
}

/// Relies on `String::from_utf8`: it returns the decoded text exactly when
/// the bytes are valid UTF-8, and rejects them otherwise.
#[verifier::external_body]
pub(crate) fn bytes_to_string(bytes: &Vec<u8>) -> (r: Option<String>)
    ensures
        r is Some <==> valid_utf8(bytes@),
        r matches Some(s) ==> s@ == decode_utf8(bytes@),
{
    String::from_utf8(bytes.clone()).ok()
}

/// Converts an ordered wire header list to a header mapping.
///
/// Entries without a value are skipped; entries whose value is not valid
/// UTF-8 are likewise skipped, never surfaced as an error, so one
/// malformed header cannot fail a whole message.
pub fn headers_to_map(headers: &Vec<WireHeader>) -> (r: Result<StringMap, LibKafkaError>)
    ensures
        r matches Ok(m) && m.wf() && m@ == decoded_headers(headers.deep_view()),
{
    let ghost all = headers.deep_view();
    let mut map = StringMap::new();
    let n = headers.len();
    let mut i: usize = 0;
    proof {
        assert(all.take(0) =~= Seq::<WireHeaderView>::empty());
    }
    while i < n
        invariant
            n == headers.len(),
            all == headers.deep_view(),
            i <= n,
            map.wf(),
            map@ == decoded_headers(all.take(i as int)),
        decreases n - i,
    {
        let entry = &headers[i];
        match &entry.value {
            Some(v) => {
                match bytes_to_string(v) {
                    Some(text) => {
                        map.insert(entry.key.clone(), text);
                    },
                    None => {
                        // A malformed header value: skip the entry.
                    },
                }
            },
            None => {
                // A header without a value: skip the entry.
            },
        }
        proof {
            assert(all.take(i + 1).drop_last() =~= all.take(i as int));
            assert(all.take(i + 1).last() == all[i as int]);
        }
        i += 1;
    }
    proof {
        assert(all.take(n as int) =~= all);
    }
    Ok(map)
}

/// Converts a header mapping to an ordered wire header list, one entry per
/// pair; decoding the result restores the mapping exactly.
pub fn map_to_header(map: &StringMap) -> (r: Vec<WireHeader>)
    requires
        map.wf(),
    ensures
        r.deep_view() == encoded_pairs(map.pairs_view()),
        decoded_headers(r.deep_view()) == map@,
{
    let mut out: Vec<WireHeader> = Vec::new();
    let n = map.len();
    let mut i: usize = 0;
    proof {
        assert(out.deep_view() =~= Seq::<WireHeaderView>::empty());
        assert(encoded_pairs(map.pairs_view().take(0)) =~= Seq::<WireHeaderView>::empty());
    }
    while i < n
        invariant
            map.wf(),
            n == map.pairs_view().len(),
            i <= n,
            out.deep_view() == encoded_pairs(map.pairs_view().take(i as int)),
        decreases n - i,
    {
        let key = map.key_at(i).clone();
        let value_bytes = slice_to_vec(map.value_at(i).as_str().as_bytes());
        let ghost before = out.deep_view();
        out.push(WireHeader { key, value: Some(value_bytes) });
        proof {
            assert(out.deep_view() =~= before.push(
                WireHeaderView {
                    key: map.pairs_view()[i as int].0,
                    value: Some(encode_utf8(map.pairs_view()[i as int].1)),
                },
            ));
            assert(out.deep_view() =~= encoded_pairs(map.pairs_view().take(i + 1)));
        }
        i += 1;
    }
    proof {
        assert(map.pairs_view().take(n as int) =~= map.pairs_view());
        lemma_decode_encode_round_trip(map.pairs_view());
    }
    out
}

/// The result of extracting a wire message, at the level of the
/// mathematical models: the payload must be present and UTF-8, a present
/// key must be UTF-8, and the headers decode per [`decoded_headers`].
pub open spec fn extract_spec(w: WireMessageView) -> Result<MessageView, ErrorView> {
    match w.payload {
        None => Err(ErrorView::EmptyMsg),
        Some(pb) => if !valid_utf8(pb) {
            Err(ErrorView::Utf8Format)
        } else {
            match w.key {
                Some(kb) => if !valid_utf8(kb) {
                    Err(ErrorView::Utf8Format)
                } else {
                    Ok(
                        MessageView {
                            payload: decode_utf8(pb),
                            key: Some(decode_utf8(kb)),
                            headers: decoded_headers_opt(w.headers),
                        },
                    )
                },
                None => Ok(
                    MessageView {
                        payload: decode_utf8(pb),
                        key: None,
                        headers: decoded_headers_opt(w.headers),
                    },
                ),
            }
        },
    }
}

/// The decoded header mapping of an optional wire header list; an absent
/// header block stays absent.
pub open spec fn decoded_headers_opt(hs: Option<Seq<WireHeaderView>>) -> Option<
    Map<Seq<char>, Seq<char>>,
> {
    match hs {
        Some(s) => Some(decoded_headers(s)),
        None => None,
    }
}

/// The model of an extraction result: the message or error it carries,
/// viewed mathematically.
pub open spec fn message_result_view(r: Result<KafkaMessage, LibKafkaError>) -> Result<
    MessageView,
    ErrorView,
> {
    match r {
        Ok(m) => Ok(m@),
        Err(e) => Err(e@),
    }
}

/// Extracts payload, key and headers from a wire message.
///
/// The function is pure and total: for every wire message with a present
/// UTF-8 payload it returns `Ok`; an absent payload yields the
/// empty-message error and an invalid payload or key yields the encoding
/// error, exactly as [`extract_spec`] states.
pub fn extract_message(message: &WireMessage) -> (r: Result<KafkaMessage, LibKafkaError>)
    ensures
        message_result_view(r) == extract_spec(message@),
        r matches Ok(m) ==> m.wf(),
        (match message@.payload {
            Some(p) => valid_utf8(p),
            None => false,
        }) && (match message@.key {
            Some(k) => valid_utf8(k),
            None => true,
        }) ==> r is Ok,
        message@.payload is None ==> r == Err::<KafkaMessage, LibKafkaError>(
            LibKafkaError::EmptyMsgError,
        ),
        (match message@.payload {
            Some(p) => !valid_utf8(p),
            None => false,
        }) ==> r == Err::<KafkaMessage, LibKafkaError>(LibKafkaError::Utf8FormatError),
        (match (message@.payload, message@.key) {
            (Some(p), Some(k)) => valid_utf8(p) && !valid_utf8(k),
            _ => false,
        }) ==> r == Err::<KafkaMessage, LibKafkaError>(LibKafkaError::Utf8FormatError),
{
    let payload = match &message.payload {
        None => {
            return Err(LibKafkaError::EmptyMsgError);
        },
        Some(pb) => match bytes_to_string(pb) {
            None => {
                return Err(LibKafkaError::Utf8FormatError);
            },
            Some(text) => text,
        },
    };
    let key = match &message.key {
        None => None,
        Some(kb) => match bytes_to_string(kb) {
            None => {
                return Err(LibKafkaError::Utf8FormatError);
            },
            Some(text) => Some(text),
        },
    };
    let headers = match &message.headers {
        None => None,
        Some(hs) => match headers_to_map(hs) {
            Ok(m) => Some(m),
            Err(e) => {
                return Err(e);
            },
        },
    };
    let result = KafkaMessage { headers, key, payload };
    proof {
        assert(message_result_view(Ok(result)) =~~= extract_spec(message@));
    }
    Ok(result)
}

} // verus!
