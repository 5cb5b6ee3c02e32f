//! Decoding raw log entries into typed events.
//!
//! An entry decodes against a layout only if it fits it exactly: the
//! signature topic first, one topic per indexed parameter, and a payload of
//! one word per parameter that is not indexed, with no byte to spare. Every
//! word must be a value of its parameter's type, padding included. An entry
//! that fits a layout loosely, as one with a longer payload would, is
//! refused rather than read for what it might mean.

use crate::amount::{be_nat, Amount};
use crate::schema::{EventSchema, WordKind};
use vstd::prelude::*;
use vstd::slice::slice_subrange;

verus! {

/// A log entry as the node returns it: the topics, then the opaque payload.
#[derive(Clone, Debug, PartialEq, Eq)]
pub struct RawLogEntry {
    /// The signature topic, then one topic per indexed parameter.
    pub topics: Vec<[u8; 32]>,
    /// The parameters that are not indexed, one 32-byte word each.
    pub data: Vec<u8>,
}

/// Why an entry is not an event of the layout it was held against.
#[derive(Clone, Copy, Debug, PartialEq, Eq, Structural)]
pub enum DecodeMismatchError {
    /// The entry has no topic at all.
    MissingSignature,
    /// The first topic is not the one that stands for the event's signature.
    WrongSignature,
    /// The number of topics is not one more than that of indexed parameters.
    TopicCount,
    /// An indexed parameter is not a value of its type.
    MalformedTopic,
    /// The payload is not as long as the parameters that are not indexed.
    DataLength,
    /// A parameter in the payload is not a value of its type.
    MalformedData,
}

/// A decoded event, with the amounts that are summed.
#[derive(Clone, Debug, PartialEq, Eq)]
pub enum DecodedEvent {
    /// Rewards were split between the vaults.
    SplitRewards { glp_rewards: Amount, jones_rewards: Amount, stable_rewards: Amount },
    /// GLP was redeemed.
    RedeemGlp { eth_retentions: Amount },
    /// The stable vault was redeemed.
    RedeemStable { real_retentions: Amount },
    /// GLP was redeemed for ether.
    RedeemGlpEth { eth_retentions: Amount },
}

/// What a decoded event says, with its amounts as numbers.
pub enum EventValue {
    SplitRewards { glp_rewards: nat, jones_rewards: nat, stable_rewards: nat },
    RedeemGlp { eth_retentions: nat },
    RedeemStable { real_retentions: nat },
    RedeemGlpEth { eth_retentions: nat },
}

impl View for DecodedEvent {
    type V = EventValue;

    open spec fn view(&self) -> EventValue {
        match self {
            DecodedEvent::SplitRewards { glp_rewards, jones_rewards, stable_rewards } => {
                EventValue::SplitRewards {
                    glp_rewards: glp_rewards@,
                    jones_rewards: jones_rewards@,
                    stable_rewards: stable_rewards@,
                }
            },
            DecodedEvent::RedeemGlp { eth_retentions } => EventValue::RedeemGlp {
                eth_retentions: eth_retentions@,
            },
            DecodedEvent::RedeemStable { real_retentions } => EventValue::RedeemStable {
                real_retentions: real_retentions@,
            },
            DecodedEvent::RedeemGlpEth { eth_retentions } => EventValue::RedeemGlpEth {
                eth_retentions: eth_retentions@,
            },
        }
    }
}

/// The first `n` bytes of `word` are zero.
pub open spec fn zero_prefix(word: Seq<u8>, n: int) -> bool {
    forall|i: int| 0 <= i < n ==> word[i] == 0
}

/// `word` is a value of `kind`: an address fills the low 20 bytes, a truth
/// value is zero or one, and every word is an unsigned integer.
pub open spec fn word_ok(kind: WordKind, word: Seq<u8>) -> bool {
    match kind {
        WordKind::Uint256 => true,
        WordKind::Address => zero_prefix(word, 12),
        WordKind::Bool => zero_prefix(word, 31) && word[31] <= 1,
    }
}

/// Word `i` of a payload.
pub open spec fn data_word(data: Seq<u8>, i: int) -> Seq<u8> {
    data.subrange(32 * i, 32 * i + 32)
}

/// Every topic after the first is a value of its parameter's kind.
pub open spec fn topics_ok(schema: EventSchema, topics: Seq<[u8; 32]>) -> bool {
    forall|j: int|
        1 <= j < topics.len() ==> word_ok(schema.topic_layout()[j - 1], #[trigger] topics[j]@)
}

/// Every word of the payload is a value of its parameter's kind.
pub open spec fn data_ok(schema: EventSchema, data: Seq<u8>) -> bool {
    forall|i: int|
        0 <= i < schema.data_layout().len() ==> word_ok(
            #[trigger] schema.data_layout()[i],
            data_word(data, i),
        )
}

/// The first reason, if any, for which an entry is not an event of layout
/// `schema` whose signature topic is `topic`.
pub open spec fn mismatch(
    schema: EventSchema,
    topic: Seq<u8>,
    topics: Seq<[u8; 32]>,
    data: Seq<u8>,
) -> Option<DecodeMismatchError> {
    if topics.len() == 0 {
        Some(DecodeMismatchError::MissingSignature)
    } else if topics[0]@ != topic {
        Some(DecodeMismatchError::WrongSignature)
    } else if topics.len() != schema.topic_layout().len() + 1 {
        Some(DecodeMismatchError::TopicCount)
    } else if !topics_ok(schema, topics) {
        Some(DecodeMismatchError::MalformedTopic)
    } else if data.len() != 32 * schema.data_layout().len() {
        Some(DecodeMismatchError::DataLength)
    } else if !data_ok(schema, data) {
        Some(DecodeMismatchError::MalformedData)
    } else {
        None
    }
}

/// The event that a payload of layout `schema` holds. Every layout keeps the
/// summed amount in its third word but `SplitRewards`, whose three words are
/// the GLP, Jones and stable rewards.
pub open spec fn event_of(schema: EventSchema, data: Seq<u8>) -> EventValue {
    match schema {
        EventSchema::SplitRewards => EventValue::SplitRewards {
            glp_rewards: be_nat(data_word(data, 0)),
            jones_rewards: be_nat(data_word(data, 1)),
            stable_rewards: be_nat(data_word(data, 2)),
        },
        EventSchema::FirstRouterRedeemGlp => EventValue::RedeemGlp {
            eth_retentions: be_nat(data_word(data, 2)),
        },
        EventSchema::CurrentRouterRedeemGlp => EventValue::RedeemGlp {
            eth_retentions: be_nat(data_word(data, 2)),
        },
        EventSchema::FirstRouterRedeemStable => EventValue::RedeemStable {
            real_retentions: be_nat(data_word(data, 2)),
        },
        EventSchema::CurrentRouterRedeemStable => EventValue::RedeemStable {
            real_retentions: be_nat(data_word(data, 2)),
        },
        EventSchema::FirstRouterRedeemGlpEth => EventValue::RedeemGlpEth {
            eth_retentions: be_nat(data_word(data, 2)),
        },
    }
}

/// What decoding an entry against `schema` gives, when `topic` stands for the
/// schema's signature.
pub open spec fn decoded(
    schema: EventSchema,
    topic: Seq<u8>,
    topics: Seq<[u8; 32]>,
    data: Seq<u8>,
) -> Result<EventValue, DecodeMismatchError> {
    match mismatch(schema, topic, topics, data) {
        Some(e) => Err(e),
        None => Ok(event_of(schema, data)),
    }
}

/// Two layouts with different numbers of topics or of payload words share no
/// entry: what decodes against one is refused by the other, whatever their
/// signature topics are.
pub proof fn lemma_layouts_apart(
    first: EventSchema,
    second: EventSchema,
    first_topic: Seq<u8>,
    second_topic: Seq<u8>,
    topics: Seq<[u8; 32]>,
    data: Seq<u8>,
)
    requires
        first.topic_layout().len() != second.topic_layout().len() || first.data_layout().len()
            != second.data_layout().len(),
        decoded(first, first_topic, topics, data) is Ok,
    ensures
        decoded(second, second_topic, topics, data) is Err,
{
}

/// An entry in the first router's `RedeemGlp` layout never decodes as the
/// current router's `RedeemGlp`, nor the other way round.
pub proof fn lemma_redeem_glp_generations_apart(
    first_topic: Seq<u8>,
    current_topic: Seq<u8>,
    topics: Seq<[u8; 32]>,
    data: Seq<u8>,
)
    ensures
        decoded(EventSchema::FirstRouterRedeemGlp, first_topic, topics, data) is Ok ==> decoded(
            EventSchema::CurrentRouterRedeemGlp,
            current_topic,
            topics,
            data,
        ) is Err,
        decoded(EventSchema::CurrentRouterRedeemGlp, current_topic, topics, data) is Ok
            ==> decoded(EventSchema::FirstRouterRedeemGlp, first_topic, topics, data) is Err,
{
}

fn same_bytes(a: &[u8], b: &[u8]) -> (same: bool)
    ensures
        same == (a@ == b@),
{
    if a.len() != b.len() {
        return false;
    }
    let mut i: usize = 0;
    while i < a.len()
        invariant
            a@.len() == b@.len(),
            i <= a@.len(),
            forall|k: int| 0 <= k < i ==> a@[k] == b@[k],
        decreases a@.len() - i,
    {
        if a[i] != b[i] {
            return false;
        }
        i = i + 1;
    }
    assert(a@ =~= b@);
    true
}

fn has_zero_prefix(word: &[u8], n: usize) -> (ok: bool)
    requires
        n <= word@.len(),
    ensures
        ok == zero_prefix(word@, n as int),
{
    let mut i: usize = 0;
    while i < n
        invariant
            i <= n <= word@.len(),
            forall|k: int| 0 <= k < i ==> word@[k] == 0,
        decreases n - i,
    {
        if word[i] != 0 {
            return false;
        }
        i = i + 1;
    }
    true
}

fn word_well_formed(kind: WordKind, word: &[u8]) -> (ok: bool)
    requires
        word@.len() == 32,
    ensures
        ok == word_ok(kind, word@),
{
    match kind {
        WordKind::Uint256 => true,
        WordKind::Address => has_zero_prefix(word, 12),
        WordKind::Bool => has_zero_prefix(word, 31) && word[31] <= 1,
    }
}

fn topics_well_formed(schema: EventSchema, topics: &Vec<[u8; 32]>) -> (ok: bool)
    requires
        topics@.len() == schema.topic_layout().len() + 1,
    ensures
        ok == topics_ok(schema, topics@),
{
    let mut j: usize = 1;
    while j < topics.len()
        invariant
            1 <= j <= topics@.len(),
            topics@.len() == schema.topic_layout().len() + 1,
            forall|k: int|
                1 <= k < j ==> word_ok(schema.topic_layout()[k - 1], #[trigger] topics@[k]@),
        decreases topics@.len() - j,
    {
        let well_formed = match schema.topic_kind(j - 1) {
            Some(kind) => word_well_formed(kind, topics[j].as_slice()),
            None => false,
        };
        if !well_formed {
            return false;
        }
        j = j + 1;
    }
    true
}

fn data_well_formed(schema: EventSchema, data: &[u8]) -> (ok: bool)
    requires
        data@.len() == 32 * schema.data_layout().len(),
    ensures
        ok == data_ok(schema, data@),
{
    let words: usize = schema.data_words();
    let mut i: usize = 0;
    while i < words
        invariant
            i <= words,
            words == schema.data_layout().len(),
            words <= 5,
            data@.len() == 32 * words,
            forall|k: int|
                0 <= k < i ==> word_ok(#[trigger] schema.data_layout()[k], data_word(data@, k)),
        decreases words - i,
    {
        let well_formed = match schema.data_kind(i) {
            Some(kind) => word_well_formed(kind, slice_subrange(data, 32 * i, 32 * i + 32)),
            None => false,
        };
        if !well_formed {
            return false;
        }
        i = i + 1;
    }
    true
}

fn amount_at(data: &[u8], i: usize) -> (a: Amount)
    requires
        32 * i + 32 <= data@.len(),
    ensures
        a@ == be_nat(data_word(data@, i as int)),
{
    let end: usize = data.len();
    assert(32 * i + 32 <= end);
    Amount::from_be_bytes(slice_subrange(data, 32 * i, 32 * i + 32))
}

/// Decodes `entry` as an event of layout `schema`, given the topic that
/// stands for the schema's signature.
///
/// The entry must carry that topic first, then one well-formed topic per
/// indexed parameter, and a payload of exactly one well-formed word per
/// parameter that is not indexed; the first of these that fails is reported.
pub fn decode_with_topic(entry: &RawLogEntry, schema: EventSchema, topic: &[u8; 32]) -> (r: Result<
    DecodedEvent,
    DecodeMismatchError,
>)
    ensures
        match r {
            Ok(event) => decoded(schema, topic@, entry.topics@, entry.data@) == Ok::<
                EventValue,
                DecodeMismatchError,
            >(event@),
            Err(e) => decoded(schema, topic@, entry.topics@, entry.data@) == Err::<
                EventValue,
                DecodeMismatchError,
            >(e),
        },
{
    if entry.topics.len() == 0 {
        return Err(DecodeMismatchError::MissingSignature);
    }
    if !same_bytes(entry.topics[0].as_slice(), topic.as_slice()) {
        return Err(DecodeMismatchError::WrongSignature);
    }
    if entry.topics.len() != schema.topic_words() + 1 {
        return Err(DecodeMismatchError::TopicCount);
    }
    if !topics_well_formed(schema, &entry.topics) {
        return Err(DecodeMismatchError::MalformedTopic);
    }
    let data = entry.data.as_slice();
    if data.len() != 32 * schema.data_words() {
        return Err(DecodeMismatchError::DataLength);
    }
    if !data_well_formed(schema, data) {
        return Err(DecodeMismatchError::MalformedData);
    }
    let event = match schema {
        EventSchema::SplitRewards => DecodedEvent::SplitRewards {
            glp_rewards: amount_at(data, 0),
            jones_rewards: amount_at(data, 1),
            stable_rewards: amount_at(data, 2),
        },
        EventSchema::FirstRouterRedeemGlp => DecodedEvent::RedeemGlp {
            eth_retentions: amount_at(data, 2),
        },
        EventSchema::CurrentRouterRedeemGlp => DecodedEvent::RedeemGlp {
            eth_retentions: amount_at(data, 2),
        },
        EventSchema::FirstRouterRedeemStable => DecodedEvent::RedeemStable {
            real_retentions: amount_at(data, 2),
        },
        EventSchema::CurrentRouterRedeemStable => DecodedEvent::RedeemStable {
            real_retentions: amount_at(data, 2),
        },
        EventSchema::FirstRouterRedeemGlpEth => DecodedEvent::RedeemGlpEth {
            eth_retentions: amount_at(data, 2),
        },
    };
    Ok(event)
}

/// Decodes `entry` as an event of layout `schema`.
///
/// The signature topic is the Keccak-256 digest of the schema's signature;
/// see `decode_with_topic` for the rest.
pub fn decode(entry: &RawLogEntry, schema: EventSchema) -> (r: Result<
    DecodedEvent,
    DecodeMismatchError,
>)
    ensures
        match r {
            Ok(event) => decoded(schema, schema.topic(), entry.topics@, entry.data@) == Ok::<
                EventValue,
                DecodeMismatchError,
            >(event@),
            Err(e) => decoded(schema, schema.topic(), entry.topics@, entry.data@) == Err::<
                EventValue,
                DecodeMismatchError,
            >(e),
        },
{
    let topic = schema.event_topic();
    decode_with_topic(entry, schema, &topic)
}

} // verus!
