//! Turning one raw source-chain log into a bridge event and the
//! compensation target that goes with it.

use crate::word::{address_of, be_value, copy_bytes, word_at, word_to_u64};
use vstd::prelude::*;

verus! {

/// Number of topics of a transfer-initiation log: the event signature, then
/// the indexed action id, recipient and amount.
pub const TOPIC_COUNT: usize = 4;

/// Number of 32-byte words in the payload schema
/// `(uint256 block_timestamp, address from, uint256 amount, uint256, uint256)`.
pub const PAYLOAD_WORDS: usize = 5;

/// One raw log record as the subscription delivers it.
#[derive(Debug, Clone)]
pub struct RawLog {
    pub topics: Vec<Vec<u8>>,
    pub data: Vec<u8>,
}

/// A decoded transfer-initiation event.
#[derive(Debug, Clone, Copy, PartialEq, Eq)]
pub struct BridgeEvent {
    /// 256-bit action id, big-endian.
    pub action_id: [u8; 32],
    /// Recipient address on the destination chain.
    pub to: [u8; 20],
    /// 256-bit amount, big-endian.
    pub amount: [u8; 32],
    /// Block timestamp of the source log, in seconds.
    pub source_timestamp: u64,
}

/// The compensation target of one event: who is paid back, and how much.
#[derive(Debug, Clone, Copy, PartialEq, Eq)]
pub struct TxnMeta {
    pub from: [u8; 20],
    /// 256-bit amount, big-endian.
    pub amount: [u8; 32],
}

/// Why a raw log was dropped.
#[derive(Debug, Clone, Copy, PartialEq, Eq, Structural)]
pub enum DecodeError {
    /// The log does not carry exactly four topics.
    TopicCount,
    /// An indexed topic is not one 32-byte word.
    TopicWidth,
    /// The payload is shorter than the five words of the schema.
    PayloadLength,
    /// The block timestamp does not fit in 64 bits.
    TimestampRange,
}

/// Which error, if any, decoding a log with these topics and payload gives.
/// Checks run in this order: topic count, topic widths, payload length,
/// timestamp range.
pub open spec fn decode_verdict(topics: Seq<Seq<u8>>, data: Seq<u8>) -> Result<(), DecodeError> {
    if topics.len() != TOPIC_COUNT {
        Err(DecodeError::TopicCount)
    } else if topics[1].len() != 32 || topics[2].len() != 32 || topics[3].len() != 32 {
        Err(DecodeError::TopicWidth)
    } else if data.len() < 32 * PAYLOAD_WORDS {
        Err(DecodeError::PayloadLength)
    } else if be_value(word_at(data, 0)) > u64::MAX {
        Err(DecodeError::TimestampRange)
    } else {
        Ok(())
    }
}

/// The event and compensation target are the fields that the topics and the
/// payload words hold.
pub open spec fn decoded_from(
    event: BridgeEvent,
    meta: TxnMeta,
    topics: Seq<Seq<u8>>,
    data: Seq<u8>,
) -> bool {
    &&& event.action_id@ == topics[1]
    &&& event.to@ == address_of(topics[2])
    &&& event.amount@ == topics[3]
    &&& event.source_timestamp as nat == be_value(word_at(data, 0))
    &&& meta.from@ == address_of(word_at(data, 1))
    &&& meta.amount@ == word_at(data, 2)
}

/// The topics of a log, each as a byte sequence.
pub open spec fn topics_of(log: &RawLog) -> Seq<Seq<u8>> {
    log.topics@.map_values(|t: Vec<u8>| t@)
}

/// Decodes one raw log. A failure concerns this log alone.
pub fn decode_log(log: &RawLog) -> (r: Result<(BridgeEvent, TxnMeta), DecodeError>)
    ensures
        match r {
            Ok((event, meta)) => decode_verdict(topics_of(log), log.data@) is Ok && decoded_from(
                event,
                meta,
                topics_of(log),
                log.data@,
            ),
            Err(e) => decode_verdict(topics_of(log), log.data@) == Err::<(), DecodeError>(e),
        },
{
    let ghost topics = topics_of(log);
    if log.topics.len() != TOPIC_COUNT {
        return Err(DecodeError::TopicCount);
    }
    assert(topics[1] == log.topics@[1]@ && topics[2] == log.topics@[2]@ && topics[3]
        == log.topics@[3]@);
    if log.topics[1].len() != 32 || log.topics[2].len() != 32 || log.topics[3].len() != 32 {
        return Err(DecodeError::TopicWidth);
    }
    if log.data.len() < 32 * PAYLOAD_WORDS {
        return Err(DecodeError::PayloadLength);
    }
    let timestamp = match word_to_u64(log.data.as_slice(), 0) {
        Some(t) => t,
        None => return Err(DecodeError::TimestampRange),
    };
    let action_id: [u8; 32] = copy_bytes(log.topics[1].as_slice(), 0);
    let to: [u8; 20] = copy_bytes(log.topics[2].as_slice(), 12);
    let amount: [u8; 32] = copy_bytes(log.topics[3].as_slice(), 0);
    let from: [u8; 20] = copy_bytes(log.data.as_slice(), 44);
    let paid: [u8; 32] = copy_bytes(log.data.as_slice(), 64);
    proof {
        assert(log.topics@[1]@.subrange(0, 32) =~= topics[1]);
        assert(log.topics@[3]@.subrange(0, 32) =~= topics[3]);
        assert(log.topics@[2]@.subrange(12, 32) =~= address_of(topics[2]));
        assert(log.data@.subrange(44, 64) =~= address_of(word_at(log.data@, 1)));
        assert(log.data@.subrange(64, 96) =~= word_at(log.data@, 2));
        assert(log.data@.subrange(0, 32) =~= word_at(log.data@, 0));
    }
    let event = BridgeEvent { action_id, to, amount, source_timestamp: timestamp };
    let meta = TxnMeta { from, amount: paid };
    Ok((event, meta))
}

/// Seconds between the source block and `now_secs`; `None` when the block
/// claims a time after `now_secs`.
pub fn source_latency(now_secs: u64, event: &BridgeEvent) -> (r: Option<u64>)
    ensures
        now_secs >= event.source_timestamp ==> r == Some((now_secs - event.source_timestamp) as u64),
        now_secs < event.source_timestamp ==> r is None,
{
    if now_secs >= event.source_timestamp {
        Some(now_secs - event.source_timestamp)
    } else {
        None
    }
}

} // verus!
