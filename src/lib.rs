//! Core of a two-chain bridge relayer: decoding source-chain logs, batching
//! them, preparing and signing relay messages, judging settlement attempts
//! and planning compensation for the batches that did not settle.

mod abi;
mod batch;
mod compensation;
mod crypt;
mod decoder;
mod nonce;
mod settlement;
mod timing;
mod word;

pub use abi::{
    abi_string_bytes, has_error_selector, revert_reason, revert_text, small_word_at, utf8_lossy,
};
pub use batch::{
    lemma_record_keeps_alignment, lemma_seal_exactly_at_limit, AccumulatorModel, Batch,
    BatchAccumulator, BatchModel,
};
pub use compensation::{
    attempt_for, lemma_finished_pass_replays_targets, record_of, CompensationAttempt,
    CompensationPass, CompensationRecord, PassModel,
};
pub use crypt::{
    ed25519_signature, hex_bytes, hex_digit_value, key_bytes, parse_signer_identity, sign_message,
    signed_by, SigningError,
};
pub use decoder::{
    decode_log, decode_verdict, decoded_from, source_latency, topics_of, BridgeEvent, DecodeError,
    RawLog, TxnMeta, PAYLOAD_WORDS, TOPIC_COUNT,
};
pub use nonce::NonceSequencer;
pub use settlement::{
    action_for, classified_as, classify_submission, with_phase, FailureCause, Phase, Settlement,
    SettlementAction, SettlementModel, SettlementOutcome, SubmissionReport, SubmissionRequest,
    SubmissionResult,
};
pub use timing::{elapsed_millis, unix_millis};
pub use word::{address_of, be_value, pow256, word_at};
