//! One relay attempt for a sealed batch, as a state machine that the caller
//! drives: `Sealed -> MessageReady -> Signed -> Submitted -> Done(outcome)`.
//! Every outcome but `Committed` hands back a compensation pass.

use crate::abi::{revert_reason, revert_text};
use crate::batch::{Batch, BatchModel};
use crate::compensation::{CompensationPass, PassModel};
use crate::crypt::{key_bytes, parse_signer_identity, sign_message, signed_by, SigningError};
use crate::decoder::TxnMeta;
use vstd::prelude::*;
use vstd::slice::slice_to_vec;

verus! {

/// Why a batch failed before the destination gave a verdict on it.
#[derive(Debug, Clone, PartialEq, Eq)]
pub enum FailureCause {
    /// The relay message could not be built from the batch.
    Encoding(String),
    /// The key material could not sign it.
    Signing(SigningError),
    /// The network failed before a destination-chain response came.
    Transport(String),
}

/// How a settlement attempt ended.
#[derive(Debug, Clone, PartialEq, Eq)]
pub enum SettlementOutcome {
    Committed,
    Reverted(String),
    TimedOut,
    SubmissionFailed(FailureCause),
}

/// Where a settlement stands.
#[derive(Debug, Clone, PartialEq, Eq)]
pub enum Phase {
    Sealed,
    MessageReady,
    Signed,
    Submitted,
    Done(SettlementOutcome),
}

/// What the destination did with one submission, as the caller observed it.
#[derive(Debug, Clone, PartialEq, Eq)]
pub enum SubmissionResult {
    /// Inclusion was confirmed.
    Confirmed,
    /// The destination rejected the call; `revert_data` is what it returned.
    Rejected { revert_data: Vec<u8>, error_text: String },
    /// The call failed before any destination-chain response.
    TransportFailed(String),
    /// The wait was cut off at the timeout.
    NoResponse,
}

/// A submission's result and how long the wait for it lasted.
#[derive(Debug, Clone, PartialEq, Eq)]
pub struct SubmissionReport {
    pub elapsed_ms: u64,
    pub result: SubmissionResult,
}

/// What the caller must do next for a settlement.
#[derive(Debug, Clone, Copy, PartialEq, Eq, Structural)]
pub enum SettlementAction {
    /// Ask the encoder for the message bytes of `message_request()`.
    RequestMessage,
    /// Sign the message with `sign`.
    Sign,
    /// Take `submit()` and send it to the destination.
    Submit,
    /// Wait for the submission's result and pass it to `on_report`.
    AwaitResult,
    /// Run the pass that `compensation` gives.
    Compensate,
    /// Nothing is left to do.
    Finished,
}

/// The signed message as it goes to the destination contract.
#[derive(Debug, Clone, PartialEq, Eq)]
pub struct SubmissionRequest {
    pub signer_identity: [u8; 32],
    pub signature: Vec<u8>,
    pub message: Vec<u8>,
}

/// Whether `outcome` is how a submission with this report ends under a
/// timeout of `timeout_ms`: a wait that reached the timeout is `TimedOut`
/// whatever came later.
pub open spec fn classified_as(
    report: SubmissionReport,
    timeout_ms: u64,
    outcome: SettlementOutcome,
) -> bool {
    if report.elapsed_ms >= timeout_ms || report.result is NoResponse {
        outcome == SettlementOutcome::TimedOut
    } else {
        match report.result {
            SubmissionResult::Confirmed => outcome == SettlementOutcome::Committed,
            SubmissionResult::Rejected { revert_data, error_text } => outcome matches SettlementOutcome::Reverted(
                reason,
            ) && reason@ == revert_text(revert_data@, error_text@),
            SubmissionResult::TransportFailed(text) => outcome
                == SettlementOutcome::SubmissionFailed(FailureCause::Transport(text)),
            SubmissionResult::NoResponse => false,
        }
    }
}

/// Judges one submission.
pub fn classify_submission(report: SubmissionReport, timeout_ms: u64) -> (r: SettlementOutcome)
    ensures
        classified_as(report, timeout_ms, r),
{
    if report.elapsed_ms >= timeout_ms {
        return SettlementOutcome::TimedOut;
    }
    match report.result {
        SubmissionResult::Confirmed => SettlementOutcome::Committed,
        SubmissionResult::Rejected { revert_data, error_text } => SettlementOutcome::Reverted(
            revert_reason(revert_data.as_slice(), error_text),
        ),
        SubmissionResult::TransportFailed(text) => SettlementOutcome::SubmissionFailed(
            FailureCause::Transport(text),
        ),
        SubmissionResult::NoResponse => SettlementOutcome::TimedOut,
    }
}

impl SettlementOutcome {
    /// Every outcome but `Committed` calls for compensation.
    pub open spec fn needs_compensation(self) -> bool {
        !(self is Committed)
    }
}

/// The action that a phase calls for.
pub open spec fn action_for(phase: Phase) -> SettlementAction {
    match phase {
        Phase::Sealed => SettlementAction::RequestMessage,
        Phase::MessageReady => SettlementAction::Sign,
        Phase::Signed => SettlementAction::Submit,
        Phase::Submitted => SettlementAction::AwaitResult,
        Phase::Done(o) => if o.needs_compensation() {
            SettlementAction::Compensate
        } else {
            SettlementAction::Finished
        },
    }
}

/// What a settlement holds.
pub struct SettlementModel {
    pub batch: BatchModel,
    pub phase: Phase,
    pub message: Seq<u8>,
    pub signature: Seq<u8>,
    pub signer: Seq<u8>,
    pub timeout_ms: u64,
}

/// One settlement attempt of one sealed batch.
pub struct Settlement {
    batch: Batch,
    phase: Phase,
    message: Vec<u8>,
    signature: Vec<u8>,
    signer: [u8; 32],
    timeout_ms: u64,
}

impl View for Settlement {
    type V = SettlementModel;

    closed spec fn view(&self) -> SettlementModel {
        SettlementModel {
            batch: self.batch@,
            phase: self.phase,
            message: self.message@,
            signature: self.signature@,
            signer: self.signer@,
            timeout_ms: self.timeout_ms,
        }
    }
}

impl SettlementModel {
    /// The settlement ended in an outcome that calls for compensation.
    pub open spec fn compensating(self) -> bool {
        self.phase matches Phase::Done(o) && o.needs_compensation()
    }
}

/// The model with only the phase changed.
pub open spec fn with_phase(m: SettlementModel, phase: Phase) -> SettlementModel {
    SettlementModel { phase, ..m }
}

impl Settlement {
    /// Starts the settlement of a sealed batch, bounded by `timeout_ms`.
    pub fn new(batch: Batch, timeout_ms: u64) -> (r: Settlement)
        ensures
            r@ == (SettlementModel {
                batch: batch@,
                phase: Phase::Sealed,
                message: Seq::empty(),
                signature: Seq::empty(),
                signer: Seq::new(32, |i: int| 0u8),
                timeout_ms,
            }),
    {
        let r = Settlement {
            batch,
            phase: Phase::Sealed,
            message: Vec::new(),
            signature: Vec::new(),
            signer: [0u8; 32],
            timeout_ms,
        };
        assert(r@.signer =~= Seq::new(32, |i: int| 0u8));
        r
    }

    /// What to do next.
    pub fn next_action(&self) -> (r: SettlementAction)
        ensures
            r == action_for(self@.phase),
    {
        match &self.phase {
            Phase::Sealed => SettlementAction::RequestMessage,
            Phase::MessageReady => SettlementAction::Sign,
            Phase::Signed => SettlementAction::Submit,
            Phase::Submitted => SettlementAction::AwaitResult,
            Phase::Done(SettlementOutcome::Committed) => SettlementAction::Finished,
            Phase::Done(_) => SettlementAction::Compensate,
        }
    }

    /// What the encoder is handed: the batch's encoded transactions,
    /// unmodified and in insertion order.
    pub fn message_request(&self) -> (r: &Vec<Vec<u8>>)
        ensures
            r@.map_values(|t: Vec<u8>| t@) == self@.batch.encoded_txns,
    {
        self.batch.encoded_txns()
    }

    /// Takes the encoder's answer: the relay message, or why it could not be
    /// built.
    pub fn on_message(&mut self, answer: Result<Vec<u8>, String>)
        requires
            old(self)@.phase == Phase::Sealed,
        ensures
            match answer {
                Ok(bytes) => final(self)@ == (SettlementModel {
                    phase: Phase::MessageReady,
                    message: bytes@,
                    ..old(self)@
                }),
                Err(e) => final(self)@ == with_phase(
                    old(self)@,
                    Phase::Done(SettlementOutcome::SubmissionFailed(FailureCause::Encoding(e))),
                ),
            },
    {
        match answer {
            Ok(bytes) => {
                self.message = bytes;
                self.phase = Phase::MessageReady;
            },
            Err(e) => {
                self.phase = Phase::Done(
                    SettlementOutcome::SubmissionFailed(FailureCause::Encoding(e)),
                );
            },
        }
    }

    /// Signs the relay message with the secret key and records the public
    /// identity that goes with it, both given in hex. A key that cannot be
    /// read fails the batch; there is no retry.
    pub fn sign(&mut self, private_key_hex: &str, public_key_hex: &str)
        requires
            old(self)@.phase == Phase::MessageReady,
        ensures
            match (signed_by(private_key_hex@, old(self)@.message), key_bytes(public_key_hex@)) {
                (Ok(sig), Ok(id)) => final(self)@ == (SettlementModel {
                    phase: Phase::Signed,
                    signature: sig,
                    signer: id,
                    ..old(self)@
                }),
                (Err(e), _) => final(self)@ == with_phase(
                    old(self)@,
                    Phase::Done(SettlementOutcome::SubmissionFailed(FailureCause::Signing(e))),
                ),
                (Ok(_), Err(e)) => final(self)@ == with_phase(
                    old(self)@,
                    Phase::Done(SettlementOutcome::SubmissionFailed(FailureCause::Signing(e))),
                ),
            },
    {
        let signature = match sign_message(private_key_hex, self.message.as_slice()) {
            Ok(s) => s,
            Err(e) => {
                self.phase = Phase::Done(
                    SettlementOutcome::SubmissionFailed(FailureCause::Signing(e)),
                );
                return;
            },
        };
        match parse_signer_identity(public_key_hex) {
            Ok(id) => {
                self.signature = signature;
                self.signer = id;
                self.phase = Phase::Signed;
            },
            Err(e) => {
                self.phase = Phase::Done(
                    SettlementOutcome::SubmissionFailed(FailureCause::Signing(e)),
                );
            },
        }
    }

    /// Hands out the one submission of this batch and waits for its result.
    pub fn submit(&mut self) -> (r: SubmissionRequest)
        requires
            old(self)@.phase == Phase::Signed,
        ensures
            final(self)@ == with_phase(old(self)@, Phase::Submitted),
            r.signer_identity@ == old(self)@.signer,
            r.signature@ == old(self)@.signature,
            r.message@ == old(self)@.message,
    {
        self.phase = Phase::Submitted;
        SubmissionRequest {
            signer_identity: self.signer,
            signature: slice_to_vec(self.signature.as_slice()),
            message: slice_to_vec(self.message.as_slice()),
        }
    }

    /// Takes the submission's result and ends the settlement.
    pub fn on_report(&mut self, report: SubmissionReport)
        requires
            old(self)@.phase == Phase::Submitted,
        ensures
            final(self)@.phase matches Phase::Done(o) && classified_as(
                report,
                old(self)@.timeout_ms,
                o,
            ),
            final(self)@ == with_phase(old(self)@, final(self)@.phase),
    {
        let outcome = classify_submission(report, self.timeout_ms);
        self.phase = Phase::Done(outcome);
    }

    /// Ends an unfinished settlement on a transport failure.
    pub fn fail(&mut self, reason: String)
        requires
            !(old(self)@.phase is Done),
        ensures
            final(self)@ == with_phase(
                old(self)@,
                Phase::Done(SettlementOutcome::SubmissionFailed(FailureCause::Transport(reason))),
            ),
    {
        self.phase = Phase::Done(SettlementOutcome::SubmissionFailed(FailureCause::Transport(reason)));
    }

    /// The outcome, once the settlement has ended.
    pub fn outcome(&self) -> (r: Option<&SettlementOutcome>)
        ensures
            match self@.phase {
                Phase::Done(o) => r == Some(&o),
                _ => r is None,
            },
    {
        match &self.phase {
            Phase::Done(o) => Some(o),
            _ => None,
        }
    }

    /// The compensation pass over the batch's compensation targets, when the
    /// settlement ended in anything but `Committed`.
    pub fn compensation(&self, delay_ms: u64) -> (r: Option<CompensationPass>)
        ensures
            self@.compensating() ==> (r matches Some(p) && p@ == (PassModel {
                targets: self@.batch.compensation_meta,
                records: Seq::empty(),
                delay_ms,
            })),
            !self@.compensating() ==> r is None,
    {
        match &self.phase {
            Phase::Done(SettlementOutcome::Committed) => None,
            Phase::Done(_) => {
                let targets: Vec<TxnMeta> = slice_to_vec(self.batch.compensation_meta().as_slice());
                Some(CompensationPass::new(targets, delay_ms))
            },
            _ => None,
        }
    }

    /// The batch being settled.
    pub fn batch(&self) -> (r: &Batch)
        ensures
            r@ == self@.batch,
    {
        &self.batch
    }

    /// The relay message, once built.
    pub fn message(&self) -> (r: &Vec<u8>)
        ensures
            r@ == self@.message,
    {
        &self.message
    }
}

} // verus!
