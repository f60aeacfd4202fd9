//! The compensation pass: one reversing transaction per event of a failed
//! batch, in the batch's order, each attempted whatever became of the others.

use crate::decoder::TxnMeta;
use vstd::prelude::*;

verus! {

/// One reversing transaction to issue on the source chain.
#[derive(Debug, Clone, Copy, PartialEq, Eq)]
pub struct CompensationAttempt {
    /// Position of the event in its batch.
    pub index: usize,
    pub from: [u8; 20],
    /// 256-bit amount, big-endian.
    pub amount: [u8; 32],
    /// Pause before this submission, in milliseconds: none before the first,
    /// the configured delay before each later one.
    pub delay_before_ms: u64,
}

/// An attempt and what came of it: `None` on success, else the error text.
#[derive(Debug, Clone, PartialEq, Eq)]
pub struct CompensationRecord {
    pub attempt: CompensationAttempt,
    pub error: Option<String>,
}

/// The attempt for the `i`-th compensation target.
pub open spec fn attempt_for(targets: Seq<TxnMeta>, i: int, delay_ms: u64) -> CompensationAttempt {
    CompensationAttempt {
        index: i as usize,
        from: targets[i].from,
        amount: targets[i].amount,
        delay_before_ms: if i == 0 {
            0
        } else {
            delay_ms
        },
    }
}

/// What a pass holds: its targets, the records of the attempts made so far,
/// and the delay between submissions.
pub struct PassModel {
    pub targets: Seq<TxnMeta>,
    pub records: Seq<CompensationRecord>,
    pub delay_ms: u64,
}

impl PassModel {
    /// The attempts made so far are the first targets' attempts, in order.
    pub open spec fn consistent(self) -> bool {
        &&& self.records.len() <= self.targets.len()
        &&& forall|i: int|
            0 <= i < self.records.len() ==> #[trigger] self.records[i].attempt == attempt_for(
                self.targets,
                i,
                self.delay_ms,
            )
    }

    /// Every target has been attempted.
    pub open spec fn finished(self) -> bool {
        self.records.len() == self.targets.len()
    }
}

/// The record of an attempt with its result.
pub open spec fn record_of(attempt: CompensationAttempt, result: Result<(), String>) -> CompensationRecord {
    CompensationRecord {
        attempt,
        error: match result {
            Ok(()) => None,
            Err(e) => Some(e),
        },
    }
}

/// A best-effort compensation pass over one batch's targets.
pub struct CompensationPass {
    targets: Vec<TxnMeta>,
    records: Vec<CompensationRecord>,
    delay_ms: u64,
}

impl View for CompensationPass {
    type V = PassModel;

    closed spec fn view(&self) -> PassModel {
        PassModel { targets: self.targets@, records: self.records@, delay_ms: self.delay_ms }
    }
}

impl CompensationPass {
    #[verifier::type_invariant]
    spec fn inv(&self) -> bool {
        self@.consistent()
    }

    /// A pass over `targets` that has attempted nothing yet.
    pub fn new(targets: Vec<TxnMeta>, delay_ms: u64) -> (r: CompensationPass)
        ensures
            r@ == (PassModel { targets: targets@, records: Seq::empty(), delay_ms }),
    {
        CompensationPass { targets, records: Vec::new(), delay_ms }
    }

    /// The next reversing transaction to issue; `None` once every target has
    /// been attempted.
    pub fn next_attempt(&self) -> (r: Option<CompensationAttempt>)
        ensures
            self@.consistent(),
            !self@.finished() ==> r == Some(
                attempt_for(self@.targets, self@.records.len() as int, self@.delay_ms),
            ),
            self@.finished() ==> r is None,
    {
        proof {
            use_type_invariant(self);
        }
        let i = self.records.len();
        if i < self.targets.len() {
            let t = self.targets[i];
            let delay_before_ms = if i == 0 {
                0
            } else {
                self.delay_ms
            };
            Some(CompensationAttempt { index: i, from: t.from, amount: t.amount, delay_before_ms })
        } else {
            None
        }
    }

    /// Records what became of the attempt that `next_attempt` gave.
    pub fn record_result(&mut self, result: Result<(), String>)
        requires
            !old(self)@.finished(),
        ensures
            final(self)@.targets == old(self)@.targets,
            final(self)@.delay_ms == old(self)@.delay_ms,
            final(self)@.records == old(self)@.records.push(
                record_of(
                    attempt_for(
                        old(self)@.targets,
                        old(self)@.records.len() as int,
                        old(self)@.delay_ms,
                    ),
                    result,
                ),
            ),
            final(self)@.consistent(),
    {
        let attempt = match self.next_attempt() {
            Some(a) => a,
            None => {
                return;
            },
        };
        let error = match result {
            Ok(()) => None,
            Err(e) => Some(e),
        };
        let mut taken = CompensationPass::new(Vec::new(), 0);
        std::mem::swap(self, &mut taken);
        let CompensationPass { targets, mut records, delay_ms } = taken;
        records.push(CompensationRecord { attempt, error });
        *self = CompensationPass { targets, records, delay_ms };
        assert(forall|i: int|
            0 <= i < self@.records.len() - 1 ==> self@.records[i] == old(self)@.records[i]);
    }

    /// True once every target has been attempted.
    pub fn is_finished(&self) -> (r: bool)
        ensures
            r == self@.finished(),
            self@.consistent(),
    {
        proof {
            use_type_invariant(self);
        }
        self.records.len() == self.targets.len()
    }

    /// The records of the attempts made so far, in order.
    pub fn records(&self) -> (r: &Vec<CompensationRecord>)
        ensures
            r@ == self@.records,
            self@.consistent(),
    {
        proof {
            use_type_invariant(self);
        }
        &self.records
    }

    /// The targets of the pass, in order.
    pub fn targets(&self) -> (r: &Vec<TxnMeta>)
        ensures
            r@ == self@.targets,
    {
        &self.targets
    }
}

/// A finished pass has made exactly one attempt per target, and the `i`-th
/// attempt carries the `i`-th target's `(from, amount)`.
pub proof fn lemma_finished_pass_replays_targets(p: PassModel)
    requires
        p.consistent(),
        p.finished(),
    ensures
        p.records.len() == p.targets.len(),
        forall|i: int|
            0 <= i < p.targets.len() ==> {
                &&& (#[trigger] p.records[i]).attempt.from == p.targets[i].from
                &&& p.records[i].attempt.amount == p.targets[i].amount
            },
{
    assert forall|i: int| 0 <= i < p.targets.len() implies {
        &&& (#[trigger] p.records[i]).attempt.from == p.targets[i].from
        &&& p.records[i].attempt.amount == p.targets[i].amount
    } by {
        assert(p.records[i].attempt == attempt_for(p.targets, i, p.delay_ms));
    }
}

} // verus!
