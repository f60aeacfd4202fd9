//! Batches of decoded events and the accumulator that seals them on a size
//! or timer trigger.

use crate::decoder::{BridgeEvent, TxnMeta};
use vstd::prelude::*;

verus! {

/// What a batch holds: events with their destination-encoded transactions
/// and compensation targets, index-aligned, in insertion order.
pub struct BatchModel {
    pub events: Seq<BridgeEvent>,
    pub encoded_txns: Seq<Seq<u8>>,
    pub compensation_meta: Seq<TxnMeta>,
    pub opened_at: u64,
}

impl BatchModel {
    /// The empty batch opened at `at`.
    pub open spec fn empty(at: u64) -> BatchModel {
        BatchModel {
            events: Seq::empty(),
            encoded_txns: Seq::empty(),
            compensation_meta: Seq::empty(),
            opened_at: at,
        }
    }

    /// This batch with one more event at its end.
    pub open spec fn push(self, event: BridgeEvent, txn: Seq<u8>, meta: TxnMeta) -> BatchModel {
        BatchModel {
            events: self.events.push(event),
            encoded_txns: self.encoded_txns.push(txn),
            compensation_meta: self.compensation_meta.push(meta),
            opened_at: self.opened_at,
        }
    }

    /// The three sequences have one entry per event.
    pub open spec fn aligned(self) -> bool {
        &&& self.events.len() == self.encoded_txns.len()
        &&& self.events.len() == self.compensation_meta.len()
    }
}

/// A group of events bound for one relay attempt. Once sealed it is only
/// read.
pub struct Batch {
    events: Vec<BridgeEvent>,
    encoded_txns: Vec<Vec<u8>>,
    compensation_meta: Vec<TxnMeta>,
    opened_at: u64,
}

impl View for Batch {
    type V = BatchModel;

    closed spec fn view(&self) -> BatchModel {
        BatchModel {
            events: self.events@,
            encoded_txns: self.encoded_txns@.map_values(|t: Vec<u8>| t@),
            compensation_meta: self.compensation_meta@,
            opened_at: self.opened_at,
        }
    }
}

impl Batch {
    #[verifier::type_invariant]
    spec fn inv(&self) -> bool {
        &&& self.events@.len() == self.encoded_txns@.len()
        &&& self.events@.len() == self.compensation_meta@.len()
    }

    /// An empty batch opened at `opened_at`.
    pub fn empty(opened_at: u64) -> (r: Batch)
        ensures
            r@ == BatchModel::empty(opened_at),
            r@.aligned(),
    {
        let r = Batch {
            events: Vec::new(),
            encoded_txns: Vec::new(),
            compensation_meta: Vec::new(),
            opened_at,
        };
        assert(r@.encoded_txns =~= Seq::<Seq<u8>>::empty());
        r
    }

    /// Appends one event with its encoded transaction and compensation target.
    pub(crate) fn push(&mut self, event: BridgeEvent, txn: Vec<u8>, meta: TxnMeta)
        ensures
            final(self)@ == old(self)@.push(event, txn@, meta),
            final(self)@.aligned(),
    {
        let mut taken = Batch::empty(0);
        std::mem::swap(self, &mut taken);
        proof {
            use_type_invariant(&taken);
        }
        let Batch { mut events, mut encoded_txns, mut compensation_meta, opened_at } = taken;
        events.push(event);
        encoded_txns.push(txn);
        compensation_meta.push(meta);
        *self = Batch { events, encoded_txns, compensation_meta, opened_at };
        assert(self@.encoded_txns =~= old(self)@.encoded_txns.push(txn@));
    }

    /// Number of events.
    pub fn len(&self) -> (r: usize)
        ensures
            r == self@.events.len(),
            self@.aligned(),
    {
        proof {
            use_type_invariant(self);
        }
        self.events.len()
    }

    /// True when the batch holds no event.
    pub fn is_empty(&self) -> (r: bool)
        ensures
            r == (self@.events.len() == 0),
            self@.aligned(),
    {
        proof {
            use_type_invariant(self);
        }
        self.events.len() == 0
    }

    /// The events, in insertion order.
    pub fn events(&self) -> (r: &Vec<BridgeEvent>)
        ensures
            r@ == self@.events,
            self@.aligned(),
    {
        proof {
            use_type_invariant(self);
        }
        &self.events
    }

    /// The destination-encoded transactions, index-aligned with the events.
    pub fn encoded_txns(&self) -> (r: &Vec<Vec<u8>>)
        ensures
            r@.map_values(|t: Vec<u8>| t@) == self@.encoded_txns,
            self@.aligned(),
    {
        proof {
            use_type_invariant(self);
        }
        &self.encoded_txns
    }

    /// The compensation targets, index-aligned with the events.
    pub fn compensation_meta(&self) -> (r: &Vec<TxnMeta>)
        ensures
            r@ == self@.compensation_meta,
            self@.aligned(),
    {
        proof {
            use_type_invariant(self);
        }
        &self.compensation_meta
    }

    /// When the batch was opened, in seconds.
    pub fn opened_at(&self) -> (r: u64)
        ensures
            r == self@.opened_at,
            self@.aligned(),
    {
        proof {
            use_type_invariant(self);
        }
        self.opened_at
    }
}

/// What an accumulator holds: the open batch and its sealing configuration.
pub struct AccumulatorModel {
    pub open: BatchModel,
    pub size_limit: usize,
    pub flush_interval: u64,
}

/// Buffers events into the open batch and seals it when it reaches the size
/// limit or when the flush timer fires on a non-empty batch.
pub struct BatchAccumulator {
    open: Batch,
    size_limit: usize,
    flush_interval: u64,
}

impl View for BatchAccumulator {
    type V = AccumulatorModel;

    closed spec fn view(&self) -> AccumulatorModel {
        AccumulatorModel {
            open: self.open@,
            size_limit: self.size_limit,
            flush_interval: self.flush_interval,
        }
    }
}

impl AccumulatorModel {
    /// The open batch never holds as many events as the size limit: it is
    /// sealed on the event that reaches it.
    pub open spec fn below_limit(self) -> bool {
        self.open.events.len() < self.size_limit || self.open.events.len() == 0
    }

    /// Whether recording this event seals the open batch.
    pub open spec fn seals_on(self, event: BridgeEvent, txn: Seq<u8>, meta: TxnMeta) -> bool {
        self.open.push(event, txn, meta).events.len() >= self.size_limit
    }

    /// Whether the open batch is due: non-empty, and either full or older
    /// than the flush interval at `now`.
    pub open spec fn due(self, now: u64) -> bool {
        &&& self.open.events.len() > 0
        &&& (self.open.events.len() >= self.size_limit || now >= self.open.opened_at
            + self.flush_interval)
    }
}

impl BatchAccumulator {
    #[verifier::type_invariant]
    spec fn inv(&self) -> bool {
        self@.below_limit()
    }

    /// An accumulator with an empty batch opened at `now`.
    pub fn new(size_limit: usize, flush_interval: u64, now: u64) -> (r: BatchAccumulator)
        ensures
            r@ == (AccumulatorModel { open: BatchModel::empty(now), size_limit, flush_interval }),
    {
        BatchAccumulator { open: Batch::empty(now), size_limit, flush_interval }
    }

    /// Records one event into the open batch. When that makes the batch reach
    /// the size limit, the batch is sealed at once and handed back, and a new
    /// empty batch opened at `now` takes its place.
    pub fn on_event(&mut self, event: BridgeEvent, txn: Vec<u8>, meta: TxnMeta, now: u64) -> (r:
        Option<Batch>)
        ensures
            final(self)@.size_limit == old(self)@.size_limit,
            final(self)@.flush_interval == old(self)@.flush_interval,
            ({
                let grown = old(self)@.open.push(event, txn@, meta);
                if old(self)@.seals_on(event, txn@, meta) {
                    &&& r matches Some(b) && b@ == grown
                    &&& final(self)@.open == BatchModel::empty(now)
                } else {
                    &&& r is None
                    &&& final(self)@.open == grown
                }
            }),
            final(self)@.below_limit(),
            final(self)@.open.aligned(),
            r matches Some(b) ==> b@.aligned(),
    {
        let mut taken = BatchAccumulator::new(0, 0, 0);
        std::mem::swap(self, &mut taken);
        let BatchAccumulator { mut open, size_limit, flush_interval } = taken;
        open.push(event, txn, meta);
        if open.len() >= size_limit {
            *self = BatchAccumulator { open: Batch::empty(now), size_limit, flush_interval };
            Some(open)
        } else {
            *self = BatchAccumulator { open, size_limit, flush_interval };
            None
        }
    }

    /// The flush timer fired: a non-empty open batch is sealed and handed
    /// back, with a new empty batch opened at `now`; an empty one stays as it
    /// is.
    pub fn on_tick(&mut self, now: u64) -> (r: Option<Batch>)
        ensures
            final(self)@.size_limit == old(self)@.size_limit,
            final(self)@.flush_interval == old(self)@.flush_interval,
            old(self)@.open.events.len() == 0 ==> r is None && final(self)@ == old(self)@,
            old(self)@.open.events.len() > 0 ==> (r matches Some(b) && b@ == old(self)@.open)
                && final(self)@.open == BatchModel::empty(now),
            final(self)@.below_limit(),
            final(self)@.open.aligned(),
            r matches Some(b) ==> b@.aligned(),
    {
        if self.open.is_empty() {
            None
        } else {
            Some(self.seal(now))
        }
    }

    /// Seals the open batch: hands it back and opens an empty one at `now`.
    pub fn seal(&mut self, now: u64) -> (r: Batch)
        requires
            old(self)@.open.events.len() > 0,
        ensures
            r@ == old(self)@.open,
            r@.aligned(),
            final(self)@ == (AccumulatorModel { open: BatchModel::empty(now), ..old(self)@ }),
    {
        let mut taken = BatchAccumulator::new(0, 0, 0);
        std::mem::swap(self, &mut taken);
        let BatchAccumulator { open, size_limit, flush_interval } = taken;
        *self = BatchAccumulator { open: Batch::empty(now), size_limit, flush_interval };
        proof {
            use_type_invariant(&open);
        }
        open
    }

    /// Whether the open batch should be sealed at `now`.
    pub fn should_seal(&self, now: u64) -> (r: bool)
        ensures
            r == self@.due(now),
    {
        let len = self.open.len();
        len > 0 && (len >= self.size_limit || now as u128 >= self.open.opened_at() as u128
            + self.flush_interval as u128)
    }

    /// The open batch.
    pub fn open_batch(&self) -> (r: &Batch)
        ensures
            r@ == self@.open,
    {
        &self.open
    }

    /// The number of events that seals a batch.
    pub fn size_limit(&self) -> (r: usize)
        ensures
            r == self@.size_limit,
    {
        self.size_limit
    }

    /// The flush interval, in seconds.
    pub fn flush_interval(&self) -> (r: u64)
        ensures
            r == self@.flush_interval,
    {
        self.flush_interval
    }
}

/// Recording an event keeps a batch's three sequences index-aligned: the
/// empty batch is aligned and recording is the only change a batch sees.
pub proof fn lemma_record_keeps_alignment(
    m: BatchModel,
    event: BridgeEvent,
    txn: Seq<u8>,
    meta: TxnMeta,
)
    requires
        m.aligned(),
    ensures
        m.push(event, txn, meta).aligned(),
        BatchModel::empty(m.opened_at).aligned(),
{
}

/// With a size limit of at least one, recording an event seals the batch
/// exactly when it is the batch's `size_limit`-th event.
pub proof fn lemma_seal_exactly_at_limit(
    m: AccumulatorModel,
    event: BridgeEvent,
    txn: Seq<u8>,
    meta: TxnMeta,
)
    requires
        m.below_limit(),
        m.size_limit >= 1,
    ensures
        m.seals_on(event, txn, meta) <==> m.open.events.len() + 1 == m.size_limit,
{
}

} // verus!
