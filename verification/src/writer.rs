use vstd::prelude::*;
use vstd::arithmetic::div_mod::lemma_fundamental_div_mod;
use crate::records::DestinationRecord;

verus! {

/// Most put-items the destination store accepts in one atomic batch write:
/// a protocol limit of the store, not a tunable.
pub const CHUNK_CAPACITY: usize = 20;

/// The length of the chunk cut from a queue of `remaining` records: full
/// capacity while enough records remain, the rest otherwise.
pub open spec fn spec_chunk_len(remaining: int) -> int {
    if remaining >= CHUNK_CAPACITY as int {
        CHUNK_CAPACITY as int
    } else {
        remaining
    }
}

/// Failures one answered chunk contributes: the unprocessed items of a
/// successful call, or the whole chunk when the call itself failed.
pub open spec fn spec_chunk_failure(chunk_len: int, unprocessed: Option<usize>) -> int {
    match unprocessed {
        Some(u) => u as int,
        None => chunk_len,
    }
}

/// Submits built records to the destination store in bounded chunks, strictly
/// in sequence, counting — never retrying — the items the store reports as
/// unprocessed and the chunks whose call failed outright.
pub struct BatchWriter {
    /// Records accepted and not yet handed out in a chunk, in arrival order.
    pub queue: Vec<DestinationRecord>,
    /// Size of the chunk handed out and awaiting its outcome; zero when none is.
    pub in_flight: usize,
    /// Records ever accepted.
    pub total: usize,
    /// Records counted as failed by answered chunks.
    pub failed: usize,
}

impl BatchWriter {
    /// Book-keeping the writer maintains: failures are only ever counted
    /// against records that were accepted and left the queue.
    pub open spec fn wf(self) -> bool {
        &&& self.failed + self.in_flight + self.queue@.len() <= self.total
        &&& self.in_flight <= CHUNK_CAPACITY
    }

    /// A writer with nothing accepted, nothing in flight and nothing failed.
    pub fn new() -> (r: BatchWriter)
        ensures
            r.queue@ == Seq::<DestinationRecord>::empty(),
            r.in_flight == 0,
            r.total == 0,
            r.failed == 0,
            r.wf(),
    {
        BatchWriter { queue: Vec::new(), in_flight: 0, total: 0, failed: 0 }
    }

    /// Accepts one built record for the flush to come; only callable before
    /// flushing begins (no chunk taken or in flight yet).
    pub fn push(&mut self, record: DestinationRecord)
        requires
            old(self).wf(),
            old(self).in_flight == 0,
            old(self).queue@.len() == old(self).total,
        ensures
            final(self).queue@ == old(self).queue@.push(record),
            final(self).in_flight == 0,
            final(self).total == old(self).total + 1,
            final(self).failed == old(self).failed,
            final(self).wf(),
    {
        self.queue.push(record);
        self.total = self.queue.len();
    }

    /// Cuts the next chunk to submit: the oldest queued records, at most
    /// `CHUNK_CAPACITY` of them, in order; they stay charged to the writer as
    /// in flight until their outcome is recorded.
    pub fn next_chunk(&mut self) -> (chunk: Vec<DestinationRecord>)
        requires
            old(self).wf(),
            old(self).in_flight == 0,
            old(self).queue@.len() > 0,
        ensures
            chunk@.len() == spec_chunk_len(old(self).queue@.len() as int),
            chunk@ == old(self).queue@.subrange(0, chunk@.len() as int),
            final(self).queue@ == old(self).queue@.subrange(
                chunk@.len() as int,
                old(self).queue@.len() as int,
            ),
            final(self).in_flight == chunk@.len(),
            final(self).total == old(self).total,
            final(self).failed == old(self).failed,
            final(self).wf(),
    {
        let take: usize = if self.queue.len() < CHUNK_CAPACITY {
            self.queue.len()
        } else {
            CHUNK_CAPACITY
        };
        let ghost original = self.queue@;
        let mut chunk: Vec<DestinationRecord> = Vec::new();
        while chunk.len() < take
            invariant
                take == spec_chunk_len(original.len() as int),
                chunk@.len() <= take,
                chunk@ == original.subrange(0, chunk@.len() as int),
                self.queue@ == original.subrange(chunk@.len() as int, original.len() as int),
                self.in_flight == 0,
                self.total == old(self).total,
                self.failed == old(self).failed,
            decreases take - chunk@.len(),
        {
            let ghost done: int = chunk@.len() as int;
            let record = self.queue.remove(0);
            chunk.push(record);
            proof {
                assert(chunk@ =~= original.subrange(0, done + 1));
                assert(self.queue@ =~= original.subrange(done + 1, original.len() as int));
            }
        }
        self.in_flight = chunk.len();
        chunk
    }

    /// Records the destination store's answer for the chunk in flight:
    /// `Some(u)` when the call succeeded with `u` items left unprocessed,
    /// `None` when the whole call failed. Either way the run goes on; the
    /// items are only counted as failed, never retried.
    pub fn record_chunk_outcome(&mut self, unprocessed: Option<usize>)
        requires
            old(self).wf(),
            old(self).in_flight > 0,
            match unprocessed {
                Some(u) => u <= old(self).in_flight,
                None => true,
            },
        ensures
            final(self).in_flight == 0,
            final(self).failed == old(self).failed + spec_chunk_failure(
                old(self).in_flight as int,
                unprocessed,
            ),
            final(self).queue == old(self).queue,
            final(self).total == old(self).total,
            final(self).wf(),
    {
        let add: usize = match unprocessed {
            Some(u) => u,
            None => self.in_flight,
        };
        self.failed = self.failed + add;
        self.in_flight = 0;
    }

    /// How many records wait to be cut into a chunk.
    pub fn queued_count(&self) -> (r: usize)
        ensures
            r == self.queue@.len(),
    {
        self.queue.len()
    }

    /// How many records were ever accepted for writing.
    pub fn total_count(&self) -> (r: usize)
        ensures
            r == self.total,
    {
        self.total
    }

    /// How many records were counted as failed so far.
    pub fn failed_count(&self) -> (r: usize)
        ensures
            r == self.failed,
    {
        self.failed
    }

    /// The flush's outcome so far as (succeeded, failed): a record succeeded
    /// once its chunk was answered and it was not counted as failed.
    pub fn counts(&self) -> (r: (usize, usize))
        requires
            self.wf(),
        ensures
            r.0 == self.total - self.failed - self.in_flight - self.queue@.len(),
            r.1 == self.failed,
    {
        (self.total - self.failed - self.in_flight - self.queue.len(), self.failed)
    }
}

/// How many write calls a flush of `pending` records issues: one per chunk.
pub open spec fn spec_num_chunks(pending: int) -> int {
    (pending + CHUNK_CAPACITY - 1) / (CHUNK_CAPACITY as int)
}

/// Records still queued after the first `steps` chunks of an initial
/// `pending` have been cut.
pub open spec fn spec_remaining_after(pending: int, steps: int) -> int {
    if pending - CHUNK_CAPACITY * steps >= 0 {
        pending - CHUNK_CAPACITY * steps
    } else {
        0
    }
}

/// One flush step of the model: the oldest chunk leaves the queue and its
/// outcome's failures are added to the count.
pub open spec fn spec_flush_step(state: (int, int), outcome: Option<usize>) -> (int, int) {
    (
        state.0 - spec_chunk_len(state.0),
        state.1 + spec_chunk_failure(spec_chunk_len(state.0), outcome),
    )
}

/// The flush model after `steps` chunk submissions of an initial `pending`
/// queue: (records still queued, failures counted).
pub open spec fn spec_flush_run(pending: int, outcomes: Seq<Option<usize>>, steps: int) -> (
    int,
    int,
)
    decreases steps,
{
    if steps <= 0 {
        (pending, 0)
    } else {
        spec_flush_step(spec_flush_run(pending, outcomes, steps - 1), outcomes[steps - 1])
    }
}

/// Failures the first `steps` chunks contribute, summed chunk by chunk.
pub open spec fn spec_failures_sum(pending: int, outcomes: Seq<Option<usize>>, steps: int) -> int
    decreases steps,
{
    if steps <= 0 {
        0
    } else {
        spec_failures_sum(pending, outcomes, steps - 1) + spec_chunk_failure(
            spec_chunk_len(spec_remaining_after(pending, steps - 1)),
            outcomes[steps - 1],
        )
    }
}

/// After `steps` chunks the flush model holds exactly the directly computed
/// remainder and the chunk-by-chunk failure sum.
proof fn lemma_flush_run_shape(pending: int, outcomes: Seq<Option<usize>>, steps: int)
    requires
        pending >= 0,
        steps >= 0,
    ensures
        spec_flush_run(pending, outcomes, steps) == (
            spec_remaining_after(pending, steps),
            spec_failures_sum(pending, outcomes, steps),
        ),
    decreases steps,
{
    if steps > 0 {
        lemma_flush_run_shape(pending, outcomes, steps - 1);
    }
}

/// A flush of `pending` records issues exactly
/// `ceil(pending / CHUNK_CAPACITY)` write calls — before each of them records
/// are still queued, and after the last none are — each call carries at least
/// one and at most `CHUNK_CAPACITY` records, and the failure count reported
/// at the end is the sum of the failures of the individual chunks.
pub proof fn lemma_flush_chunk_accounting(pending: int, outcomes: Seq<Option<usize>>)
    requires
        pending >= 0,
        outcomes.len() == spec_num_chunks(pending),
    ensures
        forall|j: int|
            0 <= j < spec_num_chunks(pending) ==> (#[trigger] spec_flush_run(
                pending,
                outcomes,
                j,
            )).0 > 0,
        forall|j: int|
            0 <= j < spec_num_chunks(pending) ==> 1 <= spec_chunk_len(
                (#[trigger] spec_flush_run(pending, outcomes, j)).0,
            ) <= CHUNK_CAPACITY as int,
        spec_flush_run(pending, outcomes, spec_num_chunks(pending)).0 == 0,
        spec_flush_run(pending, outcomes, spec_num_chunks(pending)).1 == spec_failures_sum(
            pending,
            outcomes,
            spec_num_chunks(pending),
        ),
{
    let chunks = spec_num_chunks(pending);
    let capacity = CHUNK_CAPACITY as int;
    lemma_fundamental_div_mod(pending + capacity - 1, capacity);
    assert(capacity * chunks >= pending && capacity * chunks <= pending + capacity - 1);
    assert forall|j: int| 0 <= j < chunks implies (#[trigger] spec_flush_run(
        pending,
        outcomes,
        j,
    )).0 > 0 && 1 <= spec_chunk_len(spec_flush_run(pending, outcomes, j).0) <= capacity by {
        lemma_flush_run_shape(pending, outcomes, j);
        assert(capacity * j <= capacity * (chunks - 1)) by (nonlinear_arith)
            requires
                capacity > 0,
                j <= chunks - 1,
        ;
        assert(spec_remaining_after(pending, j) > 0);
    }
    lemma_flush_run_shape(pending, outcomes, chunks);
    assert(spec_remaining_after(pending, chunks) == 0);
}

} // verus!
