use vstd::prelude::*;
use crate::builder::{build_record, spec_built_from};
use crate::records::{ElasticCurations, ElasticCurationsResponse, ElasticDocument};
use crate::writer::BatchWriter;

verus! {

/// The run's phases, entered in this one order with no loop back: a fatal
/// error while fetching abandons the whole run, while per-item and per-chunk
/// errors are only recorded and never unwind.
#[derive(Clone, Copy, PartialEq, Eq, Structural, Debug)]
pub enum SyncPhase {
    Fetching,
    Transforming,
    Writing,
    Done,
}

/// Orchestrates one run: page-by-page retrieval, the per-record dedup
/// check and build, then the chunked batch write, aggregating the final counts.
/// The remote calls stay with the caller; the pipeline consumes each call's
/// result as an event and decides what happens next.
///
/// Failure policy: a failed page fetch is fatal — the caller abandons the
/// run and relies on idempotent re-invocation. A failed dedup check is
/// treated the same conservative way (abort rather than risk a duplicate
/// write). A failed or absent enrichment lookup is handed in as `None` and
/// the run goes on; a failed chunk write is handed in as its outcome and the
/// chunk is only counted as failed.
pub struct SyncPipeline {
    pub phase: SyncPhase,
    /// Page to request next while fetching, starting at 1.
    pub next_page: i32,
    /// Curations retrieved over all pages.
    pub fetched: usize,
    /// Curations fetched and not yet taken through the dedup check, in
    /// arrival order.
    pub curations: Vec<ElasticCurations>,
    /// Accumulates the records the dedup check lets through and flushes them.
    pub writer: BatchWriter,
}

impl SyncPipeline {
    /// Book-keeping the orchestrator maintains across phases.
    pub open spec fn wf(self) -> bool {
        &&& self.writer.wf()
        &&& (self.phase == SyncPhase::Fetching || self.phase == SyncPhase::Transforming)
            ==> self.writer.in_flight == 0 && self.writer.queue@.len() == self.writer.total
        &&& self.phase == SyncPhase::Fetching ==> self.curations@.len() == self.fetched
            && self.writer.total == 0
    }

    /// A fresh run: about to request page 1, nothing fetched, nothing pending.
    pub fn new() -> (r: SyncPipeline)
        ensures
            r.phase == SyncPhase::Fetching,
            r.next_page == 1,
            r.fetched == 0,
            r.curations@ == Seq::<ElasticCurations>::empty(),
            r.writer.total == 0,
            r.writer.failed == 0,
            r.wf(),
    {
        SyncPipeline {
            phase: SyncPhase::Fetching,
            next_page: 1,
            fetched: 0,
            curations: Vec::new(),
            writer: BatchWriter::new(),
        }
    }

    /// Consumes one page envelope: its results accumulate in arrival order,
    /// and the run either advances to the next page or — when the envelope
    /// reports the current page as the last — moves on to transforming.
    pub fn on_page(&mut self, response: ElasticCurationsResponse)
        requires
            old(self).wf(),
            old(self).phase == SyncPhase::Fetching,
            old(self).next_page < i32::MAX,
        ensures
            final(self).curations@ == old(self).curations@ + response.results@,
            final(self).fetched == old(self).fetched + response.results@.len(),
            (final(self).phase == SyncPhase::Transforming) == (response.meta.page.current
                == response.meta.page.total_pages),
            final(self).phase == SyncPhase::Fetching || final(self).phase
                == SyncPhase::Transforming,
            final(self).phase == SyncPhase::Fetching ==> final(self).next_page == old(
                self,
            ).next_page + 1,
            final(self).phase == SyncPhase::Transforming ==> final(self).next_page == old(
                self,
            ).next_page,
            final(self).writer == old(self).writer,
            (
                final(self).curations@,
                final(self).next_page as int,
                final(self).phase == SyncPhase::Fetching,
            ) == spec_fetch_step(
                (old(self).curations@, old(self).next_page as int, true),
                response,
            ),
            final(self).wf(),
    {
        let ElasticCurationsResponse { meta, results } = response;
        let mut results = results;
        self.curations.append(&mut results);
        self.fetched = self.curations.len();
        if meta.page.current == meta.page.total_pages {
            self.phase = SyncPhase::Transforming;
        } else {
            self.next_page = self.next_page + 1;
        }
    }

    /// The curation the dedup check examines next, oldest first; `None` once
    /// every fetched curation has been examined.
    pub fn current_curation(&self) -> (r: Option<&ElasticCurations>)
        requires
            self.phase == SyncPhase::Transforming,
        ensures
            match r {
                Some(curation) => self.curations@.len() > 0 && *curation == self.curations@[0],
                None => self.curations@.len() == 0,
            },
    {
        if self.curations.len() == 0 {
            None
        } else {
            Some(&self.curations[0])
        }
    }

    /// Takes the oldest fetched curation through the dedup check. One the
    /// destination already holds (`already_present`) is skipped entirely —
    /// it is considered synchronized. Otherwise a destination record is
    /// built from the curation and the enrichment document the caller
    /// resolved for it (`None` when absent or failed) and queued for writing
    /// under a fresh primary key.
    pub fn transform_one(&mut self, already_present: bool, document: Option<ElasticDocument>)
        requires
            old(self).wf(),
            old(self).phase == SyncPhase::Transforming,
            old(self).curations@.len() > 0,
        ensures
            final(self).curations@ == old(self).curations@.remove(0),
            final(self).phase == SyncPhase::Transforming,
            final(self).fetched == old(self).fetched,
            final(self).next_page == old(self).next_page,
            final(self).writer.queue@.len() == old(self).writer.queue@.len() + (
            if already_present {
                0int
            } else {
                1int
            }),
            already_present ==> final(self).writer == old(self).writer,
            !already_present ==> {
                &&& final(self).writer.queue@ == old(self).writer.queue@.push(
                    final(self).writer.queue@.last(),
                )
                &&& spec_built_from(
                    final(self).writer.queue@.last(),
                    old(self).curations@[0],
                    document,
                )
                &&& final(self).writer.queue@.last().id@.len() == 36
                &&& final(self).writer.total == old(self).writer.total + 1
                &&& final(self).writer.failed == old(self).writer.failed
            },
            final(self).wf(),
    {
        let curation = self.curations.remove(0);
        if !already_present {
            let record = build_record(curation, document);
            self.writer.push(record);
        }
    }

    /// Ends transforming once every curation has been examined. With
    /// nothing queued there is nothing to write and the run is complete;
    /// otherwise writing begins.
    pub fn begin_writing(&mut self)
        requires
            old(self).wf(),
            old(self).phase == SyncPhase::Transforming,
            old(self).curations@.len() == 0,
        ensures
            final(self).phase == (if old(self).writer.queue@.len() == 0 {
                SyncPhase::Done
            } else {
                SyncPhase::Writing
            }),
            final(self).writer == old(self).writer,
            final(self).fetched == old(self).fetched,
            final(self).next_page == old(self).next_page,
            final(self).curations@ == old(self).curations@,
            final(self).wf(),
    {
        if self.writer.queued_count() == 0 {
            self.phase = SyncPhase::Done;
        } else {
            self.phase = SyncPhase::Writing;
        }
    }

    /// Hands out the next chunk to submit to the destination store, oldest
    /// records first, at most `CHUNK_CAPACITY` of them.
    pub fn next_chunk(&mut self) -> (chunk: Vec<crate::records::DestinationRecord>)
        requires
            old(self).wf(),
            old(self).phase == SyncPhase::Writing,
            old(self).writer.in_flight == 0,
            old(self).writer.queue@.len() > 0,
        ensures
            chunk@.len() == crate::writer::spec_chunk_len(old(self).writer.queue@.len() as int),
            chunk@ == old(self).writer.queue@.subrange(0, chunk@.len() as int),
            final(self).writer.queue@ == old(self).writer.queue@.subrange(
                chunk@.len() as int,
                old(self).writer.queue@.len() as int,
            ),
            final(self).writer.in_flight == chunk@.len(),
            final(self).writer.total == old(self).writer.total,
            final(self).writer.failed == old(self).writer.failed,
            final(self).phase == SyncPhase::Writing,
            final(self).fetched == old(self).fetched,
            final(self).wf(),
    {
        self.writer.next_chunk()
    }

    /// Consumes the destination store's answer for the chunk in flight —
    /// `Some(u)` for a successful call with `u` unprocessed items, `None`
    /// for a failed call — and closes the run once the last chunk is
    /// answered.
    pub fn on_chunk_outcome(&mut self, unprocessed: Option<usize>)
        requires
            old(self).wf(),
            old(self).phase == SyncPhase::Writing,
            old(self).writer.in_flight > 0,
            match unprocessed {
                Some(u) => u <= old(self).writer.in_flight,
                None => true,
            },
        ensures
            final(self).writer.in_flight == 0,
            final(self).writer.failed == old(self).writer.failed
                + crate::writer::spec_chunk_failure(
                old(self).writer.in_flight as int,
                unprocessed,
            ),
            final(self).writer.queue == old(self).writer.queue,
            final(self).writer.total == old(self).writer.total,
            final(self).phase == (if old(self).writer.queue@.len() == 0 {
                SyncPhase::Done
            } else {
                SyncPhase::Writing
            }),
            final(self).fetched == old(self).fetched,
            final(self).wf(),
    {
        self.writer.record_chunk_outcome(unprocessed);
        if self.writer.queued_count() == 0 {
            self.phase = SyncPhase::Done;
        }
    }

    /// The run's final accounting, reported to the operator: curations
    /// fetched, records built and queued for writing, records that failed to
    /// persist. Failures are observability data, not run failures.
    pub fn report(&self) -> (r: (usize, usize, usize))
        requires
            self.phase == SyncPhase::Done,
        ensures
            r.0 == self.fetched,
            r.1 == self.writer.total,
            r.2 == self.writer.failed,
    {
        (self.fetched, self.writer.total_count(), self.writer.failed_count())
    }
}

/// One fetching step over the model state (accumulated curations, page to
/// request next, still fetching): the page's results accumulate and the page
/// counter advances unless the envelope reports the last page.
pub open spec fn spec_fetch_step(
    state: (Seq<ElasticCurations>, int, bool),
    response: ElasticCurationsResponse,
) -> (Seq<ElasticCurations>, int, bool) {
    (
        state.0 + response.results@,
        if response.meta.page.current == response.meta.page.total_pages {
            state.1
        } else {
            state.1 + 1
        },
        response.meta.page.current != response.meta.page.total_pages,
    )
}

/// The model state a fresh run starts from: nothing accumulated, about to
/// request page 1.
pub open spec fn spec_fetch_init() -> (Seq<ElasticCurations>, int, bool) {
    (Seq::<ElasticCurations>::empty(), 1, true)
}

/// The fetch model after consuming the first `steps` page envelopes.
pub open spec fn spec_fetch_run(pages: Seq<ElasticCurationsResponse>, steps: int) -> (
    Seq<ElasticCurations>,
    int,
    bool,
)
    decreases steps,
{
    if steps <= 0 {
        spec_fetch_init()
    } else {
        spec_fetch_step(spec_fetch_run(pages, steps - 1), pages[steps - 1])
    }
}

/// A well-formed paginated answer of `k` pages: the envelope answering the
/// i-th fetch reports current page i+1 of `k` total pages.
pub open spec fn spec_wf_pages(pages: Seq<ElasticCurationsResponse>, k: int) -> bool {
    &&& pages.len() == k
    &&& k >= 1
    &&& forall|i: int|
        0 <= i < k ==> (#[trigger] pages[i]).meta.page.current == i + 1
            && pages[i].meta.page.total_pages == k
}

/// The records the first `steps` pages carry, summed page by page.
pub open spec fn spec_results_total(pages: Seq<ElasticCurationsResponse>, steps: int) -> int
    decreases steps,
{
    if steps <= 0 {
        0
    } else {
        spec_results_total(pages, steps - 1) + pages[steps - 1].results@.len()
    }
}

/// After `steps` pages of a well-formed `k`-page answer the model is still
/// fetching exactly while pages remain, requests page `steps + 1` next, and
/// has accumulated every record of the pages consumed so far.
proof fn lemma_fetch_run_props(pages: Seq<ElasticCurationsResponse>, k: int, steps: int)
    requires
        spec_wf_pages(pages, k),
        0 <= steps <= k,
    ensures
        spec_fetch_run(pages, steps).2 == (steps < k),
        spec_fetch_run(pages, steps).1 == if steps < k {
            steps + 1
        } else {
            k
        },
        spec_fetch_run(pages, steps).0.len() == spec_results_total(pages, steps),
    decreases steps,
{
    if steps > 0 {
        lemma_fetch_run_props(pages, k, steps - 1);
    }
}

/// Fetching a well-formed `k`-page answer performs exactly `k` fetch calls
/// with page numbers 1..k in order — after j < k pages the run still fetches
/// and requests page j+1, and the k-th envelope stops it — and accumulates a
/// record count equal to the sum of the pages' result-set sizes.
pub proof fn lemma_fetch_visits_all_pages(pages: Seq<ElasticCurationsResponse>, k: int)
    requires
        spec_wf_pages(pages, k),
    ensures
        forall|j: int|
            0 <= j < k ==> (#[trigger] spec_fetch_run(pages, j)).2 && spec_fetch_run(
                pages,
                j,
            ).1 == j + 1,
        !spec_fetch_run(pages, k).2,
        spec_fetch_run(pages, k).0.len() == spec_results_total(pages, k),
{
    assert forall|j: int|
        0 <= j < k implies (#[trigger] spec_fetch_run(pages, j)).2 && spec_fetch_run(
        pages,
        j,
    ).1 == j + 1 by {
        lemma_fetch_run_props(pages, k, j);
    }
    lemma_fetch_run_props(pages, k, k);
}

/// Records the transform phase queues for writing after taking `steps`
/// curations through the dedup check, given each one's answer: exactly one
/// record per curation found absent from the destination, none for one
/// already present.
pub open spec fn spec_emitted_count(present: Seq<bool>, steps: int) -> int
    decreases steps,
{
    if steps <= 0 {
        0
    } else {
        spec_emitted_count(present, steps - 1) + if present[steps - 1] {
            0int
        } else {
            1int
        }
    }
}

/// Transforming is idempotent against a populated destination: when the
/// dedup check reports every curation as already present, the transform phase
/// produces no destination record at all, so re-running the pipeline against
/// an unchanged source yields zero new writes.
pub proof fn lemma_existing_curations_produce_nothing(present: Seq<bool>, steps: int)
    requires
        0 <= steps <= present.len(),
        forall|i: int| 0 <= i < steps ==> present[i],
    ensures
        spec_emitted_count(present, steps) == 0,
    decreases steps,
{
    if steps > 0 {
        lemma_existing_curations_produce_nothing(present, steps - 1);
    }
}

} // verus!
