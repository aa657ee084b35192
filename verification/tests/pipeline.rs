use curation_sync::pipeline::{SyncPhase, SyncPipeline};
use curation_sync::records::{
    ElasticCurations, ElasticCurationsResponse, ElasticDocument, ElasticMeta, ElasticMetaPage,
};
use curation_sync::resolver::enrichment_target;

fn strings(xs: &[&str]) -> Vec<String> {
    let mut v = Vec::new();
    for x in xs {
        v.push(x.to_string());
    }
    v
}

fn curation(id: &str, queries: &[&str], promoted: &[&str], hidden: &[&str]) -> ElasticCurations {
    ElasticCurations {
        id: id.to_string(),
        queries: strings(queries),
        promoted: strings(promoted),
        hidden: strings(hidden),
    }
}

fn page(current: i32, total_pages: i32, results: Vec<ElasticCurations>) -> ElasticCurationsResponse {
    let size = results.len() as i32;
    ElasticCurationsResponse {
        meta: ElasticMeta {
            page: ElasticMetaPage { current, total_pages, total_results: size, size },
        },
        results,
    }
}

fn document(id: &str, title: &str, language: Option<&str>) -> ElasticDocument {
    ElasticDocument {
        id: id.to_string(),
        title: title.to_string(),
        language: language.map(|l| l.to_string()),
    }
}

#[test]
fn one_page_two_curations_built_and_written() {
    let mut p = SyncPipeline::new();
    assert_eq!(p.phase, SyncPhase::Fetching);
    assert_eq!(p.next_page, 1);

    let a = curation("A", &[], &["docX"], &[]);
    let b = curation("B", &[], &[], &[]);
    p.on_page(page(1, 1, vec![a, b]));
    assert_eq!(p.phase, SyncPhase::Transforming);
    assert_eq!(p.fetched, 2);

    let target_a = enrichment_target(p.current_curation().unwrap());
    assert_eq!(target_a, Some("docX".to_string()));
    p.transform_one(false, Some(document("docX", "Hello", Some("en"))));

    let target_b = enrichment_target(p.current_curation().unwrap());
    assert_eq!(target_b, None);
    p.transform_one(false, None);

    assert!(p.current_curation().is_none());
    p.begin_writing();
    assert_eq!(p.phase, SyncPhase::Writing);

    let chunk = p.next_chunk();
    assert_eq!(chunk.len(), 2);

    let rec_a = &chunk[0];
    assert_eq!(rec_a.external_curation_id, "A");
    assert_eq!(rec_a.curation_type, "standard");
    assert_eq!(rec_a.document_id, Some("docX".to_string()));
    assert_eq!(rec_a.title, Some("Hello".to_string()));
    assert_eq!(rec_a.language, "en");
    assert_eq!(rec_a.promoted, Some(vec!["docX".to_string()]));
    assert_eq!(rec_a.queries, None);
    assert_eq!(rec_a.hidden, None);
    assert_eq!(rec_a.id.len(), 36);

    let rec_b = &chunk[1];
    assert_eq!(rec_b.external_curation_id, "B");
    assert_eq!(rec_b.document_id, None);
    assert_eq!(rec_b.title, None);
    assert_eq!(rec_b.language, "fi");
    assert_eq!(rec_b.promoted, None);

    p.on_chunk_outcome(Some(0));
    assert_eq!(p.phase, SyncPhase::Done);
    let (fetched, pending, failed) = p.report();
    assert_eq!(fetched, 2);
    assert_eq!(pending, 2);
    assert_eq!(failed, 0);
}

#[test]
fn existing_record_skipped() {
    let mut p = SyncPipeline::new();
    let a = curation("A", &[], &["docX"], &[]);
    let b = curation("B", &[], &[], &[]);
    p.on_page(page(1, 1, vec![a, b]));

    // The destination already holds a record for A: it is skipped and
    // only B proceeds.
    p.transform_one(true, None);
    p.transform_one(false, None);
    p.begin_writing();
    assert_eq!(p.phase, SyncPhase::Writing);

    let chunk = p.next_chunk();
    assert_eq!(chunk.len(), 1);
    assert_eq!(chunk[0].external_curation_id, "B");

    p.on_chunk_outcome(Some(0));
    let (fetched, pending, failed) = p.report();
    assert_eq!(fetched, 2);
    assert_eq!(pending, 1);
    assert_eq!(failed, 0);
}

#[test]
fn every_curation_already_present_writes_nothing() {
    let mut p = SyncPipeline::new();
    p.on_page(page(1, 1, vec![curation("A", &[], &[], &[]), curation("B", &[], &[], &[])]));
    p.transform_one(true, None);
    p.transform_one(true, None);
    p.begin_writing();
    assert_eq!(p.phase, SyncPhase::Done);
    let (fetched, pending, failed) = p.report();
    assert_eq!(fetched, 2);
    assert_eq!(pending, 0);
    assert_eq!(failed, 0);
}

#[test]
fn three_pages_fetched_in_order() {
    let mut p = SyncPipeline::new();
    assert_eq!(p.next_page, 1);
    p.on_page(page(1, 3, vec![curation("A", &[], &[], &[])]));
    assert_eq!(p.phase, SyncPhase::Fetching);
    assert_eq!(p.next_page, 2);
    p.on_page(page(2, 3, vec![curation("B", &[], &[], &[]), curation("C", &[], &[], &[])]));
    assert_eq!(p.phase, SyncPhase::Fetching);
    assert_eq!(p.next_page, 3);
    p.on_page(page(3, 3, vec![]));
    assert_eq!(p.phase, SyncPhase::Transforming);
    assert_eq!(p.fetched, 3);

    // Arrival order is kept across pages.
    assert_eq!(p.current_curation().unwrap().id, "A");
    p.transform_one(true, None);
    assert_eq!(p.current_curation().unwrap().id, "B");
    p.transform_one(true, None);
    assert_eq!(p.current_curation().unwrap().id, "C");
    p.transform_one(true, None);
    p.begin_writing();
    assert_eq!(p.phase, SyncPhase::Done);
}

#[test]
fn empty_source_reports_zero() {
    let mut p = SyncPipeline::new();
    p.on_page(page(1, 1, vec![]));
    assert_eq!(p.phase, SyncPhase::Transforming);
    p.begin_writing();
    assert_eq!(p.phase, SyncPhase::Done);
    let (fetched, pending, failed) = p.report();
    assert_eq!(fetched, 0);
    assert_eq!(pending, 0);
    assert_eq!(failed, 0);
}

#[test]
fn forty_five_records_flush_in_three_chunks_with_failure_accounting() {
    let mut p = SyncPipeline::new();
    let mut curations = Vec::new();
    for i in 0..45 {
        curations.push(curation(&format!("c{}", i), &[], &[], &[]));
    }
    p.on_page(page(1, 1, curations));
    for _ in 0..45 {
        p.transform_one(false, None);
    }
    p.begin_writing();
    assert_eq!(p.phase, SyncPhase::Writing);

    let first = p.next_chunk();
    assert_eq!(first.len(), 20);
    assert_eq!(first[0].external_curation_id, "c0");
    // A successful call with three unprocessed items: three failures.
    p.on_chunk_outcome(Some(3));
    assert_eq!(p.phase, SyncPhase::Writing);

    let second = p.next_chunk();
    assert_eq!(second.len(), 20);
    assert_eq!(second[0].external_curation_id, "c20");
    // The whole call failed: every item of the chunk counts as failed.
    p.on_chunk_outcome(None);
    assert_eq!(p.phase, SyncPhase::Writing);

    let third = p.next_chunk();
    assert_eq!(third.len(), 5);
    assert_eq!(third[0].external_curation_id, "c40");
    p.on_chunk_outcome(Some(0));
    assert_eq!(p.phase, SyncPhase::Done);

    let (fetched, pending, failed) = p.report();
    assert_eq!(fetched, 45);
    assert_eq!(pending, 45);
    assert_eq!(failed, 3 + 20);
}

#[test]
fn exactly_twenty_records_need_one_chunk() {
    let mut p = SyncPipeline::new();
    let mut curations = Vec::new();
    for i in 0..20 {
        curations.push(curation(&format!("c{}", i), &[], &[], &[]));
    }
    p.on_page(page(1, 1, curations));
    for _ in 0..20 {
        p.transform_one(false, None);
    }
    p.begin_writing();
    let chunk = p.next_chunk();
    assert_eq!(chunk.len(), 20);
    p.on_chunk_outcome(Some(0));
    assert_eq!(p.phase, SyncPhase::Done);
}

#[test]
fn twenty_one_records_need_two_chunks() {
    let mut p = SyncPipeline::new();
    let mut curations = Vec::new();
    for i in 0..21 {
        curations.push(curation(&format!("c{}", i), &[], &[], &[]));
    }
    p.on_page(page(1, 1, curations));
    for _ in 0..21 {
        p.transform_one(false, None);
    }
    p.begin_writing();
    assert_eq!(p.next_chunk().len(), 20);
    p.on_chunk_outcome(Some(0));
    assert_eq!(p.phase, SyncPhase::Writing);
    assert_eq!(p.next_chunk().len(), 1);
    p.on_chunk_outcome(Some(1));
    assert_eq!(p.phase, SyncPhase::Done);
    let (_, _, failed) = p.report();
    assert_eq!(failed, 1);
}
