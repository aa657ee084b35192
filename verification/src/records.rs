use vstd::prelude::*;

verus! {

/// One curation rule set as the source system reports it: the search queries
/// it applies to and the documents it explicitly promotes or hides. The
/// sequences may be empty; `id` is the identifier the source system assigned.
pub struct ElasticCurations {
    pub id: String,
    pub queries: Vec<String>,
    pub promoted: Vec<String>,
    pub hidden: Vec<String>,
}

/// Pagination metadata of one page of curations. `current` starts at 1 and
/// retrieval ends on the page that reports `current == total_pages`.
pub struct ElasticMetaPage {
    pub current: i32,
    pub total_pages: i32,
    pub total_results: i32,
    pub size: i32,
}

/// Envelope metadata around one page of curations.
pub struct ElasticMeta {
    pub page: ElasticMetaPage,
}

/// One page of curations together with its pagination metadata, as the
/// source API answers one fetch.
pub struct ElasticCurationsResponse {
    pub meta: ElasticMeta,
    pub results: Vec<ElasticCurations>,
}

/// An enrichment document looked up by id to decorate a curation with a
/// human-readable title and, when known, a language.
pub struct ElasticDocument {
    pub id: String,
    pub title: String,
    pub language: Option<String>,
}

/// The flat attribute set written to the destination store, one per curation
/// that passes the dedup check. An optional attribute is absent entirely
/// (`None`) rather than an empty placeholder: absence and empty collection
/// are distinct to the store.
pub struct DestinationRecord {
    /// Freshly generated primary key, distinct from the source identifier.
    pub id: String,
    /// Copy of the curation's source identifier, used only for dedup lookups.
    pub external_curation_id: String,
    /// Constant classification tag.
    pub curation_type: String,
    /// Promoted document ids, present only when the source sequence is non-empty.
    pub promoted: Option<Vec<String>>,
    /// Hidden document ids, present only when the source sequence is non-empty.
    pub hidden: Option<Vec<String>>,
    /// Applicable queries, present only when the source sequence is non-empty.
    pub queries: Option<Vec<String>>,
    /// Id of the resolved enrichment document, when one was resolved.
    pub document_id: Option<String>,
    /// Title of the resolved enrichment document, when one was resolved.
    pub title: Option<String>,
    /// Resolved language; never absent, defaulting to the fallback locale.
    pub language: String,
}

} // verus!
