use vstd::prelude::*;
use crate::records::{DestinationRecord, ElasticCurations, ElasticDocument};
use crate::resolver::{
    fallback_language, resolve_language, spec_enrichment_target, spec_fallback_language,
    spec_resolved_language,
};

verus! {

/// Classification tag stored on every destination record.
pub open spec fn spec_curation_type() -> Seq<char> {
    "standard"@
}

/// The classification tag as an owned value.
pub fn curation_type_tag() -> (r: String)
    ensures
        r@ == spec_curation_type(),
{
    "standard".to_owned()
}

/// Relates a built destination record to its source curation and optional
/// enrichment document: every attribute except the fresh primary key, which
/// is generated rather than derived. An attribute backed by an empty source
/// sequence is absent entirely, not an empty placeholder.
pub open spec fn spec_built_from(
    r: DestinationRecord,
    curation: ElasticCurations,
    document: Option<ElasticDocument>,
) -> bool {
    &&& r.external_curation_id == curation.id
    &&& r.curation_type@ == spec_curation_type()
    &&& r.promoted == (if curation.promoted@.len() == 0 {
        None
    } else {
        Some(curation.promoted)
    })
    &&& r.hidden == (if curation.hidden@.len() == 0 {
        None
    } else {
        Some(curation.hidden)
    })
    &&& r.queries == (if curation.queries@.len() == 0 {
        None
    } else {
        Some(curation.queries)
    })
    &&& r.document_id == (match document {
        Some(doc) => Some(doc.id),
        None => None::<String>,
    })
    &&& r.title == (match document {
        Some(doc) => Some(doc.title),
        None => None::<String>,
    })
    &&& r.language@ == spec_resolved_language(document)
}

/// Maps one (curation, optional enrichment) pair into the destination
/// store's attribute representation under a caller-supplied primary key.
/// Pure: every attribute of the result is pinned by the arguments.
pub fn build_with_id(
    curation: ElasticCurations,
    document: Option<ElasticDocument>,
    fresh_id: String,
) -> (r: DestinationRecord)
    ensures
        spec_built_from(r, curation, document),
        r.id == fresh_id,
{
    let language = resolve_language(&document);
    let (document_id, title) = match document {
        Some(doc) => (Some(doc.id), Some(doc.title)),
        None => (None, None),
    };
    let ElasticCurations { id, queries, promoted, hidden } = curation;
    DestinationRecord {
        id: fresh_id,
        external_curation_id: id,
        curation_type: curation_type_tag(),
        promoted: if promoted.len() == 0 {
            None
        } else {
            Some(promoted)
        },
        hidden: if hidden.len() == 0 {
            None
        } else {
            Some(hidden)
        },
        queries: if queries.len() == 0 {
            None
        } else {
            Some(queries)
        },
        document_id,
        title,
        language,
    }
}

/// Relies on uuid's `Uuid::new_v4` and its `Display` form: a random
/// version-4 UUID rendered as 36 hyphenated lowercase hex characters. The
/// value is random, so nothing beyond its length holds of every outcome.
#[verifier::external_body]
fn fresh_record_id() -> (r: String)
    ensures
        r@.len() == 36,
{
    uuid::Uuid::new_v4().to_string()
}

/// Builds the destination record for one curation, generating the fresh
/// primary key that keeps repeated runs of curations sharing a source id
/// from colliding in the destination store.
pub fn build_record(curation: ElasticCurations, document: Option<ElasticDocument>) -> (r:
    DestinationRecord)
    ensures
        spec_built_from(r, curation, document),
        r.id@.len() == 36,
{
    let fresh_id = fresh_record_id();
    build_with_id(curation, document, fresh_id)
}

/// A curation with no promoted entries resolves no enrichment document, and
/// its built record carries no document id, no enrichment-derived title, and
/// the fallback language.
pub proof fn lemma_empty_promoted_record(r: DestinationRecord, curation: ElasticCurations)
    requires
        curation.promoted@.len() == 0,
        spec_built_from(r, curation, None::<ElasticDocument>),
    ensures
        spec_enrichment_target(curation) is None,
        r.document_id is None,
        r.title is None,
        r.language@ == spec_fallback_language(),
{
}

/// Non-empty query, promoted and hidden sequences appear on the built record
/// unchanged — present and in source order — while empty ones leave the
/// attribute absent entirely.
pub proof fn lemma_attribute_presence(
    r: DestinationRecord,
    curation: ElasticCurations,
    document: Option<ElasticDocument>,
)
    requires
        spec_built_from(r, curation, document),
    ensures
        curation.promoted@.len() > 0 ==> r.promoted == Some(curation.promoted),
        curation.promoted@.len() == 0 ==> r.promoted is None,
        curation.hidden@.len() > 0 ==> r.hidden == Some(curation.hidden),
        curation.hidden@.len() == 0 ==> r.hidden is None,
        curation.queries@.len() > 0 ==> r.queries == Some(curation.queries),
        curation.queries@.len() == 0 ==> r.queries is None,
{
}

} // verus!
