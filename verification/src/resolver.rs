use vstd::prelude::*;
use crate::records::{ElasticCurations, ElasticDocument};

verus! {

/// Locale used when no enrichment document supplies a language.
pub open spec fn spec_fallback_language() -> Seq<char> {
    "fi"@
}

/// The configured fallback locale as an owned value.
pub fn fallback_language() -> (r: String)
    ensures
        r@ == spec_fallback_language(),
{
    "fi".to_owned()
}

/// The one document id a curation is entitled to resolve: the first promoted
/// entry, or nothing when no document is promoted. One curation maps to at
/// most one enrichment lookup.
pub open spec fn spec_enrichment_target(curation: ElasticCurations) -> Option<String> {
    if curation.promoted@.len() == 0 {
        None
    } else {
        Some(curation.promoted@[0])
    }
}

/// Decides whether and which document id to resolve for a curation.
pub fn enrichment_target(curation: &ElasticCurations) -> (r: Option<String>)
    ensures
        r == spec_enrichment_target(*curation),
{
    if curation.promoted.len() == 0 {
        None
    } else {
        Some(curation.promoted[0].clone())
    }
}

/// The language resolved for a curation: the enrichment document's language
/// when it carries one, the fallback locale otherwise (no document found, or
/// a document without a language field).
pub open spec fn spec_resolved_language(document: Option<ElasticDocument>) -> Seq<char> {
    match document {
        Some(doc) => match doc.language {
            Some(language) => language@,
            None => spec_fallback_language(),
        },
        None => spec_fallback_language(),
    }
}

/// Resolves the language for a curation from its optional enrichment
/// document; the result is never absent.
pub fn resolve_language(document: &Option<ElasticDocument>) -> (r: String)
    ensures
        r@ == spec_resolved_language(*document),
{
    match document {
        Some(doc) => match &doc.language {
            Some(language) => language.clone(),
            None => fallback_language(),
        },
        None => fallback_language(),
    }
}

} // verus!
