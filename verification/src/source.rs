use vstd::prelude::*;
use crate::records::ElasticDocument;

verus! {

/// Decodes the source API's answer to a single-document lookup. The API
/// returns an array; an empty array means the document was not found, which
/// is a valid, non-error outcome. Only the first entry is the answer.
pub fn first_document(mut documents: Vec<ElasticDocument>) -> (r: Option<ElasticDocument>)
    ensures
        match r {
            Some(doc) => documents@.len() > 0 && doc == documents@[0],
            None => documents@.len() == 0,
        },
{
    if documents.len() == 0 {
        None
    } else {
        Some(documents.remove(0))
    }
}

} // verus!
