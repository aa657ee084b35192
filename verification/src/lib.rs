//! One-directional synchronization of search-engine curations into a
//! key-value destination store: paginated retrieval, dedup-checked
//! transformation enriched with document metadata, and chunked batched
//! persistence with partial-failure accounting.
//!
//! The remote calls themselves (page fetches, dedup lookups, enrichment
//! lookups, batch writes) are performed by the surrounding program; this
//! crate holds the data model and every decision the run makes, and consumes
//! each call's result as an event.

pub mod builder;
pub mod pipeline;
pub mod records;
pub mod resolver;
pub mod source;
pub mod writer;
