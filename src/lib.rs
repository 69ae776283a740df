//! An ingestion pipeline: nodes of content flow from a loader through
//! transforming, filtering, batching and storing stages.

pub mod ingestion;
pub mod integrations;
pub mod pipeline;
pub mod stage;
pub mod transformers;
