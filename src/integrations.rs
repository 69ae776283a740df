//! Storage backends.
pub mod qdrant;
