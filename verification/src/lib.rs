//! Canonical-link retrieval pipeline for short-form videos: rewrites a
//! platform link to the original encode, derives a local filename for the
//! fetched payload, decides when a container conversion is needed, and
//! tracks the on-disk lifetime of the downloaded resource.

pub mod fetch;
pub mod resource;
pub mod rewrite;
pub mod text;
pub mod transcode;
