//! Ingestion of DMARC aggregate feedback reports: decoding into a strict
//! model, normalization into storage rows, and archive traversal.
pub mod text;
pub mod vocab;
pub mod model;
pub mod decode;
pub mod normalize;
pub mod archive;
pub mod config;
pub mod persist;
pub mod pipeline;
