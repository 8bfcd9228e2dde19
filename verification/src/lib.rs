//! Generates C sources and headers (models, request and update messages,
//! with their cJSON conversions) from a protocol description.
pub mod generators;
pub mod protocol;
pub mod registry;
pub mod text;
