pub mod json;
pub mod messages;
pub mod models;
pub mod structure;
