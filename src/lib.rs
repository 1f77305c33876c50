//! Rendering of cluster resources as clean text tables, key/value blocks,
//! JSON or YAML documents.

pub mod output_type;
pub mod doc;
pub mod table;
pub mod serde_render;
pub mod handler;
pub mod terminal;
pub mod decimal;
pub mod spu_group;
pub mod listing;
