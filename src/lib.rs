//! A tree model for JSON, JSON Lines, YAML and Parquet documents, with
//! path-addressed nodes and text search over the leaves.
pub mod codec;
pub mod file_input;
pub mod json_reader;
pub mod navigation;
pub mod parquet_reader;
pub mod path_formatting;
pub mod search;
pub mod serde_value;
pub mod text;
pub mod tree_model;
pub mod value;
pub mod value_formatting;
