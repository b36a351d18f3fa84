//! A document store whose records are JSON files in a git working copy:
//! a typed scalar model, a boolean query algebra over it, dotted-path edits of
//! JSON documents, and the decisions that drive the life cycle of the
//! repository behind the store.

pub mod float_bits;
pub mod number;
pub mod text;
pub mod query_literal;
pub mod query_term;
pub mod repo_query;
pub mod json;
pub mod repo_document;
pub mod git;
pub mod repo_store;
