//! Project and search queries of an issue tracker, with the rules that
//! govern project identifiers, search-query construction and result
//! identifiers stated and proved with Verus.

pub mod text;
pub mod error;
pub mod db;
pub mod models;
pub mod identifier;
pub mod fts;
pub mod projects;
pub mod search;
