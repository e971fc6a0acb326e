//! A minimal package manager for source modules: version selection over
//! repository tags, the decisions taken while a local mirror is brought up
//! to date, and format-preserving edits of the dependency manifest.

pub mod command;
pub mod error;
pub mod fetch;
pub mod manifest;
pub mod version;
