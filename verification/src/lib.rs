//! Report files in a directory tree that are older than a configured offset.
//!
//! The library holds the whole scan-filter-report pipeline: parsing the
//! offset string, validating the configuration, resolving a file's timestamp
//! attribute, comparing ages against the threshold, filtering paths with an
//! optional regular expression, and rendering one line per configured sink.
//! Walking the tree, reading file metadata and writing the lines out are left
//! to the caller, which hands every entry to [`scan::evaluate_entry`].

pub mod errors;
pub mod offset;
pub mod pattern;
pub mod render;
pub mod scan;
pub mod sinks;
pub mod text;
pub mod times;

pub use errors::ConfigError;
