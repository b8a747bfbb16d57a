//! Keeps configuration files stored in a repository hardlinked to the places
//! on the filesystem where programs look for them.
//!
//! The library holds the rules: how a raw path is normalised, when two paths
//! count as one file, what a run of `install` or `check` does for each entry
//! of the file map, which files a directory walk offers, and how the file
//! map is written down. Touching the filesystem itself is left to the caller.

pub mod configure;
pub mod error;
pub mod filemap;
pub mod laws;
pub mod link;
pub mod model;
pub mod path;
pub mod reconcile;
pub mod scan;
pub mod store;
pub mod text;
