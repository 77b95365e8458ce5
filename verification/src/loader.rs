//! Configuration loaders: the routing logic.
//!
//! A loader takes a source identifier and produces configuration text or
//! values; the reading itself is done by the program around this crate.
//! What lives here is the routing: which identifiers the file loader
//! claims.

use vstd::prelude::*;

use crate::text::has_prefix;
use crate::text::has_substr;

verus! {

/// Loader for file-based configuration sources: bare names such as
/// `myapp`, explicit paths, and `file://` URLs.
pub struct FileLoader;

impl FileLoader {
    /// Creates the loader.
    pub fn new() -> (r: FileLoader) {
        FileLoader
    }

    /// Whether this loader handles the given identifier: every `file://`
    /// URL does; an identifier with any other scheme does not; bare names
    /// and relative or absolute paths do.
    pub fn provides(&self, identifier: &str) -> (r: bool)
        ensures
            r == (has_prefix(identifier@, "file://"@) || !has_substr(identifier@, "://"@)),
    {
        if crate::text::starts_with(identifier, "file://") {
            return true;
        }
        if crate::text::contains_substr(identifier, "://") {
            return false;
        }
        true
    }

    /// Human-readable name for error messages.
    pub fn name(&self) -> (r: &'static str)
        ensures
            r@ == "file"@,
    {
        "file"
    }
}

impl Default for FileLoader {
    fn default() -> (r: Self) {
        FileLoader::new()
    }
}

} // verus!
