//! The persisted catalog record and the choice between serving it and
//! rebuilding the catalog.
use vstd::prelude::*;

verus! {

/// The persisted cache record: the catalog's serialized text, kept verbatim.
pub struct AppCache {
    pub apps: String,
}

/// Where the answer to a catalog request comes from.
pub enum CatalogSource {
    /// A stored catalog text, returned as it was saved.
    Cached(String),
    /// No usable cache: build the catalog afresh and store it.
    Rebuild,
}

/// Decides a catalog request from the outcome of loading the cache (absent
/// when the file is missing or does not parse).
pub fn catalog_source(cached: Option<AppCache>) -> (r: CatalogSource)
    ensures
        cached is None ==> r is Rebuild,
        cached is Some ==> r == CatalogSource::Cached(cached->Some_0.apps),
{
    match cached {
        Some(c) => CatalogSource::Cached(c.apps),
        None => CatalogSource::Rebuild,
    }
}

} // verus!
