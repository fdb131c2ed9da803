//! The content-cache collaborator: `cached_path` resolves a resource locator
//! to a local file path, re-downloading only when its cached copy is stale.
//! Every call into it goes through one of the trusted wrappers below; what
//! comes back depends on the network and the disk, so none of them promises
//! anything about the value of its result.

use vstd::prelude::*;

verus! {

#[verifier::external_type_specification]
#[verifier::external_body]
pub struct ExCache(cached_path::Cache);

#[verifier::external_type_specification]
#[verifier::external_body]
pub struct ExCacheBuilder(cached_path::CacheBuilder);

/// Relies on `cached_path::CacheBuilder::build`: turns the builder's settings
/// into a cache, failing when the cache directory cannot be set up.
#[verifier::external_body]
pub(crate) fn build_cache(builder: cached_path::CacheBuilder) -> (r: Result<
    cached_path::Cache,
    (),
>) {
    match builder.build() {
        Ok(c) => Ok(c),
        Err(_) => Err(()),
    }
}

/// Relies on `cached_path::Cache::new`: a cache with default settings,
/// failing when the cache directory cannot be set up.
#[verifier::external_body]
pub(crate) fn default_cache() -> (r: Result<cached_path::Cache, ()>) {
    match cached_path::Cache::new() {
        Ok(c) => Ok(c),
        Err(_) => Err(()),
    }
}

/// Relies on `cached_path::Cache::cached_path`: resolves the resource to the
/// path of a local copy, fetching it first when the cached one is stale, and
/// fails when the resource cannot be found or fetched. The path is handed
/// back as a plain string.
#[verifier::external_body]
pub(crate) fn resolve_resource(cache: &cached_path::Cache, resource: &str) -> (r: Result<
    String,
    (),
>) {
    match cache.cached_path(resource) {
        Ok(p) => Ok(p.to_string_lossy().into_owned()),
        Err(_) => Err(()),
    }
}

} // verus!
