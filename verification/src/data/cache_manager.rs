//! Disk cache accounting: the sizes the settings screen shows and what a
//! purge frees.

use vstd::prelude::*;

verus! {

/// Where the caches live on the console.
pub const ICON_CACHE_DIR: &'static str = "ux0:data/vitaforge/cache";
/// Where the hash cache lives on the console.
pub const HASH_CACHE_DIR: &'static str = "ux0:data/vitaforge/hashes";
/// The cached catalog on the console.
pub const CATALOG_CACHE_PATH: &'static str = "ux0:data/vitaforge/catalog_cache.json";
/// The cached catalog's version record on the console.
pub const CATALOG_VERSION_PATH: &'static str = "ux0:data/vitaforge/catalog_version.json";

/// The icon cache directory elsewhere than on the console.
pub const ICON_CACHE_DIR_HOST: &'static str = "data/vitaforge/cache";
/// The hash cache directory elsewhere than on the console.
pub const HASH_CACHE_DIR_HOST: &'static str = "data/vitaforge/hashes";
/// The cached catalog elsewhere than on the console.
pub const CATALOG_CACHE_PATH_HOST: &'static str = "data/vitaforge/catalog_cache.json";
/// The cached catalog's version record elsewhere than on the console.
pub const CATALOG_VERSION_PATH_HOST: &'static str = "data/vitaforge/catalog_version.json";

/// Bytes used by each cache.
#[derive(Debug, Clone, Copy, PartialEq, Eq, Structural)]
pub struct CacheStats {
    pub icons_bytes: u64,
    pub catalog_bytes: u64,
    pub hashes_bytes: u64,
    pub total_bytes: u64,
}

impl CacheStats {
    /// No cache used.
    pub fn empty() -> (r: CacheStats)
        ensures
            r == (CacheStats { icons_bytes: 0, catalog_bytes: 0, hashes_bytes: 0, total_bytes: 0 }),
    {
        CacheStats { icons_bytes: 0, catalog_bytes: 0, hashes_bytes: 0, total_bytes: 0 }
    }
}

/// The cache use from the measured sizes: the icon directory, the two catalog
/// files and the hash directory.
pub fn compute_cache_stats(icons_bytes: u64, catalog_file_bytes: u64, version_file_bytes: u64, hashes_bytes: u64) -> (r: CacheStats)
    requires
        icons_bytes + catalog_file_bytes + version_file_bytes + hashes_bytes <= u64::MAX,
    ensures
        r.icons_bytes == icons_bytes,
        r.catalog_bytes == catalog_file_bytes + version_file_bytes,
        r.hashes_bytes == hashes_bytes,
        r.total_bytes == icons_bytes + catalog_file_bytes + version_file_bytes + hashes_bytes,
{
    let catalog_bytes = catalog_file_bytes + version_file_bytes;
    CacheStats { icons_bytes, catalog_bytes, hashes_bytes, total_bytes: icons_bytes + catalog_bytes + hashes_bytes }
}

/// What a purge of every cache frees: the icons, the catalog files and the hashes.
pub fn purge_all_cache(icons_freed: u64, catalog_freed: u64, hashes_freed: u64) -> (r: u64)
    requires
        icons_freed + catalog_freed + hashes_freed <= u64::MAX,
    ensures
        r == icons_freed + catalog_freed + hashes_freed,
{
    icons_freed + catalog_freed + hashes_freed
}

} // verus!
