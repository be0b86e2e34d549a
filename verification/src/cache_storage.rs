//! Cache bootstrap: decides the storage posture before a resume.  The
//! posture flags gate whether a resume may return provisionally and finish
//! in the background.

use vstd::prelude::*;

verus! {

/// The posture of the offline cache after initialisation.
#[derive(Debug, Clone, Copy)]
pub struct CacheInfo {
    pub is_persistent: bool,
    pub is_new_offline_db: bool,
}

pub struct CacheStorageLateInitializer {}

impl CacheStorageLateInitializer {
    pub fn new() -> (r: CacheStorageLateInitializer) {
        CacheStorageLateInitializer {  }
    }

    /// Reports a persistent, freshly created offline database.
    pub fn initialize(&self) -> (r: CacheInfo)
        ensures
            r.is_persistent,
            r.is_new_offline_db,
    {
        CacheInfo { is_persistent: true, is_new_offline_db: true }
    }

    pub fn de_initialize(&self) {
    }
}

} // verus!
