//! `MTLCPUCacheMode` values used by `MTKTextureLoader` options.
use vstd::prelude::*;

verus! {

/// Mirrors `MTLCPUCacheModeDefaultCache`.
pub const DEFAULT_CACHE: usize = 0;

/// Mirrors `MTLCPUCacheModeWriteCombined`.
pub const WRITE_COMBINED: usize = 1;

} // verus!
