//! `MTKTextureLoaderError*` string constants.
use vstd::prelude::*;

verus! {

/// `MTKTextureLoaderErrorDomain`.
pub const DOMAIN: &'static str = "MTKTextureLoaderErrorDomain";

/// `MTKTextureLoaderErrorKey`.
pub const KEY: &'static str = "MTKTextureLoaderErrorKey";

} // verus!
