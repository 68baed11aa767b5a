//! `MTKModelError*` string constants.
use vstd::prelude::*;

verus! {

/// `MTKModelErrorDomain`.
pub const DOMAIN: &'static str = "MTKModelErrorDomain";

/// `MTKModelErrorKey`.
pub const KEY: &'static str = "MTKModelErrorKey";

} // verus!
