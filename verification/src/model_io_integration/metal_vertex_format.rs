//! `MTLVertexFormat` values commonly used with the MetalKit Model I/O bridges.
use vstd::prelude::*;

verus! {

/// Mirrors `MTLVertexFormatUChar4Normalized`.
pub const UCHAR4_NORMALIZED: usize = 14;

/// Mirrors `MTLVertexFormatFloat2`.
pub const FLOAT2: usize = 29;

/// Mirrors `MTLVertexFormatFloat3`.
pub const FLOAT3: usize = 30;

/// Mirrors `MTLVertexFormatFloat4`.
pub const FLOAT4: usize = 31;

} // verus!
