//! `MDLVertexFormat` values commonly used with the MetalKit Model I/O bridges.
use vstd::prelude::*;

verus! {

/// Mirrors `MDLVertexFormatUChar4Normalized`.
pub const UCHAR4_NORMALIZED: usize = 0x30004;

/// Mirrors `MDLVertexFormatFloat2`.
pub const FLOAT2: usize = 0xC0002;

/// Mirrors `MDLVertexFormatFloat3`.
pub const FLOAT3: usize = 0xC0003;

/// Mirrors `MDLVertexFormatFloat4`.
pub const FLOAT4: usize = 0xC0004;

} // verus!
