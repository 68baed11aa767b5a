use vstd::prelude::*;

verus! {

/// Mirrors `MTKMeshBufferType`.
#[derive(Debug, Clone, Copy, PartialEq, Eq, Structural)]
pub enum MeshBufferType {
    /// Mirrors `MTKMeshBufferTypeVertex`.
    Vertex,
    /// Mirrors `MTKMeshBufferTypeIndex`.
    Index,
    /// Mirrors `MTKMeshBufferTypeCustom`.
    Custom,
}

/// The raw `MTKMeshBufferType` value of a buffer type.
pub open spec fn mesh_buffer_type_raw(ty: MeshBufferType) -> usize {
    match ty {
        MeshBufferType::Vertex => 1,
        MeshBufferType::Index => 2,
        MeshBufferType::Custom => 3,
    }
}

/// The buffer type whose raw `MTKMeshBufferType` value is `value`, if any.
pub open spec fn mesh_buffer_type_from_raw(value: usize) -> Option<MeshBufferType> {
    if value == 1 {
        Some(MeshBufferType::Vertex)
    } else if value == 2 {
        Some(MeshBufferType::Index)
    } else if value == 3 {
        Some(MeshBufferType::Custom)
    } else {
        None
    }
}

impl MeshBufferType {
    /// Converts a raw `MTKMeshBufferType` value into `MeshBufferType`.
    pub fn from_raw(value: usize) -> (ty: Option<Self>)
        ensures
            ty == mesh_buffer_type_from_raw(value),
    {
        match value {
            1 => Some(MeshBufferType::Vertex),
            2 => Some(MeshBufferType::Index),
            3 => Some(MeshBufferType::Custom),
            _ => None,
        }
    }

    /// The raw `MTKMeshBufferType` value handed to MetalKit.
    pub fn to_raw(self) -> (value: usize)
        ensures
            value == mesh_buffer_type_raw(self),
    {
        match self {
            MeshBufferType::Vertex => 1,
            MeshBufferType::Index => 2,
            MeshBufferType::Custom => 3,
        }
    }
}

/// Decoding the raw value of a buffer type gives the buffer type back.
pub proof fn lemma_mesh_buffer_type_round_trip(ty: MeshBufferType)
    ensures
        mesh_buffer_type_from_raw(mesh_buffer_type_raw(ty)) == Some(ty),
{
}

/// A raw value decodes to a buffer type exactly when it is that buffer type's raw value.
pub proof fn lemma_mesh_buffer_type_from_raw_inverts(value: usize, ty: MeshBufferType)
    ensures
        mesh_buffer_type_from_raw(value) == Some(ty) <==> mesh_buffer_type_raw(ty) == value,
{
}

} // verus!
