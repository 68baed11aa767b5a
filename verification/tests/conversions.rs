use metalkit::{
    DisplayGamut, GeometryType, IndexType, MeshBufferType, PrimitiveType,
};

#[test]
fn mesh_buffer_type_round_trips_through_raw_values() {
    assert_eq!(MeshBufferType::from_raw(1), Some(MeshBufferType::Vertex));
    assert_eq!(MeshBufferType::from_raw(2), Some(MeshBufferType::Index));
    assert_eq!(MeshBufferType::from_raw(3), Some(MeshBufferType::Custom));
    assert_eq!(MeshBufferType::from_raw(0), None);
    assert_eq!(MeshBufferType::from_raw(4), None);
    for ty in [MeshBufferType::Vertex, MeshBufferType::Index, MeshBufferType::Custom] {
        assert_eq!(MeshBufferType::from_raw(ty.to_raw()), Some(ty));
    }
    assert_eq!(MeshBufferType::Index.to_raw(), 2);
}

#[test]
fn primitive_type_round_trips_through_raw_values() {
    let all = [
        PrimitiveType::Point,
        PrimitiveType::Line,
        PrimitiveType::LineStrip,
        PrimitiveType::Triangle,
        PrimitiveType::TriangleStrip,
    ];
    for (raw, ty) in all.iter().enumerate() {
        assert_eq!(ty.to_raw(), raw);
        assert_eq!(PrimitiveType::from_raw(raw), Some(*ty));
    }
    assert_eq!(PrimitiveType::from_raw(5), None);
    assert_eq!(PrimitiveType::from_raw(usize::MAX), None);
}

#[test]
fn index_type_round_trips_through_raw_values() {
    assert_eq!(IndexType::from_raw(0), Some(IndexType::UInt16));
    assert_eq!(IndexType::from_raw(1), Some(IndexType::UInt32));
    assert_eq!(IndexType::from_raw(2), None);
    assert_eq!(IndexType::UInt16.to_raw(), 0);
    assert_eq!(IndexType::UInt32.to_raw(), 1);
}

#[test]
fn geometry_type_round_trips_through_raw_values() {
    let all = [
        GeometryType::Points,
        GeometryType::Lines,
        GeometryType::Triangles,
        GeometryType::TriangleStrips,
        GeometryType::Quads,
        GeometryType::VariableTopology,
    ];
    for (raw, ty) in all.iter().enumerate() {
        assert_eq!(ty.to_raw(), raw as i64);
        assert_eq!(GeometryType::from_raw(raw as i64), Some(*ty));
    }
    assert_eq!(GeometryType::from_raw(-1), None);
    assert_eq!(GeometryType::from_raw(6), None);
}

#[test]
fn display_gamut_raw_values() {
    assert_eq!(DisplayGamut::SRGB.to_raw(), 1);
    assert_eq!(DisplayGamut::P3.to_raw(), 2);
}
