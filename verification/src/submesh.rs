use vstd::prelude::*;

verus! {

/// Mirrors `MTLPrimitiveType` as exposed by `MTKSubmesh`.
#[derive(Debug, Clone, Copy, PartialEq, Eq, Structural)]
pub enum PrimitiveType {
    /// Mirrors `MTLPrimitiveTypePoint`.
    Point,
    /// Mirrors `MTLPrimitiveTypeLine`.
    Line,
    /// Mirrors `MTLPrimitiveTypeLineStrip`.
    LineStrip,
    /// Mirrors `MTLPrimitiveTypeTriangle`.
    Triangle,
    /// Mirrors `MTLPrimitiveTypeTriangleStrip`.
    TriangleStrip,
}

/// The raw `MTLPrimitiveType` value of a primitive type.
pub open spec fn primitive_type_raw(ty: PrimitiveType) -> usize {
    match ty {
        PrimitiveType::Point => 0,
        PrimitiveType::Line => 1,
        PrimitiveType::LineStrip => 2,
        PrimitiveType::Triangle => 3,
        PrimitiveType::TriangleStrip => 4,
    }
}

/// The primitive type whose raw `MTLPrimitiveType` value is `value`, if any.
pub open spec fn primitive_type_from_raw(value: usize) -> Option<PrimitiveType> {
    if value == 0 {
        Some(PrimitiveType::Point)
    } else if value == 1 {
        Some(PrimitiveType::Line)
    } else if value == 2 {
        Some(PrimitiveType::LineStrip)
    } else if value == 3 {
        Some(PrimitiveType::Triangle)
    } else if value == 4 {
        Some(PrimitiveType::TriangleStrip)
    } else {
        None
    }
}

impl PrimitiveType {
    /// Converts a raw `MTLPrimitiveType` value into `PrimitiveType`.
    pub fn from_raw(value: usize) -> (ty: Option<Self>)
        ensures
            ty == primitive_type_from_raw(value),
    {
        match value {
            0 => Some(PrimitiveType::Point),
            1 => Some(PrimitiveType::Line),
            2 => Some(PrimitiveType::LineStrip),
            3 => Some(PrimitiveType::Triangle),
            4 => Some(PrimitiveType::TriangleStrip),
            _ => None,
        }
    }

    /// The raw `MTLPrimitiveType` value.
    pub fn to_raw(self) -> (value: usize)
        ensures
            value == primitive_type_raw(self),
    {
        match self {
            PrimitiveType::Point => 0,
            PrimitiveType::Line => 1,
            PrimitiveType::LineStrip => 2,
            PrimitiveType::Triangle => 3,
            PrimitiveType::TriangleStrip => 4,
        }
    }
}

/// Mirrors `MTLIndexType` as exposed by `MTKSubmesh`.
#[derive(Debug, Clone, Copy, PartialEq, Eq, Structural)]
pub enum IndexType {
    /// Mirrors `MTLIndexTypeUInt16`.
    UInt16,
    /// Mirrors `MTLIndexTypeUInt32`.
    UInt32,
}

/// The raw `MTLIndexType` value of an index type.
pub open spec fn index_type_raw(ty: IndexType) -> usize {
    match ty {
        IndexType::UInt16 => 0,
        IndexType::UInt32 => 1,
    }
}

/// The index type whose raw `MTLIndexType` value is `value`, if any.
pub open spec fn index_type_from_raw(value: usize) -> Option<IndexType> {
    if value == 0 {
        Some(IndexType::UInt16)
    } else if value == 1 {
        Some(IndexType::UInt32)
    } else {
        None
    }
}

impl IndexType {
    /// Converts a raw `MTLIndexType` value into `IndexType`.
    pub fn from_raw(value: usize) -> (ty: Option<Self>)
        ensures
            ty == index_type_from_raw(value),
    {
        match value {
            0 => Some(IndexType::UInt16),
            1 => Some(IndexType::UInt32),
            _ => None,
        }
    }

    /// The raw `MTLIndexType` value.
    pub fn to_raw(self) -> (value: usize)
        ensures
            value == index_type_raw(self),
    {
        match self {
            IndexType::UInt16 => 0,
            IndexType::UInt32 => 1,
        }
    }
}

/// Decoding the raw value of a primitive type gives the primitive type back.
pub proof fn lemma_primitive_type_round_trip(ty: PrimitiveType)
    ensures
        primitive_type_from_raw(primitive_type_raw(ty)) == Some(ty),
{
}

/// A raw value decodes to a primitive type exactly when it is that type's raw value.
pub proof fn lemma_primitive_type_from_raw_inverts(value: usize, ty: PrimitiveType)
    ensures
        primitive_type_from_raw(value) == Some(ty) <==> primitive_type_raw(ty) == value,
{
}

/// Decoding the raw value of an index type gives the index type back.
pub proof fn lemma_index_type_round_trip(ty: IndexType)
    ensures
        index_type_from_raw(index_type_raw(ty)) == Some(ty),
{
}

/// A raw value decodes to an index type exactly when it is that type's raw value.
pub proof fn lemma_index_type_from_raw_inverts(value: usize, ty: IndexType)
    ensures
        index_type_from_raw(value) == Some(ty) <==> index_type_raw(ty) == value,
{
}

} // verus!
