use vstd::prelude::*;
use vstd::string::StrSliceExecFns;
use vstd::utf8::encode_utf8;

use crate::c_string::{fits_c_string, text_has_interior_nul};

pub mod metal_vertex_format;
pub mod model_error;
pub mod model_vertex_format;

verus! {

/// Wraps a `MTKModelError*` string constant.
#[derive(Debug, Clone, Copy, PartialEq, Eq)]
pub struct ModelError(&'static str);

impl View for ModelError {
    type V = Seq<char>;

    /// The wrapped constant's text.
    closed spec fn view(&self) -> Seq<char> {
        self.0@
    }
}

impl ModelError {
    /// Wraps `MTKModelErrorDomain`.
    pub fn domain() -> (err: Self)
        ensures
            err@ == model_error::DOMAIN@,
    {
        ModelError(model_error::DOMAIN)
    }

    /// Wraps `MTKModelErrorKey`.
    pub fn key() -> (err: Self)
        ensures
            err@ == model_error::KEY@,
    {
        ModelError(model_error::KEY)
    }

    /// Returns the wrapped `MTKModelError*` string constant.
    pub fn as_str(self) -> (s: &'static str)
        ensures
            s@ == self@,
    {
        self.0
    }
}

/// Mirrors `MDLGeometryType`.
#[derive(Debug, Clone, Copy, PartialEq, Eq, Structural)]
pub enum GeometryType {
    /// Mirrors `MDLGeometryTypePoints`.
    Points,
    /// Mirrors `MDLGeometryTypeLines`.
    Lines,
    /// Mirrors `MDLGeometryTypeTriangles`.
    Triangles,
    /// Mirrors `MDLGeometryTypeTriangleStrips`.
    TriangleStrips,
    /// Mirrors `MDLGeometryTypeQuads`.
    Quads,
    /// Mirrors `MDLGeometryTypeVariableTopology`.
    VariableTopology,
}

/// The raw `MDLGeometryType` value of a geometry type.
pub open spec fn geometry_type_raw(ty: GeometryType) -> i64 {
    match ty {
        GeometryType::Points => 0,
        GeometryType::Lines => 1,
        GeometryType::Triangles => 2,
        GeometryType::TriangleStrips => 3,
        GeometryType::Quads => 4,
        GeometryType::VariableTopology => 5,
    }
}

/// The geometry type whose raw `MDLGeometryType` value is `value`, if any.
pub open spec fn geometry_type_from_raw(value: i64) -> Option<GeometryType> {
    if value == 0 {
        Some(GeometryType::Points)
    } else if value == 1 {
        Some(GeometryType::Lines)
    } else if value == 2 {
        Some(GeometryType::Triangles)
    } else if value == 3 {
        Some(GeometryType::TriangleStrips)
    } else if value == 4 {
        Some(GeometryType::Quads)
    } else if value == 5 {
        Some(GeometryType::VariableTopology)
    } else {
        None
    }
}

impl GeometryType {
    /// Converts a raw `MDLGeometryType` value into `GeometryType`.
    pub fn from_raw(value: i64) -> (ty: Option<Self>)
        ensures
            ty == geometry_type_from_raw(value),
    {
        match value {
            0 => Some(GeometryType::Points),
            1 => Some(GeometryType::Lines),
            2 => Some(GeometryType::Triangles),
            3 => Some(GeometryType::TriangleStrips),
            4 => Some(GeometryType::Quads),
            5 => Some(GeometryType::VariableTopology),
            _ => None,
        }
    }

    /// The raw `MDLGeometryType` value handed to Model I/O.
    pub fn to_raw(self) -> (value: i64)
        ensures
            value == geometry_type_raw(self),
    {
        match self {
            GeometryType::Points => 0,
            GeometryType::Lines => 1,
            GeometryType::Triangles => 2,
            GeometryType::TriangleStrips => 3,
            GeometryType::Quads => 4,
            GeometryType::VariableTopology => 5,
        }
    }
}

/// Decoding the raw value of a geometry type gives the geometry type back.
pub proof fn lemma_geometry_type_round_trip(ty: GeometryType)
    ensures
        geometry_type_from_raw(geometry_type_raw(ty)) == Some(ty),
{
}

/// A raw value decodes to a geometry type exactly when it is that type's raw value.
pub proof fn lemma_geometry_type_from_raw_inverts(value: i64, ty: GeometryType)
    ensures
        geometry_type_from_raw(value) == Some(ty) <==> geometry_type_raw(ty) == value,
{
}

/// Describes one attribute entry reported for a MetalKit vertex descriptor bridge.
#[derive(Debug, Clone, PartialEq, Eq)]
pub struct VertexDescriptorAttributeInfo {
    /// Mirrors the attribute slot index reported by MetalKit.
    pub index: usize,
    /// Mirrors the bridged vertex format value.
    pub format: usize,
    /// Mirrors the byte offset within the vertex buffer layout.
    pub offset: usize,
    /// Mirrors the source buffer index used by the descriptor entry.
    pub buffer_index: usize,
    /// Mirrors the optional Model I/O attribute name.
    pub name: Option<String>,
}

/// Describes one layout entry reported for a MetalKit vertex descriptor bridge.
#[derive(Debug, Clone, PartialEq, Eq)]
pub struct VertexDescriptorLayoutInfo {
    /// Mirrors the layout slot index reported by MetalKit.
    pub index: usize,
    /// Mirrors the byte stride for the layout entry.
    pub stride: usize,
}

/// Collects attribute and layout data for a bridged vertex descriptor.
#[derive(Debug, Clone, PartialEq, Eq)]
pub struct VertexDescriptorInfo {
    /// Contains the bridged vertex descriptor attributes.
    pub attributes: Vec<VertexDescriptorAttributeInfo>,
    /// Contains the bridged vertex descriptor layouts.
    pub layouts: Vec<VertexDescriptorLayoutInfo>,
}

/// `text` without its leading dots.
pub open spec fn trim_leading_dots(text: Seq<char>) -> Seq<char>
    decreases text.len(),
{
    if text.len() > 0 && text[0] == '.' {
        trim_leading_dots(text.drop_first())
    } else {
        text
    }
}

/// The file extension that `MDLAsset` is asked about for `path_extension`:
/// its leading dots dropped. None where that text cannot travel as a C
/// string (it holds a NUL byte), in which case no importer is asked.
pub fn import_file_extension(path_extension: &str) -> (extension: Option<&str>)
    ensures
        extension matches Some(e) ==> e@ == trim_leading_dots(path_extension@),
        extension is Some <==> fits_c_string(encode_utf8(trim_leading_dots(path_extension@))),
{
    let len = path_extension.unicode_len();
    let mut start: usize = 0;
    assert(path_extension@.skip(0) =~= path_extension@);
    while start < len && path_extension.get_char(start) == '.'
        invariant
            len == path_extension@.len(),
            0 <= start <= len,
            trim_leading_dots(path_extension@) == trim_leading_dots(path_extension@.skip(start as int)),
        decreases len - start,
    {
        assert(path_extension@.skip(start as int).drop_first() =~= path_extension@.skip(start + 1));
        start = start + 1;
    }
    let trimmed = path_extension.substring_char(start, len);
    assert(trimmed@ =~= path_extension@.skip(start as int));
    if text_has_interior_nul(trimmed) {
        None
    } else {
        Some(trimmed)
    }
}

/// The next step while an asset is built from a list of meshes.
#[derive(Debug, Clone, Copy, PartialEq, Eq, Structural)]
pub enum AssetBuildStep {
    /// Add the mesh at this index of the list to the asset.
    AddMesh(usize),
    /// Every mesh was added: the asset is complete.
    Done,
    /// Adding a mesh failed: no asset is handed back.
    GiveUp,
}

/// The step after `added` meshes of `total` were added, where
/// `last_add_succeeded` says how adding the last of them went (it is `true`
/// before the first mesh is added): stop at the first failed addition,
/// else add the meshes in their order, each once.
pub fn next_asset_build_step(added: usize, total: usize, last_add_succeeded: bool) -> (step:
    AssetBuildStep)
    ensures
        !last_add_succeeded ==> step == AssetBuildStep::GiveUp,
        last_add_succeeded && added < total ==> step == AssetBuildStep::AddMesh(added),
        last_add_succeeded && added >= total ==> step == AssetBuildStep::Done,
{
    if !last_add_succeeded {
        AssetBuildStep::GiveUp
    } else if added < total {
        AssetBuildStep::AddMesh(added)
    } else {
        AssetBuildStep::Done
    }
}

} // verus!
