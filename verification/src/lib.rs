//! Verified core of a MetalKit binding for macOS: the string constants and
//! raw enum values of the framework, the texture-loader options and their
//! encoding into the bridge's option record, the checks a request's texts
//! must pass to travel as C strings, and the reading of what the bridge
//! hands back (objects, texture arrays, mesh conversions, errors).

pub mod c_string;
pub mod error;
pub mod ffi;
pub mod mesh;
pub mod mesh_buffer;
pub mod model_io_integration;
pub mod submesh;
pub mod texture_loader;

pub use error::MetalKitError;
pub use mesh::MeshAssetConversion;
pub use mesh_buffer::MeshBufferType;
pub use model_io_integration::{
    metal_vertex_format, model_error, model_vertex_format, AssetBuildStep, GeometryType,
    ModelError, VertexDescriptorAttributeInfo, VertexDescriptorInfo, VertexDescriptorLayoutInfo,
};
pub use submesh::{IndexType, PrimitiveType};
pub use texture_loader::{
    texture_cpu_cache_mode, texture_loader_cube_layout, texture_loader_error,
    texture_loader_option, texture_loader_origin, DisplayGamut, TextureLoaderArrayOutcome,
    TextureLoaderCubeLayout, TextureLoaderError, TextureLoaderOptionKey, TextureLoaderOptions,
    TextureLoaderOrigin,
};
