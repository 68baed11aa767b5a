use metalkit::texture_loader::{
    texture_cpu_cache_mode, texture_loader_cube_layout, texture_loader_error,
    texture_loader_option, texture_loader_origin,
};
use metalkit::{
    metal_vertex_format, model_error, model_vertex_format, ModelError, TextureLoaderError,
};

#[test]
fn texture_loader_error_constants() {
    assert_eq!(texture_loader_error::DOMAIN, "MTKTextureLoaderErrorDomain");
    assert_eq!(texture_loader_error::KEY, "MTKTextureLoaderErrorKey");
    assert_eq!(TextureLoaderError::domain().as_str(), "MTKTextureLoaderErrorDomain");
    assert_eq!(TextureLoaderError::key().as_str(), "MTKTextureLoaderErrorKey");
    assert_ne!(TextureLoaderError::domain(), TextureLoaderError::key());
}

#[test]
fn texture_loader_option_keys() {
    assert_eq!(
        texture_loader_option::allocate_mipmaps().as_str(),
        "MTKTextureLoaderOptionAllocateMipmaps"
    );
    assert_eq!(
        texture_loader_option::generate_mipmaps().as_str(),
        "MTKTextureLoaderOptionGenerateMipmaps"
    );
    assert_eq!(texture_loader_option::srgb().as_str(), "MTKTextureLoaderOptionSRGB");
    assert_eq!(
        texture_loader_option::texture_usage().as_str(),
        "MTKTextureLoaderOptionTextureUsage"
    );
    assert_eq!(
        texture_loader_option::texture_storage_mode().as_str(),
        "MTKTextureLoaderOptionTextureStorageMode"
    );
    assert_eq!(
        texture_loader_option::texture_cpu_cache_mode().as_str(),
        "MTKTextureLoaderOptionTextureCPUCacheMode"
    );
    assert_eq!(
        texture_loader_option::cube_layout().as_str(),
        "MTKTextureLoaderOptionCubeLayout"
    );
    assert_eq!(texture_loader_option::origin().as_str(), "MTKTextureLoaderOptionOrigin");
    assert_eq!(
        texture_loader_option::load_as_array().as_str(),
        "MTKTextureLoaderOptionLoadAsArray"
    );
}

#[test]
fn cube_layout_origin_and_cache_mode_values() {
    assert_eq!(
        texture_loader_cube_layout::vertical().as_str(),
        "MTKTextureLoaderCubeLayoutVertical"
    );
    assert_eq!(texture_loader_origin::top_left().as_str(), "MTKTextureLoaderOriginTopLeft");
    assert_eq!(
        texture_loader_origin::bottom_left().as_str(),
        "MTKTextureLoaderOriginBottomLeft"
    );
    assert_eq!(
        texture_loader_origin::flipped_vertically().as_str(),
        "MTKTextureLoaderOriginFlippedVertically"
    );
    assert_eq!(texture_cpu_cache_mode::DEFAULT_CACHE, 0);
    assert_eq!(texture_cpu_cache_mode::WRITE_COMBINED, 1);
}

#[test]
fn model_error_and_vertex_format_constants() {
    assert_eq!(model_error::DOMAIN, "MTKModelErrorDomain");
    assert_eq!(model_error::KEY, "MTKModelErrorKey");
    assert_eq!(ModelError::domain().as_str(), "MTKModelErrorDomain");
    assert_eq!(ModelError::key().as_str(), "MTKModelErrorKey");
    assert_eq!(metal_vertex_format::UCHAR4_NORMALIZED, 14);
    assert_eq!(metal_vertex_format::FLOAT2, 29);
    assert_eq!(metal_vertex_format::FLOAT3, 30);
    assert_eq!(metal_vertex_format::FLOAT4, 31);
    assert_eq!(model_vertex_format::UCHAR4_NORMALIZED, 0x30004);
    assert_eq!(model_vertex_format::FLOAT2, 0xC0002);
    assert_eq!(model_vertex_format::FLOAT3, 0xC0003);
    assert_eq!(model_vertex_format::FLOAT4, 0xC0004);
}
