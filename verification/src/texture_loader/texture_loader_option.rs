//! `MTKTextureLoaderOption*` dictionary keys.
use vstd::prelude::*;

use super::TextureLoaderOptionKey;

verus! {

/// `MTKTextureLoaderOptionAllocateMipmaps`.
pub fn allocate_mipmaps() -> (key: TextureLoaderOptionKey)
    ensures
        key@ == "MTKTextureLoaderOptionAllocateMipmaps"@,
{
    TextureLoaderOptionKey("MTKTextureLoaderOptionAllocateMipmaps")
}

/// `MTKTextureLoaderOptionGenerateMipmaps`.
pub fn generate_mipmaps() -> (key: TextureLoaderOptionKey)
    ensures
        key@ == "MTKTextureLoaderOptionGenerateMipmaps"@,
{
    TextureLoaderOptionKey("MTKTextureLoaderOptionGenerateMipmaps")
}

/// `MTKTextureLoaderOptionSRGB`.
pub fn srgb() -> (key: TextureLoaderOptionKey)
    ensures
        key@ == "MTKTextureLoaderOptionSRGB"@,
{
    TextureLoaderOptionKey("MTKTextureLoaderOptionSRGB")
}

/// `MTKTextureLoaderOptionTextureUsage`.
pub fn texture_usage() -> (key: TextureLoaderOptionKey)
    ensures
        key@ == "MTKTextureLoaderOptionTextureUsage"@,
{
    TextureLoaderOptionKey("MTKTextureLoaderOptionTextureUsage")
}

/// `MTKTextureLoaderOptionTextureStorageMode`.
pub fn texture_storage_mode() -> (key: TextureLoaderOptionKey)
    ensures
        key@ == "MTKTextureLoaderOptionTextureStorageMode"@,
{
    TextureLoaderOptionKey("MTKTextureLoaderOptionTextureStorageMode")
}

/// `MTKTextureLoaderOptionTextureCPUCacheMode`.
pub fn texture_cpu_cache_mode() -> (key: TextureLoaderOptionKey)
    ensures
        key@ == "MTKTextureLoaderOptionTextureCPUCacheMode"@,
{
    TextureLoaderOptionKey("MTKTextureLoaderOptionTextureCPUCacheMode")
}

/// `MTKTextureLoaderOptionCubeLayout`.
pub fn cube_layout() -> (key: TextureLoaderOptionKey)
    ensures
        key@ == "MTKTextureLoaderOptionCubeLayout"@,
{
    TextureLoaderOptionKey("MTKTextureLoaderOptionCubeLayout")
}

/// `MTKTextureLoaderOptionOrigin`.
pub fn origin() -> (key: TextureLoaderOptionKey)
    ensures
        key@ == "MTKTextureLoaderOptionOrigin"@,
{
    TextureLoaderOptionKey("MTKTextureLoaderOptionOrigin")
}

/// `MTKTextureLoaderOptionLoadAsArray`.
pub fn load_as_array() -> (key: TextureLoaderOptionKey)
    ensures
        key@ == "MTKTextureLoaderOptionLoadAsArray"@,
{
    TextureLoaderOptionKey("MTKTextureLoaderOptionLoadAsArray")
}

} // verus!
