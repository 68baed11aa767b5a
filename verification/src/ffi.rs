//! The option record handed to the texture-loader bridge, as plain values.
use vstd::prelude::*;

verus! {

/// Flag bit: `generate_mipmaps` is set.
pub const OPTION_GENERATE_MIPMAPS: u32 = 0x1;
/// Flag bit: `allocate_mipmaps` is set.
pub const OPTION_ALLOCATE_MIPMAPS: u32 = 0x2;
/// Flag bit: `srgb` is set.
pub const OPTION_SRGB: u32 = 0x4;
/// Flag bit: `texture_usage` is set.
pub const OPTION_TEXTURE_USAGE: u32 = 0x8;
/// Flag bit: `texture_storage_mode` is set.
pub const OPTION_TEXTURE_STORAGE_MODE: u32 = 0x10;
/// Flag bit: `texture_cpu_cache_mode` is set.
pub const OPTION_TEXTURE_CPU_CACHE_MODE: u32 = 0x20;
/// Flag bit: `cube_layout` is set.
pub const OPTION_CUBE_LAYOUT: u32 = 0x40;
/// Flag bit: `origin` is set.
pub const OPTION_ORIGIN: u32 = 0x80;
/// Flag bit: `load_as_array` is set.
pub const OPTION_LOAD_AS_ARRAY: u32 = 0x100;

/// The texture-loader option record of the bridge: `flags` says which
/// options are set, the other fields hold their values (zero or absent
/// where unset). The two texts travel as C strings.
#[derive(Debug, Clone, Copy)]
pub struct TextureLoaderOptionsRaw {
    pub flags: u32,
    pub generate_mipmaps: u8,
    pub allocate_mipmaps: u8,
    pub srgb: u8,
    pub load_as_array: u8,
    pub texture_usage: u64,
    pub texture_storage_mode: u64,
    pub texture_cpu_cache_mode: u64,
    pub cube_layout: Option<&'static str>,
    pub origin: Option<&'static str>,
}

impl TextureLoaderOptionsRaw {
    /// The record in which no option is set.
    pub fn empty() -> (raw: Self)
        ensures
            raw.flags == 0,
            raw.generate_mipmaps == 0,
            raw.allocate_mipmaps == 0,
            raw.srgb == 0,
            raw.load_as_array == 0,
            raw.texture_usage == 0,
            raw.texture_storage_mode == 0,
            raw.texture_cpu_cache_mode == 0,
            raw.cube_layout is None,
            raw.origin is None,
    {
        TextureLoaderOptionsRaw {
            flags: 0,
            generate_mipmaps: 0,
            allocate_mipmaps: 0,
            srgb: 0,
            load_as_array: 0,
            texture_usage: 0,
            texture_storage_mode: 0,
            texture_cpu_cache_mode: 0,
            cube_layout: None,
            origin: None,
        }
    }
}

} // verus!
