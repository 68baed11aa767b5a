//! `MTKTextureLoaderOrigin*` values.
use vstd::prelude::*;

use super::TextureLoaderOrigin;

verus! {

/// `MTKTextureLoaderOriginTopLeft`.
pub fn top_left() -> (origin: TextureLoaderOrigin)
    ensures
        origin@ == "MTKTextureLoaderOriginTopLeft"@,
{
    proof {
        reveal_strlit("MTKTextureLoaderOriginTopLeft");
    }
    TextureLoaderOrigin("MTKTextureLoaderOriginTopLeft")
}

/// `MTKTextureLoaderOriginBottomLeft`.
pub fn bottom_left() -> (origin: TextureLoaderOrigin)
    ensures
        origin@ == "MTKTextureLoaderOriginBottomLeft"@,
{
    proof {
        reveal_strlit("MTKTextureLoaderOriginBottomLeft");
    }
    TextureLoaderOrigin("MTKTextureLoaderOriginBottomLeft")
}

/// `MTKTextureLoaderOriginFlippedVertically`.
pub fn flipped_vertically() -> (origin: TextureLoaderOrigin)
    ensures
        origin@ == "MTKTextureLoaderOriginFlippedVertically"@,
{
    proof {
        reveal_strlit("MTKTextureLoaderOriginFlippedVertically");
    }
    TextureLoaderOrigin("MTKTextureLoaderOriginFlippedVertically")
}

} // verus!
