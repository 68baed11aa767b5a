//! `MTKTextureLoaderCubeLayout*` values.
use vstd::prelude::*;

use super::TextureLoaderCubeLayout;

verus! {

/// `MTKTextureLoaderCubeLayoutVertical`.
pub fn vertical() -> (layout: TextureLoaderCubeLayout)
    ensures
        layout@ == "MTKTextureLoaderCubeLayoutVertical"@,
{
    proof {
        reveal_strlit("MTKTextureLoaderCubeLayoutVertical");
    }
    TextureLoaderCubeLayout("MTKTextureLoaderCubeLayoutVertical")
}

} // verus!
