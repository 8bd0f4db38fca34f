//! The resource-kind and usage checks behind format-support queries.
//!
//! The modern API answers a per-format capability bitmask; the legacy API
//! asks about a resource kind plus usage flags.  A format is supported iff
//! the bit required by the requested kind is set and, independently, the
//! bit for each requested usage flag is set; a kind or flag that is not
//! requested is not a failure.

use vstd::prelude::*;

verus! {

/// Resource kinds of the legacy API.
#[derive(Clone, Copy, Debug, PartialEq, Eq, Structural)]
pub enum ResourceType {
    Surface,
    Volume,
    Texture,
    VolumeTexture,
    CubeTexture,
    VertexBuffer,
    IndexBuffer,
}

/// Legacy usage flag: the resource can be a render target.
pub const USAGE_RENDER_TARGET: u32 = 0x1;

/// Legacy usage flag: the resource can be a depth/stencil buffer.
pub const USAGE_DEPTH_STENCIL: u32 = 0x2;

/// Legacy usage flag: mipmap levels are generated automatically.
pub const USAGE_AUTO_GEN_MIP_MAP: u32 = 0x400;

/// Modern capability bit: usable as a vertex buffer.
pub const SUPPORT_VERTEX_BUFFER: u32 = 0x2;

/// Modern capability bit: usable as an index buffer.
pub const SUPPORT_INDEX_BUFFER: u32 = 0x4;

/// Modern capability bit: usable as a 2D texture.
pub const SUPPORT_TEXTURE2D: u32 = 0x20;

/// Modern capability bit: usable as a 3D texture.
pub const SUPPORT_TEXTURE3D: u32 = 0x40;

/// Modern capability bit: usable as a cube texture.
pub const SUPPORT_TEXTURECUBE: u32 = 0x80;

/// Modern capability bit: mipmap auto-generation.
pub const SUPPORT_MIP_AUTOGEN: u32 = 0x2000;

/// Modern capability bit: usable as a render target.
pub const SUPPORT_RENDER_TARGET: u32 = 0x4000;

/// Modern capability bit: usable as a depth/stencil buffer.
pub const SUPPORT_DEPTH_STENCIL: u32 = 0x10000;

/// The capability bit a resource kind requires: surfaces and plain textures
/// need the 2D-texture bit, volumes the 3D-texture bit, cube textures the
/// cube bit, and the buffer kinds their buffer bits.
pub open spec fn spec_required_support_bit(rt: ResourceType) -> u32 {
    match rt {
        ResourceType::Surface => SUPPORT_TEXTURE2D,
        ResourceType::Volume => SUPPORT_TEXTURE3D,
        ResourceType::Texture => SUPPORT_TEXTURE2D,
        ResourceType::VolumeTexture => SUPPORT_TEXTURE3D,
        ResourceType::CubeTexture => SUPPORT_TEXTURECUBE,
        ResourceType::VertexBuffer => SUPPORT_VERTEX_BUFFER,
        ResourceType::IndexBuffer => SUPPORT_INDEX_BUFFER,
    }
}

/// Whether a reported capability mask satisfies a resource kind and a set
/// of usage flags.
pub open spec fn spec_mask_allows(mask: u32, rt: ResourceType, usage: u32) -> bool {
    &&& mask & spec_required_support_bit(rt) != 0
    &&& (usage & USAGE_AUTO_GEN_MIP_MAP != 0 ==> mask & SUPPORT_MIP_AUTOGEN != 0)
    &&& (usage & USAGE_RENDER_TARGET != 0 ==> mask & SUPPORT_RENDER_TARGET != 0)
    &&& (usage & USAGE_DEPTH_STENCIL != 0 ==> mask & SUPPORT_DEPTH_STENCIL != 0)
}

/// Applies the resource-kind and usage checks to a reported mask.
pub fn mask_allows(mask: u32, rt: ResourceType, usage: u32) -> (r: bool)
    ensures
        r == spec_mask_allows(mask, rt, usage),
{
    let required: u32 = match rt {
        ResourceType::Surface => SUPPORT_TEXTURE2D,
        ResourceType::Volume => SUPPORT_TEXTURE3D,
        ResourceType::Texture => SUPPORT_TEXTURE2D,
        ResourceType::VolumeTexture => SUPPORT_TEXTURE3D,
        ResourceType::CubeTexture => SUPPORT_TEXTURECUBE,
        ResourceType::VertexBuffer => SUPPORT_VERTEX_BUFFER,
        ResourceType::IndexBuffer => SUPPORT_INDEX_BUFFER,
    };
    let kind_ok = mask & required != 0;
    let mip_ok = usage & USAGE_AUTO_GEN_MIP_MAP == 0 || mask & SUPPORT_MIP_AUTOGEN != 0;
    let rt_ok = usage & USAGE_RENDER_TARGET == 0 || mask & SUPPORT_RENDER_TARGET != 0;
    let ds_ok = usage & USAGE_DEPTH_STENCIL == 0 || mask & SUPPORT_DEPTH_STENCIL != 0;
    kind_ok && mip_ok && rt_ok && ds_ok
}

} // verus!
