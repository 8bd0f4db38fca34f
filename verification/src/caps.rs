//! The legacy capability struct and its fixed construction.
//!
//! The modern API's feature set is a strict superset of the legacy
//! capability model along essentially every axis the legacy struct
//! enumerates, so most bitfields are set to all bits on.  The two
//! deliberate exceptions: the texture-capability bits that describe
//! power-of-two size *restrictions* are cleared (the bits mean "restriction
//! present", so clearing them reports a fully capable device), and the
//! numeric limits are fixed constants representing the modern API's
//! guaranteed minimums rather than per-GPU queries.
//!
//! The handful of floating-point fields of the legacy struct (guard-band
//! extents, maximum point size, maximum tessellation level and the like)
//! are equally fixed constants; they are supplied by the platform layer
//! when the record is marshaled into the legacy layout, since this crate
//! holds no floating-point values.

use vstd::prelude::*;
use crate::device::DeviceType;

verus! {

/// Legacy capability bit: mipmap levels can be generated automatically.
pub const CAPS2_CAN_AUTO_GEN_MIP_MAP: u32 = 0x4000_0000;

/// Legacy capability bit: the gamma ramp can be calibrated.
pub const CAPS2_CAN_CALIBRATE_GAMMA: u32 = 0x10_0000;

/// Legacy capability bit: full-screen gamma is supported.
pub const CAPS2_FULL_SCREEN_GAMMA: u32 = 0x2_0000;

/// Legacy capability bit: resources can be managed by the runtime.
pub const CAPS2_CAN_MANAGE_RESOURCE: u32 = 0x1000_0000;

/// Legacy capability bit: dynamic textures are supported.
pub const CAPS2_DYNAMIC_TEXTURES: u32 = 0x2000_0000;

/// Legacy capability bit: alpha channels survive full-screen flip/discard.
pub const CAPS3_ALPHA_FULLSCREEN_FLIP_OR_DISCARD: u32 = 0x20;

/// Legacy capability bit: copies to video memory are supported.
pub const CAPS3_COPY_TO_VIDMEM: u32 = 0x100;

/// Legacy capability bit: copies to system memory are supported.
pub const CAPS3_COPY_TO_SYSTEMMEM: u32 = 0x200;

/// Legacy capability bit: linear-to-sRGB presentation is supported.
pub const CAPS3_LINEAR_TO_SRGB_PRESENTATION: u32 = 0x80;

/// Legacy texture restriction bit: sizes must be powers of two.
pub const TEXTURE_CAPS_POW2: u32 = 0x2;

/// Legacy texture restriction bit: non-power-of-two sizes are conditional.
pub const TEXTURE_CAPS_NON_POW2_CONDITIONAL: u32 = 0x100;

/// Legacy texture restriction bit: cube map sizes must be powers of two.
pub const TEXTURE_CAPS_CUBEMAP_POW2: u32 = 0x2_0000;

/// Legacy texture restriction bit: volume map sizes must be powers of two.
pub const TEXTURE_CAPS_VOLUMEMAP_POW2: u32 = 0x4_0000;

/// Legacy texture restriction bit: projected bump environment mapping is
/// unavailable.
pub const TEXTURE_CAPS_NO_PROJECTED_BUMP_ENV: u32 = 0x20_0000;

/// The texture restriction bits that modern hardware has outgrown; the
/// capability struct reports them cleared.
pub const TEXTURE_CAPS_RESTRICTIONS: u32 = TEXTURE_CAPS_CUBEMAP_POW2
    | TEXTURE_CAPS_NO_PROJECTED_BUMP_ENV | TEXTURE_CAPS_NON_POW2_CONDITIONAL | TEXTURE_CAPS_POW2
    | TEXTURE_CAPS_VOLUMEMAP_POW2;

/// Shader-model 3.0 vertex shader version token.
pub const VERTEX_SHADER_VERSION_3_0: u32 = 0xFFFE_0300;

/// Shader-model 3.0 pixel shader version token.
pub const PIXEL_SHADER_VERSION_3_0: u32 = 0xFFFF_0300;

/// Capabilities of version-2.0 vertex shaders.
#[derive(Clone, Copy, Debug, PartialEq, Eq, Structural)]
pub struct VertexShaderCaps20 {
    pub caps: u32,
    pub dynamic_flow_control_depth: u32,
    pub num_temps: u32,
    pub static_flow_control_depth: u32,
}

/// Capabilities of version-2.0 pixel shaders.
#[derive(Clone, Copy, Debug, PartialEq, Eq, Structural)]
pub struct PixelShaderCaps20 {
    pub caps: u32,
    pub dynamic_flow_control_depth: u32,
    pub num_temps: u32,
    pub static_flow_control_depth: u32,
    pub num_instruction_slots: u32,
}

/// The legacy capability struct, without its floating-point fields.
#[derive(Clone, Copy, Debug, PartialEq, Eq, Structural)]
pub struct Caps {
    pub device_type: DeviceType,
    pub adapter_ordinal: u32,
    pub caps: u32,
    pub caps2: u32,
    pub caps3: u32,
    pub presentation_intervals: u32,
    pub cursor_caps: u32,
    pub dev_caps: u32,
    pub primitive_misc_caps: u32,
    pub raster_caps: u32,
    pub z_cmp_caps: u32,
    pub src_blend_caps: u32,
    pub dest_blend_caps: u32,
    pub alpha_cmp_caps: u32,
    pub shade_caps: u32,
    pub texture_caps: u32,
    pub texture_filter_caps: u32,
    pub cube_texture_filter_caps: u32,
    pub volume_texture_filter_caps: u32,
    pub texture_address_caps: u32,
    pub volume_texture_address_caps: u32,
    pub line_caps: u32,
    pub max_texture_width: u32,
    pub max_texture_height: u32,
    pub max_volume_extent: u32,
    pub max_texture_repeat: u32,
    pub max_texture_aspect_ratio: u32,
    pub max_anisotropy: u32,
    pub stencil_caps: u32,
    pub fvf_caps: u32,
    pub texture_op_caps: u32,
    pub max_texture_blend_stages: u32,
    pub max_simultaneous_textures: u32,
    pub vertex_processing_caps: u32,
    pub max_active_lights: u32,
    pub max_user_clip_planes: u32,
    pub max_vertex_blend_matrices: u32,
    pub max_vertex_blend_matrix_index: u32,
    pub max_primitive_count: u32,
    pub max_vertex_index: u32,
    pub max_streams: u32,
    pub max_stream_stride: u32,
    pub vertex_shader_version: u32,
    pub max_vertex_shader_const: u32,
    pub pixel_shader_version: u32,
    pub dev_caps2: u32,
    pub master_adapter_ordinal: u32,
    pub adapter_ordinal_in_group: u32,
    pub number_of_adapters_in_group: u32,
    pub decl_types: u32,
    pub num_simultaneous_rts: u32,
    pub stretch_rect_filter_caps: u32,
    pub vs20_caps: VertexShaderCaps20,
    pub ps20_caps: PixelShaderCaps20,
    pub vertex_texture_filter_caps: u32,
    pub max_vshader_instructions_executed: u32,
    pub max_pshader_instructions_executed: u32,
    pub max_vertex_shader_30_instruction_slots: u32,
    pub max_pixel_shader_30_instruction_slots: u32,
}

/// The capability struct reported for the adapter at `index`: a pure,
/// static construction with no failure mode.
pub open spec fn spec_caps(index: u32) -> Caps {
    Caps {
        device_type: DeviceType::Hal,
        adapter_ordinal: index,
        caps: 0,
        caps2: CAPS2_CAN_AUTO_GEN_MIP_MAP | CAPS2_CAN_CALIBRATE_GAMMA | CAPS2_FULL_SCREEN_GAMMA
            | CAPS2_CAN_MANAGE_RESOURCE | CAPS2_DYNAMIC_TEXTURES,
        caps3: CAPS3_ALPHA_FULLSCREEN_FLIP_OR_DISCARD | CAPS3_COPY_TO_VIDMEM
            | CAPS3_COPY_TO_SYSTEMMEM | CAPS3_LINEAR_TO_SRGB_PRESENTATION,
        presentation_intervals: u32::MAX,
        cursor_caps: u32::MAX,
        dev_caps: u32::MAX,
        primitive_misc_caps: u32::MAX,
        raster_caps: u32::MAX,
        z_cmp_caps: u32::MAX,
        src_blend_caps: u32::MAX,
        dest_blend_caps: u32::MAX,
        alpha_cmp_caps: u32::MAX,
        shade_caps: u32::MAX,
        texture_caps: u32::MAX ^ TEXTURE_CAPS_RESTRICTIONS,
        texture_filter_caps: u32::MAX,
        cube_texture_filter_caps: u32::MAX,
        volume_texture_filter_caps: u32::MAX,
        texture_address_caps: u32::MAX,
        volume_texture_address_caps: u32::MAX,
        line_caps: u32::MAX,
        max_texture_width: 16384,
        max_texture_height: 16384,
        max_volume_extent: 2048,
        max_texture_repeat: 8192,
        max_texture_aspect_ratio: 16384,
        max_anisotropy: 16,
        stencil_caps: u32::MAX,
        fvf_caps: u32::MAX,
        texture_op_caps: u32::MAX,
        max_texture_blend_stages: 8,
        max_simultaneous_textures: 8,
        vertex_processing_caps: u32::MAX,
        max_active_lights: 8,
        max_user_clip_planes: 8,
        max_vertex_blend_matrices: u32::MAX,
        max_vertex_blend_matrix_index: u32::MAX,
        max_primitive_count: u32::MAX,
        max_vertex_index: u32::MAX,
        max_streams: 16,
        max_stream_stride: 0x8000_0000,
        vertex_shader_version: VERTEX_SHADER_VERSION_3_0,
        max_vertex_shader_const: 0x1_0000,
        pixel_shader_version: PIXEL_SHADER_VERSION_3_0,
        dev_caps2: u32::MAX,
        master_adapter_ordinal: index,
        adapter_ordinal_in_group: 0,
        number_of_adapters_in_group: 1,
        decl_types: u32::MAX,
        num_simultaneous_rts: 8,
        stretch_rect_filter_caps: u32::MAX,
        vs20_caps: VertexShaderCaps20 {
            caps: u32::MAX,
            dynamic_flow_control_depth: 24,
            num_temps: 16384,
            static_flow_control_depth: 0x8000_0000,
        },
        ps20_caps: PixelShaderCaps20 {
            caps: u32::MAX,
            dynamic_flow_control_depth: 24,
            num_temps: 0xFFFF_BFFF,
            static_flow_control_depth: 0x8000_0000,
            num_instruction_slots: 0x8000_0000,
        },
        vertex_texture_filter_caps: u32::MAX,
        max_vshader_instructions_executed: u32::MAX,
        max_pshader_instructions_executed: u32::MAX,
        max_vertex_shader_30_instruction_slots: 32768,
        max_pixel_shader_30_instruction_slots: 32768,
    }
}

/// Builds the capability struct for the adapter at `index`.
pub fn build_caps(index: u32) -> (r: Caps)
    ensures
        r == spec_caps(index),
{
    Caps {
        device_type: DeviceType::Hal,
        adapter_ordinal: index,
        caps: 0,
        caps2: CAPS2_CAN_AUTO_GEN_MIP_MAP | CAPS2_CAN_CALIBRATE_GAMMA | CAPS2_FULL_SCREEN_GAMMA
            | CAPS2_CAN_MANAGE_RESOURCE | CAPS2_DYNAMIC_TEXTURES,
        caps3: CAPS3_ALPHA_FULLSCREEN_FLIP_OR_DISCARD | CAPS3_COPY_TO_VIDMEM
            | CAPS3_COPY_TO_SYSTEMMEM | CAPS3_LINEAR_TO_SRGB_PRESENTATION,
        presentation_intervals: u32::MAX,
        cursor_caps: u32::MAX,
        dev_caps: u32::MAX,
        primitive_misc_caps: u32::MAX,
        raster_caps: u32::MAX,
        z_cmp_caps: u32::MAX,
        src_blend_caps: u32::MAX,
        dest_blend_caps: u32::MAX,
        alpha_cmp_caps: u32::MAX,
        shade_caps: u32::MAX,
        texture_caps: u32::MAX ^ TEXTURE_CAPS_RESTRICTIONS,
        texture_filter_caps: u32::MAX,
        cube_texture_filter_caps: u32::MAX,
        volume_texture_filter_caps: u32::MAX,
        texture_address_caps: u32::MAX,
        volume_texture_address_caps: u32::MAX,
        line_caps: u32::MAX,
        max_texture_width: 16384,
        max_texture_height: 16384,
        max_volume_extent: 2048,
        max_texture_repeat: 8192,
        max_texture_aspect_ratio: 16384,
        max_anisotropy: 16,
        stencil_caps: u32::MAX,
        fvf_caps: u32::MAX,
        texture_op_caps: u32::MAX,
        max_texture_blend_stages: 8,
        max_simultaneous_textures: 8,
        vertex_processing_caps: u32::MAX,
        max_active_lights: 8,
        max_user_clip_planes: 8,
        max_vertex_blend_matrices: u32::MAX,
        max_vertex_blend_matrix_index: u32::MAX,
        max_primitive_count: u32::MAX,
        max_vertex_index: u32::MAX,
        max_streams: 16,
        max_stream_stride: 0x8000_0000,
        vertex_shader_version: VERTEX_SHADER_VERSION_3_0,
        max_vertex_shader_const: 0x1_0000,
        pixel_shader_version: PIXEL_SHADER_VERSION_3_0,
        dev_caps2: u32::MAX,
        master_adapter_ordinal: index,
        adapter_ordinal_in_group: 0,
        number_of_adapters_in_group: 1,
        decl_types: u32::MAX,
        num_simultaneous_rts: 8,
        stretch_rect_filter_caps: u32::MAX,
        vs20_caps: VertexShaderCaps20 {
            caps: u32::MAX,
            dynamic_flow_control_depth: 24,
            num_temps: 16384,
            static_flow_control_depth: 0x8000_0000,
        },
        ps20_caps: PixelShaderCaps20 {
            caps: u32::MAX,
            dynamic_flow_control_depth: 24,
            num_temps: 0xFFFF_BFFF,
            static_flow_control_depth: 0x8000_0000,
            num_instruction_slots: 0x8000_0000,
        },
        vertex_texture_filter_caps: u32::MAX,
        max_vshader_instructions_executed: u32::MAX,
        max_pshader_instructions_executed: u32::MAX,
        max_vertex_shader_30_instruction_slots: 32768,
        max_pixel_shader_30_instruction_slots: 32768,
    }
}

} // verus!
