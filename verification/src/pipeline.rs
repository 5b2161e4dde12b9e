//! Fixed pipeline configuration: the exact blend, rasterizer and sampler
//! descriptors the compositor uses, and the three-attribute vertex input
//! layout the shader program expects.
//!
//! The host creates the device state objects from these descriptors once at
//! initialization and hands their handles to the orchestrator; the
//! descriptors themselves — premultiplied-alpha-free straight alpha
//! blending, solid fill with no culling and scissoring on, linear sampling
//! with a white border — are the compositor's own choices and are pinned
//! here.

use vstd::prelude::*;

verus! {

/// A blend factor, as the device's blend stage knows it.
#[derive(Clone, Copy, PartialEq, Eq, Structural, Debug)]
pub enum BlendFactor {
    Zero,
    One,
    SrcColor,
    InvSrcColor,
    SrcAlpha,
    InvSrcAlpha,
}

/// A blend operation.
#[derive(Clone, Copy, PartialEq, Eq, Structural, Debug)]
pub enum BlendOp {
    Add,
    Subtract,
}

/// The blend configuration of the one render target the compositor draws
/// to: straight alpha over the host's frame.
#[derive(Clone, Copy, PartialEq, Eq, Structural, Debug)]
pub struct RenderTargetBlendDesc {
    pub blend_enable: bool,
    pub src_blend: BlendFactor,
    pub dest_blend: BlendFactor,
    pub blend_op: BlendOp,
    pub src_blend_alpha: BlendFactor,
    pub dest_blend_alpha: BlendFactor,
    pub blend_op_alpha: BlendOp,
    pub write_mask_all: bool,
}

/// The whole blend descriptor: one target, no alpha-to-coverage, no
/// independent per-target blending.
#[derive(Clone, Copy, PartialEq, Eq, Structural, Debug)]
pub struct BlendDesc {
    pub alpha_to_coverage: bool,
    pub independent_blend: bool,
    pub target: RenderTargetBlendDesc,
}

/// The fill mode of the rasterizer.
#[derive(Clone, Copy, PartialEq, Eq, Structural, Debug)]
pub enum FillMode {
    Solid,
    Wireframe,
}

/// The culling mode of the rasterizer.
#[derive(Clone, Copy, PartialEq, Eq, Structural, Debug)]
pub enum CullMode {
    NoCulling,
    Front,
    Back,
}

/// The rasterizer descriptor.  Float-valued bias fields are carried as raw
/// 32-bit float bit patterns.
#[derive(Clone, Copy, PartialEq, Eq, Structural, Debug)]
pub struct RasterDesc {
    pub fill_mode: FillMode,
    pub cull_mode: CullMode,
    pub front_counter_clockwise: bool,
    pub depth_bias: i32,
    pub depth_bias_clamp_bits: u32,
    pub slope_scaled_depth_bias_bits: u32,
    pub depth_clip_enable: bool,
    pub scissor_enable: bool,
    pub multisample_enable: bool,
    pub antialiased_line_enable: bool,
}

/// The sampler's filter.
#[derive(Clone, Copy, PartialEq, Eq, Structural, Debug)]
pub enum Filter {
    MinMagMipLinear,
    MinMagMipPoint,
}

/// The sampler's addressing mode outside the unit square.
#[derive(Clone, Copy, PartialEq, Eq, Structural, Debug)]
pub enum AddressMode {
    Wrap,
    Clamp,
    Border,
}

/// The sampler's comparison function.
#[derive(Clone, Copy, PartialEq, Eq, Structural, Debug)]
pub enum ComparisonFunc {
    Never,
    Always,
}

/// The sampler descriptor.  Float-valued fields are carried as raw 32-bit
/// float bit patterns; the border color is opaque white.
#[derive(Clone, Copy, PartialEq, Eq, Structural, Debug)]
pub struct SamplerDesc {
    pub filter: Filter,
    pub address_u: AddressMode,
    pub address_v: AddressMode,
    pub address_w: AddressMode,
    pub mip_lod_bias_bits: u32,
    pub comparison: ComparisonFunc,
    pub min_lod_bits: u32,
    pub max_lod_bits: u32,
    pub border_r_bits: u32,
    pub border_g_bits: u32,
    pub border_b_bits: u32,
    pub border_a_bits: u32,
}

/// The bit pattern of the 32-bit floating-point value one, the border
/// color's channels.
pub const BORDER_ONE_BITS: u32 = 0x3F80_0000;

/// The semantic a vertex attribute binds to in the shader program.
#[derive(Clone, Copy, PartialEq, Eq, Structural, Debug)]
pub enum Semantic {
    Position,
    TexCoord,
    Color,
}

/// A vertex attribute's element format.
#[derive(Clone, Copy, PartialEq, Eq, Structural, Debug)]
pub enum VertexFormat {
    Float32x2,
    Float32x4,
}

/// One element of the vertex input layout: its semantic, format and byte
/// offset into the tightly packed vertex.
#[derive(Clone, Copy, PartialEq, Eq, Structural, Debug)]
pub struct InputElementDesc {
    pub semantic: Semantic,
    pub format: VertexFormat,
    pub aligned_byte_offset: u32,
}

/// The compositor's blend state: straight source-alpha blending onto the
/// host's frame, alpha accumulated with one/inverse-source-alpha, all
/// channels written.
pub open spec fn blend_desc_spec() -> BlendDesc {
    BlendDesc {
        alpha_to_coverage: false,
        independent_blend: false,
        target: RenderTargetBlendDesc {
            blend_enable: true,
            src_blend: BlendFactor::SrcAlpha,
            dest_blend: BlendFactor::InvSrcAlpha,
            blend_op: BlendOp::Add,
            src_blend_alpha: BlendFactor::One,
            dest_blend_alpha: BlendFactor::InvSrcAlpha,
            blend_op_alpha: BlendOp::Add,
            write_mask_all: true,
        },
    }
}

/// Builds the compositor's blend descriptor.
pub fn blend_desc() -> (d: BlendDesc)
    ensures
        d == blend_desc_spec(),
{
    BlendDesc {
        alpha_to_coverage: false,
        independent_blend: false,
        target: RenderTargetBlendDesc {
            blend_enable: true,
            src_blend: BlendFactor::SrcAlpha,
            dest_blend: BlendFactor::InvSrcAlpha,
            blend_op: BlendOp::Add,
            src_blend_alpha: BlendFactor::One,
            dest_blend_alpha: BlendFactor::InvSrcAlpha,
            blend_op_alpha: BlendOp::Add,
            write_mask_all: true,
        },
    }
}

/// The compositor's rasterizer state: solid fill, no culling, no depth
/// bias or clipping, scissoring enabled for the per-mesh clip rectangles.
pub open spec fn raster_desc_spec() -> RasterDesc {
    RasterDesc {
        fill_mode: FillMode::Solid,
        cull_mode: CullMode::NoCulling,
        front_counter_clockwise: false,
        depth_bias: 0,
        depth_bias_clamp_bits: 0,
        slope_scaled_depth_bias_bits: 0,
        depth_clip_enable: false,
        scissor_enable: true,
        multisample_enable: false,
        antialiased_line_enable: false,
    }
}

/// Builds the compositor's rasterizer descriptor.
pub fn raster_desc() -> (d: RasterDesc)
    ensures
        d == raster_desc_spec(),
{
    RasterDesc {
        fill_mode: FillMode::Solid,
        cull_mode: CullMode::NoCulling,
        front_counter_clockwise: false,
        depth_bias: 0,
        depth_bias_clamp_bits: 0,
        slope_scaled_depth_bias_bits: 0,
        depth_clip_enable: false,
        scissor_enable: true,
        multisample_enable: false,
        antialiased_line_enable: false,
    }
}

/// The compositor's sampler: trilinear filtering, border addressing with
/// an opaque white border, always-pass comparison, single mip level.
pub open spec fn sampler_desc_spec() -> SamplerDesc {
    SamplerDesc {
        filter: Filter::MinMagMipLinear,
        address_u: AddressMode::Border,
        address_v: AddressMode::Border,
        address_w: AddressMode::Border,
        mip_lod_bias_bits: 0,
        comparison: ComparisonFunc::Always,
        min_lod_bits: 0,
        max_lod_bits: 0,
        border_r_bits: BORDER_ONE_BITS,
        border_g_bits: BORDER_ONE_BITS,
        border_b_bits: BORDER_ONE_BITS,
        border_a_bits: BORDER_ONE_BITS,
    }
}

/// Builds the compositor's sampler descriptor.
pub fn sampler_desc() -> (d: SamplerDesc)
    ensures
        d == sampler_desc_spec(),
{
    SamplerDesc {
        filter: Filter::MinMagMipLinear,
        address_u: AddressMode::Border,
        address_v: AddressMode::Border,
        address_w: AddressMode::Border,
        mip_lod_bias_bits: 0,
        comparison: ComparisonFunc::Always,
        min_lod_bits: 0,
        max_lod_bits: 0,
        border_r_bits: BORDER_ONE_BITS,
        border_g_bits: BORDER_ONE_BITS,
        border_b_bits: BORDER_ONE_BITS,
        border_a_bits: BORDER_ONE_BITS,
    }
}

/// The vertex input layout the shader program expects, tightly packed in
/// order: a two-float position at byte 0, a two-float texture coordinate
/// at byte 8, a four-float color at byte 16.
pub fn input_layout_desc() -> (r: Vec<InputElementDesc>)
    ensures
        r@.len() == 3,
        r@[0] == (InputElementDesc {
            semantic: Semantic::Position,
            format: VertexFormat::Float32x2,
            aligned_byte_offset: 0,
        }),
        r@[1] == (InputElementDesc {
            semantic: Semantic::TexCoord,
            format: VertexFormat::Float32x2,
            aligned_byte_offset: 8,
        }),
        r@[2] == (InputElementDesc {
            semantic: Semantic::Color,
            format: VertexFormat::Float32x4,
            aligned_byte_offset: 16,
        }),
{
    let mut r: Vec<InputElementDesc> = Vec::new();
    r.push(
        InputElementDesc {
            semantic: Semantic::Position,
            format: VertexFormat::Float32x2,
            aligned_byte_offset: 0,
        },
    );
    r.push(
        InputElementDesc {
            semantic: Semantic::TexCoord,
            format: VertexFormat::Float32x2,
            aligned_byte_offset: 8,
        },
    );
    r.push(
        InputElementDesc {
            semantic: Semantic::Color,
            format: VertexFormat::Float32x4,
            aligned_byte_offset: 16,
        },
    );
    r
}

} // verus!
