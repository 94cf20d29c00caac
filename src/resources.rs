//! Descriptors of the GPU resources the pipeline allocates: the input
//! texture, the intermediate texture, the uniform buffer and the vertex
//! buffer.

use vstd::prelude::*;
use crate::bytes::words_to_bytes;
use crate::error::PipelineError;
use crate::layout::{block_size, uniform_layout, FieldKind, UniformLayout};
use crate::model::{quad, spec_quad, vertex_words, vertices_as_bytes};

verus! {

/// Texture usage: source of a copy.
pub const COPY_SRC: u32 = 1;

/// Texture usage: destination of a copy or an upload.
pub const COPY_DST: u32 = 2;

/// Texture usage: sampled or read by a shader.
pub const TEXTURE_BINDING: u32 = 4;

/// Texture usage: written by a shader as a storage texture.
pub const STORAGE_BINDING: u32 = 8;

/// Texture usage: target of a render pass.
pub const RENDER_ATTACHMENT: u32 = 16;

/// The texel formats the pipeline deals in.
#[derive(Clone, Copy, Debug, PartialEq, Eq, Structural)]
pub enum TextureFormat {
    Rgba8Unorm,
    Rgba8UnormSrgb,
    Bgra8UnormSrgb,
    Rgba16Float,
    Rgba32Float,
}

impl TextureFormat {
    pub open spec fn spec_filterable(self) -> bool {
        !(self is Rgba32Float)
    }

    /// Whether a sampler may filter this format linearly.
    pub fn filterable(self) -> (r: bool)
        ensures
            r == self.spec_filterable(),
    {
        match self {
            TextureFormat::Rgba32Float => false,
            _ => true,
        }
    }
}

/// The limits the device reports.
#[derive(Clone, Copy, Debug, PartialEq, Eq, Structural)]
pub struct DeviceLimits {
    pub max_texture_dimension_2d: u32,
    pub max_uniform_buffer_binding_size: u32,
}

/// A two-dimensional texture to allocate.
#[derive(Clone, Copy, Debug, PartialEq, Eq, Structural)]
pub struct TextureDesc {
    pub width: u32,
    pub height: u32,
    pub format: TextureFormat,
    pub usage: u32,
}

/// Every usage bit of `flags` is set in `usage`.
pub open spec fn has_usage(usage: u32, flags: u32) -> bool {
    usage & flags == flags
}

/// A `width` x `height` texture is neither empty nor larger than the device
/// allows.
pub open spec fn extent_fits(width: u32, height: u32, limits: DeviceLimits) -> bool {
    &&& 0 < width <= limits.max_texture_dimension_2d
    &&& 0 < height <= limits.max_texture_dimension_2d
}

pub open spec fn input_usage() -> u32 {
    TEXTURE_BINDING | COPY_DST
}

pub open spec fn intermediate_usage() -> u32 {
    STORAGE_BINDING | TEXTURE_BINDING | COPY_SRC | COPY_DST
}

pub open spec fn spec_input_desc(width: u32, height: u32) -> TextureDesc {
    TextureDesc { width, height, format: TextureFormat::Rgba8UnormSrgb, usage: input_usage() }
}

pub open spec fn spec_intermediate_desc(width: u32, height: u32) -> TextureDesc {
    TextureDesc { width, height, format: TextureFormat::Rgba8Unorm, usage: intermediate_usage() }
}

/// The intermediate texture may be written by the compute stage, read by the
/// render stage, and copied from and to.
pub proof fn lemma_intermediate_usage()
    ensures
        has_usage(intermediate_usage(), STORAGE_BINDING | TEXTURE_BINDING),
        has_usage(intermediate_usage(), COPY_SRC | COPY_DST),
        has_usage(input_usage(), TEXTURE_BINDING | COPY_DST),
{
    assert((8u32 | 4u32 | 1u32 | 2u32) & (8u32 | 4u32) == (8u32 | 4u32)) by (bit_vector);
    assert((8u32 | 4u32 | 1u32 | 2u32) & (1u32 | 2u32) == (1u32 | 2u32)) by (bit_vector);
    assert((4u32 | 2u32) & (4u32 | 2u32) == (4u32 | 2u32)) by (bit_vector);
}

/// The texture the source image is uploaded to, for a `width` x `height`
/// image; fails with `ResourceLimitExceeded` exactly when the image is empty
/// or larger than the device allows.
pub fn input_texture_desc(width: u32, height: u32, limits: DeviceLimits) -> (r: Result<TextureDesc, PipelineError>)
    ensures
        r is Ok <==> extent_fits(width, height, limits),
        r matches Ok(d) ==> d == spec_input_desc(width, height),
        r matches Err(e) ==> e == PipelineError::ResourceLimitExceeded,
{
    if width == 0 || height == 0 || width > limits.max_texture_dimension_2d || height > limits.max_texture_dimension_2d {
        return Err(PipelineError::ResourceLimitExceeded);
    }
    Ok(TextureDesc { width, height, format: TextureFormat::Rgba8UnormSrgb, usage: TEXTURE_BINDING | COPY_DST })
}

/// The texture the compute stage writes and the render stage samples, for a
/// `width` x `height` image; fails with `ResourceLimitExceeded` exactly when
/// the image is empty or larger than the device allows.
pub fn intermediate_texture_desc(width: u32, height: u32, limits: DeviceLimits) -> (r: Result<TextureDesc, PipelineError>)
    ensures
        r is Ok <==> extent_fits(width, height, limits),
        r matches Ok(d) ==> d == spec_intermediate_desc(width, height),
        r matches Ok(d) ==> has_usage(d.usage, STORAGE_BINDING | TEXTURE_BINDING),
        r matches Err(e) ==> e == PipelineError::ResourceLimitExceeded,
{
    proof {
        lemma_intermediate_usage();
    }
    if width == 0 || height == 0 || width > limits.max_texture_dimension_2d || height > limits.max_texture_dimension_2d {
        return Err(PipelineError::ResourceLimitExceeded);
    }
    Ok(TextureDesc {
        width,
        height,
        format: TextureFormat::Rgba8Unorm,
        usage: STORAGE_BINDING | TEXTURE_BINDING | COPY_SRC | COPY_DST,
    })
}

/// Everything the Resource Builder allocates.
#[derive(Debug)]
pub struct ResourcePlan {
    pub input: TextureDesc,
    pub intermediate: TextureDesc,
    pub uniform: UniformLayout,
    pub vertex_bytes: Vec<u8>,
}

/// The bytes of the full-screen quad.
pub open spec fn quad_bytes() -> Seq<u8> {
    words_to_bytes(vertex_words(spec_quad()))
}

impl ResourcePlan {
    /// The plan for a `width` x `height` image with a uniform block of
    /// fields `kinds`.
    pub open spec fn describes(&self, width: u32, height: u32, kinds: Seq<FieldKind>) -> bool {
        &&& self.input == spec_input_desc(width, height)
        &&& self.intermediate == spec_intermediate_desc(width, height)
        &&& self.uniform.wf()
        &&& self.uniform.kinds@ == kinds
        &&& self.vertex_bytes@ == quad_bytes()
    }
}

/// Plans the resources for a `width` x `height` source image and a uniform
/// block with fields `kinds`. Fails with `ResourceLimitExceeded` exactly when
/// the image is empty or over the device's texture limit, or the block is
/// over its uniform buffer limit.
pub fn plan_resources(width: u32, height: u32, limits: DeviceLimits, kinds: &Vec<FieldKind>) -> (r: Result<ResourcePlan, PipelineError>)
    ensures
        r is Ok <==> extent_fits(width, height, limits) && block_size(kinds@) <= limits.max_uniform_buffer_binding_size,
        r matches Ok(p) ==> p.describes(width, height, kinds@),
        r matches Ok(p) ==> has_usage(p.intermediate.usage, STORAGE_BINDING | TEXTURE_BINDING),
        r matches Err(e) ==> e == PipelineError::ResourceLimitExceeded,
{
    let input = match input_texture_desc(width, height, limits) {
        Ok(d) => d,
        Err(e) => return Err(e),
    };
    let intermediate = match intermediate_texture_desc(width, height, limits) {
        Ok(d) => d,
        Err(e) => return Err(e),
    };
    let uniform = match uniform_layout(kinds, limits.max_uniform_buffer_binding_size) {
        Ok(l) => l,
        Err(e) => return Err(e),
    };
    let vertex_bytes = vertices_as_bytes(&quad());
    Ok(ResourcePlan { input, intermediate, uniform, vertex_bytes })
}

} // verus!
