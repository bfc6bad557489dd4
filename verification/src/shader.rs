//! The choice of shaders for the render pipeline, and the pipeline's fixed
//! shape.

use crate::error::ShaderError;
use vstd::prelude::*;

verus! {

/// The bytes of the block that is pushed to the fragment stage each frame:
/// elapsed time, fade amount and the two halves of the resolution, four
/// bytes each.
pub const PUSH_CONSTANTS_SIZE: u32 = 16;

/// The binding of the background texture.
pub const TEXTURE_BINDING: u32 = 0;

/// The binding of the background's sampler.
pub const SAMPLER_BINDING: u32 = 1;

/// The vertices of the two triangles that cover the screen.
pub const FRAME_VERTICES: u32 = 6;

/// The samples per pixel: no multisampling.
pub const SAMPLE_COUNT: u32 = 1;

/// A stage of the pipeline.
#[derive(Debug, Clone, Copy, PartialEq, Eq, Structural)]
pub enum Stage {
    Vertex,
    Fragment,
}

/// How vertices make primitives.
#[derive(Debug, Clone, Copy, PartialEq, Eq, Structural)]
pub enum Topology {
    /// Every three vertices make a triangle.
    TriangleList,
}

/// The winding of a triangle that faces the viewer.
#[derive(Debug, Clone, Copy, PartialEq, Eq, Structural)]
pub enum FrontFace {
    /// Counter-clockwise.
    Ccw,
}

/// The faces that are not drawn.
#[derive(Debug, Clone, Copy, PartialEq, Eq, Structural)]
pub enum CullMode {
    /// Those that face away from the viewer.
    Back,
}

/// How a sampler reads between texels.
#[derive(Debug, Clone, Copy, PartialEq, Eq, Structural)]
pub enum FilterMode {
    Linear,
}

/// What a sampler reads outside the texture.
#[derive(Debug, Clone, Copy, PartialEq, Eq, Structural)]
pub enum AddressMode {
    /// The texture again, so that a shader may tile it.
    Repeat,
}

/// The shape of the render pipeline. It is the same for every session.
#[derive(Debug, Clone, Copy, PartialEq, Eq, Structural)]
pub struct PipelineLayout {
    /// The stage that the one push-constant range is for.
    pub push_constant_stage: Stage,
    /// The bytes of the push-constant range.
    pub push_constant_size: u32,
    /// The binding of the background texture, a two-dimensional texture.
    pub texture_binding: u32,
    /// Whether the texture can be read through a filtering sampler.
    pub texture_filterable: bool,
    /// The binding of the background's sampler.
    pub sampler_binding: u32,
    pub sampler_filter: FilterMode,
    pub sampler_address_mode: AddressMode,
    pub topology: Topology,
    pub front_face: FrontFace,
    pub cull_mode: CullMode,
    /// Whether there is a depth or stencil test.
    pub depth_stencil: bool,
    /// The samples per pixel.
    pub sample_count: u32,
    /// The vertex buffers: the vertex stage places each vertex by its
    /// number alone.
    pub vertex_buffers: u32,
    /// The vertices drawn each frame.
    pub vertices: u32,
}

/// The shape of the render pipeline: one push-constant range for the
/// fragment stage, texture and sampler at bindings 0 and 1, a triangle
/// list of six vertices without a vertex buffer, back faces culled,
/// neither depth test nor multisampling.
pub open spec fn fixed_layout() -> PipelineLayout {
    PipelineLayout {
        push_constant_stage: Stage::Fragment,
        push_constant_size: PUSH_CONSTANTS_SIZE,
        texture_binding: TEXTURE_BINDING,
        texture_filterable: true,
        sampler_binding: SAMPLER_BINDING,
        sampler_filter: FilterMode::Linear,
        sampler_address_mode: AddressMode::Repeat,
        topology: Topology::TriangleList,
        front_face: FrontFace::Ccw,
        cull_mode: CullMode::Back,
        depth_stencil: false,
        sample_count: SAMPLE_COUNT,
        vertex_buffers: 0,
        vertices: FRAME_VERTICES,
    }
}

impl PipelineLayout {
    /// The shape of the render pipeline.
    pub fn new() -> (l: PipelineLayout)
        ensures
            l == fixed_layout(),
    {
        PipelineLayout {
            push_constant_stage: Stage::Fragment,
            push_constant_size: PUSH_CONSTANTS_SIZE,
            texture_binding: TEXTURE_BINDING,
            texture_filterable: true,
            sampler_binding: SAMPLER_BINDING,
            sampler_filter: FilterMode::Linear,
            sampler_address_mode: AddressMode::Repeat,
            topology: Topology::TriangleList,
            front_face: FrontFace::Ccw,
            cull_mode: CullMode::Back,
            depth_stencil: false,
            sample_count: SAMPLE_COUNT,
            vertex_buffers: 0,
            vertices: FRAME_VERTICES,
        }
    }
}

/// Where the pipeline's fragment shader comes from.
#[derive(Debug, Clone, Copy, PartialEq, Eq, Structural)]
pub enum FragmentSource {
    /// The shader that the settings name.
    Given,
    /// The bundled shader, taken because the given one did not compile.
    Fallback,
}

/// A pipeline: its compiled shaders and its shape.
#[derive(Debug)]
pub struct Pipeline {
    pub vertex: Vec<u8>,
    pub fragment: Vec<u8>,
    pub fragment_source: FragmentSource,
    pub layout: PipelineLayout,
}

/// The pipeline for three compilations. A vertex shader that failed is
/// fatal. A fragment shader that failed is replaced by the bundled one,
/// and only if that failed too is there no pipeline.
pub open spec fn built(
    vertex: Result<Vec<u8>, String>,
    fragment: Result<Vec<u8>, String>,
    fallback: Result<Vec<u8>, String>,
) -> Result<Pipeline, ShaderError> {
    match vertex {
        Err(words) => Err(ShaderError::Vertex(words)),
        Ok(v) => match fragment {
            Ok(f) => Ok(
                Pipeline {
                    vertex: v,
                    fragment: f,
                    fragment_source: FragmentSource::Given,
                    layout: fixed_layout(),
                },
            ),
            Err(_) => match fallback {
                Ok(f) => Ok(
                    Pipeline {
                        vertex: v,
                        fragment: f,
                        fragment_source: FragmentSource::Fallback,
                        layout: fixed_layout(),
                    },
                ),
                Err(words) => Err(ShaderError::Fallback(words)),
            },
        },
    }
}

/// Chooses the shaders of the pipeline from the outcome of compiling the
/// vertex shader, the given fragment shader and the bundled one.
pub fn build(
    vertex: Result<Vec<u8>, String>,
    fragment: Result<Vec<u8>, String>,
    fallback: Result<Vec<u8>, String>,
) -> (r: Result<Pipeline, ShaderError>)
    ensures
        r == built(vertex, fragment, fallback),
{
    match vertex {
        Err(words) => Err(ShaderError::Vertex(words)),
        Ok(v) => match fragment {
            Ok(f) => Ok(
                Pipeline {
                    vertex: v,
                    fragment: f,
                    fragment_source: FragmentSource::Given,
                    layout: PipelineLayout::new(),
                },
            ),
            Err(_) => match fallback {
                Ok(f) => Ok(
                    Pipeline {
                        vertex: v,
                        fragment: f,
                        fragment_source: FragmentSource::Fallback,
                        layout: PipelineLayout::new(),
                    },
                ),
                Err(words) => Err(ShaderError::Fallback(words)),
            },
        },
    }
}

/// A fragment shader that does not compile costs no pipeline: with a
/// vertex shader and a bundled shader that compile there is one whatever
/// became of the given fragment shader, and it runs the bundled shader
/// exactly when the given one failed.
pub proof fn law_fragment_failure_recovers(
    vertex: Vec<u8>,
    fragment: Result<Vec<u8>, String>,
    fallback: Vec<u8>,
)
    ensures
        built(Ok(vertex), fragment, Ok(fallback)) matches Ok(p) && {
            &&& p.vertex == vertex
            &&& p.layout == fixed_layout()
            &&& p.fragment_source is Fallback <==> fragment is Err
            &&& p.fragment == match fragment {
                Ok(f) => f,
                Err(_) => fallback,
            }
        },
{
}

/// A vertex shader that does not compile is fatal whatever else compiled.
pub proof fn law_vertex_failure_is_fatal(
    words: String,
    fragment: Result<Vec<u8>, String>,
    fallback: Result<Vec<u8>, String>,
)
    ensures
        built(Err(words), fragment, fallback) == Err::<Pipeline, ShaderError>(
            ShaderError::Vertex(words),
        ),
{
}

} // verus!
