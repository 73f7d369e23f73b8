//! The fixed description of the render pipeline: how one vertex lies in
//! memory, and the rasteriser and blend state that geometry is drawn with.

use vstd::prelude::*;
use crate::geometry::Vertex;
use crate::surface::SurfaceConfig;

verus! {

/// How one vertex attribute is stored.
#[derive(Clone, Copy, Debug, PartialEq, Eq, Structural)]
pub enum AttributeFormat {
    /// Two 32-bit floats.
    Float32x2,
    /// Three 32-bit floats.
    Float32x3,
    /// Four 32-bit floats.
    Float32x4,
}

impl AttributeFormat {
    /// Bytes that an attribute of this format occupies.
    pub open spec fn spec_size(self) -> nat {
        match self {
            AttributeFormat::Float32x2 => 8,
            AttributeFormat::Float32x3 => 12,
            AttributeFormat::Float32x4 => 16,
        }
    }

    /// Bytes that an attribute of this format occupies.
    pub fn size(&self) -> (r: u64)
        ensures
            r == self.spec_size(),
    {
        match self {
            AttributeFormat::Float32x2 => 8,
            AttributeFormat::Float32x3 => 12,
            AttributeFormat::Float32x4 => 16,
        }
    }
}

/// One input of the vertex shader.
#[derive(Clone, Copy, Debug, PartialEq, Eq, Structural)]
pub struct VertexAttribute {
    /// Byte offset from the start of the vertex.
    pub offset: u64,
    /// Input location in the shader.
    pub shader_location: u32,
    pub format: AttributeFormat,
}

/// How often the vertex buffer advances.
#[derive(Clone, Copy, Debug, PartialEq, Eq, Structural)]
pub enum StepMode {
    Vertex,
    Instance,
}

/// The layout of a vertex buffer.
#[derive(Debug)]
pub struct VertexLayout {
    /// Bytes from one vertex to the next.
    pub array_stride: u64,
    pub step_mode: StepMode,
    pub attributes: Vec<VertexAttribute>,
}

/// The attributes lie one after the other from offset 0 without gaps, take
/// the shader locations 0, 1, 2, ... in order, and fill the stride exactly.
pub open spec fn is_packed(array_stride: nat, attributes: Seq<VertexAttribute>) -> bool {
    &&& forall|k: int|
        0 <= k < attributes.len() ==> (#[trigger] attributes[k]).shader_location == k
    &&& forall|k: int|
        0 <= k < attributes.len() ==> (#[trigger] attributes[k]).offset == (if k == 0 {
            0
        } else {
            attributes[k - 1].offset + attributes[k - 1].format.spec_size()
        })
    &&& array_stride == (if attributes.len() == 0 {
        0
    } else {
        attributes.last().offset + attributes.last().format.spec_size()
    })
}

/// The attributes of a [`Vertex`]: the position, then the colour.
pub open spec fn vertex_attributes() -> Seq<VertexAttribute> {
    seq![
        VertexAttribute { offset: 0, shader_location: 0, format: AttributeFormat::Float32x3 },
        VertexAttribute { offset: 12, shader_location: 1, format: AttributeFormat::Float32x3 },
    ]
}

/// Bytes that one vertex occupies on the device: six 32-bit components.
pub const VERTEX_BYTES: u64 = 24;

impl Vertex {
    /// The layout of a buffer of vertices as the shader reads it: the
    /// position at offset 0 and location 0, the colour right behind it at
    /// location 1, both three 32-bit floats, one record per vertex.
    pub fn desc() -> (layout: VertexLayout)
        ensures
            layout.array_stride == VERTEX_BYTES,
            layout.step_mode == StepMode::Vertex,
            layout.attributes@ == vertex_attributes(),
            is_packed(layout.array_stride as nat, layout.attributes@),
    {
        let position = VertexAttribute {
            offset: 0,
            shader_location: 0,
            format: AttributeFormat::Float32x3,
        };
        let color = VertexAttribute {
            offset: AttributeFormat::Float32x3.size(),
            shader_location: 1,
            format: AttributeFormat::Float32x3,
        };
        let mut attributes: Vec<VertexAttribute> = Vec::new();
        attributes.push(position);
        attributes.push(color);
        assert(attributes@ =~= vertex_attributes());
        VertexLayout { array_stride: VERTEX_BYTES, step_mode: StepMode::Vertex, attributes }
    }
}

/// How vertices are joined into primitives.
#[derive(Clone, Copy, Debug, PartialEq, Eq, Structural)]
pub enum Topology {
    PointList,
    LineList,
    LineStrip,
    TriangleList,
    TriangleStrip,
}

/// Which winding order faces the viewer.
#[derive(Clone, Copy, Debug, PartialEq, Eq, Structural)]
pub enum FrontFace {
    Ccw,
    Cw,
}

/// Which side of a triangle is dropped.
#[derive(Clone, Copy, Debug, PartialEq, Eq, Structural)]
pub enum CullMode {
    Nothing,
    Front,
    Back,
}

/// How the inside of a triangle is rasterised.
#[derive(Clone, Copy, Debug, PartialEq, Eq, Structural)]
pub enum PolygonMode {
    Fill,
    Line,
    Point,
}

/// How a fragment is combined with what the target already holds.
#[derive(Clone, Copy, Debug, PartialEq, Eq, Structural)]
pub enum Blend {
    /// The fragment replaces the target's value.
    Replace,
    /// The fragment is mixed in by its alpha.
    AlphaBlending,
}

/// Bit mask of all four colour channels.
pub const ALL_CHANNELS: u32 = 0xF;

/// Sample mask that lets every sample through.
pub const EVERY_SAMPLE: u64 = 0xFFFF_FFFF_FFFF_FFFF;

/// Everything that fixes the render pipeline apart from the compiled shader.
#[derive(Debug)]
pub struct PipelineDescription {
    pub vertex_layout: VertexLayout,
    /// Format of the one colour target.
    pub target_format: wgpu::TextureFormat,
    pub topology: Topology,
    pub front_face: FrontFace,
    pub cull_mode: CullMode,
    pub polygon_mode: PolygonMode,
    pub depth_stencil: bool,
    pub sample_count: u32,
    pub sample_mask: u64,
    pub alpha_to_coverage: bool,
    pub blend: Blend,
    pub write_mask: u32,
}

impl PipelineDescription {
    /// The fixed state: a list of counter-clockwise triangles with the back
    /// faces dropped, filled, no depth or stencil test, one sample per pixel,
    /// every fragment replacing what is there, all channels written.
    pub open spec fn has_fixed_state(&self) -> bool {
        &&& self.vertex_layout.array_stride == VERTEX_BYTES
        &&& self.vertex_layout.step_mode == StepMode::Vertex
        &&& self.vertex_layout.attributes@ == vertex_attributes()
        &&& self.topology == Topology::TriangleList
        &&& self.front_face == FrontFace::Ccw
        &&& self.cull_mode == CullMode::Back
        &&& self.polygon_mode == PolygonMode::Fill
        &&& !self.depth_stencil
        &&& self.sample_count == 1
        &&& self.sample_mask == EVERY_SAMPLE
        &&& !self.alpha_to_coverage
        &&& self.blend == Blend::Replace
        &&& self.write_mask == ALL_CHANNELS
    }

    /// The pipeline writes the format that the surface is configured with.
    pub open spec fn fits(&self, config: SurfaceConfig) -> bool {
        self.target_format == config.format
    }

    /// Describes the pipeline that draws to a surface with this
    /// configuration.
    pub fn for_surface(config: &SurfaceConfig) -> (p: PipelineDescription)
        ensures
            p.has_fixed_state(),
            p.fits(*config),
    {
        PipelineDescription {
            vertex_layout: Vertex::desc(),
            target_format: config.format,
            topology: Topology::TriangleList,
            front_face: FrontFace::Ccw,
            cull_mode: CullMode::Back,
            polygon_mode: PolygonMode::Fill,
            depth_stencil: false,
            sample_count: 1,
            sample_mask: EVERY_SAMPLE,
            alpha_to_coverage: false,
            blend: Blend::Replace,
            write_mask: ALL_CHANNELS,
        }
    }
}

/// A pipeline built for a surface keeps fitting it however the surface is
/// resized: resizing never changes the format.
pub proof fn lemma_resize_keeps_pipeline(
    p: PipelineDescription,
    before: SurfaceConfig,
    after: SurfaceConfig,
    width: int,
    height: int,
)
    requires
        p.fits(before),
        crate::surface::resized(before, after, width, height),
    ensures
        p.fits(after),
{
}

/// Name of the vertex stage's entry point in the shader.
pub fn vertex_entry_point() -> (name: &'static str)
    ensures
        name@ == "vs_main"@,
{
    "vs_main"
}

/// Name of the fragment stage's entry point in the shader.
pub fn fragment_entry_point() -> (name: &'static str)
    ensures
        name@ == "fs_main"@,
{
    "fs_main"
}

} // verus!
