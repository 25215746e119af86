//! The fixed pipeline: what its vertex stage reads, how large its buffers
//! are, and the one render pass that draws a frame with it.

use vstd::prelude::*;

verus! {

/// Bytes in a 4x4 matrix of 32-bit floats.
pub const MATRIX_BYTES: u64 = 64;

/// Shader location of the vertex position.
pub const POSITION_LOCATION: u32 = 0;

/// Shader location of the first column of the per-instance transform; the
/// other three columns follow it.
pub const TRANSFORM_LOCATION: u32 = 1;

/// Buffer slot of the vertex positions.
pub const VERTEX_SLOT: u32 = 0;

/// Buffer slot of the per-instance transforms.
pub const INSTANCE_SLOT: u32 = 1;

/// Index of the bind group that holds the model transform.
pub const MODEL_BIND_GROUP: u32 = 0;

/// The type of one vertex attribute.
#[derive(Clone, Copy, Debug, PartialEq, Eq, Structural)]
pub enum VertexFormat {
    /// Three 32-bit floats.
    Float32x3,
    /// Four 32-bit floats.
    Float32x4,
}

impl VertexFormat {
    /// Bytes that one attribute of this format takes in a buffer.
    pub open spec fn spec_size(self) -> u64 {
        match self {
            VertexFormat::Float32x3 => 12,
            VertexFormat::Float32x4 => 16,
        }
    }

    #[verifier::when_used_as_spec(spec_size)]
    pub fn size(self) -> (bytes: u64)
        ensures
            bytes == self.spec_size(),
    {
        match self {
            VertexFormat::Float32x3 => 12,
            VertexFormat::Float32x4 => 16,
        }
    }
}

/// Whether a buffer advances once per vertex or once per instance.
#[derive(Clone, Copy, Debug, PartialEq, Eq, Structural)]
pub enum VertexStepMode {
    Vertex,
    Instance,
}

/// How the vertices are assembled into triangles.
#[derive(Clone, Copy, Debug, PartialEq, Eq, Structural)]
pub enum PrimitiveTopology {
    TriangleList,
    TriangleStrip,
}

/// One input of the vertex stage, read from a buffer at `offset` bytes into
/// each element.
#[derive(Clone, Copy, Debug, PartialEq, Eq, Structural)]
pub struct VertexAttribute {
    pub format: VertexFormat,
    pub offset: u64,
    pub shader_location: u32,
}

impl VertexAttribute {
    /// The byte after the last one that the attribute reads in an element.
    pub open spec fn end(self) -> int {
        self.offset + self.format.spec_size()
    }
}

/// How the vertex stage reads one buffer.
#[derive(Debug)]
pub struct VertexBufferLayout {
    pub array_stride: u64,
    pub step_mode: VertexStepMode,
    pub attributes: Vec<VertexAttribute>,
}

/// Attributes that follow each other in a buffer element without overlap,
/// none reaching past `stride`, at shader locations that rise one by one.
pub open spec fn packed(attributes: Seq<VertexAttribute>, stride: u64) -> bool {
    &&& forall|i: int| 0 <= i < attributes.len() ==> (#[trigger] attributes[i]).end() <= stride
    &&& forall|i: int, j: int|
        0 <= i < j < attributes.len() ==> (#[trigger] attributes[i]).end() <= (
        #[trigger] attributes[j]).offset
    &&& forall|i: int|
        0 <= i < attributes.len() ==> (#[trigger] attributes[i]).shader_location
            == attributes[0].shader_location + i
}

/// The attribute of the position buffer: three floats at the start of each
/// vertex.
pub open spec fn position_attributes() -> Seq<VertexAttribute> {
    seq![
        VertexAttribute {
            format: VertexFormat::Float32x3,
            offset: 0,
            shader_location: POSITION_LOCATION,
        },
    ]
}

/// Column `column` of the per-instance transform: four floats, sixteen bytes
/// after the column before it, one shader location after it.
pub open spec fn transform_column(column: int) -> VertexAttribute {
    VertexAttribute {
        format: VertexFormat::Float32x4,
        offset: (16 * column) as u64,
        shader_location: (TRANSFORM_LOCATION + column) as u32,
    }
}

/// The attributes of the instance buffer: the four columns of a matrix.
pub open spec fn transform_attributes() -> Seq<VertexAttribute> {
    Seq::new(4, |column: int| transform_column(column))
}

/// No two inputs of the vertex stage share a shader location: the position
/// has its own, and the four columns of the transform have one each.
pub proof fn lemma_shader_locations_distinct(a: int, b: int)
    requires
        0 <= a < 4,
        0 <= b < 4,
    ensures
        transform_attributes()[a].shader_location != position_attributes()[0].shader_location,
        a != b ==> transform_attributes()[a].shader_location
            != transform_attributes()[b].shader_location,
{
}

impl VertexBufferLayout {
    /// The layout of the position buffer: elements of twelve bytes, one per
    /// vertex, each a single three-float attribute.
    pub fn position() -> (layout: VertexBufferLayout)
        ensures
            layout.array_stride == 12,
            layout.step_mode == VertexStepMode::Vertex,
            layout.attributes@ == position_attributes(),
            packed(layout.attributes@, layout.array_stride),
    {
        let mut attributes: Vec<VertexAttribute> = Vec::new();
        attributes.push(
            VertexAttribute {
                format: VertexFormat::Float32x3,
                offset: 0,
                shader_location: POSITION_LOCATION,
            },
        );
        assert(attributes@ =~= position_attributes());
        VertexBufferLayout {
            array_stride: VertexFormat::Float32x3.size(),
            step_mode: VertexStepMode::Vertex,
            attributes,
        }
    }

    /// The layout of the instance buffer: elements of one matrix, one per
    /// instance, read as four four-float columns.
    pub fn transform() -> (layout: VertexBufferLayout)
        ensures
            layout.array_stride == MATRIX_BYTES,
            layout.step_mode == VertexStepMode::Instance,
            layout.attributes@ == transform_attributes(),
            packed(layout.attributes@, layout.array_stride),
    {
        let column_bytes: u64 = VertexFormat::Float32x4.size();
        let mut attributes: Vec<VertexAttribute> = Vec::new();
        let mut column: u32 = 0;
        while column < 4
            invariant
                column <= 4,
                column_bytes == 16,
                attributes@.len() == column,
                forall|i: int| 0 <= i < column ==> attributes@[i] == transform_column(i),
            decreases 4 - column,
        {
            attributes.push(
                VertexAttribute {
                    format: VertexFormat::Float32x4,
                    offset: column_bytes * (column as u64),
                    shader_location: TRANSFORM_LOCATION + column,
                },
            );
            column = column + 1;
        }
        assert(attributes@ =~= transform_attributes());
        VertexBufferLayout {
            array_stride: MATRIX_BYTES,
            step_mode: VertexStepMode::Instance,
            attributes,
        }
    }

    /// Bytes that a buffer of `count` elements of this layout holds.
    pub fn buffer_len(&self, count: u32) -> (bytes: Option<u64>)
        ensures
            self.array_stride * count <= u64::MAX ==> bytes == Some(
                (self.array_stride * count) as u64,
            ),
            self.array_stride * count > u64::MAX ==> bytes is None,
    {
        self.array_stride.checked_mul(count as u64)
    }
}

/// The fixed shapes that can be drawn.
#[derive(Clone, Copy, Debug, PartialEq, Eq, Structural)]
pub enum Geometry {
    /// Three vertices, one triangle.
    Triangle,
    /// Four vertices, drawn as a strip of two triangles.
    Square,
}

impl Geometry {
    pub open spec fn spec_vertex_count(self) -> u32 {
        match self {
            Geometry::Triangle => 3,
            Geometry::Square => 4,
        }
    }

    /// The number of vertices of the shape.
    #[verifier::when_used_as_spec(spec_vertex_count)]
    pub fn vertex_count(self) -> (count: u32)
        ensures
            count == self.spec_vertex_count(),
    {
        match self {
            Geometry::Triangle => 3,
            Geometry::Square => 4,
        }
    }

    pub open spec fn spec_topology(self) -> PrimitiveTopology {
        match self {
            Geometry::Triangle => PrimitiveTopology::TriangleList,
            Geometry::Square => PrimitiveTopology::TriangleStrip,
        }
    }

    /// How the pipeline assembles the shape's vertices.
    #[verifier::when_used_as_spec(spec_topology)]
    pub fn topology(self) -> (topology: PrimitiveTopology)
        ensures
            topology == self.spec_topology(),
    {
        match self {
            Geometry::Triangle => PrimitiveTopology::TriangleList,
            Geometry::Square => PrimitiveTopology::TriangleStrip,
        }
    }
}

/// A colour with eight bits per channel.
#[derive(Clone, Copy, Debug, PartialEq, Eq, Structural)]
pub struct Color {
    pub r: u8,
    pub g: u8,
    pub b: u8,
    pub a: u8,
}

/// The colour every frame is cleared to: opaque red.
pub open spec fn clear_color() -> Color {
    Color { r: 255, g: 0, b: 0, a: 255 }
}

/// A half-open range of vertex or instance indices.
#[derive(Clone, Copy, Debug, PartialEq, Eq, Structural)]
pub struct IndexRange {
    pub start: u32,
    pub end: u32,
}

/// The one render pass of a frame: clear the target, bind the buffers and the
/// bind group that exist, and issue a single draw call.
#[derive(Clone, Copy, Debug, PartialEq, Eq, Structural)]
pub struct RenderPass {
    /// The colour the target is cleared to before drawing.
    pub clear: Color,
    /// The slot the position buffer is bound to.
    pub vertex_slot: u32,
    /// The slot the instance buffer is bound to, if there is one.
    pub instance_slot: Option<u32>,
    /// The index the model transform's bind group is bound at, if there is one.
    pub bind_group: Option<u32>,
    /// The vertices of the draw call.
    pub vertices: IndexRange,
    /// The instances of the draw call.
    pub instances: IndexRange,
}

/// What was built for rendering, once, when the surface's format was known.
#[derive(Clone, Copy, Debug)]
pub struct RenderResources {
    /// The format the fragment stage writes: that of the surface.
    pub target_format: wgpu::TextureFormat,
    /// The shape in the vertex buffer.
    pub geometry: Geometry,
    /// The number of transforms in the instance buffer, if there is one.
    pub instances: Option<u32>,
    /// Whether a model transform was uploaded as a uniform.
    pub model_transform: bool,
}

impl RenderResources {
    /// The instances that one draw call covers: all that were uploaded, or a
    /// single one where there is no instance buffer.
    pub open spec fn spec_instance_count(self) -> u32 {
        match self.instances {
            Some(count) => count,
            None => 1,
        }
    }

    /// The render pass that draws a frame with these resources.
    pub open spec fn spec_render_pass(self) -> RenderPass {
        RenderPass {
            clear: clear_color(),
            vertex_slot: VERTEX_SLOT,
            instance_slot: if self.instances is Some {
                Some(INSTANCE_SLOT)
            } else {
                None
            },
            bind_group: if self.model_transform {
                Some(MODEL_BIND_GROUP)
            } else {
                None
            },
            vertices: IndexRange { start: 0, end: self.geometry.spec_vertex_count() },
            instances: IndexRange { start: 0, end: self.spec_instance_count() },
        }
    }

    /// Describes the resources of a pipeline that draws `geometry` to a
    /// surface of format `surface_format`, with an instance buffer of
    /// `instances` transforms and a model transform where they are given.
    pub fn build(
        surface_format: wgpu::TextureFormat,
        geometry: Geometry,
        instances: Option<u32>,
        model_transform: bool,
    ) -> (resources: RenderResources)
        ensures
            resources.target_format == surface_format,
            resources.geometry == geometry,
            resources.instances == instances,
            resources.model_transform == model_transform,
    {
        RenderResources { target_format: surface_format, geometry, instances, model_transform }
    }

    /// The layouts of the buffers that the vertex stage reads, in the order of
    /// their slots: the positions, then the per-instance transforms where
    /// there is an instance buffer.
    pub fn vertex_buffers(&self) -> (layouts: Vec<VertexBufferLayout>)
        ensures
            self.instances is Some ==> layouts@.len() == 2,
            self.instances is None ==> layouts@.len() == 1,
            layouts@[VERTEX_SLOT as int].array_stride == 12,
            layouts@[VERTEX_SLOT as int].step_mode == VertexStepMode::Vertex,
            layouts@[VERTEX_SLOT as int].attributes@ == position_attributes(),
            self.instances is Some ==> layouts@[INSTANCE_SLOT as int].array_stride
                == MATRIX_BYTES,
            self.instances is Some ==> layouts@[INSTANCE_SLOT as int].step_mode
                == VertexStepMode::Instance,
            self.instances is Some ==> layouts@[INSTANCE_SLOT as int].attributes@
                == transform_attributes(),
            forall|i: int| 0 <= i < layouts@.len() ==> packed(
                (#[trigger] layouts@[i]).attributes@,
                layouts@[i].array_stride,
            ),
    {
        let mut layouts: Vec<VertexBufferLayout> = Vec::new();
        layouts.push(VertexBufferLayout::position());
        if self.instances.is_some() {
            layouts.push(VertexBufferLayout::transform());
        }
        layouts
    }

    /// The index at which the model transform's bind group is bound: the
    /// first, where there is a model transform.
    pub fn bind_group(&self) -> (index: Option<u32>)
        ensures
            index == self.spec_render_pass().bind_group,
    {
        if self.model_transform {
            Some(MODEL_BIND_GROUP)
        } else {
            None
        }
    }

    /// Bytes of the vertex buffer: twelve for each vertex of the shape.
    pub fn vertex_buffer_len(&self) -> (bytes: u64)
        ensures
            bytes == 12 * self.geometry.spec_vertex_count(),
    {
        12 * (self.geometry.vertex_count() as u64)
    }

    /// Bytes of the instance buffer, where there is one: a matrix for each
    /// instance.
    pub fn instance_buffer_len(&self) -> (bytes: Option<u64>)
        ensures
            self.instances is None ==> bytes is None,
            self.instances is Some ==> bytes == Some((MATRIX_BYTES * self.instances->0) as u64),
    {
        match self.instances {
            Some(count) => Some(MATRIX_BYTES * (count as u64)),
            None => None,
        }
    }

    /// Bytes of the uniform buffer, where there is a model transform: one
    /// matrix.
    pub fn uniform_buffer_len(&self) -> (bytes: Option<u64>)
        ensures
            self.model_transform ==> bytes == Some(MATRIX_BYTES),
            !self.model_transform ==> bytes is None,
    {
        if self.model_transform {
            Some(MATRIX_BYTES)
        } else {
            None
        }
    }

    /// The render pass that draws one frame: it clears the target, binds what
    /// was built and draws every vertex of the shape once for every instance.
    pub fn render_pass(&self) -> (pass: RenderPass)
        ensures
            pass == self.spec_render_pass(),
    {
        let instance_slot = if self.instances.is_some() {
            Some(INSTANCE_SLOT)
        } else {
            None
        };
        let instance_count: u32 = match self.instances {
            Some(count) => count,
            None => 1,
        };
        RenderPass {
            clear: Color { r: 255, g: 0, b: 0, a: 255 },
            vertex_slot: VERTEX_SLOT,
            instance_slot,
            bind_group: self.bind_group(),
            vertices: IndexRange { start: 0, end: self.geometry.vertex_count() },
            instances: IndexRange { start: 0, end: instance_count },
        }
    }
}

} // verus!
