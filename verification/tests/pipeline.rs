use rugu::pipeline::{
    Color, Geometry, IndexRange, PrimitiveTopology, RenderPass, RenderResources, VertexAttribute,
    VertexBufferLayout, VertexFormat, VertexStepMode, INSTANCE_SLOT, MATRIX_BYTES,
    MODEL_BIND_GROUP, POSITION_LOCATION, TRANSFORM_LOCATION, VERTEX_SLOT,
};
use wgpu::TextureFormat;

#[test]
fn vertex_formats_have_the_size_of_their_floats() {
    assert_eq!(VertexFormat::Float32x3.size(), 12);
    assert_eq!(VertexFormat::Float32x4.size(), 16);
    assert_eq!(MATRIX_BYTES, 64);
}

#[test]
fn position_layout_is_one_attribute_of_three_floats() {
    let layout = VertexBufferLayout::position();
    assert_eq!(layout.array_stride, 12);
    assert_eq!(layout.step_mode, VertexStepMode::Vertex);
    assert_eq!(
        layout.attributes,
        vec![VertexAttribute { format: VertexFormat::Float32x3, offset: 0, shader_location: 0 }]
    );
    assert_eq!(POSITION_LOCATION, 0);
}

#[test]
fn transform_layout_is_four_columns_of_four_floats() {
    let layout = VertexBufferLayout::transform();
    assert_eq!(layout.array_stride, 64);
    assert_eq!(layout.step_mode, VertexStepMode::Instance);
    assert_eq!(
        layout.attributes,
        vec![
            VertexAttribute { format: VertexFormat::Float32x4, offset: 0, shader_location: 1 },
            VertexAttribute { format: VertexFormat::Float32x4, offset: 16, shader_location: 2 },
            VertexAttribute { format: VertexFormat::Float32x4, offset: 32, shader_location: 3 },
            VertexAttribute { format: VertexFormat::Float32x4, offset: 48, shader_location: 4 },
        ]
    );
    assert_eq!(TRANSFORM_LOCATION, 1);
}

#[test]
fn attributes_fit_their_element_and_do_not_overlap() {
    for layout in [VertexBufferLayout::position(), VertexBufferLayout::transform()] {
        let mut end = 0;
        for attribute in &layout.attributes {
            assert!(attribute.offset >= end);
            end = attribute.offset + attribute.format.size();
            assert!(end <= layout.array_stride);
        }
    }
}

#[test]
fn buffer_len_is_stride_times_count() {
    assert_eq!(VertexBufferLayout::position().buffer_len(4), Some(48));
    assert_eq!(VertexBufferLayout::position().buffer_len(0), Some(0));
    assert_eq!(VertexBufferLayout::transform().buffer_len(2), Some(128));
    assert_eq!(VertexBufferLayout::transform().buffer_len(u32::MAX), Some(64 * 4_294_967_295));
}

#[test]
fn buffer_len_that_does_not_fit_is_none() {
    let layout = VertexBufferLayout {
        array_stride: u64::MAX,
        step_mode: VertexStepMode::Vertex,
        attributes: vec![],
    };
    assert_eq!(layout.buffer_len(1), Some(u64::MAX));
    assert_eq!(layout.buffer_len(2), None);
    let layout = VertexBufferLayout {
        array_stride: 1 << 32,
        step_mode: VertexStepMode::Vertex,
        attributes: vec![],
    };
    assert_eq!(layout.buffer_len(u32::MAX), Some(18_446_744_069_414_584_320));
}

#[test]
fn geometry_knows_its_vertices_and_topology() {
    assert_eq!(Geometry::Triangle.vertex_count(), 3);
    assert_eq!(Geometry::Triangle.topology(), PrimitiveTopology::TriangleList);
    assert_eq!(Geometry::Square.vertex_count(), 4);
    assert_eq!(Geometry::Square.topology(), PrimitiveTopology::TriangleStrip);
}

#[test]
fn build_targets_the_surface_format() {
    let resources = RenderResources::build(TextureFormat::Bgra8Unorm, Geometry::Square, Some(2), true);
    assert_eq!(resources.target_format, TextureFormat::Bgra8Unorm);
    assert_eq!(resources.geometry, Geometry::Square);
    assert_eq!(resources.instances, Some(2));
    assert!(resources.model_transform);
    let resources = RenderResources::build(TextureFormat::Rgba8UnormSrgb, Geometry::Triangle, None, false);
    assert_eq!(resources.target_format, TextureFormat::Rgba8UnormSrgb);
    assert_eq!(resources.geometry, Geometry::Triangle);
    assert_eq!(resources.instances, None);
    assert!(!resources.model_transform);
}

#[test]
fn pipeline_reads_positions_and_transforms() {
    let resources = RenderResources::build(TextureFormat::Bgra8Unorm, Geometry::Square, Some(1), true);
    let layouts = resources.vertex_buffers();
    assert_eq!(layouts.len(), 2);
    assert_eq!(layouts[0].array_stride, 12);
    assert_eq!(layouts[0].step_mode, VertexStepMode::Vertex);
    assert_eq!(layouts[0].attributes, VertexBufferLayout::position().attributes);
    assert_eq!(layouts[1].array_stride, 64);
    assert_eq!(layouts[1].step_mode, VertexStepMode::Instance);
    assert_eq!(layouts[1].attributes, VertexBufferLayout::transform().attributes);
    let mut locations: Vec<u32> = Vec::new();
    for layout in &layouts {
        for attribute in &layout.attributes {
            assert!(!locations.contains(&attribute.shader_location));
            locations.push(attribute.shader_location);
        }
    }
    assert_eq!(locations, vec![0, 1, 2, 3, 4]);
}

#[test]
fn pipeline_without_instances_reads_positions_only() {
    let resources = RenderResources::build(TextureFormat::Bgra8Unorm, Geometry::Triangle, None, true);
    let layouts = resources.vertex_buffers();
    assert_eq!(layouts.len(), 1);
    assert_eq!(layouts[0].array_stride, 12);
    assert_eq!(layouts[0].step_mode, VertexStepMode::Vertex);
    assert_eq!(layouts[0].attributes.len(), 1);
}

#[test]
fn buffers_hold_what_was_uploaded() {
    let square = RenderResources::build(TextureFormat::Bgra8Unorm, Geometry::Square, Some(3), true);
    assert_eq!(square.vertex_buffer_len(), 48);
    assert_eq!(square.instance_buffer_len(), Some(192));
    assert_eq!(square.uniform_buffer_len(), Some(64));
    assert_eq!(square.bind_group(), Some(0));
    let triangle = RenderResources::build(TextureFormat::Bgra8Unorm, Geometry::Triangle, None, false);
    assert_eq!(triangle.vertex_buffer_len(), 36);
    assert_eq!(triangle.instance_buffer_len(), None);
    assert_eq!(triangle.uniform_buffer_len(), None);
    assert_eq!(triangle.bind_group(), None);
    let many = RenderResources::build(TextureFormat::Bgra8Unorm, Geometry::Square, Some(u32::MAX), false);
    assert_eq!(many.instance_buffer_len(), Some(274_877_906_880));
    let none = RenderResources::build(TextureFormat::Bgra8Unorm, Geometry::Square, Some(0), false);
    assert_eq!(none.instance_buffer_len(), Some(0));
}

#[test]
fn render_pass_draws_every_vertex_for_every_instance() {
    let resources = RenderResources::build(TextureFormat::Bgra8Unorm, Geometry::Square, Some(2), true);
    assert_eq!(
        resources.render_pass(),
        RenderPass {
            clear: Color { r: 255, g: 0, b: 0, a: 255 },
            vertex_slot: 0,
            instance_slot: Some(1),
            bind_group: Some(0),
            vertices: IndexRange { start: 0, end: 4 },
            instances: IndexRange { start: 0, end: 2 },
        }
    );
    assert_eq!((VERTEX_SLOT, INSTANCE_SLOT, MODEL_BIND_GROUP), (0, 1, 0));
}

#[test]
fn render_pass_without_instance_buffer_draws_one_instance() {
    let resources = RenderResources::build(TextureFormat::Bgra8Unorm, Geometry::Triangle, None, false);
    assert_eq!(
        resources.render_pass(),
        RenderPass {
            clear: Color { r: 255, g: 0, b: 0, a: 255 },
            vertex_slot: 0,
            instance_slot: None,
            bind_group: None,
            vertices: IndexRange { start: 0, end: 3 },
            instances: IndexRange { start: 0, end: 1 },
        }
    );
}

#[test]
fn render_pass_with_an_empty_instance_buffer_draws_no_instance() {
    let resources = RenderResources::build(TextureFormat::Bgra8Unorm, Geometry::Square, Some(0), false);
    let pass = resources.render_pass();
    assert_eq!(pass.instance_slot, Some(1));
    assert_eq!(pass.instances, IndexRange { start: 0, end: 0 });
    assert_eq!(pass.vertices, IndexRange { start: 0, end: 4 });
}
