use frozen_game::handles::{PipelineHandle, QueueHandle};
use frozen_game::model::{ModelBuilder, ModelBuilderError};
use frozen_game::{FrozenGameBuilder, FrozenGameInstance};

fn bits(v: f32) -> u32 {
    v.to_bits()
}

fn queue() -> QueueHandle {
    QueueHandle { id: 11 }
}

fn pipeline() -> PipelineHandle {
    PipelineHandle {
        id: 21,
        vertex_layout: 31,
        binding_layout: 41,
        has_vertex_shader: true,
        has_fragment_shader: true,
    }
}

const TRIANGLE_A: &str = "v 0 0 0\nv 2 0 0\nv 0 2 0\nvn 0 0 1\nf 1//1 2//1 3//1\n";
const TRIANGLE_B: &str = "v 5 0 0\nv 6 0 0\nv 5 1 0\nvn 1 0 0\nf 1//1 2//1 3//1\n";
const QUAD: &str = "v 0 0 0\nv 1 0 0\nv 1 1 0\nv 0 1 0\nvn 0 0 1\nf 1//1 2//1 3//1\nf 3//1 4//1 1//1\n";

#[test]
fn build_without_source_fails_with_missing_meshes() {
    let r = ModelBuilder::new(queue(), pipeline()).build();
    assert!(matches!(r, Err(ModelBuilderError::MissingMeshes)));
}

#[test]
fn build_after_failed_parse_fails_with_missing_meshes() {
    let r = ModelBuilder::new(queue(), pipeline()).with_obj(b"v 1 2\n").build();
    assert!(matches!(r, Err(ModelBuilderError::MissingMeshes)));
}

#[test]
fn parse_failure_clears_earlier_meshes() {
    let r = ModelBuilder::new(queue(), pipeline())
        .with_obj(TRIANGLE_A.as_bytes())
        .with_obj(b"v 1 2\n")
        .build();
    assert!(matches!(r, Err(ModelBuilderError::MissingMeshes)));
}

#[test]
fn negative_texcoord_reference_is_refused() {
    // A far out-of-range relative texcoord index; refused before the parser
    // sees it, so the builder is simply left without meshes.
    let r = ModelBuilder::new(queue(), pipeline())
        .with_obj(b"v 0 0 0\nvt 0 0\nf 1/-3 1/-3 1/-3\n")
        .build();
    assert!(matches!(r, Err(ModelBuilderError::MissingMeshes)));
}

#[test]
fn overlong_index_reference_is_refused() {
    // A 19-digit normal index; refused before the parser sees it.
    let r = ModelBuilder::new(queue(), pipeline())
        .with_obj(b"v 0 0 0\nvn 0 0 1\nf 1//9223372036854775807 1//1 1//1\n")
        .build();
    assert!(matches!(r, Err(ModelBuilderError::MissingMeshes)));
}

#[test]
fn in_range_relative_reference_is_refused_too() {
    // Relative (negative) references are given up wholesale, even in range.
    let r = ModelBuilder::new(queue(), pipeline())
        .with_obj(b"v 0 0 0\nv 1 0 0\nv 0 1 0\nvn 0 0 1\nf -3//-1 -2//-1 -1//-1\n")
        .build();
    assert!(matches!(r, Err(ModelBuilderError::MissingMeshes)));
}

#[test]
fn eighteen_digit_index_is_still_parsed() {
    // Zero-padded 18-digit indices stay under the refusal threshold and
    // resolve normally.
    let model = ModelBuilder::new(queue(), pipeline())
        .with_obj(
            b"v 0 0 0\nv 1 0 0\nv 0 1 0\nvn 0 0 1\nf 000000000000000001//1 2//1 3//1\n",
        )
        .build()
        .unwrap();
    assert_eq!(model.vertex_buffer[0].vertices.len(), 3);
    assert_eq!(model.index_buffer.indices, vec![0, 1, 2]);
}

#[test]
fn negative_coordinates_are_not_refused() {
    // Minus signs in vertex data are ordinary geometry; only element
    // statements are screened.
    let model = ModelBuilder::new(queue(), pipeline())
        .with_obj(b"v -1 0 0\nv 1 0 0\nv 0 -1 0\nvn 0 0 -1\nf 1//1 2//1 3//1\n")
        .build()
        .unwrap();
    assert_eq!(model.vertex_buffer[0].vertices.len(), 3);
    assert_eq!(model.vertex_buffer[0].vertices[0].position.x, bits(-1.0));
    assert_eq!(model.vertex_buffer[0].vertices[0].normals.z, bits(-1.0));
}

#[test]
fn obj_without_normals_leaves_no_meshes() {
    let r = ModelBuilder::new(queue(), pipeline())
        .with_obj(b"v 0 0 0\nv 1 0 0\nv 0 1 0\nf 1 2 3\n")
        .build();
    assert!(matches!(r, Err(ModelBuilderError::MissingMeshes)));
}

#[test]
fn missing_source_leaves_builder_unchanged() {
    let model = ModelBuilder::new(queue(), pipeline())
        .with_obj(TRIANGLE_A.as_bytes())
        .with_obj_source(None)
        .build()
        .unwrap();
    assert_eq!(model.vertex_buffer[0].vertices.len(), 3);
    assert_eq!(model.vertex_buffer[0].vertices[0].position.x, bits(0.0));
    assert_eq!(model.vertex_buffer[0].vertices[1].position.x, bits(2.0));
    assert_eq!(model.index_buffer.indices, vec![0, 1, 2]);
}

#[test]
fn missing_source_on_fresh_builder_still_fails() {
    let r = ModelBuilder::new(queue(), pipeline()).with_obj_source(None).build();
    assert!(matches!(r, Err(ModelBuilderError::MissingMeshes)));
}

#[test]
fn attached_source_bytes_behave_like_with_obj() {
    let model = ModelBuilder::new(queue(), pipeline())
        .with_obj_source(Some(TRIANGLE_B.as_bytes()))
        .build()
        .unwrap();
    assert_eq!(model.vertex_buffer[0].vertices.len(), 3);
    assert_eq!(model.vertex_buffer[0].vertices[0].position.x, bits(5.0));
}

#[test]
fn second_source_replaces_first() {
    let model = ModelBuilder::new(queue(), pipeline())
        .with_obj(TRIANGLE_A.as_bytes())
        .with_obj(TRIANGLE_B.as_bytes())
        .build()
        .unwrap();
    // Only the second triangle's geometry survives.
    assert_eq!(model.vertex_buffer.len(), 1);
    assert_eq!(model.vertex_buffer[0].vertices.len(), 3);
    assert_eq!(model.vertex_buffer[0].vertices[0].position.x, bits(5.0));
    assert_eq!(model.vertex_buffer[0].vertices[1].position.x, bits(6.0));
    assert_eq!(model.vertex_buffer[0].vertices[2].position.y, bits(1.0));
    assert_eq!(model.vertex_buffer[0].vertices[0].normals.x, bits(1.0));
    assert_eq!(model.index_buffer.indices, vec![0, 1, 2]);
}

#[test]
fn quad_builds_four_vertices_and_six_indices() {
    let model = ModelBuilder::new(queue(), pipeline()).with_obj(QUAD.as_bytes()).build().unwrap();
    let vertices = &model.vertex_buffer[0].vertices;
    assert_eq!(vertices.len(), 4);
    assert_eq!(vertices[0].position.x, bits(0.0));
    assert_eq!(vertices[1].position.x, bits(1.0));
    assert_eq!(vertices[2].position.y, bits(1.0));
    assert_eq!(vertices[3].position.y, bits(1.0));
    assert_eq!(model.index_buffer.indices, vec![0, 1, 2, 2, 3, 0]);
    assert_eq!(model.vertex_buffer[0].queue, queue());
    assert_eq!(model.vertex_buffer[0].layout, pipeline().vertex_layout);
    assert_eq!(model.index_buffer.queue, queue());
    assert_eq!(model.pipeline, pipeline());
}

#[test]
fn two_sub_meshes_concatenate_verbatim() {
    let obj = "o first\nv 0 0 0\nv 1 0 0\nv 0 1 0\nvn 0 0 1\nf 1//1 2//1 3//1\no second\nv 0 0 3\nv 1 0 3\nv 0 1 3\nvn 0 0 1\nf 4//1 5//1 6//1\n";
    let model = ModelBuilder::new(queue(), pipeline()).with_obj(obj.as_bytes()).build().unwrap();
    let vertices = &model.vertex_buffer[0].vertices;
    assert_eq!(vertices.len(), 6);
    assert_eq!(vertices[3].position.z, bits(3.0));
    // Indices are concatenated without offsetting by earlier vertex counts.
    assert_eq!(model.index_buffer.indices, vec![0, 1, 2, 0, 1, 2]);
}

#[test]
fn empty_obj_builds_empty_buffers() {
    let model = ModelBuilder::new(queue(), pipeline()).with_obj(b"").build().unwrap();
    assert_eq!(model.vertex_buffer[0].vertices.len(), 0);
    assert_eq!(model.index_buffer.indices.len(), 0);
}

#[test]
fn build_requires_vertex_shader_stage() {
    let p = PipelineHandle { has_vertex_shader: false, ..pipeline() };
    let r = ModelBuilder::new(queue(), p).with_obj(TRIANGLE_A.as_bytes()).build();
    assert!(matches!(r, Err(ModelBuilderError::MissingVertexShader)));
}

#[test]
fn build_requires_fragment_shader_stage() {
    let p = PipelineHandle { has_fragment_shader: false, ..pipeline() };
    let r = ModelBuilder::new(queue(), p).with_obj(TRIANGLE_A.as_bytes()).build();
    assert!(matches!(r, Err(ModelBuilderError::MissingFragmentShader)));
}

#[test]
fn missing_meshes_reported_before_missing_shaders() {
    let p = PipelineHandle { has_vertex_shader: false, has_fragment_shader: false, ..pipeline() };
    let r = ModelBuilder::new(queue(), p).build();
    assert!(matches!(r, Err(ModelBuilderError::MissingMeshes)));
}

#[test]
fn facade_forwards_its_queue_into_builders() {
    let instance: FrozenGameInstance = FrozenGameBuilder::new(QueueHandle { id: 77 }).build();
    assert_eq!(instance.graphics_queue, QueueHandle { id: 77 });
    let model = instance
        .build_model(pipeline())
        .with_obj(TRIANGLE_A.as_bytes())
        .build()
        .unwrap();
    assert_eq!(model.vertex_buffer[0].queue, QueueHandle { id: 77 });
    assert_eq!(model.index_buffer.queue, QueueHandle { id: 77 });
}

#[test]
fn facade_builder_starts_without_meshes() {
    let instance = FrozenGameBuilder::new(queue()).build();
    let r = instance.build_model(pipeline()).build();
    assert!(matches!(r, Err(ModelBuilderError::MissingMeshes)));
}
