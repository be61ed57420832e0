use isocube::gfx::GfxOp;
use isocube::object::{
    Object, ObjectBuilder, ObjectError, ObjectEvent, ObjectPhase, ObjectRequest,
};
use isocube::shader::{Shader, ShaderError, StageKind};
use isocube::{sequential_indices, CUBE_VERTEX_COUNT, VERTEX_COMPONENTS};

#[test]
fn successful_build_yields_object_with_element_count() {
    // The documented cube: 36 vertices of 5 floats each, indices 0..36.
    let float_count = CUBE_VERTEX_COUNT * VERTEX_COMPONENTS;
    let b = ObjectBuilder::new(float_count, CUBE_VERTEX_COUNT);
    assert_eq!(
        b.request(),
        Some(ObjectRequest::CreateVertexBuffer { byte_size: 720 })
    );
    let b = b.step(ObjectEvent::VertexBufferCreated { handle: 1 });
    assert_eq!(b.request(), Some(ObjectRequest::CreateVertexArray));
    let b = b.step(ObjectEvent::VertexArrayCreated { handle: 2 });
    assert_eq!(
        b.request(),
        Some(ObjectRequest::CreateIndexBuffer { byte_size: 144 })
    );
    let b = b.step(ObjectEvent::IndexBufferCreated { handle: 3 });
    assert_eq!(b.request(), Some(ObjectRequest::LoadTexture));
    let b = b.step(ObjectEvent::TextureCreated { handle: 4 });
    assert_eq!(b.request(), Some(ObjectRequest::BuildShader));
    let b = b.step(ObjectEvent::ShaderBuilt { shader: Shader::new(9) });
    assert!(b.finished());
    let o = b.into_result().unwrap();
    assert_eq!(o.vert_count, 36);
    assert_eq!(o.vbo, 1);
    assert_eq!(o.vao, 2);
    assert_eq!(o.ebo, 3);
    assert_eq!(o.tex, 4);
    assert_eq!(o.shader.program_id(), 9);
}

#[test]
fn missing_texture_fails_with_object_error_and_releases_buffers() {
    let b = ObjectBuilder::new(180, 36);
    let b = b.step(ObjectEvent::VertexBufferCreated { handle: 10 });
    let b = b.step(ObjectEvent::VertexArrayCreated { handle: 11 });
    let b = b.step(ObjectEvent::IndexBufferCreated { handle: 12 });
    let b = b.step(ObjectEvent::TextureFailed {
        message: String::from("failed to open image"),
    });
    // Before the failure is reported, the machine asks for the release of
    // exactly the three buffers acquired before the texture step.
    assert!(!b.finished());
    assert_eq!(
        b.request(),
        Some(ObjectRequest::ReleaseHandles { vbo: 10, vao: 11, ebo: 12, tex: None })
    );
    let b = b.step(ObjectEvent::HandlesReleased);
    assert!(b.finished());
    assert_eq!(b.request(), None);
    assert!(matches!(b.phase, ObjectPhase::Failed { .. }));
    match b.into_result() {
        Err(ObjectError::Texture { message }) => assert_eq!(message, "failed to open image"),
        other => panic!("expected a texture error, got {:?}", other),
    }
}

#[test]
fn shader_failure_wraps_shader_error_and_releases_handles() {
    let b = ObjectBuilder::new(180, 36);
    let b = b.step(ObjectEvent::VertexBufferCreated { handle: 1 });
    let b = b.step(ObjectEvent::VertexArrayCreated { handle: 2 });
    let b = b.step(ObjectEvent::IndexBufferCreated { handle: 3 });
    let b = b.step(ObjectEvent::TextureCreated { handle: 4 });
    let inner = ShaderError::Compile { stage: StageKind::Vertex, log: b"bad".to_vec() };
    let b = b.step(ObjectEvent::ShaderFailed { error: inner.clone() });
    // All four acquired handles, the texture included, are released before
    // the failure is reported.
    assert_eq!(
        b.request(),
        Some(ObjectRequest::ReleaseHandles { vbo: 1, vao: 2, ebo: 3, tex: Some(4) })
    );
    let b = b.step(ObjectEvent::HandlesReleased);
    match &b.phase {
        ObjectPhase::Failed { error } => {
            assert_eq!(error, &ObjectError::Shader { error: inner });
        }
        other => panic!("expected a failed build, got {:?}", other),
    }
}

#[test]
fn vertex_attrib_converts_components_to_bytes() {
    let o = Object::new(Shader::new(9), 36, 4, 1, 2, 3);
    // Position: 3 floats at offset 0 in a 5-float vertex.
    let ops = o.vertex_attrib(0, 3, 5, 0);
    assert_eq!(ops.len(), 3);
    assert_eq!(ops[0], GfxOp::BindVertexArray { vao: 2 });
    assert_eq!(
        ops[1],
        GfxOp::VertexAttrib { location: 0, components: 3, byte_stride: 20, byte_offset: 0 }
    );
    assert_eq!(ops[2], GfxOp::EnableVertexAttrib { location: 0 });
    // Texture coordinates: 2 floats at offset 3 in the same vertex.
    let ops = o.vertex_attrib(1, 2, 5, 3);
    assert_eq!(
        ops[1],
        GfxOp::VertexAttrib { location: 1, components: 2, byte_stride: 20, byte_offset: 12 }
    );
}

#[test]
fn cube_draw_issues_one_indexed_draw_of_36_elements() {
    // End to end: build one object from the 36-vertex unindexed cube and
    // the index list 0..36, then draw it.
    let indices = sequential_indices(36);
    assert_eq!(indices.len(), 36);
    assert_eq!(indices[0], 0);
    assert_eq!(indices[35], 35);
    let b = ObjectBuilder::new(CUBE_VERTEX_COUNT * VERTEX_COMPONENTS, indices.len());
    let b = b.step(ObjectEvent::VertexBufferCreated { handle: 1 });
    let b = b.step(ObjectEvent::VertexArrayCreated { handle: 2 });
    let b = b.step(ObjectEvent::IndexBufferCreated { handle: 3 });
    let b = b.step(ObjectEvent::TextureCreated { handle: 4 });
    let b = b.step(ObjectEvent::ShaderBuilt { shader: Shader::new(9) });
    let o = b.into_result().unwrap();
    let ops = o.draw();
    let draws: Vec<&GfxOp> = ops
        .iter()
        .filter(|op| matches!(op, GfxOp::DrawTriangles { .. }))
        .collect();
    assert_eq!(draws.len(), 1);
    assert_eq!(*draws[0], GfxOp::DrawTriangles { element_count: 36 });
    assert_eq!(ops[ops.len() - 1], GfxOp::DrawTriangles { element_count: 36 });
}

#[test]
fn draw_rebinds_everything_every_time() {
    let o = Object::new(Shader::new(7), 36, 40, 41, 42, 43);
    let ops = o.draw();
    assert_eq!(
        ops,
        vec![
            GfxOp::UseProgram { program: 7 },
            GfxOp::BindVertexArray { vao: 42 },
            GfxOp::BindArrayBuffer { vbo: 41 },
            GfxOp::BindElementBuffer { ebo: 43 },
            GfxOp::BindTexture { tex: 40 },
            GfxOp::DrawTriangles { element_count: 36 },
        ]
    );
    // A second draw issues the identical sequence: no state diffing.
    assert_eq!(o.draw(), ops);
}

#[test]
fn release_order_is_texture_vao_vbo_ebo() {
    let o = Object::new(Shader::new(7), 36, 40, 41, 42, 43);
    assert_eq!(
        o.release_ops(),
        vec![
            GfxOp::DeleteTexture { tex: 40 },
            GfxOp::DeleteVertexArray { vao: 42 },
            GfxOp::DeleteBuffer { buf: 41 },
            GfxOp::DeleteBuffer { buf: 43 },
        ]
    );
}
