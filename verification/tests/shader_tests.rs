use isocube::shader::{
    normalize_newline_escapes, take_log_excerpt, Shader, ShaderBuilder, ShaderError, ShaderEvent,
    ShaderPhase, ShaderRequest, StageKind, MAX_LOG_BYTES,
};

#[test]
fn successful_build_produces_linked_program() {
    let b = ShaderBuilder::new();
    assert_eq!(b.request(), Some(ShaderRequest::ReadSources));
    let b = b.step(ShaderEvent::SourcesRead);
    assert_eq!(b.request(), Some(ShaderRequest::CompileStage { stage: StageKind::Vertex }));
    let b = b.step(ShaderEvent::StageCompiled { stage_handle: 7 });
    assert_eq!(b.request(), Some(ShaderRequest::CompileStage { stage: StageKind::Fragment }));
    let b = b.step(ShaderEvent::StageCompiled { stage_handle: 8 });
    assert_eq!(
        b.request(),
        Some(ShaderRequest::LinkProgram { vertex_stage: 7, fragment_stage: 8 })
    );
    let b = b.step(ShaderEvent::Linked { program: 42 });
    // Both intermediate stage handles are released after the link attempt.
    assert_eq!(
        b.request(),
        Some(ShaderRequest::ReleaseStages { vertex_stage: 7, fragment_stage: 8 })
    );
    let b = b.step(ShaderEvent::StagesReleased);
    assert!(b.finished());
    assert_eq!(b.request(), None);
    let shader = b.into_result().unwrap();
    assert_eq!(shader.program_id(), 42);
}

#[test]
fn invalid_source_fails_with_compile_kind_and_log() {
    let b = ShaderBuilder::new();
    let b = b.step(ShaderEvent::SourcesRead);
    let driver_log = b"0:1(1): error: syntax error, unexpected NEW_IDENTIFIER".to_vec();
    let b = b.step(ShaderEvent::StageCompileFailed { log: driver_log.clone() });
    assert!(b.finished());
    match b.into_result() {
        Err(ShaderError::Compile { stage, log }) => {
            assert_eq!(stage, StageKind::Vertex);
            assert!(!log.is_empty());
            assert!(log.len() <= MAX_LOG_BYTES);
            assert_eq!(log, driver_log);
        }
        other => panic!("expected a compile error, got {:?}", other),
    }
}

#[test]
fn fragment_compile_failure_names_fragment_stage() {
    let b = ShaderBuilder::new();
    let b = b.step(ShaderEvent::SourcesRead);
    let b = b.step(ShaderEvent::StageCompiled { stage_handle: 3 });
    let b = b.step(ShaderEvent::StageCompileFailed { log: b"bad fragment".to_vec() });
    match b.into_result() {
        Err(ShaderError::Compile { stage, .. }) => assert_eq!(stage, StageKind::Fragment),
        other => panic!("expected a compile error, got {:?}", other),
    }
}

#[test]
fn oversized_compile_log_is_truncated_to_512_bytes() {
    let b = ShaderBuilder::new();
    let b = b.step(ShaderEvent::SourcesRead);
    let long_log = vec![b'e'; 700];
    let b = b.step(ShaderEvent::StageCompileFailed { log: long_log.clone() });
    match b.into_result() {
        Err(ShaderError::Compile { log, .. }) => {
            assert_eq!(log.len(), MAX_LOG_BYTES);
            assert_eq!(&log[..], &long_log[..MAX_LOG_BYTES]);
        }
        other => panic!("expected a compile error, got {:?}", other),
    }
}

#[test]
fn link_failure_is_link_kind_not_compile_kind() {
    let b = ShaderBuilder::new();
    let b = b.step(ShaderEvent::SourcesRead);
    let b = b.step(ShaderEvent::StageCompiled { stage_handle: 7 });
    let b = b.step(ShaderEvent::StageCompiled { stage_handle: 8 });
    let b = b.step(ShaderEvent::LinkFailed {
        log: b"error: vertex shader output `color' not read by fragment shader".to_vec(),
    });
    // The stages are still released after a failed link.
    assert_eq!(
        b.request(),
        Some(ShaderRequest::ReleaseStages { vertex_stage: 7, fragment_stage: 8 })
    );
    let b = b.step(ShaderEvent::StagesReleased);
    let err = b.into_result().unwrap_err();
    assert!(matches!(err, ShaderError::Link { .. }));
    assert!(!matches!(err, ShaderError::Compile { .. }));
}

#[test]
fn link_log_newline_escapes_are_normalized() {
    let b = ShaderBuilder::new();
    let b = b.step(ShaderEvent::SourcesRead);
    let b = b.step(ShaderEvent::StageCompiled { stage_handle: 1 });
    let b = b.step(ShaderEvent::StageCompiled { stage_handle: 2 });
    let b = b.step(ShaderEvent::LinkFailed { log: b"line one\\nline two\\n".to_vec() });
    let b = b.step(ShaderEvent::StagesReleased);
    match b.into_result() {
        Err(ShaderError::Link { log }) => assert_eq!(log, b"line one\nline two\n".to_vec()),
        other => panic!("expected a link error, got {:?}", other),
    }
}

#[test]
fn unreadable_source_fails_with_file_kind() {
    let b = ShaderBuilder::new();
    let b = b.step(ShaderEvent::SourceReadFailed {
        message: String::from("No such file or directory"),
    });
    assert!(b.finished());
    match b.into_result() {
        Err(ShaderError::File { message }) => {
            assert_eq!(message, "No such file or directory");
        }
        other => panic!("expected a file error, got {:?}", other),
    }
}

#[test]
fn failed_build_reaches_failed_phase() {
    let b = ShaderBuilder::new();
    let b = b.step(ShaderEvent::SourcesRead);
    let b = b.step(ShaderEvent::StageCompileFailed { log: b"x".to_vec() });
    assert!(matches!(b.phase, ShaderPhase::Failed { .. }));
}

#[test]
fn take_log_excerpt_keeps_short_logs_whole() {
    let log = b"short".to_vec();
    assert_eq!(take_log_excerpt(log.clone()), log);
    assert_eq!(take_log_excerpt(Vec::new()), Vec::<u8>::new());
    let exact = vec![7u8; MAX_LOG_BYTES];
    assert_eq!(take_log_excerpt(exact.clone()), exact);
}

#[test]
fn normalize_replaces_escapes_left_to_right() {
    assert_eq!(normalize_newline_escapes(&b"a\\nb".to_vec()), b"a\nb".to_vec());
    assert_eq!(normalize_newline_escapes(&b"\\n\\n".to_vec()), b"\n\n".to_vec());
    // A lone backslash, or one not followed by `n`, is kept as is.
    assert_eq!(normalize_newline_escapes(&b"a\\".to_vec()), b"a\\".to_vec());
    assert_eq!(normalize_newline_escapes(&b"\\\\n".to_vec()), b"\\\n".to_vec());
    assert_eq!(normalize_newline_escapes(&b"plain".to_vec()), b"plain".to_vec());
    assert_eq!(normalize_newline_escapes(&Vec::new()), Vec::<u8>::new());
}

#[test]
fn shader_ops_carry_its_program_handle() {
    let s = Shader::new(11);
    assert_eq!(s.enable(), isocube::gfx::GfxOp::UseProgram { program: 11 });
    assert_eq!(s.release_op(), isocube::gfx::GfxOp::DeleteProgram { program: 11 });
}
