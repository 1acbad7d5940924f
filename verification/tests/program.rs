use glium::gl;
use glium::program::binary_header::{attach_glium_header, process_glium_header};
use glium::program::reflection::{
    geometry_output_primitives, glenum_to_attribute_type, glenum_to_transform_feedback_mode,
    glenum_to_uniform_type, tess_eval_output_primitives,
};
use glium::program::program::{
    binary_program_stages, check_binary_retrieval, program_binary, unuse_deleted_program, use_program, ProgramState, output_primitives_source, plan_program, program_link_outcome,
    program_object_api, transform_feedback_varyings_call, OutputPrimitivesSource, ProgramBuild,
    TransformFeedbackVaryingsFunction,
};
use glium::program::shader::{
    check_shader_object, check_shader_type_compatibility, prepare_shader, shader_compilation_outcome,
    ShaderObjectApi,
};
use glium::Handle;
use glium::program::{
    is_binary_supported, is_compute_shader_supported, is_geometry_shader_supported, is_subroutine_supported,
    is_tessellation_shader_supported, AttributeType, Binary, GetBinaryError, IntoProgramCreationInput,
    OutputPrimitives, ProgramChooserCreationError, ProgramCreationError, ProgramCreationInput, ShaderType,
    SourceCode, SpirvEntryPoint, SpirvProgram, TransformFeedbackMode, UniformType,
};
use glium::version::{Api, Backend, Capabilities, ExtensionsList, Version};

fn backend(api: Api, major: u8, minor: u8) -> Backend {
    Backend {
        version: Version(api, major, minor),
        extensions: ExtensionsList::default(),
        capabilities: Capabilities {
            max_color_attachments: 8,
            max_draw_buffers: 8,
            max_framebuffer_width: None,
            max_framebuffer_height: None,
            max_framebuffer_layers: None,
            max_framebuffer_samples: None,
            max_patch_vertices: None,
        },
    }
}

#[test]
fn shader_stage_support() {
    assert!(is_geometry_shader_supported(&backend(Api::Gl, 3, 2)));
    assert!(!is_geometry_shader_supported(&backend(Api::Gl, 3, 1)));
    assert!(is_geometry_shader_supported(&backend(Api::GlEs, 3, 2)));
    let mut b = backend(Api::Gl, 2, 1);
    b.extensions.gl_ext_geometry_shader4 = true;
    assert!(is_geometry_shader_supported(&b));
    assert!(is_tessellation_shader_supported(&backend(Api::Gl, 4, 0)));
    assert!(!is_tessellation_shader_supported(&backend(Api::Gl, 3, 3)));
    assert!(check_shader_type_compatibility(&backend(Api::Gl, 2, 0), gl::VERTEX_SHADER));
    assert!(check_shader_type_compatibility(&backend(Api::GlEs, 3, 1), gl::COMPUTE_SHADER));
    assert!(!check_shader_type_compatibility(&backend(Api::Gl, 4, 2), gl::COMPUTE_SHADER));
    assert!(is_binary_supported(&backend(Api::Gl, 4, 1)));
    assert!(is_binary_supported(&backend(Api::GlEs, 2, 0)));
    assert!(!is_binary_supported(&backend(Api::Gl, 4, 0)));
    let vendor = "Mesa".to_string();
    assert!(is_subroutine_supported(&backend(Api::Gl, 4, 0), false, &vendor));
    assert!(!is_subroutine_supported(&backend(Api::Gl, 3, 3), false, &vendor));
}

#[test]
fn shader_types_and_enumerants() {
    let all = [
        ShaderType::Vertex,
        ShaderType::Geometry,
        ShaderType::Fragment,
        ShaderType::TesselationControl,
        ShaderType::TesselationEvaluation,
        ShaderType::Compute,
    ];
    for t in all {
        assert_eq!(ShaderType::from_opengl_type(t.to_opengl_type()), t);
    }
    assert_eq!(ShaderType::Fragment.to_opengl_type(), gl::FRAGMENT_SHADER);
    assert_eq!(ShaderType::from_opengl_type(gl::TESS_EVALUATION_SHADER), ShaderType::TesselationEvaluation);
}

#[test]
fn binary_header_roundtrip() {
    for g in [false, true] {
        for c in [false, true] {
            for e in [false, true] {
                let mut data = vec![10u8, 20, 30];
                attach_glium_header(g, c, e, &mut data);
                assert_eq!(data.len(), 4);
                assert_eq!(&data[1..], &[10, 20, 30]);
                assert_eq!(process_glium_header(&data), Some((g, c, e)));
            }
        }
    }
    let mut data = Vec::new();
    attach_glium_header(true, false, true, &mut data);
    assert_eq!(data, vec![0b101]);
    assert_eq!(process_glium_header(&[0b1000]), None);
    assert_eq!(process_glium_header(&[0b110, 1]), Some((true, true, false)));
}

#[test]
fn program_inputs() {
    let code = SourceCode {
        vertex_shader: "vs",
        tessellation_control_shader: None,
        tessellation_evaluation_shader: None,
        geometry_shader: Some("gs"),
        fragment_shader: "fs",
    };
    match code.into_program_creation_input() {
        ProgramCreationInput::SourceCode {
            vertex_shader, geometry_shader, fragment_shader, outputs_srgb, uses_point_size,
            transform_feedback_varyings, ..
        } => {
            assert_eq!(vertex_shader, "vs");
            assert_eq!(geometry_shader, Some("gs"));
            assert_eq!(fragment_shader, "fs");
            assert!(outputs_srgb);
            assert!(!uses_point_size);
            assert!(transform_feedback_varyings.is_none());
        },
        _ => panic!("expected source code"),
    }
    let binary = Binary { format: 7, content: vec![1, 2] };
    match ProgramCreationInput::from(binary) {
        ProgramCreationInput::Binary { data, outputs_srgb, uses_point_size } => {
            assert_eq!(data.format, 7);
            assert_eq!(data.content, vec![1, 2]);
            assert!(outputs_srgb);
            assert!(!uses_point_size);
        },
        _ => panic!("expected a binary"),
    }
}

#[test]
fn spirv_program_builders() {
    let module = [1u8, 2, 3];
    let vs = SpirvEntryPoint { binary: &module, entry_point: "main_vs" };
    let fs = SpirvEntryPoint { binary: &module, entry_point: "main_fs" };
    let p = SpirvProgram::from_vs_and_fs(vs, fs);
    assert!(p.outputs_srgb);
    assert!(!p.uses_point_size);
    assert!(p.geometry_shader.is_none());
    let p = p
        .geometry_shader(Some(vs))
        .tessellation_control_shader(Some(fs))
        .tessellation_evaluation_shader(None)
        .transform_feedback_varyings(Some((vec!["out".to_string()], TransformFeedbackMode::Separate)))
        .outputs_srgb(false)
        .uses_point_size(true);
    assert_eq!(p.geometry_shader.unwrap().entry_point, "main_vs");
    assert_eq!(p.tessellation_control_shader.unwrap().entry_point, "main_fs");
    assert!(!p.outputs_srgb);
    assert!(p.uses_point_size);
    assert_eq!(p.transform_feedback_varyings.unwrap().1, TransformFeedbackMode::Separate);
}

#[test]
fn program_errors() {
    let err = ProgramCreationError::CompilationError("log".to_string(), ShaderType::Geometry);
    assert_eq!(err.description(), "Compilation error in geometry shader");
    match ProgramChooserCreationError::from(ProgramCreationError::BinaryHeaderError) {
        ProgramChooserCreationError::ProgramCreationError(ProgramCreationError::BinaryHeaderError) => {},
        _ => panic!("expected the wrapped error"),
    }
    assert_eq!(GetBinaryError::NoFormats.description(), "The backend does not supply any binary formats.");
}

#[test]
fn reflected_types() {
    assert_eq!(glenum_to_uniform_type(gl::FLOAT_MAT2x3), UniformType::FloatMat2x3);
    assert_eq!(glenum_to_uniform_type(gl::SAMPLER_2D), UniformType::Sampler2d);
    assert_eq!(glenum_to_uniform_type(gl::UNSIGNED_INT_SAMPLER_1D_ARRAY), UniformType::USampler2dArray);
    assert_eq!(glenum_to_uniform_type(gl::UNSIGNED_INT_ATOMIC_COUNTER), UniformType::AtomicCounterUint);
    assert_eq!(glenum_to_attribute_type(gl::FLOAT_VEC3), AttributeType::F32F32F32);
    assert_eq!(glenum_to_attribute_type(gl::FLOAT_MAT4x2), AttributeType::F32x4x2);
    assert_eq!(glenum_to_transform_feedback_mode(gl::SEPARATE_ATTRIBS), TransformFeedbackMode::Separate);
    assert_eq!(geometry_output_primitives(gl::LINE_STRIP), OutputPrimitives::Lines);
    assert_eq!(tess_eval_output_primitives(gl::ISOLINES), OutputPrimitives::Lines);
    assert_eq!(tess_eval_output_primitives(gl::TRIANGLES), OutputPrimitives::Triangles);
}

#[test]
fn shader_preparation() {
    let gl33 = backend(Api::Gl, 3, 3);
    let glsl = [Version(Api::Gl, 3, 3)];
    assert!(matches!(prepare_shader(&gl33, &glsl, gl::VERTEX_SHADER), Ok(ShaderObjectApi::Core)));
    assert!(matches!(
        prepare_shader(&gl33, &[], gl::VERTEX_SHADER),
        Err(ProgramCreationError::CompilationNotSupported)
    ));
    assert!(matches!(
        prepare_shader(&gl33, &glsl, gl::TESS_CONTROL_SHADER),
        Err(ProgramCreationError::ShaderTypeNotSupported)
    ));
    let mut old = backend(Api::Gl, 1, 5);
    old.extensions.gl_arb_shader_objects = true;
    assert!(matches!(prepare_shader(&old, &glsl, gl::FRAGMENT_SHADER), Ok(ShaderObjectApi::Arb)));
    assert!(matches!(check_shader_object(Handle::Id(0)), Err(ProgramCreationError::ShaderTypeNotSupported)));
    assert!(matches!(
        check_shader_object(Handle::Handle(0)),
        Err(ProgramCreationError::ShaderTypeNotSupported)
    ));
    assert_eq!(check_shader_object(Handle::Id(7)).ok(), Some(Handle::Id(7)));
}

#[test]
fn shader_compilation_errors() {
    assert!(shader_compilation_outcome(gl::VERTEX_SHADER, 1, Vec::new()).is_ok());
    match shader_compilation_outcome(gl::FRAGMENT_SHADER, 0, b"0:1: syntax error".to_vec()) {
        Err(ProgramCreationError::CompilationError(msg, ShaderType::Fragment)) => {
            assert_eq!(msg, "0:1: syntax error")
        }
        _ => panic!("expected a compilation error"),
    }
    match shader_compilation_outcome(gl::GEOMETRY_SHADER, 0, vec![0xff, 0xfe]) {
        Err(ProgramCreationError::CompilationError(msg, ShaderType::Geometry)) => {
            assert_eq!(msg, "Could not convert the log message to UTF-8")
        }
        _ => panic!("expected a compilation error"),
    }
}

#[test]
fn program_plans() {
    let input = ProgramCreationInput::SourceCode {
        vertex_shader: "vs",
        tessellation_control_shader: Some("tcs"),
        tessellation_evaluation_shader: None,
        geometry_shader: Some("gs"),
        fragment_shader: "fs",
        transform_feedback_varyings: None,
        outputs_srgb: true,
        uses_point_size: false,
    };
    let plan = plan_program(&backend(Api::Gl, 3, 3), &input).ok().unwrap();
    assert!(plan.outputs_srgb);
    assert!(!plan.uses_point_size);
    match plan.build {
        ProgramBuild::Shaders {
            shaders,
            has_geometry_shader,
            has_tessellation_control_shader,
            has_tessellation_evaluation_shader,
        } => {
            assert_eq!(
                shaders,
                vec![
                    ("vs", gl::VERTEX_SHADER),
                    ("fs", gl::FRAGMENT_SHADER),
                    ("gs", gl::GEOMETRY_SHADER),
                    ("tcs", gl::TESS_CONTROL_SHADER),
                ]
            );
            assert!(has_geometry_shader && has_tessellation_control_shader);
            assert!(!has_tessellation_evaluation_shader);
        }
        ProgramBuild::Binary => panic!("expected shaders"),
    }
    let feedback = ProgramCreationInput::SourceCode {
        vertex_shader: "vs",
        tessellation_control_shader: None,
        tessellation_evaluation_shader: None,
        geometry_shader: None,
        fragment_shader: "fs",
        transform_feedback_varyings: Some((vec!["out".to_string()], TransformFeedbackMode::Separate)),
        outputs_srgb: false,
        uses_point_size: true,
    };
    assert!(matches!(
        plan_program(&backend(Api::GlEs, 3, 0), &feedback),
        Err(ProgramCreationError::TransformFeedbackNotSupported)
    ));
    let mut es_ext = backend(Api::GlEs, 3, 0);
    es_ext.extensions.gl_ext_transform_feedback = true;
    assert!(matches!(plan_program(&es_ext, &feedback), Err(ProgramCreationError::PointSizeNotSupported)));
    let binary = ProgramCreationInput::Binary {
        data: Binary { format: 1, content: vec![4, 0] },
        outputs_srgb: false,
        uses_point_size: true,
    };
    assert!(matches!(plan_program(&backend(Api::Gl, 2, 1), &binary), Err(ProgramCreationError::PointSizeNotSupported)));
    assert!(matches!(
        plan_program(&backend(Api::Gl, 3, 0), &binary).ok().map(|p| p.build),
        Some(ProgramBuild::Binary)
    ));
}

#[test]
fn program_object_calls() {
    assert_eq!(program_object_api(&backend(Api::GlEs, 2, 0)), ShaderObjectApi::Core);
    let mut old = backend(Api::Gl, 1, 5);
    old.extensions.gl_arb_shader_objects = true;
    assert_eq!(program_object_api(&old), ShaderObjectApi::Arb);
    assert_eq!(
        transform_feedback_varyings_call(&backend(Api::Gl, 3, 0), TransformFeedbackMode::Separate),
        (TransformFeedbackVaryingsFunction::Core, gl::SEPARATE_ATTRIBS)
    );
    let mut ext = backend(Api::Gl, 2, 1);
    ext.extensions.gl_ext_transform_feedback = true;
    assert_eq!(
        transform_feedback_varyings_call(&ext, TransformFeedbackMode::Interleaved),
        (TransformFeedbackVaryingsFunction::Ext, 0x8C8C)
    );
    assert_eq!(output_primitives_source(true, true), Some(OutputPrimitivesSource::GeometryShader));
    assert_eq!(
        output_primitives_source(false, true),
        Some(OutputPrimitivesSource::TessellationEvaluationShader)
    );
    assert_eq!(output_primitives_source(false, false), None);
}

#[test]
fn program_link_errors() {
    assert!(program_link_outcome(1, gl::NO_ERROR, Vec::new()).is_ok());
    let msg = |r: Result<(), ProgramCreationError>| match r {
        Err(ProgramCreationError::LinkingError(m)) => m,
        _ => panic!("expected a linking error"),
    };
    assert_eq!(msg(program_link_outcome(0, gl::NO_ERROR, b"missing main".to_vec())), "missing main");
    assert_eq!(
        msg(program_link_outcome(0, gl::INVALID_VALUE, Vec::new())),
        "glLinkProgram triggered GL_INVALID_VALUE"
    );
    assert_eq!(
        msg(program_link_outcome(0, gl::INVALID_OPERATION, Vec::new())),
        "glLinkProgram triggered GL_INVALID_OPERATION"
    );
    assert_eq!(msg(program_link_outcome(0, 0x0505, Vec::new())), "glLinkProgram triggered an unknown error");
}

#[test]
fn program_binary_stages() {
    let with_gs = Binary { format: 7, content: vec![4, 1, 2, 3] };
    assert_eq!(binary_program_stages(&with_gs).ok(), Some((true, false, false)));
    let corrupt = Binary { format: 7, content: vec![9] };
    assert!(matches!(binary_program_stages(&corrupt), Err(ProgramCreationError::BinaryHeaderError)));
}

#[test]
fn program_use_calls() {
    let b = backend(Api::Gl, 3, 3);
    let mut state = ProgramState { program: Handle::Id(0), program_point_size: false, framebuffer_srgb: false };
    let calls = use_program(&b, &mut state, Handle::Id(5), true, false);
    assert_eq!(calls.program_point_size, Some(true));
    assert_eq!(calls.framebuffer_srgb, Some(true));
    assert_eq!(calls.use_program, Some(Handle::Id(5)));
    assert_eq!(state.program, Handle::Id(5));
    assert!(state.framebuffer_srgb);
    // The recorded point size setting is not updated.
    assert!(!state.program_point_size);
    let calls = use_program(&b, &mut state, Handle::Id(5), false, true);
    assert_eq!(calls.program_point_size, None);
    assert_eq!(calls.framebuffer_srgb, Some(false));
    assert_eq!(calls.use_program, None);
    // Without an sRGB switch, nothing changes for it.
    let es = backend(Api::GlEs, 2, 0);
    let calls = use_program(&es, &mut state, Handle::Id(6), false, false);
    assert_eq!(calls.framebuffer_srgb, None);
    assert!(!state.framebuffer_srgb);
    assert_eq!(unuse_deleted_program(&mut state, Handle::Id(6)), Some(Handle::Id(0)));
    assert_eq!(state.program, Handle::Id(0));
    assert_eq!(unuse_deleted_program(&mut state, Handle::Id(6)), None);
    state.program = Handle::Handle(3);
    assert_eq!(unuse_deleted_program(&mut state, Handle::Handle(3)), Some(Handle::Handle(0)));
}

#[test]
fn program_binary_retrieval() {
    assert_eq!(check_binary_retrieval(&backend(Api::Gl, 3, 3), 1), Err(GetBinaryError::NotSupported));
    assert_eq!(check_binary_retrieval(&backend(Api::Gl, 4, 1), 0), Err(GetBinaryError::NoFormats));
    assert_eq!(check_binary_retrieval(&backend(Api::Gl, 4, 1), 2), Ok(()));
    let mut arb = backend(Api::GlEs, 3, 0);
    arb.extensions.gl_arb_get_programy_binary = true;
    assert_eq!(check_binary_retrieval(&arb, 1), Ok(()));
    let binary = program_binary(0x8741, vec![10, 20], true, false, true);
    assert_eq!(binary.format, 0x8741);
    assert_eq!(binary.content, vec![5, 10, 20]);
    assert_eq!(binary_program_stages(&binary).ok(), Some((true, false, true)));
}

#[test]
fn program_error_details() {
    let e = ProgramCreationError::CompilationError("0:3: bad".to_string(), ShaderType::Fragment);
    assert_eq!(e.detail(), Some("0:3: bad".to_string()));
    assert_eq!(ProgramCreationError::LinkingError("x".to_string()).detail(), Some("x".to_string()));
    assert_eq!(ProgramCreationError::ShaderTypeNotSupported.detail(), None);
}

#[test]
fn subroutines_and_compute_shaders() {
    let nvidia = "NVIDIA Corporation".to_string();
    let other = "AMD".to_string();
    let gl40 = backend(Api::Gl, 4, 0);
    assert!(!is_subroutine_supported(&gl40, true, &nvidia));
    assert!(is_subroutine_supported(&gl40, false, &nvidia));
    assert!(is_subroutine_supported(&gl40, true, &other));
    assert!(is_subroutine_supported(&backend(Api::Gl, 4, 1), true, &nvidia));
    assert!(is_compute_shader_supported(&backend(Api::Gl, 4, 3)));
    assert!(!is_compute_shader_supported(&backend(Api::Gl, 4, 2)));
    assert!(is_compute_shader_supported(&backend(Api::GlEs, 3, 1)));
}

#[test]
fn reflected_uniform_sizes() {
    assert_eq!(glium::program::reflection::uniform_size(1), None);
    assert_eq!(glium::program::reflection::uniform_size(4), Some(4));
}
