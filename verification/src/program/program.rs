//! The decisions taken while building a program: which shaders are compiled and whether the
//! backend can honour the request, through which entry points the program object is driven,
//! and what a failed link or a program binary gives.

use vstd::prelude::*;
use vstd::utf8::{decode_utf8, valid_utf8};

use crate::gl;
use crate::program::binary_header::{
    attach_glium_header, header_byte, header_flags, lemma_header_roundtrip, process_glium_header,
};
use crate::program::shader::{shader_objects_available, string_from_utf8, ShaderObjectApi};
use crate::program::{Binary, GetBinaryError, ProgramCreationError, ProgramCreationInput, TransformFeedbackMode};
use crate::version::{Api, CapabilitiesSource, ExtensionsList, Version, ver_ge, version_ge};
use crate::Handle;

verus! {

/// How the program object is obtained.
#[derive(Debug)]
pub enum ProgramBuild<'a> {
    /// Compile `shaders` in this order, each a source and its shader type, then link them.
    Shaders {
        /// The sources to compile, each with its shader type.
        shaders: Vec<(&'a str, u32)>,
        /// Whether a geometry shader is among them.
        has_geometry_shader: bool,
        /// Whether a tessellation control shader is among them.
        has_tessellation_control_shader: bool,
        /// Whether a tessellation evaluation shader is among them.
        has_tessellation_evaluation_shader: bool,
    },
    /// Load the program binary of the input.
    Binary,
}

/// What building a program from an input amounts to, once the backend has been found able to.
#[derive(Debug)]
pub struct ProgramPlan<'a> {
    /// How the program object is obtained.
    pub build: ProgramBuild<'a>,
    /// Whether the fragment shader outputs colors in sRGB.
    pub outputs_srgb: bool,
    /// Whether the program sets the size of points.
    pub uses_point_size: bool,
}

/// Whether a backend of version `v` with extensions `e` can record transform feedback.
pub open spec fn transform_feedback_supported(v: Version, e: ExtensionsList) -> bool {
    ver_ge(v, Api::Gl, 3, 0) || e.gl_ext_transform_feedback
}

/// Whether a backend of version `v` lets shaders set the size of points.
pub open spec fn point_size_supported(v: Version) -> bool {
    ver_ge(v, Api::Gl, 3, 0)
}

/// The stage of an optional shader source, as a sequence of zero or one element.
pub open spec fn optional_stage<'a>(source: Option<&'a str>, shader_type: u32) -> Seq<(&'a str, u32)> {
    match source {
        Some(s) => seq![(s, shader_type)],
        None => Seq::empty(),
    }
}

/// The shaders compiled for a program given by its sources: the vertex and fragment shaders,
/// then the geometry, tessellation control and tessellation evaluation shaders that are given.
pub open spec fn source_stages<'a>(
    vertex_shader: &'a str,
    tessellation_control_shader: Option<&'a str>,
    tessellation_evaluation_shader: Option<&'a str>,
    geometry_shader: Option<&'a str>,
    fragment_shader: &'a str,
) -> Seq<(&'a str, u32)> {
    seq![(vertex_shader, gl::VERTEX_SHADER), (fragment_shader, gl::FRAGMENT_SHADER)]
        + optional_stage(geometry_shader, gl::GEOMETRY_SHADER)
        + optional_stage(tessellation_control_shader, gl::TESS_CONTROL_SHADER)
        + optional_stage(tessellation_evaluation_shader, gl::TESS_EVALUATION_SHADER)
}

/// The number of optional shader sources that are given.
pub open spec fn given_count<'a>(a: Option<&'a str>, b: Option<&'a str>, c: Option<&'a str>) -> nat {
    (if a is Some {
        1nat
    } else {
        0nat
    }) + (if b is Some {
        1nat
    } else {
        0nat
    }) + (if c is Some {
        1nat
    } else {
        0nat
    })
}

/// Each source given for a program is compiled once, as a shader of its own type: the vertex
/// and fragment sources always, each optional source when given, and no shader type twice.
pub proof fn lemma_source_stages_types<'a>(
    vertex_shader: &'a str,
    tessellation_control_shader: Option<&'a str>,
    tessellation_evaluation_shader: Option<&'a str>,
    geometry_shader: Option<&'a str>,
    fragment_shader: &'a str,
)
    ensures
        ({
            let st = source_stages(
                vertex_shader,
                tessellation_control_shader,
                tessellation_evaluation_shader,
                geometry_shader,
                fragment_shader,
            );
            &&& st.len() == 2 + given_count(
                geometry_shader,
                tessellation_control_shader,
                tessellation_evaluation_shader,
            )
            &&& forall|i: int, j: int|
                0 <= i < j < st.len() ==> (#[trigger] st[i]).1 != (#[trigger] st[j]).1
            &&& st.contains((vertex_shader, gl::VERTEX_SHADER))
            &&& st.contains((fragment_shader, gl::FRAGMENT_SHADER))
            &&& geometry_shader matches Some(g) ==> st.contains((g, gl::GEOMETRY_SHADER))
            &&& tessellation_control_shader matches Some(t) ==> st.contains(
                (t, gl::TESS_CONTROL_SHADER),
            )
            &&& tessellation_evaluation_shader matches Some(t) ==> st.contains(
                (t, gl::TESS_EVALUATION_SHADER),
            )
        }),
{
    let st = source_stages(
        vertex_shader,
        tessellation_control_shader,
        tessellation_evaluation_shader,
        geometry_shader,
        fragment_shader,
    );
    let g = optional_stage(geometry_shader, gl::GEOMETRY_SHADER);
    let tc = optional_stage(tessellation_control_shader, gl::TESS_CONTROL_SHADER);
    let te = optional_stage(tessellation_evaluation_shader, gl::TESS_EVALUATION_SHADER);
    assert(st[0] == (vertex_shader, gl::VERTEX_SHADER));
    assert(st[1] == (fragment_shader, gl::FRAGMENT_SHADER));
    let k1: int = 2 + g.len() as int;
    let k2: int = k1 + tc.len() as int;
    assert(geometry_shader matches Some(x) ==> st[2] == (x, gl::GEOMETRY_SHADER));
    assert(tessellation_control_shader matches Some(x) ==> st[k1] == (x, gl::TESS_CONTROL_SHADER));
    assert(tessellation_evaluation_shader matches Some(x) ==> st[k2] == (x,
    gl::TESS_EVALUATION_SHADER));
    assert forall|i: int| 0 <= i < st.len() implies ({
        let t = (#[trigger] st[i]).1;
        &&& i == 0 ==> t == gl::VERTEX_SHADER
        &&& i == 1 ==> t == gl::FRAGMENT_SHADER
        &&& 2 <= i < k1 ==> t == gl::GEOMETRY_SHADER
        &&& k1 <= i < k2 ==> t == gl::TESS_CONTROL_SHADER
        &&& k2 <= i ==> t == gl::TESS_EVALUATION_SHADER
    }) by {
        if i >= k2 {
            assert(st[i] == te[i - k2]);
        } else if i >= k1 {
            assert(st[i] == tc[i - k1]);
        } else if i >= 2 {
            assert(st[i] == g[i - 2]);
        }
    }
}

/// Whether `r` is what building a program from `input` gives on a backend of version `v` with
/// extensions `e`: an error where transform feedback or point size is requested and not
/// supported, else the plan that compiles the sources (or loads the binary) of the input.
pub open spec fn program_plan_result<'a>(
    v: Version,
    e: ExtensionsList,
    input: ProgramCreationInput<'a>,
    r: Result<ProgramPlan<'a>, ProgramCreationError>,
) -> bool {
    match input {
        ProgramCreationInput::SourceCode {
            vertex_shader,
            tessellation_control_shader,
            tessellation_evaluation_shader,
            geometry_shader,
            fragment_shader,
            transform_feedback_varyings,
            outputs_srgb,
            uses_point_size,
        } => if transform_feedback_varyings is Some && !transform_feedback_supported(v, e) {
            r == Err::<ProgramPlan<'a>, _>(ProgramCreationError::TransformFeedbackNotSupported)
        } else if uses_point_size && !point_size_supported(v) {
            r == Err::<ProgramPlan<'a>, _>(ProgramCreationError::PointSizeNotSupported)
        } else {
            &&& r matches Ok(plan)
            &&& plan.outputs_srgb == outputs_srgb
            &&& plan.uses_point_size == uses_point_size
            &&& plan.build matches ProgramBuild::Shaders {
                shaders,
                has_geometry_shader,
                has_tessellation_control_shader,
                has_tessellation_evaluation_shader,
            }
            &&& shaders@ == source_stages(
                vertex_shader,
                tessellation_control_shader,
                tessellation_evaluation_shader,
                geometry_shader,
                fragment_shader,
            )
            &&& has_geometry_shader == geometry_shader is Some
            &&& has_tessellation_control_shader == tessellation_control_shader is Some
            &&& has_tessellation_evaluation_shader == tessellation_evaluation_shader is Some
        },
        ProgramCreationInput::Binary { outputs_srgb, uses_point_size, .. } => if uses_point_size
            && !point_size_supported(v) {
            r == Err::<ProgramPlan<'a>, _>(ProgramCreationError::PointSizeNotSupported)
        } else {
            &&& r matches Ok(plan)
            &&& plan.build is Binary
            &&& plan.outputs_srgb == outputs_srgb
            &&& plan.uses_point_size == uses_point_size
        },
        ProgramCreationInput::SpirV(_) => false,
    }
}

/// Decides how a program is built from `input` (GLSL sources or a program binary), after
/// checking that the backend supports what the input asks for.
pub fn plan_program<'a, C: CapabilitiesSource>(ctxt: &C, input: &ProgramCreationInput<'a>) -> (r:
    Result<ProgramPlan<'a>, ProgramCreationError>)
    requires
        !(input is SpirV),
    ensures
        program_plan_result(ctxt.version_view(), ctxt.extensions_view(), *input, r),
{
    let v = ctxt.get_version();
    match input {
        ProgramCreationInput::SourceCode {
            vertex_shader,
            tessellation_control_shader,
            tessellation_evaluation_shader,
            geometry_shader,
            fragment_shader,
            transform_feedback_varyings,
            outputs_srgb,
            uses_point_size,
        } => {
            if transform_feedback_varyings.is_some() && !version_ge(v, Api::Gl, 3, 0)
                && !ctxt.get_extensions().gl_ext_transform_feedback {
                return Err(ProgramCreationError::TransformFeedbackNotSupported);
            }
            if *uses_point_size && !version_ge(v, Api::Gl, 3, 0) {
                return Err(ProgramCreationError::PointSizeNotSupported);
            }
            let mut shaders: Vec<(&'a str, u32)> = Vec::new();
            shaders.push((*vertex_shader, gl::VERTEX_SHADER));
            shaders.push((*fragment_shader, gl::FRAGMENT_SHADER));
            if let Some(gs) = geometry_shader {
                shaders.push((*gs, gl::GEOMETRY_SHADER));
            }
            if let Some(ts) = tessellation_control_shader {
                shaders.push((*ts, gl::TESS_CONTROL_SHADER));
            }
            if let Some(ts) = tessellation_evaluation_shader {
                shaders.push((*ts, gl::TESS_EVALUATION_SHADER));
            }
            assert(shaders@ =~= source_stages(
                *vertex_shader,
                *tessellation_control_shader,
                *tessellation_evaluation_shader,
                *geometry_shader,
                *fragment_shader,
            ));
            Ok(
                ProgramPlan {
                    build: ProgramBuild::Shaders {
                        shaders,
                        has_geometry_shader: geometry_shader.is_some(),
                        has_tessellation_control_shader: tessellation_control_shader.is_some(),
                        has_tessellation_evaluation_shader: tessellation_evaluation_shader.is_some(),
                    },
                    outputs_srgb: *outputs_srgb,
                    uses_point_size: *uses_point_size,
                },
            )
        },
        ProgramCreationInput::Binary { outputs_srgb, uses_point_size, .. } => {
            if *uses_point_size && !version_ge(v, Api::Gl, 3, 0) {
                return Err(ProgramCreationError::PointSizeNotSupported);
            }
            Ok(
                ProgramPlan {
                    build: ProgramBuild::Binary,
                    outputs_srgb: *outputs_srgb,
                    uses_point_size: *uses_point_size,
                },
            )
        },
        ProgramCreationInput::SpirV(_) => {
            assert(false);
            Err(ProgramCreationError::ShaderTypeNotSupported)
        },
    }
}

/// The entry points that drive a program object (creation, attaching shaders, linking, link
/// status): the core ones where the version has them, else those of `GL_ARB_shader_objects`.
pub fn program_object_api<C: CapabilitiesSource>(ctxt: &C) -> (r: ShaderObjectApi)
    requires
        shader_objects_available(ctxt.version_view(), ctxt.extensions_view()),
    ensures
        r == (if ver_ge(ctxt.version_view(), Api::Gl, 2, 0) || ver_ge(
            ctxt.version_view(),
            Api::GlEs,
            2,
            0,
        ) {
            ShaderObjectApi::Core
        } else {
            ShaderObjectApi::Arb
        }),
{
    let v = ctxt.get_version();
    if version_ge(v, Api::Gl, 2, 0) || version_ge(v, Api::GlEs, 2, 0) {
        ShaderObjectApi::Core
    } else {
        ShaderObjectApi::Arb
    }
}

/// The entry point that declares the transform feedback varyings of a program.
#[derive(Debug, Clone, Copy, PartialEq, Eq, Structural)]
pub enum TransformFeedbackVaryingsFunction {
    /// `glTransformFeedbackVaryings`.
    Core,
    /// `glTransformFeedbackVaryingsEXT`.
    Ext,
}

/// Returns the entry point that declares transform feedback varyings, and the enumerant of
/// `mode` that it takes: the core ones from OpenGL 3.0, else those of
/// `GL_EXT_transform_feedback`.
pub fn transform_feedback_varyings_call<C: CapabilitiesSource>(
    ctxt: &C,
    mode: TransformFeedbackMode,
) -> (r: (TransformFeedbackVaryingsFunction, u32))
    requires
        transform_feedback_supported(ctxt.version_view(), ctxt.extensions_view()),
    ensures
        ver_ge(ctxt.version_view(), Api::Gl, 3, 0) ==> r == (
            TransformFeedbackVaryingsFunction::Core,
            match mode {
                TransformFeedbackMode::Interleaved => gl::INTERLEAVED_ATTRIBS,
                TransformFeedbackMode::Separate => gl::SEPARATE_ATTRIBS,
            },
        ),
        !ver_ge(ctxt.version_view(), Api::Gl, 3, 0) ==> r == (
            TransformFeedbackVaryingsFunction::Ext,
            match mode {
                TransformFeedbackMode::Interleaved => gl::INTERLEAVED_ATTRIBS_EXT,
                TransformFeedbackMode::Separate => gl::SEPARATE_ATTRIBS_EXT,
            },
        ),
{
    if version_ge(ctxt.get_version(), Api::Gl, 3, 0) {
        let m = match mode {
            TransformFeedbackMode::Interleaved => gl::INTERLEAVED_ATTRIBS,
            TransformFeedbackMode::Separate => gl::SEPARATE_ATTRIBS,
        };
        (TransformFeedbackVaryingsFunction::Core, m)
    } else {
        let m = match mode {
            TransformFeedbackMode::Interleaved => gl::INTERLEAVED_ATTRIBS_EXT,
            TransformFeedbackMode::Separate => gl::SEPARATE_ATTRIBS_EXT,
        };
        (TransformFeedbackVaryingsFunction::Ext, m)
    }
}

/// The stage whose output type gives the primitives that a program outputs.
#[derive(Debug, Clone, Copy, PartialEq, Eq, Structural)]
pub enum OutputPrimitivesSource {
    /// The output type of the geometry shader.
    GeometryShader,
    /// The primitive mode of the tessellation evaluation shader.
    TessellationEvaluationShader,
}

/// Returns the stage to query for the primitives that a program outputs: the geometry shader
/// if there is one, else the tessellation evaluation shader if there is one, else none.
pub fn output_primitives_source(has_geometry_shader: bool, has_tessellation_evaluation_shader: bool) -> (r:
    Option<OutputPrimitivesSource>)
    ensures
        r == (if has_geometry_shader {
            Some(OutputPrimitivesSource::GeometryShader)
        } else if has_tessellation_evaluation_shader {
            Some(OutputPrimitivesSource::TessellationEvaluationShader)
        } else {
            None
        }),
{
    if has_geometry_shader {
        Some(OutputPrimitivesSource::GeometryShader)
    } else if has_tessellation_evaluation_shader {
        Some(OutputPrimitivesSource::TessellationEvaluationShader)
    } else {
        None
    }
}

/// Whether `r` is what linking gives, from the link status that the backend reports, the
/// error that it raised (read when the status is 0) and its log (read when that error is
/// `GL_NO_ERROR`).
pub open spec fn link_outcome(
    link_status: i32,
    gl_error: u32,
    log: Seq<u8>,
    r: Result<(), ProgramCreationError>,
) -> bool {
    if link_status != 0 {
        r == Ok::<(), ProgramCreationError>(())
    } else {
        r matches Err(ProgramCreationError::LinkingError(msg)) && msg@ == (if gl_error
            == gl::NO_ERROR {
            decode_utf8(log)
        } else if gl_error == gl::INVALID_VALUE {
            "glLinkProgram triggered GL_INVALID_VALUE"@
        } else if gl_error == gl::INVALID_OPERATION {
            "glLinkProgram triggered GL_INVALID_OPERATION"@
        } else {
            "glLinkProgram triggered an unknown error"@
        })
    }
}

/// The result of linking a program: success when the link status is not 0, else a linking
/// error that carries the error the backend raised or, if it raised none, its log.
pub fn program_link_outcome(link_status: i32, gl_error: u32, log: Vec<u8>) -> (r: Result<
    (),
    ProgramCreationError,
>)
    requires
        link_status == 0 && gl_error == gl::NO_ERROR ==> valid_utf8(log@),
    ensures
        link_outcome(link_status, gl_error, log@, r),
{
    if link_status != 0 {
        return Ok(());
    }
    if gl_error == gl::INVALID_VALUE {
        return Err(
            ProgramCreationError::LinkingError("glLinkProgram triggered GL_INVALID_VALUE".to_owned()),
        );
    } else if gl_error == gl::INVALID_OPERATION {
        return Err(
            ProgramCreationError::LinkingError(
                "glLinkProgram triggered GL_INVALID_OPERATION".to_owned(),
            ),
        );
    } else if gl_error != gl::NO_ERROR {
        return Err(
            ProgramCreationError::LinkingError("glLinkProgram triggered an unknown error".to_owned()),
        );
    }
    match string_from_utf8(log) {
        Some(msg) => Err(ProgramCreationError::LinkingError(msg)),
        None => {
            assert(false);
            Err(ProgramCreationError::LinkingError(String::new()))
        },
    }
}

/// Reads the header of a program binary: the stages that the program has, or
/// `BinaryHeaderError` where the header is not one that this crate writes.
pub fn binary_program_stages(binary: &Binary) -> (r: Result<(bool, bool, bool), ProgramCreationError>)
    requires
        binary.content@.len() > 0,
    ensures
        r == (match header_flags(binary.content@[0]) {
            Some(flags) => Ok(flags),
            None => Err(ProgramCreationError::BinaryHeaderError),
        }),
{
    match process_glium_header(binary.content.as_slice()) {
        Some(flags) => Ok(flags),
        None => Err(ProgramCreationError::BinaryHeaderError),
    }
}

/// The state of the backend that using a program depends on.
#[derive(Debug, Clone, Copy, PartialEq, Eq, Structural)]
pub struct ProgramState {
    /// The program in use.
    pub program: Handle,
    /// Whether `GL_PROGRAM_POINT_SIZE` is enabled, as recorded.
    pub program_point_size: bool,
    /// Whether `GL_FRAMEBUFFER_SRGB` is enabled, as recorded.
    pub framebuffer_srgb: bool,
}

/// The calls that start using a program.
#[derive(Debug, Clone, Copy, PartialEq, Eq, Structural)]
pub struct UseProgramCalls {
    /// `Some(true)` to enable `GL_PROGRAM_POINT_SIZE`, `Some(false)` to disable it.
    pub program_point_size: Option<bool>,
    /// `Some(true)` to enable `GL_FRAMEBUFFER_SRGB`, `Some(false)` to disable it.
    pub framebuffer_srgb: Option<bool>,
    /// The program to make current (with `glUseProgram` for a `Handle::Id`, with
    /// `glUseProgramObjectARB` for a `Handle::Handle`), if it is not already.
    pub use_program: Option<Handle>,
}

/// Whether a backend of version `v` with extensions `e` can switch the conversion of colors to
/// sRGB on and off.
pub open spec fn srgb_switch_supported(v: Version, e: ExtensionsList) -> bool {
    ver_ge(v, Api::Gl, 3, 0) || e.gl_arb_framebuffer_srgb || e.gl_ext_framebuffer_srgb
        || e.gl_ext_srgb_write_control
}

/// The calls that start using `program` from state `st`; see `use_program`.
pub open spec fn use_program_calls(
    v: Version,
    e: ExtensionsList,
    st: ProgramState,
    program: Handle,
    uses_point_size: bool,
    outputs_srgb: bool,
) -> UseProgramCalls {
    UseProgramCalls {
        program_point_size: if uses_point_size && !st.program_point_size {
            Some(true)
        } else if !uses_point_size && st.program_point_size {
            Some(false)
        } else {
            None
        },
        framebuffer_srgb: if srgb_switch_supported(v, e) && st.framebuffer_srgb == outputs_srgb {
            Some(!outputs_srgb)
        } else {
            None
        },
        use_program: if st.program != program {
            Some(program)
        } else {
            None
        },
    }
}

/// The state after starting to use `program` from state `st`; see `use_program`.
pub open spec fn use_program_state(
    v: Version,
    e: ExtensionsList,
    st: ProgramState,
    program: Handle,
    outputs_srgb: bool,
) -> ProgramState {
    ProgramState {
        program,
        program_point_size: st.program_point_size,
        framebuffer_srgb: if srgb_switch_supported(v, e) {
            !outputs_srgb
        } else {
            st.framebuffer_srgb
        },
    }
}

/// Decides the calls that start using `program`, which sets the size of points if
/// `uses_point_size` and outputs sRGB colors if `outputs_srgb`, and updates `state`: the
/// conversion to sRGB is enabled exactly when the program does not output sRGB (where the
/// backend can switch it), and the program becomes the one in use. The recorded setting of
/// `GL_PROGRAM_POINT_SIZE` is left as it was, though the call that switches it is made.
pub fn use_program<C: CapabilitiesSource>(
    ctxt: &C,
    state: &mut ProgramState,
    program: Handle,
    uses_point_size: bool,
    outputs_srgb: bool,
) -> (r: UseProgramCalls)
    ensures
        r == use_program_calls(
            ctxt.version_view(),
            ctxt.extensions_view(),
            *old(state),
            program,
            uses_point_size,
            outputs_srgb,
        ),
        *final(state) == use_program_state(
            ctxt.version_view(),
            ctxt.extensions_view(),
            *old(state),
            program,
            outputs_srgb,
        ),
{
    let program_point_size = if uses_point_size && !state.program_point_size {
        Some(true)
    } else if !uses_point_size && state.program_point_size {
        Some(false)
    } else {
        None
    };
    let e = ctxt.get_extensions();
    let mut framebuffer_srgb = None;
    if version_ge(ctxt.get_version(), Api::Gl, 3, 0) || e.gl_arb_framebuffer_srgb
        || e.gl_ext_framebuffer_srgb || e.gl_ext_srgb_write_control {
        if state.framebuffer_srgb == outputs_srgb {
            state.framebuffer_srgb = !outputs_srgb;
            framebuffer_srgb = Some(!outputs_srgb);
        }
    }
    let mut use_call = None;
    if state.program != program {
        use_call = Some(program);
        state.program = program;
    }
    UseProgramCalls { program_point_size, framebuffer_srgb, use_program: use_call }
}

/// Using the same program a second time makes the program current and switches the sRGB
/// conversion only once: the second use calls neither.
pub proof fn lemma_use_program_twice(
    v: Version,
    e: ExtensionsList,
    st: ProgramState,
    program: Handle,
    uses_point_size: bool,
    outputs_srgb: bool,
)
    ensures
        ({
            let after = use_program_state(v, e, st, program, outputs_srgb);
            let again = use_program_calls(v, e, after, program, uses_point_size, outputs_srgb);
            &&& again.use_program is None
            &&& again.framebuffer_srgb is None
            &&& use_program_state(v, e, after, program, outputs_srgb) == after
        }),
{
}

/// Before program `id` is deleted, returns the program to make current in its place, if it is
/// the one in use (no program: name 0, of the same kind of handle), and updates `state`.
pub fn unuse_deleted_program(state: &mut ProgramState, id: Handle) -> (r: Option<Handle>)
    ensures
        r == (if old(state).program == id {
            Some(
                match id {
                    Handle::Id(_) => Handle::Id(0),
                    Handle::Handle(_) => Handle::Handle(0),
                },
            )
        } else {
            None
        }),
        final(state).program == (match r {
            Some(h) => h,
            None => old(state).program,
        }),
        final(state).program_point_size == old(state).program_point_size,
        final(state).framebuffer_srgb == old(state).framebuffer_srgb,
{
    if state.program == id {
        let none = match id {
            Handle::Id(_) => Handle::Id(0),
            Handle::Handle(_) => Handle::Handle(0),
        };
        state.program = none;
        Some(none)
    } else {
        None
    }
}

/// Whether a backend of version `v` with extensions `e` can hand out the binary of a program.
pub open spec fn binary_retrieval_supported(v: Version, e: ExtensionsList) -> bool {
    ver_ge(v, Api::Gl, 4, 1) || e.gl_arb_get_programy_binary
}

/// Checks, before the binary of a program is read, that the backend can hand it out and that
/// it supplies at least one binary format (`num_supported_formats`, which is read only where
/// the backend can hand binaries out).
pub fn check_binary_retrieval<C: CapabilitiesSource>(ctxt: &C, num_supported_formats: i32) -> (r:
    Result<(), GetBinaryError>)
    ensures
        r == (if !binary_retrieval_supported(ctxt.version_view(), ctxt.extensions_view()) {
            Err(GetBinaryError::NotSupported)
        } else if num_supported_formats == 0 {
            Err(GetBinaryError::NoFormats)
        } else {
            Ok(())
        }),
{
    if !(version_ge(ctxt.get_version(), Api::Gl, 4, 1)
        || ctxt.get_extensions().gl_arb_get_programy_binary) {
        Err(GetBinaryError::NotSupported)
    } else if num_supported_formats == 0 {
        Err(GetBinaryError::NoFormats)
    } else {
        Ok(())
    }
}

/// Builds the binary of a program from what the backend gave (its format and its data), with
/// the header that records which optional stages the program has in front of the data.
pub fn program_binary(
    format: u32,
    data: Vec<u8>,
    has_geometry_shader: bool,
    has_tessellation_control_shader: bool,
    has_tessellation_evaluation_shader: bool,
) -> (r: Binary)
    ensures
        r.format == format,
        r.content@ == seq![
            header_byte(
                has_geometry_shader,
                has_tessellation_control_shader,
                has_tessellation_evaluation_shader,
            ),
        ] + data@,
{
    let mut content = data;
    attach_glium_header(
        has_geometry_shader,
        has_tessellation_control_shader,
        has_tessellation_evaluation_shader,
        &mut content,
    );
    Binary { format, content }
}

/// Reading the stages of a binary that `program_binary` built gives back the stages that it was
/// built with, whatever data the backend gave.
pub proof fn lemma_program_binary_stages(
    data: Seq<u8>,
    has_geometry_shader: bool,
    has_tessellation_control_shader: bool,
    has_tessellation_evaluation_shader: bool,
)
    ensures
        header_flags(
            (seq![
                header_byte(
                    has_geometry_shader,
                    has_tessellation_control_shader,
                    has_tessellation_evaluation_shader,
                ),
            ] + data)[0],
        ) == Some(
            (has_geometry_shader, has_tessellation_control_shader, has_tessellation_evaluation_shader),
        ),
{
    lemma_header_roundtrip(
        has_geometry_shader,
        has_tessellation_control_shader,
        has_tessellation_evaluation_shader,
    );
}

} // verus!
