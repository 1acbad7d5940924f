//! Which shader stages a backend can compile, and the decisions taken around the compilation
//! of one shader: the checks before it, the entry points it goes through, and the error that a
//! failed compilation gives.

use vstd::prelude::*;
use vstd::utf8::{decode_utf8, valid_utf8};

use crate::gl;
use crate::program::{ProgramCreationError, ShaderType};
use crate::version::{Api, CapabilitiesSource, ExtensionsList, Version, ver_ge, version_ge};
use crate::Handle;

verus! {

/// The shader types that this crate knows of.
pub open spec fn known_shader_type(shader_type: u32) -> bool {
    shader_type == gl::VERTEX_SHADER || shader_type == gl::FRAGMENT_SHADER || shader_type
        == gl::GEOMETRY_SHADER || shader_type == gl::TESS_CONTROL_SHADER || shader_type
        == gl::TESS_EVALUATION_SHADER || shader_type == gl::COMPUTE_SHADER
}

/// Whether a backend of version `v` with extensions `e` supports shaders of type
/// `shader_type`: vertex and fragment shaders always, geometry shaders from OpenGL 3.2 or
/// OpenGL ES 3.2 or with one of the geometry shader extensions, tessellation shaders from
/// OpenGL 4.0 or OpenGL ES 3.2 or with one of the tessellation extensions, compute shaders from
/// OpenGL 4.3 or OpenGL ES 3.1 or with `GL_ARB_compute_shader`.
pub open spec fn shader_type_supported(v: Version, e: ExtensionsList, shader_type: u32) -> bool {
    if shader_type == gl::GEOMETRY_SHADER {
        ver_ge(v, Api::Gl, 3, 2) || ver_ge(v, Api::GlEs, 3, 2) || e.gl_arb_geometry_shader4
            || e.gl_ext_geometry_shader4 || e.gl_ext_geometry_shader || e.gl_oes_geometry_shader
    } else if shader_type == gl::TESS_CONTROL_SHADER || shader_type == gl::TESS_EVALUATION_SHADER {
        ver_ge(v, Api::Gl, 4, 0) || ver_ge(v, Api::GlEs, 3, 2) || e.gl_arb_tessellation_shader
            || e.gl_oes_tessellation_shader
    } else if shader_type == gl::COMPUTE_SHADER {
        ver_ge(v, Api::Gl, 4, 3) || ver_ge(v, Api::GlEs, 3, 1) || e.gl_arb_compute_shader
    } else {
        true
    }
}

/// Every backend supports vertex and fragment shaders, and a shader type that a backend
/// supports stays supported on a later version of the same API with the same extensions.
pub proof fn lemma_shader_type_support(v: Version, v2: Version, e: ExtensionsList, shader_type: u32)
    ensures
        shader_type_supported(v, e, gl::VERTEX_SHADER),
        shader_type_supported(v, e, gl::FRAGMENT_SHADER),
        v2.at_least(v) && shader_type_supported(v, e, shader_type) ==> shader_type_supported(
            v2,
            e,
            shader_type,
        ),
{
}

/// Returns true if the backend supports shaders of type `shader_type`.
pub fn check_shader_type_compatibility<C: CapabilitiesSource>(ctxt: &C, shader_type: u32) -> (r:
    bool)
    requires
        known_shader_type(shader_type),
    ensures
        r == shader_type_supported(ctxt.version_view(), ctxt.extensions_view(), shader_type),
{
    let v = ctxt.get_version();
    let e = ctxt.get_extensions();
    if shader_type == gl::GEOMETRY_SHADER {
        version_ge(v, Api::Gl, 3, 2) || version_ge(v, Api::GlEs, 3, 2) || e.gl_arb_geometry_shader4
            || e.gl_ext_geometry_shader4 || e.gl_ext_geometry_shader || e.gl_oes_geometry_shader
    } else if shader_type == gl::TESS_CONTROL_SHADER || shader_type == gl::TESS_EVALUATION_SHADER {
        version_ge(v, Api::Gl, 4, 0) || version_ge(v, Api::GlEs, 3, 2)
            || e.gl_arb_tessellation_shader || e.gl_oes_tessellation_shader
    } else if shader_type == gl::COMPUTE_SHADER {
        version_ge(v, Api::Gl, 4, 3) || version_ge(v, Api::GlEs, 3, 1) || e.gl_arb_compute_shader
    } else {
        true
    }
}

/// The family of entry points through which a shader object is created, given its source and
/// compiled.
#[derive(Debug, Clone, Copy, PartialEq, Eq, Structural)]
pub enum ShaderObjectApi {
    /// `glCreateShader`, `glShaderSource`, `glCompileShader` and `glGetShaderiv`.
    Core,
    /// The `GL_ARB_shader_objects` entry points: `glCreateShaderObjectARB` and the others.
    Arb,
}

/// Whether a backend of version `v` with extensions `e` has entry points for shader objects.
pub open spec fn shader_objects_available(v: Version, e: ExtensionsList) -> bool {
    ver_ge(v, Api::Gl, 2, 0) || ver_ge(v, Api::GlEs, 2, 0) || e.gl_arb_shader_objects
}

/// What the checks before compiling a shader of type `shader_type` give, on a backend of
/// version `v` with extensions `e` that knows `glsl_versions` versions of GLSL: no compiler at
/// all, a shader type that is not supported, or the entry points to use (the core ones where
/// the version has them).
pub open spec fn prepare_shader_result(
    v: Version,
    e: ExtensionsList,
    glsl_versions: nat,
    shader_type: u32,
) -> Result<ShaderObjectApi, ProgramCreationError> {
    if glsl_versions == 0 {
        Err(ProgramCreationError::CompilationNotSupported)
    } else if !shader_type_supported(v, e, shader_type) {
        Err(ProgramCreationError::ShaderTypeNotSupported)
    } else if ver_ge(v, Api::Gl, 2, 0) || ver_ge(v, Api::GlEs, 2, 0) {
        Ok(ShaderObjectApi::Core)
    } else {
        Ok(ShaderObjectApi::Arb)
    }
}

/// The checks before compiling a shader of type `shader_type`, given the versions of GLSL that
/// the backend supports: returns the entry points to go through, or the error to report.
pub fn prepare_shader<C: CapabilitiesSource>(
    ctxt: &C,
    supported_glsl_versions: &[Version],
    shader_type: u32,
) -> (r: Result<ShaderObjectApi, ProgramCreationError>)
    requires
        known_shader_type(shader_type),
        supported_glsl_versions@.len() > 0 && shader_type_supported(
            ctxt.version_view(),
            ctxt.extensions_view(),
            shader_type,
        ) ==> shader_objects_available(ctxt.version_view(), ctxt.extensions_view()),
    ensures
        r == prepare_shader_result(
            ctxt.version_view(),
            ctxt.extensions_view(),
            supported_glsl_versions@.len(),
            shader_type,
        ),
{
    if supported_glsl_versions.len() == 0 {
        return Err(ProgramCreationError::CompilationNotSupported);
    }
    if !check_shader_type_compatibility(ctxt, shader_type) {
        return Err(ProgramCreationError::ShaderTypeNotSupported);
    }
    let v = ctxt.get_version();
    if version_ge(v, Api::Gl, 2, 0) || version_ge(v, Api::GlEs, 2, 0) {
        Ok(ShaderObjectApi::Core)
    } else {
        Ok(ShaderObjectApi::Arb)
    }
}

/// Checks the name that the backend gave to a new shader object: zero means that it could not
/// create a shader of the requested type.
pub fn check_shader_object(id: Handle) -> (r: Result<Handle, ProgramCreationError>)
    ensures
        r == (if id == Handle::Id(0) || id == Handle::Handle(0) {
            Err(ProgramCreationError::ShaderTypeNotSupported)
        } else {
            Ok(id)
        }),
{
    if id == Handle::Id(0) || id == Handle::Handle(0) {
        Err(ProgramCreationError::ShaderTypeNotSupported)
    } else {
        Ok(id)
    }
}

/// Decodes `bytes` as UTF-8 by `String::from_utf8`: by its documentation, the call fails
/// exactly when the bytes are not valid UTF-8, and otherwise gives the string whose encoding they
/// are.
#[verifier::external_body]
pub(crate) fn string_from_utf8(bytes: Vec<u8>) -> (r: Option<String>)
    ensures
        r is Some <==> valid_utf8(bytes@),
        r matches Some(s) ==> s@ == decode_utf8(bytes@),
{
    match String::from_utf8(bytes) {
        Ok(s) => Some(s),
        Err(_) => None,
    }
}

/// The message of a compilation error whose log is not valid UTF-8.
pub open spec fn undecodable_log_message() -> Seq<char> {
    "Could not convert the log message to UTF-8"@
}

/// What compiling a shader of type `shader_type` gives, from the compile status that the
/// backend reports and, where that status is not 1, the log of the compiler.
pub open spec fn compilation_outcome(
    shader_type: u32,
    compile_status: i32,
    log: Seq<u8>,
    r: Result<(), ProgramCreationError>,
) -> bool {
    if compile_status == 1 {
        r == Ok::<(), ProgramCreationError>(())
    } else {
        &&& r matches Err(ProgramCreationError::CompilationError(msg, ty))
        &&& ty.glenum() == shader_type
        &&& valid_utf8(log) ==> msg@ == decode_utf8(log)
        &&& !valid_utf8(log) ==> msg@ == undecodable_log_message()
    }
}

/// The result of compiling a shader of type `shader_type`: success when the compile status is
/// 1, else a compilation error that carries the log of the compiler (or a fixed message where
/// the log is not UTF-8) and the type of the shader.
pub fn shader_compilation_outcome(shader_type: u32, compile_status: i32, log: Vec<u8>) -> (r: Result<
    (),
    ProgramCreationError,
>)
    requires
        known_shader_type(shader_type),
    ensures
        compilation_outcome(shader_type, compile_status, log@, r),
{
    if compile_status == 1 {
        return Ok(());
    }
    let ty = ShaderType::from_opengl_type(shader_type);
    match string_from_utf8(log) {
        Some(msg) => Err(ProgramCreationError::CompilationError(msg, ty)),
        None => {
            let msg = "Could not convert the log message to UTF-8".to_owned();
            Err(ProgramCreationError::CompilationError(msg, ty))
        },
    }
}

} // verus!
