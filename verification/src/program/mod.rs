//! Items related to creating an OpenGL program.

pub mod binary_header;
pub mod program;
pub mod reflection;
pub mod shader;

use vstd::prelude::*;
use vstd::string::StringExecFns;

use crate::gl;
use crate::version::{Api, CapabilitiesSource, ExtensionsList, Version, ver_ge, version_ge};
use self::shader::{check_shader_type_compatibility, shader_type_supported};

pub use self::reflection::{
    Uniform, UniformBlock, UniformBlockMember, Attribute, TransformFeedbackBuffer,
    TransformFeedbackVarying, TransformFeedbackMode, OutputPrimitives, UniformType, AttributeType,
};

verus! {

/// Returns true if the backend supports geometry shaders.
pub fn is_geometry_shader_supported<C: CapabilitiesSource>(ctxt: &C) -> (r: bool)
    ensures
        r == shader_type_supported(ctxt.version_view(), ctxt.extensions_view(), gl::GEOMETRY_SHADER),
{
    check_shader_type_compatibility(ctxt, gl::GEOMETRY_SHADER)
}

/// Returns true if the backend supports tessellation shaders.
pub fn is_tessellation_shader_supported<C: CapabilitiesSource>(ctxt: &C) -> (r: bool)
    ensures
        r == shader_type_supported(
            ctxt.version_view(),
            ctxt.extensions_view(),
            gl::TESS_CONTROL_SHADER,
        ),
{
    check_shader_type_compatibility(ctxt, gl::TESS_CONTROL_SHADER)
}

/// Returns true if the backend supports compute shaders.
pub fn is_compute_shader_supported<C: CapabilitiesSource>(ctxt: &C) -> (r: bool)
    ensures
        r == shader_type_supported(ctxt.version_view(), ctxt.extensions_view(), gl::COMPUTE_SHADER),
{
    check_shader_type_compatibility(ctxt, gl::COMPUTE_SHADER)
}

/// Whether a backend of version `v` with extensions `e` can create and retrieve program
/// binaries.
pub open spec fn binary_supported(v: Version, e: ExtensionsList) -> bool {
    ver_ge(v, Api::Gl, 4, 1) || ver_ge(v, Api::GlEs, 2, 0) || e.gl_arb_get_programy_binary
}

/// Returns true if the backend supports creating and retrieving binary format.
pub fn is_binary_supported<C: CapabilitiesSource>(ctxt: &C) -> (r: bool)
    ensures
        r == binary_supported(ctxt.version_view(), ctxt.extensions_view()),
{
    version_ge(ctxt.get_version(), Api::Gl, 4, 1) || version_ge(ctxt.get_version(), Api::GlEs, 2, 0)
        || ctxt.get_extensions().gl_arb_get_programy_binary
}

/// Whether a backend of version `v` with extensions `e` supports shader subroutines.
pub open spec fn subroutine_supported(v: Version, e: ExtensionsList) -> bool {
    ver_ge(v, Api::Gl, 4, 0) || e.gl_arb_shader_subroutine
}

/// Whether the driver is one whose subroutine queries do not work although it announces
/// subroutines: on Windows, a driver whose vendor is "NVIDIA Corporation", at OpenGL 4.0 or
/// below.
pub open spec fn subroutine_queries_broken(v: Version, windows: bool, vendor: Seq<char>) -> bool {
    windows && v.at_most(Version(Api::Gl, 4, 0)) && vendor == "NVIDIA Corporation"@
}

/// Returns true if the backend supports shader subroutines, given whether the program runs on
/// Windows and the vendor that the driver reports: subroutines are reported unsupported where
/// the driver's subroutine queries are known not to work.
pub fn is_subroutine_supported<C: CapabilitiesSource>(ctxt: &C, windows: bool, vendor: &String) -> (r:
    bool)
    ensures
        r == (!subroutine_queries_broken(ctxt.version_view(), windows, vendor@) && subroutine_supported(
            ctxt.version_view(),
            ctxt.extensions_view(),
        )),
{
    if windows && ctxt.get_version().le(&Version(Api::Gl, 4, 0))
        && *vendor == String::from_str("NVIDIA Corporation") {
        return false;
    }
    version_ge(ctxt.get_version(), Api::Gl, 4, 0) || ctxt.get_extensions().gl_arb_shader_subroutine
}

/// A stage of a program; used in `ProgramCreationError::CompilationError` to say which stage
/// failed to compile.
#[derive(Copy, Clone, Debug, PartialEq, Eq, Structural)]
pub enum ShaderType {
    /// Vertex shader, maps to `gl::VERTEX_SHADER`.
    Vertex,
    /// Geometry shader, maps to `gl::GEOMETRY_SHADER`.
    Geometry,
    /// Fragment shader, maps to `gl::FRAGMENT_SHADER`.
    Fragment,
    /// Tesselation control shader, maps to `gl::TESS_CONTROL_SHADER`.
    TesselationControl,
    /// Tesselation evaluation shader, maps to `gl::TESS_EVALUATION_SHADER`.
    TesselationEvaluation,
    /// Compute shader, maps to `gl::COMPUTE_SHADER`.
    Compute,
}

impl ShaderType {
    /// The OpenGL enumerant of this shader type.
    pub open spec fn glenum(self) -> u32 {
        match self {
            ShaderType::Vertex => gl::VERTEX_SHADER,
            ShaderType::Geometry => gl::GEOMETRY_SHADER,
            ShaderType::Fragment => gl::FRAGMENT_SHADER,
            ShaderType::TesselationControl => gl::TESS_CONTROL_SHADER,
            ShaderType::TesselationEvaluation => gl::TESS_EVALUATION_SHADER,
            ShaderType::Compute => gl::COMPUTE_SHADER,
        }
    }

    /// Returns the OpenGL enumerant corresponding to this shader type.
    pub fn to_opengl_type(self) -> (r: u32)
        ensures
            r == self.glenum(),
    {
        match self {
            ShaderType::Vertex => gl::VERTEX_SHADER,
            ShaderType::Geometry => gl::GEOMETRY_SHADER,
            ShaderType::Fragment => gl::FRAGMENT_SHADER,
            ShaderType::TesselationControl => gl::TESS_CONTROL_SHADER,
            ShaderType::TesselationEvaluation => gl::TESS_EVALUATION_SHADER,
            ShaderType::Compute => gl::COMPUTE_SHADER,
        }
    }

    /// Returns the shader type corresponding to an OpenGL enumerant, which must be one of
    /// the six shader types.
    pub fn from_opengl_type(gl_type: u32) -> (r: ShaderType)
        requires
            shader::known_shader_type(gl_type),
        ensures
            r.glenum() == gl_type,
    {
        if gl_type == gl::VERTEX_SHADER {
            ShaderType::Vertex
        } else if gl_type == gl::GEOMETRY_SHADER {
            ShaderType::Geometry
        } else if gl_type == gl::FRAGMENT_SHADER {
            ShaderType::Fragment
        } else if gl_type == gl::TESS_CONTROL_SHADER {
            ShaderType::TesselationControl
        } else if gl_type == gl::TESS_EVALUATION_SHADER {
            ShaderType::TesselationEvaluation
        } else {
            ShaderType::Compute
        }
    }
}

/// Shader types and their OpenGL enumerants correspond one to one: every shader type has a
/// known enumerant, and distinct types have distinct enumerants.
pub proof fn lemma_shader_type_glenum_bijective(a: ShaderType, b: ShaderType)
    ensures
        shader::known_shader_type(a.glenum()),
        a.glenum() == b.glenum() ==> a == b,
{
}

/// Error that can be triggered when creating a `Program`.
#[derive(Clone, Debug)]
pub enum ProgramCreationError {
    /// Error while compiling one of the shaders.
    CompilationError(String, ShaderType),
    /// Error while linking the program.
    LinkingError(String),
    /// One of the requested shader types is not supported by the backend.
    ///
    /// Usually the case for geometry shaders.
    ShaderTypeNotSupported,
    /// The OpenGL implementation doesn't provide a compiler.
    CompilationNotSupported,
    /// You have requested transform feedback varyings, but transform feedback is not supported
    /// by the backend.
    TransformFeedbackNotSupported,
    /// You have requested point size setting from the shader, but it's not supported by the
    /// backend.
    PointSizeNotSupported,
    /// The header that this crate puts in front of program binaries was not found or is
    /// corrupt.
    BinaryHeaderError,
}

impl ProgramCreationError {
    /// The text that `description` returns.
    pub open spec fn description_text(&self) -> Seq<char> {
        match self {
            ProgramCreationError::CompilationError(_, typ) => match typ {
                ShaderType::Vertex => "Compilation error in vertex shader"@,
                ShaderType::Geometry => "Compilation error in geometry shader"@,
                ShaderType::Fragment => "Compilation error in fragment shader"@,
                ShaderType::TesselationControl => "Compilation error in tesselation control shader"@,
                ShaderType::TesselationEvaluation => "Compilation error in tesselation evaluation shader"@,
                ShaderType::Compute => "Compilation error in compute shader"@,
            },
            ProgramCreationError::LinkingError(_) => "Error while linking shaders together"@,
            ProgramCreationError::ShaderTypeNotSupported => "One of the request shader type is not supported by the backend"@,
            ProgramCreationError::CompilationNotSupported => "The backend doesn't support shaders compilation"@,
            ProgramCreationError::TransformFeedbackNotSupported => "Transform feedback is not supported by the backend."@,
            ProgramCreationError::PointSizeNotSupported => "Point size is not supported by the backend."@,
            ProgramCreationError::BinaryHeaderError => "The glium-specific binary header was not found or is corrupt."@,
        }
    }

    /// Returns the description of the error, without the log of the compiler or linker.
    pub fn description(&self) -> (r: &'static str)
        ensures
            r@ == self.description_text(),
    {
        match self {
            ProgramCreationError::CompilationError(_, typ) => match typ {
                ShaderType::Vertex => "Compilation error in vertex shader",
                ShaderType::Geometry => "Compilation error in geometry shader",
                ShaderType::Fragment => "Compilation error in fragment shader",
                ShaderType::TesselationControl => "Compilation error in tesselation control shader",
                ShaderType::TesselationEvaluation => "Compilation error in tesselation evaluation shader",
                ShaderType::Compute => "Compilation error in compute shader",
            },
            ProgramCreationError::LinkingError(_) => "Error while linking shaders together",
            ProgramCreationError::ShaderTypeNotSupported => "One of the request shader type is not supported by the backend",
            ProgramCreationError::CompilationNotSupported => "The backend doesn't support shaders compilation",
            ProgramCreationError::TransformFeedbackNotSupported => "Transform feedback is not supported by the backend.",
            ProgramCreationError::PointSizeNotSupported => "Point size is not supported by the backend.",
            ProgramCreationError::BinaryHeaderError => "The glium-specific binary header was not found or is corrupt.",
        }
    }
}

impl ProgramCreationError {
    /// The text that displays the error: its description, followed by the log of the compiler
    /// or linker where there is one.
    pub open spec fn display_text(&self) -> Seq<char> {
        match self {
            ProgramCreationError::CompilationError(log, _) => self.description_text() + ": "@ + log@,
            ProgramCreationError::LinkingError(log) => self.description_text() + ": "@ + log@,
            _ => self.description_text(),
        }
    }

    /// Returns the log of the compiler or linker, if the error carries one.
    pub fn detail(&self) -> (r: Option<String>)
        ensures
            match self {
                ProgramCreationError::CompilationError(log, _) => r matches Some(d) && d@ == log@,
                ProgramCreationError::LinkingError(log) => r matches Some(d) && d@ == log@,
                _ => r is None,
            },
    {
        match self {
            ProgramCreationError::CompilationError(log, _) => Some(log.clone()),
            ProgramCreationError::LinkingError(log) => Some(log.clone()),
            _ => None,
        }
    }

    /// Returns the text that displays the error.
    pub fn to_string(&self) -> (r: String)
        ensures
            r@ == self.display_text(),
    {
        let mut text = String::from_str(self.description());
        match self {
            ProgramCreationError::CompilationError(log, _) => {
                text.append(": ");
                text.append(log.as_str());
            },
            ProgramCreationError::LinkingError(log) => {
                text.append(": ");
                text.append(log.as_str());
            },
            _ => {},
        }
        text
    }
}

/// Error type that is returned when choosing among several versions of a program.
#[derive(Clone, Debug)]
pub enum ProgramChooserCreationError {
    /// No available version has been found.
    NoVersion,
    /// A version has been found but it triggered the given error.
    ProgramCreationError(ProgramCreationError),
}

impl ProgramChooserCreationError {
    /// Returns the error that caused this one: the error of the version that was found, if
    /// one was.
    pub fn source(&self) -> (r: Option<&ProgramCreationError>)
        ensures
            r == (match self {
                ProgramChooserCreationError::ProgramCreationError(err) => Some(err),
                ProgramChooserCreationError::NoVersion => None,
            }),
    {
        match self {
            ProgramChooserCreationError::ProgramCreationError(err) => Some(err),
            ProgramChooserCreationError::NoVersion => None,
        }
    }
}

impl ProgramChooserCreationError {
    /// The text that displays the error: that of the error of the version found, or a fixed
    /// message where no version was found.
    pub open spec fn display_text(&self) -> Seq<char> {
        match self {
            ProgramChooserCreationError::ProgramCreationError(err) => err.display_text(),
            ProgramChooserCreationError::NoVersion => "No version of the program has been found for the current OpenGL version."@,
        }
    }

    /// Returns the text that displays the error.
    pub fn to_string(&self) -> (r: String)
        ensures
            r@ == self.display_text(),
    {
        match self {
            ProgramChooserCreationError::ProgramCreationError(err) => err.to_string(),
            ProgramChooserCreationError::NoVersion => String::from_str(
                "No version of the program has been found for the current OpenGL version.",
            ),
        }
    }
}

impl From<ProgramCreationError> for ProgramChooserCreationError {
    fn from(err: ProgramCreationError) -> (r: ProgramChooserCreationError) {
        ProgramChooserCreationError::ProgramCreationError(err)
    }
}

impl vstd::std_specs::convert::FromSpecImpl<ProgramCreationError> for ProgramChooserCreationError {
    open spec fn obeys_from_spec() -> bool {
        true
    }

    open spec fn from_spec(v: ProgramCreationError) -> ProgramChooserCreationError {
        ProgramChooserCreationError::ProgramCreationError(v)
    }
}

/// Error while retrieving the binary representation of a program.
#[derive(Copy, Clone, Debug, PartialEq, Eq, Structural)]
pub enum GetBinaryError {
    /// The backend doesn't support binary.
    NotSupported,
    /// The backend does not supply any binary formats.
    NoFormats,
}

impl GetBinaryError {
    /// The text that `description` returns.
    pub open spec fn description_text(&self) -> Seq<char> {
        match self {
            GetBinaryError::NotSupported => "The backend doesn't support binary"@,
            GetBinaryError::NoFormats => "The backend does not supply any binary formats."@,
        }
    }

    /// Returns the description of the error.
    pub fn description(&self) -> (r: &'static str)
        ensures
            r@ == self.description_text(),
    {
        match self {
            GetBinaryError::NotSupported => "The backend doesn't support binary",
            GetBinaryError::NoFormats => "The backend does not supply any binary formats.",
        }
    }

    /// Returns the text that displays the error: its description.
    pub fn to_string(&self) -> (r: String)
        ensures
            r@ == self.description_text(),
    {
        String::from_str(self.description())
    }
}

/// Input when creating a program.
pub enum ProgramCreationInput<'a> {
    /// Use GLSL source code.
    SourceCode {
        /// Source code of the vertex shader.
        vertex_shader: &'a str,
        /// Source code of the optional tessellation control shader.
        tessellation_control_shader: Option<&'a str>,
        /// Source code of the optional tessellation evaluation shader.
        tessellation_evaluation_shader: Option<&'a str>,
        /// Source code of the optional geometry shader.
        geometry_shader: Option<&'a str>,
        /// Source code of the fragment shader.
        fragment_shader: &'a str,
        /// The list of variables and mode to use for transform feedback.
        ///
        /// The information specified here will be passed to the OpenGL linker. If you pass
        /// `None`, then you won't be able to use transform feedback.
        transform_feedback_varyings: Option<(Vec<String>, TransformFeedbackMode)>,
        /// Whether the fragment shader outputs colors in `sRGB` or `RGB`. This is true by
        /// default, meaning that the program is responsible for outputting correct `sRGB`
        /// values.
        ///
        /// If this is false, then `GL_FRAMEBUFFER_SRGB` will be enabled when this program is
        /// used (if it is supported).
        outputs_srgb: bool,
        /// Whether the shader uses point size.
        uses_point_size: bool,
    },
    /// Use a precompiled binary.
    Binary {
        /// The data.
        data: Binary,
        /// See `ProgramCreationInput::SourceCode::outputs_srgb`.
        outputs_srgb: bool,
        /// Whether the shader uses point size.
        uses_point_size: bool,
    },
    /// Use a SPIR-V binary.
    SpirV(SpirvProgram<'a>),
}

/// Represents a SPIR-V program. The shaders can refer to entry points in the same binary.
pub struct SpirvProgram<'a> {
    /// The vertex shader.
    pub vertex_shader: SpirvEntryPoint<'a>,
    /// The fragment shader.
    pub fragment_shader: SpirvEntryPoint<'a>,
    /// Optional tessellation control shader.
    pub tessellation_control_shader: Option<SpirvEntryPoint<'a>>,
    /// Optional tessellation evaluation shader.
    pub tessellation_evaluation_shader: Option<SpirvEntryPoint<'a>>,
    /// Optional geometry shader.
    pub geometry_shader: Option<SpirvEntryPoint<'a>>,
    /// The list of variables and mode to use for transform feedback.
    ///
    /// The information specified here will be passed to the OpenGL linker. If you pass `None`,
    /// then you won't be able to use transform feedback.
    pub transform_feedback_varyings: Option<(Vec<String>, TransformFeedbackMode)>,
    /// See `ProgramCreationInput::SourceCode::outputs_srgb`.
    pub outputs_srgb: bool,
    /// Whether the shader uses point size.
    pub uses_point_size: bool,
}

impl<'a> SpirvProgram<'a> {
    /// Create new `SpirvProgram` from vertex and fragment shaders.
    pub fn from_vs_and_fs(vertex_shader: SpirvEntryPoint<'a>, fragment_shader: SpirvEntryPoint<'a>) -> (r:
        Self)
        ensures
            r.vertex_shader == vertex_shader,
            r.fragment_shader == fragment_shader,
            r.tessellation_control_shader is None,
            r.tessellation_evaluation_shader is None,
            r.geometry_shader is None,
            r.transform_feedback_varyings is None,
            r.outputs_srgb,
            !r.uses_point_size,
    {
        SpirvProgram {
            vertex_shader,
            fragment_shader,
            tessellation_control_shader: None,
            tessellation_evaluation_shader: None,
            geometry_shader: None,
            transform_feedback_varyings: None,
            outputs_srgb: true,
            uses_point_size: false,
        }
    }

    /// Builder method to set `tessellation_control_shader`.
    pub fn tessellation_control_shader(
        self,
        tessellation_control_shader: Option<SpirvEntryPoint<'a>>,
    ) -> (r: Self)
        ensures
            r == (SpirvProgram { tessellation_control_shader, ..self }),
    {
        let mut s = self;
        s.tessellation_control_shader = tessellation_control_shader;
        s
    }

    /// Builder method to set `tessellation_evaluation_shader`.
    pub fn tessellation_evaluation_shader(
        self,
        tessellation_evaluation_shader: Option<SpirvEntryPoint<'a>>,
    ) -> (r: Self)
        ensures
            r == (SpirvProgram { tessellation_evaluation_shader, ..self }),
    {
        let mut s = self;
        s.tessellation_evaluation_shader = tessellation_evaluation_shader;
        s
    }

    /// Builder method to set `geometry_shader`.
    pub fn geometry_shader(self, geometry_shader: Option<SpirvEntryPoint<'a>>) -> (r: Self)
        ensures
            r == (SpirvProgram { geometry_shader, ..self }),
    {
        let mut s = self;
        s.geometry_shader = geometry_shader;
        s
    }

    /// Builder method to set `transform_feedback_varyings`.
    pub fn transform_feedback_varyings(
        self,
        transform_feedback_varyings: Option<(Vec<String>, TransformFeedbackMode)>,
    ) -> (r: Self)
        ensures
            r == (SpirvProgram { transform_feedback_varyings, ..self }),
    {
        let mut s = self;
        s.transform_feedback_varyings = transform_feedback_varyings;
        s
    }

    /// Builder method to set `outputs_srgb`.
    pub fn outputs_srgb(self, outputs_srgb: bool) -> (r: Self)
        ensures
            r == (SpirvProgram { outputs_srgb, ..self }),
    {
        let mut s = self;
        s.outputs_srgb = outputs_srgb;
        s
    }

    /// Builder method to set `uses_point_size`.
    pub fn uses_point_size(self, uses_point_size: bool) -> (r: Self)
        ensures
            r == (SpirvProgram { uses_point_size, ..self }),
    {
        let mut s = self;
        s.uses_point_size = uses_point_size;
        s
    }
}

/// Represents an entry point of a binary SPIR-V module.
#[derive(Copy, Clone)]
pub struct SpirvEntryPoint<'a> {
    /// The binary module data.
    pub binary: &'a [u8],
    /// The entry point to use, e.g. "main".
    pub entry_point: &'a str,
}

/// Represents the source code of a program.
pub struct SourceCode<'a> {
    /// Source code of the vertex shader.
    pub vertex_shader: &'a str,
    /// Source code of the optional tessellation control shader.
    pub tessellation_control_shader: Option<&'a str>,
    /// Source code of the optional tessellation evaluation shader.
    pub tessellation_evaluation_shader: Option<&'a str>,
    /// Source code of the optional geometry shader.
    pub geometry_shader: Option<&'a str>,
    /// Source code of the fragment shader.
    pub fragment_shader: &'a str,
}

impl<'a> From<SourceCode<'a>> for ProgramCreationInput<'a> {
    fn from(code: SourceCode<'a>) -> (r: ProgramCreationInput<'a>) {
        ProgramCreationInput::SourceCode {
            vertex_shader: code.vertex_shader,
            tessellation_control_shader: code.tessellation_control_shader,
            tessellation_evaluation_shader: code.tessellation_evaluation_shader,
            geometry_shader: code.geometry_shader,
            fragment_shader: code.fragment_shader,
            transform_feedback_varyings: None,
            outputs_srgb: true,
            uses_point_size: false,
        }
    }
}

impl<'a> vstd::std_specs::convert::FromSpecImpl<SourceCode<'a>> for ProgramCreationInput<'a> {
    open spec fn obeys_from_spec() -> bool {
        true
    }

    open spec fn from_spec(v: SourceCode<'a>) -> ProgramCreationInput<'a> {
        ProgramCreationInput::SourceCode {
            vertex_shader: v.vertex_shader,
            tessellation_control_shader: v.tessellation_control_shader,
            tessellation_evaluation_shader: v.tessellation_evaluation_shader,
            geometry_shader: v.geometry_shader,
            fragment_shader: v.fragment_shader,
            transform_feedback_varyings: None,
            outputs_srgb: true,
            uses_point_size: false,
        }
    }
}

/// Represents the compiled binary data of a program.
pub struct Binary {
    /// An implementation-defined format.
    pub format: u32,
    /// The binary data.
    pub content: Vec<u8>,
}

impl<'a> From<Binary> for ProgramCreationInput<'a> {
    fn from(binary: Binary) -> (r: ProgramCreationInput<'a>) {
        ProgramCreationInput::Binary { data: binary, outputs_srgb: true, uses_point_size: false }
    }
}

impl<'a> vstd::std_specs::convert::FromSpecImpl<Binary> for ProgramCreationInput<'a> {
    open spec fn obeys_from_spec() -> bool {
        true
    }

    open spec fn from_spec(v: Binary) -> ProgramCreationInput<'a> {
        ProgramCreationInput::Binary { data: v, outputs_srgb: true, uses_point_size: false }
    }
}

/// Traits for objects that can be turned into `ProgramCreationInput`.
pub trait IntoProgramCreationInput<'a> {
    /// Builds the `ProgramCreationInput`.
    fn into_program_creation_input(self) -> ProgramCreationInput<'a>;
}

impl<'a> IntoProgramCreationInput<'a> for ProgramCreationInput<'a> {
    fn into_program_creation_input(self) -> (r: ProgramCreationInput<'a>)
        ensures
            r == self,
    {
        self
    }
}

impl<'a> IntoProgramCreationInput<'a> for SourceCode<'a> {
    fn into_program_creation_input(self) -> (r: ProgramCreationInput<'a>)
        ensures
            r == (ProgramCreationInput::SourceCode {
                vertex_shader: self.vertex_shader,
                tessellation_control_shader: self.tessellation_control_shader,
                tessellation_evaluation_shader: self.tessellation_evaluation_shader,
                geometry_shader: self.geometry_shader,
                fragment_shader: self.fragment_shader,
                transform_feedback_varyings: None,
                outputs_srgb: true,
                uses_point_size: false,
            }),
    {
        ProgramCreationInput::from(self)
    }
}

impl<'a> IntoProgramCreationInput<'a> for Binary {
    fn into_program_creation_input(self) -> (r: ProgramCreationInput<'a>)
        ensures
            r == (ProgramCreationInput::Binary { data: self, outputs_srgb: true, uses_point_size: false }),
    {
        ProgramCreationInput::from(self)
    }
}

} // verus!
