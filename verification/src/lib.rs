//! Validation and format-selection logic of an OpenGL wrapper: which formats, primitives,
//! shader stages and framebuffer layouts a backend supports, which OpenGL enumerants stand for
//! them, and whether the attachments of a framebuffer are valid together.
//!
//! A backend is described by plain values (`version::Backend`: its version, extensions and
//! limits). Operations that talk to OpenGL are split: this crate decides which entry points
//! to call, with which arguments, and what state they leave behind; the caller makes the calls
//! and hands back what OpenGL reported (a compile status, a log, an object name).

pub mod gl;
pub mod version;
pub mod image_format;
pub mod texture;
pub mod buffer;
pub mod framebuffer;
pub mod fbo;
pub mod fbo_calls;
pub mod fbo_cache;
pub mod render_buffer;
pub mod program;
pub mod index;
pub mod index_buffer;
pub mod field;
pub mod sync;
pub mod sampler_object;
pub mod semaphore;
pub mod memory_object;
pub mod ops;
pub mod pixel_buffer;
pub mod uniforms;
pub mod message;

use vstd::prelude::*;
use vstd::string::StringExecFns;

use crate::program::ShaderType;
use crate::program::reflection::UniformType;
use crate::version::Backend;

pub use crate::version::{CapabilitiesSource, Version, Api};

verus! {

/// Trait for objects that are OpenGL objects.
pub trait GlObject {
    /// The type of identifier for this object.
    type Id;

    /// Returns the id of the object.
    fn get_id(&self) -> Self::Id;
}

/// Handle to a shader or a program.
#[derive(PartialEq, Eq, Copy, Clone, Debug, Hash, Structural)]
pub enum Handle {
    /// A numeric identifier.
    Id(u32),
    /// A `GLhandleARB`.
    Handle(u32),
}

/// Area of a surface in pixels.
///
/// In the OpenGL ecosystem, the (0,0) coordinate is at the bottom-left hand corner of the
/// images.
#[derive(Debug, Clone, Copy, Default, PartialEq, Eq, Structural)]
pub struct Rect {
    /// Number of pixels between the left border of the surface and the left border of the
    /// rectangle.
    pub left: u32,
    /// Number of pixels between the bottom border of the surface and the bottom border of the
    /// rectangle.
    pub bottom: u32,
    /// Width of the area in pixels.
    pub width: u32,
    /// Height of the area in pixels.
    pub height: u32,
}

/// Area of a surface in pixels. Similar to a `Rect` except that dimensions can be negative.
///
/// In the OpenGL ecosystem, the (0,0) coordinate is at the bottom-left hand corner of the
/// images.
#[derive(Debug, Clone, Copy, Default, PartialEq, Eq, Structural)]
pub struct BlitTarget {
    /// Number of pixels between the left border of the surface and the left border of the
    /// rectangle.
    pub left: u32,
    /// Number of pixels between the bottom border of the surface and the bottom border of the
    /// rectangle.
    pub bottom: u32,
    /// Width of the area in pixels. Can be negative.
    pub width: i32,
    /// Height of the area in pixels. Can be negative.
    pub height: i32,
}

/// Error that can happen while drawing.
#[derive(Clone, Debug)]
pub enum DrawError {
    /// A depth function has been requested but no depth buffer is available.
    NoDepthBuffer,
    /// The type of a vertex attribute in the vertices source doesn't match what the program
    /// requires.
    AttributeTypeMismatch,
    /// One of the attributes required by the program is missing from the vertex format.
    ///
    /// Note that it is perfectly valid to have an attribute in the vertex format that is not
    /// used by the program.
    AttributeMissing,
    /// The viewport's dimensions are not supported by the backend.
    ViewportTooLarge,
    /// The depth range is outside of the `(0, 1)` range.
    InvalidDepthRange,
    /// The type of a uniform doesn't match what the program requires.
    UniformTypeMismatch {
        /// Name of the uniform you are trying to bind.
        name: String,
        /// The expected type.
        expected: UniformType,
    },
    /// Tried to bind a uniform buffer to a single uniform value.
    UniformBufferToValue {
        /// Name of the uniform you are trying to bind.
        name: String,
    },
    /// Tried to bind a single uniform value to a uniform block.
    UniformValueToBlock {
        /// Name of the uniform you are trying to bind.
        name: String,
    },
    /// The layout of the content of the uniform buffer does not match the layout of the block.
    UniformBlockLayoutMismatch {
        /// Name of the block you are trying to bind.
        name: String,
    },
    /// Tried to bind a subroutine uniform like a regular uniform value.
    SubroutineUniformToValue {
        /// Name of the uniform you are trying to bind.
        name: String,
    },
    /// Not all subroutine uniforms of a shader stage were set.
    SubroutineUniformMissing {
        /// Shader stage with missing bindings.
        stage: ShaderType,
        /// The expected number of bindings.
        expected_count: usize,
        /// The number of bindings defined by the user.
        real_count: usize,
    },
    /// A non-existent subroutine was referenced.
    SubroutineNotFound {
        /// The stage the subroutine was searched for.
        stage: ShaderType,
        /// The invalid name of the subroutine.
        name: String,
    },
    /// The number of vertices per patch that has been requested is not supported.
    UnsupportedVerticesPerPatch,
    /// Trying to use tessellation, but this is not supported by the underlying hardware.
    TessellationNotSupported,
    /// Using a program which contains tessellation shaders, but without submitting patches.
    TessellationWithoutPatches,
    /// Trying to use a sampler, but they are not supported by the backend.
    SamplersNotSupported,
    /// When you use instancing, all vertices sources must have the same size.
    InstancesCountMismatch,
    /// If you don't use indices, then all vertices sources must have the same size.
    VerticesSourcesLengthMismatch,
    /// You requested not to draw primitives, but this is not supported by the backend.
    TransformFeedbackNotSupported,
    /// See the documentation of the draw parameters for infos.
    WrongQueryOperation,
    /// You requested smoothing, but this is not supported by the backend.
    SmoothingNotSupported,
    /// The requested provoking vertex is not supported by the backend.
    ProvokingVertexNotSupported,
    /// Discarding rasterizer output isn't supported by the backend.
    RasterizerDiscardNotSupported,
    /// Depth clamping isn't supported by the backend.
    DepthClampNotSupported,
    /// One of the blending parameters is not supported by the backend.
    BlendingParameterNotSupported,
    /// Restarting indices (multiple objects per draw call) is not supported by the backend.
    FixedIndexRestartingNotSupported,
    /// Tried to enable a clip plane that does not exist.
    ClipPlaneIndexOutOfBounds,
}

impl DrawError {
    /// The text that `description` returns.
    pub open spec fn description_text(&self) -> Seq<char> {
        match self {
            DrawError::NoDepthBuffer => "A depth function has been requested but no depth buffer is available"@,
            DrawError::AttributeTypeMismatch => "The type of a vertex attribute in the vertices source doesn't match what the program requires"@,
            DrawError::AttributeMissing => "One of the attributes required by the program is missing from the vertex format"@,
            DrawError::ViewportTooLarge => "The viewport's dimensions are not supported by the backend"@,
            DrawError::InvalidDepthRange => "The depth range is outside of the `(0, 1)` range"@,
            DrawError::UniformTypeMismatch { .. } => "The type of a uniform doesn't match what the program requires"@,
            DrawError::UniformBufferToValue { .. } => "Tried to bind a uniform buffer to a single uniform value"@,
            DrawError::UniformValueToBlock { .. } => "Tried to bind a single uniform value to a uniform block"@,
            DrawError::UniformBlockLayoutMismatch { .. } => "The layout of the content of the uniform buffer does not match the layout of the block"@,
            DrawError::SubroutineUniformToValue { .. } => "Tried to bind a subroutine uniform like a regular uniform value"@,
            DrawError::SubroutineUniformMissing { .. } => "Not all subroutine uniforms of a shader stage were set"@,
            DrawError::SubroutineNotFound { .. } => "A non-existent subroutine was referenced"@,
            DrawError::UnsupportedVerticesPerPatch => "The number of vertices per patch that has been requested is not supported"@,
            DrawError::TessellationNotSupported => "Trying to use tessellation, but this is not supported by the underlying hardware"@,
            DrawError::TessellationWithoutPatches => "Using a program which contains tessellation shaders, but without submitting patches"@,
            DrawError::SamplersNotSupported => "\n                Trying to use a sampler, but they are not supported by the backend"@,
            DrawError::InstancesCountMismatch => "When you use instancing, all vertices sources must have the same size"@,
            DrawError::VerticesSourcesLengthMismatch => "If you don't use indices, then all vertices sources must have the same size"@,
            DrawError::TransformFeedbackNotSupported => "Requested not to draw primitives, but this is not supported by the backend"@,
            DrawError::WrongQueryOperation => "Wrong query operation"@,
            DrawError::SmoothingNotSupported => "Trying to use smoothing, but this is not supported by the backend"@,
            DrawError::ProvokingVertexNotSupported => "Trying to set the provoking vertex, but this is not supported by the backend"@,
            DrawError::RasterizerDiscardNotSupported => "Discarding rasterizer output is not supported by the backend"@,
            DrawError::DepthClampNotSupported => "The depth clamp mode is not supported by the backend"@,
            DrawError::BlendingParameterNotSupported => "One the blending parameters is not supported by the backend"@,
            DrawError::FixedIndexRestartingNotSupported => "Restarting indices (multiple objects per draw call) is not supported by the backend"@,
            DrawError::ClipPlaneIndexOutOfBounds => "Tried to enable a clip plane that does not exist."@,
        }
    }

    /// Returns the description of the error.
    pub fn description(&self) -> (r: &'static str)
        ensures
            r@ == self.description_text(),
    {
        match self {
            DrawError::NoDepthBuffer => "A depth function has been requested but no depth buffer is available",
            DrawError::AttributeTypeMismatch => "The type of a vertex attribute in the vertices source doesn't match what the program requires",
            DrawError::AttributeMissing => "One of the attributes required by the program is missing from the vertex format",
            DrawError::ViewportTooLarge => "The viewport's dimensions are not supported by the backend",
            DrawError::InvalidDepthRange => "The depth range is outside of the `(0, 1)` range",
            DrawError::UniformTypeMismatch { .. } => "The type of a uniform doesn't match what the program requires",
            DrawError::UniformBufferToValue { .. } => "Tried to bind a uniform buffer to a single uniform value",
            DrawError::UniformValueToBlock { .. } => "Tried to bind a single uniform value to a uniform block",
            DrawError::UniformBlockLayoutMismatch { .. } => "The layout of the content of the uniform buffer does not match the layout of the block",
            DrawError::SubroutineUniformToValue { .. } => "Tried to bind a subroutine uniform like a regular uniform value",
            DrawError::SubroutineUniformMissing { .. } => "Not all subroutine uniforms of a shader stage were set",
            DrawError::SubroutineNotFound { .. } => "A non-existent subroutine was referenced",
            DrawError::UnsupportedVerticesPerPatch => "The number of vertices per patch that has been requested is not supported",
            DrawError::TessellationNotSupported => "Trying to use tessellation, but this is not supported by the underlying hardware",
            DrawError::TessellationWithoutPatches => "Using a program which contains tessellation shaders, but without submitting patches",
            DrawError::SamplersNotSupported => "\n                Trying to use a sampler, but they are not supported by the backend",
            DrawError::InstancesCountMismatch => "When you use instancing, all vertices sources must have the same size",
            DrawError::VerticesSourcesLengthMismatch => "If you don't use indices, then all vertices sources must have the same size",
            DrawError::TransformFeedbackNotSupported => "Requested not to draw primitives, but this is not supported by the backend",
            DrawError::WrongQueryOperation => "Wrong query operation",
            DrawError::SmoothingNotSupported => "Trying to use smoothing, but this is not supported by the backend",
            DrawError::ProvokingVertexNotSupported => "Trying to set the provoking vertex, but this is not supported by the backend",
            DrawError::RasterizerDiscardNotSupported => "Discarding rasterizer output is not supported by the backend",
            DrawError::DepthClampNotSupported => "The depth clamp mode is not supported by the backend",
            DrawError::BlendingParameterNotSupported => "One the blending parameters is not supported by the backend",
            DrawError::FixedIndexRestartingNotSupported => "Restarting indices (multiple objects per draw call) is not supported by the backend",
            DrawError::ClipPlaneIndexOutOfBounds => "Tried to enable a clip plane that does not exist.",
        }
    }
}

/// Error that can happen when swapping buffers.
#[derive(Debug, Copy, Clone, PartialEq, Eq, Structural)]
pub enum SwapBuffersError {
    /// The OpenGL context has been lost and needs to be recreated, with all the objects
    /// associated to it.
    ContextLost,
    /// The buffers have already been swapped.
    ///
    /// This error can be returned when `set_finish()` is called multiple times, or `finish()`
    /// is called after `set_finish()`.
    AlreadySwapped,
}

impl SwapBuffersError {
    /// The text that `description` returns.
    pub open spec fn description_text(&self) -> Seq<char> {
        match self {
            SwapBuffersError::ContextLost => "the OpenGL context has been lost and needs to be recreated"@,
            SwapBuffersError::AlreadySwapped => "the buffers have already been swapped"@,
        }
    }

    /// Returns the description of the error.
    pub fn description(&self) -> (r: &'static str)
        ensures
            r@ == self.description_text(),
    {
        match self {
            SwapBuffersError::ContextLost => "the OpenGL context has been lost and needs to be recreated",
            SwapBuffersError::AlreadySwapped => "the buffers have already been swapped",
        }
    }

    /// Returns the text that displays the error: its description.
    pub fn to_string(&self) -> (r: String)
        ensures
            r@ == self.description_text(),
    {
        String::from_str(self.description())
    }
}

/// A frame of the default framebuffer, to draw on before the back- and front-buffers are
/// swapped.
///
/// `finish` or `set_finish` must be called once; the first call says that the buffers are to be
/// swapped, and the caller then swaps them on the backend. Any later call is refused with
/// `SwapBuffersError::AlreadySwapped`.
#[derive(Debug)]
pub struct Frame {
    context: Backend,
    width: u32,
    height: u32,
    destroyed: bool,
}

impl Frame {
    /// The backend of the frame.
    pub closed spec fn context_view(&self) -> Backend {
        self.context
    }

    /// The dimensions of the frame.
    pub closed spec fn dimensions_view(&self) -> (u32, u32) {
        (self.width, self.height)
    }

    /// Whether the buffers of the frame have been swapped.
    pub closed spec fn is_finished(&self) -> bool {
        self.destroyed
    }

    /// Builds a new `Frame`.
    pub fn new(context: Backend, dimensions: (u32, u32)) -> (r: Frame)
        ensures
            r.context_view() == context,
            r.dimensions_view() == dimensions,
            !r.is_finished(),
    {
        Frame { context, width: dimensions.0, height: dimensions.1, destroyed: false }
    }

    /// Stop drawing, and consume the Frame: `Ok` says that the buffers are to be swapped now.
    pub fn finish(self) -> (r: Result<(), SwapBuffersError>)
        ensures
            r == if self.is_finished() {
                Err(SwapBuffersError::AlreadySwapped)
            } else {
                Ok::<(), SwapBuffersError>(())
            },
    {
        let mut frame = self;
        frame.set_finish()
    }

    /// Stop drawing: `Ok` says that the buffers are to be swapped now.
    ///
    /// The Frame can now be dropped regularly. Calling `finish()` or `set_finish()` again will
    /// cause `Err(SwapBuffersError::AlreadySwapped)` to be returned.
    pub fn set_finish(&mut self) -> (r: Result<(), SwapBuffersError>)
        ensures
            old(self).is_finished() ==> r == Err::<(), SwapBuffersError>(
                SwapBuffersError::AlreadySwapped,
            ),
            !old(self).is_finished() ==> r == Ok::<(), SwapBuffersError>(()),
            final(self).is_finished(),
            final(self).context_view() == old(self).context_view(),
            final(self).dimensions_view() == old(self).dimensions_view(),
    {
        if self.destroyed {
            return Err(SwapBuffersError::AlreadySwapped);
        }
        self.destroyed = true;
        Ok(())
    }

    /// Completes `finish` or `set_finish`, whose result is `finish`, with what swapping the
    /// buffers gave when that result said to swap (`context_lost`: whether the backend found the
    /// context lost): `Ok` after a successful swap, `ContextLost` after a lost context, and an
    /// `AlreadySwapped` error unchanged, in which case nothing was swapped.
    pub fn swap_result(finish: Result<(), SwapBuffersError>, context_lost: bool) -> (r: Result<
        (),
        SwapBuffersError,
    >)
        ensures
            r == match finish {
                Err(e) => Err(e),
                Ok(()) => if context_lost {
                    Err(SwapBuffersError::ContextLost)
                } else {
                    Ok::<(), SwapBuffersError>(())
                },
            },
    {
        match finish {
            Err(e) => Err(e),
            Ok(()) => if context_lost {
                Err(SwapBuffersError::ContextLost)
            } else {
                Ok(())
            },
        }
    }

    /// Returns the dimensions of the frame.
    pub fn get_dimensions(&self) -> (r: (u32, u32))
        ensures
            r == self.dimensions_view(),
    {
        (self.width, self.height)
    }
}

/// Returned during Context creation if the OpenGL implementation is too old.
#[derive(Clone, Debug, PartialEq, Eq)]
pub struct IncompatibleOpenGl(pub String);

impl IncompatibleOpenGl {
    /// The text that `description` returns.
    pub open spec fn description_text(&self) -> Seq<char> {
        "The OpenGL implementation is too old to work with glium"@
    }

    /// Returns the description of the error.
    pub fn description(&self) -> (r: &'static str)
        ensures
            r@ == self.description_text(),
    {
        "The OpenGL implementation is too old to work with glium"
    }

    /// Returns the text that displays the error: its description.
    pub fn to_string(&self) -> (r: String)
        ensures
            r@ == self.description_text(),
    {
        String::from_str(self.description())
    }
}

/// The name of an error that `glGetError` reported, as text.
pub open spec fn gl_error_text(error: u32) -> Seq<char> {
    if error == gl::INVALID_ENUM {
        "GL_INVALID_ENUM"@
    } else if error == gl::INVALID_VALUE {
        "GL_INVALID_VALUE"@
    } else if error == gl::INVALID_OPERATION {
        "GL_INVALID_OPERATION"@
    } else if error == gl::INVALID_FRAMEBUFFER_OPERATION {
        "GL_INVALID_FRAMEBUFFER_OPERATION"@
    } else if error == gl::OUT_OF_MEMORY {
        "GL_OUT_OF_MEMORY"@
    } else if error == gl::STACK_UNDERFLOW {
        "GL_STACK_UNDERFLOW"@
    } else if error == gl::STACK_OVERFLOW {
        "GL_STACK_OVERFLOW"@
    } else if error == gl::CONTEXT_LOST {
        "GL_CONTEXT_LOST"@
    } else {
        "Unknown glGetError return value"@
    }
}

/// Names the error that `glGetError` returned: `None` for `GL_NO_ERROR`, else the name of the
/// error (or a fixed text for a value that is not an OpenGL error).
pub fn get_gl_error(error: u32) -> (r: Option<&'static str>)
    ensures
        r is None <==> error == gl::NO_ERROR,
        r matches Some(text) ==> text@ == gl_error_text(error),
{
    if error == gl::NO_ERROR {
        None
    } else if error == gl::INVALID_ENUM {
        Some("GL_INVALID_ENUM")
    } else if error == gl::INVALID_VALUE {
        Some("GL_INVALID_VALUE")
    } else if error == gl::INVALID_OPERATION {
        Some("GL_INVALID_OPERATION")
    } else if error == gl::INVALID_FRAMEBUFFER_OPERATION {
        Some("GL_INVALID_FRAMEBUFFER_OPERATION")
    } else if error == gl::OUT_OF_MEMORY {
        Some("GL_OUT_OF_MEMORY")
    } else if error == gl::STACK_UNDERFLOW {
        Some("GL_STACK_UNDERFLOW")
    } else if error == gl::STACK_OVERFLOW {
        Some("GL_STACK_OVERFLOW")
    } else if error == gl::CONTEXT_LOST {
        Some("GL_CONTEXT_LOST")
    } else {
        Some("Unknown glGetError return value")
    }
}

/// The checks on the surface that precede a draw: a depth test or depth writes need a depth
/// buffer, and the viewport, if given, must fit in the largest viewport that the backend
/// supports.
pub open spec fn draw_surface_check(
    depth_buffer_bits: Option<u16>,
    depth_buffer_needed: bool,
    viewport: Option<Rect>,
    max_viewport_dims: (i32, i32),
) -> Result<(), DrawError> {
    if depth_buffer_bits is None && depth_buffer_needed {
        Err(DrawError::NoDepthBuffer)
    } else if viewport matches Some(v) && (v.width > max_viewport_dims.0 as u32 || v.height
        > max_viewport_dims.1 as u32) {
        Err(DrawError::ViewportTooLarge)
    } else {
        Ok(())
    }
}

/// Checks a surface before drawing on it: `depth_buffer_bits` are those of its depth buffer,
/// `depth_buffer_needed` says whether the draw parameters test or write depth, and `viewport`
/// is the viewport that they set, if any.
pub fn check_draw_surface(
    depth_buffer_bits: Option<u16>,
    depth_buffer_needed: bool,
    viewport: Option<&Rect>,
    max_viewport_dims: (i32, i32),
) -> (r: Result<(), DrawError>)
    ensures
        r == draw_surface_check(
            depth_buffer_bits,
            depth_buffer_needed,
            match viewport {
                Some(v) => Some(*v),
                None => None,
            },
            max_viewport_dims,
        ),
{
    if depth_buffer_bits.is_none() && depth_buffer_needed {
        return Err(DrawError::NoDepthBuffer);
    }
    if let Some(viewport) = viewport {
        if viewport.width > max_viewport_dims.0 as u32 {
            return Err(DrawError::ViewportTooLarge);
        }
        if viewport.height > max_viewport_dims.1 as u32 {
            return Err(DrawError::ViewportTooLarge);
        }
    }
    Ok(())
}

} // verus!
