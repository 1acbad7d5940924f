//! Render buffers: images that can be drawn on but not sampled.
//!
//! Creating a render buffer means choosing its internal format and the OpenGL entry points
//! that allocate its storage on the backend; both choices are made here. The calls themselves
//! are made by the caller, who then records the name that OpenGL gave to the buffer.

use vstd::prelude::*;
use vstd::string::StringExecFns;

use crate::image_format::{
    self, FormatNotSupportedError, TextureFormatRequest, TextureFormat, RequestType,
    UncompressedFloatFormat, DepthFormat, StencilFormat, DepthStencilFormat, format_request_result,
};
use crate::texture::TextureKind;
use crate::version::{Api, Backend, Version, ExtensionsList, ver_ge, version_ge};

verus! {

/// Error while creating a render buffer.
#[derive(Copy, Clone, Debug, PartialEq, Eq, Structural)]
pub enum CreationError {
    /// The requested format is not supported.
    FormatNotSupported,
}

impl CreationError {
    /// The text that `description` returns.
    pub open spec fn description_text(&self) -> Seq<char> {
        "The requested format is not supported"@
    }

    /// Returns the description of the error.
    pub fn description(&self) -> (r: &'static str)
        ensures
            r@ == self.description_text(),
    {
        "The requested format is not supported"
    }

    /// Returns the text that displays the error: its description.
    pub fn to_string(&self) -> (r: String)
        ensures
            r@ == self.description_text(),
    {
        String::from_str(self.description())
    }
}

impl From<FormatNotSupportedError> for CreationError {
    fn from(_err: FormatNotSupportedError) -> (r: CreationError) {
        CreationError::FormatNotSupported
    }
}

impl vstd::std_specs::convert::FromSpecImpl<FormatNotSupportedError> for CreationError {
    open spec fn obeys_from_spec() -> bool {
        true
    }

    open spec fn from_spec(v: FormatNotSupportedError) -> CreationError {
        CreationError::FormatNotSupported
    }
}

/// The OpenGL entry points that allocate the storage of a render buffer.
#[derive(Copy, Clone, Debug, PartialEq, Eq, Structural)]
pub enum RenderbufferStorage {
    /// `glCreateRenderbuffers`, then `glNamedRenderbufferStorage` or, with samples,
    /// `glNamedRenderbufferStorageMultisample`.
    DirectStateAccess,
    /// `glGenRenderbuffers` and `glRenderbufferStorageMultisample`.
    Multisample,
    /// `glGenRenderbuffers` and `glRenderbufferStorageMultisampleAPPLE`.
    MultisampleApple,
    /// `glGenRenderbuffers` and `glRenderbufferStorageMultisampleANGLE`.
    MultisampleAngle,
    /// `glGenRenderbuffers` and `glRenderbufferStorageMultisampleEXT`.
    MultisampleExt,
    /// `glGenRenderbuffers` and `glRenderbufferStorageMultisampleNV`.
    MultisampleNv,
    /// `glGenRenderbuffers` and `glRenderbufferStorage`.
    Regular,
    /// `glGenRenderbuffersEXT` and `glRenderbufferStorageMultisampleEXT`.
    ExtMultisample,
    /// `glGenRenderbuffersEXT` and `glRenderbufferStorageEXT`.
    Ext,
}

/// The entry points used on a backend of version `v` with extensions `e` for a render buffer
/// with `samples` samples, or `None` if the backend can't create such a render buffer.
pub open spec fn storage_method(v: Version, e: ExtensionsList, samples: Option<u32>) -> Option<
    RenderbufferStorage,
> {
    let ms_core = ver_ge(v, Api::Gl, 3, 0) || ver_ge(v, Api::GlEs, 3, 0);
    if ver_ge(v, Api::Gl, 4, 5) || e.gl_arb_direct_state_access {
        Some(RenderbufferStorage::DirectStateAccess)
    } else if samples is Some && (ms_core || e.gl_apple_framebuffer_multisample
        || e.gl_angle_framebuffer_multisample || e.gl_ext_multisampled_render_to_texture
        || e.gl_nv_framebuffer_multisample) {
        if ms_core {
            Some(RenderbufferStorage::Multisample)
        } else if e.gl_apple_framebuffer_multisample {
            Some(RenderbufferStorage::MultisampleApple)
        } else if e.gl_angle_framebuffer_multisample {
            Some(RenderbufferStorage::MultisampleAngle)
        } else if e.gl_ext_multisampled_render_to_texture {
            Some(RenderbufferStorage::MultisampleExt)
        } else {
            Some(RenderbufferStorage::MultisampleNv)
        }
    } else if samples is None && (ver_ge(v, Api::Gl, 3, 0) || ver_ge(v, Api::GlEs, 2, 0)) {
        Some(RenderbufferStorage::Regular)
    } else if samples is Some && e.gl_ext_framebuffer_object && e.gl_ext_framebuffer_multisample {
        Some(RenderbufferStorage::ExtMultisample)
    } else if samples is None && e.gl_ext_framebuffer_object {
        Some(RenderbufferStorage::Ext)
    } else {
        None
    }
}

impl RenderbufferStorage {
    /// Whether the entry points can allocate a multisampled render buffer.
    pub open spec fn allocates_samples(self) -> bool {
        match self {
            RenderbufferStorage::Regular | RenderbufferStorage::Ext => false,
            _ => true,
        }
    }
}

/// The storage of a render buffer suits its samples: one with samples is allocated by entry
/// points that take samples; one without samples by entry points that take none, or by the
/// direct state access ones, which take both. A backend that can create a render buffer keeps
/// that ability on a later version of the same API with the same extensions.
pub proof fn lemma_storage_method_suits_samples(
    v: Version,
    v2: Version,
    e: ExtensionsList,
    samples: Option<u32>,
)
    ensures
        storage_method(v, e, samples) matches Some(m) ==> (samples is Some ==> m.allocates_samples())
            && (samples is None ==> (m is DirectStateAccess || !m.allocates_samples())),
        v2.at_least(v) && storage_method(v, e, samples) is Some ==> storage_method(
            v2,
            e,
            samples,
        ) is Some,
{
}

/// Whether a backend can create a render buffer with `samples` samples.
pub open spec fn renderbuffers_supported(context: Backend, samples: Option<u32>) -> bool {
    storage_method(context.version, context.extensions, samples) is Some
}

/// The entry point that deletes a render buffer.
#[derive(Debug, Clone, Copy, PartialEq, Eq, Structural)]
pub enum DeleteRenderbuffersFunction {
    /// `glDeleteRenderbuffers`.
    Core,
    /// `glDeleteRenderbuffersEXT`.
    Ext,
}

/// Whether a backend of version `v` with extensions `e` can delete render buffers.
pub open spec fn renderbuffer_deletion_supported(v: Version, e: ExtensionsList) -> bool {
    ver_ge(v, Api::Gl, 3, 0) || ver_ge(v, Api::GlEs, 2, 0) || e.gl_ext_framebuffer_object
}

/// A render buffer of indeterminate type.
#[derive(Copy, Clone, Debug, PartialEq, Eq, Structural)]
pub struct RenderBufferAny {
    context: Backend,
    id: u32,
    format: u32,
    storage: RenderbufferStorage,
    width: u32,
    height: u32,
    samples: Option<u32>,
    kind: TextureKind,
    depth_bits: u16,
    stencil_bits: u16,
}

impl RenderBufferAny {
    /// The backend of the render buffer.
    pub closed spec fn context_view(&self) -> Backend {
        self.context
    }

    /// The OpenGL name of the render buffer (0 until it has been created).
    pub closed spec fn id_view(&self) -> u32 {
        self.id
    }

    /// The internal format of the render buffer.
    pub closed spec fn format_view(&self) -> u32 {
        self.format
    }

    /// The entry points that allocate the storage.
    pub closed spec fn storage_view(&self) -> RenderbufferStorage {
        self.storage
    }

    /// The width and height.
    pub closed spec fn dimensions_view(&self) -> (u32, u32) {
        (self.width, self.height)
    }

    /// The number of samples, or `None` without multisampling.
    pub closed spec fn samples_view(&self) -> Option<u32> {
        self.samples
    }

    /// The kind of the render buffer.
    pub closed spec fn kind_view(&self) -> TextureKind {
        self.kind
    }

    /// The number of depth and stencil bits of the storage, as the backend reports them.
    pub closed spec fn depth_stencil_bits_view(&self) -> (u16, u16) {
        (self.depth_bits, self.stencil_bits)
    }

    /// Describes a new render buffer: its storage is allocated with the entry points that the
    /// backend offers, chosen in this order: direct state access, the multisample entry points
    /// (core, then the APPLE, ANGLE, EXT and NV extensions), the core entry points, and those of
    /// `GL_EXT_framebuffer_object`.
    fn new(
        context: &Backend,
        format: u32,
        kind: TextureKind,
        width: u32,
        height: u32,
        samples: Option<u32>,
    ) -> (r: RenderBufferAny)
        requires
            renderbuffers_supported(*context, samples),
        ensures
            r.context_view() == *context,
            r.id_view() == 0,
            r.format_view() == format,
            Some(r.storage_view()) == storage_method(context.version, context.extensions, samples),
            r.dimensions_view() == (width, height),
            r.samples_view() == samples,
            r.kind_view() == kind,
            r.depth_stencil_bits_view() == (0u16, 0u16),
    {
        let v = &context.version;
        let e = &context.extensions;
        let ms_core = version_ge(v, Api::Gl, 3, 0) || version_ge(v, Api::GlEs, 3, 0);
        let storage = if version_ge(v, Api::Gl, 4, 5) || e.gl_arb_direct_state_access {
            RenderbufferStorage::DirectStateAccess
        } else if samples.is_some() && (ms_core || e.gl_apple_framebuffer_multisample
            || e.gl_angle_framebuffer_multisample || e.gl_ext_multisampled_render_to_texture
            || e.gl_nv_framebuffer_multisample) {
            if ms_core {
                RenderbufferStorage::Multisample
            } else if e.gl_apple_framebuffer_multisample {
                RenderbufferStorage::MultisampleApple
            } else if e.gl_angle_framebuffer_multisample {
                RenderbufferStorage::MultisampleAngle
            } else if e.gl_ext_multisampled_render_to_texture {
                RenderbufferStorage::MultisampleExt
            } else {
                RenderbufferStorage::MultisampleNv
            }
        } else if samples.is_none() && (version_ge(v, Api::Gl, 3, 0) || version_ge(
            v,
            Api::GlEs,
            2,
            0,
        )) {
            RenderbufferStorage::Regular
        } else if samples.is_some() && e.gl_ext_framebuffer_object
            && e.gl_ext_framebuffer_multisample {
            RenderbufferStorage::ExtMultisample
        } else {
            RenderbufferStorage::Ext
        };
        RenderBufferAny {
            context: *context,
            id: 0,
            format,
            storage,
            width,
            height,
            samples,
            kind,
            depth_bits: 0,
            stencil_bits: 0,
        }
    }

    /// Records what the backend reported once the storage was allocated: the OpenGL name of
    /// the render buffer, and its number of depth and stencil bits.
    pub fn set_created(&mut self, id: u32, depth_stencil_bits: (u16, u16))
        ensures
            final(self).id_view() == id,
            final(self).depth_stencil_bits_view() == depth_stencil_bits,
            final(self).context_view() == old(self).context_view(),
            final(self).format_view() == old(self).format_view(),
            final(self).storage_view() == old(self).storage_view(),
            final(self).dimensions_view() == old(self).dimensions_view(),
            final(self).samples_view() == old(self).samples_view(),
            final(self).kind_view() == old(self).kind_view(),
    {
        self.id = id;
        self.depth_bits = depth_stencil_bits.0;
        self.stencil_bits = depth_stencil_bits.1;
    }

    /// Returns the entry point that deletes this render buffer, and updates `bound`, the render
    /// buffer bound to `GL_RENDERBUFFER`: if it is this one, nothing is bound afterwards.
    pub fn destroy(&self, bound: &mut u32) -> (r: DeleteRenderbuffersFunction)
        requires
            renderbuffer_deletion_supported(
                self.context_view().version,
                self.context_view().extensions,
            ),
        ensures
            *final(bound) == (if *old(bound) == self.id_view() {
                0
            } else {
                *old(bound)
            }),
            r == (if ver_ge(self.context_view().version, Api::Gl, 3, 0) || ver_ge(
                self.context_view().version,
                Api::GlEs,
                2,
                0,
            ) {
                DeleteRenderbuffersFunction::Core
            } else {
                DeleteRenderbuffersFunction::Ext
            }),
    {
        if *bound == self.id {
            *bound = 0;
        }
        if version_ge(&self.context.version, Api::Gl, 3, 0) || version_ge(
            &self.context.version,
            Api::GlEs,
            2,
            0,
        ) {
            DeleteRenderbuffersFunction::Core
        } else {
            DeleteRenderbuffersFunction::Ext
        }
    }

    /// Returns the OpenGL name of the render buffer.
    pub fn get_id(&self) -> (r: u32)
        ensures
            r == self.id_view(),
    {
        self.id
    }

    /// Returns the internal format of the render buffer.
    pub fn get_format(&self) -> (r: u32)
        ensures
            r == self.format_view(),
    {
        self.format
    }

    /// Returns the entry points that allocate the storage of the render buffer.
    pub fn get_storage(&self) -> (r: RenderbufferStorage)
        ensures
            r == self.storage_view(),
    {
        self.storage
    }

    /// Returns the dimensions of the render buffer.
    pub fn get_dimensions(&self) -> (r: (u32, u32))
        ensures
            r == self.dimensions_view(),
    {
        (self.width, self.height)
    }

    /// Returns the number of samples of the render buffer, or `None` if multisampling isn't
    /// enabled.
    pub fn get_samples(&self) -> (r: Option<u32>)
        ensures
            r == self.samples_view(),
    {
        self.samples
    }

    /// Returns the backend used to create this render buffer.
    pub fn get_context(&self) -> (r: &Backend)
        ensures
            *r == self.context_view(),
    {
        &self.context
    }

    /// Returns the kind of render buffer.
    pub fn kind(&self) -> (r: TextureKind)
        ensures
            r == self.kind_view(),
    {
        self.kind
    }

    /// Returns the number of depth bits and of stencil bits in the format of this render
    /// buffer.
    pub fn get_depth_stencil_bits(&self) -> (r: (u16, u16))
        ensures
            r == self.depth_stencil_bits_view(),
    {
        (self.depth_bits, self.stencil_bits)
    }
}

/// The render buffer that `format_request_to_glenum` and `RenderBufferAny::new` describe for a
/// request of `format` as a render buffer of `kind`, without multisampling.
pub open spec fn render_buffer_result(
    context: Backend,
    format: TextureFormat,
    kind: TextureKind,
    width: u32,
    height: u32,
    r: Result<RenderBufferAny, CreationError>,
) -> bool {
    match format_request_result(
        context.version,
        context.extensions,
        TextureFormatRequest::Specific(format),
        RequestType::Renderbuffer,
    ) {
        Ok(glenum) => r matches Ok(b) && b.context_view() == context && b.id_view() == 0
            && b.format_view() == glenum && Some(b.storage_view()) == storage_method(
            context.version,
            context.extensions,
            None,
        ) && b.dimensions_view() == (width, height) && b.samples_view() == None::<u32>
            && b.kind_view() == kind,
        Err(_) => r == Err::<RenderBufferAny, CreationError>(CreationError::FormatNotSupported),
    }
}

/// Whether a render buffer of `format` can be requested on `context`: where the backend
/// supports the format for render buffers, it must have render buffers (a format it does not
/// support gives `FormatNotSupported` whatever the backend).
pub open spec fn render_buffer_request_valid(context: Backend, format: TextureFormat) -> bool {
    format_request_result(
        context.version,
        context.extensions,
        TextureFormatRequest::Specific(format),
        RequestType::Renderbuffer,
    ) is Ok ==> renderbuffers_supported(context, None)
}

/// Chooses the internal format of a render buffer and describes it.
fn new_render_buffer(
    context: &Backend,
    format: TextureFormat,
    kind: TextureKind,
    width: u32,
    height: u32,
) -> (r: Result<RenderBufferAny, CreationError>)
    requires
        render_buffer_request_valid(*context, format),
    ensures
        render_buffer_result(*context, format, kind, width, height, r),
{
    let request = TextureFormatRequest::Specific(format);
    match image_format::format_request_to_glenum(context, request, RequestType::Renderbuffer) {
        Ok(glenum) => Ok(RenderBufferAny::new(context, glenum, kind, width, height, None)),
        Err(_) => Err(CreationError::FormatNotSupported),
    }
}

/// A render buffer with a color format.
#[derive(Debug)]
pub struct RenderBuffer {
    buffer: RenderBufferAny,
}

impl RenderBuffer {
    /// The render buffer of indeterminate type.
    pub closed spec fn any_view(&self) -> RenderBufferAny {
        self.buffer
    }

    /// Builds a new render buffer.
    pub fn new(context: &Backend, format: UncompressedFloatFormat, width: u32, height: u32) -> (r:
        Result<RenderBuffer, CreationError>)
        requires
            render_buffer_request_valid(*context, TextureFormat::UncompressedFloat(format)),
        ensures
            render_buffer_result(
                *context,
                TextureFormat::UncompressedFloat(format),
                TextureKind::Float,
                width,
                height,
                match r {
                    Ok(b) => Ok(b.any_view()),
                    Err(e) => Err(e),
                },
            ),
    {
        match new_render_buffer(
            context,
            TextureFormat::UncompressedFloat(format),
            TextureKind::Float,
            width,
            height,
        ) {
            Ok(buffer) => Ok(RenderBuffer { buffer }),
            Err(e) => Err(e),
        }
    }

    /// Returns the render buffer of indeterminate type.
    pub fn buffer(&self) -> (r: &RenderBufferAny)
        ensures
            *r == self.any_view(),
    {
        &self.buffer
    }

    /// Returns the render buffer of indeterminate type, to record its creation.
    pub fn buffer_mut(&mut self) -> (r: &mut RenderBufferAny)
        ensures
            *r == old(self).any_view(),
            final(self).any_view() == *final(r),
    {
        &mut self.buffer
    }
}

/// A render buffer with a depth format.
#[derive(Debug)]
pub struct DepthRenderBuffer {
    buffer: RenderBufferAny,
}

impl DepthRenderBuffer {
    /// The render buffer of indeterminate type.
    pub closed spec fn any_view(&self) -> RenderBufferAny {
        self.buffer
    }

    /// Builds a new render buffer.
    pub fn new(context: &Backend, format: DepthFormat, width: u32, height: u32) -> (r: Result<
        DepthRenderBuffer,
        CreationError,
    >)
        requires
            render_buffer_request_valid(*context, TextureFormat::DepthFormat(format)),
        ensures
            render_buffer_result(
                *context,
                TextureFormat::DepthFormat(format),
                TextureKind::Depth,
                width,
                height,
                match r {
                    Ok(b) => Ok(b.any_view()),
                    Err(e) => Err(e),
                },
            ),
    {
        match new_render_buffer(
            context,
            TextureFormat::DepthFormat(format),
            TextureKind::Depth,
            width,
            height,
        ) {
            Ok(buffer) => Ok(DepthRenderBuffer { buffer }),
            Err(e) => Err(e),
        }
    }

    /// Returns the render buffer of indeterminate type.
    pub fn buffer(&self) -> (r: &RenderBufferAny)
        ensures
            *r == self.any_view(),
    {
        &self.buffer
    }

    /// Returns the render buffer of indeterminate type, to record its creation.
    pub fn buffer_mut(&mut self) -> (r: &mut RenderBufferAny)
        ensures
            *r == old(self).any_view(),
            final(self).any_view() == *final(r),
    {
        &mut self.buffer
    }
}

/// A render buffer with a stencil format.
#[derive(Debug)]
pub struct StencilRenderBuffer {
    buffer: RenderBufferAny,
}

impl StencilRenderBuffer {
    /// The render buffer of indeterminate type.
    pub closed spec fn any_view(&self) -> RenderBufferAny {
        self.buffer
    }

    /// Builds a new render buffer.
    pub fn new(context: &Backend, format: StencilFormat, width: u32, height: u32) -> (r: Result<
        StencilRenderBuffer,
        CreationError,
    >)
        requires
            render_buffer_request_valid(*context, TextureFormat::StencilFormat(format)),
        ensures
            render_buffer_result(
                *context,
                TextureFormat::StencilFormat(format),
                TextureKind::Stencil,
                width,
                height,
                match r {
                    Ok(b) => Ok(b.any_view()),
                    Err(e) => Err(e),
                },
            ),
    {
        match new_render_buffer(
            context,
            TextureFormat::StencilFormat(format),
            TextureKind::Stencil,
            width,
            height,
        ) {
            Ok(buffer) => Ok(StencilRenderBuffer { buffer }),
            Err(e) => Err(e),
        }
    }

    /// Returns the render buffer of indeterminate type.
    pub fn buffer(&self) -> (r: &RenderBufferAny)
        ensures
            *r == self.any_view(),
    {
        &self.buffer
    }

    /// Returns the render buffer of indeterminate type, to record its creation.
    pub fn buffer_mut(&mut self) -> (r: &mut RenderBufferAny)
        ensures
            *r == old(self).any_view(),
            final(self).any_view() == *final(r),
    {
        &mut self.buffer
    }
}

/// A render buffer with a depth-stencil format.
#[derive(Debug)]
pub struct DepthStencilRenderBuffer {
    buffer: RenderBufferAny,
}

impl DepthStencilRenderBuffer {
    /// The render buffer of indeterminate type.
    pub closed spec fn any_view(&self) -> RenderBufferAny {
        self.buffer
    }

    /// Builds a new render buffer.
    pub fn new(context: &Backend, format: DepthStencilFormat, width: u32, height: u32) -> (r:
        Result<DepthStencilRenderBuffer, CreationError>)
        requires
            render_buffer_request_valid(*context, TextureFormat::DepthStencilFormat(format)),
        ensures
            render_buffer_result(
                *context,
                TextureFormat::DepthStencilFormat(format),
                TextureKind::DepthStencil,
                width,
                height,
                match r {
                    Ok(b) => Ok(b.any_view()),
                    Err(e) => Err(e),
                },
            ),
    {
        match new_render_buffer(
            context,
            TextureFormat::DepthStencilFormat(format),
            TextureKind::DepthStencil,
            width,
            height,
        ) {
            Ok(buffer) => Ok(DepthStencilRenderBuffer { buffer }),
            Err(e) => Err(e),
        }
    }

    /// Returns the render buffer of indeterminate type.
    pub fn buffer(&self) -> (r: &RenderBufferAny)
        ensures
            *r == self.any_view(),
    {
        &self.buffer
    }

    /// Returns the render buffer of indeterminate type, to record its creation.
    pub fn buffer_mut(&mut self) -> (r: &mut RenderBufferAny)
        ensures
            *r == old(self).any_view(),
            final(self).any_view() == *final(r),
    {
        &mut self.buffer
    }
}

} // verus!
