//! Render buffers of the first generation of the API: the internal format is the sized format
//! requested, and the storage is allocated with direct state access, the core entry points or
//! those of `GL_EXT_framebuffer_object`, whichever the backend offers first.

use vstd::prelude::*;

use crate::framebuffer::render_buffer::RenderbufferStorage;
use crate::image_format::{UncompressedFloatFormat, DepthFormat, StencilFormat, DepthStencilFormat};
use crate::version::{Api, Backend, ExtensionsList, Version, ver_ge, version_ge};
use crate::GlObject;

verus! {

/// The entry points that allocate the storage of a render buffer on a backend of version `v`
/// with extensions `e`, or `None` if the backend has no render buffers.
pub open spec fn storage_method(v: Version, e: ExtensionsList) -> Option<RenderbufferStorage> {
    if ver_ge(v, Api::Gl, 4, 5) || e.gl_arb_direct_state_access {
        Some(RenderbufferStorage::DirectStateAccess)
    } else if ver_ge(v, Api::Gl, 3, 0) || ver_ge(v, Api::GlEs, 2, 0) {
        Some(RenderbufferStorage::Regular)
    } else if e.gl_ext_framebuffer_object {
        Some(RenderbufferStorage::Ext)
    } else {
        None
    }
}

/// Whether a backend has render buffers.
pub open spec fn renderbuffers_supported(context: Backend) -> bool {
    storage_method(context.version, context.extensions) is Some
}

/// The implementation shared by all render buffers.
#[derive(Debug, PartialEq, Eq, Structural)]
struct RenderBufferImpl {
    context: Backend,
    id: u32,
    format: u32,
    storage: RenderbufferStorage,
    width: u32,
    height: u32,
}

impl RenderBufferImpl {
    fn new(context: &Backend, format: u32, width: u32, height: u32) -> (r: RenderBufferImpl)
        requires
            renderbuffers_supported(*context),
        ensures
            r == (RenderBufferImpl {
                context: *context,
                id: 0,
                format,
                storage: storage_method(context.version, context.extensions).unwrap(),
                width,
                height,
            }),
    {
        let v = &context.version;
        let storage = if version_ge(v, Api::Gl, 4, 5) || context.extensions.gl_arb_direct_state_access {
            RenderbufferStorage::DirectStateAccess
        } else if version_ge(v, Api::Gl, 3, 0) || version_ge(v, Api::GlEs, 2, 0) {
            RenderbufferStorage::Regular
        } else {
            RenderbufferStorage::Ext
        };
        RenderBufferImpl { context: *context, id: 0, format, storage, width, height }
    }
}

/// A render buffer with a color format.
#[derive(Debug)]
pub struct RenderBuffer {
    buffer: RenderBufferImpl,
}

impl RenderBuffer {
    /// The backend of the render buffer.
    pub closed spec fn context_view(&self) -> Backend {
        self.buffer.context
    }

    /// The OpenGL name of the render buffer (0 until it has been created).
    pub closed spec fn id_view(&self) -> u32 {
        self.buffer.id
    }

    /// The internal format of the render buffer.
    pub closed spec fn format_view(&self) -> u32 {
        self.buffer.format
    }

    /// The entry points that allocate the storage.
    pub closed spec fn storage_view(&self) -> RenderbufferStorage {
        self.buffer.storage
    }

    /// The width and height.
    pub closed spec fn dimensions_view(&self) -> (u32, u32) {
        (self.buffer.width, self.buffer.height)
    }

    /// Builds a new render buffer.
    pub fn new(context: &Backend, format: UncompressedFloatFormat, width: u32, height: u32) -> (r: RenderBuffer)
        requires
            renderbuffers_supported(*context),
        ensures
            r.context_view() == *context,
            r.id_view() == 0,
            r.format_view() == format.glenum(),
            Some(r.storage_view()) == storage_method(context.version, context.extensions),
            r.dimensions_view() == (width, height),
    {
        RenderBuffer { buffer: RenderBufferImpl::new(context, format.to_glenum(), width, height) }
    }

    /// Returns the dimensions of the render buffer.
    pub fn get_dimensions(&self) -> (r: (u32, u32))
        ensures
            r == self.dimensions_view(),
    {
        (self.buffer.width, self.buffer.height)
    }

    /// Returns the internal format of the render buffer.
    pub fn get_format(&self) -> (r: u32)
        ensures
            r == self.format_view(),
    {
        self.buffer.format
    }

    /// Returns the entry points that allocate the storage of the render buffer.
    pub fn get_storage(&self) -> (r: RenderbufferStorage)
        ensures
            r == self.storage_view(),
    {
        self.buffer.storage
    }

    /// Records the OpenGL name that the backend gave to the render buffer.
    pub fn set_id(&mut self, id: u32)
        ensures
            final(self).id_view() == id,
            final(self).context_view() == old(self).context_view(),
            final(self).format_view() == old(self).format_view(),
            final(self).storage_view() == old(self).storage_view(),
            final(self).dimensions_view() == old(self).dimensions_view(),
    {
        self.buffer.id = id;
    }
}

impl GlObject for RenderBuffer {
    type Id = u32;

    fn get_id(&self) -> (r: u32)
        ensures
            r == self.id_view(),
    {
        self.buffer.id
    }
}

/// A render buffer with a depth format.
#[derive(Debug)]
pub struct DepthRenderBuffer {
    buffer: RenderBufferImpl,
}

impl DepthRenderBuffer {
    /// The backend of the render buffer.
    pub closed spec fn context_view(&self) -> Backend {
        self.buffer.context
    }

    /// The OpenGL name of the render buffer (0 until it has been created).
    pub closed spec fn id_view(&self) -> u32 {
        self.buffer.id
    }

    /// The internal format of the render buffer.
    pub closed spec fn format_view(&self) -> u32 {
        self.buffer.format
    }

    /// The entry points that allocate the storage.
    pub closed spec fn storage_view(&self) -> RenderbufferStorage {
        self.buffer.storage
    }

    /// The width and height.
    pub closed spec fn dimensions_view(&self) -> (u32, u32) {
        (self.buffer.width, self.buffer.height)
    }

    /// Builds a new render buffer.
    pub fn new(context: &Backend, format: DepthFormat, width: u32, height: u32) -> (r: DepthRenderBuffer)
        requires
            renderbuffers_supported(*context),
        ensures
            r.context_view() == *context,
            r.id_view() == 0,
            r.format_view() == format.glenum(),
            Some(r.storage_view()) == storage_method(context.version, context.extensions),
            r.dimensions_view() == (width, height),
    {
        DepthRenderBuffer { buffer: RenderBufferImpl::new(context, format.to_glenum(), width, height) }
    }

    /// Returns the dimensions of the render buffer.
    pub fn get_dimensions(&self) -> (r: (u32, u32))
        ensures
            r == self.dimensions_view(),
    {
        (self.buffer.width, self.buffer.height)
    }

    /// Returns the internal format of the render buffer.
    pub fn get_format(&self) -> (r: u32)
        ensures
            r == self.format_view(),
    {
        self.buffer.format
    }

    /// Returns the entry points that allocate the storage of the render buffer.
    pub fn get_storage(&self) -> (r: RenderbufferStorage)
        ensures
            r == self.storage_view(),
    {
        self.buffer.storage
    }

    /// Records the OpenGL name that the backend gave to the render buffer.
    pub fn set_id(&mut self, id: u32)
        ensures
            final(self).id_view() == id,
            final(self).context_view() == old(self).context_view(),
            final(self).format_view() == old(self).format_view(),
            final(self).storage_view() == old(self).storage_view(),
            final(self).dimensions_view() == old(self).dimensions_view(),
    {
        self.buffer.id = id;
    }
}

impl GlObject for DepthRenderBuffer {
    type Id = u32;

    fn get_id(&self) -> (r: u32)
        ensures
            r == self.id_view(),
    {
        self.buffer.id
    }
}

/// A render buffer with a stencil format.
#[derive(Debug)]
pub struct StencilRenderBuffer {
    buffer: RenderBufferImpl,
}

impl StencilRenderBuffer {
    /// The backend of the render buffer.
    pub closed spec fn context_view(&self) -> Backend {
        self.buffer.context
    }

    /// The OpenGL name of the render buffer (0 until it has been created).
    pub closed spec fn id_view(&self) -> u32 {
        self.buffer.id
    }

    /// The internal format of the render buffer.
    pub closed spec fn format_view(&self) -> u32 {
        self.buffer.format
    }

    /// The entry points that allocate the storage.
    pub closed spec fn storage_view(&self) -> RenderbufferStorage {
        self.buffer.storage
    }

    /// The width and height.
    pub closed spec fn dimensions_view(&self) -> (u32, u32) {
        (self.buffer.width, self.buffer.height)
    }

    /// Builds a new render buffer.
    pub fn new(context: &Backend, format: StencilFormat, width: u32, height: u32) -> (r: StencilRenderBuffer)
        requires
            renderbuffers_supported(*context),
        ensures
            r.context_view() == *context,
            r.id_view() == 0,
            r.format_view() == format.glenum(),
            Some(r.storage_view()) == storage_method(context.version, context.extensions),
            r.dimensions_view() == (width, height),
    {
        StencilRenderBuffer { buffer: RenderBufferImpl::new(context, format.to_glenum(), width, height) }
    }

    /// Returns the dimensions of the render buffer.
    pub fn get_dimensions(&self) -> (r: (u32, u32))
        ensures
            r == self.dimensions_view(),
    {
        (self.buffer.width, self.buffer.height)
    }

    /// Returns the internal format of the render buffer.
    pub fn get_format(&self) -> (r: u32)
        ensures
            r == self.format_view(),
    {
        self.buffer.format
    }

    /// Returns the entry points that allocate the storage of the render buffer.
    pub fn get_storage(&self) -> (r: RenderbufferStorage)
        ensures
            r == self.storage_view(),
    {
        self.buffer.storage
    }

    /// Records the OpenGL name that the backend gave to the render buffer.
    pub fn set_id(&mut self, id: u32)
        ensures
            final(self).id_view() == id,
            final(self).context_view() == old(self).context_view(),
            final(self).format_view() == old(self).format_view(),
            final(self).storage_view() == old(self).storage_view(),
            final(self).dimensions_view() == old(self).dimensions_view(),
    {
        self.buffer.id = id;
    }
}

impl GlObject for StencilRenderBuffer {
    type Id = u32;

    fn get_id(&self) -> (r: u32)
        ensures
            r == self.id_view(),
    {
        self.buffer.id
    }
}

/// A render buffer with a depth-stencil format.
#[derive(Debug)]
pub struct DepthStencilRenderBuffer {
    buffer: RenderBufferImpl,
}

impl DepthStencilRenderBuffer {
    /// The backend of the render buffer.
    pub closed spec fn context_view(&self) -> Backend {
        self.buffer.context
    }

    /// The OpenGL name of the render buffer (0 until it has been created).
    pub closed spec fn id_view(&self) -> u32 {
        self.buffer.id
    }

    /// The internal format of the render buffer.
    pub closed spec fn format_view(&self) -> u32 {
        self.buffer.format
    }

    /// The entry points that allocate the storage.
    pub closed spec fn storage_view(&self) -> RenderbufferStorage {
        self.buffer.storage
    }

    /// The width and height.
    pub closed spec fn dimensions_view(&self) -> (u32, u32) {
        (self.buffer.width, self.buffer.height)
    }

    /// Builds a new render buffer.
    pub fn new(context: &Backend, format: DepthStencilFormat, width: u32, height: u32) -> (r: DepthStencilRenderBuffer)
        requires
            renderbuffers_supported(*context),
        ensures
            r.context_view() == *context,
            r.id_view() == 0,
            r.format_view() == format.glenum(),
            Some(r.storage_view()) == storage_method(context.version, context.extensions),
            r.dimensions_view() == (width, height),
    {
        DepthStencilRenderBuffer { buffer: RenderBufferImpl::new(context, format.to_glenum(), width, height) }
    }

    /// Returns the dimensions of the render buffer.
    pub fn get_dimensions(&self) -> (r: (u32, u32))
        ensures
            r == self.dimensions_view(),
    {
        (self.buffer.width, self.buffer.height)
    }

    /// Returns the internal format of the render buffer.
    pub fn get_format(&self) -> (r: u32)
        ensures
            r == self.format_view(),
    {
        self.buffer.format
    }

    /// Returns the entry points that allocate the storage of the render buffer.
    pub fn get_storage(&self) -> (r: RenderbufferStorage)
        ensures
            r == self.storage_view(),
    {
        self.buffer.storage
    }

    /// Records the OpenGL name that the backend gave to the render buffer.
    pub fn set_id(&mut self, id: u32)
        ensures
            final(self).id_view() == id,
            final(self).context_view() == old(self).context_view(),
            final(self).format_view() == old(self).format_view(),
            final(self).storage_view() == old(self).storage_view(),
            final(self).dimensions_view() == old(self).dimensions_view(),
    {
        self.buffer.id = id;
    }
}

impl GlObject for DepthStencilRenderBuffer {
    type Id = u32;

    fn get_id(&self) -> (r: u32)
        ensures
            r == self.id_view(),
    {
        self.buffer.id
    }
}

} // verus!
