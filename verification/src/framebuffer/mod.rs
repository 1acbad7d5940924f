//! Framebuffers: the color, depth and stencil buffers that are drawn on.
//!
//! Some restrictions apply: all attachments must have the same number of samples, or must all
//! have multisampling disabled; on old hardware all attachments must have the same dimensions
//! (on more recent hardware the intersection between all the attachments is taken); and empty
//! framebuffers are only supported by recent hardware.

pub mod default_fb;
pub mod render_buffer;

use vstd::prelude::*;

use crate::fbo::{
    self, DepthStencilAttachments, FramebufferAttachments, FramebufferSpecificAttachments,
    RegularAttachment, ValidatedAttachments, empty_framebuffers_supported, empty_request_valid,
    empty_validated,
};
use crate::texture::TextureAnyImage;
use crate::version::{Api, Backend, CapabilitiesSource, ExtensionsList, Version, ver_ge, version_ge};

pub use self::default_fb::{DefaultFramebufferAttachment, DefaultFramebuffer};
pub use self::render_buffer::{
    RenderBuffer, RenderBufferAny, DepthRenderBuffer, StencilRenderBuffer, DepthStencilRenderBuffer,
};
pub use self::render_buffer::CreationError as RenderBufferCreationError;
pub use crate::fbo::{is_dimensions_mismatch_supported, ValidationError};

verus! {

/// The value of an optional limit of the backend, as an unsigned number.
pub open spec fn limit_as_u32(limit: Option<i32>) -> Option<u32> {
    match limit {
        Some(v) => Some(v as u32),
        None => None,
    }
}

fn limit_to_u32(limit: Option<i32>) -> (r: Option<u32>)
    ensures
        r == limit_as_u32(limit),
{
    match limit {
        Some(v) => Some(v as u32),
        None => None,
    }
}

/// Whether a backend of version `v` with extensions `e` supports layered empty framebuffers.
pub open spec fn layered_empty_framebuffers_supported(v: Version, e: ExtensionsList) -> bool {
    ver_ge(v, Api::Gl, 4, 3) || ver_ge(v, Api::GlEs, 3, 2) || e.gl_arb_framebuffer_no_attachments
}

/// A framebuffer with no attachment at all.
///
/// Note that this is only supported on recent hardware.
#[derive(Debug)]
pub struct EmptyFrameBuffer {
    context: Backend,
    attachments: ValidatedAttachments<'static>,
}

impl EmptyFrameBuffer {
    /// The backend of the framebuffer.
    pub closed spec fn context_view(&self) -> Backend {
        self.context
    }

    /// The validated attachments of the framebuffer.
    pub closed spec fn attachments_view(&self) -> ValidatedAttachments<'static> {
        self.attachments
    }

    /// Returns true if empty framebuffers are supported by the backend.
    pub fn is_supported<C: CapabilitiesSource>(context: &C) -> (r: bool)
        ensures
            r == empty_framebuffers_supported(context.version_view(), context.extensions_view()),
    {
        let v = context.get_version();
        version_ge(v, Api::Gl, 4, 3) || version_ge(v, Api::GlEs, 3, 1)
            || context.get_extensions().gl_arb_framebuffer_no_attachments
    }

    /// Returns true if layered empty framebuffers are supported by the backend.
    pub fn is_layered_supported<C: CapabilitiesSource>(context: &C) -> (r: bool)
        ensures
            r == layered_empty_framebuffers_supported(
                context.version_view(),
                context.extensions_view(),
            ),
    {
        let v = context.get_version();
        version_ge(v, Api::Gl, 4, 3) || version_ge(v, Api::GlEs, 3, 2)
            || context.get_extensions().gl_arb_framebuffer_no_attachments
    }

    /// Returns the maximum width of empty framebuffers that the backend supports, or `None` if
    /// empty framebuffers are not supported.
    pub fn get_max_supported_width<C: CapabilitiesSource>(context: &C) -> (r: Option<u32>)
        ensures
            r == limit_as_u32(context.capabilities_view().max_framebuffer_width),
    {
        limit_to_u32(context.get_capabilities().max_framebuffer_width)
    }

    /// Returns the maximum height of empty framebuffers that the backend supports, or `None` if
    /// empty framebuffers are not supported.
    pub fn get_max_supported_height<C: CapabilitiesSource>(context: &C) -> (r: Option<u32>)
        ensures
            r == limit_as_u32(context.capabilities_view().max_framebuffer_height),
    {
        limit_to_u32(context.get_capabilities().max_framebuffer_height)
    }

    /// Returns the maximum number of samples of empty framebuffers that the backend supports,
    /// or `None` if empty framebuffers are not supported.
    pub fn get_max_supported_samples<C: CapabilitiesSource>(context: &C) -> (r: Option<u32>)
        ensures
            r == limit_as_u32(context.capabilities_view().max_framebuffer_samples),
    {
        limit_to_u32(context.get_capabilities().max_framebuffer_samples)
    }

    /// Returns the maximum number of layers of empty framebuffers that the backend supports,
    /// or `None` if layered empty framebuffers are not supported.
    pub fn get_max_supported_layers<C: CapabilitiesSource>(context: &C) -> (r: Option<u32>)
        ensures
            r == limit_as_u32(context.capabilities_view().max_framebuffer_layers),
    {
        limit_to_u32(context.get_capabilities().max_framebuffer_layers)
    }

    /// Creates an `EmptyFrameBuffer`.
    ///
    /// On a backend that supports empty framebuffers, `width` and `height` must be at least 1,
    /// and `layers` and `samples` must not be `Some(0)`.
    pub fn new(
        context: &Backend,
        width: u32,
        height: u32,
        layers: Option<u32>,
        samples: Option<u32>,
        fixed_samples: bool,
    ) -> (r: Result<EmptyFrameBuffer, ValidationError>)
        requires
            empty_framebuffers_supported(context.version, context.extensions) ==> empty_request_valid(
                width,
                height,
                layers,
                samples,
            ),
        ensures
            empty_validated(
                context.version,
                context.extensions,
                context.capabilities,
                width,
                height,
                layers,
                samples,
                fixed_samples,
                match r {
                    Ok(f) => Ok(f.attachments_view()),
                    Err(e) => Err(e),
                },
            ),
            r matches Ok(f) ==> f.context_view() == *context,
    {
        let attachments = FramebufferAttachments::Empty {
            width,
            height,
            layers,
            samples,
            fixed_samples,
        };
        match attachments.validate(context) {
            Ok(attachments) => Ok(EmptyFrameBuffer { context: *context, attachments }),
            Err(e) => Err(e),
        }
    }

    /// Returns the dimensions of the framebuffer.
    pub fn get_dimensions(&self) -> (r: (u32, u32))
        ensures
            r == self.attachments_view().dimensions_view(),
    {
        self.attachments.get_dimensions()
    }

    /// Returns the validated attachments of the framebuffer.
    pub fn get_attachments(&self) -> (r: &ValidatedAttachments<'static>)
        ensures
            *r == self.attachments_view(),
    {
        &self.attachments
    }
}

/// Describes an attachment for a color buffer.
#[derive(Copy, Clone, Debug)]
pub enum ColorAttachment<'a> {
    /// A texture.
    Texture(TextureAnyImage),
    /// A render buffer.
    RenderBuffer(&'a RenderBuffer),
}

/// Trait for objects that can be used as color attachments.
pub trait ToColorAttachment<'a> {
    /// Builds the `ColorAttachment`.
    /// The attachment that `to_color_attachment` builds.
    spec fn color_attachment_view(self) -> ColorAttachment<'a>;

    fn to_color_attachment(self) -> (r: ColorAttachment<'a>)
        ensures
            r == self.color_attachment_view(),
    ;
}

impl<'a> ToColorAttachment<'a> for ColorAttachment<'a> {
    open spec fn color_attachment_view(self) -> ColorAttachment<'a> {
        self
    }

    fn to_color_attachment(self) -> (r: ColorAttachment<'a>) {
        self
    }
}

impl<'a> ToColorAttachment<'a> for &'a RenderBuffer {
    open spec fn color_attachment_view(self) -> ColorAttachment<'a> {
        ColorAttachment::RenderBuffer(self)
    }

    fn to_color_attachment(self) -> (r: ColorAttachment<'a>) {
        ColorAttachment::RenderBuffer(self)
    }
}

/// Describes an attachment for a depth buffer.
#[derive(Copy, Clone, Debug)]
pub enum DepthAttachment<'a> {
    /// A texture.
    Texture(TextureAnyImage),
    /// A render buffer.
    RenderBuffer(&'a DepthRenderBuffer),
}

/// Trait for objects that can be used as depth attachments.
pub trait ToDepthAttachment<'a> {
    /// Builds the `DepthAttachment`.
    /// The attachment that `to_depth_attachment` builds.
    spec fn depth_attachment_view(self) -> DepthAttachment<'a>;

    fn to_depth_attachment(self) -> (r: DepthAttachment<'a>)
        ensures
            r == self.depth_attachment_view(),
    ;
}

impl<'a> ToDepthAttachment<'a> for DepthAttachment<'a> {
    open spec fn depth_attachment_view(self) -> DepthAttachment<'a> {
        self
    }

    fn to_depth_attachment(self) -> (r: DepthAttachment<'a>) {
        self
    }
}

impl<'a> ToDepthAttachment<'a> for &'a DepthRenderBuffer {
    open spec fn depth_attachment_view(self) -> DepthAttachment<'a> {
        DepthAttachment::RenderBuffer(self)
    }

    fn to_depth_attachment(self) -> (r: DepthAttachment<'a>) {
        DepthAttachment::RenderBuffer(self)
    }
}

/// Describes an attachment for a stencil buffer.
#[derive(Copy, Clone, Debug)]
pub enum StencilAttachment<'a> {
    /// A texture.
    Texture(TextureAnyImage),
    /// A render buffer.
    RenderBuffer(&'a StencilRenderBuffer),
}

/// Trait for objects that can be used as stencil attachments.
pub trait ToStencilAttachment<'a> {
    /// Builds the `StencilAttachment`.
    /// The attachment that `to_stencil_attachment` builds.
    spec fn stencil_attachment_view(self) -> StencilAttachment<'a>;

    fn to_stencil_attachment(self) -> (r: StencilAttachment<'a>)
        ensures
            r == self.stencil_attachment_view(),
    ;
}

impl<'a> ToStencilAttachment<'a> for StencilAttachment<'a> {
    open spec fn stencil_attachment_view(self) -> StencilAttachment<'a> {
        self
    }

    fn to_stencil_attachment(self) -> (r: StencilAttachment<'a>) {
        self
    }
}

impl<'a> ToStencilAttachment<'a> for &'a StencilRenderBuffer {
    open spec fn stencil_attachment_view(self) -> StencilAttachment<'a> {
        StencilAttachment::RenderBuffer(self)
    }

    fn to_stencil_attachment(self) -> (r: StencilAttachment<'a>) {
        StencilAttachment::RenderBuffer(self)
    }
}

/// Describes an attachment for a depth and stencil buffer.
#[derive(Copy, Clone, Debug)]
pub enum DepthStencilAttachment<'a> {
    /// A texture.
    Texture(TextureAnyImage),
    /// A render buffer.
    RenderBuffer(&'a DepthStencilRenderBuffer),
}

/// Trait for objects that can be used as depth and stencil attachments.
pub trait ToDepthStencilAttachment<'a> {
    /// Builds the `DepthStencilAttachment`.
    /// The attachment that `to_depth_stencil_attachment` builds.
    spec fn depth_stencil_attachment_view(self) -> DepthStencilAttachment<'a>;

    fn to_depth_stencil_attachment(self) -> (r: DepthStencilAttachment<'a>)
        ensures
            r == self.depth_stencil_attachment_view(),
    ;
}

impl<'a> ToDepthStencilAttachment<'a> for DepthStencilAttachment<'a> {
    open spec fn depth_stencil_attachment_view(self) -> DepthStencilAttachment<'a> {
        self
    }

    fn to_depth_stencil_attachment(self) -> (r: DepthStencilAttachment<'a>) {
        self
    }
}

impl<'a> ToDepthStencilAttachment<'a> for &'a DepthStencilRenderBuffer {
    open spec fn depth_stencil_attachment_view(self) -> DepthStencilAttachment<'a> {
        DepthStencilAttachment::RenderBuffer(self)
    }

    fn to_depth_stencil_attachment(self) -> (r: DepthStencilAttachment<'a>) {
        DepthStencilAttachment::RenderBuffer(self)
    }
}

/// The image that a color attachment designates.
pub open spec fn color_image<'a>(c: ColorAttachment<'a>) -> RegularAttachment<'a> {
    match c {
        ColorAttachment::Texture(t) => RegularAttachment::Texture(t),
        ColorAttachment::RenderBuffer(b) => RegularAttachment::RenderBuffer(&b.any_view()),
    }
}

/// The image that a depth attachment designates.
pub open spec fn depth_image<'a>(d: DepthAttachment<'a>) -> RegularAttachment<'a> {
    match d {
        DepthAttachment::Texture(t) => RegularAttachment::Texture(t),
        DepthAttachment::RenderBuffer(b) => RegularAttachment::RenderBuffer(&b.any_view()),
    }
}

/// The image that a stencil attachment designates.
pub open spec fn stencil_image<'a>(s: StencilAttachment<'a>) -> RegularAttachment<'a> {
    match s {
        StencilAttachment::Texture(t) => RegularAttachment::Texture(t),
        StencilAttachment::RenderBuffer(b) => RegularAttachment::RenderBuffer(&b.any_view()),
    }
}

/// The image that a depth-stencil attachment designates.
pub open spec fn depth_stencil_image<'a>(d: DepthStencilAttachment<'a>) -> RegularAttachment<'a> {
    match d {
        DepthStencilAttachment::Texture(t) => RegularAttachment::Texture(t),
        DepthStencilAttachment::RenderBuffer(b) => RegularAttachment::RenderBuffer(&b.any_view()),
    }
}

fn color_to_image<'a>(c: ColorAttachment<'a>) -> (r: RegularAttachment<'a>)
    ensures
        r == color_image(c),
{
    match c {
        ColorAttachment::Texture(t) => RegularAttachment::Texture(t),
        ColorAttachment::RenderBuffer(b) => RegularAttachment::RenderBuffer(b.buffer()),
    }
}

fn depth_to_image<'a>(d: DepthAttachment<'a>) -> (r: RegularAttachment<'a>)
    ensures
        r == depth_image(d),
{
    match d {
        DepthAttachment::Texture(t) => RegularAttachment::Texture(t),
        DepthAttachment::RenderBuffer(b) => RegularAttachment::RenderBuffer(b.buffer()),
    }
}

fn stencil_to_image<'a>(s: StencilAttachment<'a>) -> (r: RegularAttachment<'a>)
    ensures
        r == stencil_image(s),
{
    match s {
        StencilAttachment::Texture(t) => RegularAttachment::Texture(t),
        StencilAttachment::RenderBuffer(b) => RegularAttachment::RenderBuffer(b.buffer()),
    }
}

fn depth_stencil_to_image<'a>(d: DepthStencilAttachment<'a>) -> (r: RegularAttachment<'a>)
    ensures
        r == depth_stencil_image(d),
{
    match d {
        DepthStencilAttachment::Texture(t) => RegularAttachment::Texture(t),
        DepthStencilAttachment::RenderBuffer(b) => RegularAttachment::RenderBuffer(b.buffer()),
    }
}

/// The depth and/or stencil attachments of a framebuffer built from an optional depth, stencil
/// and depth-stencil attachment: a depth and a stencil attachment together, else the one of them
/// that is given, else the depth-stencil attachment, else none. A depth-stencil attachment is
/// ignored where a depth or a stencil attachment is given.
pub open spec fn depth_stencil_choice<T>(
    depth: Option<T>,
    stencil: Option<T>,
    depthstencil: Option<T>,
) -> DepthStencilAttachments<T> {
    match (depth, stencil) {
        (Some(d), Some(s)) => DepthStencilAttachments::DepthAndStencilAttachments(d, s),
        (Some(d), None) => DepthStencilAttachments::DepthAttachment(d),
        (None, Some(s)) => DepthStencilAttachments::StencilAttachment(s),
        (None, None) => match depthstencil {
            Some(x) => DepthStencilAttachments::DepthStencilAttachment(x),
            None => DepthStencilAttachments::NoAttachment,
        },
    }
}

/// The depth and/or stencil attachments of a framebuffer built from optional attachments of
/// each kind.
pub open spec fn depth_stencil_of<'a>(
    depth: Option<DepthAttachment<'a>>,
    stencil: Option<StencilAttachment<'a>>,
    depthstencil: Option<DepthStencilAttachment<'a>>,
) -> DepthStencilAttachments<RegularAttachment<'a>> {
    depth_stencil_choice(
        match depth {
            Some(d) => Some(depth_image(d)),
            None => None,
        },
        match stencil {
            Some(s) => Some(stencil_image(s)),
            None => None,
        },
        match depthstencil {
            Some(x) => Some(depth_stencil_image(x)),
            None => None,
        },
    )
}

fn choose_depth_stencil<'a>(
    depth: Option<DepthAttachment<'a>>,
    stencil: Option<StencilAttachment<'a>>,
    depthstencil: Option<DepthStencilAttachment<'a>>,
) -> (r: DepthStencilAttachments<RegularAttachment<'a>>)
    ensures
        r == depth_stencil_of(depth, stencil, depthstencil),
{
    match (depth, stencil) {
        (Some(d), Some(s)) => DepthStencilAttachments::DepthAndStencilAttachments(
            depth_to_image(d),
            stencil_to_image(s),
        ),
        (Some(d), None) => DepthStencilAttachments::DepthAttachment(depth_to_image(d)),
        (None, Some(s)) => DepthStencilAttachments::StencilAttachment(stencil_to_image(s)),
        (None, None) => match depthstencil {
            Some(x) => DepthStencilAttachments::DepthStencilAttachment(depth_stencil_to_image(x)),
            None => DepthStencilAttachments::NoAttachment,
        },
    }
}

/// The color attachments of a framebuffer with at most one color buffer: the color attachment,
/// if any, at index 0.
pub open spec fn single_color<'a>(color: Option<ColorAttachment<'a>>) -> Seq<(u32, RegularAttachment<'a>)> {
    match color {
        Some(c) => seq![(0u32, color_image(c))],
        None => Seq::empty(),
    }
}

/// A framebuffer which has only one color attachment.
#[derive(Debug)]
pub struct SimpleFrameBuffer<'a> {
    context: Backend,
    attachments: ValidatedAttachments<'a>,
}

impl<'a> SimpleFrameBuffer<'a> {
    /// The backend of the framebuffer.
    pub closed spec fn context_view(&self) -> Backend {
        self.context
    }

    /// The validated attachments of the framebuffer.
    pub closed spec fn attachments_view(&self) -> ValidatedAttachments<'a> {
        self.attachments
    }

    /// `r` is what building a framebuffer on `context` from these optional attachments gives:
    /// the outcome of validating them together, and a framebuffer of that backend.
    pub open spec fn built_from(
        context: Backend,
        color: Option<ColorAttachment<'a>>,
        depth: Option<DepthAttachment<'a>>,
        stencil: Option<StencilAttachment<'a>>,
        depthstencil: Option<DepthStencilAttachment<'a>>,
        r: Result<SimpleFrameBuffer<'a>, ValidationError>,
    ) -> bool {
        &&& fbo::parts_validated(
            context.version,
            context.extensions,
            context.capabilities,
            single_color(color),
            depth_stencil_of(depth, stencil, depthstencil),
            match r {
                Ok(f) => Ok(f.attachments_view()),
                Err(e) => Err(e),
            },
        )
        &&& r matches Ok(f) ==> f.context_view() == context
    }

    fn new_impl(
        context: &Backend,
        color: Option<ColorAttachment<'a>>,
        depth: Option<DepthAttachment<'a>>,
        stencil: Option<StencilAttachment<'a>>,
        depthstencil: Option<DepthStencilAttachment<'a>>,
    ) -> (r: Result<SimpleFrameBuffer<'a>, ValidationError>)
        ensures
            Self::built_from(*context, color, depth, stencil, depthstencil, r),
    {
        let mut colors: Vec<(u32, RegularAttachment<'a>)> = Vec::new();
        if let Some(c) = color {
            colors.push((0, color_to_image(c)));
        }
        assert(colors@ =~= single_color(color));
        let depth_stencil = choose_depth_stencil(depth, stencil, depthstencil);
        let attachments = FramebufferAttachments::Regular(
            FramebufferSpecificAttachments { colors, depth_stencil },
        );
        match attachments.validate(context) {
            Ok(attachments) => Ok(SimpleFrameBuffer { context: *context, attachments }),
            Err(e) => Err(e),
        }
    }

    /// Creates a `SimpleFrameBuffer` with a single color attachment and no depth nor stencil
    /// buffer.
    pub fn new<C: ToColorAttachment<'a>>(context: &Backend, color: C) -> (r: Result<
        SimpleFrameBuffer<'a>,
        ValidationError,
    >)
        ensures
            Self::built_from(*context, Some(color.color_attachment_view()), None, None, None, r),
    {
        SimpleFrameBuffer::new_impl(context, Some(color.to_color_attachment()), None, None, None)
    }

    /// Creates a `SimpleFrameBuffer` with a single color attachment and a depth buffer, but no
    /// stencil buffer.
    pub fn with_depth_buffer<C: ToColorAttachment<'a>, D: ToDepthAttachment<'a>>(
        context: &Backend,
        color: C,
        depth: D,
    ) -> (r: Result<SimpleFrameBuffer<'a>, ValidationError>)
        ensures
            Self::built_from(
                *context,
                Some(color.color_attachment_view()),
                Some(depth.depth_attachment_view()),
                None,
                None,
                r,
            ),
    {
        SimpleFrameBuffer::new_impl(
            context,
            Some(color.to_color_attachment()),
            Some(depth.to_depth_attachment()),
            None,
            None,
        )
    }

    /// Creates a `SimpleFrameBuffer` with a depth buffer and no color attachment.
    pub fn depth_only<D: ToDepthAttachment<'a>>(context: &Backend, depth: D) -> (r: Result<
        SimpleFrameBuffer<'a>,
        ValidationError,
    >)
        ensures
            Self::built_from(*context, None, Some(depth.depth_attachment_view()), None, None, r),
    {
        SimpleFrameBuffer::new_impl(context, None, Some(depth.to_depth_attachment()), None, None)
    }

    /// Creates a `SimpleFrameBuffer` with a single color attachment, a depth buffer, and a
    /// stencil buffer.
    pub fn with_depth_and_stencil_buffer<
        C: ToColorAttachment<'a>,
        D: ToDepthAttachment<'a>,
        S: ToStencilAttachment<'a>,
    >(context: &Backend, color: C, depth: D, stencil: S) -> (r: Result<
        SimpleFrameBuffer<'a>,
        ValidationError,
    >)
        ensures
            Self::built_from(
                *context,
                Some(color.color_attachment_view()),
                Some(depth.depth_attachment_view()),
                Some(stencil.stencil_attachment_view()),
                None,
                r,
            ),
    {
        SimpleFrameBuffer::new_impl(
            context,
            Some(color.to_color_attachment()),
            Some(depth.to_depth_attachment()),
            Some(stencil.to_stencil_attachment()),
            None,
        )
    }

    /// Creates a `SimpleFrameBuffer` with a depth buffer and a stencil buffer, and no color
    /// attachment.
    pub fn depth_and_stencil_only<D: ToDepthAttachment<'a>, S: ToStencilAttachment<'a>>(
        context: &Backend,
        depth: D,
        stencil: S,
    ) -> (r: Result<SimpleFrameBuffer<'a>, ValidationError>)
        ensures
            Self::built_from(
                *context,
                None,
                Some(depth.depth_attachment_view()),
                Some(stencil.stencil_attachment_view()),
                None,
                r,
            ),
    {
        SimpleFrameBuffer::new_impl(
            context,
            None,
            Some(depth.to_depth_attachment()),
            Some(stencil.to_stencil_attachment()),
            None,
        )
    }

    /// Creates a `SimpleFrameBuffer` with a single color attachment and a stencil buffer, but
    /// no depth buffer.
    pub fn with_stencil_buffer<C: ToColorAttachment<'a>, S: ToStencilAttachment<'a>>(
        context: &Backend,
        color: C,
        stencil: S,
    ) -> (r: Result<SimpleFrameBuffer<'a>, ValidationError>)
        ensures
            Self::built_from(
                *context,
                Some(color.color_attachment_view()),
                None,
                Some(stencil.stencil_attachment_view()),
                None,
                r,
            ),
    {
        SimpleFrameBuffer::new_impl(
            context,
            Some(color.to_color_attachment()),
            None,
            Some(stencil.to_stencil_attachment()),
            None,
        )
    }

    /// Creates a `SimpleFrameBuffer` with a stencil buffer and no color attachment.
    pub fn stencil_only<S: ToStencilAttachment<'a>>(context: &Backend, stencil: S) -> (r: Result<
        SimpleFrameBuffer<'a>,
        ValidationError,
    >)
        ensures
            Self::built_from(*context, None, None, Some(stencil.stencil_attachment_view()), None, r),
    {
        SimpleFrameBuffer::new_impl(context, None, None, Some(stencil.to_stencil_attachment()), None)
    }

    /// Creates a `SimpleFrameBuffer` with a single color attachment and a depth-stencil buffer.
    pub fn with_depth_stencil_buffer<C: ToColorAttachment<'a>, D: ToDepthStencilAttachment<'a>>(
        context: &Backend,
        color: C,
        depthstencil: D,
    ) -> (r: Result<SimpleFrameBuffer<'a>, ValidationError>)
        ensures
            Self::built_from(
                *context,
                Some(color.color_attachment_view()),
                None,
                None,
                Some(depthstencil.depth_stencil_attachment_view()),
                r,
            ),
    {
        SimpleFrameBuffer::new_impl(
            context,
            Some(color.to_color_attachment()),
            None,
            None,
            Some(depthstencil.to_depth_stencil_attachment()),
        )
    }

    /// Creates a `SimpleFrameBuffer` with a depth-stencil buffer and no color attachment.
    pub fn depth_stencil_only<D: ToDepthStencilAttachment<'a>>(
        context: &Backend,
        depthstencil: D,
    ) -> (r: Result<SimpleFrameBuffer<'a>, ValidationError>)
        ensures
            Self::built_from(
                *context,
                None,
                None,
                None,
                Some(depthstencil.depth_stencil_attachment_view()),
                r,
            ),
    {
        SimpleFrameBuffer::new_impl(
            context,
            None,
            None,
            None,
            Some(depthstencil.to_depth_stencil_attachment()),
        )
    }

    /// Returns the dimensions of the framebuffer.
    pub fn get_dimensions(&self) -> (r: (u32, u32))
        ensures
            r == self.attachments_view().dimensions_view(),
    {
        self.attachments.get_dimensions()
    }

    /// Returns the number of bits of the depth buffer, if there is one.
    pub fn get_depth_buffer_bits(&self) -> (r: Option<u16>)
        ensures
            r == self.attachments_view().depth_bits_view(),
    {
        self.attachments.get_depth_buffer_bits()
    }

    /// Returns the number of bits of the stencil buffer, if there is one.
    pub fn get_stencil_buffer_bits(&self) -> (r: Option<u16>)
        ensures
            r == self.attachments_view().stencil_bits_view(),
    {
        self.attachments.get_stencil_buffer_bits()
    }

    /// Returns the validated attachments of the framebuffer.
    pub fn get_attachments(&self) -> (r: &ValidatedAttachments<'a>)
        ensures
            *r == self.attachments_view(),
    {
        &self.attachments
    }
}

/// Whether a color attachment is a texture.
pub open spec fn is_texture_color<'a>(c: ColorAttachment<'a>) -> bool {
    c is Texture
}

/// The color attachments of a framebuffer whose colors are `images`, each at its position in
/// the list.
pub open spec fn indexed_colors<'a>(images: Seq<RegularAttachment<'a>>) -> Seq<(u32, RegularAttachment<'a>)> {
    Seq::new(images.len(), |i: int| (i as u32, images[i]))
}

/// The color attachments of a framebuffer whose colors are `images`, each at the location that
/// the program gives to its output.
pub open spec fn located_colors<'a>(
    images: Seq<RegularAttachment<'a>>,
    locations: Seq<Option<u32>>,
) -> Seq<(u32, RegularAttachment<'a>)> {
    Seq::new(images.len(), |i: int| (locations[i].unwrap(), images[i]))
}

/// A framebuffer whose color attachments are bound to named outputs of a fragment shader.
#[derive(Debug)]
pub struct MultiOutputFrameBuffer<'a> {
    context: Backend,
    example_attachments: ValidatedAttachments<'a>,
    color_attachments: Vec<(String, RegularAttachment<'a>)>,
    depth_stencil_attachments: DepthStencilAttachments<RegularAttachment<'a>>,
}

impl<'a> MultiOutputFrameBuffer<'a> {
    /// The backend of the framebuffer.
    pub closed spec fn context_view(&self) -> Backend {
        self.context
    }

    /// The attachments validated with the colors at indices 0, 1, 2 and so on.
    pub closed spec fn example_attachments_view(&self) -> ValidatedAttachments<'a> {
        self.example_attachments
    }

    /// The names of the outputs that the color attachments are bound to, in order.
    pub closed spec fn output_names(&self) -> Seq<Seq<char>> {
        self.color_attachments@.map_values(|c: (String, RegularAttachment<'a>)| c.0@)
    }

    /// The images of the color attachments, in order.
    pub closed spec fn color_images(&self) -> Seq<RegularAttachment<'a>> {
        self.color_attachments@.map_values(|c: (String, RegularAttachment<'a>)| c.1)
    }

    /// The depth and/or stencil attachments.
    pub closed spec fn depth_stencil_view(&self) -> DepthStencilAttachments<RegularAttachment<'a>> {
        self.depth_stencil_attachments
    }

    /// Whether the number of color attachments fits in an index of 32 bits.
    pub closed spec fn well_formed(&self) -> bool {
        self.color_attachments@.len() <= u32::MAX
    }

    /// `r` is what building a framebuffer on `context` from the named color attachments `color`
    /// and the optional other attachments gives: the outcome of validating the color
    /// attachments at indices 0, 1, 2 and so on with the others, and a framebuffer of that
    /// backend that keeps the attachments and their names.
    pub open spec fn built_from<A: ToColorAttachment<'a>>(
        context: Backend,
        color: Seq<(&'a str, A)>,
        depth: Option<DepthAttachment<'a>>,
        stencil: Option<StencilAttachment<'a>>,
        depthstencil: Option<DepthStencilAttachment<'a>>,
        r: Result<MultiOutputFrameBuffer<'a>, ValidationError>,
    ) -> bool {
        let images = color.map_values(|c: (&'a str, A)| color_image(c.1.color_attachment_view()));
        &&& fbo::parts_validated(
            context.version,
            context.extensions,
            context.capabilities,
            indexed_colors(images),
            depth_stencil_of(depth, stencil, depthstencil),
            match r {
                Ok(f) => Ok(f.example_attachments_view()),
                Err(e) => Err(e),
            },
        )
        &&& r matches Ok(f) ==> {
            &&& f.well_formed()
            &&& f.context_view() == context
            &&& f.output_names() == color.map_values(|c: (&'a str, A)| c.0@)
            &&& f.color_images() == images
            &&& f.depth_stencil_view() == depth_stencil_of(depth, stencil, depthstencil)
        }
    }

    /// Whether the named color attachments can be given to a constructor: each of them is a
    /// texture, and there are no more of them than an index of 32 bits can count.
    pub open spec fn colors_acceptable<A: ToColorAttachment<'a>>(color: Seq<(&'a str, A)>) -> bool {
        &&& color.len() <= u32::MAX
        &&& forall|i: int| 0 <= i < color.len() ==> is_texture_color(#[trigger] color[i].1.color_attachment_view())
    }

    fn new_impl<A: ToColorAttachment<'a>>(
        context: &Backend,
        color: Vec<(&'a str, A)>,
        depth: Option<DepthAttachment<'a>>,
        stencil: Option<StencilAttachment<'a>>,
        depthstencil: Option<DepthStencilAttachment<'a>>,
    ) -> (r: Result<MultiOutputFrameBuffer<'a>, ValidationError>)
        requires
            Self::colors_acceptable(color@),
        ensures
            Self::built_from(*context, color@, depth, stencil, depthstencil, r),
    {
        let ghost input = color@;
        let ghost images = input.map_values(
            |c: (&'a str, A)| color_image(c.1.color_attachment_view()),
        );
        let mut named: Vec<(String, RegularAttachment<'a>)> = Vec::new();
        let mut example: Vec<(u32, RegularAttachment<'a>)> = Vec::new();
        let mut index: u32 = 0;
        for item in it: color
            invariant
                it.seq() == input,
                Self::colors_acceptable(input),
                images == input.map_values(
                    |c: (&'a str, A)| color_image(c.1.color_attachment_view()),
                ),
                index == it.index(),
                named@.len() == it.index(),
                example@.len() == it.index(),
                forall|j: int|
                    0 <= j < it.index() ==> (#[trigger] named@[j]).0@ == input[j].0@
                        && named@[j].1 == images[j],
                forall|j: int| 0 <= j < it.index() ==> #[trigger] example@[j] == (j as u32, images[j]),
        {
            let (name, attachment) = item;
            let att = attachment.to_color_attachment();
            let image = color_to_image(att);
            named.push((name.to_owned(), image));
            example.push((index, image));
            index = index + 1;
        }
        assert(example@ =~= indexed_colors(images));
        let depth_stencil = choose_depth_stencil(depth, stencil, depthstencil);
        let attachments = FramebufferAttachments::Regular(
            FramebufferSpecificAttachments { colors: example, depth_stencil },
        );
        match attachments.validate(context) {
            Ok(example_attachments) => {
                let f = MultiOutputFrameBuffer {
                    context: *context,
                    example_attachments,
                    color_attachments: named,
                    depth_stencil_attachments: depth_stencil,
                };
                assert(f.output_names() =~= input.map_values(|c: (&'a str, A)| c.0@));
                assert(f.color_images() =~= images);
                Ok(f)
            },
            Err(e) => Err(e),
        }
    }

    /// Creates a new `MultiOutputFrameBuffer`.
    pub fn new<A: ToColorAttachment<'a>>(context: &Backend, color_attachments: Vec<(&'a str, A)>) -> (r:
        Result<MultiOutputFrameBuffer<'a>, ValidationError>)
        requires
            Self::colors_acceptable(color_attachments@),
        ensures
            Self::built_from(*context, color_attachments@, None, None, None, r),
    {
        MultiOutputFrameBuffer::new_impl(context, color_attachments, None, None, None)
    }

    /// Creates a `MultiOutputFrameBuffer` with a depth buffer.
    pub fn with_depth_buffer<A: ToColorAttachment<'a>, D: ToDepthAttachment<'a>>(
        context: &Backend,
        color_attachments: Vec<(&'a str, A)>,
        depth: D,
    ) -> (r: Result<MultiOutputFrameBuffer<'a>, ValidationError>)
        requires
            Self::colors_acceptable(color_attachments@),
        ensures
            Self::built_from(
                *context,
                color_attachments@,
                Some(depth.depth_attachment_view()),
                None,
                None,
                r,
            ),
    {
        MultiOutputFrameBuffer::new_impl(
            context,
            color_attachments,
            Some(depth.to_depth_attachment()),
            None,
            None,
        )
    }

    /// Creates a `MultiOutputFrameBuffer` with a depth buffer, and a stencil buffer.
    pub fn with_depth_and_stencil_buffer<
        A: ToColorAttachment<'a>,
        D: ToDepthAttachment<'a>,
        S: ToStencilAttachment<'a>,
    >(context: &Backend, color: Vec<(&'a str, A)>, depth: D, stencil: S) -> (r: Result<
        MultiOutputFrameBuffer<'a>,
        ValidationError,
    >)
        requires
            Self::colors_acceptable(color@),
        ensures
            Self::built_from(
                *context,
                color@,
                Some(depth.depth_attachment_view()),
                Some(stencil.stencil_attachment_view()),
                None,
                r,
            ),
    {
        MultiOutputFrameBuffer::new_impl(
            context,
            color,
            Some(depth.to_depth_attachment()),
            Some(stencil.to_stencil_attachment()),
            None,
        )
    }

    /// Creates a `MultiOutputFrameBuffer` with a stencil buffer, but no depth buffer.
    pub fn with_stencil_buffer<A: ToColorAttachment<'a>, S: ToStencilAttachment<'a>>(
        context: &Backend,
        color: Vec<(&'a str, A)>,
        stencil: S,
    ) -> (r: Result<MultiOutputFrameBuffer<'a>, ValidationError>)
        requires
            Self::colors_acceptable(color@),
        ensures
            Self::built_from(
                *context,
                color@,
                None,
                Some(stencil.stencil_attachment_view()),
                None,
                r,
            ),
    {
        MultiOutputFrameBuffer::new_impl(
            context,
            color,
            None,
            Some(stencil.to_stencil_attachment()),
            None,
        )
    }

    /// Creates a `MultiOutputFrameBuffer` with a depth-stencil buffer.
    pub fn with_depth_stencil_buffer<A: ToColorAttachment<'a>, D: ToDepthStencilAttachment<'a>>(
        context: &Backend,
        color: Vec<(&'a str, A)>,
        depthstencil: D,
    ) -> (r: Result<MultiOutputFrameBuffer<'a>, ValidationError>)
        requires
            Self::colors_acceptable(color@),
        ensures
            Self::built_from(
                *context,
                color@,
                None,
                None,
                Some(depthstencil.depth_stencil_attachment_view()),
                r,
            ),
    {
        MultiOutputFrameBuffer::new_impl(
            context,
            color,
            None,
            None,
            Some(depthstencil.to_depth_stencil_attachment()),
        )
    }

    /// Returns the names of the fragment outputs that the color attachments are bound to, in
    /// order; the program that draws on the framebuffer gives the location of each.
    pub fn get_output_names(&self) -> (r: Vec<String>)
        ensures
            r@.map_values(|n: String| n@) == self.output_names(),
    {
        let mut names: Vec<String> = Vec::new();
        let mut i: usize = 0;
        while i < self.color_attachments.len()
            invariant
                i <= self.color_attachments@.len(),
                names@.len() == i,
                forall|j: int| 0 <= j < i ==> (#[trigger] names@[j])@ == self.color_attachments@[j].0@,
            decreases self.color_attachments@.len() - i,
        {
            names.push(self.color_attachments[i].0.clone());
            i = i + 1;
        }
        assert(names@.map_values(|n: String| n@) =~= self.output_names());
        names
    }

    /// Validates the attachments with each color at the location that the program gives to
    /// the output it is bound to (`locations`, in the order of `get_output_names`).
    pub fn build_attachments(&self, locations: &[Option<u32>]) -> (r: ValidatedAttachments<'a>)
        requires
            locations@.len() == self.color_images().len(),
            forall|i: int| 0 <= i < locations@.len() ==> (#[trigger] locations@[i]) is Some,
            fbo::parts_validation(
                self.context_view().version,
                self.context_view().extensions,
                self.context_view().capabilities,
                located_colors(self.color_images(), locations@),
                self.depth_stencil_view(),
            ) is Ok,
        ensures
            fbo::parts_validated(
                self.context_view().version,
                self.context_view().extensions,
                self.context_view().capabilities,
                located_colors(self.color_images(), locations@),
                self.depth_stencil_view(),
                Ok(r),
            ),
    {
        let ghost images = self.color_images();
        let mut colors: Vec<(u32, RegularAttachment<'a>)> = Vec::new();
        let mut i: usize = 0;
        while i < self.color_attachments.len()
            invariant
                i <= self.color_attachments@.len(),
                locations@.len() == self.color_attachments@.len(),
                images == self.color_images(),
                forall|j: int| 0 <= j < locations@.len() ==> (#[trigger] locations@[j]) is Some,
                colors@.len() == i,
                forall|j: int|
                    0 <= j < i ==> #[trigger] colors@[j] == (locations@[j].unwrap(), images[j]),
            decreases self.color_attachments@.len() - i,
        {
            let location = match locations[i] {
                Some(l) => l,
                None => 0,
            };
            colors.push((location, self.color_attachments[i].1));
            i = i + 1;
        }
        assert(colors@ =~= located_colors(images, locations@));
        let attachments = FramebufferAttachments::Regular(
            FramebufferSpecificAttachments { colors, depth_stencil: self.depth_stencil_attachments },
        );
        attachments.validate(&self.context).unwrap()
    }

    /// Returns the dimensions of the framebuffer.
    pub fn get_dimensions(&self) -> (r: (u32, u32))
        ensures
            r == self.example_attachments_view().dimensions_view(),
    {
        self.example_attachments.get_dimensions()
    }
}

} // verus!
