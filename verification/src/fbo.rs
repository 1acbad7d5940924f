//! Validation of the attachments of a framebuffer object.
//!
//! The rules are those of framebuffer completeness: all attached images must have the same
//! number of samples; on old backends they must also have the same dimensions, while on recent
//! ones the framebuffer takes the intersection of all of them; the number of color attachments
//! is limited by the backend; and an empty framebuffer needs a backend that supports them, with
//! dimensions within its limits.

use vstd::prelude::*;
use vstd::string::StringExecFns;

use core::marker::PhantomData;

pub use crate::fbo_cache::{FramebufferLookup, FramebuffersContainer};

use crate::framebuffer::render_buffer::RenderBufferAny;
use crate::gl;
use crate::message::{decimal, decimal_string};
use crate::texture::{CubeLayer, TextureAnyImage, TextureAnyMipmap, TextureKind};
use crate::version::{Api, CapabilitiesSource, Capabilities, ExtensionsList, Version, ver_ge, version_ge};

verus! {

/// Whether a backend of version `v` with extensions `e` supports attachments of different
/// dimensions.
pub open spec fn dimensions_mismatch_supported(v: Version, e: ExtensionsList) -> bool {
    ver_ge(v, Api::Gl, 3, 0) || ver_ge(v, Api::GlEs, 2, 0) || e.gl_arb_framebuffer_object
}

/// Returns true if the backend supports attachments with varying dimensions.
///
/// If this function returns `true` and you pass attachments with different dimensions, the
/// intersection between all the attachments will be used. If this function returns `false`,
/// you'll get an error instead.
pub fn is_dimensions_mismatch_supported<C: CapabilitiesSource>(context: &C) -> (r: bool)
    ensures
        r == dimensions_mismatch_supported(context.version_view(), context.extensions_view()),
{
    let v = context.get_version();
    version_ge(v, Api::Gl, 3, 0) || version_ge(v, Api::GlEs, 2, 0)
        || context.get_extensions().gl_arb_framebuffer_object
}

/// The width, height and number of samples of an attached image; a one-dimensional image has
/// a height of 1, and an image without multisampling has 0 samples.
#[derive(Debug, Clone, Copy, PartialEq, Eq, Structural)]
pub struct ImageExtent {
    /// Width in pixels.
    pub width: u32,
    /// Height in pixels.
    pub height: u32,
    /// Number of samples.
    pub samples: u32,
}

/// An attachment as OpenGL takes it when the framebuffer object is built.
#[derive(Debug, Clone, Copy, PartialEq, Eq, Structural)]
pub enum RawAttachment {
    /// A texture.
    Texture {
        /// A bind point like `TEXTURE_2D`, `TEXTURE_3D`, etc.
        bind_point: u32,
        /// The OpenGL name of the texture.
        texture: u32,
        /// `Some` for a regular attachment, `None` for a layered one.
        layer: Option<u32>,
        /// The mipmap level.
        level: u32,
        /// The face of the cubemap, if this is a cubemap.
        cubemap_layer: Option<CubeLayer>,
    },
    /// A render buffer, by its OpenGL name.
    RenderBuffer(u32),
}

/// The attachments of a framebuffer object, as OpenGL takes them.
#[derive(Debug, Clone)]
pub struct RawAttachments {
    /// For each fragment output, its location and the attachment to use.
    pub color: Vec<(u32, RawAttachment)>,
    /// The depth attachment.
    pub depth: Option<RawAttachment>,
    /// The stencil attachment.
    pub stencil: Option<RawAttachment>,
    /// The attachment that serves as both depth and stencil buffer.
    pub depth_stencil: Option<RawAttachment>,
    /// Default width to set with `glFramebufferParameteri`, if any.
    pub default_width: Option<u32>,
    /// Default height to set with `glFramebufferParameteri`, if any.
    pub default_height: Option<u32>,
    /// Default number of layers to set with `glFramebufferParameteri`, if any.
    pub default_layers: Option<u32>,
    /// Default number of samples to set with `glFramebufferParameteri`, if any.
    pub default_samples: Option<u32>,
    /// Whether the sample locations are fixed, to set with `glFramebufferParameteri`, if any.
    pub default_samples_fixed: Option<bool>,
}

/// An image that can be attached to a framebuffer.
pub trait FramebufferImage {
    /// The dimensions and number of samples of the image.
    spec fn extent(&self) -> ImageExtent;

    /// The number of bits of precision of the image, when it serves as depth or as stencil
    /// buffer.
    spec fn format_bits(&self) -> u16;

    /// The number of depth bits and of stencil bits of the image, when it serves as a
    /// depth-stencil buffer.
    spec fn depth_stencil_bits_of(&self) -> (u16, u16);

    /// The image as OpenGL takes it.
    spec fn raw_view(&self) -> RawAttachment;

    /// Returns the dimensions and number of samples of the image.
    fn get_extent(&self) -> (r: ImageExtent)
        ensures
            r == self.extent(),
    ;

    /// Returns the number of bits of precision of the image.
    fn get_format_bits(&self) -> (r: u16)
        ensures
            r == self.format_bits(),
    ;

    /// Returns the number of depth bits and of stencil bits of the image.
    fn get_depth_stencil_bits_of(&self) -> (r: (u16, u16))
        ensures
            r == self.depth_stencil_bits_of(),
    ;

    /// Returns the image as OpenGL takes it.
    fn to_raw(&self) -> (r: RawAttachment)
        ensures
            r == self.raw_view(),
    ;

    /// The number of layers of a layered image, or `None` for an image that is not layered.
    spec fn layer_count(&self) -> Option<u32>;

    /// Returns the number of layers of a layered image, or `None` if it is not layered.
    fn get_layer_count(&self) -> (r: Option<u32>)
        ensures
            r == self.layer_count(),
    ;
}

/// Number of bits of precision of a texture's internal format; 24 when the backend could not
/// tell the internal format.
pub open spec fn texture_format_bits(bits: Option<usize>) -> u16 {
    (match bits {
        Some(b) => b,
        None => 24usize,
    }) as u16
}

fn get_texture_format_bits(bits: Option<usize>) -> (r: u16)
    ensures
        r == texture_format_bits(bits),
{
    let b: usize = match bits {
        Some(b) => b,
        None => 24,
    };
    b as u16
}

/// Describes a single non-layered framebuffer attachment.
#[derive(Debug, Clone, Copy)]
pub enum RegularAttachment<'a> {
    /// A texture.
    Texture(TextureAnyImage),
    /// A render buffer.
    RenderBuffer(&'a RenderBufferAny),
}

impl<'a> RegularAttachment<'a> {
    /// The kind of the attached image.
    pub open spec fn kind_view(&self) -> TextureKind {
        match *self {
            RegularAttachment::Texture(t) => t.texture.kind,
            RegularAttachment::RenderBuffer(rb) => rb.kind_view(),
        }
    }

    /// Returns the kind of attachment (float, integral, unsigned, depth, stencil,
    /// depthstencil).
    pub fn kind(&self) -> (r: TextureKind)
        ensures
            r == self.kind_view(),
    {
        match self {
            RegularAttachment::Texture(t) => t.get_texture().kind(),
            RegularAttachment::RenderBuffer(rb) => rb.kind(),
        }
    }
}

impl<'a> FramebufferImage for RegularAttachment<'a> {
    open spec fn extent(&self) -> ImageExtent {
        match *self {
            RegularAttachment::Texture(t) => ImageExtent {
                width: t.width,
                height: t.height.unwrap_or(1),
                samples: t.texture.samples.unwrap_or(0),
            },
            RegularAttachment::RenderBuffer(rb) => ImageExtent {
                width: rb.dimensions_view().0,
                height: rb.dimensions_view().1,
                samples: rb.samples_view().unwrap_or(0),
            },
        }
    }

    open spec fn format_bits(&self) -> u16 {
        match *self {
            RegularAttachment::Texture(t) => texture_format_bits(t.texture.internal_format_bits),
            RegularAttachment::RenderBuffer(_) => 24,
        }
    }

    open spec fn depth_stencil_bits_of(&self) -> (u16, u16) {
        match *self {
            RegularAttachment::Texture(t) => (t.texture.depth_bits, t.texture.stencil_bits),
            RegularAttachment::RenderBuffer(rb) => rb.depth_stencil_bits_view(),
        }
    }

    open spec fn raw_view(&self) -> RawAttachment {
        match *self {
            RegularAttachment::Texture(t) => RawAttachment::Texture {
                bind_point: t.texture.bind_point,
                texture: t.texture.id,
                layer: Some(t.layer),
                level: t.level,
                cubemap_layer: t.cubemap_layer,
            },
            RegularAttachment::RenderBuffer(rb) => RawAttachment::RenderBuffer(rb.id_view()),
        }
    }

    open spec fn layer_count(&self) -> Option<u32> {
        None
    }

    fn get_layer_count(&self) -> (r: Option<u32>) {
        None
    }

    fn get_extent(&self) -> (r: ImageExtent) {
        match self {
            RegularAttachment::Texture(t) => ImageExtent {
                width: t.get_width(),
                height: match t.get_height() {
                    Some(h) => h,
                    None => 1,
                },
                samples: match t.get_samples() {
                    Some(s) => s,
                    None => 0,
                },
            },
            RegularAttachment::RenderBuffer(rb) => {
                let dimensions = rb.get_dimensions();
                ImageExtent {
                    width: dimensions.0,
                    height: dimensions.1,
                    samples: match rb.get_samples() {
                        Some(s) => s,
                        None => 0,
                    },
                }
            },
        }
    }

    fn get_format_bits(&self) -> (r: u16) {
        match self {
            RegularAttachment::Texture(t) => get_texture_format_bits(
                t.texture.internal_format_bits,
            ),
            RegularAttachment::RenderBuffer(_) => 24,
        }
    }

    fn get_depth_stencil_bits_of(&self) -> (r: (u16, u16)) {
        match self {
            RegularAttachment::Texture(t) => t.get_texture().get_depth_stencil_bits(),
            RegularAttachment::RenderBuffer(rb) => rb.get_depth_stencil_bits(),
        }
    }

    fn to_raw(&self) -> (r: RawAttachment) {
        match self {
            RegularAttachment::Texture(t) => RawAttachment::Texture {
                bind_point: t.get_texture().get_bind_point(),
                texture: t.get_texture().get_id(),
                layer: Some(t.get_layer()),
                level: t.get_level(),
                cubemap_layer: t.get_cubemap_layer(),
            },
            RegularAttachment::RenderBuffer(rb) => RawAttachment::RenderBuffer(rb.get_id()),
        }
    }
}

/// Describes a single layered framebuffer attachment.
#[derive(Debug, Clone, Copy)]
pub struct LayeredAttachment(pub TextureAnyMipmap);

impl FramebufferImage for LayeredAttachment {
    open spec fn extent(&self) -> ImageExtent {
        ImageExtent {
            width: self.0.width,
            height: self.0.height.unwrap_or(1),
            samples: self.0.texture.samples.unwrap_or(0),
        }
    }

    open spec fn format_bits(&self) -> u16 {
        texture_format_bits(self.0.texture.internal_format_bits)
    }

    open spec fn depth_stencil_bits_of(&self) -> (u16, u16) {
        (self.0.texture.depth_bits, self.0.texture.stencil_bits)
    }

    open spec fn raw_view(&self) -> RawAttachment {
        RawAttachment::Texture {
            bind_point: self.0.texture.bind_point,
            texture: self.0.texture.id,
            layer: None,
            level: self.0.level,
            cubemap_layer: None,
        }
    }

    open spec fn layer_count(&self) -> Option<u32> {
        Some(self.0.layers)
    }

    fn get_layer_count(&self) -> (r: Option<u32>) {
        Some(self.0.layers)
    }

    fn get_extent(&self) -> (r: ImageExtent) {
        ImageExtent {
            width: self.0.get_width(),
            height: match self.0.get_height() {
                Some(h) => h,
                None => 1,
            },
            samples: match self.0.get_samples() {
                Some(s) => s,
                None => 0,
            },
        }
    }

    fn get_format_bits(&self) -> (r: u16) {
        get_texture_format_bits(self.0.texture.internal_format_bits)
    }

    fn get_depth_stencil_bits_of(&self) -> (r: (u16, u16)) {
        self.0.get_texture().get_depth_stencil_bits()
    }

    fn to_raw(&self) -> (r: RawAttachment) {
        RawAttachment::Texture {
            bind_point: self.0.get_texture().get_bind_point(),
            texture: self.0.get_texture().get_id(),
            layer: None,
            level: self.0.get_level(),
            cubemap_layer: None,
        }
    }
}

/// Depth and/or stencil attachment to use.
#[derive(Debug, Clone, Copy)]
pub enum DepthStencilAttachments<T> {
    /// No depth or stencil buffer.
    NoAttachment,
    /// A depth attachment.
    DepthAttachment(T),
    /// A stencil attachment.
    StencilAttachment(T),
    /// A depth attachment and a stencil attachment.
    DepthAndStencilAttachments(T, T),
    /// A single attachment that serves as both depth and stencil buffer.
    DepthStencilAttachment(T),
}

/// Represents the attachments to use for an OpenGL framebuffer.
#[derive(Debug, Clone)]
pub struct FramebufferSpecificAttachments<T> {
    /// List of color attachments. The first parameter of the tuple is the index, and the
    /// second element is the attachment.
    pub colors: Vec<(u32, T)>,
    /// The depth and/or stencil attachment to use.
    pub depth_stencil: DepthStencilAttachments<T>,
}

/// Represents the attachments to use for an OpenGL framebuffer.
#[derive(Debug, Clone)]
pub enum FramebufferAttachments<'a> {
    /// Each attachment is a single image.
    Regular(FramebufferSpecificAttachments<RegularAttachment<'a>>),
    /// Each attachment is a layer of images.
    Layered(FramebufferSpecificAttachments<LayeredAttachment>),
    /// An empty framebuffer.
    Empty {
        /// Width of the framebuffer.
        width: u32,
        /// Height of the framebuffer.
        height: u32,
        /// Number of layers, for a layered framebuffer.
        layers: Option<u32>,
        /// Number of samples, for a multisampled framebuffer.
        samples: Option<u32>,
        /// Whether the sample locations are fixed.
        fixed_samples: bool,
    },
}

/// An error that can happen while validating attachments.
#[derive(Copy, Clone, Debug, PartialEq, Eq, Structural)]
pub enum ValidationError {
    /// You requested an empty framebuffer object, but they are not supported.
    EmptyFramebufferObjectsNotSupported,
    /// The requested characteristics of an empty framebuffer object are out of range.
    EmptyFramebufferUnsupportedDimensions,
    /// The backend doesn't support attachments with various dimensions.
    ///
    /// Note that almost all OpenGL implementations support attachments with various
    /// dimensions. Only very old versions don't.
    DimensionsMismatchNotSupported,
    /// All attachments must have the same number of samples.
    SamplesCountMismatch,
    /// Backends only support a certain number of color attachments.
    TooManyColorAttachments {
        /// Maximum number of attachments.
        maximum: usize,
        /// Number of attachments that were given.
        obtained: usize,
    },
}

impl ValidationError {
    /// The text that `description` returns.
    pub open spec fn description_text(&self) -> Seq<char> {
        match self {
            ValidationError::EmptyFramebufferObjectsNotSupported => "You requested an empty framebuffer object, but they are not supported"@,
            ValidationError::EmptyFramebufferUnsupportedDimensions => "The requested characteristics of an empty framebuffer object are out of range"@,
            ValidationError::DimensionsMismatchNotSupported => "The backend doesn't support attachments with various dimensions"@,
            ValidationError::SamplesCountMismatch => "All attachments must have the same number of samples"@,
            ValidationError::TooManyColorAttachments { .. } => "Backends only support a certain number of color attachments"@,
        }
    }

    /// Returns the description of the error.
    pub fn description(&self) -> (r: &'static str)
        ensures
            r@ == self.description_text(),
    {
        match self {
            ValidationError::EmptyFramebufferObjectsNotSupported => "You requested an empty framebuffer object, but they are not supported",
            ValidationError::EmptyFramebufferUnsupportedDimensions => "The requested characteristics of an empty framebuffer object are out of range",
            ValidationError::DimensionsMismatchNotSupported => "The backend doesn't support attachments with various dimensions",
            ValidationError::SamplesCountMismatch => "All attachments must have the same number of samples",
            ValidationError::TooManyColorAttachments { .. } => "Backends only support a certain number of color attachments",
        }
    }
}

impl ValidationError {
    /// The text that displays the error: its description, and for too many color attachments
    /// the number found and the maximum.
    pub open spec fn display_text(&self) -> Seq<char> {
        match self {
            ValidationError::TooManyColorAttachments { maximum, obtained } => self.description_text()
                + ": found "@ + decimal(*obtained as nat) + ", maximum: "@ + decimal(
                *maximum as nat,
            ),
            _ => self.description_text(),
        }
    }

    /// Returns the text that displays the error.
    pub fn to_string(&self) -> (r: String)
        ensures
            r@ == self.display_text(),
    {
        let mut text = String::from_str(self.description());
        if let ValidationError::TooManyColorAttachments { maximum, obtained } = self {
            text.append(": found ");
            text.append(decimal_string(*obtained).as_str());
            text.append(", maximum: ");
            text.append(decimal_string(*maximum).as_str());
        }
        text
    }
}

/// Represents attachments that have been validated and are usable.
#[derive(Debug)]
pub struct ValidatedAttachments<'a> {
    raw: RawAttachments,
    width: u32,
    height: u32,
    layers: Option<u32>,
    depth_buffer_bits: Option<u16>,
    stencil_buffer_bits: Option<u16>,
    marker: PhantomData<&'a ()>,
}

impl<'a> ValidatedAttachments<'a> {
    /// The attachments as OpenGL takes them.
    pub closed spec fn raw_view(&self) -> RawAttachments {
        self.raw
    }

    /// The dimensions of the framebuffer.
    pub closed spec fn dimensions_view(&self) -> (u32, u32) {
        (self.width, self.height)
    }

    /// The number of layers of a layered framebuffer.
    pub closed spec fn layers_view(&self) -> Option<u32> {
        self.layers
    }

    /// The number of bits of the depth buffer, if there is one.
    pub closed spec fn depth_bits_view(&self) -> Option<u16> {
        self.depth_buffer_bits
    }

    /// The number of bits of the stencil buffer, if there is one.
    pub closed spec fn stencil_bits_view(&self) -> Option<u16> {
        self.stencil_buffer_bits
    }

    /// Returns `true` if the framebuffer is layered.
    pub fn is_layered(&self) -> (r: bool)
        ensures
            r == self.layers_view() is Some,
    {
        self.layers.is_some()
    }

    /// Returns the dimensions that the framebuffer will have if you use these attachments.
    pub fn get_dimensions(&self) -> (r: (u32, u32))
        ensures
            r == self.dimensions_view(),
    {
        (self.width, self.height)
    }

    /// Returns the number of bits of precision of the depth buffer, or `None` if there is no
    /// depth buffer. Also works for depth-stencil buffers.
    pub fn get_depth_buffer_bits(&self) -> (r: Option<u16>)
        ensures
            r == self.depth_bits_view(),
    {
        self.depth_buffer_bits
    }

    /// Returns the number of bits of precision of the stencil buffer, or `None` if there is no
    /// stencil buffer. Also works for depth-stencil buffers.
    pub fn get_stencil_buffer_bits(&self) -> (r: Option<u16>)
        ensures
            r == self.stencil_bits_view(),
    {
        self.stencil_buffer_bits
    }

    /// Returns the attachments as OpenGL takes them.
    pub fn get_raw(&self) -> (r: &RawAttachments)
        ensures
            *r == self.raw_view(),
    {
        &self.raw
    }
}

/// The smaller of two integers.
pub open spec fn min_u32(a: u32, b: u32) -> u32 {
    if a <= b {
        a
    } else {
        b
    }
}

fn min_u32_exec(a: u32, b: u32) -> (r: u32)
    ensures
        r == min_u32(a, b),
{
    if a <= b {
        a
    } else {
        b
    }
}

/// The color attachments in the order in which they are checked, each with its index.
pub open spec fn color_items<T>(colors: Seq<(u32, T)>) -> Seq<(Option<u32>, T)> {
    colors.map_values(|c: (u32, T)| (Some(c.0), c.1))
}

/// The depth and/or stencil attachments in the order in which they are checked.
pub open spec fn depth_stencil_items<T>(ds: DepthStencilAttachments<T>) -> Seq<(Option<u32>, T)> {
    match ds {
        DepthStencilAttachments::NoAttachment => Seq::empty(),
        DepthStencilAttachments::DepthAttachment(d) => seq![(None, d)],
        DepthStencilAttachments::StencilAttachment(s) => seq![(None, s)],
        DepthStencilAttachments::DepthAndStencilAttachments(d, s) => seq![(None, d), (None, s)],
        DepthStencilAttachments::DepthStencilAttachment(x) => seq![(None, x)],
    }
}

/// All attachments in the order in which they are checked: the colors, each with its index,
/// then the depth and/or stencil attachments.
pub open spec fn attachment_items<T>(a: FramebufferSpecificAttachments<T>) -> Seq<(Option<u32>, T)> {
    color_items(a.colors@) + depth_stencil_items(a.depth_stencil)
}

/// The number of layers so far, combined with that of one more image: the smallest number of
/// layers among the layered images, or `None` while there is none.
pub open spec fn combine_layers(acc: Option<u32>, x: Option<u32>) -> Option<u32> {
    match (acc, x) {
        (None, x) => x,
        (Some(a), None) => Some(a),
        (Some(a), Some(b)) => Some(min_u32(a, b)),
    }
}

/// The number of layers of a framebuffer with the attachments `s`: the smallest number of layers
/// of its layered attachments, or `None` if none is layered.
pub open spec fn layers_of<T: FramebufferImage>(s: Seq<(Option<u32>, T)>) -> Option<u32>
    decreases s.len(),
{
    if s.len() == 0 {
        None
    } else {
        combine_layers(layers_of(s.drop_last()), s.last().1.layer_count())
    }
}

/// Checks one more attachment. The state holds the dimensions of the framebuffer so far and the
/// number of samples of the attachments so far (`None` before the first attachment).
///
/// A color index must be below the maximum number of color attachments; every attachment must
/// have the number of samples of the first; an attachment with other dimensions than the
/// framebuffer so far shrinks it to the intersection, where the backend supports that.
pub open spec fn image_step<T: FramebufferImage>(
    max: i32,
    mismatch_ok: bool,
    state: (Option<(u32, u32)>, Option<u32>),
    item: (Option<u32>, T),
) -> Result<(Option<(u32, u32)>, Option<u32>), ValidationError> {
    let ext = item.1.extent();
    if item.0 is Some && item.0.unwrap() >= (max as u32) {
        Err(
            ValidationError::TooManyColorAttachments {
                maximum: max as usize,
                obtained: item.0.unwrap() as usize,
            },
        )
    } else if state.1 is Some && state.1.unwrap() != ext.samples {
        Err(ValidationError::SamplesCountMismatch)
    } else {
        match state.0 {
            None => Ok((Some((ext.width, ext.height)), Some(ext.samples))),
            Some(dims) => if dims.0 != ext.width || dims.1 != ext.height {
                if mismatch_ok {
                    Ok(
                        (
                            Some((min_u32(dims.0, ext.width), min_u32(dims.1, ext.height))),
                            Some(ext.samples),
                        ),
                    )
                } else {
                    Err(ValidationError::DimensionsMismatchNotSupported)
                }
            } else {
                Ok((state.0, Some(ext.samples)))
            },
        }
    }
}

/// Checks the attachments `s` in order, stopping at the first error.
pub open spec fn check_images<T: FramebufferImage>(
    max: i32,
    mismatch_ok: bool,
    s: Seq<(Option<u32>, T)>,
) -> Result<(Option<(u32, u32)>, Option<u32>), ValidationError>
    decreases s.len(),
{
    if s.len() == 0 {
        Ok((None, None))
    } else {
        match check_images(max, mismatch_ok, s.drop_last()) {
            Ok(state) => image_step(max, mismatch_ok, state, s.last()),
            Err(e) => Err(e),
        }
    }
}

/// The outcome of validating the color attachments `colors` and the depth and/or stencil
/// attachments `ds`: an error, or the dimensions of the framebuffer.
pub open spec fn parts_validation<T: FramebufferImage>(
    v: Version,
    e: ExtensionsList,
    c: Capabilities,
    colors: Seq<(u32, T)>,
    ds: DepthStencilAttachments<T>,
) -> Result<(u32, u32), ValidationError> {
    let max = c.max_color_attachments;
    if colors.len() > (max as usize) {
        Err(
            ValidationError::TooManyColorAttachments {
                maximum: max as usize,
                obtained: colors.len() as usize,
            },
        )
    } else {
        match check_images(
            max,
            dimensions_mismatch_supported(v, e),
            color_items(colors) + depth_stencil_items(ds),
        ) {
            Err(err) => Err(err),
            Ok(state) => match state.0 {
                Some(dims) => Ok(dims),
                None => Err(ValidationError::EmptyFramebufferObjectsNotSupported),
            },
        }
    }
}

/// The outcome of validating attachments that are not empty: an error, or the dimensions of
/// the framebuffer.
pub open spec fn specific_validation<T: FramebufferImage>(
    v: Version,
    e: ExtensionsList,
    c: Capabilities,
    a: FramebufferSpecificAttachments<T>,
) -> Result<(u32, u32), ValidationError> {
    parts_validation(v, e, c, a.colors@, a.depth_stencil)
}

/// The number of bits of the depth buffer.
pub open spec fn depth_bits_of<T: FramebufferImage>(ds: DepthStencilAttachments<T>) -> Option<u16> {
    match ds {
        DepthStencilAttachments::DepthAttachment(d) => Some(d.format_bits()),
        DepthStencilAttachments::DepthAndStencilAttachments(d, _) => Some(d.format_bits()),
        DepthStencilAttachments::DepthStencilAttachment(x) => Some(x.depth_stencil_bits_of().0),
        _ => None,
    }
}

/// The number of bits of the stencil buffer.
pub open spec fn stencil_bits_of<T: FramebufferImage>(ds: DepthStencilAttachments<T>) -> Option<
    u16,
> {
    match ds {
        DepthStencilAttachments::StencilAttachment(s) => Some(s.format_bits()),
        DepthStencilAttachments::DepthAndStencilAttachments(_, s) => Some(s.format_bits()),
        DepthStencilAttachments::DepthStencilAttachment(x) => Some(x.depth_stencil_bits_of().1),
        _ => None,
    }
}

/// The raw depth attachment.
pub open spec fn raw_depth<T: FramebufferImage>(ds: DepthStencilAttachments<T>) -> Option<
    RawAttachment,
> {
    match ds {
        DepthStencilAttachments::DepthAttachment(d) => Some(d.raw_view()),
        DepthStencilAttachments::DepthAndStencilAttachments(d, _) => Some(d.raw_view()),
        _ => None,
    }
}

/// The raw stencil attachment.
pub open spec fn raw_stencil<T: FramebufferImage>(ds: DepthStencilAttachments<T>) -> Option<
    RawAttachment,
> {
    match ds {
        DepthStencilAttachments::StencilAttachment(s) => Some(s.raw_view()),
        DepthStencilAttachments::DepthAndStencilAttachments(_, s) => Some(s.raw_view()),
        _ => None,
    }
}

/// The raw depth-stencil attachment.
pub open spec fn raw_depth_stencil<T: FramebufferImage>(ds: DepthStencilAttachments<T>) -> Option<
    RawAttachment,
> {
    match ds {
        DepthStencilAttachments::DepthStencilAttachment(x) => Some(x.raw_view()),
        _ => None,
    }
}

/// The raw color attachments.
pub open spec fn raw_colors<T: FramebufferImage>(colors: Seq<(u32, T)>) -> Seq<(u32, RawAttachment)> {
    colors.map_values(|c: (u32, T)| (c.0, c.1.raw_view()))
}

/// `r` is the result of validating the color attachments `colors` and the depth and/or
/// stencil attachments `ds` on a backend of version `v`, with extensions `e` and limits `c`.
pub open spec fn parts_validated<'b, T: FramebufferImage>(
    v: Version,
    e: ExtensionsList,
    c: Capabilities,
    colors: Seq<(u32, T)>,
    ds: DepthStencilAttachments<T>,
    r: Result<ValidatedAttachments<'b>, ValidationError>,
) -> bool {
    match parts_validation(v, e, c, colors, ds) {
        Ok(dims) => r matches Ok(va) && {
            let raw = va.raw_view();
            &&& va.dimensions_view() == dims
            &&& va.layers_view() == layers_of(color_items(colors) + depth_stencil_items(ds))
            &&& va.depth_bits_view() == depth_bits_of(ds)
            &&& va.stencil_bits_view() == stencil_bits_of(ds)
            &&& raw.color@ == raw_colors(colors)
            &&& raw.depth == raw_depth(ds)
            &&& raw.stencil == raw_stencil(ds)
            &&& raw.depth_stencil == raw_depth_stencil(ds)
            &&& raw.default_width is None
            &&& raw.default_height is None
            &&& raw.default_layers is None
            &&& raw.default_samples is None
            &&& raw.default_samples_fixed is None
        },
        Err(err) => r matches Err(x) && x == err,
    }
}

/// `r` is the result of validating the attachments `a` on a backend of version `v`, with
/// extensions `e` and limits `c`.
pub open spec fn specific_validated<'b, T: FramebufferImage>(
    v: Version,
    e: ExtensionsList,
    c: Capabilities,
    a: FramebufferSpecificAttachments<T>,
    r: Result<ValidatedAttachments<'b>, ValidationError>,
) -> bool {
    parts_validated(v, e, c, a.colors@, a.depth_stencil, r)
}

/// Checking a sequence stops at the first error: the error of a prefix is that of the whole.
proof fn lemma_check_images_prefix_error<T: FramebufferImage>(
    max: i32,
    ok: bool,
    s: Seq<(Option<u32>, T)>,
    k: int,
)
    requires
        0 <= k <= s.len(),
        check_images(max, ok, s.take(k)) is Err,
    ensures
        check_images(max, ok, s) == check_images(max, ok, s.take(k)),
    decreases s.len(),
{
    if k == s.len() {
        assert(s.take(k) =~= s);
    } else {
        assert(s.drop_last().take(k) =~= s.take(k));
        lemma_check_images_prefix_error(max, ok, s.drop_last(), k);
    }
}

/// Checks one attachment; see `image_step`.
fn check_image<T: FramebufferImage>(
    max: i32,
    mismatch_ok: bool,
    state: (Option<(u32, u32)>, Option<u32>),
    index: Option<u32>,
    image: &T,
) -> (r: Result<(Option<(u32, u32)>, Option<u32>), ValidationError>)
    ensures
        r == image_step(max, mismatch_ok, state, (index, *image)),
{
    if let Some(i) = index {
        if i >= max as u32 {
            return Err(
                ValidationError::TooManyColorAttachments {
                    maximum: max as usize,
                    obtained: i as usize,
                },
            );
        }
    }
    let ext = image.get_extent();
    if let Some(samples) = state.1 {
        if samples != ext.samples {
            return Err(ValidationError::SamplesCountMismatch);
        }
    }
    match state.0 {
        None => Ok((Some((ext.width, ext.height)), Some(ext.samples))),
        Some(dims) => {
            if dims.0 != ext.width || dims.1 != ext.height {
                if mismatch_ok {
                    Ok(
                        (
                            Some((min_u32_exec(dims.0, ext.width), min_u32_exec(dims.1, ext.height))),
                            Some(ext.samples),
                        ),
                    )
                } else {
                    Err(ValidationError::DimensionsMismatchNotSupported)
                }
            } else {
                Ok((Some(dims), Some(ext.samples)))
            }
        },
    }
}

/// Checks the attachment at position `k` of `items`, given the state after the first `k`.
fn check_item<T: FramebufferImage>(
    max: i32,
    mismatch_ok: bool,
    state: (Option<(u32, u32)>, Option<u32>),
    index: Option<u32>,
    image: &T,
    Ghost(items): Ghost<Seq<(Option<u32>, T)>>,
    Ghost(k): Ghost<int>,
) -> (r: Result<(Option<(u32, u32)>, Option<u32>), ValidationError>)
    requires
        0 <= k < items.len(),
        items[k] == (index, *image),
        check_images(max, mismatch_ok, items.take(k)) == Ok::<
            (Option<(u32, u32)>, Option<u32>),
            ValidationError,
        >(state),
    ensures
        r == check_images(max, mismatch_ok, items.take(k + 1)),
        r is Err ==> check_images(max, mismatch_ok, items) == r,
{
    proof {
        assert(items.take(k + 1).drop_last() =~= items.take(k));
        assert(items.take(k + 1).last() == items[k]);
    }
    let r = check_image(max, mismatch_ok, state, index, image);
    proof {
        if r is Err {
            lemma_check_images_prefix_error(max, mismatch_ok, items, k + 1);
        }
    }
    r
}

fn combine_layers_exec(acc: Option<u32>, x: Option<u32>) -> (r: Option<u32>)
    ensures
        r == combine_layers(acc, x),
{
    match (acc, x) {
        (None, x) => x,
        (Some(a), None) => Some(a),
        (Some(a), Some(b)) => Some(min_u32_exec(a, b)),
    }
}

/// Counts the layers of a framebuffer with attachments `a`; see `layers_of`.
fn count_layers<T: FramebufferImage>(a: &FramebufferSpecificAttachments<T>) -> (r: Option<u32>)
    ensures
        r == layers_of(attachment_items(*a)),
{
    let ghost items = attachment_items(*a);
    let n = a.colors.len();
    let mut layers: Option<u32> = None;
    let mut i: usize = 0;
    assert(items.take(0) =~= Seq::<(Option<u32>, T)>::empty());
    while i < n
        invariant
            n == a.colors@.len(),
            i <= n,
            items == attachment_items(*a),
            layers == layers_of(items.take(i as int)),
        decreases n - i,
    {
        let c = &a.colors[i];
        assert(items[i as int] == (Some(c.0), c.1));
        assert(items.take(i + 1).drop_last() =~= items.take(i as int));
        assert(items.take(i + 1).last() == items[i as int]);
        layers = combine_layers_exec(layers, c.1.get_layer_count());
        i = i + 1;
    }
    match &a.depth_stencil {
        DepthStencilAttachments::NoAttachment => {
            assert(items.take(n as int) =~= items);
            assert(layers == layers_of(items));
        },
        DepthStencilAttachments::DepthAttachment(x) => {
            assert(items[n as int] == (None::<u32>, *x));
            assert(items.take(n + 1).drop_last() =~= items.take(n as int));
            assert(items.take(n + 1).last() == items[n as int]);
            assert(items.take(n + 1) =~= items);
            layers = combine_layers_exec(layers, x.get_layer_count());
            assert(layers == layers_of(items.take(n + 1)));
            assert(layers == layers_of(items));
        },
        DepthStencilAttachments::StencilAttachment(x) => {
            assert(items[n as int] == (None::<u32>, *x));
            assert(items.take(n + 1).drop_last() =~= items.take(n as int));
            assert(items.take(n + 1).last() == items[n as int]);
            assert(items.take(n + 1) =~= items);
            layers = combine_layers_exec(layers, x.get_layer_count());
            assert(layers == layers_of(items.take(n + 1)));
            assert(layers == layers_of(items));
        },
        DepthStencilAttachments::DepthStencilAttachment(x) => {
            assert(items[n as int] == (None::<u32>, *x));
            assert(items.take(n + 1).drop_last() =~= items.take(n as int));
            assert(items.take(n + 1).last() == items[n as int]);
            assert(items.take(n + 1) =~= items);
            layers = combine_layers_exec(layers, x.get_layer_count());
            assert(layers == layers_of(items.take(n + 1)));
            assert(layers == layers_of(items));
        },
        DepthStencilAttachments::DepthAndStencilAttachments(d, s) => {
            assert(items[n as int] == (None::<u32>, *d));
            assert(items[n + 1] == (None::<u32>, *s));
            assert(items.take(n + 1).drop_last() =~= items.take(n as int));
            assert(items.take(n + 1).last() == items[n as int]);
            assert(items.take(n + 2).drop_last() =~= items.take(n + 1));
            assert(items.take(n + 2).last() == items[n + 1]);
            assert(items.take(n + 2) =~= items);
            layers = combine_layers_exec(layers, d.get_layer_count());
            layers = combine_layers_exec(layers, s.get_layer_count());
        },
    }
    layers
}

/// Validates attachments that are not empty.
fn validate_specific<'b, C: CapabilitiesSource, T: FramebufferImage>(
    context: &C,
    a: FramebufferSpecificAttachments<T>,
) -> (r: Result<ValidatedAttachments<'b>, ValidationError>)
    ensures
        specific_validated(
            context.version_view(),
            context.extensions_view(),
            context.capabilities_view(),
            a,
            r,
        ),
{
    let layers = count_layers(&a);
    let max = context.get_capabilities().max_color_attachments;
    let ok = is_dimensions_mismatch_supported(context);
    let ghost items = attachment_items(a);
    let n = a.colors.len();
    if n > max as usize {
        return Err(ValidationError::TooManyColorAttachments { maximum: max as usize, obtained: n });
    }
    let mut state: (Option<(u32, u32)>, Option<u32>) = (None, None);
    let mut colors: Vec<(u32, RawAttachment)> = Vec::new();
    let mut i: usize = 0;
    assert(items.take(0) =~= Seq::<(Option<u32>, T)>::empty());
    while i < n
        invariant
            n == a.colors@.len(),
            i <= n,
            items == attachment_items(a),
            check_images(max, ok, items.take(i as int)) == Ok::<
                (Option<(u32, u32)>, Option<u32>),
                ValidationError,
            >(state),
            colors@ == raw_colors(a.colors@.take(i as int)),
            ok == dimensions_mismatch_supported(context.version_view(), context.extensions_view()),
            max == context.capabilities_view().max_color_attachments,
            n <= (max as usize),
        decreases n - i,
    {
        let c = &a.colors[i];
        assert(items[i as int] == (Some(c.0), c.1));
        match check_item(max, ok, state, Some(c.0), &c.1, Ghost(items), Ghost(i as int)) {
            Ok(st) => {
                state = st;
            },
            Err(err) => {
                return Err(err);
            },
        }
        colors.push((c.0, c.1.to_raw()));
        assert(a.colors@.take(i + 1) =~= a.colors@.take(i as int).push(a.colors@[i as int]));
        assert(raw_colors(a.colors@.take(i + 1)) =~= raw_colors(a.colors@.take(i as int)).push(
            (c.0, c.1.raw_view()),
        ));
        i = i + 1;
    }
    assert(a.colors@.take(n as int) =~= a.colors@);
    let mut depth: Option<RawAttachment> = None;
    let mut stencil: Option<RawAttachment> = None;
    let mut depth_stencil: Option<RawAttachment> = None;
    let mut depth_bits: Option<u16> = None;
    let mut stencil_bits: Option<u16> = None;
    match &a.depth_stencil {
        DepthStencilAttachments::NoAttachment => {
            assert(items.take(n as int) =~= items);
        },
        DepthStencilAttachments::DepthAttachment(d) => {
            depth_bits = Some(d.get_format_bits());
            match check_item(max, ok, state, None, d, Ghost(items), Ghost(n as int)) {
                Ok(st) => {
                    state = st;
                },
                Err(err) => {
                    return Err(err);
                },
            }
            assert(items.take(n + 1) =~= items);
            depth = Some(d.to_raw());
        },
        DepthStencilAttachments::StencilAttachment(s) => {
            stencil_bits = Some(s.get_format_bits());
            match check_item(max, ok, state, None, s, Ghost(items), Ghost(n as int)) {
                Ok(st) => {
                    state = st;
                },
                Err(err) => {
                    return Err(err);
                },
            }
            assert(items.take(n + 1) =~= items);
            stencil = Some(s.to_raw());
        },
        DepthStencilAttachments::DepthAndStencilAttachments(d, s) => {
            depth_bits = Some(d.get_format_bits());
            match check_item(max, ok, state, None, d, Ghost(items), Ghost(n as int)) {
                Ok(st) => {
                    state = st;
                },
                Err(err) => {
                    return Err(err);
                },
            }
            depth = Some(d.to_raw());
            stencil_bits = Some(s.get_format_bits());
            match check_item(max, ok, state, None, s, Ghost(items), Ghost(n + 1)) {
                Ok(st) => {
                    state = st;
                },
                Err(err) => {
                    return Err(err);
                },
            }
            assert(items.take(n + 2) =~= items);
            stencil = Some(s.to_raw());
        },
        DepthStencilAttachments::DepthStencilAttachment(x) => {
            let bits = x.get_depth_stencil_bits_of();
            depth_bits = Some(bits.0);
            stencil_bits = Some(bits.1);
            match check_item(max, ok, state, None, x, Ghost(items), Ghost(n as int)) {
                Ok(st) => {
                    state = st;
                },
                Err(err) => {
                    return Err(err);
                },
            }
            assert(items.take(n + 1) =~= items);
            depth_stencil = Some(x.to_raw());
        },
    }
    let dimensions = match state.0 {
        Some(dims) => dims,
        None => {
            return Err(ValidationError::EmptyFramebufferObjectsNotSupported);
        },
    };
    Ok(
        ValidatedAttachments {
            raw: RawAttachments {
                color: colors,
                depth,
                stencil,
                depth_stencil,
                default_width: None,
                default_height: None,
                default_layers: None,
                default_samples: None,
                default_samples_fixed: None,
            },
            width: dimensions.0,
            height: dimensions.1,
            layers,
            depth_buffer_bits: depth_bits,
            stencil_buffer_bits: stencil_bits,
            marker: PhantomData,
        },
    )
}

/// Whether a backend of version `v` with extensions `e` supports empty framebuffers.
pub open spec fn empty_framebuffers_supported(v: Version, e: ExtensionsList) -> bool {
    ver_ge(v, Api::Gl, 4, 3) || ver_ge(v, Api::GlEs, 3, 1) || e.gl_arb_framebuffer_no_attachments
}

/// The characteristics that an empty framebuffer must have: dimensions of at least 1, and at
/// least one layer and one sample when they are given.
pub open spec fn empty_request_valid(
    width: u32,
    height: u32,
    layers: Option<u32>,
    samples: Option<u32>,
) -> bool {
    &&& width >= 1
    &&& height >= 1
    &&& layers matches Some(l) ==> l >= 1
    &&& samples matches Some(s) ==> s >= 1
}

/// Whether an empty framebuffer is within the limits of the backend; a missing limit counts as
/// 0.
pub open spec fn empty_within_limits(
    c: Capabilities,
    width: u32,
    height: u32,
    layers: Option<u32>,
    samples: Option<u32>,
) -> bool {
    &&& width <= (c.max_framebuffer_width.unwrap_or(0) as u32)
    &&& height <= (c.max_framebuffer_height.unwrap_or(0) as u32)
    &&& samples.unwrap_or(0) <= (c.max_framebuffer_samples.unwrap_or(0) as u32)
    &&& layers.unwrap_or(0) <= (c.max_framebuffer_layers.unwrap_or(0) as u32)
}

/// `r` is the result of validating an empty framebuffer on a backend of version `v`, with
/// extensions `e` and limits `c`.
pub open spec fn empty_validated<'b>(
    v: Version,
    e: ExtensionsList,
    c: Capabilities,
    width: u32,
    height: u32,
    layers: Option<u32>,
    samples: Option<u32>,
    fixed_samples: bool,
    r: Result<ValidatedAttachments<'b>, ValidationError>,
) -> bool {
    if !empty_framebuffers_supported(v, e) {
        r matches Err(x) && x == ValidationError::EmptyFramebufferObjectsNotSupported
    } else if !empty_within_limits(c, width, height, layers, samples) {
        r matches Err(x) && x == ValidationError::EmptyFramebufferUnsupportedDimensions
    } else {
        r matches Ok(va) && {
            let raw = va.raw_view();
            &&& va.dimensions_view() == (width, height)
            &&& va.layers_view() == layers
            &&& va.depth_bits_view() is None
            &&& va.stencil_bits_view() is None
            &&& raw.color@.len() == 0
            &&& raw.depth is None
            &&& raw.stencil is None
            &&& raw.depth_stencil is None
            &&& raw.default_width == Some(width)
            &&& raw.default_height == Some(height)
            &&& raw.default_layers == if v.at_most(Version(Api::GlEs, 3, 1)) {
                None
            } else {
                Some(layers.unwrap_or(0))
            }
            &&& raw.default_samples == Some(samples.unwrap_or(0))
            &&& raw.default_samples_fixed == Some(fixed_samples)
        }
    }
}

/// Validates an empty framebuffer.
fn validate_empty<'b, C: CapabilitiesSource>(
    context: &C,
    width: u32,
    height: u32,
    layers: Option<u32>,
    samples: Option<u32>,
    fixed_samples: bool,
) -> (r: Result<ValidatedAttachments<'b>, ValidationError>)
    requires
        empty_framebuffers_supported(context.version_view(), context.extensions_view())
            ==> empty_request_valid(width, height, layers, samples),
    ensures
        empty_validated(
            context.version_view(),
            context.extensions_view(),
            context.capabilities_view(),
            width,
            height,
            layers,
            samples,
            fixed_samples,
            r,
        ),
{
    let v = context.get_version();
    if version_ge(v, Api::Gl, 4, 3) || version_ge(v, Api::GlEs, 3, 1)
        || context.get_extensions().gl_arb_framebuffer_no_attachments {
        let caps = context.get_capabilities();
        let max_width: i32 = match caps.max_framebuffer_width {
            Some(m) => m,
            None => 0,
        };
        let max_height: i32 = match caps.max_framebuffer_height {
            Some(m) => m,
            None => 0,
        };
        let max_samples: i32 = match caps.max_framebuffer_samples {
            Some(m) => m,
            None => 0,
        };
        let max_layers: i32 = match caps.max_framebuffer_layers {
            Some(m) => m,
            None => 0,
        };
        let samples_or_zero: u32 = match samples {
            Some(s) => s,
            None => 0,
        };
        let layers_or_zero: u32 = match layers {
            Some(l) => l,
            None => 0,
        };
        if width > max_width as u32 || height > max_height as u32 || samples_or_zero
            > max_samples as u32 || layers_or_zero > max_layers as u32 {
            return Err(ValidationError::EmptyFramebufferUnsupportedDimensions);
        }
        let default_layers = if v.le(&Version(Api::GlEs, 3, 1)) {
            None
        } else {
            Some(layers_or_zero)
        };
        Ok(
            ValidatedAttachments {
                raw: RawAttachments {
                    color: Vec::new(),
                    depth: None,
                    stencil: None,
                    depth_stencil: None,
                    default_width: Some(width),
                    default_height: Some(height),
                    default_layers,
                    default_samples: Some(samples_or_zero),
                    default_samples_fixed: Some(fixed_samples),
                },
                width,
                height,
                layers,
                depth_buffer_bits: None,
                stencil_buffer_bits: None,
                marker: PhantomData,
            },
        )
    } else {
        Err(ValidationError::EmptyFramebufferObjectsNotSupported)
    }
}

impl<'a> FramebufferAttachments<'a> {
    /// Whether `validate` is defined for these attachments on a backend of version `v` with
    /// extensions `e`: an empty framebuffer on a backend that supports them must have
    /// dimensions of at least 1, and at least one layer and one sample when they are given.
    pub open spec fn validate_requires(self, v: Version, e: ExtensionsList) -> bool {
        match self {
            FramebufferAttachments::Empty { width, height, layers, samples, .. } => (
            empty_framebuffers_supported(v, e) ==> empty_request_valid(width, height, layers, samples)),
            _ => true,
        }
    }

    /// `r` is the result of validating these attachments on a backend of version `v`, with
    /// extensions `e` and limits `c`.
    pub open spec fn validated(
        self,
        v: Version,
        e: ExtensionsList,
        c: Capabilities,
        r: Result<ValidatedAttachments<'a>, ValidationError>,
    ) -> bool {
        match self {
            FramebufferAttachments::Regular(a) => specific_validated(v, e, c, a, r),
            FramebufferAttachments::Layered(a) => specific_validated(v, e, c, a, r),
            FramebufferAttachments::Empty { width, height, layers, samples, fixed_samples } =>
                empty_validated(v, e, c, width, height, layers, samples, fixed_samples, r),
        }
    }

    /// After building a `FramebufferAttachments` struct, you must use this function to
    /// "compile" the attachments and make sure that they are valid together.
    pub fn validate<C: CapabilitiesSource>(self, context: &C) -> (r: Result<
        ValidatedAttachments<'a>,
        ValidationError,
    >)
        requires
            self.validate_requires(context.version_view(), context.extensions_view()),
        ensures
            self.validated(
                context.version_view(),
                context.extensions_view(),
                context.capabilities_view(),
                r,
            ),
    {
        match self {
            FramebufferAttachments::Regular(a) => validate_specific(context, a),
            FramebufferAttachments::Layered(a) => validate_specific(context, a),
            FramebufferAttachments::Empty { width, height, layers, samples, fixed_samples } =>
                validate_empty(context, width, height, layers, samples, fixed_samples),
        }
    }
}

/// What checking a sequence of attachments without error establishes: the dimensions are the
/// smallest width and the smallest height, all attachments have the same number of samples,
/// without support for dimension mismatches all have the same dimensions, and every color index
/// is below the limit.
proof fn lemma_check_images_ok<T: FramebufferImage>(max: i32, ok: bool, s: Seq<(Option<u32>, T)>)
    requires
        check_images(max, ok, s) is Ok,
    ensures
        ({
            let state = check_images(max, ok, s).unwrap();
            &&& (s.len() == 0) == (state.0 is None)
            &&& (s.len() == 0) == (state.1 is None)
            &&& s.len() > 0 ==> {
                let dims = state.0.unwrap();
                &&& forall|i: int|
                    0 <= i < s.len() ==> dims.0 <= (#[trigger] s[i]).1.extent().width && dims.1
                        <= s[i].1.extent().height && s[i].1.extent().samples == state.1.unwrap()
                &&& exists|i: int| 0 <= i < s.len() && dims.0 == (#[trigger] s[i]).1.extent().width
                &&& exists|i: int| 0 <= i < s.len() && dims.1 == (#[trigger] s[i]).1.extent().height
                &&& !ok ==> forall|i: int|
                    0 <= i < s.len() ==> (#[trigger] s[i]).1.extent().width == dims.0
                        && s[i].1.extent().height == dims.1
                &&& forall|i: int|
                    0 <= i < s.len() && (#[trigger] s[i]).0 is Some ==> s[i].0.unwrap() < (max as u32)
            }
        }),
    decreases s.len(),
{
    if s.len() > 0 {
        let p = s.drop_last();
        lemma_check_images_ok(max, ok, p);
        let state = check_images(max, ok, s).unwrap();
        let last = s.last();
        let ext = last.1.extent();
        assert forall|i: int| 0 <= i < s.len() - 1 implies #[trigger] s[i] == p[i] by {}
        if p.len() == 0 {
            assert(s[0] == last);
        } else {
            let pstate = check_images(max, ok, p).unwrap();
            let pd = pstate.0.unwrap();
            let dims = state.0.unwrap();
            assert(s[s.len() - 1] == last);
            if pd.0 <= ext.width {
                let w = choose|i: int| 0 <= i < p.len() && pd.0 == (#[trigger] p[i]).1.extent().width;
                assert(s[w] == p[w]);
            } else {
                assert(dims.0 == s[s.len() - 1].1.extent().width);
            }
            if pd.1 <= ext.height {
                let h = choose|i: int| 0 <= i < p.len() && pd.1 == (#[trigger] p[i]).1.extent().height;
                assert(s[h] == p[h]);
            } else {
                assert(dims.1 == s[s.len() - 1].1.extent().height);
            }
        }
    }
}

/// Validation takes the intersection of the attachments. When attachments are valid together,
/// there is at least one; the framebuffer is as wide as the narrowest of them and as high as
/// the lowest; all have the same number of samples; on a backend that does not support
/// attachments of different dimensions, all have the dimensions of the framebuffer; and there
/// are no more color attachments, and no higher color index, than the backend allows.
pub proof fn lemma_validation_intersection<T: FramebufferImage>(
    v: Version,
    e: ExtensionsList,
    c: Capabilities,
    a: FramebufferSpecificAttachments<T>,
)
    requires
        specific_validation(v, e, c, a) is Ok,
    ensures
        ({
            let dims = specific_validation(v, e, c, a).unwrap();
            let items = attachment_items(a);
            &&& items.len() > 0
            &&& forall|i: int|
                0 <= i < items.len() ==> dims.0 <= (#[trigger] items[i]).1.extent().width && dims.1
                    <= items[i].1.extent().height
            &&& exists|i: int|
                0 <= i < items.len() && dims.0 == (#[trigger] items[i]).1.extent().width
            &&& exists|i: int|
                0 <= i < items.len() && dims.1 == (#[trigger] items[i]).1.extent().height
            &&& forall|i: int, j: int|
                0 <= i < items.len() && 0 <= j < items.len() ==> (#[trigger] items[i]).1.extent().samples
                    == (#[trigger] items[j]).1.extent().samples
            &&& !dimensions_mismatch_supported(v, e) ==> forall|i: int|
                0 <= i < items.len() ==> (#[trigger] items[i]).1.extent().width == dims.0
                    && items[i].1.extent().height == dims.1
            &&& a.colors@.len() <= (c.max_color_attachments as usize)
            &&& forall|i: int|
                0 <= i < a.colors@.len() ==> (#[trigger] a.colors@[i]).0 < (
                c.max_color_attachments as u32)
        }),
{
    let max = c.max_color_attachments;
    let ok = dimensions_mismatch_supported(v, e);
    let items = attachment_items(a);
    lemma_check_images_ok(max, ok, items);
    let state = check_images(max, ok, items).unwrap();
    assert forall|i: int| 0 <= i < a.colors@.len() implies (#[trigger] a.colors@[i]).0 < (
    max as u32) by {
        assert(items[i] == (Some(a.colors@[i].0), a.colors@[i].1));
    }
}

/// On a backend that does not support attachments of different dimensions, attachments two of
/// which differ in width or in height are refused. (On one that does, valid attachments give
/// the intersection: see `lemma_validation_intersection`.)
pub proof fn lemma_dimensions_mismatch_refused<T: FramebufferImage>(
    v: Version,
    e: ExtensionsList,
    c: Capabilities,
    a: FramebufferSpecificAttachments<T>,
    i: int,
    j: int,
)
    requires
        !dimensions_mismatch_supported(v, e),
        0 <= i < attachment_items(a).len(),
        0 <= j < attachment_items(a).len(),
        attachment_items(a)[i].1.extent().width != attachment_items(a)[j].1.extent().width
            || attachment_items(a)[i].1.extent().height != attachment_items(a)[j].1.extent().height,
    ensures
        specific_validation(v, e, c, a) is Err,
{
    if specific_validation(v, e, c, a) is Ok {
        lemma_validation_intersection(v, e, c, a);
    }
}

/// The depth and stencil precision of a validated framebuffer comes from its depth and stencil
/// attachments: a separate depth attachment gives the depth bits and a separate stencil
/// attachment the stencil bits, each by its own format; a depth-stencil attachment gives both;
/// and a framebuffer without such an attachment has neither.
pub proof fn lemma_validated_depth_stencil_bits<'b, T: FramebufferImage>(
    v: Version,
    e: ExtensionsList,
    c: Capabilities,
    a: FramebufferSpecificAttachments<T>,
    r: Result<ValidatedAttachments<'b>, ValidationError>,
)
    requires
        specific_validated(v, e, c, a, r),
        r is Ok,
    ensures
        ({
            let va = r->Ok_0;
            match a.depth_stencil {
                DepthStencilAttachments::NoAttachment => {
                    &&& va.depth_bits_view() is None
                    &&& va.stencil_bits_view() is None
                },
                DepthStencilAttachments::DepthAttachment(d) => {
                    &&& va.depth_bits_view() == Some(d.format_bits())
                    &&& va.stencil_bits_view() is None
                },
                DepthStencilAttachments::StencilAttachment(s) => {
                    &&& va.depth_bits_view() is None
                    &&& va.stencil_bits_view() == Some(s.format_bits())
                },
                DepthStencilAttachments::DepthAndStencilAttachments(d, s) => {
                    &&& va.depth_bits_view() == Some(d.format_bits())
                    &&& va.stencil_bits_view() == Some(s.format_bits())
                },
                DepthStencilAttachments::DepthStencilAttachment(x) => {
                    &&& va.depth_bits_view() == Some(x.depth_stencil_bits_of().0)
                    &&& va.stencil_bits_view() == Some(x.depth_stencil_bits_of().1)
                },
            }
        }),
{
}

/// A validated framebuffer is as wide as its narrowest attachment and as high as its lowest
/// one.
pub proof fn lemma_validated_dimensions<'b, T: FramebufferImage>(
    v: Version,
    e: ExtensionsList,
    c: Capabilities,
    a: FramebufferSpecificAttachments<T>,
    r: Result<ValidatedAttachments<'b>, ValidationError>,
)
    requires
        specific_validated(v, e, c, a, r),
        r is Ok,
    ensures
        ({
            let dims = r->Ok_0.dimensions_view();
            let items = attachment_items(a);
            &&& forall|i: int|
                0 <= i < items.len() ==> dims.0 <= (#[trigger] items[i]).1.extent().width && dims.1
                    <= items[i].1.extent().height
            &&& exists|i: int|
                0 <= i < items.len() && dims.0 == (#[trigger] items[i]).1.extent().width
            &&& exists|i: int|
                0 <= i < items.len() && dims.1 == (#[trigger] items[i]).1.extent().height
        }),
{
    lemma_validation_intersection(v, e, c, a);
}

/// A validated framebuffer hands OpenGL the images it was given, each in its own role: every
/// color attachment at its own index, in order; a separate depth attachment as the depth
/// buffer and a separate stencil attachment as the stencil buffer; a depth-stencil attachment
/// as the depth-stencil buffer alone.
pub proof fn lemma_validated_raw_attachments<'b, T: FramebufferImage>(
    v: Version,
    e: ExtensionsList,
    c: Capabilities,
    a: FramebufferSpecificAttachments<T>,
    r: Result<ValidatedAttachments<'b>, ValidationError>,
)
    requires
        specific_validated(v, e, c, a, r),
        r is Ok,
    ensures
        ({
            let raw = r->Ok_0.raw_view();
            &&& raw.color@.len() == a.colors@.len()
            &&& forall|i: int|
                0 <= i < a.colors@.len() ==> #[trigger] raw.color@[i] == (
                    a.colors@[i].0,
                    a.colors@[i].1.raw_view(),
                )
            &&& match a.depth_stencil {
                DepthStencilAttachments::NoAttachment => {
                    &&& raw.depth is None
                    &&& raw.stencil is None
                    &&& raw.depth_stencil is None
                },
                DepthStencilAttachments::DepthAttachment(d) => {
                    &&& raw.depth == Some(d.raw_view())
                    &&& raw.stencil is None
                    &&& raw.depth_stencil is None
                },
                DepthStencilAttachments::StencilAttachment(s) => {
                    &&& raw.depth is None
                    &&& raw.stencil == Some(s.raw_view())
                    &&& raw.depth_stencil is None
                },
                DepthStencilAttachments::DepthAndStencilAttachments(d, s) => {
                    &&& raw.depth == Some(d.raw_view())
                    &&& raw.stencil == Some(s.raw_view())
                    &&& raw.depth_stencil is None
                },
                DepthStencilAttachments::DepthStencilAttachment(x) => {
                    &&& raw.depth is None
                    &&& raw.stencil is None
                    &&& raw.depth_stencil == Some(x.raw_view())
                },
            }
        }),
{
}

/// Images that are not layered give a framebuffer that is not layered.
proof fn lemma_regular_layers<'b>(s: Seq<(Option<u32>, RegularAttachment<'b>)>)
    ensures
        layers_of(s) is None,
    decreases s.len(),
{
    if s.len() > 0 {
        lemma_regular_layers(s.drop_last());
    }
}

/// A validated framebuffer is layered exactly when its attachments are layered ones, or when it
/// is an empty framebuffer with a number of layers; a layered framebuffer has as many layers as
/// the layered attachment with the fewest.
pub proof fn lemma_validated_layered<'b>(
    v: Version,
    e: ExtensionsList,
    c: Capabilities,
    a: FramebufferAttachments<'b>,
    r: Result<ValidatedAttachments<'b>, ValidationError>,
)
    requires
        a.validated(v, e, c, r),
        r is Ok,
    ensures
        (r->Ok_0.layers_view() is Some) == (a is Layered || a matches FramebufferAttachments::Empty {
            layers: Some(_),
            ..
        }),
        a matches FramebufferAttachments::Layered(sa) ==> r->Ok_0.layers_view() == layers_of(
            attachment_items(sa),
        ),
{
    match a {
        FramebufferAttachments::Regular(sa) => {
            lemma_regular_layers(attachment_items(sa));
        },
        FramebufferAttachments::Layered(sa) => {
            lemma_validation_intersection(v, e, c, sa);
        },
        FramebufferAttachments::Empty { .. } => {},
    }
}

/// The list of buffers to give to `glDrawBuffers` for the color attachments `colors`: the
/// attachment at position `k` of `colors` goes to the slot `COLOR_ATTACHMENT0 + k`, and the
/// list holds that slot at the fragment output location of the attachment, and `NONE` at the
/// locations that no attachment has, up to the highest location.
pub open spec fn draw_buffers_spec(colors: Seq<(u32, RawAttachment)>) -> Seq<u32>
    decreases colors.len(),
{
    if colors.len() == 0 {
        Seq::empty()
    } else {
        let prev = draw_buffers_spec(colors.drop_last());
        let k = colors.len() - 1;
        let p = colors.last().0 as int;
        let extended = if prev.len() <= p {
            prev + Seq::new((p + 1 - prev.len()) as nat, |i: int| gl::NONE)
        } else {
            prev
        };
        extended.update(p, (gl::COLOR_ATTACHMENT0 + k) as u32)
    }
}

/// The entry point that creates a framebuffer object.
#[derive(Debug, Clone, Copy, PartialEq, Eq, Structural)]
pub enum FramebufferCreation {
    /// `glCreateFramebuffers`.
    DirectStateAccess,
    /// `glGenFramebuffers`, then binding it.
    Regular,
    /// `glGenFramebuffersEXT`, then binding it.
    Ext,
}

/// The entry point that sets the draw buffers of a framebuffer object.
#[derive(Debug, Clone, Copy, PartialEq, Eq, Structural)]
pub enum DrawBuffersCall {
    /// `glNamedFramebufferDrawBuffers`.
    DirectStateAccess,
    /// `glDrawBuffers`, after binding the framebuffer.
    Regular,
    /// `glDrawBuffersARB`, after binding the framebuffer.
    Arb,
    /// `glDrawBuffersATI`, after binding the framebuffer.
    Ati,
}

/// How a framebuffer object is built from its attachments: the entry point that creates it, the
/// list of draw buffers, and the entry point that sets them if the list is not the default one
/// (only `COLOR_ATTACHMENT0`).
#[derive(Debug, Clone)]
pub struct FramebufferObjectPlan {
    /// The entry point that creates the framebuffer object.
    pub creation: FramebufferCreation,
    /// The list of draw buffers.
    pub draw_buffers: Vec<u32>,
    /// The entry point that sets the draw buffers, if they are not the default ones.
    pub draw_buffers_call: Option<DrawBuffersCall>,
}

/// The entry point that creates a framebuffer object on a backend of version `v` with
/// extensions `e`, if the backend has framebuffer objects.
pub open spec fn framebuffer_creation(v: Version, e: ExtensionsList) -> Option<FramebufferCreation> {
    if ver_ge(v, Api::Gl, 4, 5) || e.gl_arb_direct_state_access {
        Some(FramebufferCreation::DirectStateAccess)
    } else if ver_ge(v, Api::Gl, 3, 0) || ver_ge(v, Api::GlEs, 2, 0) || e.gl_arb_framebuffer_object {
        Some(FramebufferCreation::Regular)
    } else if e.gl_ext_framebuffer_object {
        Some(FramebufferCreation::Ext)
    } else {
        None
    }
}

/// The entry point that sets the draw buffers on a backend of version `v` with extensions `e`,
/// if the backend can set them.
pub open spec fn draw_buffers_call(v: Version, e: ExtensionsList) -> Option<DrawBuffersCall> {
    if ver_ge(v, Api::Gl, 4, 5) || e.gl_arb_direct_state_access {
        Some(DrawBuffersCall::DirectStateAccess)
    } else if ver_ge(v, Api::Gl, 2, 0) || ver_ge(v, Api::GlEs, 3, 0) {
        Some(DrawBuffersCall::Regular)
    } else if e.gl_arb_draw_buffers {
        Some(DrawBuffersCall::Arb)
    } else if e.gl_ati_draw_buffers {
        Some(DrawBuffersCall::Ati)
    } else {
        None
    }
}

/// Whether a backend of version `v` with extensions `e` can set the default parameters of a
/// framebuffer (`glFramebufferParameteri`); the default number of layers needs OpenGL ES 3.2
/// rather than 3.1.
pub open spec fn framebuffer_parameters_supported(v: Version, e: ExtensionsList, layers: bool) -> bool {
    ver_ge(v, Api::Gl, 4, 3) || (if layers {
        ver_ge(v, Api::GlEs, 3, 2)
    } else {
        ver_ge(v, Api::GlEs, 3, 1)
    }) || e.gl_arb_framebuffer_no_attachments
}

/// What a framebuffer object needs of a backend of version `v`, with extensions `e` and limits
/// `c`, for the attachments `raw`: framebuffer objects, no more color attachments than draw
/// buffers and bind points, support for each default parameter that is set, and a way to set
/// the draw buffers when they are not the default ones.
pub open spec fn framebuffer_object_buildable(
    v: Version,
    e: ExtensionsList,
    c: Capabilities,
    raw: RawAttachments,
) -> bool {
    &&& framebuffer_creation(v, e) is Some
    &&& raw.color@.len() <= (c.max_draw_buffers as usize)
    &&& raw.color@.len() <= (c.max_color_attachments as usize)
    &&& raw.color@.len() > 0 ==> 0 <= c.max_color_attachments
    &&& forall|i: int| 0 <= i < raw.color@.len() ==> ((#[trigger] raw.color@[i]).0 as int) < usize::MAX
    &&& (raw.default_width is Some || raw.default_height is Some || raw.default_samples is Some
        || raw.default_samples_fixed is Some) ==> framebuffer_parameters_supported(v, e, false)
    &&& raw.default_layers is Some ==> framebuffer_parameters_supported(v, e, true)
    &&& draw_buffers_spec(raw.color@) != seq![gl::COLOR_ATTACHMENT0] ==> draw_buffers_call(v, e) is Some
}

/// Computes the list of draw buffers of the color attachments `colors`.
fn draw_buffers(colors: &Vec<(u32, RawAttachment)>, max_color_attachments: i32) -> (r: Vec<u32>)
    requires
        colors@.len() > 0 ==> 0 <= max_color_attachments,
        colors@.len() <= (max_color_attachments as usize),
        forall|i: int| 0 <= i < colors@.len() ==> ((#[trigger] colors@[i]).0 as int) < usize::MAX,
    ensures
        r@ == draw_buffers_spec(colors@),
{
    let mut list: Vec<u32> = Vec::new();
    let mut k: usize = 0;
    assert(colors@.take(0) =~= Seq::<(u32, RawAttachment)>::empty());
    while k < colors.len()
        invariant
            k <= colors@.len(),
            colors@.len() <= (max_color_attachments as usize),
            colors@.len() > 0 ==> 0 <= max_color_attachments,
            forall|i: int| 0 <= i < colors@.len() ==> ((#[trigger] colors@[i]).0 as int) < usize::MAX,
            list@ == draw_buffers_spec(colors@.take(k as int)),
        decreases colors@.len() - k,
    {
        let p = colors[k].0 as usize;
        let ghost prev = list@;
        assert(colors@.take(k + 1).drop_last() =~= colors@.take(k as int));
        assert(colors@.take(k + 1).last() == colors@[k as int]);
        assert((colors@[k as int].0 as int) < usize::MAX);
        while list.len() <= p
            invariant
                p < usize::MAX,
                prev.len() <= p ==> list@ =~= prev + Seq::new(
                    (list@.len() - prev.len()) as nat,
                    |i: int| gl::NONE,
                ),
                prev.len() > p ==> list@ == prev,
                list@.len() >= prev.len(),
                list@.len() <= if prev.len() <= p {
                    p + 1
                } else {
                    prev.len() as int
                },
            decreases p + 1 - list@.len(),
        {
            list.push(gl::NONE);
        }
        assert(k < max_color_attachments);
        let slot: u32 = gl::COLOR_ATTACHMENT0 + k as u32;
        list.set(p, slot);
        k = k + 1;
    }
    assert(colors@.take(colors@.len() as int) =~= colors@);
    list
}

/// Decides how to build a framebuffer object from validated attachments.
pub fn plan_framebuffer_object<C: CapabilitiesSource>(ctxt: &C, raw: &RawAttachments) -> (r:
    FramebufferObjectPlan)
    requires
        framebuffer_object_buildable(
            ctxt.version_view(),
            ctxt.extensions_view(),
            ctxt.capabilities_view(),
            *raw,
        ),
    ensures
        Some(r.creation) == framebuffer_creation(ctxt.version_view(), ctxt.extensions_view()),
        r.draw_buffers@ == draw_buffers_spec(raw.color@),
        r.draw_buffers_call == if draw_buffers_spec(raw.color@) == seq![gl::COLOR_ATTACHMENT0] {
            None
        } else {
            draw_buffers_call(ctxt.version_view(), ctxt.extensions_view())
        },
{
    let v = ctxt.get_version();
    let e = ctxt.get_extensions();
    let creation = if version_ge(v, Api::Gl, 4, 5) || e.gl_arb_direct_state_access {
        FramebufferCreation::DirectStateAccess
    } else if version_ge(v, Api::Gl, 3, 0) || version_ge(v, Api::GlEs, 2, 0)
        || e.gl_arb_framebuffer_object {
        FramebufferCreation::Regular
    } else {
        FramebufferCreation::Ext
    };
    let list = draw_buffers(&raw.color, ctxt.get_capabilities().max_color_attachments);
    let is_default = list.len() == 1 && list[0] == gl::COLOR_ATTACHMENT0;
    proof {
        if is_default {
            assert(list@ =~= seq![gl::COLOR_ATTACHMENT0]);
        }
    }
    let call = if is_default {
        None
    } else if version_ge(v, Api::Gl, 4, 5) || e.gl_arb_direct_state_access {
        Some(DrawBuffersCall::DirectStateAccess)
    } else if version_ge(v, Api::Gl, 2, 0) || version_ge(v, Api::GlEs, 3, 0) {
        Some(DrawBuffersCall::Regular)
    } else if e.gl_arb_draw_buffers {
        Some(DrawBuffersCall::Arb)
    } else {
        Some(DrawBuffersCall::Ati)
    };
    FramebufferObjectPlan { creation, draw_buffers: list, draw_buffers_call: call }
}

/// The position in `colors` of the last color attachment at fragment output location `q`.
pub open spec fn last_slot_at(colors: Seq<(u32, RawAttachment)>, q: int) -> Option<int>
    decreases colors.len(),
{
    if colors.len() == 0 {
        None
    } else if colors.last().0 == q {
        Some(colors.len() - 1)
    } else {
        last_slot_at(colors.drop_last(), q)
    }
}

/// The highest fragment output location of the color attachments, or -1 if there are none.
pub open spec fn highest_location(colors: Seq<(u32, RawAttachment)>) -> int
    decreases colors.len(),
{
    if colors.len() == 0 {
        -1
    } else {
        let prev = highest_location(colors.drop_last());
        if prev >= colors.last().0 {
            prev
        } else {
            colors.last().0 as int
        }
    }
}

/// The list of draw buffers covers every fragment output location up to the highest one; at
/// each location it holds the slot of the last color attachment at that location, and `NONE`
/// where there is none.
pub proof fn lemma_draw_buffers_slots(colors: Seq<(u32, RawAttachment)>)
    ensures
        draw_buffers_spec(colors).len() == highest_location(colors) + 1,
        forall|q: int|
            0 <= q < draw_buffers_spec(colors).len() ==> #[trigger] draw_buffers_spec(colors)[q]
                == match last_slot_at(colors, q) {
                Some(k) => #[verifier::truncate] ((gl::COLOR_ATTACHMENT0 + k) as u32),
                None => gl::NONE,
            },
    decreases colors.len(),
{
    if colors.len() > 0 {
        let prev_colors = colors.drop_last();
        lemma_draw_buffers_slots(prev_colors);
        let prev = draw_buffers_spec(prev_colors);
        let p = colors.last().0 as int;
        let r = draw_buffers_spec(colors);
        assert forall|q: int| 0 <= q < r.len() implies #[trigger] r[q] == match last_slot_at(
            colors,
            q,
        ) {
            Some(k) => (gl::COLOR_ATTACHMENT0 + k) as u32,
            None => gl::NONE,
        } by {
            if q == p {
                assert(last_slot_at(colors, q) == Some(colors.len() - 1));
            } else if q < prev.len() {
                assert(r[q] == prev[q]);
                assert(last_slot_at(colors, q) == last_slot_at(prev_colors, q));
            } else {
                lemma_no_slot_above_highest(prev_colors, q);
                assert(last_slot_at(colors, q) == last_slot_at(prev_colors, q));
            }
        }
    }
}

proof fn lemma_no_slot_above_highest(colors: Seq<(u32, RawAttachment)>, q: int)
    requires
        q > highest_location(colors),
    ensures
        last_slot_at(colors, q) is None,
    decreases colors.len(),
{
    if colors.len() > 0 {
        lemma_no_slot_above_highest(colors.drop_last(), q);
    }
}

/// The attachments of a valid empty framebuffer can be built into a framebuffer object on any
/// backend that has framebuffer objects and draw buffers: every default parameter that they set
/// is supported.
pub proof fn lemma_empty_framebuffer_buildable<'b>(
    v: Version,
    e: ExtensionsList,
    c: Capabilities,
    width: u32,
    height: u32,
    layers: Option<u32>,
    samples: Option<u32>,
    fixed_samples: bool,
    va: ValidatedAttachments<'b>,
)
    requires
        empty_validated(
            v,
            e,
            c,
            width,
            height,
            layers,
            samples,
            fixed_samples,
            Ok::<ValidatedAttachments<'b>, ValidationError>(va),
        ),
        framebuffer_creation(v, e) is Some,
        draw_buffers_call(v, e) is Some,
    ensures
        framebuffer_object_buildable(v, e, c, va.raw_view()),
{
    assert(va.raw_view().color@ =~= Seq::<(u32, RawAttachment)>::empty());
}

} // verus!
