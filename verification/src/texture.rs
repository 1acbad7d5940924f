//! What the framebuffer logic knows of a texture: its OpenGL name and bind point, its kind,
//! and the dimensions and number of samples of the image that is attached.

use vstd::prelude::*;

use crate::image_format::TextureFormatRequest;

verus! {

/// Kind of texture, or of render buffer.
#[derive(Debug, Clone, Copy, PartialEq, Eq, Hash, Structural)]
pub enum TextureKind {
    /// Floating-point or normalized texture.
    Float,
    /// Signed integral texture.
    Integral,
    /// Unsigned integral texture.
    Unsigned,
    /// Depth texture.
    Depth,
    /// Stencil texture.
    Stencil,
    /// Depth and stencil texture.
    DepthStencil,
}

/// A layer of a cubemap.
#[derive(Debug, Clone, Copy, PartialEq, Eq, Hash, Structural)]
#[allow(missing_docs)]
pub enum CubeLayer {
    PositiveX,
    NegativeX,
    PositiveY,
    NegativeY,
    PositiveZ,
    NegativeZ,
}

impl CubeLayer {
    /// The index of the face: the faces are numbered in the order of the OpenGL enumerants,
    /// from `POSITIVE_X` (0) to `NEGATIVE_Z` (5).
    pub open spec fn layer_index(self) -> u32 {
        match self {
            CubeLayer::PositiveX => 0,
            CubeLayer::NegativeX => 1,
            CubeLayer::PositiveY => 2,
            CubeLayer::NegativeY => 3,
            CubeLayer::PositiveZ => 4,
            CubeLayer::NegativeZ => 5,
        }
    }

    /// Returns the index of the face.
    pub fn get_layer_index(&self) -> (r: usize)
        ensures
            r == self.layer_index(),
    {
        match self {
            CubeLayer::PositiveX => 0,
            CubeLayer::NegativeX => 1,
            CubeLayer::PositiveY => 2,
            CubeLayer::NegativeY => 3,
            CubeLayer::PositiveZ => 4,
            CubeLayer::NegativeZ => 5,
        }
    }
}

/// A texture of any type, described by the values that the framebuffer logic reads.
#[derive(Debug, Clone, Copy, PartialEq, Eq, Structural)]
pub struct TextureAny {
    /// The OpenGL name of the texture.
    pub id: u32,
    /// The bind point of the texture, such as `TEXTURE_2D`.
    pub bind_point: u32,
    /// The kind of the texture.
    pub kind: TextureKind,
    /// The format that was requested when the texture was created.
    pub requested_format: TextureFormatRequest,
    /// The number of samples of the texture, or `None` if it is not multisampled.
    pub samples: Option<u32>,
    /// The total number of bits of the internal format, or `None` if the backend could not
    /// tell the internal format.
    pub internal_format_bits: Option<usize>,
    /// The number of depth bits of the internal format.
    pub depth_bits: u16,
    /// The number of stencil bits of the internal format.
    pub stencil_bits: u16,
}

impl TextureAny {
    /// Returns the OpenGL name of the texture.
    pub fn get_id(&self) -> (r: u32)
        ensures
            r == self.id,
    {
        self.id
    }

    /// Returns the bind point of the texture.
    pub fn get_bind_point(&self) -> (r: u32)
        ensures
            r == self.bind_point,
    {
        self.bind_point
    }

    /// Returns the format that was requested when the texture was created.
    pub fn get_requested_format(&self) -> (r: TextureFormatRequest)
        ensures
            r == self.requested_format,
    {
        self.requested_format
    }

    /// Returns the kind of the texture.
    pub fn kind(&self) -> (r: TextureKind)
        ensures
            r == self.kind,
    {
        self.kind
    }

    /// Returns the number of depth bits and of stencil bits of the texture's format.
    pub fn get_depth_stencil_bits(&self) -> (r: (u16, u16))
        ensures
            r == (self.depth_bits, self.stencil_bits),
    {
        (self.depth_bits, self.stencil_bits)
    }
}

/// A mipmap level of a texture, with all its layers.
#[derive(Debug, Clone, Copy, PartialEq, Eq, Structural)]
pub struct TextureAnyMipmap {
    /// The texture.
    pub texture: TextureAny,
    /// The mipmap level.
    pub level: u32,
    /// The width of this level.
    pub width: u32,
    /// The height of this level, or `None` for a one-dimensional texture.
    pub height: Option<u32>,
    /// The number of layers of this level: the number of elements of an array texture, the
    /// depth of a three-dimensional texture, six faces for a cubemap (six per element for a
    /// cubemap array), and one otherwise.
    pub layers: u32,
}

impl TextureAnyMipmap {
    /// Returns the texture.
    pub fn get_texture(&self) -> (r: &TextureAny)
        ensures
            *r == self.texture,
    {
        &self.texture
    }

    /// Returns the mipmap level.
    pub fn get_level(&self) -> (r: u32)
        ensures
            r == self.level,
    {
        self.level
    }

    /// Returns the width of this level.
    pub fn get_width(&self) -> (r: u32)
        ensures
            r == self.width,
    {
        self.width
    }

    /// Returns the height of this level, if the texture has one.
    pub fn get_height(&self) -> (r: Option<u32>)
        ensures
            r == self.height,
    {
        self.height
    }

    /// Returns the number of samples of the texture.
    pub fn get_samples(&self) -> (r: Option<u32>)
        ensures
            r == self.texture.samples,
    {
        self.texture.samples
    }
}

/// A single image of a texture: a layer of a mipmap level, or a face of a cubemap.
#[derive(Debug, Clone, Copy, PartialEq, Eq, Structural)]
pub struct TextureAnyImage {
    /// The texture.
    pub texture: TextureAny,
    /// The mipmap level.
    pub level: u32,
    /// The layer of an array texture (0 for other textures).
    pub layer: u32,
    /// The face of a cubemap, if the texture is a cubemap.
    pub cubemap_layer: Option<CubeLayer>,
    /// The width of the image.
    pub width: u32,
    /// The height of the image, or `None` for a one-dimensional texture.
    pub height: Option<u32>,
}

impl TextureAnyImage {
    /// Returns the texture.
    pub fn get_texture(&self) -> (r: &TextureAny)
        ensures
            *r == self.texture,
    {
        &self.texture
    }

    /// Returns the mipmap level.
    pub fn get_level(&self) -> (r: u32)
        ensures
            r == self.level,
    {
        self.level
    }

    /// Returns the layer.
    pub fn get_layer(&self) -> (r: u32)
        ensures
            r == self.layer,
    {
        self.layer
    }

    /// Returns the face of the cubemap, if the texture is a cubemap.
    pub fn get_cubemap_layer(&self) -> (r: Option<CubeLayer>)
        ensures
            r == self.cubemap_layer,
    {
        self.cubemap_layer
    }

    /// Returns the width of the image.
    pub fn get_width(&self) -> (r: u32)
        ensures
            r == self.width,
    {
        self.width
    }

    /// Returns the height of the image, if the texture has one.
    pub fn get_height(&self) -> (r: Option<u32>)
        ensures
            r == self.height,
    {
        self.height
    }

    /// Returns the number of samples of the texture.
    pub fn get_samples(&self) -> (r: Option<u32>)
        ensures
            r == self.texture.samples,
    {
        self.texture.samples
    }
}

} // verus!
