//! The image formats of OpenGL: which of them a backend supports, which can be rendered to,
//! and which OpenGL enumerants stand for a texture request or a client-side pixel format.

use vstd::prelude::*;
use vstd::string::StringExecFns;

use crate::gl;
use crate::version::{Api, Version, ExtensionsList, CapabilitiesSource, ver_ge, version_ge};

verus! {

/// Error that is returned if the format is not supported by OpenGL.
#[derive(Copy, Clone, Debug, PartialEq, Eq, Structural)]
pub struct FormatNotSupportedError;

impl FormatNotSupportedError {
    /// The text that `description` returns.
    pub open spec fn description_text(&self) -> Seq<char> {
        "Format is not supported by OpenGL"@
    }

    /// Returns the description of the error.
    pub fn description(&self) -> (r: &'static str)
        ensures
            r@ == self.description_text(),
    {
        "Format is not supported by OpenGL"
    }

    /// Returns the text that displays the error: its description.
    pub fn to_string(&self) -> (r: String)
        ensures
            r@ == self.description_text(),
    {
        String::from_str(self.description())
    }
}

/// Texture format request.
#[derive(Copy, Clone, Debug, PartialEq, Eq, Structural)]
pub enum TextureFormatRequest {
    /// Request a specific format.
    Specific(TextureFormat),
    /// Request any floating-point format, normalized or not.
    AnyFloatingPoint,
    /// Request any compressed format.
    AnyCompressed,
    /// Request any sRGB format.
    AnySrgb,
    /// Request any compressed sRGB format.
    AnyCompressedSrgb,
    /// Request any integral format.
    AnyIntegral,
    /// Request any unsigned format.
    AnyUnsigned,
    /// Request any depth format.
    AnyDepth,
    /// Request any stencil format.
    AnyStencil,
    /// Request any depth-stencil format.
    AnyDepthStencil,
}

/// List of client-side pixel formats.
///
/// These are all the possible formats of input data when uploading to a texture.
#[allow(missing_docs)]
#[derive(Debug, Clone, Copy, PartialEq, Eq, Hash, Structural)]
pub enum ClientFormat {
    U8,
    U8U8,
    U8U8U8,
    U8U8U8U8,
    I8,
    I8I8,
    I8I8I8,
    I8I8I8I8,
    U16,
    U16U16,
    U16U16U16,
    U16U16U16U16,
    I16,
    I16I16,
    I16I16I16,
    I16I16I16I16,
    U32,
    U32U32,
    U32U32U32,
    U32U32U32U32,
    I32,
    I32I32,
    I32I32I32,
    I32I32I32I32,
    U3U3U2,
    U5U6U5,
    U4U4U4U4,
    U5U5U5U1,
    U10U10U10U2,
    F16,
    F16F16,
    F16F16F16,
    F16F16F16F16,
    F32,
    F32F32,
    F32F32F32,
    F32F32F32F32,
}

/// List of uncompressed pixel formats that contain floating-point-like data.
///
/// Some formats are marked as "guaranteed to be supported". What this means is that you are
/// certain that the backend will use exactly these formats. If you try to use a format that
/// is not supported by the backend, it will automatically fall back to a larger format.
#[allow(missing_docs)]
#[derive(Debug, Clone, Copy, Hash, PartialEq, Eq, Structural)]
pub enum UncompressedFloatFormat {
    /// Guaranteed to be supported for both textures and renderbuffers.
    U8,
    /// Guaranteed to be supported for textures.
    I8,
    /// Guaranteed to be supported for both textures and renderbuffers.
    U16,
    /// Guaranteed to be supported for textures.
    I16,
    /// Guaranteed to be supported for both textures and renderbuffers.
    U8U8,
    /// Guaranteed to be supported for textures.
    I8I8,
    /// Guaranteed to be supported for both textures and renderbuffers.
    U16U16,
    /// Guaranteed to be supported for textures.
    I16I16,
    U3U3U2,
    U4U4U4,
    U5U5U5,
    /// Guaranteed to be supported for textures.
    U8U8U8,
    /// Guaranteed to be supported for textures.
    I8I8I8,
    U10U10U10,
    U12U12U12,
    /// Guaranteed to be supported for both textures and renderbuffers.
    U16U16U16,
    /// Guaranteed to be supported for textures.
    I16I16I16,
    U2U2U2U2,
    U4U4U4U4,
    U5U5U5U1,
    /// Guaranteed to be supported for both textures and renderbuffers.
    U8U8U8U8,
    /// Guaranteed to be supported for textures.
    I8I8I8I8,
    /// Guaranteed to be supported for both textures and renderbuffers.
    U10U10U10U2,
    U12U12U12U12,
    /// Guaranteed to be supported for both textures and renderbuffers.
    U16U16U16U16,
    /// Guaranteed to be supported for both textures and renderbuffers.
    I16I16I16I16,
    /// Guaranteed to be supported for both textures and renderbuffers.
    F16,
    /// Guaranteed to be supported for both textures and renderbuffers.
    F16F16,
    /// Guaranteed to be supported for textures.
    F16F16F16,
    /// Guaranteed to be supported for both textures and renderbuffers.
    F16F16F16F16,
    /// Guaranteed to be supported for both textures and renderbuffers.
    F32,
    /// Guaranteed to be supported for both textures and renderbuffers.
    F32F32,
    /// Guaranteed to be supported for textures.
    F32F32F32,
    /// Guaranteed to be supported for both textures and renderbuffers.
    F32F32F32F32,
    /// Guaranteed to be supported for both textures and renderbuffers.
    F11F11F10,
    /// Uses three components of 9 bits of precision that all share the same exponent.
    ///
    /// Use this format only if all the components are approximately equal.
    ///
    /// Guaranteed to be supported for textures.
    F9F9F9,
}

/// List of uncompressed pixel formats that contain floating-point data in the sRGB color space.
#[allow(missing_docs)]
#[derive(Debug, Clone, Copy, Hash, PartialEq, Eq, Structural)]
pub enum SrgbFormat {
    U8U8U8,
    U8U8U8U8,
}

/// List of uncompressed pixel formats that contain signed integral data.
#[allow(missing_docs)]
#[derive(Debug, Clone, Copy, Hash, PartialEq, Eq, Structural)]
pub enum UncompressedIntFormat {
    I8,
    I16,
    I32,
    I8I8,
    I16I16,
    I32I32,
    I8I8I8,
    /// May not be supported by renderbuffers.
    I16I16I16,
    /// May not be supported by renderbuffers.
    I32I32I32,
    /// May not be supported by renderbuffers.
    I8I8I8I8,
    I16I16I16I16,
    I32I32I32I32,
}

/// List of uncompressed pixel formats that contain unsigned integral data.
#[allow(missing_docs)]
#[derive(Debug, Clone, Copy, Hash, PartialEq, Eq, Structural)]
pub enum UncompressedUintFormat {
    U8,
    U16,
    U32,
    U8U8,
    U16U16,
    U32U32,
    U8U8U8,
    /// May not be supported by renderbuffers.
    U16U16U16,
    /// May not be supported by renderbuffers.
    U32U32U32,
    /// May not be supported by renderbuffers.
    U8U8U8U8,
    U16U16U16U16,
    U32U32U32U32,
    U10U10U10U2,
}

/// List of compressed texture formats.
#[derive(Debug, Clone, Copy, Hash, PartialEq, Eq, Structural)]
pub enum CompressedFormat {
    /// Red/green compressed texture with one unsigned component.
    RgtcFormatU,
    /// Red/green compressed texture with one signed component.
    RgtcFormatI,
    /// Red/green compressed texture with two unsigned components.
    RgtcFormatUU,
    /// Red/green compressed texture with two signed components.
    RgtcFormatII,
    /// BPTC format with four components represented as integers.
    BptcUnorm4,
    /// BPTC format with three components (no alpha) represented as signed floats.
    BptcSignedFloat3,
    /// BPTC format with three components (no alpha) represented as unsigned floats.
    BptcUnsignedFloat3,
    /// S3TC DXT1 without alpha.
    S3tcDxt1NoAlpha,
    /// S3TC DXT1 with 1-bit alpha.
    S3tcDxt1Alpha,
    /// S3TC DXT3.
    S3tcDxt3Alpha,
    /// S3TC DXT5.
    S3tcDxt5Alpha,
}

/// List of compressed pixel formats in the sRGB color space.
#[allow(missing_docs)]
#[derive(Debug, Clone, Copy, Hash, PartialEq, Eq, Structural)]
pub enum CompressedSrgbFormat {
    /// BPTC format. sRGB with alpha. Also called `BC7` by DirectX.
    Bptc,
    S3tcDxt1NoAlpha,
    S3tcDxt1Alpha,
    S3tcDxt3Alpha,
    S3tcDxt5Alpha,
}

/// List of formats available for depth textures.
///
/// `I16`, `I24` and `I32` are still treated as if they were floating points.
/// Only the internal representation is integral.
#[allow(missing_docs)]
#[derive(Debug, Clone, Copy, Hash, PartialEq, Eq, Structural)]
pub enum DepthFormat {
    I16,
    I24,
    /// May not be supported by all hardware.
    I32,
    F32,
}

/// List of formats available for depth-stencil textures.
#[allow(missing_docs)]
#[derive(Debug, Clone, Copy, Hash, PartialEq, Eq, Structural)]
pub enum DepthStencilFormat {
    I24I8,
    F32I8,
}

/// List of formats available for stencil textures.
///
/// You are strongly advised to only use `I8`.
///
/// Stencil textures are a very recent OpenGL feature that may not be supported everywhere.
/// Only `I8` is supported for textures. All the other formats can only be used with renderbuffers.
#[allow(missing_docs)]
#[derive(Debug, Clone, Copy, Hash, PartialEq, Eq, Structural)]
pub enum StencilFormat {
    I1,
    I4,
    I8,
    I16,
}

/// Format of the internal representation of a texture.
#[derive(Debug, Clone, Copy, Hash, PartialEq, Eq, Structural)]
#[allow(missing_docs)]
pub enum TextureFormat {
    UncompressedFloat(UncompressedFloatFormat),
    UncompressedIntegral(UncompressedIntFormat),
    UncompressedUnsigned(UncompressedUintFormat),
    Srgb(SrgbFormat),
    CompressedFormat(CompressedFormat),
    CompressedSrgbFormat(CompressedSrgbFormat),
    DepthFormat(DepthFormat),
    StencilFormat(StencilFormat),
    DepthStencilFormat(DepthStencilFormat),
}

/// A client-side format: either uncompressed pixels or compressed blocks.
#[derive(Debug, Clone, Copy, PartialEq, Eq, Structural)]
#[allow(missing_docs)]
pub enum ClientFormatAny {
    ClientFormat(ClientFormat),
    CompressedFormat(CompressedFormat),
    CompressedSrgbFormat(CompressedSrgbFormat),
}

/// Type of request.
#[derive(Copy, Clone, Debug, PartialEq, Eq, Structural)]
pub enum RequestType {
    /// A format suitable for `glTexImage#D`.
    TexImage(Option<ClientFormatAny>),
    /// A format suitable for `glTexStorage#D`.
    TexStorage,
    /// A format suitable for `glRenderbufferStorage`.
    Renderbuffer,
}

impl UncompressedFloatFormat {
    /// Every value of this enumeration, in declaration order.
    pub open spec fn all_formats() -> Seq<UncompressedFloatFormat> {
        seq![
            UncompressedFloatFormat::U8,
            UncompressedFloatFormat::I8,
            UncompressedFloatFormat::U16,
            UncompressedFloatFormat::I16,
            UncompressedFloatFormat::U8U8,
            UncompressedFloatFormat::I8I8,
            UncompressedFloatFormat::U16U16,
            UncompressedFloatFormat::I16I16,
            UncompressedFloatFormat::U3U3U2,
            UncompressedFloatFormat::U4U4U4,
            UncompressedFloatFormat::U5U5U5,
            UncompressedFloatFormat::U8U8U8,
            UncompressedFloatFormat::I8I8I8,
            UncompressedFloatFormat::U10U10U10,
            UncompressedFloatFormat::U12U12U12,
            UncompressedFloatFormat::U16U16U16,
            UncompressedFloatFormat::I16I16I16,
            UncompressedFloatFormat::U2U2U2U2,
            UncompressedFloatFormat::U4U4U4U4,
            UncompressedFloatFormat::U5U5U5U1,
            UncompressedFloatFormat::U8U8U8U8,
            UncompressedFloatFormat::I8I8I8I8,
            UncompressedFloatFormat::U10U10U10U2,
            UncompressedFloatFormat::U12U12U12U12,
            UncompressedFloatFormat::U16U16U16U16,
            UncompressedFloatFormat::I16I16I16I16,
            UncompressedFloatFormat::F16,
            UncompressedFloatFormat::F16F16,
            UncompressedFloatFormat::F16F16F16,
            UncompressedFloatFormat::F16F16F16F16,
            UncompressedFloatFormat::F32,
            UncompressedFloatFormat::F32F32,
            UncompressedFloatFormat::F32F32F32,
            UncompressedFloatFormat::F32F32F32F32,
            UncompressedFloatFormat::F11F11F10,
            UncompressedFloatFormat::F9F9F9,
        ]
    }

    /// Returns a list of all the possible values of this enumeration.
    pub fn get_formats_list() -> (r: Vec<UncompressedFloatFormat>)
        ensures
            r@ == Self::all_formats(),
    {
        let mut v: Vec<UncompressedFloatFormat> = Vec::new();
        v.push(UncompressedFloatFormat::U8);
        v.push(UncompressedFloatFormat::I8);
        v.push(UncompressedFloatFormat::U16);
        v.push(UncompressedFloatFormat::I16);
        v.push(UncompressedFloatFormat::U8U8);
        v.push(UncompressedFloatFormat::I8I8);
        v.push(UncompressedFloatFormat::U16U16);
        v.push(UncompressedFloatFormat::I16I16);
        v.push(UncompressedFloatFormat::U3U3U2);
        v.push(UncompressedFloatFormat::U4U4U4);
        v.push(UncompressedFloatFormat::U5U5U5);
        v.push(UncompressedFloatFormat::U8U8U8);
        v.push(UncompressedFloatFormat::I8I8I8);
        v.push(UncompressedFloatFormat::U10U10U10);
        v.push(UncompressedFloatFormat::U12U12U12);
        v.push(UncompressedFloatFormat::U16U16U16);
        v.push(UncompressedFloatFormat::I16I16I16);
        v.push(UncompressedFloatFormat::U2U2U2U2);
        v.push(UncompressedFloatFormat::U4U4U4U4);
        v.push(UncompressedFloatFormat::U5U5U5U1);
        v.push(UncompressedFloatFormat::U8U8U8U8);
        v.push(UncompressedFloatFormat::I8I8I8I8);
        v.push(UncompressedFloatFormat::U10U10U10U2);
        v.push(UncompressedFloatFormat::U12U12U12U12);
        v.push(UncompressedFloatFormat::U16U16U16U16);
        v.push(UncompressedFloatFormat::I16I16I16I16);
        v.push(UncompressedFloatFormat::F16);
        v.push(UncompressedFloatFormat::F16F16);
        v.push(UncompressedFloatFormat::F16F16F16);
        v.push(UncompressedFloatFormat::F16F16F16F16);
        v.push(UncompressedFloatFormat::F32);
        v.push(UncompressedFloatFormat::F32F32);
        v.push(UncompressedFloatFormat::F32F32F32);
        v.push(UncompressedFloatFormat::F32F32F32F32);
        v.push(UncompressedFloatFormat::F11F11F10);
        v.push(UncompressedFloatFormat::F9F9F9);
        assert(v@ =~= Self::all_formats());
        v
    }

    /// Every value of the enumeration is in the list of formats.
    pub proof fn lemma_formats_list_complete(f: UncompressedFloatFormat)
        ensures
            Self::all_formats().contains(f),
    {
        match f {
            UncompressedFloatFormat::U8 => assert(Self::all_formats()[0] == f),
            UncompressedFloatFormat::I8 => assert(Self::all_formats()[1] == f),
            UncompressedFloatFormat::U16 => assert(Self::all_formats()[2] == f),
            UncompressedFloatFormat::I16 => assert(Self::all_formats()[3] == f),
            UncompressedFloatFormat::U8U8 => assert(Self::all_formats()[4] == f),
            UncompressedFloatFormat::I8I8 => assert(Self::all_formats()[5] == f),
            UncompressedFloatFormat::U16U16 => assert(Self::all_formats()[6] == f),
            UncompressedFloatFormat::I16I16 => assert(Self::all_formats()[7] == f),
            UncompressedFloatFormat::U3U3U2 => assert(Self::all_formats()[8] == f),
            UncompressedFloatFormat::U4U4U4 => assert(Self::all_formats()[9] == f),
            UncompressedFloatFormat::U5U5U5 => assert(Self::all_formats()[10] == f),
            UncompressedFloatFormat::U8U8U8 => assert(Self::all_formats()[11] == f),
            UncompressedFloatFormat::I8I8I8 => assert(Self::all_formats()[12] == f),
            UncompressedFloatFormat::U10U10U10 => assert(Self::all_formats()[13] == f),
            UncompressedFloatFormat::U12U12U12 => assert(Self::all_formats()[14] == f),
            UncompressedFloatFormat::U16U16U16 => assert(Self::all_formats()[15] == f),
            UncompressedFloatFormat::I16I16I16 => assert(Self::all_formats()[16] == f),
            UncompressedFloatFormat::U2U2U2U2 => assert(Self::all_formats()[17] == f),
            UncompressedFloatFormat::U4U4U4U4 => assert(Self::all_formats()[18] == f),
            UncompressedFloatFormat::U5U5U5U1 => assert(Self::all_formats()[19] == f),
            UncompressedFloatFormat::U8U8U8U8 => assert(Self::all_formats()[20] == f),
            UncompressedFloatFormat::I8I8I8I8 => assert(Self::all_formats()[21] == f),
            UncompressedFloatFormat::U10U10U10U2 => assert(Self::all_formats()[22] == f),
            UncompressedFloatFormat::U12U12U12U12 => assert(Self::all_formats()[23] == f),
            UncompressedFloatFormat::U16U16U16U16 => assert(Self::all_formats()[24] == f),
            UncompressedFloatFormat::I16I16I16I16 => assert(Self::all_formats()[25] == f),
            UncompressedFloatFormat::F16 => assert(Self::all_formats()[26] == f),
            UncompressedFloatFormat::F16F16 => assert(Self::all_formats()[27] == f),
            UncompressedFloatFormat::F16F16F16 => assert(Self::all_formats()[28] == f),
            UncompressedFloatFormat::F16F16F16F16 => assert(Self::all_formats()[29] == f),
            UncompressedFloatFormat::F32 => assert(Self::all_formats()[30] == f),
            UncompressedFloatFormat::F32F32 => assert(Self::all_formats()[31] == f),
            UncompressedFloatFormat::F32F32F32 => assert(Self::all_formats()[32] == f),
            UncompressedFloatFormat::F32F32F32F32 => assert(Self::all_formats()[33] == f),
            UncompressedFloatFormat::F11F11F10 => assert(Self::all_formats()[34] == f),
            UncompressedFloatFormat::F9F9F9 => assert(Self::all_formats()[35] == f),
        }
    }

    /// Turns this format into a more generic `TextureFormat`.
    pub fn to_texture_format(self) -> (r: TextureFormat)
        ensures
            r == TextureFormat::UncompressedFloat(self),
    {
        TextureFormat::UncompressedFloat(self)
    }

    /// The OpenGL enumerant of this format.
    pub open spec fn glenum(self) -> u32 {
        match self {
            UncompressedFloatFormat::U8 => gl::R8,
            UncompressedFloatFormat::I8 => gl::R8_SNORM,
            UncompressedFloatFormat::U16 => gl::R16,
            UncompressedFloatFormat::I16 => gl::R16_SNORM,
            UncompressedFloatFormat::U8U8 => gl::RG8,
            UncompressedFloatFormat::I8I8 => gl::RG8_SNORM,
            UncompressedFloatFormat::U16U16 => gl::RG16,
            UncompressedFloatFormat::I16I16 => gl::RG16_SNORM,
            UncompressedFloatFormat::U3U3U2 => gl::R3_G3_B2,
            UncompressedFloatFormat::U4U4U4 => gl::RGB4,
            UncompressedFloatFormat::U5U5U5 => gl::RGB5,
            UncompressedFloatFormat::U8U8U8 => gl::RGB8,
            UncompressedFloatFormat::I8I8I8 => gl::RGB8_SNORM,
            UncompressedFloatFormat::U10U10U10 => gl::RGB10,
            UncompressedFloatFormat::U12U12U12 => gl::RGB12,
            UncompressedFloatFormat::U16U16U16 => gl::RGB16,
            UncompressedFloatFormat::I16I16I16 => gl::RGB16_SNORM,
            UncompressedFloatFormat::U2U2U2U2 => gl::RGBA2,
            UncompressedFloatFormat::U4U4U4U4 => gl::RGBA4,
            UncompressedFloatFormat::U5U5U5U1 => gl::RGB5_A1,
            UncompressedFloatFormat::U8U8U8U8 => gl::RGBA8,
            UncompressedFloatFormat::I8I8I8I8 => gl::RGBA8_SNORM,
            UncompressedFloatFormat::U10U10U10U2 => gl::RGB10_A2,
            UncompressedFloatFormat::U12U12U12U12 => gl::RGBA12,
            UncompressedFloatFormat::U16U16U16U16 => gl::RGBA16,
            UncompressedFloatFormat::I16I16I16I16 => gl::RGBA16_SNORM,
            UncompressedFloatFormat::F16 => gl::R16F,
            UncompressedFloatFormat::F16F16 => gl::RG16F,
            UncompressedFloatFormat::F16F16F16 => gl::RGB16F,
            UncompressedFloatFormat::F16F16F16F16 => gl::RGBA16F,
            UncompressedFloatFormat::F32 => gl::R32F,
            UncompressedFloatFormat::F32F32 => gl::RG32F,
            UncompressedFloatFormat::F32F32F32 => gl::RGB32F,
            UncompressedFloatFormat::F32F32F32F32 => gl::RGBA32F,
            UncompressedFloatFormat::F11F11F10 => gl::R11F_G11F_B10F,
            UncompressedFloatFormat::F9F9F9 => gl::RGB9_E5,
        }
    }

    /// Returns the OpenGL enumerant of this format.
    pub fn to_glenum(&self) -> (r: u32)
        ensures
            r == self.glenum(),
    {
        match self {
            UncompressedFloatFormat::U8 => gl::R8,
            UncompressedFloatFormat::I8 => gl::R8_SNORM,
            UncompressedFloatFormat::U16 => gl::R16,
            UncompressedFloatFormat::I16 => gl::R16_SNORM,
            UncompressedFloatFormat::U8U8 => gl::RG8,
            UncompressedFloatFormat::I8I8 => gl::RG8_SNORM,
            UncompressedFloatFormat::U16U16 => gl::RG16,
            UncompressedFloatFormat::I16I16 => gl::RG16_SNORM,
            UncompressedFloatFormat::U3U3U2 => gl::R3_G3_B2,
            UncompressedFloatFormat::U4U4U4 => gl::RGB4,
            UncompressedFloatFormat::U5U5U5 => gl::RGB5,
            UncompressedFloatFormat::U8U8U8 => gl::RGB8,
            UncompressedFloatFormat::I8I8I8 => gl::RGB8_SNORM,
            UncompressedFloatFormat::U10U10U10 => gl::RGB10,
            UncompressedFloatFormat::U12U12U12 => gl::RGB12,
            UncompressedFloatFormat::U16U16U16 => gl::RGB16,
            UncompressedFloatFormat::I16I16I16 => gl::RGB16_SNORM,
            UncompressedFloatFormat::U2U2U2U2 => gl::RGBA2,
            UncompressedFloatFormat::U4U4U4U4 => gl::RGBA4,
            UncompressedFloatFormat::U5U5U5U1 => gl::RGB5_A1,
            UncompressedFloatFormat::U8U8U8U8 => gl::RGBA8,
            UncompressedFloatFormat::I8I8I8I8 => gl::RGBA8_SNORM,
            UncompressedFloatFormat::U10U10U10U2 => gl::RGB10_A2,
            UncompressedFloatFormat::U12U12U12U12 => gl::RGBA12,
            UncompressedFloatFormat::U16U16U16U16 => gl::RGBA16,
            UncompressedFloatFormat::I16I16I16I16 => gl::RGBA16_SNORM,
            UncompressedFloatFormat::F16 => gl::R16F,
            UncompressedFloatFormat::F16F16 => gl::RG16F,
            UncompressedFloatFormat::F16F16F16 => gl::RGB16F,
            UncompressedFloatFormat::F16F16F16F16 => gl::RGBA16F,
            UncompressedFloatFormat::F32 => gl::R32F,
            UncompressedFloatFormat::F32F32 => gl::RG32F,
            UncompressedFloatFormat::F32F32F32 => gl::RGB32F,
            UncompressedFloatFormat::F32F32F32F32 => gl::RGBA32F,
            UncompressedFloatFormat::F11F11F10 => gl::R11F_G11F_B10F,
            UncompressedFloatFormat::F9F9F9 => gl::RGB9_E5,
        }
    }
}
impl SrgbFormat {
    /// Every value of this enumeration, in declaration order.
    pub open spec fn all_formats() -> Seq<SrgbFormat> {
        seq![
            SrgbFormat::U8U8U8,
            SrgbFormat::U8U8U8U8,
        ]
    }

    /// Returns a list of all the possible values of this enumeration.
    pub fn get_formats_list() -> (r: Vec<SrgbFormat>)
        ensures
            r@ == Self::all_formats(),
    {
        let mut v: Vec<SrgbFormat> = Vec::new();
        v.push(SrgbFormat::U8U8U8);
        v.push(SrgbFormat::U8U8U8U8);
        assert(v@ =~= Self::all_formats());
        v
    }

    /// Every value of the enumeration is in the list of formats.
    pub proof fn lemma_formats_list_complete(f: SrgbFormat)
        ensures
            Self::all_formats().contains(f),
    {
        match f {
            SrgbFormat::U8U8U8 => assert(Self::all_formats()[0] == f),
            SrgbFormat::U8U8U8U8 => assert(Self::all_formats()[1] == f),
        }
    }

    /// Turns this format into a more generic `TextureFormat`.
    pub fn to_texture_format(self) -> (r: TextureFormat)
        ensures
            r == TextureFormat::Srgb(self),
    {
        TextureFormat::Srgb(self)
    }

    /// The OpenGL enumerant of this format.
    pub open spec fn glenum(self) -> u32 {
        match self {
            SrgbFormat::U8U8U8 => gl::SRGB8,
            SrgbFormat::U8U8U8U8 => gl::SRGB8_ALPHA8,
        }
    }

    /// Returns the OpenGL enumerant of this format.
    pub fn to_glenum(&self) -> (r: u32)
        ensures
            r == self.glenum(),
    {
        match self {
            SrgbFormat::U8U8U8 => gl::SRGB8,
            SrgbFormat::U8U8U8U8 => gl::SRGB8_ALPHA8,
        }
    }
}
impl UncompressedIntFormat {
    /// Every value of this enumeration, in declaration order.
    pub open spec fn all_formats() -> Seq<UncompressedIntFormat> {
        seq![
            UncompressedIntFormat::I8,
            UncompressedIntFormat::I16,
            UncompressedIntFormat::I32,
            UncompressedIntFormat::I8I8,
            UncompressedIntFormat::I16I16,
            UncompressedIntFormat::I32I32,
            UncompressedIntFormat::I8I8I8,
            UncompressedIntFormat::I16I16I16,
            UncompressedIntFormat::I32I32I32,
            UncompressedIntFormat::I8I8I8I8,
            UncompressedIntFormat::I16I16I16I16,
            UncompressedIntFormat::I32I32I32I32,
        ]
    }

    /// Returns a list of all the possible values of this enumeration.
    pub fn get_formats_list() -> (r: Vec<UncompressedIntFormat>)
        ensures
            r@ == Self::all_formats(),
    {
        let mut v: Vec<UncompressedIntFormat> = Vec::new();
        v.push(UncompressedIntFormat::I8);
        v.push(UncompressedIntFormat::I16);
        v.push(UncompressedIntFormat::I32);
        v.push(UncompressedIntFormat::I8I8);
        v.push(UncompressedIntFormat::I16I16);
        v.push(UncompressedIntFormat::I32I32);
        v.push(UncompressedIntFormat::I8I8I8);
        v.push(UncompressedIntFormat::I16I16I16);
        v.push(UncompressedIntFormat::I32I32I32);
        v.push(UncompressedIntFormat::I8I8I8I8);
        v.push(UncompressedIntFormat::I16I16I16I16);
        v.push(UncompressedIntFormat::I32I32I32I32);
        assert(v@ =~= Self::all_formats());
        v
    }

    /// Every value of the enumeration is in the list of formats.
    pub proof fn lemma_formats_list_complete(f: UncompressedIntFormat)
        ensures
            Self::all_formats().contains(f),
    {
        match f {
            UncompressedIntFormat::I8 => assert(Self::all_formats()[0] == f),
            UncompressedIntFormat::I16 => assert(Self::all_formats()[1] == f),
            UncompressedIntFormat::I32 => assert(Self::all_formats()[2] == f),
            UncompressedIntFormat::I8I8 => assert(Self::all_formats()[3] == f),
            UncompressedIntFormat::I16I16 => assert(Self::all_formats()[4] == f),
            UncompressedIntFormat::I32I32 => assert(Self::all_formats()[5] == f),
            UncompressedIntFormat::I8I8I8 => assert(Self::all_formats()[6] == f),
            UncompressedIntFormat::I16I16I16 => assert(Self::all_formats()[7] == f),
            UncompressedIntFormat::I32I32I32 => assert(Self::all_formats()[8] == f),
            UncompressedIntFormat::I8I8I8I8 => assert(Self::all_formats()[9] == f),
            UncompressedIntFormat::I16I16I16I16 => assert(Self::all_formats()[10] == f),
            UncompressedIntFormat::I32I32I32I32 => assert(Self::all_formats()[11] == f),
        }
    }

    /// Turns this format into a more generic `TextureFormat`.
    pub fn to_texture_format(self) -> (r: TextureFormat)
        ensures
            r == TextureFormat::UncompressedIntegral(self),
    {
        TextureFormat::UncompressedIntegral(self)
    }

    /// The OpenGL enumerant of this format.
    pub open spec fn glenum(self) -> u32 {
        match self {
            UncompressedIntFormat::I8 => gl::R8I,
            UncompressedIntFormat::I16 => gl::R16I,
            UncompressedIntFormat::I32 => gl::R32I,
            UncompressedIntFormat::I8I8 => gl::RG8I,
            UncompressedIntFormat::I16I16 => gl::RG16I,
            UncompressedIntFormat::I32I32 => gl::RG32I,
            UncompressedIntFormat::I8I8I8 => gl::RGB8I,
            UncompressedIntFormat::I16I16I16 => gl::RGB16I,
            UncompressedIntFormat::I32I32I32 => gl::RGB32I,
            UncompressedIntFormat::I8I8I8I8 => gl::RGBA8I,
            UncompressedIntFormat::I16I16I16I16 => gl::RGBA16I,
            UncompressedIntFormat::I32I32I32I32 => gl::RGBA32I,
        }
    }

    /// Returns the OpenGL enumerant of this format.
    pub fn to_glenum(&self) -> (r: u32)
        ensures
            r == self.glenum(),
    {
        match self {
            UncompressedIntFormat::I8 => gl::R8I,
            UncompressedIntFormat::I16 => gl::R16I,
            UncompressedIntFormat::I32 => gl::R32I,
            UncompressedIntFormat::I8I8 => gl::RG8I,
            UncompressedIntFormat::I16I16 => gl::RG16I,
            UncompressedIntFormat::I32I32 => gl::RG32I,
            UncompressedIntFormat::I8I8I8 => gl::RGB8I,
            UncompressedIntFormat::I16I16I16 => gl::RGB16I,
            UncompressedIntFormat::I32I32I32 => gl::RGB32I,
            UncompressedIntFormat::I8I8I8I8 => gl::RGBA8I,
            UncompressedIntFormat::I16I16I16I16 => gl::RGBA16I,
            UncompressedIntFormat::I32I32I32I32 => gl::RGBA32I,
        }
    }
}
impl UncompressedUintFormat {
    /// Every value of this enumeration, in declaration order.
    pub open spec fn all_formats() -> Seq<UncompressedUintFormat> {
        seq![
            UncompressedUintFormat::U8,
            UncompressedUintFormat::U16,
            UncompressedUintFormat::U32,
            UncompressedUintFormat::U8U8,
            UncompressedUintFormat::U16U16,
            UncompressedUintFormat::U32U32,
            UncompressedUintFormat::U8U8U8,
            UncompressedUintFormat::U16U16U16,
            UncompressedUintFormat::U32U32U32,
            UncompressedUintFormat::U8U8U8U8,
            UncompressedUintFormat::U16U16U16U16,
            UncompressedUintFormat::U32U32U32U32,
            UncompressedUintFormat::U10U10U10U2,
        ]
    }

    /// Returns a list of all the possible values of this enumeration.
    pub fn get_formats_list() -> (r: Vec<UncompressedUintFormat>)
        ensures
            r@ == Self::all_formats(),
    {
        let mut v: Vec<UncompressedUintFormat> = Vec::new();
        v.push(UncompressedUintFormat::U8);
        v.push(UncompressedUintFormat::U16);
        v.push(UncompressedUintFormat::U32);
        v.push(UncompressedUintFormat::U8U8);
        v.push(UncompressedUintFormat::U16U16);
        v.push(UncompressedUintFormat::U32U32);
        v.push(UncompressedUintFormat::U8U8U8);
        v.push(UncompressedUintFormat::U16U16U16);
        v.push(UncompressedUintFormat::U32U32U32);
        v.push(UncompressedUintFormat::U8U8U8U8);
        v.push(UncompressedUintFormat::U16U16U16U16);
        v.push(UncompressedUintFormat::U32U32U32U32);
        v.push(UncompressedUintFormat::U10U10U10U2);
        assert(v@ =~= Self::all_formats());
        v
    }

    /// Every value of the enumeration is in the list of formats.
    pub proof fn lemma_formats_list_complete(f: UncompressedUintFormat)
        ensures
            Self::all_formats().contains(f),
    {
        match f {
            UncompressedUintFormat::U8 => assert(Self::all_formats()[0] == f),
            UncompressedUintFormat::U16 => assert(Self::all_formats()[1] == f),
            UncompressedUintFormat::U32 => assert(Self::all_formats()[2] == f),
            UncompressedUintFormat::U8U8 => assert(Self::all_formats()[3] == f),
            UncompressedUintFormat::U16U16 => assert(Self::all_formats()[4] == f),
            UncompressedUintFormat::U32U32 => assert(Self::all_formats()[5] == f),
            UncompressedUintFormat::U8U8U8 => assert(Self::all_formats()[6] == f),
            UncompressedUintFormat::U16U16U16 => assert(Self::all_formats()[7] == f),
            UncompressedUintFormat::U32U32U32 => assert(Self::all_formats()[8] == f),
            UncompressedUintFormat::U8U8U8U8 => assert(Self::all_formats()[9] == f),
            UncompressedUintFormat::U16U16U16U16 => assert(Self::all_formats()[10] == f),
            UncompressedUintFormat::U32U32U32U32 => assert(Self::all_formats()[11] == f),
            UncompressedUintFormat::U10U10U10U2 => assert(Self::all_formats()[12] == f),
        }
    }

    /// Turns this format into a more generic `TextureFormat`.
    pub fn to_texture_format(self) -> (r: TextureFormat)
        ensures
            r == TextureFormat::UncompressedUnsigned(self),
    {
        TextureFormat::UncompressedUnsigned(self)
    }

    /// The OpenGL enumerant of this format.
    pub open spec fn glenum(self) -> u32 {
        match self {
            UncompressedUintFormat::U8 => gl::R8UI,
            UncompressedUintFormat::U16 => gl::R16UI,
            UncompressedUintFormat::U32 => gl::R32UI,
            UncompressedUintFormat::U8U8 => gl::RG8UI,
            UncompressedUintFormat::U16U16 => gl::RG16UI,
            UncompressedUintFormat::U32U32 => gl::RG32UI,
            UncompressedUintFormat::U8U8U8 => gl::RGB8UI,
            UncompressedUintFormat::U16U16U16 => gl::RGB16UI,
            UncompressedUintFormat::U32U32U32 => gl::RGB32UI,
            UncompressedUintFormat::U8U8U8U8 => gl::RGBA8UI,
            UncompressedUintFormat::U16U16U16U16 => gl::RGBA16UI,
            UncompressedUintFormat::U32U32U32U32 => gl::RGBA32UI,
            UncompressedUintFormat::U10U10U10U2 => gl::RGB10_A2UI,
        }
    }

    /// Returns the OpenGL enumerant of this format.
    pub fn to_glenum(&self) -> (r: u32)
        ensures
            r == self.glenum(),
    {
        match self {
            UncompressedUintFormat::U8 => gl::R8UI,
            UncompressedUintFormat::U16 => gl::R16UI,
            UncompressedUintFormat::U32 => gl::R32UI,
            UncompressedUintFormat::U8U8 => gl::RG8UI,
            UncompressedUintFormat::U16U16 => gl::RG16UI,
            UncompressedUintFormat::U32U32 => gl::RG32UI,
            UncompressedUintFormat::U8U8U8 => gl::RGB8UI,
            UncompressedUintFormat::U16U16U16 => gl::RGB16UI,
            UncompressedUintFormat::U32U32U32 => gl::RGB32UI,
            UncompressedUintFormat::U8U8U8U8 => gl::RGBA8UI,
            UncompressedUintFormat::U16U16U16U16 => gl::RGBA16UI,
            UncompressedUintFormat::U32U32U32U32 => gl::RGBA32UI,
            UncompressedUintFormat::U10U10U10U2 => gl::RGB10_A2UI,
        }
    }
}
impl CompressedFormat {
    /// Every value of this enumeration, in declaration order.
    pub open spec fn all_formats() -> Seq<CompressedFormat> {
        seq![
            CompressedFormat::RgtcFormatU,
            CompressedFormat::RgtcFormatI,
            CompressedFormat::RgtcFormatUU,
            CompressedFormat::RgtcFormatII,
            CompressedFormat::BptcUnorm4,
            CompressedFormat::BptcSignedFloat3,
            CompressedFormat::BptcUnsignedFloat3,
            CompressedFormat::S3tcDxt1NoAlpha,
            CompressedFormat::S3tcDxt1Alpha,
            CompressedFormat::S3tcDxt3Alpha,
            CompressedFormat::S3tcDxt5Alpha,
        ]
    }

    /// Returns a list of all the possible values of this enumeration.
    pub fn get_formats_list() -> (r: Vec<CompressedFormat>)
        ensures
            r@ == Self::all_formats(),
    {
        let mut v: Vec<CompressedFormat> = Vec::new();
        v.push(CompressedFormat::RgtcFormatU);
        v.push(CompressedFormat::RgtcFormatI);
        v.push(CompressedFormat::RgtcFormatUU);
        v.push(CompressedFormat::RgtcFormatII);
        v.push(CompressedFormat::BptcUnorm4);
        v.push(CompressedFormat::BptcSignedFloat3);
        v.push(CompressedFormat::BptcUnsignedFloat3);
        v.push(CompressedFormat::S3tcDxt1NoAlpha);
        v.push(CompressedFormat::S3tcDxt1Alpha);
        v.push(CompressedFormat::S3tcDxt3Alpha);
        v.push(CompressedFormat::S3tcDxt5Alpha);
        assert(v@ =~= Self::all_formats());
        v
    }

    /// Every value of the enumeration is in the list of formats.
    pub proof fn lemma_formats_list_complete(f: CompressedFormat)
        ensures
            Self::all_formats().contains(f),
    {
        match f {
            CompressedFormat::RgtcFormatU => assert(Self::all_formats()[0] == f),
            CompressedFormat::RgtcFormatI => assert(Self::all_formats()[1] == f),
            CompressedFormat::RgtcFormatUU => assert(Self::all_formats()[2] == f),
            CompressedFormat::RgtcFormatII => assert(Self::all_formats()[3] == f),
            CompressedFormat::BptcUnorm4 => assert(Self::all_formats()[4] == f),
            CompressedFormat::BptcSignedFloat3 => assert(Self::all_formats()[5] == f),
            CompressedFormat::BptcUnsignedFloat3 => assert(Self::all_formats()[6] == f),
            CompressedFormat::S3tcDxt1NoAlpha => assert(Self::all_formats()[7] == f),
            CompressedFormat::S3tcDxt1Alpha => assert(Self::all_formats()[8] == f),
            CompressedFormat::S3tcDxt3Alpha => assert(Self::all_formats()[9] == f),
            CompressedFormat::S3tcDxt5Alpha => assert(Self::all_formats()[10] == f),
        }
    }

    /// Turns this format into a more generic `TextureFormat`.
    pub fn to_texture_format(self) -> (r: TextureFormat)
        ensures
            r == TextureFormat::CompressedFormat(self),
    {
        TextureFormat::CompressedFormat(self)
    }

    /// The OpenGL enumerant of this format.
    pub open spec fn glenum(self) -> u32 {
        match self {
            CompressedFormat::RgtcFormatU => gl::COMPRESSED_RED_RGTC1,
            CompressedFormat::RgtcFormatI => gl::COMPRESSED_SIGNED_RED_RGTC1,
            CompressedFormat::RgtcFormatUU => gl::COMPRESSED_RG_RGTC2,
            CompressedFormat::RgtcFormatII => gl::COMPRESSED_SIGNED_RG_RGTC2,
            CompressedFormat::BptcUnorm4 => gl::COMPRESSED_RGBA_BPTC_UNORM,
            CompressedFormat::BptcSignedFloat3 => gl::COMPRESSED_RGB_BPTC_SIGNED_FLOAT,
            CompressedFormat::BptcUnsignedFloat3 => gl::COMPRESSED_RGB_BPTC_UNSIGNED_FLOAT,
            CompressedFormat::S3tcDxt1NoAlpha => gl::COMPRESSED_RGB_S3TC_DXT1_EXT,
            CompressedFormat::S3tcDxt1Alpha => gl::COMPRESSED_RGBA_S3TC_DXT1_EXT,
            CompressedFormat::S3tcDxt3Alpha => gl::COMPRESSED_RGBA_S3TC_DXT3_EXT,
            CompressedFormat::S3tcDxt5Alpha => gl::COMPRESSED_RGBA_S3TC_DXT5_EXT,
        }
    }

    /// Returns the OpenGL enumerant of this format.
    pub fn to_glenum(&self) -> (r: u32)
        ensures
            r == self.glenum(),
    {
        match self {
            CompressedFormat::RgtcFormatU => gl::COMPRESSED_RED_RGTC1,
            CompressedFormat::RgtcFormatI => gl::COMPRESSED_SIGNED_RED_RGTC1,
            CompressedFormat::RgtcFormatUU => gl::COMPRESSED_RG_RGTC2,
            CompressedFormat::RgtcFormatII => gl::COMPRESSED_SIGNED_RG_RGTC2,
            CompressedFormat::BptcUnorm4 => gl::COMPRESSED_RGBA_BPTC_UNORM,
            CompressedFormat::BptcSignedFloat3 => gl::COMPRESSED_RGB_BPTC_SIGNED_FLOAT,
            CompressedFormat::BptcUnsignedFloat3 => gl::COMPRESSED_RGB_BPTC_UNSIGNED_FLOAT,
            CompressedFormat::S3tcDxt1NoAlpha => gl::COMPRESSED_RGB_S3TC_DXT1_EXT,
            CompressedFormat::S3tcDxt1Alpha => gl::COMPRESSED_RGBA_S3TC_DXT1_EXT,
            CompressedFormat::S3tcDxt3Alpha => gl::COMPRESSED_RGBA_S3TC_DXT3_EXT,
            CompressedFormat::S3tcDxt5Alpha => gl::COMPRESSED_RGBA_S3TC_DXT5_EXT,
        }
    }
}
impl CompressedSrgbFormat {
    /// Every value of this enumeration, in declaration order.
    pub open spec fn all_formats() -> Seq<CompressedSrgbFormat> {
        seq![
            CompressedSrgbFormat::Bptc,
            CompressedSrgbFormat::S3tcDxt1NoAlpha,
            CompressedSrgbFormat::S3tcDxt1Alpha,
            CompressedSrgbFormat::S3tcDxt3Alpha,
            CompressedSrgbFormat::S3tcDxt5Alpha,
        ]
    }

    /// Returns a list of all the possible values of this enumeration.
    pub fn get_formats_list() -> (r: Vec<CompressedSrgbFormat>)
        ensures
            r@ == Self::all_formats(),
    {
        let mut v: Vec<CompressedSrgbFormat> = Vec::new();
        v.push(CompressedSrgbFormat::Bptc);
        v.push(CompressedSrgbFormat::S3tcDxt1NoAlpha);
        v.push(CompressedSrgbFormat::S3tcDxt1Alpha);
        v.push(CompressedSrgbFormat::S3tcDxt3Alpha);
        v.push(CompressedSrgbFormat::S3tcDxt5Alpha);
        assert(v@ =~= Self::all_formats());
        v
    }

    /// Every value of the enumeration is in the list of formats.
    pub proof fn lemma_formats_list_complete(f: CompressedSrgbFormat)
        ensures
            Self::all_formats().contains(f),
    {
        match f {
            CompressedSrgbFormat::Bptc => assert(Self::all_formats()[0] == f),
            CompressedSrgbFormat::S3tcDxt1NoAlpha => assert(Self::all_formats()[1] == f),
            CompressedSrgbFormat::S3tcDxt1Alpha => assert(Self::all_formats()[2] == f),
            CompressedSrgbFormat::S3tcDxt3Alpha => assert(Self::all_formats()[3] == f),
            CompressedSrgbFormat::S3tcDxt5Alpha => assert(Self::all_formats()[4] == f),
        }
    }

    /// Turns this format into a more generic `TextureFormat`.
    pub fn to_texture_format(self) -> (r: TextureFormat)
        ensures
            r == TextureFormat::CompressedSrgbFormat(self),
    {
        TextureFormat::CompressedSrgbFormat(self)
    }

    /// The OpenGL enumerant of this format.
    pub open spec fn glenum(self) -> u32 {
        match self {
            CompressedSrgbFormat::Bptc => gl::COMPRESSED_SRGB_ALPHA_BPTC_UNORM,
            CompressedSrgbFormat::S3tcDxt1NoAlpha => gl::COMPRESSED_SRGB_S3TC_DXT1_EXT,
            CompressedSrgbFormat::S3tcDxt1Alpha => gl::COMPRESSED_SRGB_ALPHA_S3TC_DXT1_EXT,
            CompressedSrgbFormat::S3tcDxt3Alpha => gl::COMPRESSED_SRGB_ALPHA_S3TC_DXT3_EXT,
            CompressedSrgbFormat::S3tcDxt5Alpha => gl::COMPRESSED_SRGB_ALPHA_S3TC_DXT5_EXT,
        }
    }

    /// Returns the OpenGL enumerant of this format.
    pub fn to_glenum(&self) -> (r: u32)
        ensures
            r == self.glenum(),
    {
        match self {
            CompressedSrgbFormat::Bptc => gl::COMPRESSED_SRGB_ALPHA_BPTC_UNORM,
            CompressedSrgbFormat::S3tcDxt1NoAlpha => gl::COMPRESSED_SRGB_S3TC_DXT1_EXT,
            CompressedSrgbFormat::S3tcDxt1Alpha => gl::COMPRESSED_SRGB_ALPHA_S3TC_DXT1_EXT,
            CompressedSrgbFormat::S3tcDxt3Alpha => gl::COMPRESSED_SRGB_ALPHA_S3TC_DXT3_EXT,
            CompressedSrgbFormat::S3tcDxt5Alpha => gl::COMPRESSED_SRGB_ALPHA_S3TC_DXT5_EXT,
        }
    }
}
impl DepthFormat {
    /// Every value of this enumeration, in declaration order.
    pub open spec fn all_formats() -> Seq<DepthFormat> {
        seq![
            DepthFormat::I16,
            DepthFormat::I24,
            DepthFormat::I32,
            DepthFormat::F32,
        ]
    }

    /// Returns a list of all the possible values of this enumeration.
    pub fn get_formats_list() -> (r: Vec<DepthFormat>)
        ensures
            r@ == Self::all_formats(),
    {
        let mut v: Vec<DepthFormat> = Vec::new();
        v.push(DepthFormat::I16);
        v.push(DepthFormat::I24);
        v.push(DepthFormat::I32);
        v.push(DepthFormat::F32);
        assert(v@ =~= Self::all_formats());
        v
    }

    /// Every value of the enumeration is in the list of formats.
    pub proof fn lemma_formats_list_complete(f: DepthFormat)
        ensures
            Self::all_formats().contains(f),
    {
        match f {
            DepthFormat::I16 => assert(Self::all_formats()[0] == f),
            DepthFormat::I24 => assert(Self::all_formats()[1] == f),
            DepthFormat::I32 => assert(Self::all_formats()[2] == f),
            DepthFormat::F32 => assert(Self::all_formats()[3] == f),
        }
    }

    /// Turns this format into a more generic `TextureFormat`.
    pub fn to_texture_format(self) -> (r: TextureFormat)
        ensures
            r == TextureFormat::DepthFormat(self),
    {
        TextureFormat::DepthFormat(self)
    }

    /// The OpenGL enumerant of this format.
    pub open spec fn glenum(self) -> u32 {
        match self {
            DepthFormat::I16 => gl::DEPTH_COMPONENT16,
            DepthFormat::I24 => gl::DEPTH_COMPONENT24,
            DepthFormat::I32 => gl::DEPTH_COMPONENT32,
            DepthFormat::F32 => gl::DEPTH_COMPONENT32F,
        }
    }

    /// Returns the OpenGL enumerant of this format.
    pub fn to_glenum(&self) -> (r: u32)
        ensures
            r == self.glenum(),
    {
        match self {
            DepthFormat::I16 => gl::DEPTH_COMPONENT16,
            DepthFormat::I24 => gl::DEPTH_COMPONENT24,
            DepthFormat::I32 => gl::DEPTH_COMPONENT32,
            DepthFormat::F32 => gl::DEPTH_COMPONENT32F,
        }
    }
}
impl DepthStencilFormat {
    /// Every value of this enumeration, in declaration order.
    pub open spec fn all_formats() -> Seq<DepthStencilFormat> {
        seq![
            DepthStencilFormat::I24I8,
            DepthStencilFormat::F32I8,
        ]
    }

    /// Returns a list of all the possible values of this enumeration.
    pub fn get_formats_list() -> (r: Vec<DepthStencilFormat>)
        ensures
            r@ == Self::all_formats(),
    {
        let mut v: Vec<DepthStencilFormat> = Vec::new();
        v.push(DepthStencilFormat::I24I8);
        v.push(DepthStencilFormat::F32I8);
        assert(v@ =~= Self::all_formats());
        v
    }

    /// Every value of the enumeration is in the list of formats.
    pub proof fn lemma_formats_list_complete(f: DepthStencilFormat)
        ensures
            Self::all_formats().contains(f),
    {
        match f {
            DepthStencilFormat::I24I8 => assert(Self::all_formats()[0] == f),
            DepthStencilFormat::F32I8 => assert(Self::all_formats()[1] == f),
        }
    }

    /// Turns this format into a more generic `TextureFormat`.
    pub fn to_texture_format(self) -> (r: TextureFormat)
        ensures
            r == TextureFormat::DepthStencilFormat(self),
    {
        TextureFormat::DepthStencilFormat(self)
    }

    /// The OpenGL enumerant of this format.
    pub open spec fn glenum(self) -> u32 {
        match self {
            DepthStencilFormat::I24I8 => gl::DEPTH24_STENCIL8,
            DepthStencilFormat::F32I8 => gl::DEPTH32F_STENCIL8,
        }
    }

    /// Returns the OpenGL enumerant of this format.
    pub fn to_glenum(&self) -> (r: u32)
        ensures
            r == self.glenum(),
    {
        match self {
            DepthStencilFormat::I24I8 => gl::DEPTH24_STENCIL8,
            DepthStencilFormat::F32I8 => gl::DEPTH32F_STENCIL8,
        }
    }
}
impl StencilFormat {
    /// Every value of this enumeration, in declaration order.
    pub open spec fn all_formats() -> Seq<StencilFormat> {
        seq![
            StencilFormat::I1,
            StencilFormat::I4,
            StencilFormat::I8,
            StencilFormat::I16,
        ]
    }

    /// Returns a list of all the possible values of this enumeration.
    pub fn get_formats_list() -> (r: Vec<StencilFormat>)
        ensures
            r@ == Self::all_formats(),
    {
        let mut v: Vec<StencilFormat> = Vec::new();
        v.push(StencilFormat::I1);
        v.push(StencilFormat::I4);
        v.push(StencilFormat::I8);
        v.push(StencilFormat::I16);
        assert(v@ =~= Self::all_formats());
        v
    }

    /// Every value of the enumeration is in the list of formats.
    pub proof fn lemma_formats_list_complete(f: StencilFormat)
        ensures
            Self::all_formats().contains(f),
    {
        match f {
            StencilFormat::I1 => assert(Self::all_formats()[0] == f),
            StencilFormat::I4 => assert(Self::all_formats()[1] == f),
            StencilFormat::I8 => assert(Self::all_formats()[2] == f),
            StencilFormat::I16 => assert(Self::all_formats()[3] == f),
        }
    }

    /// Turns this format into a more generic `TextureFormat`.
    pub fn to_texture_format(self) -> (r: TextureFormat)
        ensures
            r == TextureFormat::StencilFormat(self),
    {
        TextureFormat::StencilFormat(self)
    }

    /// The OpenGL enumerant of this format.
    pub open spec fn glenum(self) -> u32 {
        match self {
            StencilFormat::I1 => gl::STENCIL_INDEX1,
            StencilFormat::I4 => gl::STENCIL_INDEX4,
            StencilFormat::I8 => gl::STENCIL_INDEX8,
            StencilFormat::I16 => gl::STENCIL_INDEX16,
        }
    }

    /// Returns the OpenGL enumerant of this format.
    pub fn to_glenum(&self) -> (r: u32)
        ensures
            r == self.glenum(),
    {
        match self {
            StencilFormat::I1 => gl::STENCIL_INDEX1,
            StencilFormat::I4 => gl::STENCIL_INDEX4,
            StencilFormat::I8 => gl::STENCIL_INDEX8,
            StencilFormat::I16 => gl::STENCIL_INDEX16,
        }
    }
}
impl UncompressedFloatFormat {
    /// Whether a backend of version `v` with extensions `e` supports this format.
    pub open spec fn supported(self, v: Version, e: ExtensionsList) -> bool {
        match self {
            UncompressedFloatFormat::U8 | UncompressedFloatFormat::U16 | UncompressedFloatFormat::U8U8
            | UncompressedFloatFormat::U16U16 => ver_ge(v, Api::Gl, 3, 0) || ver_ge(v, Api::GlEs, 3, 0)
                || e.gl_arb_texture_rg,
            UncompressedFloatFormat::I8 | UncompressedFloatFormat::I16 | UncompressedFloatFormat::I8I8
            | UncompressedFloatFormat::I16I16 | UncompressedFloatFormat::I8I8I8
            | UncompressedFloatFormat::I16I16I16 | UncompressedFloatFormat::I8I8I8I8
            | UncompressedFloatFormat::I16I16I16I16 => ver_ge(v, Api::Gl, 3, 2) || ver_ge(
                v,
                Api::GlEs,
                3,
                0,
            ) || e.gl_ext_texture_snorm,
            UncompressedFloatFormat::U16U16U16 => ver_ge(v, Api::Gl, 3, 0) || ver_ge(v, Api::GlEs, 3, 0),
            UncompressedFloatFormat::F16 | UncompressedFloatFormat::F16F16 | UncompressedFloatFormat::F32
            | UncompressedFloatFormat::F32F32 => ver_ge(v, Api::Gl, 3, 0) || ver_ge(v, Api::GlEs, 3, 0)
                || (e.gl_arb_texture_float && e.gl_arb_texture_rg),
            UncompressedFloatFormat::F16F16F16 | UncompressedFloatFormat::F16F16F16F16
            | UncompressedFloatFormat::F32F32F32
            | UncompressedFloatFormat::F32F32F32F32 => ver_ge(v, Api::Gl, 3, 0) || ver_ge(
                v,
                Api::GlEs,
                3,
                0,
            ) || e.gl_arb_texture_float || e.gl_ati_texture_float,
            UncompressedFloatFormat::F11F11F10 => ver_ge(v, Api::Gl, 3, 2) || ver_ge(v, Api::GlEs, 3, 0)
                || e.gl_ext_packed_float,
            UncompressedFloatFormat::F9F9F9 => ver_ge(v, Api::Gl, 3, 0) || ver_ge(v, Api::GlEs, 3, 0)
                || e.gl_ext_texture_shared_exponent,
            _ => ver_ge(v, Api::Gl, 1, 1) || ver_ge(v, Api::GlEs, 3, 0),
        }
    }

    /// Returns true if this format is supported by the backend.
    pub fn is_supported<C: CapabilitiesSource>(&self, context: &C) -> (r: bool)
        ensures
            r == self.supported(context.version_view(), context.extensions_view()),
    {
        let v = context.get_version();
        let e = context.get_extensions();
        match self {
            UncompressedFloatFormat::U8 | UncompressedFloatFormat::U16 | UncompressedFloatFormat::U8U8
            | UncompressedFloatFormat::U16U16 => version_ge(v, Api::Gl, 3, 0) || version_ge(v, Api::GlEs, 3, 0)
                || e.gl_arb_texture_rg,
            UncompressedFloatFormat::I8 | UncompressedFloatFormat::I16 | UncompressedFloatFormat::I8I8
            | UncompressedFloatFormat::I16I16 | UncompressedFloatFormat::I8I8I8
            | UncompressedFloatFormat::I16I16I16 | UncompressedFloatFormat::I8I8I8I8
            | UncompressedFloatFormat::I16I16I16I16 => version_ge(v, Api::Gl, 3, 2) || version_ge(
                v,
                Api::GlEs,
                3,
                0,
            ) || e.gl_ext_texture_snorm,
            UncompressedFloatFormat::U16U16U16 => version_ge(v, Api::Gl, 3, 0) || version_ge(
                v,
                Api::GlEs,
                3,
                0,
            ),
            UncompressedFloatFormat::F16 | UncompressedFloatFormat::F16F16 | UncompressedFloatFormat::F32
            | UncompressedFloatFormat::F32F32 => version_ge(v, Api::Gl, 3, 0) || version_ge(
                v,
                Api::GlEs,
                3,
                0,
            ) || (e.gl_arb_texture_float && e.gl_arb_texture_rg),
            UncompressedFloatFormat::F16F16F16 | UncompressedFloatFormat::F16F16F16F16
            | UncompressedFloatFormat::F32F32F32
            | UncompressedFloatFormat::F32F32F32F32 => version_ge(v, Api::Gl, 3, 0) || version_ge(
                v,
                Api::GlEs,
                3,
                0,
            ) || e.gl_arb_texture_float || e.gl_ati_texture_float,
            UncompressedFloatFormat::F11F11F10 => version_ge(v, Api::Gl, 3, 2) || version_ge(
                v,
                Api::GlEs,
                3,
                0,
            ) || e.gl_ext_packed_float,
            UncompressedFloatFormat::F9F9F9 => version_ge(v, Api::Gl, 3, 0) || version_ge(
                v,
                Api::GlEs,
                3,
                0,
            ) || e.gl_ext_texture_shared_exponent,
            _ => version_ge(v, Api::Gl, 1, 1) || version_ge(v, Api::GlEs, 3, 0),
        }
    }

    /// Whether a texture or renderbuffer with this format can be used as a framebuffer
    /// attachment, on a backend of version `v` with extensions `e`.
    pub open spec fn color_renderable(self, v: Version, e: ExtensionsList) -> bool {
        if self == UncompressedFloatFormat::F9F9F9 {
            false
        } else if !self.supported(v, e) {
            false
        } else if ver_ge(v, Api::Gl, 1, 0) {
            true
        } else {
            match self {
                UncompressedFloatFormat::U8 | UncompressedFloatFormat::U8U8 => ver_ge(
                    v,
                    Api::GlEs,
                    3,
                    0,
                ) || e.gl_arb_texture_rg,
                UncompressedFloatFormat::U8U8U8 => ver_ge(v, Api::GlEs, 3, 0) || e.gl_oes_rgb8_rgba8,
                UncompressedFloatFormat::U4U4U4U4 | UncompressedFloatFormat::U5U5U5U1 => true,
                UncompressedFloatFormat::U8U8U8U8 => ver_ge(v, Api::GlEs, 3, 0) || e.gl_arm_rgba8
                    || e.gl_oes_rgb8_rgba8,
                UncompressedFloatFormat::U10U10U10U2 => ver_ge(v, Api::GlEs, 3, 0),
                UncompressedFloatFormat::F16 | UncompressedFloatFormat::F16F16
                | UncompressedFloatFormat::F16F16F16F16 | UncompressedFloatFormat::F32
                | UncompressedFloatFormat::F32F32 | UncompressedFloatFormat::F32F32F32F32
                | UncompressedFloatFormat::F11F11F10 => ver_ge(v, Api::GlEs, 3, 2),
                _ => false,
            }
        }
    }

    /// Returns true if a texture or renderbuffer with this format can be used as a framebuffer
    /// attachment.
    pub fn is_color_renderable<C: CapabilitiesSource>(&self, context: &C) -> (r: bool)
        ensures
            r == self.color_renderable(context.version_view(), context.extensions_view()),
    {
        if let UncompressedFloatFormat::F9F9F9 = self {
            return false;
        }
        if !self.is_supported(context) {
            return false;
        }
        let v = context.get_version();
        let e = context.get_extensions();
        if version_ge(v, Api::Gl, 1, 0) {
            return true;
        }
        match self {
            UncompressedFloatFormat::U8 | UncompressedFloatFormat::U8U8 => version_ge(
                v,
                Api::GlEs,
                3,
                0,
            ) || e.gl_arb_texture_rg,
            UncompressedFloatFormat::U8U8U8 => version_ge(v, Api::GlEs, 3, 0) || e.gl_oes_rgb8_rgba8,
            UncompressedFloatFormat::U4U4U4U4 | UncompressedFloatFormat::U5U5U5U1 => true,
            UncompressedFloatFormat::U8U8U8U8 => version_ge(v, Api::GlEs, 3, 0) || e.gl_arm_rgba8
                || e.gl_oes_rgb8_rgba8,
            UncompressedFloatFormat::U10U10U10U2 => version_ge(v, Api::GlEs, 3, 0),
            UncompressedFloatFormat::F16 | UncompressedFloatFormat::F16F16
            | UncompressedFloatFormat::F16F16F16F16 | UncompressedFloatFormat::F32
            | UncompressedFloatFormat::F32F32 | UncompressedFloatFormat::F32F32F32F32
            | UncompressedFloatFormat::F11F11F10 => version_ge(v, Api::GlEs, 3, 2),
            _ => false,
        }
    }
}

impl SrgbFormat {
    /// Whether a backend of version `v` with extensions `e` supports this format.
    pub open spec fn supported(self, v: Version, e: ExtensionsList) -> bool {
        ver_ge(v, Api::Gl, 2, 1) || ver_ge(v, Api::GlEs, 3, 0) || e.gl_ext_texture_srgb
    }

    /// Returns true if this format is supported by the backend.
    pub fn is_supported<C: CapabilitiesSource>(&self, context: &C) -> (r: bool)
        ensures
            r == self.supported(context.version_view(), context.extensions_view()),
    {
        let v = context.get_version();
        let e = context.get_extensions();
        version_ge(v, Api::Gl, 2, 1) || version_ge(v, Api::GlEs, 3, 0) || e.gl_ext_texture_srgb
    }

    /// Whether a texture or renderbuffer with this format can be used as a framebuffer
    /// attachment, on a backend of version `v` with extensions `e`.
    pub open spec fn color_renderable(self, v: Version, e: ExtensionsList) -> bool {
        self.supported(v, e) && match self {
            SrgbFormat::U8U8U8 => ver_ge(v, Api::Gl, 1, 0),
            SrgbFormat::U8U8U8U8 => ver_ge(v, Api::Gl, 1, 0) || ver_ge(v, Api::GlEs, 3, 0),
        }
    }

    /// Returns true if a texture or renderbuffer with this format can be used as a framebuffer
    /// attachment.
    pub fn is_color_renderable<C: CapabilitiesSource>(&self, context: &C) -> (r: bool)
        ensures
            r == self.color_renderable(context.version_view(), context.extensions_view()),
    {
        if !self.is_supported(context) {
            return false;
        }
        let v = context.get_version();
        match self {
            SrgbFormat::U8U8U8 => version_ge(v, Api::Gl, 1, 0),
            SrgbFormat::U8U8U8U8 => version_ge(v, Api::Gl, 1, 0) || version_ge(v, Api::GlEs, 3, 0),
        }
    }
}

impl UncompressedIntFormat {
    /// Whether a backend of version `v` with extensions `e` supports this format.
    pub open spec fn supported(self, v: Version, e: ExtensionsList) -> bool {
        match self {
            UncompressedIntFormat::I8 | UncompressedIntFormat::I16 | UncompressedIntFormat::I32
            | UncompressedIntFormat::I8I8 | UncompressedIntFormat::I16I16
            | UncompressedIntFormat::I32I32 => ver_ge(v, Api::Gl, 3, 0) || (e.gl_ext_texture_integer
                && e.gl_arb_texture_rg),
            _ => ver_ge(v, Api::Gl, 3, 0) || e.gl_ext_texture_integer,
        }
    }

    /// Returns true if this format is supported by the backend.
    pub fn is_supported<C: CapabilitiesSource>(&self, context: &C) -> (r: bool)
        ensures
            r == self.supported(context.version_view(), context.extensions_view()),
    {
        let v = context.get_version();
        let e = context.get_extensions();
        match self {
            UncompressedIntFormat::I8 | UncompressedIntFormat::I16 | UncompressedIntFormat::I32
            | UncompressedIntFormat::I8I8 | UncompressedIntFormat::I16I16
            | UncompressedIntFormat::I32I32 => version_ge(v, Api::Gl, 3, 0) || (e.gl_ext_texture_integer
                && e.gl_arb_texture_rg),
            _ => version_ge(v, Api::Gl, 3, 0) || e.gl_ext_texture_integer,
        }
    }

    /// Whether a texture or renderbuffer with this format can be used as a framebuffer
    /// attachment, on a backend of version `v` with extensions `e`.
    pub open spec fn color_renderable(self, v: Version, e: ExtensionsList) -> bool {
        self.supported(v, e) && (ver_ge(v, Api::Gl, 1, 0) || match self {
            UncompressedIntFormat::I8I8I8 | UncompressedIntFormat::I16I16I16
            | UncompressedIntFormat::I32I32I32 => false,
            _ => ver_ge(v, Api::GlEs, 3, 0),
        })
    }

    /// Returns true if a texture or renderbuffer with this format can be used as a framebuffer
    /// attachment.
    pub fn is_color_renderable<C: CapabilitiesSource>(&self, context: &C) -> (r: bool)
        ensures
            r == self.color_renderable(context.version_view(), context.extensions_view()),
    {
        if !self.is_supported(context) {
            return false;
        }
        let v = context.get_version();
        if version_ge(v, Api::Gl, 1, 0) {
            return true;
        }
        match self {
            UncompressedIntFormat::I8I8I8 | UncompressedIntFormat::I16I16I16
            | UncompressedIntFormat::I32I32I32 => false,
            _ => version_ge(v, Api::GlEs, 3, 0),
        }
    }
}

impl UncompressedUintFormat {
    /// Whether a backend of version `v` with extensions `e` supports this format.
    pub open spec fn supported(self, v: Version, e: ExtensionsList) -> bool {
        match self {
            UncompressedUintFormat::U8 | UncompressedUintFormat::U16 | UncompressedUintFormat::U32
            | UncompressedUintFormat::U8U8 | UncompressedUintFormat::U16U16
            | UncompressedUintFormat::U32U32 => ver_ge(v, Api::Gl, 3, 0) || (e.gl_ext_texture_integer
                && e.gl_arb_texture_rg),
            UncompressedUintFormat::U10U10U10U2 => ver_ge(v, Api::Gl, 3, 3)
                || e.gl_arb_texture_rgb10_a2ui,
            _ => ver_ge(v, Api::Gl, 3, 0) || e.gl_ext_texture_integer,
        }
    }

    /// Returns true if this format is supported by the backend.
    pub fn is_supported<C: CapabilitiesSource>(&self, context: &C) -> (r: bool)
        ensures
            r == self.supported(context.version_view(), context.extensions_view()),
    {
        let v = context.get_version();
        let e = context.get_extensions();
        match self {
            UncompressedUintFormat::U8 | UncompressedUintFormat::U16 | UncompressedUintFormat::U32
            | UncompressedUintFormat::U8U8 | UncompressedUintFormat::U16U16
            | UncompressedUintFormat::U32U32 => version_ge(v, Api::Gl, 3, 0) || (
            e.gl_ext_texture_integer && e.gl_arb_texture_rg),
            UncompressedUintFormat::U10U10U10U2 => version_ge(v, Api::Gl, 3, 3)
                || e.gl_arb_texture_rgb10_a2ui,
            _ => version_ge(v, Api::Gl, 3, 0) || e.gl_ext_texture_integer,
        }
    }

    /// Whether a texture or renderbuffer with this format can be used as a framebuffer
    /// attachment, on a backend of version `v` with extensions `e`.
    pub open spec fn color_renderable(self, v: Version, e: ExtensionsList) -> bool {
        self.supported(v, e) && (ver_ge(v, Api::Gl, 1, 0) || match self {
            UncompressedUintFormat::U8U8U8 | UncompressedUintFormat::U16U16U16
            | UncompressedUintFormat::U32U32U32 => false,
            _ => ver_ge(v, Api::GlEs, 3, 0),
        })
    }

    /// Returns true if a texture or renderbuffer with this format can be used as a framebuffer
    /// attachment.
    pub fn is_color_renderable<C: CapabilitiesSource>(&self, context: &C) -> (r: bool)
        ensures
            r == self.color_renderable(context.version_view(), context.extensions_view()),
    {
        if !self.is_supported(context) {
            return false;
        }
        let v = context.get_version();
        if version_ge(v, Api::Gl, 1, 0) {
            return true;
        }
        match self {
            UncompressedUintFormat::U8U8U8 | UncompressedUintFormat::U16U16U16
            | UncompressedUintFormat::U32U32U32 => false,
            _ => version_ge(v, Api::GlEs, 3, 0),
        }
    }
}

impl CompressedFormat {
    /// Whether a backend of version `v` with extensions `e` supports this format.
    pub open spec fn supported(self, v: Version, e: ExtensionsList) -> bool {
        match self {
            CompressedFormat::RgtcFormatU | CompressedFormat::RgtcFormatI | CompressedFormat::RgtcFormatUU
            | CompressedFormat::RgtcFormatII => ver_ge(v, Api::Gl, 3, 0),
            CompressedFormat::BptcUnorm4 | CompressedFormat::BptcSignedFloat3
            | CompressedFormat::BptcUnsignedFloat3 => ver_ge(v, Api::Gl, 4, 2)
                || e.gl_arb_texture_compression_bptc,
            _ => e.gl_ext_texture_compression_s3tc,
        }
    }

    /// Returns true if this format is supported by the backend.
    pub fn is_supported<C: CapabilitiesSource>(&self, context: &C) -> (r: bool)
        ensures
            r == self.supported(context.version_view(), context.extensions_view()),
    {
        let v = context.get_version();
        let e = context.get_extensions();
        match self {
            CompressedFormat::RgtcFormatU | CompressedFormat::RgtcFormatI | CompressedFormat::RgtcFormatUU
            | CompressedFormat::RgtcFormatII => version_ge(v, Api::Gl, 3, 0),
            CompressedFormat::BptcUnorm4 | CompressedFormat::BptcSignedFloat3
            | CompressedFormat::BptcUnsignedFloat3 => version_ge(v, Api::Gl, 4, 2)
                || e.gl_arb_texture_compression_bptc,
            _ => e.gl_ext_texture_compression_s3tc,
        }
    }
}

impl CompressedSrgbFormat {
    /// Whether a backend of version `v` with extensions `e` supports this format.
    pub open spec fn supported(self, v: Version, e: ExtensionsList) -> bool {
        match self {
            CompressedSrgbFormat::Bptc => ver_ge(v, Api::Gl, 4, 2) || e.gl_arb_texture_compression_bptc,
            _ => e.gl_ext_texture_compression_s3tc && e.gl_ext_texture_srgb,
        }
    }

    /// Returns true if this format is supported by the backend.
    pub fn is_supported<C: CapabilitiesSource>(&self, context: &C) -> (r: bool)
        ensures
            r == self.supported(context.version_view(), context.extensions_view()),
    {
        let v = context.get_version();
        let e = context.get_extensions();
        match self {
            CompressedSrgbFormat::Bptc => version_ge(v, Api::Gl, 4, 2)
                || e.gl_arb_texture_compression_bptc,
            _ => e.gl_ext_texture_compression_s3tc && e.gl_ext_texture_srgb,
        }
    }
}

impl DepthFormat {
    /// Whether a backend of version `v` with extensions `e` supports this format.
    pub open spec fn supported(self, v: Version, e: ExtensionsList) -> bool {
        match self {
            DepthFormat::F32 => ver_ge(v, Api::Gl, 3, 0),
            _ => ver_ge(v, Api::Gl, 3, 0) || e.gl_arb_depth_texture,
        }
    }

    /// Returns true if this format is supported by the backend.
    pub fn is_supported<C: CapabilitiesSource>(&self, context: &C) -> (r: bool)
        ensures
            r == self.supported(context.version_view(), context.extensions_view()),
    {
        let v = context.get_version();
        let e = context.get_extensions();
        match self {
            DepthFormat::F32 => version_ge(v, Api::Gl, 3, 0),
            _ => version_ge(v, Api::Gl, 3, 0) || e.gl_arb_depth_texture,
        }
    }
}

impl DepthStencilFormat {
    /// Whether a backend of version `v` with extensions `e` supports this format.
    pub open spec fn supported(self, v: Version, e: ExtensionsList) -> bool {
        match self {
            DepthStencilFormat::I24I8 => ver_ge(v, Api::Gl, 3, 0) || e.gl_ext_packed_depth_stencil
                || e.gl_oes_packed_depth_stencil,
            DepthStencilFormat::F32I8 => ver_ge(v, Api::Gl, 3, 0),
        }
    }

    /// Returns true if this format is supported by the backend.
    pub fn is_supported<C: CapabilitiesSource>(&self, context: &C) -> (r: bool)
        ensures
            r == self.supported(context.version_view(), context.extensions_view()),
    {
        let v = context.get_version();
        let e = context.get_extensions();
        match self {
            DepthStencilFormat::I24I8 => version_ge(v, Api::Gl, 3, 0) || e.gl_ext_packed_depth_stencil
                || e.gl_oes_packed_depth_stencil,
            DepthStencilFormat::F32I8 => version_ge(v, Api::Gl, 3, 0),
        }
    }
}

impl StencilFormat {
    /// Whether a backend of version `v` with extensions `e` supports this format for textures.
    pub open spec fn supported_for_textures(self, v: Version, e: ExtensionsList) -> bool {
        match self {
            StencilFormat::I8 => ver_ge(v, Api::Gl, 4, 4) || ver_ge(v, Api::GlEs, 3, 2)
                || e.gl_arb_texture_stencil8 || e.gl_oes_texture_stencil8,
            _ => false,
        }
    }

    /// Returns true if this format is supported by the backend for textures.
    pub fn is_supported_for_textures<C: CapabilitiesSource>(&self, context: &C) -> (r: bool)
        ensures
            r == self.supported_for_textures(context.version_view(), context.extensions_view()),
    {
        let v = context.get_version();
        let e = context.get_extensions();
        match self {
            StencilFormat::I8 => version_ge(v, Api::Gl, 4, 4) || version_ge(v, Api::GlEs, 3, 2)
                || e.gl_arb_texture_stencil8 || e.gl_oes_texture_stencil8,
            _ => false,
        }
    }

    /// Whether a backend of version `v` with extensions `e` supports this format for
    /// renderbuffers.
    pub open spec fn supported_for_renderbuffers(self, v: Version, e: ExtensionsList) -> bool {
        match self {
            StencilFormat::I1 => ver_ge(v, Api::Gl, 3, 0) || e.gl_ext_framebuffer_object
                || e.gl_arb_framebuffer_object || e.gl_oes_stencil1,
            StencilFormat::I4 => ver_ge(v, Api::Gl, 3, 0) || e.gl_ext_framebuffer_object
                || e.gl_arb_framebuffer_object || e.gl_oes_stencil4,
            StencilFormat::I8 => ver_ge(v, Api::Gl, 3, 0) || e.gl_arb_texture_stencil8 || ver_ge(
                v,
                Api::GlEs,
                2,
                0,
            ),
            StencilFormat::I16 => ver_ge(v, Api::Gl, 3, 0) || e.gl_ext_framebuffer_object
                || e.gl_arb_framebuffer_object,
        }
    }

    /// Returns true if this format is supported by the backend for renderbuffers.
    pub fn is_supported_for_renderbuffers<C: CapabilitiesSource>(&self, context: &C) -> (r: bool)
        ensures
            r == self.supported_for_renderbuffers(context.version_view(), context.extensions_view()),
    {
        let v = context.get_version();
        let e = context.get_extensions();
        match self {
            StencilFormat::I1 => version_ge(v, Api::Gl, 3, 0) || e.gl_ext_framebuffer_object
                || e.gl_arb_framebuffer_object || e.gl_oes_stencil1,
            StencilFormat::I4 => version_ge(v, Api::Gl, 3, 0) || e.gl_ext_framebuffer_object
                || e.gl_arb_framebuffer_object || e.gl_oes_stencil4,
            StencilFormat::I8 => version_ge(v, Api::Gl, 3, 0) || e.gl_arb_texture_stencil8
                || version_ge(v, Api::GlEs, 2, 0),
            StencilFormat::I16 => version_ge(v, Api::Gl, 3, 0) || e.gl_ext_framebuffer_object
                || e.gl_arb_framebuffer_object,
        }
    }
}

impl TextureFormat {
    /// Every texture format: the lists of each kind of format, concatenated.
    pub open spec fn all_formats() -> Seq<TextureFormat> {
        UncompressedFloatFormat::all_formats().map_values(|f| TextureFormat::UncompressedFloat(f))
            + UncompressedIntFormat::all_formats().map_values(|f| TextureFormat::UncompressedIntegral(f))
            + UncompressedUintFormat::all_formats().map_values(|f| TextureFormat::UncompressedUnsigned(f))
            + SrgbFormat::all_formats().map_values(|f| TextureFormat::Srgb(f))
            + CompressedFormat::all_formats().map_values(|f| TextureFormat::CompressedFormat(f))
            + CompressedSrgbFormat::all_formats().map_values(|f| TextureFormat::CompressedSrgbFormat(f))
            + DepthFormat::all_formats().map_values(|f| TextureFormat::DepthFormat(f))
            + StencilFormat::all_formats().map_values(|f| TextureFormat::StencilFormat(f))
            + DepthStencilFormat::all_formats().map_values(|f| TextureFormat::DepthStencilFormat(f))
    }

    /// Every texture format is in the list of formats.
    pub proof fn lemma_formats_list_complete(f: TextureFormat)
        ensures
            Self::all_formats().contains(f),
    {
        let s0 = UncompressedFloatFormat::all_formats().map_values(|f| TextureFormat::UncompressedFloat(f));
        let s1 = UncompressedIntFormat::all_formats().map_values(|f| TextureFormat::UncompressedIntegral(f));
        let s2 = UncompressedUintFormat::all_formats().map_values(|f| TextureFormat::UncompressedUnsigned(f));
        let s3 = SrgbFormat::all_formats().map_values(|f| TextureFormat::Srgb(f));
        let s4 = CompressedFormat::all_formats().map_values(|f| TextureFormat::CompressedFormat(f));
        let s5 = CompressedSrgbFormat::all_formats().map_values(|f| TextureFormat::CompressedSrgbFormat(f));
        let s6 = DepthFormat::all_formats().map_values(|f| TextureFormat::DepthFormat(f));
        let s7 = StencilFormat::all_formats().map_values(|f| TextureFormat::StencilFormat(f));
        let s8 = DepthStencilFormat::all_formats().map_values(|f| TextureFormat::DepthStencilFormat(f));
        match f {
            TextureFormat::UncompressedFloat(x) => {
                UncompressedFloatFormat::lemma_formats_list_complete(x);
                lemma_mapped_contains(UncompressedFloatFormat::all_formats(), |f| TextureFormat::UncompressedFloat(f), x);
            },
            TextureFormat::UncompressedIntegral(x) => {
                UncompressedIntFormat::lemma_formats_list_complete(x);
                lemma_mapped_contains(UncompressedIntFormat::all_formats(), |f| TextureFormat::UncompressedIntegral(f), x);
            },
            TextureFormat::UncompressedUnsigned(x) => {
                UncompressedUintFormat::lemma_formats_list_complete(x);
                lemma_mapped_contains(UncompressedUintFormat::all_formats(), |f| TextureFormat::UncompressedUnsigned(f), x);
            },
            TextureFormat::Srgb(x) => {
                SrgbFormat::lemma_formats_list_complete(x);
                lemma_mapped_contains(SrgbFormat::all_formats(), |f| TextureFormat::Srgb(f), x);
            },
            TextureFormat::CompressedFormat(x) => {
                CompressedFormat::lemma_formats_list_complete(x);
                lemma_mapped_contains(CompressedFormat::all_formats(), |f| TextureFormat::CompressedFormat(f), x);
            },
            TextureFormat::CompressedSrgbFormat(x) => {
                CompressedSrgbFormat::lemma_formats_list_complete(x);
                lemma_mapped_contains(CompressedSrgbFormat::all_formats(), |f| TextureFormat::CompressedSrgbFormat(f), x);
            },
            TextureFormat::DepthFormat(x) => {
                DepthFormat::lemma_formats_list_complete(x);
                lemma_mapped_contains(DepthFormat::all_formats(), |f| TextureFormat::DepthFormat(f), x);
            },
            TextureFormat::StencilFormat(x) => {
                StencilFormat::lemma_formats_list_complete(x);
                lemma_mapped_contains(StencilFormat::all_formats(), |f| TextureFormat::StencilFormat(f), x);
            },
            TextureFormat::DepthStencilFormat(x) => {
                DepthStencilFormat::lemma_formats_list_complete(x);
                lemma_mapped_contains(DepthStencilFormat::all_formats(), |f| TextureFormat::DepthStencilFormat(f), x);
            },
        }
        let mut acc = s0;
        if acc.contains(f) || s1.contains(f) {
            lemma_concat_contains(acc, s1, f);
        }
        acc = acc + s1;
        if acc.contains(f) || s2.contains(f) {
            lemma_concat_contains(acc, s2, f);
        }
        acc = acc + s2;
        if acc.contains(f) || s3.contains(f) {
            lemma_concat_contains(acc, s3, f);
        }
        acc = acc + s3;
        if acc.contains(f) || s4.contains(f) {
            lemma_concat_contains(acc, s4, f);
        }
        acc = acc + s4;
        if acc.contains(f) || s5.contains(f) {
            lemma_concat_contains(acc, s5, f);
        }
        acc = acc + s5;
        if acc.contains(f) || s6.contains(f) {
            lemma_concat_contains(acc, s6, f);
        }
        acc = acc + s6;
        if acc.contains(f) || s7.contains(f) {
            lemma_concat_contains(acc, s7, f);
        }
        acc = acc + s7;
        if acc.contains(f) || s8.contains(f) {
            lemma_concat_contains(acc, s8, f);
        }
        acc = acc + s8;
        assert(acc == Self::all_formats());
    }

    /// Returns a list of all the possible values of this enumeration.
    pub fn get_formats_list() -> (r: Vec<TextureFormat>)
        ensures
            r@ == Self::all_formats(),
    {
        let mut v: Vec<TextureFormat> = Vec::new();
        let l = UncompressedFloatFormat::get_formats_list();
        let ghost p0 = v@;
        for i in 0..l.len()
            invariant
                l@ == UncompressedFloatFormat::all_formats(),
                v@ == p0 + l@.take(i as int).map_values(|f| TextureFormat::UncompressedFloat(f)),
        {
            v.push(l[i].to_texture_format());
            assert(l@.take(i + 1) == l@.take(i as int).push(l@[i as int]));
        }
        assert(l@.take(l@.len() as int) == l@);
        let l = UncompressedIntFormat::get_formats_list();
        let ghost p1 = v@;
        for i in 0..l.len()
            invariant
                l@ == UncompressedIntFormat::all_formats(),
                v@ == p1 + l@.take(i as int).map_values(|f| TextureFormat::UncompressedIntegral(f)),
        {
            v.push(l[i].to_texture_format());
            assert(l@.take(i + 1) == l@.take(i as int).push(l@[i as int]));
        }
        assert(l@.take(l@.len() as int) == l@);
        let l = UncompressedUintFormat::get_formats_list();
        let ghost p2 = v@;
        for i in 0..l.len()
            invariant
                l@ == UncompressedUintFormat::all_formats(),
                v@ == p2 + l@.take(i as int).map_values(|f| TextureFormat::UncompressedUnsigned(f)),
        {
            v.push(l[i].to_texture_format());
            assert(l@.take(i + 1) == l@.take(i as int).push(l@[i as int]));
        }
        assert(l@.take(l@.len() as int) == l@);
        let l = SrgbFormat::get_formats_list();
        let ghost p3 = v@;
        for i in 0..l.len()
            invariant
                l@ == SrgbFormat::all_formats(),
                v@ == p3 + l@.take(i as int).map_values(|f| TextureFormat::Srgb(f)),
        {
            v.push(l[i].to_texture_format());
            assert(l@.take(i + 1) == l@.take(i as int).push(l@[i as int]));
        }
        assert(l@.take(l@.len() as int) == l@);
        let l = CompressedFormat::get_formats_list();
        let ghost p4 = v@;
        for i in 0..l.len()
            invariant
                l@ == CompressedFormat::all_formats(),
                v@ == p4 + l@.take(i as int).map_values(|f| TextureFormat::CompressedFormat(f)),
        {
            v.push(l[i].to_texture_format());
            assert(l@.take(i + 1) == l@.take(i as int).push(l@[i as int]));
        }
        assert(l@.take(l@.len() as int) == l@);
        let l = CompressedSrgbFormat::get_formats_list();
        let ghost p5 = v@;
        for i in 0..l.len()
            invariant
                l@ == CompressedSrgbFormat::all_formats(),
                v@ == p5 + l@.take(i as int).map_values(|f| TextureFormat::CompressedSrgbFormat(f)),
        {
            v.push(l[i].to_texture_format());
            assert(l@.take(i + 1) == l@.take(i as int).push(l@[i as int]));
        }
        assert(l@.take(l@.len() as int) == l@);
        let l = DepthFormat::get_formats_list();
        let ghost p6 = v@;
        for i in 0..l.len()
            invariant
                l@ == DepthFormat::all_formats(),
                v@ == p6 + l@.take(i as int).map_values(|f| TextureFormat::DepthFormat(f)),
        {
            v.push(l[i].to_texture_format());
            assert(l@.take(i + 1) == l@.take(i as int).push(l@[i as int]));
        }
        assert(l@.take(l@.len() as int) == l@);
        let l = StencilFormat::get_formats_list();
        let ghost p7 = v@;
        for i in 0..l.len()
            invariant
                l@ == StencilFormat::all_formats(),
                v@ == p7 + l@.take(i as int).map_values(|f| TextureFormat::StencilFormat(f)),
        {
            v.push(l[i].to_texture_format());
            assert(l@.take(i + 1) == l@.take(i as int).push(l@[i as int]));
        }
        assert(l@.take(l@.len() as int) == l@);
        let l = DepthStencilFormat::get_formats_list();
        let ghost p8 = v@;
        for i in 0..l.len()
            invariant
                l@ == DepthStencilFormat::all_formats(),
                v@ == p8 + l@.take(i as int).map_values(|f| TextureFormat::DepthStencilFormat(f)),
        {
            v.push(l[i].to_texture_format());
            assert(l@.take(i + 1) == l@.take(i as int).push(l@[i as int]));
        }
        assert(l@.take(l@.len() as int) == l@);
        assert(v@ =~= Self::all_formats());
        v
    }

    /// Whether a backend of version `v` with extensions `e` supports this format for textures.
    pub open spec fn supported_for_textures(self, v: Version, e: ExtensionsList) -> bool {
        match self {
            TextureFormat::UncompressedFloat(f) => f.supported(v, e),
            TextureFormat::UncompressedIntegral(f) => f.supported(v, e),
            TextureFormat::UncompressedUnsigned(f) => f.supported(v, e),
            TextureFormat::Srgb(f) => f.supported(v, e),
            TextureFormat::CompressedFormat(f) => f.supported(v, e),
            TextureFormat::CompressedSrgbFormat(f) => f.supported(v, e),
            TextureFormat::DepthFormat(f) => f.supported(v, e),
            TextureFormat::StencilFormat(f) => f.supported_for_textures(v, e),
            TextureFormat::DepthStencilFormat(f) => f.supported(v, e),
        }
    }

    /// Returns true if this format is supported by the backend for textures.
    pub fn is_supported_for_textures<C: CapabilitiesSource>(&self, c: &C) -> (r: bool)
        ensures
            r == self.supported_for_textures(c.version_view(), c.extensions_view()),
    {
        match self {
            TextureFormat::UncompressedFloat(f) => f.is_supported(c),
            TextureFormat::UncompressedIntegral(f) => f.is_supported(c),
            TextureFormat::UncompressedUnsigned(f) => f.is_supported(c),
            TextureFormat::Srgb(f) => f.is_supported(c),
            TextureFormat::CompressedFormat(f) => f.is_supported(c),
            TextureFormat::CompressedSrgbFormat(f) => f.is_supported(c),
            TextureFormat::DepthFormat(f) => f.is_supported(c),
            TextureFormat::StencilFormat(f) => f.is_supported_for_textures(c),
            TextureFormat::DepthStencilFormat(f) => f.is_supported(c),
        }
    }

    /// Whether a backend of version `v` with extensions `e` supports this format for
    /// renderbuffers.
    pub open spec fn supported_for_renderbuffers(self, v: Version, e: ExtensionsList) -> bool {
        match self {
            TextureFormat::StencilFormat(f) => f.supported_for_renderbuffers(v, e),
            _ => self.supported_for_textures(v, e),
        }
    }

    /// Returns true if this format is supported by the backend for renderbuffers.
    pub fn is_supported_for_renderbuffers<C: CapabilitiesSource>(&self, c: &C) -> (r: bool)
        ensures
            r == self.supported_for_renderbuffers(c.version_view(), c.extensions_view()),
    {
        match self {
            TextureFormat::UncompressedFloat(f) => f.is_supported(c),
            TextureFormat::UncompressedIntegral(f) => f.is_supported(c),
            TextureFormat::UncompressedUnsigned(f) => f.is_supported(c),
            TextureFormat::Srgb(f) => f.is_supported(c),
            TextureFormat::CompressedFormat(f) => f.is_supported(c),
            TextureFormat::CompressedSrgbFormat(f) => f.is_supported(c),
            TextureFormat::DepthFormat(f) => f.is_supported(c),
            TextureFormat::StencilFormat(f) => f.is_supported_for_renderbuffers(c),
            TextureFormat::DepthStencilFormat(f) => f.is_supported(c),
        }
    }

    /// Whether the format is color-, depth-, depth-stencil- or stencil-renderable on a backend
    /// of version `v` with extensions `e`.
    pub open spec fn renderable(self, v: Version, e: ExtensionsList) -> bool {
        match self {
            TextureFormat::UncompressedFloat(f) => f.color_renderable(v, e),
            TextureFormat::UncompressedIntegral(f) => f.color_renderable(v, e),
            TextureFormat::UncompressedUnsigned(f) => f.color_renderable(v, e),
            TextureFormat::Srgb(f) => f.color_renderable(v, e),
            TextureFormat::CompressedFormat(_) => false,
            TextureFormat::CompressedSrgbFormat(_) => false,
            TextureFormat::DepthFormat(_) => true,
            TextureFormat::StencilFormat(_) => true,
            TextureFormat::DepthStencilFormat(_) => true,
        }
    }

    /// Returns true if the format is color-renderable, depth-renderable, depth-stencil-renderable
    /// or stencil-renderable.
    pub fn is_renderable<C: CapabilitiesSource>(&self, c: &C) -> (r: bool)
        ensures
            r == self.renderable(c.version_view(), c.extensions_view()),
    {
        match self {
            TextureFormat::UncompressedFloat(f) => f.is_color_renderable(c),
            TextureFormat::UncompressedIntegral(f) => f.is_color_renderable(c),
            TextureFormat::UncompressedUnsigned(f) => f.is_color_renderable(c),
            TextureFormat::Srgb(f) => f.is_color_renderable(c),
            TextureFormat::CompressedFormat(_) => false,
            TextureFormat::CompressedSrgbFormat(_) => false,
            TextureFormat::DepthFormat(_) => true,
            TextureFormat::StencilFormat(_) => true,
            TextureFormat::DepthStencilFormat(_) => true,
        }
    }

    /// The OpenGL enumerant of this format.
    pub open spec fn glenum(self) -> u32 {
        match self {
            TextureFormat::UncompressedFloat(f) => f.glenum(),
            TextureFormat::UncompressedIntegral(f) => f.glenum(),
            TextureFormat::UncompressedUnsigned(f) => f.glenum(),
            TextureFormat::Srgb(f) => f.glenum(),
            TextureFormat::CompressedFormat(f) => f.glenum(),
            TextureFormat::CompressedSrgbFormat(f) => f.glenum(),
            TextureFormat::DepthFormat(f) => f.glenum(),
            TextureFormat::StencilFormat(f) => f.glenum(),
            TextureFormat::DepthStencilFormat(f) => f.glenum(),
        }
    }

    /// Returns the OpenGL enumerant of this format.
    pub fn to_glenum(&self) -> (r: u32)
        ensures
            r == self.glenum(),
    {
        match self {
            TextureFormat::UncompressedFloat(f) => f.to_glenum(),
            TextureFormat::UncompressedIntegral(f) => f.to_glenum(),
            TextureFormat::UncompressedUnsigned(f) => f.to_glenum(),
            TextureFormat::Srgb(f) => f.to_glenum(),
            TextureFormat::CompressedFormat(f) => f.to_glenum(),
            TextureFormat::CompressedSrgbFormat(f) => f.to_glenum(),
            TextureFormat::DepthFormat(f) => f.to_glenum(),
            TextureFormat::StencilFormat(f) => f.to_glenum(),
            TextureFormat::DepthStencilFormat(f) => f.to_glenum(),
        }
    }
}

impl ClientFormat {
    /// The size in bytes of a pixel of this format.
    pub open spec fn size(self) -> usize {
        match self {
            ClientFormat::U8 => 1,
            ClientFormat::U8U8 => 2,
            ClientFormat::U8U8U8 => 3,
            ClientFormat::U8U8U8U8 => 4,
            ClientFormat::I8 => 1,
            ClientFormat::I8I8 => 2,
            ClientFormat::I8I8I8 => 3,
            ClientFormat::I8I8I8I8 => 4,
            ClientFormat::U16 => 2,
            ClientFormat::U16U16 => 4,
            ClientFormat::U16U16U16 => 6,
            ClientFormat::U16U16U16U16 => 8,
            ClientFormat::I16 => 2,
            ClientFormat::I16I16 => 4,
            ClientFormat::I16I16I16 => 6,
            ClientFormat::I16I16I16I16 => 8,
            ClientFormat::U32 => 4,
            ClientFormat::U32U32 => 8,
            ClientFormat::U32U32U32 => 12,
            ClientFormat::U32U32U32U32 => 16,
            ClientFormat::I32 => 4,
            ClientFormat::I32I32 => 8,
            ClientFormat::I32I32I32 => 12,
            ClientFormat::I32I32I32I32 => 16,
            ClientFormat::U3U3U2 => 1,
            ClientFormat::U5U6U5 => 2,
            ClientFormat::U4U4U4U4 => 2,
            ClientFormat::U5U5U5U1 => 2,
            ClientFormat::U10U10U10U2 => 4,
            ClientFormat::F16 => 2,
            ClientFormat::F16F16 => 4,
            ClientFormat::F16F16F16 => 6,
            ClientFormat::F16F16F16F16 => 8,
            ClientFormat::F32 => 4,
            ClientFormat::F32F32 => 8,
            ClientFormat::F32F32F32 => 12,
            ClientFormat::F32F32F32F32 => 16,
        }
    }

    /// Returns the size in bytes of a pixel of this type.
    pub fn get_size(&self) -> (r: usize)
        ensures
            r == self.size(),
    {
        match self {
            ClientFormat::U8 => 1,
            ClientFormat::U8U8 => 2,
            ClientFormat::U8U8U8 => 3,
            ClientFormat::U8U8U8U8 => 4,
            ClientFormat::I8 => 1,
            ClientFormat::I8I8 => 2,
            ClientFormat::I8I8I8 => 3,
            ClientFormat::I8I8I8I8 => 4,
            ClientFormat::U16 => 2,
            ClientFormat::U16U16 => 4,
            ClientFormat::U16U16U16 => 6,
            ClientFormat::U16U16U16U16 => 8,
            ClientFormat::I16 => 2,
            ClientFormat::I16I16 => 4,
            ClientFormat::I16I16I16 => 6,
            ClientFormat::I16I16I16I16 => 8,
            ClientFormat::U32 => 4,
            ClientFormat::U32U32 => 8,
            ClientFormat::U32U32U32 => 12,
            ClientFormat::U32U32U32U32 => 16,
            ClientFormat::I32 => 4,
            ClientFormat::I32I32 => 8,
            ClientFormat::I32I32I32 => 12,
            ClientFormat::I32I32I32I32 => 16,
            ClientFormat::U3U3U2 => 1,
            ClientFormat::U5U6U5 => 2,
            ClientFormat::U4U4U4U4 => 2,
            ClientFormat::U5U5U5U1 => 2,
            ClientFormat::U10U10U10U2 => 4,
            ClientFormat::F16 => 2,
            ClientFormat::F16F16 => 4,
            ClientFormat::F16F16F16 => 6,
            ClientFormat::F16F16F16F16 => 8,
            ClientFormat::F32 => 4,
            ClientFormat::F32F32 => 8,
            ClientFormat::F32F32F32 => 12,
            ClientFormat::F32F32F32F32 => 16,
        }
    }

    /// The number of components of this format.
    pub open spec fn num_components(self) -> u8 {
        match self {
            ClientFormat::U8 => 1,
            ClientFormat::U8U8 => 2,
            ClientFormat::U8U8U8 => 3,
            ClientFormat::U8U8U8U8 => 4,
            ClientFormat::I8 => 1,
            ClientFormat::I8I8 => 2,
            ClientFormat::I8I8I8 => 3,
            ClientFormat::I8I8I8I8 => 4,
            ClientFormat::U16 => 1,
            ClientFormat::U16U16 => 2,
            ClientFormat::U16U16U16 => 3,
            ClientFormat::U16U16U16U16 => 4,
            ClientFormat::I16 => 1,
            ClientFormat::I16I16 => 2,
            ClientFormat::I16I16I16 => 3,
            ClientFormat::I16I16I16I16 => 4,
            ClientFormat::U32 => 1,
            ClientFormat::U32U32 => 2,
            ClientFormat::U32U32U32 => 3,
            ClientFormat::U32U32U32U32 => 4,
            ClientFormat::I32 => 1,
            ClientFormat::I32I32 => 2,
            ClientFormat::I32I32I32 => 3,
            ClientFormat::I32I32I32I32 => 4,
            ClientFormat::U3U3U2 => 3,
            ClientFormat::U5U6U5 => 3,
            ClientFormat::U4U4U4U4 => 4,
            ClientFormat::U5U5U5U1 => 4,
            ClientFormat::U10U10U10U2 => 4,
            ClientFormat::F16 => 1,
            ClientFormat::F16F16 => 2,
            ClientFormat::F16F16F16 => 3,
            ClientFormat::F16F16F16F16 => 4,
            ClientFormat::F32 => 1,
            ClientFormat::F32F32 => 2,
            ClientFormat::F32F32F32 => 3,
            ClientFormat::F32F32F32F32 => 4,
        }
    }

    /// Returns the number of components of this client format.
    pub fn get_num_components(&self) -> (r: u8)
        ensures
            r == self.num_components(),
    {
        match self {
            ClientFormat::U8 => 1,
            ClientFormat::U8U8 => 2,
            ClientFormat::U8U8U8 => 3,
            ClientFormat::U8U8U8U8 => 4,
            ClientFormat::I8 => 1,
            ClientFormat::I8I8 => 2,
            ClientFormat::I8I8I8 => 3,
            ClientFormat::I8I8I8I8 => 4,
            ClientFormat::U16 => 1,
            ClientFormat::U16U16 => 2,
            ClientFormat::U16U16U16 => 3,
            ClientFormat::U16U16U16U16 => 4,
            ClientFormat::I16 => 1,
            ClientFormat::I16I16 => 2,
            ClientFormat::I16I16I16 => 3,
            ClientFormat::I16I16I16I16 => 4,
            ClientFormat::U32 => 1,
            ClientFormat::U32U32 => 2,
            ClientFormat::U32U32U32 => 3,
            ClientFormat::U32U32U32U32 => 4,
            ClientFormat::I32 => 1,
            ClientFormat::I32I32 => 2,
            ClientFormat::I32I32I32 => 3,
            ClientFormat::I32I32I32I32 => 4,
            ClientFormat::U3U3U2 => 3,
            ClientFormat::U5U6U5 => 3,
            ClientFormat::U4U4U4U4 => 4,
            ClientFormat::U5U5U5U1 => 4,
            ClientFormat::U10U10U10U2 => 4,
            ClientFormat::F16 => 1,
            ClientFormat::F16F16 => 2,
            ClientFormat::F16F16F16 => 3,
            ClientFormat::F16F16F16F16 => 4,
            ClientFormat::F32 => 1,
            ClientFormat::F32F32 => 2,
            ClientFormat::F32F32F32 => 3,
            ClientFormat::F32F32F32F32 => 4,
        }
    }

    /// The OpenGL type of the data of one pixel of this format.
    pub open spec fn pixel_type(self) -> u32 {
        match self {
            ClientFormat::U8 => gl::UNSIGNED_BYTE,
            ClientFormat::U8U8 => gl::UNSIGNED_BYTE,
            ClientFormat::U8U8U8 => gl::UNSIGNED_BYTE,
            ClientFormat::U8U8U8U8 => gl::UNSIGNED_BYTE,
            ClientFormat::I8 => gl::BYTE,
            ClientFormat::I8I8 => gl::BYTE,
            ClientFormat::I8I8I8 => gl::BYTE,
            ClientFormat::I8I8I8I8 => gl::BYTE,
            ClientFormat::U16 => gl::UNSIGNED_SHORT,
            ClientFormat::U16U16 => gl::UNSIGNED_SHORT,
            ClientFormat::U16U16U16 => gl::UNSIGNED_SHORT,
            ClientFormat::U16U16U16U16 => gl::UNSIGNED_SHORT,
            ClientFormat::I16 => gl::SHORT,
            ClientFormat::I16I16 => gl::SHORT,
            ClientFormat::I16I16I16 => gl::SHORT,
            ClientFormat::I16I16I16I16 => gl::SHORT,
            ClientFormat::U32 => gl::UNSIGNED_INT,
            ClientFormat::U32U32 => gl::UNSIGNED_INT,
            ClientFormat::U32U32U32 => gl::UNSIGNED_INT,
            ClientFormat::U32U32U32U32 => gl::UNSIGNED_INT,
            ClientFormat::I32 => gl::INT,
            ClientFormat::I32I32 => gl::INT,
            ClientFormat::I32I32I32 => gl::INT,
            ClientFormat::I32I32I32I32 => gl::INT,
            ClientFormat::U3U3U2 => gl::UNSIGNED_BYTE_3_3_2,
            ClientFormat::U5U6U5 => gl::UNSIGNED_SHORT_5_6_5,
            ClientFormat::U4U4U4U4 => gl::UNSIGNED_SHORT_4_4_4_4,
            ClientFormat::U5U5U5U1 => gl::UNSIGNED_SHORT_5_5_5_1,
            ClientFormat::U10U10U10U2 => gl::UNSIGNED_INT_10_10_10_2,
            ClientFormat::F16 => gl::HALF_FLOAT,
            ClientFormat::F16F16 => gl::HALF_FLOAT,
            ClientFormat::F16F16F16 => gl::HALF_FLOAT,
            ClientFormat::F16F16F16F16 => gl::HALF_FLOAT,
            ClientFormat::F32 => gl::FLOAT,
            ClientFormat::F32F32 => gl::FLOAT,
            ClientFormat::F32F32F32 => gl::FLOAT,
            ClientFormat::F32F32F32F32 => gl::FLOAT,
        }
    }

    /// Returns the OpenGL type of the data of one pixel of this format.
    pub fn to_pixel_type(&self) -> (r: u32)
        ensures
            r == self.pixel_type(),
    {
        match self {
            ClientFormat::U8 => gl::UNSIGNED_BYTE,
            ClientFormat::U8U8 => gl::UNSIGNED_BYTE,
            ClientFormat::U8U8U8 => gl::UNSIGNED_BYTE,
            ClientFormat::U8U8U8U8 => gl::UNSIGNED_BYTE,
            ClientFormat::I8 => gl::BYTE,
            ClientFormat::I8I8 => gl::BYTE,
            ClientFormat::I8I8I8 => gl::BYTE,
            ClientFormat::I8I8I8I8 => gl::BYTE,
            ClientFormat::U16 => gl::UNSIGNED_SHORT,
            ClientFormat::U16U16 => gl::UNSIGNED_SHORT,
            ClientFormat::U16U16U16 => gl::UNSIGNED_SHORT,
            ClientFormat::U16U16U16U16 => gl::UNSIGNED_SHORT,
            ClientFormat::I16 => gl::SHORT,
            ClientFormat::I16I16 => gl::SHORT,
            ClientFormat::I16I16I16 => gl::SHORT,
            ClientFormat::I16I16I16I16 => gl::SHORT,
            ClientFormat::U32 => gl::UNSIGNED_INT,
            ClientFormat::U32U32 => gl::UNSIGNED_INT,
            ClientFormat::U32U32U32 => gl::UNSIGNED_INT,
            ClientFormat::U32U32U32U32 => gl::UNSIGNED_INT,
            ClientFormat::I32 => gl::INT,
            ClientFormat::I32I32 => gl::INT,
            ClientFormat::I32I32I32 => gl::INT,
            ClientFormat::I32I32I32I32 => gl::INT,
            ClientFormat::U3U3U2 => gl::UNSIGNED_BYTE_3_3_2,
            ClientFormat::U5U6U5 => gl::UNSIGNED_SHORT_5_6_5,
            ClientFormat::U4U4U4U4 => gl::UNSIGNED_SHORT_4_4_4_4,
            ClientFormat::U5U5U5U1 => gl::UNSIGNED_SHORT_5_5_5_1,
            ClientFormat::U10U10U10U2 => gl::UNSIGNED_INT_10_10_10_2,
            ClientFormat::F16 => gl::HALF_FLOAT,
            ClientFormat::F16F16 => gl::HALF_FLOAT,
            ClientFormat::F16F16F16 => gl::HALF_FLOAT,
            ClientFormat::F16F16F16F16 => gl::HALF_FLOAT,
            ClientFormat::F32 => gl::FLOAT,
            ClientFormat::F32F32 => gl::FLOAT,
            ClientFormat::F32F32F32 => gl::FLOAT,
            ClientFormat::F32F32F32F32 => gl::FLOAT,
        }
    }
}

impl ClientFormatAny {
    /// Whether this format is a compressed format.
    pub open spec fn compressed(self) -> bool {
        !(self is ClientFormat)
    }

    /// Checks if this format is a compressed format.
    pub fn is_compressed(&self) -> (r: bool)
        ensures
            r == self.compressed(),
    {
        match *self {
            ClientFormatAny::ClientFormat(_) => false,
            ClientFormatAny::CompressedFormat(_) => true,
            ClientFormatAny::CompressedSrgbFormat(_) => true,
        }
    }

    /// The number of components of an uncompressed client format.
    pub open spec fn num_components(self) -> u8
        recommends
            self is ClientFormat,
    {
        match self {
            ClientFormatAny::ClientFormat(f) => f.num_components(),
            _ => 0,
        }
    }

    /// Returns the number of components of this client format.
    ///
    /// Only uncompressed formats have a number of components.
    pub fn get_num_components(&self) -> (r: u8)
        requires
            self is ClientFormat,
        ensures
            r == self.num_components(),
            1 <= r <= 4,
    {
        match *self {
            ClientFormatAny::ClientFormat(format) => format.get_num_components(),
            _ => 0,
        }
    }

    /// Whether the format is compressed in blocks of 8 bytes per 4x4 pixels (the others that
    /// are compressed use 16 bytes per block).
    pub open spec fn eight_bytes_per_block(self) -> bool {
        match self {
            ClientFormatAny::CompressedFormat(CompressedFormat::S3tcDxt1Alpha)
            | ClientFormatAny::CompressedSrgbFormat(CompressedSrgbFormat::S3tcDxt1Alpha)
            | ClientFormatAny::CompressedFormat(CompressedFormat::S3tcDxt1NoAlpha)
            | ClientFormatAny::CompressedSrgbFormat(CompressedSrgbFormat::S3tcDxt1NoAlpha)
            | ClientFormatAny::CompressedFormat(CompressedFormat::RgtcFormatU)
            | ClientFormatAny::CompressedFormat(CompressedFormat::RgtcFormatI) => true,
            _ => false,
        }
    }

    /// Whether `get_buffer_size` accepts these dimensions: compressed images are two-dimensional
    /// (possibly arrays) with sides that, once raised to 4, are multiples of 4, and no
    /// intermediate product of the computation exceeds `usize::MAX`.
    pub open spec fn buffer_size_valid(
        self,
        width: u32,
        height: Option<u32>,
        depth: Option<u32>,
        array_size: Option<u32>,
    ) -> bool {
        let a = opt_or_one(array_size);
        match self {
            ClientFormatAny::ClientFormat(f) => {
                let h = opt_or_one(height);
                let d = opt_or_one(depth);
                &&& f.size() * width <= usize::MAX
                &&& f.size() * width * h <= usize::MAX
                &&& f.size() * width * h * d <= usize::MAX
                &&& f.size() * width * h * d * a <= usize::MAX
            },
            _ => {
                &&& height is Some
                &&& depth is None
                &&& at_least_four(width) % 4 == 0
                &&& at_least_four(height.unwrap()) % 4 == 0
                &&& 4 * at_least_four(width) <= usize::MAX
                &&& 4 * at_least_four(width) * at_least_four(height.unwrap()) <= usize::MAX
                &&& 4 * at_least_four(width) * at_least_four(height.unwrap()) * a <= usize::MAX
            },
        }
    }

    /// The size in bytes of an image of the given dimensions in this format.
    pub open spec fn buffer_size(
        self,
        width: u32,
        height: Option<u32>,
        depth: Option<u32>,
        array_size: Option<u32>,
    ) -> int {
        let a = opt_or_one(array_size);
        match self {
            ClientFormatAny::ClientFormat(f) => f.size() * width * opt_or_one(height) * opt_or_one(
                depth,
            ) * a,
            _ => {
                let bits = 4 * at_least_four(width) * at_least_four(height.unwrap()) * a;
                if self.eight_bytes_per_block() {
                    bits / 8
                } else {
                    bits / 4
                }
            },
        }
    }

    /// Gets the size in bytes of the buffer required to store an image of the specified
    /// dimensions in this format.
    pub fn get_buffer_size(
        &self,
        width: u32,
        height: Option<u32>,
        depth: Option<u32>,
        array_size: Option<u32>,
    ) -> (r: usize)
        requires
            self.buffer_size_valid(width, height, depth, array_size),
        ensures
            r == self.buffer_size(width, height, depth, array_size),
    {
        let a: usize = match array_size {
            Some(a) => a as usize,
            None => 1,
        };
        match *self {
            ClientFormatAny::ClientFormat(format) => {
                let h: usize = match height {
                    Some(h) => h as usize,
                    None => 1,
                };
                let d: usize = match depth {
                    Some(d) => d as usize,
                    None => 1,
                };
                let s = format.get_size();
                let sw = s * (width as usize);
                let swh = sw * h;
                let swhd = swh * d;
                swhd * a
            },
            _ => {
                let w: usize = if width < 4 {
                    4
                } else {
                    width as usize
                };
                let h: usize = match height {
                    Some(h) => if h < 4 {
                        4
                    } else {
                        h as usize
                    },
                    None => 4,
                };
                let w4 = 4 * w;
                let w4h = w4 * h;
                let bits = w4h * a;
                if self.is_eight_bytes_per_block() {
                    bits / 8
                } else {
                    bits / 4
                }
            },
        }
    }

    /// Whether the format is compressed in blocks of 8 bytes per 4x4 pixels.
    fn is_eight_bytes_per_block(&self) -> (r: bool)
        ensures
            r == self.eight_bytes_per_block(),
    {
        match *self {
            ClientFormatAny::CompressedFormat(CompressedFormat::S3tcDxt1Alpha)
            | ClientFormatAny::CompressedSrgbFormat(CompressedSrgbFormat::S3tcDxt1Alpha)
            | ClientFormatAny::CompressedFormat(CompressedFormat::S3tcDxt1NoAlpha)
            | ClientFormatAny::CompressedSrgbFormat(CompressedSrgbFormat::S3tcDxt1NoAlpha)
            | ClientFormatAny::CompressedFormat(CompressedFormat::RgtcFormatU)
            | ClientFormatAny::CompressedFormat(CompressedFormat::RgtcFormatI) => true,
            _ => false,
        }
    }

    /// The compressed client format whose OpenGL internal format is `internal`, if any.
    pub open spec fn compressed_from_glenum(internal: u32) -> Option<ClientFormatAny> {
        if internal == gl::COMPRESSED_RGB_S3TC_DXT1_EXT {
            Some(ClientFormatAny::CompressedFormat(CompressedFormat::S3tcDxt1NoAlpha))
        } else if internal == gl::COMPRESSED_RGBA_S3TC_DXT1_EXT {
            Some(ClientFormatAny::CompressedFormat(CompressedFormat::S3tcDxt1Alpha))
        } else if internal == gl::COMPRESSED_RGBA_S3TC_DXT3_EXT {
            Some(ClientFormatAny::CompressedFormat(CompressedFormat::S3tcDxt3Alpha))
        } else if internal == gl::COMPRESSED_RGBA_S3TC_DXT5_EXT {
            Some(ClientFormatAny::CompressedFormat(CompressedFormat::S3tcDxt5Alpha))
        } else if internal == gl::COMPRESSED_SRGB_S3TC_DXT1_EXT {
            Some(ClientFormatAny::CompressedSrgbFormat(CompressedSrgbFormat::S3tcDxt1NoAlpha))
        } else if internal == gl::COMPRESSED_SRGB_ALPHA_S3TC_DXT1_EXT {
            Some(ClientFormatAny::CompressedSrgbFormat(CompressedSrgbFormat::S3tcDxt1Alpha))
        } else if internal == gl::COMPRESSED_SRGB_ALPHA_S3TC_DXT3_EXT {
            Some(ClientFormatAny::CompressedSrgbFormat(CompressedSrgbFormat::S3tcDxt3Alpha))
        } else if internal == gl::COMPRESSED_SRGB_ALPHA_S3TC_DXT5_EXT {
            Some(ClientFormatAny::CompressedSrgbFormat(CompressedSrgbFormat::S3tcDxt5Alpha))
        } else if internal == gl::COMPRESSED_RGBA_BPTC_UNORM {
            Some(ClientFormatAny::CompressedFormat(CompressedFormat::BptcUnorm4))
        } else if internal == gl::COMPRESSED_SRGB_ALPHA_BPTC_UNORM {
            Some(ClientFormatAny::CompressedSrgbFormat(CompressedSrgbFormat::Bptc))
        } else if internal == gl::COMPRESSED_RGB_BPTC_SIGNED_FLOAT {
            Some(ClientFormatAny::CompressedFormat(CompressedFormat::BptcSignedFloat3))
        } else if internal == gl::COMPRESSED_RGB_BPTC_UNSIGNED_FLOAT {
            Some(ClientFormatAny::CompressedFormat(CompressedFormat::BptcUnsignedFloat3))
        } else if internal == gl::COMPRESSED_RED_RGTC1 {
            Some(ClientFormatAny::CompressedFormat(CompressedFormat::RgtcFormatU))
        } else if internal == gl::COMPRESSED_SIGNED_RED_RGTC1 {
            Some(ClientFormatAny::CompressedFormat(CompressedFormat::RgtcFormatI))
        } else if internal == gl::COMPRESSED_RG_RGTC2 {
            Some(ClientFormatAny::CompressedFormat(CompressedFormat::RgtcFormatUU))
        } else if internal == gl::COMPRESSED_SIGNED_RG_RGTC2 {
            Some(ClientFormatAny::CompressedFormat(CompressedFormat::RgtcFormatII))
        } else {
            None
        }
    }

    /// Returns the compressed client format whose OpenGL internal format is `internal`, or
    /// `None` if `internal` is not the enumerant of a compressed format.
    pub fn from_internal_compressed_format(internal: u32) -> (r: Option<ClientFormatAny>)
        ensures
            r == Self::compressed_from_glenum(internal),
    {
        if internal == gl::COMPRESSED_RGB_S3TC_DXT1_EXT {
            Some(ClientFormatAny::CompressedFormat(CompressedFormat::S3tcDxt1NoAlpha))
        } else if internal == gl::COMPRESSED_RGBA_S3TC_DXT1_EXT {
            Some(ClientFormatAny::CompressedFormat(CompressedFormat::S3tcDxt1Alpha))
        } else if internal == gl::COMPRESSED_RGBA_S3TC_DXT3_EXT {
            Some(ClientFormatAny::CompressedFormat(CompressedFormat::S3tcDxt3Alpha))
        } else if internal == gl::COMPRESSED_RGBA_S3TC_DXT5_EXT {
            Some(ClientFormatAny::CompressedFormat(CompressedFormat::S3tcDxt5Alpha))
        } else if internal == gl::COMPRESSED_SRGB_S3TC_DXT1_EXT {
            Some(ClientFormatAny::CompressedSrgbFormat(CompressedSrgbFormat::S3tcDxt1NoAlpha))
        } else if internal == gl::COMPRESSED_SRGB_ALPHA_S3TC_DXT1_EXT {
            Some(ClientFormatAny::CompressedSrgbFormat(CompressedSrgbFormat::S3tcDxt1Alpha))
        } else if internal == gl::COMPRESSED_SRGB_ALPHA_S3TC_DXT3_EXT {
            Some(ClientFormatAny::CompressedSrgbFormat(CompressedSrgbFormat::S3tcDxt3Alpha))
        } else if internal == gl::COMPRESSED_SRGB_ALPHA_S3TC_DXT5_EXT {
            Some(ClientFormatAny::CompressedSrgbFormat(CompressedSrgbFormat::S3tcDxt5Alpha))
        } else if internal == gl::COMPRESSED_RGBA_BPTC_UNORM {
            Some(ClientFormatAny::CompressedFormat(CompressedFormat::BptcUnorm4))
        } else if internal == gl::COMPRESSED_SRGB_ALPHA_BPTC_UNORM {
            Some(ClientFormatAny::CompressedSrgbFormat(CompressedSrgbFormat::Bptc))
        } else if internal == gl::COMPRESSED_RGB_BPTC_SIGNED_FLOAT {
            Some(ClientFormatAny::CompressedFormat(CompressedFormat::BptcSignedFloat3))
        } else if internal == gl::COMPRESSED_RGB_BPTC_UNSIGNED_FLOAT {
            Some(ClientFormatAny::CompressedFormat(CompressedFormat::BptcUnsignedFloat3))
        } else if internal == gl::COMPRESSED_RED_RGTC1 {
            Some(ClientFormatAny::CompressedFormat(CompressedFormat::RgtcFormatU))
        } else if internal == gl::COMPRESSED_SIGNED_RED_RGTC1 {
            Some(ClientFormatAny::CompressedFormat(CompressedFormat::RgtcFormatI))
        } else if internal == gl::COMPRESSED_RG_RGTC2 {
            Some(ClientFormatAny::CompressedFormat(CompressedFormat::RgtcFormatUU))
        } else if internal == gl::COMPRESSED_SIGNED_RG_RGTC2 {
            Some(ClientFormatAny::CompressedFormat(CompressedFormat::RgtcFormatII))
        } else {
            None
        }
    }
}

/// `value.unwrap_or(1)`.
pub open spec fn opt_or_one(value: Option<u32>) -> int {
    match value {
        Some(v) => v as int,
        None => 1,
    }
}

/// A dimension of a compressed image, raised to at least 4.
pub open spec fn at_least_four(x: u32) -> int {
    if x < 4 {
        4
    } else {
        x as int
    }
}

/// Reading back the internal format of a compressed texture gives back its client format:
/// the enumerant of every compressed format maps back to that format, and the only
/// enumerants that map to a format are the enumerants of compressed formats.
pub proof fn lemma_compressed_glenum_roundtrip(f: CompressedFormat, g: CompressedSrgbFormat, x: u32)
    ensures
        ClientFormatAny::compressed_from_glenum(f.glenum()) == Some(
            ClientFormatAny::CompressedFormat(f),
        ),
        ClientFormatAny::compressed_from_glenum(g.glenum()) == Some(
            ClientFormatAny::CompressedSrgbFormat(g),
        ),
        ClientFormatAny::compressed_from_glenum(x) matches Some(c) ==> match c {
            ClientFormatAny::CompressedFormat(h) => h.glenum() == x,
            ClientFormatAny::CompressedSrgbFormat(h) => h.glenum() == x,
            ClientFormatAny::ClientFormat(_) => false,
        },
{
}

impl RequestType {
    /// Returns the client format of the data that will be put in the texture.
    pub fn get_client_format(&self) -> (r: Option<ClientFormatAny>)
        ensures
            r == match *self {
                RequestType::TexImage(f) => f,
                _ => None,
            },
    {
        match *self {
            RequestType::TexImage(f) => f,
            RequestType::TexStorage => None,
            RequestType::Renderbuffer => None,
        }
    }
}

/// The number of components of the client data of a request, if the request carries
/// uncompressed client data.
pub open spec fn request_components(rq_ty: RequestType) -> Option<u8> {
    match rq_ty {
        RequestType::TexImage(Some(c)) => Some(c.num_components()),
        _ => None,
    }
}

/// Whether a request carries compressed client data.
pub open spec fn request_client_compressed(rq_ty: RequestType) -> bool {
    match rq_ty {
        RequestType::TexImage(Some(c)) => c.compressed(),
        _ => false,
    }
}

/// Whether the backend has one of the code paths for "any floating-point" requests
/// (OpenGL 1.0 or later, or OpenGL ES 2.0 or later).
pub open spec fn has_float_formats(v: Version) -> bool {
    ver_ge(v, Api::Gl, 1, 0) || ver_ge(v, Api::GlEs, 2, 0)
}

/// Whether the backend supports uncompressed sRGB formats.
pub open spec fn has_srgb_formats(v: Version, e: ExtensionsList) -> bool {
    ver_ge(v, Api::Gl, 2, 1) || ver_ge(v, Api::GlEs, 3, 0) || e.gl_ext_texture_srgb
}

/// Whether the backend supports compressed sRGB formats.
pub open spec fn has_compressed_srgb_formats(v: Version, e: ExtensionsList) -> bool {
    ver_ge(v, Api::Gl, 4, 0) || e.gl_ext_texture_srgb
}

/// Whether `format_request_to_glenum` is defined for this request: a request for "any"
/// uncompressed format can't carry compressed client data, a request for any compressed
/// format with compressed client data must carry data of the matching kind, and the
/// floating-point fallback must exist on the backend.
pub open spec fn format_request_valid(
    v: Version,
    e: ExtensionsList,
    format: TextureFormatRequest,
    rq_ty: RequestType,
) -> bool {
    let cc = request_client_compressed(rq_ty);
    match format {
        TextureFormatRequest::AnyFloatingPoint => !cc && has_float_formats(v),
        TextureFormatRequest::AnySrgb => !cc && (has_srgb_formats(v, e) || has_float_formats(v)),
        TextureFormatRequest::AnyCompressed => !cc || rq_ty matches RequestType::TexImage(
            Some(ClientFormatAny::CompressedFormat(_)),
        ),
        TextureFormatRequest::AnyCompressedSrgb => if cc {
            rq_ty matches RequestType::TexImage(Some(ClientFormatAny::CompressedSrgbFormat(_)))
        } else {
            has_compressed_srgb_formats(v, e) || has_srgb_formats(v, e) || has_float_formats(v)
        },
        TextureFormatRequest::AnyIntegral | TextureFormatRequest::AnyUnsigned => !cc,
        _ => true,
    }
}

/// Unsized internal format with `size` components.
pub open spec fn unsized_for(size: Option<u8>) -> u32 {
    match size {
        Some(1) => gl::RED,
        Some(2) => gl::RG,
        Some(3) => gl::RGB,
        _ => gl::RGBA,
    }
}

/// Result of a request for any floating-point format.
pub open spec fn any_float_result(v: Version, e: ExtensionsList, rq_ty: RequestType) -> Result<
    u32,
    FormatNotSupportedError,
> {
    let size = request_components(rq_ty);
    let tex_image = rq_ty is TexImage;
    if ver_ge(v, Api::Gl, 3, 0) || ver_ge(v, Api::GlEs, 3, 0) {
        Ok(
            if tex_image {
                unsized_for(size)
            } else {
                match size {
                    Some(1) => gl::R8,
                    Some(2) => gl::RG8,
                    Some(3) => gl::RGB8,
                    _ => gl::RGBA8,
                }
            },
        )
    } else if ver_ge(v, Api::Gl, 1, 1) {
        if tex_image {
            Ok(unsized_for(size))
        } else {
            match size {
                Some(1) => if e.gl_arb_texture_rg {
                    Ok(gl::R8)
                } else {
                    Err(FormatNotSupportedError)
                },
                Some(2) => if e.gl_arb_texture_rg {
                    Ok(gl::RG8)
                } else {
                    Err(FormatNotSupportedError)
                },
                Some(3) => Ok(gl::RGB8),
                _ => Ok(gl::RGBA8),
            }
        }
    } else if ver_ge(v, Api::Gl, 1, 0) {
        if tex_image {
            Ok(
                match size {
                    Some(n) => n as u32,
                    None => 4,
                },
            )
        } else {
            Err(FormatNotSupportedError)
        }
    } else {
        match size {
            Some(3) => if tex_image {
                Ok(gl::RGB)
            } else if e.gl_oes_rgb8_rgba8 {
                Ok(gl::RGB8_OES)
            } else if e.gl_arm_rgba8 {
                Ok(gl::RGBA8_OES)
            } else {
                Ok(gl::RGB565)
            },
            Some(4) | None => if tex_image {
                Ok(gl::RGBA)
            } else if e.gl_oes_rgb8_rgba8 || e.gl_arm_rgba8 {
                Ok(gl::RGBA8_OES)
            } else {
                Ok(gl::RGB5_A1)
            },
            _ => Err(FormatNotSupportedError),
        }
    }
}

/// Result of a request for a specific format.
pub open spec fn specific_result(
    v: Version,
    e: ExtensionsList,
    format: TextureFormat,
    rq_ty: RequestType,
) -> Result<u32, FormatNotSupportedError> {
    let supported = if rq_ty is Renderbuffer {
        format.supported_for_renderbuffers(v, e)
    } else {
        format.supported_for_textures(v, e)
    };
    if supported {
        Ok(format.glenum())
    } else {
        Err(FormatNotSupportedError)
    }
}

/// Result of a request for any compressed format with uncompressed client data.
pub open spec fn any_compressed_result(v: Version, e: ExtensionsList, rq_ty: RequestType) -> Result<
    u32,
    FormatNotSupportedError,
> {
    match rq_ty {
        RequestType::TexImage(_) => {
            let size = request_components(rq_ty);
            if ver_ge(v, Api::Gl, 1, 1) {
                let rg = ver_ge(v, Api::Gl, 3, 0) || e.gl_arb_texture_rg;
                Ok(
                    match size {
                        Some(1) => if rg {
                            gl::COMPRESSED_RED
                        } else {
                            1
                        },
                        Some(2) => if rg {
                            gl::COMPRESSED_RG
                        } else {
                            2
                        },
                        Some(3) => gl::COMPRESSED_RGB,
                        _ => gl::COMPRESSED_RGBA,
                    },
                )
            } else {
                Ok(
                    match size {
                        Some(n) => n as u32,
                        None => 4,
                    },
                )
            }
        },
        _ => Err(FormatNotSupportedError),
    }
}

/// Result of a request for any sRGB format.
pub open spec fn any_srgb_result(v: Version, e: ExtensionsList, rq_ty: RequestType) -> Result<
    u32,
    FormatNotSupportedError,
> {
    if has_srgb_formats(v, e) {
        Ok(
            match request_components(rq_ty) {
                Some(4) => gl::SRGB8_ALPHA8,
                Some(_) => gl::SRGB8,
                None => if rq_ty is TexImage {
                    gl::SRGB8
                } else {
                    gl::SRGB8_ALPHA8
                },
            },
        )
    } else {
        any_float_result(v, e, rq_ty)
    }
}

/// Result of a request for any compressed sRGB format with uncompressed client data.
pub open spec fn any_compressed_srgb_result(
    v: Version,
    e: ExtensionsList,
    rq_ty: RequestType,
) -> Result<u32, FormatNotSupportedError> {
    if has_compressed_srgb_formats(v, e) {
        match rq_ty {
            RequestType::TexImage(_) => Ok(
                match request_components(rq_ty) {
                    Some(4) | None => gl::COMPRESSED_SRGB_ALPHA,
                    Some(_) => gl::COMPRESSED_SRGB,
                },
            ),
            _ => Err(FormatNotSupportedError),
        }
    } else {
        any_srgb_result(v, e, rq_ty)
    }
}

/// Result of a request for any integral format (`signed`) or any unsigned format.
pub open spec fn any_integer_result(
    v: Version,
    e: ExtensionsList,
    rq_ty: RequestType,
    signed: bool,
) -> Result<u32, FormatNotSupportedError> {
    let size = request_components(rq_ty);
    if ver_ge(v, Api::Gl, 3, 0) {
        Ok(
            match size {
                Some(1) => if signed {
                    gl::R32I
                } else {
                    gl::R32UI
                },
                Some(2) => if signed {
                    gl::RG32I
                } else {
                    gl::RG32UI
                },
                Some(3) => if signed {
                    gl::RGB32I
                } else {
                    gl::RGB32UI
                },
                _ => if signed {
                    gl::RGBA32I
                } else {
                    gl::RGBA32UI
                },
            },
        )
    } else if !e.gl_ext_texture_integer {
        Err(FormatNotSupportedError)
    } else {
        match size {
            Some(1) => if !e.gl_arb_texture_rg {
                Err(FormatNotSupportedError)
            } else if signed {
                Ok(gl::R32I)
            } else {
                Ok(gl::R32UI)
            },
            Some(2) => if !e.gl_arb_texture_rg {
                Err(FormatNotSupportedError)
            } else if signed {
                Ok(gl::RG32I)
            } else {
                Ok(gl::RG32UI)
            },
            Some(3) => Ok(
                if signed {
                    gl::RGB32I_EXT
                } else {
                    gl::RGB32UI_EXT
                },
            ),
            _ => Ok(
                if signed {
                    gl::RGBA32I_EXT
                } else {
                    gl::RGBA32UI_EXT
                },
            ),
        }
    }
}

/// Result of a request for any depth format.
pub open spec fn any_depth_result(v: Version, e: ExtensionsList, rq_ty: RequestType) -> Result<
    u32,
    FormatNotSupportedError,
> {
    if ver_ge(v, Api::Gl, 2, 0) {
        Ok(
            if rq_ty is TexImage {
                gl::DEPTH_COMPONENT
            } else {
                gl::DEPTH_COMPONENT24
            },
        )
    } else if (ver_ge(v, Api::Gl, 1, 4) || e.gl_arb_depth_texture || e.gl_oes_depth_texture)
        && rq_ty is TexImage {
        Ok(gl::DEPTH_COMPONENT)
    } else {
        Err(FormatNotSupportedError)
    }
}

/// Result of a request for any depth-stencil format.
pub open spec fn any_depth_stencil_result(
    v: Version,
    e: ExtensionsList,
    rq_ty: RequestType,
) -> Result<u32, FormatNotSupportedError> {
    let tex_image = rq_ty is TexImage;
    if ver_ge(v, Api::Gl, 3, 0) {
        Ok(
            if tex_image {
                gl::DEPTH_STENCIL
            } else {
                gl::DEPTH24_STENCIL8
            },
        )
    } else if e.gl_ext_packed_depth_stencil {
        Ok(
            if tex_image {
                gl::DEPTH_STENCIL_EXT
            } else {
                gl::DEPTH24_STENCIL8_EXT
            },
        )
    } else if e.gl_oes_packed_depth_stencil {
        Ok(
            if tex_image {
                gl::DEPTH_STENCIL_OES
            } else {
                gl::DEPTH24_STENCIL8_OES
            },
        )
    } else {
        Err(FormatNotSupportedError)
    }
}

/// The OpenGL internal format chosen for a texture format request, or the error.
pub open spec fn format_request_result(
    v: Version,
    e: ExtensionsList,
    format: TextureFormatRequest,
    rq_ty: RequestType,
) -> Result<u32, FormatNotSupportedError> {
    match format {
        TextureFormatRequest::Specific(f) => specific_result(v, e, f, rq_ty),
        TextureFormatRequest::AnyFloatingPoint => any_float_result(v, e, rq_ty),
        TextureFormatRequest::AnyCompressed => match rq_ty {
            RequestType::TexImage(Some(ClientFormatAny::CompressedFormat(f))) => specific_result(
                v,
                e,
                TextureFormat::CompressedFormat(f),
                rq_ty,
            ),
            _ => any_compressed_result(v, e, rq_ty),
        },
        TextureFormatRequest::AnySrgb => any_srgb_result(v, e, rq_ty),
        TextureFormatRequest::AnyCompressedSrgb => match rq_ty {
            RequestType::TexImage(Some(ClientFormatAny::CompressedSrgbFormat(f))) => specific_result(
                v,
                e,
                TextureFormat::CompressedSrgbFormat(f),
                rq_ty,
            ),
            _ => any_compressed_srgb_result(v, e, rq_ty),
        },
        TextureFormatRequest::AnyIntegral => any_integer_result(v, e, rq_ty, true),
        TextureFormatRequest::AnyUnsigned => any_integer_result(v, e, rq_ty, false),
        TextureFormatRequest::AnyDepth => any_depth_result(v, e, rq_ty),
        TextureFormatRequest::AnyStencil => specific_result(
            v,
            e,
            TextureFormat::StencilFormat(StencilFormat::I8),
            rq_ty,
        ),
        TextureFormatRequest::AnyDepthStencil => any_depth_stencil_result(v, e, rq_ty),
    }
}

/// The number of components of the uncompressed client data of a request.
fn request_components_exec(rq_ty: RequestType) -> (r: Option<u8>)
    requires
        !request_client_compressed(rq_ty),
    ensures
        r == request_components(rq_ty),
{
    match rq_ty.get_client_format() {
        Some(c) => Some(c.get_num_components()),
        None => None,
    }
}

/// Request for any floating-point format.
fn any_float_exec(v: &Version, e: &ExtensionsList, rq_ty: RequestType) -> (r: Result<
    u32,
    FormatNotSupportedError,
>)
    requires
        !request_client_compressed(rq_ty),
        has_float_formats(*v),
    ensures
        r == any_float_result(*v, *e, rq_ty),
{
    let size = request_components_exec(rq_ty);
    let tex_image = match rq_ty {
        RequestType::TexImage(_) => true,
        _ => false,
    };
    if version_ge(v, Api::Gl, 3, 0) || version_ge(v, Api::GlEs, 3, 0) {
        if tex_image {
            Ok(unsized_exec(size))
        } else {
            Ok(
                match size {
                    Some(1) => gl::R8,
                    Some(2) => gl::RG8,
                    Some(3) => gl::RGB8,
                    _ => gl::RGBA8,
                },
            )
        }
    } else if version_ge(v, Api::Gl, 1, 1) {
        if tex_image {
            Ok(unsized_exec(size))
        } else {
            match size {
                Some(1) => if e.gl_arb_texture_rg {
                    Ok(gl::R8)
                } else {
                    Err(FormatNotSupportedError)
                },
                Some(2) => if e.gl_arb_texture_rg {
                    Ok(gl::RG8)
                } else {
                    Err(FormatNotSupportedError)
                },
                Some(3) => Ok(gl::RGB8),
                _ => Ok(gl::RGBA8),
            }
        }
    } else if version_ge(v, Api::Gl, 1, 0) {
        if tex_image {
            Ok(
                match size {
                    Some(n) => n as u32,
                    None => 4,
                },
            )
        } else {
            Err(FormatNotSupportedError)
        }
    } else {
        match size {
            Some(3) => if tex_image {
                Ok(gl::RGB)
            } else if e.gl_oes_rgb8_rgba8 {
                Ok(gl::RGB8_OES)
            } else if e.gl_arm_rgba8 {
                Ok(gl::RGBA8_OES)
            } else {
                Ok(gl::RGB565)
            },
            Some(4) | None => if tex_image {
                Ok(gl::RGBA)
            } else if e.gl_oes_rgb8_rgba8 || e.gl_arm_rgba8 {
                Ok(gl::RGBA8_OES)
            } else {
                Ok(gl::RGB5_A1)
            },
            _ => Err(FormatNotSupportedError),
        }
    }
}

/// Unsized internal format with `size` components.
fn unsized_exec(size: Option<u8>) -> (r: u32)
    ensures
        r == unsized_for(size),
{
    match size {
        Some(1) => gl::RED,
        Some(2) => gl::RG,
        Some(3) => gl::RGB,
        _ => gl::RGBA,
    }
}

/// Request for a specific format.
fn specific_exec<C: CapabilitiesSource>(context: &C, format: TextureFormat, rq_ty: RequestType) -> (r:
    Result<u32, FormatNotSupportedError>)
    ensures
        r == specific_result(context.version_view(), context.extensions_view(), format, rq_ty),
{
    let supported = match rq_ty {
        RequestType::Renderbuffer => format.is_supported_for_renderbuffers(context),
        _ => format.is_supported_for_textures(context),
    };
    if supported {
        Ok(format.to_glenum())
    } else {
        Err(FormatNotSupportedError)
    }
}

/// Request for any sRGB format.
fn any_srgb_exec(v: &Version, e: &ExtensionsList, rq_ty: RequestType) -> (r: Result<
    u32,
    FormatNotSupportedError,
>)
    requires
        !request_client_compressed(rq_ty),
        has_srgb_formats(*v, *e) || has_float_formats(*v),
    ensures
        r == any_srgb_result(*v, *e, rq_ty),
{
    let size = request_components_exec(rq_ty);
    if version_ge(v, Api::Gl, 2, 1) || version_ge(v, Api::GlEs, 3, 0) || e.gl_ext_texture_srgb {
        Ok(
            match size {
                Some(4) => gl::SRGB8_ALPHA8,
                Some(_) => gl::SRGB8,
                None => match rq_ty {
                    RequestType::TexImage(_) => gl::SRGB8,
                    _ => gl::SRGB8_ALPHA8,
                },
            },
        )
    } else {
        any_float_exec(v, e, rq_ty)
    }
}

/// Request for any integral or unsigned format.
fn any_integer_exec(v: &Version, e: &ExtensionsList, rq_ty: RequestType, signed: bool) -> (r:
    Result<u32, FormatNotSupportedError>)
    requires
        !request_client_compressed(rq_ty),
    ensures
        r == any_integer_result(*v, *e, rq_ty, signed),
{
    let size = request_components_exec(rq_ty);
    if version_ge(v, Api::Gl, 3, 0) {
        Ok(
            match size {
                Some(1) => if signed {
                    gl::R32I
                } else {
                    gl::R32UI
                },
                Some(2) => if signed {
                    gl::RG32I
                } else {
                    gl::RG32UI
                },
                Some(3) => if signed {
                    gl::RGB32I
                } else {
                    gl::RGB32UI
                },
                _ => if signed {
                    gl::RGBA32I
                } else {
                    gl::RGBA32UI
                },
            },
        )
    } else if !e.gl_ext_texture_integer {
        Err(FormatNotSupportedError)
    } else {
        match size {
            Some(1) => if !e.gl_arb_texture_rg {
                Err(FormatNotSupportedError)
            } else if signed {
                Ok(gl::R32I)
            } else {
                Ok(gl::R32UI)
            },
            Some(2) => if !e.gl_arb_texture_rg {
                Err(FormatNotSupportedError)
            } else if signed {
                Ok(gl::RG32I)
            } else {
                Ok(gl::RG32UI)
            },
            Some(3) => Ok(
                if signed {
                    gl::RGB32I_EXT
                } else {
                    gl::RGB32UI_EXT
                },
            ),
            _ => Ok(
                if signed {
                    gl::RGBA32I_EXT
                } else {
                    gl::RGBA32UI_EXT
                },
            ),
        }
    }
}

/// Checks that the texture format is supported and compatible with the client format, and
/// returns the OpenGL internal format to use.
///
/// The result can be unsized when the request is for `glTexImage#D`; it is always sized for
/// `glTexStorage*D` and `glRenderbufferStorage`.
pub fn format_request_to_glenum<C: CapabilitiesSource>(
    context: &C,
    format: TextureFormatRequest,
    rq_ty: RequestType,
) -> (r: Result<u32, FormatNotSupportedError>)
    requires
        format_request_valid(context.version_view(), context.extensions_view(), format, rq_ty),
    ensures
        r == format_request_result(context.version_view(), context.extensions_view(), format, rq_ty),
{
    let v = context.get_version();
    let e = context.get_extensions();
    let is_client_compressed = match rq_ty.get_client_format() {
        Some(client) => client.is_compressed(),
        None => false,
    };
    let tex_image = match rq_ty {
        RequestType::TexImage(_) => true,
        _ => false,
    };
    match format {
        TextureFormatRequest::Specific(f) => specific_exec(context, f, rq_ty),
        TextureFormatRequest::AnyFloatingPoint => any_float_exec(v, e, rq_ty),
        TextureFormatRequest::AnyCompressed => {
            if is_client_compressed {
                match rq_ty {
                    RequestType::TexImage(Some(ClientFormatAny::CompressedFormat(f))) => specific_exec(
                        context,
                        TextureFormat::CompressedFormat(f),
                        rq_ty,
                    ),
                    _ => Err(FormatNotSupportedError),
                }
            } else if tex_image {
                let size = request_components_exec(rq_ty);
                if version_ge(v, Api::Gl, 1, 1) {
                    let rg = version_ge(v, Api::Gl, 3, 0) || e.gl_arb_texture_rg;
                    Ok(
                        match size {
                            Some(1) => if rg {
                                gl::COMPRESSED_RED
                            } else {
                                1
                            },
                            Some(2) => if rg {
                                gl::COMPRESSED_RG
                            } else {
                                2
                            },
                            Some(3) => gl::COMPRESSED_RGB,
                            _ => gl::COMPRESSED_RGBA,
                        },
                    )
                } else {
                    Ok(
                        match size {
                            Some(n) => n as u32,
                            None => 4,
                        },
                    )
                }
            } else {
                Err(FormatNotSupportedError)
            }
        },
        TextureFormatRequest::AnySrgb => any_srgb_exec(v, e, rq_ty),
        TextureFormatRequest::AnyCompressedSrgb => {
            if is_client_compressed {
                match rq_ty {
                    RequestType::TexImage(
                        Some(ClientFormatAny::CompressedSrgbFormat(f)),
                    ) => specific_exec(context, TextureFormat::CompressedSrgbFormat(f), rq_ty),
                    _ => Err(FormatNotSupportedError),
                }
            } else if version_ge(v, Api::Gl, 4, 0) || e.gl_ext_texture_srgb {
                if tex_image {
                    let size = request_components_exec(rq_ty);
                    Ok(
                        match size {
                            Some(4) | None => gl::COMPRESSED_SRGB_ALPHA,
                            Some(_) => gl::COMPRESSED_SRGB,
                        },
                    )
                } else {
                    Err(FormatNotSupportedError)
                }
            } else {
                any_srgb_exec(v, e, rq_ty)
            }
        },
        TextureFormatRequest::AnyIntegral => any_integer_exec(v, e, rq_ty, true),
        TextureFormatRequest::AnyUnsigned => any_integer_exec(v, e, rq_ty, false),
        TextureFormatRequest::AnyDepth => {
            if version_ge(v, Api::Gl, 2, 0) {
                Ok(
                    if tex_image {
                        gl::DEPTH_COMPONENT
                    } else {
                        gl::DEPTH_COMPONENT24
                    },
                )
            } else if (version_ge(v, Api::Gl, 1, 4) || e.gl_arb_depth_texture
                || e.gl_oes_depth_texture) && tex_image {
                Ok(gl::DEPTH_COMPONENT)
            } else {
                Err(FormatNotSupportedError)
            }
        },
        TextureFormatRequest::AnyStencil => specific_exec(
            context,
            TextureFormat::StencilFormat(StencilFormat::I8),
            rq_ty,
        ),
        TextureFormatRequest::AnyDepthStencil => {
            if version_ge(v, Api::Gl, 3, 0) {
                Ok(
                    if tex_image {
                        gl::DEPTH_STENCIL
                    } else {
                        gl::DEPTH24_STENCIL8
                    },
                )
            } else if e.gl_ext_packed_depth_stencil {
                Ok(
                    if tex_image {
                        gl::DEPTH_STENCIL_EXT
                    } else {
                        gl::DEPTH24_STENCIL8_EXT
                    },
                )
            } else if e.gl_oes_packed_depth_stencil {
                Ok(
                    if tex_image {
                        gl::DEPTH_STENCIL_OES
                    } else {
                        gl::DEPTH24_STENCIL8_OES
                    },
                )
            } else {
                Err(FormatNotSupportedError)
            }
        },
    }
}

/// Kinds of texture requests, as far as the upload of client data is concerned.
pub open spec fn is_float_like_request(format: TextureFormatRequest) -> bool {
    match format {
        TextureFormatRequest::AnyFloatingPoint | TextureFormatRequest::AnyCompressed
        | TextureFormatRequest::AnySrgb | TextureFormatRequest::AnyCompressedSrgb => true,
        TextureFormatRequest::Specific(f) => f is UncompressedFloat || f is Srgb
            || f is CompressedFormat || f is CompressedSrgbFormat,
        _ => false,
    }
}

/// Requests of integral or unsigned formats.
pub open spec fn is_integer_request(format: TextureFormatRequest) -> bool {
    match format {
        TextureFormatRequest::AnyIntegral | TextureFormatRequest::AnyUnsigned => true,
        TextureFormatRequest::Specific(f) => f is UncompressedIntegral || f is UncompressedUnsigned,
        _ => false,
    }
}

/// Requests of depth formats.
pub open spec fn is_depth_request(format: TextureFormatRequest) -> bool {
    format is AnyDepth || (format matches TextureFormatRequest::Specific(f) && f is DepthFormat)
}

/// Requests of stencil formats.
pub open spec fn is_stencil_request(format: TextureFormatRequest) -> bool {
    format is AnyStencil || (format matches TextureFormatRequest::Specific(f) && f is StencilFormat)
}

/// Requests of compressed formats, served directly when the client data is compressed too.
pub open spec fn is_compressed_upload(client: ClientFormatAny, format: TextureFormatRequest) -> bool {
    client.compressed() && match format {
        TextureFormatRequest::AnyCompressed | TextureFormatRequest::AnyCompressedSrgb => true,
        TextureFormatRequest::Specific(f) => f is CompressedFormat || f is CompressedSrgbFormat,
        _ => false,
    }
}

/// Single-channel client formats, the only ones that can be uploaded to a stencil texture.
pub open spec fn is_single_channel(c: ClientFormat) -> bool {
    c.num_components() == 1 && !(c is U3U3U2)
}

/// Client data and texture request for which `client_format_to_glenum` is defined: compressed
/// data goes with a compressed request of its own kind, depth textures take `F32` data, stencil
/// textures single-channel data, and no data can be uploaded to a depth-stencil texture.
pub open spec fn client_upload_valid(client: ClientFormatAny, format: TextureFormatRequest) -> bool {
    if is_compressed_upload(client, format) {
        match format {
            TextureFormatRequest::AnyCompressed => client is CompressedFormat,
            TextureFormatRequest::AnyCompressedSrgb => client is CompressedSrgbFormat,
            _ => true,
        }
    } else if is_float_like_request(format) || is_integer_request(format) {
        client is ClientFormat
    } else if is_depth_request(format) {
        client == ClientFormatAny::ClientFormat(ClientFormat::F32)
    } else if is_stencil_request(format) {
        client matches ClientFormatAny::ClientFormat(c) && is_single_channel(c)
    } else {
        false
    }
}

/// The pixel-format enumerant for uncompressed data with `n` components.
pub open spec fn channels_glenum(n: u8, integer: bool) -> u32 {
    if integer {
        match n {
            1 => gl::RED_INTEGER,
            2 => gl::RG_INTEGER,
            3 => gl::RGB_INTEGER,
            _ => gl::RGBA_INTEGER,
        }
    } else {
        match n {
            1 => gl::RED,
            2 => gl::RG,
            3 => gl::RGB,
            _ => gl::RGBA,
        }
    }
}

/// The pair of enumerants for compressed data: the internal format twice, if supported.
pub open spec fn compressed_upload_result(
    v: Version,
    e: ExtensionsList,
    client: ClientFormatAny,
    format: TextureFormatRequest,
) -> Result<(u32, u32), FormatNotSupportedError> {
    match format {
        TextureFormatRequest::Specific(TextureFormat::CompressedFormat(f)) => if f.supported(v, e) {
            Ok((f.glenum(), f.glenum()))
        } else {
            Err(FormatNotSupportedError)
        },
        TextureFormatRequest::Specific(TextureFormat::CompressedSrgbFormat(f)) => if f.supported(
            v,
            e,
        ) {
            Ok((f.glenum(), f.glenum()))
        } else {
            Err(FormatNotSupportedError)
        },
        _ => match client {
            ClientFormatAny::CompressedFormat(f) => if f.supported(v, e) {
                Ok((f.glenum(), f.glenum()))
            } else {
                Err(FormatNotSupportedError)
            },
            ClientFormatAny::CompressedSrgbFormat(f) => if f.supported(v, e) {
                Ok((f.glenum(), f.glenum()))
            } else {
                Err(FormatNotSupportedError)
            },
            ClientFormatAny::ClientFormat(_) => Err(FormatNotSupportedError),
        },
    }
}

/// The pair (pixel format, pixel type) for uploading `client` data to a texture requested as
/// `format`, before any inversion of the color components.
pub open spec fn client_upload_value(
    v: Version,
    e: ExtensionsList,
    client: ClientFormatAny,
    format: TextureFormatRequest,
) -> Result<(u32, u32), FormatNotSupportedError> {
    if is_compressed_upload(client, format) {
        compressed_upload_result(v, e, client, format)
    } else {
        match client {
            ClientFormatAny::ClientFormat(c) => if is_float_like_request(format) {
                Ok((channels_glenum(c.num_components(), false), c.pixel_type()))
            } else if is_integer_request(format) {
                Ok((channels_glenum(c.num_components(), true), c.pixel_type()))
            } else if is_depth_request(format) {
                Ok((gl::DEPTH_COMPONENT, gl::FLOAT))
            } else {
                Ok((gl::RED_INTEGER, c.pixel_type()))
            },
            _ => Err(FormatNotSupportedError),
        }
    }
}

/// The pair (pixel format, pixel type) of `client_format_to_glenum`: with `inverted`, `RGB`
/// becomes `BGR` and `RGBA` becomes `BGRA`, and any other pixel format is refused.
pub open spec fn client_format_result(
    v: Version,
    e: ExtensionsList,
    client: ClientFormatAny,
    format: TextureFormatRequest,
    inverted: bool,
) -> Result<(u32, u32), FormatNotSupportedError> {
    let value = client_upload_value(v, e, client, format);
    if inverted {
        match value {
            Ok((f, t)) => if f == gl::RGB {
                Ok((gl::BGR, t))
            } else if f == gl::RGBA {
                Ok((gl::BGRA, t))
            } else {
                Err(FormatNotSupportedError)
            },
            Err(x) => Err(x),
        }
    } else {
        value
    }
}

/// Executable form of `channels_glenum`.
fn channels_exec(n: u8, integer: bool) -> (r: u32)
    ensures
        r == channels_glenum(n, integer),
{
    if integer {
        match n {
            1 => gl::RED_INTEGER,
            2 => gl::RG_INTEGER,
            3 => gl::RGB_INTEGER,
            _ => gl::RGBA_INTEGER,
        }
    } else {
        match n {
            1 => gl::RED,
            2 => gl::RG,
            3 => gl::RGB,
            _ => gl::RGBA,
        }
    }
}

/// Checks that the client texture format is supported.
///
/// If `inverted` is true, returns a format where the R, G and B components are flipped.
///
/// Returns two GLenums suitable for `glTexImage#D` and `glTexSubImage#D`.
pub fn client_format_to_glenum<C: CapabilitiesSource>(
    context: &C,
    client: ClientFormatAny,
    format: TextureFormatRequest,
    inverted: bool,
) -> (r: Result<(u32, u32), FormatNotSupportedError>)
    requires
        client_upload_valid(client, format),
    ensures
        r == client_format_result(
            context.version_view(),
            context.extensions_view(),
            client,
            format,
            inverted,
        ),
{
    let compressed_request = match format {
        TextureFormatRequest::AnyCompressed | TextureFormatRequest::AnyCompressedSrgb => true,
        TextureFormatRequest::Specific(TextureFormat::CompressedFormat(_)) => true,
        TextureFormatRequest::Specific(TextureFormat::CompressedSrgbFormat(_)) => true,
        _ => false,
    };
    let value = if client.is_compressed() && compressed_request {
        match format {
            TextureFormatRequest::Specific(TextureFormat::CompressedFormat(f)) => {
                if f.is_supported(context) {
                    let e = f.to_glenum();
                    Ok((e, e))
                } else {
                    return Err(FormatNotSupportedError);
                }
            },
            TextureFormatRequest::Specific(TextureFormat::CompressedSrgbFormat(f)) => {
                if f.is_supported(context) {
                    let e = f.to_glenum();
                    Ok((e, e))
                } else {
                    return Err(FormatNotSupportedError);
                }
            },
            _ => match client {
                ClientFormatAny::CompressedFormat(f) => {
                    if f.is_supported(context) {
                        let e = f.to_glenum();
                        Ok((e, e))
                    } else {
                        return Err(FormatNotSupportedError);
                    }
                },
                ClientFormatAny::CompressedSrgbFormat(f) => {
                    if f.is_supported(context) {
                        let e = f.to_glenum();
                        Ok((e, e))
                    } else {
                        return Err(FormatNotSupportedError);
                    }
                },
                ClientFormatAny::ClientFormat(_) => Err(FormatNotSupportedError),
            },
        }
    } else {
        match client {
            ClientFormatAny::ClientFormat(c) => {
                let n = c.get_num_components();
                let ty = c.to_pixel_type();
                match format {
                    TextureFormatRequest::AnyIntegral | TextureFormatRequest::AnyUnsigned
                    | TextureFormatRequest::Specific(TextureFormat::UncompressedIntegral(_))
                    | TextureFormatRequest::Specific(TextureFormat::UncompressedUnsigned(_)) => {
                        Ok((channels_exec(n, true), ty))
                    },
                    TextureFormatRequest::AnyDepth
                    | TextureFormatRequest::Specific(TextureFormat::DepthFormat(_)) => {
                        Ok((gl::DEPTH_COMPONENT, gl::FLOAT))
                    },
                    TextureFormatRequest::AnyStencil
                    | TextureFormatRequest::Specific(TextureFormat::StencilFormat(_)) => {
                        Ok((gl::RED_INTEGER, ty))
                    },
                    TextureFormatRequest::AnyDepthStencil
                    | TextureFormatRequest::Specific(TextureFormat::DepthStencilFormat(_)) => {
                        Err(FormatNotSupportedError)
                    },
                    _ => Ok((channels_exec(n, false), ty)),
                }
            },
            _ => Err(FormatNotSupportedError),
        }
    };
    if inverted {
        match value {
            Ok((f, t)) => if f == gl::RGB {
                Ok((gl::BGR, t))
            } else if f == gl::RGBA {
                Ok((gl::BGRA, t))
            } else {
                Err(FormatNotSupportedError)
            },
            Err(x) => Err(x),
        }
    } else {
        value
    }
}

/// An element of one of two sequences is an element of their concatenation.
proof fn lemma_concat_contains<A>(a: Seq<A>, b: Seq<A>, x: A)
    requires
        a.contains(x) || b.contains(x),
    ensures
        (a + b).contains(x),
{
    if a.contains(x) {
        let i = choose|i: int| 0 <= i < a.len() && a[i] == x;
        assert((a + b)[i] == x);
    } else {
        let i = choose|i: int| 0 <= i < b.len() && b[i] == x;
        assert((a + b)[a.len() + i] == x);
    }
}

/// The image of an element of a sequence is an element of the mapped sequence.
proof fn lemma_mapped_contains<A, B>(s: Seq<A>, g: spec_fn(A) -> B, x: A)
    requires
        s.contains(x),
    ensures
        s.map_values(g).contains(g(x)),
{
    let i = choose|i: int| 0 <= i < s.len() && s[i] == x;
    assert(s.map_values(g)[i] == g(x));
}

/// The unsized internal formats: a number of components, a base format, or a generic
/// compressed format.
pub open spec fn is_unsized_glenum(x: u32) -> bool {
    x == 1 || x == 2 || x == 3 || x == 4 || x == gl::RED || x == gl::RG || x == gl::RGB || x
        == gl::RGBA || x == gl::COMPRESSED_RED || x == gl::COMPRESSED_RG || x == gl::COMPRESSED_RGB
        || x == gl::COMPRESSED_RGBA || x == gl::COMPRESSED_SRGB || x == gl::COMPRESSED_SRGB_ALPHA
        || x == gl::DEPTH_COMPONENT || x == gl::DEPTH_STENCIL || x == gl::DEPTH_STENCIL_EXT || x
        == gl::DEPTH_STENCIL_OES
}

/// The texture format whose internal format is the enumerant `x`, if any.
pub open spec fn texture_format_of_glenum(x: u32) -> Option<TextureFormat> {
    if x == gl::R8 {
        Some(TextureFormat::UncompressedFloat(UncompressedFloatFormat::U8))
    } else if x == gl::R8_SNORM {
        Some(TextureFormat::UncompressedFloat(UncompressedFloatFormat::I8))
    } else if x == gl::R16 {
        Some(TextureFormat::UncompressedFloat(UncompressedFloatFormat::U16))
    } else if x == gl::R16_SNORM {
        Some(TextureFormat::UncompressedFloat(UncompressedFloatFormat::I16))
    } else if x == gl::RG8 {
        Some(TextureFormat::UncompressedFloat(UncompressedFloatFormat::U8U8))
    } else if x == gl::RG8_SNORM {
        Some(TextureFormat::UncompressedFloat(UncompressedFloatFormat::I8I8))
    } else if x == gl::RG16 {
        Some(TextureFormat::UncompressedFloat(UncompressedFloatFormat::U16U16))
    } else if x == gl::RG16_SNORM {
        Some(TextureFormat::UncompressedFloat(UncompressedFloatFormat::I16I16))
    } else if x == gl::R3_G3_B2 {
        Some(TextureFormat::UncompressedFloat(UncompressedFloatFormat::U3U3U2))
    } else if x == gl::RGB4 {
        Some(TextureFormat::UncompressedFloat(UncompressedFloatFormat::U4U4U4))
    } else if x == gl::RGB5 {
        Some(TextureFormat::UncompressedFloat(UncompressedFloatFormat::U5U5U5))
    } else if x == gl::RGB8 {
        Some(TextureFormat::UncompressedFloat(UncompressedFloatFormat::U8U8U8))
    } else if x == gl::RGB8_SNORM {
        Some(TextureFormat::UncompressedFloat(UncompressedFloatFormat::I8I8I8))
    } else if x == gl::RGB10 {
        Some(TextureFormat::UncompressedFloat(UncompressedFloatFormat::U10U10U10))
    } else if x == gl::RGB12 {
        Some(TextureFormat::UncompressedFloat(UncompressedFloatFormat::U12U12U12))
    } else if x == gl::RGB16 {
        Some(TextureFormat::UncompressedFloat(UncompressedFloatFormat::U16U16U16))
    } else if x == gl::RGB16_SNORM {
        Some(TextureFormat::UncompressedFloat(UncompressedFloatFormat::I16I16I16))
    } else if x == gl::RGBA2 {
        Some(TextureFormat::UncompressedFloat(UncompressedFloatFormat::U2U2U2U2))
    } else if x == gl::RGBA4 {
        Some(TextureFormat::UncompressedFloat(UncompressedFloatFormat::U4U4U4U4))
    } else if x == gl::RGB5_A1 {
        Some(TextureFormat::UncompressedFloat(UncompressedFloatFormat::U5U5U5U1))
    } else if x == gl::RGBA8 {
        Some(TextureFormat::UncompressedFloat(UncompressedFloatFormat::U8U8U8U8))
    } else if x == gl::RGBA8_SNORM {
        Some(TextureFormat::UncompressedFloat(UncompressedFloatFormat::I8I8I8I8))
    } else if x == gl::RGB10_A2 {
        Some(TextureFormat::UncompressedFloat(UncompressedFloatFormat::U10U10U10U2))
    } else if x == gl::RGBA12 {
        Some(TextureFormat::UncompressedFloat(UncompressedFloatFormat::U12U12U12U12))
    } else if x == gl::RGBA16 {
        Some(TextureFormat::UncompressedFloat(UncompressedFloatFormat::U16U16U16U16))
    } else if x == gl::RGBA16_SNORM {
        Some(TextureFormat::UncompressedFloat(UncompressedFloatFormat::I16I16I16I16))
    } else if x == gl::R16F {
        Some(TextureFormat::UncompressedFloat(UncompressedFloatFormat::F16))
    } else if x == gl::RG16F {
        Some(TextureFormat::UncompressedFloat(UncompressedFloatFormat::F16F16))
    } else if x == gl::RGB16F {
        Some(TextureFormat::UncompressedFloat(UncompressedFloatFormat::F16F16F16))
    } else if x == gl::RGBA16F {
        Some(TextureFormat::UncompressedFloat(UncompressedFloatFormat::F16F16F16F16))
    } else if x == gl::R32F {
        Some(TextureFormat::UncompressedFloat(UncompressedFloatFormat::F32))
    } else if x == gl::RG32F {
        Some(TextureFormat::UncompressedFloat(UncompressedFloatFormat::F32F32))
    } else if x == gl::RGB32F {
        Some(TextureFormat::UncompressedFloat(UncompressedFloatFormat::F32F32F32))
    } else if x == gl::RGBA32F {
        Some(TextureFormat::UncompressedFloat(UncompressedFloatFormat::F32F32F32F32))
    } else if x == gl::R11F_G11F_B10F {
        Some(TextureFormat::UncompressedFloat(UncompressedFloatFormat::F11F11F10))
    } else if x == gl::RGB9_E5 {
        Some(TextureFormat::UncompressedFloat(UncompressedFloatFormat::F9F9F9))
    } else if x == gl::R8I {
        Some(TextureFormat::UncompressedIntegral(UncompressedIntFormat::I8))
    } else if x == gl::R16I {
        Some(TextureFormat::UncompressedIntegral(UncompressedIntFormat::I16))
    } else if x == gl::R32I {
        Some(TextureFormat::UncompressedIntegral(UncompressedIntFormat::I32))
    } else if x == gl::RG8I {
        Some(TextureFormat::UncompressedIntegral(UncompressedIntFormat::I8I8))
    } else if x == gl::RG16I {
        Some(TextureFormat::UncompressedIntegral(UncompressedIntFormat::I16I16))
    } else if x == gl::RG32I {
        Some(TextureFormat::UncompressedIntegral(UncompressedIntFormat::I32I32))
    } else if x == gl::RGB8I {
        Some(TextureFormat::UncompressedIntegral(UncompressedIntFormat::I8I8I8))
    } else if x == gl::RGB16I {
        Some(TextureFormat::UncompressedIntegral(UncompressedIntFormat::I16I16I16))
    } else if x == gl::RGB32I {
        Some(TextureFormat::UncompressedIntegral(UncompressedIntFormat::I32I32I32))
    } else if x == gl::RGBA8I {
        Some(TextureFormat::UncompressedIntegral(UncompressedIntFormat::I8I8I8I8))
    } else if x == gl::RGBA16I {
        Some(TextureFormat::UncompressedIntegral(UncompressedIntFormat::I16I16I16I16))
    } else if x == gl::RGBA32I {
        Some(TextureFormat::UncompressedIntegral(UncompressedIntFormat::I32I32I32I32))
    } else if x == gl::R8UI {
        Some(TextureFormat::UncompressedUnsigned(UncompressedUintFormat::U8))
    } else if x == gl::R16UI {
        Some(TextureFormat::UncompressedUnsigned(UncompressedUintFormat::U16))
    } else if x == gl::R32UI {
        Some(TextureFormat::UncompressedUnsigned(UncompressedUintFormat::U32))
    } else if x == gl::RG8UI {
        Some(TextureFormat::UncompressedUnsigned(UncompressedUintFormat::U8U8))
    } else if x == gl::RG16UI {
        Some(TextureFormat::UncompressedUnsigned(UncompressedUintFormat::U16U16))
    } else if x == gl::RG32UI {
        Some(TextureFormat::UncompressedUnsigned(UncompressedUintFormat::U32U32))
    } else if x == gl::RGB8UI {
        Some(TextureFormat::UncompressedUnsigned(UncompressedUintFormat::U8U8U8))
    } else if x == gl::RGB16UI {
        Some(TextureFormat::UncompressedUnsigned(UncompressedUintFormat::U16U16U16))
    } else if x == gl::RGB32UI {
        Some(TextureFormat::UncompressedUnsigned(UncompressedUintFormat::U32U32U32))
    } else if x == gl::RGBA8UI {
        Some(TextureFormat::UncompressedUnsigned(UncompressedUintFormat::U8U8U8U8))
    } else if x == gl::RGBA16UI {
        Some(TextureFormat::UncompressedUnsigned(UncompressedUintFormat::U16U16U16U16))
    } else if x == gl::RGBA32UI {
        Some(TextureFormat::UncompressedUnsigned(UncompressedUintFormat::U32U32U32U32))
    } else if x == gl::RGB10_A2UI {
        Some(TextureFormat::UncompressedUnsigned(UncompressedUintFormat::U10U10U10U2))
    } else if x == gl::SRGB8 {
        Some(TextureFormat::Srgb(SrgbFormat::U8U8U8))
    } else if x == gl::SRGB8_ALPHA8 {
        Some(TextureFormat::Srgb(SrgbFormat::U8U8U8U8))
    } else if x == gl::COMPRESSED_RED_RGTC1 {
        Some(TextureFormat::CompressedFormat(CompressedFormat::RgtcFormatU))
    } else if x == gl::COMPRESSED_SIGNED_RED_RGTC1 {
        Some(TextureFormat::CompressedFormat(CompressedFormat::RgtcFormatI))
    } else if x == gl::COMPRESSED_RG_RGTC2 {
        Some(TextureFormat::CompressedFormat(CompressedFormat::RgtcFormatUU))
    } else if x == gl::COMPRESSED_SIGNED_RG_RGTC2 {
        Some(TextureFormat::CompressedFormat(CompressedFormat::RgtcFormatII))
    } else if x == gl::COMPRESSED_RGBA_BPTC_UNORM {
        Some(TextureFormat::CompressedFormat(CompressedFormat::BptcUnorm4))
    } else if x == gl::COMPRESSED_RGB_BPTC_SIGNED_FLOAT {
        Some(TextureFormat::CompressedFormat(CompressedFormat::BptcSignedFloat3))
    } else if x == gl::COMPRESSED_RGB_BPTC_UNSIGNED_FLOAT {
        Some(TextureFormat::CompressedFormat(CompressedFormat::BptcUnsignedFloat3))
    } else if x == gl::COMPRESSED_RGB_S3TC_DXT1_EXT {
        Some(TextureFormat::CompressedFormat(CompressedFormat::S3tcDxt1NoAlpha))
    } else if x == gl::COMPRESSED_RGBA_S3TC_DXT1_EXT {
        Some(TextureFormat::CompressedFormat(CompressedFormat::S3tcDxt1Alpha))
    } else if x == gl::COMPRESSED_RGBA_S3TC_DXT3_EXT {
        Some(TextureFormat::CompressedFormat(CompressedFormat::S3tcDxt3Alpha))
    } else if x == gl::COMPRESSED_RGBA_S3TC_DXT5_EXT {
        Some(TextureFormat::CompressedFormat(CompressedFormat::S3tcDxt5Alpha))
    } else if x == gl::COMPRESSED_SRGB_ALPHA_BPTC_UNORM {
        Some(TextureFormat::CompressedSrgbFormat(CompressedSrgbFormat::Bptc))
    } else if x == gl::COMPRESSED_SRGB_S3TC_DXT1_EXT {
        Some(TextureFormat::CompressedSrgbFormat(CompressedSrgbFormat::S3tcDxt1NoAlpha))
    } else if x == gl::COMPRESSED_SRGB_ALPHA_S3TC_DXT1_EXT {
        Some(TextureFormat::CompressedSrgbFormat(CompressedSrgbFormat::S3tcDxt1Alpha))
    } else if x == gl::COMPRESSED_SRGB_ALPHA_S3TC_DXT3_EXT {
        Some(TextureFormat::CompressedSrgbFormat(CompressedSrgbFormat::S3tcDxt3Alpha))
    } else if x == gl::COMPRESSED_SRGB_ALPHA_S3TC_DXT5_EXT {
        Some(TextureFormat::CompressedSrgbFormat(CompressedSrgbFormat::S3tcDxt5Alpha))
    } else if x == gl::DEPTH_COMPONENT16 {
        Some(TextureFormat::DepthFormat(DepthFormat::I16))
    } else if x == gl::DEPTH_COMPONENT24 {
        Some(TextureFormat::DepthFormat(DepthFormat::I24))
    } else if x == gl::DEPTH_COMPONENT32 {
        Some(TextureFormat::DepthFormat(DepthFormat::I32))
    } else if x == gl::DEPTH_COMPONENT32F {
        Some(TextureFormat::DepthFormat(DepthFormat::F32))
    } else if x == gl::STENCIL_INDEX1 {
        Some(TextureFormat::StencilFormat(StencilFormat::I1))
    } else if x == gl::STENCIL_INDEX4 {
        Some(TextureFormat::StencilFormat(StencilFormat::I4))
    } else if x == gl::STENCIL_INDEX8 {
        Some(TextureFormat::StencilFormat(StencilFormat::I8))
    } else if x == gl::STENCIL_INDEX16 {
        Some(TextureFormat::StencilFormat(StencilFormat::I16))
    } else if x == gl::DEPTH24_STENCIL8 {
        Some(TextureFormat::DepthStencilFormat(DepthStencilFormat::I24I8))
    } else if x == gl::DEPTH32F_STENCIL8 {
        Some(TextureFormat::DepthStencilFormat(DepthStencilFormat::F32I8))
    } else {
        None
    }
}

/// Distinct texture formats have distinct internal formats: the internal format of each
/// format names that format and no other.
pub proof fn lemma_texture_format_glenum_names_format(f: TextureFormat)
    ensures
        texture_format_of_glenum(f.glenum()) == Some(f),
{
    match f {
        TextureFormat::UncompressedFloat(x) => {},
        TextureFormat::UncompressedIntegral(x) => {},
        TextureFormat::UncompressedUnsigned(x) => {},
        TextureFormat::Srgb(x) => {},
        TextureFormat::CompressedFormat(x) => {},
        TextureFormat::CompressedSrgbFormat(x) => {},
        TextureFormat::DepthFormat(x) => {},
        TextureFormat::StencilFormat(x) => {},
        TextureFormat::DepthStencilFormat(x) => {},
    }
}

/// Support only grows with the version: a format that a backend supports for textures, for
/// render buffers, or as a render target, stays supported on a later version of the same API
/// with the same extensions.
pub proof fn lemma_format_support_monotonic(
    f: TextureFormat,
    v1: Version,
    v2: Version,
    e: ExtensionsList,
)
    requires
        v2.at_least(v1),
    ensures
        f.supported_for_textures(v1, e) ==> f.supported_for_textures(v2, e),
        f.supported_for_renderbuffers(v1, e) ==> f.supported_for_renderbuffers(v2, e),
        f.renderable(v1, e) ==> f.renderable(v2, e),
{
    match f {
        TextureFormat::UncompressedFloat(x) => {},
        TextureFormat::UncompressedIntegral(x) => {},
        TextureFormat::UncompressedUnsigned(x) => {},
        TextureFormat::Srgb(x) => {},
        TextureFormat::CompressedFormat(x) => {},
        TextureFormat::CompressedSrgbFormat(x) => {},
        TextureFormat::DepthFormat(x) => {},
        TextureFormat::StencilFormat(x) => {},
        TextureFormat::DepthStencilFormat(x) => {},
    }
}

/// The size of a compressed image is its number of 4x4 blocks (sides raised to 4, for each
/// layer of the array) times the size of a block: 8 bytes for the DXT1 and RGTC formats whose
/// blocks are that small, 16 bytes for the others.
pub proof fn lemma_compressed_buffer_size_blocks(
    f: ClientFormatAny,
    width: u32,
    height: Option<u32>,
    depth: Option<u32>,
    array_size: Option<u32>,
)
    requires
        f.compressed(),
        f.buffer_size_valid(width, height, depth, array_size),
    ensures
        f.buffer_size(width, height, depth, array_size) == (at_least_four(width) / 4) * (
        at_least_four(height.unwrap()) / 4) * opt_or_one(array_size) * (if f.eight_bytes_per_block() {
            8int
        } else {
            16int
        }),
{
    let w = at_least_four(width);
    let h = at_least_four(height.unwrap());
    let a = opt_or_one(array_size);
    let p = w / 4;
    let q = h / 4;
    assert(w == 4 * p && h == 4 * q);
    assert(4 * w * h * a == 64 * (p * q * a)) by (nonlinear_arith)
        requires
            w == 4 * p,
            h == 4 * q,
    ;
    assert((64 * (p * q * a)) / 8 == 8 * (p * q * a)) by (nonlinear_arith);
    assert((64 * (p * q * a)) / 4 == 16 * (p * q * a)) by (nonlinear_arith);
    assert(p * q * a * 8 == 8 * (p * q * a) && p * q * a * 16 == 16 * (p * q * a)) by (
    nonlinear_arith);
}

/// The number of color components of the internal formats chosen for requests of any color
/// format: the unsized numbers and base formats, the generic compressed formats and the
/// 8-bit and 16-bit sized formats; `None` for any other enumerant.
pub open spec fn color_format_components(x: u32) -> Option<u8> {
    if x == 1 || x == gl::RED || x == gl::R8 || x == gl::COMPRESSED_RED {
        Some(1)
    } else if x == 2 || x == gl::RG || x == gl::RG8 || x == gl::COMPRESSED_RG {
        Some(2)
    } else if x == 3 || x == gl::RGB || x == gl::RGB8 || x == gl::RGB565 || x
        == gl::COMPRESSED_RGB || x == gl::SRGB8 || x == gl::COMPRESSED_SRGB {
        Some(3)
    } else if x == 4 || x == gl::RGBA || x == gl::RGBA8 || x == gl::RGB5_A1 || x
        == gl::COMPRESSED_RGBA || x == gl::SRGB8_ALPHA8 || x == gl::COMPRESSED_SRGB_ALPHA {
        Some(4)
    } else {
        None
    }
}

/// Whether an internal format holds depth and whether it holds stencil, for the depth, stencil
/// and depth-stencil internal formats; `None` for any other enumerant.
pub open spec fn depth_stencil_contents(x: u32) -> Option<(bool, bool)> {
    if x == gl::DEPTH_COMPONENT || x == gl::DEPTH_COMPONENT16 || x == gl::DEPTH_COMPONENT24 || x
        == gl::DEPTH_COMPONENT32 || x == gl::DEPTH_COMPONENT32F {
        Some((true, false))
    } else if x == gl::STENCIL_INDEX1 || x == gl::STENCIL_INDEX4 || x == gl::STENCIL_INDEX8 || x
        == gl::STENCIL_INDEX16 {
        Some((false, true))
    } else if x == gl::DEPTH_STENCIL || x == gl::DEPTH24_STENCIL8 || x == gl::DEPTH32F_STENCIL8 {
        Some((true, true))
    } else {
        None
    }
}

/// A request for any floating-point, sRGB or compressed color format, with no compressed
/// client data, gives a color format with at least as many components as the client data:
/// no component of the data is dropped. On OpenGL 3.0 or OpenGL ES 3.0 and above, a request
/// for any floating-point format always succeeds, with exactly as many components as the data,
/// or four without data.
pub proof fn lemma_any_color_keeps_components(
    v: Version,
    e: ExtensionsList,
    format: TextureFormatRequest,
    rq_ty: RequestType,
)
    requires
        format is AnyFloatingPoint || format is AnySrgb || format is AnyCompressed
            || format is AnyCompressedSrgb,
        !request_client_compressed(rq_ty),
        format_request_valid(v, e, format, rq_ty),
    ensures
        format_request_result(v, e, format, rq_ty) is Ok ==> (color_format_components(
            format_request_result(v, e, format, rq_ty).unwrap(),
        ) matches Some(k) && (request_components(rq_ty) matches Some(n) ==> k >= n)),
        format is AnyFloatingPoint && (ver_ge(v, Api::Gl, 3, 0) || ver_ge(v, Api::GlEs, 3, 0))
            ==> (format_request_result(v, e, format, rq_ty) is Ok && color_format_components(
            format_request_result(v, e, format, rq_ty).unwrap(),
        ) == Some(
            match request_components(rq_ty) {
                Some(n) => n,
                None => 4u8,
            },
        )),
{
    if let RequestType::TexImage(Some(ClientFormatAny::ClientFormat(f))) = rq_ty {
        lemma_client_components_range(f);
    }
}

/// Requests for depth, stencil or depth-stencil textures, generic or specific, give an internal
/// format that holds depth, stencil, or both, as asked.
pub proof fn lemma_depth_stencil_requests_contents(
    v: Version,
    e: ExtensionsList,
    format: TextureFormatRequest,
    rq_ty: RequestType,
)
    requires
        format_request_result(v, e, format, rq_ty) is Ok,
    ensures
        ({
            let x = format_request_result(v, e, format, rq_ty).unwrap();
            &&& (format is AnyDepth || format matches TextureFormatRequest::Specific(
                TextureFormat::DepthFormat(_),
            )) ==> depth_stencil_contents(x) == Some((true, false))
            &&& (format is AnyStencil || format matches TextureFormatRequest::Specific(
                TextureFormat::StencilFormat(_),
            )) ==> depth_stencil_contents(x) == Some((false, true))
            &&& (format is AnyDepthStencil || format matches TextureFormatRequest::Specific(
                TextureFormat::DepthStencilFormat(_),
            )) ==> depth_stencil_contents(x) == Some((true, true))
        }),
{
}

/// The size in bytes of one component of a pixel type that stores each component apart;
/// `None` for packed pixel types and other enumerants.
pub open spec fn component_type_bytes(t: u32) -> Option<usize> {
    if t == gl::UNSIGNED_BYTE || t == gl::BYTE {
        Some(1)
    } else if t == gl::UNSIGNED_SHORT || t == gl::SHORT || t == gl::HALF_FLOAT {
        Some(2)
    } else if t == gl::UNSIGNED_INT || t == gl::INT || t == gl::FLOAT {
        Some(4)
    } else {
        None
    }
}

/// The size in bytes of a whole pixel of a packed pixel type; `None` for other enumerants.
pub open spec fn packed_type_bytes(t: u32) -> Option<usize> {
    if t == gl::UNSIGNED_BYTE_3_3_2 {
        Some(1)
    } else if t == gl::UNSIGNED_SHORT_5_6_5 || t == gl::UNSIGNED_SHORT_4_4_4_4 || t
        == gl::UNSIGNED_SHORT_5_5_5_1 {
        Some(2)
    } else if t == gl::UNSIGNED_INT_10_10_10_2 {
        Some(4)
    } else {
        None
    }
}

/// The size of a pixel of a client format follows from its pixel type: as many components as
/// the format has, each of the size of the pixel type, or for a packed pixel type the size of
/// that type.
pub proof fn lemma_client_size_from_pixel_type(c: ClientFormat)
    ensures
        match component_type_bytes(c.pixel_type()) {
            Some(b) => c.size() == c.num_components() * b,
            None => packed_type_bytes(c.pixel_type()) == Some(c.size()),
        },
{
}

/// A request for a specific format gives the internal format that names that format, and
/// fails only where the backend does not support it (for render buffers, or for textures);
/// a request for any compressed format with compressed client data gives the internal format
/// of the client's format.
pub proof fn lemma_specific_request_names_format(
    v: Version,
    e: ExtensionsList,
    f: TextureFormat,
    rq_ty: RequestType,
)
    ensures
        format_request_result(v, e, TextureFormatRequest::Specific(f), rq_ty) is Ok == (if rq_ty is Renderbuffer {
            f.supported_for_renderbuffers(v, e)
        } else {
            f.supported_for_textures(v, e)
        }),
        format_request_result(v, e, TextureFormatRequest::Specific(f), rq_ty) is Ok
            ==> texture_format_of_glenum(
            format_request_result(v, e, TextureFormatRequest::Specific(f), rq_ty).unwrap(),
        ) == Some(f),
        rq_ty matches RequestType::TexImage(Some(ClientFormatAny::CompressedFormat(g)))
            ==> (format_request_result(v, e, TextureFormatRequest::AnyCompressed, rq_ty) is Ok
            ==> texture_format_of_glenum(
            format_request_result(v, e, TextureFormatRequest::AnyCompressed, rq_ty).unwrap(),
        ) == Some(TextureFormat::CompressedFormat(g))),
        rq_ty matches RequestType::TexImage(Some(ClientFormatAny::CompressedSrgbFormat(g)))
            ==> (format_request_result(v, e, TextureFormatRequest::AnyCompressedSrgb, rq_ty) is Ok
            ==> texture_format_of_glenum(
            format_request_result(v, e, TextureFormatRequest::AnyCompressedSrgb, rq_ty).unwrap(),
        ) == Some(TextureFormat::CompressedSrgbFormat(g))),
{
    lemma_texture_format_glenum_names_format(f);
    if let RequestType::TexImage(Some(ClientFormatAny::CompressedFormat(g))) = rq_ty {
        lemma_texture_format_glenum_names_format(TextureFormat::CompressedFormat(g));
    }
    if let RequestType::TexImage(Some(ClientFormatAny::CompressedSrgbFormat(g))) = rq_ty {
        lemma_texture_format_glenum_names_format(TextureFormat::CompressedSrgbFormat(g));
    }
}

/// The number of components and the signedness of each 32-bit integer internal format
/// (`R32I` to `RGBA32UI`, whose `_EXT` names denote the same values); `None` for any other
/// enumerant.
pub open spec fn int32_format_layout(x: u32) -> Option<(u8, bool)> {
    if x == 0x8235 {
        Some((1, true))
    } else if x == 0x8236 {
        Some((1, false))
    } else if x == 0x823B {
        Some((2, true))
    } else if x == 0x823C {
        Some((2, false))
    } else if x == 0x8D83 {
        Some((3, true))
    } else if x == 0x8D71 {
        Some((3, false))
    } else if x == 0x8D82 {
        Some((4, true))
    } else if x == 0x8D70 {
        Some((4, false))
    } else {
        None
    }
}

/// An uncompressed client format has one to four components.
pub proof fn lemma_client_components_range(f: ClientFormat)
    ensures
        1 <= f.num_components() <= 4,
{
}

/// A request for any integral (or any unsigned) format gives a 32-bit signed (or unsigned)
/// integer format with as many components as the client data, or four components when the
/// request carries no client data; on OpenGL 3.0 or above such a request always succeeds.
pub proof fn lemma_any_integer_matches_client(
    v: Version,
    e: ExtensionsList,
    format: TextureFormatRequest,
    rq_ty: RequestType,
)
    requires
        format is AnyIntegral || format is AnyUnsigned,
        format_request_valid(v, e, format, rq_ty),
    ensures
        ver_ge(v, Api::Gl, 3, 0) ==> format_request_result(v, e, format, rq_ty) is Ok,
        format_request_result(v, e, format, rq_ty) is Ok ==> int32_format_layout(
            format_request_result(v, e, format, rq_ty).unwrap(),
        ) == Some(
            (
                match request_components(rq_ty) {
                    Some(n) => n,
                    None => 4u8,
                },
                format is AnyIntegral,
            ),
        ),
{
    if let RequestType::TexImage(Some(ClientFormatAny::ClientFormat(f))) = rq_ty {
        lemma_client_components_range(f);
    }
}

/// The number of components of each integer pixel format (`RED_INTEGER` to `RGBA_INTEGER`);
/// `None` for any other enumerant.
pub open spec fn integer_pixel_format_components(x: u32) -> Option<u8> {
    if x == 0x8D94 {
        Some(1)
    } else if x == 0x8228 {
        Some(2)
    } else if x == 0x8D98 {
        Some(3)
    } else if x == 0x8D99 {
        Some(4)
    } else {
        None
    }
}

/// Whether `format` asks for a texture of integral or unsigned integers, generic or specific.
pub open spec fn requests_integer_texture(format: TextureFormatRequest) -> bool {
    ||| format is AnyIntegral
    ||| format is AnyUnsigned
    ||| format matches TextureFormatRequest::Specific(TextureFormat::UncompressedIntegral(_))
    ||| format matches TextureFormatRequest::Specific(TextureFormat::UncompressedUnsigned(_))
}

/// Uncompressed data uploaded to an integer texture, whether the request names a format or
/// asks for any integral or unsigned one, goes as an integer pixel format with as many
/// components as the data, and the pixel type of the data; such a pixel format has no
/// inverted form, so an inverted upload is refused.
pub proof fn lemma_integer_upload_pixel_format(
    v: Version,
    e: ExtensionsList,
    c: ClientFormat,
    format: TextureFormatRequest,
)
    requires
        requests_integer_texture(format),
    ensures
        client_format_result(v, e, ClientFormatAny::ClientFormat(c), format, false) is Ok,
        integer_pixel_format_components(
            client_format_result(v, e, ClientFormatAny::ClientFormat(c), format, false).unwrap().0,
        ) == Some(c.num_components()),
        client_format_result(v, e, ClientFormatAny::ClientFormat(c), format, false).unwrap().1
            == c.pixel_type(),
        client_format_result(v, e, ClientFormatAny::ClientFormat(c), format, true) is Err,
{
    lemma_client_components_range(c);
}

/// The pair of enumerants for uploading data to an integer texture depends on the data alone:
/// two requests for integer textures, generic or specific, give the same result.
pub proof fn lemma_integer_upload_request_independent(
    v: Version,
    e: ExtensionsList,
    client: ClientFormatAny,
    f1: TextureFormatRequest,
    f2: TextureFormatRequest,
    inverted: bool,
)
    requires
        requests_integer_texture(f1),
        requests_integer_texture(f2),
        client is ClientFormat,
    ensures
        client_format_result(v, e, client, f1, inverted) == client_format_result(
            v,
            e,
            client,
            f2,
            inverted,
        ),
{
}

/// The number of components of each color pixel format (`RED` to `RGBA`, and `BGR`, `BGRA`),
/// and whether it lists the color components in reverse order; `None` for any other enumerant.
pub open spec fn color_pixel_format_layout(x: u32) -> Option<(u8, bool)> {
    if x == gl::RED {
        Some((1, false))
    } else if x == gl::RG {
        Some((2, false))
    } else if x == gl::RGB {
        Some((3, false))
    } else if x == gl::RGBA {
        Some((4, false))
    } else if x == gl::BGR {
        Some((3, true))
    } else if x == gl::BGRA {
        Some((4, true))
    } else {
        None
    }
}

/// Whether `format` asks for a texture of floating-point-like colors (normalized, floating-point,
/// sRGB or compressed), generic or specific.
pub open spec fn requests_color_texture(format: TextureFormatRequest) -> bool {
    ||| format is AnyFloatingPoint
    ||| format is AnySrgb
    ||| format is AnyCompressed
    ||| format is AnyCompressedSrgb
    ||| format matches TextureFormatRequest::Specific(TextureFormat::UncompressedFloat(_))
    ||| format matches TextureFormatRequest::Specific(TextureFormat::Srgb(_))
    ||| format matches TextureFormatRequest::Specific(TextureFormat::CompressedFormat(_))
    ||| format matches TextureFormatRequest::Specific(TextureFormat::CompressedSrgbFormat(_))
}

/// Uncompressed data uploaded to a color texture goes as a color pixel format with as many
/// components as the data, in the data's pixel type; inverted, its color components are listed
/// in reverse order, which only formats of three or four components allow. Data uploaded to a
/// depth texture goes as `DEPTH_COMPONENT` floats, and data uploaded to a stencil texture as
/// single integers of the data's pixel type.
pub proof fn lemma_upload_pixel_format(
    v: Version,
    e: ExtensionsList,
    c: ClientFormat,
    format: TextureFormatRequest,
    inverted: bool,
)
    ensures
        ({
            let r = client_format_result(v, e, ClientFormatAny::ClientFormat(c), format, inverted);
            let n = c.num_components();
            &&& requests_color_texture(format) ==> {
                &&& (r is Ok) == (!inverted || n >= 3)
                &&& r is Ok ==> color_pixel_format_layout(r.unwrap().0) == Some((n, inverted))
                    && r.unwrap().1 == c.pixel_type()
            }
            &&& !inverted && (format is AnyDepth || format matches TextureFormatRequest::Specific(
                TextureFormat::DepthFormat(_),
            )) ==> r == Ok::<(u32, u32), FormatNotSupportedError>((gl::DEPTH_COMPONENT, gl::FLOAT))
            &&& !inverted && (format is AnyStencil || format matches TextureFormatRequest::Specific(
                TextureFormat::StencilFormat(_),
            )) ==> r == Ok::<(u32, u32), FormatNotSupportedError>(
                (gl::RED_INTEGER, c.pixel_type()),
            )
        }),
{
    lemma_client_components_range(c);
}

/// The formats documented as guaranteed to be supported are supported by every backend of
/// OpenGL 3.2 or above, or of OpenGL ES 3.0 or above; so are all other floating-point-like
/// uncompressed formats.
pub proof fn lemma_float_formats_supported(f: UncompressedFloatFormat, v: Version, e: ExtensionsList)
    requires
        ver_ge(v, Api::Gl, 3, 2) || ver_ge(v, Api::GlEs, 3, 0),
    ensures
        f.supported(v, e),
{
}

/// Every uncompressed format (floating-point-like, integral, unsigned or sRGB) and every depth
/// and depth-stencil format is supported by every backend of OpenGL 3.3 or above, whatever its
/// extensions.
pub proof fn lemma_core_formats_supported(f: TextureFormat, v: Version, e: ExtensionsList)
    requires
        ver_ge(v, Api::Gl, 3, 3),
        f is UncompressedFloat || f is UncompressedIntegral || f is UncompressedUnsigned || f is Srgb
            || f is DepthFormat || f is DepthStencilFormat,
    ensures
        f.supported_for_textures(v, e),
        f.supported_for_renderbuffers(v, e),
{
    match f {
        TextureFormat::UncompressedFloat(x) => lemma_float_formats_supported(x, v, e),
        TextureFormat::UncompressedIntegral(x) => {},
        TextureFormat::UncompressedUnsigned(x) => {},
        TextureFormat::Srgb(x) => {},
        TextureFormat::DepthFormat(x) => {},
        TextureFormat::DepthStencilFormat(x) => {},
        _ => {},
    }
}

/// A color format can only be rendered to where the backend supports it; compressed formats
/// can never be rendered to, and `F9F9F9` (shared exponent) is never color-renderable.
pub proof fn lemma_renderable_needs_support(f: TextureFormat, v: Version, e: ExtensionsList)
    ensures
        (f is UncompressedFloat || f is UncompressedIntegral || f is UncompressedUnsigned || f is Srgb)
            && f.renderable(v, e) ==> f.supported_for_textures(v, e),
        f is CompressedFormat || f is CompressedSrgbFormat ==> !f.renderable(v, e),
        !TextureFormat::UncompressedFloat(UncompressedFloatFormat::F9F9F9).renderable(v, e),
{
    match f {
        TextureFormat::UncompressedFloat(x) => {},
        TextureFormat::UncompressedIntegral(x) => {},
        TextureFormat::UncompressedUnsigned(x) => {},
        TextureFormat::Srgb(x) => {},
        _ => {},
    }
}

/// The internal format of every texture format is sized.
pub proof fn lemma_texture_formats_sized(f: TextureFormat)
    ensures
        !is_unsized_glenum(f.glenum()),
{
    match f {
        TextureFormat::UncompressedFloat(x) => {},
        TextureFormat::UncompressedIntegral(x) => {},
        TextureFormat::UncompressedUnsigned(x) => {},
        TextureFormat::Srgb(x) => {},
        TextureFormat::CompressedFormat(x) => {},
        TextureFormat::CompressedSrgbFormat(x) => {},
        TextureFormat::DepthFormat(x) => {},
        TextureFormat::StencilFormat(x) => {},
        TextureFormat::DepthStencilFormat(x) => {},
    }
}

/// A format chosen for `glTexStorage*D` or `glRenderbufferStorage` is always sized; only
/// requests for `glTexImage#D` can give an unsized format.
pub proof fn lemma_storage_formats_sized(
    v: Version,
    e: ExtensionsList,
    format: TextureFormatRequest,
    rq_ty: RequestType,
)
    requires
        !(rq_ty is TexImage),
        format_request_result(v, e, format, rq_ty) is Ok,
    ensures
        !is_unsized_glenum(format_request_result(v, e, format, rq_ty).unwrap()),
{
    match format {
        TextureFormatRequest::Specific(f) => lemma_texture_formats_sized(f),
        TextureFormatRequest::AnyStencil => lemma_texture_formats_sized(
            TextureFormat::StencilFormat(StencilFormat::I8),
        ),
        _ => {},
    }
}

} // verus!
