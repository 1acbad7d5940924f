//! Reading pixels from a framebuffer.

use vstd::prelude::*;
use vstd::string::StringExecFns;

use crate::fbo::RegularAttachment;
use crate::pixel_buffer::PixelBuffer;
use crate::image_format::{
    ClientFormat, TextureFormat, TextureFormatRequest, channels_glenum, color_format_components,
    integer_pixel_format_components, lemma_client_components_range, requests_integer_texture,
};
use crate::version::{Api, CapabilitiesSource, Version, ver_ge, version_ge};

verus! {

/// A source for reading pixels.
#[derive(Debug)]
pub enum Source<'a> {
    /// A regular framebuffer attachment.
    Attachment(&'a RegularAttachment<'a>),
    /// A buffer of the default framebuffer, by its OpenGL enumerant.
    DefaultFramebuffer(u32),
}

impl<'a> From<&'a RegularAttachment<'a>> for Source<'a> {
    fn from(a: &'a RegularAttachment<'a>) -> (r: Source<'a>) {
        Source::Attachment(a)
    }
}

impl<'a> vstd::std_specs::convert::FromSpecImpl<&'a RegularAttachment<'a>> for Source<'a> {
    open spec fn obeys_from_spec() -> bool {
        true
    }

    open spec fn from_spec(v: &'a RegularAttachment<'a>) -> Source<'a> {
        Source::Attachment(v)
    }
}

/// A destination for reading pixels.
pub enum Destination<'a, P> {
    /// A vector in memory.
    Memory(&'a mut Vec<P>),
    /// A pixel buffer.
    PixelBuffer(&'a PixelBuffer<P>),
}

impl<'a, P> From<&'a PixelBuffer<P>> for Destination<'a, P> {
    fn from(pb: &'a PixelBuffer<P>) -> (r: Destination<'a, P>) {
        Destination::PixelBuffer(pb)
    }
}

impl<'a, P> vstd::std_specs::convert::FromSpecImpl<&'a PixelBuffer<P>> for Destination<'a, P> {
    open spec fn obeys_from_spec() -> bool {
        true
    }

    open spec fn from_spec(v: &'a PixelBuffer<P>) -> Destination<'a, P> {
        Destination::PixelBuffer(v)
    }
}

/// Error that can happen while reading.
#[derive(Debug, Clone, Copy, PartialEq, Eq, Structural)]
pub enum ReadError {
    /// The implementation doesn't support converting to the requested output format.
    ///
    /// OpenGL supports every possible format, but OpenGL ES only supports `(u8, u8, u8, u8)`
    /// and an implementation-defined format.
    OutputFormatNotSupported,
    /// The implementation doesn't support reading a depth, depth-stencil or stencil attachment.
    ///
    /// OpenGL ES only supports reading from color buffers by default. There are extensions
    /// that allow reading other types of attachments.
    AttachmentTypeNotSupported,
    /// Clamping the values is not supported by the implementation.
    ClampingNotSupported,
}

impl ReadError {
    /// The text that `description` returns.
    pub open spec fn description_text(&self) -> Seq<char> {
        match self {
            ReadError::OutputFormatNotSupported => "The implementation doesn't support converting to the requested output format"@,
            ReadError::AttachmentTypeNotSupported => "The implementation doesn't support reading a depth, depth-stencil or stencil attachment"@,
            ReadError::ClampingNotSupported => "Clamping the values is not supported by the implementation"@,
        }
    }

    /// Returns the description of the error.
    pub fn description(&self) -> (r: &'static str)
        ensures
            r@ == self.description_text(),
    {
        match self {
            ReadError::OutputFormatNotSupported => "The implementation doesn't support converting to the requested output format",
            ReadError::AttachmentTypeNotSupported => "The implementation doesn't support reading a depth, depth-stencil or stencil attachment",
            ReadError::ClampingNotSupported => "Clamping the values is not supported by the implementation",
        }
    }

    /// Returns the text that displays the error: its description.
    pub fn to_string(&self) -> (r: String)
        ensures
            r@ == self.description_text(),
    {
        String::from_str(self.description())
    }
}

/// Whether the pixels of a texture requested as `format` are read as integers.
pub open spec fn integer_request(format: TextureFormatRequest) -> bool {
    match format {
        TextureFormatRequest::Specific(TextureFormat::UncompressedIntegral(_)) => true,
        TextureFormatRequest::Specific(TextureFormat::UncompressedUnsigned(_)) => true,
        TextureFormatRequest::AnyIntegral => true,
        TextureFormatRequest::AnyUnsigned => true,
        _ => false,
    }
}

/// Whether the pixels of a source are read as integers: those of a texture requested with an
/// integral or unsigned format.
pub open spec fn source_is_integer(source: Source) -> bool {
    match source {
        Source::Attachment(RegularAttachment::Texture(t)) => integer_request(t.texture.requested_format),
        _ => false,
    }
}

/// How to read pixels: the clamping of colors to set, and the pixel format and pixel type to
/// give to `glReadPixels`.
#[derive(Debug, Clone, Copy, PartialEq, Eq, Structural)]
pub struct ReadPlan {
    /// The clamping of colors to set before reading (`GL_CLAMP_READ_COLOR`), or `None` if the
    /// backend has no such setting.
    pub clamp_color: Option<bool>,
    /// The pixel format.
    pub format: u32,
    /// The pixel type.
    pub gl_type: u32,
}

/// How pixels of `source` are read into `output` pixels on a backend of version `v`, or the
/// error: OpenGL ES can only read into `U8U8U8U8` pixels, and clamping needs OpenGL 3.0.
pub open spec fn read_plan_result(v: Version, source: Source, output: ClientFormat, clamp: bool) -> Result<
    ReadPlan,
    ReadError,
> {
    if ver_ge(v, Api::GlEs, 2, 0) && output != ClientFormat::U8U8U8U8 {
        Err(ReadError::OutputFormatNotSupported)
    } else if !ver_ge(v, Api::Gl, 3, 0) && clamp {
        Err(ReadError::ClampingNotSupported)
    } else {
        Ok(
            ReadPlan {
                clamp_color: if ver_ge(v, Api::Gl, 3, 0) {
                    Some(clamp)
                } else {
                    None
                },
                format: channels_glenum(output.num_components(), source_is_integer(source)),
                gl_type: output.pixel_type(),
            },
        )
    }
}

/// Pixels are read in a pixel format with as many components as the output format, and in
/// its pixel type: an integer pixel format when the source is a texture requested with an
/// integral or unsigned format, generic or specific, and a color pixel format otherwise.
pub proof fn lemma_read_plan_format(v: Version, source: Source, output: ClientFormat, clamp: bool)
    requires
        read_plan_result(v, source, output, clamp) is Ok,
    ensures
        ({
            let p = read_plan_result(v, source, output, clamp).unwrap();
            let integer = source matches Source::Attachment(RegularAttachment::Texture(t))
                && requests_integer_texture(t.texture.requested_format);
            &&& integer ==> integer_pixel_format_components(p.format) == Some(output.num_components())
            &&& !integer ==> color_format_components(p.format) == Some(output.num_components())
            &&& p.gl_type == output.pixel_type()
        }),
{
    lemma_client_components_range(output);
}

/// Decides how to read pixels of `source` into pixels of the `output` format, with or without
/// clamping the colors.
pub fn plan_read<C: CapabilitiesSource>(ctxt: &C, source: &Source, output: ClientFormat, clamp: bool) -> (r:
    Result<ReadPlan, ReadError>)
    ensures
        r == read_plan_result(ctxt.version_view(), *source, output, clamp),
{
    let v = ctxt.get_version();
    let is_rgba8 = match output {
        ClientFormat::U8U8U8U8 => true,
        _ => false,
    };
    if version_ge(v, Api::GlEs, 2, 0) && !is_rgba8 {
        return Err(ReadError::OutputFormatNotSupported);
    }
    let clamp_color = if version_ge(v, Api::Gl, 3, 0) {
        Some(clamp)
    } else if clamp {
        return Err(ReadError::ClampingNotSupported);
    } else {
        None
    };
    let integer = match source {
        Source::Attachment(RegularAttachment::Texture(t)) => match t.get_texture().get_requested_format() {
            TextureFormatRequest::Specific(TextureFormat::UncompressedIntegral(_)) => true,
            TextureFormatRequest::Specific(TextureFormat::UncompressedUnsigned(_)) => true,
            TextureFormatRequest::AnyIntegral => true,
            TextureFormatRequest::AnyUnsigned => true,
            _ => false,
        },
        _ => false,
    };
    let n = output.get_num_components();
    let format = if integer {
        match n {
            1 => crate::gl::RED_INTEGER,
            2 => crate::gl::RG_INTEGER,
            3 => crate::gl::RGB_INTEGER,
            _ => crate::gl::RGBA_INTEGER,
        }
    } else {
        match n {
            1 => crate::gl::RED,
            2 => crate::gl::RG,
            3 => crate::gl::RGB,
            _ => crate::gl::RGBA,
        }
    };
    Ok(ReadPlan { clamp_color, format, gl_type: output.to_pixel_type() })
}

} // verus!
