use glium::gl;
use glium::image_format::{
    client_format_to_glenum, format_request_to_glenum, ClientFormat, ClientFormatAny,
    CompressedFormat, CompressedSrgbFormat, DepthFormat, DepthStencilFormat, FormatNotSupportedError,
    RequestType, SrgbFormat, StencilFormat, TextureFormat, TextureFormatRequest,
    UncompressedFloatFormat, UncompressedIntFormat, UncompressedUintFormat,
};
use glium::version::{Api, Backend, Capabilities, ExtensionsList, Version};

fn caps() -> Capabilities {
    Capabilities {
        max_color_attachments: 8,
        max_draw_buffers: 8,
        max_framebuffer_width: None,
        max_framebuffer_height: None,
        max_framebuffer_layers: None,
        max_framebuffer_samples: None,
        max_patch_vertices: None,
    }
}

fn backend(api: Api, major: u8, minor: u8) -> Backend {
    Backend {
        version: Version(api, major, minor),
        extensions: ExtensionsList::default(),
        capabilities: caps(),
    }
}

fn with_ext(mut b: Backend, f: impl Fn(&mut ExtensionsList)) -> Backend {
    f(&mut b.extensions);
    b
}

#[test]
fn any_float_on_gl3() {
    let b = backend(Api::Gl, 3, 3);
    assert_eq!(
        format_request_to_glenum(&b, TextureFormatRequest::AnyFloatingPoint, RequestType::TexImage(None)),
        Ok(gl::RGBA)
    );
    assert_eq!(
        format_request_to_glenum(&b, TextureFormatRequest::AnyFloatingPoint, RequestType::TexStorage),
        Ok(gl::RGBA8)
    );
    let rgb = RequestType::TexImage(Some(ClientFormatAny::ClientFormat(ClientFormat::U8U8U8)));
    assert_eq!(format_request_to_glenum(&b, TextureFormatRequest::AnyFloatingPoint, rgb), Ok(gl::RGB));
    let red = RequestType::TexImage(Some(ClientFormatAny::ClientFormat(ClientFormat::F32)));
    assert_eq!(format_request_to_glenum(&b, TextureFormatRequest::AnyFloatingPoint, red), Ok(gl::RED));
}

#[test]
fn any_float_on_old_backends() {
    // OpenGL 2.1 without GL_ARB_texture_rg cannot store two components in a render buffer.
    let b = backend(Api::Gl, 2, 1);
    let rg = RequestType::TexImage(Some(ClientFormatAny::ClientFormat(ClientFormat::U8U8)));
    assert_eq!(format_request_to_glenum(&b, TextureFormatRequest::AnyFloatingPoint, rg), Ok(gl::RG));
    assert_eq!(
        format_request_to_glenum(&b, TextureFormatRequest::AnyFloatingPoint, RequestType::Renderbuffer),
        Ok(gl::RGBA8)
    );
    // OpenGL 1.0: number of components as internal format, no sized formats.
    let b = backend(Api::Gl, 1, 0);
    let three = RequestType::TexImage(Some(ClientFormatAny::ClientFormat(ClientFormat::U8U8U8)));
    assert_eq!(format_request_to_glenum(&b, TextureFormatRequest::AnyFloatingPoint, three), Ok(3));
    assert_eq!(
        format_request_to_glenum(&b, TextureFormatRequest::AnyFloatingPoint, RequestType::TexStorage),
        Err(FormatNotSupportedError)
    );
    // OpenGL ES 2.0 without extensions falls back to 16-bit formats for render buffers.
    let b = backend(Api::GlEs, 2, 0);
    assert_eq!(
        format_request_to_glenum(&b, TextureFormatRequest::AnyFloatingPoint, RequestType::Renderbuffer),
        Ok(gl::RGB5_A1)
    );
    let b = with_ext(backend(Api::GlEs, 2, 0), |e| e.gl_oes_rgb8_rgba8 = true);
    assert_eq!(
        format_request_to_glenum(&b, TextureFormatRequest::AnyFloatingPoint, RequestType::Renderbuffer),
        Ok(gl::RGBA8_OES)
    );
}

#[test]
fn specific_formats() {
    let b = backend(Api::Gl, 3, 0);
    let rgba8 = TextureFormatRequest::Specific(TextureFormat::UncompressedFloat(UncompressedFloatFormat::U8U8U8U8));
    assert_eq!(format_request_to_glenum(&b, rgba8, RequestType::Renderbuffer), Ok(gl::RGBA8));
    // Signed normalized formats need OpenGL 3.2 or GL_EXT_texture_snorm.
    let snorm = TextureFormatRequest::Specific(TextureFormat::UncompressedFloat(UncompressedFloatFormat::I8));
    assert_eq!(format_request_to_glenum(&b, snorm, RequestType::TexStorage), Err(FormatNotSupportedError));
    let b32 = backend(Api::Gl, 3, 2);
    assert_eq!(format_request_to_glenum(&b32, snorm, RequestType::TexStorage), Ok(gl::R8_SNORM));
    // Stencil formats differ between textures and render buffers.
    let stencil = TextureFormatRequest::AnyStencil;
    assert_eq!(format_request_to_glenum(&b, stencil, RequestType::Renderbuffer), Ok(gl::STENCIL_INDEX8));
}

#[test]
fn depth_and_stencil_requests() {
    let b = backend(Api::Gl, 2, 0);
    assert_eq!(
        format_request_to_glenum(&b, TextureFormatRequest::AnyDepth, RequestType::TexImage(None)),
        Ok(gl::DEPTH_COMPONENT)
    );
    assert_eq!(
        format_request_to_glenum(&b, TextureFormatRequest::AnyDepth, RequestType::Renderbuffer),
        Ok(gl::DEPTH_COMPONENT24)
    );
    let old = backend(Api::Gl, 1, 4);
    assert_eq!(
        format_request_to_glenum(&old, TextureFormatRequest::AnyDepth, RequestType::Renderbuffer),
        Err(FormatNotSupportedError)
    );
    assert_eq!(
        format_request_to_glenum(&old, TextureFormatRequest::AnyDepth, RequestType::TexImage(None)),
        Ok(gl::DEPTH_COMPONENT)
    );
    let gl3 = backend(Api::Gl, 3, 0);
    assert_eq!(
        format_request_to_glenum(&gl3, TextureFormatRequest::AnyDepthStencil, RequestType::Renderbuffer),
        Ok(gl::DEPTH24_STENCIL8)
    );
    let packed = with_ext(backend(Api::Gl, 2, 1), |e| e.gl_ext_packed_depth_stencil = true);
    assert_eq!(
        format_request_to_glenum(&packed, TextureFormatRequest::AnyDepthStencil, RequestType::TexImage(None)),
        Ok(gl::DEPTH_STENCIL_EXT)
    );
    assert_eq!(
        format_request_to_glenum(&b, TextureFormatRequest::AnyDepthStencil, RequestType::TexStorage),
        Err(FormatNotSupportedError)
    );
}

#[test]
fn integral_requests() {
    let gl3 = backend(Api::Gl, 3, 0);
    let ii = RequestType::TexImage(Some(ClientFormatAny::ClientFormat(ClientFormat::I32I32)));
    assert_eq!(format_request_to_glenum(&gl3, TextureFormatRequest::AnyIntegral, ii), Ok(gl::RG32I));
    assert_eq!(
        format_request_to_glenum(&gl3, TextureFormatRequest::AnyUnsigned, RequestType::TexStorage),
        Ok(gl::RGBA32UI)
    );
    let gl2 = backend(Api::Gl, 2, 1);
    assert_eq!(
        format_request_to_glenum(&gl2, TextureFormatRequest::AnyIntegral, RequestType::TexStorage),
        Err(FormatNotSupportedError)
    );
    let ext = with_ext(backend(Api::Gl, 2, 1), |e| e.gl_ext_texture_integer = true);
    assert_eq!(
        format_request_to_glenum(&ext, TextureFormatRequest::AnyIntegral, RequestType::TexStorage),
        Ok(gl::RGBA32I_EXT)
    );
    let red = RequestType::TexImage(Some(ClientFormatAny::ClientFormat(ClientFormat::U32)));
    assert_eq!(
        format_request_to_glenum(&ext, TextureFormatRequest::AnyUnsigned, red),
        Err(FormatNotSupportedError)
    );
}

#[test]
fn srgb_and_compressed_requests() {
    let b = backend(Api::Gl, 2, 1);
    let rgba = RequestType::TexImage(Some(ClientFormatAny::ClientFormat(ClientFormat::U8U8U8U8)));
    assert_eq!(format_request_to_glenum(&b, TextureFormatRequest::AnySrgb, rgba), Ok(gl::SRGB8_ALPHA8));
    assert_eq!(
        format_request_to_glenum(&b, TextureFormatRequest::AnySrgb, RequestType::TexImage(None)),
        Ok(gl::SRGB8)
    );
    let gl3 = backend(Api::Gl, 3, 0);
    let rgb = RequestType::TexImage(Some(ClientFormatAny::ClientFormat(ClientFormat::U8U8U8)));
    assert_eq!(format_request_to_glenum(&gl3, TextureFormatRequest::AnyCompressed, rgb), Ok(gl::COMPRESSED_RGB));
    assert_eq!(
        format_request_to_glenum(&gl3, TextureFormatRequest::AnyCompressed, RequestType::TexStorage),
        Err(FormatNotSupportedError)
    );
    let rgtc = RequestType::TexImage(Some(ClientFormatAny::CompressedFormat(CompressedFormat::RgtcFormatU)));
    assert_eq!(
        format_request_to_glenum(&gl3, TextureFormatRequest::AnyCompressed, rgtc),
        Ok(gl::COMPRESSED_RED_RGTC1)
    );
    let gl4 = backend(Api::Gl, 4, 0);
    assert_eq!(
        format_request_to_glenum(&gl4, TextureFormatRequest::AnyCompressedSrgb, RequestType::TexImage(None)),
        Ok(gl::COMPRESSED_SRGB_ALPHA)
    );
    let bptc = RequestType::TexImage(Some(ClientFormatAny::CompressedSrgbFormat(CompressedSrgbFormat::Bptc)));
    assert_eq!(
        format_request_to_glenum(&gl4, TextureFormatRequest::AnyCompressedSrgb, bptc),
        Err(FormatNotSupportedError)
    );
    let gl42 = backend(Api::Gl, 4, 2);
    assert_eq!(
        format_request_to_glenum(&gl42, TextureFormatRequest::AnyCompressedSrgb, bptc),
        Ok(gl::COMPRESSED_SRGB_ALPHA_BPTC_UNORM)
    );
}

#[test]
fn client_formats_for_upload() {
    let b = backend(Api::Gl, 3, 3);
    let rgb = ClientFormatAny::ClientFormat(ClientFormat::U8U8U8);
    assert_eq!(
        client_format_to_glenum(&b, rgb, TextureFormatRequest::AnyFloatingPoint, false),
        Ok((gl::RGB, gl::UNSIGNED_BYTE))
    );
    assert_eq!(
        client_format_to_glenum(&b, rgb, TextureFormatRequest::AnyFloatingPoint, true),
        Ok((gl::BGR, gl::UNSIGNED_BYTE))
    );
    let rgba = ClientFormatAny::ClientFormat(ClientFormat::U5U5U5U1);
    assert_eq!(
        client_format_to_glenum(&b, rgba, TextureFormatRequest::AnySrgb, true),
        Ok((gl::BGRA, gl::UNSIGNED_SHORT_5_5_5_1))
    );
    let red = ClientFormatAny::ClientFormat(ClientFormat::U8);
    assert_eq!(
        client_format_to_glenum(&b, red, TextureFormatRequest::AnyFloatingPoint, true),
        Err(FormatNotSupportedError)
    );
    let rg16 = ClientFormatAny::ClientFormat(ClientFormat::U16U16);
    assert_eq!(
        client_format_to_glenum(&b, rg16, TextureFormatRequest::AnyUnsigned, false),
        Ok((gl::RG_INTEGER, gl::UNSIGNED_SHORT))
    );
    let f32 = ClientFormatAny::ClientFormat(ClientFormat::F32);
    assert_eq!(
        client_format_to_glenum(&b, f32, TextureFormatRequest::AnyDepth, false),
        Ok((gl::DEPTH_COMPONENT, gl::FLOAT))
    );
    let i8 = ClientFormatAny::ClientFormat(ClientFormat::I8);
    assert_eq!(
        client_format_to_glenum(&b, i8, TextureFormatRequest::AnyStencil, false),
        Ok((gl::RED_INTEGER, gl::BYTE))
    );
    let dxt1 = ClientFormatAny::CompressedFormat(CompressedFormat::S3tcDxt1NoAlpha);
    assert_eq!(
        client_format_to_glenum(&b, dxt1, TextureFormatRequest::AnyCompressed, false),
        Err(FormatNotSupportedError)
    );
    let s3tc = with_ext(backend(Api::Gl, 3, 3), |e| e.gl_ext_texture_compression_s3tc = true);
    assert_eq!(
        client_format_to_glenum(&s3tc, dxt1, TextureFormatRequest::AnyCompressed, false),
        Ok((gl::COMPRESSED_RGB_S3TC_DXT1_EXT, gl::COMPRESSED_RGB_S3TC_DXT1_EXT))
    );
}

#[test]
fn client_format_sizes() {
    assert_eq!(ClientFormat::U8U8U8.get_size(), 3);
    assert_eq!(ClientFormat::U16U16U16U16.get_size(), 8);
    assert_eq!(ClientFormat::U5U6U5.get_size(), 2);
    assert_eq!(ClientFormat::F32F32F32F32.get_size(), 16);
    assert_eq!(ClientFormat::U10U10U10U2.get_num_components(), 4);
    assert_eq!(ClientFormat::U3U3U2.get_num_components(), 3);
    assert_eq!(ClientFormat::I16.to_pixel_type(), gl::SHORT);
}

#[test]
fn buffer_sizes() {
    let rgba = ClientFormatAny::ClientFormat(ClientFormat::U8U8U8U8);
    assert_eq!(rgba.get_buffer_size(16, Some(8), None, None), 16 * 8 * 4);
    assert_eq!(rgba.get_buffer_size(16, Some(8), Some(2), Some(3)), 16 * 8 * 4 * 2 * 3);
    // 8 bytes per block of 4x4 pixels.
    let dxt1 = ClientFormatAny::CompressedFormat(CompressedFormat::S3tcDxt1Alpha);
    assert_eq!(dxt1.get_buffer_size(16, Some(16), None, None), 16 * 8);
    // Smaller images still take one block.
    assert_eq!(dxt1.get_buffer_size(2, Some(2), None, None), 8);
    // 16 bytes per block.
    let dxt5 = ClientFormatAny::CompressedSrgbFormat(CompressedSrgbFormat::S3tcDxt5Alpha);
    assert_eq!(dxt5.get_buffer_size(16, Some(16), None, Some(2)), 16 * 16 * 2);
    assert!(dxt5.is_compressed());
    assert!(!rgba.is_compressed());
    assert_eq!(rgba.get_num_components(), 4);
}

#[test]
fn compressed_formats_from_glenum() {
    assert_eq!(
        ClientFormatAny::from_internal_compressed_format(gl::COMPRESSED_SIGNED_RG_RGTC2),
        Some(ClientFormatAny::CompressedFormat(CompressedFormat::RgtcFormatII))
    );
    assert_eq!(
        ClientFormatAny::from_internal_compressed_format(gl::COMPRESSED_SRGB_ALPHA_BPTC_UNORM),
        Some(ClientFormatAny::CompressedSrgbFormat(CompressedSrgbFormat::Bptc))
    );
    assert_eq!(ClientFormatAny::from_internal_compressed_format(gl::RGBA8), None);
    for f in CompressedFormat::get_formats_list() {
        assert_eq!(
            ClientFormatAny::from_internal_compressed_format(f.to_glenum()),
            Some(ClientFormatAny::CompressedFormat(f))
        );
    }
    for f in CompressedSrgbFormat::get_formats_list() {
        assert_eq!(
            ClientFormatAny::from_internal_compressed_format(f.to_glenum()),
            Some(ClientFormatAny::CompressedSrgbFormat(f))
        );
    }
}

#[test]
fn formats_lists() {
    assert_eq!(UncompressedFloatFormat::get_formats_list().len(), 36);
    assert_eq!(CompressedFormat::get_formats_list().len(), 11);
    let all = TextureFormat::get_formats_list();
    let parts = UncompressedFloatFormat::get_formats_list().len()
        + UncompressedIntFormat::get_formats_list().len()
        + UncompressedUintFormat::get_formats_list().len()
        + SrgbFormat::get_formats_list().len()
        + CompressedFormat::get_formats_list().len()
        + CompressedSrgbFormat::get_formats_list().len()
        + DepthFormat::get_formats_list().len()
        + StencilFormat::get_formats_list().len()
        + DepthStencilFormat::get_formats_list().len();
    assert_eq!(all.len(), parts);
    assert_eq!(all[0], TextureFormat::UncompressedFloat(UncompressedFloatFormat::U8));
    assert!(all.contains(&TextureFormat::DepthStencilFormat(DepthStencilFormat::F32I8)));
    assert_eq!(
        UncompressedFloatFormat::F11F11F10.to_texture_format(),
        TextureFormat::UncompressedFloat(UncompressedFloatFormat::F11F11F10)
    );
}

#[test]
fn support_and_renderability() {
    let gl3 = backend(Api::Gl, 3, 0);
    let gl11 = backend(Api::Gl, 1, 1);
    assert!(UncompressedFloatFormat::U8U8U8U8.is_supported(&gl11));
    assert!(!UncompressedFloatFormat::U8.is_supported(&gl11));
    assert!(UncompressedFloatFormat::U8.is_supported(&gl3));
    assert!(DepthFormat::F32.is_supported(&gl3));
    assert!(!DepthStencilFormat::F32I8.is_supported(&gl11));
    assert!(!TextureFormat::CompressedFormat(CompressedFormat::RgtcFormatU).is_renderable(&gl3));
    assert!(TextureFormat::DepthFormat(DepthFormat::I24).is_renderable(&gl3));
    assert_eq!(FormatNotSupportedError.description(), "Format is not supported by OpenGL");
}

#[test]
fn float_formats_supported_on_recent_backends() {
    for f in UncompressedFloatFormat::get_formats_list() {
        assert!(f.is_supported(&backend(Api::Gl, 3, 2)));
        assert!(f.is_supported(&backend(Api::GlEs, 3, 0)));
    }
    assert!(!UncompressedFloatFormat::I8.is_supported(&backend(Api::Gl, 3, 1)));
}
