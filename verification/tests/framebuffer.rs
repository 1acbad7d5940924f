use glium::fbo::{
    FramebufferLookup, FramebuffersContainer, is_dimensions_mismatch_supported, plan_framebuffer_object, DepthStencilAttachments, DrawBuffersCall,
    FramebufferAttachments, FramebufferCreation, FramebufferSpecificAttachments, LayeredAttachment,
    RawAttachment, RegularAttachment, ValidationError,
};
use glium::framebuffer::render_buffer::{DeleteRenderbuffersFunction, RenderbufferStorage};
use glium::framebuffer::{
    ColorAttachment, DepthAttachment, DepthStencilAttachment, MultiOutputFrameBuffer, SimpleFrameBuffer,
    StencilAttachment, DefaultFramebuffer, DefaultFramebufferAttachment, DepthRenderBuffer,
    DepthStencilRenderBuffer, EmptyFrameBuffer, RenderBuffer, RenderBufferCreationError,
    StencilRenderBuffer, ToColorAttachment,
};
use glium::gl;
use glium::image_format::{
    DepthFormat, DepthStencilFormat, StencilFormat, TextureFormatRequest, UncompressedFloatFormat,
};
use glium::texture::{CubeLayer, TextureAny, TextureAnyImage, TextureAnyMipmap, TextureKind};
use glium::version::{Api, Backend, Capabilities, ExtensionsList, Version};

fn caps() -> Capabilities {
    Capabilities {
        max_color_attachments: 4,
        max_draw_buffers: 4,
        max_framebuffer_width: Some(1024),
        max_framebuffer_height: Some(512),
        max_framebuffer_layers: Some(8),
        max_framebuffer_samples: Some(4),
        max_patch_vertices: None,
    }
}

fn backend(api: Api, major: u8, minor: u8) -> Backend {
    Backend { version: Version(api, major, minor), extensions: ExtensionsList::default(), capabilities: caps() }
}

fn texture(id: u32, samples: Option<u32>) -> TextureAny {
    TextureAny {
        id,
        bind_point: gl::TEXTURE_2D,
        kind: TextureKind::Float,
        requested_format: TextureFormatRequest::AnyFloatingPoint,
        samples,
        internal_format_bits: Some(32),
        depth_bits: 24,
        stencil_bits: 8,
    }
}

fn image(id: u32, width: u32, height: u32, samples: Option<u32>) -> TextureAnyImage {
    TextureAnyImage {
        texture: texture(id, samples),
        level: 0,
        layer: 0,
        cubemap_layer: None,
        width,
        height: Some(height),
    }
}

fn regular<'a>(colors: Vec<(u32, RegularAttachment<'a>)>, ds: DepthStencilAttachments<RegularAttachment<'a>>) -> FramebufferAttachments<'a> {
    FramebufferAttachments::Regular(FramebufferSpecificAttachments { colors, depth_stencil: ds })
}

#[test]
fn dimensions_mismatch_support() {
    assert!(is_dimensions_mismatch_supported(&backend(Api::Gl, 3, 0)));
    assert!(is_dimensions_mismatch_supported(&backend(Api::GlEs, 2, 0)));
    assert!(!is_dimensions_mismatch_supported(&backend(Api::Gl, 2, 1)));
    let mut b = backend(Api::Gl, 2, 1);
    b.extensions.gl_arb_framebuffer_object = true;
    assert!(is_dimensions_mismatch_supported(&b));
}

#[test]
fn validation_takes_the_intersection() {
    let b = backend(Api::Gl, 3, 3);
    let a = regular(
        vec![
            (0, RegularAttachment::Texture(image(1, 640, 480, None))),
            (1, RegularAttachment::Texture(image(2, 320, 600, None))),
        ],
        DepthStencilAttachments::NoAttachment,
    );
    let v = a.validate(&b).unwrap();
    assert_eq!(v.get_dimensions(), (320, 480));
    assert!(!v.is_layered());
    assert_eq!(v.get_depth_buffer_bits(), None);
    assert_eq!(v.get_stencil_buffer_bits(), None);
    let raw = v.get_raw();
    assert_eq!(raw.color.len(), 2);
    assert_eq!(raw.color[1].0, 1);
    assert_eq!(
        raw.color[1].1,
        RawAttachment::Texture { bind_point: gl::TEXTURE_2D, texture: 2, layer: Some(0), level: 0, cubemap_layer: None }
    );
}

#[test]
fn validation_refuses_mismatches() {
    // Different dimensions on a backend that doesn't support them.
    let old = backend(Api::Gl, 2, 1);
    let a = regular(
        vec![
            (0, RegularAttachment::Texture(image(1, 640, 480, None))),
            (1, RegularAttachment::Texture(image(2, 320, 480, None))),
        ],
        DepthStencilAttachments::NoAttachment,
    );
    assert_eq!(a.validate(&old).err(), Some(ValidationError::DimensionsMismatchNotSupported));
    // Different numbers of samples.
    let b = backend(Api::Gl, 3, 3);
    let a = regular(
        vec![(0, RegularAttachment::Texture(image(1, 64, 64, Some(4))))],
        DepthStencilAttachments::DepthAttachment(RegularAttachment::Texture(image(2, 64, 64, None))),
    );
    assert_eq!(a.validate(&b).err(), Some(ValidationError::SamplesCountMismatch));
    // Too many color attachments, and an index out of range.
    let many: Vec<(u32, RegularAttachment)> =
        (0..5).map(|i| (i, RegularAttachment::Texture(image(i + 1, 64, 64, None)))).collect();
    assert_eq!(
        regular(many, DepthStencilAttachments::NoAttachment).validate(&b).err(),
        Some(ValidationError::TooManyColorAttachments { maximum: 4, obtained: 5 })
    );
    let a = regular(
        vec![(7, RegularAttachment::Texture(image(1, 64, 64, None)))],
        DepthStencilAttachments::NoAttachment,
    );
    assert_eq!(a.validate(&b).err(), Some(ValidationError::TooManyColorAttachments { maximum: 4, obtained: 7 }));
    // No attachment at all.
    let a = regular(vec![], DepthStencilAttachments::NoAttachment);
    assert_eq!(a.validate(&b).err(), Some(ValidationError::EmptyFramebufferObjectsNotSupported));
}

#[test]
fn validation_of_depth_and_stencil() {
    let b = backend(Api::Gl, 3, 3);
    let rb = DepthStencilRenderBuffer::new(&b, DepthStencilFormat::I24I8, 64, 64).unwrap();
    let mut any = *rb.buffer();
    any.set_created(9, (24, 8));
    let a = regular(
        vec![(0, RegularAttachment::Texture(image(1, 64, 64, None)))],
        DepthStencilAttachments::DepthStencilAttachment(RegularAttachment::RenderBuffer(&any)),
    );
    let v = a.validate(&b).unwrap();
    assert_eq!(v.get_depth_buffer_bits(), Some(24));
    assert_eq!(v.get_stencil_buffer_bits(), Some(8));
    assert_eq!(v.get_raw().depth_stencil, Some(RawAttachment::RenderBuffer(9)));
    // A separate depth texture gives the bits of its internal format.
    let a = regular(
        vec![],
        DepthStencilAttachments::DepthAndStencilAttachments(
            RegularAttachment::Texture(image(3, 32, 32, None)),
            RegularAttachment::Texture(image(4, 32, 32, None)),
        ),
    );
    let v = a.validate(&b).unwrap();
    assert_eq!(v.get_dimensions(), (32, 32));
    assert_eq!(v.get_depth_buffer_bits(), Some(32));
    assert_eq!(v.get_stencil_buffer_bits(), Some(32));
}

#[test]
fn validation_of_layered_attachments() {
    let b = backend(Api::Gl, 4, 0);
    let mip = TextureAnyMipmap { texture: texture(5, None), level: 1, width: 128, height: None, layers: 6 };
    let a = FramebufferAttachments::Layered(FramebufferSpecificAttachments {
        colors: vec![(0, LayeredAttachment(mip))],
        depth_stencil: DepthStencilAttachments::NoAttachment,
    });
    let v = a.validate(&b).unwrap();
    assert!(v.is_layered());
    assert_eq!(v.get_dimensions(), (128, 1));
    assert_eq!(
        v.get_raw().color[0].1,
        RawAttachment::Texture { bind_point: gl::TEXTURE_2D, texture: 5, layer: None, level: 1, cubemap_layer: None }
    );
}

#[test]
fn empty_framebuffers() {
    let gl43 = backend(Api::Gl, 4, 3);
    assert!(EmptyFrameBuffer::is_supported(&gl43));
    assert!(EmptyFrameBuffer::is_layered_supported(&gl43));
    assert!(!EmptyFrameBuffer::is_supported(&backend(Api::Gl, 4, 2)));
    assert!(EmptyFrameBuffer::is_supported(&backend(Api::GlEs, 3, 1)));
    assert!(!EmptyFrameBuffer::is_layered_supported(&backend(Api::GlEs, 3, 1)));
    assert_eq!(EmptyFrameBuffer::get_max_supported_width(&gl43), Some(1024));
    assert_eq!(EmptyFrameBuffer::get_max_supported_height(&gl43), Some(512));
    assert_eq!(EmptyFrameBuffer::get_max_supported_samples(&gl43), Some(4));
    assert_eq!(EmptyFrameBuffer::get_max_supported_layers(&gl43), Some(8));

    let fb = EmptyFrameBuffer::new(&gl43, 256, 256, Some(2), None, true).unwrap();
    assert_eq!(fb.get_dimensions(), (256, 256));
    let raw = fb.get_attachments().get_raw();
    assert_eq!(raw.default_width, Some(256));
    assert_eq!(raw.default_layers, Some(2));
    assert_eq!(raw.default_samples, Some(0));
    assert_eq!(raw.default_samples_fixed, Some(true));
    assert!(fb.get_attachments().is_layered());

    assert_eq!(
        EmptyFrameBuffer::new(&gl43, 2048, 256, None, None, false).err().map(|e| e),
        Some(ValidationError::EmptyFramebufferUnsupportedDimensions)
    );
    assert_eq!(
        EmptyFrameBuffer::new(&backend(Api::Gl, 3, 3), 256, 256, None, None, false).err(),
        Some(ValidationError::EmptyFramebufferObjectsNotSupported)
    );
    // OpenGL ES 3.1 doesn't set the default number of layers.
    let es31 = backend(Api::GlEs, 3, 1);
    let fb = EmptyFrameBuffer::new(&es31, 16, 16, None, Some(2), false).unwrap();
    assert_eq!(fb.get_attachments().get_raw().default_layers, None);
    assert_eq!(fb.get_attachments().get_raw().default_samples, Some(2));
}

#[test]
fn render_buffers() {
    let b = backend(Api::Gl, 3, 3);
    let rb = RenderBuffer::new(&b, UncompressedFloatFormat::U8U8U8U8, 64, 32).unwrap();
    let any = rb.buffer();
    assert_eq!(any.get_dimensions(), (64, 32));
    assert_eq!(any.get_samples(), None);
    assert_eq!(any.kind(), TextureKind::Float);
    assert_eq!(any.get_format(), gl::RGBA8);
    assert_eq!(any.get_storage(), RenderbufferStorage::Regular);
    assert_eq!(any.get_id(), 0);
    assert_eq!(any.get_context().version, Version(Api::Gl, 3, 3));

    let d = DepthRenderBuffer::new(&b, DepthFormat::I24, 8, 8).unwrap();
    assert_eq!(d.buffer().get_format(), gl::DEPTH_COMPONENT24);
    assert_eq!(d.buffer().kind(), TextureKind::Depth);
    let s = StencilRenderBuffer::new(&b, StencilFormat::I8, 8, 8).unwrap();
    assert_eq!(s.buffer().get_format(), gl::STENCIL_INDEX8);

    let dsa = backend(Api::Gl, 4, 5);
    let rb = RenderBuffer::new(&dsa, UncompressedFloatFormat::U8U8U8U8, 1, 1).unwrap();
    assert_eq!(rb.buffer().get_storage(), RenderbufferStorage::DirectStateAccess);

    // Depth-stencil formats need OpenGL 3.0 or an extension.
    let mut old = backend(Api::Gl, 2, 1);
    old.extensions.gl_ext_framebuffer_object = true;
    assert_eq!(
        DepthStencilRenderBuffer::new(&old, DepthStencilFormat::I24I8, 8, 8).err(),
        Some(RenderBufferCreationError::FormatNotSupported)
    );
    let rb = RenderBuffer::new(&old, UncompressedFloatFormat::U8U8U8U8, 4, 4).unwrap();
    assert_eq!(rb.buffer().get_storage(), RenderbufferStorage::Ext);
}

#[test]
fn color_attachments() {
    let b = backend(Api::Gl, 3, 3);
    let rb = RenderBuffer::new(&b, UncompressedFloatFormat::U8U8U8U8, 4, 4).unwrap();
    match (&rb).to_color_attachment() {
        ColorAttachment::RenderBuffer(r) => assert_eq!(r.buffer().get_dimensions(), (4, 4)),
        ColorAttachment::Texture(_) => panic!("expected a render buffer"),
    }
    let fb = DefaultFramebuffer::back_left(&b);
    assert_eq!(fb.get_attachment(), DefaultFramebufferAttachment::BackLeft);
    assert_eq!(CubeLayer::NegativeY.get_layer_index(), 3);
}

#[test]
fn framebuffer_object_plan() {
    let b = backend(Api::Gl, 3, 3);
    let a = regular(
        vec![
            (2, RegularAttachment::Texture(image(1, 8, 8, None))),
            (0, RegularAttachment::Texture(image(2, 8, 8, None))),
        ],
        DepthStencilAttachments::NoAttachment,
    );
    let v = a.validate(&b).unwrap();
    let plan = plan_framebuffer_object(&b, v.get_raw());
    assert_eq!(plan.creation, FramebufferCreation::Regular);
    assert_eq!(plan.draw_buffers, vec![gl::COLOR_ATTACHMENT0 + 1, gl::NONE, gl::COLOR_ATTACHMENT0]);
    assert_eq!(plan.draw_buffers_call, Some(DrawBuffersCall::Regular));

    let a = regular(vec![(0, RegularAttachment::Texture(image(1, 8, 8, None)))], DepthStencilAttachments::NoAttachment);
    let v = a.validate(&b).unwrap();
    let plan = plan_framebuffer_object(&b, v.get_raw());
    assert_eq!(plan.draw_buffers, vec![gl::COLOR_ATTACHMENT0]);
    assert_eq!(plan.draw_buffers_call, None);

    let dsa = backend(Api::Gl, 4, 5);
    let fb = EmptyFrameBuffer::new(&dsa, 4, 4, None, None, false).unwrap();
    let plan = plan_framebuffer_object(&dsa, fb.get_attachments().get_raw());
    assert_eq!(plan.creation, FramebufferCreation::DirectStateAccess);
    assert_eq!(plan.draw_buffers, Vec::<u32>::new());
    assert_eq!(plan.draw_buffers_call, Some(DrawBuffersCall::DirectStateAccess));
}

#[test]
fn validation_error_descriptions() {
    assert_eq!(
        ValidationError::SamplesCountMismatch.description(),
        "All attachments must have the same number of samples"
    );
    assert_eq!(
        RenderBufferCreationError::FormatNotSupported.description(),
        "The requested format is not supported"
    );
}

fn raw_texture(id: u32) -> RawAttachment {
    RawAttachment::Texture { bind_point: gl::TEXTURE_2D, texture: id, layer: Some(0), level: 0, cubemap_layer: None }
}

#[test]
fn simple_framebuffers() {
    let b = backend(Api::Gl, 3, 3);
    let color = ColorAttachment::Texture(image(1, 64, 48, None));
    let fb = SimpleFrameBuffer::new(&b, color).unwrap();
    assert_eq!(fb.get_dimensions(), (64, 48));
    assert_eq!(fb.get_depth_buffer_bits(), None);
    assert_eq!(fb.get_attachments().get_raw().color, vec![(0, raw_texture(1))]);

    let depth = DepthAttachment::Texture(image(2, 32, 100, None));
    let stencil = StencilAttachment::Texture(image(3, 64, 64, None));
    let fb = SimpleFrameBuffer::with_depth_and_stencil_buffer(&b, color, depth, stencil).unwrap();
    assert_eq!(fb.get_dimensions(), (32, 48));
    assert_eq!(fb.get_depth_buffer_bits(), Some(32));
    assert_eq!(fb.get_stencil_buffer_bits(), Some(32));
    let raw = fb.get_attachments().get_raw();
    assert_eq!(raw.depth, Some(raw_texture(2)));
    assert_eq!(raw.stencil, Some(raw_texture(3)));
    assert_eq!(raw.depth_stencil, None);

    let fb = SimpleFrameBuffer::depth_stencil_only(&b, DepthStencilAttachment::Texture(image(4, 8, 8, None))).unwrap();
    assert_eq!(fb.get_attachments().get_raw().color, vec![]);
    assert_eq!(fb.get_attachments().get_raw().depth_stencil, Some(raw_texture(4)));
    assert_eq!(fb.get_depth_buffer_bits(), Some(24));
    assert_eq!(fb.get_stencil_buffer_bits(), Some(8));

    // Attachments of different sizes are refused on old hardware.
    let old = backend(Api::Gl, 2, 1);
    assert_eq!(
        SimpleFrameBuffer::with_depth_buffer(&old, color, depth).err(),
        Some(ValidationError::DimensionsMismatchNotSupported)
    );
    // Multisampling must match.
    let ms = StencilAttachment::Texture(image(5, 64, 48, Some(4)));
    assert_eq!(
        SimpleFrameBuffer::with_stencil_buffer(&b, color, ms).err(),
        Some(ValidationError::SamplesCountMismatch)
    );
    let fb = SimpleFrameBuffer::stencil_only(&b, ms).unwrap();
    assert_eq!(fb.get_dimensions(), (64, 48));
    let fb = SimpleFrameBuffer::depth_and_stencil_only(&b, depth, stencil).unwrap();
    assert_eq!(fb.get_dimensions(), (32, 64));
    let fb = SimpleFrameBuffer::depth_only(&b, depth).unwrap();
    assert_eq!(fb.get_dimensions(), (32, 100));
    let fb = SimpleFrameBuffer::with_depth_stencil_buffer(&b, color, DepthStencilAttachment::Texture(image(6, 64, 48, None))).unwrap();
    assert_eq!(fb.get_attachments().get_raw().depth_stencil, Some(raw_texture(6)));
}

#[test]
fn simple_framebuffer_with_render_buffer() {
    let b = backend(Api::Gl, 3, 3);
    let rb = RenderBuffer::new(&b, UncompressedFloatFormat::U8U8U8U8, 16, 16).unwrap();
    let fb = SimpleFrameBuffer::new(&b, &rb).unwrap();
    assert_eq!(fb.get_dimensions(), (16, 16));
    assert_eq!(fb.get_attachments().get_raw().color, vec![(0, RawAttachment::RenderBuffer(0))]);
}

#[test]
fn multi_output_framebuffers() {
    let b = backend(Api::Gl, 3, 3);
    let colors = vec![
        ("color", ColorAttachment::Texture(image(1, 64, 64, None))),
        ("normal", ColorAttachment::Texture(image(2, 64, 32, None))),
    ];
    let fb = MultiOutputFrameBuffer::with_depth_buffer(&b, colors, DepthAttachment::Texture(image(3, 64, 64, None)))
        .unwrap();
    assert_eq!(fb.get_dimensions(), (64, 32));
    assert_eq!(fb.get_output_names(), vec!["color".to_string(), "normal".to_string()]);
    let built = fb.build_attachments(&[Some(2), Some(0)]);
    assert_eq!(built.get_raw().color, vec![(2, raw_texture(1)), (0, raw_texture(2))]);
    assert_eq!(built.get_raw().depth, Some(raw_texture(3)));
    assert_eq!(built.get_dimensions(), (64, 32));

    let too_many = vec![
        ("a", ColorAttachment::Texture(image(1, 8, 8, None))),
        ("b", ColorAttachment::Texture(image(2, 8, 8, None))),
        ("c", ColorAttachment::Texture(image(3, 8, 8, None))),
        ("d", ColorAttachment::Texture(image(4, 8, 8, None))),
        ("e", ColorAttachment::Texture(image(5, 8, 8, None))),
    ];
    assert_eq!(
        MultiOutputFrameBuffer::new(&b, too_many).err(),
        Some(ValidationError::TooManyColorAttachments { maximum: 4, obtained: 5 })
    );
    let one = vec![("out", ColorAttachment::Texture(image(1, 8, 8, None)))];
    assert!(MultiOutputFrameBuffer::with_stencil_buffer(&b, one.clone(), StencilAttachment::Texture(image(2, 8, 8, None))).is_ok());
    assert!(MultiOutputFrameBuffer::with_depth_and_stencil_buffer(
        &b,
        one.clone(),
        DepthAttachment::Texture(image(2, 8, 8, None)),
        StencilAttachment::Texture(image(3, 8, 8, None))
    )
    .is_ok());
    assert!(MultiOutputFrameBuffer::with_depth_stencil_buffer(&b, one, DepthStencilAttachment::Texture(image(2, 8, 8, None))).is_ok());
}

#[test]
fn render_buffer_deletion() {
    let b = backend(Api::Gl, 3, 3);
    let rb = RenderBuffer::new(&b, UncompressedFloatFormat::U8U8U8U8, 4, 4).unwrap();
    let mut any = *rb.buffer();
    any.set_created(7, (0, 0));
    let mut bound = 7;
    assert_eq!(any.destroy(&mut bound), DeleteRenderbuffersFunction::Core);
    assert_eq!(bound, 0);
    let mut bound = 2;
    any.destroy(&mut bound);
    assert_eq!(bound, 2);
    let mut old = backend(Api::Gl, 2, 1);
    old.extensions.gl_ext_framebuffer_object = true;
    let rb = RenderBuffer::new(&old, UncompressedFloatFormat::U8U8U8U8, 4, 4).unwrap();
    assert_eq!(rb.buffer().destroy(&mut bound), DeleteRenderbuffersFunction::Ext);
}

#[test]
fn framebuffer_object_cache() {
    let b = backend(Api::Gl, 3, 3);
    let mut cache = FramebuffersContainer::new();
    let a = regular(vec![(0, RegularAttachment::Texture(image(1, 8, 8, None)))], DepthStencilAttachments::NoAttachment)
        .validate(&b)
        .unwrap();
    let rb = DepthRenderBuffer::new(&b, DepthFormat::I24, 8, 8).unwrap();
    let mut depth = *rb.buffer();
    depth.set_created(5, (24, 0));
    let c = regular(
        vec![(0, RegularAttachment::Texture(image(2, 8, 8, None)))],
        DepthStencilAttachments::DepthAttachment(RegularAttachment::RenderBuffer(&depth)),
    )
    .validate(&b)
    .unwrap();
    assert_eq!(cache.get_framebuffer_for_drawing(None), FramebufferLookup::Default);
    assert_eq!(cache.get_framebuffer_for_drawing(Some(&a)), FramebufferLookup::Build);
    cache.insert(a.get_raw(), 10);
    cache.insert(c.get_raw(), 11);
    assert_eq!(cache.get_framebuffer_for_drawing(Some(&a)), FramebufferLookup::Cached(10));
    assert_eq!(cache.lookup(c.get_raw()), Some(11));
    assert_eq!(cache.purge_texture(3), Vec::<u32>::new());
    assert_eq!(cache.purge_renderbuffer(5), vec![11]);
    assert_eq!(cache.lookup(c.get_raw()), None);
    assert_eq!(cache.lookup(a.get_raw()), Some(10));
    assert_eq!(cache.purge_texture(1), vec![10]);
    cache.insert(a.get_raw(), 12);
    cache.insert(c.get_raw(), 13);
    assert_eq!(cache.purge_all(), vec![12, 13]);
    assert_eq!(cache.lookup(a.get_raw()), None);
}

#[test]
fn layered_framebuffers_are_layered() {
    let b = backend(Api::Gl, 4, 3);
    let mip = |id, layers| TextureAnyMipmap { texture: texture(id, None), level: 0, width: 16, height: Some(16), layers };
    let a = FramebufferAttachments::Layered(FramebufferSpecificAttachments {
        colors: vec![(0, LayeredAttachment(mip(1, 6))), (1, LayeredAttachment(mip(2, 4)))],
        depth_stencil: DepthStencilAttachments::NoAttachment,
    });
    assert!(a.validate(&b).unwrap().is_layered());
    let r = regular(vec![(0, RegularAttachment::Texture(image(1, 8, 8, None)))], DepthStencilAttachments::NoAttachment);
    assert!(!r.validate(&b).unwrap().is_layered());
    let layered_empty = FramebufferAttachments::Empty { width: 8, height: 8, layers: Some(3), samples: None, fixed_samples: false };
    assert!(layered_empty.validate(&b).unwrap().is_layered());
    let flat_empty = FramebufferAttachments::Empty { width: 8, height: 8, layers: None, samples: None, fixed_samples: false };
    assert!(!flat_empty.validate(&b).unwrap().is_layered());
}

#[test]
fn render_buffers_without_support() {
    let old = backend(Api::Gl, 2, 1);
    assert_eq!(
        DepthStencilRenderBuffer::new(&old, DepthStencilFormat::I24I8, 8, 8).err(),
        Some(RenderBufferCreationError::FormatNotSupported)
    );
}
