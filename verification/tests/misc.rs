use glium::buffer::{BufferAnySlice, BufferCreationError};
use glium::index::buffer::CreationError as IndexCreationError;
use glium::program::{ProgramChooserCreationError, ProgramCreationError};
use glium::fbo::{RawAttachment, RegularAttachment, ValidationError};
use glium::fbo_calls::{
    bind_framebuffer, choose_attach_call, destroy_framebuffer_object, DeleteFramebuffersFunction, AttachFunction, BindTarget, FramebufferBindings,
};
use glium::field::_hidden_field;
use glium::gl;
use glium::image_format::{ClientFormat, TextureFormatRequest};
use glium::index::{IndexType, IndicesSource, PrimitiveType};
use glium::ops::draw::{
    check_vertices_per_patch, choose_draw_command, prepare_draw, DrawPreparation, count_vertices, patch_vertices_update, use_base_vertex,
    DrawCommand, VerticesSourceCount,
};
use glium::ops::read::{plan_read, Destination, ReadError, ReadPlan, Source};
use glium::pixel_buffer::{store_infos, PixelBuffer};
use glium::sampler_object::{get_sampler, SamplerChoice, SamplerObject, SamplersContainer};
use glium::memory_object::{
    MemoryObject, check_created_memory_object, check_memory_object_support, memory_import_parameters, MemoryObjectCreationError,
};
use glium::semaphore::{
    check_imported_semaphore, check_semaphore_support, semaphore_textures, SemaphoreCreationError, TextureLayout,
};
use glium::sync::{choose_fence_sync_method, FenceSyncMethod, LinearSyncFence, SyncNotSupportedError};
use glium::texture::{CubeLayer, TextureAny, TextureAnyImage, TextureKind};
use glium::version::{Api, Backend, Capabilities, ExtensionsList, Version};
use glium::{DrawError, Frame, GlObject, SwapBuffersError};

fn backend(api: Api, major: u8, minor: u8) -> Backend {
    Backend {
        version: Version(api, major, minor),
        extensions: ExtensionsList::default(),
        capabilities: Capabilities {
            max_color_attachments: 8,
            max_draw_buffers: 8,
            max_framebuffer_width: None,
            max_framebuffer_height: None,
            max_framebuffer_layers: None,
            max_framebuffer_samples: None,
            max_patch_vertices: Some(32),
        },
    }
}

#[test]
fn version_order() {
    let a = Version(Api::Gl, 3, 3);
    assert!(a.ge(&Version(Api::Gl, 3, 0)));
    assert!(a.ge(&Version(Api::Gl, 3, 3)));
    assert!(!a.ge(&Version(Api::Gl, 4, 0)));
    assert!(a.lt(&Version(Api::Gl, 4, 0)));
    assert!(a.le(&Version(Api::Gl, 3, 3)));
    // Versions of different APIs are not comparable.
    assert!(!a.ge(&Version(Api::GlEs, 2, 0)));
    assert!(!a.le(&Version(Api::GlEs, 3, 3)));
    assert!(!a.lt(&Version(Api::GlEs, 9, 9)));
}

#[test]
fn frame_finishes_once() {
    let mut frame = Frame::new(backend(Api::Gl, 3, 3), (800, 600));
    assert_eq!(frame.get_dimensions(), (800, 600));
    assert_eq!(frame.set_finish(), Ok(()));
    assert_eq!(frame.set_finish(), Err(SwapBuffersError::AlreadySwapped));
    assert_eq!(frame.finish(), Err(SwapBuffersError::AlreadySwapped));
    let frame = Frame::new(backend(Api::Gl, 3, 3), (1, 1));
    assert_eq!(frame.finish(), Ok(()));
    assert_eq!(SwapBuffersError::AlreadySwapped.description(), "the buffers have already been swapped");
}

#[test]
fn draw_decisions() {
    let b = backend(Api::Gl, 4, 0);
    let patches = IndicesSource::NoIndices { primitives: PrimitiveType::Patches { vertices_per_patch: 3 } };
    assert_eq!(check_vertices_per_patch(&b, &patches).ok(), Some(Some(3)));
    let too_many = IndicesSource::NoIndices { primitives: PrimitiveType::Patches { vertices_per_patch: 33 } };
    assert!(matches!(check_vertices_per_patch(&b, &too_many), Err(DrawError::UnsupportedVerticesPerPatch)));
    let zero = IndicesSource::NoIndices { primitives: PrimitiveType::Patches { vertices_per_patch: 0 } };
    assert!(matches!(check_vertices_per_patch(&b, &zero), Err(DrawError::UnsupportedVerticesPerPatch)));
    let mut no_tess = backend(Api::Gl, 3, 3);
    no_tess.capabilities.max_patch_vertices = None;
    assert!(matches!(check_vertices_per_patch(&no_tess, &patches), Err(DrawError::TessellationNotSupported)));
    let triangles = IndicesSource::NoIndices { primitives: PrimitiveType::TrianglesList };
    assert_eq!(check_vertices_per_patch(&no_tess, &triangles).ok(), Some(None));

    let slice = BufferAnySlice { id: 1, offset_bytes: 0, size_bytes: 6 };
    let indexed = IndicesSource::IndexBuffer { buffer: slice, data_type: IndexType::U16, primitives: PrimitiveType::TrianglesList };
    assert!(use_base_vertex(&backend(Api::Gl, 3, 2), &indexed));
    assert!(!use_base_vertex(&backend(Api::Gl, 3, 1), &indexed));
    assert!(use_base_vertex(&backend(Api::Gl, 2, 0), &triangles));
    let multidraw = IndicesSource::MultidrawArray { buffer: slice, primitives: PrimitiveType::Points };
    assert!(!use_base_vertex(&backend(Api::Gl, 4, 5), &multidraw));

    assert_eq!(patch_vertices_update(3, Some(3)), None);
    assert_eq!(patch_vertices_update(3, Some(4)), Some(4));
    assert_eq!(patch_vertices_update(3, None), None);
}

#[test]
fn vertex_counts() {
    let v = |len, per_instance| VerticesSourceCount { len, per_instance };
    assert_eq!(count_vertices(&[v(6, false), v(6, false), v(2, true)]).ok(), Some((Some(6), Some(2))));
    // Per-vertex sources of different lengths give no number of vertices.
    assert_eq!(count_vertices(&[v(6, false), v(5, false)]).ok(), Some((None, None)));
    // Once two per-vertex sources disagree, the rest is not looked at.
    assert_eq!(count_vertices(&[v(6, false), v(5, false), v(2, true), v(3, true)]).ok(), Some((None, None)));
    assert!(matches!(count_vertices(&[v(2, true), v(3, true)]), Err(DrawError::InstancesCountMismatch)));
    assert_eq!(count_vertices(&[]).ok(), Some((None, None)));

    let b = backend(Api::Gl, 3, 3);
    let triangles = IndicesSource::NoIndices { primitives: PrimitiveType::TrianglesList };
    assert_eq!(choose_draw_command(&b, &triangles, Some(6), None, 0).ok(), Some(DrawCommand::DrawArrays(6)));
    assert_eq!(
        choose_draw_command(&b, &triangles, Some(6), Some(2), 0).ok(),
        Some(DrawCommand::DrawArraysInstanced(6, 2))
    );
    assert!(matches!(
        choose_draw_command(&b, &triangles, None, None, 0),
        Err(DrawError::VerticesSourcesLengthMismatch)
    ));
    let slice = BufferAnySlice { id: 1, offset_bytes: 0, size_bytes: 6 };
    let indexed = IndicesSource::IndexBuffer { buffer: slice, data_type: IndexType::U16, primitives: PrimitiveType::TrianglesList };
    assert_eq!(choose_draw_command(&b, &indexed, None, None, 0).ok(), Some(DrawCommand::DrawElements));
    assert_eq!(choose_draw_command(&b, &indexed, None, Some(3), 5).ok(), Some(DrawCommand::DrawElementsInstancedBaseVertex));
    let mut oes = backend(Api::GlEs, 3, 0);
    oes.extensions.gl_oes_draw_elements_base_vertex = true;
    assert_eq!(choose_draw_command(&oes, &indexed, None, None, 5).ok(), Some(DrawCommand::DrawElementsBaseVertexOes));
}

fn texture_image(requested_format: TextureFormatRequest) -> TextureAnyImage {
    TextureAnyImage {
        texture: TextureAny {
            id: 1,
            bind_point: gl::TEXTURE_2D,
            kind: TextureKind::Integral,
            requested_format,
            samples: None,
            internal_format_bits: None,
            depth_bits: 0,
            stencil_bits: 0,
        },
        level: 0,
        layer: 0,
        cubemap_layer: None,
        width: 4,
        height: Some(4),
    }
}

#[test]
fn read_plans() {
    let gl3 = backend(Api::Gl, 3, 3);
    let source = Source::DefaultFramebuffer(gl::BACK);
    assert_eq!(
        plan_read(&gl3, &source, ClientFormat::U8U8U8U8, true),
        Ok(ReadPlan { clamp_color: Some(true), format: gl::RGBA, gl_type: gl::UNSIGNED_BYTE })
    );
    let attachment = RegularAttachment::Texture(texture_image(TextureFormatRequest::AnyIntegral));
    let source = Source::Attachment(&attachment);
    assert_eq!(
        plan_read(&gl3, &source, ClientFormat::I32I32, false),
        Ok(ReadPlan { clamp_color: Some(false), format: gl::RG_INTEGER, gl_type: gl::INT })
    );
    let es = backend(Api::GlEs, 3, 0);
    assert_eq!(plan_read(&es, &source, ClientFormat::F32, false), Err(ReadError::OutputFormatNotSupported));
    let gl2 = backend(Api::Gl, 2, 1);
    assert_eq!(plan_read(&gl2, &source, ClientFormat::U8, true), Err(ReadError::ClampingNotSupported));
    assert_eq!(
        plan_read(&gl2, &source, ClientFormat::U8, false),
        Ok(ReadPlan { clamp_color: None, format: gl::RED_INTEGER, gl_type: gl::UNSIGNED_BYTE })
    );
}

#[test]
fn framebuffer_bindings() {
    let gl3 = backend(Api::Gl, 3, 3);
    let st = FramebufferBindings { draw: 0, read: 0 };
    let (after, calls) = bind_framebuffer(&gl3, st, 5, true, false);
    assert_eq!(after, FramebufferBindings { draw: 5, read: 0 });
    assert_eq!(calls, vec![BindTarget::DrawFramebuffer]);
    let (again, calls) = bind_framebuffer(&gl3, after, 5, true, false);
    assert_eq!(again, after);
    assert!(calls.is_empty());
    let (both, calls) = bind_framebuffer(&gl3, after, 5, true, true);
    assert_eq!(both, FramebufferBindings { draw: 5, read: 5 });
    assert_eq!(calls, vec![BindTarget::Framebuffer]);
    let es2 = backend(Api::GlEs, 2, 0);
    let (after, calls) = bind_framebuffer(&es2, st, 7, false, true);
    assert_eq!(after, FramebufferBindings { draw: 7, read: 7 });
    assert_eq!(calls, vec![BindTarget::Framebuffer]);
}

#[test]
fn attach_calls() {
    let gl33 = backend(Api::Gl, 3, 3);
    let flat = RawAttachment::Texture { bind_point: gl::TEXTURE_2D, texture: 1, layer: Some(0), level: 0, cubemap_layer: None };
    let call = choose_attach_call(&gl33, &flat);
    assert_eq!(call.function, AttachFunction::FramebufferTexture);
    assert_eq!(call.bind, Some(false));
    assert_eq!(call.target, gl::DRAW_FRAMEBUFFER);
    let gl45 = backend(Api::Gl, 4, 5);
    assert_eq!(choose_attach_call(&gl45, &flat).function, AttachFunction::NamedFramebufferTexture);
    let cube_array = RawAttachment::Texture {
        bind_point: gl::TEXTURE_CUBE_MAP_ARRAY,
        texture: 2,
        layer: Some(3),
        level: 0,
        cubemap_layer: Some(CubeLayer::PositiveZ),
    };
    let call = choose_attach_call(&gl45, &cube_array);
    assert_eq!(call.function, AttachFunction::NamedFramebufferTextureLayer);
    assert_eq!(call.layer, 3 * 6 + 4);
    let face = RawAttachment::Texture {
        bind_point: gl::TEXTURE_CUBE_MAP,
        texture: 3,
        layer: Some(0),
        level: 0,
        cubemap_layer: Some(CubeLayer::NegativeX),
    };
    let call = choose_attach_call(&gl33, &face);
    assert_eq!(call.function, AttachFunction::FramebufferTexture2D);
    assert_eq!(call.texture_target, gl::TEXTURE_CUBE_MAP_POSITIVE_X + 1);
    let rb = RawAttachment::RenderBuffer(4);
    let es2 = backend(Api::GlEs, 2, 0);
    let call = choose_attach_call(&es2, &rb);
    assert_eq!(call.function, AttachFunction::FramebufferRenderbuffer);
    assert_eq!(call.bind, Some(true));
}

#[test]
fn sync_samplers_and_layouts() {
    assert_eq!(choose_fence_sync_method(&backend(Api::Gl, 3, 2)), Ok(FenceSyncMethod::Core));
    let mut apple = backend(Api::GlEs, 2, 0);
    apple.extensions.gl_apple_sync = true;
    assert_eq!(choose_fence_sync_method(&apple), Ok(FenceSyncMethod::Apple));
    assert_eq!(choose_fence_sync_method(&backend(Api::Gl, 3, 1)), Err(SyncNotSupportedError));
    let b = backend(Api::Gl, 3, 3);
    let fence = LinearSyncFence::new(42).into_sync_fence(&b);
    assert_eq!(fence.get_id(), Some(42));

    let mut samplers = SamplersContainer::new();
    assert_eq!(get_sampler(&b, &samplers, 11).ok(), Some(SamplerChoice::Create));
    samplers.insert(11, 7);
    assert_eq!(get_sampler(&b, &samplers, 11).ok(), Some(SamplerChoice::Existing(7)));
    assert_eq!(get_sampler(&b, &samplers, 11).ok(), Some(SamplerChoice::Existing(7)));
    assert_eq!(samplers.len(), 1);
    assert_eq!(samplers.get(12), None);
    assert!(matches!(get_sampler(&backend(Api::Gl, 3, 1), &samplers, 12), Err(DrawError::SamplersNotSupported)));
    assert_eq!(get_sampler(&backend(Api::GlEs, 3, 0), &samplers, 12).ok(), Some(SamplerChoice::Create));
    assert!(matches!(get_sampler(&backend(Api::GlEs, 2, 0), &samplers, 11), Err(DrawError::SamplersNotSupported)));
    assert_eq!(TextureLayout::Undefined.to_glenum(), gl::NONE);
    assert_eq!(TextureLayout::TransferDst.to_glenum(), gl::LAYOUT_TRANSFER_DST_EXT);
}

#[test]
fn pixel_buffers_and_fields() {
    let mut pb: PixelBuffer<u8> = PixelBuffer::new_empty(64);
    assert_eq!(pb.get_capacity(), 64);
    assert_eq!(pb.get_dimensions(), None);
    store_infos(&mut pb, (4, 2));
    let image = pb.read_as_texture_2d(vec![0u8; 8]);
    assert_eq!((image.width, image.height), (4, 2));
    assert_eq!(image.data.len(), 8);
    assert!(pb.read_as_texture_2d_if_supported(None).is_none());
    let field = _hidden_field::<u32>(12, None);
    assert_eq!(field.offs(), 12);
    assert_eq!(field.size(), 4);
}

#[test]
fn gl_error_names() {
    assert_eq!(glium::get_gl_error(gl::NO_ERROR), None);
    assert_eq!(glium::get_gl_error(gl::INVALID_ENUM), Some("GL_INVALID_ENUM"));
    assert_eq!(glium::get_gl_error(gl::INVALID_FRAMEBUFFER_OPERATION), Some("GL_INVALID_FRAMEBUFFER_OPERATION"));
    assert_eq!(glium::get_gl_error(gl::CONTEXT_LOST), Some("GL_CONTEXT_LOST"));
    assert_eq!(glium::get_gl_error(0x1234), Some("Unknown glGetError return value"));
}

#[test]
fn error_causes() {
    let err = IndexCreationError::BufferCreationError(BufferCreationError::OutOfMemory);
    assert_eq!(err.cause(), Some(&BufferCreationError::OutOfMemory));
    assert_eq!(IndexCreationError::IndexTypeNotSupported.cause(), None);
    let chooser = ProgramChooserCreationError::from(ProgramCreationError::BinaryHeaderError);
    assert!(matches!(chooser.source(), Some(ProgramCreationError::BinaryHeaderError)));
    assert!(ProgramChooserCreationError::NoVersion.source().is_none());
}

#[test]
fn draw_surface_checks() {
    let small = glium::Rect { left: 0, bottom: 0, width: 100, height: 100 };
    let wide = glium::Rect { left: 0, bottom: 0, width: 5000, height: 100 };
    assert!(glium::check_draw_surface(None, false, None, (4096, 4096)).is_ok());
    assert!(matches!(glium::check_draw_surface(None, true, None, (4096, 4096)), Err(DrawError::NoDepthBuffer)));
    assert!(glium::check_draw_surface(Some(24), true, Some(&small), (4096, 4096)).is_ok());
    assert!(matches!(
        glium::check_draw_surface(Some(24), true, Some(&wide), (4096, 4096)),
        Err(DrawError::ViewportTooLarge)
    ));
}

#[test]
fn framebuffer_deletion() {
    let mut bindings = FramebufferBindings { draw: 3, read: 4 };
    assert_eq!(destroy_framebuffer_object(&backend(Api::Gl, 3, 0), &mut bindings, 3), DeleteFramebuffersFunction::Core);
    assert_eq!(bindings, FramebufferBindings { draw: 0, read: 4 });
    let mut old = backend(Api::Gl, 2, 1);
    old.extensions.gl_ext_framebuffer_object = true;
    assert_eq!(destroy_framebuffer_object(&old, &mut bindings, 4), DeleteFramebuffersFunction::Ext);
    assert_eq!(bindings, FramebufferBindings { draw: 0, read: 0 });
}


fn texture_with_id(id: u32) -> TextureAny {
    TextureAny {
        id,
        bind_point: gl::TEXTURE_2D,
        kind: TextureKind::Float,
        requested_format: TextureFormatRequest::AnyFloatingPoint,
        samples: None,
        internal_format_bits: None,
        depth_bits: 0,
        stencil_bits: 0,
    }
}

#[test]
fn semaphore_and_memory_object_checks() {
    let mut b = backend(Api::Gl, 4, 5);
    assert_eq!(check_semaphore_support(&b), Err(SemaphoreCreationError::SemaphoreObjectNotSupported));
    b.extensions.gl_ext_semaphore = true;
    assert_eq!(check_semaphore_support(&b), Err(SemaphoreCreationError::SemaphoreObjectFdNotSupported));
    b.extensions.gl_ext_semaphore_fd = true;
    assert_eq!(check_semaphore_support(&b), Ok(()));
    assert_eq!(check_imported_semaphore(false), Err(SemaphoreCreationError::NullResult));
    let textures = [(texture_with_id(4), TextureLayout::General), (texture_with_id(9), TextureLayout::Undefined)];
    let args = semaphore_textures(Some(&textures));
    assert_eq!(args.texture_ids, vec![4, 9]);
    assert_eq!(args.texture_layouts, vec![0x958D, gl::NONE]);
    assert!(semaphore_textures(None).texture_ids.is_empty());

    assert_eq!(check_memory_object_support(&b), Err(MemoryObjectCreationError::MemoryObjectNotSupported));
    b.extensions.gl_ext_memory_object = true;
    assert_eq!(check_memory_object_support(&b), Ok(()));
    let mut es = backend(Api::GlEs, 3, 1);
    es.extensions.gl_ext_memory_object = true;
    assert_eq!(check_memory_object_support(&es), Err(MemoryObjectCreationError::MemoryObjectNotSupported));
    assert_eq!(check_created_memory_object(false), Err(MemoryObjectCreationError::NullResult));
    assert_eq!(memory_import_parameters(&b, true), Err(MemoryObjectCreationError::MemoryObjectFdNotSupported));
    b.extensions.gl_ext_memory_object_fd = true;
    assert_eq!(memory_import_parameters(&b, true), Ok(1));
    assert_eq!(memory_import_parameters(&b, false), Ok(0));
}

#[test]
fn error_texts() {
    let e = ValidationError::TooManyColorAttachments { maximum: 8, obtained: 12 };
    assert_eq!(e.to_string(), "Backends only support a certain number of color attachments: found 12, maximum: 8");
    assert_eq!(ValidationError::SamplesCountMismatch.to_string(), "All attachments must have the same number of samples");
    let e = ProgramCreationError::LinkingError("undefined main".to_string());
    assert_eq!(e.to_string(), "Error while linking shaders together: undefined main");
    assert_eq!(
        ProgramCreationError::PointSizeNotSupported.to_string(),
        "Point size is not supported by the backend."
    );
    assert_eq!(
        ProgramChooserCreationError::NoVersion.to_string(),
        "No version of the program has been found for the current OpenGL version."
    );
    let e = ProgramChooserCreationError::from(ProgramCreationError::CompilationError("bad".to_string(), glium::program::ShaderType::Vertex));
    assert_eq!(e.to_string(), "Compilation error in vertex shader: bad");
    assert_eq!(SwapBuffersError::AlreadySwapped.to_string(), "the buffers have already been swapped");
    assert_eq!(ReadError::ClampingNotSupported.to_string(), "Clamping the values is not supported by the implementation");
    assert_eq!(IndexCreationError::IndexTypeNotSupported.to_string(), "The type of index is not supported by the backend");
}

#[test]
fn sampler_and_memory_objects() {
    let s = SamplerObject::new(&backend(Api::GlEs, 3, 0), 7);
    assert_eq!(s.get_id(), 7);
    assert_eq!(s.destroy(), 7);
    let mut b = backend(Api::Gl, 4, 5);
    assert_eq!(MemoryObject::new(&b, 3, true).err(), Some(MemoryObjectCreationError::MemoryObjectNotSupported));
    b.extensions.gl_ext_memory_object = true;
    assert_eq!(MemoryObject::new(&b, 3, false).err(), Some(MemoryObjectCreationError::NullResult));
    assert_eq!(MemoryObject::new(&b, 3, true).map(|m| m.get_id()).ok(), Some(3));
    let pb: PixelBuffer<u8> = PixelBuffer::new_empty(16);
    assert!(matches!(Destination::from(&pb), Destination::PixelBuffer(_)));
}

#[test]
fn frame_swap_results() {
    let mut frame = Frame::new(backend(Api::Gl, 3, 3), (4, 4));
    let first = frame.set_finish();
    assert_eq!(Frame::swap_result(first, true), Err(SwapBuffersError::ContextLost));
    let again = frame.set_finish();
    assert_eq!(Frame::swap_result(again, false), Err(SwapBuffersError::AlreadySwapped));
    let frame = Frame::new(backend(Api::Gl, 3, 3), (4, 4));
    assert_eq!(Frame::swap_result(frame.finish(), false), Ok(()));
}

#[test]
fn draw_preparation_order() {
    let b = backend(Api::Gl, 4, 0);
    let sources = [
        VerticesSourceCount { len: 3, per_instance: false },
        VerticesSourceCount { len: 2, per_instance: true },
        VerticesSourceCount { len: 5, per_instance: true },
    ];
    // The patch check comes before the instance count.
    let too_many = IndicesSource::NoIndices { primitives: PrimitiveType::Patches { vertices_per_patch: 33 } };
    assert!(matches!(prepare_draw(&b, &too_many, &sources), Err(DrawError::UnsupportedVerticesPerPatch)));
    let patches = IndicesSource::NoIndices { primitives: PrimitiveType::Patches { vertices_per_patch: 3 } };
    assert!(matches!(prepare_draw(&b, &patches, &sources), Err(DrawError::InstancesCountMismatch)));
    let ok = prepare_draw(&b, &patches, &sources[..2]).ok().unwrap();
    assert_eq!(
        ok,
        DrawPreparation { vertices_per_patch: Some(3), vertices_count: Some(3), instances_count: Some(2), use_base_vertex: true }
    );
}
