use glium::buffer::{BufferAnySlice, BufferCreationError};
use glium::gl;
use glium::index::{
    BufferCreationError as IndexBufferCreationError, Index, IndexBuffer, IndexStorage, IndexType,
    IndicesSource, NoIndices, PrimitiveType,
};
use glium::index_buffer;
use glium::index_buffer::{IntoIndexBuffer, ToIndicesSource};
use glium::version::{Api, Backend, Capabilities, ExtensionsList, Version};

fn backend(api: Api, major: u8, minor: u8) -> Backend {
    Backend {
        version: Version(api, major, minor),
        extensions: ExtensionsList::default(),
        capabilities: Capabilities {
            max_color_attachments: 8,
            max_draw_buffers: 8,
            max_framebuffer_width: None,
            max_framebuffer_height: None,
            max_framebuffer_layers: None,
            max_framebuffer_samples: None,
            max_patch_vertices: None,
        },
    }
}

#[test]
fn primitive_types() {
    let gl2 = backend(Api::Gl, 2, 1);
    assert!(PrimitiveType::TriangleFan.is_supported(&gl2));
    assert!(PrimitiveType::LineLoop.is_supported(&gl2));
    assert!(!PrimitiveType::TrianglesListAdjacency.is_supported(&gl2));
    assert!(PrimitiveType::TrianglesListAdjacency.is_supported(&backend(Api::Gl, 3, 0)));
    assert!(!PrimitiveType::Patches { vertices_per_patch: 3 }.is_supported(&backend(Api::Gl, 3, 3)));
    assert!(PrimitiveType::Patches { vertices_per_patch: 3 }.is_supported(&backend(Api::Gl, 4, 0)));
    assert_eq!(PrimitiveType::LineStripAdjacency.to_glenum(), gl::LINE_STRIP_ADJACENCY);
    assert_eq!(PrimitiveType::Patches { vertices_per_patch: 4 }.to_glenum(), gl::PATCHES);
}

#[test]
fn index_types() {
    assert_eq!(IndexType::U8.get_size(), 1);
    assert_eq!(IndexType::U16.get_size(), 2);
    assert_eq!(IndexType::U32.get_size(), 4);
    assert_eq!(IndexType::U16.to_glenum(), gl::UNSIGNED_SHORT);
    let es2 = backend(Api::GlEs, 2, 0);
    assert!(!IndexType::U32.is_supported(&es2));
    assert!(IndexType::U16.is_supported(&es2));
    assert!(IndexType::U32.is_supported(&backend(Api::GlEs, 3, 0)));
    assert_eq!(<u8 as Index>::get_type(), IndexType::U8);
    assert!(!<u32 as Index>::is_supported(&es2));
}

#[test]
fn index_buffer_creation() {
    let gl3 = backend(Api::Gl, 3, 3);
    let data: Vec<u16> = vec![0, 1, 2, 2, 1, 3];
    let buf: IndexBuffer<u16> = IndexStorage::new(&gl3, PrimitiveType::TrianglesList, &data).unwrap();
    assert_eq!(buf.get_primitives_type(), PrimitiveType::TrianglesList);
    assert_eq!(buf.get_indices_type(), IndexType::U16);
    assert_eq!(buf.get_buffer().len(), 6);
    assert_eq!(buf.get_buffer().get_contents(), Some(&data));

    let empty: IndexBuffer<u32> = IndexStorage::empty(&gl3, PrimitiveType::Points, 10).unwrap();
    assert_eq!(empty.get_buffer().len(), 10);
    assert_eq!(empty.get_buffer().get_contents(), None);

    let es2 = backend(Api::GlEs, 2, 0);
    let r: Result<IndexBuffer<u32>, _> = IndexStorage::new(&es2, PrimitiveType::Points, &[1u32, 2]);
    assert_eq!(r.err(), Some(IndexBufferCreationError::IndexTypeNotSupported));
    let r: Result<IndexBuffer<u16>, _> = IndexStorage::empty(&es2, PrimitiveType::LinesListAdjacency, 4);
    assert_eq!(r.err(), Some(IndexBufferCreationError::PrimitiveTypeNotSupported));
    assert_eq!(
        IndexBufferCreationError::from(BufferCreationError::OutOfMemory),
        IndexBufferCreationError::BufferCreationError(BufferCreationError::OutOfMemory)
    );

    let raw = IndexStorage::from_buffer(5u32, PrimitiveType::LineStrip);
    assert_eq!(*raw.get_buffer(), 5);
    assert_eq!(raw.get_primitives_type(), PrimitiveType::LineStrip);
}

#[test]
fn indices_sources() {
    let src = IndicesSource::from(NoIndices(PrimitiveType::TriangleStrip));
    assert_eq!(src.get_primitives_type(), PrimitiveType::TriangleStrip);
    let marker = NoIndices(PrimitiveType::Points);
    assert_eq!(IndicesSource::from(&marker), IndicesSource::NoIndices { primitives: PrimitiveType::Points });
    let slice = BufferAnySlice { id: 3, offset_bytes: 0, size_bytes: 12 };
    let src = IndicesSource::IndexBuffer { buffer: slice, data_type: IndexType::U32, primitives: PrimitiveType::LinesList };
    assert_eq!(src.get_primitives_type(), PrimitiveType::LinesList);
}

#[test]
fn index_lists_in_ram() {
    let list = index_buffer::TrianglesList(vec![0u8, 1, 2, 1, 3, 4, 2, 4, 3]);
    let source = list.to_indices_source();
    assert_eq!(source.get_primitives_type(), index_buffer::PrimitiveType::TrianglesList);
    assert_eq!(source.get_indices_type(), index_buffer::IndexType::U8);
    assert_eq!(source.get_offset(), 0);
    assert_eq!(source.get_length(), 9);

    let buffer = index_buffer::IndexBuffer::new(index_buffer::TrianglesList(vec![0u8, 1, 2, 1, 3, 4, 2, 4, 3]));
    assert_eq!(buffer.get_primitives_type(), index_buffer::PrimitiveType::TrianglesList);
    assert_eq!(buffer.get_indices_type(), index_buffer::IndexType::U8);
    assert_eq!(buffer.get_elements_count(), 9);
    let source = buffer.to_indices_source();
    assert_eq!(source.get_length(), 9);
    assert_eq!(source.get_indices_type(), index_buffer::IndexType::U8);

    let patches = index_buffer::Patches(vec![0u32, 1, 2, 3], 4).into_index_buffer();
    assert_eq!(patches.get_primitives_type(), index_buffer::PrimitiveType::Patches { vertices_per_patch: 4 });
    assert_eq!(patches.get_indices_type(), index_buffer::IndexType::U32);
    assert_eq!(index_buffer::IndexType::U32.to_glenum(), gl::UNSIGNED_INT);
    assert_eq!(index_buffer::PrimitiveType::TriangleFan.to_glenum(), gl::TRIANGLE_FAN);

    let points = glium::index::local::PointsList(vec![1u16, 2]);
    assert_eq!(points.0.len(), 2);
}
