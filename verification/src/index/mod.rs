//! In order to draw, you need to provide a way for the video card to know how to link
//! primitives together.
//!
//! There are two ways to specify the indices that must be used: an index buffer, which
//! contains a list of indices, or `NoIndices`, in which case the vertices are used in the order
//! in which they are in the vertex buffer.

pub mod buffer;
pub mod local;

use vstd::prelude::*;

use crate::buffer::BufferAnySlice;
use crate::gl;
use crate::version::{Api, CapabilitiesSource, ExtensionsList, Version, ver_ge, version_ge};

pub use self::buffer::{IndexBuffer, IndexStorage, ElementArray};
pub use self::buffer::CreationError as BufferCreationError;

verus! {

/// Describes a source of indices used for drawing.
#[derive(Copy, Clone, Debug, PartialEq, Eq, Structural)]
pub enum IndicesSource {
    /// A buffer uploaded in video memory.
    IndexBuffer {
        /// The buffer.
        buffer: BufferAnySlice,
        /// Type of indices in the buffer.
        data_type: IndexType,
        /// Type of primitives contained in the vertex source.
        primitives: PrimitiveType,
    },
    /// Use a multidraw indirect buffer without indices.
    MultidrawArray {
        /// The buffer.
        buffer: BufferAnySlice,
        /// Type of primitives contained in the vertex source.
        primitives: PrimitiveType,
    },
    /// Use a multidraw indirect buffer with indices.
    MultidrawElement {
        /// The buffer of the commands.
        commands: BufferAnySlice,
        /// The buffer of the indices.
        indices: BufferAnySlice,
        /// Type of indices in the buffer.
        data_type: IndexType,
        /// Type of primitives contained in the vertex source.
        primitives: PrimitiveType,
    },
    /// Don't use indices. Assemble primitives by using the order in which the vertices are in
    /// the vertices source.
    NoIndices {
        /// Type of primitives contained in the vertex source.
        primitives: PrimitiveType,
    },
}

impl IndicesSource {
    /// The type of the primitives.
    pub open spec fn primitives_view(self) -> PrimitiveType {
        match self {
            IndicesSource::IndexBuffer { primitives, .. } => primitives,
            IndicesSource::MultidrawArray { primitives, .. } => primitives,
            IndicesSource::MultidrawElement { primitives, .. } => primitives,
            IndicesSource::NoIndices { primitives } => primitives,
        }
    }

    /// Returns the type of the primitives.
    pub fn get_primitives_type(&self) -> (r: PrimitiveType)
        ensures
            r == self.primitives_view(),
    {
        match self {
            IndicesSource::IndexBuffer { primitives, .. } => *primitives,
            IndicesSource::MultidrawArray { primitives, .. } => *primitives,
            IndicesSource::MultidrawElement { primitives, .. } => *primitives,
            IndicesSource::NoIndices { primitives } => *primitives,
        }
    }
}

/// List of available primitives.
#[derive(Debug, Clone, Copy, PartialEq, Eq, Structural)]
pub enum PrimitiveType {
    /// Each vertex is an invidiual point.
    Points,
    /// Vertices are grouped by chunks of two vertices. Each chunk represents a line.
    LinesList,
    /// Vertices are grouped by chunks of four vertices. The second and third vertices of each
    /// chunk represents the line; the first and fourth are the adjacent vertices.
    LinesListAdjacency,
    /// Each vertex (except the last one) forms a line with the next vertex.
    LineStrip,
    /// Similar to `LineStrip`, but with an additional vertex at the beginning and at the end
    /// that represent the vertices adjacent to the first and last ones.
    LineStripAdjacency,
    /// Each vertex forms a line with the next vertex. The last vertex form a line with the
    /// first one.
    LineLoop,
    /// Vertices are grouped by chunks of three vertices. Each chunk represents a triangle.
    TrianglesList,
    /// Vertices are grouped by chunks of six vertices. The first, third and fifth vertices
    /// represent a triangle; the others are the adjacent vertices.
    TrianglesListAdjacency,
    /// Each vertex (except the first one and the last one) forms a triangle with the previous
    /// and the next vertices.
    TriangleStrip,
    /// Each even vertex forms a triangle with vertices `n+2` and `n+4`; each uneven vertex is
    /// adjacent to the previous and next ones.
    TriangleStripAdjacency,
    /// Starting at the second vertex, each vertex forms a triangle with the next and the first
    /// vertices.
    TriangleFan,
    /// Vertices are grouped by chunks of `vertices_per_patch` vertices, for a tessellation
    /// shader.
    Patches {
        /// Number of vertices per patch.
        vertices_per_patch: u16,
    },
}

impl PrimitiveType {
    /// Whether a backend of version `v` with extensions `e` supports this type of primitives:
    /// primitives with adjacency need OpenGL 3.0 or a geometry shader extension, patches need
    /// OpenGL 4.0 or `GL_ARB_tessellation_shader`, and the others are always supported.
    pub open spec fn supported(self, v: Version, e: ExtensionsList) -> bool {
        match self {
            PrimitiveType::LinesListAdjacency | PrimitiveType::LineStripAdjacency
            | PrimitiveType::TrianglesListAdjacency | PrimitiveType::TriangleStripAdjacency => ver_ge(
                v,
                Api::Gl,
                3,
                0,
            ) || e.gl_arb_geometry_shader4 || e.gl_ext_geometry_shader4 || e.gl_ext_geometry_shader,
            PrimitiveType::Patches { .. } => ver_ge(v, Api::Gl, 4, 0) || e.gl_arb_tessellation_shader,
            _ => true,
        }
    }

    /// Returns true if the backend supports this type of primitives.
    pub fn is_supported<C: CapabilitiesSource>(&self, caps: &C) -> (r: bool)
        ensures
            r == self.supported(caps.version_view(), caps.extensions_view()),
    {
        let v = caps.get_version();
        let e = caps.get_extensions();
        match self {
            PrimitiveType::LinesListAdjacency | PrimitiveType::LineStripAdjacency
            | PrimitiveType::TrianglesListAdjacency | PrimitiveType::TriangleStripAdjacency => {
                version_ge(v, Api::Gl, 3, 0) || e.gl_arb_geometry_shader4
                    || e.gl_ext_geometry_shader4 || e.gl_ext_geometry_shader
            },
            PrimitiveType::Patches { .. } => version_ge(v, Api::Gl, 4, 0)
                || e.gl_arb_tessellation_shader,
            _ => true,
        }
    }

    /// The OpenGL enumerant of this type of primitives.
    pub open spec fn glenum(self) -> u32 {
        match self {
            PrimitiveType::Points => gl::POINTS,
            PrimitiveType::LinesList => gl::LINES,
            PrimitiveType::LinesListAdjacency => gl::LINES_ADJACENCY,
            PrimitiveType::LineStrip => gl::LINE_STRIP,
            PrimitiveType::LineStripAdjacency => gl::LINE_STRIP_ADJACENCY,
            PrimitiveType::LineLoop => gl::LINE_LOOP,
            PrimitiveType::TrianglesList => gl::TRIANGLES,
            PrimitiveType::TrianglesListAdjacency => gl::TRIANGLES_ADJACENCY,
            PrimitiveType::TriangleStrip => gl::TRIANGLE_STRIP,
            PrimitiveType::TriangleStripAdjacency => gl::TRIANGLE_STRIP_ADJACENCY,
            PrimitiveType::TriangleFan => gl::TRIANGLE_FAN,
            PrimitiveType::Patches { .. } => gl::PATCHES,
        }
    }

    /// Returns the OpenGL enumerant of this type of primitives.
    pub fn to_glenum(&self) -> (r: u32)
        ensures
            r == self.glenum(),
    {
        match self {
            PrimitiveType::Points => gl::POINTS,
            PrimitiveType::LinesList => gl::LINES,
            PrimitiveType::LinesListAdjacency => gl::LINES_ADJACENCY,
            PrimitiveType::LineStrip => gl::LINE_STRIP,
            PrimitiveType::LineStripAdjacency => gl::LINE_STRIP_ADJACENCY,
            PrimitiveType::LineLoop => gl::LINE_LOOP,
            PrimitiveType::TrianglesList => gl::TRIANGLES,
            PrimitiveType::TrianglesListAdjacency => gl::TRIANGLES_ADJACENCY,
            PrimitiveType::TriangleStrip => gl::TRIANGLE_STRIP,
            PrimitiveType::TriangleStripAdjacency => gl::TRIANGLE_STRIP_ADJACENCY,
            PrimitiveType::TriangleFan => gl::TRIANGLE_FAN,
            PrimitiveType::Patches { .. } => gl::PATCHES,
        }
    }
}

/// Marker that can be used as an indices source when you don't need indices.
///
/// If you use this, then the primitives will be constructed using the order in which the
/// vertices are in the vertices sources.
#[derive(Copy, Clone, Debug, PartialEq, Eq, Structural)]
pub struct NoIndices(pub PrimitiveType);

impl From<NoIndices> for IndicesSource {
    fn from(marker: NoIndices) -> (r: IndicesSource) {
        IndicesSource::NoIndices { primitives: marker.0 }
    }
}

impl vstd::std_specs::convert::FromSpecImpl<NoIndices> for IndicesSource {
    open spec fn obeys_from_spec() -> bool {
        true
    }

    open spec fn from_spec(v: NoIndices) -> IndicesSource {
        IndicesSource::NoIndices { primitives: v.0 }
    }
}

impl<'b> From<&'b NoIndices> for IndicesSource {
    fn from(marker: &'b NoIndices) -> (r: IndicesSource) {
        IndicesSource::NoIndices { primitives: marker.0 }
    }
}

impl<'b> vstd::std_specs::convert::FromSpecImpl<&'b NoIndices> for IndicesSource {
    open spec fn obeys_from_spec() -> bool {
        true
    }

    open spec fn from_spec(v: &'b NoIndices) -> IndicesSource {
        IndicesSource::NoIndices { primitives: v.0 }
    }
}

/// Type of the indices in an index source.
#[derive(Debug, Clone, Copy, PartialEq, Eq, Structural)]
pub enum IndexType {
    /// u8
    U8,
    /// u16
    U16,
    /// u32
    U32,
}

impl IndexType {
    /// The size in bytes of each index of this type.
    pub open spec fn size(self) -> usize {
        match self {
            IndexType::U8 => 1,
            IndexType::U16 => 2,
            IndexType::U32 => 4,
        }
    }

    /// Returns the size in bytes of each index of this type.
    pub fn get_size(&self) -> (r: usize)
        ensures
            r == self.size(),
    {
        match self {
            IndexType::U8 => 1,
            IndexType::U16 => 2,
            IndexType::U32 => 4,
        }
    }

    /// Whether a backend of version `v` with extensions `e` supports this type of index:
    /// 32-bit indices need OpenGL, OpenGL ES 3.0 or `GL_OES_element_index_uint`.
    pub open spec fn supported(self, v: Version, e: ExtensionsList) -> bool {
        match self {
            IndexType::U32 => ver_ge(v, Api::Gl, 1, 0) || ver_ge(v, Api::GlEs, 3, 0)
                || e.gl_oes_element_index_uint,
            _ => true,
        }
    }

    /// Returns true if the backend supports this type of index.
    pub fn is_supported<C: CapabilitiesSource>(&self, caps: &C) -> (r: bool)
        ensures
            r == self.supported(caps.version_view(), caps.extensions_view()),
    {
        match self {
            IndexType::U32 => version_ge(caps.get_version(), Api::Gl, 1, 0) || version_ge(
                caps.get_version(),
                Api::GlEs,
                3,
                0,
            ) || caps.get_extensions().gl_oes_element_index_uint,
            _ => true,
        }
    }

    /// The OpenGL enumerant of this type of index.
    pub open spec fn glenum(self) -> u32 {
        match self {
            IndexType::U8 => gl::UNSIGNED_BYTE,
            IndexType::U16 => gl::UNSIGNED_SHORT,
            IndexType::U32 => gl::UNSIGNED_INT,
        }
    }

    /// Returns the OpenGL enumerant of this type of index.
    pub fn to_glenum(&self) -> (r: u32)
        ensures
            r == self.glenum(),
    {
        match self {
            IndexType::U8 => gl::UNSIGNED_BYTE,
            IndexType::U16 => gl::UNSIGNED_SHORT,
            IndexType::U32 => gl::UNSIGNED_INT,
        }
    }
}

/// An index from the index buffer.
pub trait Index: Copy {
    /// The `IndexType` corresponding to this type.
    spec fn index_type() -> IndexType;

    /// Returns the `IndexType` corresponding to this type.
    fn get_type() -> (r: IndexType)
        ensures
            r == Self::index_type(),
    ;

    /// Returns true if this type of index is supported by the backend.
    fn is_supported<C: CapabilitiesSource>(caps: &C) -> (r: bool)
        ensures
            r == Self::index_type().supported(caps.version_view(), caps.extensions_view()),
    {
        Self::get_type().is_supported(caps)
    }
}

impl Index for u8 {
    open spec fn index_type() -> IndexType {
        IndexType::U8
    }

    fn get_type() -> (r: IndexType) {
        IndexType::U8
    }
}

impl Index for u16 {
    open spec fn index_type() -> IndexType {
        IndexType::U16
    }

    fn get_type() -> (r: IndexType) {
        IndexType::U16
    }
}

impl Index for u32 {
    open spec fn index_type() -> IndexType {
        IndexType::U32
    }

    fn get_type() -> (r: IndexType) {
        IndexType::U32
    }
}

/// Distinct types of primitives have distinct enumerants; only patches, whatever their number
/// of vertices, share one.
pub proof fn lemma_primitive_glenum_distinct(p: PrimitiveType, q: PrimitiveType)
    ensures
        p.glenum() == q.glenum() ==> p == q || (p is Patches && q is Patches),
{
}

/// The enumerant of each type of index is the unsigned integer type of its size: one, two or
/// four bytes.
pub proof fn lemma_index_type_glenum_size(t: IndexType)
    ensures
        t.size() == 1 ==> t.glenum() == gl::UNSIGNED_BYTE,
        t.size() == 2 ==> t.glenum() == gl::UNSIGNED_SHORT,
        t.size() == 4 ==> t.glenum() == gl::UNSIGNED_INT,
        t.size() == 1 || t.size() == 2 || t.size() == 4,
{
}

} // verus!
