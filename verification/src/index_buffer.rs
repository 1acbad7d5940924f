//! Sources of indices: lists of indices stored in RAM, one type for each kind of primitives,
//! and index buffers that hold such lists in video memory.
//!
//! An index buffer is described here by the number of its indices, their type and the kind of
//! primitives; the upload of the indices is made by the caller.

use vstd::prelude::*;

use crate::gl;

verus! {

/// Can be used as a source of indices when drawing.
pub trait ToIndicesSource {
    /// The type of data.
    type Data: Index;

    /// Builds the `IndicesSource`.
    fn to_indices_source<'a>(&'a self) -> IndicesSource<'a, Self::Data>;
}

/// Describes a source of indices used for drawing.
#[derive(Clone, Debug)]
pub enum IndicesSource<'a, T: 'a> {
    /// A buffer uploaded in video memory.
    IndexBuffer {
        /// The buffer.
        buffer: &'a IndexBuffer,
        /// Offset of the first element of the buffer to use.
        offset: usize,
        /// Number of elements in the buffer to use.
        length: usize,
    },
    /// A buffer in RAM.
    Buffer {
        /// Slice of data to use.
        pointer: &'a [T],
        /// Type of primitives contained in the buffer.
        primitives: PrimitiveType,
        /// Offset of the first element of the buffer to use.
        offset: usize,
        /// Number of elements in the buffer to use.
        length: usize,
    },
}

impl<'a, T: Index> IndicesSource<'a, T> {
    /// The type of the primitives.
    pub open spec fn primitives_view(self) -> PrimitiveType {
        match self {
            IndicesSource::IndexBuffer { buffer, .. } => buffer.primitives_view(),
            IndicesSource::Buffer { primitives, .. } => primitives,
        }
    }

    /// The type of the indices.
    pub open spec fn indices_type_view(self) -> IndexType {
        match self {
            IndicesSource::IndexBuffer { buffer, .. } => buffer.data_type_view(),
            IndicesSource::Buffer { .. } => T::index_type(),
        }
    }

    /// The first element to use.
    pub open spec fn offset_view(self) -> usize {
        match self {
            IndicesSource::IndexBuffer { offset, .. } => offset,
            IndicesSource::Buffer { offset, .. } => offset,
        }
    }

    /// The number of elements to use.
    pub open spec fn length_view(self) -> usize {
        match self {
            IndicesSource::IndexBuffer { length, .. } => length,
            IndicesSource::Buffer { length, .. } => length,
        }
    }

    /// Returns the type of the primitives.
    pub fn get_primitives_type(&self) -> (r: PrimitiveType)
        ensures
            r == self.primitives_view(),
    {
        match self {
            IndicesSource::IndexBuffer { buffer, .. } => buffer.get_primitives_type(),
            IndicesSource::Buffer { primitives, .. } => *primitives,
        }
    }

    /// Returns the type of the indices.
    pub fn get_indices_type(&self) -> (r: IndexType)
        ensures
            r == self.indices_type_view(),
    {
        match self {
            IndicesSource::IndexBuffer { buffer, .. } => buffer.get_indices_type(),
            IndicesSource::Buffer { .. } => T::get_type(),
        }
    }

    /// Returns the first element to use from the buffer.
    pub fn get_offset(&self) -> (r: usize)
        ensures
            r == self.offset_view(),
    {
        match self {
            IndicesSource::IndexBuffer { offset, .. } => *offset,
            IndicesSource::Buffer { offset, .. } => *offset,
        }
    }

    /// Returns the length of the buffer.
    pub fn get_length(&self) -> (r: usize)
        ensures
            r == self.length_view(),
    {
        match self {
            IndicesSource::IndexBuffer { length, .. } => *length,
            IndicesSource::Buffer { length, .. } => *length,
        }
    }
}

/// List of available primitives.
#[derive(Debug, Clone, Copy, PartialEq, Eq, Structural)]
#[allow(missing_docs)]
pub enum PrimitiveType {
    Points,
    LinesList,
    LinesListAdjacency,
    LineStrip,
    LineStripAdjacency,
    TrianglesList,
    TrianglesListAdjacency,
    TriangleStrip,
    TriangleStripAdjacency,
    TriangleFan,
    Patches {
        /// Number of vertices per patch.
        vertices_per_patch: u16,
    },
}

impl PrimitiveType {
    /// The OpenGL enumerant of this type of primitives.
    pub open spec fn glenum(self) -> u32 {
        match self {
            PrimitiveType::Points => gl::POINTS,
            PrimitiveType::LinesList => gl::LINES,
            PrimitiveType::LinesListAdjacency => gl::LINES_ADJACENCY,
            PrimitiveType::LineStrip => gl::LINE_STRIP,
            PrimitiveType::LineStripAdjacency => gl::LINE_STRIP_ADJACENCY,
            PrimitiveType::TrianglesList => gl::TRIANGLES,
            PrimitiveType::TrianglesListAdjacency => gl::TRIANGLES_ADJACENCY,
            PrimitiveType::TriangleStrip => gl::TRIANGLE_STRIP,
            PrimitiveType::TriangleStripAdjacency => gl::TRIANGLE_STRIP_ADJACENCY,
            PrimitiveType::TriangleFan => gl::TRIANGLE_FAN,
            PrimitiveType::Patches { .. } => gl::PATCHES,
        }
    }

    /// Returns the OpenGL enumerant of this type of primitives.
    pub fn to_glenum(&self) -> (r: u32)
        ensures
            r == self.glenum(),
    {
        match self {
            PrimitiveType::Points => gl::POINTS,
            PrimitiveType::LinesList => gl::LINES,
            PrimitiveType::LinesListAdjacency => gl::LINES_ADJACENCY,
            PrimitiveType::LineStrip => gl::LINE_STRIP,
            PrimitiveType::LineStripAdjacency => gl::LINE_STRIP_ADJACENCY,
            PrimitiveType::TrianglesList => gl::TRIANGLES,
            PrimitiveType::TrianglesListAdjacency => gl::TRIANGLES_ADJACENCY,
            PrimitiveType::TriangleStrip => gl::TRIANGLE_STRIP,
            PrimitiveType::TriangleStripAdjacency => gl::TRIANGLE_STRIP_ADJACENCY,
            PrimitiveType::TriangleFan => gl::TRIANGLE_FAN,
            PrimitiveType::Patches { .. } => gl::PATCHES,
        }
    }
}

/// A list of indices loaded in the graphics card's memory.
#[derive(Debug, PartialEq, Eq, Structural)]
pub struct IndexBuffer {
    len: usize,
    data_type: IndexType,
    primitives: PrimitiveType,
}

impl IndexBuffer {
    /// The number of indices in the buffer.
    pub closed spec fn len_view(&self) -> usize {
        self.len
    }

    /// The type of the indices.
    pub closed spec fn data_type_view(&self) -> IndexType {
        self.data_type
    }

    /// The type of primitives.
    pub closed spec fn primitives_view(&self) -> PrimitiveType {
        self.primitives
    }

    /// Builds a new index buffer from a list of indices.
    pub fn new<T: IntoIndexBuffer>(data: T) -> (r: IndexBuffer)
        ensures
            r.len_view() == data.len_view(),
            r.data_type_view() == data.data_type_view(),
            r.primitives_view() == data.primitives_view(),
    {
        data.into_index_buffer()
    }

    /// Returns the type of primitives associated with this index buffer.
    pub fn get_primitives_type(&self) -> (r: PrimitiveType)
        ensures
            r == self.primitives_view(),
    {
        self.primitives
    }

    /// Returns the data type of the indices inside this index buffer.
    pub fn get_indices_type(&self) -> (r: IndexType)
        ensures
            r == self.data_type_view(),
    {
        self.data_type
    }

    /// Returns the number of indices in the buffer.
    pub fn get_elements_count(&self) -> (r: usize)
        ensures
            r == self.len_view(),
    {
        self.len
    }
}

impl ToIndicesSource for IndexBuffer {
    type Data = u16;

    fn to_indices_source<'a>(&'a self) -> (r: IndicesSource<'a, u16>)
        ensures
            r matches IndicesSource::IndexBuffer { buffer, offset, length } && *buffer == *self
                && offset == 0 && length == self.len_view(),
    {
        IndicesSource::IndexBuffer { buffer: self, offset: 0, length: self.len }
    }
}

/// Type of the indices in an index source.
#[derive(Debug, Clone, Copy, PartialEq, Eq, Structural)]
pub enum IndexType {
    /// u8
    U8,
    /// u16
    U16,
    /// u32
    U32,
}

impl IndexType {
    /// The OpenGL enumerant of this type of index.
    pub open spec fn glenum(self) -> u32 {
        match self {
            IndexType::U8 => gl::UNSIGNED_BYTE,
            IndexType::U16 => gl::UNSIGNED_SHORT,
            IndexType::U32 => gl::UNSIGNED_INT,
        }
    }

    /// Returns the OpenGL enumerant of this type of index.
    pub fn to_glenum(&self) -> (r: u32)
        ensures
            r == self.glenum(),
    {
        match self {
            IndexType::U8 => gl::UNSIGNED_BYTE,
            IndexType::U16 => gl::UNSIGNED_SHORT,
            IndexType::U32 => gl::UNSIGNED_INT,
        }
    }
}

/// An index from the index buffer.
pub trait Index: Copy {
    /// The `IndexType` corresponding to this type.
    spec fn index_type() -> IndexType;

    /// Returns the `IndexType` corresponding to this type.
    fn get_type() -> (r: IndexType)
        ensures
            r == Self::index_type(),
    ;
}

impl Index for u8 {
    open spec fn index_type() -> IndexType {
        IndexType::U8
    }

    fn get_type() -> (r: IndexType) {
        IndexType::U8
    }
}

impl Index for u16 {
    open spec fn index_type() -> IndexType {
        IndexType::U16
    }

    fn get_type() -> (r: IndexType) {
        IndexType::U16
    }
}

impl Index for u32 {
    open spec fn index_type() -> IndexType {
        IndexType::U32
    }

    fn get_type() -> (r: IndexType) {
        IndexType::U32
    }
}

/// Object that is convertible to an index buffer.
pub trait IntoIndexBuffer {
    /// The number of indices.
    spec fn len_view(&self) -> usize;

    /// The type of the indices.
    spec fn data_type_view(&self) -> IndexType;

    /// The type of primitives.
    spec fn primitives_view(&self) -> PrimitiveType;

    /// Creates a new `IndexBuffer` with the list of indices.
    fn into_index_buffer(self) -> (r: IndexBuffer)
        ensures
            r.len_view() == self.len_view(),
            r.data_type_view() == self.data_type_view(),
            r.primitives_view() == self.primitives_view(),
    ;
}

/// A list of points stored in RAM.
#[derive(Clone, Debug)]
pub struct PointsList<T>(pub Vec<T>);

impl<T: Index> IntoIndexBuffer for PointsList<T> {
    open spec fn len_view(&self) -> usize {
        self.0@.len() as usize
    }

    open spec fn data_type_view(&self) -> IndexType {
        T::index_type()
    }

    open spec fn primitives_view(&self) -> PrimitiveType {
        PrimitiveType::Points
    }

    fn into_index_buffer(self) -> (r: IndexBuffer) {
        IndexBuffer { len: self.0.len(), data_type: T::get_type(), primitives: PrimitiveType::Points }
    }
}

impl<T: Index> ToIndicesSource for PointsList<T> {
    type Data = T;

    fn to_indices_source<'a>(&'a self) -> (r: IndicesSource<'a, T>)
        ensures
            r matches IndicesSource::Buffer { pointer, primitives, offset, length } && pointer@
                == self.0@ && primitives == PrimitiveType::Points && offset == 0 && length == self.0@.len(),
    {
        IndicesSource::Buffer {
            pointer: self.0.as_slice(),
            primitives: PrimitiveType::Points,
            offset: 0,
            length: self.0.len(),
        }
    }
}

/// A list of lines stored in RAM.
#[derive(Clone, Debug)]
pub struct LinesList<T>(pub Vec<T>);

impl<T: Index> IntoIndexBuffer for LinesList<T> {
    open spec fn len_view(&self) -> usize {
        self.0@.len() as usize
    }

    open spec fn data_type_view(&self) -> IndexType {
        T::index_type()
    }

    open spec fn primitives_view(&self) -> PrimitiveType {
        PrimitiveType::LinesList
    }

    fn into_index_buffer(self) -> (r: IndexBuffer) {
        IndexBuffer { len: self.0.len(), data_type: T::get_type(), primitives: PrimitiveType::LinesList }
    }
}

impl<T: Index> ToIndicesSource for LinesList<T> {
    type Data = T;

    fn to_indices_source<'a>(&'a self) -> (r: IndicesSource<'a, T>)
        ensures
            r matches IndicesSource::Buffer { pointer, primitives, offset, length } && pointer@
                == self.0@ && primitives == PrimitiveType::LinesList && offset == 0 && length == self.0@.len(),
    {
        IndicesSource::Buffer {
            pointer: self.0.as_slice(),
            primitives: PrimitiveType::LinesList,
            offset: 0,
            length: self.0.len(),
        }
    }
}

/// A list of lines, with adjacency information, stored in RAM.
#[derive(Clone, Debug)]
pub struct LinesListAdjacency<T>(pub Vec<T>);

impl<T: Index> IntoIndexBuffer for LinesListAdjacency<T> {
    open spec fn len_view(&self) -> usize {
        self.0@.len() as usize
    }

    open spec fn data_type_view(&self) -> IndexType {
        T::index_type()
    }

    open spec fn primitives_view(&self) -> PrimitiveType {
        PrimitiveType::LinesListAdjacency
    }

    fn into_index_buffer(self) -> (r: IndexBuffer) {
        IndexBuffer { len: self.0.len(), data_type: T::get_type(), primitives: PrimitiveType::LinesListAdjacency }
    }
}

impl<T: Index> ToIndicesSource for LinesListAdjacency<T> {
    type Data = T;

    fn to_indices_source<'a>(&'a self) -> (r: IndicesSource<'a, T>)
        ensures
            r matches IndicesSource::Buffer { pointer, primitives, offset, length } && pointer@
                == self.0@ && primitives == PrimitiveType::LinesListAdjacency && offset == 0 && length == self.0@.len(),
    {
        IndicesSource::Buffer {
            pointer: self.0.as_slice(),
            primitives: PrimitiveType::LinesListAdjacency,
            offset: 0,
            length: self.0.len(),
        }
    }
}

/// A list of lines connected together stored in RAM.
#[derive(Clone, Debug)]
pub struct LineStrip<T>(pub Vec<T>);

impl<T: Index> IntoIndexBuffer for LineStrip<T> {
    open spec fn len_view(&self) -> usize {
        self.0@.len() as usize
    }

    open spec fn data_type_view(&self) -> IndexType {
        T::index_type()
    }

    open spec fn primitives_view(&self) -> PrimitiveType {
        PrimitiveType::LineStrip
    }

    fn into_index_buffer(self) -> (r: IndexBuffer) {
        IndexBuffer { len: self.0.len(), data_type: T::get_type(), primitives: PrimitiveType::LineStrip }
    }
}

impl<T: Index> ToIndicesSource for LineStrip<T> {
    type Data = T;

    fn to_indices_source<'a>(&'a self) -> (r: IndicesSource<'a, T>)
        ensures
            r matches IndicesSource::Buffer { pointer, primitives, offset, length } && pointer@
                == self.0@ && primitives == PrimitiveType::LineStrip && offset == 0 && length == self.0@.len(),
    {
        IndicesSource::Buffer {
            pointer: self.0.as_slice(),
            primitives: PrimitiveType::LineStrip,
            offset: 0,
            length: self.0.len(),
        }
    }
}

/// A list of lines connected together, with adjacency information, stored in RAM.
#[derive(Clone, Debug)]
pub struct LineStripAdjacency<T>(pub Vec<T>);

impl<T: Index> IntoIndexBuffer for LineStripAdjacency<T> {
    open spec fn len_view(&self) -> usize {
        self.0@.len() as usize
    }

    open spec fn data_type_view(&self) -> IndexType {
        T::index_type()
    }

    open spec fn primitives_view(&self) -> PrimitiveType {
        PrimitiveType::LineStripAdjacency
    }

    fn into_index_buffer(self) -> (r: IndexBuffer) {
        IndexBuffer { len: self.0.len(), data_type: T::get_type(), primitives: PrimitiveType::LineStripAdjacency }
    }
}

impl<T: Index> ToIndicesSource for LineStripAdjacency<T> {
    type Data = T;

    fn to_indices_source<'a>(&'a self) -> (r: IndicesSource<'a, T>)
        ensures
            r matches IndicesSource::Buffer { pointer, primitives, offset, length } && pointer@
                == self.0@ && primitives == PrimitiveType::LineStripAdjacency && offset == 0 && length == self.0@.len(),
    {
        IndicesSource::Buffer {
            pointer: self.0.as_slice(),
            primitives: PrimitiveType::LineStripAdjacency,
            offset: 0,
            length: self.0.len(),
        }
    }
}

/// A list of triangles stored in RAM.
#[derive(Clone, Debug)]
pub struct TrianglesList<T>(pub Vec<T>);

impl<T: Index> IntoIndexBuffer for TrianglesList<T> {
    open spec fn len_view(&self) -> usize {
        self.0@.len() as usize
    }

    open spec fn data_type_view(&self) -> IndexType {
        T::index_type()
    }

    open spec fn primitives_view(&self) -> PrimitiveType {
        PrimitiveType::TrianglesList
    }

    fn into_index_buffer(self) -> (r: IndexBuffer) {
        IndexBuffer { len: self.0.len(), data_type: T::get_type(), primitives: PrimitiveType::TrianglesList }
    }
}

impl<T: Index> ToIndicesSource for TrianglesList<T> {
    type Data = T;

    fn to_indices_source<'a>(&'a self) -> (r: IndicesSource<'a, T>)
        ensures
            r matches IndicesSource::Buffer { pointer, primitives, offset, length } && pointer@
                == self.0@ && primitives == PrimitiveType::TrianglesList && offset == 0 && length == self.0@.len(),
    {
        IndicesSource::Buffer {
            pointer: self.0.as_slice(),
            primitives: PrimitiveType::TrianglesList,
            offset: 0,
            length: self.0.len(),
        }
    }
}

/// A list of triangles, with adjacency information, stored in RAM.
#[derive(Clone, Debug)]
pub struct TrianglesListAdjacency<T>(pub Vec<T>);

impl<T: Index> IntoIndexBuffer for TrianglesListAdjacency<T> {
    open spec fn len_view(&self) -> usize {
        self.0@.len() as usize
    }

    open spec fn data_type_view(&self) -> IndexType {
        T::index_type()
    }

    open spec fn primitives_view(&self) -> PrimitiveType {
        PrimitiveType::TrianglesListAdjacency
    }

    fn into_index_buffer(self) -> (r: IndexBuffer) {
        IndexBuffer { len: self.0.len(), data_type: T::get_type(), primitives: PrimitiveType::TrianglesListAdjacency }
    }
}

impl<T: Index> ToIndicesSource for TrianglesListAdjacency<T> {
    type Data = T;

    fn to_indices_source<'a>(&'a self) -> (r: IndicesSource<'a, T>)
        ensures
            r matches IndicesSource::Buffer { pointer, primitives, offset, length } && pointer@
                == self.0@ && primitives == PrimitiveType::TrianglesListAdjacency && offset == 0 && length == self.0@.len(),
    {
        IndicesSource::Buffer {
            pointer: self.0.as_slice(),
            primitives: PrimitiveType::TrianglesListAdjacency,
            offset: 0,
            length: self.0.len(),
        }
    }
}

/// A list of triangles connected together stored in RAM.
#[derive(Clone, Debug)]
pub struct TriangleStrip<T>(pub Vec<T>);

impl<T: Index> IntoIndexBuffer for TriangleStrip<T> {
    open spec fn len_view(&self) -> usize {
        self.0@.len() as usize
    }

    open spec fn data_type_view(&self) -> IndexType {
        T::index_type()
    }

    open spec fn primitives_view(&self) -> PrimitiveType {
        PrimitiveType::TriangleStrip
    }

    fn into_index_buffer(self) -> (r: IndexBuffer) {
        IndexBuffer { len: self.0.len(), data_type: T::get_type(), primitives: PrimitiveType::TriangleStrip }
    }
}

impl<T: Index> ToIndicesSource for TriangleStrip<T> {
    type Data = T;

    fn to_indices_source<'a>(&'a self) -> (r: IndicesSource<'a, T>)
        ensures
            r matches IndicesSource::Buffer { pointer, primitives, offset, length } && pointer@
                == self.0@ && primitives == PrimitiveType::TriangleStrip && offset == 0 && length == self.0@.len(),
    {
        IndicesSource::Buffer {
            pointer: self.0.as_slice(),
            primitives: PrimitiveType::TriangleStrip,
            offset: 0,
            length: self.0.len(),
        }
    }
}

/// A list of triangles connected together, with adjacency information, stored in RAM.
#[derive(Clone, Debug)]
pub struct TriangleStripAdjacency<T>(pub Vec<T>);

impl<T: Index> IntoIndexBuffer for TriangleStripAdjacency<T> {
    open spec fn len_view(&self) -> usize {
        self.0@.len() as usize
    }

    open spec fn data_type_view(&self) -> IndexType {
        T::index_type()
    }

    open spec fn primitives_view(&self) -> PrimitiveType {
        PrimitiveType::TriangleStripAdjacency
    }

    fn into_index_buffer(self) -> (r: IndexBuffer) {
        IndexBuffer { len: self.0.len(), data_type: T::get_type(), primitives: PrimitiveType::TriangleStripAdjacency }
    }
}

impl<T: Index> ToIndicesSource for TriangleStripAdjacency<T> {
    type Data = T;

    fn to_indices_source<'a>(&'a self) -> (r: IndicesSource<'a, T>)
        ensures
            r matches IndicesSource::Buffer { pointer, primitives, offset, length } && pointer@
                == self.0@ && primitives == PrimitiveType::TriangleStripAdjacency && offset == 0 && length == self.0@.len(),
    {
        IndicesSource::Buffer {
            pointer: self.0.as_slice(),
            primitives: PrimitiveType::TriangleStripAdjacency,
            offset: 0,
            length: self.0.len(),
        }
    }
}

/// A list of triangles stored in RAM.
#[derive(Clone, Debug)]
pub struct TriangleFan<T>(pub Vec<T>);

impl<T: Index> IntoIndexBuffer for TriangleFan<T> {
    open spec fn len_view(&self) -> usize {
        self.0@.len() as usize
    }

    open spec fn data_type_view(&self) -> IndexType {
        T::index_type()
    }

    open spec fn primitives_view(&self) -> PrimitiveType {
        PrimitiveType::TriangleFan
    }

    fn into_index_buffer(self) -> (r: IndexBuffer) {
        IndexBuffer { len: self.0.len(), data_type: T::get_type(), primitives: PrimitiveType::TriangleFan }
    }
}

impl<T: Index> ToIndicesSource for TriangleFan<T> {
    type Data = T;

    fn to_indices_source<'a>(&'a self) -> (r: IndicesSource<'a, T>)
        ensures
            r matches IndicesSource::Buffer { pointer, primitives, offset, length } && pointer@
                == self.0@ && primitives == PrimitiveType::TriangleFan && offset == 0 && length == self.0@.len(),
    {
        IndicesSource::Buffer {
            pointer: self.0.as_slice(),
            primitives: PrimitiveType::TriangleFan,
            offset: 0,
            length: self.0.len(),
        }
    }
}

/// A list of patches stored in RAM.
///
/// The second parameter is the number of vertices per patch.
#[derive(Clone, Debug)]
pub struct Patches<T>(pub Vec<T>, pub u16);

impl<T: Index> IntoIndexBuffer for Patches<T> {
    open spec fn len_view(&self) -> usize {
        self.0@.len() as usize
    }

    open spec fn data_type_view(&self) -> IndexType {
        T::index_type()
    }

    open spec fn primitives_view(&self) -> PrimitiveType {
        (PrimitiveType::Patches { vertices_per_patch: self.1 })
    }

    fn into_index_buffer(self) -> (r: IndexBuffer) {
        IndexBuffer { len: self.0.len(), data_type: T::get_type(), primitives: PrimitiveType::Patches { vertices_per_patch: self.1 } }
    }
}

impl<T: Index> ToIndicesSource for Patches<T> {
    type Data = T;

    fn to_indices_source<'a>(&'a self) -> (r: IndicesSource<'a, T>)
        ensures
            r matches IndicesSource::Buffer { pointer, primitives, offset, length } && pointer@
                == self.0@ && primitives == (PrimitiveType::Patches { vertices_per_patch: self.1 }) && offset == 0 && length == self.0@.len(),
    {
        IndicesSource::Buffer {
            pointer: self.0.as_slice(),
            primitives: PrimitiveType::Patches { vertices_per_patch: self.1 },
            offset: 0,
            length: self.0.len(),
        }
    }
}

} // verus!
