//! Index buffers: lists of indices in video memory, with the type of primitives they form.
//!
//! Creating one checks that the backend supports its type of primitives and its type of
//! indices, and describes the element array buffer to allocate; the allocation itself is made
//! by the caller.

use vstd::prelude::*;
use vstd::string::StringExecFns;

use crate::buffer::BufferCreationError;
use crate::index::{Index, IndexType, PrimitiveType};
use crate::version::{CapabilitiesSource, ExtensionsList, Version};

verus! {

/// Error that can happen while creating an index buffer.
#[derive(Debug, Copy, Clone, PartialEq, Eq, Structural)]
pub enum CreationError {
    /// The type of index is not supported by the backend.
    IndexTypeNotSupported,
    /// The type of primitives is not supported by the backend.
    PrimitiveTypeNotSupported,
    /// An error happened while creating the buffer.
    BufferCreationError(BufferCreationError),
}

impl CreationError {
    /// The text that `description` returns.
    pub open spec fn description_text(&self) -> Seq<char> {
        match self {
            CreationError::IndexTypeNotSupported => "The type of index is not supported by the backend"@,
            CreationError::PrimitiveTypeNotSupported => "The type of primitives is not supported by the backend"@,
            CreationError::BufferCreationError(_) => "An error happened while creating the buffer"@,
        }
    }

    /// Returns the description of the error.
    pub fn description(&self) -> (r: &'static str)
        ensures
            r@ == self.description_text(),
    {
        match self {
            CreationError::IndexTypeNotSupported => "The type of index is not supported by the backend",
            CreationError::PrimitiveTypeNotSupported => "The type of primitives is not supported by the backend",
            CreationError::BufferCreationError(_) => "An error happened while creating the buffer",
        }
    }

    /// Returns the text that displays the error: its description.
    pub fn to_string(&self) -> (r: String)
        ensures
            r@ == self.description_text(),
    {
        String::from_str(self.description())
    }
}

impl CreationError {
    /// Returns the error that caused this one: the buffer error, if it is one.
    pub fn cause(&self) -> (r: Option<&BufferCreationError>)
        ensures
            r == (match self {
                CreationError::BufferCreationError(err) => Some(err),
                _ => None,
            }),
    {
        match self {
            CreationError::BufferCreationError(err) => Some(err),
            _ => None,
        }
    }
}

impl From<BufferCreationError> for CreationError {
    fn from(err: BufferCreationError) -> (r: CreationError) {
        CreationError::BufferCreationError(err)
    }
}

impl vstd::std_specs::convert::FromSpecImpl<BufferCreationError> for CreationError {
    open spec fn obeys_from_spec() -> bool {
        true
    }

    open spec fn from_spec(v: BufferCreationError) -> CreationError {
        CreationError::BufferCreationError(v)
    }
}

/// An element array buffer to allocate in video memory: its number of indices and, when it is
/// filled at creation, its contents.
#[derive(Debug, Clone)]
pub struct ElementArray<I> {
    contents: Option<Vec<I>>,
    len: usize,
}

impl<I> ElementArray<I> {
    /// The contents of the buffer, if it is filled at creation.
    pub closed spec fn contents_view(&self) -> Option<Seq<I>> {
        match self.contents {
            Some(v) => Some(v@),
            None => None,
        }
    }

    /// The number of indices of the buffer.
    pub closed spec fn len_view(&self) -> usize {
        self.len
    }

    /// Returns the contents of the buffer, if it is filled at creation.
    pub fn get_contents(&self) -> (r: Option<&Vec<I>>)
        ensures
            match r {
                Some(v) => self.contents_view() == Some(v@),
                None => self.contents_view() is None,
            },
    {
        match &self.contents {
            Some(v) => Some(v),
            None => None,
        }
    }

    /// Returns the number of indices of the buffer.
    pub fn len(&self) -> (r: usize)
        ensures
            r == self.len_view(),
    {
        self.len
    }
}

/// A list of indices loaded in the graphics card's memory.
#[derive(Debug, Clone)]
pub struct IndexStorage<T> {
    buffer: T,
    primitives: PrimitiveType,
}

/// An index buffer whose indices are of type `I`.
pub type IndexBuffer<I> = IndexStorage<ElementArray<I>>;

/// The outcome of creating an index buffer of primitives `prim` and indices of type `ty` on a
/// backend of version `v` with extensions `e`.
pub open spec fn index_buffer_check(
    v: Version,
    e: ExtensionsList,
    prim: PrimitiveType,
    ty: IndexType,
) -> Result<(), CreationError> {
    if !prim.supported(v, e) {
        Err(CreationError::PrimitiveTypeNotSupported)
    } else if !ty.supported(v, e) {
        Err(CreationError::IndexTypeNotSupported)
    } else {
        Ok(())
    }
}

impl<T> IndexStorage<T> {
    /// The buffer that holds the indices.
    pub closed spec fn buffer_view(&self) -> T {
        self.buffer
    }

    /// The type of primitives.
    pub closed spec fn primitives_view(&self) -> PrimitiveType {
        self.primitives
    }

    /// Builds an index buffer from a buffer of indices and a primitive type.
    pub fn from_buffer(buffer: T, prim: PrimitiveType) -> (r: IndexStorage<T>)
        ensures
            r.buffer_view() == buffer,
            r.primitives_view() == prim,
    {
        IndexStorage { buffer, primitives: prim }
    }

    /// Returns the type of primitives associated with this index buffer.
    pub fn get_primitives_type(&self) -> (r: PrimitiveType)
        ensures
            r == self.primitives_view(),
    {
        self.primitives
    }

    /// Returns the buffer that holds the indices.
    pub fn get_buffer(&self) -> (r: &T)
        ensures
            *r == self.buffer_view(),
    {
        &self.buffer
    }
}

fn check_types<C: CapabilitiesSource, I: Index>(context: &C, prim: PrimitiveType) -> (r: Result<
    (),
    CreationError,
>)
    ensures
        r == index_buffer_check(
            context.version_view(),
            context.extensions_view(),
            prim,
            I::index_type(),
        ),
{
    if !prim.is_supported(context) {
        return Err(CreationError::PrimitiveTypeNotSupported);
    }
    if !I::is_supported(context) {
        return Err(CreationError::IndexTypeNotSupported);
    }
    Ok(())
}

impl<I: Index> IndexStorage<ElementArray<I>> {
    /// Builds a new index buffer from a list of indices and a primitive type.
    pub fn new<C: CapabilitiesSource>(context: &C, prim: PrimitiveType, data: &[I]) -> (r: Result<
        IndexStorage<ElementArray<I>>,
        CreationError,
    >)
        ensures
            match index_buffer_check(
                context.version_view(),
                context.extensions_view(),
                prim,
                I::index_type(),
            ) {
                Ok(_) => r matches Ok(s) && s.primitives_view() == prim
                    && s.buffer_view().contents_view() == Some(data@)
                    && s.buffer_view().len_view() == data@.len(),
                Err(err) => r matches Err(x) && x == err,
            },
    {
        match check_types::<C, I>(context, prim) {
            Ok(_) => {},
            Err(err) => {
                return Err(err);
            },
        }
        let mut contents: Vec<I> = Vec::new();
        let mut i: usize = 0;
        while i < data.len()
            invariant
                i <= data@.len(),
                contents@ == data@.take(i as int),
            decreases data@.len() - i,
        {
            contents.push(data[i]);
            assert(data@.take(i + 1) =~= data@.take(i as int).push(data@[i as int]));
            i = i + 1;
        }
        assert(data@.take(data@.len() as int) =~= data@);
        Ok(
            IndexStorage {
                buffer: ElementArray { contents: Some(contents), len: data.len() },
                primitives: prim,
            },
        )
    }

    /// Builds a new index buffer of `len` indices, not filled, and a primitive type.
    pub fn empty<C: CapabilitiesSource>(context: &C, prim: PrimitiveType, len: usize) -> (r: Result<
        IndexStorage<ElementArray<I>>,
        CreationError,
    >)
        ensures
            match index_buffer_check(
                context.version_view(),
                context.extensions_view(),
                prim,
                I::index_type(),
            ) {
                Ok(_) => r matches Ok(s) && s.primitives_view() == prim
                    && s.buffer_view().contents_view() is None && s.buffer_view().len_view() == len,
                Err(err) => r matches Err(x) && x == err,
            },
    {
        match check_types::<C, I>(context, prim) {
            Ok(_) => {},
            Err(err) => {
                return Err(err);
            },
        }
        Ok(IndexStorage { buffer: ElementArray { contents: None, len }, primitives: prim })
    }

    /// Returns the data type of the indices inside this index buffer.
    pub fn get_indices_type(&self) -> (r: IndexType)
        ensures
            r == I::index_type(),
    {
        I::get_type()
    }
}

} // verus!
