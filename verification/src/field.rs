//! The place of a field in a struct: its offset and its size.

use vstd::prelude::*;

use core::marker::PhantomData;

verus! {

/// Represents the field of a struct, of type `T`.
#[derive(Debug)]
pub struct Field<T> {
    offs: usize,
    size: usize,
    phantom: PhantomData<T>,
}

impl<T> Field<T> {
    /// The offset of the field in the struct, in bytes.
    pub closed spec fn offs_view(&self) -> usize {
        self.offs
    }

    /// The size of the field, in bytes.
    pub closed spec fn size_view(&self) -> usize {
        self.size
    }

    /// Gets the offset of the field.
    pub fn offs(&self) -> (r: usize)
        ensures
            r == self.offs_view(),
    {
        self.offs
    }

    /// Gets the size of the field.
    pub fn size(&self) -> (r: usize)
        ensures
            r == self.size_view(),
    {
        self.size
    }
}

/// Builds the description of a field of type `T` at offset `offs`; the second argument only
/// names the type of the field.
pub fn _hidden_field<T>(offs: usize, _field: Option<&T>) -> (r: Field<T>)
    ensures
        r.offs_view() == offs,
        r.size_view() as nat == vstd::layout::size_of::<T>(),
{
    Field { offs, size: core::mem::size_of::<T>(), phantom: PhantomData }
}

} // verus!
