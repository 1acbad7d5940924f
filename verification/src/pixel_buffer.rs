//! Pixel buffers: buffers that hold two-dimensional texture data in a client-defined format,
//! to transfer it to or from the video memory.
//!
//! The contents of a pixel buffer are read from the backend by the caller; what is decided
//! here is how they are turned into a two-dimensional image.

use vstd::prelude::*;

use core::marker::PhantomData;

verus! {

/// Two-dimensional texture data: the pixels, row by row, and the dimensions.
#[derive(Debug)]
pub struct Texture2dData<T> {
    /// The pixels.
    pub data: Vec<T>,
    /// The width in pixels.
    pub width: u32,
    /// The height in pixels.
    pub height: u32,
}

/// Buffer that stores the content of a texture.
///
/// The generic type represents the type of pixels that the buffer contains.
#[derive(Debug)]
pub struct PixelBuffer<T> {
    capacity: usize,
    dimensions: Option<(u32, u32)>,
    marker: PhantomData<T>,
}

impl<T> PixelBuffer<T> {
    /// The number of pixels that the buffer can hold.
    pub closed spec fn capacity_view(&self) -> usize {
        self.capacity
    }

    /// The dimensions of the image that was last stored in the buffer, if any.
    pub closed spec fn dimensions_view(&self) -> Option<(u32, u32)> {
        self.dimensions
    }

    /// Builds a new buffer with an uninitialized content.
    pub fn new_empty(capacity: usize) -> (r: PixelBuffer<T>)
        ensures
            r.capacity_view() == capacity,
            r.dimensions_view() is None,
    {
        PixelBuffer { capacity, dimensions: None, marker: PhantomData }
    }

    /// Returns the number of pixels that the buffer can hold.
    pub fn get_capacity(&self) -> (r: usize)
        ensures
            r == self.capacity_view(),
    {
        self.capacity
    }

    /// Returns the dimensions of the image that was last stored in the buffer, if any.
    pub fn get_dimensions(&self) -> (r: Option<(u32, u32)>)
        ensures
            r == self.dimensions_view(),
    {
        self.dimensions
    }

    /// Turns the content of the pixel buffer, as read from the backend, into an image with
    /// the dimensions of the image that was last stored in it; the buffer must not be empty.
    pub fn read_as_texture_2d(&self, content: Vec<T>) -> (r: Texture2dData<T>)
        requires
            self.dimensions_view() is Some,
        ensures
            r.data@ == content@,
            (r.width, r.height) == self.dimensions_view().unwrap(),
    {
        let dimensions = match self.dimensions {
            Some(d) => d,
            None => (0, 0),
        };
        Texture2dData { data: content, width: dimensions.0, height: dimensions.1 }
    }

    /// Turns the content of the pixel buffer, as read from the backend, into an image; returns
    /// `None` if the backend does not support reading it. The buffer must not be empty.
    pub fn read_as_texture_2d_if_supported(&self, content: Option<Vec<T>>) -> (r: Option<
        Texture2dData<T>,
    >)
        requires
            self.dimensions_view() is Some,
        ensures
            content is None ==> r is None,
            content matches Some(c) ==> (r matches Some(t) && t.data@ == c@ && (t.width, t.height)
                == self.dimensions_view().unwrap()),
    {
        match content {
            Some(c) => Some(self.read_as_texture_2d(c)),
            None => None,
        }
    }
}

/// Records the dimensions of the image that was stored in the buffer.
pub fn store_infos<T>(b: &mut PixelBuffer<T>, dimensions: (u32, u32))
    ensures
        final(b).dimensions_view() == Some(dimensions),
        final(b).capacity_view() == old(b).capacity_view(),
{
    b.dimensions = Some(dimensions);
}

} // verus!
