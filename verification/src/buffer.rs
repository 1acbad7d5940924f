//! What the logic knows of buffers in video memory.

use vstd::prelude::*;

verus! {

/// Error that can happen when creating a buffer.
#[derive(Copy, Clone, Debug, PartialEq, Eq, Structural)]
pub enum BufferCreationError {
    /// Not enough memory to create the buffer.
    OutOfMemory,
    /// This type of buffer is not supported.
    BufferTypeNotSupported,
}

/// A slice of a buffer in video memory, by the OpenGL name of the buffer.
#[derive(Copy, Clone, Debug, PartialEq, Eq, Structural)]
pub struct BufferAnySlice {
    /// The OpenGL name of the buffer.
    pub id: u32,
    /// Offset in bytes of the slice in the buffer.
    pub offset_bytes: usize,
    /// Size in bytes of the slice.
    pub size_bytes: usize,
}

} // verus!
