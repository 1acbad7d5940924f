//! Memory objects created by another API.

use vstd::prelude::*;

use crate::version::{Api, Backend, CapabilitiesSource, ExtensionsList, Version, ver_ge, version_ge};
use crate::GlObject;

verus! {

/// Describes an error encountered during memory object creation.
#[derive(Debug, Clone, Copy, PartialEq, Eq, Structural)]
pub enum MemoryObjectCreationError {
    /// Driver does not support EXT_memory_object
    MemoryObjectNotSupported,
    /// Driver does not support EXT_memory_object_fd
    MemoryObjectFdNotSupported,
    /// OpenGL returned a null pointer when creating memory object
    NullResult,
}

/// Whether a backend of version `v` with extensions `e` can create memory objects.
pub open spec fn memory_objects_supported(v: Version, e: ExtensionsList) -> bool {
    (ver_ge(v, Api::Gl, 4, 5) || ver_ge(v, Api::GlEs, 3, 2) || e.gl_arb_texture_storage)
        && e.gl_ext_memory_object
}

/// Checks, before a memory object is created, that the backend supports memory objects.
pub fn check_memory_object_support<C: CapabilitiesSource>(ctxt: &C) -> (r: Result<
    (),
    MemoryObjectCreationError,
>)
    ensures
        r == (if memory_objects_supported(ctxt.version_view(), ctxt.extensions_view()) {
            Ok(())
        } else {
            Err(MemoryObjectCreationError::MemoryObjectNotSupported)
        }),
{
    let v = ctxt.get_version();
    let e = ctxt.get_extensions();
    if (version_ge(v, Api::Gl, 4, 5) || version_ge(v, Api::GlEs, 3, 2) || e.gl_arb_texture_storage)
        && e.gl_ext_memory_object {
        Ok(())
    } else {
        Err(MemoryObjectCreationError::MemoryObjectNotSupported)
    }
}

/// Checks the object that `glCreateMemoryObjectsEXT` gave: it must be a memory object
/// (`glIsMemoryObjectEXT`).
pub fn check_created_memory_object(is_memory_object: bool) -> (r: Result<
    (),
    MemoryObjectCreationError,
>)
    ensures
        r == (if is_memory_object {
            Ok(())
        } else {
            Err(MemoryObjectCreationError::NullResult)
        }),
{
    if is_memory_object {
        Ok(())
    } else {
        Err(MemoryObjectCreationError::NullResult)
    }
}

/// Checks, once the memory object is created, that the backend can import memory from a file
/// descriptor; returns the value of `GL_DEDICATED_MEMORY_OBJECT_EXT` to set.
pub fn memory_import_parameters<C: CapabilitiesSource>(ctxt: &C, dedicated: bool) -> (r: Result<
    i32,
    MemoryObjectCreationError,
>)
    ensures
        r == (if ctxt.extensions_view().gl_ext_memory_object_fd {
            Ok(
                if dedicated {
                    1i32
                } else {
                    0i32
                },
            )
        } else {
            Err(MemoryObjectCreationError::MemoryObjectFdNotSupported)
        }),
{
    if !ctxt.get_extensions().gl_ext_memory_object_fd {
        Err(MemoryObjectCreationError::MemoryObjectFdNotSupported)
    } else if dedicated {
        Ok(1)
    } else {
        Ok(0)
    }
}

/// A memory object created by an external API. OpenGL makes no distinction between a texture
/// or buffer and its memory, but other APIs do; a memory object lets OpenGL use memory that
/// such an API allocated.
#[derive(Debug)]
pub struct MemoryObject {
    context: Backend,
    id: u32,
}

impl MemoryObject {
    /// The backend of the memory object.
    pub closed spec fn context_view(&self) -> Backend {
        self.context
    }

    /// The OpenGL name of the memory object.
    pub closed spec fn id_view(&self) -> u32 {
        self.id
    }

    /// Creates a memory object on `context` from the object `id` that `glCreateMemoryObjectsEXT`
    /// gave and whether `glIsMemoryObjectEXT` accepts it. Where the backend does not support
    /// memory objects, nothing is created and `MemoryObjectNotSupported` is returned.
    pub fn new(context: &Backend, id: u32, is_memory_object: bool) -> (r: Result<
        MemoryObject,
        MemoryObjectCreationError,
    >)
        ensures
            !memory_objects_supported(context.version, context.extensions) ==> r == Err::<
                MemoryObject,
                MemoryObjectCreationError,
            >(MemoryObjectCreationError::MemoryObjectNotSupported),
            memory_objects_supported(context.version, context.extensions) && !is_memory_object
                ==> r == Err::<MemoryObject, MemoryObjectCreationError>(
                MemoryObjectCreationError::NullResult,
            ),
            memory_objects_supported(context.version, context.extensions) && is_memory_object
                ==> (r matches Ok(m) && m.context_view() == *context && m.id_view() == id),
    {
        match check_memory_object_support(context) {
            Err(e) => Err(e),
            Ok(()) => match check_created_memory_object(is_memory_object) {
                Err(e) => Err(e),
                Ok(()) => Ok(MemoryObject { context: *context, id }),
            },
        }
    }
}

impl GlObject for MemoryObject {
    type Id = u32;

    fn get_id(&self) -> (r: u32)
        ensures
            r == self.id_view(),
    {
        self.id
    }
}

} // verus!
