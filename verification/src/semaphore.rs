//! Semaphores shared with another API, and the image layouts they can transition textures to.

use vstd::prelude::*;

use crate::gl;
use crate::texture::TextureAny;
use crate::version::{CapabilitiesSource, ExtensionsList};

verus! {

/// Describes an error encountered during semaphore creation.
#[derive(Debug, Clone, Copy, PartialEq, Eq, Structural)]
pub enum SemaphoreCreationError {
    /// Driver does not support EXT_semaphore
    SemaphoreObjectNotSupported,
    /// Driver does not support EXT_semaphore_fd
    SemaphoreObjectFdNotSupported,
    /// OpenGL returned a null pointer when creating semaphore
    NullResult,
}

/// Describes a Vulkan image layout that a texture can be in.
#[derive(Debug, Clone, Copy, PartialEq, Eq, Structural)]
pub enum TextureLayout {
    /// Corresponds to VK_IMAGE_LAYOUT_UNDEFINED
    Undefined,
    /// Corresponds to VK_IMAGE_LAYOUT_GENERAL
    General,
    /// Corresponds to VK_IMAGE_LAYOUT_COLOR_ATTACHMENT_OPTIMAL
    ColorAttachment,
    /// Corresponds to VK_IMAGE_LAYOUT_DEPTH_STENCIL_ATTACHMENT
    DepthStencilAttachment,
    /// Corresponds to VK_IMAGE_LAYOUT_DEPTH_STENCIL_READ_ONLY_OPTIMAL
    DepthStencilReadOnly,
    /// Corresponds to VK_IMAGE_LAYOUT_SHADER_READ_ONLY_OPTIMAL
    ShaderReadOnly,
    /// Corresponds to VK_IMAGE_LAYOUT_TRANSFER_SRC_OPTIMAL
    TransferSrc,
    /// Corresponds to VK_IMAGE_LAYOUT_TRANSFER_DST_OPTIMAL
    TransferDst,
    /// Corresponds to VK_IMAGE_LAYOUT_DEPTH_READ_ONLY_STENCIL_ATTACHMENT_OPTIMAL_KHR
    DepthReadOnlyStencilAttachment,
    /// Corresponds to VK_IMAGE_LAYOUT_DEPTH_ATTACHMENT_STENCIL_READ_ONLY_OPTIMAL_KHR
    DepthAttachmentStencilReadOnly,
}

impl TextureLayout {
    /// The OpenGL enumerant of this layout.
    pub open spec fn glenum(self) -> u32 {
        match self {
            TextureLayout::Undefined => gl::NONE,
            TextureLayout::General => gl::LAYOUT_GENERAL_EXT,
            TextureLayout::ColorAttachment => gl::LAYOUT_COLOR_ATTACHMENT_EXT,
            TextureLayout::DepthStencilAttachment => gl::LAYOUT_DEPTH_STENCIL_ATTACHMENT_EXT,
            TextureLayout::DepthStencilReadOnly => gl::LAYOUT_DEPTH_STENCIL_READ_ONLY_EXT,
            TextureLayout::ShaderReadOnly => gl::LAYOUT_SHADER_READ_ONLY_EXT,
            TextureLayout::TransferSrc => gl::LAYOUT_TRANSFER_SRC_EXT,
            TextureLayout::TransferDst => gl::LAYOUT_TRANSFER_DST_EXT,
            TextureLayout::DepthReadOnlyStencilAttachment => gl::LAYOUT_DEPTH_STENCIL_READ_ONLY_EXT,
            TextureLayout::DepthAttachmentStencilReadOnly => gl::LAYOUT_DEPTH_ATTACHMENT_STENCIL_READ_ONLY_EXT,
        }
    }

    /// Returns the OpenGL enumerant of this layout.
    pub fn to_glenum(self) -> (r: u32)
        ensures
            r == self.glenum(),
    {
        match self {
            TextureLayout::Undefined => gl::NONE,
            TextureLayout::General => gl::LAYOUT_GENERAL_EXT,
            TextureLayout::ColorAttachment => gl::LAYOUT_COLOR_ATTACHMENT_EXT,
            TextureLayout::DepthStencilAttachment => gl::LAYOUT_DEPTH_STENCIL_ATTACHMENT_EXT,
            TextureLayout::DepthStencilReadOnly => gl::LAYOUT_DEPTH_STENCIL_READ_ONLY_EXT,
            TextureLayout::ShaderReadOnly => gl::LAYOUT_SHADER_READ_ONLY_EXT,
            TextureLayout::TransferSrc => gl::LAYOUT_TRANSFER_SRC_EXT,
            TextureLayout::TransferDst => gl::LAYOUT_TRANSFER_DST_EXT,
            TextureLayout::DepthReadOnlyStencilAttachment => gl::LAYOUT_DEPTH_STENCIL_READ_ONLY_EXT,
            TextureLayout::DepthAttachmentStencilReadOnly => gl::LAYOUT_DEPTH_ATTACHMENT_STENCIL_READ_ONLY_EXT,
        }
    }
}

/// The checks around the creation of a semaphore from a file descriptor: the backend must have
/// `GL_EXT_semaphore`, then `GL_EXT_semaphore_fd`, and the imported object must be a semaphore.
pub open spec fn semaphore_creation_result(
    e: ExtensionsList,
    is_semaphore: bool,
) -> Result<(), SemaphoreCreationError> {
    if !e.gl_ext_semaphore {
        Err(SemaphoreCreationError::SemaphoreObjectNotSupported)
    } else if !e.gl_ext_semaphore_fd {
        Err(SemaphoreCreationError::SemaphoreObjectFdNotSupported)
    } else if !is_semaphore {
        Err(SemaphoreCreationError::NullResult)
    } else {
        Ok(())
    }
}

/// Checks, before a semaphore is generated, that the backend can create semaphores and import
/// them from file descriptors.
pub fn check_semaphore_support<C: CapabilitiesSource>(ctxt: &C) -> (r: Result<
    (),
    SemaphoreCreationError,
>)
    ensures
        r == semaphore_creation_result(ctxt.extensions_view(), true),
{
    let e = ctxt.get_extensions();
    if !e.gl_ext_semaphore {
        Err(SemaphoreCreationError::SemaphoreObjectNotSupported)
    } else if !e.gl_ext_semaphore_fd {
        Err(SemaphoreCreationError::SemaphoreObjectFdNotSupported)
    } else {
        Ok(())
    }
}

/// Checks the object that importing a file descriptor gave: it must be a semaphore
/// (`glIsSemaphoreEXT`).
pub fn check_imported_semaphore(is_semaphore: bool) -> (r: Result<(), SemaphoreCreationError>)
    ensures
        r == (if is_semaphore {
            Ok(())
        } else {
            Err(SemaphoreCreationError::NullResult)
        }),
{
    if is_semaphore {
        Ok(())
    } else {
        Err(SemaphoreCreationError::NullResult)
    }
}

/// The arguments of `glWaitSemaphoreEXT` and `glSignalSemaphoreEXT` that describe textures:
/// their names and the layouts they are in (or are to be transitioned to).
#[derive(Debug, Clone, PartialEq, Eq)]
pub struct SemaphoreTextures {
    /// The OpenGL names of the textures.
    pub texture_ids: Vec<u32>,
    /// The enumerants of their layouts, in the same order.
    pub texture_layouts: Vec<u32>,
}

/// Returns the names and the layout enumerants of `textures`, in order; none if no textures
/// are given.
pub fn semaphore_textures(textures: Option<&[(TextureAny, TextureLayout)]>) -> (r: SemaphoreTextures)
    ensures
        r.texture_ids@.len() == r.texture_layouts@.len(),
        match textures {
            Some(t) => {
                &&& r.texture_ids@.len() == t@.len()
                &&& forall|i: int|
                    0 <= i < t@.len() ==> #[trigger] r.texture_ids@[i] == t@[i].0.id
                        && r.texture_layouts@[i] == t@[i].1.glenum()
            },
            None => r.texture_ids@.len() == 0,
        },
{
    let mut texture_ids: Vec<u32> = Vec::new();
    let mut texture_layouts: Vec<u32> = Vec::new();
    if let Some(t) = textures {
        let mut i: usize = 0;
        while i < t.len()
            invariant
                i <= t@.len(),
                texture_ids@.len() == i,
                texture_layouts@.len() == i,
                forall|j: int|
                    0 <= j < i ==> #[trigger] texture_ids@[j] == t@[j].0.id
                        && texture_layouts@[j] == t@[j].1.glenum(),
            decreases t@.len() - i,
        {
            texture_ids.push(t[i].0.get_id());
            texture_layouts.push(t[i].1.to_glenum());
            i = i + 1;
        }
    }
    SemaphoreTextures { texture_ids, texture_layouts }
}

} // verus!
