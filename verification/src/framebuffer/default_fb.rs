//! The default framebuffer: the one that is shown on the screen.

use vstd::prelude::*;

use crate::version::Backend;

verus! {

/// One of the color attachments on the default framebuffer.
#[derive(Copy, Clone, Debug, PartialEq, Eq, Structural)]
pub enum DefaultFramebufferAttachment {
    /// The backbuffer for the left eye. Equivalent to the backbuffer if stereoscopy is
    /// disabled.
    BackLeft,
    /// The backbuffer for the right eye. May not be present.
    BackRight,
    /// The frontbuffer for the left eye. Equivalent to the frontbuffer if stereoscopy is
    /// disabled. May not be accessible.
    FrontLeft,
    /// The frontbuffer for the right eye. May not be present or accessible.
    FrontRight,
}

/// The default framebuffer, with one of its color attachments.
#[derive(Copy, Clone, Debug)]
pub struct DefaultFramebuffer {
    context: Backend,
    attachment: DefaultFramebufferAttachment,
}

impl DefaultFramebuffer {
    /// The backend of the framebuffer.
    pub closed spec fn context_view(&self) -> Backend {
        self.context
    }

    /// The color attachment that is drawn on.
    pub closed spec fn attachment_view(&self) -> DefaultFramebufferAttachment {
        self.attachment
    }

    /// Creates a `DefaultFramebuffer` with the back left buffer.
    pub fn back_left(context: &Backend) -> (r: DefaultFramebuffer)
        ensures
            r.context_view() == *context,
            r.attachment_view() == DefaultFramebufferAttachment::BackLeft,
    {
        DefaultFramebuffer { context: *context, attachment: DefaultFramebufferAttachment::BackLeft }
    }

    /// Returns the color attachment that is drawn on.
    pub fn get_attachment(&self) -> (r: DefaultFramebufferAttachment)
        ensures
            r == self.attachment_view(),
    {
        self.attachment
    }
}

} // verus!
