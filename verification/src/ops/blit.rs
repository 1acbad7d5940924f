//! Copying a rectangle of pixels from one framebuffer to another.

use vstd::prelude::*;

use crate::version::{Api, CapabilitiesSource, Version, ver_ge, version_ge};
use crate::{BlitTarget, Rect};

verus! {

/// The entry point that copies the pixels.
#[derive(Debug, Clone, Copy, PartialEq, Eq, Structural)]
pub enum BlitMethod {
    /// `glBlitNamedFramebuffer`, without binding the framebuffers.
    Named,
    /// `glBlitFramebuffer`, after binding the source for reading (`GL_READ_FRAMEBUFFER`) and
    /// the target for drawing (`GL_DRAW_FRAMEBUFFER`).
    Regular,
    /// `glBlitFramebufferEXT`, after binding with the `_EXT` targets.
    Ext,
}

/// How pixels are copied: the entry point, and the corners of the source and target
/// rectangles as OpenGL takes them (x0, y0, x1, y1).
#[derive(Debug, Clone, Copy, PartialEq, Eq, Structural)]
pub struct BlitPlan {
    /// The entry point.
    pub method: BlitMethod,
    /// Left of the source.
    pub src_x0: i32,
    /// Bottom of the source.
    pub src_y0: i32,
    /// Right of the source.
    pub src_x1: i32,
    /// Top of the source.
    pub src_y1: i32,
    /// Left of the target.
    pub dst_x0: i32,
    /// Bottom of the target.
    pub dst_y0: i32,
    /// Right of the target.
    pub dst_x1: i32,
    /// Top of the target.
    pub dst_y1: i32,
}

/// The entry point that copies pixels on a backend of version `v`.
pub open spec fn blit_method(v: Version) -> BlitMethod {
    if ver_ge(v, Api::Gl, 4, 5) {
        BlitMethod::Named
    } else if ver_ge(v, Api::Gl, 3, 0) {
        BlitMethod::Regular
    } else {
        BlitMethod::Ext
    }
}

/// Whether the corners of the rectangles can be computed: the right and top of the source fit
/// in 32 unsigned bits, those of the target in 32 signed bits.
pub open spec fn blit_rects_valid(src: Rect, dst: BlitTarget) -> bool {
    &&& src.left + src.width <= u32::MAX
    &&& src.bottom + src.height <= u32::MAX
    &&& i32::MIN <= (dst.left as i32) + dst.width <= i32::MAX
    &&& i32::MIN <= (dst.bottom as i32) + dst.height <= i32::MAX
}

/// Decides how to copy the pixels of `src` to `dst`.
pub fn plan_blit<C: CapabilitiesSource>(ctxt: &C, src: &Rect, dst: &BlitTarget) -> (r: BlitPlan)
    requires
        blit_rects_valid(*src, *dst),
    ensures
        r.method == blit_method(ctxt.version_view()),
        r.src_x0 == src.left as i32,
        r.src_y0 == src.bottom as i32,
        r.src_x1 == (src.left + src.width) as u32 as i32,
        r.src_y1 == (src.bottom + src.height) as u32 as i32,
        r.dst_x0 == dst.left as i32,
        r.dst_y0 == dst.bottom as i32,
        r.dst_x1 == (dst.left as i32) + dst.width,
        r.dst_y1 == (dst.bottom as i32) + dst.height,
{
    let v = ctxt.get_version();
    let method = if version_ge(v, Api::Gl, 4, 5) {
        BlitMethod::Named
    } else if version_ge(v, Api::Gl, 3, 0) {
        BlitMethod::Regular
    } else {
        BlitMethod::Ext
    };
    let right: u32 = src.left + src.width;
    let top: u32 = src.bottom + src.height;
    BlitPlan {
        method,
        src_x0: src.left as i32,
        src_y0: src.bottom as i32,
        src_x1: right as i32,
        src_y1: top as i32,
        dst_x0: dst.left as i32,
        dst_y0: dst.bottom as i32,
        dst_x1: dst.left as i32 + dst.width,
        dst_y1: dst.bottom as i32 + dst.height,
    }
}

} // verus!
