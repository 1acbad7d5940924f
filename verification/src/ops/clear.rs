//! The decisions of clearing a framebuffer: which buffers are cleared, and which settings of
//! the backend must change first. The clear values and the calls are handled by the caller.

use vstd::prelude::*;

use crate::gl;
use crate::version::{Api, CapabilitiesSource, ExtensionsList, Version, ver_ge, version_ge};
use crate::Rect;

verus! {

/// The mask of the buffers to clear: color, depth and/or stencil.
pub open spec fn clear_mask(color: bool, depth: bool, stencil: bool) -> u32 {
    ((if color {
        gl::COLOR_BUFFER_BIT as int
    } else {
        0
    }) + (if depth {
        gl::DEPTH_BUFFER_BIT as int
    } else {
        0
    }) + (if stencil {
        gl::STENCIL_BUFFER_BIT as int
    } else {
        0
    })) as u32
}

/// Returns the mask of the buffers to clear.
pub fn clear_flags(color: bool, depth: bool, stencil: bool) -> (r: u32)
    ensures
        r == clear_mask(color, depth, stencil),
{
    let mut flags: u32 = 0;
    if color {
        flags = flags | gl::COLOR_BUFFER_BIT;
    }
    assert(0u32 | 0x4000u32 == 0x4000u32) by (bit_vector);
    if depth {
        assert(0u32 | 0x100u32 == 0x100u32 && 0x4000u32 | 0x100u32 == 0x4100u32) by (bit_vector);
        flags = flags | gl::DEPTH_BUFFER_BIT;
    }
    if stencil {
        assert(0u32 | 0x400u32 == 0x400u32 && 0x4000u32 | 0x400u32 == 0x4400u32 && 0x100u32
            | 0x400u32 == 0x500u32 && 0x4100u32 | 0x400u32 == 0x4500u32) by (bit_vector);
        flags = flags | gl::STENCIL_BUFFER_BIT;
    }
    flags
}

/// The bits of a sum of distinct buffer bits.
proof fn lemma_buffer_bits(m: u32, c: bool, d: bool, st: bool)
    by (bit_vector)
    requires
        m == (if c {
            0x4000u32
        } else {
            0u32
        }) + (if d {
            0x100u32
        } else {
            0u32
        }) + (if st {
            0x400u32
        } else {
            0u32
        }),
    ensures
        (m & 0x4000u32 != 0) == c,
        (m & 0x100u32 != 0) == d,
        (m & 0x400u32 != 0) == st,
        m & !0x4500u32 == 0,
{
}

/// The mask of a clear holds the color buffer bit (`0x4000`) exactly when the color buffer is
/// cleared, the depth buffer bit (`0x100`) exactly when the depth buffer is, the stencil buffer
/// bit (`0x400`) exactly when the stencil buffer is, and no other bit.
pub proof fn lemma_clear_mask_bits(color: bool, depth: bool, stencil: bool)
    ensures
        (clear_mask(color, depth, stencil) & 0x4000u32 != 0) == color,
        (clear_mask(color, depth, stencil) & 0x100u32 != 0) == depth,
        (clear_mask(color, depth, stencil) & 0x400u32 != 0) == stencil,
        clear_mask(color, depth, stencil) & !0x4500u32 == 0,
{
    lemma_buffer_bits(clear_mask(color, depth, stencil), color, depth, stencil);
}

/// Whether the backend can switch the conversion of colors to sRGB on and off.
pub open spec fn framebuffer_srgb_supported(v: Version, e: ExtensionsList) -> bool {
    ver_ge(v, Api::Gl, 3, 0) || e.gl_arb_framebuffer_srgb || e.gl_ext_framebuffer_srgb
        || e.gl_ext_srgb_write_control
}

/// The new setting of `GL_FRAMEBUFFER_SRGB` before clearing, if it must change: the conversion
/// is enabled when the clear color is not already in sRGB, and disabled when it is.
pub open spec fn framebuffer_srgb_update_spec(
    v: Version,
    e: ExtensionsList,
    enabled: bool,
    color_srgb: bool,
) -> Option<bool> {
    if framebuffer_srgb_supported(v, e) {
        if !color_srgb && !enabled {
            Some(true)
        } else if color_srgb && enabled {
            Some(false)
        } else {
            None
        }
    } else {
        None
    }
}

/// Returns the new setting of `GL_FRAMEBUFFER_SRGB` before clearing, if it must change.
pub fn framebuffer_srgb_update<C: CapabilitiesSource>(ctxt: &C, enabled: bool, color_srgb: bool) -> (r:
    Option<bool>)
    ensures
        r == framebuffer_srgb_update_spec(ctxt.version_view(), ctxt.extensions_view(), enabled, color_srgb),
{
    let e = ctxt.get_extensions();
    if version_ge(ctxt.get_version(), Api::Gl, 3, 0) || e.gl_arb_framebuffer_srgb
        || e.gl_ext_framebuffer_srgb || e.gl_ext_srgb_write_control {
        if !color_srgb && !enabled {
            Some(true)
        } else if color_srgb && enabled {
            Some(false)
        } else {
            None
        }
    } else {
        None
    }
}

/// A scissor box, as `glScissor` takes it.
#[derive(Debug, Clone, Copy, PartialEq, Eq, Structural)]
pub struct ScissorBox {
    pub left: i32,
    pub bottom: i32,
    pub width: i32,
    pub height: i32,
}

/// After the setting of `GL_FRAMEBUFFER_SRGB` is updated for a clear, a clear with the same
/// colors needs no further change.
pub proof fn lemma_framebuffer_srgb_update_stable(
    v: Version,
    e: ExtensionsList,
    enabled: bool,
    color_srgb: bool,
)
    ensures
        framebuffer_srgb_update_spec(
            v,
            e,
            match framebuffer_srgb_update_spec(v, e, enabled, color_srgb) {
                Some(b) => b,
                None => enabled,
            },
            color_srgb,
        ) is None,
{
}

/// Before a clear, the conversion to sRGB ends up enabled exactly when the clear color is not
/// already in sRGB, on a backend that can switch it; the setting changes only when it must, and
/// never on a backend that can't switch it.
pub proof fn lemma_framebuffer_srgb_update_matches_color(
    v: Version,
    e: ExtensionsList,
    enabled: bool,
    color_srgb: bool,
)
    ensures
        framebuffer_srgb_supported(v, e) ==> match framebuffer_srgb_update_spec(
            v,
            e,
            enabled,
            color_srgb,
        ) {
            Some(b) => b == !color_srgb && b != enabled,
            None => enabled == !color_srgb,
        },
        !framebuffer_srgb_supported(v, e) ==> framebuffer_srgb_update_spec(
            v,
            e,
            enabled,
            color_srgb,
        ) is None,
{
}

/// The changes to the scissor test before clearing.
#[derive(Debug, Clone, Copy, PartialEq, Eq, Structural)]
pub struct ScissorUpdate {
    /// Whether to set the scissor box to `scissor_box`.
    pub set_box: bool,
    /// The scissor box to set.
    pub scissor_box: ScissorBox,
    /// The new setting of `GL_SCISSOR_TEST`, if it must change.
    pub enable: Option<bool>,
}

/// The scissor box of a rectangle, as OpenGL takes it.
pub open spec fn scissor_box_of(rect: Rect) -> ScissorBox {
    ScissorBox {
        left: rect.left as i32,
        bottom: rect.bottom as i32,
        width: rect.width as i32,
        height: rect.height as i32,
    }
}

/// Returns the changes to the scissor test before clearing `rect` (the whole framebuffer if
/// `None`), given the current scissor box (if any) and whether the test is enabled: clearing a
/// rectangle sets the box to it and enables the test, clearing everything disables the test.
pub fn scissor_update(enabled: bool, current: Option<ScissorBox>, rect: Option<&Rect>) -> (r:
    ScissorUpdate)
    ensures
        match rect {
            Some(rc) => r.set_box == (current != Some(scissor_box_of(*rc))) && r.scissor_box
                == scissor_box_of(*rc) && r.enable == if enabled {
                None
            } else {
                Some(true)
            },
            None => !r.set_box && r.enable == if enabled {
                Some(false)
            } else {
                None::<bool>
            },
        },
{
    match rect {
        Some(rc) => {
            let b = ScissorBox {
                left: rc.left as i32,
                bottom: rc.bottom as i32,
                width: rc.width as i32,
                height: rc.height as i32,
            };
            let same = match current {
                Some(c) => c == b,
                None => false,
            };
            ScissorUpdate {
                set_box: !same,
                scissor_box: b,
                enable: if enabled {
                    None
                } else {
                    Some(true)
                },
            }
        },
        None => ScissorUpdate {
            set_box: false,
            scissor_box: ScissorBox { left: 0, bottom: 0, width: 0, height: 0 },
            enable: if enabled {
                Some(false)
            } else {
                None
            },
        },
    }
}

/// The entry point that sets the depth value used when clearing.
#[derive(Debug, Clone, Copy, PartialEq, Eq, Structural)]
pub enum ClearDepthFunction {
    /// `glClearDepth`, which takes a double.
    ClearDepth,
    /// `glClearDepthf`, which takes a float.
    ClearDepthf,
}

/// Whether a backend of version `v` has an entry point that sets the depth clear value.
pub open spec fn clear_depth_supported(v: Version) -> bool {
    ver_ge(v, Api::Gl, 1, 0) || ver_ge(v, Api::GlEs, 2, 0)
}

/// Returns the entry point that sets the depth clear value on a backend of version `v`:
/// `glClearDepth` on desktop OpenGL, `glClearDepthf` on OpenGL ES 2.0 and above.
pub fn clear_depth_function(v: &Version) -> (r: ClearDepthFunction)
    requires
        clear_depth_supported(*v),
    ensures
        r == (if ver_ge(*v, Api::Gl, 1, 0) {
            ClearDepthFunction::ClearDepth
        } else {
            ClearDepthFunction::ClearDepthf
        }),
{
    if version_ge(v, Api::Gl, 1, 0) {
        ClearDepthFunction::ClearDepth
    } else {
        ClearDepthFunction::ClearDepthf
    }
}

} // verus!
