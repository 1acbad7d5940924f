//! The OpenGL calls that bind framebuffer objects and attach images to them.
//!
//! Which entry point to call depends on the backend (direct state access, core or extension
//! entry points) and on the kind of texture; that choice, and the framebuffer bindings that
//! follow from it, are made here. The calls themselves are made by the caller.

use vstd::prelude::*;

use crate::fbo::RawAttachment;
use crate::gl;
use crate::texture::CubeLayer;
use crate::version::{Api, CapabilitiesSource, ExtensionsList, Version, ver_ge, version_ge};

verus! {

/// The framebuffers that are bound for drawing and for reading, by their OpenGL names (0 for
/// the default framebuffer).
#[derive(Debug, Clone, Copy, PartialEq, Eq, Structural)]
pub struct FramebufferBindings {
    /// The framebuffer bound for drawing.
    pub draw: u32,
    /// The framebuffer bound for reading.
    pub read: u32,
}

/// The target of a call that binds a framebuffer.
#[derive(Debug, Clone, Copy, PartialEq, Eq, Structural)]
pub enum BindTarget {
    /// `glBindFramebuffer(GL_FRAMEBUFFER, ..)`: binds for drawing and for reading.
    Framebuffer,
    /// `glBindFramebuffer(GL_DRAW_FRAMEBUFFER, ..)`.
    DrawFramebuffer,
    /// `glBindFramebuffer(GL_READ_FRAMEBUFFER, ..)`.
    ReadFramebuffer,
    /// `glBindFramebufferEXT(GL_FRAMEBUFFER_EXT, ..)`: binds for drawing and for reading.
    FramebufferExt,
}

/// Whether the backend has the core framebuffer entry points with separate draw and read
/// targets.
pub open spec fn separate_targets(v: Version, e: ExtensionsList) -> bool {
    ver_ge(v, Api::Gl, 3, 0) || e.gl_arb_framebuffer_object
}

/// Whether the backend has framebuffer objects at all.
pub open spec fn framebuffers_supported(v: Version, e: ExtensionsList) -> bool {
    separate_targets(v, e) || ver_ge(v, Api::GlEs, 2, 0) || e.gl_ext_framebuffer_object
}

/// Binds framebuffer `id` for one purpose: the call and the bindings after it.
pub open spec fn bind_one(
    v: Version,
    e: ExtensionsList,
    st: FramebufferBindings,
    id: u32,
    read: bool,
) -> (FramebufferBindings, Seq<BindTarget>) {
    if separate_targets(v, e) {
        if read {
            (FramebufferBindings { draw: st.draw, read: id }, seq![BindTarget::ReadFramebuffer])
        } else {
            (FramebufferBindings { draw: id, read: st.read }, seq![BindTarget::DrawFramebuffer])
        }
    } else if ver_ge(v, Api::GlEs, 2, 0) {
        (FramebufferBindings { draw: id, read: id }, seq![BindTarget::Framebuffer])
    } else {
        (FramebufferBindings { draw: id, read: id }, seq![BindTarget::FramebufferExt])
    }
}

/// The calls that bind framebuffer `id` for drawing and/or reading, given the bindings `st`,
/// and the bindings after them. Nothing is called for a purpose that `id` is already bound
/// for.
pub open spec fn bind_framebuffer_spec(
    v: Version,
    e: ExtensionsList,
    st: FramebufferBindings,
    id: u32,
    draw: bool,
    read: bool,
) -> (FramebufferBindings, Seq<BindTarget>) {
    if draw && read {
        if st.draw != id || st.read != id {
            if separate_targets(v, e) || ver_ge(v, Api::GlEs, 2, 0) {
                (FramebufferBindings { draw: id, read: id }, seq![BindTarget::Framebuffer])
            } else {
                (FramebufferBindings { draw: id, read: id }, seq![BindTarget::FramebufferExt])
            }
        } else {
            (st, Seq::empty())
        }
    } else {
        let first = if draw && st.draw != id {
            bind_one(v, e, st, id, false)
        } else {
            (st, Seq::<BindTarget>::empty())
        };
        let second = if read && first.0.read != id {
            bind_one(v, e, first.0, id, true)
        } else {
            (first.0, Seq::<BindTarget>::empty())
        };
        (second.0, first.1 + second.1)
    }
}

fn bind_one_exec(
    v: &Version,
    e: &ExtensionsList,
    st: FramebufferBindings,
    id: u32,
    read: bool,
    calls: &mut Vec<BindTarget>,
) -> (r: FramebufferBindings)
    requires
        framebuffers_supported(*v, *e),
    ensures
        r == bind_one(*v, *e, st, id, read).0,
        final(calls)@ == old(calls)@ + bind_one(*v, *e, st, id, read).1,
{
    if version_ge(v, Api::Gl, 3, 0) || e.gl_arb_framebuffer_object {
        if read {
            calls.push(BindTarget::ReadFramebuffer);
            FramebufferBindings { draw: st.draw, read: id }
        } else {
            calls.push(BindTarget::DrawFramebuffer);
            FramebufferBindings { draw: id, read: st.read }
        }
    } else if version_ge(v, Api::GlEs, 2, 0) {
        calls.push(BindTarget::Framebuffer);
        FramebufferBindings { draw: id, read: id }
    } else {
        calls.push(BindTarget::FramebufferExt);
        FramebufferBindings { draw: id, read: id }
    }
}

/// Returns the calls that bind framebuffer `id` for drawing and/or reading, given the current
/// bindings, and the bindings after them.
pub fn bind_framebuffer<C: CapabilitiesSource>(
    ctxt: &C,
    st: FramebufferBindings,
    id: u32,
    draw: bool,
    read: bool,
) -> (r: (FramebufferBindings, Vec<BindTarget>))
    requires
        framebuffers_supported(ctxt.version_view(), ctxt.extensions_view()),
    ensures
        r.0 == bind_framebuffer_spec(ctxt.version_view(), ctxt.extensions_view(), st, id, draw, read).0,
        r.1@ == bind_framebuffer_spec(ctxt.version_view(), ctxt.extensions_view(), st, id, draw, read).1,
{
    let v = ctxt.get_version();
    let e = ctxt.get_extensions();
    let mut calls: Vec<BindTarget> = Vec::new();
    if draw && read {
        if st.draw != id || st.read != id {
            if version_ge(v, Api::Gl, 3, 0) || e.gl_arb_framebuffer_object || version_ge(
                v,
                Api::GlEs,
                2,
                0,
            ) {
                calls.push(BindTarget::Framebuffer);
            } else {
                calls.push(BindTarget::FramebufferExt);
            }
            proof {
                assert(calls@ =~= bind_framebuffer_spec(*v, *e, st, id, draw, read).1);
            }
            (FramebufferBindings { draw: id, read: id }, calls)
        } else {
            proof {
                assert(calls@ =~= Seq::<BindTarget>::empty());
            }
            (st, calls)
        }
    } else {
        let mut state = st;
        if draw && state.draw != id {
            state = bind_one_exec(v, e, state, id, false, &mut calls);
        }
        if read && state.read != id {
            state = bind_one_exec(v, e, state, id, true, &mut calls);
        }
        proof {
            assert(calls@ =~= bind_framebuffer_spec(*v, *e, st, id, draw, read).1);
        }
        (state, calls)
    }
}

/// After binding, the framebuffer is bound for each purpose it was bound for, the other
/// binding is unchanged where the backend has separate targets, and nothing is called when the
/// framebuffer was already bound for every purpose.
pub proof fn lemma_bind_framebuffer(
    v: Version,
    e: ExtensionsList,
    st: FramebufferBindings,
    id: u32,
    draw: bool,
    read: bool,
)
    ensures
        ({
            let (after, calls) = bind_framebuffer_spec(v, e, st, id, draw, read);
            &&& draw ==> after.draw == id
            &&& read ==> after.read == id
            &&& separate_targets(v, e) && !draw ==> after.draw == st.draw
            &&& separate_targets(v, e) && !read && !(draw && read) ==> after.read == st.read
            &&& ((!draw || st.draw == id) && (!read || st.read == id)) ==> (after == st
                && calls.len() == 0)
        }),
{
}

/// The entry point of a call that attaches an image to a framebuffer.
#[derive(Debug, Clone, Copy, PartialEq, Eq, Structural)]
#[allow(missing_docs)]
pub enum AttachFunction {
    NamedFramebufferTexture,
    NamedFramebufferTextureExt,
    FramebufferTexture,
    FramebufferTexture1D,
    FramebufferTexture2D,
    FramebufferTexture1DExt,
    FramebufferTexture2DExt,
    NamedFramebufferTextureLayer,
    NamedFramebufferTextureLayerExt,
    FramebufferTextureLayer,
    FramebufferTexture3D,
    FramebufferTexture3DExt,
    FramebufferTextureLayerExt,
    NamedFramebufferRenderbuffer,
    NamedFramebufferRenderbufferExt,
    FramebufferRenderbuffer,
    FramebufferRenderbufferExt,
}

/// A call that attaches an image to a framebuffer.
#[derive(Debug, Clone, Copy, PartialEq, Eq, Structural)]
pub struct AttachCall {
    /// The entry point.
    pub function: AttachFunction,
    /// Whether to bind the framebuffer first: `None` for the direct state access entry points,
    /// `Some(false)` to bind it for drawing, `Some(true)` for drawing and reading.
    pub bind: Option<bool>,
    /// The framebuffer target argument (0 for the direct state access entry points).
    pub target: u32,
    /// The texture target argument of the 1D, 2D and 3D entry points (0 for the others).
    pub texture_target: u32,
    /// The layer argument of the layer and 3D entry points (0 for the others).
    pub layer: u32,
}

/// Builds a call.
pub open spec fn call(
    function: AttachFunction,
    bind: Option<bool>,
    target: u32,
    texture_target: u32,
    layer: u32,
) -> AttachCall {
    AttachCall { function, bind, target, texture_target, layer }
}

/// Whether the backend has the direct state access entry points.
pub open spec fn dsa(v: Version, e: ExtensionsList) -> bool {
    ver_ge(v, Api::Gl, 4, 5) || e.gl_arb_direct_state_access
}

/// Whether the backend has the direct state access entry points of `GL_EXT_direct_state_access`.
pub open spec fn ext_dsa(e: ExtensionsList) -> bool {
    e.gl_ext_direct_state_access && e.gl_ext_geometry_shader4
}

/// Textures that can't be layered.
pub open spec fn is_flat_texture(bind_point: u32) -> bool {
    bind_point == gl::TEXTURE_2D || bind_point == gl::TEXTURE_2D_MULTISAMPLE || bind_point
        == gl::TEXTURE_1D || bind_point == gl::TEXTURE_RECTANGLE
}

/// Array, 3D and cubemap array textures.
pub open spec fn is_array_texture(bind_point: u32) -> bool {
    bind_point == gl::TEXTURE_1D_ARRAY || bind_point == gl::TEXTURE_2D_ARRAY || bind_point
        == gl::TEXTURE_2D_MULTISAMPLE_ARRAY || bind_point == gl::TEXTURE_3D || bind_point
        == gl::TEXTURE_CUBE_MAP_ARRAY
}

/// The whole-level attachment of a layered texture.
pub open spec fn layered_call(v: Version, e: ExtensionsList) -> Option<AttachCall> {
    if dsa(v, e) {
        Some(call(AttachFunction::NamedFramebufferTexture, None, 0, 0, 0))
    } else if ext_dsa(e) {
        Some(call(AttachFunction::NamedFramebufferTextureExt, None, 0, 0, 0))
    } else if ver_ge(v, Api::Gl, 3, 2) {
        Some(call(AttachFunction::FramebufferTexture, Some(false), gl::DRAW_FRAMEBUFFER, 0, 0))
    } else {
        None
    }
}

/// The call that attaches `attachment` on a backend of version `v` with extensions `e`, or
/// `None` where the backend can't attach it or the attachment is not consistent (a non-layered
/// texture attached at a layer other than 0, a cubemap face missing, a layer index that
/// overflows).
pub open spec fn attach_call(v: Version, e: ExtensionsList, attachment: RawAttachment) -> Option<
    AttachCall,
> {
    let core = ver_ge(v, Api::Gl, 3, 0) || e.gl_arb_framebuffer_object;
    match attachment {
        RawAttachment::Texture { bind_point, layer, cubemap_layer, .. } => {
            if is_flat_texture(bind_point) {
                let one_d = bind_point == gl::TEXTURE_1D || bind_point == gl::TEXTURE_RECTANGLE;
                if layer != Some(0u32) {
                    None
                } else if dsa(v, e) {
                    Some(call(AttachFunction::NamedFramebufferTexture, None, 0, 0, 0))
                } else if ext_dsa(e) {
                    Some(call(AttachFunction::NamedFramebufferTextureExt, None, 0, 0, 0))
                } else if ver_ge(v, Api::Gl, 3, 2) {
                    Some(call(AttachFunction::FramebufferTexture, Some(false), gl::DRAW_FRAMEBUFFER, 0, 0))
                } else if core {
                    Some(call(
                        if one_d { AttachFunction::FramebufferTexture1D } else { AttachFunction::FramebufferTexture2D },
                        Some(false), gl::DRAW_FRAMEBUFFER, bind_point, 0))
                } else if ver_ge(v, Api::GlEs, 2, 0) {
                    if bind_point == gl::TEXTURE_2D {
                        Some(call(AttachFunction::FramebufferTexture2D, Some(true), gl::FRAMEBUFFER, bind_point, 0))
                    } else {
                        None
                    }
                } else if e.gl_ext_framebuffer_object {
                    Some(call(
                        if one_d { AttachFunction::FramebufferTexture1DExt } else { AttachFunction::FramebufferTexture2DExt },
                        Some(true), gl::FRAMEBUFFER_EXT, bind_point, 0))
                } else {
                    None
                }
            } else if is_array_texture(bind_point) && layer is Some {
                let l = layer.unwrap();
                if bind_point == gl::TEXTURE_CUBE_MAP_ARRAY && (cubemap_layer is None || l * 6
                    + cubemap_layer.unwrap().layer_index() > u32::MAX) {
                    None
                } else {
                    let index = if bind_point == gl::TEXTURE_CUBE_MAP_ARRAY {
                        (l * 6 + cubemap_layer.unwrap().layer_index()) as u32
                    } else {
                        l
                    };
                    if dsa(v, e) {
                        Some(call(AttachFunction::NamedFramebufferTextureLayer, None, 0, 0, index))
                    } else if ext_dsa(e) {
                        Some(call(AttachFunction::NamedFramebufferTextureLayerExt, None, 0, 0, index))
                    } else if core {
                        if bind_point == gl::TEXTURE_3D {
                            Some(call(AttachFunction::FramebufferTexture3D, Some(false), gl::DRAW_FRAMEBUFFER, bind_point, index))
                        } else if bind_point == gl::TEXTURE_CUBE_MAP_ARRAY {
                            None
                        } else {
                            Some(call(AttachFunction::FramebufferTextureLayer, Some(false), gl::DRAW_FRAMEBUFFER, 0, index))
                        }
                    } else if e.gl_ext_framebuffer_object && bind_point == gl::TEXTURE_3D {
                        Some(call(AttachFunction::FramebufferTexture3DExt, Some(true), gl::FRAMEBUFFER_EXT, bind_point, index))
                    } else if (e.gl_ext_texture_array && bind_point == gl::TEXTURE_1D_ARRAY) || bind_point
                        == gl::TEXTURE_2D_ARRAY || bind_point == gl::TEXTURE_2D_MULTISAMPLE_ARRAY {
                        Some(call(AttachFunction::FramebufferTextureLayerExt, Some(false), gl::DRAW_FRAMEBUFFER, 0, index))
                    } else {
                        None
                    }
                }
            } else if is_array_texture(bind_point) || (bind_point == gl::TEXTURE_CUBE_MAP && layer is None) {
                layered_call(v, e)
            } else if bind_point == gl::TEXTURE_CUBE_MAP {
                match cubemap_layer {
                    Some(face) => {
                        let face_target = (gl::TEXTURE_CUBE_MAP_POSITIVE_X + face.layer_index()) as u32;
                        if core {
                            Some(call(AttachFunction::FramebufferTexture2D, Some(false), gl::DRAW_FRAMEBUFFER, face_target, 0))
                        } else if ver_ge(v, Api::GlEs, 2, 0) {
                            Some(call(AttachFunction::FramebufferTexture2D, Some(true), gl::FRAMEBUFFER, face_target, 0))
                        } else if e.gl_ext_framebuffer_object {
                            Some(call(AttachFunction::FramebufferTexture2DExt, Some(true), gl::FRAMEBUFFER_EXT, face_target, 0))
                        } else {
                            None
                        }
                    },
                    None => None,
                }
            } else {
                None
            }
        },
        RawAttachment::RenderBuffer(_) => {
            if dsa(v, e) {
                Some(call(AttachFunction::NamedFramebufferRenderbuffer, None, 0, 0, 0))
            } else if ext_dsa(e) {
                Some(call(AttachFunction::NamedFramebufferRenderbufferExt, None, 0, 0, 0))
            } else if core {
                Some(call(AttachFunction::FramebufferRenderbuffer, Some(false), gl::DRAW_FRAMEBUFFER, 0, 0))
            } else if ver_ge(v, Api::GlEs, 2, 0) {
                Some(call(AttachFunction::FramebufferRenderbuffer, Some(true), gl::DRAW_FRAMEBUFFER, 0, 0))
            } else if e.gl_ext_framebuffer_object {
                Some(call(AttachFunction::FramebufferRenderbufferExt, Some(true), gl::DRAW_FRAMEBUFFER, 0, 0))
            } else {
                None
            }
        },
    }
}

impl AttachFunction {
    /// Whether the entry point attaches a render buffer.
    pub open spec fn attaches_renderbuffer(self) -> bool {
        match self {
            AttachFunction::NamedFramebufferRenderbuffer
            | AttachFunction::NamedFramebufferRenderbufferExt
            | AttachFunction::FramebufferRenderbuffer
            | AttachFunction::FramebufferRenderbufferExt => true,
            _ => false,
        }
    }

    /// Whether the entry point attaches one layer of a texture.
    pub open spec fn attaches_layer(self) -> bool {
        match self {
            AttachFunction::NamedFramebufferTextureLayer
            | AttachFunction::NamedFramebufferTextureLayerExt
            | AttachFunction::FramebufferTextureLayer
            | AttachFunction::FramebufferTexture3D
            | AttachFunction::FramebufferTexture3DExt
            | AttachFunction::FramebufferTextureLayerExt => true,
            _ => false,
        }
    }

    /// Whether the entry point names the framebuffer directly, without binding it.
    pub open spec fn is_direct(self) -> bool {
        match self {
            AttachFunction::NamedFramebufferTexture
            | AttachFunction::NamedFramebufferTextureExt
            | AttachFunction::NamedFramebufferTextureLayer
            | AttachFunction::NamedFramebufferTextureLayerExt
            | AttachFunction::NamedFramebufferRenderbuffer
            | AttachFunction::NamedFramebufferRenderbufferExt => true,
            _ => false,
        }
    }
}

/// The call that attaches an image attaches that image: a render buffer by a render buffer
/// entry point and a texture by a texture one; a layer of an array, 3D or cubemap array
/// texture by a layer entry point, at that layer (for a cubemap array, six layers per cubemap
/// plus the face); the face of a cubemap by its face target; a texture that can't be layered
/// only at layer 0. A layer is passed only to the layer entry points, and the framebuffer is
/// bound first exactly for the entry points that don't name it.
pub proof fn lemma_attach_call_targets_image(v: Version, e: ExtensionsList, attachment: RawAttachment)
    requires
        attach_call(v, e, attachment) is Some,
    ensures
        ({
            let c = attach_call(v, e, attachment).unwrap();
            &&& c.function.attaches_renderbuffer() == (attachment is RenderBuffer)
            &&& c.bind is None == c.function.is_direct()
            &&& !c.function.attaches_layer() ==> c.layer == 0
            &&& attachment matches RawAttachment::Texture { bind_point, layer, cubemap_layer, .. }
                ==> {
                &&& is_flat_texture(bind_point) ==> layer == Some(0u32)
                &&& is_array_texture(bind_point) && layer is Some ==> {
                    &&& c.function.attaches_layer()
                    &&& c.layer == if bind_point == gl::TEXTURE_CUBE_MAP_ARRAY {
                        layer.unwrap() * 6 + cubemap_layer.unwrap().layer_index()
                    } else {
                        layer.unwrap() as int
                    }
                }
                &&& c.function.attaches_layer() ==> is_array_texture(bind_point) && layer is Some
                &&& bind_point == gl::TEXTURE_CUBE_MAP && layer is Some ==> c.texture_target
                    == gl::TEXTURE_CUBE_MAP_POSITIVE_X + cubemap_layer.unwrap().layer_index()
            }
        }),
{
}

fn mk(function: AttachFunction, bind: Option<bool>, target: u32, texture_target: u32, layer: u32) -> (r:
    AttachCall)
    ensures
        r == call(function, bind, target, texture_target, layer),
{
    AttachCall { function, bind, target, texture_target, layer }
}

fn layered_call_exec(v: &Version, e: &ExtensionsList) -> (r: AttachCall)
    requires
        layered_call(*v, *e) is Some,
    ensures
        Some(r) == layered_call(*v, *e),
{
    if version_ge(v, Api::Gl, 4, 5) || e.gl_arb_direct_state_access {
        mk(AttachFunction::NamedFramebufferTexture, None, 0, 0, 0)
    } else if e.gl_ext_direct_state_access && e.gl_ext_geometry_shader4 {
        mk(AttachFunction::NamedFramebufferTextureExt, None, 0, 0, 0)
    } else {
        mk(AttachFunction::FramebufferTexture, Some(false), gl::DRAW_FRAMEBUFFER, 0, 0)
    }
}

/// Returns the call that attaches `attachment` to a framebuffer.
pub fn choose_attach_call<C: CapabilitiesSource>(ctxt: &C, attachment: &RawAttachment) -> (r: AttachCall)
    requires
        attach_call(ctxt.version_view(), ctxt.extensions_view(), *attachment) is Some,
    ensures
        Some(r) == attach_call(ctxt.version_view(), ctxt.extensions_view(), *attachment),
{
    let v = ctxt.get_version();
    let e = ctxt.get_extensions();
    let dsa = version_ge(v, Api::Gl, 4, 5) || e.gl_arb_direct_state_access;
    let ext_dsa = e.gl_ext_direct_state_access && e.gl_ext_geometry_shader4;
    let core = version_ge(v, Api::Gl, 3, 0) || e.gl_arb_framebuffer_object;
    match attachment {
        RawAttachment::Texture { bind_point, layer, cubemap_layer, .. } => {
            let bind_point = *bind_point;
            let flat = bind_point == gl::TEXTURE_2D || bind_point == gl::TEXTURE_2D_MULTISAMPLE
                || bind_point == gl::TEXTURE_1D || bind_point == gl::TEXTURE_RECTANGLE;
            let array = bind_point == gl::TEXTURE_1D_ARRAY || bind_point == gl::TEXTURE_2D_ARRAY
                || bind_point == gl::TEXTURE_2D_MULTISAMPLE_ARRAY || bind_point == gl::TEXTURE_3D
                || bind_point == gl::TEXTURE_CUBE_MAP_ARRAY;
            if flat {
                let one_d = bind_point == gl::TEXTURE_1D || bind_point == gl::TEXTURE_RECTANGLE;
                if dsa {
                    mk(AttachFunction::NamedFramebufferTexture, None, 0, 0, 0)
                } else if ext_dsa {
                    mk(AttachFunction::NamedFramebufferTextureExt, None, 0, 0, 0)
                } else if version_ge(v, Api::Gl, 3, 2) {
                    mk(AttachFunction::FramebufferTexture, Some(false), gl::DRAW_FRAMEBUFFER, 0, 0)
                } else if core {
                    mk(
                        if one_d { AttachFunction::FramebufferTexture1D } else { AttachFunction::FramebufferTexture2D },
                        Some(false), gl::DRAW_FRAMEBUFFER, bind_point, 0)
                } else if version_ge(v, Api::GlEs, 2, 0) {
                    mk(AttachFunction::FramebufferTexture2D, Some(true), gl::FRAMEBUFFER, bind_point, 0)
                } else {
                    mk(
                        if one_d { AttachFunction::FramebufferTexture1DExt } else { AttachFunction::FramebufferTexture2DExt },
                        Some(true), gl::FRAMEBUFFER_EXT, bind_point, 0)
                }
            } else if array && layer.is_some() {
                let l = match layer {
                    Some(l) => *l,
                    None => 0,
                };
                let index: u32 = if bind_point == gl::TEXTURE_CUBE_MAP_ARRAY {
                    let face = match cubemap_layer {
                        Some(f) => f.get_layer_index() as u32,
                        None => 0,
                    };
                    l * 6 + face
                } else {
                    l
                };
                if dsa {
                    mk(AttachFunction::NamedFramebufferTextureLayer, None, 0, 0, index)
                } else if ext_dsa {
                    mk(AttachFunction::NamedFramebufferTextureLayerExt, None, 0, 0, index)
                } else if core {
                    if bind_point == gl::TEXTURE_3D {
                        mk(AttachFunction::FramebufferTexture3D, Some(false), gl::DRAW_FRAMEBUFFER, bind_point, index)
                    } else {
                        mk(AttachFunction::FramebufferTextureLayer, Some(false), gl::DRAW_FRAMEBUFFER, 0, index)
                    }
                } else if e.gl_ext_framebuffer_object && bind_point == gl::TEXTURE_3D {
                    mk(AttachFunction::FramebufferTexture3DExt, Some(true), gl::FRAMEBUFFER_EXT, bind_point, index)
                } else {
                    mk(AttachFunction::FramebufferTextureLayerExt, Some(false), gl::DRAW_FRAMEBUFFER, 0, index)
                }
            } else if array || (bind_point == gl::TEXTURE_CUBE_MAP && layer.is_none()) {
                layered_call_exec(v, e)
            } else {
                let face: u32 = match cubemap_layer {
                    Some(f) => f.get_layer_index() as u32,
                    None => 0,
                };
                let face_target = gl::TEXTURE_CUBE_MAP_POSITIVE_X + face;
                if core {
                    mk(AttachFunction::FramebufferTexture2D, Some(false), gl::DRAW_FRAMEBUFFER, face_target, 0)
                } else if version_ge(v, Api::GlEs, 2, 0) {
                    mk(AttachFunction::FramebufferTexture2D, Some(true), gl::FRAMEBUFFER, face_target, 0)
                } else {
                    mk(AttachFunction::FramebufferTexture2DExt, Some(true), gl::FRAMEBUFFER_EXT, face_target, 0)
                }
            }
        },
        RawAttachment::RenderBuffer(_) => {
            if dsa {
                mk(AttachFunction::NamedFramebufferRenderbuffer, None, 0, 0, 0)
            } else if ext_dsa {
                mk(AttachFunction::NamedFramebufferRenderbufferExt, None, 0, 0, 0)
            } else if core {
                mk(AttachFunction::FramebufferRenderbuffer, Some(false), gl::DRAW_FRAMEBUFFER, 0, 0)
            } else if version_ge(v, Api::GlEs, 2, 0) {
                mk(AttachFunction::FramebufferRenderbuffer, Some(true), gl::DRAW_FRAMEBUFFER, 0, 0)
            } else {
                mk(AttachFunction::FramebufferRenderbufferExt, Some(true), gl::DRAW_FRAMEBUFFER, 0, 0)
            }
        },
    }
}

/// The entry point that deletes a framebuffer object.
#[derive(Debug, Clone, Copy, PartialEq, Eq, Structural)]
pub enum DeleteFramebuffersFunction {
    /// `glDeleteFramebuffers`.
    Core,
    /// `glDeleteFramebuffersEXT`.
    Ext,
}

/// Whether a backend of version `v` with extensions `e` can delete framebuffer objects.
pub open spec fn framebuffer_deletion_supported(v: Version, e: ExtensionsList) -> bool {
    ver_ge(v, Api::Gl, 3, 0) || ver_ge(v, Api::GlEs, 2, 0) || e.gl_arb_framebuffer_object
        || e.gl_ext_framebuffer_object
}

/// The bindings after deleting framebuffer `id`: a binding to it falls back to the default
/// framebuffer, the others stay.
pub open spec fn unbind_deleted(st: FramebufferBindings, id: u32) -> FramebufferBindings {
    FramebufferBindings {
        draw: if st.draw == id {
            0
        } else {
            st.draw
        },
        read: if st.read == id {
            0
        } else {
            st.read
        },
    }
}

/// Returns the entry point that deletes framebuffer `id`, and updates `bindings`: what was
/// bound to the deleted framebuffer is then bound to the default one.
pub fn destroy_framebuffer_object<C: CapabilitiesSource>(
    ctxt: &C,
    bindings: &mut FramebufferBindings,
    id: u32,
) -> (r: DeleteFramebuffersFunction)
    requires
        framebuffer_deletion_supported(ctxt.version_view(), ctxt.extensions_view()),
    ensures
        *final(bindings) == unbind_deleted(*old(bindings), id),
        r == (if ver_ge(ctxt.version_view(), Api::Gl, 3, 0) || ver_ge(
            ctxt.version_view(),
            Api::GlEs,
            2,
            0,
        ) || ctxt.extensions_view().gl_arb_framebuffer_object {
            DeleteFramebuffersFunction::Core
        } else {
            DeleteFramebuffersFunction::Ext
        }),
{
    if bindings.draw == id {
        bindings.draw = 0;
    }
    if bindings.read == id {
        bindings.read = 0;
    }
    let v = ctxt.get_version();
    if version_ge(v, Api::Gl, 3, 0) || version_ge(v, Api::GlEs, 2, 0)
        || ctxt.get_extensions().gl_arb_framebuffer_object {
        DeleteFramebuffersFunction::Core
    } else {
        DeleteFramebuffersFunction::Ext
    }
}

} // verus!
