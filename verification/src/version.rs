//! OpenGL versions, extensions and capabilities of a backend.

use vstd::prelude::*;

verus! {

/// Describes an OpenGL-related API.
#[derive(Debug, Clone, Copy, PartialEq, Eq, Structural)]
pub enum Api {
    /// Regular OpenGL.
    Gl,
    /// OpenGL embedded system.
    GlEs,
}

/// Describes a version of an API: the API, the major and the minor version.
///
/// Two versions are only comparable when they belong to the same API: a version of OpenGL is
/// neither greater nor smaller than a version of OpenGL ES.
#[derive(Debug, Clone, Copy, PartialEq, Eq, Structural)]
pub struct Version(pub Api, pub u8, pub u8);

impl Version {
    /// `self >= other` in the partial order of versions.
    pub open spec fn at_least(self, other: Version) -> bool {
        self.0 == other.0 && (self.1 > other.1 || (self.1 == other.1 && self.2 >= other.2))
    }

    /// `self <= other` in the partial order of versions.
    pub open spec fn at_most(self, other: Version) -> bool {
        other.at_least(self)
    }

    /// `self < other` in the partial order of versions.
    pub open spec fn below(self, other: Version) -> bool {
        self.0 == other.0 && (self.1 < other.1 || (self.1 == other.1 && self.2 < other.2))
    }

    /// Returns `self >= other`; false when the APIs differ.
    pub fn ge(&self, other: &Version) -> (r: bool)
        ensures
            r == self.at_least(*other),
    {
        self.0 == other.0 && (self.1 > other.1 || (self.1 == other.1 && self.2 >= other.2))
    }

    /// Returns `self <= other`; false when the APIs differ.
    pub fn le(&self, other: &Version) -> (r: bool)
        ensures
            r == self.at_most(*other),
    {
        other.ge(self)
    }

    /// Returns `self < other`; false when the APIs differ.
    pub fn lt(&self, other: &Version) -> (r: bool)
        ensures
            r == self.below(*other),
    {
        self.0 == other.0 && (self.1 < other.1 || (self.1 == other.1 && self.2 < other.2))
    }
}

/// `version >= Version(api, major, minor)`.
pub open spec fn ver_ge(v: Version, api: Api, major: u8, minor: u8) -> bool {
    v.at_least(Version(api, major, minor))
}

/// `version >= Version(api, major, minor)`, executable.
pub fn version_ge(v: &Version, api: Api, major: u8, minor: u8) -> (r: bool)
    ensures
        r == ver_ge(*v, api, major, minor),
{
    v.ge(&Version(api, major, minor))
}

/// The extensions of a backend that this crate takes into account.
#[derive(Debug, Clone, Copy, PartialEq, Eq, Structural, Default)]
#[allow(missing_docs)]
pub struct ExtensionsList {
    pub gl_angle_framebuffer_multisample: bool,
    pub gl_apple_framebuffer_multisample: bool,
    pub gl_apple_sync: bool,
    pub gl_arb_compute_shader: bool,
    pub gl_arb_depth_texture: bool,
    pub gl_arb_direct_state_access: bool,
    pub gl_arb_draw_buffers: bool,
    pub gl_arb_draw_elements_base_vertex: bool,
    pub gl_arb_framebuffer_no_attachments: bool,
    pub gl_arb_framebuffer_object: bool,
    pub gl_arb_framebuffer_srgb: bool,
    pub gl_arb_geometry_shader4: bool,
    pub gl_arb_get_programy_binary: bool,
    pub gl_arb_sampler_objects: bool,
    pub gl_arb_shader_objects: bool,
    pub gl_arb_shader_subroutine: bool,
    pub gl_arb_sync: bool,
    pub gl_arb_tessellation_shader: bool,
    pub gl_arb_texture_compression_bptc: bool,
    pub gl_arb_texture_float: bool,
    pub gl_arb_texture_rg: bool,
    pub gl_arb_texture_rgb10_a2ui: bool,
    pub gl_arb_texture_stencil8: bool,
    pub gl_arb_texture_storage: bool,
    pub gl_arm_rgba8: bool,
    pub gl_ati_draw_buffers: bool,
    pub gl_ati_texture_float: bool,
    pub gl_ext_direct_state_access: bool,
    pub gl_ext_framebuffer_multisample: bool,
    pub gl_ext_framebuffer_object: bool,
    pub gl_ext_framebuffer_srgb: bool,
    pub gl_ext_geometry_shader: bool,
    pub gl_ext_geometry_shader4: bool,
    pub gl_ext_memory_object: bool,
    pub gl_ext_memory_object_fd: bool,
    pub gl_ext_multisampled_render_to_texture: bool,
    pub gl_ext_packed_depth_stencil: bool,
    pub gl_ext_packed_float: bool,
    pub gl_ext_semaphore: bool,
    pub gl_ext_semaphore_fd: bool,
    pub gl_ext_srgb_write_control: bool,
    pub gl_ext_texture_array: bool,
    pub gl_ext_texture_compression_s3tc: bool,
    pub gl_ext_texture_integer: bool,
    pub gl_ext_texture_shared_exponent: bool,
    pub gl_ext_texture_snorm: bool,
    pub gl_ext_texture_srgb: bool,
    pub gl_ext_transform_feedback: bool,
    pub gl_nv_framebuffer_multisample: bool,
    pub gl_oes_depth_texture: bool,
    pub gl_oes_draw_elements_base_vertex: bool,
    pub gl_oes_element_index_uint: bool,
    pub gl_oes_geometry_shader: bool,
    pub gl_oes_packed_depth_stencil: bool,
    pub gl_oes_rgb8_rgba8: bool,
    pub gl_oes_stencil1: bool,
    pub gl_oes_stencil4: bool,
    pub gl_oes_tessellation_shader: bool,
    pub gl_oes_texture_stencil8: bool,
}

/// The numeric limits of a backend that this crate takes into account.
#[derive(Debug, Clone, Copy, PartialEq, Eq, Structural)]
pub struct Capabilities {
    /// Maximum number of color attachment bind points.
    pub max_color_attachments: i32,
    /// Maximum number of draw buffers.
    pub max_draw_buffers: i32,
    /// Maximum width of an empty framebuffer, if empty framebuffers are supported.
    pub max_framebuffer_width: Option<i32>,
    /// Maximum height of an empty framebuffer, if empty framebuffers are supported.
    pub max_framebuffer_height: Option<i32>,
    /// Maximum number of layers of an empty framebuffer, if layered ones are supported.
    pub max_framebuffer_layers: Option<i32>,
    /// Maximum number of samples of an empty framebuffer, if empty framebuffers are supported.
    pub max_framebuffer_samples: Option<i32>,
    /// Maximum number of vertices per patch, if tessellation is supported.
    pub max_patch_vertices: Option<i32>,
}

/// Trait for objects that describe the capabilities of an OpenGL backend.
pub trait CapabilitiesSource {
    /// The version of the backend.
    spec fn version_view(&self) -> Version;

    /// The extensions of the backend.
    spec fn extensions_view(&self) -> ExtensionsList;

    /// The limits of the backend.
    spec fn capabilities_view(&self) -> Capabilities;

    /// Returns the version of the backend.
    fn get_version(&self) -> (r: &Version)
        ensures
            *r == self.version_view(),
    ;

    /// Returns the list of extensions that are supported.
    fn get_extensions(&self) -> (r: &ExtensionsList)
        ensures
            *r == self.extensions_view(),
    ;

    /// Returns the capabilities of the backend.
    fn get_capabilities(&self) -> (r: &Capabilities)
        ensures
            *r == self.capabilities_view(),
    ;
}

/// A description of a backend: its version, its extensions and its limits.
#[derive(Debug, Clone, Copy, PartialEq, Eq, Structural)]
pub struct Backend {
    /// Version of the backend.
    pub version: Version,
    /// Supported extensions.
    pub extensions: ExtensionsList,
    /// Numeric limits.
    pub capabilities: Capabilities,
}

impl CapabilitiesSource for Backend {
    open spec fn version_view(&self) -> Version {
        self.version
    }

    open spec fn extensions_view(&self) -> ExtensionsList {
        self.extensions
    }

    open spec fn capabilities_view(&self) -> Capabilities {
        self.capabilities
    }

    fn get_version(&self) -> (r: &Version) {
        &self.version
    }

    fn get_extensions(&self) -> (r: &ExtensionsList) {
        &self.extensions
    }

    fn get_capabilities(&self) -> (r: &Capabilities) {
        &self.capabilities
    }
}

/// The order on versions is a partial order: reflexive, antisymmetric and transitive, and
/// versions of different APIs are not comparable.
pub proof fn lemma_version_partial_order(a: Version, b: Version, c: Version)
    ensures
        a.at_least(a),
        a.at_least(b) && b.at_least(a) ==> a == b,
        a.at_least(b) && b.at_least(c) ==> a.at_least(c),
        a.0 != b.0 ==> !a.at_least(b) && !b.at_least(a),
        a.below(b) <==> (a.at_most(b) && a != b),
{
}

} // verus!
