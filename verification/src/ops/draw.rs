//! The decisions of a draw call: whether the primitives can be drawn, how many vertices and
//! instances the vertex sources give, and which OpenGL entry point draws them. The bindings
//! and the call itself are made by the caller.

use vstd::prelude::*;

use crate::DrawError;
use crate::index::{IndicesSource, PrimitiveType};
use crate::version::{Api, Capabilities, CapabilitiesSource, ExtensionsList, Version, ver_ge, version_ge};

verus! {

/// The number of vertices per patch to set for primitives `prim`, or the error, on a backend
/// whose maximum number of vertices per patch is `max` (`None` without tessellation).
pub open spec fn vertices_per_patch_result(prim: PrimitiveType, max: Option<i32>) -> Result<
    Option<u16>,
    DrawError,
> {
    match prim {
        PrimitiveType::Patches { vertices_per_patch } => match max {
            Some(m) => if vertices_per_patch == 0 || vertices_per_patch > m {
                Err(DrawError::UnsupportedVerticesPerPatch)
            } else {
                Ok(Some(vertices_per_patch))
            },
            None => Err(DrawError::TessellationNotSupported),
        },
        _ => Ok(None),
    }
}

/// Checks that patches can be drawn, and returns the number of vertices per patch to set.
pub fn check_vertices_per_patch<C: CapabilitiesSource>(ctxt: &C, indices: &IndicesSource) -> (r:
    Result<Option<u16>, DrawError>)
    ensures
        r == vertices_per_patch_result(
            indices.primitives_view(),
            ctxt.capabilities_view().max_patch_vertices,
        ),
{
    match indices.get_primitives_type() {
        PrimitiveType::Patches { vertices_per_patch } => match ctxt.get_capabilities().max_patch_vertices {
            Some(max) => {
                if vertices_per_patch == 0 || (vertices_per_patch as i32) > max {
                    Err(DrawError::UnsupportedVerticesPerPatch)
                } else {
                    Ok(Some(vertices_per_patch))
                }
            },
            None => Err(DrawError::TessellationNotSupported),
        },
        _ => Ok(None),
    }
}

/// Whether a backend of version `v` with extensions `e` can draw elements with a base vertex.
pub open spec fn base_vertex_supported(v: Version, e: ExtensionsList) -> bool {
    ver_ge(v, Api::Gl, 3, 2) || ver_ge(v, Api::GlEs, 3, 2) || e.gl_arb_draw_elements_base_vertex
        || e.gl_oes_draw_elements_base_vertex
}

/// Whether the `base_vertex` variants of the draw calls can be used for `indices`: always
/// without indices, never with indirect buffers, and with an index buffer where the backend
/// supports them.
pub open spec fn base_vertex_usable(v: Version, e: ExtensionsList, indices: IndicesSource) -> bool {
    match indices {
        IndicesSource::MultidrawArray { .. } => false,
        IndicesSource::MultidrawElement { .. } => false,
        IndicesSource::NoIndices { .. } => true,
        IndicesSource::IndexBuffer { .. } => base_vertex_supported(v, e),
    }
}

/// Returns whether the `base_vertex` variants of the draw calls can be used for `indices`.
pub fn use_base_vertex<C: CapabilitiesSource>(ctxt: &C, indices: &IndicesSource) -> (r: bool)
    ensures
        r == base_vertex_usable(ctxt.version_view(), ctxt.extensions_view(), *indices),
{
    match indices {
        IndicesSource::MultidrawArray { .. } => false,
        IndicesSource::MultidrawElement { .. } => false,
        IndicesSource::NoIndices { .. } => true,
        IndicesSource::IndexBuffer { .. } => {
            let v = ctxt.get_version();
            let e = ctxt.get_extensions();
            version_ge(v, Api::Gl, 3, 2) || version_ge(v, Api::GlEs, 3, 2)
                || e.gl_arb_draw_elements_base_vertex || e.gl_oes_draw_elements_base_vertex
        },
    }
}

/// A source of vertices, by its number of elements and whether it holds per-instance data.
#[derive(Debug, Clone, Copy, PartialEq, Eq, Structural)]
pub struct VerticesSourceCount {
    /// The number of elements of the source.
    pub len: usize,
    /// Whether the source holds per-instance data.
    pub per_instance: bool,
}

/// The state of counting vertices: the number of vertices (`None` before the first per-vertex
/// source, and after two of them disagree), the number of instances, and whether counting
/// stopped because two per-vertex sources disagree.
pub open spec fn count_step(
    state: (Option<usize>, Option<usize>, bool),
    src: VerticesSourceCount,
) -> Result<(Option<usize>, Option<usize>, bool), DrawError> {
    let (vertices, instances, stopped) = state;
    if stopped {
        Ok(state)
    } else if !src.per_instance {
        match vertices {
            Some(c) => if c != src.len {
                Ok((None, instances, true))
            } else {
                Ok(state)
            },
            None => Ok((Some(src.len), instances, false)),
        }
    } else {
        match instances {
            Some(c) => if c != src.len {
                Err(DrawError::InstancesCountMismatch)
            } else {
                Ok(state)
            },
            None => Ok((vertices, Some(src.len), false)),
        }
    }
}

/// Counts the vertices and instances of the sources `s`, in order.
pub open spec fn count_sources(s: Seq<VerticesSourceCount>) -> Result<
    (Option<usize>, Option<usize>, bool),
    DrawError,
>
    decreases s.len(),
{
    if s.len() == 0 {
        Ok((None, None, false))
    } else {
        match count_sources(s.drop_last()) {
            Ok(state) => count_step(state, s.last()),
            Err(e) => Err(e),
        }
    }
}

/// The numbers of vertices and instances that the sources `s` give, or the error: all
/// per-instance sources must have the same length; per-vertex sources of different lengths
/// give no number of vertices.
pub open spec fn vertices_count_result(s: Seq<VerticesSourceCount>) -> Result<
    (Option<usize>, Option<usize>),
    DrawError,
> {
    match count_sources(s) {
        Ok((vertices, instances, _)) => Ok((vertices, instances)),
        Err(e) => Err(e),
    }
}

proof fn lemma_count_sources_stopped(s: Seq<VerticesSourceCount>, k: int)
    requires
        0 <= k <= s.len(),
        count_sources(s.take(k)) matches Ok(state) && state.2,
    ensures
        count_sources(s) == count_sources(s.take(k)),
    decreases s.len(),
{
    if k == s.len() {
        assert(s.take(k) =~= s);
    } else {
        assert(s.drop_last().take(k) =~= s.take(k));
        lemma_count_sources_stopped(s.drop_last(), k);
    }
}

proof fn lemma_count_sources_error(s: Seq<VerticesSourceCount>, k: int)
    requires
        0 <= k <= s.len(),
        count_sources(s.take(k)) is Err,
    ensures
        count_sources(s) == count_sources(s.take(k)),
    decreases s.len(),
{
    if k == s.len() {
        assert(s.take(k) =~= s);
    } else {
        assert(s.drop_last().take(k) =~= s.take(k));
        lemma_count_sources_error(s.drop_last(), k);
    }
}

/// Whether some source of `s` holds per-instance data (`inst`) or per-vertex data (`!inst`).
pub open spec fn has_source_kind(s: Seq<VerticesSourceCount>, inst: bool) -> bool {
    exists|i: int| 0 <= i < s.len() && (#[trigger] s[i]).per_instance == inst
}

/// Whether every source of `s` of the kind `inst` has `len` elements.
pub open spec fn all_of_kind_have_len(s: Seq<VerticesSourceCount>, inst: bool, len: usize) -> bool {
    forall|i: int| 0 <= i < s.len() && (#[trigger] s[i]).per_instance == inst ==> s[i].len == len
}

/// Whether two sources of `s` of the kind `inst` differ in length.
pub open spec fn kind_lengths_differ(s: Seq<VerticesSourceCount>, inst: bool) -> bool {
    exists|i: int, j: int|
        0 <= i < s.len() && 0 <= j < s.len() && (#[trigger] s[i]).per_instance == inst
            && (#[trigger] s[j]).per_instance == inst && s[i].len != s[j].len
}

/// What counting a sequence of sources has established about it.
proof fn lemma_count_sources_meaning(s: Seq<VerticesSourceCount>)
    ensures
        match count_sources(s) {
            Ok((vertices, instances, stopped)) => {
                &&& stopped ==> vertices is None && kind_lengths_differ(s, false)
                &&& !stopped ==> match vertices {
                    Some(c) => has_source_kind(s, false) && all_of_kind_have_len(s, false, c),
                    None => !has_source_kind(s, false),
                }
                &&& !stopped ==> match instances {
                    Some(n) => has_source_kind(s, true) && all_of_kind_have_len(s, true, n),
                    None => !has_source_kind(s, true),
                }
            },
            Err(_) => kind_lengths_differ(s, true),
        },
    decreases s.len(),
{
    if s.len() > 0 {
        let p = s.drop_last();
        let k = s.len() - 1;
        lemma_count_sources_meaning(p);
        assert forall|i: int| 0 <= i < k implies #[trigger] s[i] == p[i] by {}
        assert(s[k] == s.last());
        match count_sources(p) {
            Ok((vertices, instances, stopped)) => {
                if stopped {
                    let (a, b) = choose|a: int, b: int|
                        0 <= a < p.len() && 0 <= b < p.len() && (#[trigger] p[a]).per_instance
                            == false && (#[trigger] p[b]).per_instance == false && p[a].len
                            != p[b].len;
                    assert(s[a] == p[a] && s[b] == p[b]);
                } else if !s.last().per_instance {
                    match vertices {
                        Some(c) => {
                            if c != s.last().len {
                                let a = choose|a: int|
                                    0 <= a < p.len() && (#[trigger] p[a]).per_instance == false;
                                assert(s[a] == p[a]);
                                assert(s[a].len != s[k].len);
                            }
                        },
                        None => {},
                    }
                    assert(has_source_kind(s, false));
                    if let Some(n) = instances {
                        let a = choose|a: int| 0 <= a < p.len() && (#[trigger] p[a]).per_instance;
                        assert(s[a] == p[a]);
                    }
                } else {
                    match instances {
                        Some(c) => {
                            let a = choose|a: int| 0 <= a < p.len() && (#[trigger] p[a]).per_instance;
                            assert(s[a] == p[a]);
                            if c != s.last().len {
                                assert(s[a].len != s[k].len);
                            }
                        },
                        None => {},
                    }
                    assert(has_source_kind(s, true));
                    if let Some(n) = vertices {
                        let a = choose|a: int|
                            0 <= a < p.len() && (#[trigger] p[a]).per_instance == false;
                        assert(s[a] == p[a]);
                    }
                }
            },
            Err(_) => {
                let (a, b) = choose|a: int, b: int|
                    0 <= a < p.len() && 0 <= b < p.len() && (#[trigger] p[a]).per_instance
                        == true && (#[trigger] p[b]).per_instance == true && p[a].len != p[b].len;
                assert(s[a] == p[a] && s[b] == p[b]);
            },
        }
    }
}

/// Counting sources gives the common length of the per-vertex sources as the number of
/// vertices, and that of the per-instance sources as the number of instances: where all
/// per-vertex sources have `c` elements and all per-instance sources `n`, the counts are `c`
/// (if there is a per-vertex source) and `n` (if there is a per-instance source). A number of
/// vertices is only given when all per-vertex sources agree on it, a number of instances only
/// when all per-instance sources do, and the error only comes from per-instance sources of
/// different lengths.
pub proof fn lemma_vertices_count_meaning(s: Seq<VerticesSourceCount>, c: usize, n: usize)
    ensures
        all_of_kind_have_len(s, false, c) && all_of_kind_have_len(s, true, n)
            ==> vertices_count_result(s) == Ok::<(Option<usize>, Option<usize>), DrawError>(
            (
                if has_source_kind(s, false) {
                    Some(c)
                } else {
                    None
                },
                if has_source_kind(s, true) {
                    Some(n)
                } else {
                    None
                },
            ),
        ),
        vertices_count_result(s) matches Ok((Some(v), _)) ==> has_source_kind(s, false)
            && all_of_kind_have_len(s, false, v),
        vertices_count_result(s) matches Ok((_, Some(m))) ==> (!kind_lengths_differ(s, false)
            ==> has_source_kind(s, true) && all_of_kind_have_len(s, true, m)),
        vertices_count_result(s) is Err ==> kind_lengths_differ(s, true)
            && vertices_count_result(s) == Err::<(Option<usize>, Option<usize>), DrawError>(
            DrawError::InstancesCountMismatch,
        ),
{
    lemma_count_sources_meaning(s);
    lemma_count_sources_error_kind(s);
    if all_of_kind_have_len(s, false, c) && all_of_kind_have_len(s, true, n) {
        if kind_lengths_differ(s, false) {
            let (a, b) = choose|a: int, b: int|
                0 <= a < s.len() && 0 <= b < s.len() && (#[trigger] s[a]).per_instance == false
                    && (#[trigger] s[b]).per_instance == false && s[a].len != s[b].len;
        }
        if kind_lengths_differ(s, true) {
            let (a, b) = choose|a: int, b: int|
                0 <= a < s.len() && 0 <= b < s.len() && (#[trigger] s[a]).per_instance == true
                    && (#[trigger] s[b]).per_instance == true && s[a].len != s[b].len;
        }
        if let Ok((Some(v), _, false)) = count_sources(s) {
            let a = choose|a: int| 0 <= a < s.len() && (#[trigger] s[a]).per_instance == false;
        }
        if let Ok((_, Some(m), false)) = count_sources(s) {
            let a = choose|a: int| 0 <= a < s.len() && (#[trigger] s[a]).per_instance;
        }
    }
}

/// The only error of counting sources is a mismatch of instance counts.
proof fn lemma_count_sources_error_kind(s: Seq<VerticesSourceCount>)
    ensures
        count_sources(s) is Err ==> count_sources(s) == Err::<
            (Option<usize>, Option<usize>, bool),
            DrawError,
        >(DrawError::InstancesCountMismatch),
    decreases s.len(),
{
    if s.len() > 0 {
        lemma_count_sources_error_kind(s.drop_last());
    }
}

/// Counts the vertices and instances that the vertex sources give.
pub fn count_vertices(sources: &[VerticesSourceCount]) -> (r: Result<
    (Option<usize>, Option<usize>),
    DrawError,
>)
    ensures
        r == vertices_count_result(sources@),
{
    let mut vertices: Option<usize> = None;
    let mut instances: Option<usize> = None;
    let mut i: usize = 0;
    assert(sources@.take(0) =~= Seq::<VerticesSourceCount>::empty());
    proof {
        if sources@.len() == 0 {
            assert(sources@.take(0) =~= sources@);
        }
    }
    while i < sources.len()
        invariant_except_break
            i <= sources@.len(),
            count_sources(sources@.take(i as int)) == Ok::<
                (Option<usize>, Option<usize>, bool),
                DrawError,
            >((vertices, instances, false)),
            i == sources@.len() ==> sources@.take(i as int) == sources@,
        ensures
            count_sources(sources@) matches Ok(st) && st.0 == vertices && st.1 == instances,
        decreases sources@.len() - i,
    {
        let src = sources[i];
        proof {
            assert(sources@.take(i + 1).drop_last() =~= sources@.take(i as int));
            assert(sources@.take(i + 1).last() == src);
        }
        if !src.per_instance {
            match vertices {
                Some(c) => {
                    if c != src.len {
                        vertices = None;
                        proof {
                            lemma_count_sources_stopped(sources@, i + 1);
                        }
                        break;
                    }
                },
                None => {
                    vertices = Some(src.len);
                },
            }
        } else {
            match instances {
                Some(c) => {
                    if c != src.len {
                        proof {
                            lemma_count_sources_error(sources@, i + 1);
                        }
                        return Err(DrawError::InstancesCountMismatch);
                    }
                },
                None => {
                    instances = Some(src.len);
                },
            }
        }
        i = i + 1;
        proof {
            if i == sources@.len() {
                assert(sources@.take(i as int) =~= sources@);
            }
        }
    }
    Ok((vertices, instances))
}

/// What a draw call establishes before the bindings: the number of vertices per patch to set,
/// the numbers of vertices and of instances that the vertex sources give, and whether the
/// vertex bindings may use a base vertex.
#[derive(Debug, Clone, Copy, PartialEq, Eq, Structural)]
pub struct DrawPreparation {
    /// The number of vertices per patch to set, for patches.
    pub vertices_per_patch: Option<u16>,
    /// The number of vertices, if the per-vertex sources agree.
    pub vertices_count: Option<usize>,
    /// The number of instances, if there are per-instance sources.
    pub instances_count: Option<usize>,
    /// Whether the vertex bindings may use a base vertex.
    pub use_base_vertex: bool,
}

/// What preparing a draw call of `indices` with the vertex sources `sources` gives on a backend
/// of version `v`, with extensions `e` and limits `c`: first the check of patches, then the
/// count of vertices and instances, in that order; the errors that come after (from the
/// uniforms, the draw parameters and, without indices, the vertex count) are decided later.
pub open spec fn draw_preparation_result(
    v: Version,
    e: ExtensionsList,
    c: Capabilities,
    indices: IndicesSource,
    sources: Seq<VerticesSourceCount>,
) -> Result<DrawPreparation, DrawError> {
    match vertices_per_patch_result(indices.primitives_view(), c.max_patch_vertices) {
        Err(err) => Err(err),
        Ok(vertices_per_patch) => match vertices_count_result(sources) {
            Err(err) => Err(err),
            Ok((vertices_count, instances_count)) => Ok(
                DrawPreparation {
                    vertices_per_patch,
                    vertices_count,
                    instances_count,
                    use_base_vertex: base_vertex_usable(v, e, indices),
                },
            ),
        },
    }
}

/// Prepares a draw call of `indices` with the vertex sources `sources`; see
/// `draw_preparation_result`. Once the bindings are made, `choose_draw_command` takes the counts
/// and the base vertex and gives the entry point.
pub fn prepare_draw<C: CapabilitiesSource>(
    ctxt: &C,
    indices: &IndicesSource,
    sources: &[VerticesSourceCount],
) -> (r: Result<DrawPreparation, DrawError>)
    ensures
        r == draw_preparation_result(
            ctxt.version_view(),
            ctxt.extensions_view(),
            ctxt.capabilities_view(),
            *indices,
            sources@,
        ),
{
    let vertices_per_patch = match check_vertices_per_patch(ctxt, indices) {
        Err(err) => {
            return Err(err);
        },
        Ok(n) => n,
    };
    match count_vertices(sources) {
        Err(err) => Err(err),
        Ok((vertices_count, instances_count)) => Ok(
            DrawPreparation {
                vertices_per_patch,
                vertices_count,
                instances_count,
                use_base_vertex: use_base_vertex(ctxt, indices),
            },
        ),
    }
}

/// The OpenGL entry point of a draw call.
#[derive(Debug, Clone, Copy, PartialEq, Eq, Structural)]
pub enum DrawCommand {
    /// `glDrawElementsInstancedBaseVertex`.
    DrawElementsInstancedBaseVertex,
    /// `glDrawElementsInstancedBaseVertexOES`.
    DrawElementsInstancedBaseVertexOes,
    /// `glDrawElementsInstanced`.
    DrawElementsInstanced,
    /// `glDrawElementsBaseVertex`.
    DrawElementsBaseVertex,
    /// `glDrawElementsBaseVertexOES`.
    DrawElementsBaseVertexOes,
    /// `glDrawElements`.
    DrawElements,
    /// `glMultiDrawArraysIndirect`.
    MultiDrawArraysIndirect,
    /// `glMultiDrawElementsIndirect`.
    MultiDrawElementsIndirect,
    /// `glDrawArraysInstanced`, with the number of vertices and of instances.
    DrawArraysInstanced(usize, usize),
    /// `glDrawArrays`, with the number of vertices.
    DrawArrays(usize),
}

impl DrawCommand {
    /// Whether the entry point reads its vertices through an index buffer.
    pub open spec fn reads_index_buffer(self) -> bool {
        match self {
            DrawCommand::DrawElementsInstancedBaseVertex
            | DrawCommand::DrawElementsInstancedBaseVertexOes
            | DrawCommand::DrawElementsInstanced
            | DrawCommand::DrawElementsBaseVertex
            | DrawCommand::DrawElementsBaseVertexOes
            | DrawCommand::DrawElements => true,
            _ => false,
        }
    }

    /// Whether the entry point draws several instances.
    pub open spec fn is_instanced(self) -> bool {
        match self {
            DrawCommand::DrawElementsInstancedBaseVertex
            | DrawCommand::DrawElementsInstancedBaseVertexOes
            | DrawCommand::DrawElementsInstanced
            | DrawCommand::DrawArraysInstanced(..) => true,
            _ => false,
        }
    }

    /// Whether the entry point takes a base vertex.
    pub open spec fn takes_base_vertex(self) -> bool {
        match self {
            DrawCommand::DrawElementsInstancedBaseVertex
            | DrawCommand::DrawElementsInstancedBaseVertexOes
            | DrawCommand::DrawElementsBaseVertex
            | DrawCommand::DrawElementsBaseVertexOes => true,
            _ => false,
        }
    }

    /// For an entry point that draws arrays, its number of vertices and, when instanced, of
    /// instances.
    pub open spec fn array_counts(self) -> Option<(usize, Option<usize>)> {
        match self {
            DrawCommand::DrawArraysInstanced(c, n) => Some((c, Some(n))),
            DrawCommand::DrawArrays(c) => Some((c, None)),
            _ => None,
        }
    }
}

/// The entry point of a draw keeps what the draw asks for: with an index buffer it reads the
/// buffer, is instanced exactly when an instance count is given and takes a base vertex exactly
/// when the base vertex is not zero; without indices it draws arrays of the given numbers of
/// vertices and instances, and is refused exactly when the vertex sources differ in length.
pub proof fn lemma_draw_command_keeps_request(
    v: Version,
    e: ExtensionsList,
    indices: IndicesSource,
    vertices_count: Option<usize>,
    instances_count: Option<usize>,
    base_vertex: i32,
)
    ensures
        ({
            let r = draw_command_result(v, e, indices, vertices_count, instances_count, base_vertex);
            &&& indices is IndexBuffer ==> {
                &&& r is Ok
                &&& r->Ok_0.reads_index_buffer()
                &&& r->Ok_0.is_instanced() == (instances_count is Some)
                &&& r->Ok_0.takes_base_vertex() == (base_vertex != 0)
            }
            &&& indices is NoIndices ==> {
                &&& (r is Ok) == (vertices_count is Some)
                &&& r is Ok ==> r->Ok_0.array_counts() == Some(
                    (vertices_count.unwrap(), instances_count),
                )
                &&& r is Err ==> r == Err::<DrawCommand, DrawError>(
                    DrawError::VerticesSourcesLengthMismatch,
                )
            }
            &&& indices is MultidrawArray ==> r == Ok::<DrawCommand, DrawError>(
                DrawCommand::MultiDrawArraysIndirect,
            )
            &&& indices is MultidrawElement ==> r == Ok::<DrawCommand, DrawError>(
                DrawCommand::MultiDrawElementsIndirect,
            )
        }),
{
}

/// The entry point that draws `indices` with the given numbers of vertices and instances and
/// base vertex, or the error: drawing without indices needs per-vertex sources of the same
/// length.
pub open spec fn draw_command_result(
    v: Version,
    e: ExtensionsList,
    indices: IndicesSource,
    vertices_count: Option<usize>,
    instances_count: Option<usize>,
    base_vertex: i32,
) -> Result<DrawCommand, DrawError> {
    let core = ver_ge(v, Api::Gl, 3, 2) || ver_ge(v, Api::GlEs, 3, 2)
        || e.gl_arb_draw_elements_base_vertex;
    match indices {
        IndicesSource::IndexBuffer { .. } => Ok(
            if instances_count is Some {
                if base_vertex != 0 {
                    if core {
                        DrawCommand::DrawElementsInstancedBaseVertex
                    } else {
                        DrawCommand::DrawElementsInstancedBaseVertexOes
                    }
                } else {
                    DrawCommand::DrawElementsInstanced
                }
            } else if base_vertex != 0 {
                if core {
                    DrawCommand::DrawElementsBaseVertex
                } else {
                    DrawCommand::DrawElementsBaseVertexOes
                }
            } else {
                DrawCommand::DrawElements
            },
        ),
        IndicesSource::MultidrawArray { .. } => Ok(DrawCommand::MultiDrawArraysIndirect),
        IndicesSource::MultidrawElement { .. } => Ok(DrawCommand::MultiDrawElementsIndirect),
        IndicesSource::NoIndices { .. } => match vertices_count {
            Some(c) => Ok(
                match instances_count {
                    Some(n) => DrawCommand::DrawArraysInstanced(c, n),
                    None => DrawCommand::DrawArrays(c),
                },
            ),
            None => Err(DrawError::VerticesSourcesLengthMismatch),
        },
    }
}

/// Chooses the entry point that draws `indices`. A non-zero base vertex with an index buffer
/// needs a backend that supports base vertices.
pub fn choose_draw_command<C: CapabilitiesSource>(
    ctxt: &C,
    indices: &IndicesSource,
    vertices_count: Option<usize>,
    instances_count: Option<usize>,
    base_vertex: i32,
) -> (r: Result<DrawCommand, DrawError>)
    requires
        indices is IndexBuffer && base_vertex != 0 ==> base_vertex_supported(
            ctxt.version_view(),
            ctxt.extensions_view(),
        ),
    ensures
        r == draw_command_result(
            ctxt.version_view(),
            ctxt.extensions_view(),
            *indices,
            vertices_count,
            instances_count,
            base_vertex,
        ),
{
    let v = ctxt.get_version();
    let e = ctxt.get_extensions();
    let core = version_ge(v, Api::Gl, 3, 2) || version_ge(v, Api::GlEs, 3, 2)
        || e.gl_arb_draw_elements_base_vertex;
    match indices {
        IndicesSource::IndexBuffer { .. } => Ok(
            if instances_count.is_some() {
                if base_vertex != 0 {
                    if core {
                        DrawCommand::DrawElementsInstancedBaseVertex
                    } else {
                        DrawCommand::DrawElementsInstancedBaseVertexOes
                    }
                } else {
                    DrawCommand::DrawElementsInstanced
                }
            } else if base_vertex != 0 {
                if core {
                    DrawCommand::DrawElementsBaseVertex
                } else {
                    DrawCommand::DrawElementsBaseVertexOes
                }
            } else {
                DrawCommand::DrawElements
            },
        ),
        IndicesSource::MultidrawArray { .. } => Ok(DrawCommand::MultiDrawArraysIndirect),
        IndicesSource::MultidrawElement { .. } => Ok(DrawCommand::MultiDrawElementsIndirect),
        IndicesSource::NoIndices { .. } => match vertices_count {
            Some(c) => Ok(
                match instances_count {
                    Some(n) => DrawCommand::DrawArraysInstanced(c, n),
                    None => DrawCommand::DrawArrays(c),
                },
            ),
            None => Err(DrawError::VerticesSourcesLengthMismatch),
        },
    }
}

/// The value to give to `GL_PATCH_VERTICES` before drawing, if it must change: `current` is
/// the value that the backend has, and `vertices_per_patch` the value that the draw call needs.
pub open spec fn patch_vertices_update_spec(current: i32, vertices_per_patch: Option<u16>) -> Option<i32> {
    match vertices_per_patch {
        Some(v) => if current != v as i32 {
            Some(v as i32)
        } else {
            None
        },
        None => None,
    }
}

/// Returns the value to give to `GL_PATCH_VERTICES` before drawing, if it must change.
pub fn patch_vertices_update(current: i32, vertices_per_patch: Option<u16>) -> (r: Option<i32>)
    ensures
        r == patch_vertices_update_spec(current, vertices_per_patch),
{
    match vertices_per_patch {
        Some(v) => {
            let v = v as i32;
            if current != v {
                Some(v)
            } else {
                None
            }
        },
        None => None,
    }
}

} // verus!
