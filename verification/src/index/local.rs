//! Lists of indices stored in RAM, one type for each kind of primitives.

use vstd::prelude::*;

verus! {

/// A list of points stored in RAM.
#[derive(Clone, Debug)]
pub struct PointsList<T>(pub Vec<T>);

/// A list of lines stored in RAM.
#[derive(Clone, Debug)]
pub struct LinesList<T>(pub Vec<T>);

/// A list of lines, with adjacency information, stored in RAM.
///
/// OpenGL ES doesn't support adjacency information.
#[derive(Clone, Debug)]
pub struct LinesListAdjacency<T>(pub Vec<T>);

/// A list of lines connected together stored in RAM.
#[derive(Clone, Debug)]
pub struct LineStrip<T>(pub Vec<T>);

/// A list of lines connected together, with adjacency information, stored in RAM.
///
/// OpenGL ES doesn't support adjacency information.
#[derive(Clone, Debug)]
pub struct LineStripAdjacency<T>(pub Vec<T>);

/// A list of triangles stored in RAM.
#[derive(Clone, Debug)]
pub struct TrianglesList<T>(pub Vec<T>);

/// A list of triangles, with adjacency information, stored in RAM.
///
/// OpenGL ES doesn't support adjacency information.
#[derive(Clone, Debug)]
pub struct TrianglesListAdjacency<T>(pub Vec<T>);

/// A list of triangles connected together stored in RAM.
#[derive(Clone, Debug)]
pub struct TriangleStrip<T>(pub Vec<T>);

/// A list of triangles connected together, with adjacency information, stored in RAM.
///
/// OpenGL ES doesn't support adjacency information.
#[derive(Clone, Debug)]
pub struct TriangleStripAdjacency<T>(pub Vec<T>);

/// A list of triangles stored in RAM.
#[derive(Clone, Debug)]
pub struct TriangleFan<T>(pub Vec<T>);

/// A list of patches stored in RAM.
///
/// The second parameter is the number of vertices per patch.
#[derive(Clone, Debug)]
pub struct Patches<T>(pub Vec<T>, pub u16);

} // verus!
