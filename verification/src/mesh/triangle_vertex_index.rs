//! Triangle vertices: the fan triangulation of the polygons of a mesh.
//!
//! A polygon with vertices `v0`, `v1`, ... is split into the triangles
//! `(v0, v1, v2)`, `(v0, v2, v3)`, and so on, all of which share its first
//! vertex. Nothing is stored for the triangles: every query is answered from
//! the table of polygon starts. For a polygon that is not convex the fan may
//! hold triangles that overlap or lie outside the polygon.

use crate::mesh::control_point::ControlPointIndex;
use crate::mesh::polygon_vertex_index::{
    lemma_starts_grow, starts_wf, PolygonIndex, PolygonVertex, PolygonVertexIndex, PolygonVertices,
};
use vstd::prelude::*;

verus! {

/// An index of a triangle.
#[derive(Clone, Copy, Debug, PartialEq, Eq, Hash, Structural)]
pub struct TriangleIndex(pub usize);

impl TriangleIndex {
    /// Creates the index of a triangle.
    pub fn new(index: usize) -> (r: TriangleIndex)
        ensures
            r == TriangleIndex(index),
    {
        TriangleIndex(index)
    }

    /// Returns the index as an integer.
    pub fn to_usize(self) -> (r: usize)
        ensures
            r == self.0,
    {
        self.0
    }
}

/// An index of a triangle vertex: three times the index of its triangle, plus
/// the corner of the triangle (0, 1 or 2) that it is.
#[derive(Clone, Copy, Debug, PartialEq, Eq, Hash, Structural)]
pub struct TriangleVertexIndex(pub usize);

impl TriangleVertexIndex {
    /// Creates the index of a triangle vertex.
    pub fn new(index: usize) -> (r: TriangleVertexIndex)
        ensures
            r == TriangleVertexIndex(index),
    {
        TriangleVertexIndex(index)
    }

    /// Returns the index as an integer.
    pub fn to_usize(self) -> (r: usize)
        ensures
            r == self.0,
    {
        self.0
    }

    /// Returns the triangle that this vertex belongs to.
    pub fn triangle_index(self) -> (r: TriangleIndex)
        ensures
            r.0 == self.0 / 3,
    {
        TriangleIndex(self.0 / 3)
    }

    /// Returns which corner of its triangle this vertex is: 0, 1 or 2.
    pub fn corner(self) -> (r: usize)
        ensures
            r == self.0 % 3,
            r < 3,
    {
        self.0 % 3
    }

    /// Returns the index of a corner of a triangle.
    ///
    /// Returns `None` if `corner` is not 0, 1 or 2, or if the index is not a
    /// machine integer.
    pub fn from_triangle(triangle: TriangleIndex, corner: usize) -> (r: Option<TriangleVertexIndex>)
        ensures
            r.is_some() <==> corner < 3 && 3 * triangle.0 + corner <= usize::MAX,
            r matches Some(v) ==> v.0 == 3 * triangle.0 + corner,
    {
        if corner >= 3 {
            return None;
        }
        match triangle.0.checked_mul(3) {
            Some(base) => match base.checked_add(corner) {
                Some(index) => Some(TriangleVertexIndex(index)),
                None => None,
            },
            None => None,
        }
    }
}

/// The index of the first triangle of polygon `p`: every polygon before it has
/// two triangles fewer than it has vertices.
pub open spec fn triangle_start(starts: Seq<usize>, p: int) -> int {
    starts[p] - 2 * p
}

/// Whether triangle `t` is one of the triangles of polygon `p`.
pub open spec fn in_triangles_of(starts: Seq<usize>, p: int, t: int) -> bool {
    0 <= p < starts.len() - 1 && triangle_start(starts, p) <= t < triangle_start(starts, p + 1)
}

/// Where corner `j` of the `k`-th triangle of a fan stands among the vertices
/// of its polygon: triangle `k` has the corners 0, `k + 1` and `k + 2`.
pub open spec fn fan_corner(k: int, j: int) -> int {
    if j == 0 {
        0
    } else {
        k + j
    }
}

/// The first triangles of the polygons are in ascending order: a polygon with
/// `n` vertices has `n - 2` triangles, which is at least one.
pub proof fn lemma_triangle_starts_grow(starts: Seq<usize>, p: int, q: int)
    requires
        starts_wf(starts),
        0 <= p <= q < starts.len(),
    ensures
        triangle_start(starts, p) + (q - p) <= triangle_start(starts, q),
        0 <= triangle_start(starts, p),
{
    lemma_starts_grow(starts, p, q);
    lemma_starts_grow(starts, 0, p);
}

/// A triangle belongs to one polygon only.
pub proof fn lemma_in_triangles_of_unique(starts: Seq<usize>, p: int, q: int, t: int)
    requires
        starts_wf(starts),
        in_triangles_of(starts, p, t),
        in_triangles_of(starts, q, t),
    ensures
        p == q,
{
    if p < q {
        lemma_triangle_starts_grow(starts, p + 1, q);
    }
    if q < p {
        lemma_triangle_starts_grow(starts, q + 1, p);
    }
}

/// The triangles of the polygons of a mesh.
#[derive(Clone, Copy, Debug)]
pub struct TriangleVertices<'a> {
    polygon_vertices: &'a PolygonVertices,
}

impl<'a> TriangleVertices<'a> {
    /// The polygons that are triangulated.
    pub closed spec fn spec_polygon_vertices(self) -> PolygonVertices {
        *self.polygon_vertices
    }

    /// Whether the polygons that are triangulated are well formed.
    pub open spec fn wf(self) -> bool {
        self.spec_polygon_vertices().wf()
    }

    /// Where the vertices of each polygon start.
    pub open spec fn spec_starts(self) -> Seq<usize> {
        self.spec_polygon_vertices().spec_starts()
    }

    /// The number of triangles: two fewer for each polygon than it has
    /// vertices.
    pub open spec fn spec_triangle_count(self) -> int {
        self.spec_polygon_vertices().spec_len() - 2 * self.spec_polygon_vertices().spec_polygon_count()
    }

    /// The number of triangle vertices.
    pub open spec fn spec_len(self) -> int {
        3 * self.spec_triangle_count()
    }

    /// The polygon that a triangle belongs to.
    pub open spec fn spec_polygon_of_triangle(self, t: int) -> int {
        choose|p: int| in_triangles_of(self.spec_starts(), p, t)
    }

    /// The index of the polygon vertex that a triangle vertex is.
    pub open spec fn spec_polygon_vertex_index(self, v: int) -> int {
        let t = v / 3;
        let p = self.spec_polygon_of_triangle(t);
        self.spec_starts()[p] + fan_corner(t - triangle_start(self.spec_starts(), p), v % 3)
    }

    /// The control point that a triangle vertex refers to.
    pub open spec fn spec_control_point_index(self, v: int) -> ControlPointIndex {
        self.spec_polygon_vertices().spec_control_points()[self.spec_polygon_vertex_index(v)]
    }

    /// Creates the triangulation of the given polygons.
    pub fn new(polygon_vertices: &'a PolygonVertices) -> (r: TriangleVertices<'a>)
        ensures
            r.spec_polygon_vertices() == *polygon_vertices,
    {
        TriangleVertices { polygon_vertices }
    }

    /// Returns the polygons that are triangulated.
    pub fn polygon_vertices(&self) -> (r: &'a PolygonVertices)
        ensures
            *r == self.spec_polygon_vertices(),
    {
        self.polygon_vertices
    }

    /// Returns the number of triangles.
    pub fn triangle_count(&self) -> (r: usize)
        requires
            self.wf(),
        ensures
            r == self.spec_triangle_count(),
    {
        let count = self.polygon_vertices.polygon_count();
        proof {
            lemma_starts_grow(self.spec_starts(), 0, count as int);
        }
        self.polygon_vertices.len() - 2 * count
    }

    /// Returns the number of triangle vertices.
    pub fn len(&self) -> (r: usize)
        requires
            self.wf(),
        ensures
            r == self.spec_len(),
    {
        3 * self.triangle_count()
    }

    /// Returns the polygon that a triangle belongs to, or `None` if the index
    /// is out of range.
    pub fn polygon_of_triangle(&self, triangle: TriangleIndex) -> (r: Option<PolygonIndex>)
        requires
            self.wf(),
        ensures
            r.is_some() <==> triangle.0 < self.spec_triangle_count(),
            r matches Some(p) ==> in_triangles_of(self.spec_starts(), p.0 as int, triangle.0 as int)
                && p.0 == self.spec_polygon_of_triangle(triangle.0 as int),
    {
        let t = triangle.0;
        if t >= self.triangle_count() {
            return None;
        }
        let ghost starts = self.spec_starts();
        let mut lo: usize = 0;
        let mut hi: usize = self.polygon_vertices.polygon_count();
        while hi - lo > 1
            invariant
                self.wf(),
                starts == self.spec_starts(),
                lo < hi < starts.len(),
                triangle_start(starts, lo as int) <= t < triangle_start(starts, hi as int),
            decreases hi - lo,
        {
            let mid = lo + (hi - lo) / 2;
            proof {
                lemma_starts_grow(starts, 0, mid as int);
            }
            if self.polygon_vertices.start_of(mid) - 2 * mid <= t {
                lo = mid;
            } else {
                hi = mid;
            }
        }
        proof {
            assert(in_triangles_of(starts, lo as int, t as int));
            lemma_in_triangles_of_unique(
                starts,
                lo as int,
                self.spec_polygon_of_triangle(t as int),
                t as int,
            );
        }
        Some(PolygonIndex(lo))
    }

    /// Returns the index of the polygon vertex that a triangle vertex is, or
    /// `None` if the index is out of range.
    pub fn polygon_vertex_index(&self, index: TriangleVertexIndex) -> (r: Option<
        PolygonVertexIndex,
    >)
        requires
            self.wf(),
        ensures
            r == if index.0 < self.spec_len() {
                Some(PolygonVertexIndex(self.spec_polygon_vertex_index(index.0 as int) as usize))
            } else {
                None
            },
            index.0 < self.spec_len() ==> 0 <= self.spec_polygon_vertex_index(index.0 as int)
                < self.spec_polygon_vertices().spec_len(),
    {
        let triangle = index.triangle_index();
        let corner = index.corner();
        let polygon = match self.polygon_of_triangle(triangle) {
            Some(p) => p.0,
            None => {
                return None;
            },
        };
        proof {
            lemma_starts_grow(self.spec_starts(), 0, polygon as int);
            lemma_starts_grow(
                self.spec_starts(),
                polygon as int + 1,
                self.spec_starts().len() - 1,
            );
        }
        let first = self.polygon_vertices.start_of(polygon);
        let k = triangle.0 - (first - 2 * polygon);
        let local = if corner == 0 {
            0
        } else {
            k + corner
        };
        Some(PolygonVertexIndex(first + local))
    }

    /// Returns the polygon vertex that a triangle vertex is, or `None` if the
    /// index is out of range.
    pub fn polygon_vertex(&self, index: TriangleVertexIndex) -> (r: Option<PolygonVertex>)
        requires
            self.wf(),
        ensures
            r == if index.0 < self.spec_len() {
                Some(
                    self.spec_polygon_vertices().spec_polygon_vertex(
                        self.spec_polygon_vertex_index(index.0 as int),
                    ),
                )
            } else {
                None
            },
    {
        match self.polygon_vertex_index(index) {
            Some(v) => self.polygon_vertices.polygon_vertex(v),
            None => None,
        }
    }

    /// Returns the control point that a triangle vertex refers to, or `None`
    /// if the index is out of range.
    pub fn control_point_index(&self, index: TriangleVertexIndex) -> (r: Option<ControlPointIndex>)
        requires
            self.wf(),
        ensures
            r == if index.0 < self.spec_len() {
                Some(self.spec_control_point_index(index.0 as int))
            } else {
                None
            },
    {
        match self.polygon_vertex_index(index) {
            Some(v) => self.polygon_vertices.control_point_of(v),
            None => None,
        }
    }

    /// Returns the three vertices of a triangle, or `None` if the index is out
    /// of range.
    pub fn triangle(&self, triangle: TriangleIndex) -> (r: Option<[TriangleVertexIndex; 3]>)
        requires
            self.wf(),
        ensures
            r.is_some() <==> triangle.0 < self.spec_triangle_count(),
            r matches Some(corners) ==> forall|j: int|
                0 <= j < 3 ==> (#[trigger] corners@[j]).0 == 3 * triangle.0 + j && corners@[j].0
                    < self.spec_len(),
    {
        if triangle.0 >= self.triangle_count() {
            return None;
        }
        let base = 3 * triangle.0;
        Some(
            [
                TriangleVertexIndex(base),
                TriangleVertexIndex(base + 1),
                TriangleVertexIndex(base + 2),
            ],
        )
    }

    /// Returns the control points of the three vertices of a triangle, or
    /// `None` if the index is out of range.
    pub fn control_points_of_triangle(&self, triangle: TriangleIndex) -> (r: Option<
        [ControlPointIndex; 3],
    >)
        requires
            self.wf(),
        ensures
            r.is_some() <==> triangle.0 < self.spec_triangle_count(),
            r matches Some(points) ==> forall|j: int|
                0 <= j < 3 ==> #[trigger] points@[j] == self.spec_control_point_index(
                    3 * triangle.0 + j,
                ),
    {
        if triangle.0 >= self.triangle_count() {
            return None;
        }
        let base = 3 * triangle.0;
        let a = self.control_point_index(TriangleVertexIndex(base));
        let b = self.control_point_index(TriangleVertexIndex(base + 1));
        let c = self.control_point_index(TriangleVertexIndex(base + 2));
        match (a, b, c) {
            (Some(a), Some(b), Some(c)) => Some([a, b, c]),
            _ => None,
        }
    }
}

/// A value that names a polygon vertex once the triangles are known.
pub trait IntoPvWithTriVert: Copy {
    /// The polygon vertex that the value names, if it names one.
    spec fn spec_polygon_vertex(self, triangle_vertices: &TriangleVertices<'_>) -> Option<
        PolygonVertex,
    >;

    /// Returns the polygon vertex that the value names, or `None` if the
    /// value is out of range.
    fn polygon_vertex(self, triangle_vertices: &TriangleVertices<'_>) -> (r: Option<PolygonVertex>)
        requires
            triangle_vertices.wf(),
        ensures
            r == self.spec_polygon_vertex(triangle_vertices),
    ;
}

impl IntoPvWithTriVert for PolygonVertex {
    open spec fn spec_polygon_vertex(self, triangle_vertices: &TriangleVertices<'_>) -> Option<
        PolygonVertex,
    > {
        Some(self)
    }

    fn polygon_vertex(self, triangle_vertices: &TriangleVertices<'_>) -> (r: Option<
        PolygonVertex,
    >) {
        Some(self)
    }
}

impl IntoPvWithTriVert for PolygonVertexIndex {
    open spec fn spec_polygon_vertex(self, triangle_vertices: &TriangleVertices<'_>) -> Option<
        PolygonVertex,
    > {
        if self.0 < triangle_vertices.spec_polygon_vertices().spec_len() {
            Some(triangle_vertices.spec_polygon_vertices().spec_polygon_vertex(self.0 as int))
        } else {
            None
        }
    }

    fn polygon_vertex(self, triangle_vertices: &TriangleVertices<'_>) -> (r: Option<
        PolygonVertex,
    >) {
        triangle_vertices.polygon_vertices().polygon_vertex(self)
    }
}

impl IntoPvWithTriVert for TriangleVertexIndex {
    open spec fn spec_polygon_vertex(self, triangle_vertices: &TriangleVertices<'_>) -> Option<
        PolygonVertex,
    > {
        if self.0 < triangle_vertices.spec_len() {
            Some(
                triangle_vertices.spec_polygon_vertices().spec_polygon_vertex(
                    triangle_vertices.spec_polygon_vertex_index(self.0 as int),
                ),
            )
        } else {
            None
        }
    }

    fn polygon_vertex(self, triangle_vertices: &TriangleVertices<'_>) -> (r: Option<
        PolygonVertex,
    >) {
        triangle_vertices.polygon_vertex(self)
    }
}

/// A value that names a control point once the triangles are known.
pub trait IntoCpiWithTriVert: Copy {
    /// The control point that the value names, if it names one.
    spec fn spec_control_point_index(self, triangle_vertices: &TriangleVertices<'_>) -> Option<
        ControlPointIndex,
    >;

    /// Returns the control point that the value names, or `None` if the value
    /// is out of range.
    fn control_point_index(self, triangle_vertices: &TriangleVertices<'_>) -> (r: Option<
        ControlPointIndex,
    >)
        requires
            triangle_vertices.wf(),
        ensures
            r == self.spec_control_point_index(triangle_vertices),
    ;
}

impl IntoCpiWithTriVert for ControlPointIndex {
    open spec fn spec_control_point_index(self, triangle_vertices: &TriangleVertices<'_>) -> Option<
        ControlPointIndex,
    > {
        Some(self)
    }

    fn control_point_index(self, triangle_vertices: &TriangleVertices<'_>) -> (r: Option<
        ControlPointIndex,
    >) {
        Some(self)
    }
}

impl IntoCpiWithTriVert for PolygonVertex {
    open spec fn spec_control_point_index(self, triangle_vertices: &TriangleVertices<'_>) -> Option<
        ControlPointIndex,
    > {
        Some(self.control_point)
    }

    fn control_point_index(self, triangle_vertices: &TriangleVertices<'_>) -> (r: Option<
        ControlPointIndex,
    >) {
        Some(self.control_point)
    }
}

impl IntoCpiWithTriVert for PolygonVertexIndex {
    open spec fn spec_control_point_index(self, triangle_vertices: &TriangleVertices<'_>) -> Option<
        ControlPointIndex,
    > {
        if self.0 < triangle_vertices.spec_polygon_vertices().spec_len() {
            Some(triangle_vertices.spec_polygon_vertices().spec_control_points()[self.0 as int])
        } else {
            None
        }
    }

    fn control_point_index(self, triangle_vertices: &TriangleVertices<'_>) -> (r: Option<
        ControlPointIndex,
    >) {
        triangle_vertices.polygon_vertices().control_point_of(self)
    }
}

impl IntoCpiWithTriVert for TriangleVertexIndex {
    open spec fn spec_control_point_index(self, triangle_vertices: &TriangleVertices<'_>) -> Option<
        ControlPointIndex,
    > {
        if self.0 < triangle_vertices.spec_len() {
            Some(triangle_vertices.spec_control_point_index(self.0 as int))
        } else {
            None
        }
    }

    fn control_point_index(self, triangle_vertices: &TriangleVertices<'_>) -> (r: Option<
        ControlPointIndex,
    >) {
        triangle_vertices.control_point_index(self)
    }
}

/// Going from a triangle vertex to its control point directly gives the same
/// as going by way of its polygon vertex.
pub proof fn lemma_conversions_agree(triangles: TriangleVertices, v: TriangleVertexIndex)
    requires
        triangles.wf(),
    ensures
        v.spec_control_point_index(&triangles) == match v.spec_polygon_vertex(&triangles) {
            Some(pv) => pv.index.spec_control_point_index(&triangles),
            None => None,
        },
        v.spec_polygon_vertex(&triangles) matches Some(pv) ==> {
            &&& pv.index.0 < triangles.spec_polygon_vertices().spec_len()
            &&& pv.spec_control_point_index(&triangles) == v.spec_control_point_index(&triangles)
        },
{
    if v.0 < triangles.spec_len() {
        lemma_polygon_vertex_in_range(triangles, v.0 as int);
    }
}

/// Every triangle vertex is a polygon vertex of the mesh.
pub proof fn lemma_polygon_vertex_in_range(triangles: TriangleVertices, v: int)
    requires
        triangles.wf(),
        0 <= v < triangles.spec_len(),
    ensures
        0 <= triangles.spec_polygon_vertex_index(v) < triangles.spec_polygon_vertices().spec_len(),
        in_triangles_of(triangles.spec_starts(), triangles.spec_polygon_of_triangle(v / 3), v / 3),
{
    let starts = triangles.spec_starts();
    let t = v / 3;
    let p = lemma_triangle_has_polygon(starts, t);
    lemma_in_triangles_of_unique(starts, p, triangles.spec_polygon_of_triangle(t), t);
    lemma_starts_grow(starts, p + 1, starts.len() - 1);
}

/// Every triangle belongs to some polygon.
pub proof fn lemma_triangle_has_polygon(starts: Seq<usize>, t: int) -> (p: int)
    requires
        starts_wf(starts),
        0 <= t < triangle_start(starts, starts.len() - 1),
    ensures
        in_triangles_of(starts, p, t),
{
    lemma_find_polygon(starts, t, starts.len() - 1)
}

/// A triangle that comes before the first triangle of polygon `q` belongs to
/// a polygon before `q`.
proof fn lemma_find_polygon(starts: Seq<usize>, t: int, q: int) -> (p: int)
    requires
        starts_wf(starts),
        0 <= q < starts.len(),
        0 <= t < triangle_start(starts, q),
    ensures
        in_triangles_of(starts, p, t),
    decreases q,
{
    if triangle_start(starts, q - 1) <= t {
        q - 1
    } else {
        lemma_find_polygon(starts, t, q - 1)
    }
}

/// The fan law: in a polygon `p` of `n` vertices, corner `j` of triangle `k`,
/// for `k` from 0 to `n - 3`, is the polygon's first vertex if `j` is 0, and
/// its vertex `k + j` otherwise. The polygon has `n - 2` triangles.
pub proof fn lemma_fan(triangles: TriangleVertices, p: int, k: int, j: int)
    requires
        triangles.wf(),
        0 <= p < triangles.spec_polygon_vertices().spec_polygon_count(),
        0 <= k < triangles.spec_starts()[p + 1] - triangles.spec_starts()[p] - 2,
        0 <= j < 3,
    ensures
        triangle_start(triangles.spec_starts(), p + 1) - triangle_start(triangles.spec_starts(), p)
            == triangles.spec_starts()[p + 1] - triangles.spec_starts()[p] - 2,
        0 <= triangle_start(triangles.spec_starts(), p) + k < triangles.spec_triangle_count(),
        triangles.spec_polygon_of_triangle(triangle_start(triangles.spec_starts(), p) + k) == p,
        triangles.spec_polygon_vertex_index(3 * (triangle_start(triangles.spec_starts(), p) + k) + j)
            == triangles.spec_starts()[p] + fan_corner(k, j),
        triangles.spec_starts()[p] + fan_corner(k, j) < triangles.spec_starts()[p + 1],
{
    let starts = triangles.spec_starts();
    let t = triangle_start(starts, p) + k;
    lemma_triangle_starts_grow(starts, 0, p);
    lemma_triangle_starts_grow(starts, p + 1, starts.len() - 1);
    assert(in_triangles_of(starts, p, t));
    lemma_in_triangles_of_unique(starts, p, triangles.spec_polygon_of_triangle(t), t);
    assert((3 * t + j) / 3 == t && (3 * t + j) % 3 == j);
}

} // verus!
