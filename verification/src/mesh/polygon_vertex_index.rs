//! Polygon vertices: the decoded form of the raw buffer of control-point
//! indices, in which the last vertex of every polygon is marked by storing the
//! bitwise complement of its index.

use crate::error::{Error, ErrorView};
use crate::mesh::control_point::ControlPointIndex;
use crate::search::{first_index, lemma_first_index_is, lemma_first_index_none};
use vstd::prelude::*;

verus! {

/// An index of a polygon vertex: a position in the sequence of the vertices of
/// all polygons, one polygon after another.
#[derive(Clone, Copy, Debug, PartialEq, Eq, Hash, Structural)]
pub struct PolygonVertexIndex(pub usize);

impl PolygonVertexIndex {
    /// Creates the index of a polygon vertex.
    pub fn new(index: usize) -> (r: PolygonVertexIndex)
        ensures
            r == PolygonVertexIndex(index),
    {
        PolygonVertexIndex(index)
    }

    /// Returns the index as an integer.
    pub fn to_usize(self) -> (r: usize)
        ensures
            r == self.0,
    {
        self.0
    }
}

/// An index of a polygon.
#[derive(Clone, Copy, Debug, PartialEq, Eq, Hash, Structural)]
pub struct PolygonIndex(pub usize);

impl PolygonIndex {
    /// Creates the index of a polygon.
    pub fn new(index: usize) -> (r: PolygonIndex)
        ensures
            r == PolygonIndex(index),
    {
        PolygonIndex(index)
    }

    /// Returns the index as an integer.
    pub fn to_usize(self) -> (r: usize)
        ensures
            r == self.0,
    {
        self.0
    }
}

/// A polygon vertex: where it stands among all polygon vertices, the polygon
/// it belongs to, and the control point it refers to.
#[derive(Clone, Copy, Debug, PartialEq, Eq, Hash, Structural)]
pub struct PolygonVertex {
    /// The index of this polygon vertex.
    pub index: PolygonVertexIndex,
    /// The polygon this vertex belongs to.
    pub polygon: PolygonIndex,
    /// The control point this vertex refers to.
    pub control_point: ControlPointIndex,
}

/// The largest control-point index that the raw buffer can express.
pub const MAX_CONTROL_POINT: u32 = 0x7fff_ffff;

/// The control-point index that a raw entry stands for: the entry itself if it
/// is not negative, else its bitwise complement.
pub open spec fn decode_entry(v: i32) -> int {
    if v < 0 {
        -(v + 1)
    } else {
        v as int
    }
}

/// The bitwise complement of a negative entry is minus the entry, minus one.
pub proof fn lemma_decode_entry_is_complement(v: i32)
    requires
        v < 0,
    ensures
        decode_entry(v) == !v,
        0 <= decode_entry(v) <= MAX_CONTROL_POINT,
{
    assert(v < 0 ==> !v == -(v + 1)) by (bit_vector);
}

/// Whether the entry at `i` closes a polygon of fewer than three vertices.
pub open spec fn closes_short(raw: Seq<i32>, i: int) -> bool {
    raw[i] < 0 && !(i >= 2 && raw[i - 1] >= 0 && raw[i - 2] >= 0)
}

/// Whether a raw buffer is well formed: it does not end inside a polygon, and
/// every polygon has at least three vertices.
pub open spec fn raw_well_formed(raw: Seq<i32>) -> bool {
    &&& raw.len() == 0 || raw.last() < 0
    &&& forall|i: int| 0 <= i < raw.len() ==> !closes_short(raw, i)
}

/// Where the polygon begins that the entry at `i` belongs to: behind the last
/// negative entry before `i`, or at 0 if there is none.
pub open spec fn polygon_start(raw: Seq<i32>, i: int) -> int
    decreases i,
{
    if i <= 0 {
        0
    } else if raw[i - 1] < 0 {
        i
    } else {
        polygon_start(raw, i - 1)
    }
}

/// The first position at which a polygon of fewer than three vertices is
/// closed, if there is one.
pub open spec fn first_short(raw: Seq<i32>) -> Option<int> {
    first_index(Seq::new(raw.len(), |i: int| i), |i: int| closes_short(raw, i))
}

/// The error that a malformed raw buffer is rejected with: the first polygon
/// that is too short, or else the polygon that the end of the buffer cuts off.
pub open spec fn malformed(raw: Seq<i32>) -> ErrorView {
    match first_short(raw) {
        Some(i) => ErrorView::ShortPolygon {
            start: polygon_start(raw, i) as usize,
            len: (i - polygon_start(raw, i) + 1) as usize,
        },
        None => ErrorView::UnterminatedPolygon { start: polygon_start(raw, raw.len() as int) as usize },
    }
}

/// Whether `i` lies in polygon `p`, given where each polygon starts.
pub open spec fn in_polygon(starts: Seq<usize>, p: int, i: int) -> bool {
    0 <= p < starts.len() - 1 && starts[p] <= i < starts[p + 1]
}

/// Whether the starts mark out polygons of at least three vertices each: the
/// first polygon starts at 0, and each of the others at least three behind the
/// one before it. The last entry is where the last polygon ends.
pub open spec fn starts_wf(starts: Seq<usize>) -> bool {
    &&& starts.len() >= 1
    &&& starts[0] == 0
    &&& forall|p: int| 0 <= p < starts.len() - 1 ==> starts[p] + 3 <= #[trigger] starts[p + 1]
}

/// Polygon `p` starts at least `3 * p` vertices in, and polygons are in
/// ascending order.
pub proof fn lemma_starts_grow(starts: Seq<usize>, p: int, q: int)
    requires
        starts_wf(starts),
        0 <= p <= q < starts.len(),
    ensures
        starts[p] + 3 * (q - p) <= starts[q],
    decreases q - p,
{
    if p < q {
        lemma_starts_grow(starts, p, q - 1);
        assert(starts[q - 1] + 3 <= starts[(q - 1) + 1]);
    }
}

/// A polygon vertex lies in one polygon only.
pub proof fn lemma_in_polygon_unique(starts: Seq<usize>, p: int, q: int, i: int)
    requires
        starts_wf(starts),
        in_polygon(starts, p, i),
        in_polygon(starts, q, i),
    ensures
        p == q,
{
    if p < q {
        lemma_starts_grow(starts, p + 1, q);
    }
    if q < p {
        lemma_starts_grow(starts, q + 1, p);
    }
}

/// The raw buffer of polygon vertices, as it is stored.
///
/// In a well-formed buffer the last vertex of each polygon is stored as the
/// bitwise complement of its control-point index, and every other vertex as
/// the index itself.
#[derive(Clone, Debug)]
pub struct RawPolygonVertices {
    data: Vec<i32>,
}

impl View for RawPolygonVertices {
    type V = Seq<i32>;

    closed spec fn view(&self) -> Seq<i32> {
        self.data@
    }
}

impl RawPolygonVertices {
    /// Wraps a raw buffer.
    pub fn new(data: Vec<i32>) -> (r: RawPolygonVertices)
        ensures
            r@ == data@,
    {
        RawPolygonVertices { data }
    }

    /// Returns the number of entries.
    pub fn len(&self) -> (r: usize)
        ensures
            r == self@.len(),
    {
        self.data.len()
    }

    /// Returns the control point that the entry at the given index refers to,
    /// or `None` if the index is out of range.
    pub fn get(&self, index: PolygonVertexIndex) -> (r: Option<ControlPointIndex>)
        ensures
            r == if index.0 < self@.len() {
                Some(ControlPointIndex(decode_entry(self@[index.0 as int]) as u32))
            } else {
                None
            },
    {
        if index.0 < self.data.len() {
            Some(decode(self.data[index.0]))
        } else {
            None
        }
    }

    /// Returns whether the entry at the given index closes a polygon, or
    /// `None` if the index is out of range.
    pub fn is_polygon_end(&self, index: PolygonVertexIndex) -> (r: Option<bool>)
        ensures
            r == if index.0 < self@.len() {
                Some(self@[index.0 as int] < 0)
            } else {
                None
            },
    {
        if index.0 < self.data.len() {
            Some(self.data[index.0] < 0)
        } else {
            None
        }
    }
}

/// Decodes one raw entry.
fn decode(v: i32) -> (r: ControlPointIndex)
    ensures
        r.0 == decode_entry(v),
        r.0 <= MAX_CONTROL_POINT,
{
    if v < 0 {
        ControlPointIndex((-(v + 1)) as u32)
    } else {
        ControlPointIndex(v as u32)
    }
}

/// The polygons of a mesh: for each polygon vertex the control point it refers
/// to, and for each polygon where its vertices start.
#[derive(Clone, Debug)]
pub struct PolygonVertices {
    control_points: Vec<ControlPointIndex>,
    starts: Vec<usize>,
}

impl PolygonVertices {
    /// The control point of each polygon vertex.
    pub closed spec fn spec_control_points(&self) -> Seq<ControlPointIndex> {
        self.control_points@
    }

    /// Where the vertices of each polygon start, followed by the number of all
    /// polygon vertices.
    pub closed spec fn spec_starts(&self) -> Seq<usize> {
        self.starts@
    }

    /// Whether the polygons are well formed: each has at least three vertices,
    /// together they hold all polygon vertices, every control-point index is
    /// one that the raw buffer can express, and three times the number of
    /// polygon vertices is a machine integer.
    pub open spec fn wf(&self) -> bool {
        &&& starts_wf(self.spec_starts())
        &&& self.spec_starts().last() == self.spec_control_points().len()
        &&& forall|i: int|
            0 <= i < self.spec_control_points().len() ==> (
            #[trigger] self.spec_control_points()[i]).0 <= MAX_CONTROL_POINT
        &&& 3 * self.spec_control_points().len() <= usize::MAX
    }

    /// The number of polygons.
    pub open spec fn spec_polygon_count(&self) -> int {
        self.spec_starts().len() - 1
    }

    /// The number of polygon vertices.
    pub open spec fn spec_len(&self) -> int {
        self.spec_control_points().len() as int
    }

    /// The polygon that a polygon vertex belongs to.
    pub open spec fn spec_polygon_of(&self, i: int) -> int {
        choose|p: int| in_polygon(self.spec_starts(), p, i)
    }

    /// The control-point indices of the vertices of polygon `p`, in order.
    pub open spec fn spec_polygon(&self, p: int) -> Seq<ControlPointIndex> {
        self.spec_control_points().subrange(
            self.spec_starts()[p] as int,
            self.spec_starts()[p + 1] as int,
        )
    }

    /// The polygon vertex at index `i`.
    pub open spec fn spec_polygon_vertex(&self, i: int) -> PolygonVertex {
        PolygonVertex {
            index: PolygonVertexIndex(i as usize),
            polygon: PolygonIndex(self.spec_polygon_of(i) as usize),
            control_point: self.spec_control_points()[i],
        }
    }

    /// Whether these polygons are the decoded form of a raw buffer: each entry
    /// stands for the control point of the polygon vertex at its position, and
    /// within each polygon the last entry, and no other, is negative.
    pub open spec fn decodes(&self, raw: Seq<i32>) -> bool {
        &&& self.spec_control_points().len() == raw.len()
        &&& forall|i: int|
            0 <= i < raw.len() ==> (#[trigger] self.spec_control_points()[i]).0 == decode_entry(
                raw[i],
            )
        &&& forall|p: int, i: int|
            #![trigger in_polygon(self.spec_starts(), p, i)]
            in_polygon(self.spec_starts(), p, i) ==> (raw[i] < 0 <==> i == self.spec_starts()[p + 1]
                - 1)
    }

    /// Decodes a raw buffer.
    ///
    /// Fails exactly when the buffer is malformed: when a polygon has fewer
    /// than three vertices, or when the buffer ends inside a polygon.
    pub fn new(raw: &RawPolygonVertices) -> (r: Result<PolygonVertices, Error>)
        requires
            3 * raw@.len() <= usize::MAX,
        ensures
            r.is_ok() <==> raw_well_formed(raw@),
            r matches Ok(pv) ==> pv.wf() && pv.decodes(raw@),
            r matches Err(e) ==> e@ == malformed(raw@),
    {
        let n = raw.data.len();
        let ghost buffer = raw@;
        let ghost positions = Seq::new(buffer.len(), |i: int| i);
        let ghost short = |i: int| closes_short(buffer, i);
        let mut control_points: Vec<ControlPointIndex> = Vec::new();
        let mut starts: Vec<usize> = Vec::new();
        starts.push(0);
        let mut start: usize = 0;
        let mut i: usize = 0;
        while i < n
            invariant
                buffer == raw@,
                buffer == raw.data@,
                n == buffer.len(),
                3 * n <= usize::MAX,
                positions == Seq::new(buffer.len(), |i: int| i),
                short == |i: int| closes_short(buffer, i),
                start <= i <= n,
                start == polygon_start(buffer, i as int),
                start == 0 || buffer[start - 1] < 0,
                forall|k: int| start <= k < i ==> buffer[k] >= 0,
                forall|k: int| 0 <= k < i ==> !closes_short(buffer, k),
                control_points.len() == i,
                forall|k: int|
                    0 <= k < i ==> (#[trigger] control_points@[k]).0 == decode_entry(buffer[k]),
                forall|k: int| 0 <= k < i ==> (#[trigger] control_points@[k]).0 <= MAX_CONTROL_POINT,
                starts_wf(starts@),
                starts@.last() == start,
                forall|p: int, k: int|
                    #![trigger in_polygon(starts@, p, k)]
                    in_polygon(starts@, p, k) ==> (buffer[k] < 0 <==> k == starts@[p + 1] - 1),
            decreases n - i,
        {
            let v = raw.data[i];
            if v < 0 {
                let len = i - start + 1;
                if len < 3 {
                    proof {
                        assert(closes_short(buffer, i as int));
                        assert forall|k: int| 0 <= k < i implies !short(#[trigger] positions[k]) by {
                            assert(!closes_short(buffer, k));
                        }
                        lemma_first_index_is(positions, short, i as int);
                    }
                    return Err(Error::ShortPolygon { start, len });
                }
                control_points.push(decode(v));
                let ghost before = starts@;
                start = i + 1;
                starts.push(start);
                proof {
                    assert(forall|p: int| 0 <= p < before.len() ==> starts@[p] == before[p]);
                    assert forall|p: int, k: int|
                        #![trigger in_polygon(starts@, p, k)]
                        in_polygon(starts@, p, k) implies (buffer[k] < 0 <==> k == starts@[p + 1]
                        - 1) by {
                        if p < before.len() - 1 {
                            assert(in_polygon(before, p, k));
                        }
                    }
                }
            } else {
                control_points.push(decode(v));
            }
            i += 1;
        }
        if start != n {
            proof {
                assert forall|k: int| 0 <= k < positions.len() implies !short(
                    #[trigger] positions[k],
                ) by {
                    assert(!closes_short(buffer, k));
                }
                lemma_first_index_none(positions, short);
                assert(buffer.last() >= 0);
            }
            return Err(Error::UnterminatedPolygon { start });
        }
        Ok(PolygonVertices { control_points, starts })
    }

    /// Returns the number of polygons.
    pub fn polygon_count(&self) -> (r: usize)
        requires
            self.wf(),
        ensures
            r == self.spec_polygon_count(),
    {
        self.starts.len() - 1
    }

    /// Returns where the vertices of a polygon start, or, for the number of
    /// polygons, where the last polygon ends.
    pub(crate) fn start_of(&self, polygon: usize) -> (r: usize)
        requires
            polygon < self.spec_starts().len(),
        ensures
            r == self.spec_starts()[polygon as int],
    {
        self.starts[polygon]
    }

    /// Returns the index of the first vertex of a polygon, or `None` if the
    /// index is out of range.
    pub fn first_vertex_of(&self, polygon: PolygonIndex) -> (r: Option<PolygonVertexIndex>)
        requires
            self.wf(),
        ensures
            r == if polygon.0 < self.spec_polygon_count() {
                Some(PolygonVertexIndex(self.spec_starts()[polygon.0 as int]))
            } else {
                None
            },
    {
        if polygon.0 < self.starts.len() - 1 {
            Some(PolygonVertexIndex(self.starts[polygon.0]))
        } else {
            None
        }
    }

    /// Returns the number of polygon vertices.
    pub fn len(&self) -> (r: usize)
        ensures
            r == self.spec_len(),
    {
        self.control_points.len()
    }

    /// Returns the control point that a polygon vertex refers to, or `None` if
    /// the index is out of range.
    pub fn control_point_of(&self, index: PolygonVertexIndex) -> (r: Option<ControlPointIndex>)
        ensures
            r == if index.0 < self.spec_len() {
                Some(self.spec_control_points()[index.0 as int])
            } else {
                None
            },
    {
        if index.0 < self.control_points.len() {
            Some(self.control_points[index.0])
        } else {
            None
        }
    }

    /// Returns the polygon that a polygon vertex belongs to, or `None` if the
    /// index is out of range.
    pub fn polygon_of(&self, index: PolygonVertexIndex) -> (r: Option<PolygonIndex>)
        requires
            self.wf(),
        ensures
            r.is_some() <==> index.0 < self.spec_len(),
            r matches Some(p) ==> in_polygon(self.spec_starts(), p.0 as int, index.0 as int)
                && p.0 == self.spec_polygon_of(index.0 as int),
    {
        let i = index.0;
        if i >= self.control_points.len() {
            return None;
        }
        let mut lo: usize = 0;
        let mut hi: usize = self.starts.len() - 1;
        while hi - lo > 1
            invariant
                lo < hi < self.starts.len(),
                self.starts@[lo as int] <= i < self.starts@[hi as int],
            decreases hi - lo,
        {
            let mid = lo + (hi - lo) / 2;
            if self.starts[mid] <= i {
                lo = mid;
            } else {
                hi = mid;
            }
        }
        proof {
            assert(in_polygon(self.spec_starts(), lo as int, i as int));
            lemma_in_polygon_unique(
                self.spec_starts(),
                lo as int,
                self.spec_polygon_of(i as int),
                i as int,
            );
        }
        Some(PolygonIndex(lo))
    }

    /// Returns a polygon vertex, or `None` if the index is out of range.
    pub fn polygon_vertex(&self, index: PolygonVertexIndex) -> (r: Option<PolygonVertex>)
        requires
            self.wf(),
        ensures
            r == if index.0 < self.spec_len() {
                Some(self.spec_polygon_vertex(index.0 as int))
            } else {
                None
            },
    {
        match self.polygon_of(index) {
            Some(polygon) => Some(
                PolygonVertex { index, polygon, control_point: self.control_points[index.0] },
            ),
            None => None,
        }
    }

    /// Returns the vertices of a polygon in order, or `None` if the index is
    /// out of range.
    pub fn vertices_of(&self, polygon: PolygonIndex) -> (r: Option<Vec<PolygonVertex>>)
        requires
            self.wf(),
        ensures
            r.is_some() <==> polygon.0 < self.spec_polygon_count(),
            r matches Some(vertices) ==> {
                &&& vertices@.len() == self.spec_polygon(polygon.0 as int).len()
                &&& vertices@.len() >= 3
                &&& self.spec_starts()[polygon.0 as int] + vertices@.len() <= self.spec_len()
                &&& forall|k: int|
                    0 <= k < vertices@.len() ==> #[trigger] vertices@[k] == (PolygonVertex {
                        index: PolygonVertexIndex((self.spec_starts()[polygon.0 as int] + k) as usize),
                        polygon,
                        control_point: self.spec_polygon(polygon.0 as int)[k],
                    })
            },
    {
        let p = polygon.0;
        if p >= self.starts.len() - 1 {
            return None;
        }
        let first = self.starts[p];
        let end = self.starts[p + 1];
        proof {
            lemma_starts_grow(self.spec_starts(), p as int + 1, self.spec_starts().len() - 1);
        }
        let mut vertices: Vec<PolygonVertex> = Vec::new();
        let mut i: usize = first;
        while i < end
            invariant
                first <= i <= end <= self.control_points.len(),
                vertices@.len() == i - first,
                forall|k: int|
                    0 <= k < vertices@.len() ==> #[trigger] vertices@[k] == (PolygonVertex {
                        index: PolygonVertexIndex((first + k) as usize),
                        polygon,
                        control_point: self.control_points@[first + k],
                    }),
            decreases end - i,
        {
            vertices.push(
                PolygonVertex {
                    index: PolygonVertexIndex(i),
                    polygon,
                    control_point: self.control_points[i],
                },
            );
            i += 1;
        }
        Some(vertices)
    }
}

/// A value that names a control point once the polygons are known.
pub trait IntoCpiWithPolyVert: Copy {
    /// The control point that the value names, if it names one.
    spec fn spec_control_point_index(self, polygon_vertices: &PolygonVertices) -> Option<
        ControlPointIndex,
    >;

    /// Returns the control point that the value names, or `None` if the value
    /// is out of range.
    fn control_point_index(self, polygon_vertices: &PolygonVertices) -> (r: Option<
        ControlPointIndex,
    >)
        requires
            polygon_vertices.wf(),
        ensures
            r == self.spec_control_point_index(polygon_vertices),
    ;
}

impl IntoCpiWithPolyVert for ControlPointIndex {
    open spec fn spec_control_point_index(self, polygon_vertices: &PolygonVertices) -> Option<
        ControlPointIndex,
    > {
        Some(self)
    }

    fn control_point_index(self, polygon_vertices: &PolygonVertices) -> (r: Option<
        ControlPointIndex,
    >) {
        Some(self)
    }
}

impl IntoCpiWithPolyVert for PolygonVertex {
    open spec fn spec_control_point_index(self, polygon_vertices: &PolygonVertices) -> Option<
        ControlPointIndex,
    > {
        Some(self.control_point)
    }

    fn control_point_index(self, polygon_vertices: &PolygonVertices) -> (r: Option<
        ControlPointIndex,
    >) {
        Some(self.control_point)
    }
}

impl IntoCpiWithPolyVert for PolygonVertexIndex {
    open spec fn spec_control_point_index(self, polygon_vertices: &PolygonVertices) -> Option<
        ControlPointIndex,
    > {
        if self.0 < polygon_vertices.spec_len() {
            Some(polygon_vertices.spec_control_points()[self.0 as int])
        } else {
            None
        }
    }

    fn control_point_index(self, polygon_vertices: &PolygonVertices) -> (r: Option<
        ControlPointIndex,
    >) {
        polygon_vertices.control_point_of(self)
    }
}

/// Whether the polygon vertex at `i` is the last of its polygon.
pub open spec fn is_last_of_polygon(starts: Seq<usize>, i: int) -> bool {
    exists|p: int| 0 <= p < starts.len() - 1 && #[trigger] starts[p + 1] == i + 1
}

/// The raw entry that stands for a control point: the index itself, or its
/// bitwise complement if the vertex is the last of its polygon.
pub open spec fn encode_entry(point: ControlPointIndex, last: bool) -> i32 {
    if last {
        (-(point.0 + 1)) as i32
    } else {
        point.0 as i32
    }
}

/// The raw buffer that stands for the given polygons.
pub open spec fn encode(polygons: PolygonVertices) -> Seq<i32> {
    Seq::new(
        polygons.spec_control_points().len(),
        |i: int|
            encode_entry(
                polygons.spec_control_points()[i],
                is_last_of_polygon(polygons.spec_starts(), i),
            ),
    )
}

/// Encoding is the inverse of decoding: the raw buffer that stands for
/// well-formed polygons is well formed, and the polygons are its decoded form.
pub proof fn lemma_encode_decodes(polygons: PolygonVertices)
    requires
        polygons.wf(),
    ensures
        raw_well_formed(encode(polygons)),
        polygons.decodes(encode(polygons)),
{
    let starts = polygons.spec_starts();
    let points = polygons.spec_control_points();
    let raw = encode(polygons);
    assert forall|i: int| 0 <= i < raw.len() implies (#[trigger] points[i]).0 == decode_entry(
        raw[i],
    ) by {
        assert(points[i].0 <= MAX_CONTROL_POINT);
    }
    assert forall|p: int, i: int|
        #![trigger in_polygon(starts, p, i)]
        in_polygon(starts, p, i) implies (raw[i] < 0 <==> i == starts[p + 1] - 1) by {
        lemma_starts_grow(starts, p + 1, starts.len() - 1);
        assert(points[i].0 <= MAX_CONTROL_POINT);
        if is_last_of_polygon(starts, i) {
            let q = choose|q: int| 0 <= q < starts.len() - 1 && #[trigger] starts[q + 1] == i + 1;
            assert(starts[q] + 3 <= starts[q + 1]);
            assert(in_polygon(starts, q, i));
            lemma_in_polygon_unique(starts, p, q, i);
        }
        if i == starts[p + 1] - 1 {
            assert(starts[p + 1] == i + 1);
        }
    }
    assert forall|i: int| 0 <= i < raw.len() implies !closes_short(raw, i) by {
        if raw[i] < 0 {
            assert(points[i].0 <= MAX_CONTROL_POINT);
            let q = choose|q: int| 0 <= q < starts.len() - 1 && #[trigger] starts[q + 1] == i + 1;
            assert(starts[q] + 3 <= starts[q + 1]);
            assert(in_polygon(starts, q, i - 1));
            assert(in_polygon(starts, q, i - 2));
        }
    }
    if raw.len() > 0 {
        let last = starts.len() - 2;
        assert(last >= 0);
        assert(starts[last + 1] == raw.len());
        assert(is_last_of_polygon(starts, raw.len() - 1));
        assert(points[raw.len() - 1].0 <= MAX_CONTROL_POINT);
    }
}

/// A raw buffer has one decoded form only.
pub proof fn lemma_decoding_unique(a: PolygonVertices, b: PolygonVertices, raw: Seq<i32>)
    requires
        a.wf(),
        b.wf(),
        a.decodes(raw),
        b.decodes(raw),
    ensures
        a.spec_control_points() == b.spec_control_points(),
        a.spec_starts() == b.spec_starts(),
{
    assert(a.spec_control_points() =~= b.spec_control_points());
    lemma_same_starts(a.spec_starts(), b.spec_starts(), raw, a.spec_starts().len() - 1);
    lemma_same_starts(b.spec_starts(), a.spec_starts(), raw, b.spec_starts().len() - 1);
    assert forall|p: int| 0 <= p < a.spec_starts().len() implies a.spec_starts()[p]
        == b.spec_starts()[p] by {
        lemma_same_starts(a.spec_starts(), b.spec_starts(), raw, p);
    }
    assert(a.spec_starts() =~= b.spec_starts());
}

/// Two sets of starts that split the same raw buffer at its negative entries
/// agree on every polygon that the first has.
proof fn lemma_same_starts(a: Seq<usize>, b: Seq<usize>, raw: Seq<i32>, p: int)
    requires
        starts_wf(a),
        starts_wf(b),
        a.last() == raw.len(),
        b.last() == raw.len(),
        forall|q: int, i: int|
            #![trigger in_polygon(a, q, i)]
            in_polygon(a, q, i) ==> (raw[i] < 0 <==> i == a[q + 1] - 1),
        forall|q: int, i: int|
            #![trigger in_polygon(b, q, i)]
            in_polygon(b, q, i) ==> (raw[i] < 0 <==> i == b[q + 1] - 1),
        0 <= p < a.len(),
    ensures
        p < b.len(),
        a[p] == b[p],
    decreases p,
{
    if p > 0 {
        lemma_same_starts(a, b, raw, p - 1);
        // Polygon p - 1 of `a` lies within the buffer, so `b`, which starts a
        // polygon at the same place, has a polygon p - 1 too.
        assert(a[p - 1] + 3 <= a[(p - 1) + 1]);
        lemma_starts_grow(a, p, a.len() - 1);
        assert(p < b.len());
        assert(b[p - 1] + 3 <= b[(p - 1) + 1]);
        lemma_starts_grow(b, p, b.len() - 1);
        // Both polygons end at the first negative entry from their common
        // start on.
        let end_a = a[p] - 1;
        let end_b = b[p] - 1;
        assert(in_polygon(a, p - 1, end_a));
        assert(in_polygon(b, p - 1, end_b));
        if end_b < end_a {
            assert(in_polygon(a, p - 1, end_b));
        }
        if end_a < end_b {
            assert(in_polygon(b, p - 1, end_a));
        }
    }
}

} // verus!
