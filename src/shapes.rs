use vstd::prelude::*;

use crate::geometry::{
    copy_slice, Geometry, GeometryError, GeometryType, GeometryView, MAX_INDICES, MAX_VERTICES,
};
use crate::vertex::Vertex;

verus! {

/// The most vertices a poly-line may hold: its `2 * (n - 1)` indices must fit a
/// draw call.
pub const MAX_LINE_VERTICES: usize = 0x8000_0000;

/// Something that can produce a geometry on demand.
pub trait Draw {
    /// The geometry that `draw` produces.
    spec fn drawn(&self) -> GeometryView;

    fn draw(&self) -> (r: Geometry)
        ensures
            r@ == self.drawn(),
    ;
}

// ---------------------------------------------------------------- polygon fan

/// Triangles `(0, i, i + 1)` for `i` from 1 to `t`.
pub open spec fn fan_triangles(t: nat) -> Seq<u32>
    decreases t,
{
    if t == 0 {
        Seq::empty()
    } else {
        fan_triangles((t - 1) as nat) + seq![0u32, t as u32, (t + 1) as u32]
    }
}

/// The fan triangulation of an `n`-gon from vertex 0: triangle `(0, i, i + 1)`
/// for each `i` in `[1, n - 2]`.
pub open spec fn fan_indices_spec(n: nat) -> Seq<u32> {
    if n < 3 {
        Seq::empty()
    } else {
        fan_triangles((n - 2) as nat)
    }
}

/// The vertex counts a polygon accepts.
pub open spec fn polygon_size_ok(n: nat) -> bool {
    3 <= n && 3 * (n - 2) <= MAX_INDICES
}

proof fn lemma_fan_triangles(t: nat)
    requires
        t + 1 <= u32::MAX,
    ensures
        fan_triangles(t).len() == 3 * t,
        forall|j: int|
            0 <= j < t ==> {
                &&& #[trigger] fan_triangles(t)[3 * j] == 0
                &&& fan_triangles(t)[3 * j + 1] == j + 1
                &&& fan_triangles(t)[3 * j + 2] == j + 2
            },
        forall|i: int| 0 <= i < 3 * t ==> #[trigger] fan_triangles(t)[i] <= t + 1,
    decreases t,
{
    if t > 0 {
        let prev = fan_triangles((t - 1) as nat);
        lemma_fan_triangles((t - 1) as nat);
        assert forall|j: int| 0 <= j < t implies {
            &&& #[trigger] fan_triangles(t)[3 * j] == 0
            &&& fan_triangles(t)[3 * j + 1] == j + 1
            &&& fan_triangles(t)[3 * j + 2] == j + 2
        } by {
            if j < t - 1 {
                assert(fan_triangles(t)[3 * j] == prev[3 * j]);
                assert(fan_triangles(t)[3 * j + 1] == prev[3 * j + 1]);
                assert(fan_triangles(t)[3 * j + 2] == prev[3 * j + 2]);
            }
        }
        assert forall|i: int| 0 <= i < 3 * t implies #[trigger] fan_triangles(t)[i] <= t + 1 by {
            if i < 3 * (t - 1) {
                assert(fan_triangles(t)[i] == prev[i]);
            }
        }
    }
}

/// A polygon of `n >= 3` vertices is split into exactly `n - 2` triangles
/// `(0, i, i + 1)`, and every index names one of its `n` vertices.
pub proof fn lemma_fan_triangulation(n: nat)
    requires
        polygon_size_ok(n),
    ensures
        fan_indices_spec(n).len() == 3 * (n - 2),
        forall|t: int|
            0 <= t < n - 2 ==> {
                &&& #[trigger] fan_indices_spec(n)[3 * t] == 0
                &&& fan_indices_spec(n)[3 * t + 1] == t + 1
                &&& fan_indices_spec(n)[3 * t + 2] == t + 2
            },
        forall|i: int| 0 <= i < fan_indices_spec(n).len() ==> (#[trigger] fan_indices_spec(n)[i]) < n,
{
    lemma_fan_triangles((n - 2) as nat);
}

/// The fan triangulation of an `n`-gon, three indices per triangle.
pub fn fan_indices(n: usize) -> (r: Vec<u32>)
    requires
        polygon_size_ok(n as nat),
    ensures
        r@ == fan_indices_spec(n as nat),
{
    let mut out: Vec<u32> = Vec::new();
    let last = n - 2;
    let mut i: usize = 1;
    while i <= last
        invariant
            1 <= i <= last + 1,
            last == n - 2,
            polygon_size_ok(n as nat),
            out@ == fan_triangles((i - 1) as nat),
        decreases last + 1 - i,
    {
        out.push(0);
        out.push(i as u32);
        out.push((i + 1) as u32);
        i += 1;
    }
    out
}

/// A simple polygon, drawn as a triangle fan from its first vertex.
pub struct Polygon {
    vertices: Vec<Vertex>,
}

impl View for Polygon {
    type V = Seq<Vertex>;

    closed spec fn view(&self) -> Seq<Vertex> {
        self.vertices@
    }
}

impl Polygon {
    #[verifier::type_invariant]
    spec fn inv(&self) -> bool {
        polygon_size_ok(self.vertices@.len())
    }

    /// A polygon over the given vertices, in order. Fails with `TooFewVertices`
    /// under three vertices, and with `TooManyIndices` where the fan's
    /// `3 * (n - 2)` indices would not fit a draw call.
    pub fn new(vertices: Vec<Vertex>) -> (r: Result<Polygon, GeometryError>)
        ensures
            vertices@.len() < 3 ==> r == Err::<Polygon, GeometryError>(GeometryError::TooFewVertices),
            vertices@.len() >= 3 && !polygon_size_ok(vertices@.len()) ==> r == Err::<
                Polygon,
                GeometryError,
            >(GeometryError::TooManyIndices),
            polygon_size_ok(vertices@.len()) ==> r is Ok && r->Ok_0@ == vertices@,
    {
        let n = vertices.len();
        if n < 3 {
            Err(GeometryError::TooFewVertices)
        } else if (n - 2) as u64 > MAX_INDICES / 3 {
            Err(GeometryError::TooManyIndices)
        } else {
            Ok(Polygon { vertices })
        }
    }
}

impl Draw for Polygon {
    open spec fn drawn(&self) -> GeometryView {
        (GeometryType::Mesh, self@, fan_indices_spec(self@.len()))
    }

    fn draw(&self) -> (r: Geometry) {
        proof {
            use_type_invariant(self);
            lemma_fan_triangulation(self.vertices@.len());
        }
        let indices = fan_indices(self.vertices.len());
        let vertices = copy_slice(self.vertices.as_slice());
        Geometry::from_parts(GeometryType::Mesh, vertices, indices)
    }
}

// ------------------------------------------------------------------ poly-line

/// Segment indices of a strip of `n` vertices: the pair `(i, i + 1)` for each
/// `i` in `[0, n - 2]`.
pub open spec fn strip_indices(n: nat) -> Seq<u32>
    decreases n,
{
    if n <= 1 {
        Seq::empty()
    } else {
        strip_indices((n - 1) as nat) + seq![(n - 2) as u32, (n - 1) as u32]
    }
}

/// A strip of `n >= 1` vertices has `2 * (n - 1)` indices, pair `s` joins
/// the adjacent vertices `s` and `s + 1`, and every index is below `n`.
pub proof fn lemma_strip_indices(n: nat)
    requires
        1 <= n <= MAX_LINE_VERTICES,
    ensures
        strip_indices(n).len() == 2 * (n - 1),
        forall|s: int|
            0 <= s < n - 1 ==> {
                &&& #[trigger] strip_indices(n)[2 * s] == s
                &&& strip_indices(n)[2 * s + 1] == s + 1
            },
        forall|i: int| 0 <= i < strip_indices(n).len() ==> ((#[trigger] strip_indices(n)[i]) as nat) < n,
    decreases n,
{
    if n > 1 {
        assert forall|i: int| 0 <= i < strip_indices(n).len() implies ((#[trigger] strip_indices(
            n,
        )[i]) as nat) < n by {
            lemma_strip_indices((n - 1) as nat);
            if i < 2 * (n - 2) {
                assert(strip_indices(n)[i] == strip_indices((n - 1) as nat)[i]);
            }
        }
        let prev = strip_indices((n - 1) as nat);
        lemma_strip_indices((n - 1) as nat);
        assert forall|s: int| 0 <= s < n - 1 implies {
            &&& #[trigger] strip_indices(n)[2 * s] == s
            &&& strip_indices(n)[2 * s + 1] == s + 1
        } by {
            if s < n - 2 {
                assert(strip_indices(n)[2 * s] == prev[2 * s]);
                assert(strip_indices(n)[2 * s + 1] == prev[2 * s + 1]);
            }
        }
    }
}

/// A line built from `initial` and then grown by pushing each of `pushed` has
/// `initial.len() + pushed.len()` vertices, those of `initial` followed by
/// those of `pushed`; its index sequence has `2 * (total - 1)` entries, and
/// each pair joins adjacent vertices.
pub proof fn lemma_pushes(initial: Seq<Vertex>, pushed: Seq<Vertex>)
    requires
        1 <= initial.len(),
        initial.len() + pushed.len() <= MAX_LINE_VERTICES,
    ensures
        pushes(initial, pushed).len() == initial.len() + pushed.len(),
        pushes(initial, pushed) == initial + pushed,
        strip_indices(pushes(initial, pushed).len()).len() == 2 * (initial.len() + pushed.len()
            - 1),
        forall|s: int|
            0 <= s < initial.len() + pushed.len() - 1 ==> {
                &&& #[trigger] strip_indices(pushes(initial, pushed).len())[2 * s] == s
                &&& strip_indices(pushes(initial, pushed).len())[2 * s + 1] == s + 1
            },
    decreases pushed.len(),
{
    if pushed.len() > 0 {
        lemma_pushes(initial, pushed.drop_last());
        assert(initial + pushed.drop_last() + seq![pushed.last()] =~= initial + pushed);
    } else {
        assert(initial + pushed =~= initial);
    }
    let n = pushes(initial, pushed).len();
    assert(n == initial.len() + pushed.len());
    lemma_strip_indices(n);
}

/// The vertices of a line after pushing each of `pushed`, in order, onto one
/// holding `vertices`: what `PolyLine::push` yields call by call.
pub open spec fn pushes(vertices: Seq<Vertex>, pushed: Seq<Vertex>) -> Seq<Vertex>
    decreases pushed.len(),
{
    if pushed.len() == 0 {
        vertices
    } else {
        pushes(vertices, pushed.drop_last()).push(pushed.last())
    }
}

/// A growable line through its vertices in order, drawn as a line list.
pub struct PolyLine {
    vertices: Vec<Vertex>,
    indices: Vec<u32>,
}

impl View for PolyLine {
    type V = Seq<Vertex>;

    closed spec fn view(&self) -> Seq<Vertex> {
        self.vertices@
    }
}

impl PolyLine {
    #[verifier::type_invariant]
    spec fn inv(&self) -> bool {
        &&& self.vertices@.len() <= MAX_LINE_VERTICES
        &&& self.indices@ == strip_indices(self.vertices@.len())
    }

    /// A line through the given vertices. Fails with `TooManyIndices` over
    /// `MAX_LINE_VERTICES` vertices.
    pub fn new(vertices: Vec<Vertex>) -> (r: Result<PolyLine, GeometryError>)
        ensures
            vertices@.len() <= MAX_LINE_VERTICES ==> r is Ok && r->Ok_0@ == vertices@,
            vertices@.len() > MAX_LINE_VERTICES ==> r == Err::<PolyLine, GeometryError>(
                GeometryError::TooManyIndices,
            ),
    {
        let n = vertices.len();
        if n > MAX_LINE_VERTICES {
            return Err(GeometryError::TooManyIndices);
        }
        let mut indices: Vec<u32> = Vec::new();
        let mut i: usize = 1;
        while i < n
            invariant
                1 <= i,
                i <= n || (n == 0 && i == 1),
                n <= MAX_LINE_VERTICES,
                n == vertices@.len(),
                indices@ == strip_indices(i as nat),
            decreases n - i,
        {
            indices.push((i - 1) as u32);
            indices.push(i as u32);
            i += 1;
        }
        proof {
            if n == 0 {
                assert(indices@ =~= strip_indices(0));
            } else {
                assert(i == n);
            }
        }
        Ok(PolyLine { vertices, indices })
    }

    /// Appends a vertex, and the segment from the previous last vertex to it.
    pub fn push(&mut self, vertex: Vertex)
        requires
            old(self)@.len() < MAX_LINE_VERTICES,
        ensures
            final(self)@ == old(self)@.push(vertex),
    {
        proof {
            use_type_invariant(&*self);
        }
        let mut taken = PolyLine { vertices: Vec::new(), indices: Vec::new() };
        std::mem::swap(self, &mut taken);
        let PolyLine { mut vertices, mut indices } = taken;
        let index = vertices.len();
        assert(indices@ == strip_indices(index as nat));
        vertices.push(vertex);
        if index > 0 {
            indices.push((index - 1) as u32);
            indices.push(index as u32);
            assert(strip_indices((index + 1) as nat) =~= strip_indices(index as nat) + seq![
                (index - 1) as u32,
                index as u32,
            ]);
        } else {
            assert(strip_indices(1) =~= strip_indices(0));
        }
        assert(indices@ == strip_indices(vertices@.len()));
        assert(vertices@.len() <= MAX_LINE_VERTICES);
        *self = PolyLine { vertices, indices };
    }

    /// The number of vertices.
    pub fn len(&self) -> (r: usize)
        ensures
            r == self@.len(),
    {
        self.vertices.len()
    }
}

impl Draw for PolyLine {
    open spec fn drawn(&self) -> GeometryView {
        (GeometryType::Line, self@, strip_indices(self@.len()))
    }

    fn draw(&self) -> (r: Geometry) {
        proof {
            use_type_invariant(self);
            if self.vertices@.len() > 0 {
                lemma_strip_indices(self.vertices@.len());
            }
        }
        let vertices = copy_slice(self.vertices.as_slice());
        let indices = copy_slice(self.indices.as_slice());
        Geometry::from_parts(GeometryType::Line, vertices, indices)
    }
}

// -------------------------------------------------------- parametric surface

/// The far corner of grid cell `k` in a grid of `n` samples with rows `l2`
/// long: the sample `k + l2 + 1`, or the last sample `n - 1` where that would
/// lie past the grid, which happens for the final cell alone.
pub open spec fn far_corner(k: nat, l2: nat, n: nat) -> nat {
    if k + l2 + 1 < n {
        k + l2 + 1
    } else {
        (n - 1) as nat
    }
}

/// The two triangles of the grid cell at `k`: `(k, c, k + 1)` and
/// `(k, k + l2, c)` with `c` its far corner.
pub open spec fn quad_indices(k: nat, l2: nat, n: nat) -> Seq<u32> {
    seq![
        k as u32,
        far_corner(k, l2, n) as u32,
        (k + 1) as u32,
        k as u32,
        (k + l2) as u32,
        far_corner(k, l2, n) as u32,
    ]
}

/// The cells `0 .. count` of a grid of `n` samples whose rows are `l2` long.
pub open spec fn grid_quads(count: nat, l2: nat, n: nat) -> Seq<u32>
    decreases count,
{
    if count == 0 {
        Seq::empty()
    } else {
        grid_quads((count - 1) as nat, l2, n) + quad_indices((count - 1) as nat, l2, n)
    }
}

/// The number of grid cells that an `l1 x l2` sampling emits: `l1 * l2 - l2`.
pub open spec fn grid_cell_count(l1: nat, l2: nat) -> nat {
    (l1 * l2 - l2) as nat
}

/// The triangle indices of an `l1 x l2` sampling grid.
pub open spec fn grid_indices_spec(l1: nat, l2: nat) -> Seq<u32> {
    grid_quads(grid_cell_count(l1, l2), l2, l1 * l2)
}

/// The grid sides a parametric surface accepts.
pub open spec fn grid_size_ok(l1: nat, l2: nat) -> bool {
    2 <= l1 && 2 <= l2 && 6 * grid_cell_count(l1, l2) <= MAX_INDICES
}

/// The reason, if any, that a sampling grid is refused, checked in this order:
/// a side under two samples, a sample count other than `l1 * l2`, more
/// indices than a draw call covers.
pub open spec fn surface_error(sample_count: nat, l1: nat, l2: nat) -> Option<GeometryError> {
    if l1 < 2 || l2 < 2 {
        Some(GeometryError::DegenerateGrid)
    } else if sample_count != l1 * l2 {
        Some(GeometryError::SampleCountMismatch)
    } else if !grid_size_ok(l1, l2) {
        Some(GeometryError::TooManyIndices)
    } else {
        None
    }
}

proof fn lemma_grid_bounds(l1: nat, l2: nat)
    requires
        grid_size_ok(l1, l2),
    ensures
        l1 * l2 <= 2 * grid_cell_count(l1, l2),
        l1 * l2 >= 2 * l2,
        grid_cell_count(l1, l2) + l2 == l1 * l2,
{
    assert(l1 * l2 >= 2 * l2) by (nonlinear_arith)
        requires
            2 <= l1,
    ;
}

proof fn lemma_grid_quads(count: nat, l2: nat, n: nat)
    requires
        1 <= l2,
        count + l2 <= n <= u32::MAX,
    ensures
        grid_quads(count, l2, n).len() == 6 * count,
        forall|q: int, j: int|
            0 <= q < count && 0 <= j < 6 ==> #[trigger] grid_quads(count, l2, n)[6 * q + j]
                == quad_indices(q as nat, l2, n)[j],
        forall|i: int| 0 <= i < 6 * count ==> ((#[trigger] grid_quads(count, l2, n)[i]) as nat) < n,
    decreases count,
{
    if count > 0 {
        let prev = grid_quads((count - 1) as nat, l2, n);
        let cur = grid_quads(count, l2, n);
        lemma_grid_quads((count - 1) as nat, l2, n);
        assert forall|q: int, j: int| 0 <= q < count && 0 <= j < 6 implies #[trigger] cur[6 * q + j]
            == quad_indices(q as nat, l2, n)[j] by {
            if q < count - 1 {
                assert(cur[6 * q + j] == prev[6 * q + j]);
            }
        }
        assert forall|i: int| 0 <= i < 6 * count implies ((#[trigger] cur[i]) as nat) < n by {
            if i < 6 * (count - 1) {
                assert(cur[i] == prev[i]);
            }
        }
    }
}

/// An `l1 x l2` grid (both sides at least two) yields `(l1 * l2 - l2) * 2`
/// triangles, six indices per cell `k`: `(k, k + l2 + 1, k + 1)` and
/// `(k, k + l2, k + l2 + 1)`, with the far corner `k + l2 + 1` of the final
/// cell taken as the last sample. Every index is below `l1 * l2`.
pub proof fn lemma_grid_triangulation(l1: nat, l2: nat)
    requires
        grid_size_ok(l1, l2),
    ensures
        grid_indices_spec(l1, l2).len() == 3 * (2 * grid_cell_count(l1, l2)),
        forall|k: int, j: int|
            0 <= k < grid_cell_count(l1, l2) && 0 <= j < 6 ==> #[trigger] grid_indices_spec(
                l1,
                l2,
            )[6 * k + j] == quad_indices(k as nat, l2, l1 * l2)[j],
        forall|k: nat|
            k + 1 < grid_cell_count(l1, l2) ==> #[trigger] far_corner(k, l2, l1 * l2) == k + l2 + 1,
        forall|i: int|
            0 <= i < grid_indices_spec(l1, l2).len() ==> ((#[trigger] grid_indices_spec(l1, l2)[i])
                as nat) < l1 * l2,
{
    lemma_grid_bounds(l1, l2);
    lemma_grid_quads(grid_cell_count(l1, l2), l2, l1 * l2);
}

/// The triangle indices of an `l1 x l2` sampling grid: for each cell `k` in
/// `[0, l1 * l2 - l2)`, the triangles `(k, k + l2 + 1, k + 1)` and
/// `(k, k + l2, k + l2 + 1)`, where a corner past the last sample is the last
/// sample.
pub fn grid_indices(l1: usize, l2: usize) -> (r: Vec<u32>)
    requires
        grid_size_ok(l1 as nat, l2 as nat),
    ensures
        r@ == grid_indices_spec(l1 as nat, l2 as nat),
{
    proof {
        lemma_grid_bounds(l1 as nat, l2 as nat);
    }
    let n = l1 * l2;
    let count = n - l2;
    let mut out: Vec<u32> = Vec::new();
    let mut k: usize = 0;
    while k < count
        invariant
            k <= count,
            n == l1 * l2,
            count == grid_cell_count(l1 as nat, l2 as nat),
            count + l2 == n,
            n <= u32::MAX,
            out@ == grid_quads(k as nat, l2 as nat, n as nat),
        decreases count - k,
    {
        let far = if k + l2 + 1 < n {
            k + l2 + 1
        } else {
            n - 1
        };
        out.push(k as u32);
        out.push(far as u32);
        out.push((k + 1) as u32);
        out.push(k as u32);
        out.push((k + l2) as u32);
        out.push(far as u32);
        k += 1;
        assert(out@ =~= grid_quads(k as nat, l2 as nat, n as nat));
    }
    out
}

/// A surface sampled on an `l1 x l2` grid of parameter pairs. The samples are
/// in row-major order: the sample for the `i`-th value of the first parameter
/// and the `j`-th of the second stands at `i * l2 + j`.
pub struct ParametricSurface {
    samples: Vec<Vertex>,
    l1: usize,
    l2: usize,
}

impl View for ParametricSurface {
    type V = (Seq<Vertex>, nat, nat);

    closed spec fn view(&self) -> (Seq<Vertex>, nat, nat) {
        (self.samples@, self.l1 as nat, self.l2 as nat)
    }
}

impl ParametricSurface {
    #[verifier::type_invariant]
    spec fn inv(&self) -> bool {
        surface_error(self.samples@.len(), self.l1 as nat, self.l2 as nat) is None
    }

    /// A surface over `l1 x l2` samples in row-major order. Fails as
    /// `surface_error` says.
    pub fn new(samples: Vec<Vertex>, l1: usize, l2: usize) -> (r: Result<
        ParametricSurface,
        GeometryError,
    >)
        ensures
            match surface_error(samples@.len(), l1 as nat, l2 as nat) {
                Some(e) => r == Err::<ParametricSurface, GeometryError>(e),
                None => r is Ok && r->Ok_0@ == (samples@, l1 as nat, l2 as nat),
            },
    {
        if l1 < 2 || l2 < 2 {
            return Err(GeometryError::DegenerateGrid);
        }
        proof {
            let (a, b) = (l1 as int, l2 as int);
            assert(a * b <= 0xffff_ffff_ffff_ffff * 0xffff_ffff_ffff_ffff) by (nonlinear_arith)
                requires
                    0 <= a <= 0xffff_ffff_ffff_ffff,
                    0 <= b <= 0xffff_ffff_ffff_ffff,
            ;
        }
        let total = (l1 as u128) * (l2 as u128);
        if samples.len() as u128 != total {
            return Err(GeometryError::SampleCountMismatch);
        }
        let n = samples.len() as u128;
        proof {
            assert(l1 * l2 >= 2 * l2) by (nonlinear_arith)
                requires
                    2 <= l1,
            ;
        }
        if 6 * (n - l2 as u128) > MAX_INDICES as u128 {
            return Err(GeometryError::TooManyIndices);
        }
        Ok(ParametricSurface { samples, l1, l2 })
    }
}

impl Draw for ParametricSurface {
    open spec fn drawn(&self) -> GeometryView {
        (GeometryType::Mesh, self@.0, grid_indices_spec(self@.1, self@.2))
    }

    fn draw(&self) -> (r: Geometry) {
        proof {
            use_type_invariant(self);
            lemma_grid_triangulation(self.l1 as nat, self.l2 as nat);
            lemma_grid_bounds(self.l1 as nat, self.l2 as nat);
        }
        let indices = grid_indices(self.l1, self.l2);
        let vertices = copy_slice(self.samples.as_slice());
        Geometry::from_parts(GeometryType::Mesh, vertices, indices)
    }
}

} // verus!
