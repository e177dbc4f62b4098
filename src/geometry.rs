use vstd::prelude::*;

use crate::vertex::{vertex_buffer_words, words_of, Vertex};

verus! {

/// The most vertices one geometry may hold: every vertex must be reachable
/// through a 32-bit index.
pub const MAX_VERTICES: u64 = 0x1_0000_0000;

/// The most indices one geometry may hold: the count is drawn as a `u32`.
pub const MAX_INDICES: u64 = 0xffff_ffff;

/// Which render pipeline draws a geometry.
#[derive(Clone, Copy, Debug, PartialEq, Eq, Structural)]
pub enum GeometryType {
    /// Line list: each index pair is one segment.
    Line,
    /// Triangle list: each index triple is one triangle.
    Mesh,
}

/// Why a geometry or a shape could not be built.
#[derive(Clone, Copy, Debug, PartialEq, Eq, Structural)]
pub enum GeometryError {
    /// More vertices than a 32-bit index can reach.
    TooManyVertices,
    /// More indices than a draw call can cover.
    TooManyIndices,
    /// An index names no vertex of the geometry.
    IndexOutOfRange,
    /// A polygon with fewer than three vertices.
    TooFewVertices,
    /// A sampling grid with fewer than two samples along a side.
    DegenerateGrid,
    /// A sampling grid whose sample count is not the product of its sides.
    SampleCountMismatch,
}

/// What a geometry holds: its technique, its vertices and its indices.
pub type GeometryView = (GeometryType, Seq<Vertex>, Seq<u32>);

/// The sizes that every geometry respects.
pub open spec fn fits_buffers(vertex_count: nat, index_count: nat) -> bool {
    vertex_count <= MAX_VERTICES && index_count <= MAX_INDICES
}

/// Every index names a vertex.
pub open spec fn indices_in_range(indices: Seq<u32>, vertex_count: nat) -> bool {
    forall|i: int| 0 <= i < indices.len() ==> (#[trigger] indices[i] as nat) < vertex_count
}

/// The error that validation reports for these slices, if any.
pub open spec fn validation_error(vertex_count: nat, indices: Seq<u32>) -> Option<GeometryError> {
    if vertex_count > MAX_VERTICES {
        Some(GeometryError::TooManyVertices)
    } else if indices.len() > MAX_INDICES {
        Some(GeometryError::TooManyIndices)
    } else if !indices_in_range(indices, vertex_count) {
        Some(GeometryError::IndexOutOfRange)
    } else {
        None
    }
}

/// Vertex and index data of one drawable item, with the technique that draws it.
/// Every index names one of its vertices. It is built once and never changed;
/// GPU buffers are made from its bytes.
pub struct Geometry {
    geometry_type: GeometryType,
    vertices: Vec<Vertex>,
    indices: Vec<u32>,
}

impl View for Geometry {
    type V = GeometryView;

    closed spec fn view(&self) -> GeometryView {
        (self.geometry_type, self.vertices@, self.indices@)
    }
}

/// Byte `k` of `w`, least significant first.
pub open spec fn byte_of(w: u32, k: int) -> u8 {
    if k == 0 {
        (w % 0x100) as u8
    } else if k == 1 {
        ((w / 0x100) % 0x100) as u8
    } else if k == 2 {
        ((w / 0x1_0000) % 0x100) as u8
    } else {
        ((w / 0x100_0000) % 0x100) as u8
    }
}

/// `bytes` holds the words one after another, four bytes each, least
/// significant byte first.
pub open spec fn little_endian_words(bytes: Seq<u8>, words: Seq<u32>) -> bool {
    forall|i: int, b: int|
        0 <= i < words.len() && 0 <= b < 4 ==> #[trigger] bytes[4 * i + b] == byte_of(words[i], b)
}

/// `bytes` holds the words one after another, four bytes each, most
/// significant byte first.
pub open spec fn big_endian_words(bytes: Seq<u8>, words: Seq<u32>) -> bool {
    forall|i: int, b: int|
        0 <= i < words.len() && 0 <= b < 4 ==> #[trigger] bytes[4 * i + b] == byte_of(
            words[i],
            3 - b,
        )
}

/// `bytes` is the in-memory form of `words`: four bytes per word, in the
/// machine's byte order, which is one of the two.
pub open spec fn encodes_words(bytes: Seq<u8>, words: Seq<u32>) -> bool {
    &&& bytes.len() == 4 * words.len()
    &&& (little_endian_words(bytes, words) || big_endian_words(bytes, words))
}

/// Relies on bytemuck::cast_slice from `u32` to `u8`, which never fails for
/// this pair of types and reinterprets the words' memory: four bytes for each
/// word, in the machine's byte order.
#[verifier::external_body]
fn words_as_bytes(words: &[u32]) -> (r: Vec<u8>)
    ensures
        encodes_words(r@, words@),
{
    bytemuck::cast_slice::<u32, u8>(words).to_vec()
}

pub(crate) fn copy_slice<T: Copy>(vertices: &[T]) -> (r: Vec<T>)
    ensures
        r@ == vertices@,
{
    let mut out: Vec<T> = Vec::new();
    let mut i: usize = 0;
    while i < vertices.len()
        invariant
            i <= vertices@.len(),
            out@ == vertices@.subrange(0, i as int),
        decreases vertices@.len() - i,
    {
        out.push(vertices[i]);
        i += 1;
        assert(out@ =~= vertices@.subrange(0, i as int));
    }
    assert(out@ =~= vertices@);
    out
}

/// Checks the sizes and that every index names a vertex, in that order.
fn validate(vertices: &[Vertex], indices: &[u32]) -> (r: Option<GeometryError>)
    ensures
        r == validation_error(vertices@.len(), indices@),
{
    if vertices.len() as u64 > MAX_VERTICES {
        return Some(GeometryError::TooManyVertices);
    }
    if indices.len() as u64 > MAX_INDICES {
        return Some(GeometryError::TooManyIndices);
    }
    let n = vertices.len();
    let mut i: usize = 0;
    while i < indices.len()
        invariant
            i <= indices@.len(),
            n == vertices@.len(),
            fits_buffers(vertices@.len(), indices@.len()),
            forall|k: int| 0 <= k < i ==> (#[trigger] indices@[k] as nat) < n,
        decreases indices@.len() - i,
    {
        if indices[i] as usize >= n {
            assert(!((indices@[i as int] as nat) < n));

            return Some(GeometryError::IndexOutOfRange);
        }
        i += 1;
    }
    None
}

impl Geometry {
    pub closed spec fn wf(&self) -> bool {
        &&& fits_buffers(self.vertices@.len(), self.indices@.len())
        &&& indices_in_range(self.indices@, self.vertices@.len())
    }

    #[verifier::type_invariant]
    spec fn inv(&self) -> bool {
        self.wf()
    }

    /// Builds a geometry from data whose sizes are known to fit.
    pub(crate) fn from_parts(
        geometry_type: GeometryType,
        vertices: Vec<Vertex>,
        indices: Vec<u32>,
    ) -> (r: Geometry)
        requires
            fits_buffers(vertices@.len(), indices@.len()),
            indices_in_range(indices@, vertices@.len()),
        ensures
            r@ == (geometry_type, vertices@, indices@),
    {
        Geometry { geometry_type, vertices, indices }
    }

    fn checked(geometry_type: GeometryType, vertices: &[Vertex], indices: &[u32]) -> (r: Result<
        Geometry,
        GeometryError,
    >)
        ensures
            match validation_error(vertices@.len(), indices@) {
                Some(e) => r == Err::<Geometry, GeometryError>(e),
                None => r is Ok && r->Ok_0@ == (geometry_type, vertices@, indices@),
            },
    {
        match validate(vertices, indices) {
            Some(e) => Err(e),
            None => {
                let v = copy_slice(vertices);
                let i = copy_slice(indices);
                Ok(Geometry::from_parts(geometry_type, v, i))
            },
        }
    }

    /// A triangle-list geometry holding copies of the given vertices and indices.
    /// Fails when there are too many vertices or indices, or when an index
    /// names no vertex, checked in that order.
    pub fn new_mesh(vertices: &[Vertex], indices: &[u32]) -> (r: Result<Geometry, GeometryError>)
        ensures
            match validation_error(vertices@.len(), indices@) {
                Some(e) => r == Err::<Geometry, GeometryError>(e),
                None => r is Ok && r->Ok_0@ == (GeometryType::Mesh, vertices@, indices@),
            },
    {
        Geometry::checked(GeometryType::Mesh, vertices, indices)
    }

    /// A line-list geometry holding copies of the given vertices and indices.
    /// Fails as `new_mesh` does.
    pub fn new_line(vertices: &[Vertex], indices: &[u32]) -> (r: Result<Geometry, GeometryError>)
        ensures
            match validation_error(vertices@.len(), indices@) {
                Some(e) => r == Err::<Geometry, GeometryError>(e),
                None => r is Ok && r->Ok_0@ == (GeometryType::Line, vertices@, indices@),
            },
    {
        Geometry::checked(GeometryType::Line, vertices, indices)
    }

    pub fn geometry_type(&self) -> (r: GeometryType)
        ensures
            r == self@.0,
    {
        self.geometry_type
    }

    pub fn vertices(&self) -> (r: &[Vertex])
        ensures
            r@ == self@.1,
    {
        self.vertices.as_slice()
    }

    /// The indices; every one names a vertex.
    pub fn indices(&self) -> (r: &[u32])
        ensures
            r@ == self@.2,
            indices_in_range(r@, self@.1.len()),
    {
        proof {
            use_type_invariant(self);
        }
        self.indices.as_slice()
    }

    /// The number of indices that one draw of this geometry covers.
    pub fn num_indices(&self) -> (r: u32)
        ensures
            r == self@.2.len(),
    {
        proof {
            use_type_invariant(self);
        }
        self.indices.len() as u32
    }

    /// The vertex buffer contents: six words per vertex (position, then
    /// colour), four bytes per word.
    pub fn vertex_bytes(&self) -> (r: Vec<u8>)
        ensures
            encodes_words(r@, words_of(self@.1)),
            r@.len() == 24 * self@.1.len(),
    {
        proof {
            use_type_invariant(self);
        }
        let words = vertex_buffer_words(self.vertices.as_slice());
        proof {
            crate::vertex::lemma_words_of(self.vertices@);
        }
        words_as_bytes(words.as_slice())
    }

    /// The index buffer contents: four bytes per index.
    pub fn index_bytes(&self) -> (r: Vec<u8>)
        ensures
            encodes_words(r@, self@.2),
    {
        words_as_bytes(self.indices.as_slice())
    }
}

} // verus!
