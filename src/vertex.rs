use vstd::prelude::*;

verus! {

/// Number of 32-bit words one vertex occupies in a vertex buffer.
pub const VERTEX_WORDS: usize = 6;

/// Byte distance between consecutive vertices in a vertex buffer.
pub const VERTEX_STRIDE: u64 = 24;

/// Byte offset of the position attribute inside a vertex.
pub const POSITION_OFFSET: u64 = 0;

/// Byte offset of the colour attribute inside a vertex.
pub const COLOR_OFFSET: u64 = 12;

/// A vertex record: a position and a colour of three single-precision
/// components each. Components are held as their IEEE-754 bit patterns
/// (`f32::to_bits`), which is also how they are laid out for the GPU.
#[derive(Clone, Copy, Debug, PartialEq, Eq)]
pub struct Vertex {
    pub position: [u32; 3],
    pub color: [u32; 3],
}

/// The six words of one vertex: the position, then the colour.
pub open spec fn vertex_words(v: Vertex) -> Seq<u32> {
    seq![v.position@[0], v.position@[1], v.position@[2], v.color@[0], v.color@[1], v.color@[2]]
}

/// The words of a vertex sequence, one vertex after another.
pub open spec fn words_of(vs: Seq<Vertex>) -> Seq<u32>
    decreases vs.len(),
{
    if vs.len() == 0 {
        Seq::empty()
    } else {
        words_of(vs.drop_last()) + vertex_words(vs.last())
    }
}

/// The words of a vertex sequence have six per vertex, vertex `i` at `6 * i`.
pub proof fn lemma_words_of(vs: Seq<Vertex>)
    ensures
        words_of(vs).len() == 6 * vs.len(),
        forall|i: int, j: int|
            0 <= i < vs.len() && 0 <= j < 6 ==> #[trigger] words_of(vs)[6 * i + j]
                == vertex_words(vs[i])[j],
    decreases vs.len(),
{
    if vs.len() > 0 {
        let init = vs.drop_last();
        lemma_words_of(init);
        assert forall|i: int, j: int| 0 <= i < vs.len() && 0 <= j < 6 implies #[trigger] words_of(
            vs,
        )[6 * i + j] == vertex_words(vs[i])[j] by {
            if i < init.len() {
                assert(words_of(vs)[6 * i + j] == words_of(init)[6 * i + j]);
            }
        }
    }
}

impl Vertex {
    pub fn new(position: [u32; 3], color: [u32; 3]) -> (r: Vertex)
        ensures
            r.position == position,
            r.color == color,
    {
        Vertex { position, color }
    }
}

/// Lays the vertices out as buffer words, six per vertex.
pub fn vertex_buffer_words(vertices: &[Vertex]) -> (r: Vec<u32>)
    ensures
        r@ == words_of(vertices@),
{
    let mut out: Vec<u32> = Vec::new();
    let mut i: usize = 0;
    while i < vertices.len()
        invariant
            i <= vertices@.len(),
            out@ == words_of(vertices@.subrange(0, i as int)),
        decreases vertices@.len() - i,
    {
        let v = vertices[i];
        out.push(v.position[0]);
        out.push(v.position[1]);
        out.push(v.position[2]);
        out.push(v.color[0]);
        out.push(v.color[1]);
        out.push(v.color[2]);
        proof {
            let next = vertices@.subrange(0, i + 1);
            assert(next.drop_last() =~= vertices@.subrange(0, i as int));
            assert(next.last() == v);
        }
        i += 1;
        assert(out@ =~= words_of(vertices@.subrange(0, i as int)));
    }
    assert(vertices@.subrange(0, vertices@.len() as int) =~= vertices@);
    out
}

} // verus!
