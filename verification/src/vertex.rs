//! The fixed triangle and the byte image of its vertex buffer.
//!
//! A vertex is four single-precision components, ready for clip space. As
//! with colours, the components are carried by their IEEE-754 bit patterns.
//! A vertex buffer is the vertices laid out one after another, each as its
//! four components `x y z w`, each component as four bytes in the byte order
//! of the machine.

use vstd::prelude::*;

verus! {

/// Bit pattern of the float `0.0`.
pub const F32_ZERO: u32 = 0;

/// Bit pattern of the float `1.0`.
pub const F32_ONE: u32 = 0x3F80_0000;

/// Bit pattern of the float `0.75`.
pub const F32_THREE_QUARTERS: u32 = 0x3F40_0000;

/// Bit pattern of the float `-0.75`.
pub const F32_MINUS_THREE_QUARTERS: u32 = 0xBF40_0000;

/// Components in one vertex.
pub const COMPONENTS_PER_VERTEX: u64 = 4;

/// Bytes in one component.
pub const BYTES_PER_COMPONENT: u64 = 4;

/// Bytes from one vertex to the next in a vertex buffer.
pub const VERTEX_STRIDE: u64 = 16;

/// Vertices in a triangle.
pub const TRIANGLE_VERTEX_COUNT: u32 = 3;

/// One homogeneous position; every field is the bit pattern of a binary32
/// value.
#[derive(Clone, Copy, Debug, PartialEq, Eq, Structural)]
pub struct Vertex {
    pub x: u32,
    pub y: u32,
    pub z: u32,
    pub w: u32,
}

/// Three vertices in drawing order.
#[derive(Clone, Copy, Debug, PartialEq, Eq, Structural)]
pub struct Triangle {
    pub a: Vertex,
    pub b: Vertex,
    pub c: Vertex,
}

/// Byte `k` (0 is the least significant) of a 32-bit word.
pub open spec fn word_byte(word: u32, k: int) -> u8 {
    if k == 0 {
        (word & 0xff) as u8
    } else if k == 1 {
        ((word >> 8) & 0xff) as u8
    } else if k == 2 {
        ((word >> 16) & 0xff) as u8
    } else {
        ((word >> 24) & 0xff) as u8
    }
}

/// The words as bytes, least significant byte of each word first.
pub open spec fn little_endian_image(words: Seq<u32>) -> Seq<u8> {
    Seq::new(4 * words.len(), |i: int| word_byte(words[i / 4], i % 4))
}

/// The words as bytes, most significant byte of each word first.
pub open spec fn big_endian_image(words: Seq<u32>) -> Seq<u8> {
    Seq::new(4 * words.len(), |i: int| word_byte(words[i / 4], 3 - i % 4))
}

/// `bytes` is how `words` lie in memory on a little-endian or on a
/// big-endian machine.
pub open spec fn is_memory_image(words: Seq<u32>, bytes: Seq<u8>) -> bool {
    bytes == little_endian_image(words) || bytes == big_endian_image(words)
}

/// Trusted: `safe_transmute::transmute_to_bytes` on a slice of `u32`.
///
/// The outside function reinterprets the slice's memory as bytes without
/// copying or changing it, so the result holds every word in turn as its four
/// bytes in the byte order of the machine, which is little-endian or
/// big-endian. It neither fails nor panics. The bytes are copied out into a
/// vector of their own.
#[verifier::external_body]
fn words_to_bytes(words: &Vec<u32>) -> (bytes: Vec<u8>)
    ensures
        is_memory_image(words@, bytes@),
{
    safe_transmute::transmute_to_bytes(words.as_slice()).to_vec()
}

impl Vertex {
    /// The vertex with the given component bit patterns.
    pub fn from_bits(x: u32, y: u32, z: u32, w: u32) -> (v: Vertex)
        ensures
            v == (Vertex { x, y, z, w }),
    {
        Vertex { x, y, z, w }
    }

    /// The components in buffer order.
    pub open spec fn words(self) -> Seq<u32> {
        seq![self.x, self.y, self.z, self.w]
    }
}

impl Triangle {
    /// The one triangle that is ever drawn: `(0.75, 0.75)`, `(0.75, -0.75)`,
    /// `(-0.75, -0.75)`, each with depth `0.0` and weight `1.0`.
    pub open spec fn fixed() -> Triangle {
        Triangle {
            a: Vertex { x: F32_THREE_QUARTERS, y: F32_THREE_QUARTERS, z: F32_ZERO, w: F32_ONE },
            b: Vertex {
                x: F32_THREE_QUARTERS,
                y: F32_MINUS_THREE_QUARTERS,
                z: F32_ZERO,
                w: F32_ONE,
            },
            c: Vertex {
                x: F32_MINUS_THREE_QUARTERS,
                y: F32_MINUS_THREE_QUARTERS,
                z: F32_ZERO,
                w: F32_ONE,
            },
        }
    }

    /// The vertices in drawing order.
    pub open spec fn vertices(self) -> Seq<Vertex> {
        seq![self.a, self.b, self.c]
    }

    /// The fixed triangle.
    pub fn new() -> (t: Triangle)
        ensures
            t == Triangle::fixed(),
    {
        Triangle {
            a: Vertex::from_bits(F32_THREE_QUARTERS, F32_THREE_QUARTERS, F32_ZERO, F32_ONE),
            b: Vertex::from_bits(F32_THREE_QUARTERS, F32_MINUS_THREE_QUARTERS, F32_ZERO, F32_ONE),
            c: Vertex::from_bits(
                F32_MINUS_THREE_QUARTERS,
                F32_MINUS_THREE_QUARTERS,
                F32_ZERO,
                F32_ONE,
            ),
        }
    }

    /// The vertices as a vector, in drawing order.
    pub fn to_vertices(&self) -> (vs: Vec<Vertex>)
        ensures
            vs@ == self.vertices(),
    {
        let mut vs: Vec<Vertex> = Vec::new();
        vs.push(self.a);
        vs.push(self.b);
        vs.push(self.c);
        vs
    }
}

/// The components of a run of vertices, in buffer order.
pub open spec fn flatten(vertices: Seq<Vertex>) -> Seq<u32>
    decreases vertices.len(),
{
    if vertices.len() == 0 {
        Seq::empty()
    } else {
        flatten(vertices.drop_last()) + vertices.last().words()
    }
}

/// A run of `n` vertices has `4 * n` components.
pub proof fn flatten_len(vertices: Seq<Vertex>)
    ensures
        flatten(vertices).len() == COMPONENTS_PER_VERTEX * vertices.len(),
    decreases vertices.len(),
{
    if vertices.len() > 0 {
        flatten_len(vertices.drop_last());
    }
}

/// Lays vertices out as the words of a vertex buffer.
pub fn vertex_words(vertices: &Vec<Vertex>) -> (words: Vec<u32>)
    ensures
        words@ == flatten(vertices@),
{
    let mut words: Vec<u32> = Vec::new();
    let mut i: usize = 0;
    while i < vertices.len()
        invariant
            i <= vertices.len(),
            words@ == flatten(vertices@.take(i as int)),
        decreases vertices.len() - i,
    {
        let v = vertices[i];
        proof {
            let next = vertices@.take(i + 1);
            assert(next.drop_last() =~= vertices@.take(i as int));
            assert(next.last() == v);
        }
        words.push(v.x);
        words.push(v.y);
        words.push(v.z);
        words.push(v.w);
        i = i + 1;
        assert(words@ =~= flatten(vertices@.take(i as int)));
    }
    assert(vertices@.take(i as int) =~= vertices@);
    words
}

/// The contents of a vertex buffer that holds `vertices`: their components
/// in order, as they lie in this machine's memory.
pub fn vertex_bytes(vertices: &Vec<Vertex>) -> (bytes: Vec<u8>)
    ensures
        is_memory_image(flatten(vertices@), bytes@),
        bytes@.len() == VERTEX_STRIDE * vertices@.len(),
{
    let words = vertex_words(vertices);
    proof {
        flatten_len(vertices@);
    }
    words_to_bytes(&words)
}

} // verus!
