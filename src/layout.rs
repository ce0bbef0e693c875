//! Vertex-stream layouts: where each attribute of a record lies, for the
//! mesh-vertex stream and the per-instance stream.

use vstd::prelude::*;

verus! {

/// One attribute of a vertex record: `components` 32-bit floats starting
/// `offset` bytes into the record, read by shader location `location`.
#[derive(Clone, Copy, Debug, PartialEq, Eq, Structural)]
pub struct VertexAttribute {
    pub offset: u64,
    pub location: u32,
    pub components: u32,
}

/// The layout of one vertex stream: the record size in bytes, whether the
/// stream advances per instance rather than per vertex, and its attributes.
pub struct StreamLayout {
    pub stride: u64,
    pub per_instance: bool,
    pub attributes: Vec<VertexAttribute>,
}

/// Number of words taken by the first `i` attributes.
pub open spec fn words_before(components: Seq<u32>, i: int) -> int
    decreases i,
{
    if i <= 0 {
        0
    } else {
        words_before(components, i - 1) + components[i - 1]
    }
}

/// Whether `layout` packs attributes of the given sizes tightly, in order,
/// from shader location `first_location` on.
pub open spec fn packs(layout: StreamLayout, components: Seq<u32>, first_location: u32) -> bool {
    &&& layout.attributes@.len() == components.len()
    &&& layout.stride == 4 * words_before(components, components.len() as int)
    &&& forall|i: int|
        0 <= i < components.len() ==> #[trigger] layout.attributes@[i] == (VertexAttribute {
            offset: (4 * words_before(components, i)) as u64,
            location: (first_location + i) as u32,
            components: components[i],
        })
}

/// Lays out attributes of `components[i]` floats each (one to four), one
/// after another with no padding, at consecutive shader locations.
pub fn stream_layout(components: &Vec<u32>, first_location: u32, per_instance: bool) -> (l:
    StreamLayout)
    requires
        components@.len() <= 64,
        first_location + components@.len() <= u32::MAX,
        forall|i: int| 0 <= i < components@.len() ==> 1 <= #[trigger] components@[i] <= 4,
    ensures
        packs(l, components@, first_location),
        l.per_instance == per_instance,
{
    let mut attributes: Vec<VertexAttribute> = Vec::new();
    let mut words: u64 = 0;
    let mut i: usize = 0;
    while i < components.len()
        invariant
            components@.len() <= 64,
            first_location + components@.len() <= u32::MAX,
            forall|j: int| 0 <= j < components@.len() ==> 1 <= #[trigger] components@[j] <= 4,
            0 <= i <= components@.len(),
            words as int == words_before(components@, i as int),
            words <= 4 * i,
            attributes@.len() == i,
            forall|j: int|
                0 <= j < i ==> #[trigger] attributes@[j] == (VertexAttribute {
                    offset: (4 * words_before(components@, j)) as u64,
                    location: (first_location + j) as u32,
                    components: components@[j],
                }),
        decreases components@.len() - i,
    {
        let c = components[i];
        attributes.push(
            VertexAttribute { offset: 4 * words, location: first_location + i as u32, components: c },
        );
        words = words + c as u64;
        i = i + 1;
    }
    StreamLayout { stride: 4 * words, per_instance, attributes }
}

/// Number of 32-bit words in a raw instance record: a 4×4 transform matrix
/// (four columns of four) followed by a colour (three).
pub const INSTANCE_WORDS: usize = 19;

/// The mesh-vertex stream: position (3 floats), texture coordinates (2) and
/// normal (3) at locations 0, 1 and 2; 32 bytes per vertex.
pub fn model_vertex_layout() -> (l: StreamLayout)
    ensures
        packs(l, seq![3u32, 2u32, 3u32], 0),
        !l.per_instance,
        l.stride == 32,
        l.attributes@.len() == 3,
        l.attributes@[0] == (VertexAttribute { offset: 0, location: 0, components: 3 }),
        l.attributes@[1] == (VertexAttribute { offset: 12, location: 1, components: 2 }),
        l.attributes@[2] == (VertexAttribute { offset: 20, location: 2, components: 3 }),
{
    let components: Vec<u32> = vec![3, 2, 3];
    assert(components@ == seq![3u32, 2u32, 3u32]);
    let l = stream_layout(&components, 0, false);
    proof {
        reveal_with_fuel(words_before, 4);
    }
    l
}

/// The per-instance stream: the four columns of the transform matrix at
/// locations 5 to 8 and the colour at location 9; 76 bytes per instance.
pub fn instance_layout() -> (l: StreamLayout)
    ensures
        packs(l, seq![4u32, 4u32, 4u32, 4u32, 3u32], 5),
        l.per_instance,
        l.stride == 4 * INSTANCE_WORDS,
        l.attributes@.len() == 5,
        l.attributes@[0] == (VertexAttribute { offset: 0, location: 5, components: 4 }),
        l.attributes@[1] == (VertexAttribute { offset: 16, location: 6, components: 4 }),
        l.attributes@[2] == (VertexAttribute { offset: 32, location: 7, components: 4 }),
        l.attributes@[3] == (VertexAttribute { offset: 48, location: 8, components: 4 }),
        l.attributes@[4] == (VertexAttribute { offset: 64, location: 9, components: 3 }),
{
    let components: Vec<u32> = vec![4, 4, 4, 4, 3];
    assert(components@ == seq![4u32, 4u32, 4u32, 4u32, 3u32]);
    let l = stream_layout(&components, 5, true);
    proof {
        reveal_with_fuel(words_before, 6);
    }
    l
}

} // verus!
