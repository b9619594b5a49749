//! Index bookkeeping of the track and wall meshes: how the segments are cut
//! into chunks (one mesh each) and the triangle indices of each quad.

use vstd::prelude::*;

verus! {

/// Segments per chunk of the road mesh.
pub const ROAD_CHUNK_SIZE: usize = 200;

/// Segments per chunk of a wall mesh.
pub const WALL_CHUNK_SIZE: usize = 150;

/// `ranges` cuts the quads `0..total` into consecutive half-open ranges of
/// `size` quads each, the last one possibly shorter.
pub open spec fn is_chunk_partition(ranges: Seq<(usize, usize)>, total: nat, size: nat) -> bool {
    &&& ranges.len() > 0
    &&& ranges[0].0 == 0
    &&& ranges.last().1 == total
    &&& forall|i: int| 0 <= i < ranges.len() - 1 ==> (#[trigger] ranges[i]).1 == ranges[i + 1].0
    &&& forall|i: int|
        0 <= i < ranges.len() ==> (#[trigger] ranges[i]).0 < ranges[i].1 && ranges[i].1
            - ranges[i].0 <= size
    &&& forall|i: int| 0 <= i < ranges.len() - 1 ==> (#[trigger] ranges[i]).1 - ranges[i].0 == size
}

/// The chunks of a strip of `segment_count` segments: the quads between
/// consecutive segments, `0..segment_count - 1`, cut into ranges of
/// `chunk_size`. A strip of fewer than two segments has no quads and no
/// chunks.
pub fn mesh_chunk_ranges(segment_count: usize, chunk_size: usize) -> (ranges: Vec<(usize, usize)>)
    requires
        chunk_size > 0,
    ensures
        segment_count < 2 ==> ranges@.len() == 0,
        segment_count >= 2 ==> is_chunk_partition(
            ranges@,
            (segment_count - 1) as nat,
            chunk_size as nat,
        ),
{
    let mut ranges: Vec<(usize, usize)> = Vec::new();
    if segment_count < 2 {
        return ranges;
    }
    let total = segment_count - 1;
    let mut chunk_index: usize = 0;
    while chunk_index < total
        invariant
            chunk_size > 0,
            total == segment_count - 1,
            total >= 1,
            chunk_index <= total,
            ranges@.len() == 0 <==> chunk_index == 0,
            ranges@.len() > 0 ==> ranges@[0].0 == 0 && ranges@.last().1 == chunk_index,
            forall|i: int|
                0 <= i < ranges@.len() - 1 ==> (#[trigger] ranges@[i]).1 == ranges@[i + 1].0,
            forall|i: int|
                0 <= i < ranges@.len() ==> (#[trigger] ranges@[i]).0 < ranges@[i].1
                    && ranges@[i].1 - ranges@[i].0 <= chunk_size,
            forall|i: int|
                0 <= i < ranges@.len() - 1 ==> (#[trigger] ranges@[i]).1 - ranges@[i].0
                    == chunk_size,
            ranges@.len() > 0 && chunk_index < total ==> ranges@.last().1 - ranges@.last().0
                == chunk_size,
        decreases total - chunk_index,
    {
        let end_index = if total - chunk_index > chunk_size {
            chunk_index + chunk_size
        } else {
            total
        };
        ranges.push((chunk_index, end_index));
        chunk_index = end_index;
    }
    ranges
}

proof fn lemma_chunks_ordered(ranges: Seq<(usize, usize)>, total: nat, size: nat, i: int, j: int)
    requires
        is_chunk_partition(ranges, total, size),
        0 <= i < j < ranges.len(),
    ensures
        ranges[i].1 <= ranges[j].0,
    decreases j - i,
{
    if j > i + 1 {
        lemma_chunks_ordered(ranges, total, size, i, j - 1);
        assert(ranges[j - 1].0 < ranges[j - 1].1);
        assert(ranges[j - 1].1 == ranges[j].0);
    } else {
        assert(ranges[i].1 == ranges[i + 1].0);
    }
}

proof fn lemma_chunks_reach(ranges: Seq<(usize, usize)>, total: nat, size: nat, k: int, q: int)
    requires
        is_chunk_partition(ranges, total, size),
        0 <= k < ranges.len(),
        0 <= q < ranges[k].1,
    ensures
        exists|i: int| 0 <= i <= k && (#[trigger] ranges[i]).0 <= q < ranges[i].1,
    decreases k,
{
    if q >= ranges[k].0 {
        assert(ranges[k].0 <= q < ranges[k].1);
    } else {
        assert(ranges[k - 1].1 == ranges[k].0);
        lemma_chunks_reach(ranges, total, size, k - 1, q);
    }
}

/// Every quad `0..total` lies in exactly one chunk of a chunk partition, so
/// each quad is meshed once.
pub proof fn lemma_chunks_cover_each_quad_once(
    ranges: Seq<(usize, usize)>,
    total: nat,
    size: nat,
    q: int,
)
    requires
        is_chunk_partition(ranges, total, size),
        0 <= q < total,
    ensures
        exists|i: int| 0 <= i < ranges.len() && (#[trigger] ranges[i]).0 <= q < ranges[i].1,
        forall|i: int, j: int|
            0 <= i < ranges.len() && 0 <= j < ranges.len() && (#[trigger] ranges[i]).0 <= q
                < ranges[i].1 && (#[trigger] ranges[j]).0 <= q < ranges[j].1 ==> i == j,
{
    lemma_chunks_reach(ranges, total, size, ranges.len() - 1, q);
    assert forall|i: int, j: int|
        0 <= i < ranges.len() && 0 <= j < ranges.len() && (#[trigger] ranges[i]).0 <= q
            < ranges[i].1 && (#[trigger] ranges[j]).0 <= q < ranges[j].1 implies i == j by {
        if i < j {
            lemma_chunks_ordered(ranges, total, size, i, j);
        } else if j < i {
            lemma_chunks_ordered(ranges, total, size, j, i);
        }
    }
}

/// The six indices of the two triangles of a quad whose four vertices start
/// at `base_index`: the first pair of vertices lies on one segment, the
/// second pair on the next.
pub open spec fn quad_indices(base_index: u16) -> Seq<u16> {
    seq![
        base_index,
        (base_index + 1) as u16,
        (base_index + 2) as u16,
        (base_index + 1) as u16,
        (base_index + 3) as u16,
        (base_index + 2) as u16,
    ]
}

/// Appends the triangle indices of the quad whose vertices start at
/// `base_index`.
pub fn append_quad_indices(indices: &mut Vec<u16>, base_index: u16)
    requires
        base_index <= u16::MAX - 3,
    ensures
        final(indices)@ == old(indices)@ + quad_indices(base_index),
{
    indices.push(base_index);
    indices.push(base_index + 1);
    indices.push(base_index + 2);
    indices.push(base_index + 1);
    indices.push(base_index + 3);
    indices.push(base_index + 2);
    assert(indices@ =~= old(indices)@ + quad_indices(base_index));
}

} // verus!
