//! Which centre-line segment is nearest to the car.
//!
//! A search compares squared distances. They are handed in as *distance
//! keys*: the IEEE-754 bit patterns of the non-negative `f32` squared
//! distances (`f32::to_bits`). For non-negative floats (infinity and NaN
//! included) the order of the bit patterns is the order of the values, and
//! comparing a NaN with `<` is false just as a NaN's key is above every
//! finite key; so every comparison below decides as the float comparison
//! would.

use vstd::prelude::*;

verus! {

/// The key of `f32::MAX`, the "nothing found yet" distance a search starts
/// from: only segments with a smaller key can be found.
pub const UNREACHABLE_KEY: u32 = 0x7f7f_ffff;

/// The key of 22500.0 (150 pixels squared): a segment found in the local
/// window is trusted when it is closer than this.
pub const LOCAL_ACCEPT_KEY: u32 = 0x46af_c800;

/// How many segments on each side of the cached one the local search
/// looks at.
pub const LOCAL_WINDOW_RADIUS: usize = 12;

/// The two lists of segments that a search covers.
#[derive(Clone, Copy, Debug, PartialEq, Eq, Structural)]
pub enum SegmentSource {
    /// The straight segments laid over the starting grid.
    StartGrid,
    /// The segments of the track's centre line.
    Track,
}

/// The outcome of a search: which list, the index in that list, and the
/// distance key of the segment found.
#[derive(Clone, Copy, Debug, PartialEq, Eq, Structural)]
pub struct NearestSegment {
    pub source: SegmentSource,
    pub index: usize,
    pub distance_key: u32,
}

/// `i` is the first position of the smallest key in `keys`, and that key is
/// below `bound`.
pub open spec fn is_first_min_below(keys: Seq<u32>, i: int, bound: u32) -> bool {
    &&& 0 <= i < keys.len()
    &&& keys[i] < bound
    &&& forall|j: int| 0 <= j < i ==> keys[i] < #[trigger] keys[j]
    &&& forall|j: int| i <= j < keys.len() ==> keys[i] <= #[trigger] keys[j]
}

/// `i` is the first position of the smallest key in `keys`, and that key is
/// below [`UNREACHABLE_KEY`].
pub open spec fn is_first_min(keys: Seq<u32>, i: int) -> bool {
    is_first_min_below(keys, i, UNREACHABLE_KEY)
}

/// No key of `keys` is below [`UNREACHABLE_KEY`].
pub open spec fn none_reachable(keys: Seq<u32>) -> bool {
    forall|j: int| 0 <= j < keys.len() ==> #[trigger] keys[j] >= UNREACHABLE_KEY
}

/// The position of a search result in the grid segments followed by the
/// track segments.
pub open spec fn joined_position(n: NearestSegment, grid_len: nat) -> int {
    match n.source {
        SegmentSource::StartGrid => n.index as int,
        SegmentSource::Track => grid_len + n.index,
    }
}

/// `result` is what a full search of the grid segments, then the track
/// segments, finds: the first segment (grid segments first) with the
/// smallest key, provided that key is below [`UNREACHABLE_KEY`]; nothing
/// otherwise.
pub open spec fn is_full_search_result(
    grid_keys: Seq<u32>,
    track_keys: Seq<u32>,
    result: Option<NearestSegment>,
) -> bool {
    let all = grid_keys + track_keys;
    match result {
        None => none_reachable(all),
        Some(n) => {
            &&& (n.source == SegmentSource::StartGrid ==> n.index < grid_keys.len())
            &&& (n.source == SegmentSource::Track ==> n.index < track_keys.len())
            &&& is_first_min(all, joined_position(n, grid_keys.len()))
            &&& n.distance_key == all[joined_position(n, grid_keys.len())]
        },
    }
}

/// First index of the local window around segment `center`.
pub open spec fn window_start(center: nat) -> nat {
    if center >= LOCAL_WINDOW_RADIUS {
        (center - LOCAL_WINDOW_RADIUS) as nat
    } else {
        0
    }
}

/// One past the last index of the local window around segment `center`
/// on a centre line of `len` segments.
pub open spec fn window_end(center: nat, len: nat) -> nat {
    if center + LOCAL_WINDOW_RADIUS + 1 < len {
        (center + LOCAL_WINDOW_RADIUS + 1) as nat
    } else {
        len
    }
}

/// Scans `keys[lo..hi]` for keys below `bound`: the first position of the
/// smallest such key, and the new bound (that key, or `bound` when there is
/// none).
fn scan_below(keys: &Vec<u32>, lo: usize, hi: usize, bound: u32) -> (res: (Option<usize>, u32))
    requires
        lo <= hi <= keys.len(),
    ensures
        res.0 is None ==> res.1 == bound && forall|j: int|
            lo <= j < hi ==> #[trigger] keys@[j] >= bound,
        res.0 is Some ==> {
            let p = res.0->0 as int;
            &&& lo <= p < hi
            &&& keys@[p] == res.1
            &&& res.1 < bound
            &&& forall|j: int| lo <= j < p ==> #[trigger] keys@[j] > res.1
            &&& forall|j: int| lo <= j < hi ==> #[trigger] keys@[j] >= res.1
        },
{
    let mut best: Option<usize> = None;
    let mut min_key: u32 = bound;
    let mut i: usize = lo;
    while i < hi
        invariant
            lo <= i <= hi <= keys.len(),
            best is None ==> min_key == bound && forall|j: int|
                lo <= j < i ==> #[trigger] keys@[j] >= bound,
            best is Some ==> {
                let p = best->0 as int;
                &&& lo <= p < i
                &&& keys@[p] == min_key
                &&& min_key < bound
                &&& forall|j: int| lo <= j < p ==> #[trigger] keys@[j] > min_key
                &&& forall|j: int| lo <= j < i ==> #[trigger] keys@[j] >= min_key
            },
        decreases hi - i,
    {
        let key = keys[i];
        if key < min_key {
            min_key = key;
            best = Some(i);
        }
        i = i + 1;
    }
    (best, min_key)
}

/// The first of the closest items whose key is below `radius_key`, if any:
/// how the editor picks the node under the mouse (keys of the distances
/// from the mouse, `radius_key` the key of the hit radius).
pub fn nearest_within(keys: &Vec<u32>, radius_key: u32) -> (res: Option<usize>)
    ensures
        res is None ==> forall|j: int| 0 <= j < keys@.len() ==> #[trigger] keys@[j] >= radius_key,
        res is Some ==> is_first_min_below(keys@, res->0 as int, radius_key),
{
    let (best, _min_key) = scan_below(keys, 0, keys.len(), radius_key);
    best
}

/// The segment nearest to the car over both lists: the grid segments are
/// searched first, then the centre line; a later segment replaces the one
/// found so far only when strictly closer.
pub fn find_nearest_segment(grid_keys: &Vec<u32>, track_keys: &Vec<u32>) -> (res: Option<
    NearestSegment,
>)
    ensures
        is_full_search_result(grid_keys@, track_keys@, res),
{
    let (grid_best, grid_min) = scan_below(grid_keys, 0, grid_keys.len(), UNREACHABLE_KEY);
    let (track_best, track_min) = scan_below(track_keys, 0, track_keys.len(), grid_min);
    let ghost all = grid_keys@ + track_keys@;
    let ghost gl = grid_keys@.len();
    assert(forall|j: int| 0 <= j < gl ==> all[j] == grid_keys@[j]);
    assert(forall|j: int| gl <= j < all.len() ==> all[j] == track_keys@[j - gl]);
    match track_best {
        Some(p) => {
            let res = NearestSegment { source: SegmentSource::Track, index: p, distance_key: track_min };
            assert forall|j: int| 0 <= j < gl + p implies track_min < #[trigger] all[j] by {
                if j >= gl {
                    assert(track_keys@[j - gl] > track_min);
                } else {
                    assert(grid_keys@[j] >= grid_min);
                }
            }
            assert forall|j: int| gl + p <= j < all.len() implies track_min <= #[trigger] all[j] by {
                assert(track_keys@[j - gl] >= track_min);
            }
            Some(res)
        },
        None => match grid_best {
            Some(p) => {
                let res = NearestSegment {
                    source: SegmentSource::StartGrid,
                    index: p,
                    distance_key: grid_min,
                };
                assert forall|j: int| p <= j < all.len() implies grid_min <= #[trigger] all[j] by {
                    if j >= gl {
                        assert(track_keys@[j - gl] >= grid_min);
                    } else {
                        assert(grid_keys@[j] >= grid_min);
                    }
                }
                assert forall|j: int| 0 <= j < p implies grid_min < #[trigger] all[j] by {
                    assert(grid_keys@[j] > grid_min);
                }
                Some(res)
            },
            None => {
                assert forall|j: int| 0 <= j < all.len() implies #[trigger] all[j]
                    >= UNREACHABLE_KEY by {
                    if j >= gl {
                        assert(track_keys@[j - gl] >= grid_min);
                    } else {
                        assert(grid_keys@[j] >= UNREACHABLE_KEY);
                    }
                }
                None
            },
        },
    }
}

/// The segment nearest to the car, looked for first near the segment found
/// last time (`cached_index`). When the centre line is empty, when there is
/// no usable cached index, or when the window of segments around it holds
/// no segment closer than [`LOCAL_ACCEPT_KEY`], this is the full search of
/// [`find_nearest_segment`]; otherwise it is the first closest segment of
/// the window.
pub fn find_nearest_segment_localized(
    grid_keys: &Vec<u32>,
    track_keys: &Vec<u32>,
    cached_index: Option<usize>,
) -> (res: Option<NearestSegment>)
    ensures
        ({
            let len = track_keys@.len();
            let local = cached_index is Some && cached_index->0 < len;
            let c = cached_index->0 as nat;
            let s = window_start(c);
            let e = window_end(c, len);
            if local && exists|j: int| s <= j < e && #[trigger] track_keys@[j] < LOCAL_ACCEPT_KEY {
                &&& res is Some
                &&& res->0.source == SegmentSource::Track
                &&& s <= res->0.index < e
                &&& is_first_min(track_keys@.subrange(s as int, e as int), res->0.index - s)
                &&& res->0.distance_key == track_keys@[res->0.index as int]
            } else {
                is_full_search_result(grid_keys@, track_keys@, res)
            }
        }),
{
    let len = track_keys.len();
    if len == 0 {
        return find_nearest_segment(grid_keys, track_keys);
    }
    if let Some(center) = cached_index {
        if center < len {
            let start = if center >= LOCAL_WINDOW_RADIUS {
                center - LOCAL_WINDOW_RADIUS
            } else {
                0
            };
            let end = if len - center > LOCAL_WINDOW_RADIUS + 1 {
                center + LOCAL_WINDOW_RADIUS + 1
            } else {
                len
            };
            let (local_best, local_min) = scan_below(track_keys, start, end, UNREACHABLE_KEY);
            let ghost w = track_keys@.subrange(start as int, end as int);
            if local_min < LOCAL_ACCEPT_KEY {
                let p = local_best.unwrap();
                assert forall|j: int| 0 <= j < p - start implies w[p - start] < #[trigger] w[j] by {
                    assert(track_keys@[j + start] > local_min);
                }
                assert forall|j: int| p - start <= j < w.len() implies w[p - start]
                    <= #[trigger] w[j] by {
                    assert(track_keys@[j + start] >= local_min);
                }
                return Some(
                    NearestSegment { source: SegmentSource::Track, index: p, distance_key: local_min },
                );
            }
            assert forall|j: int| start <= j < end implies !(#[trigger] track_keys@[j]
                < LOCAL_ACCEPT_KEY) by {
                assert(track_keys@[j] >= local_min);
            }
        }
    }
    find_nearest_segment(grid_keys, track_keys)
}

} // verus!
