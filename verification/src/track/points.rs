//! Editing the list of raw points the player drew. The points themselves
//! are never looked at, so the list is generic over the point type; an
//! index out of range leaves the list as it is.

use vstd::prelude::*;

verus! {

/// Removes the point at `index`, if there is one.
pub fn remove_raw_point<P>(points: &mut Vec<P>, index: usize)
    ensures
        final(points)@ == if index < old(points)@.len() {
            old(points)@.remove(index as int)
        } else {
            old(points)@
        },
{
    if index < points.len() {
        points.remove(index);
    }
}

/// Inserts `point` before position `index` (at the end when `index` is the
/// length), if `index` is at most the length.
pub fn insert_raw_point<P>(points: &mut Vec<P>, index: usize, point: P)
    ensures
        final(points)@ == if index <= old(points)@.len() {
            old(points)@.insert(index as int, point)
        } else {
            old(points)@
        },
{
    if index <= points.len() {
        points.insert(index, point);
    }
}

/// Replaces the point at `index` with `new_pos`, if there is one.
pub fn move_raw_point<P>(points: &mut Vec<P>, index: usize, new_pos: P)
    ensures
        final(points)@ == if index < old(points)@.len() {
            old(points)@.update(index as int, new_pos)
        } else {
            old(points)@
        },
{
    if index < points.len() {
        points.set(index, new_pos);
    }
}

/// Inserting a point and removing it again at the same position gives back
/// the list; moving a point to where it already is changes nothing.
pub proof fn lemma_insert_then_remove<P>(points: Seq<P>, index: int, point: P)
    requires
        0 <= index <= points.len(),
    ensures
        points.insert(index, point).remove(index) == points,
        forall|i: int| 0 <= i < points.len() ==> points.update(i, points[i]) == points,
{
    assert(points.insert(index, point).remove(index) =~= points);
    assert forall|i: int| 0 <= i < points.len() implies points.update(i, points[i]) == points by {
        assert(points.update(i, points[i]) =~= points);
    }
}

} // verus!
