//! Choosing the closest segment of a polyline path.
//!
//! The distance from a point to each segment is a non-negative `f32` (or NaN);
//! its IEEE-754 bit pattern, read as a `u32`, orders exactly as the distances
//! compare with `<`, NaN never being smaller than anything. The search below
//! works on those keys.
use vstd::prelude::*;

verus! {

/// Key of `f32::MAX`, the distance the search starts from: only a candidate
/// strictly closer than it can be chosen.
pub const MAX_DISTANCE_KEY: u32 = 0x7f7f_ffff;

/// `j` is the first candidate at or after `start` whose key is the smallest of
/// all candidates from `start` on, and that key is below `MAX_DISTANCE_KEY`.
pub open spec fn is_closest(keys: Seq<u32>, start: int, j: int) -> bool {
    &&& start <= j < keys.len()
    &&& keys[j] < MAX_DISTANCE_KEY
    &&& forall|k: int| start <= k < keys.len() ==> keys[j] <= #[trigger] keys[k]
    &&& forall|k: int| start <= k < j ==> keys[j] < #[trigger] keys[k]
}

/// No candidate from `start` on is closer than `MAX_DISTANCE_KEY`.
pub open spec fn none_reachable(keys: Seq<u32>, start: int) -> bool {
    forall|k: int| start <= k < keys.len() ==> #[trigger] keys[k] >= MAX_DISTANCE_KEY
}

/// Index of the closest candidate among `keys[start..]`: the first one whose
/// key is strictly smaller than every key seen before it, beginning from
/// `MAX_DISTANCE_KEY`. `None` when no candidate beats that bound.
pub fn closest_index(keys: &[u32], start: usize) -> (r: Option<usize>)
    ensures
        r is None <==> none_reachable(keys@, start as int),
        r matches Some(j) ==> is_closest(keys@, start as int, j as int),
        r is None <==> (forall|k: int| start <= k < keys@.len() ==> keys@[k] >= MAX_DISTANCE_KEY),
        r matches Some(j) ==> {
            &&& start <= j < keys@.len()
            &&& keys@[j as int] < MAX_DISTANCE_KEY
            &&& forall|k: int| start <= k < keys@.len() ==> keys@[j as int] <= keys@[k]
            &&& forall|k: int| start <= k < j ==> keys@[j as int] < keys@[k]
        },
{
    let mut best: Option<usize> = None;
    let mut min_key: u32 = MAX_DISTANCE_KEY;
    let mut i: usize = start;
    if i > keys.len() {
        i = keys.len();
    }
    while i < keys.len()
        invariant
            start <= i || keys.len() < start,
            i <= keys.len(),
            keys.len() < start ==> i == keys.len(),
            best is None ==> min_key == MAX_DISTANCE_KEY,
            best is None ==> forall|k: int| start <= k < i ==> #[trigger] keys@[k] >= MAX_DISTANCE_KEY,
            best matches Some(j) ==> {
                &&& start <= j < i
                &&& keys@[j as int] == min_key
                &&& min_key < MAX_DISTANCE_KEY
                &&& forall|k: int| start <= k < i ==> min_key <= #[trigger] keys@[k]
                &&& forall|k: int| start <= k < j ==> min_key < #[trigger] keys@[k]
            },
        decreases keys.len() - i,
    {
        let key = keys[i];
        if key < min_key {
            min_key = key;
            best = Some(i);
        }
        i = i + 1;
    }
    best
}

} // verus!
