//! Altitude reporter: the read-only side of the per-step query pattern.
//! After the solver has advanced the world, the caller hands over the
//! tracked bodies' current positions and gets each one's vertical coordinate
//! back, for whatever sink it logs to. Nothing is mutated.

use vstd::prelude::*;

use crate::rig::Vec3i;

verus! {

/// The reported scalar for one body: its world-space vertical coordinate,
/// in milli-units.
pub open spec fn spec_altitude(position: Vec3i) -> i64 {
    position.y
}

/// Reads one body's altitude from its current position.
pub fn altitude(position: &Vec3i) -> (a: i64)
    ensures
        a == spec_altitude(*position),
{
    position.y
}

/// Reports the altitude of every tracked body, in the order the positions
/// were handed in.
pub fn altitudes(positions: &Vec<Vec3i>) -> (r: Vec<i64>)
    ensures
        r@.len() == positions@.len(),
        forall|i: int|
            0 <= i < positions@.len() ==> r@[i] == spec_altitude(#[trigger] positions@[i]),
{
    let mut r: Vec<i64> = Vec::new();
    let mut i: usize = 0;
    while i < positions.len()
        invariant
            i <= positions@.len(),
            r@.len() == i,
            forall|k: int| 0 <= k < i ==> r@[k] == spec_altitude(#[trigger] positions@[k]),
        decreases positions@.len() - i,
    {
        r.push(positions[i].y);
        i += 1;
    }
    r
}

} // verus!
