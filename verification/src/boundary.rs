//! The boundary tracker and the boundary enforcer.
//!
//! Each rectangle has a threshold to the left of the screen. The threshold follows the
//! width of the primary window; a rectangle that has moved past it is thrown to the
//! mirrored position on the other side. Positions and thresholds are single-precision
//! numbers, held as bit patterns (see `binary32`).

use crate::binary32::{less_than, lt, neg, negated};
use vstd::prelude::*;

verus! {

/// Of the resize notifications of one tick, the one that counts: the last that
/// concerns the primary window. `primary` says of each notification, in the order of
/// arrival, whether it concerns the primary window. Earlier notifications and those of
/// other windows are passed over; `None` says that no threshold is to change.
pub fn last_primary_resize(primary: &Vec<bool>) -> (place: Option<usize>)
    ensures
        match place {
            Some(i) => {
                &&& i < primary.len()
                &&& primary[i as int]
                &&& forall|j: int| i < j < primary.len() ==> !primary[j]
            },
            None => forall|j: int| 0 <= j < primary.len() ==> !primary[j],
        },
{
    let mut i: usize = primary.len();
    while i > 0
        invariant
            i <= primary.len(),
            forall|j: int| i <= j < primary.len() ==> !primary[j],
        decreases i,
    {
        if primary[i - 1] {
            return Some(i - 1);
        }
        i = i - 1;
    }
    None
}

/// Looks at a rectangle at `x` and says where to throw it: `Some` of `-x` where `x` lies
/// below the threshold `teleport_target`, `None` where the rectangle stays. The new
/// place is the mirror image of the old one, not the nearest place within bounds, so
/// it may lie below the threshold again.
pub fn collision_detection(x: u32, teleport_target: u32) -> (thrown: Option<u32>)
    ensures
        less_than(x, teleport_target) ==> thrown == Some(negated(x)),
        !less_than(x, teleport_target) ==> thrown.is_none(),
{
    if lt(x, teleport_target) {
        Some(neg(x))
    } else {
        None
    }
}

} // verus!
