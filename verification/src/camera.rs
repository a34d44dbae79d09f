//! Camera updates shared by the scene drivers: hard-setting onto a
//! waypoint and rate-integrated panning. A missing camera is always
//! tolerated — the update is skipped.

use vstd::prelude::*;
use crate::arith::{scaled, scaled_spec, MUL_A_BOUND};
use crate::model::{Point, Transform2, DELTA_BOUND, POS_BOUND};

verus! {

/// A camera transform hard-set onto a position; a missing camera is
/// left missing.
pub open spec fn camera_set(c: Option<Transform2>, p: Point) -> Option<Transform2> {
    match c {
        Some(t) => Some(Transform2 { x: p.x, y: p.y, ..t }),
        None => None,
    }
}

/// A camera transform after one tick of panning: the displacement is
/// covered at rate `(dx, dy) / window`, integrated over `delta`.
pub open spec fn camera_panned(
    c: Option<Transform2>,
    dx: int,
    dy: int,
    window: u64,
    delta: u64,
) -> Option<Transform2> {
    match c {
        Some(t) => Some(
            Transform2 {
                x: (t.x + scaled_spec(dx, delta as int, window as int)) as i64,
                y: (t.y + scaled_spec(dy, delta as int, window as int)) as i64,
                ..t
            },
        ),
        None => None,
    }
}

/// Hard-sets the camera onto a position.
pub fn set_camera(slot: &mut Option<Transform2>, p: Point)
    ensures
        *final(slot) == camera_set(*old(slot), p),
{
    if slot.is_some() {
        let mut t = slot.unwrap();
        t.x = p.x;
        t.y = p.y;
        *slot = Some(t);
    }
}

/// Applies one tick of panning to the camera.
pub fn pan_camera(slot: &mut Option<Transform2>, dx: i64, dy: i64, window: u64, delta: u64)
    requires
        -MUL_A_BOUND <= dx <= MUL_A_BOUND,
        -MUL_A_BOUND <= dy <= MUL_A_BOUND,
        delta <= DELTA_BOUND,
        1 <= window <= 10_000,
        match *old(slot) {
            Some(t) => -POS_BOUND <= t.x <= POS_BOUND && -POS_BOUND <= t.y <= POS_BOUND,
            None => true,
        },
    ensures
        *final(slot) == camera_panned(*old(slot), dx as int, dy as int, window, delta),
{
    if slot.is_some() {
        let mut t = slot.unwrap();
        t.x = t.x + scaled(dx, delta, window);
        t.y = t.y + scaled(dy, delta, window);
        *slot = Some(t);
    }
}

} // verus!
