//! Player movement with tile collision, and the camera follow that
//! comes with it. Movement is suppressed while the session is frozen
//! by an active cut-scene.

use vstd::prelude::*;
use crate::arith::{scaled, scaled_spec};
use crate::model::{Collide, Point, Transform2, World, WorldView, world_ok, DELTA_BOUND};

verus! {

/// Edge length of a map tile, in world units.
pub const TILE_SIZE: i64 = 64;
/// Player speed, in world units per second.
pub const PLAYER_SPEED: i64 = 150;
/// Magnitude bound on a normalized movement direction, in thousandths.
pub const DIR_BOUND: i64 = 1000;

/// Displacement along one axis for a tick: direction (in thousandths)
/// times speed, integrated over `delta` milliseconds.
pub open spec fn movement_component(dir: int, delta: u64) -> int {
    scaled_spec(dir * PLAYER_SPEED, delta as int, 1_000_000)
}

/// The tile index a world coordinate falls in, after centering by half
/// a tile; coordinates left of the map clamp to tile 0.
pub open spec fn tile_of(v: int) -> int {
    if v + TILE_SIZE / 2 < 0 {
        0
    } else {
        (v + TILE_SIZE / 2) / (TILE_SIZE as int)
    }
}

/// Whether some collider occupies the tile `(tx, ty)`.
pub open spec fn blocked(colliders: Seq<Collide>, tx: int, ty: int) -> bool {
    exists|j: int| 0 <= j < colliders.len() && #[trigger] colliders[j].x == tx && colliders[j].y == ty
}

/// The world after one movement tick: no change while frozen, without
/// input, without a player, or when the destination tile is blocked;
/// otherwise the player moves by the integrated displacement and the
/// camera, if present, snaps onto the player.
pub open spec fn move_spec(
    w: WorldView,
    action: Option<Point>,
    delta: u64,
    frozen: bool,
    colliders: Seq<Collide>,
) -> WorldView {
    if frozen {
        w
    } else {
        match (action, w.player) {
            (Some(dir), Some(p)) => {
                let mx = movement_component(dir.x as int, delta);
                let my = movement_component(dir.y as int, delta);
                if blocked(colliders, tile_of(p.x + mx), tile_of(p.y + my)) {
                    w
                } else {
                    let p1 = Transform2 { x: (p.x + mx) as i64, y: (p.y + my) as i64, ..p };
                    WorldView {
                        player: Some(p1),
                        camera: match w.camera {
                            Some(c) => Some(Transform2 { x: p1.x, y: p1.y, ..c }),
                            None => None,
                        },
                        ..w
                    }
                }
            },
            _ => w,
        }
    }
}

/// Moves the player by the tick's integrated displacement unless the
/// session is frozen or the destination tile carries a collider, and
/// keeps the camera on the player. A missing player or camera is
/// tolerated; a blocked move leaves both untouched.
pub fn move_player(
    world: &mut World,
    action: Option<Point>,
    delta: u64,
    frozen: bool,
    colliders: &Vec<Collide>,
)
    requires
        delta <= DELTA_BOUND,
        world_ok(old(world)@),
        match action {
            Some(dir) => -DIR_BOUND <= dir.x <= DIR_BOUND && -DIR_BOUND <= dir.y <= DIR_BOUND,
            None => true,
        },
    ensures
        final(world)@ == move_spec(old(world)@, action, delta, frozen, colliders@),
{
    if frozen {
        return;
    }
    let dir = match action {
        Some(d) => d,
        None => {
            return;
        },
    };
    let p = match world.player {
        Some(p) => p,
        None => {
            return;
        },
    };
    let mx = scaled(dir.x * PLAYER_SPEED, delta, 1_000_000);
    let my = scaled(dir.y * PLAYER_SPEED, delta, 1_000_000);
    let tx = tile_index(p.x + mx);
    let ty = tile_index(p.y + my);
    if is_blocked(colliders, tx, ty) {
        return;
    }
    let mut p1 = p;
    p1.x = p.x + mx;
    p1.y = p.y + my;
    world.player = Some(p1);
    if world.camera.is_some() {
        let mut c = world.camera.unwrap();
        c.x = p1.x;
        c.y = p1.y;
        world.camera = Some(c);
    }
    proof {
        assert(final(world)@ =~= move_spec(old(world)@, action, delta, frozen, colliders@));
    }
}

/// Scans the collider snapshot for one occupying the tile `(tx, ty)`.
fn is_blocked(colliders: &Vec<Collide>, tx: u64, ty: u64) -> (b: bool)
    ensures
        b == blocked(colliders@, tx as int, ty as int),
{
    let mut j: usize = 0;
    while j < colliders.len()
        invariant
            j <= colliders@.len(),
            forall|k: int|
                0 <= k < j ==> !(#[trigger] colliders@[k].x == tx && colliders@[k].y == ty),
        decreases colliders@.len() - j,
    {
        if colliders[j].x as u64 == tx && colliders[j].y as u64 == ty {
            proof {
                assert(colliders@[j as int].x == tx && colliders@[j as int].y == ty);
            }
            return true;
        }
        j += 1;
    }
    false
}

/// The tile index of a world coordinate, clamped at the map's edge.
fn tile_index(v: i64) -> (t: u64)
    requires
        -0x7000_0000_0000_0000 <= v <= 0x7000_0000_0000_0000,
    ensures
        t == tile_of(v as int),
{
    if v + TILE_SIZE / 2 < 0 {
        0
    } else {
        (v + TILE_SIZE / 2) as u64 / (TILE_SIZE as u64)
    }
}

/// Movement is a no-op for every input while the session is frozen:
/// the freeze flag fully suppresses the system.
pub proof fn lemma_move_frozen_noop(
    w: WorldView,
    action: Option<Point>,
    delta: u64,
    colliders: Seq<Collide>,
)
    ensures
        move_spec(w, action, delta, true, colliders) == w,
{
}

/// A blocked destination leaves the whole world untouched.
pub proof fn lemma_move_blocked_noop(
    w: WorldView,
    dir: Point,
    delta: u64,
    colliders: Seq<Collide>,
)
    requires
        w.player is Some,
        blocked(
            colliders,
            tile_of(w.player.unwrap().x + movement_component(dir.x as int, delta)),
            tile_of(w.player.unwrap().y + movement_component(dir.y as int, delta)),
        ),
    ensures
        move_spec(w, Some(dir), delta, false, colliders) == w,
{
}

} // verus!
