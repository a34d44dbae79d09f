//! The intro driver: pans the camera from the player to the map goal,
//! animates the decorative acorn along its fall path, despawns it once
//! the camera has dwelt on the goal, pans back and releases the
//! session.

use vstd::prelude::*;
use crate::arith::{scaled, scaled_spec};
use crate::camera::{camera_panned, camera_set, pan_camera, set_camera};
use crate::model::{
    CutScene, GameMap, SessionState, Signals, Transform2, World, WorldView, empty_signals, map_ok,
    signals_none, session_inv, state_ok, world_ok, DELTA_BOUND, SCALE_BOUND, TIME_BOUND,
};

verus! {

/// Window boundaries, in milliseconds since scene start.
pub const CAMERA_ON_PLAYER: u64 = 500;
pub const CAMERA_TO_GOAL: u64 = 1500;
pub const CAMERA_ON_GOAL: u64 = 2500;
pub const CAMERA_BACK_TO_PLAYER: u64 = 3500;

/// Length of each pan window (to the goal, and back), in milliseconds.
pub const PAN_WINDOW: u64 = 1000;

/// The acorn animation's progress through its window, in thousandths:
/// 0 at the window's start, 2000 at its end, halved when the acorn
/// does not fall.
pub open spec fn acorn_partial(acorn_falls: bool, remaining: u64) -> int {
    let raw = 2000 - remaining * 2;
    let clamped: int = if raw < 0 {
        0
    } else if raw > 2000 {
        2000
    } else {
        raw
    };
    if acorn_falls {
        clamped
    } else {
        clamped / 2
    }
}

/// The acorn transform after one animation tick: along the straight
/// path from its spawn position to the map goal during the first half
/// of its progress, then spinning and shrinking in place.
pub open spec fn acorn_animated(
    t: Transform2,
    map: GameMap,
    acorn_falls: bool,
    remaining: u64,
) -> Transform2 {
    let partial = acorn_partial(acorn_falls, remaining);
    if partial < 1000 {
        Transform2 {
            x: (map.acorn_spawn.x + scaled_spec(map.goal.x - map.acorn_spawn.x, partial, 1000)) as i64,
            y: (map.acorn_spawn.y + scaled_spec(map.goal.y - map.acorn_spawn.y, partial, 1000)) as i64,
            ..t
        }
    } else {
        Transform2 {
            rotation: partial as i64,
            scale_x: scaled_spec(t.scale_x as int, 95, 100) as i64,
            scale_y: scaled_spec(t.scale_y as int, 95, 100) as i64,
            ..t
        }
    }
}

/// One tick of the intro driver. Before [`CAMERA_ON_PLAYER`] nothing
/// happens; past [`CAMERA_BACK_TO_PLAYER`] the camera snaps home and
/// the session is released; strictly inside the goal window the camera
/// holds on the goal while the acorn animates; otherwise the camera
/// pans (toward the goal before [`CAMERA_TO_GOAL`], back afterwards),
/// and on the first tick strictly past [`CAMERA_ON_GOAL`] the phase
/// counter advances and a falling acorn is despawned.
pub open spec fn intro_step(s: SessionState, w: WorldView, now: u64, delta: u64) -> (
    SessionState,
    WorldView,
    Signals,
) {
    match s.scene {
        Some(CutScene::Intro { camera_from, camera_to, acorn_falls }) => {
            let start = s.scene_start;
            if now < start + CAMERA_ON_PLAYER {
                (s, w, signals_none())
            } else if now > start + CAMERA_BACK_TO_PLAYER {
                (
                    SessionState { scene: None, frozen: false, ..s },
                    WorldView { camera: camera_set(w.camera, camera_from), ..w },
                    signals_none(),
                )
            } else if now > start + CAMERA_TO_GOAL && now < start + CAMERA_ON_GOAL {
                let remaining = (start + CAMERA_ON_GOAL - now) as u64;
                let w1 = WorldView {
                    acorn: match w.acorn {
                        Some(t) => Some(acorn_animated(t, w.map, acorn_falls, remaining)),
                        None => None,
                    },
                    camera: camera_set(w.camera, camera_to),
                    ..w
                };
                (s, w1, signals_none())
            } else {
                let fires = s.scene_step == 0 && now > start + CAMERA_ON_GOAL;
                let s1 = if fires {
                    SessionState { scene_step: (s.scene_step + 1) as u32, ..s }
                } else {
                    s
                };
                let w1 = if fires && acorn_falls {
                    WorldView { acorn: None, ..w }
                } else {
                    w
                };
                let forward = now < start + CAMERA_TO_GOAL;
                let dx: int = if forward {
                    camera_to.x - camera_from.x
                } else {
                    camera_from.x - camera_to.x
                };
                let dy: int = if forward {
                    camera_to.y - camera_from.y
                } else {
                    camera_from.y - camera_to.y
                };
                let w2 = WorldView {
                    camera: camera_panned(w1.camera, dx, dy, PAN_WINDOW, delta),
                    ..w1
                };
                (s1, w2, signals_none())
            }
        },
        _ => (s, w, signals_none()),
    }
}

/// Applies one animation tick to the acorn, tolerating a missing
/// acorn.
fn animate_acorn(slot: &mut Option<Transform2>, map: &GameMap, acorn_falls: bool, remaining: u64)
    requires
        map_ok(*map),
        remaining <= 1_000_000,
        match *old(slot) {
            Some(t) => -SCALE_BOUND <= t.scale_x <= SCALE_BOUND && -SCALE_BOUND <= t.scale_y
                <= SCALE_BOUND,
            None => true,
        },
    ensures
        *final(slot) == match *old(slot) {
            Some(t) => Some(acorn_animated(t, *map, acorn_falls, remaining)),
            None => None,
        },
{
    if slot.is_some() {
        let mut t = slot.unwrap();
        let raw: u64 = remaining * 2;
        let partial0: u64 = if raw >= 2000 {
            0
        } else {
            2000 - raw
        };
        let partial: u64 = if acorn_falls {
            partial0
        } else {
            partial0 / 2
        };
        if partial < 1000 {
            t.x = map.acorn_spawn.x + scaled(map.goal.x - map.acorn_spawn.x, partial, 1000);
            t.y = map.acorn_spawn.y + scaled(map.goal.y - map.acorn_spawn.y, partial, 1000);
        } else {
            t.rotation = partial as i64;
            t.scale_x = scaled(t.scale_x, 95, 100);
            t.scale_y = scaled(t.scale_y, 95, 100);
        }
        *slot = Some(t);
    }
}

/// Per-tick driver for the [`CutScene::Intro`] variant; a non-matching
/// or empty active scene is left untouched.
pub fn run_intro(
    state: &mut SessionState,
    world: &mut World,
    now: u64,
    delta: u64,
) -> (sig: Signals)
    requires
        now <= TIME_BOUND,
        delta <= DELTA_BOUND,
        old(state).scene matches Some(CutScene::Intro { .. }) ==> state_ok(*old(state))
            && world_ok(old(world)@),
    ensures
        ({
            let (s1, w1, g) = intro_step(*old(state), old(world)@, now, delta);
            *final(state) == s1 && final(world)@ == w1 && sig == g
        }),
{
    let sig = empty_signals();
    if let Some(CutScene::Intro { camera_from, camera_to, acorn_falls }) = state.scene {
        if now < state.scene_start + CAMERA_ON_PLAYER {
            return sig;
        }
        if now > state.scene_start + CAMERA_BACK_TO_PLAYER {
            set_camera(&mut world.camera, camera_from);
            state.scene = None;
            state.frozen = false;
            proof {
                let (s1, w1, g) = intro_step(*old(state), old(world)@, now, delta);
                assert(final(world)@ =~= w1);
            }
            return sig;
        }
        if now > state.scene_start + CAMERA_TO_GOAL && now < state.scene_start + CAMERA_ON_GOAL {
            let remaining: u64 = state.scene_start + CAMERA_ON_GOAL - now;
            animate_acorn(&mut world.acorn, &world.map, acorn_falls, remaining);
            set_camera(&mut world.camera, camera_to);
            proof {
                let (s1, w1, g) = intro_step(*old(state), old(world)@, now, delta);
                assert(final(world)@ =~= w1);
            }
            return sig;
        }
        if state.scene_step == 0 && now > state.scene_start + CAMERA_ON_GOAL {
            state.scene_step = state.scene_step + 1;
            if acorn_falls {
                world.acorn = None;
            }
        }
        let forward = now < state.scene_start + CAMERA_TO_GOAL;
        let dx: i64 = if forward {
            camera_to.x - camera_from.x
        } else {
            camera_from.x - camera_to.x
        };
        let dy: i64 = if forward {
            camera_to.y - camera_from.y
        } else {
            camera_from.y - camera_to.y
        };
        pan_camera(&mut world.camera, dx, dy, PAN_WINDOW, delta);
        proof {
            let (s1, w1, g) = intro_step(*old(state), old(world)@, now, delta);
            assert(final(world)@ =~= w1);
        }
    }
    sig
}

/// The driver preserves the session invariant: it either keeps the
/// scene (and so the freeze) or clears both together past the final
/// window.
pub proof fn lemma_intro_preserves_inv(s: SessionState, w: WorldView, now: u64, delta: u64)
    requires
        session_inv(s),
    ensures
        session_inv(intro_step(s, w, now, delta).0),
{
}

/// The phase counter is non-decreasing and advances by exactly one at
/// the single documented one-time transition: the first tick strictly
/// past the goal window while the scene is still running.
pub proof fn lemma_intro_step_monotone(s: SessionState, w: WorldView, now: u64, delta: u64)
    ensures
        ({
            let s1 = intro_step(s, w, now, delta).0;
            &&& s.scene_step <= s1.scene_step
            &&& s1.scene_step == s.scene_step || s1.scene_step == s.scene_step + 1
            &&& (s1.scene_step == s.scene_step + 1 <==> (s.scene
                matches Some(CutScene::Intro { .. }) && s.scene_step == 0 && s.scene_start
                + CAMERA_ON_GOAL < now <= s.scene_start + CAMERA_BACK_TO_PLAYER))
        }),
{
}

/// A falling acorn is despawned exactly at the one-time transition:
/// strictly after the goal window's end and no later than the final
/// window's end, and only on a phase-0 tick.
pub proof fn lemma_intro_despawn_window(s: SessionState, w: WorldView, now: u64, delta: u64)
    ensures
        ({
            let w1 = intro_step(s, w, now, delta).1;
            (w.acorn is Some && w1.acorn is None) <==> (s.scene matches Some(
                CutScene::Intro { camera_from, camera_to, acorn_falls },
            ) && acorn_falls && s.scene_step == 0 && s.scene_start + CAMERA_ON_GOAL < now
                <= s.scene_start + CAMERA_BACK_TO_PLAYER && w.acorn is Some)
        }),
{
}

/// The despawn happens at most once: the driver never brings a missing
/// acorn back, so a second tick cannot despawn again.
pub proof fn lemma_intro_despawn_once(
    s: SessionState,
    w: WorldView,
    now: u64,
    delta: u64,
    now2: u64,
    delta2: u64,
)
    ensures
        ({
            let (s1, w1, g1) = intro_step(s, w, now, delta);
            let (s2, w2, g2) = intro_step(s1, w1, now2, delta2);
            w1.acorn is None ==> w2.acorn is None
        }),
{
}

/// The intro emits no audio signals.
pub proof fn lemma_intro_silent(s: SessionState, w: WorldView, now: u64, delta: u64)
    ensures
        intro_step(s, w, now, delta).2 == signals_none(),
{
}

} // verus!
