//! The button-activation driver: presses the button, pans the camera
//! from the player to the wall, opens the wall (swapping its material
//! and removing its collision marker), pans back and releases the
//! session.

use vstd::prelude::*;
use vstd::pervasive::VecAdditionalExecFns;
use crate::camera::{camera_panned, camera_set, pan_camera, set_camera};
use crate::model::{
    CutScene, Element, Material, Point, SessionState, Signals, World, WorldView, empty_signals,
    signals_none, session_inv, state_ok, world_ok, DELTA_BOUND, TIME_BOUND,
};

verus! {

/// Window boundaries, in milliseconds since scene start.
pub const CAMERA_ON_PLAYER: u64 = 300;
pub const CAMERA_TO_WALL: u64 = 1000;
pub const CAMERA_ON_WALL: u64 = 1300;
pub const CAMERA_BACK_TO_PLAYER: u64 = 2000;

/// Length of each pan window (to the wall, and back), in milliseconds.
pub const PAN_WINDOW: u64 = 700;

/// The element whose entity reference matches the button gets its
/// pressed material.
pub open spec fn button_pressed(elems: Seq<Element>, button: u64) -> Seq<Element> {
    elems.map(
        |i: int, e: Element|
            if e.entity == button {
                Element { material: Material::ButtonDown, ..e }
            } else {
                e
            },
    )
}

/// Every element standing at the wall position gets the wall-down
/// material and loses its collision marker.
pub open spec fn wall_opened(elems: Seq<Element>, wall: Point) -> Seq<Element> {
    elems.map(
        |i: int, e: Element|
            if e.x == wall.x && e.y == wall.y {
                Element { material: Material::WallDown, collide: false, ..e }
            } else {
                e
            },
    )
}

/// One tick of the button-activation driver. On its first matching
/// tick (phase 0) the button is pressed, the background track pauses
/// and the click plays. Before [`CAMERA_ON_PLAYER`] nothing more
/// happens; past [`CAMERA_BACK_TO_PLAYER`] the background resumes, the
/// camera snaps onto the player and the session is released; strictly
/// inside the wall window the camera holds on the wall and, once
/// (phase 1), the wall-moving effect plays; otherwise, once the wall
/// window has been dwelt in (phase 2), the wall opens, and the camera
/// pans (toward the wall before [`CAMERA_TO_WALL`], back afterwards).
pub open spec fn activate_step(s: SessionState, w: WorldView, now: u64, delta: u64) -> (
    SessionState,
    WorldView,
    Signals,
) {
    match s.scene {
        Some(CutScene::ActivateButton { button, player, wall }) => {
            let start = s.scene_start;
            let fires0 = s.scene_step == 0;
            let s1 = if fires0 {
                SessionState { scene_step: (s.scene_step + 1) as u32, ..s }
            } else {
                s
            };
            let w1 = if fires0 {
                WorldView { elements: button_pressed(w.elements, button), ..w }
            } else {
                w
            };
            let sig0 = Signals { pause_background: fires0, play_click: fires0, ..signals_none() };
            if now < start + CAMERA_ON_PLAYER {
                (s1, w1, sig0)
            } else if now > start + CAMERA_BACK_TO_PLAYER {
                (
                    SessionState { scene: None, frozen: false, ..s1 },
                    WorldView { camera: camera_set(w1.camera, player), ..w1 },
                    Signals { resume_background: true, ..sig0 },
                )
            } else if now > start + CAMERA_TO_WALL && now < start + CAMERA_ON_WALL {
                let fires1 = s1.scene_step == 1;
                let s2 = if fires1 {
                    SessionState { scene_step: (s1.scene_step + 1) as u32, ..s1 }
                } else {
                    s1
                };
                (
                    s2,
                    WorldView { camera: camera_set(w1.camera, wall), ..w1 },
                    Signals { play_wall_moving: fires1, ..sig0 },
                )
            } else {
                let fires2 = s1.scene_step == 2;
                let s2 = if fires2 {
                    SessionState { scene_step: (s1.scene_step + 1) as u32, ..s1 }
                } else {
                    s1
                };
                let w2 = if fires2 {
                    WorldView { elements: wall_opened(w1.elements, wall), ..w1 }
                } else {
                    w1
                };
                let forward = now < start + CAMERA_TO_WALL;
                let dx: int = if forward {
                    wall.x - player.x
                } else {
                    player.x - wall.x
                };
                let dy: int = if forward {
                    wall.y - player.y
                } else {
                    player.y - wall.y
                };
                let w3 = WorldView { camera: camera_panned(w2.camera, dx, dy, PAN_WINDOW, delta), ..w2 };
                (s2, w3, sig0)
            }
        },
        _ => (s, w, signals_none()),
    }
}

/// Swaps the material of the button's element to its pressed variant.
fn press_button(elements: &mut Vec<Element>, button: u64)
    ensures
        final(elements)@ == button_pressed(old(elements)@, button),
{
    let mut i: usize = 0;
    while i < elements.len()
        invariant
            i <= elements@.len(),
            elements@.len() == old(elements)@.len(),
            forall|j: int| 0 <= j < i ==> elements@[j] == button_pressed(old(elements)@, button)[j],
            forall|j: int| i <= j < elements@.len() ==> elements@[j] == old(elements)@[j],
        decreases elements@.len() - i,
    {
        if elements[i].entity == button {
            let mut e = elements[i];
            e.material = Material::ButtonDown;
            elements.set(i, e);
        }
        i += 1;
    }
    proof {
        assert(elements@ =~= button_pressed(old(elements)@, button));
    }
}

/// Swaps every element at the wall position to the wall-down material
/// and removes its collision marker, permanently opening the path.
fn open_wall(elements: &mut Vec<Element>, wall: Point)
    ensures
        final(elements)@ == wall_opened(old(elements)@, wall),
{
    let mut i: usize = 0;
    while i < elements.len()
        invariant
            i <= elements@.len(),
            elements@.len() == old(elements)@.len(),
            forall|j: int| 0 <= j < i ==> elements@[j] == wall_opened(old(elements)@, wall)[j],
            forall|j: int| i <= j < elements@.len() ==> elements@[j] == old(elements)@[j],
        decreases elements@.len() - i,
    {
        if elements[i].x == wall.x && elements[i].y == wall.y {
            let mut e = elements[i];
            e.material = Material::WallDown;
            e.collide = false;
            elements.set(i, e);
        }
        i += 1;
    }
    proof {
        assert(elements@ =~= wall_opened(old(elements)@, wall));
    }
}

/// Per-tick driver for the [`CutScene::ActivateButton`] variant; a
/// non-matching or empty active scene is left untouched.
pub fn run_activate_button_scene(
    state: &mut SessionState,
    world: &mut World,
    now: u64,
    delta: u64,
) -> (sig: Signals)
    requires
        now <= TIME_BOUND,
        delta <= DELTA_BOUND,
        old(state).scene matches Some(CutScene::ActivateButton { .. }) ==> state_ok(*old(state))
            && world_ok(old(world)@),
    ensures
        ({
            let (s1, w1, g) = activate_step(*old(state), old(world)@, now, delta);
            *final(state) == s1 && final(world)@ == w1 && sig == g
        }),
{
    let mut sig = empty_signals();
    if let Some(CutScene::ActivateButton { button, player, wall }) = state.scene {
        if state.scene_step == 0 {
            state.scene_step = state.scene_step + 1;
            press_button(&mut world.elements, button);
            sig.pause_background = true;
            sig.play_click = true;
        }
        if now < state.scene_start + CAMERA_ON_PLAYER {
            proof {
                let (s1, w1, g) = activate_step(*old(state), old(world)@, now, delta);
                assert(final(world)@ =~= w1);
            }
            return sig;
        }
        if now > state.scene_start + CAMERA_BACK_TO_PLAYER {
            sig.resume_background = true;
            set_camera(&mut world.camera, player);
            state.scene = None;
            state.frozen = false;
            proof {
                let (s1, w1, g) = activate_step(*old(state), old(world)@, now, delta);
                assert(final(world)@ =~= w1);
            }
            return sig;
        }
        if now > state.scene_start + CAMERA_TO_WALL && now < state.scene_start + CAMERA_ON_WALL {
            if state.scene_step == 1 {
                state.scene_step = state.scene_step + 1;
                sig.play_wall_moving = true;
            }
            set_camera(&mut world.camera, wall);
            proof {
                let (s1, w1, g) = activate_step(*old(state), old(world)@, now, delta);
                assert(final(world)@ =~= w1);
            }
            return sig;
        }
        if state.scene_step == 2 {
            state.scene_step = state.scene_step + 1;
            open_wall(&mut world.elements, wall);
        }
        let forward = now < state.scene_start + CAMERA_TO_WALL;
        let dx: i64 = if forward {
            wall.x - player.x
        } else {
            player.x - wall.x
        };
        let dy: i64 = if forward {
            wall.y - player.y
        } else {
            player.y - wall.y
        };
        pan_camera(&mut world.camera, dx, dy, PAN_WINDOW, delta);
        proof {
            let (s1, w1, g) = activate_step(*old(state), old(world)@, now, delta);
            assert(final(world)@ =~= w1);
        }
    }
    sig
}

/// The driver preserves the session invariant: it either keeps the
/// scene (and so the freeze) or clears both together past the final
/// window.
pub proof fn lemma_activate_preserves_inv(s: SessionState, w: WorldView, now: u64, delta: u64)
    requires
        session_inv(s),
    ensures
        session_inv(activate_step(s, w, now, delta).0),
{
}

/// The phase counter is non-decreasing, and each documented one-time
/// transition advances it by exactly one (a single tick can cross two
/// transitions only when it is both the first matching tick and
/// already inside the wall window).
pub proof fn lemma_activate_step_monotone(s: SessionState, w: WorldView, now: u64, delta: u64)
    ensures
        ({
            let s1 = activate_step(s, w, now, delta).0;
            &&& s.scene_step <= s1.scene_step
            &&& s1.scene_step <= s.scene_step + 2
        }),
{
}

/// Each documented one-time transition advances the phase counter by
/// exactly one, and exactly when its guard holds: the button press on
/// a phase-0 tick, the wall-moving effect on a phase-1 tick strictly
/// inside the wall window, and the wall opening on a phase-2 tick
/// outside the early, wall and terminal windows.
pub proof fn lemma_activate_fire_conditions(s: SessionState, w: WorldView, now: u64, delta: u64)
    requires
        s.scene matches Some(CutScene::ActivateButton { .. }),
    ensures
        ({
            let (s1, w1, g) = activate_step(s, w, now, delta);
            let start = s.scene_start;
            let in_wall_window = start + CAMERA_TO_WALL < now < start + CAMERA_ON_WALL;
            let fires0 = s.scene_step == 0;
            let fires1 = (if fires0 { 1int } else { s.scene_step as int }) == 1 && now >= start
                + CAMERA_ON_PLAYER && now <= start + CAMERA_BACK_TO_PLAYER && in_wall_window;
            let fires2 = (if fires0 { 1int } else { s.scene_step as int }) == 2 && now >= start
                + CAMERA_ON_PLAYER && now <= start + CAMERA_BACK_TO_PLAYER && !in_wall_window;
            &&& g.play_click == fires0
            &&& g.pause_background == fires0
            &&& g.play_wall_moving == fires1
            &&& s1.scene_step == s.scene_step + (if fires0 { 1int } else { 0 }) + (if fires1 {
                1int
            } else {
                0
            }) + (if fires2 { 1int } else { 0 })
        }),
{
}

/// The phase counter reaches 2 only through the wall window: a tick
/// that raises it past 1 is strictly inside that window.
pub proof fn lemma_activate_step_two_needs_wall_window(
    s: SessionState,
    w: WorldView,
    now: u64,
    delta: u64,
)
    ensures
        ({
            let s1 = activate_step(s, w, now, delta).0;
            (s.scene_step <= 1 && s1.scene_step >= 2) ==> (s.scene_start + CAMERA_TO_WALL < now
                < s.scene_start + CAMERA_ON_WALL)
        }),
{
}

/// A collision marker is removed only on a phase-2 tick, and phase 2
/// is only ever entered through the wall window; the tick that opens
/// the wall advances the phase, so the removal cannot repeat.
pub proof fn lemma_activate_collision_removal(s: SessionState, w: WorldView, now: u64, delta: u64)
    ensures
        ({
            let (s1, w1, g) = activate_step(s, w, now, delta);
            (exists|j: int|
                0 <= j < w.elements.len() && w.elements[j].collide && #[trigger] w1.elements[j].collide
                    == false) ==> (s.scene matches Some(CutScene::ActivateButton { .. })
                && s.scene_step <= 2 && s1.scene_step == 3 && now >= s.scene_start
                + CAMERA_ON_PLAYER && now <= s.scene_start + CAMERA_BACK_TO_PLAYER)
        }),
{
    let (s1, w1, g) = activate_step(s, w, now, delta);
    if exists|j: int|
        0 <= j < w.elements.len() && w.elements[j].collide && #[trigger] w1.elements[j].collide
            == false {
        let j = choose|j: int|
            0 <= j < w.elements.len() && w.elements[j].collide && #[trigger] w1.elements[j].collide
                == false;
        assert(s.scene matches Some(CutScene::ActivateButton { .. }));
    }
}

/// The wall-moving effect fires exactly on the phase-1 tick inside the
/// wall window, and cannot fire again on the next tick.
pub proof fn lemma_activate_wall_moving_once(
    s: SessionState,
    w: WorldView,
    now: u64,
    delta: u64,
    now2: u64,
    delta2: u64,
)
    ensures
        ({
            let (s1, w1, g1) = activate_step(s, w, now, delta);
            let (s2, w2, g2) = activate_step(s1, w1, now2, delta2);
            &&& g1.play_wall_moving ==> (s.scene matches Some(CutScene::ActivateButton { .. })
                && s.scene_step <= 1 && s.scene_start + CAMERA_TO_WALL < now < s.scene_start
                + CAMERA_ON_WALL)
            &&& g1.play_wall_moving ==> !g2.play_wall_moving
            &&& g1.play_click ==> !g2.play_click
        }),
{
}

} // verus!
