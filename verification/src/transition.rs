//! The map-transition driver: pauses the background track, plays the
//! fall effect, zooms camera and player down for [`ZOOM`] milliseconds,
//! then swaps in the destination map and releases the session.

use vstd::prelude::*;
use crate::arith::{scaled, scaled_spec};
use crate::model::{
    CutScene, SessionState, Signals, Transform2, World, WorldView, signals_none, session_inv,
    state_ok, world_ok, DELTA_BOUND, SCALE_BOUND, TIME_BOUND,
};

verus! {

/// Length of the zoom window, in milliseconds.
pub const ZOOM: u64 = 2000;
/// Per-window camera scale offset, in millionths.
pub const CAMERA_SCALE_OFFSET: i64 = -980_000;
/// Per-window player scale offset, in millionths.
pub const PLAYER_SCALE_OFFSET: i64 = -950_000;

/// A transform after one tick of incremental zoom: the scale moves by
/// `offset / ZOOM * delta`, the share of the offset this tick covers.
pub open spec fn zoomed(t: Transform2, offset: i64, delta: u64) -> Transform2 {
    Transform2 {
        scale_x: (t.scale_x + scaled_spec(offset as int, delta as int, ZOOM as int)) as i64,
        scale_y: (t.scale_y + scaled_spec(offset as int, delta as int, ZOOM as int)) as i64,
        ..t
    }
}

/// One tick of the map-transition driver. On its first matching tick
/// (phase counter 0) it pauses the background track and plays the fall
/// effect. While elapsed time is inside the zoom window both camera and
/// player shrink incrementally; at and after its end the destination
/// map becomes active and the session is released.
pub open spec fn transition_step(s: SessionState, w: WorldView, now: u64, delta: u64) -> (
    SessionState,
    WorldView,
    Signals,
) {
    match s.scene {
        Some(CutScene::MapTransition { to }) => {
            let fires = s.scene_step == 0;
            let s1 = if fires {
                SessionState { scene_step: (s.scene_step + 1) as u32, ..s }
            } else {
                s
            };
            let sig = Signals { pause_background: fires, play_fall: fires, ..signals_none() };
            if now < s.scene_start + ZOOM {
                let w1 = WorldView {
                    camera: match w.camera {
                        Some(t) => Some(zoomed(t, CAMERA_SCALE_OFFSET, delta)),
                        None => None,
                    },
                    player: match w.player {
                        Some(t) => Some(zoomed(t, PLAYER_SCALE_OFFSET, delta)),
                        None => None,
                    },
                    ..w
                };
                (s1, w1, sig)
            } else {
                (
                    SessionState { scene: None, frozen: false, ..s1 },
                    WorldView { map: to, ..w },
                    sig,
                )
            }
        },
        _ => (s, w, signals_none()),
    }
}

/// Applies one tick of incremental zoom to an optional transform.
fn zoom_transform(slot: &mut Option<Transform2>, offset: i64, delta: u64)
    requires
        -1_000_000 <= offset <= 0,
        delta <= DELTA_BOUND,
        match *old(slot) {
            Some(t) => -SCALE_BOUND <= t.scale_x <= SCALE_BOUND && -SCALE_BOUND <= t.scale_y
                <= SCALE_BOUND,
            None => true,
        },
    ensures
        *final(slot) == match *old(slot) {
            Some(t) => Some(zoomed(t, offset, delta)),
            None => None,
        },
{
    if slot.is_some() {
        let mut t = slot.unwrap();
        let r = scaled(offset, delta, ZOOM);
        t.scale_x = t.scale_x + r;
        t.scale_y = t.scale_y + r;
        *slot = Some(t);
    }
}

/// Per-tick driver for the [`CutScene::MapTransition`] variant; a
/// non-matching or empty active scene is left untouched.
pub fn run_transition_scene(
    state: &mut SessionState,
    world: &mut World,
    now: u64,
    delta: u64,
) -> (sig: Signals)
    requires
        now <= TIME_BOUND,
        delta <= DELTA_BOUND,
        old(state).scene matches Some(CutScene::MapTransition { .. }) ==> state_ok(*old(state))
            && world_ok(old(world)@),
    ensures
        ({
            let (s1, w1, g) = transition_step(*old(state), old(world)@, now, delta);
            *final(state) == s1 && final(world)@ == w1 && sig == g
        }),
{
    let mut sig = Signals {
        pause_background: false,
        resume_background: false,
        play_fall: false,
        play_click: false,
        play_wall_moving: false,
    };
    if let Some(CutScene::MapTransition { to }) = state.scene {
        if state.scene_step == 0 {
            state.scene_step = state.scene_step + 1;
            sig.pause_background = true;
            sig.play_fall = true;
        }
        if now < state.scene_start + ZOOM {
            zoom_transform(&mut world.camera, CAMERA_SCALE_OFFSET, delta);
            zoom_transform(&mut world.player, PLAYER_SCALE_OFFSET, delta);
        } else {
            world.map = to;
            state.scene = None;
            state.frozen = false;
        }
    }
    proof {
        let (s1, w1, g) = transition_step(*old(state), old(world)@, now, delta);
        assert(final(world)@ =~= w1);
    }
    sig
}

/// The driver preserves the session invariant: it either keeps the
/// scene (and so the freeze) or clears both together at the terminal
/// window.
pub proof fn lemma_transition_preserves_inv(
    s: SessionState,
    w: WorldView,
    now: u64,
    delta: u64,
)
    requires
        session_inv(s),
    ensures
        session_inv(transition_step(s, w, now, delta).0),
{
}

/// The phase counter is non-decreasing and advances by exactly one at
/// the single documented one-time transition (the first matching tick).
pub proof fn lemma_transition_step_monotone(s: SessionState, w: WorldView, now: u64, delta: u64)
    ensures
        ({
            let s1 = transition_step(s, w, now, delta).0;
            &&& s.scene_step <= s1.scene_step
            &&& s1.scene_step == s.scene_step || s1.scene_step == s.scene_step + 1
            &&& (s1.scene_step == s.scene_step + 1 <==> (s.scene
                matches Some(CutScene::MapTransition { .. }) && s.scene_step == 0))
        }),
{
}

/// The active map is replaced only by a matching driver tick whose
/// elapsed time has reached the zoom window's end, it is replaced by
/// the scene's destination, and the session is released at that tick;
/// before the window's end the map is never touched.
pub proof fn lemma_transition_map_replacement(s: SessionState, w: WorldView, now: u64, delta: u64)
    ensures
        ({
            let (s1, w1, g) = transition_step(s, w, now, delta);
            &&& w1.map != w.map ==> (s.scene matches Some(CutScene::MapTransition { to })
                && now >= s.scene_start + ZOOM && w1.map == to && s1.scene is None && !s1.frozen)
            &&& (s.scene matches Some(CutScene::MapTransition { .. }) && now < s.scene_start
                + ZOOM) ==> w1.map == w.map
        }),
{
}

/// The replacement happens exactly once: the tick that swaps the map
/// clears the scene, and a later tick with no active scene changes
/// nothing and emits nothing.
pub proof fn lemma_transition_replaces_once(
    s: SessionState,
    w: WorldView,
    now: u64,
    delta: u64,
    now2: u64,
    delta2: u64,
)
    ensures
        ({
            let (s1, w1, g1) = transition_step(s, w, now, delta);
            let (s2, w2, g2) = transition_step(s1, w1, now2, delta2);
            s1.scene is None ==> s2 == s1 && w2 == w1 && g2 == signals_none()
        }),
{
}

/// The one-time audio signals fire only on the first matching tick and
/// cannot fire again on the next tick.
pub proof fn lemma_transition_effects_once(
    s: SessionState,
    w: WorldView,
    now: u64,
    delta: u64,
    now2: u64,
    delta2: u64,
)
    ensures
        ({
            let (s1, w1, g1) = transition_step(s, w, now, delta);
            let (s2, w2, g2) = transition_step(s1, w1, now2, delta2);
            &&& g1.play_fall <==> (s.scene matches Some(CutScene::MapTransition { .. })
                && s.scene_step == 0)
            &&& g1.play_fall ==> !g2.play_fall && !g2.pause_background
        }),
{
}

} // verus!
