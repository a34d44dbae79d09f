//! One simulation tick of the cut-scene subsystem: the request channel
//! is drained first, then each driver runs against the active scene.
//! The drivers are mutually exclusive by construction — each matches on
//! the scene tag before consuming it — so at most one acts per tick.

use vstd::prelude::*;
use crate::activate::{activate_step, lemma_activate_preserves_inv, run_activate_button_scene};
use crate::intro::{intro_step, lemma_intro_preserves_inv, run_intro};
use crate::model::{
    SessionState, Signals, TriggerScene, World, WorldView, scene_ok, signals_or, session_inv,
    state_ok, world_ok, DELTA_BOUND, TIME_BOUND,
};
use crate::transition::{lemma_transition_preserves_inv, run_transition_scene, transition_step};
use crate::trigger::{trigger_spec, trigger_scene};

verus! {

/// The whole tick: requests drained, then the intro, map-transition
/// and button-activation drivers in turn; the emitted signals are the
/// union of the drivers' (at most one of which is non-empty).
pub open spec fn tick_spec(
    s: SessionState,
    w: WorldView,
    events: Seq<TriggerScene>,
    now: u64,
    delta: u64,
) -> (SessionState, WorldView, Signals) {
    let s0 = trigger_spec(s, events, now);
    let (s1, w1, g1) = intro_step(s0, w, now, delta);
    let (s2, w2, g2) = transition_step(s1, w1, now, delta);
    let (s3, w3, g3) = activate_step(s2, w2, now, delta);
    (s3, w3, signals_or(signals_or(g1, g2), g3))
}

/// Runs one tick at elapsed time `now` with per-tick delta `delta`:
/// drains `events` (the last request wins), then runs each driver.
pub fn run_tick(
    state: &mut SessionState,
    world: &mut World,
    events: &Vec<TriggerScene>,
    now: u64,
    delta: u64,
) -> (sig: Signals)
    requires
        now <= TIME_BOUND,
        delta <= DELTA_BOUND,
        state_ok(*old(state)),
        world_ok(old(world)@),
        forall|i: int| 0 <= i < events@.len() ==> scene_ok(#[trigger] events@[i].scene),
    ensures
        ({
            let (s1, w1, g) = tick_spec(*old(state), old(world)@, events@, now, delta);
            *final(state) == s1 && final(world)@ == w1 && sig == g
        }),
        session_inv(*old(state)) ==> session_inv(*final(state)),
{
    trigger_scene(state, events, now);
    proof {
        if events@.len() > 0 {
            assert(scene_ok(events@[events@.len() - 1].scene));
        }
    }
    let g1 = run_intro(state, world, now, delta);
    let g2 = run_transition_scene(state, world, now, delta);
    let g3 = run_activate_button_scene(state, world, now, delta);
    proof {
        let s0 = trigger_spec(*old(state), events@, now);
        if session_inv(*old(state)) {
            let (s1, w1, ga) = intro_step(s0, old(world)@, now, delta);
            let (s2, w2, gb) = transition_step(s1, w1, now, delta);
            lemma_intro_preserves_inv(s0, old(world)@, now, delta);
            lemma_transition_preserves_inv(s1, w1, now, delta);
            lemma_activate_preserves_inv(s2, w2, now, delta);
        }
    }
    Signals {
        pause_background: g1.pause_background || g2.pause_background || g3.pause_background,
        resume_background: g1.resume_background || g2.resume_background || g3.resume_background,
        play_fall: g1.play_fall || g2.play_fall || g3.play_fall,
        play_click: g1.play_click || g2.play_click || g3.play_click,
        play_wall_moving: g1.play_wall_moving || g2.play_wall_moving || g3.play_wall_moving,
    }
}

/// The session invariant is preserved by a whole tick: gameplay is
/// frozen exactly while a scene is active, from the trigger tick until
/// the tick its driver clears it.
pub proof fn lemma_tick_preserves_inv(
    s: SessionState,
    w: WorldView,
    events: Seq<TriggerScene>,
    now: u64,
    delta: u64,
)
    requires
        session_inv(s),
    ensures
        session_inv(tick_spec(s, w, events, now, delta).0),
{
    let s0 = trigger_spec(s, events, now);
    let (s1, w1, g1) = intro_step(s0, w, now, delta);
    let (s2, w2, g2) = transition_step(s1, w1, now, delta);
    lemma_intro_preserves_inv(s0, w, now, delta);
    lemma_transition_preserves_inv(s1, w1, now, delta);
    lemma_activate_preserves_inv(s2, w2, now, delta);
}

/// The inputs one tick consumes: the drained requests, the elapsed
/// clock and the tick delta.
pub struct TickInput {
    pub events: Seq<TriggerScene>,
    pub now: u64,
    pub delta: u64,
}

/// The session and world after a whole run of ticks.
pub open spec fn run_trace(s: SessionState, w: WorldView, inputs: Seq<TickInput>) -> (
    SessionState,
    WorldView,
)
    decreases inputs.len(),
{
    if inputs.len() == 0 {
        (s, w)
    } else {
        let (s1, w1, g) = tick_spec(s, w, inputs[0].events, inputs[0].now, inputs[0].delta);
        run_trace(s1, w1, inputs.drop_first())
    }
}

/// Over any run of ticks, gameplay is frozen exactly while a scene is
/// active: every trigger freezes together with installing its scene,
/// every driver unfreezes exactly at the tick it clears the scene, and
/// `frozen` is never true with no scene.
pub proof fn lemma_trace_preserves_inv(s: SessionState, w: WorldView, inputs: Seq<TickInput>)
    requires
        session_inv(s),
    ensures
        session_inv(run_trace(s, w, inputs).0),
    decreases inputs.len(),
{
    if inputs.len() > 0 {
        lemma_tick_preserves_inv(s, w, inputs[0].events, inputs[0].now, inputs[0].delta);
        let (s1, w1, g) = tick_spec(s, w, inputs[0].events, inputs[0].now, inputs[0].delta);
        lemma_trace_preserves_inv(s1, w1, inputs.drop_first());
    }
}

/// With no request and no active scene a tick changes nothing and
/// emits nothing.
pub proof fn lemma_tick_idle(
    s: SessionState,
    w: WorldView,
    events: Seq<TriggerScene>,
    now: u64,
    delta: u64,
)
    requires
        events.len() == 0,
        s.scene is None,
    ensures
        ({
            let (s1, w1, g) = tick_spec(s, w, events, now, delta);
            s1 == s && w1 == w && g == crate::model::signals_none()
        }),
{
}

} // verus!
