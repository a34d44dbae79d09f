//! The scene request handler: drains pending [`TriggerScene`] events
//! and establishes the active scene.

use vstd::prelude::*;
use crate::model::{CutScene, SessionState, TriggerScene, session_inv};

verus! {

/// State after draining `events` at elapsed time `now`: each request
/// overwrites the whole record, so the last one wins; with no request
/// the state is unchanged.
pub open spec fn trigger_spec(s: SessionState, events: Seq<TriggerScene>, now: u64) -> SessionState {
    if events.len() > 0 {
        SessionState {
            scene: Some(events.last().scene),
            scene_start: now,
            scene_step: 0,
            frozen: true,
        }
    } else {
        s
    }
}

/// Consumes all pending scene requests, in arrival order. Each one
/// blindly becomes the active scene: start time snapshotted to `now`,
/// phase counter reset, gameplay frozen. No validation, no error path.
pub fn trigger_scene(state: &mut SessionState, events: &Vec<TriggerScene>, now: u64)
    ensures
        *final(state) == trigger_spec(*old(state), events@, now),
{
    let mut i: usize = 0;
    while i < events.len()
        invariant
            i <= events@.len(),
            *state == trigger_spec(*old(state), events@.take(i as int), now),
        decreases events@.len() - i,
    {
        let ev: TriggerScene = events[i];
        state.scene = Some(ev.scene);
        state.frozen = true;
        state.scene_start = now;
        state.scene_step = 0;
        i += 1;
        proof {
            assert(events@.take(i as int).last() == events@[i - 1]);
        }
    }
    proof {
        assert(events@.take(events@.len() as int) == events@);
    }
}

/// After draining, the session invariant holds: a request freezes
/// gameplay together with installing the scene, and no request leaves
/// the state untouched.
pub proof fn lemma_trigger_preserves_inv(s: SessionState, events: Seq<TriggerScene>, now: u64)
    requires
        session_inv(s),
    ensures
        session_inv(trigger_spec(s, events, now)),
{
}

} // verus!
