//! Data model of the cut-scene subsystem.
//!
//! Times are milliseconds since startup (`u64`); positions are world
//! units (`i64`); scales are millionths (`i64`, so `1_000_000` is scale
//! 1.0); rotations are milli-turns (`i64`, so `1000` is one full turn).

use vstd::prelude::*;

verus! {

/// Largest position coordinate magnitude the drivers accept (2^40).
pub const POS_BOUND: i64 = 0x100_0000_0000;
/// Largest scale magnitude the drivers accept, in millionths (2^40).
pub const SCALE_BOUND: i64 = 0x100_0000_0000;
/// Largest per-tick delta the drivers accept, in milliseconds (2^20).
pub const DELTA_BOUND: u64 = 0x10_0000;
/// Largest elapsed time the drivers accept, in milliseconds.
pub const TIME_BOUND: u64 = 0xFFFF_FFFF_FFFF_0000;

/// A 2D position in world units.
#[derive(Clone, Copy, PartialEq, Eq, Debug)]
pub struct Point {
    pub x: i64,
    pub y: i64,
}

/// An entity transform: translation, z-rotation and scale.
#[derive(Clone, Copy, PartialEq, Eq, Debug)]
pub struct Transform2 {
    pub x: i64,
    pub y: i64,
    /// Rotation around the z axis, in milli-turns.
    pub rotation: i64,
    pub scale_x: i64,
    pub scale_y: i64,
}

/// A material handle, reduced to the variants the drivers assign.
#[derive(Clone, Copy, PartialEq, Eq, Debug)]
pub enum Material {
    Button,
    ButtonDown,
    Wall,
    WallDown,
    Other,
}

/// A tile whose cell blocks player movement.
#[derive(Clone, Copy, PartialEq, Eq, Debug)]
pub struct Collide {
    pub x: usize,
    pub y: usize,
}

/// An interactive "active element" entity: a button or a movable wall.
#[derive(Clone, Copy, PartialEq, Eq, Debug)]
pub struct Element {
    /// Entity reference, by id.
    pub entity: u64,
    pub x: i64,
    pub y: i64,
    pub material: Material,
    /// Whether the entity still carries its collision marker.
    pub collide: bool,
}

/// A map: identity plus the two positions the intro scene reads.
#[derive(Clone, Copy, PartialEq, Eq, Debug)]
pub struct GameMap {
    pub id: u64,
    pub goal: Point,
    pub acorn_spawn: Point,
}

/// The cut-scene variants and their parameters. Exactly one is live at
/// a time, owned by the session state.
#[derive(Clone, Copy, PartialEq, Eq, Debug)]
pub enum CutScene {
    Intro {
        camera_from: Point,
        camera_to: Point,
        acorn_falls: bool,
    },
    ActivateButton {
        button: u64,
        player: Point,
        wall: Point,
    },
    MapTransition {
        to: GameMap,
    },
}

/// A request to start a cut-scene.
#[derive(Clone, Copy, PartialEq, Eq, Debug)]
pub struct TriggerScene {
    pub scene: CutScene,
}

/// The game session state: the active scene, its start time, the
/// monotonic phase counter, and the gameplay freeze flag.
#[derive(Clone, Copy, PartialEq, Eq, Debug)]
pub struct SessionState {
    pub scene: Option<CutScene>,
    /// Elapsed time at which the active scene was triggered, in ms.
    pub scene_start: u64,
    /// Phase counter for one-time transitions within the active scene.
    pub scene_step: u32,
    /// True for the whole lifetime of an active scene.
    pub frozen: bool,
}

/// Fire-and-forget audio signals a tick may emit.
#[derive(Clone, Copy, PartialEq, Eq, Debug)]
pub struct Signals {
    pub pause_background: bool,
    pub resume_background: bool,
    pub play_fall: bool,
    pub play_click: bool,
    pub play_wall_moving: bool,
}

/// The parts of the game world the drivers read and write. A missing
/// camera, acorn or player is tolerated: the corresponding update is
/// skipped.
#[derive(Clone, PartialEq, Eq, Debug)]
pub struct World {
    pub camera: Option<Transform2>,
    pub acorn: Option<Transform2>,
    pub player: Option<Transform2>,
    pub elements: Vec<Element>,
    pub map: GameMap,
}

/// Mathematical view of [`World`]: the element list as a sequence.
#[verifier::ext_equal]
pub struct WorldView {
    pub camera: Option<Transform2>,
    pub acorn: Option<Transform2>,
    pub player: Option<Transform2>,
    pub elements: Seq<Element>,
    pub map: GameMap,
}

impl View for World {
    type V = WorldView;

    open spec fn view(&self) -> WorldView {
        WorldView {
            camera: self.camera,
            acorn: self.acorn,
            player: self.player,
            elements: self.elements@,
            map: self.map,
        }
    }
}

pub open spec fn signals_none() -> Signals {
    Signals {
        pause_background: false,
        resume_background: false,
        play_fall: false,
        play_click: false,
        play_wall_moving: false,
    }
}

/// Builds the empty signal record.
pub fn empty_signals() -> (s: Signals)
    ensures
        s == signals_none(),
{
    Signals {
        pause_background: false,
        resume_background: false,
        play_fall: false,
        play_click: false,
        play_wall_moving: false,
    }
}

/// Pointwise disjunction of two signal records; the drivers are
/// mutually exclusive, so at most one operand is ever non-empty.
pub open spec fn signals_or(a: Signals, b: Signals) -> Signals {
    Signals {
        pause_background: a.pause_background || b.pause_background,
        resume_background: a.resume_background || b.resume_background,
        play_fall: a.play_fall || b.play_fall,
        play_click: a.play_click || b.play_click,
        play_wall_moving: a.play_wall_moving || b.play_wall_moving,
    }
}

pub open spec fn point_ok(p: Point) -> bool {
    -POS_BOUND <= p.x <= POS_BOUND && -POS_BOUND <= p.y <= POS_BOUND
}

pub open spec fn transform_ok(t: Transform2) -> bool {
    &&& -POS_BOUND <= t.x <= POS_BOUND
    &&& -POS_BOUND <= t.y <= POS_BOUND
    &&& -SCALE_BOUND <= t.scale_x <= SCALE_BOUND
    &&& -SCALE_BOUND <= t.scale_y <= SCALE_BOUND
}

pub open spec fn map_ok(m: GameMap) -> bool {
    point_ok(m.goal) && point_ok(m.acorn_spawn)
}

pub open spec fn scene_ok(c: CutScene) -> bool {
    match c {
        CutScene::Intro { camera_from, camera_to, acorn_falls } => {
            point_ok(camera_from) && point_ok(camera_to)
        },
        CutScene::ActivateButton { button, player, wall } => {
            point_ok(player) && point_ok(wall)
        },
        CutScene::MapTransition { to } => map_ok(to),
    }
}

pub open spec fn state_ok(s: SessionState) -> bool {
    &&& s.scene_start <= TIME_BOUND
    &&& match s.scene {
        Some(c) => scene_ok(c),
        None => true,
    }
}

pub open spec fn world_ok(w: WorldView) -> bool {
    &&& match w.camera {
        Some(t) => transform_ok(t),
        None => true,
    }
    &&& match w.acorn {
        Some(t) => transform_ok(t),
        None => true,
    }
    &&& match w.player {
        Some(t) => transform_ok(t),
        None => true,
    }
    &&& map_ok(w.map)
}

/// The session invariant: gameplay is frozen exactly while a scene is
/// active; `frozen` is never true with no scene.
pub open spec fn session_inv(s: SessionState) -> bool {
    s.frozen <==> s.scene is Some
}

} // verus!
