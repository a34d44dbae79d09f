//! End-to-end cut-scene scenarios driven tick by tick.

use game_plugin::model::{
    CutScene, Element, GameMap, Material, Point, SessionState, Transform2, TriggerScene, World,
};
use game_plugin::tick::run_tick;

fn transform(x: i64, y: i64) -> Transform2 {
    Transform2 { x, y, rotation: 0, scale_x: 1_000_000, scale_y: 1_000_000 }
}

fn map_a() -> GameMap {
    GameMap { id: 1, goal: Point { x: 300, y: 400 }, acorn_spawn: Point { x: 500, y: 600 } }
}

fn map_b() -> GameMap {
    GameMap { id: 2, goal: Point { x: 0, y: 0 }, acorn_spawn: Point { x: 0, y: 0 } }
}

fn fresh_state() -> SessionState {
    SessionState { scene: None, scene_start: 0, scene_step: 0, frozen: false }
}

#[test]
fn map_transition_replaces_map_at_zoom_end() {
    let mut state = fresh_state();
    let mut world = World {
        camera: Some(transform(0, 0)),
        acorn: None,
        player: Some(transform(64, 64)),
        elements: Vec::new(),
        map: map_a(),
    };
    let trigger = vec![TriggerScene { scene: CutScene::MapTransition { to: map_b() } }];

    let sig = run_tick(&mut state, &mut world, &trigger, 0, 16);
    assert!(state.frozen);
    assert_eq!(state.scene_step, 1);
    assert!(sig.pause_background);
    assert!(sig.play_fall);
    assert_eq!(world.map, map_a());
    // One tick of incremental zoom: -980000 * 16 / 2000 and -950000 * 16 / 2000.
    assert_eq!(world.camera.unwrap().scale_x, 1_000_000 - 7840);
    assert_eq!(world.player.unwrap().scale_x, 1_000_000 - 7600);

    // Strictly before the window's end nothing is replaced.
    let sig = run_tick(&mut state, &mut world, &Vec::new(), 1999, 16);
    assert_eq!(world.map, map_a());
    assert!(state.frozen);
    assert!(!sig.play_fall);

    // At exactly the zoom duration the destination map becomes active.
    let _ = run_tick(&mut state, &mut world, &Vec::new(), 2000, 16);
    assert_eq!(world.map, map_b());
    assert_eq!(state.scene, None);
    assert!(!state.frozen);
}

#[test]
fn activate_button_scenario() {
    let mut state = fresh_state();
    let button = Element { entity: 5, x: 30, y: 40, material: Material::Button, collide: false };
    let wall = Element { entity: 7, x: 100, y: 0, material: Material::Wall, collide: true };
    let mut world = World {
        camera: Some(transform(0, 0)),
        acorn: None,
        player: Some(transform(0, 0)),
        elements: vec![button, wall],
        map: map_a(),
    };
    let scene = CutScene::ActivateButton {
        button: 5,
        player: Point { x: 0, y: 0 },
        wall: Point { x: 100, y: 0 },
    };
    let trigger = vec![TriggerScene { scene }];
    let mut wall_moving_count = 0;

    // Trigger tick: button pressed, click plays, background pauses.
    let sig = run_tick(&mut state, &mut world, &trigger, 0, 16);
    assert!(sig.pause_background);
    assert!(sig.play_click);
    assert!(!sig.play_wall_moving);
    assert_eq!(world.elements[0].material, Material::ButtonDown);
    assert_eq!(world.elements[1].material, Material::Wall);
    assert_eq!(state.scene_step, 1);
    assert!(state.frozen);
    if sig.play_wall_moving {
        wall_moving_count += 1;
    }

    // Inside the wall window: the effect fires once and the camera
    // holds exactly on the wall.
    let sig = run_tick(&mut state, &mut world, &Vec::new(), 1150, 16);
    if sig.play_wall_moving {
        wall_moving_count += 1;
    }
    assert_eq!(state.scene_step, 2);
    assert_eq!(world.camera.unwrap().x, 100);
    assert_eq!(world.camera.unwrap().y, 0);
    assert!(world.elements[1].collide, "wall must still be closed inside the window");

    // Still inside the window: no second firing.
    let sig = run_tick(&mut state, &mut world, &Vec::new(), 1200, 16);
    if sig.play_wall_moving {
        wall_moving_count += 1;
    }
    assert_eq!(wall_moving_count, 1);
    assert_eq!(state.scene_step, 2);

    // Past the window: the wall opens exactly once.
    let _ = run_tick(&mut state, &mut world, &Vec::new(), 1300, 16);
    assert_eq!(state.scene_step, 3);
    assert_eq!(world.elements[1].material, Material::WallDown);
    assert!(!world.elements[1].collide);
    // Back pan: (0 - 100) * 16 / 700 truncates to -2.
    assert_eq!(world.camera.unwrap().x, 98);

    // Past the final window: background resumes, camera snaps home,
    // session released.
    let sig = run_tick(&mut state, &mut world, &Vec::new(), 2001, 16);
    assert!(sig.resume_background);
    assert_eq!(world.camera.unwrap().x, 0);
    assert_eq!(state.scene, None);
    assert!(!state.frozen);
    assert_eq!(wall_moving_count, 1);
}

#[test]
fn second_trigger_in_same_tick_wins() {
    let mut state = fresh_state();
    let mut world = World {
        camera: Some(transform(0, 0)),
        acorn: None,
        player: Some(transform(0, 0)),
        elements: Vec::new(),
        map: map_a(),
    };
    let first = CutScene::Intro {
        camera_from: Point { x: 0, y: 0 },
        camera_to: Point { x: 50, y: 50 },
        acorn_falls: true,
    };
    let second = CutScene::MapTransition { to: map_b() };
    let triggers = vec![TriggerScene { scene: first }, TriggerScene { scene: second }];

    let sig = run_tick(&mut state, &mut world, &triggers, 500, 16);
    assert_eq!(state.scene, Some(second));
    assert_eq!(state.scene_start, 500);
    assert!(state.frozen);
    // The retained scene's driver already ran its one-time phase.
    assert_eq!(state.scene_step, 1);
    assert!(sig.play_fall);
}

#[test]
fn trigger_overwrites_running_scene() {
    let mut state = fresh_state();
    let mut world = World {
        camera: Some(transform(0, 0)),
        acorn: None,
        player: Some(transform(0, 0)),
        elements: Vec::new(),
        map: map_a(),
    };
    let intro = CutScene::Intro {
        camera_from: Point { x: 0, y: 0 },
        camera_to: Point { x: 50, y: 50 },
        acorn_falls: false,
    };
    let _ = run_tick(&mut state, &mut world, &vec![TriggerScene { scene: intro }], 0, 16);
    assert!(state.frozen);

    let replacement = CutScene::MapTransition { to: map_b() };
    let _ = run_tick(&mut state, &mut world, &vec![TriggerScene { scene: replacement }], 700, 16);
    assert_eq!(state.scene, Some(replacement));
    assert_eq!(state.scene_start, 700);
    assert_eq!(state.scene_step, 1);
    assert!(state.frozen);
}

#[test]
fn idle_tick_changes_nothing() {
    let mut state = fresh_state();
    let mut world = World {
        camera: Some(transform(7, 9)),
        acorn: None,
        player: Some(transform(64, 64)),
        elements: Vec::new(),
        map: map_a(),
    };
    let before_world = world.clone();
    let sig = run_tick(&mut state, &mut world, &Vec::new(), 12345, 16);
    assert_eq!(state, fresh_state());
    assert_eq!(world, before_world);
    assert!(!sig.pause_background);
    assert!(!sig.resume_background);
    assert!(!sig.play_fall);
    assert!(!sig.play_click);
    assert!(!sig.play_wall_moving);
}

#[test]
fn frozen_follows_scene_over_whole_lifetime() {
    let mut state = fresh_state();
    let mut world = World {
        camera: Some(transform(0, 0)),
        acorn: None,
        player: Some(transform(0, 0)),
        elements: Vec::new(),
        map: map_a(),
    };
    let scene = CutScene::ActivateButton {
        button: 1,
        player: Point { x: 0, y: 0 },
        wall: Point { x: 64, y: 0 },
    };
    let _ = run_tick(&mut state, &mut world, &vec![TriggerScene { scene }], 0, 16);
    let mut now = 16;
    while now <= 2100 {
        let frozen_before = state.frozen;
        let scene_before = state.scene.is_some();
        assert_eq!(frozen_before, scene_before, "frozen must track the active scene");
        let _ = run_tick(&mut state, &mut world, &Vec::new(), now, 16);
        now += 16;
    }
    assert!(!state.frozen);
    assert_eq!(state.scene, None);
}
