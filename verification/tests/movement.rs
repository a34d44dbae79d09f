//! Player movement, tile collision and camera follow.

use game_plugin::model::{Collide, GameMap, Point, Transform2, World};
use game_plugin::player::move_player;

fn transform(x: i64, y: i64) -> Transform2 {
    Transform2 { x, y, rotation: 0, scale_x: 1_000_000, scale_y: 1_000_000 }
}

fn world_at(x: i64, y: i64) -> World {
    World {
        camera: Some(transform(x, y)),
        acorn: None,
        player: Some(transform(x, y)),
        elements: Vec::new(),
        map: GameMap { id: 1, goal: Point { x: 0, y: 0 }, acorn_spawn: Point { x: 0, y: 0 } },
    }
}

#[test]
fn moves_player_and_camera_follows() {
    let mut world = world_at(0, 0);
    // Full-right direction for one second: 150 units.
    move_player(&mut world, Some(Point { x: 1000, y: 0 }), 1000, false, &Vec::new());
    assert_eq!(world.player.unwrap().x, 150);
    assert_eq!(world.player.unwrap().y, 0);
    assert_eq!(world.camera.unwrap().x, 150);
    assert_eq!(world.camera.unwrap().y, 0);
}

#[test]
fn movement_integrates_speed_over_delta() {
    let mut world = world_at(64, 64);
    // Half-left direction for 100 ms: -1000/2 * 150 * 0.1 / 1000
    // truncates to -7 units.
    move_player(&mut world, Some(Point { x: -500, y: 0 }), 100, false, &Vec::new());
    assert_eq!(world.player.unwrap().x, 57);
    assert_eq!(world.player.unwrap().y, 64);
}

#[test]
fn blocked_tile_stops_movement() {
    let mut world = world_at(0, 0);
    // Destination (150, 0) centers into tile (2, 0).
    let colliders = vec![Collide { x: 2, y: 0 }];
    move_player(&mut world, Some(Point { x: 1000, y: 0 }), 1000, false, &colliders);
    assert_eq!(world.player.unwrap().x, 0);
    assert_eq!(world.camera.unwrap().x, 0);
}

#[test]
fn unrelated_collider_does_not_block() {
    let mut world = world_at(0, 0);
    let colliders = vec![Collide { x: 5, y: 5 }];
    move_player(&mut world, Some(Point { x: 1000, y: 0 }), 1000, false, &colliders);
    assert_eq!(world.player.unwrap().x, 150);
}

#[test]
fn coordinates_left_of_map_clamp_to_tile_zero() {
    let mut world = world_at(-100, 0);
    // Destination (-115, 0) clamps to tile (0, 0), which is blocked.
    let colliders = vec![Collide { x: 0, y: 0 }];
    move_player(&mut world, Some(Point { x: -1000, y: 0 }), 100, false, &colliders);
    assert_eq!(world.player.unwrap().x, -100);
}

#[test]
fn frozen_session_suppresses_movement() {
    let mut world = world_at(0, 0);
    move_player(&mut world, Some(Point { x: 1000, y: 1000 }), 1000, true, &Vec::new());
    assert_eq!(world.player.unwrap().x, 0);
    assert_eq!(world.player.unwrap().y, 0);
}

#[test]
fn no_input_means_no_movement() {
    let mut world = world_at(32, 48);
    move_player(&mut world, None, 1000, false, &Vec::new());
    assert_eq!(world.player.unwrap().x, 32);
    assert_eq!(world.player.unwrap().y, 48);
}

#[test]
fn missing_player_is_tolerated() {
    let mut world = world_at(0, 0);
    world.player = None;
    move_player(&mut world, Some(Point { x: 1000, y: 0 }), 1000, false, &Vec::new());
    assert!(world.player.is_none());
    assert_eq!(world.camera.unwrap().x, 0);
}
