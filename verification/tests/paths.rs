//! The static asset-path table.

use game_plugin::paths::paths;

#[test]
fn asset_paths_are_complete() {
    let p = paths();
    assert_eq!(p.fira_sans, "fonts/FiraSans-Bold.ttf");
    assert_eq!(p.audio_fall, "audio/fall.ogg");
    assert_eq!(p.audio_button_click, "audio/button_click.ogg");
    assert_eq!(p.audio_wall_moving, "audio/wall_moving.ogg");
    assert_eq!(p.audio_ground_background, "audio/happy_background.ogg");
    assert_eq!(p.audio_dirt_background, "audio/dirt_background.ogg");
    assert_eq!(p.audio_stone_background, "audio/stone_background.ogg");
    assert_eq!(p.audio_lava_background, "audio/lava_background.ogg");
    assert_eq!(p.texture_player, "textures/player.png");
    assert_eq!(p.texture_acorn, "textures/acorn.png");
    assert_eq!(p.texture_button, "textures/button.png");
    assert_eq!(p.texture_button_active, "textures/button_active.png");
}
