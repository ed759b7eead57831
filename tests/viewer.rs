use piston_demos::geometry::vector2d::Vector2d;
use piston_demos::sprite_animation::WalkAnimation;
use piston_demos::sprite_sheet::{viewer_tiles, Tile};
use piston_demos::utils::fps_counter::FpsCounter;
use piston_demos::utils::sprite_sheet::{SubTexture, TextureAtlas};

fn atlas() -> TextureAtlas {
    TextureAtlas {
        image_path: "sheet.png".to_string(),
        sub_textures: vec![
            SubTexture { name: "a".to_string(), x: 0, y: 0, width: 64_000, height: 64_000 },
            SubTexture { name: "b".to_string(), x: 64_000, y: 0, width: 39_000, height: 48_000 },
            SubTexture { name: "b".to_string(), x: 0, y: 64_000, width: 1, height: 1 },
        ],
    }
}

#[test]
fn atlas_finds_first_by_name() {
    let a = atlas();
    assert_eq!(a.find_sprite(&"b".to_string()), Some(1));
    assert_eq!(a.find_sprite(&"c".to_string()), None);
    assert_eq!(a.sprite_size(&"b".to_string()), Some(Vector2d { x: 39_000, y: 48_000 }));
    assert_eq!(a.sprite_size(&"zz".to_string()), None);
}

#[test]
fn viewer_tile_coords() {
    let t = Tile::new("tileYellow_04.png", 2, 1);
    assert_eq!(t.coords(384_000, 64_000), Vector2d { x: 128_000, y: 256_000 });
    assert_eq!(viewer_tiles().len(), 25);
}

#[test]
fn walk_animation_advances_and_wraps() {
    let mut w = WalkAnimation::new(192);
    w.update(50_000);
    assert_eq!(w.player_frame, 1);
    assert_eq!(w.frame_timer, 0);
    assert_eq!(w.plant_x, 106_000 - 9_600);
    assert_eq!(w.walk_frame(), "playerRed_walk2.png");
    w.update(10_000);
    assert_eq!(w.player_frame, 1);
    assert_eq!(w.frame_timer, 10_000);
    w.update(1_000_000);
    assert_eq!(w.plant_x, 192_000);
    assert_eq!(w.player_frame, 2);
}

#[test]
fn fps_counter_measures_rate() {
    let mut f = FpsCounter::default();
    for _ in 0..59 {
        f.on_update(16_000);
    }
    assert_eq!(f.fps, 0);
    assert_eq!(f.frame_ctr, 59);
    f.on_update(100_000);
    assert_eq!(f.fps, 57);
    assert_eq!(f.frame_ctr, 0);
    assert_eq!(f.elapsed, 0);
}

#[test]
fn walk_animation_on_narrow_screen() {
    let mut w = WalkAnimation::new(20);
    w.update(1_000_000);
    assert_eq!(w.plant_x, 20_000);
}
