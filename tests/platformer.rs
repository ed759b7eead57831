use piston_demos::geometry::vector2d::Vector2d;
use piston_demos::platformer::constants::{ASCEND_TIME, FLOAT_TIME, JUMP_COOL_DOWN, TILE_SIZE};
use piston_demos::platformer::game_world::{GameWorld, GameWorldUpdateArgs};
use piston_demos::platformer::map::{GameMap, Tile};
use piston_demos::platformer::player::{Player, PlayerState, PlayerUpdateArgs};
use piston_demos::utils::entity::Updatable;
use piston_demos::utils::input::{GameInput, KEY_A, KEY_D, KEY_SPACE};

const SCREEN: Vector2d = Vector2d { x: 640_000, y: 448_000 };

fn args(dt: i64) -> PlayerUpdateArgs {
    PlayerUpdateArgs { dt, screen_size: SCREEN }
}

#[test]
fn map_queries_at_start_point() {
    let map = GameMap::new(TILE_SIZE);
    let pos = Vector2d { x: 32_000, y: 192_000 };
    assert_eq!(map.player_pos(pos), (0, 3));
    assert_eq!(map.floor_under_position(pos), 192_000);
    assert_eq!(map.ceiling_over_position(pos, 448_000), 448_000);
    assert_eq!(map.wall_at_left(pos), 0);
    assert_eq!(map.wall_at_right(pos, 640_000), 640_000);
}

#[test]
fn map_queries_under_the_bridge() {
    let map = GameMap::new(TILE_SIZE);
    let pos = Vector2d { x: 4 * 64_000 + 10, y: 2 * 64_000 };
    assert_eq!(map.floor_under_position(pos), 2 * 64_000);
    assert_eq!(map.ceiling_over_position(pos, 448_000), 4 * 64_000);
    let row1 = Vector2d { x: 5 * 64_000 + 10, y: 64_000 };
    assert_eq!(map.wall_at_left(row1), 5 * 64_000);
    assert_eq!(map.wall_at_right(row1, 640_000), 7 * 64_000);
}

#[test]
fn negative_position_is_cell_zero() {
    let map = GameMap::new(TILE_SIZE);
    assert_eq!(map.player_pos(Vector2d { x: -5, y: -64_001 }), (0, 0));
}

#[test]
fn flag_reached_twice_is_stable() {
    let mut map = GameMap::new(TILE_SIZE);
    assert_eq!(map.flag.sprite_name, "flagGreen_down.png");
    map.flag_reached();
    assert_eq!(map.flag.sprite_name, "flagGreen_up.png");
    assert_eq!((map.flag.x, map.flag.y), (4, 5));
    let first = (map.flag.sprite_name.clone(), map.flag.x, map.flag.y, map.flag.rat_x, map.flag.rat_y);
    map.flag_reached();
    let second = (map.flag.sprite_name.clone(), map.flag.x, map.flag.y, map.flag.rat_x, map.flag.rat_y);
    assert_eq!(first, second);
    assert_eq!(map.tiles.len(), 22);
}

#[test]
fn tile_coords() {
    let t = Tile::new_tile("a", 2, 1);
    assert_eq!(t.coords(448_000, 64_000, Vector2d { x: 0, y: 0 }), Vector2d { x: 128_000, y: 320_000 });
    let d = Tile::new_decoration("b", 4, 5, false, 300, -50);
    assert_eq!(d.coords(448_000, 64_000, Vector2d { x: 0, y: 0 }), Vector2d { x: 275_200, y: 67_200 });
    let c = Tile::new_decoration("c", 3, 2, true, 0, 0);
    assert_eq!(c.coords(448_000, 64_000, Vector2d { x: 40_000, y: 30_000 }), Vector2d { x: 204_000, y: 290_000 });
}

#[test]
fn input_tracks_keys() {
    let mut input = GameInput::new();
    assert!(!input.is_key_pressed(KEY_SPACE));
    input.on_key_event(KEY_SPACE, true);
    input.on_key_event(KEY_SPACE, true);
    input.on_key_event(KEY_D, true);
    assert!(input.is_key_pressed(KEY_SPACE));
    input.on_key_event(KEY_SPACE, false);
    assert!(!input.is_key_pressed(KEY_SPACE));
    assert!(input.is_key_pressed(KEY_D));
    assert!(!input.is_key_pressed(KEY_A));
}

#[test]
fn frames_of_states() {
    assert_eq!(PlayerState::Stand.frames(), vec!["playerRed_stand.png".to_string()]);
    assert_eq!(PlayerState::Move.frames().len(), 4);
    assert_eq!(PlayerState::AscendStart.frames()[1], "playerRed_up2.png");
    assert_eq!(PlayerState::Descend.frames(), vec!["playerRed_fall.png".to_string()]);
}

#[test]
fn jump_from_stand_starts_ascent() {
    let map = GameMap::new(TILE_SIZE);
    let mut p = Player::new(Vector2d { x: 39_000, y: 48_000 });
    let mut input = GameInput::new();
    input.on_key_event(KEY_SPACE, true);
    p.update(args(16_667), &input, &map);
    assert_eq!(p.state, PlayerState::AscendStart);
    assert_eq!(p.action_timer, ASCEND_TIME);
}

#[test]
fn landing_scenario() {
    let map = GameMap::new(TILE_SIZE);
    let mut p = Player::new(Vector2d { x: 39_000, y: 48_000 });
    p.state = PlayerState::Descend;
    p.update(args(0), &GameInput::new(), &map);
    assert_eq!(p.state, PlayerState::Stand);
    assert!(!p.can_jump);
    assert_eq!(p.action_timer, JUMP_COOL_DOWN);
}

#[test]
fn landing_motion_step() {
    let mut p = Player::new(Vector2d { x: 39_000, y: 48_000 });
    p.state = PlayerState::Descend;
    p.update_motion(16_667, false, false, false, 192_000, 448_000);
    assert_eq!(p.state, PlayerState::Stand);
    assert!(!p.can_jump);
    assert_eq!(p.action_timer, JUMP_COOL_DOWN);
    let mut q = Player::new(Vector2d { x: 39_000, y: 48_000 });
    q.state = PlayerState::Descend;
    q.speed = 5;
    q.update_motion(16_667, false, false, false, 192_000, 448_000);
    assert_eq!(q.state, PlayerState::Move);
}

#[test]
fn ascent_stops_at_ceiling() {
    let mut p = Player::new(Vector2d { x: 39_000, y: 48_000 });
    p.state = PlayerState::Ascend;
    p.action_timer = ASCEND_TIME;
    p.pos.y = 200_000;
    p.update_motion(100_000, false, false, false, 0, 256_000);
    assert_eq!(p.pos.y, 256_000 - 48_000);
    assert_eq!(p.state, PlayerState::Float);
    assert_eq!(p.action_timer, 0);
}

#[test]
fn ascent_rises_in_proportion() {
    let mut p = Player::new(Vector2d { x: 39_000, y: 48_000 });
    p.state = PlayerState::AscendStart;
    p.action_timer = ASCEND_TIME;
    p.update_motion(50_000, false, false, false, 0, 448_000);
    assert_eq!(p.pos.y, 192_000 + 40_000);
    assert_eq!(p.action_timer, 150_000);
    assert_eq!(p.state, PlayerState::AscendStart);
}

#[test]
fn rise_ends_in_float_then_descend() {
    let mut p = Player::new(Vector2d { x: 39_000, y: 48_000 });
    p.state = PlayerState::Ascend;
    p.action_timer = 0;
    p.update_motion(10_000, false, false, false, 0, 448_000);
    assert_eq!(p.state, PlayerState::Float);
    assert_eq!(p.action_timer, FLOAT_TIME);
    p.update_motion(30_000, false, false, false, 0, 448_000);
    assert_eq!(p.action_timer, 0);
    p.update_motion(10_000, false, false, false, 0, 448_000);
    assert_eq!(p.state, PlayerState::Descend);
}

#[test]
fn descend_moves_toward_floor() {
    let mut p = Player::new(Vector2d { x: 39_000, y: 48_000 });
    p.state = PlayerState::Descend;
    p.pos.y = 300_000;
    p.update_motion(10_000, false, false, false, 192_000, 448_000);
    assert_eq!(p.pos.y, 288_000);
    p.update_motion(1_000_000, false, false, false, 192_000, 448_000);
    assert_eq!(p.pos.y, 192_000);
}

#[test]
fn running_right_ramps_and_caps() {
    let map = GameMap::new(TILE_SIZE);
    let mut p = Player::new(Vector2d { x: 39_000, y: 48_000 });
    let mut input = GameInput::new();
    input.on_key_event(KEY_D, true);
    p.update(args(10_000), &input, &map);
    assert_eq!(p.state, PlayerState::Move);
    assert_eq!(p.speed, 128_000);
    assert_eq!(p.pos.x, 32_000 + 1_280);
    for _ in 0..20 {
        p.update(args(10_000), &input, &map);
    }
    assert!(p.speed <= 640_000);
}

#[test]
fn releasing_keys_brings_player_to_stand() {
    let map = GameMap::new(TILE_SIZE);
    let mut p = Player::new(Vector2d { x: 39_000, y: 48_000 });
    p.state = PlayerState::Move;
    p.speed = 64_000;
    p.update(args(10_000), &GameInput::new(), &map);
    assert_eq!(p.speed, 0);
    assert_eq!(p.state, PlayerState::Stand);
}

#[test]
fn wall_stops_player() {
    let map = GameMap::new(TILE_SIZE);
    let mut p = Player::new(Vector2d { x: 40_000, y: 48_000 });
    p.pos = Vector2d { x: 10_000, y: 192_000 };
    p.state = PlayerState::Move;
    p.speed = -640_000;
    let mut input = GameInput::new();
    input.on_key_event(KEY_A, true);
    p.update(args(10_000), &input, &map);
    assert_eq!(p.pos.x, 20_000);
    assert_eq!(p.speed, 0);
    assert_eq!(p.state, PlayerState::Stand);
}

#[test]
fn render_args_pick_current_frame() {
    let p = Player::new(Vector2d { x: 39_000, y: 48_000 });
    let r = p.render_args();
    assert_eq!(r.sprite, "playerRed_stand.png");
    assert_eq!(r.pos, Vector2d { x: 32_000, y: 192_000 });
}

#[test]
fn world_raises_flag_in_its_cell() {
    let mut w = GameWorld::new(640, 448, Vector2d { x: 39_000, y: 48_000 });
    w.player.pos = Vector2d { x: 4 * 64_000 + 32_000, y: 5 * 64_000 };
    w.player.state = PlayerState::Float;
    w.player.action_timer = FLOAT_TIME;
    w.update(GameWorldUpdateArgs { dt: 1_000 });
    assert_eq!(w.map.flag.sprite_name, "flagGreen_up.png");
    assert!(w.map.is_flag_reached);
}

#[test]
fn world_leaves_flag_elsewhere() {
    let mut w = GameWorld::new(640, 448, Vector2d { x: 39_000, y: 48_000 });
    w.update(GameWorldUpdateArgs { dt: 16_667 });
    assert_eq!(w.map.flag.sprite_name, "flagGreen_down.png");
}

#[test]
fn sprite_position_centres_player() {
    let p = Player::new(Vector2d { x: 39_000, y: 48_000 });
    assert_eq!(p.sprite_pos(40_000, 448_000), Vector2d { x: 12_000, y: 208_000 });
}

#[test]
fn raised_flag_stays_raised() {
    let mut map = GameMap::new(TILE_SIZE);
    map.flag_reached();
    assert!(map.is_flag_reached);
    map.flag_reached();
    assert_eq!(map.flag.sprite_name, "flagGreen_up.png");
    assert_eq!((map.flag.rat_x, map.flag.rat_y), (300, -50));
}

#[test]
fn held_key_reaching_zero_speed_stands() {
    let map = GameMap::new(TILE_SIZE);
    let mut p = Player::new(Vector2d { x: 39_000, y: 48_000 });
    p.state = PlayerState::Move;
    p.speed = -640_000;
    let mut input = GameInput::new();
    input.on_key_event(KEY_D, true);
    p.update(args(100_000), &input, &map);
    assert_eq!(p.speed, 0);
    assert_eq!(p.state, PlayerState::Stand);
}

#[test]
fn world_starts_with_the_level() {
    let w = GameWorld::new(640, 448, Vector2d { x: 39_000, y: 48_000 });
    assert_eq!(w.map.tiles.len(), 22);
    assert_eq!(w.map.decorations.len(), 2);
    assert_eq!(w.map.flag.sprite_name, "flagGreen_down.png");
}
