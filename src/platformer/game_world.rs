use crate::geometry::ball::SUBPIXELS;
use crate::geometry::vector2d::Vector2d;
use crate::platformer::constants::TILE_SIZE;
use crate::platformer::map::{
    flag_reached_post, level_decorations, level_tiles, lowered_flag, raised_flag, GameMap,
    GameMapView, TILE_LIMIT,
};
use crate::platformer::player::{Player, PlayerUpdateArgs, TICK_LIMIT};
use crate::utils::entity::Updatable;
use crate::utils::input::{GameInput, KEY_A, KEY_D, KEY_SPACE};
use vstd::prelude::*;

verus! {

/// The platformer's world: the map, the player and the keys held down.
/// The screen is `width` by `height` pixels.
pub struct GameWorld {
    pub width: u32,
    pub height: u32,
    pub player: Player,
    pub input: GameInput,
    pub map: GameMap,
}

pub struct GameWorldUpdateArgs {
    pub dt: i64,
}

impl GameWorld {
    /// The screen's size in subpixels.
    pub open spec fn screen(self) -> Vector2d {
        Vector2d { x: (self.width * SUBPIXELS) as i64, y: (self.height * SUBPIXELS) as i64 }
    }

    /// A new world with the player, `player_size` subpixels large, at its
    /// start point and no key held.
    pub fn new(width: u32, height: u32, player_size: Vector2d) -> (r: GameWorld)
        requires
            0 <= player_size.x <= TILE_LIMIT,
            0 <= player_size.y <= TILE_LIMIT,
        ensures
            r.width == width,
            r.height == height,
            r.player == Player::new_spec(player_size),
            r.input.pressed() == Set::<u32>::empty(),
            r.map@ == (GameMapView {
                tile_size: TILE_SIZE as int,
                tiles: level_tiles(),
                decorations: level_decorations(),
                flag: lowered_flag(),
                is_flag_reached: false,
            }),
            r.map.tile_size == TILE_SIZE,
            !r.map.is_flag_reached,
            r.valid(),
    {
        GameWorld {
            width,
            height,
            player: Player::new(player_size),
            input: GameInput::new(),
            map: GameMap::new(TILE_SIZE),
        }
    }
}

impl Updatable for GameWorld {
    type Args = GameWorldUpdateArgs;

    open spec fn valid(&self) -> bool {
        self.player.wf() && self.map.wf()
    }

    open spec fn update_ready(&self, args: &GameWorldUpdateArgs) -> bool {
        self.valid() && 0 <= args.dt <= TICK_LIMIT
    }

    /// The player takes its tick; when it ends in the flag's cell, the flag
    /// is raised.
    open spec fn update_post(&self, args: &GameWorldUpdateArgs, next: &GameWorld) -> bool {
        let p = self.player.stepped(
            args.dt as int,
            self.input.pressed().contains(KEY_SPACE),
            self.input.pressed().contains(KEY_D),
            self.input.pressed().contains(KEY_A),
            self.screen(),
            self.map,
        );
        &&& next.player == p
        &&& next.width == self.width
        &&& next.height == self.height
        &&& next.input == self.input
        &&& if self.map.cell(p.pos) == (self.map.flag.x, self.map.flag.y) {
            &&& flag_reached_post(self.map@, next.map@)
            &&& next.map.tile_size == self.map.tile_size
            &&& next.map.flag@ == raised_flag(self.map.flag@)
        } else {
            next.map == self.map
        }
    }

    fn update(&mut self, args: GameWorldUpdateArgs) {
        let screen_size = Vector2d {
            x: (self.width as i64) * SUBPIXELS,
            y: (self.height as i64) * SUBPIXELS,
        };
        self.player.update(PlayerUpdateArgs { dt: args.dt, screen_size }, &self.input, &self.map);
        let (player_x, player_y) = self.map.player_pos(self.player.pos);
        if player_x == self.map.flag.x && player_y == self.map.flag.y {
            self.map.flag_reached();
        }
    }
}

} // verus!
