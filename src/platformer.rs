pub mod constants;
pub mod game_world;
pub mod map;
pub mod player;
