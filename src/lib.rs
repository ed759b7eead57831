pub mod bouncing_balls;
pub mod geometry;
pub mod platformer;
pub mod simple_balls;
pub mod sprite_animation;
pub mod sprite_sheet;
pub mod utils;
