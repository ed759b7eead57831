pub mod entity;
pub mod fps_counter;
pub mod input;
pub mod sprite_sheet;
