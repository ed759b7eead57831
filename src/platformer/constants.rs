use vstd::prelude::*;

verus! {

/// Animation frames per second of the player sprite.
pub const PLAYER_FPS: i64 = 24;

/// Length of a jump's rise, in microseconds: 12 frames at 60 frames per second.
pub const ASCEND_TIME: i64 = 200_000;

/// Length of the pause at the top of a jump, in microseconds: 1.5 frames at
/// 60 frames per second.
pub const FLOAT_TIME: i64 = 25_000;

/// Height of a full jump, in subpixels: two and a half tiles.
pub const MAX_ASCEND: i64 = 160_000;

/// Falling speed, in subpixels per second: a full jump's height in 8 frames
/// at 60 frames per second.
pub const DESCEND_SPEED: i64 = 1_200_000;

/// Wait after landing before the next jump, in microseconds: 3 frames at 60
/// frames per second.
pub const JUMP_COOL_DOWN: i64 = 50_000;

/// Time to reach full running speed, in microseconds: 6 frames at 60 frames
/// per second.
pub const SPEED_UP_TIME: i64 = 100_000;

/// Running speed, in subpixels per second: ten tiles a second.
pub const MAX_SPEED: i64 = 640_000;

/// Side of a map tile, in subpixels.
pub const TILE_SIZE: i64 = 64_000;

} // verus!
