use crate::platformer::player::PlayerState;
use vstd::prelude::*;

verus! {

/// Frames per second of the walk animation.
pub const PLAYER_WALK_FPS: i64 = 24;

/// Frames of the walk animation.
pub const PLAYER_WALK_FRAMES: u32 = 4;

/// Scrolling speed of the scenery, in subpixels per second.
pub const SCREEN_MOVE_PER_SECOND: i64 = 192_000;

/// Where the plant leaves the screen on the left, in subpixels.
pub const PLANT_EXIT: i64 = -44_000;

/// Bound on the plant's position, in subpixels: past any screen width.
pub const PLANT_LIMIT: i64 = 8_796_093_022_208;

/// Longest tick, in microseconds.
pub const FRAME_DT_LIMIT: i64 = 1_073_741_824;

/// A player walking on the spot while the plant scrolls past, on a screen
/// `width` pixels wide. Times are in microseconds, `plant_x` in subpixels.
pub struct WalkAnimation {
    pub width: u32,
    pub player_frame: u32,
    pub frame_timer: i64,
    pub plant_x: i64,
}

impl WalkAnimation {
    pub open spec fn wf(self) -> bool {
        &&& self.player_frame < PLAYER_WALK_FRAMES
        &&& 0 <= self.frame_timer
        &&& self.frame_timer * PLAYER_WALK_FPS < 1_000_000
        &&& PLANT_EXIT < self.plant_x <= PLANT_LIMIT
    }

    /// The plant's position after `dt`: it scrolls left and comes back at
    /// the right edge once it is out of sight.
    pub open spec fn plant_after(self, dt: int) -> int {
        let x = self.plant_x - SCREEN_MOVE_PER_SECOND * dt / 1_000_000;
        if x <= PLANT_EXIT {
            self.width * 1000
        } else {
            x
        }
    }

    pub fn new(width: u32) -> (r: WalkAnimation)
        ensures
            r.wf(),
            r.width == width,
            r.player_frame == 0,
            r.frame_timer == 0,
            r.plant_x == 106_000,
    {
        WalkAnimation { width, player_frame: 0, frame_timer: 0, plant_x: 106_000 }
    }

    /// Advances the walk by one frame each `1 / PLAYER_WALK_FPS` second and
    /// scrolls the plant.
    pub fn update(&mut self, dt: i64)
        requires
            old(self).wf(),
            0 <= dt <= FRAME_DT_LIMIT,
        ensures
            final(self).wf(),
            final(self).width == old(self).width,
            final(self).plant_x == old(self).plant_after(dt as int),
            (old(self).frame_timer + dt) * PLAYER_WALK_FPS >= 1_000_000 ==> final(self).player_frame
                == (old(self).player_frame + 1) % (PLAYER_WALK_FRAMES as int) && final(self).frame_timer
                == 0,
            (old(self).frame_timer + dt) * PLAYER_WALK_FPS < 1_000_000 ==> final(self).player_frame
                == old(self).player_frame && final(self).frame_timer == old(self).frame_timer + dt,
    {
        let t = self.frame_timer + dt;
        if t * PLAYER_WALK_FPS >= 1_000_000 {
            self.player_frame = (self.player_frame + 1) % PLAYER_WALK_FRAMES;
            self.frame_timer = 0;
        } else {
            self.frame_timer = t;
        }
        proof {
            assert(0 <= SCREEN_MOVE_PER_SECOND * dt <= SCREEN_MOVE_PER_SECOND * FRAME_DT_LIMIT)
                by (nonlinear_arith)
                requires
                    0 <= dt <= FRAME_DT_LIMIT,
            ;
            vstd::arithmetic::div_mod::lemma_div_pos_is_pos(SCREEN_MOVE_PER_SECOND * dt, 1_000_000);
            vstd::arithmetic::div_mod::lemma_div_is_ordered(
                SCREEN_MOVE_PER_SECOND * dt,
                SCREEN_MOVE_PER_SECOND * FRAME_DT_LIMIT,
                1_000_000,
            );
        }
        let x = self.plant_x - SCREEN_MOVE_PER_SECOND * dt / 1_000_000;
        self.plant_x = if x <= PLANT_EXIT {
            (self.width as i64) * 1000
        } else {
            x
        };
    }

    /// The sprite of the walk's current frame.
    pub fn walk_frame(&self) -> (r: String)
        requires
            self.wf(),
        ensures
            r@ == PlayerState::Move.frame_names()[self.player_frame as int],
    {
        let frames = PlayerState::Move.frames();
        assert(PlayerState::Move.frame_names().len() == 4);
        assert(frames@.map_values(|s: String| s@).len() == frames@.len());
        let f = frames[self.player_frame as usize].clone();
        assert(frames@.map_values(|s: String| s@)[self.player_frame as int]
            == frames@[self.player_frame as int]@);
        f
    }
}

} // verus!
