use crate::bouncing_balls::{balls_valid, fresh_ball, spawn_balls, BALL_COUNT, HEIGHT, WIDTH};
use crate::geometry::ball::{Ball, BallSettings, BallUpdateArgs, DT_LIMIT, SUBPIXELS};
use crate::utils::entity::Updatable;
use vstd::prelude::*;

verus! {

/// Balls that move and bounce off the walls, passing through each other.
pub struct SimpleBalls {
    pub balls: Vec<Ball>,
    pub width: u32,
    pub height: u32,
}

impl SimpleBalls {
    pub open spec fn wf(self) -> bool {
        balls_valid(self.balls@)
    }

    /// A scene of `BALL_COUNT` random balls in a container of `width` by
    /// `height` pixels.
    pub fn new(width: u32, height: u32) -> (r: SimpleBalls)
        ensures
            r.wf(),
            r.width == width,
            r.height == height,
            r.balls@.len() == BALL_COUNT,
            forall|k: int|
                0 <= k < r.balls@.len() ==> (#[trigger] r.balls@[k]).id == k && fresh_ball(
                    r.balls@[k],
                ),
    {
        let settings = BallSettings::new().set_max_pos(
            (WIDTH as i64) * SUBPIXELS,
            (HEIGHT as i64) * SUBPIXELS,
        );
        SimpleBalls { balls: spawn_balls(settings), width, height }
    }

    /// One tick of `dt` microseconds: each ball moves and bounces off the
    /// walls, on its own.
    pub fn update(&mut self, dt: u64)
        requires
            old(self).wf(),
            dt <= DT_LIMIT,
        ensures
            final(self).wf(),
            final(self).balls@.len() == old(self).balls@.len(),
            forall|k: int|
                0 <= k < old(self).balls@.len() ==> (#[trigger] final(self).balls@[k]) == old(
                    self,
                ).balls@[k].stepped(dt as int, old(self).width as int, old(self).height as int, None),
            final(self).width == old(self).width,
            final(self).height == old(self).height,
    {
        let n = self.balls.len();
        let ghost start = self.balls@;
        let mut i: usize = 0;
        while i < n
            invariant
                i <= n == self.balls.len(),
                start.len() == n,
                start == old(self).balls@,
                self.width == old(self).width,
                self.height == old(self).height,
                balls_valid(self.balls@),
                forall|k: int|
                    0 <= k < i ==> (#[trigger] self.balls@[k]) == start[k].stepped(
                        dt as int,
                        self.width as int,
                        self.height as int,
                        None,
                    ),
                forall|k: int| i <= k < n ==> (#[trigger] self.balls@[k]) == start[k],
                dt <= DT_LIMIT,
            decreases n - i,
        {
            let mut ball = self.balls[i];
            let args = BallUpdateArgs { dt, width: self.width, height: self.height, balls: None };
            ball.update(args);
            self.balls.set(i, ball);
            i += 1;
        }
    }

    pub fn on_resize(&mut self, new_width: u32, new_height: u32)
        ensures
            final(self).width == new_width,
            final(self).height == new_height,
            final(self).balls@ == old(self).balls@,
    {
        self.width = new_width;
        self.height = new_height;
    }
}

} // verus!
