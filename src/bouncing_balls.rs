use crate::geometry::ball::{Ball, BallSettings, BallUpdateArgs, DT_LIMIT, MAX_BALLS, SUBPIXELS};
use crate::utils::entity::Updatable;
use vstd::prelude::*;

verus! {

/// Width of the area in which balls start, in pixels.
pub const WIDTH: u32 = 1280;

/// Height of the area in which balls start, in pixels.
pub const HEIGHT: u32 = 720;

/// How many balls a scene holds.
pub const BALL_COUNT: u32 = 100;

/// A copy of the balls as they stand.
pub fn snapshot(balls: &Vec<Ball>) -> (r: Vec<Ball>)
    ensures
        r@ == balls@,
{
    let mut r: Vec<Ball> = Vec::new();
    let mut i: usize = 0;
    while i < balls.len()
        invariant
            i <= balls.len(),
            r@ == balls@.take(i as int),
        decreases balls.len() - i,
    {
        r.push(balls[i]);
        i += 1;
        assert(r@ =~= balls@.take(i as int));
    }
    assert(balls@.take(balls.len() as int) =~= balls@);
    r
}

/// The ball lies in the ranges of `settings`, each one including its low
/// end and leaving out its high end unless the range is a single point.
pub open spec fn in_ranges(b: Ball, settings: BallSettings) -> bool {
    &&& settings.min_velocity <= b.velocity.speed <= settings.max_velocity
    &&& settings.min_radius <= b.radius <= settings.max_radius
    &&& 0 <= b.pos.x <= settings.max_x
    &&& 0 <= b.pos.y <= settings.max_y
    &&& settings.min_velocity < settings.max_velocity ==> b.velocity.speed < settings.max_velocity
    &&& settings.min_radius < settings.max_radius ==> b.radius < settings.max_radius
    &&& 0 < settings.max_x ==> b.pos.x < settings.max_x
    &&& 0 < settings.max_y ==> b.pos.y < settings.max_y
}

/// A new scene's ball: 500 to 1000 pixels per second, a radius of 10 to 20
/// pixels, a position within `WIDTH` by `HEIGHT` pixels, and a direction of
/// unit length.
pub open spec fn fresh_ball(b: Ball) -> bool {
    &&& b.wf()
    &&& 500_000 <= b.velocity.speed < 1_000_000
    &&& 10_000 <= b.radius < 20_000
    &&& 0 <= b.pos.x < 1_280_000
    &&& 0 <= b.pos.y < 720_000
}

/// `BALL_COUNT` balls with identities 0, 1, ..., drawn from `settings`.
pub fn spawn_balls(settings: BallSettings) -> (r: Vec<Ball>)
    requires
        settings.valid(),
    ensures
        r@.len() == BALL_COUNT,
        forall|k: int|
            0 <= k < r@.len() ==> (#[trigger] r@[k]).wf() && r@[k].id == k && in_ranges(
                r@[k],
                settings,
            ),
{
    let mut r: Vec<Ball> = Vec::new();
    let mut id: u32 = 0;
    while id < BALL_COUNT
        invariant
            settings.valid(),
            id <= BALL_COUNT,
            r@.len() == id,
            forall|k: int|
                0 <= k < r@.len() ==> (#[trigger] r@[k]).wf() && r@[k].id == k && in_ranges(
                    r@[k],
                    settings,
                ),
        decreases BALL_COUNT - id,
    {
        let b = settings.build(id);
        r.push(b);
        id += 1;
    }
    r
}

/// Every ball is sound and there are few enough of them for one tick.
pub open spec fn balls_valid(balls: Seq<Ball>) -> bool {
    balls.len() <= MAX_BALLS && forall|k: int| 0 <= k < balls.len() ==> (#[trigger] balls[k]).wf()
}

/// The balls after the first `k` of them have taken their tick, each one
/// against the balls as they stand just before its turn.
pub open spec fn colliding_tick(balls: Seq<Ball>, k: nat, dt: int, width: int, height: int) -> Seq<
    Ball,
>
    decreases k,
{
    if k == 0 {
        balls
    } else {
        let prev = colliding_tick(balls, (k - 1) as nat, dt, width, height);
        prev.update(k - 1, prev[k - 1].stepped(dt, width, height, Some(prev)))
    }
}

/// Balls that move, bounce off the walls and bounce off each other.
pub struct BouncingBalls {
    pub balls: Vec<Ball>,
    pub width: u32,
    pub height: u32,
}

impl BouncingBalls {
    pub open spec fn wf(self) -> bool {
        balls_valid(self.balls@)
    }

    /// A scene of `BALL_COUNT` random balls in a container of `width` by
    /// `height` pixels.
    pub fn new(width: u32, height: u32) -> (r: BouncingBalls)
        ensures
            r.wf(),
            r.width == width,
            r.height == height,
            r.balls@.len() == BALL_COUNT,
            forall|k: int|
                0 <= k < r.balls@.len() ==> (#[trigger] r.balls@[k]).id == k && fresh_ball(
                    r.balls@[k],
                ),
    {
        let settings = BallSettings::new().set_max_pos(
            (WIDTH as i64) * SUBPIXELS,
            (HEIGHT as i64) * SUBPIXELS,
        );
        BouncingBalls { balls: spawn_balls(settings), width, height }
    }

    /// One tick of `dt` microseconds: each ball in turn moves, bounces off
    /// the walls and responds to the balls that it touches.
    pub fn update(&mut self, dt: u64)
        requires
            old(self).wf(),
            dt <= DT_LIMIT,
        ensures
            final(self).wf(),
            final(self).balls@ == colliding_tick(
                old(self).balls@,
                old(self).balls@.len(),
                dt as int,
                old(self).width as int,
                old(self).height as int,
            ),
            final(self).width == old(self).width,
            final(self).height == old(self).height,
    {
        let n = self.balls.len();
        let ghost start = self.balls@;
        let mut i: usize = 0;
        while i < n
            invariant
                i <= n == self.balls.len(),
                start.len() == n,
                start == old(self).balls@,
                self.width == old(self).width,
                self.height == old(self).height,
                balls_valid(self.balls@),
                self.balls@ == colliding_tick(
                    start,
                    i as nat,
                    dt as int,
                    self.width as int,
                    self.height as int,
                ),
                dt <= DT_LIMIT,
            decreases n - i,
        {
            let others = snapshot(&self.balls);
            let mut ball = self.balls[i];
            let args = BallUpdateArgs {
                dt,
                width: self.width,
                height: self.height,
                balls: Some(others),
            };
            ball.update(args);
            self.balls.set(i, ball);
            i += 1;
        }
    }

    pub fn on_resize(&mut self, new_width: u32, new_height: u32)
        ensures
            final(self).width == new_width,
            final(self).height == new_height,
            final(self).balls@ == old(self).balls@,
    {
        self.width = new_width;
        self.height = new_height;
    }
}

} // verus!
