use crate::geometry::vector2d::{
    abs, div_toward_zero, floor_sqrt, lemma_floor_sqrt, tdiv, Vector2d, DIR_ONE, REFLECT_LIMIT,
};
use crate::geometry::velocity::{lemma_unit_within, Velocity};
use crate::utils::entity::Updatable;
use vstd::prelude::*;

verus! {

/// Subpixels in one pixel: positions and radii are kept in subpixels.
pub const SUBPIXELS: i64 = 1000;

/// Microseconds in one second: time steps are given in microseconds.
pub const MICROS: i64 = 1_000_000;

/// Largest radius, in subpixels.
pub const RADIUS_LIMIT: i64 = 1_073_741_824;

/// Largest speed, in subpixels per second.
pub const SPEED_LIMIT: i64 = 4_294_967_296;

/// Longest time step, in microseconds.
pub const DT_LIMIT: u64 = 1_073_741_824;

/// Bound on the coordinates of a ball between ticks.
pub const POS_LIMIT: i64 = 1_125_899_906_842_624;

/// Bound on the distance covered in one move, and on a ball's coordinates
/// right after its wall check.
pub const STEP_LIMIT: i64 = 8_796_093_022_208;

/// Bound on how far one collision pushes a ball back.
pub const PUSH_LIMIT: i64 = 4_294_967_296;

/// Most balls that one tick resolves collisions against.
pub const MAX_BALLS: usize = 65536;

#[derive(Copy, Clone, Debug, PartialEq, Eq, Structural)]
pub struct Color {
    pub r: u8,
    pub g: u8,
    pub b: u8,
    pub a: u8,
}

#[derive(Copy, Clone, Debug, PartialEq, Eq, Structural)]
pub struct Ball {
    pub id: u32,
    pub velocity: Velocity,
    pub pos: Vector2d,
    pub radius: i64,
    pub color: Color,
}

/// One coordinate after it is kept off the far wall.
pub open spec fn off_far_wall(p: int, r: int, w: int) -> int {
    if p >= w - r {
        w - r
    } else {
        p
    }
}

/// One coordinate after the check against the walls at `r` and `w - r`.
pub open spec fn wall_axis_pos(p: int, r: int, w: int) -> int {
    if off_far_wall(p, r, w) < r {
        r
    } else {
        off_far_wall(p, r, w)
    }
}

/// One direction component after the check against the walls at `r` and
/// `w - r`: each wall that is hit flips it.
pub open spec fn wall_axis_dir(p: int, r: int, w: int, d: int) -> int {
    let d1 = if p >= w - r {
        -d
    } else {
        d
    };
    if off_far_wall(p, r, w) < r {
        -d1
    } else {
        d1
    }
}

pub open spec fn dist_sq(a: Vector2d, b: Vector2d) -> int {
    (a.x - b.x) * (a.x - b.x) + (a.y - b.y) * (a.y - b.y)
}

pub struct BallUpdateArgs {
    pub dt: u64,
    pub width: u32,
    pub height: u32,
    pub balls: Option<Vec<Ball>>,
}

impl Ball {
    pub open spec fn wf(self) -> bool {
        &&& 0 < self.radius <= RADIUS_LIMIT
        &&& 0 <= self.velocity.speed <= SPEED_LIMIT
        &&& self.velocity.dir.is_unit()
        &&& self.pos.within(POS_LIMIT as int)
    }

    /// The ball after moving for `dt` microseconds.
    pub open spec fn moved(self, dt: int) -> Ball {
        Ball {
            pos: Vector2d {
                x: (self.pos.x + tdiv(
                    dt * (self.velocity.speed * self.velocity.dir.x),
                    MICROS * DIR_ONE,
                )) as i64,
                y: (self.pos.y + tdiv(
                    dt * (self.velocity.speed * self.velocity.dir.y),
                    MICROS * DIR_ONE,
                )) as i64,
            },
            ..self
        }
    }

    /// The ball after the wall check in a container of `width` by `height`
    /// pixels.
    pub open spec fn wall_bounced(self, width: int, height: int) -> Ball {
        let w = width * SUBPIXELS;
        let h = height * SUBPIXELS;
        Ball {
            pos: Vector2d {
                x: wall_axis_pos(self.pos.x as int, self.radius as int, w) as i64,
                y: wall_axis_pos(self.pos.y as int, self.radius as int, h) as i64,
            },
            velocity: Velocity {
                dir: Vector2d {
                    x: wall_axis_dir(
                        self.pos.x as int,
                        self.radius as int,
                        w,
                        self.velocity.dir.x as int,
                    ) as i64,
                    y: wall_axis_dir(
                        self.pos.y as int,
                        self.radius as int,
                        h,
                        self.velocity.dir.y as int,
                    ) as i64,
                },
                speed: self.velocity.speed,
            },
            ..self
        }
    }

    /// Two distinct balls touch or overlap.
    pub open spec fn collides(self, b: Ball) -> bool {
        b.id != self.id && dist_sq(self.pos, b.pos) <= (b.radius + self.radius) * (b.radius
            + self.radius)
    }

    /// How far the balls overlap, as a non-positive number.
    pub open spec fn penetration(self, b: Ball) -> int {
        floor_sqrt(dist_sq(self.pos, b.pos) as nat) - (self.radius + b.radius)
    }

    /// The ball pushed along its own direction by its overlap with `b`.
    pub open spec fn pushed(self, b: Ball) -> Ball {
        Ball {
            pos: Vector2d {
                x: (self.pos.x + tdiv(self.velocity.dir.x * self.penetration(b), DIR_ONE as int))
                    as i64,
                y: (self.pos.y + tdiv(self.velocity.dir.y * self.penetration(b), DIR_ONE as int))
                    as i64,
            },
            ..self
        }
    }

    /// The ball after its collision response to `b`: pushed back, then its
    /// direction mirrored at the line from it to `b`.
    pub open spec fn collided(self, b: Ball) -> Ball {
        let p = self.pushed(b);
        let n = Vector2d {
            x: (b.pos.x - p.pos.x) as i64,
            y: (b.pos.y - p.pos.y) as i64,
        }.normalized();
        Ball { velocity: Velocity { dir: p.velocity.bounced(n), speed: p.velocity.speed }, ..p }
    }

    /// The ball after its collision responses to each of `others`, in order.
    pub open spec fn collide_all(self, others: Seq<Ball>) -> Ball
        decreases others.len(),
    {
        if others.len() == 0 {
            self
        } else {
            let b = self.collide_all(others.drop_last());
            if b.collides(others.last()) {
                b.collided(others.last())
            } else {
                b
            }
        }
    }

    /// One tick: move, wall check, then, when the other balls are given,
    /// the collision response to each of them in order.
    pub open spec fn stepped(self, dt: int, width: int, height: int, others: Option<Seq<Ball>>) -> Ball {
        let w = self.moved(dt).wall_bounced(width, height);
        match others {
            Some(s) => w.collide_all(s),
            None => w,
        }
    }

    pub fn mv(&mut self, delta_time: u64)
        requires
            old(self).wf(),
            delta_time <= DT_LIMIT,
        ensures
            *final(self) == old(self).moved(delta_time as int),
            final(self).pos.within(POS_LIMIT + STEP_LIMIT),
    {
        proof {
            lemma_unit_within(self.velocity.dir);
            lemma_move_bound(delta_time as int, self.velocity.speed as int, self.velocity.dir.x as int);
            lemma_move_bound(delta_time as int, self.velocity.speed as int, self.velocity.dir.y as int);
        }
        let scale = (MICROS as i128) * (DIR_ONE as i128);
        let dx = div_toward_zero((delta_time as i128) * self.velocity.x(), scale);
        let dy = div_toward_zero((delta_time as i128) * self.velocity.y(), scale);
        self.pos.x = ((self.pos.x as i128) + dx) as i64;
        self.pos.y = ((self.pos.y as i128) + dy) as i64;
    }

    /// Keeps the ball inside a container of `width` by `height` pixels,
    /// flipping the direction across each wall that it reached.
    pub fn update_wall_collision(&mut self, width: u32, height: u32)
        requires
            old(self).pos.within(POS_LIMIT + STEP_LIMIT),
            0 < old(self).radius <= RADIUS_LIMIT,
            old(self).velocity.dir.within(DIR_ONE + 1),
        ensures
            *final(self) == old(self).wall_bounced(width as int, height as int),
            final(self).velocity.dir.len_sq() == old(self).velocity.dir.len_sq(),
            final(self).pos.within(STEP_LIMIT as int),
            2 * old(self).radius <= width * SUBPIXELS ==> old(self).radius <= final(self).pos.x
                <= width * SUBPIXELS - old(self).radius,
            2 * old(self).radius <= height * SUBPIXELS ==> old(self).radius <= final(self).pos.y
                <= height * SUBPIXELS - old(self).radius,
    {
        let w = (width as i64) * SUBPIXELS;
        let h = (height as i64) * SUBPIXELS;
        if self.pos.x >= w - self.radius {
            self.pos.x = w - self.radius;
            self.velocity.negate_x();
        }
        if self.pos.x < self.radius {
            self.pos.x = self.radius;
            self.velocity.negate_x();
        }
        if self.pos.y >= h - self.radius {
            self.pos.y = h - self.radius;
            self.velocity.negate_y();
        }
        if self.pos.y < self.radius {
            self.pos.y = self.radius;
            self.velocity.negate_y();
        }
    }

    /// Whether `b` is another ball that touches or overlaps this one.
    pub fn collides_with_ball(self, b: &Ball) -> (r: bool)
        requires
            self.pos.within(POS_LIMIT as int),
            b.pos.within(POS_LIMIT as int),
            0 < self.radius <= RADIUS_LIMIT,
            0 < b.radius <= RADIUS_LIMIT,
        ensures
            r == self.collides(*b),
    {
        if b.id == self.id {
            return false;
        }
        let dif = self.pos.sub(b.pos);
        let rr = (b.radius as i128) + (self.radius as i128);
        proof {
            lemma_radius_square(rr as int);
        }
        dif.length_squared() <= (rr * rr) as u128
    }

    /// Responds to a collision with `b`.
    fn collide_with(&mut self, b: &Ball)
        requires
            old(self).collides(*b),
            old(self).pos.within(POS_LIMIT as int),
            b.pos.within(POS_LIMIT as int),
            0 < old(self).radius <= RADIUS_LIMIT,
            0 < b.radius <= RADIUS_LIMIT,
            old(self).velocity.dir.is_unit(),
        ensures
            *final(self) == old(self).collided(*b),
            final(self).velocity.dir.is_unit(),
            abs(final(self).pos.x - old(self).pos.x) <= PUSH_LIMIT,
            abs(final(self).pos.y - old(self).pos.y) <= PUSH_LIMIT,
    {
        let ghost start = *self;
        proof {
            lemma_square_sum_nonneg(self.pos.x - b.pos.x, self.pos.y - b.pos.y);
            lemma_sqrt_le(dist_sq(self.pos, b.pos), (self.radius + b.radius) as int);
        }
        let dist = self.pos.sub(b.pos).length() as i64;
        proof {
            lemma_unit_within(self.velocity.dir);
            lemma_push_bound(self.velocity.dir.x as int, dist - (self.radius + b.radius));
            lemma_push_bound(self.velocity.dir.y as int, dist - (self.radius + b.radius));
        }
        let d = dist - (self.radius + b.radius);
        let one = DIR_ONE as i128;
        let sx = div_toward_zero((self.velocity.dir.x as i128) * (d as i128), one) as i64;
        let sy = div_toward_zero((self.velocity.dir.y as i128) * (d as i128), one) as i64;
        self.pos.x = self.pos.x + sx;
        self.pos.y = self.pos.y + sy;
        assert(*self == start.pushed(*b));
        let mut n = b.pos.sub(self.pos);
        n.normalize();
        proof {
            if !n.is_zero() {
                lemma_unit_within(n);
            }
        }
        self.velocity.reflect(&n);
    }
}

impl Updatable for Ball {
    type Args = BallUpdateArgs;

    open spec fn valid(&self) -> bool {
        self.wf()
    }

    open spec fn update_ready(&self, args: &BallUpdateArgs) -> bool {
        &&& self.wf()
        &&& args.dt <= DT_LIMIT
        &&& match args.balls {
            Some(v) => v.len() <= MAX_BALLS && forall|k: int|
                0 <= k < v.len() ==> (#[trigger] v[k]).wf(),
            None => true,
        }
    }

    open spec fn update_post(&self, args: &BallUpdateArgs, next: &Ball) -> bool {
        *next == match args.balls {
            Some(v) => self.stepped(args.dt as int, args.width as int, args.height as int, Some(v@)),
            None => self.stepped(args.dt as int, args.width as int, args.height as int, None),
        }
    }

    /// Moves the ball, keeps it inside the container and, when the other
    /// balls are given, responds to each one that it touches.
    fn update(&mut self, args: BallUpdateArgs) {
        self.mv(args.dt);
        proof {
            lemma_unit_within(self.velocity.dir);
        }
        self.update_wall_collision(args.width, args.height);
        let ghost after_wall = *self;
        match args.balls {
            Some(balls) => {
                let mut j: usize = 0;
                while j < balls.len()
                    invariant
                        j <= balls.len() <= MAX_BALLS,
                        forall|k: int| 0 <= k < balls.len() ==> (#[trigger] balls[k]).wf(),
                        0 < self.radius <= RADIUS_LIMIT,
                        0 <= self.velocity.speed <= SPEED_LIMIT,
                        self.velocity.dir.is_unit(),
                        self.pos.within(STEP_LIMIT + j * PUSH_LIMIT),
                        *self == after_wall.collide_all(balls@.take(j as int)),
                    decreases balls.len() - j,
                {
                    let b = balls[j];
                    if self.collides_with_ball(&b) {
                        self.collide_with(&b);
                    }
                    proof {
                        assert(balls@.take(j + 1).drop_last() =~= balls@.take(j as int));
                        assert(balls@.take(j + 1).last() == b);
                    }
                    j += 1;
                }
                assert(balls@.take(balls.len() as int) =~= balls@);
            },
            None => {},
        }
    }
}

/// After a tick that leaves out collisions, a ball lies within its radius
/// of no wall of a container at least one diameter wide and high.
pub proof fn lemma_tick_stays_inside(b: Ball, dt: int, width: u32, height: u32)
    requires
        b.wf(),
        2 * b.radius <= width * SUBPIXELS,
        2 * b.radius <= height * SUBPIXELS,
    ensures
        b.radius <= b.stepped(dt, width as int, height as int, None).pos.x <= width * SUBPIXELS
            - b.radius,
        b.radius <= b.stepped(dt, width as int, height as int, None).pos.y <= height * SUBPIXELS
            - b.radius,
{
}

/// Ranges from which `BallSettings::build` draws a ball: speeds in
/// subpixels per second, positions and radii in subpixels.
#[derive(Copy, Clone, Debug, PartialEq, Eq, Structural)]
pub struct BallSettings {
    pub min_velocity: i64,
    pub max_velocity: i64,
    pub max_x: i64,
    pub max_y: i64,
    pub min_radius: i64,
    pub max_radius: i64,
    pub color: Option<Color>,
}

/// The random numbers that decide one ball. Each `u32` stands for the
/// fraction `r / 2^32` of its range.
#[derive(Copy, Clone, Debug, PartialEq, Eq, Structural)]
pub struct BallDraws {
    pub dir_x: u32,
    pub dir_y: u32,
    pub speed: u32,
    pub x: u32,
    pub y: u32,
    pub radius: u32,
    pub color: Color,
}

/// The point at fraction `r / 2^32` of the range from `lo` to `hi`.
pub open spec fn sample(r: int, lo: int, hi: int) -> int {
    lo + r * (hi - lo) / 0x1_0000_0000
}

fn sample_range(r: u32, lo: i64, hi: i64) -> (v: i64)
    requires
        -POS_LIMIT <= lo <= hi <= POS_LIMIT,
    ensures
        v == sample(r as int, lo as int, hi as int),
        lo <= v <= hi,
        lo < hi ==> v < hi,
{
    let span = (hi as i128) - (lo as i128);
    proof {
        lemma_sample(r as int, span as int);
    }
    ((lo as i128) + ((r as i128) * span) / 0x1_0000_0000) as i64
}

proof fn lemma_sample(r: int, span: int)
    requires
        0 <= r < 0x1_0000_0000,
        0 <= span <= 2 * POS_LIMIT,
    ensures
        0 <= r * span <= 0x1_0000_0000 * span,
        0 <= r * span / 0x1_0000_0000 <= span,
        span > 0 ==> r * span / 0x1_0000_0000 < span,
{
    assert(0 <= r * span <= 0x1_0000_0000 * span) by (nonlinear_arith)
        requires
            0 <= r < 0x1_0000_0000,
            0 <= span,
    ;
    if span > 0 {
        assert(r * span < 0x1_0000_0000 * span) by (nonlinear_arith)
            requires
                0 <= r < 0x1_0000_0000,
                0 < span,
        ;
    }
}

/// Relies on rand::random: a value drawn from the thread-local generator.
/// Nothing is promised of the value. It panics only if the operating
/// system's entropy source fails.
pub assume_specification<T>[ rand::random::<T> ]() -> (r: T)
    where
        rand::distributions::Standard: rand::distributions::Distribution<T>,
;

impl BallSettings {
    /// The ranges are well ordered and fit the ball's bounds.
    pub open spec fn valid(self) -> bool {
        &&& 0 <= self.min_velocity <= self.max_velocity <= SPEED_LIMIT
        &&& 0 <= self.max_x <= STEP_LIMIT
        &&& 0 <= self.max_y <= STEP_LIMIT
        &&& 0 < self.min_radius <= self.max_radius <= RADIUS_LIMIT
    }

    /// The direction drawn before it is brought to unit length.
    pub open spec fn raw_dir(draws: BallDraws) -> Vector2d {
        Vector2d {
            x: sample(draws.dir_x as int, -DIR_ONE, DIR_ONE as int) as i64,
            y: sample(draws.dir_y as int, -DIR_ONE, DIR_ONE as int) as i64,
        }
    }

    /// The ball that `build_from` makes of `draws`.
    pub open spec fn built(self, id: u32, draws: BallDraws) -> Ball {
        let raw = Self::raw_dir(draws);
        Ball {
            id,
            velocity: Velocity {
                dir: if raw.is_zero() {
                    Vector2d { x: DIR_ONE, y: 0 }
                } else {
                    raw.normalized()
                },
                speed: sample(
                    draws.speed as int,
                    self.min_velocity as int,
                    self.max_velocity as int,
                ) as i64,
            },
            pos: Vector2d {
                x: sample(draws.x as int, 0, self.max_x as int) as i64,
                y: sample(draws.y as int, 0, self.max_y as int) as i64,
            },
            radius: sample(draws.radius as int, self.min_radius as int, self.max_radius as int)
                as i64,
            color: match self.color {
                Some(c) => c,
                None => draws.color,
            },
        }
    }

    /// Speeds of 500 to 1000 pixels per second, positions within 100 by 100
    /// pixels, radii of 10 to 20 pixels, random colors.
    pub fn new() -> (r: BallSettings)
        ensures
            r.valid(),
            r.min_velocity == 500 * SUBPIXELS,
            r.max_velocity == 1000 * SUBPIXELS,
            r.max_x == 100 * SUBPIXELS,
            r.max_y == 100 * SUBPIXELS,
            r.min_radius == 10 * SUBPIXELS,
            r.max_radius == 20 * SUBPIXELS,
            r.color.is_none(),
    {
        BallSettings {
            min_velocity: 500 * SUBPIXELS,
            max_velocity: 1000 * SUBPIXELS,
            max_x: 100 * SUBPIXELS,
            max_y: 100 * SUBPIXELS,
            min_radius: 10 * SUBPIXELS,
            max_radius: 20 * SUBPIXELS,
            color: None,
        }
    }

    pub fn set_velocity(self, min: i64, max: i64) -> (r: BallSettings)
        ensures
            r == (BallSettings { min_velocity: min, max_velocity: max, ..self }),
    {
        BallSettings { min_velocity: min, max_velocity: max, ..self }
    }

    pub fn set_max_pos(self, x: i64, y: i64) -> (r: BallSettings)
        ensures
            r == (BallSettings { max_x: x, max_y: y, ..self }),
    {
        BallSettings { max_x: x, max_y: y, ..self }
    }

    pub fn set_radius(self, min: i64, max: i64) -> (r: BallSettings)
        ensures
            r == (BallSettings { min_radius: min, max_radius: max, ..self }),
    {
        BallSettings { min_radius: min, max_radius: max, ..self }
    }

    pub fn set_color(self, color: Color) -> (r: BallSettings)
        ensures
            r == (BallSettings { color: Some(color), ..self }),
    {
        BallSettings { color: Some(color), ..self }
    }

    /// The ball with identity `id` that the random numbers `draws` decide.
    pub fn build_from(self, id: u32, draws: BallDraws) -> (r: Ball)
        requires
            self.valid(),
        ensures
            r == self.built(id, draws),
            r.wf(),
            r.id == id,
            self.min_velocity <= r.velocity.speed <= self.max_velocity,
            self.min_radius <= r.radius <= self.max_radius,
            0 <= r.pos.x <= self.max_x,
            0 <= r.pos.y <= self.max_y,
            self.min_velocity < self.max_velocity ==> r.velocity.speed < self.max_velocity,
            self.min_radius < self.max_radius ==> r.radius < self.max_radius,
            0 < self.max_x ==> r.pos.x < self.max_x,
            0 < self.max_y ==> r.pos.y < self.max_y,
    {
        let mut dir = Vector2d {
            x: sample_range(draws.dir_x, -DIR_ONE, DIR_ONE),
            y: sample_range(draws.dir_y, -DIR_ONE, DIR_ONE),
        };
        if dir.x == 0 && dir.y == 0 {
            dir = Vector2d { x: DIR_ONE, y: 0 };
            assert(dir.is_unit()) by (nonlinear_arith)
                requires
                    dir.x == 1_000_000,
                    dir.y == 0,
            ;
        } else {
            dir.normalize();
        }
        let color = match self.color {
            Some(c) => c,
            None => draws.color,
        };
        Ball {
            id,
            velocity: Velocity {
                dir,
                speed: sample_range(draws.speed, self.min_velocity, self.max_velocity),
            },
            pos: Vector2d { x: sample_range(draws.x, 0, self.max_x), y: sample_range(draws.y, 0, self.max_y) },
            radius: sample_range(draws.radius, self.min_radius, self.max_radius),
            color,
        }
    }

    /// A ball with identity `id` drawn at random from the ranges.
    pub fn build(self, id: u32) -> (r: Ball)
        requires
            self.valid(),
        ensures
            r.wf(),
            r.id == id,
            self.min_velocity <= r.velocity.speed <= self.max_velocity,
            self.min_radius <= r.radius <= self.max_radius,
            0 <= r.pos.x <= self.max_x,
            0 <= r.pos.y <= self.max_y,
            self.min_velocity < self.max_velocity ==> r.velocity.speed < self.max_velocity,
            self.min_radius < self.max_radius ==> r.radius < self.max_radius,
            0 < self.max_x ==> r.pos.x < self.max_x,
            0 < self.max_y ==> r.pos.y < self.max_y,
            self.color.is_some() ==> r.color == self.color.unwrap(),
            exists|d: BallDraws| d.color.a == 255 && r == self.built(id, d),
    {
        let draws = BallDraws {
            dir_x: rand::random::<u32>(),
            dir_y: rand::random::<u32>(),
            speed: rand::random::<u32>(),
            x: rand::random::<u32>(),
            y: rand::random::<u32>(),
            radius: rand::random::<u32>(),
            color: Color {
                r: rand::random::<u8>(),
                g: rand::random::<u8>(),
                b: rand::random::<u8>(),
                a: 255,
            },
        };
        self.build_from(id, draws)
    }
}

proof fn lemma_move_bound(dt: int, s: int, d: int)
    requires
        0 <= dt <= DT_LIMIT,
        0 <= s <= SPEED_LIMIT,
        -(DIR_ONE + 1) <= d <= DIR_ONE + 1,
    ensures
        -0x4_0000_0000_0000_0000_0000 <= dt * (s * d) <= 0x4_0000_0000_0000_0000_0000,
        abs(tdiv(dt * (s * d), MICROS * DIR_ONE)) <= STEP_LIMIT,
{
    let k = 0x4_0000_0000_0000_0000_0000int;
    assert(-k <= dt * (s * d) <= k) by (nonlinear_arith)
        requires
            0 <= dt <= 0x4000_0000,
            0 <= s <= 0x1_0000_0000,
            -0x10_0000 <= d <= 0x10_0000,
            k == 0x4_0000_0000_0000_0000_0000int,
    ;
    lemma_div_below(dt * (s * d), MICROS * DIR_ONE, k, STEP_LIMIT as int);
}

/// `|tdiv(a, b)| <= m` whenever `|a| <= k` and `k < (m + 1) * b`.
pub proof fn lemma_div_below(a: int, b: int, k: int, m: int)
    requires
        b > 0,
        m >= 0,
        -k <= a <= k,
        k < (m + 1) * b,
    ensures
        abs(tdiv(a, b)) <= m,
{
    let p = abs(a);
    assert(p < (m + 1) * b);
    vstd::arithmetic::div_mod::lemma_div_pos_is_pos(p, b);
    vstd::arithmetic::div_mod::lemma_fundamental_div_mod(p, b);
    vstd::arithmetic::div_mod::lemma_mod_bound(p, b);
    let q = p / b;
    assert(q <= m) by (nonlinear_arith)
        requires
            p == b * q + p % b,
            0 <= p % b,
            p < (m + 1) * b,
            b > 0,
    ;
}

proof fn lemma_square_sum_nonneg(a: int, b: int)
    ensures
        a * a + b * b >= 0,
{
    assert(a * a + b * b >= 0) by (nonlinear_arith);
}

proof fn lemma_radius_square(rr: int)
    requires
        0 < rr <= 2 * RADIUS_LIMIT,
    ensures
        0 < rr * rr <= 0x10_0000_0000_0000_0000,
{
    assert(0 < rr * rr <= 0x10_0000_0000_0000_0000) by (nonlinear_arith)
        requires
            0 < rr <= 0x8000_0000,
    ;
}

proof fn lemma_sqrt_le(s: int, r: int)
    requires
        0 <= s <= r * r,
        r >= 0,
    ensures
        floor_sqrt(s as nat) <= r,
{
    lemma_floor_sqrt(s as nat);
    let q = floor_sqrt(s as nat) as int;
    if q > r {
        assert(false) by (nonlinear_arith)
            requires
                q >= r + 1,
                r >= 0,
                q * q <= s,
                s <= r * r,
        ;
    }
}

proof fn lemma_push_bound(dx: int, d: int)
    requires
        -(DIR_ONE + 1) <= dx <= DIR_ONE + 1,
        -2 * RADIUS_LIMIT <= d <= 0,
    ensures
        -0x8_0000_0000_0000 <= dx * d <= 0x8_0000_0000_0000,
        abs(tdiv(dx * d, DIR_ONE as int)) <= PUSH_LIMIT,
{
    let k = 0x8_0000_0000_0000int;
    assert(-k <= dx * d <= k) by (nonlinear_arith)
        requires
            -0x10_0000 <= dx <= 0x10_0000,
            -0x8000_0000 <= d <= 0,
            k == 0x8_0000_0000_0000int,
    ;
    lemma_div_below(dx * d, DIR_ONE as int, k, PUSH_LIMIT as int);
}

} // verus!
