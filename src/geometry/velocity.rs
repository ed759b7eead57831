use crate::geometry::vector2d::{abs, Vector2d, DIR_ONE, NORM_LIMIT, REFLECT_LIMIT};
use vstd::prelude::*;

verus! {

/// A velocity split into a direction of length `DIR_ONE` and a speed in
/// subpixels per second, so that a bounce only touches the direction.
#[derive(Copy, Clone, Debug, PartialEq, Eq, Structural)]
pub struct Velocity {
    pub dir: Vector2d,
    pub speed: i64,
}

/// A unit vector has no component longer than `DIR_ONE + 1`.
pub proof fn lemma_unit_within(v: Vector2d)
    requires
        v.is_unit(),
    ensures
        v.within(DIR_ONE + 1),
{
    let u = DIR_ONE + 1;
    assert(-u <= v.x <= u && -u <= v.y <= u) by (nonlinear_arith)
        requires
            v.x * v.x + v.y * v.y <= u * u,
            u > 0,
    ;
}

impl Velocity {
    /// The direction after bouncing off a surface with normal `n`: the
    /// mirrored direction brought back to unit length. A zero normal, or a
    /// mirror image that vanishes, leaves the direction as it is.
    pub open spec fn bounced(self, n: Vector2d) -> Vector2d {
        if n.is_zero() || self.dir.reflected(n).is_zero() {
            self.dir
        } else {
            self.dir.reflected(n).normalized()
        }
    }

    /// Horizontal velocity, in subpixels per second times `DIR_ONE`.
    pub fn x(self) -> (r: i128)
        requires
            self.dir.within(NORM_LIMIT as int),
        ensures
            r == self.speed * self.dir.x,
    {
        proof {
            lemma_speed_product(self.speed as int, self.dir.x as int);
        }
        (self.speed as i128) * (self.dir.x as i128)
    }

    /// Vertical velocity, in subpixels per second times `DIR_ONE`.
    pub fn y(self) -> (r: i128)
        requires
            self.dir.within(NORM_LIMIT as int),
        ensures
            r == self.speed * self.dir.y,
    {
        proof {
            lemma_speed_product(self.speed as int, self.dir.y as int);
        }
        (self.speed as i128) * (self.dir.y as i128)
    }

    pub fn negate_x(&mut self)
        requires
            old(self).dir.x > i64::MIN,
        ensures
            final(self).dir.x == -old(self).dir.x,
            final(self).dir.y == old(self).dir.y,
            final(self).speed == old(self).speed,
            final(self).dir.len_sq() == old(self).dir.len_sq(),
    {
        self.dir.x = -self.dir.x;
        proof {
            lemma_neg_square(old(self).dir.x as int);
        }
    }

    pub fn negate_y(&mut self)
        requires
            old(self).dir.y > i64::MIN,
        ensures
            final(self).dir.y == -old(self).dir.y,
            final(self).dir.x == old(self).dir.x,
            final(self).speed == old(self).speed,
            final(self).dir.len_sq() == old(self).dir.len_sq(),
    {
        self.dir.y = -self.dir.y;
        proof {
            lemma_neg_square(old(self).dir.y as int);
        }
    }

    /// Bounces the direction off a surface with normal `n`, a vector that
    /// is either zero or of length `DIR_ONE`.
    pub fn reflect(&mut self, n: &Vector2d)
        requires
            old(self).dir.is_unit(),
            n.within(REFLECT_LIMIT as int),
        ensures
            final(self).dir == old(self).bounced(*n),
            final(self).speed == old(self).speed,
            final(self).dir.is_unit(),
    {
        if n.x == 0 && n.y == 0 {
            return;
        }
        proof {
            lemma_unit_within(self.dir);
        }
        let mut r = self.dir;
        r.reflect(n);
        if r.x == 0 && r.y == 0 {
            return;
        }
        proof {
            lemma_reflected_small(self.dir, *n);
        }
        r.normalize();
        self.dir = r;
    }
}

proof fn lemma_neg_square(a: int)
    ensures
        (-a) * (-a) == a * a,
{
    assert((-a) * (-a) == a * a) by (nonlinear_arith);
}

proof fn lemma_speed_product(s: int, d: int)
    requires
        i64::MIN <= s <= i64::MAX,
        -NORM_LIMIT <= d <= NORM_LIMIT,
    ensures
        -0x1000_0000_0000_0000_0000_0000_0000_0000 < s * d < 0x1000_0000_0000_0000_0000_0000_0000_0000,
{
    assert(-0x1000_0000_0000_0000_0000_0000_0000_0000 < s * d < 0x1000_0000_0000_0000_0000_0000_0000_0000)
        by (nonlinear_arith)
        requires
            -0x8000_0000_0000_0000 <= s <= 0x8000_0000_0000_0000,
            -0x1000_0000_0000_0000 <= d <= 0x1000_0000_0000_0000,
    ;
}

proof fn lemma_reflected_small(v: Vector2d, n: Vector2d)
    requires
        v.within(REFLECT_LIMIT as int),
        n.within(REFLECT_LIMIT as int),
    ensures
        v.reflected(n).within(NORM_LIMIT as int),
{
    let k = REFLECT_LIMIT as int;
    let d = v.dot_spec(n);
    assert(-(k * k) <= v.x * n.x <= k * k && -(k * k) <= v.y * n.y <= k * k) by (nonlinear_arith)
        requires
            -k <= v.x <= k,
            -k <= n.x <= k,
            -k <= v.y <= k,
            -k <= n.y <= k,
    ;
    let m = 4 * k * k * k;
    assert(-m <= 2 * d * n.x <= m && -m <= 2 * d * n.y <= m) by (nonlinear_arith)
        requires
            -(k * k) <= v.x * n.x <= k * k,
            -(k * k) <= v.y * n.y <= k * k,
            d == v.x * n.x + v.y * n.y,
            -k <= n.x <= k,
            -k <= n.y <= k,
            m == 4 * k * k * k,
            k > 0,
    ;
    lemma_tdiv_small(2 * d * n.x, DIR_ONE * DIR_ONE, m);
    lemma_tdiv_small(2 * d * n.y, DIR_ONE * DIR_ONE, m);
}

proof fn lemma_tdiv_small(a: int, b: int, m: int)
    requires
        b >= 1,
        -m <= a <= m,
    ensures
        abs(crate::geometry::vector2d::tdiv(a, b)) <= m,
{
    if a >= 0 {
        vstd::arithmetic::div_mod::lemma_div_is_ordered_by_denominator(a, 1, b);
        vstd::arithmetic::div_mod::lemma_div_pos_is_pos(a, b);
    } else {
        vstd::arithmetic::div_mod::lemma_div_is_ordered_by_denominator(-a, 1, b);
        vstd::arithmetic::div_mod::lemma_div_pos_is_pos(-a, b);
    }
}

} // verus!
