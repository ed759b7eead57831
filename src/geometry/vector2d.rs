use vstd::prelude::*;

verus! {

/// Fixed-point scale of a direction: a unit vector has length `DIR_ONE`.
pub const DIR_ONE: i64 = 1_000_000;

/// Bound on the components of a vector that can be normalized.
pub const NORM_LIMIT: i64 = 1_152_921_504_606_846_976;

/// Bound on the components of the vectors taking part in a reflection.
pub const REFLECT_LIMIT: i64 = 4_194_304;

/// Division that rounds toward zero, as Rust's integer division does.
pub open spec fn tdiv(a: int, b: int) -> int {
    if a >= 0 {
        a / b
    } else {
        -((-a) / b)
    }
}

/// The largest natural number whose square does not exceed `n`.
pub open spec fn floor_sqrt(n: nat) -> nat
    decreases n,
{
    if n == 0 {
        0
    } else {
        let r = floor_sqrt((n - 1) as nat);
        if (r + 1) * (r + 1) <= n {
            r + 1
        } else {
            r
        }
    }
}

pub open spec fn abs(a: int) -> int {
    if a >= 0 {
        a
    } else {
        -a
    }
}

proof fn lemma_square_step(r: int)
    requires
        r >= 0,
    ensures
        (r + 1) * (r + 1) < (r + 2) * (r + 2),
        r * r <= (r + 1) * (r + 1),
{
    assert((r + 1) * (r + 1) < (r + 2) * (r + 2)) by (nonlinear_arith)
        requires
            r >= 0,
    ;
    assert(r * r <= (r + 1) * (r + 1)) by (nonlinear_arith)
        requires
            r >= 0,
    ;
}

pub proof fn lemma_floor_sqrt(n: nat)
    ensures
        floor_sqrt(n) * floor_sqrt(n) <= n,
        n < (floor_sqrt(n) + 1) * (floor_sqrt(n) + 1),
    decreases n,
{
    if n > 0 {
        let r = floor_sqrt((n - 1) as nat);
        lemma_floor_sqrt((n - 1) as nat);
        lemma_square_step(r as int);
        if (r + 1) * (r + 1) <= n {
            assert(floor_sqrt(n) == r + 1);
            assert(n < (r + 2) * (r + 2));
            assert((floor_sqrt(n) + 1) * (floor_sqrt(n) + 1) == (r + 2) * (r + 2));
        } else {
            assert(floor_sqrt(n) == r);
        }
    } else {
        assert(floor_sqrt(0) == 0);
        assert((0 + 1) * (0 + 1) == 1) by (nonlinear_arith);
    }
}

proof fn lemma_square_monotone(a: int, b: int)
    requires
        0 <= a <= b,
    ensures
        a * a <= b * b,
{
    assert(a * a <= b * b) by (nonlinear_arith)
        requires
            0 <= a <= b,
    ;
}

/// A root bracketed between two consecutive squares is the floor square root.
pub proof fn lemma_floor_sqrt_unique(n: nat, r: nat)
    requires
        r * r <= n,
        n < (r + 1) * (r + 1),
    ensures
        floor_sqrt(n) == r,
{
    lemma_floor_sqrt(n);
    let q = floor_sqrt(n);
    if q < r {
        lemma_square_monotone(q + 1 as int, r as int);
    } else if r < q {
        lemma_square_monotone(r + 1 as int, q as int);
    }
}

/// Integer square root, rounded down.
pub fn isqrt(n: u128) -> (r: u64)
    ensures
        r as nat == floor_sqrt(n as nat),
{
    let mut lo: u128 = 0;
    let mut hi: u128 = 0x1_0000_0000_0000_0000;
    assert(n < hi * hi) by (nonlinear_arith)
        requires
            hi == 0x1_0000_0000_0000_0000u128,
            n <= u128::MAX,
    ;
    while lo + 1 < hi
        invariant
            lo < hi <= 0x1_0000_0000_0000_0000u128,
            lo * lo <= n,
            n < hi * hi,
        decreases hi - lo,
    {
        let mid: u128 = lo + (hi - lo) / 2;
        assert(mid * mid < 0x1_0000_0000_0000_0000_0000_0000_0000_0000int) by (nonlinear_arith)
            requires
                mid < 0x1_0000_0000_0000_0000u128,
        ;
        if mid * mid <= n {
            lo = mid;
        } else {
            hi = mid;
        }
    }
    proof {
        lemma_floor_sqrt_unique(n as nat, lo as nat);
    }
    lo as u64
}

/// Division of an `i128` by a positive divisor, rounding toward zero.
pub fn div_toward_zero(a: i128, b: i128) -> (q: i128)
    requires
        b > 0,
        a > i128::MIN,
    ensures
        q == tdiv(a as int, b as int),
{
    if a >= 0 {
        ((a as u128) / (b as u128)) as i128
    } else {
        -((((-a) as u128) / (b as u128)) as i128)
    }
}

/// A 2D vector in fixed point: a position in subpixels, or a direction
/// scaled by `DIR_ONE`.
#[derive(Copy, Clone, Debug, PartialEq, Eq, Structural)]
pub struct Vector2d {
    pub x: i64,
    pub y: i64,
}

impl Vector2d {
    pub open spec fn len_sq(self) -> int {
        self.x * self.x + self.y * self.y
    }

    pub open spec fn is_zero(self) -> bool {
        self.x == 0 && self.y == 0
    }

    /// Length within a few millionths of one `DIR_ONE`.
    pub open spec fn is_unit(self) -> bool {
        (DIR_ONE - 3) * (DIR_ONE - 3) <= self.len_sq() <= (DIR_ONE + 1) * (DIR_ONE + 1)
    }

    pub open spec fn within(self, limit: int) -> bool {
        -limit <= self.x <= limit && -limit <= self.y <= limit
    }

    pub open spec fn length_spec(self) -> nat {
        floor_sqrt(self.len_sq() as nat)
    }

    /// The factor that lifts a short vector to at least `DIR_ONE` in length
    /// before it is divided by its length.
    pub open spec fn lift(self) -> int {
        if self.len_sq() < DIR_ONE * DIR_ONE {
            DIR_ONE as int
        } else {
            1
        }
    }

    pub open spec fn lifted_len(self) -> int {
        floor_sqrt((self.lift() * self.lift() * self.len_sq()) as nat) as int
    }

    pub open spec fn normalized(self) -> Vector2d {
        if self.is_zero() {
            self
        } else {
            Vector2d {
                x: tdiv(self.lift() * self.x * DIR_ONE, self.lifted_len()) as i64,
                y: tdiv(self.lift() * self.y * DIR_ONE, self.lifted_len()) as i64,
            }
        }
    }

    pub open spec fn dot_spec(self, n: Vector2d) -> int {
        self.x * n.x + self.y * n.y
    }

    /// `v - 2 (v . n) n`, with `n` scaled by `DIR_ONE`.
    pub open spec fn reflected(self, n: Vector2d) -> Vector2d {
        Vector2d {
            x: (self.x - tdiv(2 * self.dot_spec(n) * n.x, DIR_ONE * DIR_ONE)) as i64,
            y: (self.y - tdiv(2 * self.dot_spec(n) * n.y, DIR_ONE * DIR_ONE)) as i64,
        }
    }

    pub fn zero() -> (r: Vector2d)
        ensures
            r.is_zero(),
    {
        Vector2d { x: 0, y: 0 }
    }

    pub fn add(self, o: Vector2d) -> (r: Vector2d)
        requires
            i64::MIN <= self.x + o.x <= i64::MAX,
            i64::MIN <= self.y + o.y <= i64::MAX,
        ensures
            r.x == self.x + o.x,
            r.y == self.y + o.y,
    {
        Vector2d { x: self.x + o.x, y: self.y + o.y }
    }

    pub fn sub(self, o: Vector2d) -> (r: Vector2d)
        requires
            i64::MIN <= self.x - o.x <= i64::MAX,
            i64::MIN <= self.y - o.y <= i64::MAX,
        ensures
            r.x == self.x - o.x,
            r.y == self.y - o.y,
    {
        Vector2d { x: self.x - o.x, y: self.y - o.y }
    }

    /// Squared length, exact.
    pub fn length_squared(self) -> (r: u128)
        requires
            self.within(NORM_LIMIT as int),
        ensures
            r == self.len_sq(),
    {
        let x = self.x as i128;
        let y = self.y as i128;
        proof {
            lemma_bounded_square(x as int, NORM_LIMIT as int);
            lemma_bounded_square(y as int, NORM_LIMIT as int);
        }
        (x * x + y * y) as u128
    }

    /// Length, rounded down.
    pub fn length(self) -> (r: u64)
        requires
            self.within(NORM_LIMIT as int),
        ensures
            r == self.length_spec(),
    {
        isqrt(self.length_squared())
    }

    /// Scales the vector to length `DIR_ONE`; the zero vector is left as it is.
    pub fn normalize(&mut self)
        requires
            old(self).within(NORM_LIMIT as int),
        ensures
            *final(self) == old(self).normalized(),
            !old(self).is_zero() ==> final(self).is_unit(),
    {
        let s = self.length_squared();
        if s == 0 {
            proof {
                lemma_zero_square_sum(self.x as int, self.y as int);
            }
            return;
        }
        let one = DIR_ONE as i128;
        let k: i128 = if s < (one * one) as u128 {
            one
        } else {
            1
        };
        proof {
            lemma_lift_bounds(*self);
        }
        assert(k == self.lift());
        let lx = k * (self.x as i128);
        let ly = k * (self.y as i128);
        assert(lx == self.lift() * self.x && ly == self.lift() * self.y);
        let l = isqrt((lx * lx + ly * ly) as u128) as i128;
        proof {
            lemma_lifted_len(*self);
            lemma_normalized_unit(lx as int, ly as int, l as int);
        }
        self.x = div_toward_zero(lx * one, l) as i64;
        self.y = div_toward_zero(ly * one, l) as i64;
    }

    /// Dot product in the product of both scales.
    pub fn dot(self, n: Vector2d) -> (r: i128)
        requires
            self.within(REFLECT_LIMIT as int),
            n.within(REFLECT_LIMIT as int),
        ensures
            r == self.dot_spec(n),
    {
        proof {
            lemma_bounded_product(self.x as int, n.x as int, REFLECT_LIMIT as int);
            lemma_bounded_product(self.y as int, n.y as int, REFLECT_LIMIT as int);
        }
        (self.x as i128) * (n.x as i128) + (self.y as i128) * (n.y as i128)
    }

    /// Mirrors the vector at the line normal to `n`, a direction of length `DIR_ONE`.
    pub fn reflect(&mut self, n: &Vector2d)
        requires
            old(self).within(REFLECT_LIMIT as int),
            n.within(REFLECT_LIMIT as int),
        ensures
            *final(self) == old(self).reflected(*n),
    {
        let d = self.dot(*n);
        let one = DIR_ONE as i128;
        proof {
            lemma_reflect_bounds(*self, *n, d as int);
        }
        let ax = div_toward_zero(2 * d * (n.x as i128), one * one);
        let ay = div_toward_zero(2 * d * (n.y as i128), one * one);
        self.x = ((self.x as i128) - ax) as i64;
        self.y = ((self.y as i128) - ay) as i64;
    }
}

proof fn lemma_zero_square_sum(x: int, y: int)
    requires
        x * x + y * y == 0,
    ensures
        x == 0,
        y == 0,
{
    assert(x == 0 && y == 0) by (nonlinear_arith)
        requires
            x * x + y * y == 0,
    ;
}

proof fn lemma_bounded_square(a: int, k: int)
    requires
        -k <= a <= k,
    ensures
        0 <= a * a <= k * k,
{
    assert(0 <= a * a <= k * k) by (nonlinear_arith)
        requires
            -k <= a <= k,
    ;
}

proof fn lemma_bounded_product(a: int, b: int, k: int)
    requires
        -k <= a <= k,
        -k <= b <= k,
    ensures
        -(k * k) <= a * b <= k * k,
{
    assert(-(k * k) <= a * b <= k * k) by (nonlinear_arith)
        requires
            -k <= a <= k,
            -k <= b <= k,
    ;
}

proof fn lemma_tdiv_bound(a: int, b: int, k: int)
    requires
        b > 0,
        -k <= a <= k,
    ensures
        abs(tdiv(a, b)) <= k / b,
        k / b <= k,
{
    if a >= 0 {
        vstd::arithmetic::div_mod::lemma_div_is_ordered(a, k, b);
        vstd::arithmetic::div_mod::lemma_div_pos_is_pos(a, b);
    } else {
        vstd::arithmetic::div_mod::lemma_div_is_ordered(-a, k, b);
        vstd::arithmetic::div_mod::lemma_div_pos_is_pos(-a, b);
    }
    vstd::arithmetic::div_mod::lemma_div_is_ordered_by_denominator(k, 1, b);
}

proof fn lemma_reflect_bounds(v: Vector2d, n: Vector2d, d: int)
    requires
        v.within(REFLECT_LIMIT as int),
        n.within(REFLECT_LIMIT as int),
        d == v.dot_spec(n),
    ensures
        -0x1_0000_0000_0000 < d < 0x1_0000_0000_0000,
        -0x1_0000_0000_0000_0000_0000 < 2 * d * n.x < 0x1_0000_0000_0000_0000_0000,
        -0x1_0000_0000_0000_0000_0000 < 2 * d * n.y < 0x1_0000_0000_0000_0000_0000,
        -0x1_0000_0000 <= tdiv(2 * d * n.x, DIR_ONE * DIR_ONE) <= 0x1_0000_0000,
        -0x1_0000_0000 <= tdiv(2 * d * n.y, DIR_ONE * DIR_ONE) <= 0x1_0000_0000,
{
    let k = REFLECT_LIMIT as int;
    lemma_bounded_product(v.x as int, n.x as int, k);
    lemma_bounded_product(v.y as int, n.y as int, k);
    let m = 2 * k * k * k * 2;
    assert(-m <= 2 * d * n.x <= m && -m <= 2 * d * n.y <= m) by (nonlinear_arith)
        requires
            -(k * k) <= v.x * n.x <= k * k,
            -(k * k) <= v.y * n.y <= k * k,
            d == v.x * n.x + v.y * n.y,
            -k <= n.x <= k,
            -k <= n.y <= k,
            m == 2 * k * k * k * 2,
            k > 0,
    ;
    lemma_tdiv_bound(2 * d * n.x, DIR_ONE * DIR_ONE, m);
    lemma_tdiv_bound(2 * d * n.y, DIR_ONE * DIR_ONE, m);
}

proof fn lemma_lift_bounds(v: Vector2d)
    requires
        v.within(NORM_LIMIT as int),
    ensures
        -(NORM_LIMIT as int) <= v.lift() * v.x <= NORM_LIMIT,
        -(NORM_LIMIT as int) <= v.lift() * v.y <= NORM_LIMIT,
        v.lift() * v.x * (v.lift() * v.x) + v.lift() * v.y * (v.lift() * v.y)
            == v.lift() * v.lift() * v.len_sq(),
        0 <= v.lift() * v.lift() * v.len_sq() <= 2 * NORM_LIMIT * NORM_LIMIT,
        0 <= v.lift() * v.x * (v.lift() * v.x) <= NORM_LIMIT * NORM_LIMIT,
        0 <= v.lift() * v.y * (v.lift() * v.y) <= NORM_LIMIT * NORM_LIMIT,
{
    let k = v.lift();
    let u = DIR_ONE as int;
    if v.len_sq() < u * u {
        lemma_bounded_square(v.x as int, NORM_LIMIT as int);
        lemma_bounded_square(v.y as int, NORM_LIMIT as int);
        assert(-u <= v.x <= u && -u <= v.y <= u) by (nonlinear_arith)
            requires
                v.x * v.x + v.y * v.y < u * u,
                u > 0,
        ;
        assert(-(NORM_LIMIT as int) <= k * v.x <= NORM_LIMIT && -(NORM_LIMIT as int) <= k * v.y
            <= NORM_LIMIT) by (nonlinear_arith)
            requires
                -u <= v.x <= u,
                -u <= v.y <= u,
                k == u,
                u == 1_000_000,
        ;
    }
    let lx = k * v.x;
    let ly = k * v.y;
    assert(lx * lx + ly * ly == k * k * (v.x * v.x + v.y * v.y)) by (nonlinear_arith)
        requires
            lx == k * v.x,
            ly == k * v.y,
    ;
    lemma_bounded_square(lx, NORM_LIMIT as int);
    lemma_bounded_square(ly, NORM_LIMIT as int);
}

proof fn lemma_lifted_len(v: Vector2d)
    requires
        v.within(NORM_LIMIT as int),
        !v.is_zero(),
    ensures
        v.lifted_len() >= DIR_ONE,
        v.lifted_len() * v.lifted_len() <= v.lift() * v.lift() * v.len_sq(),
        v.lift() * v.lift() * v.len_sq() < (v.lifted_len() + 1) * (v.lifted_len() + 1),
{
    let u = DIR_ONE as int;
    let k = v.lift();
    let s = v.len_sq();
    lemma_lift_bounds(v);
    assert(s >= 1) by (nonlinear_arith)
        requires
            s == v.x * v.x + v.y * v.y,
            v.x != 0 || v.y != 0,
    ;
    assert(k * k * s >= u * u) by (nonlinear_arith)
        requires
            s >= 1,
            k == u || (k == 1 && s >= u * u),
            u > 0,
    ;
    let n = (k * k * s) as nat;
    lemma_floor_sqrt(n);
    let l = floor_sqrt(n) as int;
    if l < u {
        lemma_square_monotone(l + 1, u);
    }
}

/// One component of a normalization: `|a| l <= |x| u < (|a| + 1) l`.
proof fn lemma_component(x: int, u: int, l: int)
    requires
        l > 0,
        u > 0,
    ensures
        abs(tdiv(x * u, l)) * abs(tdiv(x * u, l)) * (l * l) <= x * x * (u * u),
        x * x * (u * u) < (abs(tdiv(x * u, l)) + 1) * (abs(tdiv(x * u, l)) + 1) * (l * l),
{
    let ax = abs(x);
    let m = ax * u;
    lemma_square_of_abs(x);
    assert(m >= 0) by (nonlinear_arith)
        requires
            u > 0,
            ax >= 0,
            m == ax * u,
    ;
    if x >= 0 {
        assert(x * u >= 0) by (nonlinear_arith)
            requires
                x >= 0,
                u > 0,
        ;
        assert(x * u == m);
    } else {
        assert(x * u < 0 && -(x * u) == m) by (nonlinear_arith)
            requires
                x < 0,
                u > 0,
                ax == -x,
                m == ax * u,
        ;
    }
    let q = m / l;
    assert(abs(tdiv(x * u, l)) == q);
    vstd::arithmetic::div_mod::lemma_fundamental_div_mod(m, l);
    vstd::arithmetic::div_mod::lemma_mod_bound(m, l);
    vstd::arithmetic::div_mod::lemma_div_pos_is_pos(m, l);
    assert(q * l <= m < (q + 1) * l) by (nonlinear_arith)
        requires
            m == l * q + m % l,
            0 <= m % l < l,
    ;
    assert(q * q * (l * l) <= x * x * (u * u) < (q + 1) * (q + 1) * (l * l)) by (nonlinear_arith)
        requires
            q >= 0,
            l > 0,
            q * l <= m < (q + 1) * l,
            m == ax * u,
            ax * ax == x * x,
    ;
}

proof fn lemma_normalized_unit(lx: int, ly: int, l: int)
    requires
        l >= DIR_ONE,
        l * l <= lx * lx + ly * ly,
        lx * lx + ly * ly < (l + 1) * (l + 1),
        -(NORM_LIMIT as int) <= lx <= NORM_LIMIT,
        -(NORM_LIMIT as int) <= ly <= NORM_LIMIT,
    ensures
        -0x1_0000_0000_0000_0000_0000_0000 < lx * DIR_ONE < 0x1_0000_0000_0000_0000_0000_0000,
        -0x1_0000_0000_0000_0000_0000_0000 < ly * DIR_ONE < 0x1_0000_0000_0000_0000_0000_0000,
        unit_pair(tdiv(lx * DIR_ONE, l), tdiv(ly * DIR_ONE, l)),
        abs(tdiv(lx * DIR_ONE, l)) <= DIR_ONE,
        abs(tdiv(ly * DIR_ONE, l)) <= DIR_ONE,
{
    let u = DIR_ONE as int;
    lemma_bounded_product(lx, u, NORM_LIMIT as int);
    lemma_bounded_product(ly, u, NORM_LIMIT as int);
    lemma_component(lx, u, l);
    lemma_component(ly, u, l);
    let a = abs(tdiv(lx * u, l));
    let b = abs(tdiv(ly * u, l));
    let s = lx * lx + ly * ly;
    let p = a * a + b * b;
    let ll = l * l;
    let uu = u * u;
    assert(p * ll <= s * uu) by (nonlinear_arith)
        requires
            a * a * ll <= lx * lx * uu,
            b * b * ll <= ly * ly * uu,
            s == lx * lx + ly * ly,
            p == a * a + b * b,
    ;
    assert(s * uu < (l + 1) * (l + 1) * uu) by (nonlinear_arith)
        requires
            s < (l + 1) * (l + 1),
            uu == u * u,
            u > 0,
    ;
    assert((l + 1) * u <= (u + 1) * l) by (nonlinear_arith)
        requires
            l >= u,
            u > 0,
    ;
    assert((l + 1) * (l + 1) * uu <= (u + 1) * (u + 1) * ll) by (nonlinear_arith)
        requires
            (l + 1) * u <= (u + 1) * l,
            uu == u * u,
            ll == l * l,
            u > 0,
            l > 0,
    ;
    assert(p < (u + 1) * (u + 1)) by (nonlinear_arith)
        requires
            p * ll < (u + 1) * (u + 1) * ll,
            ll > 0,
    ;
    assert(a <= u && b <= u) by (nonlinear_arith)
        requires
            a * a + b * b < (u + 1) * (u + 1),
            a >= 0,
            b >= 0,
            u > 0,
    ;
    let c = (a + 1) * (a + 1) + (b + 1) * (b + 1);
    assert(s * uu < c * ll) by (nonlinear_arith)
        requires
            lx * lx * uu < (a + 1) * (a + 1) * ll,
            ly * ly * uu < (b + 1) * (b + 1) * ll,
            s == lx * lx + ly * ly,
            c == (a + 1) * (a + 1) + (b + 1) * (b + 1),
    ;
    assert(ll * uu <= s * uu) by (nonlinear_arith)
        requires
            ll <= s,
            uu >= 0,
    ;
    assert(uu < c) by (nonlinear_arith)
        requires
            ll * uu < c * ll,
            ll > 0,
    ;
    assert((u - 3) * (u - 3) <= a * a + b * b) by (nonlinear_arith)
        requires
            u * u < (a + 1) * (a + 1) + (b + 1) * (b + 1),
            0 <= a <= u,
            0 <= b <= u,
            u == 1_000_000,
    ;
    lemma_square_of_abs(tdiv(lx * u, l));
    lemma_square_of_abs(tdiv(ly * u, l));
}

proof fn lemma_square_of_abs(t: int)
    ensures
        t * t == abs(t) * abs(t),
{
    if t < 0 {
        assert(t * t == (-t) * (-t)) by (nonlinear_arith);
    }
}

/// The two components make a vector of length about `DIR_ONE`.
pub open spec fn unit_pair(a: int, b: int) -> bool {
    (DIR_ONE - 3) * (DIR_ONE - 3) <= a * a + b * b <= (DIR_ONE + 1) * (DIR_ONE + 1)
}

} // verus!
