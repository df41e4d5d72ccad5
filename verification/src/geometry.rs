//! Integer pixel geometry for the chase.
//!
//! Positions are whole pixels in the host surface's coordinate space (y grows
//! downward).  Distances are compared through their squares, which keeps every
//! comparison exact, and a movement step advances the position by the speed
//! projected onto the bearing toward the target, each component rounded to the
//! nearest pixel.

use vstd::prelude::*;
use vstd::math::abs;
use vstd::arithmetic::div_mod::lemma_fundamental_div_mod;

verus! {

/// Largest coordinate magnitude the library works with; far beyond any real
/// screen, and small enough that every intermediate product fits in 64 bits.
pub const MAX_COORD: i64 = 1_000_000;

/// Largest chase speed, in pixels per movement tick.
pub const MAX_SPEED: i64 = 10_000;

/// A point on the host surface, in pixels.
#[derive(Clone, Copy, Debug, PartialEq, Eq, Structural)]
pub struct Position {
    pub x: i64,
    pub y: i64,
}

impl Position {
    /// Both coordinates within the range the library's arithmetic covers.
    pub open spec fn in_bounds(self) -> bool {
        &&& -MAX_COORD <= self.x <= MAX_COORD
        &&& -MAX_COORD <= self.y <= MAX_COORD
    }
}

/// Squared Euclidean distance between two positions.
pub open spec fn dist2(p: Position, q: Position) -> int {
    (q.x - p.x) * (q.x - p.x) + (q.y - p.y) * (q.y - p.y)
}

/// Squared distance, computed exactly.
pub fn dist_squared(p: &Position, q: &Position) -> (d: i64)
    requires
        p.in_bounds(),
        q.in_bounds(),
    ensures
        d == dist2(*p, *q),
        0 <= d <= 8_000_000_000_000,
{
    let dx = q.x - p.x;
    let dy = q.y - p.y;
    proof {
        assert(0 <= dx * dx <= 4_000_000_000_000 && 0 <= dy * dy <= 4_000_000_000_000)
            by (nonlinear_arith)
            requires
                -2_000_000 <= dx <= 2_000_000,
                -2_000_000 <= dy <= 2_000_000,
        ;
    }
    dx * dx + dy * dy
}

/// `r` is the integer square root of `n`, rounded down.
pub open spec fn is_sqrt_floor(n: int, r: int) -> bool {
    &&& 0 <= r
    &&& r * r <= n
    &&& n < (r + 1) * (r + 1)
}

/// The integer square root of `n`, rounded down.
pub open spec fn sqrt_floor(n: nat) -> nat
    decreases n,
{
    if n == 0 {
        0
    } else {
        let r = sqrt_floor((n - 1) as nat);
        if (r + 1) * (r + 1) <= n {
            r + 1
        } else {
            r
        }
    }
}

/// `sqrt_floor` satisfies the square-root characterization.
pub proof fn lemma_sqrt_floor_is_sqrt(n: nat)
    ensures
        is_sqrt_floor(n as int, sqrt_floor(n) as int),
    decreases n,
{
    if n > 0 {
        lemma_sqrt_floor_is_sqrt((n - 1) as nat);
        let r = sqrt_floor((n - 1) as nat) as int;
        if (r + 1) * (r + 1) <= n {
            assert(n < (r + 2) * (r + 2)) by (nonlinear_arith)
                requires
                    (r + 1) * (r + 1) <= n,
                    n - 1 < (r + 1) * (r + 1),
                    0 <= r,
            ;
        }
    }
}

/// The square-root characterization pins the root down.
pub proof fn lemma_sqrt_floor_unique(n: int, a: int, b: int)
    requires
        is_sqrt_floor(n, a),
        is_sqrt_floor(n, b),
    ensures
        a == b,
{
    assert(a == b) by (nonlinear_arith)
        requires
            0 <= a,
            0 <= b,
            a * a <= n,
            n < (a + 1) * (a + 1),
            b * b <= n,
            n < (b + 1) * (b + 1),
    ;
}

/// Integer square root by bisection.
pub fn isqrt(n: u64) -> (r: u64)
    requires
        n <= 8_000_000_000_000,
    ensures
        r == sqrt_floor(n as nat),
        is_sqrt_floor(n as int, r as int),
        r <= 3_000_000,
{
    let mut lo: u64 = 0;
    let mut hi: u64 = 3_000_000;
    while lo + 1 < hi
        invariant
            0 <= lo < hi <= 3_000_000,
            lo * lo <= n,
            n < hi * hi,
        decreases hi - lo,
    {
        let mid = lo + (hi - lo) / 2;
        proof {
            assert(0 <= mid * mid <= 9_000_000_000_000) by (nonlinear_arith)
                requires
                    0 <= mid <= 3_000_000,
            ;
        }
        if mid * mid <= n {
            lo = mid;
        } else {
            hi = mid;
        }
    }
    proof {
        lemma_sqrt_floor_is_sqrt(n as nat);
        lemma_sqrt_floor_unique(n as int, lo as int, sqrt_floor(n as nat) as int);
    }
    lo
}

/// Magnitude of one component of a movement step: the speed scaled by this
/// component's share of the distance, rounded to the nearest integer.
pub open spec fn step_mag(diff: int, dist: int, speed: int) -> int
    recommends
        dist > 0,
{
    (speed * abs(diff) + dist / 2) / dist
}

/// Signed movement along one axis toward a target `diff` pixels away.
pub open spec fn step_delta(diff: int, dist: int, speed: int) -> int
    recommends
        dist > 0,
{
    if diff >= 0 {
        step_mag(diff, dist, speed)
    } else {
        -step_mag(diff, dist, speed)
    }
}

/// A rounded step component never overshoots the target along its axis and
/// never exceeds the speed.
proof fn lemma_step_mag_le(a: int, d: int, s: int)
    requires
        0 <= a,
        a <= d,
        1 <= s,
        3 * s <= d,
    ensures
        0 <= (s * a + d / 2) / d <= a,
        (s * a + d / 2) / d <= s,
{
    let h = d / 2;
    let num = s * a + h;
    let m = num / d;
    lemma_fundamental_div_mod(num, d);
    lemma_fundamental_div_mod(d, 2);
    let r = num % d;
    let e = d % 2;
    assert(0 <= m && m <= a && m <= s) by (nonlinear_arith)
        requires
            num == d * m + r,
            0 <= r < d,
            d == 2 * h + e,
            0 <= e <= 1,
            num == s * a + h,
            0 <= a,
            a <= d,
            1 <= s,
            3 * s <= d,
    ;
}

/// As long as the cat is still at least the step distance away, at least one
/// component of the rounded step is nonzero: the chase never stalls.
proof fn lemma_step_progress(ax: int, ay: int, d: int, s: int)
    requires
        0 <= ax,
        0 <= ay,
        1 <= s,
        3 * s <= d,
        d * d <= ax * ax + ay * ay,
    ensures
        (s * ax + d / 2) / d >= 1 || (s * ay + d / 2) / d >= 1,
{
    let h = d / 2;
    let numx = s * ax + h;
    let numy = s * ay + h;
    let mx = numx / d;
    let my = numy / d;
    lemma_fundamental_div_mod(numx, d);
    lemma_fundamental_div_mod(numy, d);
    lemma_fundamental_div_mod(d, 2);
    let rx = numx % d;
    let ry = numy % d;
    let e = d % 2;
    assert(mx >= 1 || my >= 1) by (nonlinear_arith)
        requires
            numx == d * mx + rx,
            0 <= rx < d,
            numy == d * my + ry,
            0 <= ry < d,
            d == 2 * h + e,
            0 <= e <= 1,
            numx == s * ax + h,
            numy == s * ay + h,
            0 <= ax,
            0 <= ay,
            1 <= s,
            3 * s <= d,
            d * d <= ax * ax + ay * ay,
    ;
}

/// A step that stays within its axis bounds and moves at all brings the
/// position strictly closer in squared distance.
proof fn lemma_chase_decreases(ax: int, ay: int, mx: int, my: int)
    by (nonlinear_arith)
    requires
        0 <= mx <= ax,
        0 <= my <= ay,
        1 <= mx + my,
    ensures
        (ax - mx) * (ax - mx) + (ay - my) * (ay - my) < ax * ax + ay * ay,
{
}

/// One movement tick of the chase: advance `speed` pixels from `p` along the
/// straight-line bearing toward `c`, each component rounded to the nearest
/// pixel.  The step never overshoots along either axis and strictly reduces
/// the distance to the target.
pub fn chase_step(p: &Position, c: &Position, speed: i64) -> (q: Position)
    requires
        p.in_bounds(),
        c.in_bounds(),
        1 <= speed <= MAX_SPEED,
        dist2(*p, *c) >= 9 * speed * speed,
    ensures
        q.in_bounds(),
        ({
            let dist = sqrt_floor(dist2(*p, *c) as nat) as int;
            &&& q.x == p.x + step_delta(c.x - p.x, dist, speed as int)
            &&& q.y == p.y + step_delta(c.y - p.y, dist, speed as int)
        }),
        dist2(q, *c) < dist2(*p, *c),
        -speed <= q.x - p.x <= speed,
        -speed <= q.y - p.y <= speed,
{
    let dd = dist_squared(p, c);
    let du: u64 = isqrt(dd as u64);
    let dx = c.x - p.x;
    let dy = c.y - p.y;
    let ax: u64 = (if dx >= 0 { dx } else { -dx }) as u64;
    let ay: u64 = (if dy >= 0 { dy } else { -dy }) as u64;
    proof {
        assert(dd == ax * ax + ay * ay) by (nonlinear_arith)
            requires
                dd == dx * dx + dy * dy,
                ax == dx || ax == -dx,
                ay == dy || ay == -dy,
        ;
        // dd >= 9 s^2 >= 9, so the root is at least 3 s, and each component's
        // magnitude is at most the root.
        assert(du as int >= 3 * speed && ax <= du && ay <= du) by (nonlinear_arith)
            requires
                (du as int) * (du as int) <= dd < (du + 1) * (du + 1),
                dd == ax * ax + ay * ay,
                dd >= 9 * speed * speed,
                1 <= speed,
                0 <= ax,
                0 <= ay,
                0 <= du,
        ;
        assert(speed * ax <= 20_000_000_000) by (nonlinear_arith)
            requires
                0 <= speed <= 10_000,
                0 <= ax <= 2_000_000,
        ;
        assert(speed * ay <= 20_000_000_000) by (nonlinear_arith)
            requires
                0 <= speed <= 10_000,
                0 <= ay <= 2_000_000,
        ;
        lemma_step_mag_le(ax as int, du as int, speed as int);
        lemma_step_mag_le(ay as int, du as int, speed as int);
        lemma_step_progress(ax as int, ay as int, du as int, speed as int);
    }
    let su: u64 = speed as u64;
    let mx: u64 = (su * ax + du / 2) / du;
    let my: u64 = (su * ay + du / 2) / du;
    proof {
        lemma_chase_decreases(ax as int, ay as int, mx as int, my as int);
        lemma_sqrt_floor_unique(dd as int, du as int, sqrt_floor(dd as nat) as int);
        lemma_sqrt_floor_is_sqrt(dd as nat);
        assert(abs(dx as int) == ax && abs(dy as int) == ay);
    }
    let qx = if dx >= 0 {
        p.x + (mx as i64)
    } else {
        p.x - (mx as i64)
    };
    let qy = if dy >= 0 {
        p.y + (my as i64)
    } else {
        p.y - (my as i64)
    };
    let q = Position { x: qx, y: qy };
    proof {
        assert((c.x - q.x) * (c.x - q.x) + (c.y - q.y) * (c.y - q.y) < ax * ax + ay * ay)
            by (nonlinear_arith)
            requires
                c.x - q.x == ax - mx || c.x - q.x == -(ax - mx),
                c.y - q.y == ay - my || c.y - q.y == -(ay - my),
                (ax - mx) * (ax - mx) + (ay - my) * (ay - my) < ax * ax + ay * ay,
        ;
    }
    q
}

} // verus!
