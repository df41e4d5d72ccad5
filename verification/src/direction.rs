//! Classification of a bearing into one of eight compass directions.
//!
//! A bearing is measured from the positive x axis (east), increasing
//! clockwise because the y axis points down the screen.  Angles are kept in
//! fixed point: the value `a` stands for the real angle `a * pi / ANGLE_PI`
//! radians, so the valid range `[-pi, pi]` is `[-ANGLE_PI, ANGLE_PI]` and the
//! octant boundaries (odd multiples of `pi / 8`) are exact integers.

use vstd::prelude::*;
use vstd::math::abs;

verus! {

/// Fixed-point representation of the angle `pi`.
pub const ANGLE_PI: i64 = 1_000_000;

/// Fixed-point representation of the octant half-width `pi / 8`.
pub const ANGLE_EIGHTH: i64 = 125_000;

/// The eight compass directions a bearing can be classified into.
#[derive(Clone, Copy, Debug, PartialEq, Eq, Structural)]
pub enum Direction {
    Left,
    Right,
    Down,
    DownLeft,
    DownRight,
    Up,
    UpLeft,
    UpRight,
}

/// The direction assigned to a fixed-point angle in `[-ANGLE_PI, ANGLE_PI]`:
/// the octant checks are tried in order, each one a closed interval, so a
/// boundary value goes to the earliest interval that holds it.
pub open spec fn classify(a: int) -> Direction
    recommends
        -ANGLE_PI <= a <= ANGLE_PI,
{
    if 0 <= a <= ANGLE_EIGHTH {
        Direction::Right
    } else if ANGLE_EIGHTH <= a <= 3 * ANGLE_EIGHTH {
        Direction::DownRight
    } else if 3 * ANGLE_EIGHTH <= a <= 5 * ANGLE_EIGHTH {
        Direction::Down
    } else if 5 * ANGLE_EIGHTH <= a <= 7 * ANGLE_EIGHTH {
        Direction::DownLeft
    } else if 7 * ANGLE_EIGHTH <= a <= ANGLE_PI {
        Direction::Left
    } else if -ANGLE_PI <= a <= -7 * ANGLE_EIGHTH {
        Direction::Left
    } else if -7 * ANGLE_EIGHTH <= a <= -5 * ANGLE_EIGHTH {
        Direction::UpLeft
    } else if -5 * ANGLE_EIGHTH <= a <= -3 * ANGLE_EIGHTH {
        Direction::Up
    } else if -3 * ANGLE_EIGHTH <= a <= -ANGLE_EIGHTH {
        Direction::UpRight
    } else {
        Direction::Right
    }
}

impl Direction {
    /// Map a fixed-point bearing in `[-ANGLE_PI, ANGLE_PI]` to its compass
    /// direction.  Callers must stay in range: an out-of-range angle would
    /// mean the bearing computation upstream is broken.
    pub fn from_angle(angle: i64) -> (d: Direction)
        requires
            -ANGLE_PI <= angle <= ANGLE_PI,
        ensures
            d == classify(angle as int),
    {
        if 0 <= angle && angle <= ANGLE_EIGHTH {
            Direction::Right
        } else if ANGLE_EIGHTH <= angle && angle <= 3 * ANGLE_EIGHTH {
            Direction::DownRight
        } else if 3 * ANGLE_EIGHTH <= angle && angle <= 5 * ANGLE_EIGHTH {
            Direction::Down
        } else if 5 * ANGLE_EIGHTH <= angle && angle <= 7 * ANGLE_EIGHTH {
            Direction::DownLeft
        } else if 7 * ANGLE_EIGHTH <= angle && angle <= ANGLE_PI {
            Direction::Left
        } else if -ANGLE_PI <= angle && angle <= -7 * ANGLE_EIGHTH {
            Direction::Left
        } else if -7 * ANGLE_EIGHTH <= angle && angle <= -5 * ANGLE_EIGHTH {
            Direction::UpLeft
        } else if -5 * ANGLE_EIGHTH <= angle && angle <= -3 * ANGLE_EIGHTH {
            Direction::Up
        } else if -3 * ANGLE_EIGHTH <= angle && angle <= -ANGLE_EIGHTH {
            Direction::UpRight
        } else {
            Direction::Right
        }
    }
}

/// Lower end of octant interval `k`, for `k` in `0 .. 10`, the intervals
/// listed in ascending order from `-ANGLE_PI`.  The Right octant straddles
/// angle zero, so it contributes two intervals (`k == 4` and `k == 5`); the
/// Left octant wraps around `pi`, so it also contributes two (`k == 0` and
/// `k == 9`), which do not touch.
pub open spec fn octant_low(k: int) -> int {
    if k == 0 {
        -ANGLE_PI
    } else if k == 1 {
        -7 * ANGLE_EIGHTH
    } else if k == 2 {
        -5 * ANGLE_EIGHTH
    } else if k == 3 {
        -3 * ANGLE_EIGHTH
    } else if k == 4 {
        -ANGLE_EIGHTH
    } else if k == 5 {
        0
    } else if k == 6 {
        ANGLE_EIGHTH as int
    } else if k == 7 {
        3 * ANGLE_EIGHTH
    } else if k == 8 {
        5 * ANGLE_EIGHTH
    } else {
        7 * ANGLE_EIGHTH
    }
}

/// Upper end of octant interval `k`, for `k` in `0 .. 10`.
pub open spec fn octant_high(k: int) -> int {
    if k == 0 {
        -7 * ANGLE_EIGHTH
    } else if k == 1 {
        -5 * ANGLE_EIGHTH
    } else if k == 2 {
        -3 * ANGLE_EIGHTH
    } else if k == 3 {
        -ANGLE_EIGHTH
    } else if k == 4 {
        0
    } else if k == 5 {
        ANGLE_EIGHTH as int
    } else if k == 6 {
        3 * ANGLE_EIGHTH
    } else if k == 7 {
        5 * ANGLE_EIGHTH
    } else if k == 8 {
        7 * ANGLE_EIGHTH
    } else {
        ANGLE_PI as int
    }
}

/// The direction that octant interval `k` belongs to.
pub open spec fn octant_direction(k: int) -> Direction {
    if k == 0 {
        Direction::Left
    } else if k == 1 {
        Direction::UpLeft
    } else if k == 2 {
        Direction::Up
    } else if k == 3 {
        Direction::UpRight
    } else if k == 4 {
        Direction::Right
    } else if k == 5 {
        Direction::Right
    } else if k == 6 {
        Direction::DownRight
    } else if k == 7 {
        Direction::Down
    } else if k == 8 {
        Direction::DownLeft
    } else {
        Direction::Left
    }
}

/// Whether angle `a` lies in octant interval `k` (both ends included).
pub open spec fn in_octant(k: int, a: int) -> bool {
    octant_low(k) <= a <= octant_high(k)
}

/// Every angle in `[-ANGLE_PI, ANGLE_PI]` lies in some octant interval, and
/// `classify` agrees with the direction of that interval: the ten closed
/// intervals leave no gap.
pub proof fn lemma_octants_cover(a: int)
    requires
        -ANGLE_PI <= a <= ANGLE_PI,
    ensures
        exists|k: int| 0 <= k < 10 && #[trigger] in_octant(k, a) && octant_direction(k) == classify(a),
{
    let k = if a <= -7 * ANGLE_EIGHTH {
        0int
    } else if a <= -5 * ANGLE_EIGHTH {
        1int
    } else if a <= -3 * ANGLE_EIGHTH {
        2int
    } else if a <= -ANGLE_EIGHTH {
        3int
    } else if a < 0 {
        4int
    } else if a <= ANGLE_EIGHTH {
        5int
    } else if a <= 3 * ANGLE_EIGHTH {
        6int
    } else if a <= 5 * ANGLE_EIGHTH {
        7int
    } else if a <= 7 * ANGLE_EIGHTH {
        8int
    } else {
        9int
    };
    assert(in_octant(k, a) && octant_direction(k) == classify(a));
}

/// Two distinct octant intervals share at most their common boundary point,
/// and the only two intervals carrying the same direction that touch at all
/// are the two Right intervals, which meet exactly at angle zero.
pub proof fn lemma_octants_overlap(a: int, j: int, k: int)
    requires
        0 <= j < 10,
        0 <= k < 10,
        j != k,
        in_octant(j, a),
        in_octant(k, a),
    ensures
        j == k + 1 || k == j + 1,
        j == k + 1 ==> a == octant_high(k),
        k == j + 1 ==> a == octant_high(j),
        octant_direction(j) == octant_direction(k) ==> a == 0 && octant_direction(j)
            == Direction::Right,
{
}

/// Ties resolve deterministically: at an interior boundary between two
/// octants, `classify` picks the one that the source checks first; at the two
/// ends of the range it picks Left, so `pi` and `-pi` agree.
pub proof fn lemma_classify_at_boundaries()
    ensures
        classify(ANGLE_PI as int) == Direction::Left,
        classify(-ANGLE_PI as int) == Direction::Left,
        classify(0) == Direction::Right,
        classify(ANGLE_EIGHTH as int) == Direction::Right,
        classify(-ANGLE_EIGHTH as int) == Direction::UpRight,
{
}

/// Every angle within an eighth of a turn of east classifies as Right, apart
/// from the single shared boundary `-pi/8`, which the check order assigns to
/// the adjoining UpRight octant.
pub proof fn lemma_right_octant(a: int)
    requires
        -ANGLE_EIGHTH <= a <= ANGLE_EIGHTH,
    ensures
        classify(a) == Direction::Right || classify(a) == Direction::UpRight,
        a != -ANGLE_EIGHTH ==> classify(a) == Direction::Right,
        a == -ANGLE_EIGHTH ==> classify(a) == Direction::UpRight,
{
}

/// Whether the bearing of the vector whose component along some axis is
/// `main` (and across it `other`) lies within an eighth of a turn of that
/// axis: `|other| <= tan(pi/8) * |main|`.  Since `tan(pi/8)` is `sqrt(2) - 1`,
/// squaring `|main| + |other| <= sqrt(2) * |main|` states it exactly over the
/// integers.
pub open spec fn near_axis(main: int, other: int) -> bool {
    (abs(main) + abs(other)) * (abs(main) + abs(other)) <= 2 * (abs(main) * abs(main))
}

/// The compass direction of the bearing from the origin toward `(dx, dy)`
/// (y grows downward).  For integer vectors this is exactly the octant that
/// `classify` would assign to the vector's bearing: the octant boundaries,
/// odd multiples of `pi / 8`, have irrational slope and pass through no
/// integer point, so no tie can arise.
pub open spec fn classify_vector(dx: int, dy: int) -> Direction
    recommends
        !(dx == 0 && dy == 0),
{
    if near_axis(dx, dy) {
        if dx >= 0 {
            Direction::Right
        } else {
            Direction::Left
        }
    } else if near_axis(dy, dx) {
        if dy >= 0 {
            Direction::Down
        } else {
            Direction::Up
        }
    } else if dx > 0 && dy > 0 {
        Direction::DownRight
    } else if dx < 0 && dy > 0 {
        Direction::DownLeft
    } else if dx > 0 && dy < 0 {
        Direction::UpRight
    } else {
        Direction::UpLeft
    }
}

impl Direction {
    /// Compass direction of the bearing toward `(dx, dy)`, computed with
    /// exact integer comparisons.
    pub fn from_vector(dx: i64, dy: i64) -> (d: Direction)
        requires
            -2_000_000 <= dx <= 2_000_000,
            -2_000_000 <= dy <= 2_000_000,
            !(dx == 0 && dy == 0),
        ensures
            d == classify_vector(dx as int, dy as int),
    {
        let ax = if dx >= 0 { dx } else { -dx };
        let ay = if dy >= 0 { dy } else { -dy };
        let t = ax + ay;
        proof {
            assert(abs(dx as int) == ax && abs(dy as int) == ay);
            assert(0 <= t * t <= 16_000_000_000_000) by (nonlinear_arith)
                requires
                    0 <= t <= 4_000_000,
            ;
            assert(0 <= ax * ax <= 4_000_000_000_000 && 0 <= ay * ay <= 4_000_000_000_000)
                by (nonlinear_arith)
                requires
                    0 <= ax <= 2_000_000,
                    0 <= ay <= 2_000_000,
            ;
        }
        if t * t <= 2 * (ax * ax) {
            if dx >= 0 {
                Direction::Right
            } else {
                Direction::Left
            }
        } else if t * t <= 2 * (ay * ay) {
            if dy >= 0 {
                Direction::Down
            } else {
                Direction::Up
            }
        } else if dx > 0 && dy > 0 {
            Direction::DownRight
        } else if dx < 0 && dy > 0 {
            Direction::DownLeft
        } else if dx > 0 && dy < 0 {
            Direction::UpRight
        } else {
            Direction::UpLeft
        }
    }
}

/// The two classifiers agree on the eight bearings that both can represent
/// exactly: the four axes and the four diagonals.
pub proof fn lemma_classifiers_agree_on_exact_bearings()
    ensures
        classify_vector(1, 0) == classify(0),
        classify_vector(1, 1) == classify(2 * ANGLE_EIGHTH),
        classify_vector(0, 1) == classify(4 * ANGLE_EIGHTH),
        classify_vector(-1, 1) == classify(6 * ANGLE_EIGHTH),
        classify_vector(-1, 0) == classify(ANGLE_PI as int),
        classify_vector(-1, -1) == classify(-6 * ANGLE_EIGHTH),
        classify_vector(0, -1) == classify(-4 * ANGLE_EIGHTH),
        classify_vector(1, -1) == classify(-2 * ANGLE_EIGHTH),
{
    assert(abs(1) == 1 && abs(0) == 0 && abs(-1) == 1);
    assert((0int) * (0int) == 0 && (1int) * (1int) == 1 && (2int) * (2int) == 4) by (nonlinear_arith);
    assert(near_axis(1, 0) && near_axis(-1, 0) && !near_axis(0, 1) && !near_axis(0, -1));
    assert(!near_axis(1, 1) && !near_axis(-1, 1) && !near_axis(1, -1) && !near_axis(-1, -1));
}

} // verus!
