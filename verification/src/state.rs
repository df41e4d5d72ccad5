//! The animation state machine: per-frame bookkeeping, the sitting/running
//! states, and the display step each state takes.

use vstd::prelude::*;
use crate::direction::Direction;
use crate::direction::classify_vector;
use crate::geometry::Position;
use crate::geometry::MAX_SPEED;
use crate::geometry::dist2;
use crate::geometry::dist_squared;
use crate::geometry::chase_step;
use crate::geometry::sqrt_floor;
use crate::geometry::step_delta;
use crate::sprite::SpriteSet;
use crate::sprite::Blit;
use crate::sprite::blit_for;
use crate::sprite::make_blit;

verus! {

/// Positional and timing state shared by the animation states: where the cat
/// is, where the cursor was last seen, how fast the cat moves, and the frame
/// counter.
pub struct Bookkeeping {
    pub pos: Position,
    pub last_cursor_pos: Position,
    /// Speed of the cat in pixels per movement tick; fixed at construction.
    pub speed: i64,
    pub ticker: usize,
}

/// The ticker advanced by one frame, wrapping at the representable maximum
/// instead of overflowing.
pub open spec fn wrap_inc(t: usize) -> usize {
    if t == usize::MAX {
        0usize
    } else {
        (t + 1) as usize
    }
}

impl Bookkeeping {
    /// Coordinates small enough for exact squared-distance arithmetic, and a
    /// positive bounded speed.
    pub open spec fn wf(self) -> bool {
        &&& self.pos.in_bounds()
        &&& self.last_cursor_pos.in_bounds()
        &&& 1 <= self.speed <= MAX_SPEED
    }

    /// The cursor is at least three speeds away from the cat: far enough to
    /// wake it, compared exactly through the squared distance.
    pub open spec fn cursor_is_far(self) -> bool {
        dist2(self.pos, self.last_cursor_pos) >= 9 * self.speed * self.speed
    }

    /// The cat only moves on every tenth frame.
    pub open spec fn is_movement_tick(self) -> bool {
        self.ticker % 10 == 0
    }

    /// Advance the frame counter by one, wrapping at the maximum.
    pub fn advance_ticker(&mut self)
        ensures
            final(self).ticker == wrap_inc(old(self).ticker),
            final(self).pos == old(self).pos,
            final(self).last_cursor_pos == old(self).last_cursor_pos,
            final(self).speed == old(self).speed,
    {
        if self.ticker == usize::MAX {
            self.ticker = 0;
        } else {
            self.ticker = self.ticker + 1;
        }
    }

    /// Whether the cursor is currently far enough away to chase.
    pub fn cursor_far(&self) -> (far: bool)
        requires
            self.wf(),
        ensures
            far == self.cursor_is_far(),
    {
        let dd = dist_squared(&self.pos, &self.last_cursor_pos);
        let t3 = 3 * self.speed;
        proof {
            assert(t3 * t3 == 9 * self.speed * self.speed && 0 <= t3 * t3
                <= 900_000_000) by (nonlinear_arith)
                requires
                    t3 == 3 * self.speed,
                    1 <= self.speed <= 10_000,
            ;
        }
        dd >= t3 * t3
    }
}

/// The behavioural mode of the cat: sitting (washing itself) or running
/// toward the cursor in some compass direction.
#[derive(Clone, Copy, Debug, PartialEq, Eq, Structural)]
pub enum AnimationState {
    Sitting,
    Running(Direction),
}

/// The sprite set a state draws from.
pub open spec fn state_sprite(s: AnimationState) -> SpriteSet {
    match s {
        AnimationState::Sitting => SpriteSet::Wash,
        AnimationState::Running(d) => SpriteSet::Run(d),
    }
}

/// The position after one chase step: `speed` pixels from the cat's position
/// along the straight-line bearing toward the cursor, each component rounded
/// to the nearest pixel.
pub open spec fn chase_pos(b: Bookkeeping) -> Position {
    let dist = sqrt_floor(dist2(b.pos, b.last_cursor_pos) as nat) as int;
    Position {
        x: (b.pos.x + step_delta(b.last_cursor_pos.x - b.pos.x, dist, b.speed as int)) as i64,
        y: (b.pos.y + step_delta(b.last_cursor_pos.y - b.pos.y, dist, b.speed as int)) as i64,
    }
}

/// The compass direction of the bearing from the cat to the cursor.
pub open spec fn chase_direction(b: Bookkeeping) -> Direction {
    classify_vector(
        b.last_cursor_pos.x - b.pos.x,
        b.last_cursor_pos.y - b.pos.y,
    )
}

impl AnimationState {
    /// Whether this state hands control to the other one on this frame: a
    /// sitting cat wakes when the cursor has gotten far enough away, a
    /// running cat sits back down as soon as it is close enough.
    pub open spec fn wants_transition(self, books: Bookkeeping) -> bool {
        match self {
            AnimationState::Sitting => books.cursor_is_far(),
            AnimationState::Running(_) => !books.cursor_is_far(),
        }
    }

    /// The replacement state when a transition fires.  A fresh Running state
    /// starts with an arbitrary direction (Right): the direction is fully
    /// recomputed from the bearing on the first movement tick before anything
    /// reads it.
    pub open spec fn transition_target(self) -> AnimationState {
        match self {
            AnimationState::Sitting => AnimationState::Running(Direction::Right),
            AnimationState::Running(_) => AnimationState::Sitting,
        }
    }
}

/// Everything a display step that keeps its state does: the cursor, speed and
/// ticker are left alone; a sitting cat also keeps its position; a running
/// cat advances one chase step on a movement tick (recomputing its direction
/// from the bearing, taken before moving) and stands still otherwise; and the
/// blit drawn covers the (new) position with the current state's sprite set
/// and the frame the ticker selects.
pub open spec fn display_outcome(
    s: AnimationState,
    b: Bookkeeping,
    surface_max: Position,
    s2: AnimationState,
    b2: Bookkeeping,
    blit: Blit,
) -> bool {
    &&& b2.last_cursor_pos == b.last_cursor_pos
    &&& b2.speed == b.speed
    &&& b2.ticker == b.ticker
    &&& match s {
        AnimationState::Sitting => {
            &&& b2 == b
            &&& s2 == s
        },
        AnimationState::Running(_) => {
            if b.is_movement_tick() {
                &&& b2.pos == chase_pos(b)
                &&& dist2(b2.pos, b.last_cursor_pos) < dist2(b.pos, b.last_cursor_pos)
                &&& s2 == AnimationState::Running(chase_direction(b))
            } else {
                &&& b2 == b
                &&& s2 == s
            }
        },
    }
    &&& blit == blit_for(b2.pos, surface_max, state_sprite(s2), b.ticker as nat)
}

impl AnimationState {
    /// One frame of the active animation: either request a transition,
    /// returning the replacement state and leaving everything else alone, or
    /// keep the state, update the bookkeeping and return the blit to draw.
    /// The caller applies returned states until none is returned.
    pub fn display(&mut self, books: &mut Bookkeeping, surface_max: Position) -> (r: (
        Option<AnimationState>,
        Option<Blit>,
    ))
        requires
            old(books).wf(),
        ensures
            final(books).wf(),
            old(self).wants_transition(*old(books)) ==> {
                &&& r == (Some(old(self).transition_target()), None::<Blit>)
                &&& *final(books) == *old(books)
                &&& *final(self) == *old(self)
            },
            !old(self).wants_transition(*old(books)) ==> {
                &&& r.0 is None
                &&& r.1 matches Some(blit) && display_outcome(
                    *old(self),
                    *old(books),
                    surface_max,
                    *final(self),
                    *final(books),
                    blit,
                )
            },
    {
        let far = books.cursor_far();
        match *self {
            AnimationState::Sitting => {
                if far {
                    // The cursor has gotten far enough away: wake up.
                    (Some(AnimationState::Running(Direction::Right)), None)
                } else {
                    let blit = make_blit(books.pos, surface_max, SpriteSet::Wash, books.ticker);
                    (None, Some(blit))
                }
            },
            AnimationState::Running(dir0) => {
                if !far {
                    // Close enough to the cursor: go back to sitting.
                    (Some(AnimationState::Sitting), None)
                } else {
                    let mut dir = dir0;
                    if books.ticker % 10 == 0 {
                        let dx = books.last_cursor_pos.x - books.pos.x;
                        let dy = books.last_cursor_pos.y - books.pos.y;
                        proof {
                            assert(!(dx == 0 && dy == 0)) by (nonlinear_arith)
                                requires
                                    dx * dx + dy * dy >= 9 * books.speed * books.speed,
                                    books.speed >= 1,
                            ;
                        }
                        dir = Direction::from_vector(dx, dy);
                        let moved = chase_step(&books.pos, &books.last_cursor_pos, books.speed);
                        books.pos = moved;
                        *self = AnimationState::Running(dir);
                    }
                    let blit = make_blit(
                        books.pos,
                        surface_max,
                        SpriteSet::Run(dir),
                        books.ticker,
                    );
                    (None, Some(blit))
                }
            },
        }
    }
}

/// A sitting cat whose cursor is close by requests no transition and leaves
/// the bookkeeping alone: held over frames with a stationary cursor, the cat
/// sits indefinitely and its position never changes.
pub proof fn lemma_sitting_remains(
    s: AnimationState,
    b: Bookkeeping,
    surface_max: Position,
    s2: AnimationState,
    b2: Bookkeeping,
    blit: Blit,
)
    requires
        s is Sitting,
        !b.cursor_is_far(),
        display_outcome(s, b, surface_max, s2, b2, blit),
    ensures
        !s.wants_transition(b),
        s2 is Sitting,
        b2 == b,
{
}

/// Whether the cursor is far depends only on the positions and the speed:
/// the ticker advancing from frame to frame never changes the outcome by
/// itself.
pub proof fn lemma_far_ignores_ticker(b: Bookkeeping, t: usize)
    ensures
        (Bookkeeping { ticker: t, ..b }).cursor_is_far() == b.cursor_is_far(),
{
}

/// While the cursor is held at least three speeds away, a running cat stays
/// running, and on a movement tick it advances one rounded chase step along
/// the current bearing, coming strictly closer to the cursor.
pub proof fn lemma_running_approaches(
    s: AnimationState,
    b: Bookkeeping,
    surface_max: Position,
    s2: AnimationState,
    b2: Bookkeeping,
    blit: Blit,
)
    requires
        s is Running,
        b.cursor_is_far(),
        b.is_movement_tick(),
        display_outcome(s, b, surface_max, s2, b2, blit),
    ensures
        !s.wants_transition(b),
        s2 == AnimationState::Running(chase_direction(b)),
        b2.pos == chase_pos(b),
        dist2(b2.pos, b.last_cursor_pos) < dist2(b.pos, b.last_cursor_pos),
{
}

/// The moment the cursor comes within three speeds of a running cat, the very
/// next display step transitions back to Sitting: there is no extra frame of
/// running.
pub proof fn lemma_running_sleeps_immediately(s: AnimationState, b: Bookkeeping)
    requires
        s is Running,
        !b.cursor_is_far(),
    ensures
        s.wants_transition(b),
        s.transition_target() is Sitting,
{
}

} // verus!
