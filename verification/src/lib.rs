//! A decorative animated widget: a small cat that sits on screen, wakes when
//! the pointer moves far enough away, and chases it, switching between a
//! washing animation and eight direction-specific running animations.
//!
//! The library holds the whole behavioural core — the animation state
//! machine, the bearing-to-direction classification, the chase geometry and
//! the sprite selection — over plain integer pixel coordinates and a
//! fixed-point angle scale.  A thin host layer owns the GUI toolkit: it reads
//! the pointer, hands the coordinates in, and blits the sprite frame that a
//! draw step asks for.

use vstd::prelude::*;

pub mod direction;
pub mod geometry;
pub mod sprite;
pub mod state;

use crate::geometry::Position;
use crate::sprite::Blit;
use crate::state::AnimationState;
use crate::state::Bookkeeping;
use crate::state::display_outcome;
use crate::state::wrap_inc;

verus! {

/// The bookkeeping at the start of a frame: the ticker advanced once
/// (wrapping at the maximum), and the last known cursor position refreshed
/// from the host if it reported one — when the pointer is not tracked, the
/// previous value is kept rather than treated as an origin cursor.
pub open spec fn draw_books(b: Bookkeeping, cursor: Option<Position>) -> Bookkeeping {
    Bookkeeping {
        pos: b.pos,
        last_cursor_pos: match cursor {
            Some(c) => c,
            None => b.last_cursor_pos,
        },
        speed: b.speed,
        ticker: wrap_inc(b.ticker),
    }
}

/// The state the machine settles in for a frame.  At most one transition can
/// fire per frame: a transition leaves the bookkeeping alone and flips which
/// side of the far/near test the machine is on, so the replacement state is
/// always stable — but `draw` still loops rather than assuming this.
pub open spec fn settled_state(s: AnimationState, b: Bookkeeping) -> AnimationState {
    if s.wants_transition(b) {
        s.transition_target()
    } else {
        s
    }
}

/// A handle on a cat that may be drawn to follow a cursor: it owns the
/// bookkeeping and the current animation state, replaced wholesale on each
/// transition.
pub struct Neko {
    pub bookkeeping: Bookkeeping,
    pub animation: AnimationState,
}

impl Neko {
    /// The widget's invariant: its bookkeeping stays well formed.
    pub open spec fn wf(self) -> bool {
        self.bookkeeping.wf()
    }

    /// Create a new cat: sitting at the origin, moving twelve pixels per
    /// movement tick once it runs.
    pub fn new() -> (n: Neko)
        ensures
            n.wf(),
            n.animation == AnimationState::Sitting,
            n.bookkeeping.pos == (Position { x: 0, y: 0 }),
            n.bookkeeping.last_cursor_pos == (Position { x: 0, y: 0 }),
            n.bookkeeping.speed == 12,
            n.bookkeeping.ticker == 0,
    {
        Neko {
            bookkeeping: Bookkeeping {
                pos: Position { x: 0, y: 0 },
                last_cursor_pos: Position { x: 0, y: 0 },
                speed: 12,
                ticker: 0,
            },
            animation: AnimationState::Sitting,
        }
    }

    /// One frame of the cat: advance the ticker (wrapping on overflow),
    /// refresh the last known cursor position if the host reported one, run
    /// the state machine to a fixed point, and return the single sprite blit
    /// the frame draws, clamped to the surface's lower/right bounds.
    pub fn draw(&mut self, cursor: Option<Position>, surface_max: Position) -> (b: Blit)
        requires
            old(self).wf(),
            cursor matches Some(c) ==> c.in_bounds(),
        ensures
            final(self).wf(),
            final(self).bookkeeping.speed == old(self).bookkeeping.speed,
            final(self).bookkeeping.ticker == wrap_inc(old(self).bookkeeping.ticker),
            final(self).bookkeeping.last_cursor_pos == (match cursor {
                Some(c) => c,
                None => old(self).bookkeeping.last_cursor_pos,
            }),
            ({
                let b0 = draw_books(old(self).bookkeeping, cursor);
                let s1 = settled_state(old(self).animation, b0);
                &&& !s1.wants_transition(b0)
                &&& display_outcome(
                    s1,
                    b0,
                    surface_max,
                    final(self).animation,
                    final(self).bookkeeping,
                    b,
                )
            }),
    {
        self.bookkeeping.advance_ticker();
        if let Some(c) = cursor {
            self.bookkeeping.last_cursor_pos = c;
        }
        let ghost b0 = self.bookkeeping;
        let ghost s0 = self.animation;
        let ghost mut fuel: int = 2;
        loop
            invariant
                self.bookkeeping == b0,
                b0 == draw_books(old(self).bookkeeping, cursor),
                b0.wf(),
                s0 == old(self).animation,
                1 <= fuel <= 2,
                self.animation.wants_transition(b0) ==> fuel == 2 && self.animation == s0,
                !self.animation.wants_transition(b0) ==> self.animation == settled_state(s0, b0),
            decreases fuel,
        {
            let r = self.animation.display(&mut self.bookkeeping, surface_max);
            match r.0 {
                Some(next) => {
                    self.animation = next;
                    proof {
                        fuel = 1;
                    }
                },
                None => {
                    return r.1.unwrap();
                },
            }
        }
    }
}


} // verus!
