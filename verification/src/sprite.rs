//! Sprite selection: which two-frame set to draw, which of its two frames,
//! and where on the surface.

use vstd::prelude::*;
use vstd::math::min;
use vstd::arithmetic::div_mod::lemma_fundamental_div_mod;
use vstd::arithmetic::div_mod::lemma_fundamental_div_mod_converse;
use crate::direction::Direction;
use crate::geometry::Position;

verus! {

/// Width and height of a sprite frame, in pixels.
pub const SPRITE_SIZE: i64 = 32;

/// Which two-frame sprite set a blit draws from: the washing loop while
/// sitting, or one of the eight direction-specific running loops.
#[derive(Clone, Copy, Debug, PartialEq, Eq, Structural)]
pub enum SpriteSet {
    Wash,
    Run(Direction),
}

/// One sprite blit: the rectangle to cover and the frame to put there.
#[derive(Clone, Copy, Debug, PartialEq, Eq, Structural)]
pub struct Blit {
    pub min: Position,
    pub max: Position,
    pub sprite: SpriteSet,
    pub frame: usize,
}

/// Index of the frame of a two-frame loop shown at tick `t`: the frames
/// alternate every ten ticks.
pub open spec fn spec_frame_index(t: nat) -> nat {
    (t / 10) % 2
}

/// Frame of the two-frame loop shown at tick `ticker`.
pub fn frame_index(ticker: usize) -> (i: usize)
    ensures
        i == spec_frame_index(ticker as nat),
        i < 2,
{
    (ticker / 10) % 2
}

/// The blit that draws sprite set `s` anchored at `pos` on tick `t`: a square
/// of side `SPRITE_SIZE`, clamped so it never exceeds the surface's visible
/// bounds on the lower/right edges (it may hang off the top/left).
pub open spec fn blit_for(pos: Position, surface_max: Position, s: SpriteSet, t: nat) -> Blit {
    Blit {
        min: pos,
        max: Position {
            x: min(pos.x + SPRITE_SIZE, surface_max.x as int) as i64,
            y: min(pos.y + SPRITE_SIZE, surface_max.y as int) as i64,
        },
        sprite: s,
        frame: spec_frame_index(t) as usize,
    }
}

/// Build the blit for sprite set `s` at `pos` on tick `ticker`.
pub fn make_blit(pos: Position, surface_max: Position, s: SpriteSet, ticker: usize) -> (b: Blit)
    requires
        pos.in_bounds(),
    ensures
        b == blit_for(pos, surface_max, s, ticker as nat),
{
    let mx = pos.x + SPRITE_SIZE;
    let my = pos.y + SPRITE_SIZE;
    let bx = if mx <= surface_max.x {
        mx
    } else {
        surface_max.x
    };
    let by = if my <= surface_max.y {
        my
    } else {
        surface_max.y
    };
    Blit {
        min: pos,
        max: Position { x: bx, y: by },
        sprite: s,
        frame: frame_index(ticker),
    }
}

/// The frame index is deterministic with period twenty ticks: each still
/// frame is held for ten ticks, and the frame shown ten ticks later is the
/// other one.
pub proof fn lemma_frame_alternation(t: nat)
    ensures
        spec_frame_index(t) < 2,
        spec_frame_index(t + 20) == spec_frame_index(t),
        spec_frame_index(t + 10) != spec_frame_index(t),
{
    let q = t / 10;
    let r = t % 10;
    lemma_fundamental_div_mod(t as int, 10);
    lemma_fundamental_div_mod_converse(t as int + 10, 10, q as int + 1, r as int);
    lemma_fundamental_div_mod_converse(t as int + 20, 10, q as int + 2, r as int);
    let h = q / 2;
    let p = q % 2;
    lemma_fundamental_div_mod(q as int, 2);
    lemma_fundamental_div_mod_converse(q as int + 2, 2, h as int + 1, p as int);
    if p == 0 {
        lemma_fundamental_div_mod_converse(q as int + 1, 2, h as int, 1);
    } else {
        lemma_fundamental_div_mod_converse(q as int + 1, 2, h as int + 1, 0);
    }
}

} // verus!
