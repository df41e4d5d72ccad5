use neko::direction::Direction;
use neko::geometry::dist_squared;
use neko::geometry::Position;
use neko::sprite::SpriteSet;
use neko::state::AnimationState;
use neko::state::Bookkeeping;
use neko::Neko;

const SURFACE: Position = Position { x: 800, y: 600 };

#[test]
fn new_cat_sits_at_origin() {
    let n = Neko::new();
    assert_eq!(n.animation, AnimationState::Sitting);
    assert_eq!(n.bookkeeping.pos, Position { x: 0, y: 0 });
    assert_eq!(n.bookkeeping.last_cursor_pos, Position { x: 0, y: 0 });
    assert_eq!(n.bookkeeping.speed, 12);
    assert_eq!(n.bookkeeping.ticker, 0);
}

#[test]
fn sitting_cat_with_near_cursor_never_moves() {
    // The cursor sits 10 pixels away: closer than speed * 3 = 36, so the cat
    // stays sitting indefinitely and its position never changes.
    let mut n = Neko::new();
    let cursor = Position { x: 10, y: 0 };
    for _ in 0..100 {
        let blit = n.draw(Some(cursor), SURFACE);
        assert_eq!(n.animation, AnimationState::Sitting);
        assert_eq!(n.bookkeeping.pos, Position { x: 0, y: 0 });
        assert_eq!(blit.sprite, SpriteSet::Wash);
    }
}

#[test]
fn far_cursor_wakes_and_chases() {
    // position (0,0), cursor (100,0), speed 12: distance 100 >= 36, so the
    // cat runs; the bearing is east, so the direction is Right, and the first
    // movement tick puts it at (12,0).
    let mut n = Neko::new();
    let cursor = Position { x: 100, y: 0 };
    let blit = n.draw(Some(cursor), SURFACE);
    assert_eq!(n.animation, AnimationState::Running(Direction::Right));
    // Ticks 1 through 9 are not movement ticks: the cat stands still.
    assert_eq!(n.bookkeeping.pos, Position { x: 0, y: 0 });
    assert_eq!(blit.sprite, SpriteSet::Run(Direction::Right));
    for _ in 0..8 {
        n.draw(Some(cursor), SURFACE);
        assert_eq!(n.bookkeeping.pos, Position { x: 0, y: 0 });
    }
    // The tenth tick moves exactly `speed` pixels along the bearing.
    n.draw(Some(cursor), SURFACE);
    assert_eq!(n.bookkeeping.ticker, 10);
    assert_eq!(n.bookkeeping.pos, Position { x: 12, y: 0 });
    assert_eq!(n.animation, AnimationState::Running(Direction::Right));
}

#[test]
fn chase_approaches_cursor_every_movement_tick() {
    let mut n = Neko::new();
    let cursor = Position { x: 300, y: 200 };
    let mut last = dist_squared(&n.bookkeeping.pos, &cursor);
    for _ in 0..300 {
        let pos_before = n.bookkeeping.pos;
        n.draw(Some(cursor), SURFACE);
        if n.bookkeeping.pos != pos_before {
            let now = dist_squared(&n.bookkeeping.pos, &cursor);
            assert!(now < last);
            last = now;
        }
    }
    // After thirty movement ticks of twelve pixels it must have come to rest
    // near the cursor.
    assert_eq!(n.animation, AnimationState::Sitting);
    assert!(dist_squared(&n.bookkeeping.pos, &cursor) < 36 * 36);
}

#[test]
fn running_cat_sits_the_very_next_frame() {
    // A running cat whose cursor is suddenly close sits back down on the very
    // next display step, with no extra frame of running.
    let mut n = Neko {
        bookkeeping: Bookkeeping {
            pos: Position { x: 0, y: 0 },
            last_cursor_pos: Position { x: 100, y: 0 },
            speed: 12,
            ticker: 5,
        },
        animation: AnimationState::Running(Direction::Right),
    };
    let blit = n.draw(Some(Position { x: 10, y: 0 }), SURFACE);
    assert_eq!(n.animation, AnimationState::Sitting);
    assert_eq!(n.bookkeeping.pos, Position { x: 0, y: 0 });
    assert_eq!(blit.sprite, SpriteSet::Wash);
}

#[test]
fn ticker_wraps_at_the_maximum() {
    let mut n = Neko::new();
    n.bookkeeping.ticker = usize::MAX;
    n.draw(Some(Position { x: 5, y: 0 }), SURFACE);
    assert_eq!(n.bookkeeping.ticker, 0);
    n.draw(Some(Position { x: 5, y: 0 }), SURFACE);
    assert_eq!(n.bookkeeping.ticker, 1);
}

#[test]
fn frame_index_alternates_with_period_twenty() {
    let mut n = Neko::new();
    let cursor = Position { x: 3, y: 0 };
    let mut frames: Vec<usize> = Vec::new();
    for _ in 0..60 {
        let blit = n.draw(Some(cursor), SURFACE);
        frames.push(blit.frame);
    }
    for (i, f) in frames.iter().enumerate() {
        let ticker = i + 1;
        assert_eq!(*f, (ticker / 10) % 2);
    }
    for i in 0..40 {
        assert_eq!(frames[i], frames[i + 20]);
    }
    for i in 0..9 {
        // Within reach of this window, ten ticks later shows the other frame.
        assert_ne!(frames[i], frames[i + 10]);
    }
}

#[test]
fn missing_pointer_keeps_last_cursor_position() {
    let mut n = Neko::new();
    let cursor = Position { x: 200, y: 0 };
    n.draw(Some(cursor), SURFACE);
    assert_eq!(n.bookkeeping.last_cursor_pos, cursor);
    // No pointer this frame: the previous position is retained, not reset.
    n.draw(None, SURFACE);
    assert_eq!(n.bookkeeping.last_cursor_pos, cursor);
    assert_eq!(n.animation, AnimationState::Running(Direction::Right));
}

#[test]
fn blit_clamps_to_surface_bounds() {
    let mut n = Neko {
        bookkeeping: Bookkeeping {
            pos: Position { x: 790, y: 590 },
            last_cursor_pos: Position { x: 795, y: 592 },
            speed: 12,
            ticker: 0,
        },
        animation: AnimationState::Sitting,
    };
    let blit = n.draw(Some(Position { x: 795, y: 592 }), SURFACE);
    assert_eq!(blit.min, Position { x: 790, y: 590 });
    assert_eq!(blit.max, Position { x: 800, y: 600 });
    // Away from the edges the sprite square is unclamped.
    let mut m = Neko::new();
    let b2 = m.draw(Some(Position { x: 5, y: 0 }), SURFACE);
    assert_eq!(b2.min, Position { x: 0, y: 0 });
    assert_eq!(b2.max, Position { x: 32, y: 32 });
}

#[test]
fn chase_direction_follows_the_bearing() {
    // Start a cat running toward a cursor high above and to the left: the
    // recomputed direction on the movement tick reflects that bearing.
    let mut n = Neko {
        bookkeeping: Bookkeeping {
            pos: Position { x: 500, y: 500 },
            last_cursor_pos: Position { x: 500, y: 500 },
            speed: 12,
            ticker: 8,
        },
        animation: AnimationState::Sitting,
    };
    let cursor = Position { x: 300, y: 300 };
    n.draw(Some(cursor), SURFACE);
    assert_eq!(n.animation, AnimationState::Running(Direction::Right));
    n.draw(Some(cursor), SURFACE);
    // Ticker 10: a movement tick; the bearing is up-left.
    assert_eq!(n.animation, AnimationState::Running(Direction::UpLeft));
    assert_eq!(n.bookkeeping.pos, Position { x: 491, y: 491 });
}
