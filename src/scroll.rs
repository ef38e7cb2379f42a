//! The scroll engine: one pure transition per animation step.

use vstd::prelude::*;

verus! {

/// The way the offset is currently moving.
#[derive(Clone, Copy, Debug, PartialEq, Eq, Structural)]
pub enum Direction {
    Forward,
    Backward,
}

/// Horizontal position of the text, in pixels, and the way it moves.
#[derive(Clone, Copy, Debug, PartialEq, Eq, Structural)]
pub struct ScrollState {
    pub offset: u32,
    pub direction: Direction,
}

/// The state every display request starts from: offset 0, moving forward.
pub open spec fn origin() -> ScrollState {
    ScrollState { offset: 0, direction: Direction::Forward }
}

/// The bounce rule. Moving forward, the offset grows by one, and the step
/// that reaches `width` also turns the direction. Moving backward, it shrinks
/// by one, and the step that reaches 0 turns the direction again. Only a
/// state already at its end (as with text of width 0) turns in place.
pub open spec fn next_state(s: ScrollState, width: u32) -> ScrollState {
    match s.direction {
        Direction::Forward => if s.offset >= width {
            ScrollState { offset: s.offset, direction: Direction::Backward }
        } else {
            ScrollState {
                offset: (s.offset + 1) as u32,
                direction: if s.offset + 1 == width {
                    Direction::Backward
                } else {
                    Direction::Forward
                },
            }
        },
        Direction::Backward => if s.offset == 0 {
            ScrollState { offset: 0, direction: Direction::Forward }
        } else {
            ScrollState {
                offset: (s.offset - 1) as u32,
                direction: if s.offset - 1 == 0 {
                    Direction::Forward
                } else {
                    Direction::Backward
                },
            }
        },
    }
}

/// A state that is moving: forward short of `width`, or backward above 0.
pub open spec fn moving(s: ScrollState, width: u32) -> bool {
    match s.direction {
        Direction::Forward => s.offset < width,
        Direction::Backward => 0 < s.offset <= width,
    }
}

/// The state after `n` steps of the bounce rule from `s`.
pub open spec fn state_after(s: ScrollState, width: u32, n: nat) -> ScrollState
    decreases n,
{
    if n == 0 {
        s
    } else {
        next_state(state_after(s, width, (n - 1) as nat), width)
    }
}

impl ScrollState {
    /// The state at the start of every display request.
    pub fn initial() -> (r: ScrollState)
        ensures
            r == origin(),
    {
        ScrollState { offset: 0, direction: Direction::Forward }
    }
}

/// One step of the bounce rule for text `width` pixels wide.
pub fn advance(s: ScrollState, width: u32) -> (r: ScrollState)
    ensures
        r == next_state(s, width),
        s.offset <= width ==> r.offset <= width,
{
    match s.direction {
        Direction::Forward => {
            if s.offset >= width {
                ScrollState { offset: s.offset, direction: Direction::Backward }
            } else {
                let o = s.offset + 1;
                let d = if o == width {
                    Direction::Backward
                } else {
                    Direction::Forward
                };
                ScrollState { offset: o, direction: d }
            }
        },
        Direction::Backward => {
            if s.offset == 0 {
                ScrollState { offset: 0, direction: Direction::Forward }
            } else {
                let o = s.offset - 1;
                let d = if o == 0 {
                    Direction::Forward
                } else {
                    Direction::Backward
                };
                ScrollState { offset: o, direction: d }
            }
        },
    }
}

/// Starting within `[0, width]`, no number of steps takes the offset out of
/// `[0, width]`.
pub proof fn lemma_offset_within_width(s: ScrollState, width: u32, n: nat)
    requires
        s.offset <= width,
    ensures
        state_after(s, width, n).offset <= width,
    decreases n,
{
    if n > 0 {
        lemma_offset_within_width(s, width, (n - 1) as nat);
    }
}

/// Text of width 0 never moves: starting at offset 0, the offset stays 0
/// after any number of steps, whatever the direction does.
pub proof fn lemma_zero_width_stays_put(s: ScrollState, n: nat)
    requires
        s.offset == 0,
    ensures
        state_after(s, 0, n).offset == 0,
    decreases n,
{
    if n > 0 {
        lemma_zero_width_stays_put(s, (n - 1) as nat);
    }
}

/// Once moving, the text moves by exactly one pixel on every step and keeps
/// moving: the direction turns only in the step that reaches `width` or 0.
/// For text wider than 0 the origin is moving, so from the start every step
/// moves the offset.
pub proof fn lemma_moves_one_pixel(s: ScrollState, width: u32)
    requires
        moving(s, width),
    ensures
        next_state(s, width).offset == s.offset + 1 || next_state(s, width).offset == s.offset - 1,
        moving(next_state(s, width), width),
        next_state(s, width).direction != s.direction ==> (next_state(s, width).offset == width
            || next_state(s, width).offset == 0),
        width > 0 ==> moving(origin(), width),
{
}

proof fn lemma_rising(width: u32, k: nat)
    requires
        k < width,
    ensures
        state_after(origin(), width, k) == (ScrollState { offset: k as u32, direction: Direction::Forward }),
    decreases k,
{
    if k > 0 {
        lemma_rising(width, (k - 1) as nat);
    }
}

proof fn lemma_falling(width: u32, j: nat)
    requires
        0 < width,
        j < width,
    ensures
        state_after(origin(), width, (width + j) as nat) == (ScrollState {
            offset: (width - j) as u32,
            direction: Direction::Backward,
        }),
    decreases j,
{
    if j == 0 {
        lemma_rising(width, (width - 1) as nat);
        assert((width - 1 + 1) as nat == width as nat);
    } else {
        lemma_falling(width, (j - 1) as nat);
        assert((width + j - 1) as nat == width + (j - 1));
    }
}

/// From the origin, text wider than 0 reaches offset `width` after `width`
/// steps, turning in that step; it comes back to 0 after `width` more,
/// turning again, and so is back at the origin after exactly `2 * width`
/// steps.
pub proof fn lemma_bounce_period(width: u32)
    requires
        width > 0,
    ensures
        state_after(origin(), width, width as nat) == (ScrollState {
            offset: width,
            direction: Direction::Backward,
        }),
        state_after(origin(), width, (2 * width) as nat) == origin(),
{
    lemma_falling(width, 0);
    lemma_falling(width, (width - 1) as nat);
    assert((2 * width - 1) as nat == width + (width - 1));
}

} // verus!
