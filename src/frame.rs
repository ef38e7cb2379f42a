//! The frame loop that runs inside an animation task, as a state machine.
//!
//! The task primes the canvas with a first frame, then wakes once per tick.
//! After each wake it reports whether it is still asked to run; the machine
//! answers with what to do: paint a frame at some offset, wait for the next
//! tick, or exit.

use vstd::prelude::*;
use crate::font::{content_width, width_of_text, MeasureError};
use crate::scroll::{advance, next_state, origin, ScrollState};

verus! {

/// Length of one tick, in milliseconds. It does not depend on the scroll
/// speed: a stop request is seen within one tick.
pub const TICK_MS: u64 = 10;

#[derive(Clone, Copy, Debug, PartialEq, Eq, Structural)]
pub enum Phase {
    /// The first frame has not been painted yet.
    Priming,
    /// Frames are painted as the ticks accumulate.
    Animating,
    /// The stop flag was seen cleared; the task exits.
    Stopping,
}

/// What the task does next.
#[derive(Clone, Copy, Debug, PartialEq, Eq, Structural)]
pub enum FrameAction {
    /// Clear the canvas and paint the text shifted left by `offset` pixels.
    Paint { offset: u32 },
    /// Sleep until the next tick.
    Wait,
    /// Leave the loop and end the task.
    Exit,
}

/// State of one animation task's frame loop.
#[derive(Clone, Copy, Debug, PartialEq, Eq, Structural)]
pub struct FrameLoop {
    pub phase: Phase,
    pub scroll: ScrollState,
    /// Ticks since the offset last moved.
    pub ticks: u32,
    /// Width of the rendered text, in pixels.
    pub width: u32,
    /// Milliseconds that must pass, strictly exceeded, before the next step.
    pub ms_per_pixel: u16,
}

impl FrameLoop {
    /// The offset stays within the text, and the ticks counted so far have
    /// not yet exceeded the step time.
    pub open spec fn wf(self) -> bool {
        &&& self.scroll.offset <= self.width
        &&& self.ticks * TICK_MS <= self.ms_per_pixel
    }

    /// What one tick does: the new state and the action.
    pub open spec fn tick_outcome(self, running: bool) -> (FrameLoop, FrameAction) {
        if !running {
            (FrameLoop { phase: Phase::Stopping, ..self }, FrameAction::Exit)
        } else if (self.ticks + 1) * TICK_MS > self.ms_per_pixel {
            let s = next_state(self.scroll, self.width);
            (FrameLoop { scroll: s, ticks: 0, ..self }, FrameAction::Paint { offset: s.offset })
        } else {
            (FrameLoop { ticks: (self.ticks + 1) as u32, ..self }, FrameAction::Wait)
        }
    }

    /// The state after `n` ticks with the stop flag still set.
    pub open spec fn after_ticks(self, n: nat) -> FrameLoop
        decreases n,
    {
        if n == 0 {
            self
        } else {
            self.after_ticks((n - 1) as nat).tick_outcome(true).0
        }
    }

    /// A frame loop for text `width` pixels wide, before its first frame.
    pub fn new(width: u32, ms_per_pixel: u16) -> (r: FrameLoop)
        ensures
            r.wf(),
            r.phase == Phase::Priming,
            r.scroll == origin(),
            r.ticks == 0,
            r.width == width,
            r.ms_per_pixel == ms_per_pixel,
    {
        FrameLoop {
            phase: Phase::Priming,
            scroll: ScrollState::initial(),
            ticks: 0,
            width,
            ms_per_pixel,
        }
    }

    /// The frame loop of a task that shows `text`: the text is measured, and
    /// the loop bounces over its width. A text that is too long, or that the
    /// font cannot render, gives the measuring error and no loop.
    pub fn for_text(text: &str, ms_per_pixel: u16) -> (r: Result<FrameLoop, MeasureError>)
        ensures
            match width_of_text(text@) {
                Ok(w) => r == Ok::<FrameLoop, MeasureError>(FrameLoop {
                    phase: Phase::Priming,
                    scroll: origin(),
                    ticks: 0,
                    width: w,
                    ms_per_pixel,
                }),
                Err(e) => r == Err::<FrameLoop, MeasureError>(e),
            },
            r is Ok ==> r->Ok_0.wf(),
            text@.len() == 0 ==> r == Ok::<FrameLoop, MeasureError>(FrameLoop {
                phase: Phase::Priming,
                scroll: origin(),
                ticks: 0,
                width: 0,
                ms_per_pixel,
            }),
    {
        match content_width(text) {
            Ok(w) => Ok(FrameLoop::new(w, ms_per_pixel)),
            Err(e) => Err(e),
        }
    }

    /// The first frame: paint at the current offset and start animating.
    pub fn prime(&mut self) -> (r: FrameAction)
        requires
            old(self).phase == Phase::Priming,
        ensures
            r == (FrameAction::Paint { offset: old(self).scroll.offset }),
            *final(self) == (FrameLoop { phase: Phase::Animating, ..*old(self) }),
    {
        self.phase = Phase::Animating;
        FrameAction::Paint { offset: self.scroll.offset }
    }

    /// One tick, after the task has slept and read the stop flag into
    /// `running`. A cleared flag ends the loop. Otherwise the tick is
    /// counted; once the counted ticks exceed `ms_per_pixel`, the offset
    /// takes one step of the bounce rule, the new offset is painted, and the
    /// count starts again.
    pub fn tick(&mut self, running: bool) -> (r: FrameAction)
        requires
            old(self).wf(),
            old(self).phase == Phase::Animating,
        ensures
            (*final(self), r) == old(self).tick_outcome(running),
            final(self).wf(),
    {
        if !running {
            self.phase = Phase::Stopping;
            return FrameAction::Exit;
        }
        let t: u32 = self.ticks + 1;
        if (t as u64) * TICK_MS > self.ms_per_pixel as u64 {
            self.scroll = advance(self.scroll, self.width);
            self.ticks = 0;
            FrameAction::Paint { offset: self.scroll.offset }
        } else {
            self.ticks = t;
            FrameAction::Wait
        }
    }
}

/// The number of ticks from one step of the offset to the next.
pub open spec fn ticks_per_step(ms_per_pixel: u16) -> nat {
    (ms_per_pixel as int / TICK_MS as int + 1) as nat
}

proof fn lemma_waiting(f: FrameLoop, k: nat)
    requires
        f.ticks == 0,
        k < ticks_per_step(f.ms_per_pixel),
    ensures
        f.after_ticks(k) == (FrameLoop { ticks: k as u32, ..f }),
    decreases k,
{
    if k > 0 {
        lemma_waiting(f, (k - 1) as nat);
        assert(k * TICK_MS <= f.ms_per_pixel) by (nonlinear_arith)
            requires
                k < f.ms_per_pixel / 10 + 1,
                TICK_MS == 10,
        ;
    }
}

/// With the stop flag set, the offset takes one step of the bounce rule every
/// `ms_per_pixel / TICK_MS + 1` ticks and is still in between. In particular,
/// with `ms_per_pixel == 0` it steps on every tick.
pub proof fn lemma_step_cadence(f: FrameLoop, k: nat)
    requires
        f.wf(),
        f.ticks == 0,
        k < ticks_per_step(f.ms_per_pixel),
    ensures
        f.after_ticks(k).scroll == f.scroll,
        f.after_ticks(k).ticks == k,
        f.after_ticks(ticks_per_step(f.ms_per_pixel)) == (FrameLoop {
            scroll: next_state(f.scroll, f.width),
            ticks: 0,
            ..f
        }),
        f.ms_per_pixel == 0 ==> ticks_per_step(f.ms_per_pixel) == 1,
{
    let n = ticks_per_step(f.ms_per_pixel);
    lemma_waiting(f, k);
    lemma_waiting(f, (n - 1) as nat);
    assert(n * TICK_MS > f.ms_per_pixel) by (nonlinear_arith)
        requires
            n == f.ms_per_pixel / 10 + 1,
            TICK_MS == 10,
    ;
}

} // verus!
