//! The per-frame animation step.
//!
//! Once setup succeeds, the host schedules an unbounded sequence of
//! ticks. Each tick clears the frame, uploads the rotation transform for
//! the current angle, re-binds the index buffer, issues exactly one
//! indexed draw call over the cube's 36 indices, checks the error state,
//! advances the angle by a fixed step and asks to be rescheduled.
//!
//! The angle is kept in hundredths of a radian so that it stays an exact
//! integer: the fixed per-frame step of 0.02 radians is 2 hundredths, so
//! after `n` ticks from a fresh state the angle is exactly `0.02 * n`
//! radians. The angle grows without bound (no wrap at a full turn), as
//! the demo's loop does; only the machine limit of the counter bounds it.

use vstd::prelude::*;
use crate::command::{GlCommand, draw_count, lemma_draw_count_concat};

verus! {

/// Angle advance per tick, in hundredths of a radian (0.02 radians).
pub const ANGLE_STEP_CENTIRADIANS: u64 = 2;

/// Number of indices covered by the one draw call of each tick.
pub const DRAW_INDEX_COUNT: u32 = 36;

/// Every this many frames, a diagnostic log line is emitted.
pub const LOG_PERIOD: u64 = 60;

/// Background clear color, per channel in tenths.
pub const CLEAR_RED_TENTHS: u8 = 1;

pub const CLEAR_GREEN_TENTHS: u8 = 1;

pub const CLEAR_BLUE_TENTHS: u8 = 1;

pub const CLEAR_ALPHA_TENTHS: u8 = 10;

/// State owned by the frame loop: how many ticks have run and the
/// current rotation angle in hundredths of a radian.
pub struct FrameState {
    ticks: u64,
    angle_centiradians: u64,
}

impl FrameState {
    pub closed spec fn ticks(&self) -> u64 {
        self.ticks
    }

    pub closed spec fn angle_centiradians(&self) -> u64 {
        self.angle_centiradians
    }

    /// The angle is always exactly the fixed step times the tick count.
    pub open spec fn wf(&self) -> bool {
        self.angle_centiradians() == ANGLE_STEP_CENTIRADIANS * self.ticks()
    }

    /// Fresh loop state: no tick has run, the angle starts at zero.
    pub fn new() -> (s: FrameState)
        ensures
            s.ticks() == 0,
            s.angle_centiradians() == 0,
            s.wf(),
    {
        FrameState { ticks: 0, angle_centiradians: 0 }
    }

    pub fn tick_count(&self) -> (n: u64)
        ensures
            n == self.ticks(),
    {
        self.ticks
    }

    pub fn angle(&self) -> (a: u64)
        ensures
            a == self.angle_centiradians(),
    {
        self.angle_centiradians
    }

    /// One animation tick: emit the frame's commands, advance the angle
    /// by the fixed step and count the frame.
    pub fn tick(&mut self) -> (cmds: Vec<GlCommand>)
        requires
            old(self).wf(),
            old(self).ticks() < (u64::MAX - 1) / 2,
        ensures
            *final(self) == tick_next(*old(self)),
            final(self).wf(),
            final(self).ticks() == old(self).ticks() + 1,
            final(self).angle_centiradians() == old(self).angle_centiradians()
                + ANGLE_STEP_CENTIRADIANS,
            cmds@ == tick_commands(*old(self)),
            draw_count(cmds@) == 1,
            forall|i: int|
                0 <= i < cmds@.len() && cmds@[i] is DrawTriangles ==> cmds@[i]
                    == (GlCommand::DrawTriangles { index_count: DRAW_INDEX_COUNT }),
    {
        let frame: u64 = self.ticks + 1;
        let mut cmds: Vec<GlCommand> = Vec::new();
        if frame % LOG_PERIOD == 0 {
            cmds.push(GlCommand::LogFrame { frame });
        }
        cmds.push(GlCommand::ClearFrame {
            red_tenths: CLEAR_RED_TENTHS,
            green_tenths: CLEAR_GREEN_TENTHS,
            blue_tenths: CLEAR_BLUE_TENTHS,
            alpha_tenths: CLEAR_ALPHA_TENTHS,
        });
        cmds.push(GlCommand::SetTransformUniform {
            angle_centiradians: self.angle_centiradians,
        });
        cmds.push(GlCommand::BindIndexBuffer);
        cmds.push(GlCommand::DrawTriangles { index_count: DRAW_INDEX_COUNT });
        cmds.push(GlCommand::CheckErrors);
        cmds.push(GlCommand::ScheduleNextFrame);
        self.ticks = frame;
        self.angle_centiradians = self.angle_centiradians + ANGLE_STEP_CENTIRADIANS;
        proof {
            assert(cmds@ =~= tick_commands(*old(self)));
            lemma_tick_commands_one_draw(*old(self));
        }
        cmds
    }
}

/// The commands of one tick from state `s`, in order: the periodic log
/// line when due, clear, upload the transform for the current angle,
/// re-bind the index buffer, one draw call over all 36 indices, check
/// the error state, schedule the next tick.
pub open spec fn tick_commands(s: FrameState) -> Seq<GlCommand> {
    let body = seq![
        GlCommand::ClearFrame {
            red_tenths: CLEAR_RED_TENTHS,
            green_tenths: CLEAR_GREEN_TENTHS,
            blue_tenths: CLEAR_BLUE_TENTHS,
            alpha_tenths: CLEAR_ALPHA_TENTHS,
        },
        GlCommand::SetTransformUniform { angle_centiradians: s.angle_centiradians() },
        GlCommand::BindIndexBuffer,
        GlCommand::DrawTriangles { index_count: DRAW_INDEX_COUNT },
        GlCommand::CheckErrors,
        GlCommand::ScheduleNextFrame,
    ];
    if ((s.ticks() + 1) as u64) % LOG_PERIOD == 0 {
        seq![GlCommand::LogFrame { frame: (s.ticks() + 1) as u64 }] + body
    } else {
        body
    }
}

/// Exactly one draw call per tick, and it covers exactly 36 indices.
pub proof fn lemma_tick_commands_one_draw(s: FrameState)
    ensures
        draw_count(tick_commands(s)) == 1,
        forall|i: int|
            0 <= i < tick_commands(s).len() && tick_commands(s)[i] is DrawTriangles ==>
                tick_commands(s)[i] == (GlCommand::DrawTriangles {
                    index_count: DRAW_INDEX_COUNT,
                }),
{
    let cs = tick_commands(s);
    if ((s.ticks() + 1) as u64) % LOG_PERIOD == 0 {
        assert(cs.len() == 7);
        assert(draw_count(cs.drop_last()) == 1) by {
            reveal_with_fuel(draw_count, 8);
        }
        reveal_with_fuel(draw_count, 8);
    } else {
        assert(cs.len() == 6);
        reveal_with_fuel(draw_count, 8);
    }
}

/// Successor state of one tick, at the specification level: one more
/// tick counted, the angle advanced by the fixed step.
pub closed spec fn tick_next(s: FrameState) -> FrameState {
    FrameState {
        ticks: (s.ticks + 1) as u64,
        angle_centiradians: (s.angle_centiradians + ANGLE_STEP_CENTIRADIANS) as u64,
    }
}

/// How `tick_next` moves the two counters, as long as neither would
/// overflow its machine word.
pub proof fn lemma_tick_next_fields(s: FrameState)
    requires
        s.ticks() < u64::MAX,
        s.angle_centiradians() + ANGLE_STEP_CENTIRADIANS <= u64::MAX,
    ensures
        tick_next(s).ticks() == s.ticks() + 1,
        tick_next(s).angle_centiradians() == s.angle_centiradians() + ANGLE_STEP_CENTIRADIANS,
{
}

/// Frame state after `n` ticks from state `s`.
pub open spec fn run_ticks(s: FrameState, n: nat) -> FrameState
    decreases n,
{
    if n == 0 {
        s
    } else {
        tick_next(run_ticks(s, (n - 1) as nat))
    }
}

/// All commands of `n` ticks from state `s`, in order.
pub open spec fn ticks_trace(s: FrameState, n: nat) -> Seq<GlCommand>
    decreases n,
{
    if n == 0 {
        Seq::empty()
    } else {
        ticks_trace(s, (n - 1) as nat) + tick_commands(run_ticks(s, (n - 1) as nat))
    }
}

/// However long the loop runs, it issues exactly one draw call per
/// scheduled tick.
pub proof fn lemma_one_draw_per_tick(s: FrameState, n: nat)
    ensures
        draw_count(ticks_trace(s, n)) == n,
    decreases n,
{
    if n > 0 {
        lemma_one_draw_per_tick(s, (n - 1) as nat);
        lemma_tick_commands_one_draw(run_ticks(s, (n - 1) as nat));
        lemma_draw_count_concat(
            ticks_trace(s, (n - 1) as nat),
            tick_commands(run_ticks(s, (n - 1) as nat)),
        );
    }
}

/// The angle is the fixed step times the number of ticks: starting from
/// a fresh state (angle zero), after `n` ticks the angle is exactly
/// `0.02 * n` radians, i.e. `2 * n` hundredths of a radian.
pub proof fn lemma_angle_after_ticks(s: FrameState, n: nat)
    requires
        s.wf(),
        ANGLE_STEP_CENTIRADIANS * (s.ticks() + n) <= u64::MAX - 1,
    ensures
        run_ticks(s, n).wf(),
        run_ticks(s, n).ticks() == s.ticks() + n,
        run_ticks(s, n).angle_centiradians() == s.angle_centiradians() + ANGLE_STEP_CENTIRADIANS
            * n,
    decreases n,
{
    if n > 0 {
        lemma_angle_after_ticks(s, (n - 1) as nat);
    }
}

} // verus!
