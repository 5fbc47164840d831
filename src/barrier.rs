//! The frame barrier: two shared flags through which the controller releases
//! the target one tick at a time. The controller only ever sets
//! `frame_running`, and only after it has seen it clear; the target only ever
//! clears it, once per tick, at its tick boundary.
use vstd::prelude::*;

verus! {

#[derive(Clone, Copy, Debug, PartialEq, Eq, Structural)]
pub struct FrameBarrier {
    /// The patch holds the target at each tick boundary.
    pub advance_enabled: bool,
    /// A tick has been released and has not yet reached the next boundary.
    pub frame_running: bool,
}

impl FrameBarrier {
    pub fn new() -> (r: Self)
        ensures
            r == (FrameBarrier { advance_enabled: false, frame_running: false }),
    {
        FrameBarrier { advance_enabled: false, frame_running: false }
    }

    /// Controller side: the released tick has reached the next boundary.
    pub fn is_frame_complete(&self) -> (r: bool)
        ensures
            r == !self.frame_running,
    {
        !self.frame_running
    }

    /// Controller side: releases one tick. Only after the previous one completed.
    pub fn advance_one_frame(&mut self)
        requires
            !old(self).frame_running,
        ensures
            final(self).frame_running,
            final(self).advance_enabled == old(self).advance_enabled,
    {
        self.frame_running = true;
    }

    /// Controller side: switches holding on or off.
    pub fn set_enabled(&mut self, on: bool)
        ensures
            final(self).advance_enabled == on,
            final(self).frame_running == old(self).frame_running,
    {
        self.advance_enabled = on;
    }

    /// Target side, at its tick boundary: while holding is on, clears the flag
    /// and reports that the target must wait for a release.
    pub fn enter_tick(&mut self) -> (must_wait: bool)
        ensures
            must_wait == old(self).advance_enabled,
            final(self).advance_enabled == old(self).advance_enabled,
            final(self).frame_running == (old(self).frame_running && !old(self).advance_enabled),
    {
        if self.advance_enabled {
            self.frame_running = false;
            true
        } else {
            false
        }
    }

    /// Target side, while waiting: the tick may go on once it is released or
    /// holding has been switched off.
    pub fn may_resume(&self) -> (r: bool)
        ensures
            r == (self.frame_running || !self.advance_enabled),
    {
        self.frame_running || !self.advance_enabled
    }
}

/// One move of either side while holding is on.
pub enum BarrierMove {
    /// The target reaches its tick boundary (it only runs once released).
    TargetBoundary,
    /// The waiting target looks at the flag.
    TargetPoll,
    /// The controller looks at the flag.
    ControllerObserve,
    /// The controller, having seen the tick complete, releases the next one.
    ControllerRequest,
}

/// Both sides of a run: the flag, where each side is, every value written to
/// the flag in order, the ticks requested and the releases the target saw.
pub struct BarrierRun {
    pub running: bool,
    pub target_waiting: bool,
    pub controller_ready: bool,
    pub writes: Seq<bool>,
    pub requests: nat,
    pub releases: nat,
}

/// The run as it stands once the target is first held: it has cleared the
/// flag and waits.
pub open spec fn held_start() -> BarrierRun {
    BarrierRun {
        running: false,
        target_waiting: true,
        controller_ready: false,
        writes: seq![false],
        requests: 0,
        releases: 0,
    }
}

pub open spec fn barrier_move(r: BarrierRun, m: BarrierMove) -> BarrierRun {
    match m {
        BarrierMove::TargetBoundary => if !r.target_waiting {
            BarrierRun { running: false, target_waiting: true, writes: r.writes.push(false), ..r }
        } else {
            r
        },
        BarrierMove::TargetPoll => if r.target_waiting && r.running {
            BarrierRun { target_waiting: false, releases: r.releases + 1, ..r }
        } else {
            r
        },
        BarrierMove::ControllerObserve => if !r.controller_ready && !r.running {
            BarrierRun { controller_ready: true, ..r }
        } else {
            r
        },
        BarrierMove::ControllerRequest => if r.controller_ready {
            BarrierRun {
                running: true,
                controller_ready: false,
                writes: r.writes.push(true),
                requests: r.requests + 1,
                ..r
            }
        } else {
            r
        },
    }
}

/// The run after the moves `ms`, taken in order from `r`.
pub open spec fn barrier_moves(r: BarrierRun, ms: Seq<BarrierMove>) -> BarrierRun
    decreases ms.len(),
{
    if ms.len() == 0 {
        r
    } else {
        barrier_move(barrier_moves(r, ms.drop_last()), ms.last())
    }
}

pub open spec fn barrier_inv(r: BarrierRun) -> bool {
    &&& r.writes.len() >= 1
    &&& forall|k: int| 0 <= k < r.writes.len() ==> #[trigger] r.writes[k] == (k % 2 == 1)
    &&& r.running == r.writes.last()
    &&& r.requests == r.writes.len() / 2
    &&& r.controller_ready ==> !r.running
    &&& !r.target_waiting ==> r.running
    &&& r.target_waiting && r.running ==> r.releases + 1 == r.requests
    &&& !(r.target_waiting && r.running) ==> r.releases == r.requests
}

proof fn lemma_barrier_inv(ms: Seq<BarrierMove>)
    ensures
        barrier_inv(barrier_moves(held_start(), ms)),
    decreases ms.len(),
{
    if ms.len() > 0 {
        lemma_barrier_inv(ms.drop_last());
        let r = barrier_moves(held_start(), ms.drop_last());
        let r2 = barrier_move(r, ms.last());
        assert forall|k: int| 0 <= k < r2.writes.len() implies #[trigger] r2.writes[k] == (k % 2
            == 1) by {
            if k < r.writes.len() {
                assert(r2.writes[k] == r.writes[k]);
            }
        }
    } else {
        assert(held_start().writes[0] == false);
    }
}

/// However the two sides interleave, the flag is written clear, set, clear,
/// set, ... : every request is one clear-then-set transition, no two sets
/// come without a clear between them, and the target has seen every release
/// but at most the latest one.
pub proof fn lemma_barrier_round_trip(ms: Seq<BarrierMove>)
    ensures
        ({
            let r = barrier_moves(held_start(), ms);
            &&& forall|k: int| 0 <= k < r.writes.len() ==> #[trigger] r.writes[k] == (k % 2 == 1)
            &&& r.requests == r.writes.len() / 2
            &&& r.releases <= r.requests <= r.releases + 1
        }),
{
    lemma_barrier_inv(ms);
}

} // verus!
