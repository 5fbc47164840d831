//! A run against one game: what the controller writes into the target's
//! shared cells when the script starts, on each frame, and when it ends.
//! The writes are returned as lists for the caller to carry out; their effect
//! on the cells is modelled by `apply_writes`.
use vstd::prelude::*;
use crate::gamepad::VirtualGamepad;
use crate::games::{Capabilities, Game, capabilities, capabilities_of};

verus! {

/// The game's own gamepad slot: which pad it reads and how it treats it.
#[derive(Clone, Copy, Debug, PartialEq, Eq, Structural)]
pub struct GamepadSlot {
    pub index: i32,
    pub flags: u32,
}

/// The slot settings that make the game read the virtual pad.
pub const VIRTUAL_SLOT_INDEX: i32 = 999;
pub const VIRTUAL_SLOT_FLAGS: u32 = 795;

/// One write into the target's shared cells; the frame-rate limit is an `f32`
/// bit pattern.
#[derive(Clone, Copy, Debug, PartialEq, Eq, Structural)]
pub enum CellWrite {
    FrameAdvanceEnabled(bool),
    FrameRunning(bool),
    FpsPatchEnabled(bool),
    FpsLimit(u32),
    XinputPatchEnabled(bool),
    XinputState(VirtualGamepad),
    GamepadIndex(i32),
    GamepadFlags(u32),
}

/// The cells of the target that a run touches.
#[derive(Clone, Copy, Debug, PartialEq, Eq, Structural)]
pub struct TargetCells {
    pub frame_advance_enabled: bool,
    pub frame_running: bool,
    pub fps_patch_enabled: bool,
    pub fps_limit: u32,
    pub xinput_patch_enabled: bool,
    pub xinput_state: VirtualGamepad,
    pub gamepad: GamepadSlot,
}

pub open spec fn apply_write(c: TargetCells, w: CellWrite) -> TargetCells {
    match w {
        CellWrite::FrameAdvanceEnabled(b) => TargetCells { frame_advance_enabled: b, ..c },
        CellWrite::FrameRunning(b) => TargetCells { frame_running: b, ..c },
        CellWrite::FpsPatchEnabled(b) => TargetCells { fps_patch_enabled: b, ..c },
        CellWrite::FpsLimit(v) => TargetCells { fps_limit: v, ..c },
        CellWrite::XinputPatchEnabled(b) => TargetCells { xinput_patch_enabled: b, ..c },
        CellWrite::XinputState(p) => TargetCells { xinput_state: p, ..c },
        CellWrite::GamepadIndex(i) => TargetCells {
            gamepad: GamepadSlot { index: i, ..c.gamepad },
            ..c
        },
        CellWrite::GamepadFlags(f) => TargetCells {
            gamepad: GamepadSlot { flags: f, ..c.gamepad },
            ..c
        },
    }
}

/// The cells after the writes `ws`, carried out in order.
pub open spec fn apply_writes(c: TargetCells, ws: Seq<CellWrite>) -> TargetCells
    decreases ws.len(),
{
    if ws.len() == 0 {
        c
    } else {
        apply_write(apply_writes(c, ws.drop_last()), ws.last())
    }
}

pub open spec fn when(b: bool, ws: Seq<CellWrite>) -> Seq<CellWrite> {
    if b {
        ws
    } else {
        Seq::empty()
    }
}

/// Switching a game's patches on.
pub open spec fn start_writes(game: Game) -> Seq<CellWrite> {
    let caps = capabilities_of(game);
    seq![CellWrite::FrameAdvanceEnabled(true)] + when(
        caps.fps_override,
        seq![CellWrite::FpsPatchEnabled(true), CellWrite::FpsLimit(0)],
    ) + when(caps.gamepad_override, seq![CellWrite::XinputPatchEnabled(true)])
}

/// Switching them off again, restoring the saved gamepad slot.
pub open spec fn end_writes(game: Game, saved: GamepadSlot) -> Seq<CellWrite> {
    let caps = capabilities_of(game);
    seq![CellWrite::FrameAdvanceEnabled(false)] + when(
        caps.fps_override,
        seq![CellWrite::FpsPatchEnabled(false), CellWrite::FpsLimit(0)],
    ) + when(caps.gamepad_override, seq![CellWrite::XinputPatchEnabled(false)]) + when(
        caps.gamepad_slot,
        seq![CellWrite::GamepadIndex(saved.index), CellWrite::GamepadFlags(saved.flags)],
    )
}

/// The work at the end of each frame: point the game's slot at the virtual
/// pad and hand over the pad's state.
pub open spec fn frame_end_writes(game: Game, pad: VirtualGamepad) -> Seq<CellWrite> {
    let caps = capabilities_of(game);
    when(
        caps.gamepad_slot,
        seq![CellWrite::GamepadIndex(VIRTUAL_SLOT_INDEX), CellWrite::GamepadFlags(VIRTUAL_SLOT_FLAGS)],
    ) + when(caps.gamepad_override, seq![CellWrite::XinputState(pad)])
}

pub open spec fn set_fps_writes(game: Game, limit: u32) -> Seq<CellWrite> {
    when(capabilities_of(game).fps_override, seq![CellWrite::FpsLimit(limit)])
}

/// A write that some frame of a run may make.
pub open spec fn mid_run_write(game: Game, w: CellWrite) -> bool {
    w == CellWrite::FrameRunning(true) || (exists|p: VirtualGamepad| frame_end_writes(game, p).contains(w))
        || (exists|l: u32| set_fps_writes(game, l).contains(w))
}

/// The state of one run: the game, and its gamepad slot as it was before the
/// run took it over.
#[derive(Clone, Copy, Debug, PartialEq, Eq, Structural)]
pub struct GameSession {
    pub game: Game,
    pub saved_slot: GamepadSlot,
}

fn push_all(v: &mut Vec<CellWrite>, ws: &[CellWrite])
    ensures
        final(v)@ == old(v)@ + ws@,
{
    let mut k: usize = 0;
    while k < ws.len()
        invariant
            k <= ws@.len(),
            v@ == old(v)@ + ws@.take(k as int),
        decreases ws@.len() - k,
    {
        v.push(ws[k]);
        k += 1;
        assert(v@ =~= old(v)@ + ws@.take(k as int));
    }
    assert(ws@.take(k as int) =~= ws@);
}

impl GameSession {
    /// Starts a run. `slot` is the game's gamepad slot as read just before;
    /// it is kept for the end of the run.
    pub fn script_start(game: Game, slot: GamepadSlot) -> (r: (GameSession, Vec<CellWrite>))
        ensures
            r.0 == (GameSession { game, saved_slot: slot }),
            r.1@ == start_writes(game),
    {
        let caps = capabilities(game);
        let mut w: Vec<CellWrite> = Vec::new();
        w.push(CellWrite::FrameAdvanceEnabled(true));
        if caps.fps_override {
            push_all(&mut w, &[CellWrite::FpsPatchEnabled(true), CellWrite::FpsLimit(0)]);
        }
        if caps.gamepad_override {
            push_all(&mut w, &[CellWrite::XinputPatchEnabled(true)]);
        }
        assert(w@ =~= start_writes(game));
        (GameSession { game, saved_slot: slot }, w)
    }

    /// Ends the run: patches off, the gamepad slot as it was.
    pub fn script_end(&self) -> (r: Vec<CellWrite>)
        ensures
            r@ == end_writes(self.game, self.saved_slot),
    {
        let caps = capabilities(self.game);
        let mut w: Vec<CellWrite> = Vec::new();
        w.push(CellWrite::FrameAdvanceEnabled(false));
        if caps.fps_override {
            push_all(&mut w, &[CellWrite::FpsPatchEnabled(false), CellWrite::FpsLimit(0)]);
        }
        if caps.gamepad_override {
            push_all(&mut w, &[CellWrite::XinputPatchEnabled(false)]);
        }
        if caps.gamepad_slot {
            push_all(
                &mut w,
                &[
                    CellWrite::GamepadIndex(self.saved_slot.index),
                    CellWrite::GamepadFlags(self.saved_slot.flags),
                ],
            );
        }
        assert(w@ =~= end_writes(self.game, self.saved_slot));
        w
    }

    /// Releases the next tick.
    pub fn frame_next(&self) -> (r: Vec<CellWrite>)
        ensures
            r@ == seq![CellWrite::FrameRunning(true)],
    {
        let w = vec![CellWrite::FrameRunning(true)];
        assert(w@ =~= seq![CellWrite::FrameRunning(true)]);
        w
    }

    /// End-of-frame work: the virtual pad goes to the game.
    pub fn frame_end(&self, pad: &VirtualGamepad) -> (r: Vec<CellWrite>)
        ensures
            r@ == frame_end_writes(self.game, *pad),
    {
        let caps = capabilities(self.game);
        let mut w: Vec<CellWrite> = Vec::new();
        if caps.gamepad_slot {
            push_all(
                &mut w,
                &[
                    CellWrite::GamepadIndex(VIRTUAL_SLOT_INDEX),
                    CellWrite::GamepadFlags(VIRTUAL_SLOT_FLAGS),
                ],
            );
        }
        if caps.gamepad_override {
            push_all(&mut w, &[CellWrite::XinputState(*pad)]);
        }
        assert(w@ =~= frame_end_writes(self.game, *pad));
        w
    }

    /// Sets the virtual frame rate, for the games that have the override.
    pub fn set_fps(&self, limit: u32) -> (r: Vec<CellWrite>)
        ensures
            r@ == set_fps_writes(self.game, limit),
    {
        let mut w: Vec<CellWrite> = Vec::new();
        if capabilities(self.game).fps_override {
            w.push(CellWrite::FpsLimit(limit));
        }
        assert(w@ =~= set_fps_writes(self.game, limit));
        w
    }
}

proof fn lemma_apply_concat(c: TargetCells, a: Seq<CellWrite>, b: Seq<CellWrite>)
    ensures
        apply_writes(c, a + b) == apply_writes(apply_writes(c, a), b),
    decreases b.len(),
{
    if b.len() == 0 {
        assert(a + b =~= a);
    } else {
        lemma_apply_concat(c, a, b.drop_last());
        assert((a + b).drop_last() =~= a + b.drop_last());
    }
}

pub open spec fn touches_slot(w: CellWrite) -> bool {
    w is GamepadIndex || w is GamepadFlags
}

proof fn lemma_slot_untouched(c: TargetCells, ws: Seq<CellWrite>)
    requires
        forall|i: int| 0 <= i < ws.len() ==> !touches_slot(#[trigger] ws[i]),
    ensures
        apply_writes(c, ws).gamepad == c.gamepad,
    decreases ws.len(),
{
    if ws.len() > 0 {
        let d = ws.drop_last();
        assert forall|i: int| 0 <= i < d.len() implies !touches_slot(#[trigger] d[i]) by {
            assert(d[i] == ws[i]);
        }
        lemma_slot_untouched(c, d);
        assert(!touches_slot(ws[ws.len() - 1]));
    }
}

proof fn lemma_apply_one(c: TargetCells, x: CellWrite)
    ensures
        apply_writes(c, seq![x]) == apply_write(c, x),
{
    assert(seq![x].drop_last() =~= Seq::<CellWrite>::empty());
    assert(apply_writes(c, Seq::<CellWrite>::empty()) == c);
}

proof fn lemma_apply_pair(c: TargetCells, x: CellWrite, y: CellWrite)
    ensures
        apply_writes(c, seq![x, y]) == apply_write(apply_write(c, x), y),
{
    assert(seq![x, y].drop_last() =~= seq![x]);
    lemma_apply_one(c, x);
}

proof fn lemma_apply_none(c: TargetCells)
    ensures
        apply_writes(c, Seq::<CellWrite>::empty()) == c,
{
}

/// However many frames pass and whatever the script does to the pad in
/// between, ending a run gives the game its gamepad slot back exactly as it
/// was when the run started, and leaves every patch switched off.
pub proof fn lemma_gamepad_round_trip(game: Game, c0: TargetCells, mid: Seq<CellWrite>)
    requires
        forall|i: int| 0 <= i < mid.len() ==> mid_run_write(game, #[trigger] mid[i]),
    ensures
        ({
            let started = apply_writes(c0, start_writes(game));
            let ended = apply_writes(apply_writes(started, mid), end_writes(game, c0.gamepad));
            &&& ended.gamepad == c0.gamepad
            &&& !ended.frame_advance_enabled
            &&& capabilities_of(game).fps_override ==> !ended.fps_patch_enabled
            &&& capabilities_of(game).gamepad_override ==> !ended.xinput_patch_enabled
        }),
{
    let caps = capabilities_of(game);
    let started = apply_writes(c0, start_writes(game));
    let during = apply_writes(started, mid);
    let e1 = seq![CellWrite::FrameAdvanceEnabled(false)];
    let e2 = when(caps.fps_override, seq![CellWrite::FpsPatchEnabled(false), CellWrite::FpsLimit(0)]);
    let e3 = when(caps.gamepad_override, seq![CellWrite::XinputPatchEnabled(false)]);
    let e4 = when(
        caps.gamepad_slot,
        seq![CellWrite::GamepadIndex(c0.gamepad.index), CellWrite::GamepadFlags(c0.gamepad.flags)],
    );
    lemma_apply_concat(during, e1 + e2 + e3, e4);
    lemma_apply_concat(during, e1 + e2, e3);
    lemma_apply_concat(during, e1, e2);
    lemma_apply_one(during, CellWrite::FrameAdvanceEnabled(false));
    let a1 = apply_writes(during, e1);
    let a2 = apply_writes(a1, e2);
    let a3 = apply_writes(a2, e3);
    let a4 = apply_writes(a3, e4);
    if caps.fps_override {
        lemma_apply_pair(a1, CellWrite::FpsPatchEnabled(false), CellWrite::FpsLimit(0));
    } else {
        lemma_apply_none(a1);
    }
    if caps.gamepad_override {
        lemma_apply_one(a2, CellWrite::XinputPatchEnabled(false));
    } else {
        lemma_apply_none(a2);
    }
    if caps.gamepad_slot {
        lemma_apply_pair(
            a3,
            CellWrite::GamepadIndex(c0.gamepad.index),
            CellWrite::GamepadFlags(c0.gamepad.flags),
        );
    } else {
        lemma_apply_none(a3);
        let s = start_writes(game);
        assert forall|i: int| 0 <= i < s.len() implies !touches_slot(#[trigger] s[i]) by {}
        lemma_slot_untouched(c0, s);
        assert forall|i: int| 0 <= i < mid.len() implies !touches_slot(#[trigger] mid[i]) by {
            assert(mid_run_write(game, mid[i]));
            if exists|p: VirtualGamepad| frame_end_writes(game, p).contains(mid[i]) {
                let p = choose|p: VirtualGamepad| frame_end_writes(game, p).contains(mid[i]);
                assert(frame_end_writes(game, p) =~= when(
                    caps.gamepad_override,
                    seq![CellWrite::XinputState(p)],
                ));
            }
        }
        lemma_slot_untouched(started, mid);
        let e = e1 + e2 + e3;
        assert forall|i: int| 0 <= i < e.len() implies !touches_slot(#[trigger] e[i]) by {}
        lemma_slot_untouched(during, e);
        assert(e4 =~= Seq::<CellWrite>::empty());
        assert(e + e4 =~= e);
    }
}

} // verus!
