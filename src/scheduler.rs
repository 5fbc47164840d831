//! The action scheduler as a state machine. Each call of `step` takes the
//! outcome of the previous command and returns the next thing to do; the
//! caller performs it against the target and reports back.
use vstd::prelude::*;
use crate::actions::{ActionSpec, AwaitFlag, TasActionType};
use crate::script::{Script, actions_view};

verus! {

/// A status of the target that an `await` waits on.
#[derive(Clone, Copy, Debug, PartialEq, Eq, Structural)]
pub enum StatusQuery {
    HasControl,
    InCutscene,
    SaveActive,
    WindowFocused,
}

/// The status an await flag reads, and the value that satisfies it.
pub open spec fn await_condition(flag: AwaitFlag) -> (StatusQuery, bool) {
    match flag {
        AwaitFlag::Control => (StatusQuery::HasControl, true),
        AwaitFlag::NoControl => (StatusQuery::HasControl, false),
        AwaitFlag::Cutscene => (StatusQuery::InCutscene, true),
        AwaitFlag::NoCutscene => (StatusQuery::InCutscene, false),
        AwaitFlag::SaveActive => (StatusQuery::SaveActive, true),
        AwaitFlag::NoSaveActive => (StatusQuery::SaveActive, false),
        AwaitFlag::Focus => (StatusQuery::WindowFocused, true),
    }
}

pub fn await_query(flag: AwaitFlag) -> (r: (StatusQuery, bool))
    ensures
        r == await_condition(flag),
{
    match flag {
        AwaitFlag::Control => (StatusQuery::HasControl, true),
        AwaitFlag::NoControl => (StatusQuery::HasControl, false),
        AwaitFlag::Cutscene => (StatusQuery::InCutscene, true),
        AwaitFlag::NoCutscene => (StatusQuery::InCutscene, false),
        AwaitFlag::SaveActive => (StatusQuery::SaveActive, true),
        AwaitFlag::NoSaveActive => (StatusQuery::SaveActive, false),
        AwaitFlag::Focus => (StatusQuery::WindowFocused, true),
    }
}

/// What the caller is to do next.
#[derive(Clone, Copy, Debug, PartialEq, Eq, Structural)]
pub enum Command {
    /// Switch the target's patches on and save what they overwrite.
    ScriptStart,
    /// Check that the target still runs, wait until its tick has completed,
    /// then do the game's start-of-frame work.
    BeginFrame { frame: u32 },
    /// Carry out the action at this index of the script.
    Perform { index: usize },
    /// Read a status of the target and report it with `Event::Status`.
    Query { query: StatusQuery },
    /// Release one tick and wait until it has completed.
    AdvanceAndWait,
    /// Do the game's end-of-frame work, then release the next tick.
    EndFrame,
    /// Switch the patches off and restore what they overwrote.
    ScriptEnd,
    /// Nothing is left to do.
    Finished,
}

/// The outcome of the previous command.
#[derive(Clone, Copy, Debug, PartialEq, Eq, Structural)]
pub enum Event {
    Done,
    Status(bool),
}

#[derive(Clone, Copy, Debug, PartialEq, Eq, Structural)]
pub enum Phase {
    Start,
    Begin,
    Dispatch,
    Awaiting { flag: AwaitFlag },
    AwaitStepped { flag: AwaitFlag },
    Stopped,
    Finished,
}

#[derive(Clone, Copy, Debug, PartialEq, Eq, Structural)]
pub struct SchedState {
    pub phase: Phase,
    /// The frame being processed.
    pub current: u64,
    /// The frame that the next iteration processes.
    pub next: u64,
    /// Where the search for the next due action resumes.
    pub cursor: usize,
}

/// Index of the first action at or after `from` that is due on `frame`, or
/// the number of actions when there is none.
pub open spec fn next_due(acts: Seq<(u32, ActionSpec)>, frame: u64, from: int) -> int
    decreases acts.len() - from,
{
    if from < 0 || from >= acts.len() {
        acts.len() as int
    } else if acts[from].0 as u64 == frame {
        from
    } else {
        next_due(acts, frame, from + 1)
    }
}

/// Goes on dispatching the current frame from `s.cursor`.
pub open spec fn dispatch_spec(s: SchedState, acts: Seq<(u32, ActionSpec)>) -> (SchedState, Command) {
    let i = next_due(acts, s.current, s.cursor as int);
    if i >= acts.len() {
        (SchedState { phase: Phase::Begin, current: s.next, ..s }, Command::EndFrame)
    } else {
        let s1 = SchedState { cursor: (i + 1) as usize, ..s };
        match acts[i].1 {
            ActionSpec::Await { flag } => (
                SchedState { phase: Phase::Awaiting { flag }, ..s1 },
                Command::Query { query: await_condition(flag).0 },
            ),
            ActionSpec::Frame { frame } => (
                SchedState { next: frame as u64, ..s1 },
                Command::Perform { index: i as usize },
            ),
            _ => (s1, Command::Perform { index: i as usize }),
        }
    }
}

/// One transition of the scheduler over a script with actions `acts` and last
/// frame `max`.
pub open spec fn step_spec(s: SchedState, acts: Seq<(u32, ActionSpec)>, max: u32, e: Event) -> (SchedState, Command) {
    match s.phase {
        Phase::Start => (SchedState { phase: Phase::Begin, ..s }, Command::ScriptStart),
        Phase::Begin => if s.current > max as u64 {
            (SchedState { phase: Phase::Stopped, ..s }, Command::ScriptEnd)
        } else {
            (
                SchedState { phase: Phase::Dispatch, cursor: 0, next: (s.current + 1) as u64, ..s },
                Command::BeginFrame { frame: s.current as u32 },
            )
        },
        Phase::Dispatch => dispatch_spec(s, acts),
        Phase::Awaiting { flag } => match e {
            Event::Status(b) => if b == await_condition(flag).1 {
                dispatch_spec(SchedState { phase: Phase::Dispatch, ..s }, acts)
            } else {
                (SchedState { phase: Phase::AwaitStepped { flag }, ..s }, Command::AdvanceAndWait)
            },
            Event::Done => (s, Command::Query { query: await_condition(flag).0 }),
        },
        Phase::AwaitStepped { flag } => (
            SchedState { phase: Phase::Awaiting { flag }, ..s },
            Command::Query { query: await_condition(flag).0 },
        ),
        Phase::Stopped => (SchedState { phase: Phase::Finished, ..s }, Command::Finished),
        Phase::Finished => (s, Command::Finished),
    }
}

/// Bounds that every reachable state keeps.
pub open spec fn state_wf(s: SchedState, n: nat) -> bool {
    &&& s.current <= 0x1_0000_0000
    &&& s.next <= 0x1_0000_0000
    &&& s.cursor <= n
}

pub struct Scheduler {
    pub script: Script,
    pub state: SchedState,
}

impl Scheduler {
    pub open spec fn acts(&self) -> Seq<(u32, ActionSpec)> {
        actions_view(self.script.actions@)
    }

    pub open spec fn wf(&self) -> bool {
        state_wf(self.state, self.script.actions@.len())
    }

    /// A scheduler at the very start of a run, before the first frame.
    pub fn new(script: Script) -> (r: Self)
        ensures
            r.wf(),
            r.script == script,
            r.state == (SchedState { phase: Phase::Start, current: 0, next: 0, cursor: 0 }),
    {
        Scheduler { script, state: SchedState { phase: Phase::Start, current: 0, next: 0, cursor: 0 } }
    }

    fn find_due(&self) -> (r: usize)
        requires
            self.wf(),
        ensures
            r as int == next_due(self.acts(), self.state.current, self.state.cursor as int),
            r <= self.script.actions@.len(),
    {
        let n = self.script.actions.len();
        let mut j = self.state.cursor;
        while j < n
            invariant
                self.wf(),
                n == self.script.actions@.len(),
                self.state.cursor <= j <= n,
                next_due(self.acts(), self.state.current, self.state.cursor as int) == next_due(
                    self.acts(),
                    self.state.current,
                    j as int,
                ),
            decreases n - j,
        {
            if self.script.actions[j].frame as u64 == self.state.current {
                return j;
            }
            j += 1;
        }
        j
    }

    fn dispatch(&mut self) -> (r: Command)
        requires
            old(self).wf(),
        ensures
            final(self).wf(),
            final(self).script == old(self).script,
            (final(self).state, r) == dispatch_spec(old(self).state, old(self).acts()),
    {
        let i = self.find_due();
        if i >= self.script.actions.len() {
            self.state.phase = Phase::Begin;
            self.state.current = self.state.next;
            return Command::EndFrame;
        }
        self.state.cursor = i + 1;
        match &self.script.actions[i].action {
            TasActionType::Await { flag } => {
                let flag = *flag;
                self.state.phase = Phase::Awaiting { flag };
                Command::Query { query: await_query(flag).0 }
            },
            TasActionType::Frame { frame } => {
                self.state.next = *frame as u64;
                Command::Perform { index: i }
            },
            _ => Command::Perform { index: i },
        }
    }

    /// Takes the outcome of the previous command and returns the next one.
    pub fn step(&mut self, event: Event) -> (r: Command)
        requires
            old(self).wf(),
        ensures
            final(self).wf(),
            final(self).script == old(self).script,
            (final(self).state, r) == step_spec(
                old(self).state,
                old(self).acts(),
                old(self).script.frame_max,
                event,
            ),
    {
        match self.state.phase {
            Phase::Start => {
                self.state.phase = Phase::Begin;
                Command::ScriptStart
            },
            Phase::Begin => {
                if self.state.current > self.script.frame_max as u64 {
                    self.state.phase = Phase::Stopped;
                    Command::ScriptEnd
                } else {
                    self.state.phase = Phase::Dispatch;
                    self.state.cursor = 0;
                    self.state.next = self.state.current + 1;
                    Command::BeginFrame { frame: self.state.current as u32 }
                }
            },
            Phase::Dispatch => self.dispatch(),
            Phase::Awaiting { flag } => {
                let (query, wanted) = await_query(flag);
                match event {
                    Event::Status(b) => {
                        if b == wanted {
                            self.state.phase = Phase::Dispatch;
                            self.dispatch()
                        } else {
                            self.state.phase = Phase::AwaitStepped { flag };
                            Command::AdvanceAndWait
                        }
                    },
                    Event::Done => Command::Query { query },
                }
            },
            Phase::AwaitStepped { flag } => {
                self.state.phase = Phase::Awaiting { flag };
                Command::Query { query: await_query(flag).0 }
            },
            Phase::Stopped => {
                self.state.phase = Phase::Finished;
                Command::Finished
            },
            Phase::Finished => Command::Finished,
        }
    }

    /// The frame being processed.
    pub fn current_frame(&self) -> (r: u64)
        ensures
            r == self.state.current,
    {
        self.state.current
    }
}

/// Once the patches have been switched off, nothing else is asked of the
/// target: every later step reports `Finished`, so `ScriptEnd` comes once.
pub proof fn lemma_script_end_comes_once(
    s: SchedState,
    acts: Seq<(u32, ActionSpec)>,
    max: u32,
    e: Event,
)
    requires
        s.phase == Phase::Stopped || s.phase == Phase::Finished,
    ensures
        step_spec(s, acts, max, e).1 == Command::Finished,
        step_spec(s, acts, max, e).0.phase == Phase::Finished,
{
}

/// A frame past the last one ends the run: the next command is `ScriptEnd`.
pub proof fn lemma_run_ends_past_last_frame(s: SchedState, acts: Seq<(u32, ActionSpec)>, max: u32, e: Event)
    requires
        s.phase == Phase::Begin,
        s.current > max as u64,
    ensures
        step_spec(s, acts, max, e).1 == Command::ScriptEnd,
{
}

/// Without a jump, the frame after the current one is processed next; a jump
/// to frame `f` makes `f` the next frame processed.
pub proof fn lemma_frame_counter_advance(s: SchedState, acts: Seq<(u32, ActionSpec)>, max: u32, e: Event)
    requires
        s.phase == Phase::Dispatch,
        next_due(acts, s.current, s.cursor as int) < acts.len(),
    ensures
        ({
            let i = next_due(acts, s.current, s.cursor as int);
            let after = step_spec(s, acts, max, e).0;
            match acts[i].1 {
                ActionSpec::Frame { frame } => after.next == frame as u64,
                _ => after.next == s.next,
            }
        }),
{
}

} // verus!
