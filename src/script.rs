//! Turning script lines into the ordered action list: frame references are
//! resolved line by line, and a script without any action is refused.
use vstd::prelude::*;
use crate::actions::{
    ActionSpec, FrameType, ParseError, TasAction, TasActionInfo, parse_action, parse_line,
};

verus! {

/// The running frame state of a script being read: the previous resolved
/// frame, the anchor that `++N` counts from, and the largest frame so far.
#[derive(Clone, Copy, Debug, PartialEq, Eq, Structural)]
pub struct FrameResolver {
    pub previous: u32,
    pub previous_absolute: u32,
    pub max: u32,
}

/// Resolves one frame reference against `s`: the frame it names and the state
/// after it, or `None` where the frame would not fit in a `u32`.
/// `N` names frame N and becomes the anchor; `+N` counts from the previous
/// frame and leaves the anchor alone; `++N` counts from the anchor and becomes
/// the new anchor.
pub open spec fn resolve_step(s: FrameResolver, n: u32, t: FrameType) -> Option<(u32, FrameResolver)> {
    let f: int = match t {
        FrameType::Absolute => n as int,
        FrameType::Relative => s.previous + n,
        FrameType::RelativeAbsolute => s.previous_absolute + n,
    };
    if f > u32::MAX {
        None
    } else {
        Some(
            (
                f as u32,
                FrameResolver {
                    previous: f as u32,
                    previous_absolute: if t == FrameType::Relative {
                        s.previous_absolute
                    } else {
                        f as u32
                    },
                    max: if f > s.max {
                        f as u32
                    } else {
                        s.max
                    },
                },
            ),
        )
    }
}

impl FrameResolver {
    pub open spec fn initial() -> FrameResolver {
        FrameResolver { previous: 0, previous_absolute: 0, max: 0 }
    }

    pub fn new() -> (r: Self)
        ensures
            r == FrameResolver::initial(),
    {
        FrameResolver { previous: 0, previous_absolute: 0, max: 0 }
    }

    /// Resolves a frame reference and advances the state; `None`, with the
    /// state unchanged, where the frame would overflow.
    pub fn resolve(&mut self, n: u32, t: FrameType) -> (r: Option<u32>)
        ensures
            match resolve_step(*old(self), n, t) {
                Some((f, s)) => r == Some(f) && *final(self) == s,
                None => r is None && *final(self) == *old(self),
            },
    {
        let base: u32 = match t {
            FrameType::Absolute => 0,
            FrameType::Relative => self.previous,
            FrameType::RelativeAbsolute => self.previous_absolute,
        };
        if n > u32::MAX - base {
            return None;
        }
        let f = base + n;
        self.previous = f;
        if t != FrameType::Relative {
            self.previous_absolute = f;
        }
        if f > self.max {
            self.max = f;
        }
        Some(f)
    }
}

/// `+N` never moves the anchor that `++N` counts from; `N` and `++N` move it
/// to the frame they resolve to.
pub proof fn lemma_anchor_moves_only_on_absolute_forms(s: FrameResolver, n: u32, t: FrameType)
    requires
        resolve_step(s, n, t) is Some,
    ensures
        ({
            let (f, after) = resolve_step(s, n, t)->Some_0;
            &&& after.previous == f
            &&& t == FrameType::Relative ==> after.previous_absolute == s.previous_absolute
            &&& t != FrameType::Relative ==> after.previous_absolute == f
        }),
{
}

#[derive(Clone, Copy, Debug, PartialEq, Eq, Structural)]
pub enum ScriptError {
    /// A line (numbered from 1) that does not parse.
    Parse { line: usize, error: ParseError },
    /// A line whose frame reference resolves past the largest frame number.
    FrameOverflow { line: usize },
    /// A script with no action at all.
    NoActions,
}

impl View for TasAction {
    type V = (u32, ActionSpec);

    open spec fn view(&self) -> (u32, ActionSpec) {
        (self.frame, self.action@)
    }
}

pub open spec fn actions_view(v: Seq<TasAction>) -> Seq<(u32, ActionSpec)> {
    Seq::new(v.len(), |i: int| v[i]@)
}

/// The frame state and the actions after reading `lines` in order, or the
/// first error.
pub open spec fn scan_lines(lines: Seq<Seq<char>>) -> Result<(FrameResolver, Seq<(u32, ActionSpec)>), ScriptError>
    decreases lines.len(),
{
    if lines.len() == 0 {
        Ok((FrameResolver::initial(), Seq::empty()))
    } else {
        match scan_lines(lines.drop_last()) {
            Err(e) => Err(e),
            Ok(st) => match parse_line(lines.last()) {
                Err(e) => Err(ScriptError::Parse { line: lines.len() as usize, error: e }),
                Ok(None) => Ok(st),
                Ok(Some(info)) => match resolve_step(st.0, info.frame, info.frame_type) {
                    None => Err(ScriptError::FrameOverflow { line: lines.len() as usize }),
                    Some((f, s)) => Ok((s, st.1.push((f, info.action)))),
                },
            },
        }
    }
}

/// The whole script: its actions in line order and its last frame.
pub open spec fn script_of(lines: Seq<Seq<char>>) -> Result<(Seq<(u32, ActionSpec)>, u32), ScriptError> {
    match scan_lines(lines) {
        Err(e) => Err(e),
        Ok(st) => if st.1.len() == 0 {
            Err(ScriptError::NoActions)
        } else {
            Ok((st.1, st.0.max))
        },
    }
}

/// The resolved actions of a script, in line order, and its largest frame.
pub struct Script {
    pub actions: Vec<TasAction>,
    pub frame_max: u32,
}

impl Script {
    pub open spec fn spec_view(&self) -> (Seq<(u32, ActionSpec)>, u32) {
        (actions_view(self.actions@), self.frame_max)
    }
}

pub open spec fn script_result_view(r: Result<Script, ScriptError>) -> Result<(Seq<(u32, ActionSpec)>, u32), ScriptError> {
    match r {
        Ok(s) => Ok(s.spec_view()),
        Err(e) => Err(e),
    }
}

/// Collects actions line by line, resolving their frames as they come.
pub struct ScriptBuilder {
    pub resolver: FrameResolver,
    pub actions: Vec<TasAction>,
}

impl ScriptBuilder {
    pub fn new() -> (r: Self)
        ensures
            r.resolver == FrameResolver::initial(),
            r.actions@.len() == 0,
    {
        ScriptBuilder { resolver: FrameResolver::new(), actions: Vec::new() }
    }

    /// Places a parsed action on its frame; `None`, with nothing changed, where
    /// the frame would overflow.
    pub fn push(&mut self, info: TasActionInfo) -> (r: Option<u32>)
        ensures
            match resolve_step(old(self).resolver, info.frame, info.frame_type) {
                Some((f, s)) => r == Some(f) && final(self).resolver == s && actions_view(
                    final(self).actions@,
                ) == actions_view(old(self).actions@).push((f, info.action@)),
                None => r is None && final(self).resolver == old(self).resolver
                    && final(self).actions@ == old(self).actions@,
            },
    {
        match self.resolver.resolve(info.frame, info.frame_type) {
            Some(f) => {
                let ghost before = self.actions@;
                self.actions.push(TasAction { frame: f, action: info.action });
                assert(actions_view(self.actions@) =~= actions_view(before).push((f, info.action@)));
                Some(f)
            },
            None => None,
        }
    }

    /// The finished script, or `NoActions` where nothing was pushed.
    pub fn finish(self) -> (r: Result<Script, ScriptError>)
        ensures
            self.actions@.len() == 0 ==> r == Err::<Script, ScriptError>(ScriptError::NoActions),
            self.actions@.len() > 0 ==> r is Ok && r->Ok_0.actions@ == self.actions@
                && r->Ok_0.frame_max == self.resolver.max,
    {
        if self.actions.len() == 0 {
            Err(ScriptError::NoActions)
        } else {
            Ok(Script { actions: self.actions, frame_max: self.resolver.max })
        }
    }
}

proof fn lemma_scan_error_persists(lines: Seq<Seq<char>>, i: int)
    requires
        0 <= i <= lines.len(),
        scan_lines(lines.subrange(0, i)) is Err,
    ensures
        scan_lines(lines) == scan_lines(lines.subrange(0, i)),
    decreases lines.len() - i,
{
    if i < lines.len() {
        let d = lines.drop_last();
        assert(d.subrange(0, i) =~= lines.subrange(0, i));
        lemma_scan_error_persists(d, i);
    } else {
        assert(lines.subrange(0, i) =~= lines);
    }
}

/// Reads a whole script: every line parsed, every frame resolved, and the
/// script refused when no line holds an action.
pub fn build_script(lines: &Vec<String>) -> (r: Result<Script, ScriptError>)
    requires
        lines@.len() < usize::MAX,
    ensures
        script_result_view(r) == script_of(lines.deep_view()),
{
    let ghost ls = lines.deep_view();
    let mut b = ScriptBuilder::new();
    let mut i: usize = 0;
    assert(ls.subrange(0, 0) =~= Seq::<Seq<char>>::empty());
    assert(actions_view(b.actions@) =~= Seq::<(u32, ActionSpec)>::empty());
    while i < lines.len()
        invariant
            ls == lines.deep_view(),
            lines@.len() < usize::MAX,
            i <= lines@.len(),
            scan_lines(ls.subrange(0, i as int)) == Ok::<(FrameResolver, Seq<(u32, ActionSpec)>), ScriptError>(
                (b.resolver, actions_view(b.actions@)),
            ),
        decreases lines@.len() - i,
    {
        let ghost pre = ls.subrange(0, i as int);
        assert(ls.subrange(0, i + 1).drop_last() =~= pre);
        assert(ls.subrange(0, i + 1).last() == lines@[i as int]@);
        match parse_action(lines[i].as_str()) {
            Err(e) => {
                proof {
                    lemma_scan_error_persists(ls, i + 1);
                }
                return Err(ScriptError::Parse { line: i + 1, error: e });
            },
            Ok(None) => {},
            Ok(Some(info)) => {
                if b.push(info).is_none() {
                    proof {
                        lemma_scan_error_persists(ls, i + 1);
                    }
                    return Err(ScriptError::FrameOverflow { line: i + 1 });
                }
            },
        }
        i += 1;
    }
    assert(ls.subrange(0, i as int) =~= ls);
    b.finish()
}

/// A script whose every line is blank or a comment is refused as empty.
pub proof fn lemma_script_without_actions_is_refused(lines: Seq<Seq<char>>)
    requires
        forall|i: int| 0 <= i < lines.len() ==> #[trigger] parse_line(lines[i]) == Ok::<
            Option<crate::actions::InfoSpec>,
            ParseError,
        >(None),
    ensures
        script_of(lines) == Err::<(Seq<(u32, ActionSpec)>, u32), ScriptError>(ScriptError::NoActions),
{
    lemma_blank_lines_scan_empty(lines);
}

proof fn lemma_blank_lines_scan_empty(lines: Seq<Seq<char>>)
    requires
        forall|i: int| 0 <= i < lines.len() ==> #[trigger] parse_line(lines[i]) == Ok::<
            Option<crate::actions::InfoSpec>,
            ParseError,
        >(None),
    ensures
        scan_lines(lines) == Ok::<(FrameResolver, Seq<(u32, ActionSpec)>), ScriptError>(
            (FrameResolver::initial(), Seq::empty()),
        ),
    decreases lines.len(),
{
    if lines.len() > 0 {
        let d = lines.drop_last();
        assert forall|i: int| 0 <= i < d.len() implies #[trigger] parse_line(d[i]) == Ok::<
            Option<crate::actions::InfoSpec>,
            ParseError,
        >(None) by {
            assert(d[i] == lines[i]);
        }
        lemma_blank_lines_scan_empty(d);
        assert(parse_line(lines[lines.len() - 1]) == Ok::<Option<crate::actions::InfoSpec>, ParseError>(None));
    }
}

} // verus!
