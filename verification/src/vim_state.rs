//! The editor state model and the goal detector.
//!
//! A `VimState` is one immutable snapshot of the observed editor: mode,
//! cursor position, buffer lines and named registers.  A `Goal` is a typed
//! target; `GoalDetector::check_goal` decides, purely and totally, whether a
//! snapshot satisfies a goal.

use vstd::prelude::*;

use crate::strutil::str_contains_char;
use crate::strutil::str_eq;

verus! {

/// The editor's mode.  Operator-pending mode carries the pending
/// operator's identity, and equality is sensitive to that payload.
#[derive(Debug, Clone)]
pub enum VimMode {
    Normal,
    Insert,
    Visual,
    VisualLine,
    VisualBlock,
    OperatorPending(String),
    Command,
}

/// Structural equality of modes: same variant, and for operator-pending
/// mode the same operator string.
pub open spec fn mode_eq(a: VimMode, b: VimMode) -> bool {
    match (a, b) {
        (VimMode::Normal, VimMode::Normal) => true,
        (VimMode::Insert, VimMode::Insert) => true,
        (VimMode::Visual, VimMode::Visual) => true,
        (VimMode::VisualLine, VimMode::VisualLine) => true,
        (VimMode::VisualBlock, VimMode::VisualBlock) => true,
        (VimMode::Command, VimMode::Command) => true,
        (VimMode::OperatorPending(x), VimMode::OperatorPending(y)) => x@ == y@,
        _ => false,
    }
}

impl PartialEq for VimMode {
    fn eq(&self, other: &Self) -> (r: bool) {
        match (self, other) {
            (VimMode::Normal, VimMode::Normal) => true,
            (VimMode::Insert, VimMode::Insert) => true,
            (VimMode::Visual, VimMode::Visual) => true,
            (VimMode::VisualLine, VimMode::VisualLine) => true,
            (VimMode::VisualBlock, VimMode::VisualBlock) => true,
            (VimMode::Command, VimMode::Command) => true,
            (VimMode::OperatorPending(x), VimMode::OperatorPending(y)) => str_eq(
                x.as_str(),
                y.as_str(),
            ),
            _ => false,
        }
    }
}

impl vstd::std_specs::cmp::PartialEqSpecImpl for VimMode {
    open spec fn obeys_eq_spec() -> bool {
        true
    }

    open spec fn eq_spec(&self, other: &Self) -> bool {
        mode_eq(*self, *other)
    }
}

/// The operator carried into operator-pending mode; an absent operator
/// reads as the empty string.
pub open spec fn operator_or_empty(operator: Option<String>) -> Seq<char> {
    match operator {
        Some(s) => s@,
        None => Seq::<char>::empty(),
    }
}

/// How a raw mode report classifies, in order: a detailed code of `no`
/// under a normal-mode code is operator-pending; then the single-letter
/// codes; a code containing the control character that the editor uses for
/// blockwise visual mode is visual-block; anything unrecognized reads as
/// normal mode.
pub open spec fn is_mode_for(m: VimMode, mode: Seq<char>, detailed: Seq<char>, op: Seq<char>) -> bool {
    if mode == "n"@ && detailed == "no"@ {
        m matches VimMode::OperatorPending(o) && o@ == op
    } else if mode == "n"@ {
        m == VimMode::Normal
    } else if mode == "i"@ {
        m == VimMode::Insert
    } else if mode == "v"@ {
        m == VimMode::Visual
    } else if mode == "V"@ {
        m == VimMode::VisualLine
    } else if mode.contains('\u{16}') {
        m == VimMode::VisualBlock
    } else if mode == "c"@ {
        m == VimMode::Command
    } else {
        m == VimMode::Normal
    }
}

impl VimMode {
    /// Classifies the raw mode codes reported by the editor, carrying the
    /// pending operator into operator-pending mode.
    pub fn from_vim_mode(mode: &str, mode_detailed: &str, operator: Option<String>) -> (m: VimMode)
        ensures
            is_mode_for(m, mode@, mode_detailed@, operator_or_empty(operator)),
    {
        if str_eq(mode, "n") && str_eq(mode_detailed, "no") {
            let op = match operator {
                Some(s) => s,
                None => String::new(),
            };
            VimMode::OperatorPending(op)
        } else if str_eq(mode, "n") {
            VimMode::Normal
        } else if str_eq(mode, "i") {
            VimMode::Insert
        } else if str_eq(mode, "v") {
            VimMode::Visual
        } else if str_eq(mode, "V") {
            VimMode::VisualLine
        } else if str_contains_char(mode, '\u{16}') {
            VimMode::VisualBlock
        } else if str_eq(mode, "c") {
            VimMode::Command
        } else {
            VimMode::Normal
        }
    }
}

/// One snapshot of the observed editor.  `registers` is an association
/// list from register name to content; well-formed snapshots keep the
/// names unique.
#[derive(Debug, Clone)]
pub struct VimState {
    pub mode: VimMode,
    pub cursor_line: usize,
    pub cursor_col: usize,
    pub operator: Option<String>,
    pub buffer_content: Vec<String>,
    pub registers: Vec<(String, String)>,
}

/// The content stored under `name`: the first matching entry.
pub open spec fn reg_lookup(regs: Seq<(String, String)>, name: Seq<char>) -> Option<Seq<char>>
    decreases regs.len(),
{
    if regs.len() == 0 {
        None
    } else if regs[0].0@ == name {
        Some(regs[0].1@)
    } else {
        reg_lookup(regs.drop_first(), name)
    }
}

/// Register names occur at most once.
pub open spec fn registers_unique(regs: Seq<(String, String)>) -> bool {
    forall|i: int, j: int| 0 <= i < j < regs.len() ==> regs[i].0@ != regs[j].0@
}

impl VimState {
    /// A well-formed snapshot has unique register names.
    pub open spec fn wf(&self) -> bool {
        registers_unique(self.registers@)
    }

    /// The fallback snapshot used when no sample is available: cursor at
    /// the origin, normal mode, a single empty buffer line, no registers.
    pub fn default_snapshot() -> (s: VimState)
        ensures
            s.mode == VimMode::Normal,
            s.cursor_line == 0,
            s.cursor_col == 0,
            s.operator is None,
            s.buffer_content@.len() == 1,
            s.buffer_content@[0]@ == Seq::<char>::empty(),
            s.registers@.len() == 0,
            s.wf(),
    {
        let mut buffer: Vec<String> = Vec::new();
        buffer.push(String::new());
        VimState {
            mode: VimMode::Normal,
            cursor_line: 0,
            cursor_col: 0,
            operator: None,
            buffer_content: buffer,
            registers: Vec::new(),
        }
    }
}

/// Finds the content of register `name` in an association list; the first
/// matching entry wins.
pub fn register_content<'a>(regs: &'a Vec<(String, String)>, name: &str) -> (r: Option<&'a String>)
    ensures
        match r {
            Some(content) => reg_lookup(regs@, name@) == Some(content@),
            None => reg_lookup(regs@, name@) is None,
        },
{
    let n = regs.len();
    let mut k: usize = 0;
    proof {
        assert(regs@.skip(0) =~= regs@);
    }
    while k < n
        invariant
            n == regs@.len(),
            k <= n,
            reg_lookup(regs@, name@) == reg_lookup(regs@.skip(k as int), name@),
        decreases n - k,
    {
        if str_eq(regs[k].0.as_str(), name) {
            proof {
                assert(regs@.skip(k as int)[0] == regs@[k as int]);
            }
            return Some(&regs[k].1);
        }
        proof {
            assert(regs@.skip(k as int)[0] == regs@[k as int]);
            assert(regs@.skip(k as int).drop_first() =~= regs@.skip(k as int + 1));
        }
        k = k + 1;
    }
    None
}

/// A typed goal: what must hold of a snapshot.
#[derive(Debug, Clone)]
pub enum GoalType {
    Position { line: usize, col: usize },
    Mode(VimMode),
    TextContent { line: usize, expected: String },
    BufferChange,
    RegisterContent { register: String, expected: String },
}

/// A goal together with the text shown to the learner.  The description is
/// for display only and plays no part in satisfaction.
#[derive(Debug, Clone)]
pub struct Goal {
    pub goal_type: GoalType,
    pub description: String,
}

/// Whether `state` satisfies `goal`.
///
/// A buffer-change goal always holds: no prior snapshot is retained, so
/// there is nothing to diff against.  That is a deliberate, known
/// incompleteness of this goal kind, not an error.
pub open spec fn goal_satisfied(goal: GoalType, state: VimState) -> bool {
    match goal {
        GoalType::Position { line, col } => state.cursor_line == line && state.cursor_col == col,
        GoalType::Mode(expected) => mode_eq(state.mode, expected),
        GoalType::TextContent { line, expected } => line < state.buffer_content@.len()
            && state.buffer_content@[line as int]@ == expected@,
        GoalType::BufferChange => true,
        GoalType::RegisterContent { register, expected } => reg_lookup(
            state.registers@,
            register@,
        ) == Some(expected@),
    }
}

/// Decides goal satisfaction.  Stateless; kept as a struct so that callers
/// can hold one alongside their progression state.
pub struct GoalDetector;

impl GoalDetector {
    pub fn new() -> (d: Self) {
        GoalDetector
    }

    /// Pure and total: true exactly when `current_state` satisfies `goal`.
    pub fn check_goal(&self, goal: &Goal, current_state: &VimState) -> (r: bool)
        ensures
            r == goal_satisfied(goal.goal_type, *current_state),
    {
        match &goal.goal_type {
            GoalType::Position { line, col } => {
                current_state.cursor_line == *line && current_state.cursor_col == *col
            },
            GoalType::Mode(expected_mode) => {
                &current_state.mode == expected_mode
            },
            GoalType::TextContent { line, expected } => {
                if *line < current_state.buffer_content.len() {
                    str_eq(current_state.buffer_content[*line].as_str(), expected.as_str())
                } else {
                    false
                }
            },
            GoalType::BufferChange => {
                true
            },
            GoalType::RegisterContent { register, expected } => {
                match register_content(&current_state.registers, register.as_str()) {
                    Some(content) => str_eq(content.as_str(), expected.as_str()),
                    None => false,
                }
            },
        }
    }
}

/// A position goal holds exactly when both cursor coordinates match; any
/// other cursor value, including an off-by-one in either coordinate, fails.
pub proof fn lemma_position_goal_exact(line: usize, col: usize, state: VimState)
    ensures
        goal_satisfied(GoalType::Position { line, col }, state) <==> (state.cursor_line == line
            && state.cursor_col == col),
{
}

/// A mode goal compares the whole mode value.
pub proof fn lemma_mode_goal_is_mode_eq(expected: VimMode, state: VimState)
    ensures
        goal_satisfied(GoalType::Mode(expected), state) <==> mode_eq(state.mode, expected),
{
}

/// Mode equality is payload-sensitive: an operator-pending goal holds
/// exactly when the state is operator-pending with the same operator.
pub proof fn lemma_operator_pending_payload_sensitive(expected_op: String, state: VimState)
    ensures
        goal_satisfied(GoalType::Mode(VimMode::OperatorPending(expected_op)), state) <==> (
        state.mode matches VimMode::OperatorPending(actual) && actual@ == expected_op@),
{
}

} // verus!
