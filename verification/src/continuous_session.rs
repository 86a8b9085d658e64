//! The goal compiler and the exercise flow controller.
//!
//! An exercise arrives as declarative data: each goal is a string tag plus
//! a loosely shaped target value.  `convert_goal_definition` compiles that
//! into a typed `Goal` once, at exercise start — never during polling — and
//! fails fast on malformed or unknown input.  `ContinuousVimSession` then
//! owns the progression state and advances it one editor sample at a time
//! according to the exercise's flow policy.

use vstd::prelude::*;

use crate::strutil::has_prefix;
use crate::strutil::str_eq;
use crate::strutil::strip_prefix_of;
use crate::vim_state::Goal;
use crate::vim_state::GoalDetector;
use crate::vim_state::GoalType;
use crate::vim_state::VimMode;
use crate::vim_state::VimState;
use crate::vim_state::goal_satisfied;
use crate::vim_rpc::VimRpcClient;

verus! {

/// A loosely typed target value, the shape-bearing half of a declarative
/// goal.  Lists and key-value entry lists mirror the arrays and objects of
/// the structured content files; anything the loader cannot place maps to
/// `Null`.
#[derive(Debug)]
pub enum TargetValue {
    Null,
    Number(u64),
    Text(String),
    List(Vec<TargetValue>),
    Entries(Vec<(String, TargetValue)>),
}

/// The value stored under `key`: the first matching entry.
pub open spec fn entry_lookup(entries: Seq<(String, TargetValue)>, key: Seq<char>) -> Option<
    TargetValue,
>
    decreases entries.len(),
{
    if entries.len() == 0 {
        None
    } else if entries[0].0@ == key {
        Some(entries[0].1)
    } else {
        entry_lookup(entries.drop_first(), key)
    }
}

/// A number read leniently: anything that is not a number reads as 0.
pub open spec fn num_or_zero(v: TargetValue) -> u64 {
    match v {
        TargetValue::Number(n) => n,
        _ => 0,
    }
}

/// A string read leniently: anything that is not text reads as empty.
pub open spec fn text_or_empty(v: TargetValue) -> Seq<char> {
    match v {
        TargetValue::Text(s) => s@,
        _ => Seq::<char>::empty(),
    }
}

/// The number at position `i` of a list; a missing or non-numeric element
/// reads as 0.
pub open spec fn list_num(items: Seq<TargetValue>, i: int) -> u64 {
    if 0 <= i < items.len() {
        num_or_zero(items[i])
    } else {
        0
    }
}

/// The number under `key`; a missing or non-numeric field reads as 0.
pub open spec fn field_num(entries: Seq<(String, TargetValue)>, key: Seq<char>) -> u64 {
    match entry_lookup(entries, key) {
        Some(v) => num_or_zero(v),
        None => 0,
    }
}

/// The text under `key`; a missing or non-text field reads as empty.
pub open spec fn field_text(entries: Seq<(String, TargetValue)>, key: Seq<char>) -> Seq<char> {
    match entry_lookup(entries, key) {
        Some(v) => text_or_empty(v),
        None => Seq::<char>::empty(),
    }
}

/// Finds the value stored under `key`; the first matching entry wins.
pub fn entry_get<'a>(entries: &'a Vec<(String, TargetValue)>, key: &str) -> (r: Option<
    &'a TargetValue,
>)
    ensures
        match r {
            Some(v) => entry_lookup(entries@, key@) == Some(*v),
            None => entry_lookup(entries@, key@) is None,
        },
{
    let n = entries.len();
    let mut k: usize = 0;
    proof {
        assert(entries@.skip(0) =~= entries@);
    }
    while k < n
        invariant
            n == entries@.len(),
            k <= n,
            entry_lookup(entries@, key@) == entry_lookup(entries@.skip(k as int), key@),
        decreases n - k,
    {
        if str_eq(entries[k].0.as_str(), key) {
            proof {
                assert(entries@.skip(k as int)[0] == entries@[k as int]);
            }
            return Some(&entries[k].1);
        }
        proof {
            assert(entries@.skip(k as int)[0] == entries@[k as int]);
            assert(entries@.skip(k as int).drop_first() =~= entries@.skip(k as int + 1));
        }
        k = k + 1;
    }
    None
}

/// The number at position `i` of a list, read leniently.
pub fn list_number_at(items: &Vec<TargetValue>, i: usize) -> (r: u64)
    ensures
        r == list_num(items@, i as int),
{
    if i < items.len() {
        match &items[i] {
            TargetValue::Number(n) => *n,
            _ => 0,
        }
    } else {
        0
    }
}

/// The number under `key`, read leniently.
pub fn field_number(entries: &Vec<(String, TargetValue)>, key: &str) -> (r: u64)
    ensures
        r == field_num(entries@, key@),
{
    match entry_get(entries, key) {
        Some(v) => match v {
            TargetValue::Number(n) => *n,
            _ => 0,
        },
        None => 0,
    }
}

/// The text under `key`, read leniently, as an owned string.
pub fn field_string(entries: &Vec<(String, TargetValue)>, key: &str) -> (r: String)
    ensures
        r@ == field_text(entries@, key@),
{
    match entry_get(entries, key) {
        Some(v) => match v {
            TargetValue::Text(s) => s.clone(),
            _ => String::new(),
        },
        None => String::new(),
    }
}

/// One declarative goal as the content loader hands it over: a kind tag,
/// a target whose shape depends on the kind, and display text.
#[derive(Debug)]
pub struct ExerciseGoal {
    pub goal_type: String,
    pub target: TargetValue,
    pub description: String,
    pub hint: Option<String>,
}

/// How the goals of an exercise must be satisfied.
#[derive(Debug, Clone, Copy, PartialEq, Eq, Structural)]
pub enum FlowType {
    Sequential,
    AnyOrder,
    Parallel,
}

/// One declarative exercise: display text, the initial buffer lines, the
/// ordered goals (order is significant for sequential flow) and the flow
/// policy.
#[derive(Debug)]
pub struct ContinuousExercise {
    pub title: String,
    pub description: String,
    pub sample_code: Vec<String>,
    pub goals: Vec<ExerciseGoal>,
    pub flow_type: FlowType,
}

/// Why a goal definition was rejected at compile time.
#[derive(Debug, Clone)]
pub enum ConfigError {
    UnknownGoalKind(String),
    UnknownMode(String),
    PositionTargetNotArray,
    ModeTargetNotString,
    TextTargetNotObject,
    RegisterTargetNotObject,
}

/// The mode names a mode goal accepts: six literal names, or
/// `operator_<op>` for operator-pending mode.
pub open spec fn mode_name_ok(s: Seq<char>) -> bool {
    s == "normal"@ || s == "insert"@ || s == "visual"@ || s == "visual_line"@ || s
        == "visual_block"@ || s == "command"@ || has_prefix(s, "operator_"@)
}

/// The mode that a mode-goal target names.
pub open spec fn mode_goal_for(m: VimMode, s: Seq<char>) -> bool {
    if s == "normal"@ {
        m == VimMode::Normal
    } else if s == "insert"@ {
        m == VimMode::Insert
    } else if s == "visual"@ {
        m == VimMode::Visual
    } else if s == "visual_line"@ {
        m == VimMode::VisualLine
    } else if s == "visual_block"@ {
        m == VimMode::VisualBlock
    } else if s == "command"@ {
        m == VimMode::Command
    } else if has_prefix(s, "operator_"@) {
        m matches VimMode::OperatorPending(o) && o@ == s.skip("operator_"@.len() as int)
    } else {
        false
    }
}

/// When a goal definition compiles: the target has the shape its kind
/// demands, and a mode target names a known mode.
pub open spec fn compilable(def: ExerciseGoal) -> bool {
    if def.goal_type@ == "position"@ {
        def.target matches TargetValue::List(_)
    } else if def.goal_type@ == "mode"@ {
        def.target matches TargetValue::Text(s) && mode_name_ok(s@)
    } else if def.goal_type@ == "text"@ {
        def.target matches TargetValue::Entries(_)
    } else if def.goal_type@ == "register"@ {
        def.target matches TargetValue::Entries(_)
    } else if def.goal_type@ == "buffer_change"@ {
        true
    } else {
        false
    }
}

/// What a successful compilation produces, field by field.  Position and
/// text goals read missing or ill-typed components leniently as 0 or the
/// empty string; the description is carried over unchanged.
pub open spec fn goal_compiles_to(def: ExerciseGoal, g: Goal) -> bool {
    g.description@ == def.description@ && if def.goal_type@ == "position"@ {
        def.target matches TargetValue::List(items) && g.goal_type matches GoalType::Position {
            line,
            col,
        } && line == list_num(items@, 0) as usize && col == list_num(items@, 1) as usize
    } else if def.goal_type@ == "mode"@ {
        def.target matches TargetValue::Text(s) && g.goal_type matches GoalType::Mode(m)
            && mode_goal_for(m, s@)
    } else if def.goal_type@ == "text"@ {
        def.target matches TargetValue::Entries(entries)
            && g.goal_type matches GoalType::TextContent { line, expected } && line == field_num(
            entries@,
            "line"@,
        ) as usize && expected@ == field_text(entries@, "expected"@)
    } else if def.goal_type@ == "register"@ {
        def.target matches TargetValue::Entries(entries)
            && g.goal_type matches GoalType::RegisterContent { register, expected } && register@
            == field_text(entries@, "register"@) && expected@ == field_text(entries@, "expected"@)
    } else if def.goal_type@ == "buffer_change"@ {
        g.goal_type matches GoalType::BufferChange
    } else {
        false
    }
}

/// Which error a failing compilation reports.
pub open spec fn compile_fails_with(def: ExerciseGoal, e: ConfigError) -> bool {
    if def.goal_type@ == "position"@ {
        !(def.target matches TargetValue::List(_)) && e matches ConfigError::PositionTargetNotArray
    } else if def.goal_type@ == "mode"@ {
        match def.target {
            TargetValue::Text(s) => !mode_name_ok(s@) && (e matches ConfigError::UnknownMode(v)
                && v@ == s@),
            _ => e matches ConfigError::ModeTargetNotString,
        }
    } else if def.goal_type@ == "text"@ {
        !(def.target matches TargetValue::Entries(_)) && e matches ConfigError::TextTargetNotObject
    } else if def.goal_type@ == "register"@ {
        !(def.target matches TargetValue::Entries(_))
            && e matches ConfigError::RegisterTargetNotObject
    } else if def.goal_type@ == "buffer_change"@ {
        false
    } else {
        e matches ConfigError::UnknownGoalKind(k) && k@ == def.goal_type@
    }
}

/// The outcome of monitoring one exercise: every goal reached, monitoring
/// cancelled before that, or failed for the given reason.
#[derive(Debug)]
pub enum ExerciseResult {
    Completed,
    Incomplete,
    Failed(String),
}

/// What one sample transition publishes to the display: the zero-based
/// index of the now-active goal, completion, or nothing.
#[derive(Debug, Clone, Copy, PartialEq, Eq, Structural)]
pub enum ProgressEvent {
    GoalAdvanced(usize),
    Completed,
    NoChange,
}

/// Index of the first `false` in `s`; `s.len()` when all are true.
pub open spec fn first_false(s: Seq<bool>) -> int
    decreases s.len(),
{
    if s.len() == 0 {
        0
    } else if !s[0] {
        0
    } else {
        1 + first_false(s.drop_first())
    }
}

proof fn lemma_first_false_at(s: Seq<bool>, k: int)
    requires
        0 <= k <= s.len(),
        forall|j: int| 0 <= j < k ==> s[j],
        k < s.len() ==> !s[k],
    ensures
        first_false(s) == k,
    decreases k,
{
    if k == 0 {
    } else {
        lemma_first_false_at(s.drop_first(), k - 1);
    }
}

/// Every goal of `exercise` compiled into the aligned entry of `compiled`.
pub open spec fn goals_compiled(exercise: ContinuousExercise, compiled: Seq<Goal>) -> bool {
    compiled.len() == exercise.goals@.len() && forall|i: int|
        0 <= i < compiled.len() ==> goal_compiles_to(exercise.goals@[i], #[trigger] compiled[i])
}

/// Every goal of the sequence compiles.
pub open spec fn all_compilable(goals: Seq<ExerciseGoal>) -> bool {
    forall|i: int| 0 <= i < goals.len() ==> compilable(#[trigger] goals[i])
}

/// The flow policy of the loaded exercise, if one is loaded.
pub open spec fn spec_flow(s: ContinuousVimSession) -> Option<FlowType> {
    match s.current_exercise {
        Some(e) => Some(e.flow_type),
        None => None,
    }
}

/// One sequential transition: only the active goal is evaluated.  When it
/// is satisfied it is marked completed and the active index advances by
/// exactly one — never more; reaching the end completes the exercise.
pub open spec fn sequential_step(
    pre: ContinuousVimSession,
    post: ContinuousVimSession,
    state: VimState,
    ev: ProgressEvent,
) -> bool {
    let i = pre.current_goal_index as int;
    let n = pre.compiled_goals@.len() as int;
    if i < n && goal_satisfied(pre.compiled_goals@[i].goal_type, state) {
        post.current_goal_index == i + 1 && post.completed_goals@ == pre.completed_goals@.update(
            i,
            true,
        ) && ev == (if i + 1 == n {
            ProgressEvent::Completed
        } else {
            ProgressEvent::GoalAdvanced((i + 1) as usize)
        })
    } else {
        post.current_goal_index == pre.current_goal_index && post.completed_goals@
            == pre.completed_goals@ && ev == ProgressEvent::NoChange
    }
}

/// One any-order transition: every not-yet-completed goal is evaluated and
/// the newly satisfied ones are marked, in whatever order they are
/// discovered.  The exercise completes exactly when every goal has been
/// completed, regardless of the order in which that happened.
pub open spec fn any_order_step(
    pre: ContinuousVimSession,
    post: ContinuousVimSession,
    state: VimState,
    ev: ProgressEvent,
) -> bool {
    let n = pre.compiled_goals@.len() as int;
    post.current_goal_index == pre.current_goal_index && post.completed_goals@.len() == n && (
    forall|j: int|
        0 <= j < n ==> #[trigger] post.completed_goals@[j] == (pre.completed_goals@[j]
            || goal_satisfied(pre.compiled_goals@[j].goal_type, state))) && ev == (if (forall|
        j: int,
    |
        0 <= j < n ==> #[trigger] post.completed_goals@[j]) {
        ProgressEvent::Completed
    } else if post.completed_goals@ != pre.completed_goals@ {
        ProgressEvent::GoalAdvanced(first_false(post.completed_goals@) as usize)
    } else {
        ProgressEvent::NoChange
    })
}

/// One parallel transition: every goal is evaluated against this one
/// sample, and the completion map reflects exactly this sample.  The
/// exercise completes only when all goals hold simultaneously in the same
/// sample; a goal that held in an earlier sample does not count.
pub open spec fn parallel_step(
    pre: ContinuousVimSession,
    post: ContinuousVimSession,
    state: VimState,
    ev: ProgressEvent,
) -> bool {
    let n = pre.compiled_goals@.len() as int;
    post.current_goal_index == pre.current_goal_index && post.completed_goals@.len() == n && (
    forall|j: int|
        0 <= j < n ==> #[trigger] post.completed_goals@[j] == goal_satisfied(
            pre.compiled_goals@[j].goal_type,
            state,
        )) && ev == (if (forall|j: int| 0 <= j < n ==> #[trigger] post.completed_goals@[j]) {
        ProgressEvent::Completed
    } else {
        ProgressEvent::NoChange
    })
}

/// Under sequential flow the active index never jumps: one transition
/// moves it by exactly one when the active goal is satisfied and not at
/// all otherwise.
pub proof fn lemma_sequential_index_moves_by_one(
    pre: ContinuousVimSession,
    post: ContinuousVimSession,
    state: VimState,
    ev: ProgressEvent,
)
    requires
        sequential_step(pre, post, state, ev),
    ensures
        post.current_goal_index == pre.current_goal_index || post.current_goal_index
            == pre.current_goal_index + 1,
        post.current_goal_index == pre.current_goal_index + 1 ==> goal_satisfied(
            pre.compiled_goals@[pre.current_goal_index as int].goal_type,
            state,
        ),
{
}

/// Under sequential flow the progression invariant makes completion and
/// the active index agree: every goal is completed exactly when the
/// active index stands past the last goal.
pub proof fn lemma_sequential_complete_iff_index_at_end(s: ContinuousVimSession)
    requires
        s.progress_wf(),
        s.current_exercise matches Some(e) && e.flow_type == FlowType::Sequential,
    ensures
        (forall|i: int| 0 <= i < s.completed_goals@.len() ==> #[trigger] s.completed_goals@[i])
            <==> s.current_goal_index == s.completed_goals@.len(),
{
    if s.current_goal_index < s.completed_goals@.len() {
        assert(!s.completed_goals@[s.current_goal_index as int]);
    }
}

/// Under any-order flow a completed goal stays completed, and the
/// transition completes the exercise exactly when every goal is either
/// already completed or satisfied by this sample — the order in which the
/// goals were discovered plays no part.
pub proof fn lemma_any_order_completion(
    pre: ContinuousVimSession,
    post: ContinuousVimSession,
    state: VimState,
    ev: ProgressEvent,
)
    requires
        any_order_step(pre, post, state, ev),
        pre.completed_goals@.len() == pre.compiled_goals@.len(),
    ensures
        forall|j: int|
            0 <= j < pre.completed_goals@.len() && #[trigger] pre.completed_goals@[j]
                ==> post.completed_goals@[j],
        ev == ProgressEvent::Completed <==> (forall|j: int|
            0 <= j < pre.compiled_goals@.len() ==> (#[trigger] pre.completed_goals@[j]
                || goal_satisfied(pre.compiled_goals@[j].goal_type, state))),
{
    if forall|j: int|
        0 <= j < pre.compiled_goals@.len() ==> (#[trigger] pre.completed_goals@[j]
            || goal_satisfied(pre.compiled_goals@[j].goal_type, state)) {
        assert forall|j: int|
            0 <= j < pre.compiled_goals@.len() implies #[trigger] post.completed_goals@[j] by {
            assert(pre.completed_goals@[j] || goal_satisfied(
                pre.compiled_goals@[j].goal_type,
                state,
            ));
        }
    }
    if ev == ProgressEvent::Completed {
        assert forall|j: int|
            0 <= j < pre.compiled_goals@.len() implies (#[trigger] pre.completed_goals@[j]
                || goal_satisfied(pre.compiled_goals@[j].goal_type, state)) by {
            assert(post.completed_goals@[j]);
        }
    }
}

/// Under parallel flow the exercise completes only when every goal holds
/// in the same sample: one goal unsatisfied in this sample blocks
/// completion, however many samples satisfied it earlier.
pub proof fn lemma_parallel_requires_simultaneous(
    pre: ContinuousVimSession,
    post: ContinuousVimSession,
    state: VimState,
    ev: ProgressEvent,
    j: int,
)
    requires
        parallel_step(pre, post, state, ev),
        0 <= j < pre.compiled_goals@.len(),
        !goal_satisfied(pre.compiled_goals@[j].goal_type, state),
    ensures
        ev != ProgressEvent::Completed,
{
    assert(!post.completed_goals@[j]);
}

/// Owns the progression state of one exercise: the compiled goals, which
/// are completed, and (for sequential flow) which is active.  The single
/// mutator is the monitoring loop that feeds it samples.
pub struct ContinuousVimSession {
    pub vim_client: VimRpcClient,
    pub goal_detector: GoalDetector,
    pub current_exercise: Option<ContinuousExercise>,
    pub compiled_goals: Vec<Goal>,
    pub current_goal_index: usize,
    pub completed_goals: Vec<bool>,
    pub last_state: Option<VimState>,
    pub monitoring_active: bool,
    pub instruction_pane_id: Option<String>,
}

impl ContinuousVimSession {
    /// The progression invariant.  While an exercise is loaded, the
    /// completion map is aligned with its compiled goals, the active index
    /// never passes the end, and under sequential flow the completed goals
    /// are exactly those before the active index.
    pub open spec fn progress_wf(&self) -> bool {
        match self.current_exercise {
            Some(e) => goals_compiled(e, self.compiled_goals@) && self.completed_goals@.len()
                == self.compiled_goals@.len() && self.current_goal_index
                <= self.compiled_goals@.len() && (e.flow_type == FlowType::Sequential
                ==> (forall|i: int|
                0 <= i < self.completed_goals@.len() ==> #[trigger] self.completed_goals@[i] == (i
                    < self.current_goal_index))),
            None => true,
        }
    }

    pub fn new(socket_path: String) -> (s: Self)
        ensures
            s.vim_client.socket_path == socket_path,
            s.vim_client.nvim_process_id is None,
            s.current_exercise is None,
            s.compiled_goals@.len() == 0,
            s.current_goal_index == 0,
            s.completed_goals@.len() == 0,
            s.last_state is None,
            s.monitoring_active == false,
            s.instruction_pane_id is None,
            s.progress_wf(),
    {
        ContinuousVimSession {
            vim_client: VimRpcClient::new(socket_path),
            goal_detector: GoalDetector::new(),
            current_exercise: None,
            compiled_goals: Vec::new(),
            current_goal_index: 0,
            completed_goals: Vec::new(),
            last_state: None,
            monitoring_active: false,
            instruction_pane_id: None,
        }
    }

    /// Compiles one declarative goal into a typed goal.
    ///
    /// Succeeds exactly when the definition is `compilable`; the result is
    /// pinned by `goal_compiles_to`, and a failure reports the error that
    /// `compile_fails_with` names for the definition.
    pub fn convert_goal_definition(&self, goal_def: &ExerciseGoal) -> (r: Result<Goal, ConfigError>)
        ensures
            r matches Ok(g) ==> goal_compiles_to(*goal_def, g),
            r matches Err(e) ==> compile_fails_with(*goal_def, e),
            r is Ok == compilable(*goal_def),
    {
        let goal_type = if str_eq(goal_def.goal_type.as_str(), "position") {
            match &goal_def.target {
                TargetValue::List(items) => {
                    let line = list_number_at(items, 0) as usize;
                    let col = list_number_at(items, 1) as usize;
                    GoalType::Position { line, col }
                },
                _ => {
                    return Err(ConfigError::PositionTargetNotArray);
                },
            }
        } else if str_eq(goal_def.goal_type.as_str(), "mode") {
            match &goal_def.target {
                TargetValue::Text(mode_str) => {
                    let m = if str_eq(mode_str.as_str(), "normal") {
                        VimMode::Normal
                    } else if str_eq(mode_str.as_str(), "insert") {
                        VimMode::Insert
                    } else if str_eq(mode_str.as_str(), "visual") {
                        VimMode::Visual
                    } else if str_eq(mode_str.as_str(), "visual_line") {
                        VimMode::VisualLine
                    } else if str_eq(mode_str.as_str(), "visual_block") {
                        VimMode::VisualBlock
                    } else if str_eq(mode_str.as_str(), "command") {
                        VimMode::Command
                    } else {
                        match strip_prefix_of(mode_str.as_str(), "operator_") {
                            Some(op) => VimMode::OperatorPending(op.to_owned()),
                            None => {
                                return Err(ConfigError::UnknownMode(mode_str.clone()));
                            },
                        }
                    };
                    GoalType::Mode(m)
                },
                _ => {
                    return Err(ConfigError::ModeTargetNotString);
                },
            }
        } else if str_eq(goal_def.goal_type.as_str(), "text") {
            match &goal_def.target {
                TargetValue::Entries(entries) => {
                    let line = field_number(entries, "line") as usize;
                    let expected = field_string(entries, "expected");
                    GoalType::TextContent { line, expected }
                },
                _ => {
                    return Err(ConfigError::TextTargetNotObject);
                },
            }
        } else if str_eq(goal_def.goal_type.as_str(), "register") {
            match &goal_def.target {
                TargetValue::Entries(entries) => {
                    let register = field_string(entries, "register");
                    let expected = field_string(entries, "expected");
                    GoalType::RegisterContent { register, expected }
                },
                _ => {
                    return Err(ConfigError::RegisterTargetNotObject);
                },
            }
        } else if str_eq(goal_def.goal_type.as_str(), "buffer_change") {
            GoalType::BufferChange
        } else {
            return Err(ConfigError::UnknownGoalKind(goal_def.goal_type.clone()));
        };

        Ok(Goal { goal_type, description: goal_def.description.clone() })
    }

    /// Loads an exercise: compiles every goal up front, then resets the
    /// progression state and starts monitoring.  If any goal fails to
    /// compile, the first failure is reported and the session is left
    /// untouched — an exercise never starts with a partially compiled goal
    /// list.
    pub fn start_exercise(&mut self, exercise: ContinuousExercise) -> (r: Result<(), ConfigError>)
        ensures
            r is Ok == all_compilable(exercise.goals@),
            r matches Ok(()) ==> {
                &&& final(self).current_exercise == Some(exercise)
                &&& goals_compiled(exercise, final(self).compiled_goals@)
                &&& final(self).completed_goals@.len() == exercise.goals@.len()
                &&& (forall|i: int|
                    0 <= i < final(self).completed_goals@.len() ==> !(#[trigger] final(self).completed_goals@[i]))
                &&& final(self).current_goal_index == 0
                &&& final(self).monitoring_active == true
                &&& final(self).last_state == old(self).last_state
                &&& final(self).instruction_pane_id == old(self).instruction_pane_id
                &&& final(self).vim_client == old(self).vim_client
                &&& final(self).progress_wf()
            },
            r matches Err(e) ==> {
                &&& *final(self) == *old(self)
                &&& exists|i: int|
                    0 <= i < exercise.goals@.len() && !compilable(#[trigger] exercise.goals@[i])
                        && (forall|j: int| 0 <= j < i ==> compilable(#[trigger] exercise.goals@[j]))
                        && compile_fails_with(exercise.goals@[i], e)
            },
    {
        let n = exercise.goals.len();
        let mut compiled: Vec<Goal> = Vec::new();
        let mut idx: usize = 0;
        while idx < n
            invariant
                n == exercise.goals@.len(),
                idx <= n,
                compiled@.len() == idx,
                forall|i: int|
                    0 <= i < idx ==> goal_compiles_to(exercise.goals@[i], #[trigger] compiled@[i]),
                forall|i: int| 0 <= i < idx ==> compilable(#[trigger] exercise.goals@[i]),
                *self == *old(self),
            decreases n - idx,
        {
            match self.convert_goal_definition(&exercise.goals[idx]) {
                Ok(g) => {
                    compiled.push(g);
                },
                Err(e) => {
                    proof {
                        assert(!compilable(exercise.goals@[idx as int]));
                    }
                    return Err(e);
                },
            }
            idx = idx + 1;
        }

        let mut completed: Vec<bool> = Vec::new();
        let mut k: usize = 0;
        while k < n
            invariant
                k <= n,
                completed@.len() == k,
                forall|i: int| 0 <= i < k ==> !(#[trigger] completed@[i]),
            decreases n - k,
        {
            completed.push(false);
            k = k + 1;
        }

        self.current_exercise = Some(exercise);
        self.compiled_goals = compiled;
        self.completed_goals = completed;
        self.current_goal_index = 0;
        self.monitoring_active = true;
        Ok(())
    }

    /// Feeds one editor sample to the flow controller and publishes what
    /// the display should learn: the newly active goal's index, completion,
    /// or nothing.  The snapshot is retained as the latest known state.
    ///
    /// Under sequential flow the active index moves by at most one per
    /// sample, and never skips a goal.
    pub fn process_sample(&mut self, state: VimState) -> (ev: ProgressEvent)
        requires
            old(self).progress_wf(),
        ensures
            final(self).progress_wf(),
            final(self).current_exercise == old(self).current_exercise,
            final(self).compiled_goals == old(self).compiled_goals,
            final(self).monitoring_active == old(self).monitoring_active,
            final(self).vim_client == old(self).vim_client,
            final(self).instruction_pane_id == old(self).instruction_pane_id,
            final(self).last_state == Some(state),
            old(self).current_exercise is None ==> final(self).completed_goals == old(
                self,
            ).completed_goals && final(self).current_goal_index == old(self).current_goal_index
                && ev == ProgressEvent::NoChange,
            spec_flow(*old(self)) == Some(FlowType::Sequential) ==> sequential_step(
                *old(self),
                *final(self),
                state,
                ev,
            ),
            spec_flow(*old(self)) == Some(FlowType::AnyOrder) ==> any_order_step(
                *old(self),
                *final(self),
                state,
                ev,
            ),
            spec_flow(*old(self)) == Some(FlowType::Parallel) ==> parallel_step(
                *old(self),
                *final(self),
                state,
                ev,
            ),
    {
        let flow = match &self.current_exercise {
            Some(e) => e.flow_type,
            None => {
                self.last_state = Some(state);
                return ProgressEvent::NoChange;
            },
        };
        let n = self.compiled_goals.len();
        let ev = match flow {
            FlowType::Sequential => {
                let i = self.current_goal_index;
                if i < n {
                    let sat = self.goal_detector.check_goal(&self.compiled_goals[i], &state);
                    if sat {
                        self.completed_goals.set(i, true);
                        self.current_goal_index = i + 1;
                        if i + 1 == n {
                            ProgressEvent::Completed
                        } else {
                            ProgressEvent::GoalAdvanced(i + 1)
                        }
                    } else {
                        ProgressEvent::NoChange
                    }
                } else {
                    ProgressEvent::NoChange
                }
            },
            FlowType::AnyOrder => {
                let ghost pre_completed = self.completed_goals@;
                let mut progress = false;
                let mut j: usize = 0;
                while j < n
                    invariant
                        n == self.compiled_goals@.len(),
                        self.completed_goals@.len() == n,
                        pre_completed.len() == n,
                        j <= n,
                        self.current_exercise == old(self).current_exercise,
                        self.compiled_goals == old(self).compiled_goals,
                        self.current_goal_index == old(self).current_goal_index,
                        self.monitoring_active == old(self).monitoring_active,
                        self.vim_client == old(self).vim_client,
                        self.instruction_pane_id == old(self).instruction_pane_id,
                        self.last_state == old(self).last_state,
                        pre_completed == old(self).completed_goals@,
                        forall|k: int|
                            0 <= k < j ==> #[trigger] self.completed_goals@[k] == (pre_completed[k]
                                || goal_satisfied(self.compiled_goals@[k].goal_type, state)),
                        forall|k: int|
                            j <= k < n ==> #[trigger] self.completed_goals@[k] == pre_completed[k],
                        progress == (self.completed_goals@ != pre_completed),
                    decreases n - j,
                {
                    if !self.completed_goals[j] {
                        let sat = self.goal_detector.check_goal(&self.compiled_goals[j], &state);
                        if sat {
                            let ghost before = self.completed_goals@;
                            self.completed_goals.set(j, true);
                            proof {
                                assert(self.completed_goals@[j as int] != pre_completed[j as int]);
                            }
                            progress = true;
                        }
                    }
                    j = j + 1;
                }
                let mut found = false;
                let mut first_unc: usize = 0;
                let mut k: usize = 0;
                while k < n
                    invariant
                        n == self.completed_goals@.len(),
                        k <= n,
                        found ==> 0 <= first_unc < k && !self.completed_goals@[first_unc as int]
                            && (forall|m: int|
                            0 <= m < first_unc ==> #[trigger] self.completed_goals@[m]),
                        !found ==> (forall|m: int|
                            0 <= m < k ==> #[trigger] self.completed_goals@[m]),
                    decreases n - k,
                {
                    if !found && !self.completed_goals[k] {
                        first_unc = k;
                        found = true;
                    }
                    k = k + 1;
                }
                if !found {
                    ProgressEvent::Completed
                } else if progress {
                    proof {
                        lemma_first_false_at(self.completed_goals@, first_unc as int);
                    }
                    ProgressEvent::GoalAdvanced(first_unc)
                } else {
                    ProgressEvent::NoChange
                }
            },
            FlowType::Parallel => {
                let mut new_completed: Vec<bool> = Vec::new();
                let mut all = true;
                let mut j: usize = 0;
                while j < n
                    invariant
                        n == self.compiled_goals@.len(),
                        j <= n,
                        new_completed@.len() == j,
                        self.current_exercise == old(self).current_exercise,
                        self.compiled_goals == old(self).compiled_goals,
                        self.current_goal_index == old(self).current_goal_index,
                        self.completed_goals == old(self).completed_goals,
                        self.monitoring_active == old(self).monitoring_active,
                        self.vim_client == old(self).vim_client,
                        self.instruction_pane_id == old(self).instruction_pane_id,
                        self.last_state == old(self).last_state,
                        forall|k: int|
                            0 <= k < j ==> #[trigger] new_completed@[k] == goal_satisfied(
                                self.compiled_goals@[k].goal_type,
                                state,
                            ),
                        all == (forall|k: int| 0 <= k < j ==> #[trigger] new_completed@[k]),
                    decreases n - j,
                {
                    let sat = self.goal_detector.check_goal(&self.compiled_goals[j], &state);
                    let ghost before = new_completed@;
                    let ghost all_before = all;
                    new_completed.push(sat);
                    if !sat {
                        all = false;
                    }
                    proof {
                        assert(new_completed@ =~= before.push(sat));
                        if all {
                            assert forall|k: int|
                                0 <= k < j + 1 implies #[trigger] new_completed@[k] by {
                                if k < j {
                                    assert(before[k]);
                                }
                            }
                        } else if !sat {
                            assert(!new_completed@[j as int]);
                        } else {
                            assert(!all_before);
                            let w = choose|k: int| 0 <= k < j && !(#[trigger] before[k]);
                            assert(!new_completed@[w]);
                        }
                    }
                    j = j + 1;
                }
                self.completed_goals = new_completed;
                proof {
                    if all {
                        assert forall|k: int|
                            0 <= k < n implies #[trigger] self.completed_goals@[k] by {}
                    } else {
                        let w = choose|k: int| 0 <= k < n && !(#[trigger] self.completed_goals@[k]);
                        assert(!self.completed_goals@[w]);
                    }
                }
                if all {
                    ProgressEvent::Completed
                } else {
                    ProgressEvent::NoChange
                }
            },
        };
        self.last_state = Some(state);
        ev
    }

    /// Cancels monitoring.  Cancellation is cooperative: the polling loop
    /// observes the cleared flag and winds down; nothing else changes.
    pub fn stop_exercise(&mut self)
        ensures
            final(self).monitoring_active == false,
            final(self).current_exercise == old(self).current_exercise,
            final(self).compiled_goals == old(self).compiled_goals,
            final(self).current_goal_index == old(self).current_goal_index,
            final(self).completed_goals == old(self).completed_goals,
            final(self).last_state == old(self).last_state,
            final(self).instruction_pane_id == old(self).instruction_pane_id,
            final(self).vim_client == old(self).vim_client,
            old(self).progress_wf() ==> final(self).progress_wf(),
    {
        self.monitoring_active = false;
    }
}

} // verus!
