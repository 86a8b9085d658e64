use vim_tutorial::continuous_session::ConfigError;
use vim_tutorial::continuous_session::ContinuousExercise;
use vim_tutorial::continuous_session::ContinuousVimSession;
use vim_tutorial::continuous_session::ExerciseGoal;
use vim_tutorial::continuous_session::FlowType;
use vim_tutorial::continuous_session::ProgressEvent;
use vim_tutorial::continuous_session::TargetValue;
use vim_tutorial::vim_state::GoalType;
use vim_tutorial::vim_state::VimMode;
use vim_tutorial::vim_state::VimState;

fn state_at(line: usize, col: usize) -> VimState {
    VimState {
        mode: VimMode::Normal,
        cursor_line: line,
        cursor_col: col,
        operator: None,
        buffer_content: vec![String::new()],
        registers: Vec::new(),
    }
}

fn position_goal(line: u64, col: u64, description: &str) -> ExerciseGoal {
    ExerciseGoal {
        goal_type: "position".to_string(),
        target: TargetValue::List(vec![TargetValue::Number(line), TargetValue::Number(col)]),
        description: description.to_string(),
        hint: None,
    }
}

fn exercise_with(goals: Vec<ExerciseGoal>, flow_type: FlowType) -> ContinuousExercise {
    ContinuousExercise {
        title: "Test Exercise".to_string(),
        description: "A test exercise".to_string(),
        sample_code: vec!["hello world".to_string()],
        goals,
        flow_type,
    }
}

#[test]
fn test_continuous_session_creation() {
    let session = ContinuousVimSession::new("/tmp/test.sock".to_string());
    assert!(session.current_exercise.is_none());
    assert_eq!(session.current_goal_index, 0);
}

#[test]
fn test_goal_conversion() {
    let tmp_dir = tempfile::tempdir().unwrap();
    let socket_path = tmp_dir
        .path()
        .join("test.sock")
        .to_string_lossy()
        .to_string();
    let session = ContinuousVimSession::new(socket_path);

    let pos_goal_def = ExerciseGoal {
        goal_type: "position".to_string(),
        target: TargetValue::List(vec![TargetValue::Number(1), TargetValue::Number(2)]),
        description: "Test position".to_string(),
        hint: None,
    };
    let goal = session.convert_goal_definition(&pos_goal_def).unwrap();
    match goal.goal_type {
        GoalType::Position { line, col } => {
            assert_eq!(line, 1);
            assert_eq!(col, 2);
        }
        _ => panic!("Expected Position goal type"),
    }

    let mode_goal_def = ExerciseGoal {
        goal_type: "mode".to_string(),
        target: TargetValue::Text("insert".to_string()),
        description: "Test mode".to_string(),
        hint: None,
    };
    let goal = session.convert_goal_definition(&mode_goal_def).unwrap();
    match goal.goal_type {
        GoalType::Mode(VimMode::Insert) => {}
        _ => panic!("Expected Insert mode goal type"),
    }
}

#[test]
fn test_operator_pending_goal_conversion() {
    let tmp_dir = tempfile::tempdir().unwrap();
    let socket_path = tmp_dir
        .path()
        .join("test.sock")
        .to_string_lossy()
        .to_string();
    let session = ContinuousVimSession::new(socket_path);

    let op_goal_def = ExerciseGoal {
        goal_type: "mode".to_string(),
        target: TargetValue::Text("operator_d".to_string()),
        description: "Press 'd' for delete".to_string(),
        hint: None,
    };

    let goal = session.convert_goal_definition(&op_goal_def).unwrap();
    match goal.goal_type {
        GoalType::Mode(VimMode::OperatorPending(op)) => {
            assert_eq!(op, "d");
        }
        _ => panic!("Expected OperatorPending goal type"),
    }
}

#[test]
fn test_mode_conversion_unknown_mode_fails() {
    let session = ContinuousVimSession::new("/tmp/test.sock".to_string());
    let def = ExerciseGoal {
        goal_type: "mode".to_string(),
        target: TargetValue::Text("bogus".to_string()),
        description: "unknown mode".to_string(),
        hint: None,
    };
    let err = session.convert_goal_definition(&def).unwrap_err();
    assert!(matches!(err, ConfigError::UnknownMode(v) if v == "bogus"));
}

#[test]
fn test_position_conversion_yields_coordinates() {
    let session = ContinuousVimSession::new("/tmp/test.sock".to_string());
    let def = position_goal(1, 3, "move to 1,3");
    let goal = session.convert_goal_definition(&def).unwrap();
    match goal.goal_type {
        GoalType::Position { line, col } => {
            assert_eq!(line, 1);
            assert_eq!(col, 3);
        }
        _ => panic!("Expected Position goal type"),
    }
    assert_eq!(goal.description, "move to 1,3");
}

#[test]
fn test_conversion_error_variants() {
    let session = ContinuousVimSession::new("/tmp/test.sock".to_string());

    let bad_position = ExerciseGoal {
        goal_type: "position".to_string(),
        target: TargetValue::Text("not an array".to_string()),
        description: String::new(),
        hint: None,
    };
    assert!(matches!(
        session.convert_goal_definition(&bad_position),
        Err(ConfigError::PositionTargetNotArray)
    ));

    let bad_mode = ExerciseGoal {
        goal_type: "mode".to_string(),
        target: TargetValue::Number(3),
        description: String::new(),
        hint: None,
    };
    assert!(matches!(
        session.convert_goal_definition(&bad_mode),
        Err(ConfigError::ModeTargetNotString)
    ));

    let bad_text = ExerciseGoal {
        goal_type: "text".to_string(),
        target: TargetValue::Null,
        description: String::new(),
        hint: None,
    };
    assert!(matches!(
        session.convert_goal_definition(&bad_text),
        Err(ConfigError::TextTargetNotObject)
    ));

    let bad_register = ExerciseGoal {
        goal_type: "register".to_string(),
        target: TargetValue::List(vec![]),
        description: String::new(),
        hint: None,
    };
    assert!(matches!(
        session.convert_goal_definition(&bad_register),
        Err(ConfigError::RegisterTargetNotObject)
    ));

    let unknown_kind = ExerciseGoal {
        goal_type: "teleport".to_string(),
        target: TargetValue::Null,
        description: String::new(),
        hint: None,
    };
    let err = session.convert_goal_definition(&unknown_kind).unwrap_err();
    assert!(matches!(err, ConfigError::UnknownGoalKind(k) if k == "teleport"));
}

#[test]
fn test_conversion_lenient_defaults() {
    let session = ContinuousVimSession::new("/tmp/test.sock".to_string());

    let short_position = ExerciseGoal {
        goal_type: "position".to_string(),
        target: TargetValue::List(vec![TargetValue::Number(4)]),
        description: String::new(),
        hint: None,
    };
    match session
        .convert_goal_definition(&short_position)
        .unwrap()
        .goal_type
    {
        GoalType::Position { line, col } => {
            assert_eq!(line, 4);
            assert_eq!(col, 0);
        }
        _ => panic!("Expected Position goal type"),
    }

    let sparse_text = ExerciseGoal {
        goal_type: "text".to_string(),
        target: TargetValue::Entries(vec![]),
        description: String::new(),
        hint: None,
    };
    match session
        .convert_goal_definition(&sparse_text)
        .unwrap()
        .goal_type
    {
        GoalType::TextContent { line, expected } => {
            assert_eq!(line, 0);
            assert_eq!(expected, "");
        }
        _ => panic!("Expected TextContent goal type"),
    }

    let buffer_change = ExerciseGoal {
        goal_type: "buffer_change".to_string(),
        target: TargetValue::Null,
        description: String::new(),
        hint: None,
    };
    assert!(matches!(
        session.convert_goal_definition(&buffer_change).unwrap().goal_type,
        GoalType::BufferChange
    ));
}

#[test]
fn test_start_exercise_compiles_goals_and_resets_progress() {
    let mut session = ContinuousVimSession::new("/tmp/test.sock".to_string());
    let exercise = exercise_with(
        vec![position_goal(0, 1, "a"), position_goal(0, 2, "b")],
        FlowType::Sequential,
    );
    session.start_exercise(exercise).unwrap();
    assert!(session.current_exercise.is_some());
    assert_eq!(session.compiled_goals.len(), 2);
    assert_eq!(session.completed_goals, vec![false, false]);
    assert_eq!(session.current_goal_index, 0);
    assert!(session.monitoring_active);
}

#[test]
fn test_start_exercise_fails_fast_on_bad_goal() {
    let mut session = ContinuousVimSession::new("/tmp/test.sock".to_string());
    let exercise = exercise_with(
        vec![
            position_goal(0, 1, "fine"),
            ExerciseGoal {
                goal_type: "mode".to_string(),
                target: TargetValue::Text("bogus".to_string()),
                description: "broken".to_string(),
                hint: None,
            },
        ],
        FlowType::Sequential,
    );
    let err = session.start_exercise(exercise).unwrap_err();
    assert!(matches!(err, ConfigError::UnknownMode(v) if v == "bogus"));
    assert!(session.current_exercise.is_none());
    assert!(!session.monitoring_active);
    assert!(session.compiled_goals.is_empty());
}

#[test]
fn test_sequential_flow_advances_one_goal_per_sample() {
    let mut session = ContinuousVimSession::new("/tmp/test.sock".to_string());
    let exercise = exercise_with(
        vec![
            position_goal(0, 1, "first"),
            position_goal(0, 2, "second"),
            position_goal(0, 3, "third"),
        ],
        FlowType::Sequential,
    );
    session.start_exercise(exercise).unwrap();

    // A sample satisfying a later goal does not advance the first.
    let ev = session.process_sample(state_at(0, 3));
    assert_eq!(ev, ProgressEvent::NoChange);
    assert_eq!(session.current_goal_index, 0);

    let ev = session.process_sample(state_at(0, 1));
    assert_eq!(ev, ProgressEvent::GoalAdvanced(1));
    assert_eq!(session.current_goal_index, 1);
    assert_eq!(session.completed_goals, vec![true, false, false]);

    let ev = session.process_sample(state_at(0, 2));
    assert_eq!(ev, ProgressEvent::GoalAdvanced(2));
    assert_eq!(session.current_goal_index, 2);
    assert_eq!(session.completed_goals, vec![true, true, false]);

    let ev = session.process_sample(state_at(0, 3));
    assert_eq!(ev, ProgressEvent::Completed);
    assert_eq!(session.current_goal_index, 3);
    assert_eq!(session.completed_goals, vec![true, true, true]);
}

#[test]
fn test_any_order_flow_completes_in_any_discovery_order() {
    let mut session = ContinuousVimSession::new("/tmp/test.sock".to_string());
    let exercise = exercise_with(
        vec![
            position_goal(0, 1, "goal zero"),
            position_goal(0, 2, "goal one"),
            position_goal(0, 3, "goal two"),
        ],
        FlowType::AnyOrder,
    );
    session.start_exercise(exercise).unwrap();

    // Satisfy goal 2, then goal 0, then goal 1.
    let ev = session.process_sample(state_at(0, 3));
    assert_eq!(ev, ProgressEvent::GoalAdvanced(0));
    assert_eq!(session.completed_goals, vec![false, false, true]);

    let ev = session.process_sample(state_at(0, 1));
    assert_eq!(ev, ProgressEvent::GoalAdvanced(1));
    assert_eq!(session.completed_goals, vec![true, false, true]);

    let ev = session.process_sample(state_at(0, 2));
    assert_eq!(ev, ProgressEvent::Completed);
    assert_eq!(session.completed_goals, vec![true, true, true]);
}

#[test]
fn test_parallel_flow_requires_one_simultaneous_sample() {
    let mut session = ContinuousVimSession::new("/tmp/test.sock".to_string());
    // Both goals ask for the same cursor line; the column goals differ so
    // that no single early sample satisfies them all.
    let line_goal = ExerciseGoal {
        goal_type: "mode".to_string(),
        target: TargetValue::Text("normal".to_string()),
        description: "stay in normal mode".to_string(),
        hint: None,
    };
    let exercise = exercise_with(
        vec![line_goal, position_goal(2, 2, "reach 2,2")],
        FlowType::Parallel,
    );
    session.start_exercise(exercise).unwrap();

    // Goal 0 (normal mode) holds but goal 1 does not: no completion.
    let ev = session.process_sample(state_at(0, 0));
    assert_eq!(ev, ProgressEvent::NoChange);
    assert_eq!(session.completed_goals, vec![true, false]);

    // Goal 1 holds but goal 0 reverted: still no completion, and the
    // earlier success of goal 0 no longer counts.
    let mut insert_state = state_at(2, 2);
    insert_state.mode = VimMode::Insert;
    let ev = session.process_sample(insert_state);
    assert_eq!(ev, ProgressEvent::NoChange);
    assert_eq!(session.completed_goals, vec![false, true]);

    // Both hold in one sample: completed.
    let ev = session.process_sample(state_at(2, 2));
    assert_eq!(ev, ProgressEvent::Completed);
    assert_eq!(session.completed_goals, vec![true, true]);
}

#[test]
fn test_stop_exercise_clears_monitoring_flag() {
    let mut session = ContinuousVimSession::new("/tmp/test.sock".to_string());
    let exercise = exercise_with(vec![position_goal(0, 1, "only")], FlowType::Sequential);
    session.start_exercise(exercise).unwrap();
    assert!(session.monitoring_active);
    session.stop_exercise();
    assert!(!session.monitoring_active);
    assert!(session.current_exercise.is_some());
}

#[test]
fn test_process_sample_without_exercise_is_no_change() {
    let mut session = ContinuousVimSession::new("/tmp/test.sock".to_string());
    let ev = session.process_sample(state_at(0, 0));
    assert_eq!(ev, ProgressEvent::NoChange);
    assert_eq!(session.current_goal_index, 0);
    assert!(session.last_state.is_some());
}

#[test]
fn test_sequential_after_completion_stays_completed() {
    let mut session = ContinuousVimSession::new("/tmp/test.sock".to_string());
    let exercise = exercise_with(vec![position_goal(0, 1, "only")], FlowType::Sequential);
    session.start_exercise(exercise).unwrap();

    assert_eq!(session.process_sample(state_at(0, 1)), ProgressEvent::Completed);
    assert_eq!(session.current_goal_index, 1);

    // Further samples change nothing: the exercise is already complete.
    assert_eq!(session.process_sample(state_at(0, 1)), ProgressEvent::NoChange);
    assert_eq!(session.current_goal_index, 1);
    assert_eq!(session.completed_goals, vec![true]);
}

#[test]
fn test_any_order_no_progress_is_no_change() {
    let mut session = ContinuousVimSession::new("/tmp/test.sock".to_string());
    let exercise = exercise_with(
        vec![position_goal(0, 1, "a"), position_goal(0, 2, "b")],
        FlowType::AnyOrder,
    );
    session.start_exercise(exercise).unwrap();

    // A sample satisfying no goal makes no progress.
    assert_eq!(session.process_sample(state_at(5, 5)), ProgressEvent::NoChange);
    assert_eq!(session.completed_goals, vec![false, false]);

    // A goal satisfied twice is only progress the first time.
    assert_eq!(
        session.process_sample(state_at(0, 1)),
        ProgressEvent::GoalAdvanced(1)
    );
    assert_eq!(session.process_sample(state_at(0, 1)), ProgressEvent::NoChange);
    assert_eq!(session.completed_goals, vec![true, false]);
}

#[test]
fn test_round_trip_compile_then_detect() {
    let session = ContinuousVimSession::new("/tmp/test.sock".to_string());
    let detector = vim_tutorial::vim_state::GoalDetector::new();

    let defs = vec![
        position_goal(1, 3, "position"),
        ExerciseGoal {
            goal_type: "mode".to_string(),
            target: TargetValue::Text("operator_d".to_string()),
            description: "operator pending".to_string(),
            hint: None,
        },
        ExerciseGoal {
            goal_type: "text".to_string(),
            target: TargetValue::Entries(vec![
                ("line".to_string(), TargetValue::Number(0)),
                ("expected".to_string(), TargetValue::Text("fn main() {".to_string())),
            ]),
            description: "text".to_string(),
            hint: None,
        },
        ExerciseGoal {
            goal_type: "register".to_string(),
            target: TargetValue::Entries(vec![
                ("register".to_string(), TargetValue::Text("0".to_string())),
                ("expected".to_string(), TargetValue::Text("Alice".to_string())),
            ]),
            description: "register".to_string(),
            hint: None,
        },
    ];

    let goals: Vec<_> = defs
        .iter()
        .map(|d| session.convert_goal_definition(d).unwrap())
        .collect();

    let mut matching = VimState {
        mode: VimMode::OperatorPending("d".to_string()),
        cursor_line: 1,
        cursor_col: 3,
        operator: Some("d".to_string()),
        buffer_content: vec!["fn main() {".to_string(), "}".to_string()],
        registers: vec![("0".to_string(), "Alice".to_string())],
    };
    for goal in &goals {
        assert!(detector.check_goal(goal, &matching), "{}", goal.description);
    }

    matching.cursor_col = 4;
    matching.mode = VimMode::OperatorPending("y".to_string());
    matching.buffer_content[0] = "fn main()  {".to_string();
    matching.registers[0].1 = "Bob".to_string();
    for goal in &goals {
        assert!(
            !detector.check_goal(goal, &matching),
            "{}",
            goal.description
        );
    }
}
