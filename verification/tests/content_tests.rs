use vim_tutorial::content::ChapterData;
use vim_tutorial::content::ChapterInfo;
use vim_tutorial::content::ContentLoader;
use vim_tutorial::content::ExerciseData;
use vim_tutorial::content::StepData;
use vim_tutorial::continuous_content::ContinuousContentLoader;
use vim_tutorial::game::StepOutcome;
use vim_tutorial::game::VimTutorialGame;
use vim_tutorial::vim_rpc::VimRpcClient;

fn step(instruction: &str) -> StepData {
    StepData {
        instruction: instruction.to_string(),
        explanation: "why".to_string(),
        expected_input: "x".to_string(),
        cursor_start: Some([0, 0]),
        cursor_end: Some([0, 1]),
        mode_change: None,
        text_change: None,
    }
}

fn chapter(number: u8, steps_per_exercise: &[usize]) -> ChapterData {
    ChapterData {
        chapter: ChapterInfo {
            number,
            title: format!("Chapter {}", number),
            description: "a chapter".to_string(),
        },
        exercises: steps_per_exercise
            .iter()
            .enumerate()
            .map(|(i, count)| ExerciseData {
                title: format!("Exercise {}", i),
                description: "an exercise".to_string(),
                sample_code: vec!["let x = 1;".to_string()],
                steps: (0..*count).map(|s| step(&format!("step {}", s))).collect(),
            })
            .collect(),
    }
}

#[test]
fn test_vim_rpc_client_creation() {
    let tmp_dir = tempfile::tempdir().unwrap();
    let socket_path = tmp_dir
        .path()
        .join("nvim_test.sock")
        .to_string_lossy()
        .to_string();
    let client = VimRpcClient::new(socket_path);
    assert!(client.nvim_process_id.is_none());
}

#[test]
fn test_continuous_content_loader_structure() {
    let loader = ContinuousContentLoader { chapters: vec![] };
    assert_eq!(loader.get_chapter_count(), 0);
    assert!(loader.get_chapter(1).is_none());
}

#[test]
fn test_content_loader_lookup_by_number() {
    let loader = ContentLoader::new(vec![chapter(1, &[2]), chapter(3, &[1])]);
    assert_eq!(loader.get_chapter_count(), 2);
    assert_eq!(loader.get_chapter(1).unwrap().chapter.title, "Chapter 1");
    assert_eq!(loader.get_chapter(3).unwrap().chapter.title, "Chapter 3");
    assert!(loader.get_chapter(2).is_none());
}

#[test]
fn test_game_progression_through_chapter() {
    let loader = ContentLoader::new(vec![chapter(1, &[2, 1])]);
    let mut game = VimTutorialGame::new(loader);
    assert!(game.current_chapter.is_none());

    let first = chapter(1, &[2, 1]);
    game.start_chapter(first);
    assert_eq!(game.current_exercise_index, 0);
    assert_eq!(game.current_step_index, 0);

    assert_eq!(game.complete_step(), StepOutcome::NextStep);
    assert_eq!(game.current_step_index, 1);

    assert_eq!(game.complete_step(), StepOutcome::ExerciseCompleted);
    assert_eq!(game.current_exercise_index, 1);
    assert_eq!(game.current_step_index, 0);

    assert_eq!(game.complete_step(), StepOutcome::ChapterCompleted);
    assert!(game.current_chapter.is_none());
    assert_eq!(game.current_exercise_index, 0);
    assert_eq!(game.current_step_index, 0);
}
