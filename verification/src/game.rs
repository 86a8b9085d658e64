//! Progression state for the step-by-step tutorial mode.
//!
//! The game walks a chapter exercise by exercise and step by step.  The
//! menus, terminal panes and editor processes around it are I/O and live
//! with the caller; the caller reports each completed step and this module
//! decides what comes next.

use vstd::prelude::*;

use crate::content::ChapterData;
use crate::content::ContentLoader;

verus! {

/// What completing one step leads to: the next step of the same exercise,
/// the next exercise, or the end of the chapter.
#[derive(Debug, Clone, Copy, PartialEq, Eq, Structural)]
pub enum StepOutcome {
    NextStep,
    ExerciseCompleted,
    ChapterCompleted,
}

/// The step-by-step game: the loaded content and the position within the
/// chapter being played, if one is active.
pub struct VimTutorialGame {
    pub content_loader: ContentLoader,
    pub current_chapter: Option<ChapterData>,
    pub current_exercise_index: usize,
    pub current_step_index: usize,
}

impl VimTutorialGame {
    /// While a chapter is active, the exercise index stays within it and
    /// the step index stays within the active exercise.
    pub open spec fn wf(&self) -> bool {
        match self.current_chapter {
            Some(ch) => self.current_exercise_index <= ch.exercises@.len()
                && (self.current_exercise_index < ch.exercises@.len()
                ==> self.current_step_index
                <= ch.exercises@[self.current_exercise_index as int].steps@.len()),
            None => true,
        }
    }

    pub fn new(content_loader: ContentLoader) -> (g: Self)
        ensures
            g.content_loader == content_loader,
            g.current_chapter is None,
            g.current_exercise_index == 0,
            g.current_step_index == 0,
            g.wf(),
    {
        VimTutorialGame {
            content_loader,
            current_chapter: None,
            current_exercise_index: 0,
            current_step_index: 0,
        }
    }

    /// Starts the given chapter from its first exercise and step.
    pub fn start_chapter(&mut self, chapter: ChapterData)
        ensures
            final(self).content_loader == old(self).content_loader,
            final(self).current_chapter == Some(chapter),
            final(self).current_exercise_index == 0,
            final(self).current_step_index == 0,
            final(self).wf(),
    {
        self.current_chapter = Some(chapter);
        self.current_exercise_index = 0;
        self.current_step_index = 0;
    }

    /// Records that the active step was completed and moves on: to the
    /// next step, to the next exercise, or — after the last step of the
    /// last exercise — out of the chapter, resetting the position.
    pub fn complete_step(&mut self) -> (outcome: StepOutcome)
        requires
            old(self).wf(),
            old(self).current_chapter matches Some(ch)
                && old(self).current_exercise_index < ch.exercises@.len()
                && old(self).current_step_index
                < ch.exercises@[old(self).current_exercise_index as int].steps@.len(),
        ensures
            final(self).content_loader == old(self).content_loader,
            final(self).wf(),
            ({
                let ch = old(self).current_chapter.unwrap();
                let e = old(self).current_exercise_index as int;
                let st = old(self).current_step_index as int;
                if st + 1 < ch.exercises@[e].steps@.len() {
                    &&& outcome == StepOutcome::NextStep
                    &&& final(self).current_chapter == old(self).current_chapter
                    &&& final(self).current_exercise_index == e
                    &&& final(self).current_step_index == st + 1
                } else if e + 1 < ch.exercises@.len() {
                    &&& outcome == StepOutcome::ExerciseCompleted
                    &&& final(self).current_chapter == old(self).current_chapter
                    &&& final(self).current_exercise_index == e + 1
                    &&& final(self).current_step_index == 0
                } else {
                    &&& outcome == StepOutcome::ChapterCompleted
                    &&& final(self).current_chapter is None
                    &&& final(self).current_exercise_index == 0
                    &&& final(self).current_step_index == 0
                }
            }),
    {
        let (steps_len, exercises_len): (usize, usize) = match &self.current_chapter {
            Some(ch) => (ch.exercises[self.current_exercise_index].steps.len(), ch.exercises.len()),
            None => {
                proof {
                    assert(false);
                }
                (0, 0)
            },
        };
        if self.current_step_index + 1 < steps_len {
            self.current_step_index = self.current_step_index + 1;
            StepOutcome::NextStep
        } else if self.current_exercise_index + 1 < exercises_len {
            self.current_exercise_index = self.current_exercise_index + 1;
            self.current_step_index = 0;
            StepOutcome::ExerciseCompleted
        } else {
            self.current_chapter = None;
            self.current_exercise_index = 0;
            self.current_step_index = 0;
            StepOutcome::ChapterCompleted
        }
    }
}

} // verus!
