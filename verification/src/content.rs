//! Chapter content for the step-by-step tutorial mode.
//!
//! Chapters arrive as plain data from whatever loaded them; the loader here
//! only stores them and answers lookups.  Reading and decoding content
//! files is I/O and lives with the caller.

use vstd::prelude::*;

verus! {

/// One chapter: its descriptive header and its exercises.
#[derive(Debug, Clone)]
pub struct ChapterData {
    pub chapter: ChapterInfo,
    pub exercises: Vec<ExerciseData>,
}

/// A chapter's number and display text.
#[derive(Debug, Clone)]
pub struct ChapterInfo {
    pub number: u8,
    pub title: String,
    pub description: String,
}

/// One exercise of the step-by-step mode: display text, the initial
/// buffer lines, and its ordered steps.
#[derive(Debug, Clone)]
pub struct ExerciseData {
    pub title: String,
    pub description: String,
    pub sample_code: Vec<String>,
    pub steps: Vec<StepData>,
}

/// One step: what to do, why, the key sequence expected, and optional
/// cursor positions and mode/text expectations, all zero-based.
#[derive(Debug, Clone)]
pub struct StepData {
    pub instruction: String,
    pub explanation: String,
    pub expected_input: String,
    pub cursor_start: Option<[usize; 2]>,
    pub cursor_end: Option<[usize; 2]>,
    pub mode_change: Option<String>,
    pub text_change: Option<bool>,
}

/// The first chapter with the given number.
pub open spec fn chapter_lookup(chapters: Seq<ChapterData>, num: u8) -> Option<ChapterData>
    decreases chapters.len(),
{
    if chapters.len() == 0 {
        None
    } else if chapters[0].chapter.number == num {
        Some(chapters[0])
    } else {
        chapter_lookup(chapters.drop_first(), num)
    }
}

/// Holds the loaded chapters and answers lookups by chapter number.
pub struct ContentLoader {
    pub chapters: Vec<ChapterData>,
}

impl ContentLoader {
    /// Wraps already-loaded chapters.
    pub fn new(chapters: Vec<ChapterData>) -> (l: Self)
        ensures
            l.chapters == chapters,
    {
        ContentLoader { chapters }
    }

    /// Finds the chapter with the given number; the first match wins.
    pub fn get_chapter(&self, chapter_num: u8) -> (r: Option<&ChapterData>)
        ensures
            match r {
                Some(c) => chapter_lookup(self.chapters@, chapter_num) == Some(*c),
                None => chapter_lookup(self.chapters@, chapter_num) is None,
            },
    {
        let n = self.chapters.len();
        let mut k: usize = 0;
        proof {
            assert(self.chapters@.skip(0) =~= self.chapters@);
        }
        while k < n
            invariant
                n == self.chapters@.len(),
                k <= n,
                chapter_lookup(self.chapters@, chapter_num) == chapter_lookup(
                    self.chapters@.skip(k as int),
                    chapter_num,
                ),
            decreases n - k,
        {
            if self.chapters[k].chapter.number == chapter_num {
                proof {
                    assert(self.chapters@.skip(k as int)[0] == self.chapters@[k as int]);
                }
                return Some(&self.chapters[k]);
            }
            proof {
                assert(self.chapters@.skip(k as int)[0] == self.chapters@[k as int]);
                assert(self.chapters@.skip(k as int).drop_first() =~= self.chapters@.skip(
                    k as int + 1,
                ));
            }
            k = k + 1;
        }
        None
    }

    /// How many chapters are loaded.
    pub fn get_chapter_count(&self) -> (r: usize)
        ensures
            r == self.chapters@.len(),
    {
        self.chapters.len()
    }
}

} // verus!
