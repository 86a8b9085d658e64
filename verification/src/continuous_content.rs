//! Chapter content for the continuous-exercise mode.
//!
//! The same shape as the step-by-step content, but each chapter carries
//! goal-driven exercises.  Reading and decoding the content files is I/O
//! and lives with the caller; the loader stores what it is handed and
//! answers lookups.

use vstd::prelude::*;

use crate::continuous_session::ContinuousExercise;

verus! {

/// One continuous-mode chapter: its header and its exercises.
#[derive(Debug)]
pub struct ContinuousChapterData {
    pub chapter: ChapterInfo,
    pub continuous_exercises: Vec<ContinuousExercise>,
}

/// A chapter's number and display text.
#[derive(Debug, Clone)]
pub struct ChapterInfo {
    pub number: u8,
    pub title: String,
    pub description: String,
}

/// The first chapter with the given number.
pub open spec fn continuous_chapter_lookup(
    chapters: Seq<ContinuousChapterData>,
    num: u8,
) -> Option<ContinuousChapterData>
    decreases chapters.len(),
{
    if chapters.len() == 0 {
        None
    } else if chapters[0].chapter.number == num {
        Some(chapters[0])
    } else {
        continuous_chapter_lookup(chapters.drop_first(), num)
    }
}

/// Holds the loaded continuous-mode chapters.
pub struct ContinuousContentLoader {
    pub chapters: Vec<ContinuousChapterData>,
}

impl ContinuousContentLoader {
    /// A loader with no chapters.
    pub fn empty() -> (l: Self)
        ensures
            l.chapters@.len() == 0,
    {
        ContinuousContentLoader { chapters: Vec::new() }
    }

    /// Wraps already-loaded chapters.
    pub fn new(chapters: Vec<ContinuousChapterData>) -> (l: Self)
        ensures
            l.chapters == chapters,
    {
        ContinuousContentLoader { chapters }
    }

    /// Finds the chapter with the given number; the first match wins.
    pub fn get_chapter(&self, chapter_num: u8) -> (r: Option<&ContinuousChapterData>)
        ensures
            match r {
                Some(c) => continuous_chapter_lookup(self.chapters@, chapter_num) == Some(*c),
                None => continuous_chapter_lookup(self.chapters@, chapter_num) is None,
            },
    {
        let n = self.chapters.len();
        let mut k: usize = 0;
        proof {
            assert(self.chapters@.skip(0) =~= self.chapters@);
        }
        while k < n
            invariant
                n == self.chapters@.len(),
                k <= n,
                continuous_chapter_lookup(self.chapters@, chapter_num)
                    == continuous_chapter_lookup(self.chapters@.skip(k as int), chapter_num),
            decreases n - k,
        {
            if self.chapters[k].chapter.number == chapter_num {
                proof {
                    assert(self.chapters@.skip(k as int)[0] == self.chapters@[k as int]);
                }
                return Some(&self.chapters[k]);
            }
            proof {
                assert(self.chapters@.skip(k as int)[0] == self.chapters@[k as int]);
                assert(self.chapters@.skip(k as int).drop_first() =~= self.chapters@.skip(
                    k as int + 1,
                ));
            }
            k = k + 1;
        }
        None
    }

    /// How many chapters are loaded.
    pub fn get_chapter_count(&self) -> (r: usize)
        ensures
            r == self.chapters@.len(),
    {
        self.chapters.len()
    }
}

} // verus!
