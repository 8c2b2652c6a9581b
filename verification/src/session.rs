//! The learner's session: the current position in the catalog, the mutable
//! code buffer, and the navigation operations over them. Navigation either
//! applies the full index update and buffer reseed, or changes nothing.

use vstd::prelude::*;
use crate::catalog::{Chapter, Exercise, catalog_wf};
use crate::text::dec_chars;
use crate::text::usize_to_string;
use vstd::string::StringExecFns;

verus! {

/// The session: where the learner is, and the code they are working on.
/// Created once at startup; destroyed at process exit, never persisted.
pub struct Tutorial {
    pub chapters: Vec<Chapter>,
    pub current_chapter: usize,
    pub current_exercise: usize,
    pub temp_file: String,
    pub current_code: String,
}

/// What a navigation step reports.
#[derive(Clone, Copy, Debug, PartialEq, Eq, Structural)]
pub enum NavOutcome {
    /// The position changed and the buffer was reseeded.
    Moved,
    /// Already at the last exercise of the last chapter; nothing changed.
    Completed,
    /// Already at the first exercise of the first chapter; nothing changed.
    AtFirst,
}

/// Which argument of a rejected `goto` was out of range.
#[derive(Clone, Copy, Debug, PartialEq, Eq, Structural)]
pub enum NavBound {
    Chapter,
    Exercise,
}

/// An out-of-range `goto`: the offending argument and the top of the valid
/// one-based range `1..=max`.
#[derive(Clone, Copy, Debug, PartialEq, Eq, Structural)]
pub struct NavigationError {
    pub bound: NavBound,
    pub max: usize,
}

impl NavigationError {
    /// The human-readable report; it states the valid range.
    pub fn message(&self) -> (r: String)
        ensures
            self.bound == NavBound::Chapter ==> r@ == "Invalid chapter number. Use 1-"@
                + dec_chars(self.max as nat),
            self.bound == NavBound::Exercise ==> r@ == "Invalid exercise number. Use 1-"@
                + dec_chars(self.max as nat),
    {
        let mut s = match self.bound {
            NavBound::Chapter => "Invalid chapter number. Use 1-".to_owned(),
            NavBound::Exercise => "Invalid exercise number. Use 1-".to_owned(),
        };
        let digits = usize_to_string(self.max);
        s.append(digits.as_str());
        s
    }
}

/// What the editor round trip ends in.
#[derive(Clone, Copy, Debug, PartialEq, Eq, Structural)]
pub enum EditOutcome {
    /// The editor exited successfully and the reloaded file replaced the buffer.
    Updated,
    /// The editor did not exit successfully; the buffer is untouched.
    EditorFailed,
    /// The scratch file could not be read back; the buffer is untouched.
    ReloadFailed,
}

/// One step of the guided per-exercise walkthrough.
#[derive(Clone, Copy, Debug, PartialEq, Eq, Structural)]
pub enum FlowStep {
    /// Show the chapter and exercise heading.
    ShowExercise,
    /// Show the description, instructions and expected output.
    ShowInstructions,
    /// Hand the buffer to the external editor.
    EditCode,
    /// Offer the post-edit choices.
    PostEditMenu,
}

/// The number of exercises in the first `n` chapters.
pub open spec fn exercise_count_prefix(chapters: Seq<Chapter>, n: int) -> nat
    decreases n,
{
    if n <= 0 {
        0
    } else {
        exercise_count_prefix(chapters, n - 1) + chapters[n - 1].exercises@.len()
    }
}

/// Counting over more chapters never shrinks the sum.
proof fn lemma_exercise_count_prefix_mono(chapters: Seq<Chapter>, i: int, j: int)
    requires
        i <= j,
    ensures
        exercise_count_prefix(chapters, i) <= exercise_count_prefix(chapters, j),
    decreases j - i,
{
    if i < j {
        lemma_exercise_count_prefix_mono(chapters, i, j - 1);
    }
}

impl Tutorial {
    /// The session invariant: the indices always address an exercise of the
    /// catalog, and the catalog itself is well-formed.
    pub open spec fn wf(self) -> bool {
        &&& catalog_wf(self.chapters@)
        &&& (self.current_chapter as int) < self.chapters@.len()
        &&& (self.current_exercise as int) < self.chapters@[
            self.current_chapter as int
        ].exercises@.len()
    }

    /// The chapter the session currently points at.
    pub open spec fn cur_chapter(self) -> Chapter {
        self.chapters@[self.current_chapter as int]
    }

    /// The exercise the session currently points at.
    pub open spec fn cur_exercise(self) -> Exercise {
        self.cur_chapter().exercises@[self.current_exercise as int]
    }

    /// Navigation and editing never touch the catalog or the scratch path.
    pub open spec fn same_catalog(self, other: Tutorial) -> bool {
        self.chapters == other.chapters && self.temp_file == other.temp_file
    }

    /// A fresh session: position (0, 0), buffer seeded from the first
    /// exercise's initial code.
    pub fn new() -> (t: Tutorial)
        ensures
            t.wf(),
            crate::catalog::default_catalog_shape(t.chapters@),
            t.current_chapter == 0,
            t.current_exercise == 0,
            t.current_code@ == t.chapters@[0].exercises@[0].initial_code@,
            t.temp_file@ == "rusttutor_temp.rs"@,
    {
        let chapters = Tutorial::create_chapters();
        let current_code = chapters[0].exercises[0].initial_code.clone();
        Tutorial {
            chapters,
            current_chapter: 0,
            current_exercise: 0,
            temp_file: "rusttutor_temp.rs".to_owned(),
            current_code,
        }
    }

    /// Advances to the next exercise, crossing into the next chapter when the
    /// current one is exhausted, and reseeds the buffer. At the very end it
    /// reports completion and changes nothing.
    pub fn next_exercise(&mut self) -> (r: NavOutcome)
        requires
            old(self).wf(),
        ensures
            final(self).wf(),
            old(self).same_catalog(*final(self)),
            r != NavOutcome::AtFirst,
            old(self).current_exercise + 1 < old(self).cur_chapter().exercises@.len() ==> {
                &&& r == NavOutcome::Moved
                &&& final(self).current_chapter == old(self).current_chapter
                &&& final(self).current_exercise == old(self).current_exercise + 1
            },
            (old(self).current_exercise + 1 == old(self).cur_chapter().exercises@.len()
                && old(self).current_chapter + 1 < old(self).chapters@.len()) ==> {
                &&& r == NavOutcome::Moved
                &&& final(self).current_chapter == old(self).current_chapter + 1
                &&& final(self).current_exercise == 0
            },
            (old(self).current_exercise + 1 == old(self).cur_chapter().exercises@.len()
                && old(self).current_chapter + 1 == old(self).chapters@.len()) ==> {
                &&& r == NavOutcome::Completed
                &&& *final(self) == *old(self)
            },
            r == NavOutcome::Moved ==> final(self).current_code@
                == final(self).cur_exercise().initial_code@,
    {
        let ex_count = self.chapters[self.current_chapter].exercises.len();
        let ch_count = self.chapters.len();
        if self.current_exercise < ex_count - 1 {
            self.current_exercise = self.current_exercise + 1;
        } else if self.current_chapter < ch_count - 1 {
            self.current_chapter = self.current_chapter + 1;
            self.current_exercise = 0;
        } else {
            return NavOutcome::Completed;
        }
        self.current_code =
            self.chapters[self.current_chapter].exercises[self.current_exercise]
                .initial_code.clone();
        NavOutcome::Moved
    }

    /// The mirror of `next_exercise`: steps back, crossing to the last
    /// exercise of the previous chapter when needed, and reseeds the buffer.
    /// At the very beginning it reports so and changes nothing.
    pub fn prev_exercise(&mut self) -> (r: NavOutcome)
        requires
            old(self).wf(),
        ensures
            final(self).wf(),
            old(self).same_catalog(*final(self)),
            r != NavOutcome::Completed,
            old(self).current_exercise > 0 ==> {
                &&& r == NavOutcome::Moved
                &&& final(self).current_chapter == old(self).current_chapter
                &&& final(self).current_exercise == old(self).current_exercise - 1
            },
            (old(self).current_exercise == 0 && old(self).current_chapter > 0) ==> {
                &&& r == NavOutcome::Moved
                &&& final(self).current_chapter == old(self).current_chapter - 1
                &&& final(self).current_exercise == old(self).chapters@[
                    old(self).current_chapter - 1
                ].exercises@.len() - 1
            },
            (old(self).current_exercise == 0 && old(self).current_chapter == 0) ==> {
                &&& r == NavOutcome::AtFirst
                &&& *final(self) == *old(self)
            },
            r == NavOutcome::Moved ==> final(self).current_code@
                == final(self).cur_exercise().initial_code@,
    {
        if self.current_exercise > 0 {
            self.current_exercise = self.current_exercise - 1;
        } else if self.current_chapter > 0 {
            self.current_chapter = self.current_chapter - 1;
            self.current_exercise =
                self.chapters[self.current_chapter].exercises.len() - 1;
        } else {
            return NavOutcome::AtFirst;
        }
        self.current_code =
            self.chapters[self.current_chapter].exercises[self.current_exercise]
                .initial_code.clone();
        NavOutcome::Moved
    }

    /// Jumps to the given one-based chapter and exercise numbers. Succeeds
    /// exactly when both are within the catalog's bounds; then the indices
    /// become the zero-based equivalents and the buffer is reseeded. On
    /// failure the session is unchanged and the error carries the actual
    /// valid bound.
    pub fn goto_exercise(&mut self, chapter: usize, exercise: usize) -> (r: Result<
        (),
        NavigationError,
    >)
        requires
            old(self).wf(),
        ensures
            final(self).wf(),
            old(self).same_catalog(*final(self)),
            r is Ok <==> (1 <= chapter <= old(self).chapters@.len() && 1 <= exercise <= old(
                self).chapters@[chapter - 1].exercises@.len()),
            r is Ok ==> {
                &&& final(self).current_chapter == chapter - 1
                &&& final(self).current_exercise == exercise - 1
                &&& final(self).current_code@ == final(self).cur_exercise().initial_code@
            },
            r is Err ==> *final(self) == *old(self),
            (chapter == 0 || chapter > old(self).chapters@.len()) ==> (r matches Err(e)
                && e.bound == NavBound::Chapter && e.max == old(self).chapters@.len()),
            (1 <= chapter <= old(self).chapters@.len() && (exercise == 0 || exercise > old(
                self).chapters@[chapter - 1].exercises@.len())) ==> (r matches Err(e)
                && e.bound == NavBound::Exercise && e.max == old(self).chapters@[
                chapter - 1
            ].exercises@.len()),
    {
        if chapter == 0 || chapter > self.chapters.len() {
            return Err(NavigationError { bound: NavBound::Chapter, max: self.chapters.len() });
        }
        let chapter_idx = chapter - 1;
        if exercise == 0 || exercise > self.chapters[chapter_idx].exercises.len() {
            return Err(
                NavigationError {
                    bound: NavBound::Exercise,
                    max: self.chapters[chapter_idx].exercises.len(),
                },
            );
        }
        self.current_chapter = chapter_idx;
        self.current_exercise = exercise - 1;
        self.current_code =
            self.chapters[self.current_chapter].exercises[self.current_exercise]
                .initial_code.clone();
        Ok(())
    }

    /// Reseeds the buffer from the current exercise's initial code,
    /// byte for byte; the position does not move. Always succeeds.
    pub fn reset_exercise(&mut self)
        requires
            old(self).wf(),
        ensures
            final(self).wf(),
            old(self).same_catalog(*final(self)),
            final(self).current_chapter == old(self).current_chapter,
            final(self).current_exercise == old(self).current_exercise,
            final(self).current_code@ == old(self).cur_exercise().initial_code@,
    {
        self.current_code =
            self.chapters[self.current_chapter].exercises[self.current_exercise]
                .initial_code.clone();
    }

    /// `reset_exercise`, before the guided walkthrough is replayed; the
    /// replay itself is a matter of display, not of state.
    pub fn restart_exercise(&mut self)
        requires
            old(self).wf(),
        ensures
            final(self).wf(),
            old(self).same_catalog(*final(self)),
            final(self).current_chapter == old(self).current_chapter,
            final(self).current_exercise == old(self).current_exercise,
            final(self).current_code@ == old(self).cur_exercise().initial_code@,
    {
        self.reset_exercise();
    }

    /// Takes the result of the external editor round trip: `exit_ok` says
    /// whether the editor reported success, `reloaded` holds the scratch
    /// file's contents if they could be read back. On success the reloaded
    /// text replaces the buffer whole, no partial merge; on any failure the
    /// buffer is left untouched.
    pub fn apply_edit(&mut self, exit_ok: bool, reloaded: Option<String>) -> (r: EditOutcome)
        requires
            old(self).wf(),
        ensures
            final(self).wf(),
            old(self).same_catalog(*final(self)),
            final(self).current_chapter == old(self).current_chapter,
            final(self).current_exercise == old(self).current_exercise,
            exit_ok ==> (reloaded matches Some(code) ==> (r == EditOutcome::Updated && final(
                self).current_code == code)),
            exit_ok ==> (reloaded is None ==> (r == EditOutcome::ReloadFailed && *final(self)
                == *old(self))),
            !exit_ok ==> (r == EditOutcome::EditorFailed && *final(self) == *old(self)),
    {
        if !exit_ok {
            return EditOutcome::EditorFailed;
        }
        match reloaded {
            Some(code) => {
                self.current_code = code;
                EditOutcome::Updated
            },
            None => EditOutcome::ReloadFailed,
        }
    }

    /// The guided walkthrough: from each step, the one that follows, and
    /// `None` once the walkthrough is over.
    pub fn interactive_exercise_flow(step: FlowStep) -> (next: Option<FlowStep>)
        ensures
            next == match step {
                FlowStep::ShowExercise => Some(FlowStep::ShowInstructions),
                FlowStep::ShowInstructions => Some(FlowStep::EditCode),
                FlowStep::EditCode => Some(FlowStep::PostEditMenu),
                FlowStep::PostEditMenu => None::<FlowStep>,
            },
    {
        match step {
            FlowStep::ShowExercise => Some(FlowStep::ShowInstructions),
            FlowStep::ShowInstructions => Some(FlowStep::EditCode),
            FlowStep::EditCode => Some(FlowStep::PostEditMenu),
            FlowStep::PostEditMenu => None,
        }
    }

    /// How many exercises the whole catalog holds; `None` only when the sum
    /// cannot be represented, a machine limit rather than a catalog rule.
    pub fn total_exercises(&self) -> (r: Option<usize>)
        requires
            self.wf(),
        ensures
            r is Some <==> exercise_count_prefix(self.chapters@, self.chapters@.len() as int)
                <= usize::MAX,
            r matches Some(v) ==> v == exercise_count_prefix(
                self.chapters@,
                self.chapters@.len() as int,
            ),
    {
        let mut total: usize = 0;
        let mut i: usize = 0;
        let n = self.chapters.len();
        while i < n
            invariant
                i <= n,
                n == self.chapters@.len(),
                total == exercise_count_prefix(self.chapters@, i as int),
            decreases n - i,
        {
            let c = self.chapters[i].exercises.len();
            if total > usize::MAX - c {
                proof {
                    lemma_exercise_count_prefix_mono(self.chapters@, i + 1, n as int);
                }
                return None;
            }
            total = total + c;
            i = i + 1;
        }
        Some(total)
    }

    /// The one-based rank of the current exercise in the walk over the whole
    /// catalog, chapter by chapter; `None` only on a machine limit.
    pub fn current_exercise_number(&self) -> (r: Option<usize>)
        requires
            self.wf(),
        ensures
            r is Some <==> exercise_count_prefix(self.chapters@, self.current_chapter as int)
                + self.current_exercise + 1 <= usize::MAX,
            r matches Some(v) ==> v == exercise_count_prefix(
                self.chapters@,
                self.current_chapter as int,
            ) + self.current_exercise + 1,
    {
        let mut total: usize = 0;
        let mut i: usize = 0;
        let n = self.current_chapter;
        while i < n
            invariant
                i <= n,
                n == self.current_chapter,
                self.wf(),
                total == exercise_count_prefix(self.chapters@, i as int),
            decreases n - i,
        {
            let c = self.chapters[i].exercises.len();
            if total > usize::MAX - c {
                proof {
                    lemma_exercise_count_prefix_mono(self.chapters@, i + 1, n as int);
                }
                return None;
            }
            total = total + c;
            i = i + 1;
        }
        if total > usize::MAX - self.current_exercise
            || total + self.current_exercise > usize::MAX - 1 {
            return None;
        }
        Some(total + self.current_exercise + 1)
    }
}

} // verus!
