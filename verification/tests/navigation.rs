use rusttutor::catalog::Chapter;
use rusttutor::catalog::Exercise;
use rusttutor::session::EditOutcome;
use rusttutor::session::FlowStep;
use rusttutor::session::NavBound;
use rusttutor::session::NavOutcome;
use rusttutor::session::Tutorial;

#[test]
fn new_session_starts_at_first_exercise() {
    let t = Tutorial::new();
    assert_eq!(t.current_chapter, 0);
    assert_eq!(t.current_exercise, 0);
    assert_eq!(t.current_code, t.chapters[0].exercises[0].initial_code);
    assert_eq!(t.temp_file, "rusttutor_temp.rs");
}

#[test]
fn catalog_has_expected_shape() {
    let chapters = Tutorial::create_chapters();
    assert_eq!(chapters.len(), 5);
    let counts: Vec<usize> = chapters.iter().map(|c| c.exercises.len()).collect();
    assert_eq!(counts, vec![2, 1, 1, 1, 1]);
    assert_eq!(chapters[0].title, "Hello World");
    assert_eq!(chapters[1].title, "Primitives");
    assert_eq!(chapters[2].title, "Custom Types");
    assert_eq!(chapters[3].title, "Variable Bindings");
    assert_eq!(chapters[4].title, "Functions");
    assert_eq!(
        chapters[0].exercises[0].expected_output.as_deref(),
        Some("Hello World!")
    );
    for c in &chapters {
        assert!(!c.exercises.is_empty());
    }
}

#[test]
fn reset_restores_initial_code_for_every_exercise() {
    let mut t = Tutorial::new();
    let chapter_count = t.chapters.len();
    for c in 1..=chapter_count {
        let exercise_count = t.chapters[c - 1].exercises.len();
        for e in 1..=exercise_count {
            assert!(t.goto_exercise(c, e).is_ok());
            let out = t.apply_edit(true, Some(String::from("fn main() {}")));
            assert_eq!(out, EditOutcome::Updated);
            assert_eq!(t.current_code, "fn main() {}");
            t.reset_exercise();
            assert_eq!(t.current_code, t.chapters[c - 1].exercises[e - 1].initial_code);
            assert_eq!(t.current_chapter, c - 1);
            assert_eq!(t.current_exercise, e - 1);
        }
    }
}

#[test]
fn goto_succeeds_exactly_within_bounds() {
    let mut t = Tutorial::new();
    assert!(t.goto_exercise(1, 1).is_ok());
    assert!(t.goto_exercise(1, 2).is_ok());
    assert!(t.goto_exercise(5, 1).is_ok());
    assert!(t.goto_exercise(0, 1).is_err());
    assert!(t.goto_exercise(6, 1).is_err());
    assert!(t.goto_exercise(1, 0).is_err());
    assert!(t.goto_exercise(1, 3).is_err());
    assert!(t.goto_exercise(2, 2).is_err());
}

#[test]
fn goto_success_sets_indices_and_reseeds_buffer() {
    let mut t = Tutorial::new();
    assert!(t.goto_exercise(3, 1).is_ok());
    assert_eq!(t.current_chapter, 2);
    assert_eq!(t.current_exercise, 0);
    assert_eq!(t.current_code, t.chapters[2].exercises[0].initial_code);
}

#[test]
fn goto_zero_chapter_reports_chapter_range() {
    let mut t = Tutorial::new();
    let before_code = t.current_code.clone();
    let err = t.goto_exercise(0, 1).unwrap_err();
    assert_eq!(err.bound, NavBound::Chapter);
    assert_eq!(err.max, 5);
    assert_eq!(err.message(), "Invalid chapter number. Use 1-5");
    assert_eq!(t.current_chapter, 0);
    assert_eq!(t.current_exercise, 0);
    assert_eq!(t.current_code, before_code);
}

#[test]
fn goto_ninety_nine_cites_one_to_five() {
    let mut t = Tutorial::new();
    assert_eq!(t.chapters.len(), 5);
    let err = t.goto_exercise(99, 1).unwrap_err();
    assert_eq!(err.bound, NavBound::Chapter);
    assert_eq!(err.max, 5);
    assert_eq!(err.message(), "Invalid chapter number. Use 1-5");
}

#[test]
fn goto_bad_exercise_reports_exercise_range() {
    let mut t = Tutorial::new();
    let err = t.goto_exercise(1, 9).unwrap_err();
    assert_eq!(err.bound, NavBound::Exercise);
    assert_eq!(err.max, 2);
    assert_eq!(err.message(), "Invalid exercise number. Use 1-2");
    let err = t.goto_exercise(2, 0).unwrap_err();
    assert_eq!(err.bound, NavBound::Exercise);
    assert_eq!(err.max, 1);
    assert_eq!(err.message(), "Invalid exercise number. Use 1-1");
}

#[test]
fn next_at_final_exercise_reports_completion_and_stays() {
    let mut t = Tutorial::new();
    assert!(t.goto_exercise(5, 1).is_ok());
    let buffer = t.current_code.clone();
    assert_eq!(t.next_exercise(), NavOutcome::Completed);
    assert_eq!(t.current_chapter, 4);
    assert_eq!(t.current_exercise, 0);
    assert_eq!(t.current_code, buffer);
    assert_eq!(t.next_exercise(), NavOutcome::Completed);
    assert_eq!(t.current_chapter, 4);
    assert_eq!(t.current_exercise, 0);
    assert_eq!(t.current_code, buffer);
}

#[test]
fn prev_at_first_exercise_reports_so_and_stays() {
    let mut t = Tutorial::new();
    let buffer = t.current_code.clone();
    assert_eq!(t.prev_exercise(), NavOutcome::AtFirst);
    assert_eq!(t.current_chapter, 0);
    assert_eq!(t.current_exercise, 0);
    assert_eq!(t.current_code, buffer);
    assert_eq!(t.prev_exercise(), NavOutcome::AtFirst);
    assert_eq!(t.current_chapter, 0);
    assert_eq!(t.current_exercise, 0);
}

#[test]
fn next_within_chapter_advances_exercise() {
    let mut t = Tutorial::new();
    assert_eq!(t.next_exercise(), NavOutcome::Moved);
    assert_eq!(t.current_chapter, 0);
    assert_eq!(t.current_exercise, 1);
    assert_eq!(t.current_code, t.chapters[0].exercises[1].initial_code);
}

#[test]
fn next_at_chapter_end_crosses_into_following_chapter() {
    let mut t = Tutorial::new();
    assert!(t.goto_exercise(1, 2).is_ok());
    assert_eq!(t.next_exercise(), NavOutcome::Moved);
    assert_eq!(t.current_chapter, 1);
    assert_eq!(t.current_exercise, 0);
    assert_eq!(t.current_code, t.chapters[1].exercises[0].initial_code);
}

#[test]
fn prev_at_chapter_start_crosses_to_last_exercise_of_previous() {
    let mut t = Tutorial::new();
    assert!(t.goto_exercise(2, 1).is_ok());
    assert_eq!(t.prev_exercise(), NavOutcome::Moved);
    assert_eq!(t.current_chapter, 0);
    assert_eq!(t.current_exercise, 1);
    assert_eq!(t.current_code, t.chapters[0].exercises[1].initial_code);
}

#[test]
fn navigation_discards_buffer_edits() {
    let mut t = Tutorial::new();
    let out = t.apply_edit(true, Some(String::from("scribble")));
    assert_eq!(out, EditOutcome::Updated);
    assert_eq!(t.next_exercise(), NavOutcome::Moved);
    assert_eq!(t.current_code, t.chapters[0].exercises[1].initial_code);
}

#[test]
fn restart_reseeds_like_reset() {
    let mut t = Tutorial::new();
    t.apply_edit(true, Some(String::from("scribble")));
    t.restart_exercise();
    assert_eq!(t.current_code, t.chapters[0].exercises[0].initial_code);
    assert_eq!(t.current_chapter, 0);
    assert_eq!(t.current_exercise, 0);
}

#[test]
fn failed_editor_leaves_buffer_untouched() {
    let mut t = Tutorial::new();
    let before = t.current_code.clone();
    assert_eq!(t.apply_edit(false, Some(String::from("lost"))), EditOutcome::EditorFailed);
    assert_eq!(t.current_code, before);
    assert_eq!(t.apply_edit(false, None), EditOutcome::EditorFailed);
    assert_eq!(t.current_code, before);
    assert_eq!(t.apply_edit(true, None), EditOutcome::ReloadFailed);
    assert_eq!(t.current_code, before);
}

#[test]
fn progress_counts_walk_the_catalog_in_order() {
    let mut t = Tutorial::new();
    assert_eq!(t.total_exercises(), Some(6));
    assert_eq!(t.current_exercise_number(), Some(1));
    assert!(t.goto_exercise(1, 2).is_ok());
    assert_eq!(t.current_exercise_number(), Some(2));
    assert!(t.goto_exercise(2, 1).is_ok());
    assert_eq!(t.current_exercise_number(), Some(3));
    assert!(t.goto_exercise(5, 1).is_ok());
    assert_eq!(t.current_exercise_number(), Some(6));
}

fn plain_exercise(tag: &str) -> Exercise {
    Exercise {
        title: format!("Exercise {}", tag),
        description: String::from("synthetic"),
        initial_code: format!("// start {}", tag),
        expected_output: None,
        hint: None,
        solution: None,
        instructions: Vec::new(),
    }
}

fn wide_session(chapter_count: usize) -> Tutorial {
    let mut chapters = Vec::new();
    for c in 0..chapter_count {
        chapters.push(Chapter {
            title: format!("Chapter {}", c + 1),
            description: String::from("synthetic"),
            exercises: vec![plain_exercise(&format!("{}.1", c + 1))],
        });
    }
    let current_code = chapters[0].exercises[0].initial_code.clone();
    Tutorial {
        chapters,
        current_chapter: 0,
        current_exercise: 0,
        temp_file: String::from("rusttutor_temp.rs"),
        current_code,
    }
}

#[test]
fn reported_range_follows_the_catalog_at_hand() {
    let mut t = wide_session(12);
    let err = t.goto_exercise(99, 1).unwrap_err();
    assert_eq!(err.bound, NavBound::Chapter);
    assert_eq!(err.max, 12);
    assert_eq!(err.message(), "Invalid chapter number. Use 1-12");
    assert!(t.goto_exercise(12, 1).is_ok());
    assert_eq!(t.current_chapter, 11);
    assert_eq!(t.current_code, t.chapters[11].exercises[0].initial_code);
}

#[test]
fn every_built_in_exercise_is_fully_annotated() {
    for chapter in Tutorial::create_chapters() {
        for exercise in chapter.exercises {
            assert!(exercise.expected_output.is_some());
            assert!(exercise.hint.is_some());
            assert!(exercise.solution.is_some());
            assert!(!exercise.initial_code.is_empty());
            assert!(!exercise.instructions.is_empty());
        }
    }
}

#[test]
fn guided_flow_steps_in_fixed_order() {
    let mut step = FlowStep::ShowExercise;
    let mut seen = vec![step];
    while let Some(next) = Tutorial::interactive_exercise_flow(step) {
        seen.push(next);
        step = next;
    }
    assert_eq!(
        seen,
        vec![
            FlowStep::ShowExercise,
            FlowStep::ShowInstructions,
            FlowStep::EditCode,
            FlowStep::PostEditMenu
        ]
    );
}
