//! Output validation: the captured output of a run, compared against the
//! exercise's expected output.

use vstd::prelude::*;
use crate::text::trim_trailing;
use crate::text::trim_trailing_spec;
use crate::text::str_eq;

verus! {

/// The outcome of one pipeline run, reported to the learner and discarded.
pub enum Verdict {
    /// The trimmed output equals the expected text exactly.
    Match,
    /// The output differs; both texts are carried for display.
    Mismatch { expected: String, actual: String },
    /// The exercise defines no expected output; any output is accepted.
    Unconstrained,
    /// The toolchain exited non-zero or could not be spawned; carries the
    /// captured standard-error text verbatim.
    CompileFailed { diagnostics: String },
    /// The compiled artifact exited non-zero or could not be spawned.
    RunFailed { cause: String },
}

/// What validation owes: `Unconstrained` when nothing is expected; otherwise
/// `Match` exactly when the actual output, with trailing whitespace removed
/// and nothing else, equals the expected text — case and internal whitespace
/// count — and `Mismatch` carrying both texts otherwise.
pub open spec fn validate_verdict(v: Verdict, actual: Seq<char>, expected: Option<Seq<char>>) -> bool {
    match expected {
        Option::None => v == Verdict::Unconstrained,
        Option::Some(exp) => if trim_trailing_spec(actual) == exp {
            v == Verdict::Match
        } else {
            v matches Verdict::Mismatch { expected: e, actual: a } && e@ == exp && a@ == actual
        },
    }
}

/// Compares captured output against the exercise's expectation.
pub fn validate(actual: &str, expected: Option<&str>) -> (v: Verdict)
    ensures
        validate_verdict(
            v,
            actual@,
            match expected {
                Option::Some(e) => Option::Some(e@),
                Option::None => Option::None,
            },
        ),
{
    match expected {
        Option::None => Verdict::Unconstrained,
        Option::Some(exp) => {
            let trimmed = trim_trailing(actual);
            if str_eq(trimmed, exp) {
                Verdict::Match
            } else {
                Verdict::Mismatch { expected: exp.to_owned(), actual: actual.to_owned() }
            }
        },
    }
}

} // verus!
