//! The command surface: how one trimmed input line is read. Keywords are
//! exact and case-sensitive; `goto` takes exactly two decimal arguments.

use vstd::prelude::*;
use crate::text::is_wspace;
use crate::text::wspace_char;
use crate::text::spec_parse_usize;
use crate::text::parse_usize;
use crate::text::str_eq;

verus! {

/// The index of the first whitespace character of `s` at or after `i`, or
/// the end of `s`.
pub open spec fn token_end(s: Seq<char>, i: int) -> int
    decreases s.len() - i,
{
    if i < 0 || i >= s.len() || is_wspace(s[i]) {
        i
    } else {
        token_end(s, i + 1)
    }
}

proof fn lemma_token_end_bounds(s: Seq<char>, i: int)
    requires
        0 <= i <= s.len(),
    ensures
        i <= token_end(s, i) <= s.len(),
        i < s.len() && !is_wspace(s[i]) ==> i < token_end(s, i),
    decreases s.len() - i,
{
    if i < s.len() && !is_wspace(s[i]) {
        lemma_token_end_bounds(s, i + 1);
    }
}

/// The whitespace-separated tokens of `s`, from index `i` on.
pub open spec fn tokens_from(s: Seq<char>, i: int) -> Seq<Seq<char>>
    decreases s.len() - i,
    when i >= 0
    via tokens_from_decreases
{
    if i < 0 || i >= s.len() {
        Seq::empty()
    } else if is_wspace(s[i]) {
        tokens_from(s, i + 1)
    } else {
        seq![s.subrange(i, token_end(s, i))] + tokens_from(s, token_end(s, i))
    }
}

#[via_fn]
proof fn tokens_from_decreases(s: Seq<char>, i: int) {
    if 0 <= i < s.len() && !is_wspace(s[i]) {
        lemma_token_end_bounds(s, i);
    }
}

fn find_token_end(s: &str, i: usize) -> (j: usize)
    requires
        i as int <= s@.len(),
    ensures
        j == token_end(s@, i as int),
        i <= j <= s@.len(),
{
    let n = s.unicode_len();
    let mut j = i;
    while j < n && !wspace_char(s.get_char(j))
        invariant
            i <= j <= n,
            n == s@.len(),
            token_end(s@, i as int) == token_end(s@, j as int),
        decreases n - j,
    {
        j = j + 1;
    }
    j
}

/// Collects the whitespace-separated tokens of `s`, from index `from` on.
fn scan_tokens(s: &str, from: usize) -> (toks: Vec<String>)
    requires
        from as int <= s@.len(),
    ensures
        toks.deep_view() == tokens_from(s@, from as int),
{
    let n = s.unicode_len();
    let mut toks: Vec<String> = Vec::new();
    let mut i = from;
    while i < n
        invariant
            from <= i <= n,
            n == s@.len(),
            tokens_from(s@, from as int) == toks.deep_view() + tokens_from(s@, i as int),
        decreases n - i,
    {
        let c = s.get_char(i);
        if wspace_char(c) {
            i = i + 1;
        } else {
            let j = find_token_end(s, i);
            proof {
                lemma_token_end_bounds(s@, i as int);
            }
            let ghost old_toks = toks.deep_view();
            let tok = s.substring_char(i, j).to_owned();
            toks.push(tok);
            proof {
                assert(toks.deep_view() =~~= old_toks + seq![s@.subrange(i as int, j as int)]);
                assert(old_toks + tokens_from(s@, i as int) =~~= toks.deep_view()
                    + tokens_from(s@, j as int));
            }
            i = j;
        }
    }
    proof {
        assert(toks.deep_view() + tokens_from(s@, i as int) =~~= toks.deep_view());
    }
    toks
}

/// One parsed input line.
#[derive(Clone, Copy, Debug, PartialEq, Eq, Structural)]
pub enum Command {
    Quit,
    Help,
    List,
    Run,
    Solution,
    Hint,
    Next,
    Prev,
    Edit,
    Reset,
    Restart,
    /// `goto` with two well-formed one-based numbers.
    Goto { chapter: usize, exercise: usize },
    /// `goto` with the wrong number of arguments.
    GotoUsage,
    /// `goto` whose arguments are not numbers that fit.
    GotoInvalidNumber,
    /// A blank line: resume the guided walkthrough.
    Empty,
    /// Anything else.
    Unknown,
}

/// How `goto`'s arguments are read once the keyword is recognised.
pub open spec fn spec_parse_goto(args: Seq<Seq<char>>) -> Command {
    if args.len() != 2 {
        Command::GotoUsage
    } else {
        match (spec_parse_usize(args[0]), spec_parse_usize(args[1])) {
            (Option::Some(c), Option::Some(e)) => Command::Goto { chapter: c, exercise: e },
            _ => Command::GotoInvalidNumber,
        }
    }
}

/// How one trimmed input line is read.
pub open spec fn spec_parse_command(s: Seq<char>) -> Command {
    if s == "q"@ || s == "quit"@ {
        Command::Quit
    } else if s == "h"@ || s == "help"@ {
        Command::Help
    } else if s == "l"@ || s == "list"@ {
        Command::List
    } else if s == "r"@ || s == "run"@ {
        Command::Run
    } else if s == "s"@ || s == "solution"@ {
        Command::Solution
    } else if s == "hint"@ {
        Command::Hint
    } else if s == "n"@ || s == "next"@ {
        Command::Next
    } else if s == "p"@ || s == "prev"@ {
        Command::Prev
    } else if s == "edit"@ {
        Command::Edit
    } else if s == "reset"@ {
        Command::Reset
    } else if s == "restart"@ {
        Command::Restart
    } else if s.len() >= 5 && s.subrange(0, 5) == "goto "@ {
        spec_parse_goto(tokens_from(s, 5))
    } else if s.len() == 0 {
        Command::Empty
    } else {
        Command::Unknown
    }
}

/// Reads one input line, already trimmed of surrounding whitespace.
pub fn parse_command(input: &str) -> (c: Command)
    ensures
        c == spec_parse_command(input@),
{
    if str_eq(input, "q") || str_eq(input, "quit") {
        return Command::Quit;
    }
    if str_eq(input, "h") || str_eq(input, "help") {
        return Command::Help;
    }
    if str_eq(input, "l") || str_eq(input, "list") {
        return Command::List;
    }
    if str_eq(input, "r") || str_eq(input, "run") {
        return Command::Run;
    }
    if str_eq(input, "s") || str_eq(input, "solution") {
        return Command::Solution;
    }
    if str_eq(input, "hint") {
        return Command::Hint;
    }
    if str_eq(input, "n") || str_eq(input, "next") {
        return Command::Next;
    }
    if str_eq(input, "p") || str_eq(input, "prev") {
        return Command::Prev;
    }
    if str_eq(input, "edit") {
        return Command::Edit;
    }
    if str_eq(input, "reset") {
        return Command::Reset;
    }
    if str_eq(input, "restart") {
        return Command::Restart;
    }
    let n = input.unicode_len();
    if n >= 5 {
        let head = input.substring_char(0, 5);
        if str_eq(head, "goto ") {
            let args = scan_tokens(input, 5);
            if args.len() != 2 {
                return Command::GotoUsage;
            }
            let chapter = parse_usize(args[0].as_str());
            let exercise = parse_usize(args[1].as_str());
            match (chapter, exercise) {
                (Option::Some(c), Option::Some(e)) => {
                    return Command::Goto { chapter: c, exercise: e };
                },
                _ => {
                    return Command::GotoInvalidNumber;
                },
            }
        }
    }
    if n == 0 {
        return Command::Empty;
    }
    Command::Unknown
}

} // verus!
