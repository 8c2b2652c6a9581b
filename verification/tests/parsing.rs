use rusttutor::commands::parse_command;
use rusttutor::commands::Command;
use rusttutor::text::parse_usize;
use rusttutor::text::str_eq;
use rusttutor::text::strip_listing_prefix;
use rusttutor::text::trim_ends;
use rusttutor::text::usize_to_string;
use rusttutor::text::trim_trailing;

#[test]
fn keyword_commands_parse_in_both_forms() {
    assert_eq!(parse_command("q"), Command::Quit);
    assert_eq!(parse_command("quit"), Command::Quit);
    assert_eq!(parse_command("h"), Command::Help);
    assert_eq!(parse_command("help"), Command::Help);
    assert_eq!(parse_command("l"), Command::List);
    assert_eq!(parse_command("list"), Command::List);
    assert_eq!(parse_command("r"), Command::Run);
    assert_eq!(parse_command("run"), Command::Run);
    assert_eq!(parse_command("s"), Command::Solution);
    assert_eq!(parse_command("solution"), Command::Solution);
    assert_eq!(parse_command("hint"), Command::Hint);
    assert_eq!(parse_command("n"), Command::Next);
    assert_eq!(parse_command("next"), Command::Next);
    assert_eq!(parse_command("p"), Command::Prev);
    assert_eq!(parse_command("prev"), Command::Prev);
    assert_eq!(parse_command("edit"), Command::Edit);
    assert_eq!(parse_command("reset"), Command::Reset);
    assert_eq!(parse_command("restart"), Command::Restart);
}

#[test]
fn blank_and_unknown_lines() {
    assert_eq!(parse_command(""), Command::Empty);
    assert_eq!(parse_command("bogus"), Command::Unknown);
    assert_eq!(parse_command("Q"), Command::Unknown);
    assert_eq!(parse_command("HELP"), Command::Unknown);
    assert_eq!(parse_command("goto"), Command::Unknown);
    assert_eq!(parse_command("gotox 1 1"), Command::Unknown);
}

#[test]
fn goto_with_two_numbers_parses() {
    assert_eq!(parse_command("goto 2 1"), Command::Goto { chapter: 2, exercise: 1 });
    assert_eq!(parse_command("goto 0 1"), Command::Goto { chapter: 0, exercise: 1 });
    assert_eq!(parse_command("goto 99 1"), Command::Goto { chapter: 99, exercise: 1 });
    // extra internal whitespace between arguments is accepted
    assert_eq!(parse_command("goto  3  2"), Command::Goto { chapter: 3, exercise: 2 });
}

#[test]
fn goto_with_wrong_argument_count_is_usage_error() {
    assert_eq!(parse_command("goto 1"), Command::GotoUsage);
    assert_eq!(parse_command("goto "), Command::GotoUsage);
    assert_eq!(parse_command("goto 1 2 3"), Command::GotoUsage);
}

#[test]
fn goto_with_non_numeric_arguments_is_a_parse_error() {
    assert_eq!(parse_command("goto x 1"), Command::GotoInvalidNumber);
    assert_eq!(parse_command("goto 1 y"), Command::GotoInvalidNumber);
    assert_eq!(parse_command("goto -1 1"), Command::GotoInvalidNumber);
    assert_eq!(parse_command("goto 1.5 2"), Command::GotoInvalidNumber);
    // far beyond what fits in a machine word
    assert_eq!(
        parse_command("goto 99999999999999999999999999 1"),
        Command::GotoInvalidNumber
    );
}

#[test]
fn parse_usize_accepts_exactly_digit_strings() {
    assert_eq!(parse_usize("0"), Some(0));
    assert_eq!(parse_usize("7"), Some(7));
    assert_eq!(parse_usize("007"), Some(7));
    assert_eq!(parse_usize("12345"), Some(12345));
    assert_eq!(parse_usize(""), None);
    assert_eq!(parse_usize("1a"), None);
    assert_eq!(parse_usize("+5"), None);
    assert_eq!(parse_usize(" 5"), None);
    assert_eq!(parse_usize("99999999999999999999999999"), None);
    assert_eq!(parse_usize("18446744073709551615"), Some(usize::MAX));
    assert_eq!(parse_usize("18446744073709551616"), None);
}

#[test]
fn numbers_format_as_plain_decimal() {
    assert_eq!(usize_to_string(0), "0");
    assert_eq!(usize_to_string(5), "5");
    assert_eq!(usize_to_string(10), "10");
    assert_eq!(usize_to_string(120), "120");
    assert_eq!(usize_to_string(usize::MAX), "18446744073709551615");
}

#[test]
fn formatted_numbers_parse_back_to_themselves() {
    for n in [0usize, 1, 9, 10, 99, 100, 4096, usize::MAX] {
        assert_eq!(parse_usize(&usize_to_string(n)), Some(n));
    }
}

#[test]
fn trim_trailing_removes_only_the_tail() {
    assert_eq!(trim_trailing("Hello World!\n"), "Hello World!");
    assert_eq!(trim_trailing("a b \t\r\n "), "a b");
    assert_eq!(trim_trailing("  leading stays"), "  leading stays");
    assert_eq!(trim_trailing("inner  space"), "inner  space");
    assert_eq!(trim_trailing(""), "");
    assert_eq!(trim_trailing(" \n\t"), "");
}

#[test]
fn trim_ends_removes_surrounding_whitespace_only() {
    assert_eq!(trim_ends("  goto 1 2 \n"), "goto 1 2");
    assert_eq!(trim_ends("\tq\r\n"), "q");
    assert_eq!(trim_ends("no change"), "no change");
    assert_eq!(trim_ends("  "), "");
    assert_eq!(trim_ends(""), "");
}

#[test]
fn surrounding_whitespace_does_not_change_a_command() {
    assert_eq!(parse_command(trim_ends(" quit \n")), Command::Quit);
    assert_eq!(parse_command(trim_ends("\tgoto 2 1\n")), Command::Goto { chapter: 2, exercise: 1 });
    assert_eq!(parse_command(trim_ends("\n")), Command::Empty);
}

#[test]
fn listing_prefix_is_stripped_from_instruction_lines() {
    assert_eq!(strip_listing_prefix("1. Look at the code above"), "Look at the code above");
    assert_eq!(strip_listing_prefix("12.  Keep going"), "Keep going");
    assert_eq!(strip_listing_prefix("no numbering here"), "no numbering here");
    assert_eq!(strip_listing_prefix("3. "), "");
}

#[test]
fn str_eq_compares_exactly() {
    assert!(str_eq("", ""));
    assert!(str_eq("abc", "abc"));
    assert!(!str_eq("abc", "abd"));
    assert!(!str_eq("abc", "ab"));
    assert!(!str_eq("abc", "Abc"));
}
