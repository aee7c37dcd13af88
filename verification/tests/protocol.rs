//! Tests of the control-protocol parser.

use playctl::model::Mode;
use playctl::parse::{parse_command, tokenize, ParsedCmd};

fn parse(line: &str) -> ParsedCmd {
    parse_command(&line.as_bytes().to_vec())
}

#[test]
fn words_split_on_spaces_and_drop_empties() {
    let words = tokenize(&b"  load   append ".to_vec());
    assert_eq!(words, vec![b"load".to_vec(), b"append".to_vec()]);
}

#[test]
fn simple_commands_parse() {
    assert_eq!(parse("play"), ParsedCmd::Play);
    assert_eq!(parse("next"), ParsedCmd::Next);
    assert_eq!(parse("prev"), ParsedCmd::Prev);
    assert_eq!(parse("stop"), ParsedCmd::Stop);
    assert_eq!(parse("quit"), ParsedCmd::Quit);
    assert_eq!(parse("terminate"), ParsedCmd::Terminate);
}

#[test]
fn mode_reads_its_policy_name() {
    assert_eq!(parse("mode random"), ParsedCmd::SetMode(Mode::Random));
    assert_eq!(parse("mode sequence"), ParsedCmd::SetMode(Mode::Sequence));
    assert_eq!(parse("mode circular"), ParsedCmd::SetMode(Mode::Circular));
}

#[test]
fn mode_without_an_argument_is_reported() {
    assert_eq!(parse("mode"), ParsedCmd::MissingMode);
    assert_eq!(parse("mode  "), ParsedCmd::MissingMode);
}

#[test]
fn mode_with_an_unknown_policy_is_reported() {
    assert_eq!(parse("mode shuffle"), ParsedCmd::UnknownMode);
}

#[test]
fn load_parses_with_and_without_the_append_flag() {
    assert_eq!(parse("load"), ParsedCmd::Load { append: false });
    assert_eq!(parse("load append"), ParsedCmd::Load { append: true });
    assert_eq!(parse("load x append y"), ParsedCmd::Load { append: true });
    assert_eq!(parse("load appendix"), ParsedCmd::Load { append: false });
}

#[test]
fn an_empty_or_blank_line_is_ignored() {
    assert_eq!(parse(""), ParsedCmd::Empty);
    assert_eq!(parse("   "), ParsedCmd::Empty);
}

#[test]
fn an_unknown_first_word_is_reported() {
    assert_eq!(parse("bogus"), ParsedCmd::Unknown);
    assert_eq!(parse("playx"), ParsedCmd::Unknown);
    assert_eq!(parse("PLAY"), ParsedCmd::Unknown);
}

#[test]
fn leading_and_trailing_spaces_do_not_matter() {
    assert_eq!(parse("  play  "), ParsedCmd::Play);
    assert_eq!(parse(" mode  circular "), ParsedCmd::SetMode(Mode::Circular));
}
