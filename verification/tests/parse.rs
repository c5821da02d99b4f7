//! Argument-parsing behaviour: positional handling, `--`, option values,
//! conflicting print options, and the decode-strategy selector.

use hunk::args::parse_args;
use hunk::config::UTF8Strategy;

fn expect_err<T, E: std::fmt::Debug>(result: Result<T, E>) {
    println!("{:?}", result.err().expect("Expected an error"));
}

#[test]
fn test_parse_args() {
    let config = parse_args(&vec!["asd"]).unwrap();
    assert_eq!(config.search_string, "asd");
}

#[test]
fn test_parse_extra_positional() {
    expect_err(parse_args(&vec!["asd", "qwe"]));
}

#[test]
fn test_parse_extra_positional_explicit() {
    expect_err(parse_args(&vec!["asd", "--", "qwe"]));
}

#[test]
fn test_parse_trailing_explicit() {
    expect_err(parse_args(&vec!["asd", "--"]));
}

#[test]
fn test_parse_explicit() {
    let config = parse_args(&vec!["--", "asd"]).unwrap();
    assert!(config.search_string == "asd");
}

#[test]
fn test_parse_explicit_flag_like() {
    let config = parse_args(&vec!["--", "-h"]).unwrap();
    assert!(config.search_string == "-h");
}

#[test]
fn test_parse_explicit_duplicate_flag_like() {
    let config = parse_args(&vec!["--match-fields", "diff", "--", "-h"]).unwrap();
    assert!(config.search_string == "-h");
}

#[test]
fn test_parse_explicit_duplicate_flag_like_with_arg() {
    let config = parse_args(&vec!["--match-fields", "diff", "--", "--match-fields"]).unwrap();
    assert!(config.search_string == "--match-fields");
}

#[test]
fn test_parse_no_program_name() {
    expect_err(parse_args(&vec![]));
}

#[test]
fn test_parse_match_fields() {
    let config = parse_args(&vec!["asd", "--match-fields", "diff,context"]).unwrap();
    assert_eq!(config.search_string, "asd");
    assert_eq!(config.match_on.diff, true);
    assert_eq!(config.match_on.context, true);
    assert_eq!(config.match_on.file_header, false);
    assert_eq!(config.match_on.patch_header, false);
}

#[test]
fn test_parse_match_fields_repeat_positional_after() {
    expect_err(parse_args(&vec!["asd", "--match-fields", "diff,context", "qwe"]));
}

#[test]
fn test_parse_match_on_invalid() {
    expect_err(parse_args(&vec!["asd", "--match-on", "qwe"]));
}

#[test]
fn test_parse_print_fields_commit() {
    expect_err(parse_args(&vec!["asd", "--print-fields", "diff,context", "--print-commits"]));
}

#[test]
fn test_parse_commit_print_fields() {
    expect_err(parse_args(&vec!["asd", "--print-commits", "--print-fields", "diff,context"]));
}

#[test]
fn test_parse_utf8_invalid() {
    expect_err(parse_args(&vec!["asd", "--invalid-utf8", "qwe"]));
}

#[test]
fn test_parse_utf8_missing() {
    expect_err(parse_args(&vec!["asd", "--invalid-utf8"]));
}

#[test]
fn test_parse_utf8_valid() {
    let config = parse_args(&vec!["asd", "--invalid-utf8", "skip-line"]).unwrap();
    assert_eq!(config.search_string, "asd");
    assert_eq!(config.decode_strategy, UTF8Strategy::SkipLine);
}

#[test]
fn test_parse_help() {
    expect_err(parse_args(&vec!["asd", "-h"]));
}
