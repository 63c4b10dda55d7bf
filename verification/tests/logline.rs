//! The game-server log-line parser.

use brust::logline::parse_log_line;

#[test]
fn parses_a_chat_line() {
    let rec = parse_log_line("[2024.01.01-00.00.00:000][  5]LogChat: alice: hello world")
        .expect("no record");
    assert_eq!(rec.index, 5);
    assert_eq!(rec.body, "LogChat: alice: hello world");
}

#[test]
fn parses_without_index_padding() {
    let rec = parse_log_line("[2024.01.01-00.00.00:000][42]x").expect("no record");
    assert_eq!(rec.index, 42);
    assert_eq!(rec.body, "x");
}

#[test]
fn parses_the_largest_index() {
    let rec = parse_log_line("[0.0][ 2147483647]body").expect("no record");
    assert_eq!(rec.index, 2147483647);
}

#[test]
fn discards_an_index_too_large() {
    assert!(parse_log_line("[0.0][ 2147483648]body").is_none());
    assert!(parse_log_line("[0.0][ 99999999999999999999]body").is_none());
}

#[test]
fn discards_lines_without_the_prefix() {
    assert!(parse_log_line("").is_none());
    assert!(parse_log_line("LogChat: alice: hi").is_none());
    assert!(parse_log_line("[ts with spaces][ 5]body").is_none());
    assert!(parse_log_line("[2024.01.01][x5]body").is_none());
    assert!(parse_log_line("[2024.01.01][ 5]").is_none());
    assert!(parse_log_line("[][ 5]body").is_none());
    assert!(parse_log_line("[2024.01.01][ ]body").is_none());
    assert!(parse_log_line("[2024.01.01][ 5 ]body").is_none());
}

#[test]
fn the_body_may_hold_brackets() {
    let rec = parse_log_line("[1.2.3][ 0][inner] more").expect("no record");
    assert_eq!(rec.index, 0);
    assert_eq!(rec.body, "[inner] more");
}
