use echo::escape::EchoError;
use echo::format::format_echo;
use echo::parse::parse_argv;

fn argv(tokens: Vec<&str>) -> Vec<String> {
    tokens.into_iter().map(|t| t.to_string()).collect()
}

#[test]
fn no_args() {
    let inv = parse_argv(&argv(vec!["echo"]));

    assert!(inv.positional_args.is_empty());
    assert!(!inv.suppress_newline);
    assert!(!inv.interpret_escapes);

    let result = format_echo(&inv);
    assert!(result.is_ok());
    assert_eq!(result.unwrap(), "\n");
}

#[test]
fn one_arg() {
    let inv = parse_argv(&argv(vec!["echo", "hello"]));

    assert!(!inv.positional_args.is_empty());
    assert_eq!(inv.positional_args, vec!["hello"]);
    assert!(!inv.suppress_newline);
    assert!(!inv.interpret_escapes);

    let result = format_echo(&inv);
    assert!(result.is_ok());
    assert_eq!(result.unwrap(), "hello\n");
}

#[test]
fn multiple_args() {
    let inv = parse_argv(&argv(vec!["echo", "hello", "there"]));

    assert!(!inv.positional_args.is_empty());
    assert_eq!(inv.positional_args, vec!["hello", "there"]);
    assert!(!inv.suppress_newline);
    assert!(!inv.interpret_escapes);

    let result = format_echo(&inv);
    assert!(result.is_ok());
    assert_eq!(result.unwrap(), "hello there\n");
}

#[test]
fn no_newline_arg() {
    let inv = parse_argv(&argv(vec!["echo", "-n", "hello", "there"]));

    assert!(!inv.positional_args.is_empty());
    assert_eq!(inv.positional_args, vec!["hello", "there"]);
    assert!(inv.suppress_newline);
    assert!(!inv.interpret_escapes);

    let result = format_echo(&inv);
    assert!(result.is_ok());
    assert_eq!(result.unwrap(), "hello there");
}

#[test]
fn unescape_arg() {
    let inv = parse_argv(&argv(vec!["echo", "-e", "hello\\tthere"]));

    assert!(!inv.positional_args.is_empty());
    assert_eq!(inv.positional_args, vec!["hello\\tthere"]);
    assert!(!inv.suppress_newline);
    assert!(inv.interpret_escapes);

    let result = format_echo(&inv);
    assert!(result.is_ok());
    assert_eq!(result.unwrap(), "hello\tthere\n");
}

#[test]
fn unknown_hyphen_token_is_literal() {
    let inv = parse_argv(&argv(vec!["echo", "-x"]));

    assert_eq!(inv.positional_args, vec!["-x"]);
    assert!(!inv.suppress_newline);
    assert!(!inv.interpret_escapes);

    assert_eq!(format_echo(&inv).unwrap(), "-x\n");
}

#[test]
fn flags_anywhere_among_tokens() {
    let inv = parse_argv(&argv(vec!["echo", "hello", "-n", "there", "-e"]));

    assert_eq!(inv.positional_args, vec!["hello", "there"]);
    assert!(inv.suppress_newline);
    assert!(inv.interpret_escapes);

    assert_eq!(format_echo(&inv).unwrap(), "hello there");
}

#[test]
fn combined_flag_token_is_literal() {
    let inv = parse_argv(&argv(vec!["echo", "-ne", "hello"]));

    assert_eq!(inv.positional_args, vec!["-ne", "hello"]);
    assert!(!inv.suppress_newline);
    assert!(!inv.interpret_escapes);

    assert_eq!(format_echo(&inv).unwrap(), "-ne hello\n");
}

#[test]
fn backslashes_pass_through_without_escape_flag() {
    let inv = parse_argv(&argv(vec!["echo", "a\\nb", "c\\td", "e\\\\f"]));

    assert!(!inv.interpret_escapes);
    assert_eq!(format_echo(&inv).unwrap(), "a\\nb c\\td e\\\\f\n");
}

#[test]
fn escape_sequences_resolved_with_flag() {
    let inv = parse_argv(&argv(vec!["echo", "-e", "a\\nb", "c\\\\d"]));

    assert_eq!(format_echo(&inv).unwrap(), "a\nb c\\d\n");
}

#[test]
fn malformed_escape_is_an_error() {
    let inv = parse_argv(&argv(vec!["echo", "-e", "bad\\xescape"]));

    let result = format_echo(&inv);
    assert!(result.is_err());
    assert_eq!(result.unwrap_err(), EchoError::EscapeParse);
}

#[test]
fn empty_argument_joins_to_nothing() {
    let inv = parse_argv(&argv(vec!["echo", ""]));

    assert_eq!(inv.positional_args, vec![""]);
    assert_eq!(format_echo(&inv).unwrap(), "\n");
}

#[test]
fn empty_arguments_keep_their_separators() {
    let inv = parse_argv(&argv(vec!["echo", "", "", ""]));

    assert_eq!(format_echo(&inv).unwrap(), "  \n");
}

#[test]
fn join_is_single_spaced() {
    let inv = parse_argv(&argv(vec!["echo", "ab", "cd", "ef"]));

    assert_eq!(format_echo(&inv).unwrap(), "ab cd ef\n");
}

#[test]
fn formatter_is_deterministic() {
    let inv = parse_argv(&argv(vec!["echo", "-e", "two\\tcalls"]));

    let first = format_echo(&inv);
    let second = format_echo(&inv);
    assert_eq!(first, second);
    assert_eq!(first.unwrap(), "two\tcalls\n");
}

#[test]
fn whole_pipeline_from_argv() {
    let result = echo::format::echo_argv(&argv(vec!["echo", "-n", "-e", "x\\ty"]));
    assert_eq!(result.unwrap(), "x\ty");
}
