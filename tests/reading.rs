use console_input::input::{Input, Outcome};
use console_input::text::trim_line;

fn lines(items: &[&str]) -> Vec<String> {
    items.iter().map(|s| s.to_string()).collect()
}

#[test]
fn it_works_simple() {
    let (result, shown) = Input::<String>::new("Nombre").read_from(&lines(&["John"]));
    assert_eq!(result.unwrap(), "John");
    assert!(shown.is_empty());
}

#[test]
fn it_works_with_str() {
    let (result, _) = Input::<String>::new("Nombre")
        .validate(|name| name.len() > 3)
        .read_from(&lines(&["John"]));
    assert_eq!(result.unwrap(), "John");
}

#[test]
fn it_works_with_str_and_err_msg() {
    let (result, _) = Input::<String>::new("Nombre")
        .validate(|name| name.len() > 3)
        .err_msg("Ha de contener como mínimo 4 letras")
        .read_from(&lines(&["John"]));
    assert_eq!(result.unwrap(), "John");
}

#[test]
fn it_works_with_number() {
    let (result, _) = Input::<u32>::new("Edad")
        .validate(|age| age > &0u32)
        .err_msg("Debe ser un número positivo")
        .read_from(&lines(&["25"]));
    assert_eq!(result, Some(25));
}

#[test]
fn short_name_is_refused_with_its_message_then_retried() {
    let (result, shown) = Input::<String>::new("Nombre")
        .validate(|name| name.len() > 3)
        .err_msg("Ha de contener como mínimo 4 letras")
        .read_from(&lines(&["Jo", "John"]));
    assert_eq!(result.unwrap(), "John");
    assert_eq!(shown, vec!["Ha de contener como mínimo 4 letras".to_string()]);
}

#[test]
fn positive_integer_scenario() {
    let (result, shown) = Input::<i32>::new("Number")
        .validate(|v| *v > 0)
        .err_msg("must be positive")
        .read_from(&lines(&["-3", "0", "abc", "5"]));
    assert_eq!(result, Some(5));
    assert_eq!(shown.len(), 3);
    assert_eq!(shown[0], "must be positive");
    assert_eq!(shown[1], "must be positive");
    assert_eq!(shown[2], "Format error: invalid digit found in string");
}

#[test]
fn text_is_trimmed_and_returned_at_once() {
    let c = Input::<String>::new("Word");
    assert_eq!(c.attempt("hello"), Outcome::Accepted("hello".to_string()));
    assert_eq!(c.attempt("  hello  "), Outcome::Accepted("hello".to_string()));
    assert_eq!(c.attempt("\thello\n"), Outcome::Accepted("hello".to_string()));
}

#[test]
fn float_target_through_judge() {
    let c = Input::<f32>::new("Weight");
    let parse = |line: &str| trim_line(line).parse::<f32>().map_err(|e| e.to_string());
    assert_eq!(c.judge(parse("3.14")), Outcome::Accepted(3.14f32));
    assert_eq!(c.judge(parse(" 3.14\n")), Outcome::Accepted(3.14f32));
    match c.judge(parse("3,14")) {
        Outcome::Malformed(m) => assert!(m.starts_with("Format error: ")),
        other => panic!("expected a format error, got {:?}", other),
    }
}

#[test]
fn surrounding_space_does_not_change_an_integer() {
    let c = Input::<u32>::new("Age");
    assert_eq!(c.attempt(" 7 "), Outcome::Accepted(7));
    assert_eq!(c.attempt("7"), Outcome::Accepted(7));
    assert_eq!(c.attempt(" 7\n"), c.attempt("7"));
}

#[test]
fn malformed_line_never_reaches_the_check() {
    let c = Input::<u32>::new("Age").validate(|_| -> bool { panic!("check called") });
    assert_eq!(
        c.attempt("abc"),
        Outcome::Malformed("Format error: invalid digit found in string".to_string())
    );
}

#[test]
fn default_rejection_message() {
    let c = Input::<u32>::new("Age");
    assert_eq!(c.error_message(), "Invalid input");
    let c = c.validate(|v| *v > 10);
    assert_eq!(c.attempt("5"), Outcome::Rejected("Invalid input".to_string()));
    assert_eq!(c.attempt("11"), Outcome::Accepted(11));
}

#[test]
fn default_configuration_accepts_everything_parsed() {
    let c = Input::<u32>::new("Age");
    assert_eq!(c.attempt("0"), Outcome::Accepted(0));
    assert_eq!(c.attempt("4294967295"), Outcome::Accepted(4294967295));
    let t = Input::<String>::new("Any");
    assert_eq!(t.attempt(""), Outcome::Accepted(String::new()));
}

#[test]
fn last_validator_and_message_win() {
    let c = Input::<u32>::new("Age")
        .validate(|v| *v > 100)
        .err_msg("first")
        .validate(|v| *v < 10)
        .err_msg("second");
    assert_eq!(c.error_message(), "second");
    assert_eq!(c.prompt(), "Age");
    assert_eq!(c.attempt("5"), Outcome::Accepted(5));
    assert_eq!(c.attempt("500"), Outcome::Rejected("second".to_string()));
}

#[test]
fn prompt_line_has_separator() {
    let c = Input::<u32>::new("Edad");
    assert_eq!(c.prompt_line(), "Edad: ");
}

#[test]
fn conversion_errors_are_framed() {
    let c = Input::<u32>::new("Age");
    assert_eq!(
        c.attempt(""),
        Outcome::Malformed("Format error: cannot parse integer from empty string".to_string())
    );
    assert_eq!(
        c.attempt("4294967296"),
        Outcome::Malformed("Format error: number too large to fit in target type".to_string())
    );
    assert_eq!(
        c.attempt("-1"),
        Outcome::Malformed("Format error: invalid digit found in string".to_string())
    );
    assert_eq!(c.attempt("+42"), Outcome::Accepted(42));
    assert_eq!(c.attempt("007"), Outcome::Accepted(7));
}

#[test]
fn signed_range_limits() {
    let c = Input::<i32>::new("N");
    assert_eq!(c.attempt("-2147483648"), Outcome::Accepted(i32::MIN));
    assert_eq!(c.attempt("2147483647"), Outcome::Accepted(i32::MAX));
    assert_eq!(
        c.attempt("2147483648"),
        Outcome::Malformed("Format error: number too large to fit in target type".to_string())
    );
    assert_eq!(
        c.attempt("-2147483649"),
        Outcome::Malformed("Format error: number too small to fit in target type".to_string())
    );
    assert!(matches!(c.attempt("-"), Outcome::Malformed(_)));
}

#[test]
fn judge_frames_read_failures() {
    let c = Input::<String>::new("Name");
    assert_eq!(
        c.judge(Err("stream closed".to_string())),
        Outcome::Malformed("Format error: stream closed".to_string())
    );
}

#[test]
fn no_accepted_line_shows_one_message_per_line() {
    let (result, shown) = Input::<u32>::new("Age").read_from(&lines(&["x", "", "-2"]));
    assert_eq!(result, None);
    assert_eq!(shown.len(), 3);
    let (result, shown) = Input::<u32>::new("Age").read_from(&Vec::new());
    assert_eq!(result, None);
    assert!(shown.is_empty());
}

#[test]
fn trim_line_strips_both_ends_only() {
    assert_eq!(trim_line("  a b \r\n"), "a b");
    assert_eq!(trim_line("\u{3000}x\u{a0}"), "x");
    assert_eq!(trim_line("   "), "");
}
