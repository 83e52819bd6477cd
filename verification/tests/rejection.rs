//! Values of the variable that are no RFC 3339 timestamp.

use ensoulment::{generate, moment_from_env, select_moment, EnsoulmentBuildError};

const PREAMBLE: &str =
    "An $ENSOULMENT_TIMESTAMP variable was given, but it was not a valid rfc3339 timestamp. Error: ";

fn refusal(timestamp: &str) -> EnsoulmentBuildError {
    match generate(Some(timestamp)) {
        Ok(fragment) => panic!("built {}", fragment),
        Err(error) => error,
    }
}

fn parser_words(timestamp: &str) -> String {
    match chrono::DateTime::parse_from_rfc3339(timestamp) {
        Ok(read) => panic!("read {}", read),
        Err(error) => error.to_string(),
    }
}

#[test]
fn rejects_text_that_is_no_date() {
    let error = refusal("not-a-date");
    assert_eq!(error.message(), format!("{}{}", PREAMBLE, parser_words("not-a-date")));
    assert_eq!(error.message(), format!("{}premature end of input", PREAMBLE));
}

#[test]
fn rejects_a_thirteenth_month() {
    let error = refusal("2020-13-01T00:00:00Z");
    assert_eq!(
        error.message(),
        format!("{}{}", PREAMBLE, parser_words("2020-13-01T00:00:00Z"))
    );
    assert_eq!(error.message(), format!("{}input is out of range", PREAMBLE));
}

#[test]
fn rejects_a_timestamp_without_offset() {
    let error = refusal("2020-01-01 10:00:00");
    assert_eq!(
        error.message(),
        format!("{}{}", PREAMBLE, parser_words("2020-01-01 10:00:00"))
    );
    assert!(error.message().starts_with(PREAMBLE));
}

#[test]
fn rejects_trailing_text() {
    let error = refusal("2020-01-01T10:00:00-04:00 ");
    assert_eq!(error.message(), format!("{}trailing input", PREAMBLE));
}

#[test]
fn rejects_letters_among_the_digits() {
    let error = refusal("2020-0a-01T10:00:00-04:00");
    assert_eq!(error.message(), format!("{}input contains invalid characters", PREAMBLE));
}

#[test]
fn rejection_names_the_parser_error_as_its_source() {
    let error = refusal("garbage");
    let expected = chrono::DateTime::parse_from_rfc3339("garbage").unwrap_err();
    assert_eq!(error.source(), Some(&expected));
    let EnsoulmentBuildError::EnvParseError(inner) = error.clone();
    assert_eq!(inner, expected);
    assert_eq!(inner.kind(), chrono::format::ParseErrorKind::TooShort);
    assert_eq!(error.clone().message(), error.message());
}

#[test]
fn rejection_is_made_from_a_parser_error() {
    let cause = chrono::DateTime::parse_from_rfc3339("2020-13-01T00:00:00Z").unwrap_err();
    let error = EnsoulmentBuildError::from(cause);
    assert_eq!(error.source(), Some(&cause));
    assert_eq!(error.message(), format!("{}input is out of range", PREAMBLE));
}

#[test]
fn rejection_never_falls_back_on_the_clock() {
    assert!(select_moment(Some("not-a-date")).is_err());
    assert!(select_moment(Some("")).is_err());
    assert!(moment_from_env("2020-01-01 10:00:00").is_err());
    assert!(select_moment(None).is_ok());
}
