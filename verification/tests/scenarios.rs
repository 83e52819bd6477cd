//! Whole builds: from the value of the variable to the moment that the
//! program reads.

use ensoulment::{ensoulment, generate, BuildMoment};

fn build(timestamp: &str) -> String {
    match generate(Some(timestamp)) {
        Ok(fragment) => fragment,
        Err(error) => panic!("the build was refused: {}", error.message()),
    }
}

fn built_moment(timestamp: &str) -> BuildMoment {
    let fragment = build(timestamp);
    match ensoulment(&fragment) {
        Some(moment) => moment,
        None => panic!("the fragment does not read back: {}", fragment),
    }
}

#[test]
fn build_with_offset_timestamp_embeds_it() {
    let moment = built_moment("2020-01-01T10:00:00-04:00");
    assert_eq!(moment.utc_seconds(), 1_577_887_200);
    assert_eq!(moment.subsec_nanos(), 0);
    assert_eq!(moment.offset_seconds(), -4 * 3600);
    assert_eq!(moment.to_rfc3339(), "2020-01-01T10:00:00-04:00");
}

#[test]
fn build_with_epoch_timestamp_embeds_it() {
    let moment = built_moment("1970-01-01T00:00:00+00:00");
    assert_eq!(moment.utc_seconds(), 0);
    assert_eq!(moment.subsec_nanos(), 0);
    assert_eq!(moment.offset_seconds(), 0);
    assert_eq!(moment.to_rfc3339(), "1970-01-01T00:00:00+00:00");
}

#[test]
fn build_keeps_the_fraction_of_a_second() {
    let moment = built_moment("2020-07-26T18:30:41.625771700-04:00");
    assert_eq!(moment.utc_seconds(), 1_595_802_641);
    assert_eq!(moment.subsec_nanos(), 625_771_700);
    assert_eq!(moment.offset_seconds(), -4 * 3600);
    assert_eq!(moment.to_rfc3339(), "2020-07-26T18:30:41.625771700-04:00");
}

#[test]
fn build_writes_the_exact_fragment() {
    assert_eq!(
        build("2020-01-01T10:00:00-04:00"),
        "::chrono::DateTime::parse_from_rfc3339(\"2020-01-01T10:00:00-04:00\").unwrap()"
    );
    assert_eq!(
        build("2020-07-26T18:30:41.625771700-04:00"),
        "::chrono::DateTime::parse_from_rfc3339(\"2020-07-26T18:30:41.625771700-04:00\").unwrap()"
    );
}

#[test]
fn build_without_timestamp_uses_the_wall_clock() {
    let before = chrono::Local::now();
    let fragment = match generate(None) {
        Ok(fragment) => fragment,
        Err(error) => panic!("the build was refused: {}", error.message()),
    };
    let after = chrono::Local::now();
    let moment = ensoulment(&fragment).expect("the fragment reads back");
    assert!(before.timestamp() <= moment.utc_seconds());
    assert!(moment.utc_seconds() <= after.timestamp());
    assert!(moment.subsec_nanos() < 1_000_000_000);
    let host_offset = before.offset().local_minus_utc();
    let expected = (host_offset + if host_offset < 0 { -30 } else { 30 }) / 60 * 60;
    assert_eq!(moment.offset_seconds(), expected);
}

#[test]
fn build_with_garbage_is_refused() {
    let error = match generate(Some("garbage")) {
        Ok(fragment) => panic!("built {}", fragment),
        Err(error) => error,
    };
    let message = error.message();
    assert!(message.contains("ENSOULMENT_TIMESTAMP"));
    assert!(message.contains("rfc3339"));
    assert_eq!(
        message,
        "An $ENSOULMENT_TIMESTAMP variable was given, but it was not a valid rfc3339 timestamp. \
         Error: premature end of input"
    );
}

#[test]
fn build_is_the_same_on_every_run() {
    let first = build("2020-01-01T10:00:00-04:00");
    let second = build("2020-01-01T10:00:00-04:00");
    assert_eq!(first, second);
    assert_eq!(ensoulment(&first), ensoulment(&second));
    assert_eq!(
        ensoulment(&first),
        BuildMoment::new(1_577_887_200, 0, -4 * 3600)
    );
}

#[test]
fn build_with_empty_timestamp_is_refused() {
    let error = match generate(Some("")) {
        Ok(fragment) => panic!("built {}", fragment),
        Err(error) => error,
    };
    assert!(error.message().contains("ENSOULMENT_TIMESTAMP"));
    assert!(error.message().ends_with("Error: premature end of input"));
}

#[test]
fn build_brings_a_timestamp_into_canonical_form() {
    let moment = built_moment("2020-01-01T10:00:00Z");
    assert_eq!(moment.offset_seconds(), 0);
    assert_eq!(moment.to_rfc3339(), "2020-01-01T10:00:00+00:00");
    let spaced = built_moment("2020-01-01 10:00:00.5+05:30");
    assert_eq!(spaced.offset_seconds(), 5 * 3600 + 30 * 60);
    assert_eq!(spaced.to_rfc3339(), "2020-01-01T10:00:00.500+05:30");
}
