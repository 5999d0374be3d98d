use nimbus::error::{FetchError, InputFault};
use nimbus::text::{chars_of, decimal_text, signed_decimal_text};

#[test]
fn numbers_are_written_in_decimal() {
    assert_eq!(decimal_text(0), "0");
    assert_eq!(decimal_text(7), "7");
    assert_eq!(decimal_text(10), "10");
    assert_eq!(decimal_text(1234567890), "1234567890");
    assert_eq!(decimal_text(u64::MAX), "18446744073709551615");
}

#[test]
fn negative_numbers_carry_a_sign() {
    assert_eq!(signed_decimal_text(0), "0");
    assert_eq!(signed_decimal_text(-1), "-1");
    assert_eq!(signed_decimal_text(42), "42");
    assert_eq!(signed_decimal_text(i64::MAX), "9223372036854775807");
    assert_eq!(signed_decimal_text(i64::MIN), "-9223372036854775808");
}

#[test]
fn characters_come_in_order() {
    assert_eq!(chars_of("a\u{e9}z"), vec!['a', '\u{e9}', 'z']);
    assert_eq!(chars_of(""), Vec::<char>::new());
}

#[test]
fn every_failure_has_its_sentence() {
    assert_eq!(
        FetchError::InvalidInput(InputFault::MissingQuestionId).message(),
        "invalid stack overflow URL: missing question id"
    );
    assert_eq!(
        FetchError::InvalidInput(InputFault::MissingSubmissionId).message(),
        "invalid reddit URL: missing comment/submission id in path"
    );
    assert_eq!(
        FetchError::UpstreamEmpty("12345".to_string()).message(),
        "the source returned no item with this ID: 12345"
    );
    assert_eq!(FetchError::UpstreamFailure("connection reset".to_string()).message(), "connection reset");
    assert_eq!(
        FetchError::NotFound("/srv/mdn/x/index.md".to_string()).message(),
        "unable to find MDN content at path: /srv/mdn/x/index.md"
    );
    assert_eq!(InputFault::MalformedUrl.message(), "failed to parse url as URL");
}

#[test]
fn the_callers_faults_are_told_from_the_sources() {
    assert!(FetchError::InvalidInput(InputFault::MalformedUrl).is_callers_fault());
    assert!(FetchError::InvalidInput(InputFault::MissingHost).is_callers_fault());
    assert!(FetchError::InvalidInput(InputFault::MissingQuestionId).is_callers_fault());
    assert!(FetchError::InvalidInput(InputFault::MissingSubmissionId).is_callers_fault());
    assert!(FetchError::UnsupportedHost("example.com".to_string()).is_callers_fault());
    assert!(!FetchError::UpstreamEmpty("1".to_string()).is_callers_fault());
    assert!(!FetchError::UpstreamFailure("reset".to_string()).is_callers_fault());
    assert!(!FetchError::NotFound("/x".to_string()).is_callers_fault());
    assert!(!FetchError::UnsupportedHost("example.com".to_string()).is_invalid_input());
}
