// How a refusal is classified, and what a failure reports about itself.

use internetdata::error::{IoFailure, IoFailureKind, Origin, Refusal, RetryAfter};
use internetdata::{Error, ErrorKind};

fn refused(status: u16, reason: Option<&str>, retry_after: Option<&str>) -> Error {
    Error::Refused(Refusal {
        origin: Origin::Api,
        status,
        reason: reason.map(str::to_owned),
        retry_after: RetryAfter::from_header(retry_after),
    })
}

#[test]
fn an_unknown_database_is_a_client_error_carrying_the_apis_reason() {
    let err = refused(404, Some("UNKNOWN_DATASET"), None);
    assert_eq!(err.kind(), ErrorKind::BadRequest);
    assert!(!err.retryable());
    assert_eq!(err.message(), "UNKNOWN_DATASET");
    assert_eq!(err.status(), Some(404));
}

#[test]
fn a_429_without_retry_after_is_a_spent_quota() {
    let err = refused(429, Some("QUOTA_EXCEEDED"), None);
    assert_eq!(err.kind(), ErrorKind::QuotaExceeded);
    assert!(!err.retryable());
    assert_eq!(err.retry_after(), None);
}

#[test]
fn a_429_with_retry_after_is_a_rate_limit() {
    let err = refused(429, Some("RATE_LIMITED"), Some("1"));
    assert_eq!(err.kind(), ErrorKind::RateLimited);
    assert!(err.retryable());
    assert_eq!(err.retry_after(), Some(1));
}

#[test]
fn a_retry_after_past_its_bound_is_still_a_throttle_waited_on_the_schedule() {
    for value in ["2147484", "9223372036854775807", "Fri, 31 Dec 9999 23:59:59 GMT"] {
        let err = refused(429, Some("RATE_LIMITED"), Some(value));
        assert_eq!(err.kind(), ErrorKind::RateLimited, "{value}");
        assert!(err.retryable(), "{value}");
        assert_eq!(err.retry_after(), None, "{value}");
    }
    let err = refused(429, Some("RATE_LIMITED"), Some("2147483"));
    assert_eq!(err.retry_after(), Some(2147483));
}

#[test]
fn a_retry_after_past_u64_never_parses() {
    assert_eq!(RetryAfter::from_header(Some("18446744073709551616")), RetryAfter::Absent);
    let err = refused(429, Some("RATE_LIMITED"), Some("18446744073709551616"));
    assert_eq!(err.kind(), ErrorKind::QuotaExceeded);
    assert!(!err.retryable());
}

#[test]
fn retry_after_headers_read_as_the_spec_says() {
    assert_eq!(RetryAfter::from_header(None), RetryAfter::Absent);
    assert_eq!(RetryAfter::from_header(Some("0")), RetryAfter::Seconds(0));
    assert_eq!(RetryAfter::from_header(Some("18446744073709551615")), RetryAfter::PastCeiling);
    assert_eq!(RetryAfter::from_header(Some("")), RetryAfter::PastCeiling);
}

#[test]
fn each_status_is_classified() {
    let cases = [
        (400, ErrorKind::BadRequest, false),
        (401, ErrorKind::Unauthorized, false),
        (403, ErrorKind::Forbidden, false),
        (404, ErrorKind::BadRequest, false),
        (500, ErrorKind::ServerError, true),
        (503, ErrorKind::ServerError, true),
        (302, ErrorKind::ServerError, true),
    ];
    for (status, kind, retryable) in cases {
        let err = refused(status, None, None);
        assert_eq!(err.kind(), kind, "{status}");
        assert_eq!(err.retryable(), retryable, "{status}");
    }
}

#[test]
fn a_refusal_without_a_reason_says_which_status_it_was() {
    assert_eq!(refused(503, None, None).message(), "request failed with status 503");
    assert_eq!(refused(503, Some(""), None).message(), "request failed with status 503");
}

#[test]
fn a_refused_download_link_names_object_storage_in_its_message() {
    let err = Error::Refused(Refusal {
        origin: Origin::ObjectStorage,
        status: 403,
        reason: None,
        retry_after: RetryAfter::Absent,
    });
    assert_eq!(err.kind(), ErrorKind::Forbidden);
    assert_eq!(err.message(), "object storage refused the download link with status 403");
}

#[test]
fn transport_and_io_failures_are_classified() {
    let timeout = Error::Network("operation timed out".to_string());
    assert_eq!(timeout.kind(), ErrorKind::Network);
    assert!(timeout.retryable());
    assert_eq!(timeout.message(), "operation timed out");

    let eof = Error::Io(IoFailure { kind: IoFailureKind::UnexpectedEof, message: "short".to_string() });
    assert_eq!(eof.kind(), ErrorKind::Io);
    assert!(eof.retryable());

    let disk = Error::Io(IoFailure { kind: IoFailureKind::Other, message: "disk full".to_string() });
    assert_eq!(disk.kind(), ErrorKind::Io);
    assert!(!disk.retryable());
    assert_eq!(disk.message(), "disk full");
}

#[test]
fn error_kinds_are_spelled_in_snake_case() {
    let pairs = [
        (ErrorKind::BadRequest, "bad_request"),
        (ErrorKind::Unauthorized, "unauthorized"),
        (ErrorKind::Forbidden, "forbidden"),
        (ErrorKind::RateLimited, "rate_limited"),
        (ErrorKind::QuotaExceeded, "quota_exceeded"),
        (ErrorKind::ServerError, "server_error"),
        (ErrorKind::Network, "network"),
        (ErrorKind::Io, "io"),
    ];
    for (kind, wire) in pairs {
        assert_eq!(kind.as_str(), wire);
    }
}

#[test]
fn a_refusal_is_read_from_its_body_and_headers() {
    let r = Refusal::read(Origin::Api, 404, br#"{"rc":"UNKNOWN_DATASET"}"#, None);
    assert_eq!(r.status, 404);
    assert_eq!(r.reason.as_deref(), Some("UNKNOWN_DATASET"));
    assert_eq!(r.retry_after, RetryAfter::Absent);

    let r = Refusal::read(Origin::Api, 429, br#"{"rc":"RATE_LIMITED"}"#, Some("1"));
    assert_eq!(r.retry_after, RetryAfter::Seconds(1));
    assert_eq!(Error::Refused(r).kind(), ErrorKind::RateLimited);

    let r = Refusal::read(Origin::ObjectStorage, 403, b"<Error><Code>AccessDenied</Code></Error>", None);
    assert_eq!(r.reason, None);
    let r = Refusal::read(Origin::Api, 403, br#"{"rc":7}"#, None);
    assert_eq!(r.reason, None);
}

#[test]
fn a_timed_out_attempt_is_a_retryable_network_failure() {
    let err = Error::timed_out(300);
    assert_eq!(err.kind(), ErrorKind::Network);
    assert!(err.retryable());
    assert_eq!(err.message(), "the attempt timed out after 300 ms");
    assert!(err.message().contains("timed out"));
}
