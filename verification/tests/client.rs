// What the builder accepts, what it refuses, and what a built client sends with.

use internetdata::client::DEFAULT_RETRIES;
use internetdata::{Client, Error, ErrorKind, DEFAULT_BASE_URL};

#[test]
fn the_builder_rejects_an_unusable_base_url() {
    assert!(Client::builder().base_url("not a url".to_string()).build().is_err());
    assert!(Client::builder().base_url("/relative".to_string()).build().is_err());
    assert!(Client::builder().base_url("https://internetdata.io".to_string()).build().is_ok());
}

#[test]
fn a_client_with_nothing_set_talks_to_production_with_no_key() {
    let client = Client::new().expect("build");
    assert_eq!(client.base_url(), DEFAULT_BASE_URL);
    assert_eq!(client.base_url(), "https://internetdata.io");
    assert_eq!(client.api_key(), None);
    assert_eq!(client.retries(), DEFAULT_RETRIES);
    assert_eq!(client.retries(), 2);
}

#[test]
fn the_builder_carries_the_key_and_the_retry_budget() {
    let client = Client::builder()
        .api_key("test-api-key-never-real".to_string())
        .retries(4)
        .build()
        .expect("build");
    assert_eq!(client.api_key(), Some("test-api-key-never-real"));
    assert_eq!(client.retries(), 4);
}

#[test]
fn trailing_slashes_on_the_base_url_are_dropped() {
    for slashes in 1..=3 {
        let url = format!("http://127.0.0.1:8080{}", "/".repeat(slashes));
        let client = Client::builder().base_url(url).build().expect("build");
        assert_eq!(client.base_url(), "http://127.0.0.1:8080", "{slashes} slash(es)");
    }
}

#[test]
fn an_unparsable_base_url_is_a_config_error_naming_the_url() {
    let err = Client::builder().base_url("not a url".to_string()).build().expect_err("refused");
    match &err {
        Error::Config(message) => {
            assert!(message.starts_with("base url \"not a url\": "), "{message}");
            assert!(message.len() > "base url \"not a url\": ".len(), "{message}");
        }
        other => panic!("not a config error: {other:?}"),
    }
    assert_eq!(err.kind(), ErrorKind::BadRequest);
    assert!(!err.retryable());
    assert_eq!(err.status(), None);
}

#[test]
fn a_base_url_without_a_host_is_refused() {
    let err = Client::builder()
        .base_url("mailto:someone@example.com".to_string())
        .build()
        .expect_err("no host");
    match err {
        Error::Config(message) => {
            assert_eq!(message, "base url \"mailto:someone@example.com\" needs a scheme and a host")
        }
        other => panic!("not a config error: {other:?}"),
    }
}

#[test]
fn a_caller_supplied_http_client_is_used() {
    let client = Client::builder()
        .base_url("http://127.0.0.1:9".to_string())
        .http_client(reqwest::Client::new())
        .build()
        .expect("build");
    assert_eq!(client.base_url(), "http://127.0.0.1:9");
    let api = client.database();
    assert_eq!(api.client().base_url(), "http://127.0.0.1:9");
}

#[test]
fn a_zero_timeout_is_refused_at_build() {
    let err = Client::builder().timeout(0).build().expect_err("a zero timeout built");
    assert!(matches!(err, Error::Config(_)), "{err:?}");
    assert_eq!(err.message(), "timeout must be greater than zero");
}

#[test]
fn a_timeout_is_carried_to_the_client() {
    let client = Client::builder().timeout(300).build().expect("build");
    assert_eq!(client.timeout_ms(), Some(300));
    assert_eq!(Client::new().expect("build").timeout_ms(), None);
}

#[test]
fn the_default_http_client_follows_no_redirects_and_has_no_total_timeout() {
    let settings = internetdata::client::default_http_settings();
    assert!(!settings.follows_redirects);
    assert_eq!(settings.connect_timeout_secs, 10);
    assert_eq!(settings.read_timeout_secs, 30);
    assert_eq!(settings.user_agent, internetdata::client::USER_AGENT);
}
