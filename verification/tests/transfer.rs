// The queries, the key header, the .part file and the whole-transfer check.

use internetdata::error::{IoFailureKind, Origin};
use internetdata::transfer::{
    after_publish, after_stream, assert_whole_transfer, authorization, downloads_query, file_query,
    initial_capacity, metadata_query, partial_path, trim_trailing_slashes, DownloadStep,
    TransferProgress,
};
use internetdata::transfer::{answer, download_link, request_authorization, endpoint, Answer, DownloadLink, LIST};
use internetdata::{Error, ErrorKind, Format};

#[test]
fn the_partial_file_keeps_the_real_extension() {
    assert_eq!(partial_path("bogon_ip_v1.csv.gz"), "bogon_ip_v1.csv.gz.part");
    assert_eq!(partial_path("/tmp/x/bogon_ip.mmdb"), "/tmp/x/bogon_ip.mmdb.part");
    assert_eq!(partial_path(""), ".part");
}

#[test]
fn a_short_transfer_fails_as_a_retryable_early_end() {
    let err = assert_whole_transfer(Some(4096), 1024).expect_err("short");
    assert_eq!(err.kind(), ErrorKind::Io);
    assert!(err.retryable());
    assert_eq!(err.message(), "the transfer ended after 1024 of 4096 bytes");
    match err {
        Error::Io(failure) => assert_eq!(failure.kind, IoFailureKind::UnexpectedEof),
        other => panic!("{other:?}"),
    }
}

#[test]
fn a_whole_or_undeclared_transfer_passes() {
    assert!(assert_whole_transfer(Some(760), 760).is_ok());
    assert!(assert_whole_transfer(None, 0).is_ok());
    assert!(assert_whole_transfer(None, 12345).is_ok());
    assert!(assert_whole_transfer(Some(10), 11).is_err());
}

#[test]
fn progress_counts_chunks_against_the_declared_length() {
    let mut progress = TransferProgress::start(Some(14336));
    for _ in 0..14 {
        progress.record_chunk(1024);
    }
    assert_eq!(progress.written, 14336);
    assert_eq!(progress.finish().expect("whole"), 14336);

    let mut short = TransferProgress::start(Some(57344));
    short.record_chunk(14336);
    let err = short.finish().expect_err("short");
    assert_eq!(err.message(), "the transfer ended after 14336 of 57344 bytes");
}

#[test]
fn a_download_publishes_only_a_whole_stream_and_discards_anything_else() {
    match after_stream(Ok(760)) {
        DownloadStep::Publish(written) => assert_eq!(written, 760),
        other => panic!("{other:?}"),
    }
    match after_stream(assert_whole_transfer(Some(4), 1).map(|()| 1)) {
        DownloadStep::Discard(err) => assert!(err.retryable()),
        other => panic!("{other:?}"),
    }
    match after_publish(760, Ok(())) {
        DownloadStep::Finish(written) => assert_eq!(written, 760),
        other => panic!("{other:?}"),
    }
    match after_publish(760, Err(Error::Network("rename".to_string()))) {
        DownloadStep::Discard(err) => assert_eq!(err.message(), "rename"),
        other => panic!("{other:?}"),
    }
}

#[test]
fn the_file_query_names_the_id_and_the_wire_format() {
    let query = file_query("bogon_ip_v1", Format::Mmdb);
    assert_eq!(
        query,
        vec![("id".to_string(), "bogon_ip_v1".to_string()), ("format".to_string(), "mmdb".to_string())]
    );
    assert_eq!(metadata_query("bogon_asn_v1"), vec![("id".to_string(), "bogon_asn_v1".to_string())]);
}

#[test]
fn no_limit_sends_no_limit_and_a_limit_is_sent_in_decimal() {
    assert!(downloads_query(None).is_empty());
    assert_eq!(downloads_query(Some(2)), vec![("limit".to_string(), "2".to_string())]);
    assert_eq!(downloads_query(Some(200)), vec![("limit".to_string(), "200".to_string())]);
    assert_eq!(downloads_query(Some(0)), vec![("limit".to_string(), "0".to_string())]);
}

#[test]
fn the_key_travels_as_a_bearer_token_and_an_empty_key_as_nothing() {
    assert_eq!(authorization(Some("test-api-key-never-real")), Some("Bearer test-api-key-never-real".to_string()));
    assert_eq!(authorization(Some("")), None);
    assert_eq!(authorization(None), None);
}

#[test]
fn trailing_slashes_are_trimmed_and_nothing_else() {
    assert_eq!(trim_trailing_slashes("https://internetdata.io///"), "https://internetdata.io");
    assert_eq!(trim_trailing_slashes("https://internetdata.io"), "https://internetdata.io");
    assert_eq!(trim_trailing_slashes("///"), "");
    assert_eq!(trim_trailing_slashes("a/b"), "a/b");
}

#[test]
fn an_in_memory_download_reserves_the_declared_length() {
    assert_eq!(initial_capacity(Some(264)), 264);
    assert_eq!(initial_capacity(None), 0);
}

#[test]
fn a_path_is_appended_to_the_base_url() {
    assert_eq!(endpoint("https://internetdata.io", LIST), "https://internetdata.io/api/v2/database/list");
}

#[test]
fn a_status_is_answered_by_its_class() {
    assert_eq!(answer(200), Answer::Success);
    assert_eq!(answer(204), Answer::Success);
    assert_eq!(answer(302), Answer::Redirect);
    assert_eq!(answer(403), Answer::Refusal);
    assert_eq!(answer(503), Answer::Refusal);
    assert_eq!(answer(101), Answer::Refusal);
}

#[test]
fn the_download_endpoint_hands_back_its_redirect() {
    let location = "https://s3.example/files/bogon_ip_v1.csv.gz?X-Amz-Signature=presigned".to_string();
    match download_link(302, Some(location.clone())) {
        DownloadLink::Link(url) => assert_eq!(url, location),
        other => panic!("{other:?}"),
    }
    match download_link(200, None) {
        DownloadLink::Failed(err) => assert!(err.message().contains("redirect::Policy::none"), "{}", err.message()),
        other => panic!("{other:?}"),
    }
    match download_link(302, None) {
        DownloadLink::Failed(err) => assert_eq!(err.kind(), ErrorKind::Network),
        other => panic!("{other:?}"),
    }
    assert!(matches!(download_link(403, Some(location)), DownloadLink::Refused));
}

#[test]
fn object_storage_never_gets_the_key() {
    let key = Some("test-api-key-never-real");
    assert_eq!(request_authorization(Origin::ObjectStorage, key), None);
    assert_eq!(request_authorization(Origin::Api, key), Some("Bearer test-api-key-never-real".to_string()));
    assert_eq!(request_authorization(Origin::Api, Some("")), None);
}
