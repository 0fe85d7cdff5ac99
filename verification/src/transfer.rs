//! The request and transfer details the database calls share: the query each
//! endpoint takes, the header that carries the key, the `.part` file a
//! download lands in, and the check that a transfer arrived whole.

use vstd::prelude::*;

use crate::decimal::{spelling, to_decimal};
use crate::error::{Error, IoFailure, IoFailureKind, Origin};
use crate::vocabulary::Format;

verus! {

pub const LIST: &'static str = "/api/v2/database/list";
pub const METADATA: &'static str = "/api/v2/database/metadata";
pub const CHECKSUM: &'static str = "/api/v2/database/checksum";
pub const DOWNLOADS: &'static str = "/api/v2/database/downloads";
pub const DOWNLOAD: &'static str = "/api/v2/database/download";

/// `path` with `.part` appended, rather than its extension replaced, which
/// would turn `bogon_ip_v1.csv.gz` into `bogon_ip_v1.csv.part`.
pub fn partial_path(path: &str) -> (partial: String)
    ensures
        partial@ == path@ + ".part"@,
{
    String::from_str(path).concat(".part")
}

pub open spec fn short_transfer_message(written: u64, want: u64) -> Seq<char> {
    "the transfer ended after "@ + spelling(written as nat) + " of "@ + spelling(want as nat) + " bytes"@
}

/// A backstop against a short transfer being written out as a whole database:
/// when the response declared a length and a different number of bytes
/// arrived, the transfer ended early, which is worth another attempt.
pub fn assert_whole_transfer(declared: Option<u64>, written: u64) -> (checked: Result<(), Error>)
    ensures
        match declared {
            Some(want) if want != written => checked matches Err(Error::Io(failure))
                && failure.kind == IoFailureKind::UnexpectedEof
                && failure.message@ == short_transfer_message(written, want),
            _ => checked is Ok,
        },
{
    match declared {
        Some(want) => {
            if want != written {
                let message = String::from_str("the transfer ended after ")
                    .concat(to_decimal(written).as_str())
                    .concat(" of ")
                    .concat(to_decimal(want).as_str())
                    .concat(" bytes");
                Err(Error::Io(IoFailure { kind: IoFailureKind::UnexpectedEof, message }))
            } else {
                Ok(())
            }
        },
        None => Ok(()),
    }
}

/// How much of a streamed transfer has arrived, against the length the
/// response declared.
#[derive(Clone, Copy, Debug, PartialEq, Eq, Structural)]
pub struct TransferProgress {
    pub declared: Option<u64>,
    pub written: u64,
}

/// What `finish` answers for a transfer: its byte count when it arrived
/// whole, or a short-transfer failure naming both counts.
pub open spec fn finished(progress: TransferProgress, total: Result<u64, Error>) -> bool {
    match progress.declared {
        Some(want) if want != progress.written => total matches Err(Error::Io(failure))
            && failure.kind == IoFailureKind::UnexpectedEof
            && failure.message@ == short_transfer_message(progress.written, want),
        _ => total == Ok::<u64, Error>(progress.written),
    }
}

impl TransferProgress {
    /// A transfer that has written nothing yet.
    pub fn start(declared: Option<u64>) -> (progress: TransferProgress)
        ensures
            progress.declared == declared,
            progress.written == 0,
    {
        TransferProgress { declared, written: 0 }
    }

    /// Counts one chunk that reached its destination.
    pub fn record_chunk(&mut self, len: u64)
        requires
            old(self).written + len <= u64::MAX,
        ensures
            final(self).declared == old(self).declared,
            final(self).written == old(self).written + len,
    {
        self.written = self.written + len;
    }

    /// The bytes written, once the body has ended, unless it ended short of
    /// (or past) the length the response declared.
    pub fn finish(&self) -> (total: Result<u64, Error>)
        ensures
            finished(*self, total),
    {
        match assert_whole_transfer(self.declared, self.written) {
            Ok(()) => Ok(self.written),
            Err(e) => Err(e),
        }
    }
}

/// How many bytes to reserve for an in-memory download: the declared length,
/// so a large database is allocated once rather than grown by doubling.
pub fn initial_capacity(declared: Option<u64>) -> (capacity: usize)
    ensures
        capacity == match declared {
            Some(n) => n as usize,
            None => 0usize,
        },
{
    match declared {
        Some(n) => n as usize,
        None => 0,
    }
}

/// What a download to disk does next. The bytes land in a `.part` file that
/// only replaces the destination once the whole transfer is on disk.
#[derive(Clone, Debug)]
pub enum DownloadStep {
    /// The whole transfer is in the `.part` file: rename it over the
    /// destination.
    Publish(u64),
    /// The destination holds the database: report the bytes written.
    Finish(u64),
    /// The transfer failed: remove the `.part` file, leave the destination as
    /// it was, and report the failure.
    Discard(Error),
}

pub open spec fn spec_after_stream(streamed: Result<u64, Error>) -> DownloadStep {
    match streamed {
        Ok(written) => DownloadStep::Publish(written),
        Err(e) => DownloadStep::Discard(e),
    }
}

/// What follows streaming the body into the `.part` file.
pub fn after_stream(streamed: Result<u64, Error>) -> (step: DownloadStep)
    ensures
        step == spec_after_stream(streamed),
{
    match streamed {
        Ok(written) => DownloadStep::Publish(written),
        Err(e) => DownloadStep::Discard(e),
    }
}

/// What follows renaming the `.part` file over the destination.
pub fn after_publish(written: u64, renamed: Result<(), Error>) -> (step: DownloadStep)
    ensures
        match renamed {
            Ok(()) => step == DownloadStep::Finish(written),
            Err(e) => step == DownloadStep::Discard(e),
        },
{
    match renamed {
        Ok(()) => DownloadStep::Finish(written),
        Err(e) => DownloadStep::Discard(e),
    }
}

/// A download only ever replaces the destination with a transfer that arrived
/// whole: the `.part` file is published only after a stream that reached the
/// length it declared, and a short stream is discarded with a failure that is
/// worth another attempt.
pub proof fn lemma_only_whole_transfers_are_published(progress: TransferProgress, total: Result<u64, Error>)
    requires
        finished(progress, total),
    ensures
        spec_after_stream(total) matches DownloadStep::Publish(written) ==> written == progress.written
            && (progress.declared is None || progress.declared == Some(written)),
        spec_after_stream(total) matches DownloadStep::Discard(e) ==> e.spec_retryable(),
{
}

/// The query naming one file of one database version, for a checksum or a
/// download: its id and the format's wire spelling.
pub fn file_query(id: &str, format: Format) -> (query: Vec<(String, String)>)
    ensures
        query@.len() == 2,
        query@[0].0@ == "id"@ && query@[0].1@ == id@,
        query@[1].0@ == "format"@ && query@[1].1@ == format.wire(),
{
    let mut query = Vec::new();
    query.push((String::from_str("id"), String::from_str(id)));
    query.push((String::from_str("format"), String::from_str(format.as_str())));
    query
}

/// The query naming one database version, for its metadata.
pub fn metadata_query(id: &str) -> (query: Vec<(String, String)>)
    ensures
        query@.len() == 1,
        query@[0].0@ == "id"@ && query@[0].1@ == id@,
{
    let mut query = Vec::new();
    query.push((String::from_str("id"), String::from_str(id)));
    query
}

/// The query of the download history. `None` sends no `limit` at all, so the
/// API's own default applies; a number is sent in decimal as given, and the
/// API clamps it.
pub fn downloads_query(limit: Option<u32>) -> (query: Vec<(String, String)>)
    ensures
        match limit {
            None => query@.len() == 0,
            Some(n) => query@.len() == 1 && query@[0].0@ == "limit"@ && query@[0].1@ == spelling(n as nat),
        },
{
    let mut query = Vec::new();
    match limit {
        Some(n) => {
            query.push((String::from_str("limit"), to_decimal(n as u64)));
        },
        None => {},
    }
    query
}

pub open spec fn spec_authorization(api_key: Option<Seq<char>>) -> Option<Seq<char>> {
    match api_key {
        Some(key) if key.len() > 0 => Some("Bearer "@ + key),
        _ => None,
    }
}

/// The `Authorization` header a request carries: the key as a bearer token,
/// or no header at all when there is no key or the key is empty.
pub fn authorization(api_key: Option<&str>) -> (header: Option<String>)
    ensures
        match header {
            Some(value) => spec_authorization(
                match api_key {
                    Some(key) => Some(key@),
                    None => None,
                },
            ) == Some(value@),
            None => spec_authorization(
                match api_key {
                    Some(key) => Some(key@),
                    None => None,
                },
            ) is None,
        },
{
    match api_key {
        Some(key) => {
            if key.unicode_len() > 0 {
                Some(String::from_str("Bearer ").concat(key))
            } else {
                None
            }
        },
        None => None,
    }
}

/// The URL of an API path: the client's base URL with the path appended.
pub fn endpoint(base: &str, path: &str) -> (url: String)
    ensures
        url@ == base@ + path@,
{
    String::from_str(base).concat(path)
}

/// A path appended to a base URL without a trailing `/` is joined by exactly
/// one `/`: none is doubled, none goes missing.
pub proof fn lemma_paths_are_joined_by_one_slash(base: Seq<char>, path: Seq<char>)
    requires
        !ends_with_slash(base),
        path.len() > 0,
        path[0] == '/',
    ensures
        (base + path)[base.len() as int] == '/',
        base.len() > 0 ==> (base + path)[base.len() - 1] != '/',
{
}

/// How a response's status is answered.
#[derive(Clone, Copy, Debug, PartialEq, Eq, Structural)]
pub enum Answer {
    /// 2xx: the body is the answer.
    Success,
    /// 3xx: the `Location` is the answer.
    Redirect,
    /// Anything else is a refusal.
    Refusal,
}

pub open spec fn spec_answer(status: u16) -> Answer {
    if 200 <= status <= 299 {
        Answer::Success
    } else if 300 <= status <= 399 {
        Answer::Redirect
    } else {
        Answer::Refusal
    }
}

/// How a response with `status` is answered.
pub fn answer(status: u16) -> (how: Answer)
    ensures
        how == spec_answer(status),
{
    if 200 <= status && status <= 299 {
        Answer::Success
    } else if 300 <= status && status <= 399 {
        Answer::Redirect
    } else {
        Answer::Refusal
    }
}

/// What the download endpoint's response comes to.
#[derive(Clone, Debug)]
pub enum DownloadLink {
    /// The presigned link the API redirected to.
    Link(String),
    /// A response that is neither a link nor a refusal.
    Failed(Error),
    /// A refusal, to be read from the response.
    Refused,
}

pub open spec fn followed_redirect_message() -> Seq<char> {
    "the HTTP client followed the download redirect; build it with reqwest::redirect::Policy::none()"@
}

pub open spec fn missing_location_message() -> Seq<char> {
    "the download redirect carried no Location"@
}

/// Reads the download endpoint's answer. Its 302 is the answer, and the link
/// is handed back rather than followed; a 2xx means a caller-supplied HTTP
/// client followed it anyway, which is refused rather than obeyed.
pub fn download_link(status: u16, location: Option<String>) -> (link: DownloadLink)
    ensures
        match spec_answer(status) {
            Answer::Redirect => match location {
                Some(url) => link matches DownloadLink::Link(l) && l@ == url@,
                None => link matches DownloadLink::Failed(Error::Network(m)) && m@ == missing_location_message(),
            },
            Answer::Success => link matches DownloadLink::Failed(Error::Config(m)) && m@ == followed_redirect_message(),
            Answer::Refusal => link matches DownloadLink::Refused,
        },
{
    match answer(status) {
        Answer::Redirect => match location {
            Some(url) => DownloadLink::Link(url),
            None => DownloadLink::Failed(Error::Network(String::from_str("the download redirect carried no Location"))),
        },
        Answer::Success => DownloadLink::Failed(
            Error::Config(
                String::from_str(
                    "the HTTP client followed the download redirect; build it with reqwest::redirect::Policy::none()",
                ),
            ),
        ),
        Answer::Refusal => DownloadLink::Refused,
    }
}

/// The `Authorization` header a request to `origin` carries: the key as a
/// bearer token on a request to the API, and never any on a request to object
/// storage, whose presigned link authorizes itself.
pub fn request_authorization(origin: Origin, api_key: Option<&str>) -> (header: Option<String>)
    ensures
        origin == Origin::ObjectStorage ==> header is None,
        origin == Origin::Api ==> match header {
            Some(value) => spec_authorization(
                match api_key {
                    Some(key) => Some(key@),
                    None => None,
                },
            ) == Some(value@),
            None => spec_authorization(
                match api_key {
                    Some(key) => Some(key@),
                    None => None,
                },
            ) is None,
        },
{
    match origin {
        Origin::Api => authorization(api_key),
        Origin::ObjectStorage => None,
    }
}

pub open spec fn ends_with_slash(text: Seq<char>) -> bool {
    text.len() > 0 && text.last() == '/'
}

/// `text` with every trailing `/` removed.
pub open spec fn without_trailing_slashes(text: Seq<char>) -> Seq<char>
    decreases text.len(),
{
    if ends_with_slash(text) {
        without_trailing_slashes(text.drop_last())
    } else {
        text
    }
}

/// Removes every trailing `/`, so that a path appended after it is never
/// doubled.
pub fn trim_trailing_slashes(text: &str) -> (trimmed: String)
    ensures
        trimmed@ == without_trailing_slashes(text@),
{
    let len = text.unicode_len();
    let mut end = len;
    proof {
        assert(text@.take(len as int) =~= text@);
    }
    while end > 0 && text.get_char(end - 1) == '/'
        invariant
            len == text@.len(),
            end <= len,
            without_trailing_slashes(text@) == without_trailing_slashes(text@.take(end as int)),
        decreases end,
    {
        proof {
            assert(text@.take(end as int).drop_last() =~= text@.take(end - 1));
        }
        end = end - 1;
    }
    proof {
        if end == 0 {
            assert(text@.take(0) =~= Seq::<char>::empty());
        } else {
            assert(text@.take(end as int).last() == text@[end - 1]);
        }
    }
    let kept = text.substring_char(0, end);
    proof {
        assert(kept@ =~= text@.take(end as int));
    }
    String::from_str(kept)
}

/// After trimming, the text no longer ends with `/`, and the trimmed text is
/// what was there before the slashes.
pub proof fn lemma_trimmed_has_no_trailing_slash(text: Seq<char>)
    ensures
        !ends_with_slash(without_trailing_slashes(text)),
        text.len() >= without_trailing_slashes(text).len(),
        text.take(without_trailing_slashes(text).len() as int) == without_trailing_slashes(text),
        forall|i: int| without_trailing_slashes(text).len() <= i < text.len() ==> text[i] == '/',
    decreases text.len(),
{
    if ends_with_slash(text) {
        lemma_trimmed_has_no_trailing_slash(text.drop_last());
        let t = without_trailing_slashes(text);
        assert(text.take(t.len() as int) =~= text.drop_last().take(t.len() as int));
        assert forall|i: int| t.len() <= i < text.len() implies text[i] == '/' by {
            if i < text.len() - 1 {
                assert(text[i] == text.drop_last()[i]);
            }
        }
    } else {
        assert(text.take(text.len() as int) =~= text);
    }
}

/// `finish` accepts every transfer that arrived whole, whatever its size:
/// with no declared length, or with the declared length equal to the bytes
/// written, the answer is those bytes; and it refuses every other one as an
/// early end.
pub proof fn lemma_finish_accepts_exactly_the_whole_transfers(progress: TransferProgress, total: Result<u64, Error>)
    requires
        finished(progress, total),
    ensures
        (progress.declared is None || progress.declared == Some(progress.written)) ==> total == Ok::<
            u64,
            Error,
        >(progress.written),
        (progress.declared matches Some(want) && want != progress.written) ==> (total matches Err(
            Error::Io(failure),
        ) && failure.kind == IoFailureKind::UnexpectedEof),
{
}

/// Only a 2xx status is a success, only a 3xx a redirect, and every other
/// status, every 4xx and 5xx among them, a refusal.
pub proof fn lemma_statuses_are_answered_by_their_class(status: u16)
    ensures
        spec_answer(status) == Answer::Success <==> 200 <= status <= 299,
        spec_answer(status) == Answer::Redirect <==> 300 <= status <= 399,
        400 <= status <= 599 ==> spec_answer(status) == Answer::Refusal,
        status < 200 ==> spec_answer(status) == Answer::Refusal,
{
}

/// The key travels as `Bearer ` followed by the key itself, and an absent or
/// empty key sends no header at all.
pub proof fn lemma_the_key_travels_as_a_bearer_token(key: Option<Seq<char>>)
    ensures
        key is Some && key->Some_0.len() > 0 ==> spec_authorization(key) == Some("Bearer "@ + key->Some_0),
        (key is None || key->Some_0.len() == 0) ==> spec_authorization(key) is None,
{
}

/// A short transfer's message names the bytes that arrived and the bytes
/// declared, in decimal.
pub proof fn lemma_a_short_transfer_names_both_counts(written: u64, want: u64)
    ensures
        short_transfer_message(written, want) == "the transfer ended after "@ + spelling(written as nat) + " of "@
            + spelling(want as nat) + " bytes"@,
{
}

} // verus!
