//! What a failed call reports: a kind, whether another attempt is worth it,
//! the status and reason the server gave, and how long it asked to be left.

use vstd::prelude::*;

use crate::decimal::{all_digits, parse_decimal, spelling, to_decimal, value};

verus! {

/// The broad class of a failure.
#[derive(Clone, Copy, Debug, PartialEq, Eq, Hash, Structural)]
pub enum ErrorKind {
    BadRequest,
    Unauthorized,
    Forbidden,
    RateLimited,
    QuotaExceeded,
    ServerError,
    Network,
    Io,
}

impl ErrorKind {
    pub open spec fn wire(self) -> Seq<char> {
        match self {
            ErrorKind::BadRequest => "bad_request"@,
            ErrorKind::Unauthorized => "unauthorized"@,
            ErrorKind::Forbidden => "forbidden"@,
            ErrorKind::RateLimited => "rate_limited"@,
            ErrorKind::QuotaExceeded => "quota_exceeded"@,
            ErrorKind::ServerError => "server_error"@,
            ErrorKind::Network => "network"@,
            ErrorKind::Io => "io"@,
        }
    }

    /// The spelling every InternetData SDK uses for this kind.
    pub fn as_str(self) -> (spelling: &'static str)
        ensures
            spelling@ == self.wire(),
    {
        match self {
            ErrorKind::BadRequest => "bad_request",
            ErrorKind::Unauthorized => "unauthorized",
            ErrorKind::Forbidden => "forbidden",
            ErrorKind::RateLimited => "rate_limited",
            ErrorKind::QuotaExceeded => "quota_exceeded",
            ErrorKind::ServerError => "server_error",
            ErrorKind::Network => "network",
            ErrorKind::Io => "io",
        }
    }
}

/// The longest `Retry-After`, in seconds, that is waited out as given:
/// 2^31 - 1 milliseconds, rounded down to whole seconds.
pub const RETRY_AFTER_CEILING_SECS: u64 = 2147483;

/// What a response's `Retry-After` header says.
#[derive(Clone, Copy, Debug, PartialEq, Eq, Structural)]
pub enum RetryAfter {
    /// No header, or a number too large for a `u64`: no throttle was named.
    Absent,
    /// A wait the server named, in seconds, within the ceiling.
    Seconds(u64),
    /// A throttle whose named wait is past the ceiling, or is given as a date,
    /// and is waited out on the client's own backoff.
    PastCeiling,
}

impl RetryAfter {
    pub open spec fn read(header: Option<Seq<char>>) -> RetryAfter {
        match header {
            None => RetryAfter::Absent,
            Some(text) => if all_digits(text) {
                if value(text) > u64::MAX {
                    RetryAfter::Absent
                } else if value(text) <= RETRY_AFTER_CEILING_SECS {
                    RetryAfter::Seconds(value(text) as u64)
                } else {
                    RetryAfter::PastCeiling
                }
            } else {
                RetryAfter::PastCeiling
            },
        }
    }

    /// Reads a `Retry-After` header value, if the response had one.
    pub fn from_header(header: Option<&str>) -> (read: RetryAfter)
        ensures
            read == RetryAfter::read(
                match header {
                    Some(text) => Some(text@),
                    None => None,
                },
            ),
    {
        match header {
            None => RetryAfter::Absent,
            Some(text) => {
                let digits_only = text.unicode_len() > 0 && Self::only_digits(text);
                if digits_only {
                    match parse_decimal(text) {
                        None => RetryAfter::Absent,
                        Some(secs) => if secs <= RETRY_AFTER_CEILING_SECS {
                            RetryAfter::Seconds(secs)
                        } else {
                            RetryAfter::PastCeiling
                        },
                    }
                } else {
                    RetryAfter::PastCeiling
                }
            },
        }
    }

    fn only_digits(text: &str) -> (all: bool)
        ensures
            all <==> forall|i: int| 0 <= i < text@.len() ==> crate::decimal::is_digit(#[trigger] text@[i]),
    {
        let len = text.unicode_len();
        let mut i: usize = 0;
        while i < len
            invariant
                len == text@.len(),
                0 <= i <= len,
                forall|j: int| 0 <= j < i ==> crate::decimal::is_digit(#[trigger] text@[j]),
            decreases len - i,
        {
            let c = text.get_char(i);
            if !('0' <= c && c <= '9') {
                return false;
            }
            i = i + 1;
        }
        true
    }

    /// Whether the server named a throttle at all.
    pub open spec fn names_a_throttle(self) -> bool {
        !(self is Absent)
    }
}

/// Which server refused.
#[derive(Clone, Copy, Debug, PartialEq, Eq, Structural)]
pub enum Origin {
    /// The InternetData API itself.
    Api,
    /// Object storage, refusing the presigned link the API handed out.
    ObjectStorage,
}

/// A refusal answered with an HTTP status.
#[derive(Clone, Debug)]
pub struct Refusal {
    pub origin: Origin,
    pub status: u16,
    /// The API's own reason (`rc`), such as `NOT_LICENSED`, when the body had one.
    pub reason: Option<String>,
    pub retry_after: RetryAfter,
}

/// How a local read or write failed.
#[derive(Clone, Copy, Debug, PartialEq, Eq, Structural)]
pub enum IoFailureKind {
    /// A transfer that ended before the length it declared.
    UnexpectedEof,
    /// Anything else: a file that could not be created, written or renamed.
    Other,
}

/// A transfer that could not be written, or that ended early.
#[derive(Clone, Debug)]
pub struct IoFailure {
    pub kind: IoFailureKind,
    pub message: String,
}

/// A failed call.
#[derive(Clone, Debug)]
pub enum Error {
    /// A server answered with a refusal.
    Refused(Refusal),
    /// The request never got an answer: a connection, timeout or decoding failure.
    Network(String),
    /// A database transfer that could not be written or that ended early.
    Io(IoFailure),
    /// The client was configured with something it cannot use.
    Config(String),
}

/// The kind a refusal is classified as, from its status and whether a
/// throttle was named. The two 429s differ only by `Retry-After`, and every
/// other 4xx is the caller's error rather than the server's.
pub open spec fn kind_of_status(status: u16, retry_after: RetryAfter) -> ErrorKind {
    if status == 401 {
        ErrorKind::Unauthorized
    } else if status == 403 {
        ErrorKind::Forbidden
    } else if status == 429 {
        if retry_after.names_a_throttle() {
            ErrorKind::RateLimited
        } else {
            ErrorKind::QuotaExceeded
        }
    } else if 400 <= status && status <= 499 {
        ErrorKind::BadRequest
    } else {
        ErrorKind::ServerError
    }
}

pub open spec fn kind_is_retryable(kind: ErrorKind) -> bool {
    kind == ErrorKind::RateLimited || kind == ErrorKind::ServerError || kind == ErrorKind::Network
}

pub open spec fn timed_out_message(millis: u64) -> Seq<char> {
    "the attempt timed out after "@ + spelling(millis as nat) + " ms"@
}

/// The member `member` of the JSON object `body` holds, when `body` parses as
/// a JSON object and that member is a string.
pub uninterp spec fn json_string_member(body: Seq<u8>, member: Seq<char>) -> Option<Seq<char>>;

/// Parses `body` with `serde_json::from_slice` into a `serde_json::Value` and,
/// when it is an object, reads `member` from its map with `Map::get`; a string
/// member comes back as its text, anything else as `None`. The contract
/// claims only that the outcome is a function of the body and the member name.
#[verifier::external_body]
fn read_json_string_member(body: &[u8], member: &str) -> (text: Option<String>)
    ensures
        json_string_member(body@, member@) == match text {
            Some(t) => Some(t@),
            None => None,
        },
{
    match serde_json::from_slice::<serde_json::Value>(body) {
        Ok(serde_json::Value::Object(map)) => match map.get(member) {
            Some(serde_json::Value::String(text)) => Some(text.clone()),
            _ => None,
        },
        _ => None,
    }
}

impl Refusal {
    /// A refusal read from a response: its status, the API's own reason from
    /// the `rc` member of a JSON body, and its `Retry-After` header.
    pub fn read(origin: Origin, status: u16, body: &[u8], retry_after: Option<&str>) -> (refusal: Refusal)
        ensures
            refusal.origin == origin,
            refusal.status == status,
            match refusal.reason {
                Some(reason) => json_string_member(body@, "rc"@) == Some(reason@),
                None => json_string_member(body@, "rc"@) is None,
            },
            refusal.retry_after == RetryAfter::read(
                match retry_after {
                    Some(text) => Some(text@),
                    None => None,
                },
            ),
    {
        let reason = read_json_string_member(body, "rc");
        Refusal { origin, status, reason, retry_after: RetryAfter::from_header(retry_after) }
    }
}

impl Error {
    /// An attempt that did not finish within the client's timeout: a network
    /// failure, worth another attempt.
    pub fn timed_out(millis: u64) -> (err: Error)
        ensures
            err matches Error::Network(message) && message@ == timed_out_message(millis),
            err.spec_kind() == ErrorKind::Network,
            err.spec_retryable(),
    {
        let message = String::from_str("the attempt timed out after ")
            .concat(to_decimal(millis).as_str())
            .concat(" ms");
        Error::Network(message)
    }

    pub open spec fn spec_kind(&self) -> ErrorKind {
        match self {
            Error::Refused(r) => kind_of_status(r.status, r.retry_after),
            Error::Network(_) => ErrorKind::Network,
            Error::Io(_) => ErrorKind::Io,
            Error::Config(_) => ErrorKind::BadRequest,
        }
    }

    pub open spec fn spec_retryable(&self) -> bool {
        match self {
            Error::Io(failure) => failure.kind == IoFailureKind::UnexpectedEof,
            _ => kind_is_retryable(self.spec_kind()),
        }
    }

    pub open spec fn spec_retry_after(&self) -> Option<u64> {
        match self {
            Error::Refused(r) => match r.retry_after {
                RetryAfter::Seconds(secs) => Some(secs),
                _ => None,
            },
            _ => None,
        }
    }

    pub open spec fn spec_status(&self) -> Option<u16> {
        match self {
            Error::Refused(r) => Some(r.status),
            _ => None,
        }
    }

    pub open spec fn spec_message(&self) -> Seq<char> {
        match self {
            Error::Refused(r) => match r.origin {
                Origin::Api => match r.reason {
                    Some(reason) if reason@.len() > 0 => reason@,
                    _ => "request failed with status "@ + spelling(r.status as nat),
                },
                Origin::ObjectStorage => "object storage refused the download link with status "@
                    + spelling(r.status as nat),
            },
            Error::Network(message) => message@,
            Error::Io(failure) => failure.message@,
            Error::Config(message) => message@,
        }
    }

    /// Which class of failure this is.
    pub fn kind(&self) -> (kind: ErrorKind)
        ensures
            kind == self.spec_kind(),
    {
        match self {
            Error::Refused(r) => {
                if r.status == 401 {
                    ErrorKind::Unauthorized
                } else if r.status == 403 {
                    ErrorKind::Forbidden
                } else if r.status == 429 {
                    match r.retry_after {
                        RetryAfter::Absent => ErrorKind::QuotaExceeded,
                        _ => ErrorKind::RateLimited,
                    }
                } else if 400 <= r.status && r.status <= 499 {
                    ErrorKind::BadRequest
                } else {
                    ErrorKind::ServerError
                }
            },
            Error::Network(_) => ErrorKind::Network,
            Error::Io(_) => ErrorKind::Io,
            Error::Config(_) => ErrorKind::BadRequest,
        }
    }

    /// Whether another attempt could succeed: a throttle, a server fault, a
    /// network failure, or a transfer that ended early.
    pub fn retryable(&self) -> (retryable: bool)
        ensures
            retryable == self.spec_retryable(),
    {
        match self {
            Error::Io(failure) => match failure.kind {
                IoFailureKind::UnexpectedEof => true,
                IoFailureKind::Other => false,
            },
            _ => {
                let kind = self.kind();
                match kind {
                    ErrorKind::RateLimited | ErrorKind::ServerError | ErrorKind::Network => true,
                    _ => false,
                }
            },
        }
    }

    /// The wait the server asked for, in seconds, when it named one within the
    /// ceiling.
    pub fn retry_after(&self) -> (secs: Option<u64>)
        ensures
            secs == self.spec_retry_after(),
    {
        match self {
            Error::Refused(r) => match r.retry_after {
                RetryAfter::Seconds(secs) => Some(secs),
                _ => None,
            },
            _ => None,
        }
    }

    /// The HTTP status of a refusal.
    pub fn status(&self) -> (status: Option<u16>)
        ensures
            status == self.spec_status(),
    {
        match self {
            Error::Refused(r) => Some(r.status),
            _ => None,
        }
    }

    /// The API's own reason, such as `NOT_LICENSED`, or what the client can
    /// say in its place.
    pub fn message(&self) -> (message: String)
        ensures
            message@ == self.spec_message(),
    {
        match self {
            Error::Refused(r) => match r.origin {
                Origin::Api => {
                    match &r.reason {
                        Some(reason) => {
                            if reason.as_str().unicode_len() > 0 {
                                return reason.clone();
                            }
                        },
                        None => {},
                    }
                    let lead = String::from_str("request failed with status ");
                    let status = to_decimal(r.status as u64);
                    lead.concat(status.as_str())
                },
                Origin::ObjectStorage => {
                    let lead = String::from_str("object storage refused the download link with status ");
                    let status = to_decimal(r.status as u64);
                    lead.concat(status.as_str())
                },
            },
            Error::Network(message) => message.clone(),
            Error::Io(failure) => failure.message.clone(),
            Error::Config(message) => message.clone(),
        }
    }
}

/// A refusal in the 4xx range is the caller's to fix and is never retried,
/// with the one exception of a 429 that names a throttle.
pub proof fn lemma_client_errors_are_not_retried(r: Refusal)
    requires
        400 <= r.status <= 499,
    ensures
        Error::Refused(r).spec_retryable() <==> (r.status == 429 && r.retry_after.names_a_throttle()),
{
}

/// A 5xx is a server fault, and worth another attempt.
pub proof fn lemma_server_faults_are_retried(r: Refusal)
    requires
        500 <= r.status <= 599,
    ensures
        Error::Refused(r).spec_kind() == ErrorKind::ServerError,
        Error::Refused(r).spec_retryable(),
{
}

/// The two 429s differ only by `Retry-After`: one that names a throttle is a
/// rate limit, retried; one that does not is a spent quota, never retried.
pub proof fn lemma_a_429_is_a_rate_limit_or_a_spent_quota(r: Refusal)
    requires
        r.status == 429,
    ensures
        r.retry_after.names_a_throttle() ==> Error::Refused(r).spec_kind() == ErrorKind::RateLimited
            && Error::Refused(r).spec_retryable(),
        !r.retry_after.names_a_throttle() ==> Error::Refused(r).spec_kind() == ErrorKind::QuotaExceeded
            && !Error::Refused(r).spec_retryable(),
{
}

/// A wait read from a header is never longer than 2^31 - 1 milliseconds; a
/// longer one still names a throttle but is waited out on the schedule, and a
/// number too large for a `u64` names none.
pub proof fn lemma_header_waits_are_bounded(header: Option<Seq<char>>)
    ensures
        RetryAfter::read(header) matches RetryAfter::Seconds(secs) ==> secs * 1000 <= 2147483647,
        header is None ==> RetryAfter::read(header) == RetryAfter::Absent,
        header matches Some(text) && all_digits(text) && value(text) > u64::MAX ==> RetryAfter::read(header)
            == RetryAfter::Absent,
        header matches Some(text) && all_digits(text) && RETRY_AFTER_CEILING_SECS < value(text) <= u64::MAX
            ==> RetryAfter::read(header) == RetryAfter::PastCeiling,
{
}

/// Only a refusal whose `Retry-After` header named a number of seconds within
/// the ceiling names a wait; every other failure, a network failure or an
/// early end of a transfer among them, names none and leaves the wait to the
/// schedule.
pub proof fn lemma_only_a_named_retry_after_names_a_wait(e: Error, secs: u64)
    ensures
        e.spec_retry_after() == Some(secs) <==> (e matches Error::Refused(r) && r.retry_after
            == RetryAfter::Seconds(secs)),
        !(e is Refused) ==> e.spec_retry_after() is None,
{
}

/// A wait read from a header is the number the header spells, and only a
/// run of digits within the ceiling spells one.
pub proof fn lemma_a_named_wait_is_the_headers_number(header: Option<Seq<char>>, secs: u64)
    ensures
        RetryAfter::read(header) == RetryAfter::Seconds(secs) <==> (header matches Some(text)
            && all_digits(text) && value(text) == secs && secs <= RETRY_AFTER_CEILING_SECS),
{
}

/// Each error kind is spelled with its own snake_case word.
pub proof fn lemma_each_error_kind_has_its_word()
    ensures
        ErrorKind::BadRequest.wire() == "bad_request"@,
        ErrorKind::Unauthorized.wire() == "unauthorized"@,
        ErrorKind::Forbidden.wire() == "forbidden"@,
        ErrorKind::RateLimited.wire() == "rate_limited"@,
        ErrorKind::QuotaExceeded.wire() == "quota_exceeded"@,
        ErrorKind::ServerError.wire() == "server_error"@,
        ErrorKind::Network.wire() == "network"@,
        ErrorKind::Io.wire() == "io"@,
{
}

/// A 401 is unauthorized and a 403 forbidden, whatever `Retry-After` says,
/// and every other 4xx but a 429 is a bad request; none of them is retried.
pub proof fn lemma_each_client_error_has_its_kind(r: Refusal)
    ensures
        r.status == 401 ==> Error::Refused(r).spec_kind() == ErrorKind::Unauthorized,
        r.status == 403 ==> Error::Refused(r).spec_kind() == ErrorKind::Forbidden,
        400 <= r.status <= 499 && r.status != 401 && r.status != 403 && r.status != 429 ==> Error::Refused(
            r,
        ).spec_kind() == ErrorKind::BadRequest,
        400 <= r.status <= 499 && r.status != 429 ==> !Error::Refused(r).spec_retryable(),
        Error::Refused(r).spec_status() == Some(r.status),
{
}

/// A refusal's message is the API's own non-empty reason, or else says which
/// status came back and from where; other failures carry their own message.
pub proof fn lemma_a_refusal_says_why(r: Refusal, message: String)
    ensures
        r.origin == Origin::Api && r.reason is Some && r.reason->Some_0@.len() > 0 ==> Error::Refused(
            r,
        ).spec_message() == r.reason->Some_0@,
        r.origin == Origin::Api && (r.reason is None || r.reason->Some_0@.len() == 0)
            ==> Error::Refused(r).spec_message() == "request failed with status "@ + spelling(
            r.status as nat,
        ),
        r.origin == Origin::ObjectStorage ==> Error::Refused(r).spec_message()
            == "object storage refused the download link with status "@ + spelling(r.status as nat),
        Error::Network(message).spec_message() == message@,
        Error::Config(message).spec_message() == message@,
        Error::Network(message).spec_kind() == ErrorKind::Network && Error::Network(message).spec_retryable(),
{
}

} // verus!
