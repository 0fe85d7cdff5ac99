//! The client: where it sends, with which key, how often it retries, and the
//! HTTP client it sends with.

use std::sync::Arc;
use std::time::Duration;

use vstd::prelude::*;

use reqwest::redirect::Policy as RedirectPolicy;
use reqwest::Client as HttpClient;
use reqwest::Error as HttpError;

use crate::error::Error;
use crate::transfer::{
    ends_with_slash, lemma_trimmed_has_no_trailing_slash, trim_trailing_slashes, without_trailing_slashes,
};

verus! {

/// The production API. Override it with [`ClientBuilder::base_url`].
pub const DEFAULT_BASE_URL: &'static str = "https://internetdata.io";

/// How many further attempts a transient failure gets unless the builder says.
pub const DEFAULT_RETRIES: u32 = 2;

/// Seconds the default HTTP client waits for a connection to open.
pub const DEFAULT_CONNECT_TIMEOUT_SECS: u64 = 10;

/// Seconds the default HTTP client waits on a transfer that has stopped moving.
pub const DEFAULT_READ_TIMEOUT_SECS: u64 = 30;

/// What the default HTTP client calls itself.
pub const USER_AGENT: &'static str = "internetdata-rust/0.1.0";

#[verifier::external_type_specification]
#[verifier::external_body]
pub struct ExReqwestClient(HttpClient);

#[verifier::external_type_specification]
#[verifier::external_body]
pub struct ExReqwestError(HttpError);

/// What `reqwest::Url::parse` makes of a text: whether the URL it parses to
/// has a host, or the text of the parse error.
pub uninterp spec fn url_inspection(text: Seq<char>) -> Result<bool, Seq<char>>;

/// Parses `text` with `reqwest::Url::parse` and, when it parses, asks the URL
/// `has_host`; a parse failure comes back as the error's `Display` text. The
/// contract claims only that the outcome is a function of the text.
#[verifier::external_body]
fn inspect_url(text: &str) -> (inspected: Result<bool, String>)
    ensures
        url_inspection(text@) == match inspected {
            Ok(has_host) => Ok::<bool, Seq<char>>(has_host),
            Err(reason) => Err::<bool, Seq<char>>(reason@),
        },
{
    match reqwest::Url::parse(text) {
        Ok(url) => Ok(url.has_host()),
        Err(e) => Err(format!("{e}")),
    }
}

/// What `{:?}` prints for a string: the string quoted, with its special
/// characters escaped.
pub uninterp spec fn debug_quoted_text(text: Seq<char>) -> Seq<char>;

/// `format!("{text:?}")`, std's `Debug` for `str`. The contract claims only
/// that the result is a function of the text.
#[verifier::external_body]
fn debug_quoted(text: &str) -> (quoted: String)
    ensures
        quoted@ == debug_quoted_text(text@),
{
    format!("{text:?}")
}

/// The settings the default HTTP client is built with, as plain values.
#[derive(Clone, Debug)]
pub struct HttpSettings {
    /// What the client calls itself.
    pub user_agent: String,
    /// Seconds it waits for a connection to open.
    pub connect_timeout_secs: u64,
    /// Seconds it waits on a transfer that has stopped moving. There is no
    /// total timeout, which would cap the size of a database it could fetch.
    pub read_timeout_secs: u64,
    /// Whether it follows redirects. The download endpoint's 302 is the
    /// answer, so the default client follows none.
    pub follows_redirects: bool,
}

/// The default HTTP client's settings: the crate's user agent, a 10 s
/// connect timeout, a 30 s read timeout, and no redirects followed.
pub open spec fn is_default_http_settings(settings: HttpSettings) -> bool {
    &&& settings.user_agent@ == USER_AGENT@
    &&& settings.connect_timeout_secs == DEFAULT_CONNECT_TIMEOUT_SECS
    &&& settings.read_timeout_secs == DEFAULT_READ_TIMEOUT_SECS
    &&& !settings.follows_redirects
}

/// The settings of the HTTP client a builder without one of its own sends with.
pub fn default_http_settings() -> (settings: HttpSettings)
    ensures
        is_default_http_settings(settings),
{
    HttpSettings {
        user_agent: String::from_str(USER_AGENT),
        connect_timeout_secs: DEFAULT_CONNECT_TIMEOUT_SECS,
        read_timeout_secs: DEFAULT_READ_TIMEOUT_SECS,
        follows_redirects: false,
    }
}

/// The settings a `reqwest::Client` was built with.
pub uninterp spec fn http_client_settings(client: HttpClient) -> HttpSettings;

/// Builds a `reqwest::Client` from plain settings: `reqwest::Client::builder`,
/// then `user_agent`, `connect_timeout` and `read_timeout` (each through
/// `std::time::Duration::from_secs`) and `redirect` with
/// `reqwest::redirect::Policy::none()` when no redirects are followed, or the
/// policy's default otherwise, then `build`. Whether `build` succeeds depends
/// on the platform (the TLS, proxy and resolver setup), so success is not
/// claimed; what is claimed is that a client that comes back was built with
/// `settings`.
#[verifier::external_body]
fn build_http_client(settings: &HttpSettings) -> (built: Result<HttpClient, HttpError>)
    ensures
        built matches Ok(client) ==> http_client_settings(client) == *settings,
{
    let redirect = match settings.follows_redirects {
        true => RedirectPolicy::default(),
        false => RedirectPolicy::none(),
    };
    HttpClient::builder()
        .user_agent(settings.user_agent.as_str())
        .connect_timeout(Duration::from_secs(settings.connect_timeout_secs))
        .read_timeout(Duration::from_secs(settings.read_timeout_secs))
        .redirect(redirect)
        .build()
}

/// The `Display` text of a `HttpError`. Nothing is claimed of it.
#[verifier::external_body]
fn http_error_text(e: &HttpError) -> String {
    format!("{e}")
}

/// The HTTP client built from `settings`; any failure is a network error.
fn http_client_from(settings: &HttpSettings) -> (http: Result<HttpClient, Error>)
    ensures
        http matches Err(e) ==> e is Network,
        http matches Ok(client) ==> http_client_settings(client) == *settings,
{
    match build_http_client(settings) {
        Ok(http) => Ok(http),
        Err(e) => Err(Error::Network(http_error_text(&e))),
    }
}

pub open spec fn option_view(text: Option<String>) -> Option<Seq<char>> {
    match text {
        Some(t) => Some(t@),
        None => None,
    }
}

/// Builds a [`Client`]. With nothing set it talks to production with no key.
#[derive(Debug)]
pub struct ClientBuilder {
    api_key: Option<String>,
    base_url: Option<String>,
    retries: Option<u32>,
    http_client: Option<HttpClient>,
    timeout_ms: Option<u64>,
}

/// What a builder has been told: the key, the base URL, the retry budget, and
/// whether it was handed an HTTP client of the caller's.
pub struct BuilderSettings {
    pub api_key: Option<Seq<char>>,
    pub base_url: Option<Seq<char>>,
    pub retries: Option<u32>,
    /// The HTTP client of the caller's, if it was handed one.
    pub http_client: Option<HttpClient>,
    /// The bound on each attempt, in milliseconds, if one was set.
    pub timeout_ms: Option<u64>,
}

impl View for ClientBuilder {
    type V = BuilderSettings;

    closed spec fn view(&self) -> BuilderSettings {
        BuilderSettings {
            api_key: option_view(self.api_key),
            base_url: option_view(self.base_url),
            retries: self.retries,
            http_client: self.http_client,
            timeout_ms: self.timeout_ms,
        }
    }
}

/// The base URL a builder resolves to.
pub open spec fn resolved_base_url(settings: BuilderSettings) -> Seq<char> {
    match settings.base_url {
        Some(url) => url,
        None => DEFAULT_BASE_URL@,
    }
}

pub open spec fn unparsable_base_url_message(base: Seq<char>, reason: Seq<char>) -> Seq<char> {
    "base url "@ + debug_quoted_text(base) + ": "@ + reason
}

pub open spec fn zero_timeout_message() -> Seq<char> {
    "timeout must be greater than zero"@
}

pub open spec fn hostless_base_url_message(base: Seq<char>) -> Seq<char> {
    "base url "@ + debug_quoted_text(base) + " needs a scheme and a host"@
}

impl Default for ClientBuilder {
    fn default() -> (builder: ClientBuilder)
        ensures
            builder@.api_key is None,
            builder@.base_url is None,
            builder@.retries is None,
            builder@.http_client is None,
            builder@.timeout_ms is None,
    {
        ClientBuilder { api_key: None, base_url: None, retries: None, http_client: None, timeout_ms: None }
    }
}

impl ClientBuilder {
    pub fn new() -> (builder: ClientBuilder)
        ensures
            builder@.api_key is None,
            builder@.base_url is None,
            builder@.retries is None,
            builder@.http_client is None,
            builder@.timeout_ms is None,
    {
        ClientBuilder { api_key: None, base_url: None, retries: None, http_client: None, timeout_ms: None }
    }

    /// Authenticates as the key's organization, which decides both the catalog
    /// it can see and the databases it may download. The key needs the
    /// `db.download` scope.
    pub fn api_key(self, key: String) -> (builder: ClientBuilder)
        ensures
            builder@.api_key == Some(key@),
            builder@.base_url == self@.base_url,
            builder@.retries == self@.retries,
            builder@.http_client == self@.http_client,
            builder@.timeout_ms == self@.timeout_ms,
    {
        ClientBuilder { api_key: Some(key), ..self }
    }

    /// Points the client at a different deployment of the API.
    pub fn base_url(self, url: String) -> (builder: ClientBuilder)
        ensures
            builder@.base_url == Some(url@),
            builder@.api_key == self@.api_key,
            builder@.retries == self@.retries,
            builder@.http_client == self@.http_client,
            builder@.timeout_ms == self@.timeout_ms,
    {
        ClientBuilder { base_url: Some(url), ..self }
    }

    /// How many further attempts a transient failure gets. Default 2.
    pub fn retries(self, n: u32) -> (builder: ClientBuilder)
        ensures
            builder@.retries == Some(n),
            builder@.api_key == self@.api_key,
            builder@.base_url == self@.base_url,
            builder@.http_client == self@.http_client,
            builder@.timeout_ms == self@.timeout_ms,
    {
        ClientBuilder { retries: Some(n), ..self }
    }

    /// The HTTP client to send with, for a custom transport, proxy or timeout.
    /// Build it with `RedirectPolicy::none()`, and without a total
    /// timeout, which would cap the size of a database it could fetch.
    pub fn http_client(self, client: HttpClient) -> (builder: ClientBuilder)
        ensures
            builder@.http_client == Some(client),
            builder@.api_key == self@.api_key,
            builder@.base_url == self@.base_url,
            builder@.retries == self@.retries,
            builder@.timeout_ms == self@.timeout_ms,
    {
        ClientBuilder { http_client: Some(client), ..self }
    }

    /// Bounds every attempt of an API call, the whole of its body included,
    /// to this many milliseconds. A timed-out attempt is retried like any
    /// network failure. Zero is refused when the client is built.
    pub fn timeout(self, millis: u64) -> (builder: ClientBuilder)
        ensures
            builder@.timeout_ms == Some(millis),
            builder@.api_key == self@.api_key,
            builder@.base_url == self@.base_url,
            builder@.retries == self@.retries,
            builder@.http_client == self@.http_client,
    {
        ClientBuilder { timeout_ms: Some(millis), ..self }
    }

    /// Builds the client. The base URL (production unless set) must parse and
    /// name a host; a trailing `/` on it is dropped, so no path is doubled.
    pub fn build(self) -> (built: Result<Client, Error>)
        ensures
            ({
                let base = resolved_base_url(self@);
                match url_inspection(base) {
                    Err(reason) => built matches Err(Error::Config(message))
                        && message@ == unparsable_base_url_message(base, reason),
                    Ok(false) => built matches Err(Error::Config(message))
                        && message@ == hostless_base_url_message(base),
                    Ok(true) => if self@.timeout_ms == Some(0u64) {
                        built matches Err(Error::Config(message)) && message@ == zero_timeout_message()
                    } else {
                        match built {
                            Ok(client) => {
                                &&& client@.base_url == without_trailing_slashes(base)
                                &&& client@.api_key == self@.api_key
                                &&& client@.retries == match self@.retries {
                                    Some(n) => n,
                                    None => DEFAULT_RETRIES,
                                }
                                &&& client@.timeout_ms == self@.timeout_ms
                                &&& match self@.http_client {
                                    Some(http) => client@.http == http && client@.http_settings is None,
                                    None => client@.http_settings matches Some(settings)
                                        && is_default_http_settings(settings)
                                        && http_client_settings(client@.http) == settings,
                                }
                            },
                            Err(e) => self@.http_client is None && e is Network,
                        }
                    },
                }
            }),
    {
        let base_url = match self.base_url {
            Some(url) => url,
            None => String::from_str(DEFAULT_BASE_URL),
        };
        match inspect_url(base_url.as_str()) {
            Err(reason) => {
                let message = String::from_str("base url ")
                    .concat(debug_quoted(base_url.as_str()).as_str())
                    .concat(": ")
                    .concat(reason.as_str());
                return Err(Error::Config(message));
            },
            Ok(has_host) => {
                if !has_host {
                    let message = String::from_str("base url ")
                        .concat(debug_quoted(base_url.as_str()).as_str())
                        .concat(" needs a scheme and a host");
                    return Err(Error::Config(message));
                }
            },
        }
        match self.timeout_ms {
            Some(millis) => {
                if millis == 0 {
                    return Err(Error::Config(String::from_str("timeout must be greater than zero")));
                }
            },
            None => {},
        }
        let (http, http_settings) = match self.http_client {
            Some(client) => (client, None),
            None => {
                let settings = default_http_settings();
                match http_client_from(&settings) {
                    Ok(client) => (client, Some(settings)),
                    Err(e) => return Err(e),
                }
            },
        };
        let retries = match self.retries {
            Some(n) => n,
            None => DEFAULT_RETRIES,
        };
        let trimmed = trim_trailing_slashes(base_url.as_str());
        proof {
            lemma_trimmed_has_no_trailing_slash(base_url@);
        }
        Ok(
            Client(
                Arc::new(
                    ClientInner {
                        http,
                        http_settings,
                        base_url: trimmed,
                        api_key: self.api_key,
                        retries,
                        timeout_ms: self.timeout_ms,
                    },
                ),
            ),
        )
    }
}

#[derive(Debug)]
struct ClientInner {
    http: HttpClient,
    http_settings: Option<HttpSettings>,
    base_url: String,
    api_key: Option<String>,
    retries: u32,
    timeout_ms: Option<u64>,
}

impl ClientInner {
    /// The base URL never ends with `/`, so a path appended to it is never
    /// doubled.
    #[verifier::type_invariant]
    spec fn base_url_is_trimmed(self) -> bool {
        !ends_with_slash(self.base_url@)
    }
}

/// A client for the InternetData API. Cloning is cheap and shares the
/// connection pool.
///
/// There is no answer cache here, deliberately: every listing is the server's
/// answer to this client's key.
#[derive(Debug, Clone)]
pub struct Client(Arc<ClientInner>);

/// What a client sends with: its base URL, its key, and its retry budget.
pub struct ClientSettings {
    pub base_url: Seq<char>,
    pub api_key: Option<Seq<char>>,
    pub retries: u32,
    /// The HTTP client requests are sent with.
    pub http: HttpClient,
    /// The settings the client built its HTTP client with; `None` when the
    /// caller supplied one.
    pub http_settings: Option<HttpSettings>,
    /// The bound on each attempt of an API call, in milliseconds.
    pub timeout_ms: Option<u64>,
}

impl View for Client {
    type V = ClientSettings;

    closed spec fn view(&self) -> ClientSettings {
        ClientSettings {
            base_url: self.0.base_url@,
            api_key: option_view(self.0.api_key),
            retries: self.0.retries,
            http: self.0.http,
            http_settings: self.0.http_settings,
            timeout_ms: self.0.timeout_ms,
        }
    }
}

impl Client {
    /// A client against production with no key.
    pub fn new() -> (built: Result<Client, Error>)
        ensures
            match url_inspection(DEFAULT_BASE_URL@) {
                Err(reason) => built matches Err(Error::Config(message))
                    && message@ == unparsable_base_url_message(DEFAULT_BASE_URL@, reason),
                Ok(false) => built matches Err(Error::Config(message))
                    && message@ == hostless_base_url_message(DEFAULT_BASE_URL@),
                Ok(true) => match built {
                    Ok(client) => {
                        &&& client@.base_url == without_trailing_slashes(DEFAULT_BASE_URL@)
                        &&& client@.api_key is None
                        &&& client@.retries == DEFAULT_RETRIES
                        &&& client@.timeout_ms is None
                        &&& client@.http_settings matches Some(settings) && is_default_http_settings(settings)
                            && http_client_settings(client@.http) == settings
                    },
                    Err(e) => e is Network,
                },
            },
    {
        Self::builder().build()
    }

    pub fn builder() -> (builder: ClientBuilder)
        ensures
            builder@.api_key is None,
            builder@.base_url is None,
            builder@.retries is None,
            builder@.http_client is None,
            builder@.timeout_ms is None,
    {
        ClientBuilder::new()
    }

    /// How many further attempts a transient failure gets.
    pub fn retries(&self) -> (n: u32)
        ensures
            n == self@.retries,
    {
        self.0.retries
    }

    /// The base URL every path is appended to, without a trailing `/`.
    pub fn base_url(&self) -> (url: &str)
        ensures
            url@ == self@.base_url,
            !ends_with_slash(url@),
    {
        let inner: &ClientInner = &self.0;
        proof {
            use_type_invariant(inner);
        }
        inner.base_url.as_str()
    }

    /// The key the client authenticates with, if it was given one.
    pub fn api_key(&self) -> (key: Option<&str>)
        ensures
            match key {
                Some(k) => self@.api_key == Some(k@),
                None => self@.api_key is None,
            },
    {
        match &self.0.api_key {
            Some(k) => Some(k.as_str()),
            None => None,
        }
    }

    /// The bound on each attempt of an API call, in milliseconds, if one was set.
    pub fn timeout_ms(&self) -> (millis: Option<u64>)
        ensures
            millis == self@.timeout_ms,
    {
        self.0.timeout_ms
    }

    /// The HTTP client requests are sent with.
    pub fn http(&self) -> (http: &HttpClient)
        ensures
            *http == self@.http,
    {
        &self.0.http
    }
}

/// The default HTTP client calls itself `internetdata-rust/0.1.0`, gives a
/// connection 10 seconds to open and a stalled transfer 30 seconds, has no
/// total timeout, and follows no redirect; a builder left alone retries twice.
pub proof fn lemma_the_defaults(settings: HttpSettings)
    requires
        is_default_http_settings(settings),
    ensures
        settings.user_agent@ == "internetdata-rust/0.1.0"@,
        settings.connect_timeout_secs == 10,
        settings.read_timeout_secs == 30,
        !settings.follows_redirects,
        DEFAULT_RETRIES == 2,
        DEFAULT_BASE_URL@ == "https://internetdata.io"@,
{
}

} // verus!
