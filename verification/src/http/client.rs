//! The client and its builder: where requests go and who signs them.

use crate::http::error::ClientError;
use crate::http::request::Secret;
use crate::http::signature::HMAC_MAX_INPUT;
use crate::text::byte_len;
use std::time::Duration;
use vstd::prelude::*;

verus! {

/// The production host of the exchange.
pub const DEFAULT_BASE_URL: &'static str = "https://api.binance.com";

/// The connect timeout of a client that was given none, in seconds.
pub const DEFAULT_TIMEOUT_SECS: u64 = 300;

pub type ClientResult<T> = Result<T, ClientError>;

/// The name and the value of a header.
pub type Header = (Seq<char>, Seq<char>);

/// The duration of that many whole seconds.
pub uninterp spec fn duration_from_secs(secs: u64) -> Duration;

/// `Duration::from_secs`: the duration of that many whole seconds.
pub assume_specification[ Duration::from_secs ](secs: u64) -> (d: Duration)
    ensures
        d == duration_from_secs(secs),
;

/// The headers that every request of a client carries unless told otherwise.
pub open spec fn default_headers() -> Seq<Header> {
    seq![("Content-Type"@, "application/x-www-form-urlencoded"@)]
}

/// The headers of a list, as texts.
pub open spec fn header_views(headers: Seq<(String, String)>) -> Seq<Header> {
    Seq::new(headers.len(), |i: int| (headers[i].0@, headers[i].1@))
}

/// A configured client. It is made by a [`ClientBuilder`] and not changed
/// afterwards.
pub struct Client {
    pub(crate) base_url: String,
    pub(crate) secret: Secret,
    pub(crate) timeout: Duration,
    pub(crate) header: Vec<(String, String)>,
}

/// Collects the settings of a [`Client`].
pub struct ClientBuilder {
    base_url: String,
    secret: Secret,
    timeout: Duration,
    header: Vec<(String, String)>,
}

impl Client {
    /// The text of the base URL.
    pub closed spec fn spec_base_url(&self) -> Seq<char> {
        self.base_url@
    }

    /// The credentials.
    pub closed spec fn spec_secret(&self) -> Secret {
        self.secret
    }

    /// The connect timeout.
    pub closed spec fn spec_timeout(&self) -> Duration {
        self.timeout
    }

    /// The default headers.
    pub closed spec fn spec_headers(&self) -> Seq<Header> {
        header_views(self.header@)
    }

    /// A builder with the default settings.
    pub fn builder() -> (builder: ClientBuilder)
        ensures
            builder.is_default(),
    {
        ClientBuilder::new()
    }

    /// The text of the base URL, as it was configured.
    pub fn base_url_text(&self) -> (text: &str)
        ensures
            text@ == self.spec_base_url(),
    {
        self.base_url.as_str()
    }

    /// The credentials of this client.
    pub fn secret(&self) -> (secret: &Secret)
        ensures
            *secret == self.spec_secret(),
    {
        &self.secret
    }

    /// The connect timeout for the transport.
    pub fn timeout(&self) -> (timeout: Duration)
        ensures
            timeout == self.spec_timeout(),
    {
        self.timeout
    }

    /// The number of default headers.
    pub fn header_count(&self) -> (n: usize)
        ensures
            n == self.spec_headers().len(),
    {
        self.header.len()
    }

    /// The name of the default header at `index`.
    pub fn header_name(&self, index: usize) -> (name: &str)
        requires
            index < self.spec_headers().len(),
        ensures
            name@ == self.spec_headers()[index as int].0,
    {
        self.header[index].0.as_str()
    }

    /// The value of the default header at `index`.
    pub fn header_value(&self, index: usize) -> (value: &str)
        requires
            index < self.spec_headers().len(),
        ensures
            value@ == self.spec_headers()[index as int].1,
    {
        self.header[index].1.as_str()
    }
}

impl ClientBuilder {
    /// The text of the base URL so far.
    pub closed spec fn spec_base_url(&self) -> Seq<char> {
        self.base_url@
    }

    /// The credentials so far.
    pub closed spec fn spec_secret(&self) -> Secret {
        self.secret
    }

    /// The connect timeout so far.
    pub closed spec fn spec_timeout(&self) -> Duration {
        self.timeout
    }

    /// The default headers.
    pub closed spec fn spec_headers(&self) -> Seq<Header> {
        header_views(self.header@)
    }

    /// Whether nothing has been set: the production host, no credentials,
    /// the default timeout and the form content type.
    pub open spec fn is_default(&self) -> bool {
        &&& self.spec_base_url() == DEFAULT_BASE_URL@
        &&& self.spec_secret().spec_api_key() is None
        &&& self.spec_secret().spec_secret_key() is None
        &&& self.spec_timeout() == duration_from_secs(DEFAULT_TIMEOUT_SECS)
        &&& self.spec_headers() == default_headers()
    }

    /// A builder with the default settings.
    pub fn new() -> (builder: Self)
        ensures
            builder.is_default(),
    {
        let mut header: Vec<(String, String)> = Vec::new();
        header.push(("Content-Type".to_string(), "application/x-www-form-urlencoded".to_string()));
        let builder = ClientBuilder {
            base_url: DEFAULT_BASE_URL.to_string(),
            secret: Secret::default(),
            timeout: Duration::from_secs(DEFAULT_TIMEOUT_SECS),
            header,
        };
        assert(builder.spec_headers() =~= default_headers());
        builder
    }

    /// The client that these settings describe.
    pub fn build(self) -> (client: Client)
        ensures
            client.spec_base_url() == self.spec_base_url(),
            client.spec_secret() == self.spec_secret(),
            client.spec_timeout() == self.spec_timeout(),
            client.spec_headers() == self.spec_headers(),
    {
        Client {
            base_url: self.base_url,
            secret: self.secret,
            timeout: self.timeout,
            header: self.header,
        }
    }

    /// Sends requests to another host.
    pub fn set_base_url(self, value: String) -> (builder: Self)
        ensures
            builder.spec_base_url() == value@,
            builder.spec_secret() == self.spec_secret(),
            builder.spec_timeout() == self.spec_timeout(),
            builder.spec_headers() == self.spec_headers(),
    {
        let mut builder = self;
        builder.base_url = value;
        builder
    }

    /// Sets the connect timeout.
    pub fn set_timeout(self, value: Duration) -> (builder: Self)
        ensures
            builder.spec_base_url() == self.spec_base_url(),
            builder.spec_secret() == self.spec_secret(),
            builder.spec_timeout() == value,
            builder.spec_headers() == self.spec_headers(),
    {
        let mut builder = self;
        builder.timeout = value;
        builder
    }

    /// Sets the API key.
    pub fn set_api_key(self, value: String) -> (builder: Self)
        ensures
            builder.spec_base_url() == self.spec_base_url(),
            builder.spec_secret().spec_api_key() == Some(value@),
            builder.spec_secret().spec_secret_key() == self.spec_secret().spec_secret_key(),
            builder.spec_timeout() == self.spec_timeout(),
            builder.spec_headers() == self.spec_headers(),
    {
        let mut builder = self;
        builder.secret.update_api_key(value);
        builder
    }

    /// Sets the secret key. A key that HMAC-SHA256 cannot take is left out:
    /// no machine holds one.
    pub fn set_secret_key(self, value: String) -> (builder: Self)
        requires
            byte_len(value@) <= HMAC_MAX_INPUT,
        ensures
            builder.spec_base_url() == self.spec_base_url(),
            builder.spec_secret().spec_api_key() == self.spec_secret().spec_api_key(),
            builder.spec_secret().spec_secret_key() == Some(value@),
            builder.spec_timeout() == self.spec_timeout(),
            builder.spec_headers() == self.spec_headers(),
    {
        let mut builder = self;
        builder.secret.update_secret_key(value);
        builder
    }
}

impl Default for ClientBuilder {
    fn default() -> (builder: Self)
        ensures
            builder.is_default(),
    {
        ClientBuilder::new()
    }
}

} // verus!
