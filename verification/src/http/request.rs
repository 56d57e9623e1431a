//! Credentials, the description of one request, and how a client builds and
//! signs it.

use crate::http::address::{
    parsed_url, try_append_pair, try_open_query, try_set_path, url_parts, with_path, Pair,
    UrlParts, MAX_URL_BYTES,
};
use crate::http::client::{Client, ClientResult};
use crate::http::error::{ClientError, ErrorKind};
use crate::http::query::Params;
use crate::http::signature::{sign, signature, HMAC_MAX_INPUT, TAG_BYTES};
use crate::text::{byte_len, lemma_encode_concat};
use url::Url;
use vstd::prelude::*;

verus! {

/// The name of the header that carries the API key.
pub const API_KEY_HEADER: &'static str = "X-MBX-APIKEY";

/// The name of the query parameter that carries the signature.
pub const SIGNATURE_PARAMETER: &'static str = "signature";

/// The room that a URL must leave for its signature, in bytes: the name and
/// the 64 digits counted three times over, as `pair_fits` counts, and `?`,
/// `&` and `=`.
pub const SIGNATURE_ROOM: u32 = 222;

/// The API key and the secret key, each of which may be missing.
#[derive(Debug)]
pub struct Secret {
    api_key: Option<String>,
    secret_key: Option<String>,
}

/// The HTTP methods that the API is called with.
#[derive(Debug, Clone, Copy, PartialEq, Eq, Structural)]
pub enum Method {
    Get,
    Post,
}

/// One request, ready to be sent: its method, its URL, and the API key where
/// the call is stamped with one.
#[derive(Debug)]
pub struct RequestBuilder {
    method: Method,
    url: Url,
    api_key: Option<String>,
}

/// What a [`RequestBuilder`] describes.
pub struct RequestView {
    pub method: Method,
    pub url: UrlParts,
    pub api_key: Option<Seq<char>>,
}

/// Whether a result is the expected request, or an error of the expected kind.
pub open spec fn agrees(
    r: ClientResult<RequestBuilder>,
    expected: Result<RequestView, ErrorKind>,
) -> bool {
    match (r, expected) {
        (Ok(request), Ok(view)) => request@ == view,
        (Err(e), Err(kind)) => e.kind() == kind,
        _ => false,
    }
}

/// Whether a result is a URL of the expected parts, or an error of the
/// expected kind.
pub open spec fn agrees_url(r: ClientResult<Url>, expected: Result<UrlParts, ErrorKind>) -> bool {
    match (r, expected) {
        (Ok(url), Ok(parts)) => url_parts(url) == parts,
        (Err(e), Err(kind)) => e.kind() == kind,
        _ => false,
    }
}

/// What signing makes of a URL. An empty query is refused before the key is
/// looked at; the signature is computed over the query as it stands and
/// appended as the last parameter.
pub open spec fn signed_parts(secret_key: Option<Seq<char>>, parts: UrlParts) -> Result<
    UrlParts,
    ErrorKind,
> {
    if parts.query_text().len() == 0 {
        Err(ErrorKind::EmptyQuery)
    } else {
        match secret_key {
            None => Err(ErrorKind::MissingCredential("SECRET KEY"@)),
            Some(key) => {
                let hex = signature(key, parts.query_text());
                if parts.pair_fits(SIGNATURE_PARAMETER@, hex) {
                    Ok(parts.with_pair(SIGNATURE_PARAMETER@, hex))
                } else {
                    Err(ErrorKind::UrlConstruction)
                }
            },
        }
    }
}

impl Secret {
    #[verifier::type_invariant]
    spec fn secret_key_can_sign(self) -> bool {
        match self.secret_key {
            Some(key) => byte_len(key@) <= HMAC_MAX_INPUT,
            None => true,
        }
    }

    /// The API key, if one is set.
    pub closed spec fn spec_api_key(&self) -> Option<Seq<char>> {
        match self.api_key {
            Some(key) => Some(key@),
            None => None,
        }
    }

    /// The secret key, if one is set.
    pub closed spec fn spec_secret_key(&self) -> Option<Seq<char>> {
        match self.secret_key {
            Some(key) => Some(key@),
            None => None,
        }
    }

    /// The API key, or the error that names it where none is set.
    pub fn api_key(&self) -> (r: ClientResult<&String>)
        ensures
            match r {
                Ok(key) => self.spec_api_key() == Some(key@),
                Err(e) => self.spec_api_key() is None && e.kind() == ErrorKind::MissingCredential(
                    "API KEY"@,
                ),
            },
    {
        match &self.api_key {
            Some(value) => Ok(value),
            None => Err(ClientError::Authorization("API KEY".to_string())),
        }
    }

    /// The secret key, or the error that names it where none is set.
    pub fn secret_key(&self) -> (r: ClientResult<&String>)
        ensures
            match r {
                Ok(key) => self.spec_secret_key() == Some(key@) && byte_len(key@)
                    <= HMAC_MAX_INPUT,
                Err(e) => self.spec_secret_key() is None && e.kind()
                    == ErrorKind::MissingCredential("SECRET KEY"@),
            },
    {
        proof {
            use_type_invariant(self);
        }
        match &self.secret_key {
            Some(value) => Ok(value),
            None => Err(ClientError::Authorization("SECRET KEY".to_string())),
        }
    }

    /// Sets the API key, whatever it holds.
    pub fn update_api_key(&mut self, value: String)
        ensures
            final(self).spec_api_key() == Some(value@),
            final(self).spec_secret_key() == old(self).spec_secret_key(),
    {
        proof {
            use_type_invariant(&*self);
        }
        self.api_key = Some(value)
    }

    /// Sets the secret key, whatever it holds. A key that HMAC-SHA256 cannot
    /// take is left out: no machine holds one.
    pub fn update_secret_key(&mut self, value: String)
        requires
            byte_len(value@) <= HMAC_MAX_INPUT,
        ensures
            final(self).spec_api_key() == old(self).spec_api_key(),
            final(self).spec_secret_key() == Some(value@),
    {
        self.secret_key = Some(value)
    }
}

impl Default for Secret {
    fn default() -> (secret: Self)
        ensures
            secret.spec_api_key() is None,
            secret.spec_secret_key() is None,
    {
        Secret { api_key: None, secret_key: None }
    }
}

impl View for RequestBuilder {
    type V = RequestView;

    closed spec fn view(&self) -> RequestView {
        RequestView {
            method: self.method,
            url: url_parts(self.url),
            api_key: match self.api_key {
                Some(key) => Some(key@),
                None => None,
            },
        }
    }
}

impl RequestView {
    /// The headers that the request adds to those of the client.
    pub open spec fn headers(self) -> Seq<Pair> {
        match self.api_key {
            Some(key) => seq![(API_KEY_HEADER@, key)],
            None => Seq::empty(),
        }
    }
}

impl RequestBuilder {
    /// The same request, stamped with an API key.
    pub fn with_api_key(self, value: &String) -> (request: Self)
        ensures
            request@ == (RequestView { api_key: Some(value@), ..self@ }),
    {
        RequestBuilder { method: self.method, url: self.url, api_key: Some(value.clone()) }
    }

    /// The method of the request.
    pub fn method(&self) -> (method: Method)
        ensures
            method == self@.method,
    {
        self.method
    }

    /// The URL of the request.
    pub fn url(&self) -> (url: &Url)
        ensures
            url_parts(*url) == self@.url,
    {
        &self.url
    }

    /// The API key that the request is stamped with, if any.
    pub fn api_key(&self) -> (key: Option<&String>)
        ensures
            match key {
                Some(k) => self@.api_key == Some(k@),
                None => self@.api_key is None,
            },
    {
        match &self.api_key {
            Some(k) => Some(k),
            None => None,
        }
    }

    /// The headers that the request adds to those of the client: the API key
    /// under its header name, where the request is stamped with one.
    pub fn headers(&self) -> (headers: Vec<(String, String)>)
        ensures
            crate::http::client::header_views(headers@) == self@.headers(),
    {
        let mut headers: Vec<(String, String)> = Vec::new();
        match &self.api_key {
            Some(key) => {
                headers.push((API_KEY_HEADER.to_string(), key.clone()));
            },
            None => {},
        }
        assert(crate::http::client::header_views(headers@) =~= self@.headers());
        headers
    }
}

/// A pair that does not fit after some of the pairs does not fit after more
/// of them either: the URL only grows.
proof fn lemma_with_pairs_none(parts: UrlParts, pairs: Seq<Pair>, n: int)
    requires
        0 <= n <= pairs.len(),
        parts.with_pairs(pairs.take(n)) is None,
    ensures
        parts.with_pairs(pairs) is None,
    decreases pairs.len() - n,
{
    if n < pairs.len() {
        assert(pairs.take(n + 1).drop_last() =~= pairs.take(n));
        lemma_with_pairs_none(parts, pairs, n + 1);
    } else {
        assert(pairs.take(n) =~= pairs);
    }
}

/// The text of a URL is at least as long as its query.
proof fn lemma_query_within_text(parts: UrlParts)
    ensures
        byte_len(parts.query_text()) <= byte_len(parts.text()),
{
    let tail = match parts.fragment {
        Some(f) => seq!['#'] + f,
        None => Seq::empty(),
    };
    match parts.query {
        Some(q) => {
            lemma_encode_concat(parts.location + (seq!['?'] + q), tail);
            lemma_encode_concat(parts.location, seq!['?'] + q);
            lemma_encode_concat(seq!['?'], q);
        },
        None => {},
    }
}

impl Client {
    /// The URL that a call to `path` with these parameters goes to: the base
    /// URL with that path and with the parameters appended to its query in
    /// their order. There is none where the base URL is not one, or where the
    /// URL would outgrow `MAX_URL_BYTES`.
    pub open spec fn target(&self, path: Seq<char>, params: Seq<Pair>) -> Option<UrlParts> {
        match parsed_url(self.spec_base_url()) {
            Some(base) => if url_parts(base).path_fits(path) {
                with_path(base, path).with_pairs(params)
            } else {
                None
            },
            None => None,
        }
    }

    /// What `unsigned` returns.
    pub open spec fn unsigned_outcome(
        &self,
        method: Method,
        path: Seq<char>,
        params: Seq<Pair>,
    ) -> Result<RequestView, ErrorKind> {
        match self.target(path, params) {
            Some(url) => Ok(RequestView { method, url, api_key: None }),
            None => Err(ErrorKind::UrlConstruction),
        }
    }

    /// What `unsigned_with_query` returns.
    pub open spec fn unsigned_with_query_outcome(
        &self,
        method: Method,
        path: Seq<char>,
        params: Seq<Pair>,
    ) -> Result<RequestView, ErrorKind> {
        match self.target(path, params) {
            Some(url) => if url.query_fits() {
                Ok(RequestView { method, url: url.with_query(), api_key: None })
            } else {
                Err(ErrorKind::UrlConstruction)
            },
            None => Err(ErrorKind::UrlConstruction),
        }
    }

    /// What `signed` returns. The URL is built first, then signed, then the
    /// API key is looked up: a missing secret key is reported before a
    /// missing API key.
    pub open spec fn signed_outcome(
        &self,
        method: Method,
        path: Seq<char>,
        params: Seq<Pair>,
    ) -> Result<RequestView, ErrorKind> {
        match self.target(path, params) {
            Some(target) => match signed_parts(self.spec_secret().spec_secret_key(), target) {
                Ok(url) => match self.spec_secret().spec_api_key() {
                    Some(key) => Ok(RequestView { method, url, api_key: Some(key) }),
                    None => Err(ErrorKind::MissingCredential("API KEY"@)),
                },
                Err(kind) => Err(kind),
            },
            None => Err(ErrorKind::UrlConstruction),
        }
    }

    /// Parses the base URL.
    pub fn base_url(&self) -> (r: ClientResult<Url>)
        ensures
            match r {
                Ok(url) => parsed_url(self.spec_base_url()) == Some(url),
                Err(e) => parsed_url(self.spec_base_url()) is None && e.kind()
                    == ErrorKind::UrlConstruction,
            },
    {
        match Url::parse(self.base_url_text()) {
            Ok(url) => Ok(url),
            Err(e) => Err(ClientError::from_url_error(e)),
        }
    }

    /// A GET request to `url`, unsigned and without an API key.
    pub fn build_request_get(&self, url: Url) -> (request: RequestBuilder)
        ensures
            request@ == (RequestView { method: Method::Get, url: url_parts(url), api_key: None }),
    {
        RequestBuilder { method: Method::Get, url, api_key: None }
    }

    /// A POST request to `url`, unsigned and without an API key.
    pub fn build_request_post(&self, url: Url) -> (request: RequestBuilder)
        ensures
            request@ == (RequestView { method: Method::Post, url: url_parts(url), api_key: None }),
    {
        RequestBuilder { method: Method::Post, url, api_key: None }
    }

    /// A GET request to `url` with its query signed.
    pub fn build_sign_request_get(&self, url: Url) -> (r: ClientResult<RequestBuilder>)
        ensures
            agrees(
                r,
                match signed_parts(self.spec_secret().spec_secret_key(), url_parts(url)) {
                    Ok(parts) => Ok(RequestView { method: Method::Get, url: parts, api_key: None }),
                    Err(kind) => Err(kind),
                },
            ),
            r is Ok ==> signature(
                self.spec_secret().spec_secret_key()->0,
                url_parts(url).query_text(),
            ).len() == 2 * TAG_BYTES,
    {
        match self.sign_url_query(url) {
            Ok(url) => Ok(self.build_request_get(url)),
            Err(e) => Err(e),
        }
    }

    /// A POST request to `url` with its query signed.
    pub fn build_sign_request_post(&self, url: Url) -> (r: ClientResult<RequestBuilder>)
        ensures
            agrees(
                r,
                match signed_parts(self.spec_secret().spec_secret_key(), url_parts(url)) {
                    Ok(parts) => Ok(
                        RequestView { method: Method::Post, url: parts, api_key: None },
                    ),
                    Err(kind) => Err(kind),
                },
            ),
            r is Ok ==> signature(
                self.spec_secret().spec_secret_key()->0,
                url_parts(url).query_text(),
            ).len() == 2 * TAG_BYTES,
    {
        match self.sign_url_query(url) {
            Ok(url) => Ok(self.build_request_post(url)),
            Err(e) => Err(e),
        }
    }

    /// Signs the query of `url` with the secret key and appends the
    /// signature as the last parameter.
    pub fn sign_url_query(&self, url: Url) -> (r: ClientResult<Url>)
        ensures
            agrees_url(r, signed_parts(self.spec_secret().spec_secret_key(), url_parts(url))),
            r is Ok ==> signature(
                self.spec_secret().spec_secret_key()->0,
                url_parts(url).query_text(),
            ).len() == 2 * TAG_BYTES,
    {
        let ghost parts = url_parts(url);
        let mut url = url;
        let query: String = match url.query() {
            Some(v) => v.to_string(),
            None => {
                return Err(ClientError::EmptyQuery);
            },
        };
        if query.as_str().is_empty() {
            return Err(ClientError::EmptyQuery);
        }
        let secret = match self.secret().secret_key() {
            Ok(key) => key,
            Err(e) => {
                return Err(e);
            },
        };
        if url.as_str().as_bytes().len() as u128 > MAX_URL_BYTES as u128 {
            return Err(ClientError::too_long());
        }
        proof {
            lemma_query_within_text(parts);
        }
        let hex = sign(secret.as_str(), query.as_str());
        match try_append_pair(&mut url, SIGNATURE_PARAMETER, hex.as_str()) {
            Ok(_) => Ok(url),
            Err(e) => Err(e),
        }
    }

    /// The URL of a call: the base URL with the path set and the parameters
    /// appended.
    fn locate(&self, path: &str, params: &Params) -> (r: ClientResult<Url>)
        ensures
            match r {
                Ok(url) => self.target(path@, params@) == Some(url_parts(url)),
                Err(e) => self.target(path@, params@) is None && e.kind()
                    == ErrorKind::UrlConstruction,
            },
    {
        let mut url = match self.base_url() {
            Ok(url) => url,
            Err(e) => {
                return Err(e);
            },
        };
        match try_set_path(&mut url, path) {
            Ok(_) => {},
            Err(e) => {
                return Err(e);
            },
        }
        let ghost start = url_parts(url);
        let mut i: usize = 0;
        assert(params@.take(0) =~= Seq::<Pair>::empty());
        while i < params.len()
            invariant
                i <= params@.len(),
                self.target(path@, params@) == start.with_pairs(params@),
                start.with_pairs(params@.take(i as int)) == Some(url_parts(url)),
            decreases params@.len() - i,
        {
            proof {
                let next = params@.take(i + 1);
                assert(next.drop_last() =~= params@.take(i as int));
                assert(next.last() == params@[i as int]);
            }
            match try_append_pair(&mut url, params.name(i), params.value(i)) {
                Ok(_) => {},
                Err(e) => {
                    proof {
                        assert(start.with_pairs(params@.take(i + 1)) is None);
                        lemma_with_pairs_none(start, params@, i + 1);
                    }
                    return Err(e);
                },
            }
            i = i + 1;
        }
        assert(params@.take(i as int) =~= params@);
        Ok(url)
    }

    /// A request for a public endpoint: the method, the path set on the base
    /// URL, and the parameters in the order given. Nothing is signed and no
    /// API key is attached.
    pub fn unsigned(&self, method: Method, path: &str, params: &Params) -> (r: ClientResult<
        RequestBuilder,
    >)
        ensures
            agrees(r, self.unsigned_outcome(method, path@, params@)),
    {
        match self.locate(path, params) {
            Ok(url) => Ok(
                match method {
                    Method::Get => self.build_request_get(url),
                    Method::Post => self.build_request_post(url),
                },
            ),
            Err(e) => Err(e),
        }
    }

    /// A request for a public endpoint whose parameters may all be absent:
    /// as `unsigned`, but the URL has a query even then, an empty one.
    pub fn unsigned_with_query(&self, method: Method, path: &str, params: &Params) -> (r:
        ClientResult<RequestBuilder>)
        ensures
            agrees(r, self.unsigned_with_query_outcome(method, path@, params@)),
    {
        let mut url = match self.locate(path, params) {
            Ok(url) => url,
            Err(e) => {
                return Err(e);
            },
        };
        match try_open_query(&mut url) {
            Ok(_) => Ok(
                match method {
                    Method::Get => self.build_request_get(url),
                    Method::Post => self.build_request_post(url),
                },
            ),
            Err(e) => Err(e),
        }
    }

    /// A request for a privileged endpoint: as `unsigned`, with the query
    /// signed under the secret key and the API key attached.
    pub fn signed(&self, method: Method, path: &str, params: &Params) -> (r: ClientResult<
        RequestBuilder,
    >)
        ensures
            agrees(r, self.signed_outcome(method, path@, params@)),
            r is Ok ==> signature(
                self.spec_secret().spec_secret_key()->0,
                self.target(path@, params@)->0.query_text(),
            ).len() == 2 * TAG_BYTES,
    {
        let url = match self.locate(path, params) {
            Ok(url) => url,
            Err(e) => {
                return Err(e);
            },
        };
        let request = match method {
            Method::Get => self.build_sign_request_get(url),
            Method::Post => self.build_sign_request_post(url),
        };
        match request {
            Ok(request) => match self.secret().api_key() {
                Ok(key) => Ok(request.with_api_key(key)),
                Err(e) => Err(e),
            },
            Err(e) => Err(e),
        }
    }
}

} // verus!
