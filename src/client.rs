use vstd::prelude::*;

use crate::builder::RequestBuilder;
use crate::outside::{self, method_text, plain_method_of};
use crate::MiddlewareClient;
use reqwest::{IntoUrl, Method};

verus! {

/// Either a plain `reqwest::Client` or a `reqwest_middleware::ClientWithMiddleware`.
#[derive(Clone, Debug)]
pub enum Client {
    Vanilla(reqwest::Client),
    Middleware(MiddlewareClient),
}

impl From<reqwest::Client> for Client {
    fn from(value: reqwest::Client) -> (r: Client)
        ensures
            r == Client::Vanilla(value),
    {
        Client::Vanilla(value)
    }
}

impl vstd::std_specs::convert::FromSpecImpl<reqwest::Client> for Client {
    open spec fn obeys_from_spec() -> bool {
        true
    }

    open spec fn from_spec(v: reqwest::Client) -> Client {
        Client::Vanilla(v)
    }
}

impl From<MiddlewareClient> for Client {
    fn from(value: MiddlewareClient) -> (r: Client)
        ensures
            r == Client::Middleware(value),
    {
        Client::Middleware(value)
    }
}

impl vstd::std_specs::convert::FromSpecImpl<MiddlewareClient> for Client {
    open spec fn obeys_from_spec() -> bool {
        true
    }

    open spec fn from_spec(v: MiddlewareClient) -> Client {
        Client::Middleware(v)
    }
}

impl Client {
    /// Whether requests made through this client pass through a middleware chain.
    pub open spec fn uses_middleware(&self) -> bool {
        self is Middleware
    }

    /// `r` is a builder of this client's kind. From a plain client, unless the URL was
    /// invalid, it is a fresh request with method text `m` and no body, whose only header
    /// may be the `Authorization` made from credentials in the URL. (A middleware client
    /// passes its builders through initialisers of its own.)
    pub open spec fn starts_request(&self, r: RequestBuilder, m: Seq<char>) -> bool {
        &&& r.uses_middleware() == self.uses_middleware()
        &&& self.uses_middleware() || r.extension_count() == 0
        &&& !self.uses_middleware() && !r.failed() ==> {
            &&& method_text(plain_method_of(r.held())) == m
            &&& r.header_total() <= 1
            &&& !r.has_body()
        }
    }

    /// A `GET` request to `url`; see [`Client::request`].
    pub fn get<U: IntoUrl>(&self, url: U) -> (r: RequestBuilder)
        ensures
            self.starts_request(r, "GET"@),
    {
        self.request(outside::method_get(), url)
    }

    /// A `POST` request to `url`; see [`Client::request`].
    pub fn post<U: IntoUrl>(&self, url: U) -> (r: RequestBuilder)
        ensures
            self.starts_request(r, "POST"@),
    {
        self.request(outside::method_post(), url)
    }

    /// A `PUT` request to `url`; see [`Client::request`].
    pub fn put<U: IntoUrl>(&self, url: U) -> (r: RequestBuilder)
        ensures
            self.starts_request(r, "PUT"@),
    {
        self.request(outside::method_put(), url)
    }

    /// A `PATCH` request to `url`; see [`Client::request`].
    pub fn patch<U: IntoUrl>(&self, url: U) -> (r: RequestBuilder)
        ensures
            self.starts_request(r, "PATCH"@),
    {
        self.request(outside::method_patch(), url)
    }

    /// A `DELETE` request to `url`; see [`Client::request`].
    pub fn delete<U: IntoUrl>(&self, url: U) -> (r: RequestBuilder)
        ensures
            self.starts_request(r, "DELETE"@),
    {
        self.request(outside::method_delete(), url)
    }

    /// A `HEAD` request to `url`; see [`Client::request`].
    pub fn head<U: IntoUrl>(&self, url: U) -> (r: RequestBuilder)
        ensures
            self.starts_request(r, "HEAD"@),
    {
        self.request(outside::method_head(), url)
    }

    /// A request with `method` to `url`, built by the held client: a builder of the same
    /// kind as this client. An invalid `url` is reported by `build`, not here.
    pub fn request<U: IntoUrl>(&self, method: Method, url: U) -> (r: RequestBuilder)
        ensures
            self.starts_request(r, method_text(method)),
            !self.uses_middleware() && !r.failed() ==> plain_method_of(r.held()) == method,
    {
        match self {
            Client::Vanilla(c) => RequestBuilder::Vanilla(outside::plain_request(c, method, url)),
            Client::Middleware(c) => RequestBuilder::Middleware(
                outside::middleware_request(c, method, url),
            ),
        }
    }
}

} // verus!
