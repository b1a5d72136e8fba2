use vstd::prelude::*;

use crate::outside::{
    self, body_encoded, body_set, header_map_len, header_room, headers_appended,
    middleware_exts, middleware_inner, plain_build_of, plain_clone_of, plain_failed,
    plain_has_body, plain_header_count, plain_headers_of, plain_multipart_of, plain_timeout_of,
    plain_version_of, query_appended,
};
use http::Extensions;
use reqwest::header::{HeaderMap, HeaderName, HeaderValue};
use reqwest::multipart::Form;
use reqwest::{Body, Request, Version};
use serde::Serialize;
use std::convert::TryFrom;
use std::fmt::Display;
use std::time::Duration;

verus! {

/// Either a `reqwest::RequestBuilder` or a `reqwest_middleware::RequestBuilder`, with the
/// same API over both.
///
/// A builder is made by a [`crate::Client`] and is of the same kind as that client; each
/// configuring method consumes it and returns a builder of the same kind.
#[must_use]
#[derive(Debug)]
pub enum RequestBuilder {
    Vanilla(reqwest::RequestBuilder),
    Middleware(reqwest_middleware::RequestBuilder),
}

impl RequestBuilder {
    /// Whether this builder belongs to a client with a middleware chain.
    pub open spec fn uses_middleware(&self) -> bool {
        self is Middleware
    }

    /// The `reqwest` builder that accumulates the request: the held one, or the one that
    /// the middleware builder wraps.
    pub open spec fn held(&self) -> reqwest::RequestBuilder {
        match self {
            RequestBuilder::Vanilla(b) => *b,
            RequestBuilder::Middleware(m) => middleware_inner(*m),
        }
    }

    /// Whether an error was recorded while configuring; `build` then returns it.
    pub open spec fn failed(&self) -> bool {
        plain_failed(self.held())
    }

    /// The number of header values accumulated so far.
    pub open spec fn header_total(&self) -> nat {
        plain_header_count(self.held())
    }

    /// Whether a body has been set.
    pub open spec fn has_body(&self) -> bool {
        plain_has_body(self.held())
    }

    /// The number of extensions; a plain builder has none.
    pub open spec fn extension_count(&self) -> nat {
        match self {
            RequestBuilder::Vanilla(_) => 0,
            RequestBuilder::Middleware(m) => outside::middleware_ext_count(*m),
        }
    }

    /// The extensions of a middleware builder; a plain builder has no place for them.
    pub open spec fn extension_map(&self) -> Option<Extensions> {
        match self {
            RequestBuilder::Vanilla(_) => None,
            RequestBuilder::Middleware(m) => Some(middleware_exts(*m)),
        }
    }

    /// Whether `n` more header values fit into the request's header map.
    pub open spec fn has_header_room(&self, n: nat) -> bool {
        header_room(self.held(), n)
    }

    /// `r` is of this builder's kind, with the same extensions.
    pub open spec fn same_kind_and_extensions(&self, r: RequestBuilder) -> bool {
        &&& r.uses_middleware() == self.uses_middleware()
        &&& r.extension_map() == self.extension_map()
    }

    /// `r` holds an error exactly when this builder does, with its header values and body.
    pub open spec fn same_shape(&self, r: RequestBuilder) -> bool {
        outside::unchanged_shape(self.held(), r.held())
    }

    /// Adds a header. An invalid name or value is recorded and reported by `build`.
    pub fn header<K, V>(self, key: K, value: V) -> (r: Self) where
        HeaderName: TryFrom<K>,
        <HeaderName as TryFrom<K>>::Error: Into<http::Error>,
        HeaderValue: TryFrom<V>,
        <HeaderValue as TryFrom<V>>::Error: Into<http::Error>,
    requires
        self.has_header_room(1),
    ensures
        self.same_kind_and_extensions(r),
        headers_appended(self.held(), r.held(), 1),
        !r.failed() ==> r.has_body() == self.has_body(),
    {
        match self {
            RequestBuilder::Vanilla(c) => RequestBuilder::Vanilla(outside::plain_header(c, key, value)),
            RequestBuilder::Middleware(c) => RequestBuilder::Middleware(
                outside::middleware_header(c, key, value),
            ),
        }
    }

    /// Merges `headers` in: each name of `headers` gets its values from there.
    pub fn headers(self, headers: HeaderMap) -> (r: Self)
        requires
            self.has_header_room(header_map_len(headers)),
        ensures
            self.same_kind_and_extensions(r),
            r.held() == plain_headers_of(self.held(), headers),
            r.failed() == self.failed(),
    {
        match self {
            RequestBuilder::Vanilla(c) => RequestBuilder::Vanilla(outside::plain_headers(c, headers)),
            RequestBuilder::Middleware(c) => RequestBuilder::Middleware(
                outside::middleware_headers(c, headers),
            ),
        }
    }

    /// Sets the HTTP version.
    pub fn version(self, version: Version) -> (r: Self)
        ensures
            self.same_kind_and_extensions(r),
            r.held() == plain_version_of(self.held(), version),
            self.same_shape(r),
    {
        match self {
            RequestBuilder::Vanilla(c) => RequestBuilder::Vanilla(outside::plain_version(c, version)),
            RequestBuilder::Middleware(c) => RequestBuilder::Middleware(
                outside::middleware_version(c, version),
            ),
        }
    }

    /// Adds a basic `Authorization` header.
    pub fn basic_auth<U: Display, P: Display>(self, username: U, password: Option<P>) -> (r: Self)
        requires
            self.has_header_room(1),
        ensures
            self.same_kind_and_extensions(r),
            headers_appended(self.held(), r.held(), 1),
            r.has_body() == self.has_body(),
    {
        match self {
            RequestBuilder::Vanilla(c) => RequestBuilder::Vanilla(
                outside::plain_basic_auth(c, username, password),
            ),
            RequestBuilder::Middleware(c) => RequestBuilder::Middleware(
                outside::middleware_basic_auth(c, username, password),
            ),
        }
    }

    /// Adds a bearer `Authorization` header.
    pub fn bearer_auth<T: Display>(self, token: T) -> (r: Self)
        requires
            self.has_header_room(1),
        ensures
            self.same_kind_and_extensions(r),
            headers_appended(self.held(), r.held(), 1),
            !r.failed() ==> r.has_body() == self.has_body(),
    {
        match self {
            RequestBuilder::Vanilla(c) => RequestBuilder::Vanilla(outside::plain_bearer_auth(c, token)),
            RequestBuilder::Middleware(c) => RequestBuilder::Middleware(
                outside::middleware_bearer_auth(c, token),
            ),
        }
    }

    /// Sets the body.
    pub fn body<T: Into<Body>>(self, body: T) -> (r: Self)
        ensures
            self.same_kind_and_extensions(r),
            body_set(self.held(), r.held()),
    {
        match self {
            RequestBuilder::Vanilla(c) => RequestBuilder::Vanilla(outside::plain_body(c, body)),
            RequestBuilder::Middleware(c) => RequestBuilder::Middleware(
                outside::middleware_body(c, body),
            ),
        }
    }

    /// Sets a timeout for this request alone.
    pub fn timeout(self, timeout: Duration) -> (r: Self)
        ensures
            self.same_kind_and_extensions(r),
            r.held() == plain_timeout_of(self.held(), timeout),
            self.same_shape(r),
    {
        match self {
            RequestBuilder::Vanilla(c) => RequestBuilder::Vanilla(outside::plain_timeout(c, timeout)),
            RequestBuilder::Middleware(c) => RequestBuilder::Middleware(
                outside::middleware_timeout(c, timeout),
            ),
        }
    }

    /// Sets a multipart body, with its `Content-Type` and, when known, `Content-Length`.
    pub fn multipart(self, multipart: Form) -> (r: Self)
        requires
            self.has_header_room(2),
        ensures
            self.same_kind_and_extensions(r),
            r.held() == plain_multipart_of(self.held(), multipart),
            self.failed() ==> r.failed(),
    {
        match self {
            RequestBuilder::Vanilla(c) => RequestBuilder::Vanilla(outside::plain_multipart(c, multipart)),
            RequestBuilder::Middleware(c) => RequestBuilder::Middleware(
                outside::middleware_multipart(c, multipart),
            ),
        }
    }

    /// Appends `query` to the URL's query string; a serialization error is recorded.
    pub fn query<T: Serialize + ?Sized>(self, query: &T) -> (r: Self)
        ensures
            self.same_kind_and_extensions(r),
            query_appended(self.held(), r.held()),
    {
        match self {
            RequestBuilder::Vanilla(c) => RequestBuilder::Vanilla(outside::plain_query(c, query)),
            RequestBuilder::Middleware(c) => RequestBuilder::Middleware(
                outside::middleware_query(c, query),
            ),
        }
    }

    /// Sets a url-encoded form body; a serialization error is recorded.
    pub fn form<T: Serialize + ?Sized>(self, form: &T) -> (r: Self)
        requires
            self.has_header_room(1),
        ensures
            self.same_kind_and_extensions(r),
            body_encoded(self.held(), r.held()),
    {
        match self {
            RequestBuilder::Vanilla(c) => RequestBuilder::Vanilla(outside::plain_form(c, form)),
            RequestBuilder::Middleware(c) => RequestBuilder::Middleware(
                outside::middleware_form(c, form),
            ),
        }
    }

    /// Sets a JSON body; a serialization error is recorded.
    pub fn json<T: Serialize + ?Sized>(self, json: &T) -> (r: Self)
        requires
            self.has_header_room(1),
        ensures
            self.same_kind_and_extensions(r),
            body_encoded(self.held(), r.held()),
    {
        match self {
            RequestBuilder::Vanilla(c) => RequestBuilder::Vanilla(outside::plain_json(c, json)),
            RequestBuilder::Middleware(c) => RequestBuilder::Middleware(
                outside::middleware_json(c, json),
            ),
        }
    }

    /// Builds the request that the held `reqwest` builder accumulated, or returns the
    /// error recorded while configuring it (an invalid URL or header). Both kinds build
    /// the same request from the same `reqwest` builder; extensions are not part of it.
    pub fn build(self) -> (r: reqwest::Result<Request>)
        ensures
            r == plain_build_of(self.held()),
            r is Err <==> self.failed(),
            r matches Ok(req) ==> outside::request_header_count(req) == self.header_total(),
    {
        match self {
            RequestBuilder::Vanilla(c) => outside::plain_build(c),
            RequestBuilder::Middleware(c) => outside::middleware_build(c),
        }
    }

    /// Inserts `extension` into the request's extensions, replacing one of the same type,
    /// if this builder has a middleware chain; a plain builder is returned as it is.
    pub fn with_extension<T: Clone + Send + Sync + 'static>(self, extension: T) -> (r: Self)
        ensures
            r.uses_middleware() == self.uses_middleware(),
            r.held() == self.held(),
            !self.uses_middleware() ==> r == self,
            r.extension_map() is Some <==> self.extension_map() is Some,
            self.uses_middleware() ==> r.extension_count() >= 1 && (r.extension_count()
                == self.extension_count() || r.extension_count() == self.extension_count()
                + 1),
    {
        match self {
            RequestBuilder::Middleware(c) => RequestBuilder::Middleware(
                outside::middleware_with_extension(c, extension),
            ),
            c => c,
        }
    }

    /// The request's own extensions, to read or change in place. Only a builder with a
    /// middleware chain has them.
    pub fn extensions(&mut self) -> (r: &mut Extensions)
        requires
            old(self).uses_middleware(),
        ensures
            final(self).uses_middleware(),
            final(self).held() == old(self).held(),
            old(self).extension_map() == Some(*r),
            final(self).extension_map() == Some(*final(r)),
    {
        match self {
            RequestBuilder::Middleware(c) => outside::middleware_extensions(c),
            RequestBuilder::Vanilla(_) => vstd::pervasive::unreached(),
        }
    }

    /// A copy of this builder, of the same kind, or `None` when its body is a stream or
    /// it holds a configuration error. Extensions are not copied: the copy has none.
    pub fn try_clone(&self) -> (r: Option<Self>)
        ensures
            r is Some <==> plain_clone_of(self.held()) is Some,
            r matches Some(b) ==> {
                &&& b.uses_middleware() == self.uses_middleware()
                &&& plain_clone_of(self.held()) == Some(b.held())
                &&& b.extension_count() == 0
                &&& !self.failed() && !b.failed()
                &&& b.header_total() == self.header_total()
            },
    {
        match self {
            RequestBuilder::Vanilla(c) => match outside::plain_try_clone(c) {
                Some(b) => Some(RequestBuilder::Vanilla(b)),
                None => None,
            },
            RequestBuilder::Middleware(c) => match outside::middleware_try_clone(c) {
                Some(mut b) => {
                    outside::middleware_extensions(&mut b).clear();
                    Some(RequestBuilder::Middleware(b))
                },
                None => None,
            },
        }
    }

    /// Adds a header where the header count can be read and leaves room for one more;
    /// otherwise hands the builder back unchanged in `Err`.
    pub fn checked_header<K, V>(self, key: K, value: V) -> (r: Result<Self, Self>) where
        HeaderName: TryFrom<K>,
        <HeaderName as TryFrom<K>>::Error: Into<http::Error>,
        HeaderValue: TryFrom<V>,
        <HeaderValue as TryFrom<V>>::Error: Into<http::Error>,
    ensures
        r is Ok <==> plain_clone_of(self.held()) is Some && self.header_total() + 1
            < outside::HEADER_ROOM,
        r matches Err(b) ==> b == self,
        r matches Ok(b) ==> {
            &&& self.same_kind_and_extensions(b)
            &&& headers_appended(self.held(), b.held(), 1)
            &&& !b.failed() ==> b.has_body() == self.has_body()
        },
    {
        match self.count_headers() {
            Some(n) => {
                if n < outside::HEADER_ROOM - 1 {
                    Ok(self.header(key, value))
                } else {
                    Err(self)
                }
            },
            None => Err(self),
        }
    }

    /// Merges `headers` in where the header count can be read and leaves room for all of
    /// their values; otherwise hands the builder back unchanged in `Err`.
    pub fn checked_headers(self, headers: HeaderMap) -> (r: Result<Self, Self>)
        ensures
            r is Ok <==> plain_clone_of(self.held()) is Some && self.header_total()
                + header_map_len(headers) < outside::HEADER_ROOM,
            r matches Err(b) ==> b == self,
            r matches Ok(b) ==> {
                &&& self.same_kind_and_extensions(b)
                &&& b.held() == plain_headers_of(self.held(), headers)
                &&& b.failed() == self.failed()
            },
    {
        match self.count_headers() {
            Some(n) => {
                let extra = outside::header_map_values(&headers);
                if n < outside::HEADER_ROOM && extra < outside::HEADER_ROOM - n {
                    Ok(self.headers(headers))
                } else {
                    Err(self)
                }
            },
            None => Err(self),
        }
    }

    /// The number of header values accumulated so far, to test a builder against
    /// `has_header_room` before adding headers; `None` where the builder cannot be
    /// copied (a streamed body, or a recorded error).
    pub fn count_headers(&self) -> (r: Option<usize>)
        ensures
            r is Some <==> plain_clone_of(self.held()) is Some,
            r matches Some(n) ==> !self.failed() && n == self.header_total(),
    {
        match self.try_clone() {
            Some(copy) => match copy.build() {
                Ok(req) => Some(outside::request_headers_len(&req)),
                Err(_) => None,
            },
            None => None,
        }
    }
}

/// The number of values in `headers`, to test a builder against `has_header_room` before
/// merging `headers` into it.
pub fn header_map_values(headers: &HeaderMap) -> (r: usize)
    ensures
        r == header_map_len(*headers),
{
    outside::header_map_values(headers)
}

/// Whether every builder of `chain` is of the same kind as the one before it, as each
/// configuring call guarantees of the builder that it returns.
pub open spec fn each_step_keeps_kind(chain: Seq<RequestBuilder>) -> bool {
    forall|i: int|
        0 < i < chain.len() ==> #[trigger] chain[i].uses_middleware() == chain[i
            - 1].uses_middleware()
}
/// Along a chain of configuring calls, every builder is of the kind of the first: a plain
/// builder never turns into a middleware one, nor the reverse.
pub proof fn lemma_chain_keeps_kind(chain: Seq<RequestBuilder>)
    requires
        each_step_keeps_kind(chain),
    ensures
        forall|i: int|
            0 <= i < chain.len() ==> #[trigger] chain[i].uses_middleware()
                == chain[0].uses_middleware(),
    decreases chain.len(),
{
    if chain.len() > 1 {
        let prefix = chain.drop_last();
        assert(each_step_keeps_kind(prefix)) by {
            assert forall|i: int| 0 < i < prefix.len() implies #[trigger] prefix[i].uses_middleware()
                == prefix[i - 1].uses_middleware() by {
                assert(prefix[i] == chain[i] && prefix[i - 1] == chain[i - 1]);
            }
        }
        lemma_chain_keeps_kind(prefix);
        assert forall|i: int| 0 <= i < chain.len() implies #[trigger] chain[i].uses_middleware()
            == chain[0].uses_middleware() by {
            if i < prefix.len() {
                assert(prefix[i] == chain[i]);
            } else {
                assert(chain[i - 1] == prefix[i - 1]);
            }
        }
    }
}

} // verus!
