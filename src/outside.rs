//! Declarations of the `reqwest`, `reqwest_middleware` and `http` items that the facade
//! forwards to, with the contracts that the facade relies on.
use vstd::prelude::*;

use anyhow::Error as AnyError;
use http::Error as HttpError;
use http::Extensions;
use reqwest::header::{HeaderMap, HeaderName, HeaderValue};
use reqwest::multipart::Form;
use reqwest::Client as PlainClient;
use reqwest::Error as PlainError;
use reqwest::RequestBuilder as PlainBuilder;
use reqwest::{Body, IntoUrl, Method, Request, Response, Version};
use reqwest_middleware::ClientWithMiddleware as MwClient;
use reqwest_middleware::Error as MwError;
use reqwest_middleware::RequestBuilder as MwBuilder;
use serde::Serialize;
use std::convert::TryFrom;
use std::fmt::Display;
use std::time::Duration;

verus! {

#[verifier::external_type_specification]
#[verifier::external_body]
pub struct ExPlainClient(PlainClient);

#[verifier::external_type_specification]
#[verifier::external_body]
pub struct ExMiddlewareClient(MwClient);

#[verifier::external_type_specification]
#[verifier::external_body]
pub struct ExPlainBuilder(PlainBuilder);

#[verifier::external_type_specification]
#[verifier::external_body]
pub struct ExMiddlewareBuilder(MwBuilder);

#[verifier::external_type_specification]
#[verifier::external_body]
pub struct ExMethod(Method);

#[verifier::external_type_specification]
#[verifier::external_body]
pub struct ExPlainError(PlainError);

#[verifier::external_type_specification]
#[verifier::external_body]
pub struct ExAnyError(AnyError);

/// The two variants of `reqwest_middleware::Error` are read by the error conversion.
#[verifier::external_type_specification]
pub struct ExMwError(MwError);

#[verifier::external_type_specification]
#[verifier::external_body]
pub struct ExRequest(Request);

#[verifier::external_type_specification]
#[verifier::external_body]
pub struct ExResponse(Response);

#[verifier::external_type_specification]
#[verifier::external_body]
#[verifier::reject_recursive_types(T)]
pub struct ExHeaderMap<T>(HeaderMap<T>);

#[verifier::external_type_specification]
#[verifier::external_body]
pub struct ExVersion(Version);

#[verifier::external_type_specification]
#[verifier::external_body]
pub struct ExForm(Form);

#[verifier::external_type_specification]
#[verifier::external_body]
pub struct ExExtensions(Extensions);

#[verifier::external_type_specification]
#[verifier::external_body]
pub struct ExHeaderValue(HeaderValue);

#[verifier::external_type_specification]
#[verifier::external_body]
pub struct ExHeaderName(HeaderName);

#[verifier::external_type_specification]
#[verifier::external_body]
pub struct ExHttpError(HttpError);

#[verifier::external_type_specification]
#[verifier::external_body]
pub struct ExBody(Body);

/// A bound on the header values of a request below which adding a header cannot make
/// `http`'s `HeaderMap` panic. The map refuses to grow its index table past `1 << 15`
/// slots, and once names collide it doubles the table whenever five times the number of
/// names reaches the table's size: below this bound five times the names stay under
/// `1 << 15`.
pub const HEADER_ROOM: usize = 6553;

/// Whether the plain builder holds an error recorded while it was configured.
pub uninterp spec fn plain_failed(b: PlainBuilder) -> bool;

/// The number of header values of the plain builder's request.
pub uninterp spec fn plain_header_count(b: PlainBuilder) -> nat;

/// Whether the plain builder's request has a body.
pub uninterp spec fn plain_has_body(b: PlainBuilder) -> bool;

/// The method of the plain builder's request.
pub uninterp spec fn plain_method_of(b: PlainBuilder) -> Method;

/// What `reqwest::RequestBuilder::build` returns.
pub uninterp spec fn plain_build_of(b: PlainBuilder) -> Result<Request, PlainError>;

/// What `reqwest::RequestBuilder::try_clone` returns.
pub uninterp spec fn plain_clone_of(b: PlainBuilder) -> Option<PlainBuilder>;

/// What `reqwest::RequestBuilder::headers` returns.
pub uninterp spec fn plain_headers_of(b: PlainBuilder, h: HeaderMap) -> PlainBuilder;

/// What `reqwest::RequestBuilder::version` returns.
pub uninterp spec fn plain_version_of(b: PlainBuilder, v: Version) -> PlainBuilder;

/// What `reqwest::RequestBuilder::timeout` returns.
pub uninterp spec fn plain_timeout_of(b: PlainBuilder, t: Duration) -> PlainBuilder;

/// What `reqwest::RequestBuilder::multipart` returns.
pub uninterp spec fn plain_multipart_of(b: PlainBuilder, f: Form) -> PlainBuilder;

/// The `reqwest` builder that a middleware builder wraps.
pub uninterp spec fn middleware_inner(b: MwBuilder) -> PlainBuilder;

/// The extensions that a middleware builder carries.
pub uninterp spec fn middleware_exts(b: MwBuilder) -> Extensions;

/// The number of extensions that a middleware builder carries.
pub open spec fn middleware_ext_count(b: MwBuilder) -> nat {
    extensions_len(middleware_exts(b))
}

/// The number of extensions in a map.
pub uninterp spec fn extensions_len(e: Extensions) -> nat;

/// The number of values in a header map.
pub uninterp spec fn header_map_len(m: HeaderMap) -> nat;

/// The number of header values of a request.
pub uninterp spec fn request_header_count(r: Request) -> nat;

/// The text of a method.
pub uninterp spec fn method_text(m: Method) -> Seq<char>;

/// `r` is `b` with `n` header values appended, unless `r` holds an error; an error of `b`
/// is kept.
pub open spec fn headers_appended(b: PlainBuilder, r: PlainBuilder, n: nat) -> bool {
    &&& plain_failed(b) ==> plain_failed(r)
    &&& plain_failed(r) || plain_header_count(r) == plain_header_count(b) + n
}

/// `r` is `b` with a body, and a content type unless one was set, unless `r` holds an
/// error; an error of `b` is kept.
pub open spec fn body_encoded(b: PlainBuilder, r: PlainBuilder) -> bool {
    &&& plain_failed(b) ==> plain_failed(r)
    &&& !plain_failed(r) ==> plain_has_body(r) && plain_header_count(b) <= plain_header_count(r)
        <= plain_header_count(b) + 1
}

/// `r` is `b` with a body, and nothing else changed that these names see.
pub open spec fn body_set(b: PlainBuilder, r: PlainBuilder) -> bool {
    &&& plain_failed(r) == plain_failed(b)
    &&& !plain_failed(r) ==> plain_has_body(r)
    &&& plain_header_count(r) == plain_header_count(b)
}

/// `r` is `b` with a longer query string, unless `r` holds an error; an error of `b` is
/// kept.
pub open spec fn query_appended(b: PlainBuilder, r: PlainBuilder) -> bool {
    &&& plain_failed(b) ==> plain_failed(r)
    &&& !plain_failed(r) ==> plain_header_count(r) == plain_header_count(b) && plain_has_body(r)
        == plain_has_body(b)
}

/// `r` holds an error exactly when `b` does, and has its header values and body.
pub open spec fn unchanged_shape(b: PlainBuilder, r: PlainBuilder) -> bool {
    &&& plain_failed(r) == plain_failed(b)
    &&& plain_header_count(r) == plain_header_count(b)
    &&& plain_has_body(r) == plain_has_body(b)
}

/// Whether `n` more header values fit in the builder's header map.
pub open spec fn header_room(b: PlainBuilder, n: nat) -> bool {
    plain_failed(b) || plain_header_count(b) + n < HEADER_ROOM
}


/// Relies on `reqwest::Client`'s `Clone`: a second handle on the same connection pool.
pub assume_specification[ <PlainClient as std::clone::Clone>::clone ](c: &PlainClient) -> PlainClient;

/// Relies on `reqwest_middleware::ClientWithMiddleware`'s `Clone`: the same inner client
/// and middleware chain.
pub assume_specification[ <MwClient as std::clone::Clone>::clone ](c: &MwClient) -> MwClient;

/// Relies on `http::Extensions::clear`: removes every extension.
pub assume_specification[ Extensions::clear ](e: &mut Extensions)
    ensures
        extensions_len(*final(e)) == 0,
;

/// Relies on `http::Extensions::len`.
pub assume_specification[ Extensions::len ](e: &Extensions) -> (r: usize)
    ensures
        r == extensions_len(*e),
;

/// Relies on `http::HeaderMap::len`: the number of values, counting each value of a name.
#[verifier::external_body]
pub(crate) fn header_map_values(m: &HeaderMap) -> (r: usize)
    ensures
        r == header_map_len(*m),
{
    m.len()
}

/// Relies on `http::Method::as_str`.
pub assume_specification[ Method::as_str ](m: &Method) -> (r: &str)
    ensures
        r@ == method_text(*m),
;

/// Relies on `http::Method::GET`.
#[verifier::external_body]
pub(crate) fn method_get() -> (r: Method)
    ensures
        method_text(r) == "GET"@,
{
    Method::GET
}

/// Relies on `http::Method::POST`.
#[verifier::external_body]
pub(crate) fn method_post() -> (r: Method)
    ensures
        method_text(r) == "POST"@,
{
    Method::POST
}

/// Relies on `http::Method::PUT`.
#[verifier::external_body]
pub(crate) fn method_put() -> (r: Method)
    ensures
        method_text(r) == "PUT"@,
{
    Method::PUT
}

/// Relies on `http::Method::PATCH`.
#[verifier::external_body]
pub(crate) fn method_patch() -> (r: Method)
    ensures
        method_text(r) == "PATCH"@,
{
    Method::PATCH
}

/// Relies on `http::Method::DELETE`.
#[verifier::external_body]
pub(crate) fn method_delete() -> (r: Method)
    ensures
        method_text(r) == "DELETE"@,
{
    Method::DELETE
}

/// Relies on `http::Method::HEAD`.
#[verifier::external_body]
pub(crate) fn method_head() -> (r: Method)
    ensures
        method_text(r) == "HEAD"@,
{
    Method::HEAD
}

/// Relies on `reqwest::Client::request`: a builder for `method`, which holds an error when
/// `url` is not a valid URL, with no body and at most the `Authorization` header made from
/// credentials in the URL.
#[verifier::external_body]
pub(crate) fn plain_request<U: IntoUrl>(c: &PlainClient, method: Method, url: U) -> (r:
    PlainBuilder)
    ensures
        !plain_failed(r) ==> plain_method_of(r) == method && plain_header_count(r) <= 1
            && !plain_has_body(r),
{
    c.request(method, url)
}

/// Relies on `reqwest_middleware::ClientWithMiddleware::request`: a builder for `method`
/// and `url` that carries the client's middleware chain, passed through the client's
/// initialisers.
#[verifier::external_body]
pub(crate) fn middleware_request<U: IntoUrl>(c: &MwClient, method: Method, url: U) -> MwBuilder {
    c.request(method, url)
}

/// Relies on `reqwest::RequestBuilder::header`: appends one value, or records an error
/// for an invalid name or value.
#[verifier::external_body]
pub(crate) fn plain_header<K, V>(b: PlainBuilder, key: K, value: V) -> (r: PlainBuilder) where
    HeaderName: TryFrom<K>,
    <HeaderName as TryFrom<K>>::Error: Into<HttpError>,
    HeaderValue: TryFrom<V>,
    <HeaderValue as TryFrom<V>>::Error: Into<HttpError>,
    requires
        header_room(b, 1),
    ensures
        headers_appended(b, r, 1),
        !plain_failed(r) ==> plain_has_body(r) == plain_has_body(b),
{
    b.header(key, value)
}

/// Relies on `reqwest_middleware::RequestBuilder::header`, which applies
/// `reqwest::RequestBuilder::header` to the wrapped builder.
#[verifier::external_body]
pub(crate) fn middleware_header<K, V>(b: MwBuilder, key: K, value: V) -> (r: MwBuilder) where
    HeaderName: TryFrom<K>,
    <HeaderName as TryFrom<K>>::Error: Into<HttpError>,
    HeaderValue: TryFrom<V>,
    <HeaderValue as TryFrom<V>>::Error: Into<HttpError>,
    requires
        header_room(middleware_inner(b), 1),
    ensures
        headers_appended(middleware_inner(b), middleware_inner(r), 1),
        !plain_failed(middleware_inner(r)) ==> plain_has_body(middleware_inner(r))
            == plain_has_body(middleware_inner(b)),
        middleware_exts(r) == middleware_exts(b),
{
    b.header(key, value)
}

/// Relies on `reqwest::RequestBuilder::headers`: merges `headers` in, replacing the
/// values of each name that it holds.
#[verifier::external_body]
pub(crate) fn plain_headers(b: PlainBuilder, headers: HeaderMap) -> (r: PlainBuilder)
    requires
        header_room(b, header_map_len(headers)),
    ensures
        r == plain_headers_of(b, headers),
        plain_failed(r) == plain_failed(b),
{
    b.headers(headers)
}

/// Relies on `reqwest_middleware::RequestBuilder::headers`, which applies
/// `reqwest::RequestBuilder::headers` to the wrapped builder.
#[verifier::external_body]
pub(crate) fn middleware_headers(b: MwBuilder, headers: HeaderMap) -> (r: MwBuilder)
    requires
        header_room(middleware_inner(b), header_map_len(headers)),
    ensures
        middleware_inner(r) == plain_headers_of(middleware_inner(b), headers),
        plain_failed(middleware_inner(r)) == plain_failed(middleware_inner(b)),
        middleware_exts(r) == middleware_exts(b),
{
    b.headers(headers)
}

/// Relies on `reqwest::RequestBuilder::version`.
#[verifier::external_body]
pub(crate) fn plain_version(b: PlainBuilder, version: Version) -> (r: PlainBuilder)
    ensures
        r == plain_version_of(b, version),
        unchanged_shape(b, r),
{
    b.version(version)
}

/// Relies on `reqwest_middleware::RequestBuilder::version`, which applies
/// `reqwest::RequestBuilder::version` to the wrapped builder.
#[verifier::external_body]
pub(crate) fn middleware_version(b: MwBuilder, version: Version) -> (r: MwBuilder)
    ensures
        middleware_inner(r) == plain_version_of(middleware_inner(b), version),
        unchanged_shape(middleware_inner(b), middleware_inner(r)),
        middleware_exts(r) == middleware_exts(b),
{
    b.version(version)
}

/// Relies on `reqwest::RequestBuilder::basic_auth`: appends one `Authorization` value.
#[verifier::external_body]
pub(crate) fn plain_basic_auth<U: Display, P: Display>(
    b: PlainBuilder,
    username: U,
    password: Option<P>,
) -> (r: PlainBuilder)
    requires
        header_room(b, 1),
    ensures
        headers_appended(b, r, 1),
        plain_has_body(r) == plain_has_body(b),
{
    b.basic_auth(username, password)
}

/// Relies on `reqwest_middleware::RequestBuilder::basic_auth`, which applies
/// `reqwest::RequestBuilder::basic_auth` to the wrapped builder.
#[verifier::external_body]
pub(crate) fn middleware_basic_auth<U: Display, P: Display>(
    b: MwBuilder,
    username: U,
    password: Option<P>,
) -> (r: MwBuilder)
    requires
        header_room(middleware_inner(b), 1),
    ensures
        headers_appended(middleware_inner(b), middleware_inner(r), 1),
        plain_has_body(middleware_inner(r)) == plain_has_body(middleware_inner(b)),
        middleware_exts(r) == middleware_exts(b),
{
    b.basic_auth(username, password)
}

/// Relies on `reqwest::RequestBuilder::bearer_auth`: appends one `Authorization` value,
/// or records an error when the token makes an invalid value.
#[verifier::external_body]
pub(crate) fn plain_bearer_auth<T: Display>(b: PlainBuilder, token: T) -> (r: PlainBuilder)
    requires
        header_room(b, 1),
    ensures
        headers_appended(b, r, 1),
        !plain_failed(r) ==> plain_has_body(r) == plain_has_body(b),
{
    b.bearer_auth(token)
}

/// Relies on `reqwest_middleware::RequestBuilder::bearer_auth`, which applies
/// `reqwest::RequestBuilder::bearer_auth` to the wrapped builder.
#[verifier::external_body]
pub(crate) fn middleware_bearer_auth<T: Display>(b: MwBuilder, token: T) -> (r: MwBuilder)
    requires
        header_room(middleware_inner(b), 1),
    ensures
        headers_appended(middleware_inner(b), middleware_inner(r), 1),
        !plain_failed(middleware_inner(r)) ==> plain_has_body(middleware_inner(r))
            == plain_has_body(middleware_inner(b)),
        middleware_exts(r) == middleware_exts(b),
{
    b.bearer_auth(token)
}

/// Relies on `reqwest::RequestBuilder::body`: sets the body unless an error is recorded.
#[verifier::external_body]
pub(crate) fn plain_body<T: Into<Body>>(b: PlainBuilder, body: T) -> (r: PlainBuilder)
    ensures
        body_set(b, r),
{
    b.body(body)
}

/// Relies on `reqwest_middleware::RequestBuilder::body`, which applies
/// `reqwest::RequestBuilder::body` to the wrapped builder.
#[verifier::external_body]
pub(crate) fn middleware_body<T: Into<Body>>(b: MwBuilder, body: T) -> (r: MwBuilder)
    ensures
        body_set(middleware_inner(b), middleware_inner(r)),
        middleware_exts(r) == middleware_exts(b),
{
    b.body(body)
}

/// Relies on `reqwest::RequestBuilder::timeout`.
#[verifier::external_body]
pub(crate) fn plain_timeout(b: PlainBuilder, timeout: Duration) -> (r: PlainBuilder)
    ensures
        r == plain_timeout_of(b, timeout),
        unchanged_shape(b, r),
{
    b.timeout(timeout)
}

/// Relies on `reqwest_middleware::RequestBuilder::timeout`, which applies
/// `reqwest::RequestBuilder::timeout` to the wrapped builder.
#[verifier::external_body]
pub(crate) fn middleware_timeout(b: MwBuilder, timeout: Duration) -> (r: MwBuilder)
    ensures
        middleware_inner(r) == plain_timeout_of(middleware_inner(b), timeout),
        unchanged_shape(middleware_inner(b), middleware_inner(r)),
        middleware_exts(r) == middleware_exts(b),
{
    b.timeout(timeout)
}

/// Relies on `reqwest::RequestBuilder::multipart`: appends `Content-Type` and, when the
/// length is known, `Content-Length`.
#[verifier::external_body]
pub(crate) fn plain_multipart(b: PlainBuilder, form: Form) -> (r: PlainBuilder)
    requires
        header_room(b, 2),
    ensures
        r == plain_multipart_of(b, form),
        plain_failed(b) ==> plain_failed(r),
{
    b.multipart(form)
}

/// Relies on `reqwest_middleware::RequestBuilder::multipart`, which applies
/// `reqwest::RequestBuilder::multipart` to the wrapped builder.
#[verifier::external_body]
pub(crate) fn middleware_multipart(b: MwBuilder, form: Form) -> (r: MwBuilder)
    requires
        header_room(middleware_inner(b), 2),
    ensures
        middleware_inner(r) == plain_multipart_of(middleware_inner(b), form),
        plain_failed(middleware_inner(b)) ==> plain_failed(middleware_inner(r)),
        middleware_exts(r) == middleware_exts(b),
{
    b.multipart(form)
}

/// Relies on `reqwest::RequestBuilder::query`: extends the URL's query string, or records
/// a serialization error.
#[verifier::external_body]
pub(crate) fn plain_query<T: Serialize + ?Sized>(b: PlainBuilder, query: &T) -> (r: PlainBuilder)
    ensures
        query_appended(b, r),
{
    b.query(query)
}

/// Relies on `reqwest_middleware::RequestBuilder::query`, which applies
/// `reqwest::RequestBuilder::query` to the wrapped builder.
#[verifier::external_body]
pub(crate) fn middleware_query<T: Serialize + ?Sized>(b: MwBuilder, query: &T) -> (r: MwBuilder)
    ensures
        query_appended(middleware_inner(b), middleware_inner(r)),
        middleware_exts(r) == middleware_exts(b),
{
    b.query(query)
}

/// Relies on `reqwest::RequestBuilder::form`: sets a url-encoded body and a content type
/// unless one is set, or records a serialization error.
#[verifier::external_body]
pub(crate) fn plain_form<T: Serialize + ?Sized>(b: PlainBuilder, form: &T) -> (r: PlainBuilder)
    requires
        header_room(b, 1),
    ensures
        body_encoded(b, r),
{
    b.form(form)
}

/// Relies on `reqwest_middleware::RequestBuilder::form`, which applies
/// `reqwest::RequestBuilder::form` to the wrapped builder.
#[verifier::external_body]
pub(crate) fn middleware_form<T: Serialize + ?Sized>(b: MwBuilder, form: &T) -> (r: MwBuilder)
    requires
        header_room(middleware_inner(b), 1),
    ensures
        body_encoded(middleware_inner(b), middleware_inner(r)),
        middleware_exts(r) == middleware_exts(b),
{
    b.form(form)
}

/// Relies on `reqwest::RequestBuilder::json`: sets a JSON body and a content type unless
/// one is set, or records a serialization error.
#[verifier::external_body]
pub(crate) fn plain_json<T: Serialize + ?Sized>(b: PlainBuilder, json: &T) -> (r: PlainBuilder)
    requires
        header_room(b, 1),
    ensures
        body_encoded(b, r),
{
    b.json(json)
}

/// Relies on `reqwest_middleware::RequestBuilder::json`, which applies
/// `reqwest::RequestBuilder::json` to the wrapped builder.
#[verifier::external_body]
pub(crate) fn middleware_json<T: Serialize + ?Sized>(b: MwBuilder, json: &T) -> (r: MwBuilder)
    requires
        header_room(middleware_inner(b), 1),
    ensures
        body_encoded(middleware_inner(b), middleware_inner(r)),
        middleware_exts(r) == middleware_exts(b),
{
    b.json(json)
}

/// Relies on `reqwest::RequestBuilder::build`: the request, or the error that was
/// recorded while the builder was configured.
#[verifier::external_body]
pub(crate) fn plain_build(b: PlainBuilder) -> (r: Result<Request, PlainError>)
    ensures
        r == plain_build_of(b),
        r is Err <==> plain_failed(b),
        r matches Ok(req) ==> request_header_count(req) == plain_header_count(b),
{
    b.build()
}

/// Relies on `reqwest_middleware::RequestBuilder::build`, which builds the wrapped
/// `reqwest` builder.
#[verifier::external_body]
pub(crate) fn middleware_build(b: MwBuilder) -> (r: Result<Request, PlainError>)
    ensures
        r == plain_build_of(middleware_inner(b)),
        r is Err <==> plain_failed(middleware_inner(b)),
        r matches Ok(req) ==> request_header_count(req) == plain_header_count(
            middleware_inner(b),
        ),
{
    b.build()
}

/// Relies on `reqwest::Request::headers` and `http::HeaderMap::len`.
#[verifier::external_body]
pub(crate) fn request_headers_len(req: &Request) -> (r: usize)
    ensures
        r == request_header_count(*req),
{
    req.headers().len()
}

/// Relies on `reqwest_middleware::RequestBuilder::with_extension`: inserts the value
/// into the builder's extensions, replacing one of the same type.
#[verifier::external_body]
pub(crate) fn middleware_with_extension<T: Clone + Send + Sync + 'static>(
    b: MwBuilder,
    extension: T,
) -> (r: MwBuilder)
    ensures
        middleware_inner(r) == middleware_inner(b),
        middleware_ext_count(r) == middleware_ext_count(b) || middleware_ext_count(r)
            == middleware_ext_count(b) + 1,
        middleware_ext_count(r) >= 1,
{
    b.with_extension(extension)
}

/// Relies on `reqwest_middleware::RequestBuilder::extensions`: the builder's own
/// extensions.
#[verifier::external_body]
pub(crate) fn middleware_extensions(b: &mut MwBuilder) -> (r: &mut Extensions)
    ensures
        *r == middleware_exts(*old(b)),
        middleware_exts(*final(b)) == *final(r),
        middleware_inner(*final(b)) == middleware_inner(*old(b)),
{
    b.extensions()
}

/// Relies on `reqwest::RequestBuilder::try_clone`: `None` when the body is a stream or an
/// error is recorded.
#[verifier::external_body]
pub(crate) fn plain_try_clone(b: &PlainBuilder) -> (r: Option<PlainBuilder>)
    ensures
        r == plain_clone_of(*b),
        r matches Some(c) ==> !plain_failed(*b) && !plain_failed(c) && plain_header_count(c)
            == plain_header_count(*b),
{
    b.try_clone()
}

/// Relies on `reqwest_middleware::RequestBuilder::try_clone`, which clones the wrapped
/// `reqwest` builder.
#[verifier::external_body]
pub(crate) fn middleware_try_clone(b: &MwBuilder) -> (r: Option<MwBuilder>)
    ensures
        r is Some <==> plain_clone_of(middleware_inner(*b)) is Some,
        r matches Some(c) ==> plain_clone_of(middleware_inner(*b)) == Some(middleware_inner(c))
            && !plain_failed(middleware_inner(*b)) && !plain_failed(middleware_inner(c))
            && plain_header_count(middleware_inner(c)) == plain_header_count(middleware_inner(*b)),
{
    b.try_clone()
}

} // verus!
