use vstd::prelude::*;

verus! {

/// A failure while executing a request.
#[derive(Debug)]
pub enum Error {
    /// A middleware of the chain failed.
    Middleware(anyhow::Error),
    /// The underlying `reqwest` client failed.
    Reqwest(reqwest::Error),
}

/// The facade's error for an error of the middleware client: each variant maps to the
/// variant of the same name, with the same payload.
pub open spec fn from_middleware_error(value: reqwest_middleware::Error) -> Error {
    match value {
        reqwest_middleware::Error::Middleware(x) => Error::Middleware(x),
        reqwest_middleware::Error::Reqwest(x) => Error::Reqwest(x),
    }
}

impl From<reqwest_middleware::Error> for Error {
    fn from(value: reqwest_middleware::Error) -> (r: Error)
        ensures
            r == from_middleware_error(value),
    {
        match value {
            reqwest_middleware::Error::Middleware(x) => Error::Middleware(x),
            reqwest_middleware::Error::Reqwest(x) => Error::Reqwest(x),
        }
    }
}

impl vstd::std_specs::convert::FromSpecImpl<reqwest_middleware::Error> for Error {
    open spec fn obeys_from_spec() -> bool {
        true
    }

    open spec fn from_spec(v: reqwest_middleware::Error) -> Error {
        from_middleware_error(v)
    }
}

impl From<reqwest::Error> for Error {
    fn from(value: reqwest::Error) -> (r: Error)
        ensures
            r == Error::Reqwest(value),
    {
        Error::Reqwest(value)
    }
}

impl vstd::std_specs::convert::FromSpecImpl<reqwest::Error> for Error {
    open spec fn obeys_from_spec() -> bool {
        true
    }

    open spec fn from_spec(v: reqwest::Error) -> Error {
        Error::Reqwest(v)
    }
}

impl From<anyhow::Error> for Error {
    fn from(value: anyhow::Error) -> (r: Error)
        ensures
            r == Error::Middleware(value),
    {
        Error::Middleware(value)
    }
}

impl vstd::std_specs::convert::FromSpecImpl<anyhow::Error> for Error {
    open spec fn obeys_from_spec() -> bool {
        true
    }

    open spec fn from_spec(v: anyhow::Error) -> Error {
        Error::Middleware(v)
    }
}

} // verus!
