//! The API key that a request has to show.

use vstd::prelude::*;
use vstd::string::*;
use crate::config::Config;
use crate::text::text_of;

verus! {

/// The key that a request was admitted with; empty in developer mode.
#[derive(Debug, PartialEq, Eq)]
pub struct ApiKey(pub String);

/// Why a request was not admitted.
#[derive(Clone, Copy, Debug, PartialEq, Eq, Structural)]
pub enum ApiKeyError {
    /// The request shows a key that is not configured.
    Invalid,
    /// The request shows no key.
    Missing,
}

impl ApiKeyError {
    /// The HTTP status code that answers the request.
    pub open spec fn status_code(self) -> u16 {
        match self {
            ApiKeyError::Invalid => 401,
            ApiKeyError::Missing => 400,
        }
    }

    /// The explanation sent with the status.
    pub open spec fn reason(self) -> Seq<char> {
        match self {
            ApiKeyError::Invalid => "Api key is invalid."@,
            ApiKeyError::Missing => "Missing `x-api-key` header."@,
        }
    }

    pub fn status(self) -> (r: u16)
        ensures
            r == self.status_code(),
    {
        match self {
            ApiKeyError::Invalid => 401,
            ApiKeyError::Missing => 400,
        }
    }

    pub fn message(self) -> (r: &'static str)
        ensures
            r@ == self.reason(),
    {
        match self {
            ApiKeyError::Invalid => "Api key is invalid.",
            ApiKeyError::Missing => "Missing `x-api-key` header.",
        }
    }
}

/// Whether a request that shows `header` as its `x-api-key` is admitted
/// under `config`, and with which key. Developer mode admits every request,
/// with the empty key. Otherwise a request without the header is refused as
/// missing its key, and one with the header is admitted exactly if the key
/// is configured.
pub open spec fn admission(config: &Config, header: Option<Seq<char>>) -> Result<
    Seq<char>,
    ApiKeyError,
> {
    if config.dev {
        Ok(Seq::empty())
    } else {
        match header {
            None => Err(ApiKeyError::Missing),
            Some(key) => if config.accepts(key) {
                Ok(key)
            } else {
                Err(ApiKeyError::Invalid)
            },
        }
    }
}

/// The view of an admission: the key as text, or the refusal.
pub open spec fn admitted(r: Result<ApiKey, ApiKeyError>) -> Result<Seq<char>, ApiKeyError> {
    match r {
        Ok(key) => Ok(key@),
        Err(e) => Err(e),
    }
}

impl View for ApiKey {
    type V = Seq<char>;

    open spec fn view(&self) -> Seq<char> {
        self.0@
    }
}

impl ApiKey {
    /// Checks the `x-api-key` header of a request (`None`: the request has
    /// none) against the configuration.
    pub fn from_request(config: &Config, header: Option<&str>) -> (r: Result<ApiKey, ApiKeyError>)
        ensures
            admitted(r) == admission(config, text_of(header)),
    {
        if config.dev {
            Ok(ApiKey(String::new()))
        } else {
            match header {
                Some(key) => {
                    if config.has_key(key) {
                        Ok(ApiKey(String::from_str(key)))
                    } else {
                        Err(ApiKeyError::Invalid)
                    }
                },
                None => Err(ApiKeyError::Missing),
            }
        }
    }

    /// The key as text.
    pub fn as_str(&self) -> (r: &str)
        ensures
            r@ == self@,
    {
        self.0.as_str()
    }
}

} // verus!
