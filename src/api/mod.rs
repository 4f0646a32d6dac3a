//! Requests to the service: which URL, which API key, which body; and how the
//! status of the answer maps to an error.
use vstd::prelude::*;
use vstd::string::*;

use crate::LNBitsClient;
use crate::LNBitsError;

pub mod invoice;
pub mod wallet;

verus! {

/// Which of the wallet's two API keys a request carries.
#[derive(Clone, Copy, Debug, PartialEq, Eq, Structural)]
pub enum LNBitsRequestKey {
    Admin,
    InvoiceRead,
}

/// The HTTP method of a request.
#[derive(Clone, Copy, Debug, PartialEq, Eq, Structural)]
pub enum HttpMethod {
    Get,
    Post,
}

/// The status code of a "not found" answer.
pub const STATUS_NOT_FOUND: u16 = 404;

/// The status code of an "unauthorized" answer.
pub const STATUS_UNAUTHORIZED: u16 = 401;

/// A request ready to be sent: the transport sends `body` (if any) to `url`
/// with the header `X-Api-Key: api_key`, and hands the status and the body
/// of the answer to `read_response`.
pub struct ApiRequest {
    pub method: HttpMethod,
    /// The endpoint, relative to the client's base URL.
    pub path: String,
    /// The endpoint joined to the client's base URL, as text.
    pub url: String,
    pub api_key: String,
    pub body: Option<String>,
}

/// Whether `url::Url::parse` accepts the base and `Url::join` then resolves
/// the endpoint against it.
pub uninterp spec fn url_joins(base: Seq<char>, endpoint: Seq<char>) -> bool;

/// The text of the URL that `url::Url::join` resolves the endpoint to,
/// against the base as `url::Url::parse` reads it.
pub uninterp spec fn joined_url(base: Seq<char>, endpoint: Seq<char>) -> Seq<char>;

/// Relies on `url::Url::parse` and `Url::join`: the endpoint resolved
/// against the base URL, as text, or the error of the parse or the join.
/// Both depend on their arguments alone.
#[verifier::external_body]
fn join_text(base: &str, endpoint: &str) -> (r: Result<String, url::ParseError>)
    ensures
        r is Ok <==> url_joins(base@, endpoint@),
        r matches Ok(t) ==> t@ == joined_url(base@, endpoint@),
{
    url::Url::parse(base).and_then(|u| u.join(endpoint)).map(String::from)
}

/// What comes of an answer with this status to a request with this method:
/// `None` when its body is handed on, else whether the error is "not found".
pub open spec fn status_error(method: HttpMethod, status: u16) -> Option<bool> {
    if status == STATUS_NOT_FOUND {
        Some(true)
    } else if method == HttpMethod::Post && status == STATUS_UNAUTHORIZED {
        Some(false)
    } else {
        None
    }
}

/// A 404 is "not found" whatever the method; a 401 is "unauthorized" when
/// it answers a POST, while to a GET it is handed on with its body.
pub proof fn lemma_status_mapping(method: HttpMethod)
    ensures
        status_error(method, STATUS_NOT_FOUND) == Some(true),
        status_error(HttpMethod::Post, STATUS_UNAUTHORIZED) == Some(false),
        status_error(HttpMethod::Get, STATUS_UNAUTHORIZED) is None,
{
}

impl ApiRequest {
    /// Maps the answer to this request. A 404 is `NotFound` whatever the
    /// method; a 401 is `Unauthorized` for a POST only; to a GET it is
    /// handed on like any other status. Otherwise the body is returned as it
    /// came, uninterpreted.
    pub fn read_response(&self, status: u16, body: String) -> (r: Result<String, LNBitsError>)
        ensures
            status_error(self.method, status) == Some(true) <==> r matches Err(
                LNBitsError::NotFound,
            ),
            status_error(self.method, status) == Some(false) <==> r matches Err(
                LNBitsError::Unauthorized,
            ),
            status_error(self.method, status) is None <==> r == Ok::<String, LNBitsError>(body),
    {
        if status == STATUS_NOT_FOUND {
            Err(LNBitsError::NotFound)
        } else if self.method == HttpMethod::Post && status == STATUS_UNAUTHORIZED {
            Err(LNBitsError::Unauthorized)
        } else {
            Ok(body)
        }
    }
}

impl LNBitsClient {
    /// The value of the key that `key` selects.
    pub open spec fn key_value(&self, key: LNBitsRequestKey) -> Seq<char> {
        match key {
            LNBitsRequestKey::Admin => self.admin_key_view(),
            LNBitsRequestKey::InvoiceRead => self.invoice_read_key_view(),
        }
    }

    fn select_key(&self, key: LNBitsRequestKey) -> (r: String)
        ensures
            r@ == self.key_value(key),
    {
        match key {
            LNBitsRequestKey::Admin => self.admin_key.clone(),
            LNBitsRequestKey::InvoiceRead => self.invoice_read_key.clone(),
        }
    }

    /// A GET of `endpoint` with the key that `key` selects. Fails, with
    /// `UrlError`, exactly when the endpoint does not join the base URL.
    pub fn make_get(&self, endpoint: &str, key: LNBitsRequestKey) -> (r: Result<
        ApiRequest,
        LNBitsError,
    >)
        ensures
            r is Ok <==> url_joins(self.base_view(), endpoint@),
            r is Err ==> r matches Err(LNBitsError::UrlError(_)),
            r matches Ok(req) ==> req.url@ == joined_url(self.base_view(), endpoint@),
            r matches Ok(req) ==> req.method == HttpMethod::Get && req.path@ == endpoint@
                && req.api_key@ == self.key_value(key) && req.body is None,
    {
        match join_text(self.lnbits_url.as_str(), endpoint) {
            Ok(url) => Ok(
                ApiRequest {
                    method: HttpMethod::Get,
                    path: String::from_str(endpoint),
                    url,
                    api_key: self.select_key(key),
                    body: None,
                },
            ),
            Err(e) => Err(LNBitsError::UrlError(e)),
        }
    }

    /// A POST of `body` to `endpoint` with the key that `key` selects. Fails,
    /// with `UrlError`, exactly when the endpoint does not join the base URL.
    pub fn make_post(&self, endpoint: &str, key: LNBitsRequestKey, body: &str) -> (r: Result<
        ApiRequest,
        LNBitsError,
    >)
        ensures
            r is Ok <==> url_joins(self.base_view(), endpoint@),
            r is Err ==> r matches Err(LNBitsError::UrlError(_)),
            r matches Ok(req) ==> req.url@ == joined_url(self.base_view(), endpoint@),
            r matches Ok(req) ==> req.method == HttpMethod::Post && req.path@ == endpoint@
                && req.api_key@ == self.key_value(key) && crate::json::opt_view(&req.body) == Some(body@),
    {
        match join_text(self.lnbits_url.as_str(), endpoint) {
            Ok(url) => Ok(
                ApiRequest {
                    method: HttpMethod::Post,
                    path: String::from_str(endpoint),
                    url,
                    api_key: self.select_key(key),
                    body: Some(String::from_str(body)),
                },
            ),
            Err(e) => Err(LNBitsError::UrlError(e)),
        }
    }
}

} // verus!
