//! A client of the LNbits wallet API. It builds each request (URL, API key,
//! JSON payload), maps the status of the answer to an error, and reads the
//! JSON body into typed results; sending the request is left to the caller's
//! HTTP runtime.
use vstd::prelude::*;
use vstd::string::*;

pub mod api;
pub mod json;

verus! {

#[verifier::external_type_specification]
#[verifier::external_body]
pub struct ExUrl(url::Url);

#[verifier::external_type_specification]
#[verifier::external_body]
pub struct ExParseError(url::ParseError);

#[verifier::external_type_specification]
#[verifier::external_body]
pub struct ExReqwestClient(reqwest::Client);

#[verifier::external_type_specification]
#[verifier::external_body]
pub struct ExReqwestProxy(reqwest::Proxy);

#[verifier::external_type_specification]
#[verifier::external_body]
pub struct ExReqwestError(reqwest::Error);

#[verifier::external_type_specification]
#[verifier::external_body]
pub struct ExJsonError(serde_json::Error);

/// Relies on the derived `Clone` of `reqwest::Client`, a handle to a shared
/// connection pool; nothing is claimed of the copy.
pub assume_specification[ <reqwest::Client as Clone>::clone ](c: &reqwest::Client) -> reqwest::Client;

/// Whether `url::Url::parse` accepts the text as an absolute URL.
pub uninterp spec fn url_parses(s: Seq<char>) -> bool;

/// Whether `reqwest::Proxy::all` accepts the text as a proxy address.
pub uninterp spec fn proxy_accepted(s: Seq<char>) -> bool;

/// Relies on `url::Url::parse`: it fails exactly on text that is not a valid
/// absolute URL, and the outcome depends on the text alone.
#[verifier::external_body]
fn parse_url(s: &str) -> (r: Result<url::Url, url::ParseError>)
    ensures
        r is Ok <==> url_parses(s@),
{
    url::Url::parse(s)
}

/// Relies on `reqwest::Proxy::all`: it reads the address as a URL (retrying
/// with an `http://` prefix when the text seems to lack a scheme) and fails
/// when no URL with a host results; the outcome depends on the text alone.
#[verifier::external_body]
fn proxy_all(s: &str) -> (r: Result<reqwest::Proxy, reqwest::Error>)
    ensures
        r is Ok <==> proxy_accepted(s@),
{
    reqwest::Proxy::all(s)
}

/// Relies on `reqwest::ClientBuilder::build` with one proxy for all traffic.
/// Whether it succeeds depends on the machine (TLS backend), so nothing is
/// promised of the outcome.
#[verifier::external_body]
fn build_client_with_proxy(proxy: reqwest::Proxy) -> (r: Result<reqwest::Client, reqwest::Error>) {
    reqwest::Client::builder().proxy(proxy).build()
}

/// Relies on `reqwest::ClientBuilder::build` with direct connectivity.
/// Whether it succeeds depends on the machine, so nothing is promised.
#[verifier::external_body]
fn build_client() -> (r: Result<reqwest::Client, reqwest::Error>) {
    reqwest::Client::builder().build()
}

/// A client of one LNbits wallet: its base URL, its two API keys and the
/// HTTP transport that requests go through.
#[derive(Clone)]
pub struct LNBitsClient {
    admin_key: String,
    invoice_read_key: String,
    lnbits_url: String,
    tor_socket: Option<String>,
    reqwest_client: reqwest::Client,
}

/// The ways in which a call of the client can fail.
#[derive(Debug)]
pub enum LNBitsError {
    /// The HTTP transport failed (connection, TLS, DNS, I/O), or could not
    /// be set up.
    ReqwestError(reqwest::Error),
    /// The base URL, or the endpoint joined to it, is not a valid URL.
    UrlError(url::ParseError),
    /// A response body did not have the expected JSON shape, or a payload
    /// could not be written.
    SerdeError(serde_json::Error),
    /// The service answered 404.
    NotFound,
    /// The service answered 401 to a POST.
    Unauthorized,
}

/// No proxy, or a proxy address that `reqwest::Proxy::all` accepts.
pub open spec fn proxy_setting_ok(tor_socket: Option<&str>) -> bool {
    match tor_socket {
        Some(p) => proxy_accepted(p@),
        None => true,
    }
}

/// An optional string slice, seen as an optional sequence of characters.
pub open spec fn opt_str_view(s: Option<&str>) -> Option<Seq<char>> {
    match s {
        Some(t) => Some(t@),
        None => None,
    }
}

impl LNBitsClient {
    /// The admin key, which pays, decodes and checks payments.
    pub closed spec fn admin_key_view(&self) -> Seq<char> {
        self.admin_key@
    }

    /// The invoice-read key, which creates invoices and reads the wallet.
    pub closed spec fn invoice_read_key_view(&self) -> Seq<char> {
        self.invoice_read_key@
    }

    /// The base URL, as given to `new`.
    pub closed spec fn base_view(&self) -> Seq<char> {
        self.lnbits_url@
    }

    /// The proxy address that all requests go through, if any.
    pub closed spec fn proxy_view(&self) -> Option<Seq<char>> {
        crate::json::opt_view(&self.tor_socket)
    }

    /// Makes a client. The wallet id is accepted for compatibility and not
    /// used. With a proxy address, all requests go through that proxy.
    /// No network activity takes place here.
    pub fn new(
        _wallet_id: &str,
        admin_key: &str,
        invoice_read_key: &str,
        lnbits_url: &str,
        tor_socket: Option<&str>,
    ) -> (r: Result<LNBitsClient, LNBitsError>)
        ensures
            !url_parses(lnbits_url@) <==> r matches Err(LNBitsError::UrlError(_)),
            url_parses(lnbits_url@) && !proxy_setting_ok(tor_socket)
                ==> r matches Err(LNBitsError::ReqwestError(_)),
            r is Ok ==> url_parses(lnbits_url@) && proxy_setting_ok(tor_socket),
            r is Err ==> (r matches Err(LNBitsError::UrlError(_)) || r matches Err(
                LNBitsError::ReqwestError(_),
            )),
            r matches Ok(c) ==> c.admin_key_view() == admin_key@
                && c.invoice_read_key_view() == invoice_read_key@ && c.base_view() == lnbits_url@
                && c.proxy_view() == opt_str_view(tor_socket),
    {
        match parse_url(lnbits_url) {
            Ok(_) => {},
            Err(e) => {
                return Err(LNBitsError::UrlError(e));
            },
        }
        let built = match tor_socket {
            Some(socket) => match proxy_all(socket) {
                Ok(proxy) => build_client_with_proxy(proxy),
                Err(e) => {
                    return Err(LNBitsError::ReqwestError(e));
                },
            },
            None => build_client(),
        };
        match built {
            Ok(client) => Ok(LNBitsClient {
                admin_key: String::from_str(admin_key),
                invoice_read_key: String::from_str(invoice_read_key),
                lnbits_url: String::from_str(lnbits_url),
                tor_socket: match tor_socket {
                    Some(p) => Some(String::from_str(p)),
                    None => None,
                },
                reqwest_client: client,
            }),
            Err(e) => Err(LNBitsError::ReqwestError(e)),
        }
    }

    /// The HTTP transport that this client's requests go through.
    pub fn transport(&self) -> &reqwest::Client {
        &self.reqwest_client
    }
}

} // verus!
