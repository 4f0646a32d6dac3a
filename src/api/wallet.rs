//! The wallet: its name and balance.
use vstd::prelude::*;

use crate::api::ApiRequest;
use crate::api::joined_url;
use crate::api::url_joins;
use crate::api::HttpMethod;
use crate::api::LNBitsRequestKey;
use crate::json::has_int;
use crate::json::has_opt_str;
use crate::json::has_str;
use crate::json::json_int_member;
use crate::json::json_parses;
use crate::json::json_str_member;
use crate::json::opt_view;
use crate::json::read_int;
use crate::json::read_opt_str;
use crate::json::read_str;
use crate::LNBitsClient;
use crate::LNBitsError;

verus! {

/// The wallet as the service reports it at the time of the call.
#[derive(Debug, Clone, PartialEq, Eq)]
pub struct WalletDetails {
    /// Listed by the service's documentation, but not sent in practice.
    pub id: Option<String>,
    pub name: String,
    pub balance: i64,
}

/// The endpoint that describes the wallet.
pub open spec fn wallet_path() -> Seq<char> {
    "api/v1/wallet"@
}

/// A JSON body that reads as a `WalletDetails`.
pub open spec fn wallet_details_shape(t: Seq<char>) -> bool {
    json_parses(t) && has_opt_str(t, "id"@) && has_str(t, "name"@) && has_int(t, "balance"@)
}

/// `w` holds what the JSON body `t` holds.
pub open spec fn wallet_details_of(t: Seq<char>, w: &WalletDetails) -> bool {
    opt_view(&w.id) == json_str_member(t, "id"@) && json_str_member(t, "name"@) == Some(w.name@)
        && json_int_member(t, "balance"@) == Some(w.balance as int)
}

impl WalletDetails {
    /// Reads a wallet from the body of the service's answer. Members that
    /// the type does not name are ignored; a missing `id` is `None`.
    pub fn from_json(body: &str) -> (r: Result<WalletDetails, LNBitsError>)
        ensures
            r is Ok <==> wallet_details_shape(body@),
            r matches Ok(w) ==> wallet_details_of(body@, &w),
            r is Err ==> r matches Err(LNBitsError::SerdeError(_)),
            !json_parses(body@) ==> r matches Err(LNBitsError::SerdeError(_)),
    {
        let id = read_opt_str(body, "id")?;
        let name = read_str(body, "name")?;
        let balance = read_int(body, "balance")?;
        Ok(WalletDetails { id, name, balance })
    }
}

impl LNBitsClient {
    /// The request for the wallet's details, with the invoice-read key; its
    /// answer goes to `WalletDetails::from_json`.
    pub fn get_wallet_details(&self) -> (r: Result<ApiRequest, LNBitsError>)
        ensures
            r is Ok <==> url_joins(self.base_view(), wallet_path()),
            r is Err ==> r matches Err(LNBitsError::UrlError(_)),
            r matches Ok(req) ==> req.url@ == joined_url(self.base_view(), wallet_path()),
            r matches Ok(req) ==> req.method == HttpMethod::Get && req.path@ == wallet_path()
                && req.api_key@ == self.key_value(LNBitsRequestKey::InvoiceRead) && req.body is None,
    {
        self.make_get("api/v1/wallet", LNBitsRequestKey::InvoiceRead)
    }
}

} // verus!
