//! Invoices: creating, paying, decoding, and asking whether one was paid.
use vstd::prelude::*;
use vstd::string::*;

use crate::api::ApiRequest;
use crate::api::joined_url;
use crate::api::url_joins;
use crate::api::HttpMethod;
use crate::api::LNBitsRequestKey;
use crate::json::bool_member;
use crate::json::decimal;
use crate::json::has_int;
use crate::json::has_opt_str;
use crate::json::has_str;
use crate::json::has_str_array;
use crate::json::json_int_member;
use crate::json::json_str_array_member;
use crate::json::json_str_member;
use crate::json::read_int;
use crate::json::read_opt_str;
use crate::json::read_str;
use crate::json::read_str_array;
use crate::json::json_bool_member;
use crate::json::json_parses;
use crate::json::json_int;
use crate::json::json_opt_bool;
use crate::json::json_opt_int;
use crate::json::json_opt_string;
use crate::json::json_string;
use crate::json::json_string_of;
use crate::json::opt_bool_text;
use crate::json::opt_int;
use crate::json::opt_int_text;
use crate::json::opt_string_text;
use crate::json::opt_view;
use crate::LNBitsClient;
use crate::LNBitsError;

verus! {

/// The answer to creating an invoice.
#[derive(Debug, Clone, PartialEq, Eq)]
pub struct CreateInvoiceResult {
    pub payment_hash: String,
    /// The invoice, BOLT11-encoded.
    pub payment_request: String,
}

/// The answer to paying an invoice.
#[derive(Debug, Clone, PartialEq, Eq)]
pub struct PayInvoiceResult {
    pub payment_hash: String,
}

/// What an invoice to be created holds.
#[derive(Debug, Clone, PartialEq, Eq)]
pub struct CreateInvoiceParams {
    /// In the smallest unit of `unit`.
    pub amount: i64,
    pub unit: String,
    pub memo: Option<String>,
    /// Seconds until the invoice expires.
    pub expiry: Option<i64>,
    pub webhook: Option<String>,
    pub internal: Option<bool>,
}

/// The fields of a BOLT11 invoice, as the service decodes them.
#[derive(Debug, Clone, PartialEq, Eq)]
pub struct DecodedInvoice {
    pub payment_hash: String,
    pub amount_msat: i64,
    pub description: String,
    pub description_hash: Option<String>,
    pub payee: String,
    pub date: i64,
    pub expiry: i64,
    pub secret: String,
    pub route_hints: Vec<String>,
    pub min_final_cltv_expiry: i64,
}

/// The endpoint for creating and paying invoices.
pub open spec fn payments_path() -> Seq<char> {
    "api/v1/payments"@
}

/// The endpoint for decoding an invoice.
pub open spec fn decode_path() -> Seq<char> {
    "api/v1/payments/decode"@
}

/// The endpoint that tells about one payment.
pub open spec fn payment_path(payment_hash: Seq<char>) -> Seq<char> {
    "api/v1/payments/"@ + payment_hash
}

/// The JSON payload that creates an invoice.
pub open spec fn create_invoice_json(p: &CreateInvoiceParams) -> Seq<char> {
    "{\"out\":false,\"amount\":"@ + decimal(p.amount as int) + ",\"unit\":"@ + json_string_of(
        p.unit@,
    ) + ",\"memo\":"@ + opt_string_text(opt_view(&p.memo)) + ",\"webhook\":"@ + opt_string_text(
        opt_view(&p.webhook),
    ) + ",\"internal\":"@ + opt_bool_text(p.internal) + ",\"expiry\":"@ + opt_int_text(
        opt_int(p.expiry),
    ) + "}"@
}

/// The JSON payload that pays an invoice.
pub open spec fn pay_invoice_json(bolt11: Seq<char>) -> Seq<char> {
    "{\"out\":true,\"bolt11\":"@ + json_string_of(bolt11) + "}"@
}

/// The JSON payload that decodes an invoice.
pub open spec fn decode_invoice_json(invoice: Seq<char>) -> Seq<char> {
    "{\"data\":"@ + json_string_of(invoice) + "}"@
}

/// A request as `make_post` builds it for this client.
pub open spec fn is_post(
    client: &LNBitsClient,
    req: &ApiRequest,
    path: Seq<char>,
    key: LNBitsRequestKey,
    body: Seq<char>,
) -> bool {
    req.method == HttpMethod::Post && req.path@ == path && req.url@ == joined_url(
        client.base_view(),
        path,
    ) && req.api_key@ == client.key_value(key) && opt_view(&req.body) == Some(body)
}

/// The payload that creates an invoice with these parameters.
pub fn create_invoice_payload(params: &CreateInvoiceParams) -> (r: String)
    ensures
        r@ == create_invoice_json(params),
{
    let mut s = String::from_str("{\"out\":false,\"amount\":");
    let amount = json_int(params.amount);
    s.append(amount.as_str());
    s.append(",\"unit\":");
    let unit = json_string(params.unit.as_str());
    s.append(unit.as_str());
    s.append(",\"memo\":");
    let memo = json_opt_string(&params.memo);
    s.append(memo.as_str());
    s.append(",\"webhook\":");
    let webhook = json_opt_string(&params.webhook);
    s.append(webhook.as_str());
    s.append(",\"internal\":");
    s.append(json_opt_bool(params.internal));
    s.append(",\"expiry\":");
    let expiry = json_opt_int(params.expiry);
    s.append(expiry.as_str());
    s.append("}");
    s
}

/// The payload that pays the BOLT11 invoice `bolt11`.
pub fn pay_invoice_payload(bolt11: &str) -> (r: String)
    ensures
        r@ == pay_invoice_json(bolt11@),
{
    let mut s = String::from_str("{\"out\":true,\"bolt11\":");
    let quoted = json_string(bolt11);
    s.append(quoted.as_str());
    s.append("}");
    s
}

/// The payload that decodes the invoice `invoice`.
pub fn decode_invoice_payload(invoice: &str) -> (r: String)
    ensures
        r@ == decode_invoice_json(invoice@),
{
    let mut s = String::from_str("{\"data\":");
    let quoted = json_string(invoice);
    s.append(quoted.as_str());
    s.append("}");
    s
}

/// Whether an invoice counts as paid, from its `paid` member: only a
/// boolean `true` does; an absent member or one of another type counts as
/// not paid.
pub fn paid_flag(member: Option<bool>) -> (r: bool)
    ensures
        r == (member == Some(true)),
{
    match member {
        Some(b) => b,
        None => false,
    }
}

/// Reads the answer about one payment: whether it was paid. Fails with
/// `SerdeError` exactly when the body is not JSON.
pub fn read_paid(body: &str) -> (r: Result<bool, LNBitsError>)
    ensures
        r is Ok <==> json_parses(body@),
        !json_parses(body@) ==> r matches Err(LNBitsError::SerdeError(_)),
        r matches Ok(b) ==> b == (json_bool_member(body@, "paid"@) == Some(true)),
{
    match bool_member(body, "paid") {
        Ok(member) => Ok(paid_flag(member)),
        Err(e) => Err(LNBitsError::SerdeError(e)),
    }
}

/// A JSON body that reads as a `CreateInvoiceResult`.
pub open spec fn create_invoice_result_shape(t: Seq<char>) -> bool {
    json_parses(t) && has_str(t, "payment_hash"@) && has_str(t, "payment_request"@)
}

/// A JSON body that reads as a `PayInvoiceResult`.
pub open spec fn pay_invoice_result_shape(t: Seq<char>) -> bool {
    json_parses(t) && has_str(t, "payment_hash"@)
}

/// A JSON body that reads as a `DecodedInvoice`.
pub open spec fn decoded_invoice_shape(t: Seq<char>) -> bool {
    &&& json_parses(t)
    &&& has_str(t, "payment_hash"@)
    &&& has_int(t, "amount_msat"@)
    &&& has_str(t, "description"@)
    &&& has_opt_str(t, "description_hash"@)
    &&& has_str(t, "payee"@)
    &&& has_int(t, "date"@)
    &&& has_int(t, "expiry"@)
    &&& has_str(t, "secret"@)
    &&& has_str_array(t, "route_hints"@)
    &&& has_int(t, "min_final_cltv_expiry"@)
}

/// `d` holds what the JSON body `t` holds.
pub open spec fn decoded_invoice_of(t: Seq<char>, d: &DecodedInvoice) -> bool {
    &&& json_str_member(t, "payment_hash"@) == Some(d.payment_hash@)
    &&& json_int_member(t, "amount_msat"@) == Some(d.amount_msat as int)
    &&& json_str_member(t, "description"@) == Some(d.description@)
    &&& json_str_member(t, "description_hash"@) == opt_view(&d.description_hash)
    &&& json_str_member(t, "payee"@) == Some(d.payee@)
    &&& json_int_member(t, "date"@) == Some(d.date as int)
    &&& json_int_member(t, "expiry"@) == Some(d.expiry as int)
    &&& json_str_member(t, "secret"@) == Some(d.secret@)
    &&& json_str_array_member(t, "route_hints"@) == Some(d.route_hints.deep_view())
    &&& json_int_member(t, "min_final_cltv_expiry"@) == Some(d.min_final_cltv_expiry as int)
}

impl CreateInvoiceResult {
    /// Reads the answer to creating an invoice. Members that the type does
    /// not name are ignored.
    pub fn from_json(body: &str) -> (r: Result<CreateInvoiceResult, LNBitsError>)
        ensures
            r is Ok <==> create_invoice_result_shape(body@),
            r matches Ok(c) ==> json_str_member(body@, "payment_hash"@) == Some(c.payment_hash@)
                && json_str_member(body@, "payment_request"@) == Some(c.payment_request@),
            r is Err ==> r matches Err(LNBitsError::SerdeError(_)),
            !json_parses(body@) ==> r matches Err(LNBitsError::SerdeError(_)),
    {
        let payment_hash = read_str(body, "payment_hash")?;
        let payment_request = read_str(body, "payment_request")?;
        Ok(CreateInvoiceResult { payment_hash, payment_request })
    }
}

impl PayInvoiceResult {
    /// Reads the answer to paying an invoice.
    pub fn from_json(body: &str) -> (r: Result<PayInvoiceResult, LNBitsError>)
        ensures
            r is Ok <==> pay_invoice_result_shape(body@),
            r matches Ok(p) ==> json_str_member(body@, "payment_hash"@) == Some(p.payment_hash@),
            r is Err ==> r matches Err(LNBitsError::SerdeError(_)),
            !json_parses(body@) ==> r matches Err(LNBitsError::SerdeError(_)),
    {
        let payment_hash = read_str(body, "payment_hash")?;
        Ok(PayInvoiceResult { payment_hash })
    }
}

impl DecodedInvoice {
    /// Reads a decoded invoice. A missing or null `description_hash` is
    /// `None`; members that the type does not name are ignored.
    pub fn from_json(body: &str) -> (r: Result<DecodedInvoice, LNBitsError>)
        ensures
            r is Ok <==> decoded_invoice_shape(body@),
            r matches Ok(d) ==> decoded_invoice_of(body@, &d),
            r is Err ==> r matches Err(LNBitsError::SerdeError(_)),
            !json_parses(body@) ==> r matches Err(LNBitsError::SerdeError(_)),
    {
        let payment_hash = read_str(body, "payment_hash")?;
        let amount_msat = read_int(body, "amount_msat")?;
        let description = read_str(body, "description")?;
        let description_hash = read_opt_str(body, "description_hash")?;
        let payee = read_str(body, "payee")?;
        let date = read_int(body, "date")?;
        let expiry = read_int(body, "expiry")?;
        let secret = read_str(body, "secret")?;
        let route_hints = read_str_array(body, "route_hints")?;
        let min_final_cltv_expiry = read_int(body, "min_final_cltv_expiry")?;
        Ok(
            DecodedInvoice {
                payment_hash,
                amount_msat,
                description,
                description_hash,
                payee,
                date,
                expiry,
                secret,
                route_hints,
                min_final_cltv_expiry,
            },
        )
    }
}

impl LNBitsClient {
    /// The request that creates an invoice, with the invoice-read key. It
    /// fails, with `UrlError`, exactly when the endpoint does not join the
    /// base URL; so do the other requests below.
    pub fn create_invoice(&self, params: &CreateInvoiceParams) -> (r: Result<
        ApiRequest,
        LNBitsError,
    >)
        ensures
            r is Ok <==> url_joins(self.base_view(), payments_path()),
            r is Err ==> r matches Err(LNBitsError::UrlError(_)),
            r matches Ok(req) ==> is_post(
                self,
                &req,
                payments_path(),
                LNBitsRequestKey::InvoiceRead,
                create_invoice_json(params),
            ),
    {
        let payload = create_invoice_payload(params);
        self.make_post("api/v1/payments", LNBitsRequestKey::InvoiceRead, payload.as_str())
    }

    /// The request that pays the BOLT11 invoice `bolt11`, with the admin key.
    pub fn pay_invoice(&self, bolt11: &str) -> (r: Result<ApiRequest, LNBitsError>)
        ensures
            r is Ok <==> url_joins(self.base_view(), payments_path()),
            r is Err ==> r matches Err(LNBitsError::UrlError(_)),
            r matches Ok(req) ==> is_post(
                self,
                &req,
                payments_path(),
                LNBitsRequestKey::Admin,
                pay_invoice_json(bolt11@),
            ),
    {
        let payload = pay_invoice_payload(bolt11);
        self.make_post("api/v1/payments", LNBitsRequestKey::Admin, payload.as_str())
    }

    /// The request that has the service decode `invoice`, with the admin key.
    pub fn decode_invoice(&self, invoice: &str) -> (r: Result<ApiRequest, LNBitsError>)
        ensures
            r is Ok <==> url_joins(self.base_view(), decode_path()),
            r is Err ==> r matches Err(LNBitsError::UrlError(_)),
            r matches Ok(req) ==> is_post(
                self,
                &req,
                decode_path(),
                LNBitsRequestKey::Admin,
                decode_invoice_json(invoice@),
            ),
    {
        let payload = decode_invoice_payload(invoice);
        self.make_post("api/v1/payments/decode", LNBitsRequestKey::Admin, payload.as_str())
    }

    /// The request that asks whether the payment `payment_hash` was paid,
    /// with the admin key; its answer goes to `read_paid`.
    pub fn is_invoice_paid(&self, payment_hash: &str) -> (r: Result<ApiRequest, LNBitsError>)
        ensures
            r is Ok <==> url_joins(self.base_view(), payment_path(payment_hash@)),
            r is Err ==> r matches Err(LNBitsError::UrlError(_)),
            r matches Ok(req) ==> req.url@ == joined_url(self.base_view(), payment_path(payment_hash@)),
            r matches Ok(req) ==> req.method == HttpMethod::Get && req.path@ == payment_path(
                payment_hash@,
            ) && req.api_key@ == self.key_value(LNBitsRequestKey::Admin) && req.body is None,
    {
        let mut path = String::from_str("api/v1/payments/");
        path.append(payment_hash);
        self.make_get(path.as_str(), LNBitsRequestKey::Admin)
    }
}

} // verus!
