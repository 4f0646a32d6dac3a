use lnbits_rust::api::invoice::create_invoice_payload;
use lnbits_rust::api::invoice::decode_invoice_payload;
use lnbits_rust::api::invoice::paid_flag;
use lnbits_rust::api::invoice::pay_invoice_payload;
use lnbits_rust::api::invoice::read_paid;
use lnbits_rust::api::invoice::CreateInvoiceParams;
use lnbits_rust::api::invoice::CreateInvoiceResult;
use lnbits_rust::api::invoice::DecodedInvoice;
use lnbits_rust::api::invoice::PayInvoiceResult;
use lnbits_rust::api::wallet::WalletDetails;
use lnbits_rust::api::HttpMethod;
use lnbits_rust::LNBitsClient;
use lnbits_rust::LNBitsError;

fn client() -> LNBitsClient {
    LNBitsClient::new("w", "admin_key", "invoice_read_key", "http://localhost:5000", None).unwrap()
}

fn minimal_params() -> CreateInvoiceParams {
    CreateInvoiceParams {
        amount: 1,
        unit: "sat".to_string(),
        memo: None,
        expiry: None,
        webhook: None,
        internal: None,
    }
}

#[test]
fn create_invoice_sends_the_minimal_payload() {
    let c = client();
    let req = c.create_invoice(&minimal_params()).unwrap();
    assert_eq!(req.method, HttpMethod::Post);
    assert_eq!(req.path, "api/v1/payments");
    assert_eq!(req.api_key, "invoice_read_key");
    assert_eq!(
        req.body.unwrap(),
        "{\"out\":false,\"amount\":1,\"unit\":\"sat\",\"memo\":null,\"webhook\":null,\"internal\":null,\"expiry\":null}"
    );
}

#[test]
fn create_invoice_payload_with_every_field() {
    let params = CreateInvoiceParams {
        amount: -25,
        unit: "usd".to_string(),
        memo: Some("say \"hi\"\n".to_string()),
        expiry: Some(3600),
        webhook: Some("https://example.com/hook".to_string()),
        internal: Some(true),
    };
    assert_eq!(
        create_invoice_payload(&params),
        "{\"out\":false,\"amount\":-25,\"unit\":\"usd\",\"memo\":\"say \\\"hi\\\"\\n\",\"webhook\":\"https://example.com/hook\",\"internal\":true,\"expiry\":3600}"
    );
}

#[test]
fn create_invoice_payload_extreme_amounts() {
    let mut params = minimal_params();
    params.amount = i64::MIN;
    params.internal = Some(false);
    params.expiry = Some(0);
    assert_eq!(
        create_invoice_payload(&params),
        "{\"out\":false,\"amount\":-9223372036854775808,\"unit\":\"sat\",\"memo\":null,\"webhook\":null,\"internal\":false,\"expiry\":0}"
    );
    params.amount = i64::MAX;
    assert!(create_invoice_payload(&params).contains("\"amount\":9223372036854775807,"));
}

#[test]
fn create_invoice_result_reads_both_fields() {
    let r = CreateInvoiceResult::from_json("{\"payment_hash\":\"abc\",\"payment_request\":\"lnbc...\"}").unwrap();
    assert_eq!(r.payment_hash, "abc");
    assert_eq!(r.payment_request, "lnbc...");
}

#[test]
fn create_invoice_result_missing_field_is_serde_error() {
    let r = CreateInvoiceResult::from_json("{\"payment_hash\":\"abc\"}");
    assert!(matches!(r, Err(LNBitsError::SerdeError(_))));
}

#[test]
fn pay_invoice_sends_bolt11_with_admin_key() {
    let c = client();
    let req = c.pay_invoice("lnbc1...").unwrap();
    assert_eq!(req.method, HttpMethod::Post);
    assert_eq!(req.path, "api/v1/payments");
    assert_eq!(req.url.as_str(), "http://localhost:5000/api/v1/payments");
    assert_eq!(req.api_key, "admin_key");
    assert_eq!(req.body.unwrap(), "{\"out\":true,\"bolt11\":\"lnbc1...\"}");
    assert_eq!(pay_invoice_payload("lnbc1..."), "{\"out\":true,\"bolt11\":\"lnbc1...\"}");
}

#[test]
fn pay_invoice_result_reads_the_hash() {
    let r = PayInvoiceResult::from_json("{\"payment_hash\":\"def\",\"checking_id\":\"x\"}").unwrap();
    assert_eq!(r.payment_hash, "def");
}

#[test]
fn decode_invoice_request() {
    let c = client();
    let req = c.decode_invoice("lnbc1xyz").unwrap();
    assert_eq!(req.path, "api/v1/payments/decode");
    assert_eq!(req.api_key, "admin_key");
    assert_eq!(req.body.unwrap(), "{\"data\":\"lnbc1xyz\"}");
    assert_eq!(decode_invoice_payload("a\\b"), "{\"data\":\"a\\\\b\"}");
}

#[test]
fn decoded_invoice_reads_every_field() {
    let body = "{\"payment_hash\":\"ph\",\"amount_msat\":1000,\"description\":\"d\",\
                \"description_hash\":null,\"payee\":\"pk\",\"date\":1700000000,\"expiry\":3600,\
                \"secret\":\"s\",\"route_hints\":[\"r1\",\"r2\"],\"min_final_cltv_expiry\":18}";
    let d = DecodedInvoice::from_json(body).unwrap();
    assert_eq!(
        d,
        DecodedInvoice {
            payment_hash: "ph".to_string(),
            amount_msat: 1000,
            description: "d".to_string(),
            description_hash: None,
            payee: "pk".to_string(),
            date: 1700000000,
            expiry: 3600,
            secret: "s".to_string(),
            route_hints: vec!["r1".to_string(), "r2".to_string()],
            min_final_cltv_expiry: 18,
        }
    );
}

#[test]
fn decoded_invoice_wrong_type_is_serde_error() {
    let body = "{\"payment_hash\":\"ph\",\"amount_msat\":\"lots\",\"description\":\"d\",\
                \"payee\":\"pk\",\"date\":1,\"expiry\":1,\"secret\":\"s\",\"route_hints\":[],\
                \"min_final_cltv_expiry\":1}";
    assert!(matches!(DecodedInvoice::from_json(body), Err(LNBitsError::SerdeError(_))));
}

#[test]
fn is_invoice_paid_request() {
    let c = client();
    let req = c.is_invoice_paid("abc").unwrap();
    assert_eq!(req.method, HttpMethod::Get);
    assert_eq!(req.path, "api/v1/payments/abc");
    assert_eq!(req.url.as_str(), "http://localhost:5000/api/v1/payments/abc");
    assert_eq!(req.api_key, "admin_key");
    assert_eq!(req.body, None);
}

#[test]
fn paid_true_is_true() {
    assert!(read_paid("{\"paid\":true}").unwrap());
}

#[test]
fn paid_absent_is_false() {
    assert!(!read_paid("{}").unwrap());
}

#[test]
fn paid_of_wrong_type_is_false() {
    assert!(!read_paid("{\"paid\":\"yes\"}").unwrap());
    assert!(!read_paid("[true]").unwrap());
}

#[test]
fn paid_flag_only_for_true() {
    assert!(paid_flag(Some(true)));
    assert!(!paid_flag(Some(false)));
    assert!(!paid_flag(None));
}

#[test]
fn paid_from_malformed_json_is_serde_error() {
    assert!(matches!(read_paid("{\"paid\":"), Err(LNBitsError::SerdeError(_))));
}

#[test]
fn malformed_json_is_serde_error_for_every_typed_answer() {
    let bad = "{not json";
    assert!(matches!(CreateInvoiceResult::from_json(bad), Err(LNBitsError::SerdeError(_))));
    assert!(matches!(PayInvoiceResult::from_json(bad), Err(LNBitsError::SerdeError(_))));
    assert!(matches!(DecodedInvoice::from_json(bad), Err(LNBitsError::SerdeError(_))));
    assert!(matches!(WalletDetails::from_json(bad), Err(LNBitsError::SerdeError(_))));
    assert!(matches!(WalletDetails::from_json(""), Err(LNBitsError::SerdeError(_))));
}

#[test]
fn wallet_details_without_id() {
    let w = WalletDetails::from_json("{\"name\":\"x\",\"balance\":1000}").unwrap();
    assert_eq!(w.id, None);
    assert_eq!(w.name, "x");
    assert_eq!(w.balance, 1000);
}

#[test]
fn wallet_details_with_id() {
    let w = WalletDetails::from_json("{\"id\":\"w1\",\"name\":\"x\",\"balance\":-3}").unwrap();
    assert_eq!(w.id, Some("w1".to_string()));
    assert_eq!(w.balance, -3);
    assert!(matches!(
        WalletDetails::from_json("{\"id\":7,\"name\":\"x\",\"balance\":1}"),
        Err(LNBitsError::SerdeError(_))
    ));
}
