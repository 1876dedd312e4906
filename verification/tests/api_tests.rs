use paypal_api::api::{
    authorize_order_request, capture_order_request, create_order_request, order_from_response,
    show_order_details_request, update_order_patch, update_order_request,
    verification_from_response, verify_signature_request, HttpRequest, Method,
};
use paypal_api::common::Currency;
use paypal_api::errors::{PaypalError, ResponseError};
use paypal_api::json::{json_to_string, parse_json, Json};
use paypal_api::orders::{Amount, Intent, OrderStatus, PurchaseUnit};
use paypal_api::webhooks::{Verification, VerificationStatus, WebhookVerificationPayload};

fn usd(value: &str) -> Amount {
    Amount::new(Currency::Usd, value)
}

#[test]
fn update_with_intent_only_is_a_single_replace_at_intent() {
    let body = json_to_string(&update_order_patch(&Some(Intent::Capture), &None));
    assert_eq!(body, r#"[{"op":"replace","path":"/intent","value":"CAPTURE"}]"#);
}

#[test]
fn update_with_a_unit_without_reference_id_uses_the_default_marker() {
    let unit = PurchaseUnit::new(usd("10.00"));
    let body = json_to_string(&update_order_patch(&None, &Some(vec![unit])));
    let expected = r#"[{"op":"replace","path":"/purchase_units/@reference_id='default'","value":{"amount":{"currency_code":"USD","value":"10.00"}}}]"#;
    assert_eq!(body, expected);
}

#[test]
fn update_with_intent_and_two_units_holds_three_operations() {
    let mut u1 = PurchaseUnit::new(usd("1.00"));
    u1.reference_id = Some("first".to_string());
    let mut u2 = PurchaseUnit::new(usd("2.00"));
    u2.reference_id = Some("second".to_string());
    let patch = update_order_patch(&Some(Intent::Authorize), &Some(vec![u1, u2]));
    let ops = match patch {
        Json::Arr(ops) => ops,
        _ => panic!("the patch body is an array"),
    };
    assert_eq!(ops.len(), 3);
    let path_of = |op: &Json| -> String {
        match op {
            Json::Obj(fs) => match fs.iter().find(|f| f.0 == "path") {
                Some((_, Json::Str(s))) => s.clone(),
                _ => panic!("a replace operation has a string path"),
            },
            _ => panic!("an operation is an object"),
        }
    };
    assert_eq!(path_of(&ops[0]), "/intent");
    assert_eq!(path_of(&ops[1]), "/purchase_units/@reference_id='first'");
    assert_eq!(path_of(&ops[2]), "/purchase_units/@reference_id='second'");
}

#[test]
fn update_with_nothing_still_builds_an_empty_operation_array() {
    let req = update_order_request("5O190127TN364715T", &None, &None);
    assert_eq!(req.method, Method::Patch);
    assert_eq!(req.path, "/v2/checkout/orders/5O190127TN364715T");
    assert_eq!(req.content_type.as_deref(), Some("application/json"));
    assert_eq!(req.body.as_deref(), Some("[]"));
}

#[test]
fn the_order_endpoints_use_the_documented_paths() {
    let show = show_order_details_request("ID1");
    assert_eq!((show.method, show.path.as_str()), (Method::Get, "/v2/checkout/orders/ID1"));
    assert!(show.body.is_none());
    let capture = capture_order_request("ID1");
    assert_eq!(
        (capture.method, capture.path.as_str()),
        (Method::Post, "/v2/checkout/orders/ID1/capture"),
    );
    let authorize = authorize_order_request("ID1");
    assert_eq!(
        (authorize.method, authorize.path.as_str()),
        (Method::Post, "/v2/checkout/orders/ID1/authorize"),
    );
}

#[test]
fn create_order_posts_the_payload_as_json() {
    let payload = paypal_api::orders::OrderPayload::new(
        Intent::Capture,
        vec![PurchaseUnit::new(usd("7.50"))],
    );
    let req: HttpRequest = create_order_request(&payload);
    assert_eq!(req.method, Method::Post);
    assert_eq!(req.path, "/v2/checkout/orders");
    assert_eq!(req.content_type.as_deref(), Some("application/json"));
    let expected = r#"{"intent":"CAPTURE","purchase_units":[{"amount":{"currency_code":"USD","value":"7.50"}}]}"#;
    assert_eq!(req.body.as_deref(), Some(expected));
}

#[test]
fn a_created_response_with_an_order_body_is_ok() {
    let body = r#"{"id":"5O190127TN364715T","status":"CREATED","links":[]}"#;
    let r = order_from_response(201, body).expect("a 201 with an order body succeeds");
    assert_eq!(r.id, "5O190127TN364715T");
    assert_eq!(r.status, OrderStatus::Created);
    let reencoded = json_to_string(&paypal_api::orders::encode_order(&r));
    let reparsed = parse_json(&reencoded).unwrap();
    assert_eq!(paypal_api::orders::decode_order(&reparsed), Some(r));
}

#[test]
fn an_unprocessable_response_with_an_error_body_is_an_api_error() {
    let body = r#"{"name":"UNPROCESSABLE_ENTITY","message":"The requested action could not be performed.","debug_id":"8d1"}"#;
    let r = order_from_response(422, body);
    assert_eq!(
        r,
        Err(ResponseError::ApiError(PaypalError {
            name: "UNPROCESSABLE_ENTITY".to_string(),
            message: "The requested action could not be performed.".to_string(),
            debug_id: Some("8d1".to_string()),
            information_link: None,
        }))
    );
}

#[test]
fn a_body_matching_neither_schema_is_malformed_not_swallowed() {
    assert_eq!(
        order_from_response(200, r#"{"unexpected":true}"#),
        Err(ResponseError::MalformedResponse),
    );
    assert_eq!(order_from_response(500, "not json at all"), Err(ResponseError::MalformedResponse));
    assert_eq!(order_from_response(502, r#"{"oops":1}"#), Err(ResponseError::MalformedResponse));
}

fn sample_verification_payload() -> WebhookVerificationPayload {
    WebhookVerificationPayload {
        transmission_id: "69cd13f0-d67a-11e5".to_string(),
        transmission_time: "2016-02-18T20:01:35Z".to_string(),
        cert_url: "https://api.example.com/cert".to_string(),
        auth_algo: "SHA256withRSA".to_string(),
        transmission_sig: "lmI95Jx3Y9nhR5SJWlHVIWpg4AgFk7n9bCHSRxbrd8A9zrhdu2rMyFrmz+Zjh3s3boXB07VXCXUZy/UFzUlnGJn0wDugt7FlSvdKeIJenLRemUxYCPVoEZzg9VFNqOa48gMkvF+XTpxBeUx/kWy6B5cp7GkT2+pOowfRK7OaynuxUoKW3JcMWw272VKjLTtTAShncla7tGF+55rxyt2KNZIIqxNMJ48RDZheGU5w1npu9dZHnPgTXB9iomeVRoD8O/jhRpnKsGrDschyNdkeh81BJJMH4Ctc6lnCCquoP/GzCzz33MMsNdid7vL/NIWaCsekQpW26FpWPi/tfj8nLA==".to_string(),
        webhook_id: "1JE4291016473214C".to_string(),
        webhook_event: Json::Obj(vec![("id".to_string(), Json::Str("WH-1".to_string()))]),
    }
}

#[test]
fn verify_signature_posts_the_payload_with_forced_json() {
    let req = verify_signature_request(&sample_verification_payload());
    assert_eq!(req.method, Method::Post);
    assert_eq!(req.path, "/v1/notifications/verify-webhook-signature");
    assert_eq!(req.content_type.as_deref(), Some("application/json"));
    let body = req.body.expect("the verification request carries a body");
    let parsed = parse_json(&body).unwrap();
    let back = paypal_api::webhooks::decode_webhook_verification_payload(&parsed).unwrap();
    assert_eq!(back, sample_verification_payload());
}

#[test]
fn a_success_verification_body_decodes_to_the_success_variant() {
    let r = verification_from_response(200, r#"{"verification_status":"SUCCESS"}"#);
    assert_eq!(r, Ok(Verification { verification_status: VerificationStatus::Success }));
}

#[test]
fn a_failure_verification_body_decodes_to_the_failure_variant() {
    let r = verification_from_response(200, r#"{"verification_status":"FAILURE"}"#);
    assert_eq!(r, Ok(Verification { verification_status: VerificationStatus::Failure }));
}

#[test]
fn any_other_verification_token_fails_decoding() {
    let r = verification_from_response(200, r#"{"verification_status":"MAYBE"}"#);
    assert_eq!(r, Err(ResponseError::MalformedResponse));
    let lower = verification_from_response(200, r#"{"verification_status":"success"}"#);
    assert_eq!(lower, Err(ResponseError::MalformedResponse));
}
