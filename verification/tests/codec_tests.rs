use paypal_api::capture::{Payment, SellerProtection, SellerProtectionStatus};
use paypal_api::common::{decode_currency, encode_currency, Currency, LinkDescription, Money};
use paypal_api::json::{clone_json, json_to_string, parse_json, Json};
use paypal_api::orders::{
    decode_intent, decode_order, decode_order_status, encode_intent, encode_order, Amount,
    DisbursementMode, Intent, ItemCategoryType, LandingPage, Order, OrderPayload, OrderStatus,
    PayeePreferred, Payer, PayerName, PurchaseUnit, ShippingPreference, UserAction,
};
use paypal_api::webhooks::{decode_webhook, encode_webhook, Webhook};

fn usd(value: &str) -> Amount {
    Amount::new(Currency::Usd, value)
}

#[test]
fn intent_tokens_are_upper_snake_case() {
    assert_eq!(encode_intent(&Intent::Capture), Json::Str("CAPTURE".to_string()));
    assert_eq!(encode_intent(&Intent::Authorize), Json::Str("AUTHORIZE".to_string()));
    assert_eq!(decode_intent(&Json::Str("CAPTURE".to_string())), Some(Intent::Capture));
    assert_eq!(decode_intent(&Json::Str("AUTHORIZE".to_string())), Some(Intent::Authorize));
}

#[test]
fn intent_decode_rejects_tokens_outside_the_table() {
    assert_eq!(decode_intent(&Json::Str("capture".to_string())), None);
    assert_eq!(decode_intent(&Json::Str("Capture".to_string())), None);
    assert_eq!(decode_intent(&Json::Str("SAVE".to_string())), None);
    assert_eq!(decode_intent(&Json::Str("".to_string())), None);
    assert_eq!(decode_intent(&Json::Int(1)), None);
}

#[test]
fn currency_tokens_round_trip() {
    let all = [
        Currency::Aud, Currency::Brl, Currency::Cad, Currency::Chf, Currency::Cny,
        Currency::Eur, Currency::Gbp, Currency::Jpy, Currency::Mxn, Currency::Nzd,
        Currency::Pln, Currency::Sek, Currency::Usd,
    ];
    for c in all {
        assert_eq!(decode_currency(&encode_currency(&c)), Some(c));
    }
    assert_eq!(decode_currency(&Json::Str("usd".to_string())), None);
    assert_eq!(decode_currency(&Json::Str("US".to_string())), None);
}

#[test]
fn order_status_decode_rejects_unknown_tokens() {
    assert_eq!(decode_order_status(&Json::Str("CREATED".to_string())), Some(OrderStatus::Created));
    assert_eq!(decode_order_status(&Json::Str("DONE".to_string())), None);
}

#[test]
fn defaults_match_the_documented_ones() {
    assert_eq!(Intent::default(), Intent::Capture);
    assert_eq!(DisbursementMode::default(), DisbursementMode::Instant);
    assert_eq!(ItemCategoryType::default(), ItemCategoryType::Digital);
    assert_eq!(LandingPage::default(), LandingPage::NoPreference);
    assert_eq!(ShippingPreference::default(), ShippingPreference::GetFromFile);
    assert_eq!(UserAction::default(), UserAction::Continue);
    assert_eq!(PayeePreferred::default(), PayeePreferred::Unrestricted);
}

#[test]
fn constructors_fill_only_the_required_fields() {
    let a = usd("10.00");
    assert_eq!(a.currency_code, Currency::Usd);
    assert_eq!(a.value, "10.00");
    assert!(a.breakdown.is_none());
    let u = PurchaseUnit::new(usd("10.00"));
    assert!(u.reference_id.is_none());
    assert_eq!(u.amount.value, "10.00");
    assert!(u.items.is_none());
    let p = OrderPayload::new(Intent::Capture, vec![PurchaseUnit::new(usd("10.00"))]);
    assert_eq!(p.intent, Intent::Capture);
    assert_eq!(p.purchase_units.len(), 1);
    assert!(p.payer.is_none());
}

fn sample_order() -> Order {
    let mut unit = PurchaseUnit::new(usd("49.99"));
    unit.reference_id = Some("unit_a".to_string());
    unit.description = Some("a \"quoted\" description\\with escapes\n".to_string());
    Order {
        create_time: Some("2024-03-01T10:15:30Z".to_string()),
        update_time: None,
        id: "5O190127TN364715T".to_string(),
        payment_source: None,
        intent: Some(Intent::Capture),
        payer: Some(Payer {
            name: Some(PayerName {
                given_name: "Ada".to_string(),
                surname: "Lovelace".to_string(),
            }),
            email_address: Some("ada@example.com".to_string()),
            payer_id: None,
            phone: None,
            birth_date: None,
            tax_info: None,
            address: None,
        }),
        purchase_units: Some(vec![unit]),
        status: OrderStatus::Created,
        links: vec![LinkDescription {
            href: "https://api.example.com/v2/checkout/orders/5O190127TN364715T".to_string(),
            rel: "self".to_string(),
            method: Some("GET".to_string()),
        }],
    }
}

#[test]
fn order_round_trips_through_json_text() {
    let order = sample_order();
    let text = json_to_string(&encode_order(&order));
    let parsed = parse_json(&text).expect("the serializer emits well-formed JSON");
    let back = decode_order(&parsed).expect("the encoded order decodes");
    assert_eq!(back, order);
}

#[test]
fn order_decode_accepts_any_field_order() {
    let text = r#"{"status":"APPROVED","links":[],"id":"X7"}"#;
    let parsed = parse_json(text).unwrap();
    let order = decode_order(&parsed).expect("reordered fields decode");
    assert_eq!(order.id, "X7");
    assert_eq!(order.status, OrderStatus::Approved);
    assert!(order.links.is_empty());
    assert!(order.create_time.is_none());
}

#[test]
fn order_decode_rejects_missing_required_fields() {
    let no_status = parse_json(r#"{"id":"X7","links":[]}"#).unwrap();
    assert_eq!(decode_order(&no_status), None);
    let no_id = parse_json(r#"{"status":"SAVED","links":[]}"#).unwrap();
    assert_eq!(decode_order(&no_id), None);
}

#[test]
fn order_decode_rejects_malformed_timestamps() {
    let bad = parse_json(r#"{"id":"X7","status":"SAVED","links":[],"create_time":"yesterday"}"#)
        .unwrap();
    assert_eq!(decode_order(&bad), None);
    let good = parse_json(
        r#"{"id":"X7","status":"SAVED","links":[],"create_time":"2024-03-01T10:15:30Z"}"#,
    )
    .unwrap();
    assert!(decode_order(&good).is_some());
}

#[test]
fn money_encoding_is_a_decimal_string() {
    let m = Money { currency_code: Currency::Jpy, value: "1200".to_string() };
    let j = paypal_api::common::encode_money(&m);
    assert_eq!(json_to_string(&j), r#"{"currency_code":"JPY","value":"1200"}"#);
    assert_eq!(paypal_api::common::decode_money(&j), Some(m));
}

#[test]
fn string_escaping_survives_a_parse() {
    let tricky = Json::Str("a\"b\\c\nd\te".to_string());
    let text = json_to_string(&tricky);
    assert_eq!(text, "\"a\\\"b\\\\c\\u000ad\\u0009e\"");
    assert_eq!(parse_json(&text), Some(tricky));
}

#[test]
fn integers_print_in_decimal() {
    assert_eq!(json_to_string(&Json::Int(0)), "0");
    assert_eq!(json_to_string(&Json::Int(-42)), "-42");
    assert_eq!(json_to_string(&Json::Int(i64::MIN)), "-9223372036854775808");
    assert_eq!(parse_json("-9223372036854775808"), Some(Json::Int(i64::MIN)));
}

#[test]
fn clone_json_copies_the_whole_tree() {
    let j = parse_json(r#"{"a":[1,true,null,"s"],"b":{"c":"d"}}"#).unwrap();
    assert_eq!(clone_json(&j), j);
}

#[test]
fn payment_decodes_from_the_capture_schema() {
    let text = r#"{
        "amount":{"currency_code":"USD","value":"10.99"},
        "seller_protection":{"dispute_categories":["ITEM_NOT_RECEIVED"],"status":"ELIGABLE"},
        "final_capture":true,
        "links":[],
        "id":"3C679366HH908993F",
        "status":"COMPLETED"
    }"#;
    let parsed = parse_json(text).unwrap();
    let p: Payment = paypal_api::capture::decode_payment(&parsed).expect("payment decodes");
    assert_eq!(p.amount.value, "10.99");
    assert_eq!(p.final_capture, Some(true));
    assert_eq!(
        p.seller_protection,
        Some(SellerProtection {
            dispute_categories: vec!["ITEM_NOT_RECEIVED".to_string()],
            status: SellerProtectionStatus::Eligable,
        })
    );
    let back = parse_json(&json_to_string(&paypal_api::capture::encode_payment(&p))).unwrap();
    assert_eq!(paypal_api::capture::decode_payment(&back), Some(p));
}

#[test]
fn webhook_round_trips_with_its_raw_resource() {
    let text = r#"{
        "id":"WH-1","create_time":"2024-01-02T03:04:05Z","event_type":"CHECKOUT.ORDER.APPROVED",
        "resource_type":"checkout-order","resource_version":"2.0","summary":"An order was approved",
        "resource":{"id":"5O1","status":"APPROVED"},"zts":1494957670,"event_version":"1.0","links":[]
    }"#;
    let parsed = parse_json(text).unwrap();
    let w: Webhook = decode_webhook(&parsed).expect("webhook decodes");
    assert_eq!(w.event_type, "CHECKOUT.ORDER.APPROVED");
    assert_eq!(w.zts, Some(1494957670));
    let back = parse_json(&json_to_string(&encode_webhook(&w))).unwrap();
    assert_eq!(decode_webhook(&back), Some(w));
}
