//! The API operations, as pure request construction and response
//! interpretation. Sending a request is the caller's business: every
//! operation here builds an [`HttpRequest`] from plain values, and its
//! response is classified from the status code and body text alone.
//!
//! Success is any status in the 200 range. A failing status is decoded as
//! the provider's structured error body; a body that matches neither
//! schema is reported as a malformed response rather than swallowed.

use vstd::prelude::*;

use crate::codec::entry;
use crate::errors::{decode_paypal_error, paypal_error_of_jv, PaypalErrorV, ResponseError, ResponseErrorV};
use crate::json::{json_to_string, jv_text, parse_json, parsed_json, Json, Jv};
use crate::codec::push_field;
use crate::orders::{
    decode_order, encode_intent, encode_order_payload, encode_purchase_unit, intent_token,
    lemma_order_round_trip, order_jv, order_of_jv, order_payload_jv, order_wf, purchase_unit_jv,
    Intent, Order, OrderPayload, OrderV, PurchaseUnit, PurchaseUnitV,
};
use crate::json::lemma_jv_get_head;
use crate::webhooks::{
    decode_verification, encode_webhook_verification_payload, lemma_verification_status_tokens,
    verification_of_jv,
    webhook_verification_payload_jv, Verification, VerificationV, VerificationStatus,
    verification_status_of_token, WebhookVerificationPayload,
};

verus! {

broadcast use vstd::string::group_string_axioms, vstd::std_specs::vec::group_vec_axioms, vstd::seq::group_seq_axioms;

/// The HTTP method an operation uses.
#[derive(Debug, Clone, Copy, PartialEq, Eq)]
pub enum Method {
    Get,
    Post,
    Patch,
}

/// One request to the provider, ready to be sent: the method, the path
/// below the caller's base endpoint, the content type the request forces,
/// and the body text, if any.
#[derive(Debug, Clone, PartialEq, Eq)]
pub struct HttpRequest {
    pub method: Method,
    pub path: String,
    pub content_type: Option<String>,
    pub body: Option<String>,
}

/// The replace operation for an order's intent.
pub open spec fn intent_patch_jv(i: Intent) -> Jv {
    Jv::Obj(
        entry("op"@, Jv::Str("replace"@)) + entry("path"@, Jv::Str("/intent"@)) + entry(
            "value"@,
            Jv::Str(intent_token(i)),
        ),
    )
}

/// The path a purchase unit is addressed by in a partial update: its own
/// reference id, or the provider's `default` marker when it declares none.
pub open spec fn unit_patch_path(reference_id: Option<Seq<char>>) -> Seq<char> {
    "/purchase_units/@reference_id='"@ + (match reference_id {
        Some(r) => r,
        None => "default"@,
    }) + "'"@
}

/// The replace operation for one purchase unit.
pub open spec fn unit_patch_jv(u: PurchaseUnitV) -> Jv {
    Jv::Obj(
        entry("op"@, Jv::Str("replace"@)) + entry("path"@, Jv::Str(unit_patch_path(u.reference_id)))
            + entry("value"@, purchase_unit_jv(u)),
    )
}

/// The replace operations for a list of purchase units, in order.
pub open spec fn unit_patches_jv(us: Seq<PurchaseUnitV>) -> Seq<Jv> {
    Seq::new(us.len(), |i: int| unit_patch_jv(us[i]))
}

/// The whole PATCH body for an order update: one replace operation for the
/// intent if one is supplied, then one per supplied purchase unit. With
/// nothing to update the array is empty, and the call is still made.
pub open spec fn update_order_patch_jv(intent: Option<Intent>, us: Option<Seq<PurchaseUnitV>>) -> Jv {
    Jv::Arr(
        (match intent {
            Some(i) => seq![intent_patch_jv(i)],
            None => Seq::<Jv>::empty(),
        }) + (match us {
            Some(s) => unit_patches_jv(s),
            None => Seq::<Jv>::empty(),
        }),
    )
}

fn intent_patch(i: &Intent) -> (j: Json)
    ensures
        j@ == intent_patch_jv(*i),
{
    let mut fs: Vec<(String, Json)> = Vec::new();
    push_field(&mut fs, "op", Json::Str(String::from_str("replace")));
    push_field(&mut fs, "path", Json::Str(String::from_str("/intent")));
    push_field(&mut fs, "value", encode_intent(i));
    let r = Json::Obj(fs);
    proof {
        assert(r@->Obj_0 =~= intent_patch_jv(*i)->Obj_0);
        assert(r@ == intent_patch_jv(*i));
    }
    r
}

fn unit_patch(u: &PurchaseUnit) -> (j: Json)
    ensures
        j@ == unit_patch_jv(u.deep_view()),
{
    let mut path = String::from_str("/purchase_units/@reference_id='");
    match &u.reference_id {
        Some(r) => {
            path.append(r.as_str());
        },
        None => {
            path.append("default");
        },
    }
    path.append("'");
    let mut fs: Vec<(String, Json)> = Vec::new();
    push_field(&mut fs, "op", Json::Str(String::from_str("replace")));
    push_field(&mut fs, "path", Json::Str(path));
    push_field(&mut fs, "value", encode_purchase_unit(u));
    let r = Json::Obj(fs);
    proof {
        assert(r@->Obj_0 =~= unit_patch_jv(u.deep_view())->Obj_0);
        assert(r@ == unit_patch_jv(u.deep_view()));
    }
    r
}

/// Build the PATCH body for an order update.
pub fn update_order_patch(intent: &Option<Intent>, purchase_units: &Option<Vec<PurchaseUnit>>) -> (j:
    Json)
    ensures
        j@ == update_order_patch_jv(intent.deep_view(), purchase_units.deep_view()),
{
    let mut ops: Vec<Json> = Vec::new();
    match intent {
        Some(i) => {
            ops.push(intent_patch(i));
            proof {
                assert(ops@.len() == 1 && ops@[0]@ == intent_patch_jv(*i));
            }
        },
        None => {},
    }
    let ghost base: Seq<Json> = ops@;
    match purchase_units {
        Some(us) => {
            let mut k: usize = 0;
            while k < us.len()
                invariant
                    k <= us.len(),
                    ops@.len() == base.len() + k,
                    forall|m: int| 0 <= m < base.len() ==> ops@[m] == base[m],
                    forall|m: int| 0 <= m < k ==> (#[trigger] ops@[base.len() + m]@)
                        == unit_patch_jv(us.deep_view()[m]),
                decreases us.len() - k,
            {
                ops.push(unit_patch(&us[k]));
                k += 1;
            }
        },
        None => {},
    }
    let r = Json::Arr(ops);
    proof {
        let ip: Seq<Jv> = match intent.deep_view() {
            Some(i) => seq![intent_patch_jv(i)],
            None => Seq::<Jv>::empty(),
        };
        let up: Seq<Jv> = match purchase_units.deep_view() {
            Some(s) => unit_patches_jv(s),
            None => Seq::<Jv>::empty(),
        };
        assert(ops@.len() == ip.len() + up.len());
        assert forall|n: int| 0 <= n < ops@.len() implies ops@[n]@ == (ip + up)[n] by {
            if n < base.len() {
                assert(ops@[n] == base[n]);
            } else {
                assert(ops@[base.len() + (n - base.len())]@ == unit_patch_jv(
                    purchase_units.deep_view()->Some_0[n - base.len()],
                ));
            }
        }
        assert(r@->Arr_0 =~= ip + up);
        assert(r@ == update_order_patch_jv(intent.deep_view(), purchase_units.deep_view()));
    }
    r
}

fn order_path(order_id: &str) -> (p: String)
    ensures
        p@ == "/v2/checkout/orders/"@ + order_id@,
{
    let mut p = String::from_str("/v2/checkout/orders/");
    p.append(order_id);
    p
}

/// The request that creates an order: one POST with the payload as its
/// JSON body. The payload's purchase-unit list must be non-empty for the
/// provider to accept it; that is the provider's validation, not checked
/// here.
pub fn create_order_request(order: &OrderPayload) -> (r: HttpRequest)
    ensures
        r.method == Method::Post,
        r.path@ == "/v2/checkout/orders"@,
        r.content_type matches Some(c) && c@ == "application/json"@,
        r.body matches Some(b) && b@ == jv_text(order_payload_jv(order.deep_view())),
{
    let body = json_to_string(&encode_order_payload(order));
    HttpRequest {
        method: Method::Post,
        path: String::from_str("/v2/checkout/orders"),
        content_type: Some(String::from_str("application/json")),
        body: Some(body),
    }
}

/// The request that shows an order's details, by id.
pub fn show_order_details_request(order_id: &str) -> (r: HttpRequest)
    ensures
        r.method == Method::Get,
        r.path@ == "/v2/checkout/orders/"@ + order_id@,
        r.content_type is None,
        r.body is None,
{
    HttpRequest { method: Method::Get, path: order_path(order_id), content_type: None, body: None }
}

/// The request that captures payment for an approved order.
pub fn capture_order_request(order_id: &str) -> (r: HttpRequest)
    ensures
        r.method == Method::Post,
        r.path@ == "/v2/checkout/orders/"@ + order_id@ + "/capture"@,
        r.content_type is None,
        r.body is None,
{
    let mut p = order_path(order_id);
    p.append("/capture");
    HttpRequest { method: Method::Post, path: p, content_type: None, body: None }
}

/// The request that authorizes payment for an approved order.
pub fn authorize_order_request(order_id: &str) -> (r: HttpRequest)
    ensures
        r.method == Method::Post,
        r.path@ == "/v2/checkout/orders/"@ + order_id@ + "/authorize"@,
        r.content_type is None,
        r.body is None,
{
    let mut p = order_path(order_id);
    p.append("/authorize");
    HttpRequest { method: Method::Post, path: p, content_type: None, body: None }
}

/// The request that updates an order with the `CREATED` or `APPROVED`
/// status: one PATCH whose body replaces the intent and the supplied
/// purchase units, each unit addressed by its own reference id. The
/// content type is forced to JSON. With nothing to update the body is an
/// empty operation array, and the request is still built.
pub fn update_order_request(
    order_id: &str,
    intent: &Option<Intent>,
    purchase_units: &Option<Vec<PurchaseUnit>>,
) -> (r: HttpRequest)
    ensures
        r.method == Method::Patch,
        r.path@ == "/v2/checkout/orders/"@ + order_id@,
        r.content_type matches Some(c) && c@ == "application/json"@,
        r.body matches Some(b) && b@ == jv_text(
            update_order_patch_jv(intent.deep_view(), purchase_units.deep_view()),
        ),
{
    let body = json_to_string(&update_order_patch(intent, purchase_units));
    HttpRequest {
        method: Method::Patch,
        path: order_path(order_id),
        content_type: Some(String::from_str("application/json")),
        body: Some(body),
    }
}

/// The request that verifies a webhook signature with the provider, which
/// is the sole authority on validity. The verification payload is
/// self-contained, so the content type is always forced to JSON rather
/// than taken from caller-supplied headers.
pub fn verify_signature_request(payload: &WebhookVerificationPayload) -> (r: HttpRequest)
    ensures
        r.method == Method::Post,
        r.path@ == "/v1/notifications/verify-webhook-signature"@,
        r.content_type matches Some(c) && c@ == "application/json"@,
        r.body matches Some(b) && b@ == jv_text(
            webhook_verification_payload_jv(payload.deep_view()),
        ),
{
    let body = json_to_string(&encode_webhook_verification_payload(payload));
    HttpRequest {
        method: Method::Post,
        path: String::from_str("/v1/notifications/verify-webhook-signature"),
        content_type: Some(String::from_str("application/json")),
        body: Some(body),
    }
}

/// How a response that should carry an order is read: any status in the
/// 200 range with an order body succeeds; any other status with the
/// provider's error body is an API error; anything else is malformed.
pub open spec fn order_response(status: int, body: Option<Jv>) -> Result<OrderV, ResponseErrorV> {
    if 200 <= status < 300 {
        match body {
            Some(j) => match order_of_jv(j) {
                Some(o) => Ok(o),
                None => Err(ResponseErrorV::MalformedResponse),
            },
            None => Err(ResponseErrorV::MalformedResponse),
        }
    } else {
        match body {
            Some(j) => match paypal_error_of_jv(j) {
                Some(e) => Err(ResponseErrorV::ApiError(e)),
                None => Err(ResponseErrorV::MalformedResponse),
            },
            None => Err(ResponseErrorV::MalformedResponse),
        }
    }
}

/// Classify a response that should carry an order.
pub fn order_from_response(status: u16, body: &str) -> (r: Result<Order, ResponseError>)
    ensures
        r matches Ok(o) ==> order_response(status as int, parsed_json(body@)) == Ok::<
            OrderV,
            ResponseErrorV,
        >(o.deep_view()),
        r matches Err(e) ==> order_response(status as int, parsed_json(body@)) == Err::<
            OrderV,
            ResponseErrorV,
        >(e.deep_view()),
{
    let parsed = parse_json(body);
    if 200 <= status && status < 300 {
        match parsed {
            Some(j) => match decode_order(&j) {
                Some(o) => Ok(o),
                None => Err(ResponseError::MalformedResponse),
            },
            None => Err(ResponseError::MalformedResponse),
        }
    } else {
        match parsed {
            Some(j) => match decode_paypal_error(&j) {
                Some(e) => Err(ResponseError::ApiError(e)),
                None => Err(ResponseError::MalformedResponse),
            },
            None => Err(ResponseError::MalformedResponse),
        }
    }
}

/// How a response with no meaningful body is read: any status in the 200
/// range succeeds, whatever the body holds.
pub open spec fn accepted_response(status: int, body: Option<Jv>) -> Result<(), ResponseErrorV> {
    if 200 <= status < 300 {
        Ok(())
    } else {
        match body {
            Some(j) => match paypal_error_of_jv(j) {
                Some(e) => Err(ResponseErrorV::ApiError(e)),
                None => Err(ResponseErrorV::MalformedResponse),
            },
            None => Err(ResponseErrorV::MalformedResponse),
        }
    }
}

/// Classify a response whose body carries nothing on success, as the
/// order-update endpoint answers: the provider's PATCH response body is
/// not the updated resource.
pub fn accepted_from_response(status: u16, body: &str) -> (r: Result<(), ResponseError>)
    ensures
        r matches Ok(o) ==> accepted_response(status as int, parsed_json(body@)) == Ok::<
            (),
            ResponseErrorV,
        >(()),
        r matches Err(e) ==> accepted_response(status as int, parsed_json(body@)) == Err::<
            (),
            ResponseErrorV,
        >(e.deep_view()),
{
    if 200 <= status && status < 300 {
        Ok(())
    } else {
        match parse_json(body) {
            Some(j) => match decode_paypal_error(&j) {
                Some(e) => Err(ResponseError::ApiError(e)),
                None => Err(ResponseError::MalformedResponse),
            },
            None => Err(ResponseError::MalformedResponse),
        }
    }
}

/// How a webhook verification response is read.
pub open spec fn verification_response(status: int, body: Option<Jv>) -> Result<
    VerificationV,
    ResponseErrorV,
> {
    if 200 <= status < 300 {
        match body {
            Some(j) => match verification_of_jv(j) {
                Some(v) => Ok(v),
                None => Err(ResponseErrorV::MalformedResponse),
            },
            None => Err(ResponseErrorV::MalformedResponse),
        }
    } else {
        match body {
            Some(j) => match paypal_error_of_jv(j) {
                Some(e) => Err(ResponseErrorV::ApiError(e)),
                None => Err(ResponseErrorV::MalformedResponse),
            },
            None => Err(ResponseErrorV::MalformedResponse),
        }
    }
}

/// Classify a webhook verification response.
pub fn verification_from_response(status: u16, body: &str) -> (r: Result<
    Verification,
    ResponseError,
>)
    ensures
        r matches Ok(v) ==> verification_response(status as int, parsed_json(body@)) == Ok::<
            VerificationV,
            ResponseErrorV,
        >(v.deep_view()),
        r matches Err(e) ==> verification_response(status as int, parsed_json(body@)) == Err::<
            VerificationV,
            ResponseErrorV,
        >(e.deep_view()),
{
    let parsed = parse_json(body);
    if 200 <= status && status < 300 {
        match parsed {
            Some(j) => match decode_verification(&j) {
                Some(v) => Ok(v),
                None => Err(ResponseError::MalformedResponse),
            },
            None => Err(ResponseError::MalformedResponse),
        }
    } else {
        match parsed {
            Some(j) => match decode_paypal_error(&j) {
                Some(e) => Err(ResponseError::ApiError(e)),
                None => Err(ResponseError::MalformedResponse),
            },
            None => Err(ResponseError::MalformedResponse),
        }
    }
}

/// A document that decodes as an order re-encodes to a document that
/// decodes to the very same order: decode then encode loses nothing.
pub proof fn lemma_order_decode_encode(j: Jv, o: OrderV)
    requires
        order_of_jv(j) == Some(o),
    ensures
        order_of_jv(order_jv(o)) == Some(o),
{
    assert(order_wf(o));
    lemma_order_round_trip(o);
}

/// Updating only the intent, to capture, yields exactly one replace
/// operation, at path `/intent` with value `"CAPTURE"`.
pub proof fn lemma_update_patch_intent_capture()
    ensures
        update_order_patch_jv(Some(Intent::Capture), None) == Jv::Arr(
            seq![
                Jv::Obj(
                    entry("op"@, Jv::Str("replace"@)) + entry("path"@, Jv::Str("/intent"@))
                        + entry("value"@, Jv::Str("CAPTURE"@)),
                ),
            ],
        ),
{
    assert(update_order_patch_jv(Some(Intent::Capture), None)->Arr_0 =~= seq![
        intent_patch_jv(Intent::Capture),
    ]);
}

/// A purchase unit that declares no reference id is addressed by the
/// provider's literal `default` marker.
pub proof fn lemma_unit_patch_default_path()
    ensures
        unit_patch_path(None) == "/purchase_units/@reference_id='default'"@,
{
    reveal_strlit("/purchase_units/@reference_id='");
    reveal_strlit("default");
    reveal_strlit("'");
    reveal_strlit("/purchase_units/@reference_id='default'");
    assert(unit_patch_path(None) =~= "/purchase_units/@reference_id='default'"@);
}

/// With both an intent and purchase units, the patch holds the intent
/// operation first, then one operation per unit, in order, each keyed by
/// the unit's own reference id.
pub proof fn lemma_update_patch_both(i: Intent, us: Seq<PurchaseUnitV>)
    ensures
        update_order_patch_jv(Some(i), Some(us))->Arr_0.len() == 1 + us.len(),
        update_order_patch_jv(Some(i), Some(us))->Arr_0[0] == intent_patch_jv(i),
        forall|k: int| 0 <= k < us.len() ==> update_order_patch_jv(Some(i), Some(us))->Arr_0[1 + k]
            == unit_patch_jv(us[k]),
{
}

/// A success status with a well-formed order body yields that order; a
/// failing status with the provider's error body yields the structured
/// API error, not a malformed-response failure.
pub proof fn lemma_order_response_classification(j: Jv, o: OrderV, e: PaypalErrorV)
    ensures
        order_of_jv(j) == Some(o) ==> order_response(201, Some(j)) == Ok::<OrderV, ResponseErrorV>(
            o,
        ),
        paypal_error_of_jv(j) == Some(e) ==> order_response(422, Some(j)) == Err::<
            OrderV,
            ResponseErrorV,
        >(ResponseErrorV::ApiError(e)),
{
}

/// A verification body with status token `SUCCESS` decodes to the success
/// variant, `FAILURE` to the failure variant, and any other token fails
/// decoding.
pub proof fn lemma_verification_decode(t: Seq<char>)
    ensures
        verification_of_jv(Jv::Obj(entry("verification_status"@, Jv::Str("SUCCESS"@)))) == Some(
            VerificationV { verification_status: VerificationStatus::Success },
        ),
        verification_of_jv(Jv::Obj(entry("verification_status"@, Jv::Str("FAILURE"@)))) == Some(
            VerificationV { verification_status: VerificationStatus::Failure },
        ),
        verification_status_of_token(t) is None ==> verification_of_jv(
            Jv::Obj(entry("verification_status"@, Jv::Str(t))),
        ) is None,
{
    lemma_verification_status_tokens(VerificationStatus::Success, t);
    lemma_verification_status_tokens(VerificationStatus::Failure, t);
    lemma_jv_get_head(entry("verification_status"@, Jv::Str("SUCCESS"@)), "verification_status"@);
    lemma_jv_get_head(entry("verification_status"@, Jv::Str("FAILURE"@)), "verification_status"@);
    lemma_jv_get_head(entry("verification_status"@, Jv::Str(t)), "verification_status"@);
}

} // verus!
