//! Webhook event notifications and their signature verification: the
//! provider is the sole authority on a signature's validity, so
//! verification is one request to its verification endpoint.

use vstd::prelude::*;
use vstd::seq_lib::lemma_concat_associative;

use crate::codec::{
    decode_i64, entry, get_opt_str, get_str, i64_of_jv, opt_entry, opt_field, opt_str,
    opt_str_entry, push_field, req_field, req_str,
};
use crate::common::{
    decode_link_vec, encode_link_vec, lemma_link_list_round_trip, link_arr_of_jv, link_list_jv,
    LinkDescription, LinkDescriptionV,
};
use crate::json::{
    arr_view, clone_json, get_field, jv_get, lemma_jv_get_absent, lemma_jv_get_found,
    lemma_jv_get_head, lemma_jv_get_skip, obj_view, str_eq, Json, Jv,
};

verus! {

broadcast use vstd::string::group_string_axioms, vstd::std_specs::vec::group_vec_axioms, vstd::seq::group_seq_axioms;


/// The status of a webhook signature verification.
#[derive(Debug, Clone, Copy, PartialEq, Eq)]
pub enum VerificationStatus {
    Success,
    Failure,
}

impl DeepView for VerificationStatus {
    type V = VerificationStatus;

    open spec fn deep_view(&self) -> VerificationStatus {
        *self
    }
}

/// The token a [`VerificationStatus`] travels as.
pub open spec fn verification_status_token(x: VerificationStatus) -> Seq<char> {
    match x {
        VerificationStatus::Success => "SUCCESS"@,
        VerificationStatus::Failure => "FAILURE"@,
    }
}

/// The [`VerificationStatus`] behind a token; tokens outside the table are rejected.
pub open spec fn verification_status_of_token(t: Seq<char>) -> Option<VerificationStatus> {
    if t == "SUCCESS"@ { Some(VerificationStatus::Success) }
    else if t == "FAILURE"@ { Some(VerificationStatus::Failure) }
    else { None }
}

pub open spec fn verification_status_jv(x: VerificationStatus) -> Jv {
    Jv::Str(verification_status_token(x))
}

pub open spec fn verification_status_of_jv(j: Jv) -> Option<VerificationStatus> {
    match j {
        Jv::Str(t) => verification_status_of_token(t),
        _ => None,
    }
}

pub fn encode_verification_status(x: &VerificationStatus) -> (j: Json)
    ensures
        j@ == verification_status_jv(*x),
{
    let t: &str = match x {
        VerificationStatus::Success => "SUCCESS",
        VerificationStatus::Failure => "FAILURE",
    };
    Json::Str(String::from_str(t))
}

pub fn decode_verification_status(j: &Json) -> (r: Option<VerificationStatus>)
    ensures
        r matches Some(x) ==> verification_status_of_jv(j@) == Some(x),
        r is None ==> verification_status_of_jv(j@) is None,
{
    match j {
        Json::Str(s) => {
            let t = s.as_str();
            if str_eq(t, "SUCCESS") { Some(VerificationStatus::Success) }
            else if str_eq(t, "FAILURE") { Some(VerificationStatus::Failure) }
            else { None }
        },
        _ => None,
    }
}

/// Tokens of [`VerificationStatus`]: encoding lands in the table and decodes back;
/// a decoded token is the encoding of what it decoded to.
pub proof fn lemma_verification_status_tokens(x: VerificationStatus, t: Seq<char>)
    ensures
        verification_status_of_token(verification_status_token(x)) == Some(x),
        verification_status_of_token(t) matches Some(y) ==> verification_status_token(y) == t,
{
    reveal_strlit("SUCCESS");
    assert("SUCCESS"@ =~= seq!['S','U','C','C','E','S','S']);
    reveal_strlit("FAILURE");
    assert("FAILURE"@ =~= seq!['F','A','I','L','U','R','E']);
}

/// The result of a webhook signature verification.
#[derive(Debug, Clone, PartialEq, Eq)]
pub struct Verification {
    pub verification_status: VerificationStatus,
}

/// The shape of a [`Verification`].
pub struct VerificationV {
    pub verification_status: VerificationStatus,
}

impl DeepView for Verification {
    type V = VerificationV;

    open spec fn deep_view(&self) -> VerificationV {
        VerificationV {
            verification_status: self.verification_status.deep_view(),
        }
    }
}

pub open spec fn verification_jv(v: VerificationV) -> Jv {
    Jv::Obj(
        entry("verification_status"@, verification_status_jv(v.verification_status))
    )
}

pub open spec fn verification_of_jv(j: Jv) -> Option<VerificationV> {
    match j {
        Jv::Obj(fs) => {
            let f_verification_status = req_field(fs, "verification_status"@, |x: Jv| verification_status_of_jv(x));
            if f_verification_status is Some {
                Some(VerificationV {
                    verification_status: f_verification_status->Some_0,
                })
            } else {
                None
            }
        },
        _ => None,
    }
}

pub fn encode_verification(x: &Verification) -> (j: Json)
    ensures
        j@ == verification_jv(x.deep_view()),
{
    let mut fs: Vec<(String, Json)> = Vec::new();
    push_field(&mut fs, "verification_status", encode_verification_status(&x.verification_status));
    let r = Json::Obj(fs);
    proof {
        assert(r@->Obj_0 =~= verification_jv(x.deep_view())->Obj_0);
        assert(r@ == verification_jv(x.deep_view()));
    }
    r
}

pub fn decode_verification(j: &Json) -> (r: Option<Verification>)
    ensures
        r matches Some(x) ==> verification_of_jv(j@) == Some(x.deep_view()),
        r is None ==> verification_of_jv(j@) is None,
{
    match j {
        Json::Obj(fs) => {
            proof {
                assert(j@->Obj_0 =~= obj_view(fs@));
            }
            let f_verification_status = match get_field(fs, "verification_status") {
                Some(x) => match decode_verification_status(x) {
                    Some(v) => v,
                    None => { return None; },
                },
                None => { return None; },
            };
            Some(Verification {
                verification_status: f_verification_status,
            })
        },
        _ => None,
    }
}

/// A record of this type decodes back to itself after encoding.
#[verifier::rlimit(100)]
pub proof fn lemma_verification_round_trip(v: VerificationV)
    ensures
        verification_of_jv(verification_jv(v)) == Some(v),
{
    let fs = verification_jv(v)->Obj_0;
    reveal_strlit("verification_status");
    assert("verification_status"@ =~= seq!['v','e','r','i','f','i','c','a','t','i','o','n','_','s','t','a','t','u','s']);
    lemma_jv_get_found(fs, "verification_status"@, 0int);
    lemma_verification_status_tokens(v.verification_status, Seq::empty());
}

/// What is sent to the provider to verify a webhook signature: the transmission metadata and the event notification as received.
#[derive(Debug, PartialEq, Eq)]
pub struct WebhookVerificationPayload {
    pub transmission_id: String,
    pub transmission_time: String,
    pub cert_url: String,
    pub auth_algo: String,
    pub transmission_sig: String,
    pub webhook_id: String,
    pub webhook_event: Json,
}

/// The shape of a [`WebhookVerificationPayload`].
pub struct WebhookVerificationPayloadV {
    pub transmission_id: Seq<char>,
    pub transmission_time: Seq<char>,
    pub cert_url: Seq<char>,
    pub auth_algo: Seq<char>,
    pub transmission_sig: Seq<char>,
    pub webhook_id: Seq<char>,
    pub webhook_event: Jv,
}

impl DeepView for WebhookVerificationPayload {
    type V = WebhookVerificationPayloadV;

    open spec fn deep_view(&self) -> WebhookVerificationPayloadV {
        WebhookVerificationPayloadV {
            transmission_id: self.transmission_id.deep_view(),
            transmission_time: self.transmission_time.deep_view(),
            cert_url: self.cert_url.deep_view(),
            auth_algo: self.auth_algo.deep_view(),
            transmission_sig: self.transmission_sig.deep_view(),
            webhook_id: self.webhook_id.deep_view(),
            webhook_event: self.webhook_event.deep_view(),
        }
    }
}

pub open spec fn webhook_verification_payload_jv(v: WebhookVerificationPayloadV) -> Jv {
    Jv::Obj(
        entry("transmission_id"@, Jv::Str(v.transmission_id))
        + entry("transmission_time"@, Jv::Str(v.transmission_time))
        + entry("cert_url"@, Jv::Str(v.cert_url))
        + entry("auth_algo"@, Jv::Str(v.auth_algo))
        + entry("transmission_sig"@, Jv::Str(v.transmission_sig))
        + entry("webhook_id"@, Jv::Str(v.webhook_id))
        + entry("webhook_event"@, v.webhook_event)
    )
}

pub open spec fn webhook_verification_payload_of_jv(j: Jv) -> Option<WebhookVerificationPayloadV> {
    match j {
        Jv::Obj(fs) => {
            let f_transmission_id = req_str(fs, "transmission_id"@);
            let f_transmission_time = req_str(fs, "transmission_time"@);
            let f_cert_url = req_str(fs, "cert_url"@);
            let f_auth_algo = req_str(fs, "auth_algo"@);
            let f_transmission_sig = req_str(fs, "transmission_sig"@);
            let f_webhook_id = req_str(fs, "webhook_id"@);
            let f_webhook_event = req_field(fs, "webhook_event"@, |x: Jv| Some(x));
            if f_transmission_id is Some && f_transmission_time is Some && f_cert_url is Some && f_auth_algo is Some && f_transmission_sig is Some && f_webhook_id is Some && f_webhook_event is Some {
                Some(WebhookVerificationPayloadV {
                    transmission_id: f_transmission_id->Some_0,
                    transmission_time: f_transmission_time->Some_0,
                    cert_url: f_cert_url->Some_0,
                    auth_algo: f_auth_algo->Some_0,
                    transmission_sig: f_transmission_sig->Some_0,
                    webhook_id: f_webhook_id->Some_0,
                    webhook_event: f_webhook_event->Some_0,
                })
            } else {
                None
            }
        },
        _ => None,
    }
}

#[verifier::rlimit(100)]
pub fn encode_webhook_verification_payload(x: &WebhookVerificationPayload) -> (j: Json)
    ensures
        j@ == webhook_verification_payload_jv(x.deep_view()),
{
    let mut fs: Vec<(String, Json)> = Vec::new();
    push_field(&mut fs, "transmission_id", Json::Str(x.transmission_id.clone()));
    push_field(&mut fs, "transmission_time", Json::Str(x.transmission_time.clone()));
    push_field(&mut fs, "cert_url", Json::Str(x.cert_url.clone()));
    push_field(&mut fs, "auth_algo", Json::Str(x.auth_algo.clone()));
    push_field(&mut fs, "transmission_sig", Json::Str(x.transmission_sig.clone()));
    push_field(&mut fs, "webhook_id", Json::Str(x.webhook_id.clone()));
    push_field(&mut fs, "webhook_event", clone_json(&x.webhook_event));
    let r = Json::Obj(fs);
    proof {
        assert(r@->Obj_0 =~= webhook_verification_payload_jv(x.deep_view())->Obj_0);
        assert(r@ == webhook_verification_payload_jv(x.deep_view()));
    }
    r
}

#[verifier::rlimit(100)]
pub fn decode_webhook_verification_payload(j: &Json) -> (r: Option<WebhookVerificationPayload>)
    ensures
        r matches Some(x) ==> webhook_verification_payload_of_jv(j@) == Some(x.deep_view()),
        r is None ==> webhook_verification_payload_of_jv(j@) is None,
{
    match j {
        Json::Obj(fs) => {
            proof {
                assert(j@->Obj_0 =~= obj_view(fs@));
            }
            let f_transmission_id = match get_str(fs, "transmission_id") {
                Some(s) => s,
                None => { return None; },
            };
            let f_transmission_time = match get_str(fs, "transmission_time") {
                Some(s) => s,
                None => { return None; },
            };
            let f_cert_url = match get_str(fs, "cert_url") {
                Some(s) => s,
                None => { return None; },
            };
            let f_auth_algo = match get_str(fs, "auth_algo") {
                Some(s) => s,
                None => { return None; },
            };
            let f_transmission_sig = match get_str(fs, "transmission_sig") {
                Some(s) => s,
                None => { return None; },
            };
            let f_webhook_id = match get_str(fs, "webhook_id") {
                Some(s) => s,
                None => { return None; },
            };
            let f_webhook_event = match get_field(fs, "webhook_event") {
                Some(x) => clone_json(x),
                None => { return None; },
            };
            Some(WebhookVerificationPayload {
                transmission_id: f_transmission_id,
                transmission_time: f_transmission_time,
                cert_url: f_cert_url,
                auth_algo: f_auth_algo,
                transmission_sig: f_transmission_sig,
                webhook_id: f_webhook_id,
                webhook_event: f_webhook_event,
            })
        },
        _ => None,
    }
}

#[verifier::rlimit(100)]
proof fn lemma_webhook_verification_payload_fields_0(v: WebhookVerificationPayloadV)
    ensures
        jv_get(webhook_verification_payload_jv(v)->Obj_0, "transmission_id"@) == Some(Jv::Str(v.transmission_id)),
        jv_get(webhook_verification_payload_jv(v)->Obj_0, "transmission_time"@) == Some(Jv::Str(v.transmission_time)),
        jv_get(webhook_verification_payload_jv(v)->Obj_0, "cert_url"@) == Some(Jv::Str(v.cert_url)),
        jv_get(webhook_verification_payload_jv(v)->Obj_0, "auth_algo"@) == Some(Jv::Str(v.auth_algo)),
{
    let fs = webhook_verification_payload_jv(v)->Obj_0;
    reveal_strlit("transmission_id");
    assert("transmission_id"@ =~= seq!['t','r','a','n','s','m','i','s','s','i','o','n','_','i','d']);
    reveal_strlit("transmission_time");
    assert("transmission_time"@ =~= seq!['t','r','a','n','s','m','i','s','s','i','o','n','_','t','i','m','e']);
    reveal_strlit("cert_url");
    assert("cert_url"@ =~= seq!['c','e','r','t','_','u','r','l']);
    reveal_strlit("auth_algo");
    assert("auth_algo"@ =~= seq!['a','u','t','h','_','a','l','g','o']);
    reveal_strlit("transmission_sig");
    assert("transmission_sig"@ =~= seq!['t','r','a','n','s','m','i','s','s','i','o','n','_','s','i','g']);
    reveal_strlit("webhook_id");
    assert("webhook_id"@ =~= seq!['w','e','b','h','o','o','k','_','i','d']);
    reveal_strlit("webhook_event");
    assert("webhook_event"@ =~= seq!['w','e','b','h','o','o','k','_','e','v','e','n','t']);
    let e0 = entry("transmission_id"@, Jv::Str(v.transmission_id));
    let e1 = entry("transmission_time"@, Jv::Str(v.transmission_time));
    let e2 = entry("cert_url"@, Jv::Str(v.cert_url));
    let e3 = entry("auth_algo"@, Jv::Str(v.auth_algo));
    let e4 = entry("transmission_sig"@, Jv::Str(v.transmission_sig));
    let e5 = entry("webhook_id"@, Jv::Str(v.webhook_id));
    let e6 = entry("webhook_event"@, v.webhook_event);
    let l0 = e0;
    let l1 = l0 + e1;
    let l2 = l1 + e2;
    let l3 = l2 + e3;
    let l4 = l3 + e4;
    let l5 = l4 + e5;
    let l6 = l5 + e6;
    let s6 = e6;
    let s5 = e5 + s6;
    let s4 = e4 + s5;
    let s3 = e3 + s4;
    let s2 = e2 + s3;
    let s1 = e1 + s2;
    let s0 = e0 + s1;
    assert(fs == l6);
    lemma_concat_associative(l4, e5, s6);
    lemma_concat_associative(l3, e4, s5);
    lemma_concat_associative(l2, e3, s4);
    lemma_concat_associative(l1, e2, s3);
    lemma_concat_associative(l0, e1, s2);
    assert(fs == s0);
    lemma_jv_get_head(s0, "transmission_id"@);
    lemma_jv_get_skip(e0, s1, "transmission_time"@);
    lemma_jv_get_head(s1, "transmission_time"@);
    lemma_jv_get_skip(e0, s1, "cert_url"@);
    lemma_jv_get_skip(e1, s2, "cert_url"@);
    lemma_jv_get_head(s2, "cert_url"@);
    lemma_jv_get_skip(e0, s1, "auth_algo"@);
    lemma_jv_get_skip(e1, s2, "auth_algo"@);
    lemma_jv_get_skip(e2, s3, "auth_algo"@);
    lemma_jv_get_head(s3, "auth_algo"@);
}

#[verifier::rlimit(100)]
proof fn lemma_webhook_verification_payload_fields_1(v: WebhookVerificationPayloadV)
    ensures
        jv_get(webhook_verification_payload_jv(v)->Obj_0, "transmission_sig"@) == Some(Jv::Str(v.transmission_sig)),
        jv_get(webhook_verification_payload_jv(v)->Obj_0, "webhook_id"@) == Some(Jv::Str(v.webhook_id)),
        jv_get(webhook_verification_payload_jv(v)->Obj_0, "webhook_event"@) == Some(v.webhook_event),
{
    let fs = webhook_verification_payload_jv(v)->Obj_0;
    reveal_strlit("transmission_id");
    assert("transmission_id"@ =~= seq!['t','r','a','n','s','m','i','s','s','i','o','n','_','i','d']);
    reveal_strlit("transmission_time");
    assert("transmission_time"@ =~= seq!['t','r','a','n','s','m','i','s','s','i','o','n','_','t','i','m','e']);
    reveal_strlit("cert_url");
    assert("cert_url"@ =~= seq!['c','e','r','t','_','u','r','l']);
    reveal_strlit("auth_algo");
    assert("auth_algo"@ =~= seq!['a','u','t','h','_','a','l','g','o']);
    reveal_strlit("transmission_sig");
    assert("transmission_sig"@ =~= seq!['t','r','a','n','s','m','i','s','s','i','o','n','_','s','i','g']);
    reveal_strlit("webhook_id");
    assert("webhook_id"@ =~= seq!['w','e','b','h','o','o','k','_','i','d']);
    reveal_strlit("webhook_event");
    assert("webhook_event"@ =~= seq!['w','e','b','h','o','o','k','_','e','v','e','n','t']);
    let e0 = entry("transmission_id"@, Jv::Str(v.transmission_id));
    let e1 = entry("transmission_time"@, Jv::Str(v.transmission_time));
    let e2 = entry("cert_url"@, Jv::Str(v.cert_url));
    let e3 = entry("auth_algo"@, Jv::Str(v.auth_algo));
    let e4 = entry("transmission_sig"@, Jv::Str(v.transmission_sig));
    let e5 = entry("webhook_id"@, Jv::Str(v.webhook_id));
    let e6 = entry("webhook_event"@, v.webhook_event);
    let l0 = e0;
    let l1 = l0 + e1;
    let l2 = l1 + e2;
    let l3 = l2 + e3;
    let l4 = l3 + e4;
    let l5 = l4 + e5;
    let l6 = l5 + e6;
    let s6 = e6;
    let s5 = e5 + s6;
    let s4 = e4 + s5;
    let s3 = e3 + s4;
    let s2 = e2 + s3;
    let s1 = e1 + s2;
    let s0 = e0 + s1;
    assert(fs == l6);
    lemma_concat_associative(l4, e5, s6);
    lemma_concat_associative(l3, e4, s5);
    lemma_concat_associative(l2, e3, s4);
    lemma_concat_associative(l1, e2, s3);
    lemma_concat_associative(l0, e1, s2);
    assert(fs == s0);
    lemma_jv_get_skip(e0, s1, "transmission_sig"@);
    lemma_jv_get_skip(e1, s2, "transmission_sig"@);
    lemma_jv_get_skip(e2, s3, "transmission_sig"@);
    lemma_jv_get_skip(e3, s4, "transmission_sig"@);
    lemma_jv_get_head(s4, "transmission_sig"@);
    lemma_jv_get_skip(e0, s1, "webhook_id"@);
    lemma_jv_get_skip(e1, s2, "webhook_id"@);
    lemma_jv_get_skip(e2, s3, "webhook_id"@);
    lemma_jv_get_skip(e3, s4, "webhook_id"@);
    lemma_jv_get_skip(e4, s5, "webhook_id"@);
    lemma_jv_get_head(s5, "webhook_id"@);
    lemma_jv_get_skip(e0, s1, "webhook_event"@);
    lemma_jv_get_skip(e1, s2, "webhook_event"@);
    lemma_jv_get_skip(e2, s3, "webhook_event"@);
    lemma_jv_get_skip(e3, s4, "webhook_event"@);
    lemma_jv_get_skip(e4, s5, "webhook_event"@);
    lemma_jv_get_skip(e5, s6, "webhook_event"@);
    lemma_jv_get_head(s6, "webhook_event"@);
}

/// A record of this type decodes back to itself after encoding.
#[verifier::rlimit(100)]
pub proof fn lemma_webhook_verification_payload_round_trip(v: WebhookVerificationPayloadV)
    ensures
        webhook_verification_payload_of_jv(webhook_verification_payload_jv(v)) == Some(v),
{
    lemma_webhook_verification_payload_fields_0(v);
    lemma_webhook_verification_payload_fields_1(v);
}

/// A webhook event notification callback.
#[derive(Debug, PartialEq, Eq)]
pub struct Webhook {
    pub id: String,
    pub create_time: String,
    pub event_type: String,
    pub resource_type: String,
    pub resource_version: String,
    pub summary: String,
    pub resource: Json,
    pub zts: Option<i64>,
    pub event_version: String,
    pub links: Vec<LinkDescription>,
}

/// The shape of a [`Webhook`].
pub struct WebhookV {
    pub id: Seq<char>,
    pub create_time: Seq<char>,
    pub event_type: Seq<char>,
    pub resource_type: Seq<char>,
    pub resource_version: Seq<char>,
    pub summary: Seq<char>,
    pub resource: Jv,
    pub zts: Option<i64>,
    pub event_version: Seq<char>,
    pub links: Seq<LinkDescriptionV>,
}

impl DeepView for Webhook {
    type V = WebhookV;

    open spec fn deep_view(&self) -> WebhookV {
        WebhookV {
            id: self.id.deep_view(),
            create_time: self.create_time.deep_view(),
            event_type: self.event_type.deep_view(),
            resource_type: self.resource_type.deep_view(),
            resource_version: self.resource_version.deep_view(),
            summary: self.summary.deep_view(),
            resource: self.resource.deep_view(),
            zts: self.zts.deep_view(),
            event_version: self.event_version.deep_view(),
            links: self.links.deep_view(),
        }
    }
}

pub open spec fn webhook_jv(v: WebhookV) -> Jv {
    Jv::Obj(
        entry("id"@, Jv::Str(v.id))
        + entry("create_time"@, Jv::Str(v.create_time))
        + entry("event_type"@, Jv::Str(v.event_type))
        + entry("resource_type"@, Jv::Str(v.resource_type))
        + entry("resource_version"@, Jv::Str(v.resource_version))
        + entry("summary"@, Jv::Str(v.summary))
        + entry("resource"@, v.resource)
        + opt_entry("zts"@, v.zts, |x: i64| Jv::Int(x as int))
        + entry("event_version"@, Jv::Str(v.event_version))
        + entry("links"@, Jv::Arr(link_list_jv(v.links)))
    )
}

pub open spec fn webhook_of_jv(j: Jv) -> Option<WebhookV> {
    match j {
        Jv::Obj(fs) => {
            let f_id = req_str(fs, "id"@);
            let f_create_time = req_str(fs, "create_time"@);
            let f_event_type = req_str(fs, "event_type"@);
            let f_resource_type = req_str(fs, "resource_type"@);
            let f_resource_version = req_str(fs, "resource_version"@);
            let f_summary = req_str(fs, "summary"@);
            let f_resource = req_field(fs, "resource"@, |x: Jv| Some(x));
            let f_zts = opt_field(fs, "zts"@, |x: Jv| i64_of_jv(x));
            let f_event_version = req_str(fs, "event_version"@);
            let f_links = req_field(fs, "links"@, |x: Jv| link_arr_of_jv(x));
            if f_id is Some && f_create_time is Some && f_event_type is Some && f_resource_type is Some && f_resource_version is Some && f_summary is Some && f_resource is Some && f_zts is Some && f_event_version is Some && f_links is Some {
                Some(WebhookV {
                    id: f_id->Some_0,
                    create_time: f_create_time->Some_0,
                    event_type: f_event_type->Some_0,
                    resource_type: f_resource_type->Some_0,
                    resource_version: f_resource_version->Some_0,
                    summary: f_summary->Some_0,
                    resource: f_resource->Some_0,
                    zts: f_zts->Some_0,
                    event_version: f_event_version->Some_0,
                    links: f_links->Some_0,
                })
            } else {
                None
            }
        },
        _ => None,
    }
}

#[verifier::rlimit(100)]
fn encode_webhook_part0(x: &Webhook) -> (fs: Vec<(String, Json)>)
    ensures
        obj_view(fs@) == entry("id"@, Jv::Str(x.deep_view().id)) + entry("create_time"@, Jv::Str(x.deep_view().create_time)) + entry("event_type"@, Jv::Str(x.deep_view().event_type)) + entry("resource_type"@, Jv::Str(x.deep_view().resource_type)),
{
    let mut fs: Vec<(String, Json)> = Vec::new();
    push_field(&mut fs, "id", Json::Str(x.id.clone()));
    push_field(&mut fs, "create_time", Json::Str(x.create_time.clone()));
    push_field(&mut fs, "event_type", Json::Str(x.event_type.clone()));
    push_field(&mut fs, "resource_type", Json::Str(x.resource_type.clone()));
    proof { assert(obj_view(fs@) =~= entry("id"@, Jv::Str(x.deep_view().id)) + entry("create_time"@, Jv::Str(x.deep_view().create_time)) + entry("event_type"@, Jv::Str(x.deep_view().event_type)) + entry("resource_type"@, Jv::Str(x.deep_view().resource_type))); }
    fs
}

#[verifier::rlimit(100)]
fn encode_webhook_part1(x: &Webhook, fs: &mut Vec<(String, Json)>)
    ensures
        obj_view(final(fs)@) == obj_view(old(fs)@) + entry("resource_version"@, Jv::Str(x.deep_view().resource_version)) + entry("summary"@, Jv::Str(x.deep_view().summary)) + entry("resource"@, x.deep_view().resource) + opt_entry("zts"@, x.deep_view().zts, |x: i64| Jv::Int(x as int)),
{
    push_field(fs, "resource_version", Json::Str(x.resource_version.clone()));
    push_field(fs, "summary", Json::Str(x.summary.clone()));
    push_field(fs, "resource", clone_json(&x.resource));
    match &x.zts {
        Some(v) => { push_field(fs, "zts", Json::Int(*v)); },
        None => {},
    }
    proof { assert(obj_view(fs@) =~= obj_view(old(fs)@) + entry("resource_version"@, Jv::Str(x.deep_view().resource_version)) + entry("summary"@, Jv::Str(x.deep_view().summary)) + entry("resource"@, x.deep_view().resource) + opt_entry("zts"@, x.deep_view().zts, |x: i64| Jv::Int(x as int))); }
}

#[verifier::rlimit(100)]
fn encode_webhook_part2(x: &Webhook, fs: &mut Vec<(String, Json)>)
    ensures
        obj_view(final(fs)@) == obj_view(old(fs)@) + entry("event_version"@, Jv::Str(x.deep_view().event_version)) + entry("links"@, Jv::Arr(link_list_jv(x.deep_view().links))),
{
    push_field(fs, "event_version", Json::Str(x.event_version.clone()));
    push_field(fs, "links", encode_link_vec(&x.links));
    proof { assert(obj_view(fs@) =~= obj_view(old(fs)@) + entry("event_version"@, Jv::Str(x.deep_view().event_version)) + entry("links"@, Jv::Arr(link_list_jv(x.deep_view().links)))); }
}

#[verifier::rlimit(100)]
pub fn encode_webhook(x: &Webhook) -> (j: Json)
    ensures
        j@ == webhook_jv(x.deep_view()),
{
    let mut fs = encode_webhook_part0(x);
    encode_webhook_part1(x, &mut fs);
    encode_webhook_part2(x, &mut fs);
    let r = Json::Obj(fs);
    proof {
        assert(r@->Obj_0 =~= obj_view(r->Obj_0@));
        assert(r@ == webhook_jv(x.deep_view()));
    }
    r
}

#[verifier::rlimit(100)]
pub fn decode_webhook(j: &Json) -> (r: Option<Webhook>)
    ensures
        r matches Some(x) ==> webhook_of_jv(j@) == Some(x.deep_view()),
        r is None ==> webhook_of_jv(j@) is None,
{
    match j {
        Json::Obj(fs) => {
            proof {
                assert(j@->Obj_0 =~= obj_view(fs@));
            }
            let f_id = match get_str(fs, "id") {
                Some(s) => s,
                None => { return None; },
            };
            let f_create_time = match get_str(fs, "create_time") {
                Some(s) => s,
                None => { return None; },
            };
            let f_event_type = match get_str(fs, "event_type") {
                Some(s) => s,
                None => { return None; },
            };
            let f_resource_type = match get_str(fs, "resource_type") {
                Some(s) => s,
                None => { return None; },
            };
            let f_resource_version = match get_str(fs, "resource_version") {
                Some(s) => s,
                None => { return None; },
            };
            let f_summary = match get_str(fs, "summary") {
                Some(s) => s,
                None => { return None; },
            };
            let f_resource = match get_field(fs, "resource") {
                Some(x) => clone_json(x),
                None => { return None; },
            };
            let f_zts = match get_field(fs, "zts") {
                None => None,
                Some(x) => match decode_i64(x) {
                    Some(v) => Some(v),
                    None => { return None; },
                },
            };
            let f_event_version = match get_str(fs, "event_version") {
                Some(s) => s,
                None => { return None; },
            };
            let f_links = match get_field(fs, "links") {
                Some(x) => match x {
                    Json::Arr(items) => {
                        proof { assert(x@->Arr_0 =~= arr_view(items@)); }
                        match decode_link_vec(items) {
                            Some(v) => v,
                            None => { return None; },
                        }
                    },
                    _ => { return None; },
                },
                None => { return None; },
            };
            Some(Webhook {
                id: f_id,
                create_time: f_create_time,
                event_type: f_event_type,
                resource_type: f_resource_type,
                resource_version: f_resource_version,
                summary: f_summary,
                resource: f_resource,
                zts: f_zts,
                event_version: f_event_version,
                links: f_links,
            })
        },
        _ => None,
    }
}

#[verifier::rlimit(100)]
proof fn lemma_webhook_fields_0(v: WebhookV)
    ensures
        jv_get(webhook_jv(v)->Obj_0, "id"@) == Some(Jv::Str(v.id)),
        jv_get(webhook_jv(v)->Obj_0, "create_time"@) == Some(Jv::Str(v.create_time)),
        jv_get(webhook_jv(v)->Obj_0, "event_type"@) == Some(Jv::Str(v.event_type)),
        jv_get(webhook_jv(v)->Obj_0, "resource_type"@) == Some(Jv::Str(v.resource_type)),
{
    let fs = webhook_jv(v)->Obj_0;
    reveal_strlit("id");
    assert("id"@ =~= seq!['i','d']);
    reveal_strlit("create_time");
    assert("create_time"@ =~= seq!['c','r','e','a','t','e','_','t','i','m','e']);
    reveal_strlit("event_type");
    assert("event_type"@ =~= seq!['e','v','e','n','t','_','t','y','p','e']);
    reveal_strlit("resource_type");
    assert("resource_type"@ =~= seq!['r','e','s','o','u','r','c','e','_','t','y','p','e']);
    reveal_strlit("resource_version");
    assert("resource_version"@ =~= seq!['r','e','s','o','u','r','c','e','_','v','e','r','s','i','o','n']);
    reveal_strlit("summary");
    assert("summary"@ =~= seq!['s','u','m','m','a','r','y']);
    reveal_strlit("resource");
    assert("resource"@ =~= seq!['r','e','s','o','u','r','c','e']);
    reveal_strlit("zts");
    assert("zts"@ =~= seq!['z','t','s']);
    reveal_strlit("event_version");
    assert("event_version"@ =~= seq!['e','v','e','n','t','_','v','e','r','s','i','o','n']);
    reveal_strlit("links");
    assert("links"@ =~= seq!['l','i','n','k','s']);
    let e0 = entry("id"@, Jv::Str(v.id));
    let e1 = entry("create_time"@, Jv::Str(v.create_time));
    let e2 = entry("event_type"@, Jv::Str(v.event_type));
    let e3 = entry("resource_type"@, Jv::Str(v.resource_type));
    let e4 = entry("resource_version"@, Jv::Str(v.resource_version));
    let e5 = entry("summary"@, Jv::Str(v.summary));
    let e6 = entry("resource"@, v.resource);
    let e7 = opt_entry("zts"@, v.zts, |x: i64| Jv::Int(x as int));
    let e8 = entry("event_version"@, Jv::Str(v.event_version));
    let e9 = entry("links"@, Jv::Arr(link_list_jv(v.links)));
    let l0 = e0;
    let l1 = l0 + e1;
    let l2 = l1 + e2;
    let l3 = l2 + e3;
    let l4 = l3 + e4;
    let l5 = l4 + e5;
    let l6 = l5 + e6;
    let l7 = l6 + e7;
    let l8 = l7 + e8;
    let l9 = l8 + e9;
    let s9 = e9;
    let s8 = e8 + s9;
    let s7 = e7 + s8;
    let s6 = e6 + s7;
    let s5 = e5 + s6;
    let s4 = e4 + s5;
    let s3 = e3 + s4;
    let s2 = e2 + s3;
    let s1 = e1 + s2;
    let s0 = e0 + s1;
    assert(fs == l9);
    lemma_concat_associative(l7, e8, s9);
    lemma_concat_associative(l6, e7, s8);
    lemma_concat_associative(l5, e6, s7);
    lemma_concat_associative(l4, e5, s6);
    lemma_concat_associative(l3, e4, s5);
    lemma_concat_associative(l2, e3, s4);
    lemma_concat_associative(l1, e2, s3);
    lemma_concat_associative(l0, e1, s2);
    assert(fs == s0);
    lemma_jv_get_head(s0, "id"@);
    lemma_jv_get_skip(e0, s1, "create_time"@);
    lemma_jv_get_head(s1, "create_time"@);
    lemma_jv_get_skip(e0, s1, "event_type"@);
    lemma_jv_get_skip(e1, s2, "event_type"@);
    lemma_jv_get_head(s2, "event_type"@);
    lemma_jv_get_skip(e0, s1, "resource_type"@);
    lemma_jv_get_skip(e1, s2, "resource_type"@);
    lemma_jv_get_skip(e2, s3, "resource_type"@);
    lemma_jv_get_head(s3, "resource_type"@);
}

#[verifier::rlimit(100)]
proof fn lemma_webhook_fields_1(v: WebhookV)
    ensures
        jv_get(webhook_jv(v)->Obj_0, "resource_version"@) == Some(Jv::Str(v.resource_version)),
        jv_get(webhook_jv(v)->Obj_0, "summary"@) == Some(Jv::Str(v.summary)),
        jv_get(webhook_jv(v)->Obj_0, "resource"@) == Some(v.resource),
        v.zts is Some ==> jv_get(webhook_jv(v)->Obj_0, "zts"@) == Some(Jv::Int(v.zts->Some_0 as int)),
        v.zts is None ==> jv_get(webhook_jv(v)->Obj_0, "zts"@) is None,
{
    let fs = webhook_jv(v)->Obj_0;
    reveal_strlit("id");
    assert("id"@ =~= seq!['i','d']);
    reveal_strlit("create_time");
    assert("create_time"@ =~= seq!['c','r','e','a','t','e','_','t','i','m','e']);
    reveal_strlit("event_type");
    assert("event_type"@ =~= seq!['e','v','e','n','t','_','t','y','p','e']);
    reveal_strlit("resource_type");
    assert("resource_type"@ =~= seq!['r','e','s','o','u','r','c','e','_','t','y','p','e']);
    reveal_strlit("resource_version");
    assert("resource_version"@ =~= seq!['r','e','s','o','u','r','c','e','_','v','e','r','s','i','o','n']);
    reveal_strlit("summary");
    assert("summary"@ =~= seq!['s','u','m','m','a','r','y']);
    reveal_strlit("resource");
    assert("resource"@ =~= seq!['r','e','s','o','u','r','c','e']);
    reveal_strlit("zts");
    assert("zts"@ =~= seq!['z','t','s']);
    reveal_strlit("event_version");
    assert("event_version"@ =~= seq!['e','v','e','n','t','_','v','e','r','s','i','o','n']);
    reveal_strlit("links");
    assert("links"@ =~= seq!['l','i','n','k','s']);
    let e0 = entry("id"@, Jv::Str(v.id));
    let e1 = entry("create_time"@, Jv::Str(v.create_time));
    let e2 = entry("event_type"@, Jv::Str(v.event_type));
    let e3 = entry("resource_type"@, Jv::Str(v.resource_type));
    let e4 = entry("resource_version"@, Jv::Str(v.resource_version));
    let e5 = entry("summary"@, Jv::Str(v.summary));
    let e6 = entry("resource"@, v.resource);
    let e7 = opt_entry("zts"@, v.zts, |x: i64| Jv::Int(x as int));
    let e8 = entry("event_version"@, Jv::Str(v.event_version));
    let e9 = entry("links"@, Jv::Arr(link_list_jv(v.links)));
    let l0 = e0;
    let l1 = l0 + e1;
    let l2 = l1 + e2;
    let l3 = l2 + e3;
    let l4 = l3 + e4;
    let l5 = l4 + e5;
    let l6 = l5 + e6;
    let l7 = l6 + e7;
    let l8 = l7 + e8;
    let l9 = l8 + e9;
    let s9 = e9;
    let s8 = e8 + s9;
    let s7 = e7 + s8;
    let s6 = e6 + s7;
    let s5 = e5 + s6;
    let s4 = e4 + s5;
    let s3 = e3 + s4;
    let s2 = e2 + s3;
    let s1 = e1 + s2;
    let s0 = e0 + s1;
    assert(fs == l9);
    lemma_concat_associative(l7, e8, s9);
    lemma_concat_associative(l6, e7, s8);
    lemma_concat_associative(l5, e6, s7);
    lemma_concat_associative(l4, e5, s6);
    lemma_concat_associative(l3, e4, s5);
    lemma_concat_associative(l2, e3, s4);
    lemma_concat_associative(l1, e2, s3);
    lemma_concat_associative(l0, e1, s2);
    assert(fs == s0);
    lemma_jv_get_skip(e0, s1, "resource_version"@);
    lemma_jv_get_skip(e1, s2, "resource_version"@);
    lemma_jv_get_skip(e2, s3, "resource_version"@);
    lemma_jv_get_skip(e3, s4, "resource_version"@);
    lemma_jv_get_head(s4, "resource_version"@);
    lemma_jv_get_skip(e0, s1, "summary"@);
    lemma_jv_get_skip(e1, s2, "summary"@);
    lemma_jv_get_skip(e2, s3, "summary"@);
    lemma_jv_get_skip(e3, s4, "summary"@);
    lemma_jv_get_skip(e4, s5, "summary"@);
    lemma_jv_get_head(s5, "summary"@);
    lemma_jv_get_skip(e0, s1, "resource"@);
    lemma_jv_get_skip(e1, s2, "resource"@);
    lemma_jv_get_skip(e2, s3, "resource"@);
    lemma_jv_get_skip(e3, s4, "resource"@);
    lemma_jv_get_skip(e4, s5, "resource"@);
    lemma_jv_get_skip(e5, s6, "resource"@);
    lemma_jv_get_head(s6, "resource"@);
    if v.zts is Some {
        lemma_jv_get_skip(e0, s1, "zts"@);
        lemma_jv_get_skip(e1, s2, "zts"@);
        lemma_jv_get_skip(e2, s3, "zts"@);
        lemma_jv_get_skip(e3, s4, "zts"@);
        lemma_jv_get_skip(e4, s5, "zts"@);
        lemma_jv_get_skip(e5, s6, "zts"@);
        lemma_jv_get_skip(e6, s7, "zts"@);
        lemma_jv_get_head(s7, "zts"@);
    } else {
        lemma_jv_get_skip(e0, s1, "zts"@);
        lemma_jv_get_skip(e1, s2, "zts"@);
        lemma_jv_get_skip(e2, s3, "zts"@);
        lemma_jv_get_skip(e3, s4, "zts"@);
        lemma_jv_get_skip(e4, s5, "zts"@);
        lemma_jv_get_skip(e5, s6, "zts"@);
        lemma_jv_get_skip(e6, s7, "zts"@);
        lemma_jv_get_skip(e7, s8, "zts"@);
        lemma_jv_get_skip(e8, s9, "zts"@);
        lemma_jv_get_absent(s9, "zts"@);
    }
}

#[verifier::rlimit(100)]
proof fn lemma_webhook_fields_2(v: WebhookV)
    ensures
        jv_get(webhook_jv(v)->Obj_0, "event_version"@) == Some(Jv::Str(v.event_version)),
        jv_get(webhook_jv(v)->Obj_0, "links"@) == Some(Jv::Arr(link_list_jv(v.links))),
{
    let fs = webhook_jv(v)->Obj_0;
    reveal_strlit("id");
    assert("id"@ =~= seq!['i','d']);
    reveal_strlit("create_time");
    assert("create_time"@ =~= seq!['c','r','e','a','t','e','_','t','i','m','e']);
    reveal_strlit("event_type");
    assert("event_type"@ =~= seq!['e','v','e','n','t','_','t','y','p','e']);
    reveal_strlit("resource_type");
    assert("resource_type"@ =~= seq!['r','e','s','o','u','r','c','e','_','t','y','p','e']);
    reveal_strlit("resource_version");
    assert("resource_version"@ =~= seq!['r','e','s','o','u','r','c','e','_','v','e','r','s','i','o','n']);
    reveal_strlit("summary");
    assert("summary"@ =~= seq!['s','u','m','m','a','r','y']);
    reveal_strlit("resource");
    assert("resource"@ =~= seq!['r','e','s','o','u','r','c','e']);
    reveal_strlit("zts");
    assert("zts"@ =~= seq!['z','t','s']);
    reveal_strlit("event_version");
    assert("event_version"@ =~= seq!['e','v','e','n','t','_','v','e','r','s','i','o','n']);
    reveal_strlit("links");
    assert("links"@ =~= seq!['l','i','n','k','s']);
    let e0 = entry("id"@, Jv::Str(v.id));
    let e1 = entry("create_time"@, Jv::Str(v.create_time));
    let e2 = entry("event_type"@, Jv::Str(v.event_type));
    let e3 = entry("resource_type"@, Jv::Str(v.resource_type));
    let e4 = entry("resource_version"@, Jv::Str(v.resource_version));
    let e5 = entry("summary"@, Jv::Str(v.summary));
    let e6 = entry("resource"@, v.resource);
    let e7 = opt_entry("zts"@, v.zts, |x: i64| Jv::Int(x as int));
    let e8 = entry("event_version"@, Jv::Str(v.event_version));
    let e9 = entry("links"@, Jv::Arr(link_list_jv(v.links)));
    let l0 = e0;
    let l1 = l0 + e1;
    let l2 = l1 + e2;
    let l3 = l2 + e3;
    let l4 = l3 + e4;
    let l5 = l4 + e5;
    let l6 = l5 + e6;
    let l7 = l6 + e7;
    let l8 = l7 + e8;
    let l9 = l8 + e9;
    let s9 = e9;
    let s8 = e8 + s9;
    let s7 = e7 + s8;
    let s6 = e6 + s7;
    let s5 = e5 + s6;
    let s4 = e4 + s5;
    let s3 = e3 + s4;
    let s2 = e2 + s3;
    let s1 = e1 + s2;
    let s0 = e0 + s1;
    assert(fs == l9);
    lemma_concat_associative(l7, e8, s9);
    lemma_concat_associative(l6, e7, s8);
    lemma_concat_associative(l5, e6, s7);
    lemma_concat_associative(l4, e5, s6);
    lemma_concat_associative(l3, e4, s5);
    lemma_concat_associative(l2, e3, s4);
    lemma_concat_associative(l1, e2, s3);
    lemma_concat_associative(l0, e1, s2);
    assert(fs == s0);
    lemma_jv_get_skip(e0, s1, "event_version"@);
    lemma_jv_get_skip(e1, s2, "event_version"@);
    lemma_jv_get_skip(e2, s3, "event_version"@);
    lemma_jv_get_skip(e3, s4, "event_version"@);
    lemma_jv_get_skip(e4, s5, "event_version"@);
    lemma_jv_get_skip(e5, s6, "event_version"@);
    lemma_jv_get_skip(e6, s7, "event_version"@);
    lemma_jv_get_skip(e7, s8, "event_version"@);
    lemma_jv_get_head(s8, "event_version"@);
    lemma_jv_get_skip(e0, s1, "links"@);
    lemma_jv_get_skip(e1, s2, "links"@);
    lemma_jv_get_skip(e2, s3, "links"@);
    lemma_jv_get_skip(e3, s4, "links"@);
    lemma_jv_get_skip(e4, s5, "links"@);
    lemma_jv_get_skip(e5, s6, "links"@);
    lemma_jv_get_skip(e6, s7, "links"@);
    lemma_jv_get_skip(e7, s8, "links"@);
    lemma_jv_get_skip(e8, s9, "links"@);
    lemma_jv_get_head(s9, "links"@);
}

/// A record of this type decodes back to itself after encoding.
#[verifier::rlimit(100)]
pub proof fn lemma_webhook_round_trip(v: WebhookV)
    ensures
        webhook_of_jv(webhook_jv(v)) == Some(v),
{
    lemma_webhook_fields_0(v);
    lemma_webhook_fields_1(v);
    lemma_webhook_fields_2(v);
    lemma_link_list_round_trip(v.links);
}

} // verus!
