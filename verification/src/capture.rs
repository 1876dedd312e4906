//! Captured payments, as the provider reports them on its capture
//! endpoints: seller protection, receivable breakdowns and related
//! identifiers.

use vstd::prelude::*;
use vstd::seq_lib::lemma_concat_associative;

use crate::codec::{
    decode_bool, decode_string_vec, encode_string_vec, bool_of_jv, entry, get_opt_str,
    get_opt_ts, get_str, lemma_strings_round_trip, opt_entry, opt_field, opt_str,
    opt_str_entry, push_field, req_field, req_str, rfc3339_ok, strings_arr_of_jv, strings_jv,
    ts_of_jv,
};
use crate::common::{
    decode_link_vec, encode_link_vec, lemma_link_list_round_trip, link_arr_of_jv, link_list_jv,
    LinkDescription, LinkDescriptionV,
};
use crate::orders::{
    amount_jv, amount_of_jv, capture_status_jv, capture_status_of_jv, decode_amount,
    decode_capture_status, encode_amount, encode_capture_status, lemma_amount_round_trip,
    lemma_capture_status_tokens, Amount, AmountV, CaptureStatus,
};
use crate::json::{
    arr_view, get_field, jv_get, lemma_jv_get_absent, lemma_jv_get_found, lemma_jv_get_head,
    lemma_jv_get_skip, obj_view, str_eq, Json, Jv,
};

verus! {

broadcast use vstd::string::group_string_axioms, vstd::std_specs::vec::group_vec_axioms, vstd::seq::group_seq_axioms;


/// Seller protection eligibility.
#[derive(Debug, Clone, Copy, PartialEq, Eq)]
pub enum SellerProtectionStatus {
    Eligable,
}

impl DeepView for SellerProtectionStatus {
    type V = SellerProtectionStatus;

    open spec fn deep_view(&self) -> SellerProtectionStatus {
        *self
    }
}

/// The token a [`SellerProtectionStatus`] travels as.
pub open spec fn seller_protection_status_token(x: SellerProtectionStatus) -> Seq<char> {
    match x {
        SellerProtectionStatus::Eligable => "ELIGABLE"@,
    }
}

/// The [`SellerProtectionStatus`] behind a token; tokens outside the table are rejected.
pub open spec fn seller_protection_status_of_token(t: Seq<char>) -> Option<SellerProtectionStatus> {
    if t == "ELIGABLE"@ { Some(SellerProtectionStatus::Eligable) }
    else { None }
}

pub open spec fn seller_protection_status_jv(x: SellerProtectionStatus) -> Jv {
    Jv::Str(seller_protection_status_token(x))
}

pub open spec fn seller_protection_status_of_jv(j: Jv) -> Option<SellerProtectionStatus> {
    match j {
        Jv::Str(t) => seller_protection_status_of_token(t),
        _ => None,
    }
}

pub fn encode_seller_protection_status(x: &SellerProtectionStatus) -> (j: Json)
    ensures
        j@ == seller_protection_status_jv(*x),
{
    let t: &str = match x {
        SellerProtectionStatus::Eligable => "ELIGABLE",
    };
    Json::Str(String::from_str(t))
}

pub fn decode_seller_protection_status(j: &Json) -> (r: Option<SellerProtectionStatus>)
    ensures
        r matches Some(x) ==> seller_protection_status_of_jv(j@) == Some(x),
        r is None ==> seller_protection_status_of_jv(j@) is None,
{
    match j {
        Json::Str(s) => {
            let t = s.as_str();
            if str_eq(t, "ELIGABLE") { Some(SellerProtectionStatus::Eligable) }
            else { None }
        },
        _ => None,
    }
}

/// Tokens of [`SellerProtectionStatus`]: encoding lands in the table and decodes back;
/// a decoded token is the encoding of what it decoded to.
pub proof fn lemma_seller_protection_status_tokens(x: SellerProtectionStatus, t: Seq<char>)
    ensures
        seller_protection_status_of_token(seller_protection_status_token(x)) == Some(x),
        seller_protection_status_of_token(t) matches Some(y) ==> seller_protection_status_token(y) == t,
{
    reveal_strlit("ELIGABLE");
    assert("ELIGABLE"@ =~= seq!['E','L','I','G','A','B','L','E']);
}

/// The level of protection offered to the seller for the transaction.
#[derive(Debug, Clone, PartialEq, Eq)]
pub struct SellerProtection {
    pub dispute_categories: Vec<String>,
    pub status: SellerProtectionStatus,
}

/// The shape of a [`SellerProtection`].
pub struct SellerProtectionV {
    pub dispute_categories: Seq<Seq<char>>,
    pub status: SellerProtectionStatus,
}

impl DeepView for SellerProtection {
    type V = SellerProtectionV;

    open spec fn deep_view(&self) -> SellerProtectionV {
        SellerProtectionV {
            dispute_categories: self.dispute_categories.deep_view(),
            status: self.status.deep_view(),
        }
    }
}

pub open spec fn seller_protection_jv(v: SellerProtectionV) -> Jv {
    Jv::Obj(
        entry("dispute_categories"@, Jv::Arr(strings_jv(v.dispute_categories)))
        + entry("status"@, seller_protection_status_jv(v.status))
    )
}

pub open spec fn seller_protection_of_jv(j: Jv) -> Option<SellerProtectionV> {
    match j {
        Jv::Obj(fs) => {
            let f_dispute_categories = req_field(fs, "dispute_categories"@, |x: Jv| strings_arr_of_jv(x));
            let f_status = req_field(fs, "status"@, |x: Jv| seller_protection_status_of_jv(x));
            if f_dispute_categories is Some && f_status is Some {
                Some(SellerProtectionV {
                    dispute_categories: f_dispute_categories->Some_0,
                    status: f_status->Some_0,
                })
            } else {
                None
            }
        },
        _ => None,
    }
}

pub fn encode_seller_protection(x: &SellerProtection) -> (j: Json)
    ensures
        j@ == seller_protection_jv(x.deep_view()),
{
    let mut fs: Vec<(String, Json)> = Vec::new();
    push_field(&mut fs, "dispute_categories", encode_string_vec(&x.dispute_categories));
    push_field(&mut fs, "status", encode_seller_protection_status(&x.status));
    let r = Json::Obj(fs);
    proof {
        assert(r@->Obj_0 =~= seller_protection_jv(x.deep_view())->Obj_0);
        assert(r@ == seller_protection_jv(x.deep_view()));
    }
    r
}

pub fn decode_seller_protection(j: &Json) -> (r: Option<SellerProtection>)
    ensures
        r matches Some(x) ==> seller_protection_of_jv(j@) == Some(x.deep_view()),
        r is None ==> seller_protection_of_jv(j@) is None,
{
    match j {
        Json::Obj(fs) => {
            proof {
                assert(j@->Obj_0 =~= obj_view(fs@));
            }
            let f_dispute_categories = match get_field(fs, "dispute_categories") {
                Some(x) => match x {
                    Json::Arr(items) => {
                        proof { assert(x@->Arr_0 =~= arr_view(items@)); }
                        match decode_string_vec(items) {
                            Some(v) => v,
                            None => { return None; },
                        }
                    },
                    _ => { return None; },
                },
                None => { return None; },
            };
            let f_status = match get_field(fs, "status") {
                Some(x) => match decode_seller_protection_status(x) {
                    Some(v) => v,
                    None => { return None; },
                },
                None => { return None; },
            };
            Some(SellerProtection {
                dispute_categories: f_dispute_categories,
                status: f_status,
            })
        },
        _ => None,
    }
}

/// A record of this type decodes back to itself after encoding.
#[verifier::rlimit(100)]
pub proof fn lemma_seller_protection_round_trip(v: SellerProtectionV)
    ensures
        seller_protection_of_jv(seller_protection_jv(v)) == Some(v),
{
    let fs = seller_protection_jv(v)->Obj_0;
    reveal_strlit("dispute_categories");
    assert("dispute_categories"@ =~= seq!['d','i','s','p','u','t','e','_','c','a','t','e','g','o','r','i','e','s']);
    reveal_strlit("status");
    assert("status"@ =~= seq!['s','t','a','t','u','s']);
    lemma_jv_get_found(fs, "dispute_categories"@, 0int);
    lemma_jv_get_found(fs, "status"@, 1int);
    lemma_strings_round_trip(v.dispute_categories);
    lemma_seller_protection_status_tokens(v.status, Seq::empty());
}

/// Identifiers related to a captured payment.
#[derive(Debug, Clone, PartialEq, Eq)]
pub struct RelatedIds {
    pub order_id: String,
}

/// The shape of a [`RelatedIds`].
pub struct RelatedIdsV {
    pub order_id: Seq<char>,
}

impl DeepView for RelatedIds {
    type V = RelatedIdsV;

    open spec fn deep_view(&self) -> RelatedIdsV {
        RelatedIdsV {
            order_id: self.order_id.deep_view(),
        }
    }
}

pub open spec fn related_ids_jv(v: RelatedIdsV) -> Jv {
    Jv::Obj(
        entry("order_id"@, Jv::Str(v.order_id))
    )
}

pub open spec fn related_ids_of_jv(j: Jv) -> Option<RelatedIdsV> {
    match j {
        Jv::Obj(fs) => {
            let f_order_id = req_str(fs, "order_id"@);
            if f_order_id is Some {
                Some(RelatedIdsV {
                    order_id: f_order_id->Some_0,
                })
            } else {
                None
            }
        },
        _ => None,
    }
}

pub fn encode_related_ids(x: &RelatedIds) -> (j: Json)
    ensures
        j@ == related_ids_jv(x.deep_view()),
{
    let mut fs: Vec<(String, Json)> = Vec::new();
    push_field(&mut fs, "order_id", Json::Str(x.order_id.clone()));
    let r = Json::Obj(fs);
    proof {
        assert(r@->Obj_0 =~= related_ids_jv(x.deep_view())->Obj_0);
        assert(r@ == related_ids_jv(x.deep_view()));
    }
    r
}

pub fn decode_related_ids(j: &Json) -> (r: Option<RelatedIds>)
    ensures
        r matches Some(x) ==> related_ids_of_jv(j@) == Some(x.deep_view()),
        r is None ==> related_ids_of_jv(j@) is None,
{
    match j {
        Json::Obj(fs) => {
            proof {
                assert(j@->Obj_0 =~= obj_view(fs@));
            }
            let f_order_id = match get_str(fs, "order_id") {
                Some(s) => s,
                None => { return None; },
            };
            Some(RelatedIds {
                order_id: f_order_id,
            })
        },
        _ => None,
    }
}

/// A record of this type decodes back to itself after encoding.
#[verifier::rlimit(100)]
pub proof fn lemma_related_ids_round_trip(v: RelatedIdsV)
    ensures
        related_ids_of_jv(related_ids_jv(v)) == Some(v),
{
    let fs = related_ids_jv(v)->Obj_0;
    reveal_strlit("order_id");
    assert("order_id"@ =~= seq!['o','r','d','e','r','_','i','d']);
    lemma_jv_get_found(fs, "order_id"@, 0int);
}

/// Supplementary data about a captured payment.
#[derive(Debug, Clone, PartialEq, Eq)]
pub struct SupplementaryData {
    pub related_ids: RelatedIds,
}

/// The shape of a [`SupplementaryData`].
pub struct SupplementaryDataV {
    pub related_ids: RelatedIdsV,
}

impl DeepView for SupplementaryData {
    type V = SupplementaryDataV;

    open spec fn deep_view(&self) -> SupplementaryDataV {
        SupplementaryDataV {
            related_ids: self.related_ids.deep_view(),
        }
    }
}

pub open spec fn supplementary_data_jv(v: SupplementaryDataV) -> Jv {
    Jv::Obj(
        entry("related_ids"@, related_ids_jv(v.related_ids))
    )
}

pub open spec fn supplementary_data_of_jv(j: Jv) -> Option<SupplementaryDataV> {
    match j {
        Jv::Obj(fs) => {
            let f_related_ids = req_field(fs, "related_ids"@, |x: Jv| related_ids_of_jv(x));
            if f_related_ids is Some {
                Some(SupplementaryDataV {
                    related_ids: f_related_ids->Some_0,
                })
            } else {
                None
            }
        },
        _ => None,
    }
}

pub fn encode_supplementary_data(x: &SupplementaryData) -> (j: Json)
    ensures
        j@ == supplementary_data_jv(x.deep_view()),
{
    let mut fs: Vec<(String, Json)> = Vec::new();
    push_field(&mut fs, "related_ids", encode_related_ids(&x.related_ids));
    let r = Json::Obj(fs);
    proof {
        assert(r@->Obj_0 =~= supplementary_data_jv(x.deep_view())->Obj_0);
        assert(r@ == supplementary_data_jv(x.deep_view()));
    }
    r
}

pub fn decode_supplementary_data(j: &Json) -> (r: Option<SupplementaryData>)
    ensures
        r matches Some(x) ==> supplementary_data_of_jv(j@) == Some(x.deep_view()),
        r is None ==> supplementary_data_of_jv(j@) is None,
{
    match j {
        Json::Obj(fs) => {
            proof {
                assert(j@->Obj_0 =~= obj_view(fs@));
            }
            let f_related_ids = match get_field(fs, "related_ids") {
                Some(x) => match decode_related_ids(x) {
                    Some(v) => v,
                    None => { return None; },
                },
                None => { return None; },
            };
            Some(SupplementaryData {
                related_ids: f_related_ids,
            })
        },
        _ => None,
    }
}

/// A record of this type decodes back to itself after encoding.
#[verifier::rlimit(100)]
pub proof fn lemma_supplementary_data_round_trip(v: SupplementaryDataV)
    ensures
        supplementary_data_of_jv(supplementary_data_jv(v)) == Some(v),
{
    let fs = supplementary_data_jv(v)->Obj_0;
    reveal_strlit("related_ids");
    assert("related_ids"@ =~= seq!['r','e','l','a','t','e','d','_','i','d','s']);
    lemma_jv_get_found(fs, "related_ids"@, 0int);
    lemma_related_ids_round_trip(v.related_ids);
}

/// The detailed breakdown of what the seller receives from a capture.
#[derive(Debug, Clone, PartialEq, Eq)]
pub struct SellerReceivableBreakdown {
    pub paypal_fee: Amount,
    pub gross_amount: Amount,
    pub net_amount: Amount,
}

/// The shape of a [`SellerReceivableBreakdown`].
pub struct SellerReceivableBreakdownV {
    pub paypal_fee: AmountV,
    pub gross_amount: AmountV,
    pub net_amount: AmountV,
}

impl DeepView for SellerReceivableBreakdown {
    type V = SellerReceivableBreakdownV;

    open spec fn deep_view(&self) -> SellerReceivableBreakdownV {
        SellerReceivableBreakdownV {
            paypal_fee: self.paypal_fee.deep_view(),
            gross_amount: self.gross_amount.deep_view(),
            net_amount: self.net_amount.deep_view(),
        }
    }
}

pub open spec fn seller_receivable_breakdown_jv(v: SellerReceivableBreakdownV) -> Jv {
    Jv::Obj(
        entry("paypal_fee"@, amount_jv(v.paypal_fee))
        + entry("gross_amount"@, amount_jv(v.gross_amount))
        + entry("net_amount"@, amount_jv(v.net_amount))
    )
}

pub open spec fn seller_receivable_breakdown_of_jv(j: Jv) -> Option<SellerReceivableBreakdownV> {
    match j {
        Jv::Obj(fs) => {
            let f_paypal_fee = req_field(fs, "paypal_fee"@, |x: Jv| amount_of_jv(x));
            let f_gross_amount = req_field(fs, "gross_amount"@, |x: Jv| amount_of_jv(x));
            let f_net_amount = req_field(fs, "net_amount"@, |x: Jv| amount_of_jv(x));
            if f_paypal_fee is Some && f_gross_amount is Some && f_net_amount is Some {
                Some(SellerReceivableBreakdownV {
                    paypal_fee: f_paypal_fee->Some_0,
                    gross_amount: f_gross_amount->Some_0,
                    net_amount: f_net_amount->Some_0,
                })
            } else {
                None
            }
        },
        _ => None,
    }
}

pub fn encode_seller_receivable_breakdown(x: &SellerReceivableBreakdown) -> (j: Json)
    ensures
        j@ == seller_receivable_breakdown_jv(x.deep_view()),
{
    let mut fs: Vec<(String, Json)> = Vec::new();
    push_field(&mut fs, "paypal_fee", encode_amount(&x.paypal_fee));
    push_field(&mut fs, "gross_amount", encode_amount(&x.gross_amount));
    push_field(&mut fs, "net_amount", encode_amount(&x.net_amount));
    let r = Json::Obj(fs);
    proof {
        assert(r@->Obj_0 =~= seller_receivable_breakdown_jv(x.deep_view())->Obj_0);
        assert(r@ == seller_receivable_breakdown_jv(x.deep_view()));
    }
    r
}

pub fn decode_seller_receivable_breakdown(j: &Json) -> (r: Option<SellerReceivableBreakdown>)
    ensures
        r matches Some(x) ==> seller_receivable_breakdown_of_jv(j@) == Some(x.deep_view()),
        r is None ==> seller_receivable_breakdown_of_jv(j@) is None,
{
    match j {
        Json::Obj(fs) => {
            proof {
                assert(j@->Obj_0 =~= obj_view(fs@));
            }
            let f_paypal_fee = match get_field(fs, "paypal_fee") {
                Some(x) => match decode_amount(x) {
                    Some(v) => v,
                    None => { return None; },
                },
                None => { return None; },
            };
            let f_gross_amount = match get_field(fs, "gross_amount") {
                Some(x) => match decode_amount(x) {
                    Some(v) => v,
                    None => { return None; },
                },
                None => { return None; },
            };
            let f_net_amount = match get_field(fs, "net_amount") {
                Some(x) => match decode_amount(x) {
                    Some(v) => v,
                    None => { return None; },
                },
                None => { return None; },
            };
            Some(SellerReceivableBreakdown {
                paypal_fee: f_paypal_fee,
                gross_amount: f_gross_amount,
                net_amount: f_net_amount,
            })
        },
        _ => None,
    }
}

/// A record of this type decodes back to itself after encoding.
#[verifier::rlimit(100)]
pub proof fn lemma_seller_receivable_breakdown_round_trip(v: SellerReceivableBreakdownV)
    ensures
        seller_receivable_breakdown_of_jv(seller_receivable_breakdown_jv(v)) == Some(v),
{
    let fs = seller_receivable_breakdown_jv(v)->Obj_0;
    reveal_strlit("paypal_fee");
    assert("paypal_fee"@ =~= seq!['p','a','y','p','a','l','_','f','e','e']);
    reveal_strlit("gross_amount");
    assert("gross_amount"@ =~= seq!['g','r','o','s','s','_','a','m','o','u','n','t']);
    reveal_strlit("net_amount");
    assert("net_amount"@ =~= seq!['n','e','t','_','a','m','o','u','n','t']);
    lemma_jv_get_found(fs, "paypal_fee"@, 0int);
    lemma_jv_get_found(fs, "gross_amount"@, 1int);
    lemma_jv_get_found(fs, "net_amount"@, 1int + 1int);
    lemma_amount_round_trip(v.paypal_fee);
    lemma_amount_round_trip(v.gross_amount);
    lemma_amount_round_trip(v.net_amount);
}

/// A captured payment, as the capture endpoints report it.
#[derive(Debug, Clone, PartialEq, Eq)]
pub struct Payment {
    pub amount: Amount,
    pub seller_protection: Option<SellerProtection>,
    pub create_time: Option<String>,
    pub update_time: Option<String>,
    pub final_capture: Option<bool>,
    pub seller_receivable_breakdown: Option<SellerReceivableBreakdown>,
    pub custom_id: Option<String>,
    pub links: Vec<LinkDescription>,
    pub id: Option<String>,
    pub status: Option<CaptureStatus>,
}

/// The shape of a [`Payment`].
pub struct PaymentV {
    pub amount: AmountV,
    pub seller_protection: Option<SellerProtectionV>,
    pub create_time: Option<Seq<char>>,
    pub update_time: Option<Seq<char>>,
    pub final_capture: Option<bool>,
    pub seller_receivable_breakdown: Option<SellerReceivableBreakdownV>,
    pub custom_id: Option<Seq<char>>,
    pub links: Seq<LinkDescriptionV>,
    pub id: Option<Seq<char>>,
    pub status: Option<CaptureStatus>,
}

impl DeepView for Payment {
    type V = PaymentV;

    open spec fn deep_view(&self) -> PaymentV {
        PaymentV {
            amount: self.amount.deep_view(),
            seller_protection: self.seller_protection.deep_view(),
            create_time: self.create_time.deep_view(),
            update_time: self.update_time.deep_view(),
            final_capture: self.final_capture.deep_view(),
            seller_receivable_breakdown: self.seller_receivable_breakdown.deep_view(),
            custom_id: self.custom_id.deep_view(),
            links: self.links.deep_view(),
            id: self.id.deep_view(),
            status: self.status.deep_view(),
        }
    }
}

/// What the provider guarantees of every [`Payment`] it reports.
pub open spec fn payment_wf(v: PaymentV) -> bool {
    (v.create_time matches Some(t) ==> rfc3339_ok(t)) && (v.update_time matches Some(t) ==> rfc3339_ok(t))
}

pub open spec fn payment_jv(v: PaymentV) -> Jv {
    Jv::Obj(
        entry("amount"@, amount_jv(v.amount))
        + opt_entry("seller_protection"@, v.seller_protection, |x: SellerProtectionV| seller_protection_jv(x))
        + opt_str_entry("create_time"@, v.create_time)
        + opt_str_entry("update_time"@, v.update_time)
        + opt_entry("final_capture"@, v.final_capture, |x: bool| Jv::Bool(x))
        + opt_entry("seller_receivable_breakdown"@, v.seller_receivable_breakdown, |x: SellerReceivableBreakdownV| seller_receivable_breakdown_jv(x))
        + opt_str_entry("custom_id"@, v.custom_id)
        + entry("links"@, Jv::Arr(link_list_jv(v.links)))
        + opt_str_entry("id"@, v.id)
        + opt_entry("status"@, v.status, |x: CaptureStatus| capture_status_jv(x))
    )
}

pub open spec fn payment_of_jv(j: Jv) -> Option<PaymentV> {
    match j {
        Jv::Obj(fs) => {
            let f_amount = req_field(fs, "amount"@, |x: Jv| amount_of_jv(x));
            let f_seller_protection = opt_field(fs, "seller_protection"@, |x: Jv| seller_protection_of_jv(x));
            let f_create_time = opt_field(fs, "create_time"@, |x: Jv| ts_of_jv(x));
            let f_update_time = opt_field(fs, "update_time"@, |x: Jv| ts_of_jv(x));
            let f_final_capture = opt_field(fs, "final_capture"@, |x: Jv| bool_of_jv(x));
            let f_seller_receivable_breakdown = opt_field(fs, "seller_receivable_breakdown"@, |x: Jv| seller_receivable_breakdown_of_jv(x));
            let f_custom_id = opt_str(fs, "custom_id"@);
            let f_links = req_field(fs, "links"@, |x: Jv| link_arr_of_jv(x));
            let f_id = opt_str(fs, "id"@);
            let f_status = opt_field(fs, "status"@, |x: Jv| capture_status_of_jv(x));
            if f_amount is Some && f_seller_protection is Some && f_create_time is Some && f_update_time is Some && f_final_capture is Some && f_seller_receivable_breakdown is Some && f_custom_id is Some && f_links is Some && f_id is Some && f_status is Some {
                Some(PaymentV {
                    amount: f_amount->Some_0,
                    seller_protection: f_seller_protection->Some_0,
                    create_time: f_create_time->Some_0,
                    update_time: f_update_time->Some_0,
                    final_capture: f_final_capture->Some_0,
                    seller_receivable_breakdown: f_seller_receivable_breakdown->Some_0,
                    custom_id: f_custom_id->Some_0,
                    links: f_links->Some_0,
                    id: f_id->Some_0,
                    status: f_status->Some_0,
                })
            } else {
                None
            }
        },
        _ => None,
    }
}

#[verifier::rlimit(100)]
fn encode_payment_part0(x: &Payment) -> (fs: Vec<(String, Json)>)
    ensures
        obj_view(fs@) == entry("amount"@, amount_jv(x.deep_view().amount)) + opt_entry("seller_protection"@, x.deep_view().seller_protection, |x: SellerProtectionV| seller_protection_jv(x)) + opt_str_entry("create_time"@, x.deep_view().create_time) + opt_str_entry("update_time"@, x.deep_view().update_time),
{
    let mut fs: Vec<(String, Json)> = Vec::new();
    push_field(&mut fs, "amount", encode_amount(&x.amount));
    match &x.seller_protection {
        Some(v) => { push_field(&mut fs, "seller_protection", encode_seller_protection(v)); },
        None => {},
    }
    match &x.create_time {
        Some(v) => { push_field(&mut fs, "create_time", Json::Str(v.clone())); },
        None => {},
    }
    match &x.update_time {
        Some(v) => { push_field(&mut fs, "update_time", Json::Str(v.clone())); },
        None => {},
    }
    proof { assert(obj_view(fs@) =~= entry("amount"@, amount_jv(x.deep_view().amount)) + opt_entry("seller_protection"@, x.deep_view().seller_protection, |x: SellerProtectionV| seller_protection_jv(x)) + opt_str_entry("create_time"@, x.deep_view().create_time) + opt_str_entry("update_time"@, x.deep_view().update_time)); }
    fs
}

#[verifier::rlimit(100)]
fn encode_payment_part1(x: &Payment, fs: &mut Vec<(String, Json)>)
    ensures
        obj_view(final(fs)@) == obj_view(old(fs)@) + opt_entry("final_capture"@, x.deep_view().final_capture, |x: bool| Jv::Bool(x)) + opt_entry("seller_receivable_breakdown"@, x.deep_view().seller_receivable_breakdown, |x: SellerReceivableBreakdownV| seller_receivable_breakdown_jv(x)) + opt_str_entry("custom_id"@, x.deep_view().custom_id) + entry("links"@, Jv::Arr(link_list_jv(x.deep_view().links))),
{
    match &x.final_capture {
        Some(v) => { push_field(fs, "final_capture", Json::Bool(*v)); },
        None => {},
    }
    match &x.seller_receivable_breakdown {
        Some(v) => { push_field(fs, "seller_receivable_breakdown", encode_seller_receivable_breakdown(v)); },
        None => {},
    }
    match &x.custom_id {
        Some(v) => { push_field(fs, "custom_id", Json::Str(v.clone())); },
        None => {},
    }
    push_field(fs, "links", encode_link_vec(&x.links));
    proof { assert(obj_view(fs@) =~= obj_view(old(fs)@) + opt_entry("final_capture"@, x.deep_view().final_capture, |x: bool| Jv::Bool(x)) + opt_entry("seller_receivable_breakdown"@, x.deep_view().seller_receivable_breakdown, |x: SellerReceivableBreakdownV| seller_receivable_breakdown_jv(x)) + opt_str_entry("custom_id"@, x.deep_view().custom_id) + entry("links"@, Jv::Arr(link_list_jv(x.deep_view().links)))); }
}

#[verifier::rlimit(100)]
fn encode_payment_part2(x: &Payment, fs: &mut Vec<(String, Json)>)
    ensures
        obj_view(final(fs)@) == obj_view(old(fs)@) + opt_str_entry("id"@, x.deep_view().id) + opt_entry("status"@, x.deep_view().status, |x: CaptureStatus| capture_status_jv(x)),
{
    match &x.id {
        Some(v) => { push_field(fs, "id", Json::Str(v.clone())); },
        None => {},
    }
    match &x.status {
        Some(v) => { push_field(fs, "status", encode_capture_status(v)); },
        None => {},
    }
    proof { assert(obj_view(fs@) =~= obj_view(old(fs)@) + opt_str_entry("id"@, x.deep_view().id) + opt_entry("status"@, x.deep_view().status, |x: CaptureStatus| capture_status_jv(x))); }
}

#[verifier::rlimit(100)]
pub fn encode_payment(x: &Payment) -> (j: Json)
    ensures
        j@ == payment_jv(x.deep_view()),
{
    let mut fs = encode_payment_part0(x);
    encode_payment_part1(x, &mut fs);
    encode_payment_part2(x, &mut fs);
    let r = Json::Obj(fs);
    proof {
        assert(r@->Obj_0 =~= obj_view(r->Obj_0@));
        assert(r@ == payment_jv(x.deep_view()));
    }
    r
}

#[verifier::rlimit(100)]
pub fn decode_payment(j: &Json) -> (r: Option<Payment>)
    ensures
        r matches Some(x) ==> payment_of_jv(j@) == Some(x.deep_view()),
        r is None ==> payment_of_jv(j@) is None,
{
    match j {
        Json::Obj(fs) => {
            proof {
                assert(j@->Obj_0 =~= obj_view(fs@));
            }
            let f_amount = match get_field(fs, "amount") {
                Some(x) => match decode_amount(x) {
                    Some(v) => v,
                    None => { return None; },
                },
                None => { return None; },
            };
            let f_seller_protection = match get_field(fs, "seller_protection") {
                None => None,
                Some(x) => match decode_seller_protection(x) {
                    Some(v) => Some(v),
                    None => { return None; },
                },
            };
            let f_create_time = match get_opt_ts(fs, "create_time") {
                Some(v) => v,
                None => { return None; },
            };
            let f_update_time = match get_opt_ts(fs, "update_time") {
                Some(v) => v,
                None => { return None; },
            };
            let f_final_capture = match get_field(fs, "final_capture") {
                None => None,
                Some(x) => match decode_bool(x) {
                    Some(v) => Some(v),
                    None => { return None; },
                },
            };
            let f_seller_receivable_breakdown = match get_field(fs, "seller_receivable_breakdown") {
                None => None,
                Some(x) => match decode_seller_receivable_breakdown(x) {
                    Some(v) => Some(v),
                    None => { return None; },
                },
            };
            let f_custom_id = match get_opt_str(fs, "custom_id") {
                Some(v) => v,
                None => { return None; },
            };
            let f_links = match get_field(fs, "links") {
                Some(x) => match x {
                    Json::Arr(items) => {
                        proof { assert(x@->Arr_0 =~= arr_view(items@)); }
                        match decode_link_vec(items) {
                            Some(v) => v,
                            None => { return None; },
                        }
                    },
                    _ => { return None; },
                },
                None => { return None; },
            };
            let f_id = match get_opt_str(fs, "id") {
                Some(v) => v,
                None => { return None; },
            };
            let f_status = match get_field(fs, "status") {
                None => None,
                Some(x) => match decode_capture_status(x) {
                    Some(v) => Some(v),
                    None => { return None; },
                },
            };
            Some(Payment {
                amount: f_amount,
                seller_protection: f_seller_protection,
                create_time: f_create_time,
                update_time: f_update_time,
                final_capture: f_final_capture,
                seller_receivable_breakdown: f_seller_receivable_breakdown,
                custom_id: f_custom_id,
                links: f_links,
                id: f_id,
                status: f_status,
            })
        },
        _ => None,
    }
}

#[verifier::rlimit(100)]
proof fn lemma_payment_fields_0(v: PaymentV)
    ensures
        jv_get(payment_jv(v)->Obj_0, "amount"@) == Some(amount_jv(v.amount)),
        v.seller_protection is Some ==> jv_get(payment_jv(v)->Obj_0, "seller_protection"@) == Some(seller_protection_jv(v.seller_protection->Some_0)),
        v.seller_protection is None ==> jv_get(payment_jv(v)->Obj_0, "seller_protection"@) is None,
        v.create_time is Some ==> jv_get(payment_jv(v)->Obj_0, "create_time"@) == Some(Jv::Str(v.create_time->Some_0)),
        v.create_time is None ==> jv_get(payment_jv(v)->Obj_0, "create_time"@) is None,
        v.update_time is Some ==> jv_get(payment_jv(v)->Obj_0, "update_time"@) == Some(Jv::Str(v.update_time->Some_0)),
        v.update_time is None ==> jv_get(payment_jv(v)->Obj_0, "update_time"@) is None,
{
    let fs = payment_jv(v)->Obj_0;
    reveal_strlit("amount");
    assert("amount"@ =~= seq!['a','m','o','u','n','t']);
    reveal_strlit("seller_protection");
    assert("seller_protection"@ =~= seq!['s','e','l','l','e','r','_','p','r','o','t','e','c','t','i','o','n']);
    reveal_strlit("create_time");
    assert("create_time"@ =~= seq!['c','r','e','a','t','e','_','t','i','m','e']);
    reveal_strlit("update_time");
    assert("update_time"@ =~= seq!['u','p','d','a','t','e','_','t','i','m','e']);
    reveal_strlit("final_capture");
    assert("final_capture"@ =~= seq!['f','i','n','a','l','_','c','a','p','t','u','r','e']);
    reveal_strlit("seller_receivable_breakdown");
    assert("seller_receivable_breakdown"@ =~= seq!['s','e','l','l','e','r','_','r','e','c','e','i','v','a','b','l','e','_','b','r','e','a','k','d','o','w','n']);
    reveal_strlit("custom_id");
    assert("custom_id"@ =~= seq!['c','u','s','t','o','m','_','i','d']);
    reveal_strlit("links");
    assert("links"@ =~= seq!['l','i','n','k','s']);
    reveal_strlit("id");
    assert("id"@ =~= seq!['i','d']);
    reveal_strlit("status");
    assert("status"@ =~= seq!['s','t','a','t','u','s']);
    let e0 = entry("amount"@, amount_jv(v.amount));
    let e1 = opt_entry("seller_protection"@, v.seller_protection, |x: SellerProtectionV| seller_protection_jv(x));
    let e2 = opt_str_entry("create_time"@, v.create_time);
    let e3 = opt_str_entry("update_time"@, v.update_time);
    let e4 = opt_entry("final_capture"@, v.final_capture, |x: bool| Jv::Bool(x));
    let e5 = opt_entry("seller_receivable_breakdown"@, v.seller_receivable_breakdown, |x: SellerReceivableBreakdownV| seller_receivable_breakdown_jv(x));
    let e6 = opt_str_entry("custom_id"@, v.custom_id);
    let e7 = entry("links"@, Jv::Arr(link_list_jv(v.links)));
    let e8 = opt_str_entry("id"@, v.id);
    let e9 = opt_entry("status"@, v.status, |x: CaptureStatus| capture_status_jv(x));
    let l0 = e0;
    let l1 = l0 + e1;
    let l2 = l1 + e2;
    let l3 = l2 + e3;
    let l4 = l3 + e4;
    let l5 = l4 + e5;
    let l6 = l5 + e6;
    let l7 = l6 + e7;
    let l8 = l7 + e8;
    let l9 = l8 + e9;
    let s9 = e9;
    let s8 = e8 + s9;
    let s7 = e7 + s8;
    let s6 = e6 + s7;
    let s5 = e5 + s6;
    let s4 = e4 + s5;
    let s3 = e3 + s4;
    let s2 = e2 + s3;
    let s1 = e1 + s2;
    let s0 = e0 + s1;
    assert(fs == l9);
    lemma_concat_associative(l7, e8, s9);
    lemma_concat_associative(l6, e7, s8);
    lemma_concat_associative(l5, e6, s7);
    lemma_concat_associative(l4, e5, s6);
    lemma_concat_associative(l3, e4, s5);
    lemma_concat_associative(l2, e3, s4);
    lemma_concat_associative(l1, e2, s3);
    lemma_concat_associative(l0, e1, s2);
    assert(fs == s0);
    lemma_jv_get_head(s0, "amount"@);
    if v.seller_protection is Some {
        lemma_jv_get_skip(e0, s1, "seller_protection"@);
        lemma_jv_get_head(s1, "seller_protection"@);
    } else {
        lemma_jv_get_skip(e0, s1, "seller_protection"@);
        lemma_jv_get_skip(e1, s2, "seller_protection"@);
        lemma_jv_get_skip(e2, s3, "seller_protection"@);
        lemma_jv_get_skip(e3, s4, "seller_protection"@);
        lemma_jv_get_skip(e4, s5, "seller_protection"@);
        lemma_jv_get_skip(e5, s6, "seller_protection"@);
        lemma_jv_get_skip(e6, s7, "seller_protection"@);
        lemma_jv_get_skip(e7, s8, "seller_protection"@);
        lemma_jv_get_skip(e8, s9, "seller_protection"@);
        lemma_jv_get_absent(s9, "seller_protection"@);
    }
    if v.create_time is Some {
        lemma_jv_get_skip(e0, s1, "create_time"@);
        lemma_jv_get_skip(e1, s2, "create_time"@);
        lemma_jv_get_head(s2, "create_time"@);
    } else {
        lemma_jv_get_skip(e0, s1, "create_time"@);
        lemma_jv_get_skip(e1, s2, "create_time"@);
        lemma_jv_get_skip(e2, s3, "create_time"@);
        lemma_jv_get_skip(e3, s4, "create_time"@);
        lemma_jv_get_skip(e4, s5, "create_time"@);
        lemma_jv_get_skip(e5, s6, "create_time"@);
        lemma_jv_get_skip(e6, s7, "create_time"@);
        lemma_jv_get_skip(e7, s8, "create_time"@);
        lemma_jv_get_skip(e8, s9, "create_time"@);
        lemma_jv_get_absent(s9, "create_time"@);
    }
    if v.update_time is Some {
        lemma_jv_get_skip(e0, s1, "update_time"@);
        lemma_jv_get_skip(e1, s2, "update_time"@);
        lemma_jv_get_skip(e2, s3, "update_time"@);
        lemma_jv_get_head(s3, "update_time"@);
    } else {
        lemma_jv_get_skip(e0, s1, "update_time"@);
        lemma_jv_get_skip(e1, s2, "update_time"@);
        lemma_jv_get_skip(e2, s3, "update_time"@);
        lemma_jv_get_skip(e3, s4, "update_time"@);
        lemma_jv_get_skip(e4, s5, "update_time"@);
        lemma_jv_get_skip(e5, s6, "update_time"@);
        lemma_jv_get_skip(e6, s7, "update_time"@);
        lemma_jv_get_skip(e7, s8, "update_time"@);
        lemma_jv_get_skip(e8, s9, "update_time"@);
        lemma_jv_get_absent(s9, "update_time"@);
    }
}

#[verifier::rlimit(100)]
proof fn lemma_payment_fields_1(v: PaymentV)
    ensures
        v.final_capture is Some ==> jv_get(payment_jv(v)->Obj_0, "final_capture"@) == Some(Jv::Bool(v.final_capture->Some_0)),
        v.final_capture is None ==> jv_get(payment_jv(v)->Obj_0, "final_capture"@) is None,
        v.seller_receivable_breakdown is Some ==> jv_get(payment_jv(v)->Obj_0, "seller_receivable_breakdown"@) == Some(seller_receivable_breakdown_jv(v.seller_receivable_breakdown->Some_0)),
        v.seller_receivable_breakdown is None ==> jv_get(payment_jv(v)->Obj_0, "seller_receivable_breakdown"@) is None,
        v.custom_id is Some ==> jv_get(payment_jv(v)->Obj_0, "custom_id"@) == Some(Jv::Str(v.custom_id->Some_0)),
        v.custom_id is None ==> jv_get(payment_jv(v)->Obj_0, "custom_id"@) is None,
        jv_get(payment_jv(v)->Obj_0, "links"@) == Some(Jv::Arr(link_list_jv(v.links))),
{
    let fs = payment_jv(v)->Obj_0;
    reveal_strlit("amount");
    assert("amount"@ =~= seq!['a','m','o','u','n','t']);
    reveal_strlit("seller_protection");
    assert("seller_protection"@ =~= seq!['s','e','l','l','e','r','_','p','r','o','t','e','c','t','i','o','n']);
    reveal_strlit("create_time");
    assert("create_time"@ =~= seq!['c','r','e','a','t','e','_','t','i','m','e']);
    reveal_strlit("update_time");
    assert("update_time"@ =~= seq!['u','p','d','a','t','e','_','t','i','m','e']);
    reveal_strlit("final_capture");
    assert("final_capture"@ =~= seq!['f','i','n','a','l','_','c','a','p','t','u','r','e']);
    reveal_strlit("seller_receivable_breakdown");
    assert("seller_receivable_breakdown"@ =~= seq!['s','e','l','l','e','r','_','r','e','c','e','i','v','a','b','l','e','_','b','r','e','a','k','d','o','w','n']);
    reveal_strlit("custom_id");
    assert("custom_id"@ =~= seq!['c','u','s','t','o','m','_','i','d']);
    reveal_strlit("links");
    assert("links"@ =~= seq!['l','i','n','k','s']);
    reveal_strlit("id");
    assert("id"@ =~= seq!['i','d']);
    reveal_strlit("status");
    assert("status"@ =~= seq!['s','t','a','t','u','s']);
    let e0 = entry("amount"@, amount_jv(v.amount));
    let e1 = opt_entry("seller_protection"@, v.seller_protection, |x: SellerProtectionV| seller_protection_jv(x));
    let e2 = opt_str_entry("create_time"@, v.create_time);
    let e3 = opt_str_entry("update_time"@, v.update_time);
    let e4 = opt_entry("final_capture"@, v.final_capture, |x: bool| Jv::Bool(x));
    let e5 = opt_entry("seller_receivable_breakdown"@, v.seller_receivable_breakdown, |x: SellerReceivableBreakdownV| seller_receivable_breakdown_jv(x));
    let e6 = opt_str_entry("custom_id"@, v.custom_id);
    let e7 = entry("links"@, Jv::Arr(link_list_jv(v.links)));
    let e8 = opt_str_entry("id"@, v.id);
    let e9 = opt_entry("status"@, v.status, |x: CaptureStatus| capture_status_jv(x));
    let l0 = e0;
    let l1 = l0 + e1;
    let l2 = l1 + e2;
    let l3 = l2 + e3;
    let l4 = l3 + e4;
    let l5 = l4 + e5;
    let l6 = l5 + e6;
    let l7 = l6 + e7;
    let l8 = l7 + e8;
    let l9 = l8 + e9;
    let s9 = e9;
    let s8 = e8 + s9;
    let s7 = e7 + s8;
    let s6 = e6 + s7;
    let s5 = e5 + s6;
    let s4 = e4 + s5;
    let s3 = e3 + s4;
    let s2 = e2 + s3;
    let s1 = e1 + s2;
    let s0 = e0 + s1;
    assert(fs == l9);
    lemma_concat_associative(l7, e8, s9);
    lemma_concat_associative(l6, e7, s8);
    lemma_concat_associative(l5, e6, s7);
    lemma_concat_associative(l4, e5, s6);
    lemma_concat_associative(l3, e4, s5);
    lemma_concat_associative(l2, e3, s4);
    lemma_concat_associative(l1, e2, s3);
    lemma_concat_associative(l0, e1, s2);
    assert(fs == s0);
    if v.final_capture is Some {
        lemma_jv_get_skip(e0, s1, "final_capture"@);
        lemma_jv_get_skip(e1, s2, "final_capture"@);
        lemma_jv_get_skip(e2, s3, "final_capture"@);
        lemma_jv_get_skip(e3, s4, "final_capture"@);
        lemma_jv_get_head(s4, "final_capture"@);
    } else {
        lemma_jv_get_skip(e0, s1, "final_capture"@);
        lemma_jv_get_skip(e1, s2, "final_capture"@);
        lemma_jv_get_skip(e2, s3, "final_capture"@);
        lemma_jv_get_skip(e3, s4, "final_capture"@);
        lemma_jv_get_skip(e4, s5, "final_capture"@);
        lemma_jv_get_skip(e5, s6, "final_capture"@);
        lemma_jv_get_skip(e6, s7, "final_capture"@);
        lemma_jv_get_skip(e7, s8, "final_capture"@);
        lemma_jv_get_skip(e8, s9, "final_capture"@);
        lemma_jv_get_absent(s9, "final_capture"@);
    }
    if v.seller_receivable_breakdown is Some {
        lemma_jv_get_skip(e0, s1, "seller_receivable_breakdown"@);
        lemma_jv_get_skip(e1, s2, "seller_receivable_breakdown"@);
        lemma_jv_get_skip(e2, s3, "seller_receivable_breakdown"@);
        lemma_jv_get_skip(e3, s4, "seller_receivable_breakdown"@);
        lemma_jv_get_skip(e4, s5, "seller_receivable_breakdown"@);
        lemma_jv_get_head(s5, "seller_receivable_breakdown"@);
    } else {
        lemma_jv_get_skip(e0, s1, "seller_receivable_breakdown"@);
        lemma_jv_get_skip(e1, s2, "seller_receivable_breakdown"@);
        lemma_jv_get_skip(e2, s3, "seller_receivable_breakdown"@);
        lemma_jv_get_skip(e3, s4, "seller_receivable_breakdown"@);
        lemma_jv_get_skip(e4, s5, "seller_receivable_breakdown"@);
        lemma_jv_get_skip(e5, s6, "seller_receivable_breakdown"@);
        lemma_jv_get_skip(e6, s7, "seller_receivable_breakdown"@);
        lemma_jv_get_skip(e7, s8, "seller_receivable_breakdown"@);
        lemma_jv_get_skip(e8, s9, "seller_receivable_breakdown"@);
        lemma_jv_get_absent(s9, "seller_receivable_breakdown"@);
    }
    if v.custom_id is Some {
        lemma_jv_get_skip(e0, s1, "custom_id"@);
        lemma_jv_get_skip(e1, s2, "custom_id"@);
        lemma_jv_get_skip(e2, s3, "custom_id"@);
        lemma_jv_get_skip(e3, s4, "custom_id"@);
        lemma_jv_get_skip(e4, s5, "custom_id"@);
        lemma_jv_get_skip(e5, s6, "custom_id"@);
        lemma_jv_get_head(s6, "custom_id"@);
    } else {
        lemma_jv_get_skip(e0, s1, "custom_id"@);
        lemma_jv_get_skip(e1, s2, "custom_id"@);
        lemma_jv_get_skip(e2, s3, "custom_id"@);
        lemma_jv_get_skip(e3, s4, "custom_id"@);
        lemma_jv_get_skip(e4, s5, "custom_id"@);
        lemma_jv_get_skip(e5, s6, "custom_id"@);
        lemma_jv_get_skip(e6, s7, "custom_id"@);
        lemma_jv_get_skip(e7, s8, "custom_id"@);
        lemma_jv_get_skip(e8, s9, "custom_id"@);
        lemma_jv_get_absent(s9, "custom_id"@);
    }
    lemma_jv_get_skip(e0, s1, "links"@);
    lemma_jv_get_skip(e1, s2, "links"@);
    lemma_jv_get_skip(e2, s3, "links"@);
    lemma_jv_get_skip(e3, s4, "links"@);
    lemma_jv_get_skip(e4, s5, "links"@);
    lemma_jv_get_skip(e5, s6, "links"@);
    lemma_jv_get_skip(e6, s7, "links"@);
    lemma_jv_get_head(s7, "links"@);
}

#[verifier::rlimit(100)]
proof fn lemma_payment_fields_2(v: PaymentV)
    ensures
        v.id is Some ==> jv_get(payment_jv(v)->Obj_0, "id"@) == Some(Jv::Str(v.id->Some_0)),
        v.id is None ==> jv_get(payment_jv(v)->Obj_0, "id"@) is None,
        v.status is Some ==> jv_get(payment_jv(v)->Obj_0, "status"@) == Some(capture_status_jv(v.status->Some_0)),
        v.status is None ==> jv_get(payment_jv(v)->Obj_0, "status"@) is None,
{
    let fs = payment_jv(v)->Obj_0;
    reveal_strlit("amount");
    assert("amount"@ =~= seq!['a','m','o','u','n','t']);
    reveal_strlit("seller_protection");
    assert("seller_protection"@ =~= seq!['s','e','l','l','e','r','_','p','r','o','t','e','c','t','i','o','n']);
    reveal_strlit("create_time");
    assert("create_time"@ =~= seq!['c','r','e','a','t','e','_','t','i','m','e']);
    reveal_strlit("update_time");
    assert("update_time"@ =~= seq!['u','p','d','a','t','e','_','t','i','m','e']);
    reveal_strlit("final_capture");
    assert("final_capture"@ =~= seq!['f','i','n','a','l','_','c','a','p','t','u','r','e']);
    reveal_strlit("seller_receivable_breakdown");
    assert("seller_receivable_breakdown"@ =~= seq!['s','e','l','l','e','r','_','r','e','c','e','i','v','a','b','l','e','_','b','r','e','a','k','d','o','w','n']);
    reveal_strlit("custom_id");
    assert("custom_id"@ =~= seq!['c','u','s','t','o','m','_','i','d']);
    reveal_strlit("links");
    assert("links"@ =~= seq!['l','i','n','k','s']);
    reveal_strlit("id");
    assert("id"@ =~= seq!['i','d']);
    reveal_strlit("status");
    assert("status"@ =~= seq!['s','t','a','t','u','s']);
    let e0 = entry("amount"@, amount_jv(v.amount));
    let e1 = opt_entry("seller_protection"@, v.seller_protection, |x: SellerProtectionV| seller_protection_jv(x));
    let e2 = opt_str_entry("create_time"@, v.create_time);
    let e3 = opt_str_entry("update_time"@, v.update_time);
    let e4 = opt_entry("final_capture"@, v.final_capture, |x: bool| Jv::Bool(x));
    let e5 = opt_entry("seller_receivable_breakdown"@, v.seller_receivable_breakdown, |x: SellerReceivableBreakdownV| seller_receivable_breakdown_jv(x));
    let e6 = opt_str_entry("custom_id"@, v.custom_id);
    let e7 = entry("links"@, Jv::Arr(link_list_jv(v.links)));
    let e8 = opt_str_entry("id"@, v.id);
    let e9 = opt_entry("status"@, v.status, |x: CaptureStatus| capture_status_jv(x));
    let l0 = e0;
    let l1 = l0 + e1;
    let l2 = l1 + e2;
    let l3 = l2 + e3;
    let l4 = l3 + e4;
    let l5 = l4 + e5;
    let l6 = l5 + e6;
    let l7 = l6 + e7;
    let l8 = l7 + e8;
    let l9 = l8 + e9;
    let s9 = e9;
    let s8 = e8 + s9;
    let s7 = e7 + s8;
    let s6 = e6 + s7;
    let s5 = e5 + s6;
    let s4 = e4 + s5;
    let s3 = e3 + s4;
    let s2 = e2 + s3;
    let s1 = e1 + s2;
    let s0 = e0 + s1;
    assert(fs == l9);
    lemma_concat_associative(l7, e8, s9);
    lemma_concat_associative(l6, e7, s8);
    lemma_concat_associative(l5, e6, s7);
    lemma_concat_associative(l4, e5, s6);
    lemma_concat_associative(l3, e4, s5);
    lemma_concat_associative(l2, e3, s4);
    lemma_concat_associative(l1, e2, s3);
    lemma_concat_associative(l0, e1, s2);
    assert(fs == s0);
    if v.id is Some {
        lemma_jv_get_skip(e0, s1, "id"@);
        lemma_jv_get_skip(e1, s2, "id"@);
        lemma_jv_get_skip(e2, s3, "id"@);
        lemma_jv_get_skip(e3, s4, "id"@);
        lemma_jv_get_skip(e4, s5, "id"@);
        lemma_jv_get_skip(e5, s6, "id"@);
        lemma_jv_get_skip(e6, s7, "id"@);
        lemma_jv_get_skip(e7, s8, "id"@);
        lemma_jv_get_head(s8, "id"@);
    } else {
        lemma_jv_get_skip(e0, s1, "id"@);
        lemma_jv_get_skip(e1, s2, "id"@);
        lemma_jv_get_skip(e2, s3, "id"@);
        lemma_jv_get_skip(e3, s4, "id"@);
        lemma_jv_get_skip(e4, s5, "id"@);
        lemma_jv_get_skip(e5, s6, "id"@);
        lemma_jv_get_skip(e6, s7, "id"@);
        lemma_jv_get_skip(e7, s8, "id"@);
        lemma_jv_get_skip(e8, s9, "id"@);
        lemma_jv_get_absent(s9, "id"@);
    }
    if v.status is Some {
        lemma_jv_get_skip(e0, s1, "status"@);
        lemma_jv_get_skip(e1, s2, "status"@);
        lemma_jv_get_skip(e2, s3, "status"@);
        lemma_jv_get_skip(e3, s4, "status"@);
        lemma_jv_get_skip(e4, s5, "status"@);
        lemma_jv_get_skip(e5, s6, "status"@);
        lemma_jv_get_skip(e6, s7, "status"@);
        lemma_jv_get_skip(e7, s8, "status"@);
        lemma_jv_get_skip(e8, s9, "status"@);
        lemma_jv_get_head(s9, "status"@);
    } else {
        lemma_jv_get_skip(e0, s1, "status"@);
        lemma_jv_get_skip(e1, s2, "status"@);
        lemma_jv_get_skip(e2, s3, "status"@);
        lemma_jv_get_skip(e3, s4, "status"@);
        lemma_jv_get_skip(e4, s5, "status"@);
        lemma_jv_get_skip(e5, s6, "status"@);
        lemma_jv_get_skip(e6, s7, "status"@);
        lemma_jv_get_skip(e7, s8, "status"@);
        lemma_jv_get_skip(e8, s9, "status"@);
        lemma_jv_get_absent(s9, "status"@);
    }
}

/// A record of this type decodes back to itself after encoding; well-formedness is what the provider guarantees of the fields.
#[verifier::rlimit(100)]
pub proof fn lemma_payment_round_trip(v: PaymentV)
    ensures
        payment_wf(v) ==> payment_of_jv(payment_jv(v)) == Some(v),
{
    if payment_wf(v) {
        lemma_payment_fields_0(v);
        lemma_payment_fields_1(v);
        lemma_payment_fields_2(v);
        lemma_amount_round_trip(v.amount);
        if v.seller_protection is Some {
            lemma_seller_protection_round_trip(v.seller_protection->Some_0);
        }
        if v.seller_receivable_breakdown is Some {
            lemma_seller_receivable_breakdown_round_trip(v.seller_receivable_breakdown->Some_0);
        }
        lemma_link_list_round_trip(v.links);
        if v.status is Some {
            lemma_capture_status_tokens(v.status->Some_0, Seq::empty());
        }
    }
}

} // verus!
