//! The Orders API data model: an order represents a payment between two
//! or more parties, built from purchase units and tracked through payment
//! authorizations, captures and refunds.

use vstd::prelude::*;

use crate::codec::{
    dft_field, entry, get_opt_str, get_opt_ts, get_str, opt_entry, opt_field, opt_str,
    opt_str_entry, push_field, req_field, req_str, rfc3339_ok, ts_of_jv,
};
use crate::common::{
    address_jv, address_of_jv, currency_jv, currency_of_jv, decode_address, decode_currency,
    decode_link_vec, decode_money, decode_phone_type, encode_address, encode_currency,
    encode_link_vec, encode_money, encode_phone_type, lemma_address_round_trip,
    lemma_currency_tokens, lemma_link_list_round_trip, lemma_money_round_trip,
    lemma_phone_type_tokens, link_arr_of_jv, link_list_jv, money_jv, money_of_jv,
    phone_type_jv, phone_type_of_jv, Address, AddressV, Currency, LinkDescription,
    LinkDescriptionV, Money, MoneyV, PhoneType,
};
use crate::json::{
    arr_view, get_field, jv_get, lemma_jv_get_absent, lemma_jv_get_found, lemma_jv_get_head,
    lemma_jv_get_skip, obj_view, str_eq, Json, Jv,
};

use vstd::seq_lib::lemma_concat_associative;

verus! {

broadcast use vstd::string::group_string_axioms, vstd::std_specs::vec::group_vec_axioms, vstd::seq::group_seq_axioms;


/// The intent to either capture payment immediately or authorize a payment for an order after order creation.
#[derive(Debug, Clone, Copy, PartialEq, Eq)]
pub enum Intent {
    Capture,
    Authorize,
}

impl DeepView for Intent {
    type V = Intent;

    open spec fn deep_view(&self) -> Intent {
        *self
    }
}

/// The token a [`Intent`] travels as.
pub open spec fn intent_token(x: Intent) -> Seq<char> {
    match x {
        Intent::Capture => "CAPTURE"@,
        Intent::Authorize => "AUTHORIZE"@,
    }
}

/// The [`Intent`] behind a token; tokens outside the table are rejected.
pub open spec fn intent_of_token(t: Seq<char>) -> Option<Intent> {
    if t == "CAPTURE"@ { Some(Intent::Capture) }
    else if t == "AUTHORIZE"@ { Some(Intent::Authorize) }
    else { None }
}

pub open spec fn intent_jv(x: Intent) -> Jv {
    Jv::Str(intent_token(x))
}

pub open spec fn intent_of_jv(j: Jv) -> Option<Intent> {
    match j {
        Jv::Str(t) => intent_of_token(t),
        _ => None,
    }
}

pub fn encode_intent(x: &Intent) -> (j: Json)
    ensures
        j@ == intent_jv(*x),
{
    let t: &str = match x {
        Intent::Capture => "CAPTURE",
        Intent::Authorize => "AUTHORIZE",
    };
    Json::Str(String::from_str(t))
}

pub fn decode_intent(j: &Json) -> (r: Option<Intent>)
    ensures
        r matches Some(x) ==> intent_of_jv(j@) == Some(x),
        r is None ==> intent_of_jv(j@) is None,
{
    match j {
        Json::Str(s) => {
            let t = s.as_str();
            if str_eq(t, "CAPTURE") { Some(Intent::Capture) }
            else if str_eq(t, "AUTHORIZE") { Some(Intent::Authorize) }
            else { None }
        },
        _ => None,
    }
}

/// Tokens of [`Intent`]: encoding lands in the table and decodes back;
/// a decoded token is the encoding of what it decoded to.
pub proof fn lemma_intent_tokens(x: Intent, t: Seq<char>)
    ensures
        intent_of_token(intent_token(x)) == Some(x),
        intent_of_token(t) matches Some(y) ==> intent_token(y) == t,
{
    reveal_strlit("CAPTURE");
    assert("CAPTURE"@ =~= seq!['C','A','P','T','U','R','E']);
    reveal_strlit("AUTHORIZE");
    assert("AUTHORIZE"@ =~= seq!['A','U','T','H','O','R','I','Z','E']);
}

/// The customer's tax ID type, for the Brazilian tax forms.
#[derive(Debug, Clone, Copy, PartialEq, Eq)]
pub enum TaxIdType {
    BrCpf,
    BrCnpj,
}

impl DeepView for TaxIdType {
    type V = TaxIdType;

    open spec fn deep_view(&self) -> TaxIdType {
        *self
    }
}

/// The token a [`TaxIdType`] travels as.
pub open spec fn tax_id_type_token(x: TaxIdType) -> Seq<char> {
    match x {
        TaxIdType::BrCpf => "BR_CPF"@,
        TaxIdType::BrCnpj => "BR_CNPJ"@,
    }
}

/// The [`TaxIdType`] behind a token; tokens outside the table are rejected.
pub open spec fn tax_id_type_of_token(t: Seq<char>) -> Option<TaxIdType> {
    if t == "BR_CPF"@ { Some(TaxIdType::BrCpf) }
    else if t == "BR_CNPJ"@ { Some(TaxIdType::BrCnpj) }
    else { None }
}

pub open spec fn tax_id_type_jv(x: TaxIdType) -> Jv {
    Jv::Str(tax_id_type_token(x))
}

pub open spec fn tax_id_type_of_jv(j: Jv) -> Option<TaxIdType> {
    match j {
        Jv::Str(t) => tax_id_type_of_token(t),
        _ => None,
    }
}

pub fn encode_tax_id_type(x: &TaxIdType) -> (j: Json)
    ensures
        j@ == tax_id_type_jv(*x),
{
    let t: &str = match x {
        TaxIdType::BrCpf => "BR_CPF",
        TaxIdType::BrCnpj => "BR_CNPJ",
    };
    Json::Str(String::from_str(t))
}

pub fn decode_tax_id_type(j: &Json) -> (r: Option<TaxIdType>)
    ensures
        r matches Some(x) ==> tax_id_type_of_jv(j@) == Some(x),
        r is None ==> tax_id_type_of_jv(j@) is None,
{
    match j {
        Json::Str(s) => {
            let t = s.as_str();
            if str_eq(t, "BR_CPF") { Some(TaxIdType::BrCpf) }
            else if str_eq(t, "BR_CNPJ") { Some(TaxIdType::BrCnpj) }
            else { None }
        },
        _ => None,
    }
}

/// Tokens of [`TaxIdType`]: encoding lands in the table and decodes back;
/// a decoded token is the encoding of what it decoded to.
pub proof fn lemma_tax_id_type_tokens(x: TaxIdType, t: Seq<char>)
    ensures
        tax_id_type_of_token(tax_id_type_token(x)) == Some(x),
        tax_id_type_of_token(t) matches Some(y) ==> tax_id_type_token(y) == t,
{
    reveal_strlit("BR_CPF");
    assert("BR_CPF"@ =~= seq!['B','R','_','C','P','F']);
    reveal_strlit("BR_CNPJ");
    assert("BR_CNPJ"@ =~= seq!['B','R','_','C','N','P','J']);
}

/// How the funds held on behalf of the merchant are released.
#[derive(Debug, Clone, Copy, PartialEq, Eq)]
pub enum DisbursementMode {
    Instant,
    Delayed,
}

impl DeepView for DisbursementMode {
    type V = DisbursementMode;

    open spec fn deep_view(&self) -> DisbursementMode {
        *self
    }
}

/// The token a [`DisbursementMode`] travels as.
pub open spec fn disbursement_mode_token(x: DisbursementMode) -> Seq<char> {
    match x {
        DisbursementMode::Instant => "INSTANT"@,
        DisbursementMode::Delayed => "DELAYED"@,
    }
}

/// The [`DisbursementMode`] behind a token; tokens outside the table are rejected.
pub open spec fn disbursement_mode_of_token(t: Seq<char>) -> Option<DisbursementMode> {
    if t == "INSTANT"@ { Some(DisbursementMode::Instant) }
    else if t == "DELAYED"@ { Some(DisbursementMode::Delayed) }
    else { None }
}

pub open spec fn disbursement_mode_jv(x: DisbursementMode) -> Jv {
    Jv::Str(disbursement_mode_token(x))
}

pub open spec fn disbursement_mode_of_jv(j: Jv) -> Option<DisbursementMode> {
    match j {
        Jv::Str(t) => disbursement_mode_of_token(t),
        _ => None,
    }
}

pub fn encode_disbursement_mode(x: &DisbursementMode) -> (j: Json)
    ensures
        j@ == disbursement_mode_jv(*x),
{
    let t: &str = match x {
        DisbursementMode::Instant => "INSTANT",
        DisbursementMode::Delayed => "DELAYED",
    };
    Json::Str(String::from_str(t))
}

pub fn decode_disbursement_mode(j: &Json) -> (r: Option<DisbursementMode>)
    ensures
        r matches Some(x) ==> disbursement_mode_of_jv(j@) == Some(x),
        r is None ==> disbursement_mode_of_jv(j@) is None,
{
    match j {
        Json::Str(s) => {
            let t = s.as_str();
            if str_eq(t, "INSTANT") { Some(DisbursementMode::Instant) }
            else if str_eq(t, "DELAYED") { Some(DisbursementMode::Delayed) }
            else { None }
        },
        _ => None,
    }
}

/// Tokens of [`DisbursementMode`]: encoding lands in the table and decodes back;
/// a decoded token is the encoding of what it decoded to.
pub proof fn lemma_disbursement_mode_tokens(x: DisbursementMode, t: Seq<char>)
    ensures
        disbursement_mode_of_token(disbursement_mode_token(x)) == Some(x),
        disbursement_mode_of_token(t) matches Some(y) ==> disbursement_mode_token(y) == t,
{
    reveal_strlit("INSTANT");
    assert("INSTANT"@ =~= seq!['I','N','S','T','A','N','T']);
    reveal_strlit("DELAYED");
    assert("DELAYED"@ =~= seq!['D','E','L','A','Y','E','D']);
}

/// The item category type.
#[derive(Debug, Clone, Copy, PartialEq, Eq)]
pub enum ItemCategoryType {
    Digital,
    Physical,
}

impl DeepView for ItemCategoryType {
    type V = ItemCategoryType;

    open spec fn deep_view(&self) -> ItemCategoryType {
        *self
    }
}

/// The token a [`ItemCategoryType`] travels as.
pub open spec fn item_category_token(x: ItemCategoryType) -> Seq<char> {
    match x {
        ItemCategoryType::Digital => "DIGITAL"@,
        ItemCategoryType::Physical => "PHYSICAL"@,
    }
}

/// The [`ItemCategoryType`] behind a token; tokens outside the table are rejected.
pub open spec fn item_category_of_token(t: Seq<char>) -> Option<ItemCategoryType> {
    if t == "DIGITAL"@ { Some(ItemCategoryType::Digital) }
    else if t == "PHYSICAL"@ { Some(ItemCategoryType::Physical) }
    else { None }
}

pub open spec fn item_category_jv(x: ItemCategoryType) -> Jv {
    Jv::Str(item_category_token(x))
}

pub open spec fn item_category_of_jv(j: Jv) -> Option<ItemCategoryType> {
    match j {
        Jv::Str(t) => item_category_of_token(t),
        _ => None,
    }
}

pub fn encode_item_category(x: &ItemCategoryType) -> (j: Json)
    ensures
        j@ == item_category_jv(*x),
{
    let t: &str = match x {
        ItemCategoryType::Digital => "DIGITAL",
        ItemCategoryType::Physical => "PHYSICAL",
    };
    Json::Str(String::from_str(t))
}

pub fn decode_item_category(j: &Json) -> (r: Option<ItemCategoryType>)
    ensures
        r matches Some(x) ==> item_category_of_jv(j@) == Some(x),
        r is None ==> item_category_of_jv(j@) is None,
{
    match j {
        Json::Str(s) => {
            let t = s.as_str();
            if str_eq(t, "DIGITAL") { Some(ItemCategoryType::Digital) }
            else if str_eq(t, "PHYSICAL") { Some(ItemCategoryType::Physical) }
            else { None }
        },
        _ => None,
    }
}

/// Tokens of [`ItemCategoryType`]: encoding lands in the table and decodes back;
/// a decoded token is the encoding of what it decoded to.
pub proof fn lemma_item_category_tokens(x: ItemCategoryType, t: Seq<char>)
    ensures
        item_category_of_token(item_category_token(x)) == Some(x),
        item_category_of_token(t) matches Some(y) ==> item_category_token(y) == t,
{
    reveal_strlit("DIGITAL");
    assert("DIGITAL"@ =~= seq!['D','I','G','I','T','A','L']);
    reveal_strlit("PHYSICAL");
    assert("PHYSICAL"@ =~= seq!['P','H','Y','S','I','C','A','L']);
}

/// The status of a payment authorization.
#[derive(Debug, Clone, Copy, PartialEq, Eq)]
pub enum AuthorizationStatus {
    Created,
    Captured,
    Denied,
    Expired,
    PartiallyExpired,
    PartiallyCaptured,
    Voided,
    Pending,
}

impl DeepView for AuthorizationStatus {
    type V = AuthorizationStatus;

    open spec fn deep_view(&self) -> AuthorizationStatus {
        *self
    }
}

/// The token a [`AuthorizationStatus`] travels as.
pub open spec fn authorization_status_token(x: AuthorizationStatus) -> Seq<char> {
    match x {
        AuthorizationStatus::Created => "CREATED"@,
        AuthorizationStatus::Captured => "CAPTURED"@,
        AuthorizationStatus::Denied => "DENIED"@,
        AuthorizationStatus::Expired => "EXPIRED"@,
        AuthorizationStatus::PartiallyExpired => "PARTIALLY_EXPIRED"@,
        AuthorizationStatus::PartiallyCaptured => "PARTIALLY_CAPTURED"@,
        AuthorizationStatus::Voided => "VOIDED"@,
        AuthorizationStatus::Pending => "PENDING"@,
    }
}

/// The [`AuthorizationStatus`] behind a token; tokens outside the table are rejected.
pub open spec fn authorization_status_of_token(t: Seq<char>) -> Option<AuthorizationStatus> {
    if t == "CREATED"@ { Some(AuthorizationStatus::Created) }
    else if t == "CAPTURED"@ { Some(AuthorizationStatus::Captured) }
    else if t == "DENIED"@ { Some(AuthorizationStatus::Denied) }
    else if t == "EXPIRED"@ { Some(AuthorizationStatus::Expired) }
    else if t == "PARTIALLY_EXPIRED"@ { Some(AuthorizationStatus::PartiallyExpired) }
    else if t == "PARTIALLY_CAPTURED"@ { Some(AuthorizationStatus::PartiallyCaptured) }
    else if t == "VOIDED"@ { Some(AuthorizationStatus::Voided) }
    else if t == "PENDING"@ { Some(AuthorizationStatus::Pending) }
    else { None }
}

pub open spec fn authorization_status_jv(x: AuthorizationStatus) -> Jv {
    Jv::Str(authorization_status_token(x))
}

pub open spec fn authorization_status_of_jv(j: Jv) -> Option<AuthorizationStatus> {
    match j {
        Jv::Str(t) => authorization_status_of_token(t),
        _ => None,
    }
}

pub fn encode_authorization_status(x: &AuthorizationStatus) -> (j: Json)
    ensures
        j@ == authorization_status_jv(*x),
{
    let t: &str = match x {
        AuthorizationStatus::Created => "CREATED",
        AuthorizationStatus::Captured => "CAPTURED",
        AuthorizationStatus::Denied => "DENIED",
        AuthorizationStatus::Expired => "EXPIRED",
        AuthorizationStatus::PartiallyExpired => "PARTIALLY_EXPIRED",
        AuthorizationStatus::PartiallyCaptured => "PARTIALLY_CAPTURED",
        AuthorizationStatus::Voided => "VOIDED",
        AuthorizationStatus::Pending => "PENDING",
    };
    Json::Str(String::from_str(t))
}

pub fn decode_authorization_status(j: &Json) -> (r: Option<AuthorizationStatus>)
    ensures
        r matches Some(x) ==> authorization_status_of_jv(j@) == Some(x),
        r is None ==> authorization_status_of_jv(j@) is None,
{
    match j {
        Json::Str(s) => {
            let t = s.as_str();
            if str_eq(t, "CREATED") { Some(AuthorizationStatus::Created) }
            else if str_eq(t, "CAPTURED") { Some(AuthorizationStatus::Captured) }
            else if str_eq(t, "DENIED") { Some(AuthorizationStatus::Denied) }
            else if str_eq(t, "EXPIRED") { Some(AuthorizationStatus::Expired) }
            else if str_eq(t, "PARTIALLY_EXPIRED") { Some(AuthorizationStatus::PartiallyExpired) }
            else if str_eq(t, "PARTIALLY_CAPTURED") { Some(AuthorizationStatus::PartiallyCaptured) }
            else if str_eq(t, "VOIDED") { Some(AuthorizationStatus::Voided) }
            else if str_eq(t, "PENDING") { Some(AuthorizationStatus::Pending) }
            else { None }
        },
        _ => None,
    }
}

/// Tokens of [`AuthorizationStatus`]: encoding lands in the table and decodes back;
/// a decoded token is the encoding of what it decoded to.
pub proof fn lemma_authorization_status_tokens(x: AuthorizationStatus, t: Seq<char>)
    ensures
        authorization_status_of_token(authorization_status_token(x)) == Some(x),
        authorization_status_of_token(t) matches Some(y) ==> authorization_status_token(y) == t,
{
    reveal_strlit("CREATED");
    assert("CREATED"@ =~= seq!['C','R','E','A','T','E','D']);
    reveal_strlit("CAPTURED");
    assert("CAPTURED"@ =~= seq!['C','A','P','T','U','R','E','D']);
    reveal_strlit("DENIED");
    assert("DENIED"@ =~= seq!['D','E','N','I','E','D']);
    reveal_strlit("EXPIRED");
    assert("EXPIRED"@ =~= seq!['E','X','P','I','R','E','D']);
    reveal_strlit("PARTIALLY_EXPIRED");
    assert("PARTIALLY_EXPIRED"@ =~= seq!['P','A','R','T','I','A','L','L','Y','_','E','X','P','I','R','E','D']);
    reveal_strlit("PARTIALLY_CAPTURED");
    assert("PARTIALLY_CAPTURED"@ =~= seq!['P','A','R','T','I','A','L','L','Y','_','C','A','P','T','U','R','E','D']);
    reveal_strlit("VOIDED");
    assert("VOIDED"@ =~= seq!['V','O','I','D','E','D']);
    reveal_strlit("PENDING");
    assert("PENDING"@ =~= seq!['P','E','N','D','I','N','G']);
}

/// Why an authorization has the `PENDING` status.
#[derive(Debug, Clone, Copy, PartialEq, Eq)]
pub enum AuthorizationStatusDetailsReason {
    PendingReview,
}

impl DeepView for AuthorizationStatusDetailsReason {
    type V = AuthorizationStatusDetailsReason;

    open spec fn deep_view(&self) -> AuthorizationStatusDetailsReason {
        *self
    }
}

/// The token a [`AuthorizationStatusDetailsReason`] travels as.
pub open spec fn authorization_reason_token(x: AuthorizationStatusDetailsReason) -> Seq<char> {
    match x {
        AuthorizationStatusDetailsReason::PendingReview => "PENDING_REVIEW"@,
    }
}

/// The [`AuthorizationStatusDetailsReason`] behind a token; tokens outside the table are rejected.
pub open spec fn authorization_reason_of_token(t: Seq<char>) -> Option<AuthorizationStatusDetailsReason> {
    if t == "PENDING_REVIEW"@ { Some(AuthorizationStatusDetailsReason::PendingReview) }
    else { None }
}

pub open spec fn authorization_reason_jv(x: AuthorizationStatusDetailsReason) -> Jv {
    Jv::Str(authorization_reason_token(x))
}

pub open spec fn authorization_reason_of_jv(j: Jv) -> Option<AuthorizationStatusDetailsReason> {
    match j {
        Jv::Str(t) => authorization_reason_of_token(t),
        _ => None,
    }
}

pub fn encode_authorization_reason(x: &AuthorizationStatusDetailsReason) -> (j: Json)
    ensures
        j@ == authorization_reason_jv(*x),
{
    let t: &str = match x {
        AuthorizationStatusDetailsReason::PendingReview => "PENDING_REVIEW",
    };
    Json::Str(String::from_str(t))
}

pub fn decode_authorization_reason(j: &Json) -> (r: Option<AuthorizationStatusDetailsReason>)
    ensures
        r matches Some(x) ==> authorization_reason_of_jv(j@) == Some(x),
        r is None ==> authorization_reason_of_jv(j@) is None,
{
    match j {
        Json::Str(s) => {
            let t = s.as_str();
            if str_eq(t, "PENDING_REVIEW") { Some(AuthorizationStatusDetailsReason::PendingReview) }
            else { None }
        },
        _ => None,
    }
}

/// Tokens of [`AuthorizationStatusDetailsReason`]: encoding lands in the table and decodes back;
/// a decoded token is the encoding of what it decoded to.
pub proof fn lemma_authorization_reason_tokens(x: AuthorizationStatusDetailsReason, t: Seq<char>)
    ensures
        authorization_reason_of_token(authorization_reason_token(x)) == Some(x),
        authorization_reason_of_token(t) matches Some(y) ==> authorization_reason_token(y) == t,
{
    reveal_strlit("PENDING_REVIEW");
    assert("PENDING_REVIEW"@ =~= seq!['P','E','N','D','I','N','G','_','R','E','V','I','E','W']);
}

/// The status of a captured payment.
#[derive(Debug, Clone, Copy, PartialEq, Eq)]
pub enum CaptureStatus {
    Completed,
    Declined,
    PartiallyRefunded,
    Pending,
    Refunded,
}

impl DeepView for CaptureStatus {
    type V = CaptureStatus;

    open spec fn deep_view(&self) -> CaptureStatus {
        *self
    }
}

/// The token a [`CaptureStatus`] travels as.
pub open spec fn capture_status_token(x: CaptureStatus) -> Seq<char> {
    match x {
        CaptureStatus::Completed => "COMPLETED"@,
        CaptureStatus::Declined => "DECLINED"@,
        CaptureStatus::PartiallyRefunded => "PARTIALLY_REFUNDED"@,
        CaptureStatus::Pending => "PENDING"@,
        CaptureStatus::Refunded => "REFUNDED"@,
    }
}

/// The [`CaptureStatus`] behind a token; tokens outside the table are rejected.
pub open spec fn capture_status_of_token(t: Seq<char>) -> Option<CaptureStatus> {
    if t == "COMPLETED"@ { Some(CaptureStatus::Completed) }
    else if t == "DECLINED"@ { Some(CaptureStatus::Declined) }
    else if t == "PARTIALLY_REFUNDED"@ { Some(CaptureStatus::PartiallyRefunded) }
    else if t == "PENDING"@ { Some(CaptureStatus::Pending) }
    else if t == "REFUNDED"@ { Some(CaptureStatus::Refunded) }
    else { None }
}

pub open spec fn capture_status_jv(x: CaptureStatus) -> Jv {
    Jv::Str(capture_status_token(x))
}

pub open spec fn capture_status_of_jv(j: Jv) -> Option<CaptureStatus> {
    match j {
        Jv::Str(t) => capture_status_of_token(t),
        _ => None,
    }
}

pub fn encode_capture_status(x: &CaptureStatus) -> (j: Json)
    ensures
        j@ == capture_status_jv(*x),
{
    let t: &str = match x {
        CaptureStatus::Completed => "COMPLETED",
        CaptureStatus::Declined => "DECLINED",
        CaptureStatus::PartiallyRefunded => "PARTIALLY_REFUNDED",
        CaptureStatus::Pending => "PENDING",
        CaptureStatus::Refunded => "REFUNDED",
    };
    Json::Str(String::from_str(t))
}

pub fn decode_capture_status(j: &Json) -> (r: Option<CaptureStatus>)
    ensures
        r matches Some(x) ==> capture_status_of_jv(j@) == Some(x),
        r is None ==> capture_status_of_jv(j@) is None,
{
    match j {
        Json::Str(s) => {
            let t = s.as_str();
            if str_eq(t, "COMPLETED") { Some(CaptureStatus::Completed) }
            else if str_eq(t, "DECLINED") { Some(CaptureStatus::Declined) }
            else if str_eq(t, "PARTIALLY_REFUNDED") { Some(CaptureStatus::PartiallyRefunded) }
            else if str_eq(t, "PENDING") { Some(CaptureStatus::Pending) }
            else if str_eq(t, "REFUNDED") { Some(CaptureStatus::Refunded) }
            else { None }
        },
        _ => None,
    }
}

/// Tokens of [`CaptureStatus`]: encoding lands in the table and decodes back;
/// a decoded token is the encoding of what it decoded to.
pub proof fn lemma_capture_status_tokens(x: CaptureStatus, t: Seq<char>)
    ensures
        capture_status_of_token(capture_status_token(x)) == Some(x),
        capture_status_of_token(t) matches Some(y) ==> capture_status_token(y) == t,
{
    reveal_strlit("COMPLETED");
    assert("COMPLETED"@ =~= seq!['C','O','M','P','L','E','T','E','D']);
    reveal_strlit("DECLINED");
    assert("DECLINED"@ =~= seq!['D','E','C','L','I','N','E','D']);
    reveal_strlit("PARTIALLY_REFUNDED");
    assert("PARTIALLY_REFUNDED"@ =~= seq!['P','A','R','T','I','A','L','L','Y','_','R','E','F','U','N','D','E','D']);
    reveal_strlit("PENDING");
    assert("PENDING"@ =~= seq!['P','E','N','D','I','N','G']);
    reveal_strlit("REFUNDED");
    assert("REFUNDED"@ =~= seq!['R','E','F','U','N','D','E','D']);
}

/// Why a captured payment has the `PENDING` or `DENIED` status.
#[derive(Debug, Clone, Copy, PartialEq, Eq)]
pub enum CaptureStatusDetailsReason {
    BuyerComplaint,
    Chargeback,
    Echeck,
    InternationalWithdrawal,
    Other,
    PendingReview,
    ReceivingPreferenceMandatesManualAction,
    Refunded,
    TransactionApprovedAwaitingFunding,
    Unilateral,
    VerificationRequired,
}

impl DeepView for CaptureStatusDetailsReason {
    type V = CaptureStatusDetailsReason;

    open spec fn deep_view(&self) -> CaptureStatusDetailsReason {
        *self
    }
}

/// The token a [`CaptureStatusDetailsReason`] travels as.
pub open spec fn capture_reason_token(x: CaptureStatusDetailsReason) -> Seq<char> {
    match x {
        CaptureStatusDetailsReason::BuyerComplaint => "BUYER_COMPLAINT"@,
        CaptureStatusDetailsReason::Chargeback => "CHARGEBACK"@,
        CaptureStatusDetailsReason::Echeck => "ECHECK"@,
        CaptureStatusDetailsReason::InternationalWithdrawal => "INTERNATIONAL_WITHDRAWAL"@,
        CaptureStatusDetailsReason::Other => "OTHER"@,
        CaptureStatusDetailsReason::PendingReview => "PENDING_REVIEW"@,
        CaptureStatusDetailsReason::ReceivingPreferenceMandatesManualAction => "RECEIVING_PREFERENCE_MANDATES_MANUAL_ACTION"@,
        CaptureStatusDetailsReason::Refunded => "REFUNDED"@,
        CaptureStatusDetailsReason::TransactionApprovedAwaitingFunding => "TRANSACTION_APPROVED_AWAITING_FUNDING"@,
        CaptureStatusDetailsReason::Unilateral => "UNILATERAL"@,
        CaptureStatusDetailsReason::VerificationRequired => "VERIFICATION_REQUIRED"@,
    }
}

/// The [`CaptureStatusDetailsReason`] behind a token; tokens outside the table are rejected.
pub open spec fn capture_reason_of_token(t: Seq<char>) -> Option<CaptureStatusDetailsReason> {
    if t == "BUYER_COMPLAINT"@ { Some(CaptureStatusDetailsReason::BuyerComplaint) }
    else if t == "CHARGEBACK"@ { Some(CaptureStatusDetailsReason::Chargeback) }
    else if t == "ECHECK"@ { Some(CaptureStatusDetailsReason::Echeck) }
    else if t == "INTERNATIONAL_WITHDRAWAL"@ { Some(CaptureStatusDetailsReason::InternationalWithdrawal) }
    else if t == "OTHER"@ { Some(CaptureStatusDetailsReason::Other) }
    else if t == "PENDING_REVIEW"@ { Some(CaptureStatusDetailsReason::PendingReview) }
    else if t == "RECEIVING_PREFERENCE_MANDATES_MANUAL_ACTION"@ { Some(CaptureStatusDetailsReason::ReceivingPreferenceMandatesManualAction) }
    else if t == "REFUNDED"@ { Some(CaptureStatusDetailsReason::Refunded) }
    else if t == "TRANSACTION_APPROVED_AWAITING_FUNDING"@ { Some(CaptureStatusDetailsReason::TransactionApprovedAwaitingFunding) }
    else if t == "UNILATERAL"@ { Some(CaptureStatusDetailsReason::Unilateral) }
    else if t == "VERIFICATION_REQUIRED"@ { Some(CaptureStatusDetailsReason::VerificationRequired) }
    else { None }
}

pub open spec fn capture_reason_jv(x: CaptureStatusDetailsReason) -> Jv {
    Jv::Str(capture_reason_token(x))
}

pub open spec fn capture_reason_of_jv(j: Jv) -> Option<CaptureStatusDetailsReason> {
    match j {
        Jv::Str(t) => capture_reason_of_token(t),
        _ => None,
    }
}

pub fn encode_capture_reason(x: &CaptureStatusDetailsReason) -> (j: Json)
    ensures
        j@ == capture_reason_jv(*x),
{
    let t: &str = match x {
        CaptureStatusDetailsReason::BuyerComplaint => "BUYER_COMPLAINT",
        CaptureStatusDetailsReason::Chargeback => "CHARGEBACK",
        CaptureStatusDetailsReason::Echeck => "ECHECK",
        CaptureStatusDetailsReason::InternationalWithdrawal => "INTERNATIONAL_WITHDRAWAL",
        CaptureStatusDetailsReason::Other => "OTHER",
        CaptureStatusDetailsReason::PendingReview => "PENDING_REVIEW",
        CaptureStatusDetailsReason::ReceivingPreferenceMandatesManualAction => "RECEIVING_PREFERENCE_MANDATES_MANUAL_ACTION",
        CaptureStatusDetailsReason::Refunded => "REFUNDED",
        CaptureStatusDetailsReason::TransactionApprovedAwaitingFunding => "TRANSACTION_APPROVED_AWAITING_FUNDING",
        CaptureStatusDetailsReason::Unilateral => "UNILATERAL",
        CaptureStatusDetailsReason::VerificationRequired => "VERIFICATION_REQUIRED",
    };
    Json::Str(String::from_str(t))
}

pub fn decode_capture_reason(j: &Json) -> (r: Option<CaptureStatusDetailsReason>)
    ensures
        r matches Some(x) ==> capture_reason_of_jv(j@) == Some(x),
        r is None ==> capture_reason_of_jv(j@) is None,
{
    match j {
        Json::Str(s) => {
            let t = s.as_str();
            if str_eq(t, "BUYER_COMPLAINT") { Some(CaptureStatusDetailsReason::BuyerComplaint) }
            else if str_eq(t, "CHARGEBACK") { Some(CaptureStatusDetailsReason::Chargeback) }
            else if str_eq(t, "ECHECK") { Some(CaptureStatusDetailsReason::Echeck) }
            else if str_eq(t, "INTERNATIONAL_WITHDRAWAL") { Some(CaptureStatusDetailsReason::InternationalWithdrawal) }
            else if str_eq(t, "OTHER") { Some(CaptureStatusDetailsReason::Other) }
            else if str_eq(t, "PENDING_REVIEW") { Some(CaptureStatusDetailsReason::PendingReview) }
            else if str_eq(t, "RECEIVING_PREFERENCE_MANDATES_MANUAL_ACTION") { Some(CaptureStatusDetailsReason::ReceivingPreferenceMandatesManualAction) }
            else if str_eq(t, "REFUNDED") { Some(CaptureStatusDetailsReason::Refunded) }
            else if str_eq(t, "TRANSACTION_APPROVED_AWAITING_FUNDING") { Some(CaptureStatusDetailsReason::TransactionApprovedAwaitingFunding) }
            else if str_eq(t, "UNILATERAL") { Some(CaptureStatusDetailsReason::Unilateral) }
            else if str_eq(t, "VERIFICATION_REQUIRED") { Some(CaptureStatusDetailsReason::VerificationRequired) }
            else { None }
        },
        _ => None,
    }
}

/// Tokens of [`CaptureStatusDetailsReason`]: encoding lands in the table and decodes back;
/// a decoded token is the encoding of what it decoded to.
pub proof fn lemma_capture_reason_tokens(x: CaptureStatusDetailsReason, t: Seq<char>)
    ensures
        capture_reason_of_token(capture_reason_token(x)) == Some(x),
        capture_reason_of_token(t) matches Some(y) ==> capture_reason_token(y) == t,
{
    reveal_strlit("BUYER_COMPLAINT");
    assert("BUYER_COMPLAINT"@ =~= seq!['B','U','Y','E','R','_','C','O','M','P','L','A','I','N','T']);
    reveal_strlit("CHARGEBACK");
    assert("CHARGEBACK"@ =~= seq!['C','H','A','R','G','E','B','A','C','K']);
    reveal_strlit("ECHECK");
    assert("ECHECK"@ =~= seq!['E','C','H','E','C','K']);
    reveal_strlit("INTERNATIONAL_WITHDRAWAL");
    assert("INTERNATIONAL_WITHDRAWAL"@ =~= seq!['I','N','T','E','R','N','A','T','I','O','N','A','L','_','W','I','T','H','D','R','A','W','A','L']);
    reveal_strlit("OTHER");
    assert("OTHER"@ =~= seq!['O','T','H','E','R']);
    reveal_strlit("PENDING_REVIEW");
    assert("PENDING_REVIEW"@ =~= seq!['P','E','N','D','I','N','G','_','R','E','V','I','E','W']);
    reveal_strlit("RECEIVING_PREFERENCE_MANDATES_MANUAL_ACTION");
    assert("RECEIVING_PREFERENCE_MANDATES_MANUAL_ACTION"@ =~= seq!['R','E','C','E','I','V','I','N','G','_','P','R','E','F','E','R','E','N','C','E','_','M','A','N','D','A','T','E','S','_','M','A','N','U','A','L','_','A','C','T','I','O','N']);
    reveal_strlit("REFUNDED");
    assert("REFUNDED"@ =~= seq!['R','E','F','U','N','D','E','D']);
    reveal_strlit("TRANSACTION_APPROVED_AWAITING_FUNDING");
    assert("TRANSACTION_APPROVED_AWAITING_FUNDING"@ =~= seq!['T','R','A','N','S','A','C','T','I','O','N','_','A','P','P','R','O','V','E','D','_','A','W','A','I','T','I','N','G','_','F','U','N','D','I','N','G']);
    reveal_strlit("UNILATERAL");
    assert("UNILATERAL"@ =~= seq!['U','N','I','L','A','T','E','R','A','L']);
    reveal_strlit("VERIFICATION_REQUIRED");
    assert("VERIFICATION_REQUIRED"@ =~= seq!['V','E','R','I','F','I','C','A','T','I','O','N','_','R','E','Q','U','I','R','E','D']);
}

/// The status of a refund.
#[derive(Debug, Clone, Copy, PartialEq, Eq)]
pub enum RefundStatus {
    Cancelled,
    Pending,
    Completed,
}

impl DeepView for RefundStatus {
    type V = RefundStatus;

    open spec fn deep_view(&self) -> RefundStatus {
        *self
    }
}

/// The token a [`RefundStatus`] travels as.
pub open spec fn refund_status_token(x: RefundStatus) -> Seq<char> {
    match x {
        RefundStatus::Cancelled => "CANCELLED"@,
        RefundStatus::Pending => "PENDING"@,
        RefundStatus::Completed => "COMPLETED"@,
    }
}

/// The [`RefundStatus`] behind a token; tokens outside the table are rejected.
pub open spec fn refund_status_of_token(t: Seq<char>) -> Option<RefundStatus> {
    if t == "CANCELLED"@ { Some(RefundStatus::Cancelled) }
    else if t == "PENDING"@ { Some(RefundStatus::Pending) }
    else if t == "COMPLETED"@ { Some(RefundStatus::Completed) }
    else { None }
}

pub open spec fn refund_status_jv(x: RefundStatus) -> Jv {
    Jv::Str(refund_status_token(x))
}

pub open spec fn refund_status_of_jv(j: Jv) -> Option<RefundStatus> {
    match j {
        Jv::Str(t) => refund_status_of_token(t),
        _ => None,
    }
}

pub fn encode_refund_status(x: &RefundStatus) -> (j: Json)
    ensures
        j@ == refund_status_jv(*x),
{
    let t: &str = match x {
        RefundStatus::Cancelled => "CANCELLED",
        RefundStatus::Pending => "PENDING",
        RefundStatus::Completed => "COMPLETED",
    };
    Json::Str(String::from_str(t))
}

pub fn decode_refund_status(j: &Json) -> (r: Option<RefundStatus>)
    ensures
        r matches Some(x) ==> refund_status_of_jv(j@) == Some(x),
        r is None ==> refund_status_of_jv(j@) is None,
{
    match j {
        Json::Str(s) => {
            let t = s.as_str();
            if str_eq(t, "CANCELLED") { Some(RefundStatus::Cancelled) }
            else if str_eq(t, "PENDING") { Some(RefundStatus::Pending) }
            else if str_eq(t, "COMPLETED") { Some(RefundStatus::Completed) }
            else { None }
        },
        _ => None,
    }
}

/// Tokens of [`RefundStatus`]: encoding lands in the table and decodes back;
/// a decoded token is the encoding of what it decoded to.
pub proof fn lemma_refund_status_tokens(x: RefundStatus, t: Seq<char>)
    ensures
        refund_status_of_token(refund_status_token(x)) == Some(x),
        refund_status_of_token(t) matches Some(y) ==> refund_status_token(y) == t,
{
    reveal_strlit("CANCELLED");
    assert("CANCELLED"@ =~= seq!['C','A','N','C','E','L','L','E','D']);
    reveal_strlit("PENDING");
    assert("PENDING"@ =~= seq!['P','E','N','D','I','N','G']);
    reveal_strlit("COMPLETED");
    assert("COMPLETED"@ =~= seq!['C','O','M','P','L','E','T','E','D']);
}

/// Why a refund has the `PENDING` or `FAILED` status.
#[derive(Debug, Clone, Copy, PartialEq, Eq)]
pub enum RefundStatusDetailsReason {
    Echeck,
}

impl DeepView for RefundStatusDetailsReason {
    type V = RefundStatusDetailsReason;

    open spec fn deep_view(&self) -> RefundStatusDetailsReason {
        *self
    }
}

/// The token a [`RefundStatusDetailsReason`] travels as.
pub open spec fn refund_reason_token(x: RefundStatusDetailsReason) -> Seq<char> {
    match x {
        RefundStatusDetailsReason::Echeck => "ECHECK"@,
    }
}

/// The [`RefundStatusDetailsReason`] behind a token; tokens outside the table are rejected.
pub open spec fn refund_reason_of_token(t: Seq<char>) -> Option<RefundStatusDetailsReason> {
    if t == "ECHECK"@ { Some(RefundStatusDetailsReason::Echeck) }
    else { None }
}

pub open spec fn refund_reason_jv(x: RefundStatusDetailsReason) -> Jv {
    Jv::Str(refund_reason_token(x))
}

pub open spec fn refund_reason_of_jv(j: Jv) -> Option<RefundStatusDetailsReason> {
    match j {
        Jv::Str(t) => refund_reason_of_token(t),
        _ => None,
    }
}

pub fn encode_refund_reason(x: &RefundStatusDetailsReason) -> (j: Json)
    ensures
        j@ == refund_reason_jv(*x),
{
    let t: &str = match x {
        RefundStatusDetailsReason::Echeck => "ECHECK",
    };
    Json::Str(String::from_str(t))
}

pub fn decode_refund_reason(j: &Json) -> (r: Option<RefundStatusDetailsReason>)
    ensures
        r matches Some(x) ==> refund_reason_of_jv(j@) == Some(x),
        r is None ==> refund_reason_of_jv(j@) is None,
{
    match j {
        Json::Str(s) => {
            let t = s.as_str();
            if str_eq(t, "ECHECK") { Some(RefundStatusDetailsReason::Echeck) }
            else { None }
        },
        _ => None,
    }
}

/// Tokens of [`RefundStatusDetailsReason`]: encoding lands in the table and decodes back;
/// a decoded token is the encoding of what it decoded to.
pub proof fn lemma_refund_reason_tokens(x: RefundStatusDetailsReason, t: Seq<char>)
    ensures
        refund_reason_of_token(refund_reason_token(x)) == Some(x),
        refund_reason_of_token(t) matches Some(y) ==> refund_reason_token(y) == t,
{
    reveal_strlit("ECHECK");
    assert("ECHECK"@ =~= seq!['E','C','H','E','C','K']);
}

/// The type of landing page to show on the provider's site for customer checkout.
#[derive(Debug, Clone, Copy, PartialEq, Eq)]
pub enum LandingPage {
    Login,
    Billing,
    NoPreference,
}

impl DeepView for LandingPage {
    type V = LandingPage;

    open spec fn deep_view(&self) -> LandingPage {
        *self
    }
}

/// The token a [`LandingPage`] travels as.
pub open spec fn landing_page_token(x: LandingPage) -> Seq<char> {
    match x {
        LandingPage::Login => "LOGIN"@,
        LandingPage::Billing => "BILLING"@,
        LandingPage::NoPreference => "NO_PREFERENCE"@,
    }
}

/// The [`LandingPage`] behind a token; tokens outside the table are rejected.
pub open spec fn landing_page_of_token(t: Seq<char>) -> Option<LandingPage> {
    if t == "LOGIN"@ { Some(LandingPage::Login) }
    else if t == "BILLING"@ { Some(LandingPage::Billing) }
    else if t == "NO_PREFERENCE"@ { Some(LandingPage::NoPreference) }
    else { None }
}

pub open spec fn landing_page_jv(x: LandingPage) -> Jv {
    Jv::Str(landing_page_token(x))
}

pub open spec fn landing_page_of_jv(j: Jv) -> Option<LandingPage> {
    match j {
        Jv::Str(t) => landing_page_of_token(t),
        _ => None,
    }
}

pub fn encode_landing_page(x: &LandingPage) -> (j: Json)
    ensures
        j@ == landing_page_jv(*x),
{
    let t: &str = match x {
        LandingPage::Login => "LOGIN",
        LandingPage::Billing => "BILLING",
        LandingPage::NoPreference => "NO_PREFERENCE",
    };
    Json::Str(String::from_str(t))
}

pub fn decode_landing_page(j: &Json) -> (r: Option<LandingPage>)
    ensures
        r matches Some(x) ==> landing_page_of_jv(j@) == Some(x),
        r is None ==> landing_page_of_jv(j@) is None,
{
    match j {
        Json::Str(s) => {
            let t = s.as_str();
            if str_eq(t, "LOGIN") { Some(LandingPage::Login) }
            else if str_eq(t, "BILLING") { Some(LandingPage::Billing) }
            else if str_eq(t, "NO_PREFERENCE") { Some(LandingPage::NoPreference) }
            else { None }
        },
        _ => None,
    }
}

/// Tokens of [`LandingPage`]: encoding lands in the table and decodes back;
/// a decoded token is the encoding of what it decoded to.
pub proof fn lemma_landing_page_tokens(x: LandingPage, t: Seq<char>)
    ensures
        landing_page_of_token(landing_page_token(x)) == Some(x),
        landing_page_of_token(t) matches Some(y) ==> landing_page_token(y) == t,
{
    reveal_strlit("LOGIN");
    assert("LOGIN"@ =~= seq!['L','O','G','I','N']);
    reveal_strlit("BILLING");
    assert("BILLING"@ =~= seq!['B','I','L','L','I','N','G']);
    reveal_strlit("NO_PREFERENCE");
    assert("NO_PREFERENCE"@ =~= seq!['N','O','_','P','R','E','F','E','R','E','N','C','E']);
}

/// The shipping preference.
#[derive(Debug, Clone, Copy, PartialEq, Eq)]
pub enum ShippingPreference {
    GetFromFile,
    NoShipping,
    SetProvidedAddress,
}

impl DeepView for ShippingPreference {
    type V = ShippingPreference;

    open spec fn deep_view(&self) -> ShippingPreference {
        *self
    }
}

/// The token a [`ShippingPreference`] travels as.
pub open spec fn shipping_preference_token(x: ShippingPreference) -> Seq<char> {
    match x {
        ShippingPreference::GetFromFile => "GET_FROM_FILE"@,
        ShippingPreference::NoShipping => "NO_SHIPPING"@,
        ShippingPreference::SetProvidedAddress => "SET_PROVIDED_ADDRESS"@,
    }
}

/// The [`ShippingPreference`] behind a token; tokens outside the table are rejected.
pub open spec fn shipping_preference_of_token(t: Seq<char>) -> Option<ShippingPreference> {
    if t == "GET_FROM_FILE"@ { Some(ShippingPreference::GetFromFile) }
    else if t == "NO_SHIPPING"@ { Some(ShippingPreference::NoShipping) }
    else if t == "SET_PROVIDED_ADDRESS"@ { Some(ShippingPreference::SetProvidedAddress) }
    else { None }
}

pub open spec fn shipping_preference_jv(x: ShippingPreference) -> Jv {
    Jv::Str(shipping_preference_token(x))
}

pub open spec fn shipping_preference_of_jv(j: Jv) -> Option<ShippingPreference> {
    match j {
        Jv::Str(t) => shipping_preference_of_token(t),
        _ => None,
    }
}

pub fn encode_shipping_preference(x: &ShippingPreference) -> (j: Json)
    ensures
        j@ == shipping_preference_jv(*x),
{
    let t: &str = match x {
        ShippingPreference::GetFromFile => "GET_FROM_FILE",
        ShippingPreference::NoShipping => "NO_SHIPPING",
        ShippingPreference::SetProvidedAddress => "SET_PROVIDED_ADDRESS",
    };
    Json::Str(String::from_str(t))
}

pub fn decode_shipping_preference(j: &Json) -> (r: Option<ShippingPreference>)
    ensures
        r matches Some(x) ==> shipping_preference_of_jv(j@) == Some(x),
        r is None ==> shipping_preference_of_jv(j@) is None,
{
    match j {
        Json::Str(s) => {
            let t = s.as_str();
            if str_eq(t, "GET_FROM_FILE") { Some(ShippingPreference::GetFromFile) }
            else if str_eq(t, "NO_SHIPPING") { Some(ShippingPreference::NoShipping) }
            else if str_eq(t, "SET_PROVIDED_ADDRESS") { Some(ShippingPreference::SetProvidedAddress) }
            else { None }
        },
        _ => None,
    }
}

/// Tokens of [`ShippingPreference`]: encoding lands in the table and decodes back;
/// a decoded token is the encoding of what it decoded to.
pub proof fn lemma_shipping_preference_tokens(x: ShippingPreference, t: Seq<char>)
    ensures
        shipping_preference_of_token(shipping_preference_token(x)) == Some(x),
        shipping_preference_of_token(t) matches Some(y) ==> shipping_preference_token(y) == t,
{
    reveal_strlit("GET_FROM_FILE");
    assert("GET_FROM_FILE"@ =~= seq!['G','E','T','_','F','R','O','M','_','F','I','L','E']);
    reveal_strlit("NO_SHIPPING");
    assert("NO_SHIPPING"@ =~= seq!['N','O','_','S','H','I','P','P','I','N','G']);
    reveal_strlit("SET_PROVIDED_ADDRESS");
    assert("SET_PROVIDED_ADDRESS"@ =~= seq!['S','E','T','_','P','R','O','V','I','D','E','D','_','A','D','D','R','E','S','S']);
}

/// Configures a Continue or Pay Now checkout flow.
#[derive(Debug, Clone, Copy, PartialEq, Eq)]
pub enum UserAction {
    Continue,
    PayNow,
}

impl DeepView for UserAction {
    type V = UserAction;

    open spec fn deep_view(&self) -> UserAction {
        *self
    }
}

/// The token a [`UserAction`] travels as.
pub open spec fn user_action_token(x: UserAction) -> Seq<char> {
    match x {
        UserAction::Continue => "CONTINUE"@,
        UserAction::PayNow => "PAY_NOW"@,
    }
}

/// The [`UserAction`] behind a token; tokens outside the table are rejected.
pub open spec fn user_action_of_token(t: Seq<char>) -> Option<UserAction> {
    if t == "CONTINUE"@ { Some(UserAction::Continue) }
    else if t == "PAY_NOW"@ { Some(UserAction::PayNow) }
    else { None }
}

pub open spec fn user_action_jv(x: UserAction) -> Jv {
    Jv::Str(user_action_token(x))
}

pub open spec fn user_action_of_jv(j: Jv) -> Option<UserAction> {
    match j {
        Jv::Str(t) => user_action_of_token(t),
        _ => None,
    }
}

pub fn encode_user_action(x: &UserAction) -> (j: Json)
    ensures
        j@ == user_action_jv(*x),
{
    let t: &str = match x {
        UserAction::Continue => "CONTINUE",
        UserAction::PayNow => "PAY_NOW",
    };
    Json::Str(String::from_str(t))
}

pub fn decode_user_action(j: &Json) -> (r: Option<UserAction>)
    ensures
        r matches Some(x) ==> user_action_of_jv(j@) == Some(x),
        r is None ==> user_action_of_jv(j@) is None,
{
    match j {
        Json::Str(s) => {
            let t = s.as_str();
            if str_eq(t, "CONTINUE") { Some(UserAction::Continue) }
            else if str_eq(t, "PAY_NOW") { Some(UserAction::PayNow) }
            else { None }
        },
        _ => None,
    }
}

/// Tokens of [`UserAction`]: encoding lands in the table and decodes back;
/// a decoded token is the encoding of what it decoded to.
pub proof fn lemma_user_action_tokens(x: UserAction, t: Seq<char>)
    ensures
        user_action_of_token(user_action_token(x)) == Some(x),
        user_action_of_token(t) matches Some(y) ==> user_action_token(y) == t,
{
    reveal_strlit("CONTINUE");
    assert("CONTINUE"@ =~= seq!['C','O','N','T','I','N','U','E']);
    reveal_strlit("PAY_NOW");
    assert("PAY_NOW"@ =~= seq!['P','A','Y','_','N','O','W']);
}

/// The merchant-preferred payment sources.
#[derive(Debug, Clone, Copy, PartialEq, Eq)]
pub enum PayeePreferred {
    Unrestricted,
    ImmediatePaymentRequired,
}

impl DeepView for PayeePreferred {
    type V = PayeePreferred;

    open spec fn deep_view(&self) -> PayeePreferred {
        *self
    }
}

/// The token a [`PayeePreferred`] travels as.
pub open spec fn payee_preferred_token(x: PayeePreferred) -> Seq<char> {
    match x {
        PayeePreferred::Unrestricted => "UNRESTRICTED"@,
        PayeePreferred::ImmediatePaymentRequired => "IMMEDIATE_PAYMENT_REQUIRED"@,
    }
}

/// The [`PayeePreferred`] behind a token; tokens outside the table are rejected.
pub open spec fn payee_preferred_of_token(t: Seq<char>) -> Option<PayeePreferred> {
    if t == "UNRESTRICTED"@ { Some(PayeePreferred::Unrestricted) }
    else if t == "IMMEDIATE_PAYMENT_REQUIRED"@ { Some(PayeePreferred::ImmediatePaymentRequired) }
    else { None }
}

pub open spec fn payee_preferred_jv(x: PayeePreferred) -> Jv {
    Jv::Str(payee_preferred_token(x))
}

pub open spec fn payee_preferred_of_jv(j: Jv) -> Option<PayeePreferred> {
    match j {
        Jv::Str(t) => payee_preferred_of_token(t),
        _ => None,
    }
}

pub fn encode_payee_preferred(x: &PayeePreferred) -> (j: Json)
    ensures
        j@ == payee_preferred_jv(*x),
{
    let t: &str = match x {
        PayeePreferred::Unrestricted => "UNRESTRICTED",
        PayeePreferred::ImmediatePaymentRequired => "IMMEDIATE_PAYMENT_REQUIRED",
    };
    Json::Str(String::from_str(t))
}

pub fn decode_payee_preferred(j: &Json) -> (r: Option<PayeePreferred>)
    ensures
        r matches Some(x) ==> payee_preferred_of_jv(j@) == Some(x),
        r is None ==> payee_preferred_of_jv(j@) is None,
{
    match j {
        Json::Str(s) => {
            let t = s.as_str();
            if str_eq(t, "UNRESTRICTED") { Some(PayeePreferred::Unrestricted) }
            else if str_eq(t, "IMMEDIATE_PAYMENT_REQUIRED") { Some(PayeePreferred::ImmediatePaymentRequired) }
            else { None }
        },
        _ => None,
    }
}

/// Tokens of [`PayeePreferred`]: encoding lands in the table and decodes back;
/// a decoded token is the encoding of what it decoded to.
pub proof fn lemma_payee_preferred_tokens(x: PayeePreferred, t: Seq<char>)
    ensures
        payee_preferred_of_token(payee_preferred_token(x)) == Some(x),
        payee_preferred_of_token(t) matches Some(y) ==> payee_preferred_token(y) == t,
{
    reveal_strlit("UNRESTRICTED");
    assert("UNRESTRICTED"@ =~= seq!['U','N','R','E','S','T','R','I','C','T','E','D']);
    reveal_strlit("IMMEDIATE_PAYMENT_REQUIRED");
    assert("IMMEDIATE_PAYMENT_REQUIRED"@ =~= seq!['I','M','M','E','D','I','A','T','E','_','P','A','Y','M','E','N','T','_','R','E','Q','U','I','R','E','D']);
}

/// The card brand or network.
#[derive(Debug, Clone, Copy, PartialEq, Eq)]
pub enum CardBrand {
    Visa,
    Mastercard,
    Discover,
    Amex,
    Solo,
    Jcb,
    Star,
    Delta,
    Switch,
    Maestro,
    CbNationale,
    Configoga,
    Confidis,
    Electron,
    Cetelem,
    ChinaUnionPay,
}

impl DeepView for CardBrand {
    type V = CardBrand;

    open spec fn deep_view(&self) -> CardBrand {
        *self
    }
}

/// The token a [`CardBrand`] travels as.
pub open spec fn card_brand_token(x: CardBrand) -> Seq<char> {
    match x {
        CardBrand::Visa => "VISA"@,
        CardBrand::Mastercard => "MASTERCARD"@,
        CardBrand::Discover => "DISCOVER"@,
        CardBrand::Amex => "AMEX"@,
        CardBrand::Solo => "SOLO"@,
        CardBrand::Jcb => "JCB"@,
        CardBrand::Star => "STAR"@,
        CardBrand::Delta => "DELTA"@,
        CardBrand::Switch => "SWITCH"@,
        CardBrand::Maestro => "MAESTRO"@,
        CardBrand::CbNationale => "CB_NATIONALE"@,
        CardBrand::Configoga => "CONFIGOGA"@,
        CardBrand::Confidis => "CONFIDIS"@,
        CardBrand::Electron => "ELECTRON"@,
        CardBrand::Cetelem => "CETELEM"@,
        CardBrand::ChinaUnionPay => "CHINA_UNION_PAY"@,
    }
}

/// The [`CardBrand`] behind a token; tokens outside the table are rejected.
pub open spec fn card_brand_of_token(t: Seq<char>) -> Option<CardBrand> {
    if t == "VISA"@ { Some(CardBrand::Visa) }
    else if t == "MASTERCARD"@ { Some(CardBrand::Mastercard) }
    else if t == "DISCOVER"@ { Some(CardBrand::Discover) }
    else if t == "AMEX"@ { Some(CardBrand::Amex) }
    else if t == "SOLO"@ { Some(CardBrand::Solo) }
    else if t == "JCB"@ { Some(CardBrand::Jcb) }
    else if t == "STAR"@ { Some(CardBrand::Star) }
    else if t == "DELTA"@ { Some(CardBrand::Delta) }
    else if t == "SWITCH"@ { Some(CardBrand::Switch) }
    else if t == "MAESTRO"@ { Some(CardBrand::Maestro) }
    else if t == "CB_NATIONALE"@ { Some(CardBrand::CbNationale) }
    else if t == "CONFIGOGA"@ { Some(CardBrand::Configoga) }
    else if t == "CONFIDIS"@ { Some(CardBrand::Confidis) }
    else if t == "ELECTRON"@ { Some(CardBrand::Electron) }
    else if t == "CETELEM"@ { Some(CardBrand::Cetelem) }
    else if t == "CHINA_UNION_PAY"@ { Some(CardBrand::ChinaUnionPay) }
    else { None }
}

pub open spec fn card_brand_jv(x: CardBrand) -> Jv {
    Jv::Str(card_brand_token(x))
}

pub open spec fn card_brand_of_jv(j: Jv) -> Option<CardBrand> {
    match j {
        Jv::Str(t) => card_brand_of_token(t),
        _ => None,
    }
}

pub fn encode_card_brand(x: &CardBrand) -> (j: Json)
    ensures
        j@ == card_brand_jv(*x),
{
    let t: &str = match x {
        CardBrand::Visa => "VISA",
        CardBrand::Mastercard => "MASTERCARD",
        CardBrand::Discover => "DISCOVER",
        CardBrand::Amex => "AMEX",
        CardBrand::Solo => "SOLO",
        CardBrand::Jcb => "JCB",
        CardBrand::Star => "STAR",
        CardBrand::Delta => "DELTA",
        CardBrand::Switch => "SWITCH",
        CardBrand::Maestro => "MAESTRO",
        CardBrand::CbNationale => "CB_NATIONALE",
        CardBrand::Configoga => "CONFIGOGA",
        CardBrand::Confidis => "CONFIDIS",
        CardBrand::Electron => "ELECTRON",
        CardBrand::Cetelem => "CETELEM",
        CardBrand::ChinaUnionPay => "CHINA_UNION_PAY",
    };
    Json::Str(String::from_str(t))
}

pub fn decode_card_brand(j: &Json) -> (r: Option<CardBrand>)
    ensures
        r matches Some(x) ==> card_brand_of_jv(j@) == Some(x),
        r is None ==> card_brand_of_jv(j@) is None,
{
    match j {
        Json::Str(s) => {
            let t = s.as_str();
            if str_eq(t, "VISA") { Some(CardBrand::Visa) }
            else if str_eq(t, "MASTERCARD") { Some(CardBrand::Mastercard) }
            else if str_eq(t, "DISCOVER") { Some(CardBrand::Discover) }
            else if str_eq(t, "AMEX") { Some(CardBrand::Amex) }
            else if str_eq(t, "SOLO") { Some(CardBrand::Solo) }
            else if str_eq(t, "JCB") { Some(CardBrand::Jcb) }
            else if str_eq(t, "STAR") { Some(CardBrand::Star) }
            else if str_eq(t, "DELTA") { Some(CardBrand::Delta) }
            else if str_eq(t, "SWITCH") { Some(CardBrand::Switch) }
            else if str_eq(t, "MAESTRO") { Some(CardBrand::Maestro) }
            else if str_eq(t, "CB_NATIONALE") { Some(CardBrand::CbNationale) }
            else if str_eq(t, "CONFIGOGA") { Some(CardBrand::Configoga) }
            else if str_eq(t, "CONFIDIS") { Some(CardBrand::Confidis) }
            else if str_eq(t, "ELECTRON") { Some(CardBrand::Electron) }
            else if str_eq(t, "CETELEM") { Some(CardBrand::Cetelem) }
            else if str_eq(t, "CHINA_UNION_PAY") { Some(CardBrand::ChinaUnionPay) }
            else { None }
        },
        _ => None,
    }
}

/// Tokens of [`CardBrand`]: encoding lands in the table and decodes back;
/// a decoded token is the encoding of what it decoded to.
pub proof fn lemma_card_brand_tokens(x: CardBrand, t: Seq<char>)
    ensures
        card_brand_of_token(card_brand_token(x)) == Some(x),
        card_brand_of_token(t) matches Some(y) ==> card_brand_token(y) == t,
{
    reveal_strlit("VISA");
    assert("VISA"@ =~= seq!['V','I','S','A']);
    reveal_strlit("MASTERCARD");
    assert("MASTERCARD"@ =~= seq!['M','A','S','T','E','R','C','A','R','D']);
    reveal_strlit("DISCOVER");
    assert("DISCOVER"@ =~= seq!['D','I','S','C','O','V','E','R']);
    reveal_strlit("AMEX");
    assert("AMEX"@ =~= seq!['A','M','E','X']);
    reveal_strlit("SOLO");
    assert("SOLO"@ =~= seq!['S','O','L','O']);
    reveal_strlit("JCB");
    assert("JCB"@ =~= seq!['J','C','B']);
    reveal_strlit("STAR");
    assert("STAR"@ =~= seq!['S','T','A','R']);
    reveal_strlit("DELTA");
    assert("DELTA"@ =~= seq!['D','E','L','T','A']);
    reveal_strlit("SWITCH");
    assert("SWITCH"@ =~= seq!['S','W','I','T','C','H']);
    reveal_strlit("MAESTRO");
    assert("MAESTRO"@ =~= seq!['M','A','E','S','T','R','O']);
    reveal_strlit("CB_NATIONALE");
    assert("CB_NATIONALE"@ =~= seq!['C','B','_','N','A','T','I','O','N','A','L','E']);
    reveal_strlit("CONFIGOGA");
    assert("CONFIGOGA"@ =~= seq!['C','O','N','F','I','G','O','G','A']);
    reveal_strlit("CONFIDIS");
    assert("CONFIDIS"@ =~= seq!['C','O','N','F','I','D','I','S']);
    reveal_strlit("ELECTRON");
    assert("ELECTRON"@ =~= seq!['E','L','E','C','T','R','O','N']);
    reveal_strlit("CETELEM");
    assert("CETELEM"@ =~= seq!['C','E','T','E','L','E','M']);
    reveal_strlit("CHINA_UNION_PAY");
    assert("CHINA_UNION_PAY"@ =~= seq!['C','H','I','N','A','_','U','N','I','O','N','_','P','A','Y']);
}

/// The payment card type.
#[derive(Debug, Clone, Copy, PartialEq, Eq)]
pub enum CardType {
    Credit,
    Debit,
    Prepaid,
    Unknown,
}

impl DeepView for CardType {
    type V = CardType;

    open spec fn deep_view(&self) -> CardType {
        *self
    }
}

/// The token a [`CardType`] travels as.
pub open spec fn card_type_token(x: CardType) -> Seq<char> {
    match x {
        CardType::Credit => "CREDIT"@,
        CardType::Debit => "DEBIT"@,
        CardType::Prepaid => "PREPAID"@,
        CardType::Unknown => "UNKNOWN"@,
    }
}

/// The [`CardType`] behind a token; tokens outside the table are rejected.
pub open spec fn card_type_of_token(t: Seq<char>) -> Option<CardType> {
    if t == "CREDIT"@ { Some(CardType::Credit) }
    else if t == "DEBIT"@ { Some(CardType::Debit) }
    else if t == "PREPAID"@ { Some(CardType::Prepaid) }
    else if t == "UNKNOWN"@ { Some(CardType::Unknown) }
    else { None }
}

pub open spec fn card_type_jv(x: CardType) -> Jv {
    Jv::Str(card_type_token(x))
}

pub open spec fn card_type_of_jv(j: Jv) -> Option<CardType> {
    match j {
        Jv::Str(t) => card_type_of_token(t),
        _ => None,
    }
}

pub fn encode_card_type(x: &CardType) -> (j: Json)
    ensures
        j@ == card_type_jv(*x),
{
    let t: &str = match x {
        CardType::Credit => "CREDIT",
        CardType::Debit => "DEBIT",
        CardType::Prepaid => "PREPAID",
        CardType::Unknown => "UNKNOWN",
    };
    Json::Str(String::from_str(t))
}

pub fn decode_card_type(j: &Json) -> (r: Option<CardType>)
    ensures
        r matches Some(x) ==> card_type_of_jv(j@) == Some(x),
        r is None ==> card_type_of_jv(j@) is None,
{
    match j {
        Json::Str(s) => {
            let t = s.as_str();
            if str_eq(t, "CREDIT") { Some(CardType::Credit) }
            else if str_eq(t, "DEBIT") { Some(CardType::Debit) }
            else if str_eq(t, "PREPAID") { Some(CardType::Prepaid) }
            else if str_eq(t, "UNKNOWN") { Some(CardType::Unknown) }
            else { None }
        },
        _ => None,
    }
}

/// Tokens of [`CardType`]: encoding lands in the table and decodes back;
/// a decoded token is the encoding of what it decoded to.
pub proof fn lemma_card_type_tokens(x: CardType, t: Seq<char>)
    ensures
        card_type_of_token(card_type_token(x)) == Some(x),
        card_type_of_token(t) matches Some(y) ==> card_type_token(y) == t,
{
    reveal_strlit("CREDIT");
    assert("CREDIT"@ =~= seq!['C','R','E','D','I','T']);
    reveal_strlit("DEBIT");
    assert("DEBIT"@ =~= seq!['D','E','B','I','T']);
    reveal_strlit("PREPAID");
    assert("PREPAID"@ =~= seq!['P','R','E','P','A','I','D']);
    reveal_strlit("UNKNOWN");
    assert("UNKNOWN"@ =~= seq!['U','N','K','N','O','W','N']);
}

/// The status of an order.
#[derive(Debug, Clone, Copy, PartialEq, Eq)]
pub enum OrderStatus {
    Created,
    Saved,
    Approved,
    Voided,
    Completed,
}

impl DeepView for OrderStatus {
    type V = OrderStatus;

    open spec fn deep_view(&self) -> OrderStatus {
        *self
    }
}

/// The token a [`OrderStatus`] travels as.
pub open spec fn order_status_token(x: OrderStatus) -> Seq<char> {
    match x {
        OrderStatus::Created => "CREATED"@,
        OrderStatus::Saved => "SAVED"@,
        OrderStatus::Approved => "APPROVED"@,
        OrderStatus::Voided => "VOIDED"@,
        OrderStatus::Completed => "COMPLETED"@,
    }
}

/// The [`OrderStatus`] behind a token; tokens outside the table are rejected.
pub open spec fn order_status_of_token(t: Seq<char>) -> Option<OrderStatus> {
    if t == "CREATED"@ { Some(OrderStatus::Created) }
    else if t == "SAVED"@ { Some(OrderStatus::Saved) }
    else if t == "APPROVED"@ { Some(OrderStatus::Approved) }
    else if t == "VOIDED"@ { Some(OrderStatus::Voided) }
    else if t == "COMPLETED"@ { Some(OrderStatus::Completed) }
    else { None }
}

pub open spec fn order_status_jv(x: OrderStatus) -> Jv {
    Jv::Str(order_status_token(x))
}

pub open spec fn order_status_of_jv(j: Jv) -> Option<OrderStatus> {
    match j {
        Jv::Str(t) => order_status_of_token(t),
        _ => None,
    }
}

pub fn encode_order_status(x: &OrderStatus) -> (j: Json)
    ensures
        j@ == order_status_jv(*x),
{
    let t: &str = match x {
        OrderStatus::Created => "CREATED",
        OrderStatus::Saved => "SAVED",
        OrderStatus::Approved => "APPROVED",
        OrderStatus::Voided => "VOIDED",
        OrderStatus::Completed => "COMPLETED",
    };
    Json::Str(String::from_str(t))
}

pub fn decode_order_status(j: &Json) -> (r: Option<OrderStatus>)
    ensures
        r matches Some(x) ==> order_status_of_jv(j@) == Some(x),
        r is None ==> order_status_of_jv(j@) is None,
{
    match j {
        Json::Str(s) => {
            let t = s.as_str();
            if str_eq(t, "CREATED") { Some(OrderStatus::Created) }
            else if str_eq(t, "SAVED") { Some(OrderStatus::Saved) }
            else if str_eq(t, "APPROVED") { Some(OrderStatus::Approved) }
            else if str_eq(t, "VOIDED") { Some(OrderStatus::Voided) }
            else if str_eq(t, "COMPLETED") { Some(OrderStatus::Completed) }
            else { None }
        },
        _ => None,
    }
}

/// Tokens of [`OrderStatus`]: encoding lands in the table and decodes back;
/// a decoded token is the encoding of what it decoded to.
pub proof fn lemma_order_status_tokens(x: OrderStatus, t: Seq<char>)
    ensures
        order_status_of_token(order_status_token(x)) == Some(x),
        order_status_of_token(t) matches Some(y) ==> order_status_token(y) == t,
{
    reveal_strlit("CREATED");
    assert("CREATED"@ =~= seq!['C','R','E','A','T','E','D']);
    reveal_strlit("SAVED");
    assert("SAVED"@ =~= seq!['S','A','V','E','D']);
    reveal_strlit("APPROVED");
    assert("APPROVED"@ =~= seq!['A','P','P','R','O','V','E','D']);
    reveal_strlit("VOIDED");
    assert("VOIDED"@ =~= seq!['V','O','I','D','E','D']);
    reveal_strlit("COMPLETED");
    assert("COMPLETED"@ =~= seq!['C','O','M','P','L','E','T','E','D']);
}

/// A payer's name.
#[derive(Debug, Clone, PartialEq, Eq)]
pub struct PayerName {
    pub given_name: String,
    pub surname: String,
}

/// The shape of a [`PayerName`].
pub struct PayerNameV {
    pub given_name: Seq<char>,
    pub surname: Seq<char>,
}

impl DeepView for PayerName {
    type V = PayerNameV;

    open spec fn deep_view(&self) -> PayerNameV {
        PayerNameV {
            given_name: self.given_name.deep_view(),
            surname: self.surname.deep_view(),
        }
    }
}

pub open spec fn payer_name_jv(v: PayerNameV) -> Jv {
    Jv::Obj(
        entry("given_name"@, Jv::Str(v.given_name))
        + entry("surname"@, Jv::Str(v.surname))
    )
}

pub open spec fn payer_name_of_jv(j: Jv) -> Option<PayerNameV> {
    match j {
        Jv::Obj(fs) => {
            let f_given_name = req_str(fs, "given_name"@);
            let f_surname = req_str(fs, "surname"@);
            if f_given_name is Some && f_surname is Some {
                Some(PayerNameV {
                    given_name: f_given_name->Some_0,
                    surname: f_surname->Some_0,
                })
            } else {
                None
            }
        },
        _ => None,
    }
}

pub fn encode_payer_name(x: &PayerName) -> (j: Json)
    ensures
        j@ == payer_name_jv(x.deep_view()),
{
    let mut fs: Vec<(String, Json)> = Vec::new();
    push_field(&mut fs, "given_name", Json::Str(x.given_name.clone()));
    push_field(&mut fs, "surname", Json::Str(x.surname.clone()));
    let r = Json::Obj(fs);
    proof {
        assert(r@->Obj_0 =~= payer_name_jv(x.deep_view())->Obj_0);
        assert(r@ == payer_name_jv(x.deep_view()));
    }
    r
}

pub fn decode_payer_name(j: &Json) -> (r: Option<PayerName>)
    ensures
        r matches Some(x) ==> payer_name_of_jv(j@) == Some(x.deep_view()),
        r is None ==> payer_name_of_jv(j@) is None,
{
    match j {
        Json::Obj(fs) => {
            proof {
                assert(j@->Obj_0 =~= obj_view(fs@));
            }
            let f_given_name = match get_str(fs, "given_name") {
                Some(s) => s,
                None => { return None; },
            };
            let f_surname = match get_str(fs, "surname") {
                Some(s) => s,
                None => { return None; },
            };
            Some(PayerName {
                given_name: f_given_name,
                surname: f_surname,
            })
        },
        _ => None,
    }
}

/// A record of this type decodes back to itself after encoding.
#[verifier::rlimit(100)]
pub proof fn lemma_payer_name_round_trip(v: PayerNameV)
    ensures
        payer_name_of_jv(payer_name_jv(v)) == Some(v),
{
    let fs = payer_name_jv(v)->Obj_0;
    reveal_strlit("given_name");
    assert("given_name"@ =~= seq!['g','i','v','e','n','_','n','a','m','e']);
    reveal_strlit("surname");
    assert("surname"@ =~= seq!['s','u','r','n','a','m','e']);
    lemma_jv_get_found(fs, "given_name"@, 0int);
    lemma_jv_get_found(fs, "surname"@, 1int);
}

/// A phone number, in its canonical international E.164 numbering plan format.
#[derive(Debug, Clone, PartialEq, Eq)]
pub struct PhoneNumber {
    pub national_number: String,
}

/// The shape of a [`PhoneNumber`].
pub struct PhoneNumberV {
    pub national_number: Seq<char>,
}

impl DeepView for PhoneNumber {
    type V = PhoneNumberV;

    open spec fn deep_view(&self) -> PhoneNumberV {
        PhoneNumberV {
            national_number: self.national_number.deep_view(),
        }
    }
}

pub open spec fn phone_number_jv(v: PhoneNumberV) -> Jv {
    Jv::Obj(
        entry("national_number"@, Jv::Str(v.national_number))
    )
}

pub open spec fn phone_number_of_jv(j: Jv) -> Option<PhoneNumberV> {
    match j {
        Jv::Obj(fs) => {
            let f_national_number = req_str(fs, "national_number"@);
            if f_national_number is Some {
                Some(PhoneNumberV {
                    national_number: f_national_number->Some_0,
                })
            } else {
                None
            }
        },
        _ => None,
    }
}

pub fn encode_phone_number(x: &PhoneNumber) -> (j: Json)
    ensures
        j@ == phone_number_jv(x.deep_view()),
{
    let mut fs: Vec<(String, Json)> = Vec::new();
    push_field(&mut fs, "national_number", Json::Str(x.national_number.clone()));
    let r = Json::Obj(fs);
    proof {
        assert(r@->Obj_0 =~= phone_number_jv(x.deep_view())->Obj_0);
        assert(r@ == phone_number_jv(x.deep_view()));
    }
    r
}

pub fn decode_phone_number(j: &Json) -> (r: Option<PhoneNumber>)
    ensures
        r matches Some(x) ==> phone_number_of_jv(j@) == Some(x.deep_view()),
        r is None ==> phone_number_of_jv(j@) is None,
{
    match j {
        Json::Obj(fs) => {
            proof {
                assert(j@->Obj_0 =~= obj_view(fs@));
            }
            let f_national_number = match get_str(fs, "national_number") {
                Some(s) => s,
                None => { return None; },
            };
            Some(PhoneNumber {
                national_number: f_national_number,
            })
        },
        _ => None,
    }
}

/// A record of this type decodes back to itself after encoding.
#[verifier::rlimit(100)]
pub proof fn lemma_phone_number_round_trip(v: PhoneNumberV)
    ensures
        phone_number_of_jv(phone_number_jv(v)) == Some(v),
{
    let fs = phone_number_jv(v)->Obj_0;
    reveal_strlit("national_number");
    assert("national_number"@ =~= seq!['n','a','t','i','o','n','a','l','_','n','u','m','b','e','r']);
    lemma_jv_get_found(fs, "national_number"@, 0int);
}

/// The phone number of the customer, with its optional type.
#[derive(Debug, Clone, PartialEq, Eq)]
pub struct Phone {
    pub phone_type: Option<PhoneType>,
    pub phone_number: PhoneNumber,
}

/// The shape of a [`Phone`].
pub struct PhoneV {
    pub phone_type: Option<PhoneType>,
    pub phone_number: PhoneNumberV,
}

impl DeepView for Phone {
    type V = PhoneV;

    open spec fn deep_view(&self) -> PhoneV {
        PhoneV {
            phone_type: self.phone_type.deep_view(),
            phone_number: self.phone_number.deep_view(),
        }
    }
}

pub open spec fn phone_jv(v: PhoneV) -> Jv {
    Jv::Obj(
        opt_entry("phone_type"@, v.phone_type, |x: PhoneType| phone_type_jv(x))
        + entry("phone_number"@, phone_number_jv(v.phone_number))
    )
}

pub open spec fn phone_of_jv(j: Jv) -> Option<PhoneV> {
    match j {
        Jv::Obj(fs) => {
            let f_phone_type = opt_field(fs, "phone_type"@, |x: Jv| phone_type_of_jv(x));
            let f_phone_number = req_field(fs, "phone_number"@, |x: Jv| phone_number_of_jv(x));
            if f_phone_type is Some && f_phone_number is Some {
                Some(PhoneV {
                    phone_type: f_phone_type->Some_0,
                    phone_number: f_phone_number->Some_0,
                })
            } else {
                None
            }
        },
        _ => None,
    }
}

pub fn encode_phone(x: &Phone) -> (j: Json)
    ensures
        j@ == phone_jv(x.deep_view()),
{
    let mut fs: Vec<(String, Json)> = Vec::new();
    match &x.phone_type {
        Some(v) => { push_field(&mut fs, "phone_type", encode_phone_type(v)); },
        None => {},
    }
    push_field(&mut fs, "phone_number", encode_phone_number(&x.phone_number));
    let r = Json::Obj(fs);
    proof {
        assert(r@->Obj_0 =~= phone_jv(x.deep_view())->Obj_0);
        assert(r@ == phone_jv(x.deep_view()));
    }
    r
}

pub fn decode_phone(j: &Json) -> (r: Option<Phone>)
    ensures
        r matches Some(x) ==> phone_of_jv(j@) == Some(x.deep_view()),
        r is None ==> phone_of_jv(j@) is None,
{
    match j {
        Json::Obj(fs) => {
            proof {
                assert(j@->Obj_0 =~= obj_view(fs@));
            }
            let f_phone_type = match get_field(fs, "phone_type") {
                None => None,
                Some(x) => match decode_phone_type(x) {
                    Some(v) => Some(v),
                    None => { return None; },
                },
            };
            let f_phone_number = match get_field(fs, "phone_number") {
                Some(x) => match decode_phone_number(x) {
                    Some(v) => v,
                    None => { return None; },
                },
                None => { return None; },
            };
            Some(Phone {
                phone_type: f_phone_type,
                phone_number: f_phone_number,
            })
        },
        _ => None,
    }
}

/// A record of this type decodes back to itself after encoding.
#[verifier::rlimit(100)]
pub proof fn lemma_phone_round_trip(v: PhoneV)
    ensures
        phone_of_jv(phone_jv(v)) == Some(v),
{
    let fs = phone_jv(v)->Obj_0;
    reveal_strlit("phone_type");
    assert("phone_type"@ =~= seq!['p','h','o','n','e','_','t','y','p','e']);
    reveal_strlit("phone_number");
    assert("phone_number"@ =~= seq!['p','h','o','n','e','_','n','u','m','b','e','r']);
    if v.phone_type is Some {
        lemma_jv_get_found(fs, "phone_type"@, 0int);
    } else {
        lemma_jv_get_absent(fs, "phone_type"@);
    }
    lemma_jv_get_found(fs, "phone_number"@, (if v.phone_type is Some { 1int } else { 0int }));
    if v.phone_type is Some {
        lemma_phone_type_tokens(v.phone_type->Some_0, Seq::empty());
    }
    lemma_phone_number_round_trip(v.phone_number);
}

/// The tax information of the payer.
#[derive(Debug, Clone, PartialEq, Eq)]
pub struct TaxInfo {
    pub tax_id: String,
    pub tax_id_type: TaxIdType,
}

/// The shape of a [`TaxInfo`].
pub struct TaxInfoV {
    pub tax_id: Seq<char>,
    pub tax_id_type: TaxIdType,
}

impl DeepView for TaxInfo {
    type V = TaxInfoV;

    open spec fn deep_view(&self) -> TaxInfoV {
        TaxInfoV {
            tax_id: self.tax_id.deep_view(),
            tax_id_type: self.tax_id_type.deep_view(),
        }
    }
}

pub open spec fn tax_info_jv(v: TaxInfoV) -> Jv {
    Jv::Obj(
        entry("tax_id"@, Jv::Str(v.tax_id))
        + entry("tax_id_type"@, tax_id_type_jv(v.tax_id_type))
    )
}

pub open spec fn tax_info_of_jv(j: Jv) -> Option<TaxInfoV> {
    match j {
        Jv::Obj(fs) => {
            let f_tax_id = req_str(fs, "tax_id"@);
            let f_tax_id_type = req_field(fs, "tax_id_type"@, |x: Jv| tax_id_type_of_jv(x));
            if f_tax_id is Some && f_tax_id_type is Some {
                Some(TaxInfoV {
                    tax_id: f_tax_id->Some_0,
                    tax_id_type: f_tax_id_type->Some_0,
                })
            } else {
                None
            }
        },
        _ => None,
    }
}

pub fn encode_tax_info(x: &TaxInfo) -> (j: Json)
    ensures
        j@ == tax_info_jv(x.deep_view()),
{
    let mut fs: Vec<(String, Json)> = Vec::new();
    push_field(&mut fs, "tax_id", Json::Str(x.tax_id.clone()));
    push_field(&mut fs, "tax_id_type", encode_tax_id_type(&x.tax_id_type));
    let r = Json::Obj(fs);
    proof {
        assert(r@->Obj_0 =~= tax_info_jv(x.deep_view())->Obj_0);
        assert(r@ == tax_info_jv(x.deep_view()));
    }
    r
}

pub fn decode_tax_info(j: &Json) -> (r: Option<TaxInfo>)
    ensures
        r matches Some(x) ==> tax_info_of_jv(j@) == Some(x.deep_view()),
        r is None ==> tax_info_of_jv(j@) is None,
{
    match j {
        Json::Obj(fs) => {
            proof {
                assert(j@->Obj_0 =~= obj_view(fs@));
            }
            let f_tax_id = match get_str(fs, "tax_id") {
                Some(s) => s,
                None => { return None; },
            };
            let f_tax_id_type = match get_field(fs, "tax_id_type") {
                Some(x) => match decode_tax_id_type(x) {
                    Some(v) => v,
                    None => { return None; },
                },
                None => { return None; },
            };
            Some(TaxInfo {
                tax_id: f_tax_id,
                tax_id_type: f_tax_id_type,
            })
        },
        _ => None,
    }
}

/// A record of this type decodes back to itself after encoding.
#[verifier::rlimit(100)]
pub proof fn lemma_tax_info_round_trip(v: TaxInfoV)
    ensures
        tax_info_of_jv(tax_info_jv(v)) == Some(v),
{
    let fs = tax_info_jv(v)->Obj_0;
    reveal_strlit("tax_id");
    assert("tax_id"@ =~= seq!['t','a','x','_','i','d']);
    reveal_strlit("tax_id_type");
    assert("tax_id_type"@ =~= seq!['t','a','x','_','i','d','_','t','y','p','e']);
    lemma_jv_get_found(fs, "tax_id"@, 0int);
    lemma_jv_get_found(fs, "tax_id_type"@, 1int);
    lemma_tax_id_type_tokens(v.tax_id_type, Seq::empty());
}

/// The customer who approves and pays for the order, also known as the payer.
#[derive(Debug, Clone, PartialEq, Eq)]
pub struct Payer {
    pub name: Option<PayerName>,
    pub email_address: Option<String>,
    pub payer_id: Option<String>,
    pub phone: Option<Phone>,
    pub birth_date: Option<String>,
    pub tax_info: Option<TaxInfo>,
    pub address: Option<Address>,
}

/// The shape of a [`Payer`].
pub struct PayerV {
    pub name: Option<PayerNameV>,
    pub email_address: Option<Seq<char>>,
    pub payer_id: Option<Seq<char>>,
    pub phone: Option<PhoneV>,
    pub birth_date: Option<Seq<char>>,
    pub tax_info: Option<TaxInfoV>,
    pub address: Option<AddressV>,
}

impl DeepView for Payer {
    type V = PayerV;

    open spec fn deep_view(&self) -> PayerV {
        PayerV {
            name: self.name.deep_view(),
            email_address: self.email_address.deep_view(),
            payer_id: self.payer_id.deep_view(),
            phone: self.phone.deep_view(),
            birth_date: self.birth_date.deep_view(),
            tax_info: self.tax_info.deep_view(),
            address: self.address.deep_view(),
        }
    }
}

pub open spec fn payer_jv(v: PayerV) -> Jv {
    Jv::Obj(
        opt_entry("name"@, v.name, |x: PayerNameV| payer_name_jv(x))
        + opt_str_entry("email_address"@, v.email_address)
        + opt_str_entry("payer_id"@, v.payer_id)
        + opt_entry("phone"@, v.phone, |x: PhoneV| phone_jv(x))
        + opt_str_entry("birth_date"@, v.birth_date)
        + opt_entry("tax_info"@, v.tax_info, |x: TaxInfoV| tax_info_jv(x))
        + opt_entry("address"@, v.address, |x: AddressV| address_jv(x))
    )
}

pub open spec fn payer_of_jv(j: Jv) -> Option<PayerV> {
    match j {
        Jv::Obj(fs) => {
            let f_name = opt_field(fs, "name"@, |x: Jv| payer_name_of_jv(x));
            let f_email_address = opt_str(fs, "email_address"@);
            let f_payer_id = opt_str(fs, "payer_id"@);
            let f_phone = opt_field(fs, "phone"@, |x: Jv| phone_of_jv(x));
            let f_birth_date = opt_str(fs, "birth_date"@);
            let f_tax_info = opt_field(fs, "tax_info"@, |x: Jv| tax_info_of_jv(x));
            let f_address = opt_field(fs, "address"@, |x: Jv| address_of_jv(x));
            if f_name is Some && f_email_address is Some && f_payer_id is Some && f_phone is Some && f_birth_date is Some && f_tax_info is Some && f_address is Some {
                Some(PayerV {
                    name: f_name->Some_0,
                    email_address: f_email_address->Some_0,
                    payer_id: f_payer_id->Some_0,
                    phone: f_phone->Some_0,
                    birth_date: f_birth_date->Some_0,
                    tax_info: f_tax_info->Some_0,
                    address: f_address->Some_0,
                })
            } else {
                None
            }
        },
        _ => None,
    }
}

#[verifier::rlimit(100)]
pub fn encode_payer(x: &Payer) -> (j: Json)
    ensures
        j@ == payer_jv(x.deep_view()),
{
    let mut fs: Vec<(String, Json)> = Vec::new();
    match &x.name {
        Some(v) => { push_field(&mut fs, "name", encode_payer_name(v)); },
        None => {},
    }
    match &x.email_address {
        Some(v) => { push_field(&mut fs, "email_address", Json::Str(v.clone())); },
        None => {},
    }
    match &x.payer_id {
        Some(v) => { push_field(&mut fs, "payer_id", Json::Str(v.clone())); },
        None => {},
    }
    match &x.phone {
        Some(v) => { push_field(&mut fs, "phone", encode_phone(v)); },
        None => {},
    }
    match &x.birth_date {
        Some(v) => { push_field(&mut fs, "birth_date", Json::Str(v.clone())); },
        None => {},
    }
    match &x.tax_info {
        Some(v) => { push_field(&mut fs, "tax_info", encode_tax_info(v)); },
        None => {},
    }
    match &x.address {
        Some(v) => { push_field(&mut fs, "address", encode_address(v)); },
        None => {},
    }
    let r = Json::Obj(fs);
    proof {
        assert(r@->Obj_0 =~= payer_jv(x.deep_view())->Obj_0);
        assert(r@ == payer_jv(x.deep_view()));
    }
    r
}

#[verifier::rlimit(100)]
pub fn decode_payer(j: &Json) -> (r: Option<Payer>)
    ensures
        r matches Some(x) ==> payer_of_jv(j@) == Some(x.deep_view()),
        r is None ==> payer_of_jv(j@) is None,
{
    match j {
        Json::Obj(fs) => {
            proof {
                assert(j@->Obj_0 =~= obj_view(fs@));
            }
            let f_name = match get_field(fs, "name") {
                None => None,
                Some(x) => match decode_payer_name(x) {
                    Some(v) => Some(v),
                    None => { return None; },
                },
            };
            let f_email_address = match get_opt_str(fs, "email_address") {
                Some(v) => v,
                None => { return None; },
            };
            let f_payer_id = match get_opt_str(fs, "payer_id") {
                Some(v) => v,
                None => { return None; },
            };
            let f_phone = match get_field(fs, "phone") {
                None => None,
                Some(x) => match decode_phone(x) {
                    Some(v) => Some(v),
                    None => { return None; },
                },
            };
            let f_birth_date = match get_opt_str(fs, "birth_date") {
                Some(v) => v,
                None => { return None; },
            };
            let f_tax_info = match get_field(fs, "tax_info") {
                None => None,
                Some(x) => match decode_tax_info(x) {
                    Some(v) => Some(v),
                    None => { return None; },
                },
            };
            let f_address = match get_field(fs, "address") {
                None => None,
                Some(x) => match decode_address(x) {
                    Some(v) => Some(v),
                    None => { return None; },
                },
            };
            Some(Payer {
                name: f_name,
                email_address: f_email_address,
                payer_id: f_payer_id,
                phone: f_phone,
                birth_date: f_birth_date,
                tax_info: f_tax_info,
                address: f_address,
            })
        },
        _ => None,
    }
}

#[verifier::rlimit(100)]
proof fn lemma_payer_fields_0(v: PayerV)
    ensures
        v.name is Some ==> jv_get(payer_jv(v)->Obj_0, "name"@) == Some(payer_name_jv(v.name->Some_0)),
        v.name is None ==> jv_get(payer_jv(v)->Obj_0, "name"@) is None,
        v.email_address is Some ==> jv_get(payer_jv(v)->Obj_0, "email_address"@) == Some(Jv::Str(v.email_address->Some_0)),
        v.email_address is None ==> jv_get(payer_jv(v)->Obj_0, "email_address"@) is None,
        v.payer_id is Some ==> jv_get(payer_jv(v)->Obj_0, "payer_id"@) == Some(Jv::Str(v.payer_id->Some_0)),
        v.payer_id is None ==> jv_get(payer_jv(v)->Obj_0, "payer_id"@) is None,
        v.phone is Some ==> jv_get(payer_jv(v)->Obj_0, "phone"@) == Some(phone_jv(v.phone->Some_0)),
        v.phone is None ==> jv_get(payer_jv(v)->Obj_0, "phone"@) is None,
{
    let fs = payer_jv(v)->Obj_0;
    reveal_strlit("name");
    assert("name"@ =~= seq!['n','a','m','e']);
    reveal_strlit("email_address");
    assert("email_address"@ =~= seq!['e','m','a','i','l','_','a','d','d','r','e','s','s']);
    reveal_strlit("payer_id");
    assert("payer_id"@ =~= seq!['p','a','y','e','r','_','i','d']);
    reveal_strlit("phone");
    assert("phone"@ =~= seq!['p','h','o','n','e']);
    reveal_strlit("birth_date");
    assert("birth_date"@ =~= seq!['b','i','r','t','h','_','d','a','t','e']);
    reveal_strlit("tax_info");
    assert("tax_info"@ =~= seq!['t','a','x','_','i','n','f','o']);
    reveal_strlit("address");
    assert("address"@ =~= seq!['a','d','d','r','e','s','s']);
    let e0 = opt_entry("name"@, v.name, |x: PayerNameV| payer_name_jv(x));
    let e1 = opt_str_entry("email_address"@, v.email_address);
    let e2 = opt_str_entry("payer_id"@, v.payer_id);
    let e3 = opt_entry("phone"@, v.phone, |x: PhoneV| phone_jv(x));
    let e4 = opt_str_entry("birth_date"@, v.birth_date);
    let e5 = opt_entry("tax_info"@, v.tax_info, |x: TaxInfoV| tax_info_jv(x));
    let e6 = opt_entry("address"@, v.address, |x: AddressV| address_jv(x));
    let l0 = e0;
    let l1 = l0 + e1;
    let l2 = l1 + e2;
    let l3 = l2 + e3;
    let l4 = l3 + e4;
    let l5 = l4 + e5;
    let l6 = l5 + e6;
    let s6 = e6;
    let s5 = e5 + s6;
    let s4 = e4 + s5;
    let s3 = e3 + s4;
    let s2 = e2 + s3;
    let s1 = e1 + s2;
    let s0 = e0 + s1;
    assert(fs == l6);
    lemma_concat_associative(l4, e5, s6);
    lemma_concat_associative(l3, e4, s5);
    lemma_concat_associative(l2, e3, s4);
    lemma_concat_associative(l1, e2, s3);
    lemma_concat_associative(l0, e1, s2);
    assert(fs == s0);
    if v.name is Some {
        lemma_jv_get_head(s0, "name"@);
    } else {
        lemma_jv_get_skip(e0, s1, "name"@);
        lemma_jv_get_skip(e1, s2, "name"@);
        lemma_jv_get_skip(e2, s3, "name"@);
        lemma_jv_get_skip(e3, s4, "name"@);
        lemma_jv_get_skip(e4, s5, "name"@);
        lemma_jv_get_skip(e5, s6, "name"@);
        lemma_jv_get_absent(s6, "name"@);
    }
    if v.email_address is Some {
        lemma_jv_get_skip(e0, s1, "email_address"@);
        lemma_jv_get_head(s1, "email_address"@);
    } else {
        lemma_jv_get_skip(e0, s1, "email_address"@);
        lemma_jv_get_skip(e1, s2, "email_address"@);
        lemma_jv_get_skip(e2, s3, "email_address"@);
        lemma_jv_get_skip(e3, s4, "email_address"@);
        lemma_jv_get_skip(e4, s5, "email_address"@);
        lemma_jv_get_skip(e5, s6, "email_address"@);
        lemma_jv_get_absent(s6, "email_address"@);
    }
    if v.payer_id is Some {
        lemma_jv_get_skip(e0, s1, "payer_id"@);
        lemma_jv_get_skip(e1, s2, "payer_id"@);
        lemma_jv_get_head(s2, "payer_id"@);
    } else {
        lemma_jv_get_skip(e0, s1, "payer_id"@);
        lemma_jv_get_skip(e1, s2, "payer_id"@);
        lemma_jv_get_skip(e2, s3, "payer_id"@);
        lemma_jv_get_skip(e3, s4, "payer_id"@);
        lemma_jv_get_skip(e4, s5, "payer_id"@);
        lemma_jv_get_skip(e5, s6, "payer_id"@);
        lemma_jv_get_absent(s6, "payer_id"@);
    }
    if v.phone is Some {
        lemma_jv_get_skip(e0, s1, "phone"@);
        lemma_jv_get_skip(e1, s2, "phone"@);
        lemma_jv_get_skip(e2, s3, "phone"@);
        lemma_jv_get_head(s3, "phone"@);
    } else {
        lemma_jv_get_skip(e0, s1, "phone"@);
        lemma_jv_get_skip(e1, s2, "phone"@);
        lemma_jv_get_skip(e2, s3, "phone"@);
        lemma_jv_get_skip(e3, s4, "phone"@);
        lemma_jv_get_skip(e4, s5, "phone"@);
        lemma_jv_get_skip(e5, s6, "phone"@);
        lemma_jv_get_absent(s6, "phone"@);
    }
}

#[verifier::rlimit(100)]
proof fn lemma_payer_fields_1(v: PayerV)
    ensures
        v.birth_date is Some ==> jv_get(payer_jv(v)->Obj_0, "birth_date"@) == Some(Jv::Str(v.birth_date->Some_0)),
        v.birth_date is None ==> jv_get(payer_jv(v)->Obj_0, "birth_date"@) is None,
        v.tax_info is Some ==> jv_get(payer_jv(v)->Obj_0, "tax_info"@) == Some(tax_info_jv(v.tax_info->Some_0)),
        v.tax_info is None ==> jv_get(payer_jv(v)->Obj_0, "tax_info"@) is None,
        v.address is Some ==> jv_get(payer_jv(v)->Obj_0, "address"@) == Some(address_jv(v.address->Some_0)),
        v.address is None ==> jv_get(payer_jv(v)->Obj_0, "address"@) is None,
{
    let fs = payer_jv(v)->Obj_0;
    reveal_strlit("name");
    assert("name"@ =~= seq!['n','a','m','e']);
    reveal_strlit("email_address");
    assert("email_address"@ =~= seq!['e','m','a','i','l','_','a','d','d','r','e','s','s']);
    reveal_strlit("payer_id");
    assert("payer_id"@ =~= seq!['p','a','y','e','r','_','i','d']);
    reveal_strlit("phone");
    assert("phone"@ =~= seq!['p','h','o','n','e']);
    reveal_strlit("birth_date");
    assert("birth_date"@ =~= seq!['b','i','r','t','h','_','d','a','t','e']);
    reveal_strlit("tax_info");
    assert("tax_info"@ =~= seq!['t','a','x','_','i','n','f','o']);
    reveal_strlit("address");
    assert("address"@ =~= seq!['a','d','d','r','e','s','s']);
    let e0 = opt_entry("name"@, v.name, |x: PayerNameV| payer_name_jv(x));
    let e1 = opt_str_entry("email_address"@, v.email_address);
    let e2 = opt_str_entry("payer_id"@, v.payer_id);
    let e3 = opt_entry("phone"@, v.phone, |x: PhoneV| phone_jv(x));
    let e4 = opt_str_entry("birth_date"@, v.birth_date);
    let e5 = opt_entry("tax_info"@, v.tax_info, |x: TaxInfoV| tax_info_jv(x));
    let e6 = opt_entry("address"@, v.address, |x: AddressV| address_jv(x));
    let l0 = e0;
    let l1 = l0 + e1;
    let l2 = l1 + e2;
    let l3 = l2 + e3;
    let l4 = l3 + e4;
    let l5 = l4 + e5;
    let l6 = l5 + e6;
    let s6 = e6;
    let s5 = e5 + s6;
    let s4 = e4 + s5;
    let s3 = e3 + s4;
    let s2 = e2 + s3;
    let s1 = e1 + s2;
    let s0 = e0 + s1;
    assert(fs == l6);
    lemma_concat_associative(l4, e5, s6);
    lemma_concat_associative(l3, e4, s5);
    lemma_concat_associative(l2, e3, s4);
    lemma_concat_associative(l1, e2, s3);
    lemma_concat_associative(l0, e1, s2);
    assert(fs == s0);
    if v.birth_date is Some {
        lemma_jv_get_skip(e0, s1, "birth_date"@);
        lemma_jv_get_skip(e1, s2, "birth_date"@);
        lemma_jv_get_skip(e2, s3, "birth_date"@);
        lemma_jv_get_skip(e3, s4, "birth_date"@);
        lemma_jv_get_head(s4, "birth_date"@);
    } else {
        lemma_jv_get_skip(e0, s1, "birth_date"@);
        lemma_jv_get_skip(e1, s2, "birth_date"@);
        lemma_jv_get_skip(e2, s3, "birth_date"@);
        lemma_jv_get_skip(e3, s4, "birth_date"@);
        lemma_jv_get_skip(e4, s5, "birth_date"@);
        lemma_jv_get_skip(e5, s6, "birth_date"@);
        lemma_jv_get_absent(s6, "birth_date"@);
    }
    if v.tax_info is Some {
        lemma_jv_get_skip(e0, s1, "tax_info"@);
        lemma_jv_get_skip(e1, s2, "tax_info"@);
        lemma_jv_get_skip(e2, s3, "tax_info"@);
        lemma_jv_get_skip(e3, s4, "tax_info"@);
        lemma_jv_get_skip(e4, s5, "tax_info"@);
        lemma_jv_get_head(s5, "tax_info"@);
    } else {
        lemma_jv_get_skip(e0, s1, "tax_info"@);
        lemma_jv_get_skip(e1, s2, "tax_info"@);
        lemma_jv_get_skip(e2, s3, "tax_info"@);
        lemma_jv_get_skip(e3, s4, "tax_info"@);
        lemma_jv_get_skip(e4, s5, "tax_info"@);
        lemma_jv_get_skip(e5, s6, "tax_info"@);
        lemma_jv_get_absent(s6, "tax_info"@);
    }
    if v.address is Some {
        lemma_jv_get_skip(e0, s1, "address"@);
        lemma_jv_get_skip(e1, s2, "address"@);
        lemma_jv_get_skip(e2, s3, "address"@);
        lemma_jv_get_skip(e3, s4, "address"@);
        lemma_jv_get_skip(e4, s5, "address"@);
        lemma_jv_get_skip(e5, s6, "address"@);
        lemma_jv_get_head(s6, "address"@);
    } else {
        lemma_jv_get_skip(e0, s1, "address"@);
        lemma_jv_get_skip(e1, s2, "address"@);
        lemma_jv_get_skip(e2, s3, "address"@);
        lemma_jv_get_skip(e3, s4, "address"@);
        lemma_jv_get_skip(e4, s5, "address"@);
        lemma_jv_get_skip(e5, s6, "address"@);
        lemma_jv_get_absent(s6, "address"@);
    }
}

/// A record of this type decodes back to itself after encoding.
#[verifier::rlimit(100)]
pub proof fn lemma_payer_round_trip(v: PayerV)
    ensures
        payer_of_jv(payer_jv(v)) == Some(v),
{
    lemma_payer_fields_0(v);
    lemma_payer_fields_1(v);
    if v.name is Some {
        lemma_payer_name_round_trip(v.name->Some_0);
    }
    if v.phone is Some {
        lemma_phone_round_trip(v.phone->Some_0);
    }
    if v.tax_info is Some {
        lemma_tax_info_round_trip(v.tax_info->Some_0);
    }
    if v.address is Some {
        lemma_address_round_trip(v.address->Some_0);
    }
}

/// The sub-totals behind an amount: item total, tax, shipping, handling, insurance and discounts.
#[derive(Debug, Clone, PartialEq, Eq)]
pub struct Breakdown {
    pub item_total: Option<Money>,
    pub shipping: Option<Money>,
    pub handling: Option<Money>,
    pub tax_total: Option<Money>,
    pub insurance: Option<Money>,
    pub shipping_discount: Option<Money>,
    pub discount: Option<Money>,
}

/// The shape of a [`Breakdown`].
pub struct BreakdownV {
    pub item_total: Option<MoneyV>,
    pub shipping: Option<MoneyV>,
    pub handling: Option<MoneyV>,
    pub tax_total: Option<MoneyV>,
    pub insurance: Option<MoneyV>,
    pub shipping_discount: Option<MoneyV>,
    pub discount: Option<MoneyV>,
}

impl DeepView for Breakdown {
    type V = BreakdownV;

    open spec fn deep_view(&self) -> BreakdownV {
        BreakdownV {
            item_total: self.item_total.deep_view(),
            shipping: self.shipping.deep_view(),
            handling: self.handling.deep_view(),
            tax_total: self.tax_total.deep_view(),
            insurance: self.insurance.deep_view(),
            shipping_discount: self.shipping_discount.deep_view(),
            discount: self.discount.deep_view(),
        }
    }
}

pub open spec fn breakdown_jv(v: BreakdownV) -> Jv {
    Jv::Obj(
        opt_entry("item_total"@, v.item_total, |x: MoneyV| money_jv(x))
        + opt_entry("shipping"@, v.shipping, |x: MoneyV| money_jv(x))
        + opt_entry("handling"@, v.handling, |x: MoneyV| money_jv(x))
        + opt_entry("tax_total"@, v.tax_total, |x: MoneyV| money_jv(x))
        + opt_entry("insurance"@, v.insurance, |x: MoneyV| money_jv(x))
        + opt_entry("shipping_discount"@, v.shipping_discount, |x: MoneyV| money_jv(x))
        + opt_entry("discount"@, v.discount, |x: MoneyV| money_jv(x))
    )
}

pub open spec fn breakdown_of_jv(j: Jv) -> Option<BreakdownV> {
    match j {
        Jv::Obj(fs) => {
            let f_item_total = opt_field(fs, "item_total"@, |x: Jv| money_of_jv(x));
            let f_shipping = opt_field(fs, "shipping"@, |x: Jv| money_of_jv(x));
            let f_handling = opt_field(fs, "handling"@, |x: Jv| money_of_jv(x));
            let f_tax_total = opt_field(fs, "tax_total"@, |x: Jv| money_of_jv(x));
            let f_insurance = opt_field(fs, "insurance"@, |x: Jv| money_of_jv(x));
            let f_shipping_discount = opt_field(fs, "shipping_discount"@, |x: Jv| money_of_jv(x));
            let f_discount = opt_field(fs, "discount"@, |x: Jv| money_of_jv(x));
            if f_item_total is Some && f_shipping is Some && f_handling is Some && f_tax_total is Some && f_insurance is Some && f_shipping_discount is Some && f_discount is Some {
                Some(BreakdownV {
                    item_total: f_item_total->Some_0,
                    shipping: f_shipping->Some_0,
                    handling: f_handling->Some_0,
                    tax_total: f_tax_total->Some_0,
                    insurance: f_insurance->Some_0,
                    shipping_discount: f_shipping_discount->Some_0,
                    discount: f_discount->Some_0,
                })
            } else {
                None
            }
        },
        _ => None,
    }
}

#[verifier::rlimit(100)]
pub fn encode_breakdown(x: &Breakdown) -> (j: Json)
    ensures
        j@ == breakdown_jv(x.deep_view()),
{
    let mut fs: Vec<(String, Json)> = Vec::new();
    match &x.item_total {
        Some(v) => { push_field(&mut fs, "item_total", encode_money(v)); },
        None => {},
    }
    match &x.shipping {
        Some(v) => { push_field(&mut fs, "shipping", encode_money(v)); },
        None => {},
    }
    match &x.handling {
        Some(v) => { push_field(&mut fs, "handling", encode_money(v)); },
        None => {},
    }
    match &x.tax_total {
        Some(v) => { push_field(&mut fs, "tax_total", encode_money(v)); },
        None => {},
    }
    match &x.insurance {
        Some(v) => { push_field(&mut fs, "insurance", encode_money(v)); },
        None => {},
    }
    match &x.shipping_discount {
        Some(v) => { push_field(&mut fs, "shipping_discount", encode_money(v)); },
        None => {},
    }
    match &x.discount {
        Some(v) => { push_field(&mut fs, "discount", encode_money(v)); },
        None => {},
    }
    let r = Json::Obj(fs);
    proof {
        assert(r@->Obj_0 =~= breakdown_jv(x.deep_view())->Obj_0);
        assert(r@ == breakdown_jv(x.deep_view()));
    }
    r
}

#[verifier::rlimit(100)]
pub fn decode_breakdown(j: &Json) -> (r: Option<Breakdown>)
    ensures
        r matches Some(x) ==> breakdown_of_jv(j@) == Some(x.deep_view()),
        r is None ==> breakdown_of_jv(j@) is None,
{
    match j {
        Json::Obj(fs) => {
            proof {
                assert(j@->Obj_0 =~= obj_view(fs@));
            }
            let f_item_total = match get_field(fs, "item_total") {
                None => None,
                Some(x) => match decode_money(x) {
                    Some(v) => Some(v),
                    None => { return None; },
                },
            };
            let f_shipping = match get_field(fs, "shipping") {
                None => None,
                Some(x) => match decode_money(x) {
                    Some(v) => Some(v),
                    None => { return None; },
                },
            };
            let f_handling = match get_field(fs, "handling") {
                None => None,
                Some(x) => match decode_money(x) {
                    Some(v) => Some(v),
                    None => { return None; },
                },
            };
            let f_tax_total = match get_field(fs, "tax_total") {
                None => None,
                Some(x) => match decode_money(x) {
                    Some(v) => Some(v),
                    None => { return None; },
                },
            };
            let f_insurance = match get_field(fs, "insurance") {
                None => None,
                Some(x) => match decode_money(x) {
                    Some(v) => Some(v),
                    None => { return None; },
                },
            };
            let f_shipping_discount = match get_field(fs, "shipping_discount") {
                None => None,
                Some(x) => match decode_money(x) {
                    Some(v) => Some(v),
                    None => { return None; },
                },
            };
            let f_discount = match get_field(fs, "discount") {
                None => None,
                Some(x) => match decode_money(x) {
                    Some(v) => Some(v),
                    None => { return None; },
                },
            };
            Some(Breakdown {
                item_total: f_item_total,
                shipping: f_shipping,
                handling: f_handling,
                tax_total: f_tax_total,
                insurance: f_insurance,
                shipping_discount: f_shipping_discount,
                discount: f_discount,
            })
        },
        _ => None,
    }
}

#[verifier::rlimit(100)]
proof fn lemma_breakdown_fields_0(v: BreakdownV)
    ensures
        v.item_total is Some ==> jv_get(breakdown_jv(v)->Obj_0, "item_total"@) == Some(money_jv(v.item_total->Some_0)),
        v.item_total is None ==> jv_get(breakdown_jv(v)->Obj_0, "item_total"@) is None,
        v.shipping is Some ==> jv_get(breakdown_jv(v)->Obj_0, "shipping"@) == Some(money_jv(v.shipping->Some_0)),
        v.shipping is None ==> jv_get(breakdown_jv(v)->Obj_0, "shipping"@) is None,
        v.handling is Some ==> jv_get(breakdown_jv(v)->Obj_0, "handling"@) == Some(money_jv(v.handling->Some_0)),
        v.handling is None ==> jv_get(breakdown_jv(v)->Obj_0, "handling"@) is None,
        v.tax_total is Some ==> jv_get(breakdown_jv(v)->Obj_0, "tax_total"@) == Some(money_jv(v.tax_total->Some_0)),
        v.tax_total is None ==> jv_get(breakdown_jv(v)->Obj_0, "tax_total"@) is None,
{
    let fs = breakdown_jv(v)->Obj_0;
    reveal_strlit("item_total");
    assert("item_total"@ =~= seq!['i','t','e','m','_','t','o','t','a','l']);
    reveal_strlit("shipping");
    assert("shipping"@ =~= seq!['s','h','i','p','p','i','n','g']);
    reveal_strlit("handling");
    assert("handling"@ =~= seq!['h','a','n','d','l','i','n','g']);
    reveal_strlit("tax_total");
    assert("tax_total"@ =~= seq!['t','a','x','_','t','o','t','a','l']);
    reveal_strlit("insurance");
    assert("insurance"@ =~= seq!['i','n','s','u','r','a','n','c','e']);
    reveal_strlit("shipping_discount");
    assert("shipping_discount"@ =~= seq!['s','h','i','p','p','i','n','g','_','d','i','s','c','o','u','n','t']);
    reveal_strlit("discount");
    assert("discount"@ =~= seq!['d','i','s','c','o','u','n','t']);
    let e0 = opt_entry("item_total"@, v.item_total, |x: MoneyV| money_jv(x));
    let e1 = opt_entry("shipping"@, v.shipping, |x: MoneyV| money_jv(x));
    let e2 = opt_entry("handling"@, v.handling, |x: MoneyV| money_jv(x));
    let e3 = opt_entry("tax_total"@, v.tax_total, |x: MoneyV| money_jv(x));
    let e4 = opt_entry("insurance"@, v.insurance, |x: MoneyV| money_jv(x));
    let e5 = opt_entry("shipping_discount"@, v.shipping_discount, |x: MoneyV| money_jv(x));
    let e6 = opt_entry("discount"@, v.discount, |x: MoneyV| money_jv(x));
    let l0 = e0;
    let l1 = l0 + e1;
    let l2 = l1 + e2;
    let l3 = l2 + e3;
    let l4 = l3 + e4;
    let l5 = l4 + e5;
    let l6 = l5 + e6;
    let s6 = e6;
    let s5 = e5 + s6;
    let s4 = e4 + s5;
    let s3 = e3 + s4;
    let s2 = e2 + s3;
    let s1 = e1 + s2;
    let s0 = e0 + s1;
    assert(fs == l6);
    lemma_concat_associative(l4, e5, s6);
    lemma_concat_associative(l3, e4, s5);
    lemma_concat_associative(l2, e3, s4);
    lemma_concat_associative(l1, e2, s3);
    lemma_concat_associative(l0, e1, s2);
    assert(fs == s0);
    if v.item_total is Some {
        lemma_jv_get_head(s0, "item_total"@);
    } else {
        lemma_jv_get_skip(e0, s1, "item_total"@);
        lemma_jv_get_skip(e1, s2, "item_total"@);
        lemma_jv_get_skip(e2, s3, "item_total"@);
        lemma_jv_get_skip(e3, s4, "item_total"@);
        lemma_jv_get_skip(e4, s5, "item_total"@);
        lemma_jv_get_skip(e5, s6, "item_total"@);
        lemma_jv_get_absent(s6, "item_total"@);
    }
    if v.shipping is Some {
        lemma_jv_get_skip(e0, s1, "shipping"@);
        lemma_jv_get_head(s1, "shipping"@);
    } else {
        lemma_jv_get_skip(e0, s1, "shipping"@);
        lemma_jv_get_skip(e1, s2, "shipping"@);
        lemma_jv_get_skip(e2, s3, "shipping"@);
        lemma_jv_get_skip(e3, s4, "shipping"@);
        lemma_jv_get_skip(e4, s5, "shipping"@);
        lemma_jv_get_skip(e5, s6, "shipping"@);
        lemma_jv_get_absent(s6, "shipping"@);
    }
    if v.handling is Some {
        lemma_jv_get_skip(e0, s1, "handling"@);
        lemma_jv_get_skip(e1, s2, "handling"@);
        lemma_jv_get_head(s2, "handling"@);
    } else {
        lemma_jv_get_skip(e0, s1, "handling"@);
        lemma_jv_get_skip(e1, s2, "handling"@);
        lemma_jv_get_skip(e2, s3, "handling"@);
        lemma_jv_get_skip(e3, s4, "handling"@);
        lemma_jv_get_skip(e4, s5, "handling"@);
        lemma_jv_get_skip(e5, s6, "handling"@);
        lemma_jv_get_absent(s6, "handling"@);
    }
    if v.tax_total is Some {
        lemma_jv_get_skip(e0, s1, "tax_total"@);
        lemma_jv_get_skip(e1, s2, "tax_total"@);
        lemma_jv_get_skip(e2, s3, "tax_total"@);
        lemma_jv_get_head(s3, "tax_total"@);
    } else {
        lemma_jv_get_skip(e0, s1, "tax_total"@);
        lemma_jv_get_skip(e1, s2, "tax_total"@);
        lemma_jv_get_skip(e2, s3, "tax_total"@);
        lemma_jv_get_skip(e3, s4, "tax_total"@);
        lemma_jv_get_skip(e4, s5, "tax_total"@);
        lemma_jv_get_skip(e5, s6, "tax_total"@);
        lemma_jv_get_absent(s6, "tax_total"@);
    }
}

#[verifier::rlimit(100)]
proof fn lemma_breakdown_fields_1(v: BreakdownV)
    ensures
        v.insurance is Some ==> jv_get(breakdown_jv(v)->Obj_0, "insurance"@) == Some(money_jv(v.insurance->Some_0)),
        v.insurance is None ==> jv_get(breakdown_jv(v)->Obj_0, "insurance"@) is None,
        v.shipping_discount is Some ==> jv_get(breakdown_jv(v)->Obj_0, "shipping_discount"@) == Some(money_jv(v.shipping_discount->Some_0)),
        v.shipping_discount is None ==> jv_get(breakdown_jv(v)->Obj_0, "shipping_discount"@) is None,
        v.discount is Some ==> jv_get(breakdown_jv(v)->Obj_0, "discount"@) == Some(money_jv(v.discount->Some_0)),
        v.discount is None ==> jv_get(breakdown_jv(v)->Obj_0, "discount"@) is None,
{
    let fs = breakdown_jv(v)->Obj_0;
    reveal_strlit("item_total");
    assert("item_total"@ =~= seq!['i','t','e','m','_','t','o','t','a','l']);
    reveal_strlit("shipping");
    assert("shipping"@ =~= seq!['s','h','i','p','p','i','n','g']);
    reveal_strlit("handling");
    assert("handling"@ =~= seq!['h','a','n','d','l','i','n','g']);
    reveal_strlit("tax_total");
    assert("tax_total"@ =~= seq!['t','a','x','_','t','o','t','a','l']);
    reveal_strlit("insurance");
    assert("insurance"@ =~= seq!['i','n','s','u','r','a','n','c','e']);
    reveal_strlit("shipping_discount");
    assert("shipping_discount"@ =~= seq!['s','h','i','p','p','i','n','g','_','d','i','s','c','o','u','n','t']);
    reveal_strlit("discount");
    assert("discount"@ =~= seq!['d','i','s','c','o','u','n','t']);
    let e0 = opt_entry("item_total"@, v.item_total, |x: MoneyV| money_jv(x));
    let e1 = opt_entry("shipping"@, v.shipping, |x: MoneyV| money_jv(x));
    let e2 = opt_entry("handling"@, v.handling, |x: MoneyV| money_jv(x));
    let e3 = opt_entry("tax_total"@, v.tax_total, |x: MoneyV| money_jv(x));
    let e4 = opt_entry("insurance"@, v.insurance, |x: MoneyV| money_jv(x));
    let e5 = opt_entry("shipping_discount"@, v.shipping_discount, |x: MoneyV| money_jv(x));
    let e6 = opt_entry("discount"@, v.discount, |x: MoneyV| money_jv(x));
    let l0 = e0;
    let l1 = l0 + e1;
    let l2 = l1 + e2;
    let l3 = l2 + e3;
    let l4 = l3 + e4;
    let l5 = l4 + e5;
    let l6 = l5 + e6;
    let s6 = e6;
    let s5 = e5 + s6;
    let s4 = e4 + s5;
    let s3 = e3 + s4;
    let s2 = e2 + s3;
    let s1 = e1 + s2;
    let s0 = e0 + s1;
    assert(fs == l6);
    lemma_concat_associative(l4, e5, s6);
    lemma_concat_associative(l3, e4, s5);
    lemma_concat_associative(l2, e3, s4);
    lemma_concat_associative(l1, e2, s3);
    lemma_concat_associative(l0, e1, s2);
    assert(fs == s0);
    if v.insurance is Some {
        lemma_jv_get_skip(e0, s1, "insurance"@);
        lemma_jv_get_skip(e1, s2, "insurance"@);
        lemma_jv_get_skip(e2, s3, "insurance"@);
        lemma_jv_get_skip(e3, s4, "insurance"@);
        lemma_jv_get_head(s4, "insurance"@);
    } else {
        lemma_jv_get_skip(e0, s1, "insurance"@);
        lemma_jv_get_skip(e1, s2, "insurance"@);
        lemma_jv_get_skip(e2, s3, "insurance"@);
        lemma_jv_get_skip(e3, s4, "insurance"@);
        lemma_jv_get_skip(e4, s5, "insurance"@);
        lemma_jv_get_skip(e5, s6, "insurance"@);
        lemma_jv_get_absent(s6, "insurance"@);
    }
    if v.shipping_discount is Some {
        lemma_jv_get_skip(e0, s1, "shipping_discount"@);
        lemma_jv_get_skip(e1, s2, "shipping_discount"@);
        lemma_jv_get_skip(e2, s3, "shipping_discount"@);
        lemma_jv_get_skip(e3, s4, "shipping_discount"@);
        lemma_jv_get_skip(e4, s5, "shipping_discount"@);
        lemma_jv_get_head(s5, "shipping_discount"@);
    } else {
        lemma_jv_get_skip(e0, s1, "shipping_discount"@);
        lemma_jv_get_skip(e1, s2, "shipping_discount"@);
        lemma_jv_get_skip(e2, s3, "shipping_discount"@);
        lemma_jv_get_skip(e3, s4, "shipping_discount"@);
        lemma_jv_get_skip(e4, s5, "shipping_discount"@);
        lemma_jv_get_skip(e5, s6, "shipping_discount"@);
        lemma_jv_get_absent(s6, "shipping_discount"@);
    }
    if v.discount is Some {
        lemma_jv_get_skip(e0, s1, "discount"@);
        lemma_jv_get_skip(e1, s2, "discount"@);
        lemma_jv_get_skip(e2, s3, "discount"@);
        lemma_jv_get_skip(e3, s4, "discount"@);
        lemma_jv_get_skip(e4, s5, "discount"@);
        lemma_jv_get_skip(e5, s6, "discount"@);
        lemma_jv_get_head(s6, "discount"@);
    } else {
        lemma_jv_get_skip(e0, s1, "discount"@);
        lemma_jv_get_skip(e1, s2, "discount"@);
        lemma_jv_get_skip(e2, s3, "discount"@);
        lemma_jv_get_skip(e3, s4, "discount"@);
        lemma_jv_get_skip(e4, s5, "discount"@);
        lemma_jv_get_skip(e5, s6, "discount"@);
        lemma_jv_get_absent(s6, "discount"@);
    }
}

/// A record of this type decodes back to itself after encoding.
#[verifier::rlimit(100)]
pub proof fn lemma_breakdown_round_trip(v: BreakdownV)
    ensures
        breakdown_of_jv(breakdown_jv(v)) == Some(v),
{
    lemma_breakdown_fields_0(v);
    lemma_breakdown_fields_1(v);
    if v.item_total is Some {
        lemma_money_round_trip(v.item_total->Some_0);
    }
    if v.shipping is Some {
        lemma_money_round_trip(v.shipping->Some_0);
    }
    if v.handling is Some {
        lemma_money_round_trip(v.handling->Some_0);
    }
    if v.tax_total is Some {
        lemma_money_round_trip(v.tax_total->Some_0);
    }
    if v.insurance is Some {
        lemma_money_round_trip(v.insurance->Some_0);
    }
    if v.shipping_discount is Some {
        lemma_money_round_trip(v.shipping_discount->Some_0);
    }
    if v.discount is Some {
        lemma_money_round_trip(v.discount->Some_0);
    }
}

/// The total order amount, as a currency code and a decimal string, with an optional breakdown.
#[derive(Debug, Clone, PartialEq, Eq)]
pub struct Amount {
    pub currency_code: Currency,
    pub value: String,
    pub breakdown: Option<Breakdown>,
}

/// The shape of a [`Amount`].
pub struct AmountV {
    pub currency_code: Currency,
    pub value: Seq<char>,
    pub breakdown: Option<BreakdownV>,
}

impl DeepView for Amount {
    type V = AmountV;

    open spec fn deep_view(&self) -> AmountV {
        AmountV {
            currency_code: self.currency_code.deep_view(),
            value: self.value.deep_view(),
            breakdown: self.breakdown.deep_view(),
        }
    }
}

pub open spec fn amount_jv(v: AmountV) -> Jv {
    Jv::Obj(
        entry("currency_code"@, currency_jv(v.currency_code))
        + entry("value"@, Jv::Str(v.value))
        + opt_entry("breakdown"@, v.breakdown, |x: BreakdownV| breakdown_jv(x))
    )
}

pub open spec fn amount_of_jv(j: Jv) -> Option<AmountV> {
    match j {
        Jv::Obj(fs) => {
            let f_currency_code = req_field(fs, "currency_code"@, |x: Jv| currency_of_jv(x));
            let f_value = req_str(fs, "value"@);
            let f_breakdown = opt_field(fs, "breakdown"@, |x: Jv| breakdown_of_jv(x));
            if f_currency_code is Some && f_value is Some && f_breakdown is Some {
                Some(AmountV {
                    currency_code: f_currency_code->Some_0,
                    value: f_value->Some_0,
                    breakdown: f_breakdown->Some_0,
                })
            } else {
                None
            }
        },
        _ => None,
    }
}

pub fn encode_amount(x: &Amount) -> (j: Json)
    ensures
        j@ == amount_jv(x.deep_view()),
{
    let mut fs: Vec<(String, Json)> = Vec::new();
    push_field(&mut fs, "currency_code", encode_currency(&x.currency_code));
    push_field(&mut fs, "value", Json::Str(x.value.clone()));
    match &x.breakdown {
        Some(v) => { push_field(&mut fs, "breakdown", encode_breakdown(v)); },
        None => {},
    }
    let r = Json::Obj(fs);
    proof {
        assert(r@->Obj_0 =~= amount_jv(x.deep_view())->Obj_0);
        assert(r@ == amount_jv(x.deep_view()));
    }
    r
}

pub fn decode_amount(j: &Json) -> (r: Option<Amount>)
    ensures
        r matches Some(x) ==> amount_of_jv(j@) == Some(x.deep_view()),
        r is None ==> amount_of_jv(j@) is None,
{
    match j {
        Json::Obj(fs) => {
            proof {
                assert(j@->Obj_0 =~= obj_view(fs@));
            }
            let f_currency_code = match get_field(fs, "currency_code") {
                Some(x) => match decode_currency(x) {
                    Some(v) => v,
                    None => { return None; },
                },
                None => { return None; },
            };
            let f_value = match get_str(fs, "value") {
                Some(s) => s,
                None => { return None; },
            };
            let f_breakdown = match get_field(fs, "breakdown") {
                None => None,
                Some(x) => match decode_breakdown(x) {
                    Some(v) => Some(v),
                    None => { return None; },
                },
            };
            Some(Amount {
                currency_code: f_currency_code,
                value: f_value,
                breakdown: f_breakdown,
            })
        },
        _ => None,
    }
}

/// A record of this type decodes back to itself after encoding.
#[verifier::rlimit(100)]
pub proof fn lemma_amount_round_trip(v: AmountV)
    ensures
        amount_of_jv(amount_jv(v)) == Some(v),
{
    let fs = amount_jv(v)->Obj_0;
    reveal_strlit("currency_code");
    assert("currency_code"@ =~= seq!['c','u','r','r','e','n','c','y','_','c','o','d','e']);
    reveal_strlit("value");
    assert("value"@ =~= seq!['v','a','l','u','e']);
    reveal_strlit("breakdown");
    assert("breakdown"@ =~= seq!['b','r','e','a','k','d','o','w','n']);
    lemma_jv_get_found(fs, "currency_code"@, 0int);
    lemma_jv_get_found(fs, "value"@, 1int);
    if v.breakdown is Some {
        lemma_jv_get_found(fs, "breakdown"@, 1int + 1int);
    } else {
        lemma_jv_get_absent(fs, "breakdown"@);
    }
    lemma_currency_tokens(v.currency_code, Seq::empty());
    if v.breakdown is Some {
        lemma_breakdown_round_trip(v.breakdown->Some_0);
    }
}

/// The merchant who receives payment for this transaction.
#[derive(Debug, Clone, PartialEq, Eq)]
pub struct Payee {
    pub email_address: Option<String>,
    pub merchant_id: Option<String>,
}

/// The shape of a [`Payee`].
pub struct PayeeV {
    pub email_address: Option<Seq<char>>,
    pub merchant_id: Option<Seq<char>>,
}

impl DeepView for Payee {
    type V = PayeeV;

    open spec fn deep_view(&self) -> PayeeV {
        PayeeV {
            email_address: self.email_address.deep_view(),
            merchant_id: self.merchant_id.deep_view(),
        }
    }
}

pub open spec fn payee_jv(v: PayeeV) -> Jv {
    Jv::Obj(
        opt_str_entry("email_address"@, v.email_address)
        + opt_str_entry("merchant_id"@, v.merchant_id)
    )
}

pub open spec fn payee_of_jv(j: Jv) -> Option<PayeeV> {
    match j {
        Jv::Obj(fs) => {
            let f_email_address = opt_str(fs, "email_address"@);
            let f_merchant_id = opt_str(fs, "merchant_id"@);
            if f_email_address is Some && f_merchant_id is Some {
                Some(PayeeV {
                    email_address: f_email_address->Some_0,
                    merchant_id: f_merchant_id->Some_0,
                })
            } else {
                None
            }
        },
        _ => None,
    }
}

pub fn encode_payee(x: &Payee) -> (j: Json)
    ensures
        j@ == payee_jv(x.deep_view()),
{
    let mut fs: Vec<(String, Json)> = Vec::new();
    match &x.email_address {
        Some(v) => { push_field(&mut fs, "email_address", Json::Str(v.clone())); },
        None => {},
    }
    match &x.merchant_id {
        Some(v) => { push_field(&mut fs, "merchant_id", Json::Str(v.clone())); },
        None => {},
    }
    let r = Json::Obj(fs);
    proof {
        assert(r@->Obj_0 =~= payee_jv(x.deep_view())->Obj_0);
        assert(r@ == payee_jv(x.deep_view()));
    }
    r
}

pub fn decode_payee(j: &Json) -> (r: Option<Payee>)
    ensures
        r matches Some(x) ==> payee_of_jv(j@) == Some(x.deep_view()),
        r is None ==> payee_of_jv(j@) is None,
{
    match j {
        Json::Obj(fs) => {
            proof {
                assert(j@->Obj_0 =~= obj_view(fs@));
            }
            let f_email_address = match get_opt_str(fs, "email_address") {
                Some(v) => v,
                None => { return None; },
            };
            let f_merchant_id = match get_opt_str(fs, "merchant_id") {
                Some(v) => v,
                None => { return None; },
            };
            Some(Payee {
                email_address: f_email_address,
                merchant_id: f_merchant_id,
            })
        },
        _ => None,
    }
}

/// A record of this type decodes back to itself after encoding.
#[verifier::rlimit(100)]
pub proof fn lemma_payee_round_trip(v: PayeeV)
    ensures
        payee_of_jv(payee_jv(v)) == Some(v),
{
    let fs = payee_jv(v)->Obj_0;
    reveal_strlit("email_address");
    assert("email_address"@ =~= seq!['e','m','a','i','l','_','a','d','d','r','e','s','s']);
    reveal_strlit("merchant_id");
    assert("merchant_id"@ =~= seq!['m','e','r','c','h','a','n','t','_','i','d']);
    if v.email_address is Some {
        lemma_jv_get_found(fs, "email_address"@, 0int);
    } else {
        lemma_jv_get_absent(fs, "email_address"@);
    }
    if v.merchant_id is Some {
        lemma_jv_get_found(fs, "merchant_id"@, (if v.email_address is Some { 1int } else { 0int }));
    } else {
        lemma_jv_get_absent(fs, "merchant_id"@);
    }
}

/// A fee, commission, tip or donation collected on the platform.
#[derive(Debug, Clone, PartialEq, Eq)]
pub struct PlatformFee {
    pub amount: Money,
    pub payee: Option<Payee>,
}

/// The shape of a [`PlatformFee`].
pub struct PlatformFeeV {
    pub amount: MoneyV,
    pub payee: Option<PayeeV>,
}

impl DeepView for PlatformFee {
    type V = PlatformFeeV;

    open spec fn deep_view(&self) -> PlatformFeeV {
        PlatformFeeV {
            amount: self.amount.deep_view(),
            payee: self.payee.deep_view(),
        }
    }
}

pub open spec fn platform_fee_jv(v: PlatformFeeV) -> Jv {
    Jv::Obj(
        entry("amount"@, money_jv(v.amount))
        + opt_entry("payee"@, v.payee, |x: PayeeV| payee_jv(x))
    )
}

pub open spec fn platform_fee_of_jv(j: Jv) -> Option<PlatformFeeV> {
    match j {
        Jv::Obj(fs) => {
            let f_amount = req_field(fs, "amount"@, |x: Jv| money_of_jv(x));
            let f_payee = opt_field(fs, "payee"@, |x: Jv| payee_of_jv(x));
            if f_amount is Some && f_payee is Some {
                Some(PlatformFeeV {
                    amount: f_amount->Some_0,
                    payee: f_payee->Some_0,
                })
            } else {
                None
            }
        },
        _ => None,
    }
}

pub fn encode_platform_fee(x: &PlatformFee) -> (j: Json)
    ensures
        j@ == platform_fee_jv(x.deep_view()),
{
    let mut fs: Vec<(String, Json)> = Vec::new();
    push_field(&mut fs, "amount", encode_money(&x.amount));
    match &x.payee {
        Some(v) => { push_field(&mut fs, "payee", encode_payee(v)); },
        None => {},
    }
    let r = Json::Obj(fs);
    proof {
        assert(r@->Obj_0 =~= platform_fee_jv(x.deep_view())->Obj_0);
        assert(r@ == platform_fee_jv(x.deep_view()));
    }
    r
}

pub fn decode_platform_fee(j: &Json) -> (r: Option<PlatformFee>)
    ensures
        r matches Some(x) ==> platform_fee_of_jv(j@) == Some(x.deep_view()),
        r is None ==> platform_fee_of_jv(j@) is None,
{
    match j {
        Json::Obj(fs) => {
            proof {
                assert(j@->Obj_0 =~= obj_view(fs@));
            }
            let f_amount = match get_field(fs, "amount") {
                Some(x) => match decode_money(x) {
                    Some(v) => v,
                    None => { return None; },
                },
                None => { return None; },
            };
            let f_payee = match get_field(fs, "payee") {
                None => None,
                Some(x) => match decode_payee(x) {
                    Some(v) => Some(v),
                    None => { return None; },
                },
            };
            Some(PlatformFee {
                amount: f_amount,
                payee: f_payee,
            })
        },
        _ => None,
    }
}

/// A record of this type decodes back to itself after encoding.
#[verifier::rlimit(100)]
pub proof fn lemma_platform_fee_round_trip(v: PlatformFeeV)
    ensures
        platform_fee_of_jv(platform_fee_jv(v)) == Some(v),
{
    let fs = platform_fee_jv(v)->Obj_0;
    reveal_strlit("amount");
    assert("amount"@ =~= seq!['a','m','o','u','n','t']);
    reveal_strlit("payee");
    assert("payee"@ =~= seq!['p','a','y','e','e']);
    lemma_jv_get_found(fs, "amount"@, 0int);
    if v.payee is Some {
        lemma_jv_get_found(fs, "payee"@, 1int);
    } else {
        lemma_jv_get_absent(fs, "payee"@);
    }
    lemma_money_round_trip(v.amount);
    if v.payee is Some {
        lemma_payee_round_trip(v.payee->Some_0);
    }
}

/// The items of an encoded list of platform fees.
pub open spec fn platform_fee_list_jv(items: Seq<PlatformFeeV>) -> Seq<Jv> {
    Seq::new(items.len(), |i: int| platform_fee_jv(items[i]))
}

/// Whether every item of a JSON list decodes as one of platform fees.
pub open spec fn platform_fee_list_of_jv_ok(items: Seq<Jv>) -> bool {
    forall|i: int| 0 <= i < items.len() ==> (#[trigger] platform_fee_of_jv(items[i])) is Some
}

/// The items of a decoded list of platform fees: every item must decode.
pub open spec fn platform_fee_list_of_jv(items: Seq<Jv>) -> Option<Seq<PlatformFeeV>> {
    if platform_fee_list_of_jv_ok(items) {
        Some(Seq::new(items.len(), |i: int| platform_fee_of_jv(items[i])->Some_0))
    } else {
        None
    }
}

/// A decoded list node of platform fees.
pub open spec fn platform_fee_arr_of_jv(j: Jv) -> Option<Seq<PlatformFeeV>> {
    match j {
        Jv::Arr(items) => platform_fee_list_of_jv(items),
        _ => None,
    }
}

/// A list of platform fees decodes back to the items it was encoded from.
pub proof fn lemma_platform_fee_list_round_trip(items: Seq<PlatformFeeV>)
    ensures
        platform_fee_list_of_jv(platform_fee_list_jv(items)) == Some(items),
{
    let js = platform_fee_list_jv(items);
    assert forall|i: int| 0 <= i < js.len() implies platform_fee_of_jv(#[trigger] js[i]) == Some(
        items[i],
    ) by {
        lemma_platform_fee_round_trip(items[i]);
    }
    assert(Seq::new(js.len(), |i: int| platform_fee_of_jv(js[i])->Some_0) =~= items);
}

pub fn encode_platform_fee_vec(v: &Vec<PlatformFee>) -> (j: Json)
    ensures
        j@ == Jv::Arr(platform_fee_list_jv(v.deep_view())),
{
    let mut items: Vec<Json> = Vec::new();
    let mut i: usize = 0;
    while i < v.len()
        invariant
            i <= v.len(),
            items@.len() == i as nat,
            forall|k: int| 0 <= k < i ==> (#[trigger] items@[k]@) == platform_fee_jv(v.deep_view()[k]),
        decreases v.len() - i,
    {
        items.push(encode_platform_fee(&v[i]));
        i += 1;
    }
    let r = Json::Arr(items);
    proof {
        assert(r@->Arr_0.len() == v.deep_view().len());
        assert forall|k: int| 0 <= k < v.deep_view().len() implies r@->Arr_0[k] == platform_fee_jv(
            v.deep_view()[k],
        ) by {
            assert(items@[k]@ == platform_fee_jv(v.deep_view()[k]));
        }
        assert(r@->Arr_0 =~= platform_fee_list_jv(v.deep_view()));
    }
    r
}

pub fn decode_platform_fee_vec(items: &Vec<Json>) -> (r: Option<Vec<PlatformFee>>)
    ensures
        r matches Some(v) ==> platform_fee_list_of_jv(arr_view(items@)) == Some(v.deep_view()),
        r is None ==> platform_fee_list_of_jv(arr_view(items@)) is None,
{
    let ghost av = arr_view(items@);
    let mut out: Vec<PlatformFee> = Vec::new();
    let mut i: usize = 0;
    while i < items.len()
        invariant
            i <= items.len(),
            out@.len() == i as nat,
            av == arr_view(items@),
            forall|k: int| 0 <= k < i ==> (#[trigger] platform_fee_of_jv(av[k])) == Some(
                out.deep_view()[k],
            ),
        decreases items.len() - i,
    {
        match decode_platform_fee(&items[i]) {
            Some(x) => { out.push(x); },
            None => {
                proof {
                    assert(platform_fee_of_jv(av[i as int]) is None);
                }
                return None;
            },
        }
        i += 1;
    }
    proof {
        assert forall|k: int| 0 <= k < av.len() implies (#[trigger] platform_fee_of_jv(av[k])) is Some by {
        }
        assert(Seq::new(av.len(), |k: int| platform_fee_of_jv(av[k])->Some_0) =~= out.deep_view());
    }
    Some(out)
}


/// Additional payment instructions for the transaction.
#[derive(Debug, Clone, PartialEq, Eq)]
pub struct PaymentInstruction {
    pub platform_fees: Option<Vec<PlatformFee>>,
    pub disbursement_mode: Option<DisbursementMode>,
}

/// The shape of a [`PaymentInstruction`].
pub struct PaymentInstructionV {
    pub platform_fees: Option<Seq<PlatformFeeV>>,
    pub disbursement_mode: Option<DisbursementMode>,
}

impl DeepView for PaymentInstruction {
    type V = PaymentInstructionV;

    open spec fn deep_view(&self) -> PaymentInstructionV {
        PaymentInstructionV {
            platform_fees: self.platform_fees.deep_view(),
            disbursement_mode: self.disbursement_mode.deep_view(),
        }
    }
}

pub open spec fn payment_instruction_jv(v: PaymentInstructionV) -> Jv {
    Jv::Obj(
        opt_entry("platform_fees"@, v.platform_fees, |x: Seq<PlatformFeeV>| Jv::Arr(platform_fee_list_jv(x)))
        + opt_entry("disbursement_mode"@, v.disbursement_mode, |x: DisbursementMode| disbursement_mode_jv(x))
    )
}

pub open spec fn payment_instruction_of_jv(j: Jv) -> Option<PaymentInstructionV> {
    match j {
        Jv::Obj(fs) => {
            let f_platform_fees = opt_field(fs, "platform_fees"@, |x: Jv| platform_fee_arr_of_jv(x));
            let f_disbursement_mode = opt_field(fs, "disbursement_mode"@, |x: Jv| disbursement_mode_of_jv(x));
            if f_platform_fees is Some && f_disbursement_mode is Some {
                Some(PaymentInstructionV {
                    platform_fees: f_platform_fees->Some_0,
                    disbursement_mode: f_disbursement_mode->Some_0,
                })
            } else {
                None
            }
        },
        _ => None,
    }
}

pub fn encode_payment_instruction(x: &PaymentInstruction) -> (j: Json)
    ensures
        j@ == payment_instruction_jv(x.deep_view()),
{
    let mut fs: Vec<(String, Json)> = Vec::new();
    match &x.platform_fees {
        Some(v) => { push_field(&mut fs, "platform_fees", encode_platform_fee_vec(v)); },
        None => {},
    }
    match &x.disbursement_mode {
        Some(v) => { push_field(&mut fs, "disbursement_mode", encode_disbursement_mode(v)); },
        None => {},
    }
    let r = Json::Obj(fs);
    proof {
        assert(r@->Obj_0 =~= payment_instruction_jv(x.deep_view())->Obj_0);
        assert(r@ == payment_instruction_jv(x.deep_view()));
    }
    r
}

pub fn decode_payment_instruction(j: &Json) -> (r: Option<PaymentInstruction>)
    ensures
        r matches Some(x) ==> payment_instruction_of_jv(j@) == Some(x.deep_view()),
        r is None ==> payment_instruction_of_jv(j@) is None,
{
    match j {
        Json::Obj(fs) => {
            proof {
                assert(j@->Obj_0 =~= obj_view(fs@));
            }
            let f_platform_fees = match get_field(fs, "platform_fees") {
                None => None,
                Some(x) => match x {
                    Json::Arr(items) => {
                        proof { assert(x@->Arr_0 =~= arr_view(items@)); }
                        match decode_platform_fee_vec(items) {
                            Some(v) => Some(v),
                            None => { return None; },
                        }
                    },
                    _ => { return None; },
                },
            };
            let f_disbursement_mode = match get_field(fs, "disbursement_mode") {
                None => None,
                Some(x) => match decode_disbursement_mode(x) {
                    Some(v) => Some(v),
                    None => { return None; },
                },
            };
            Some(PaymentInstruction {
                platform_fees: f_platform_fees,
                disbursement_mode: f_disbursement_mode,
            })
        },
        _ => None,
    }
}

/// A record of this type decodes back to itself after encoding.
#[verifier::rlimit(100)]
pub proof fn lemma_payment_instruction_round_trip(v: PaymentInstructionV)
    ensures
        payment_instruction_of_jv(payment_instruction_jv(v)) == Some(v),
{
    let fs = payment_instruction_jv(v)->Obj_0;
    reveal_strlit("platform_fees");
    assert("platform_fees"@ =~= seq!['p','l','a','t','f','o','r','m','_','f','e','e','s']);
    reveal_strlit("disbursement_mode");
    assert("disbursement_mode"@ =~= seq!['d','i','s','b','u','r','s','e','m','e','n','t','_','m','o','d','e']);
    if v.platform_fees is Some {
        lemma_jv_get_found(fs, "platform_fees"@, 0int);
    } else {
        lemma_jv_get_absent(fs, "platform_fees"@);
    }
    if v.disbursement_mode is Some {
        lemma_jv_get_found(fs, "disbursement_mode"@, (if v.platform_fees is Some { 1int } else { 0int }));
    } else {
        lemma_jv_get_absent(fs, "disbursement_mode"@);
    }
    if v.platform_fees is Some {
        lemma_platform_fee_list_round_trip(v.platform_fees->Some_0);
    }
    if v.disbursement_mode is Some {
        lemma_disbursement_mode_tokens(v.disbursement_mode->Some_0, Seq::empty());
    }
}

/// The name and address of the person to whom to ship the items.
#[derive(Debug, Clone, PartialEq, Eq)]
pub struct ShippingDetail {
    pub name: Option<String>,
    pub address: Option<Address>,
}

/// The shape of a [`ShippingDetail`].
pub struct ShippingDetailV {
    pub name: Option<Seq<char>>,
    pub address: Option<AddressV>,
}

impl DeepView for ShippingDetail {
    type V = ShippingDetailV;

    open spec fn deep_view(&self) -> ShippingDetailV {
        ShippingDetailV {
            name: self.name.deep_view(),
            address: self.address.deep_view(),
        }
    }
}

pub open spec fn shipping_detail_jv(v: ShippingDetailV) -> Jv {
    Jv::Obj(
        opt_str_entry("name"@, v.name)
        + opt_entry("address"@, v.address, |x: AddressV| address_jv(x))
    )
}

pub open spec fn shipping_detail_of_jv(j: Jv) -> Option<ShippingDetailV> {
    match j {
        Jv::Obj(fs) => {
            let f_name = opt_str(fs, "name"@);
            let f_address = opt_field(fs, "address"@, |x: Jv| address_of_jv(x));
            if f_name is Some && f_address is Some {
                Some(ShippingDetailV {
                    name: f_name->Some_0,
                    address: f_address->Some_0,
                })
            } else {
                None
            }
        },
        _ => None,
    }
}

pub fn encode_shipping_detail(x: &ShippingDetail) -> (j: Json)
    ensures
        j@ == shipping_detail_jv(x.deep_view()),
{
    let mut fs: Vec<(String, Json)> = Vec::new();
    match &x.name {
        Some(v) => { push_field(&mut fs, "name", Json::Str(v.clone())); },
        None => {},
    }
    match &x.address {
        Some(v) => { push_field(&mut fs, "address", encode_address(v)); },
        None => {},
    }
    let r = Json::Obj(fs);
    proof {
        assert(r@->Obj_0 =~= shipping_detail_jv(x.deep_view())->Obj_0);
        assert(r@ == shipping_detail_jv(x.deep_view()));
    }
    r
}

pub fn decode_shipping_detail(j: &Json) -> (r: Option<ShippingDetail>)
    ensures
        r matches Some(x) ==> shipping_detail_of_jv(j@) == Some(x.deep_view()),
        r is None ==> shipping_detail_of_jv(j@) is None,
{
    match j {
        Json::Obj(fs) => {
            proof {
                assert(j@->Obj_0 =~= obj_view(fs@));
            }
            let f_name = match get_opt_str(fs, "name") {
                Some(v) => v,
                None => { return None; },
            };
            let f_address = match get_field(fs, "address") {
                None => None,
                Some(x) => match decode_address(x) {
                    Some(v) => Some(v),
                    None => { return None; },
                },
            };
            Some(ShippingDetail {
                name: f_name,
                address: f_address,
            })
        },
        _ => None,
    }
}

/// A record of this type decodes back to itself after encoding.
#[verifier::rlimit(100)]
pub proof fn lemma_shipping_detail_round_trip(v: ShippingDetailV)
    ensures
        shipping_detail_of_jv(shipping_detail_jv(v)) == Some(v),
{
    let fs = shipping_detail_jv(v)->Obj_0;
    reveal_strlit("name");
    assert("name"@ =~= seq!['n','a','m','e']);
    reveal_strlit("address");
    assert("address"@ =~= seq!['a','d','d','r','e','s','s']);
    if v.name is Some {
        lemma_jv_get_found(fs, "name"@, 0int);
    } else {
        lemma_jv_get_absent(fs, "name"@);
    }
    if v.address is Some {
        lemma_jv_get_found(fs, "address"@, (if v.name is Some { 1int } else { 0int }));
    } else {
        lemma_jv_get_absent(fs, "address"@);
    }
    if v.address is Some {
        lemma_address_round_trip(v.address->Some_0);
    }
}

/// An item the customer purchases from the merchant.
#[derive(Debug, Clone, PartialEq, Eq)]
pub struct Item {
    pub name: String,
    pub unit_amount: Money,
    pub tax: Option<Money>,
    pub quantity: String,
    pub description: Option<String>,
    pub sku: Option<String>,
    pub category: Option<ItemCategoryType>,
}

/// The shape of a [`Item`].
pub struct ItemV {
    pub name: Seq<char>,
    pub unit_amount: MoneyV,
    pub tax: Option<MoneyV>,
    pub quantity: Seq<char>,
    pub description: Option<Seq<char>>,
    pub sku: Option<Seq<char>>,
    pub category: Option<ItemCategoryType>,
}

impl DeepView for Item {
    type V = ItemV;

    open spec fn deep_view(&self) -> ItemV {
        ItemV {
            name: self.name.deep_view(),
            unit_amount: self.unit_amount.deep_view(),
            tax: self.tax.deep_view(),
            quantity: self.quantity.deep_view(),
            description: self.description.deep_view(),
            sku: self.sku.deep_view(),
            category: self.category.deep_view(),
        }
    }
}

pub open spec fn item_jv(v: ItemV) -> Jv {
    Jv::Obj(
        entry("name"@, Jv::Str(v.name))
        + entry("unit_amount"@, money_jv(v.unit_amount))
        + opt_entry("tax"@, v.tax, |x: MoneyV| money_jv(x))
        + entry("quantity"@, Jv::Str(v.quantity))
        + opt_str_entry("description"@, v.description)
        + opt_str_entry("sku"@, v.sku)
        + opt_entry("category"@, v.category, |x: ItemCategoryType| item_category_jv(x))
    )
}

pub open spec fn item_of_jv(j: Jv) -> Option<ItemV> {
    match j {
        Jv::Obj(fs) => {
            let f_name = req_str(fs, "name"@);
            let f_unit_amount = req_field(fs, "unit_amount"@, |x: Jv| money_of_jv(x));
            let f_tax = opt_field(fs, "tax"@, |x: Jv| money_of_jv(x));
            let f_quantity = req_str(fs, "quantity"@);
            let f_description = opt_str(fs, "description"@);
            let f_sku = opt_str(fs, "sku"@);
            let f_category = opt_field(fs, "category"@, |x: Jv| item_category_of_jv(x));
            if f_name is Some && f_unit_amount is Some && f_tax is Some && f_quantity is Some && f_description is Some && f_sku is Some && f_category is Some {
                Some(ItemV {
                    name: f_name->Some_0,
                    unit_amount: f_unit_amount->Some_0,
                    tax: f_tax->Some_0,
                    quantity: f_quantity->Some_0,
                    description: f_description->Some_0,
                    sku: f_sku->Some_0,
                    category: f_category->Some_0,
                })
            } else {
                None
            }
        },
        _ => None,
    }
}

#[verifier::rlimit(100)]
pub fn encode_item(x: &Item) -> (j: Json)
    ensures
        j@ == item_jv(x.deep_view()),
{
    let mut fs: Vec<(String, Json)> = Vec::new();
    push_field(&mut fs, "name", Json::Str(x.name.clone()));
    push_field(&mut fs, "unit_amount", encode_money(&x.unit_amount));
    match &x.tax {
        Some(v) => { push_field(&mut fs, "tax", encode_money(v)); },
        None => {},
    }
    push_field(&mut fs, "quantity", Json::Str(x.quantity.clone()));
    match &x.description {
        Some(v) => { push_field(&mut fs, "description", Json::Str(v.clone())); },
        None => {},
    }
    match &x.sku {
        Some(v) => { push_field(&mut fs, "sku", Json::Str(v.clone())); },
        None => {},
    }
    match &x.category {
        Some(v) => { push_field(&mut fs, "category", encode_item_category(v)); },
        None => {},
    }
    let r = Json::Obj(fs);
    proof {
        assert(r@->Obj_0 =~= item_jv(x.deep_view())->Obj_0);
        assert(r@ == item_jv(x.deep_view()));
    }
    r
}

#[verifier::rlimit(100)]
pub fn decode_item(j: &Json) -> (r: Option<Item>)
    ensures
        r matches Some(x) ==> item_of_jv(j@) == Some(x.deep_view()),
        r is None ==> item_of_jv(j@) is None,
{
    match j {
        Json::Obj(fs) => {
            proof {
                assert(j@->Obj_0 =~= obj_view(fs@));
            }
            let f_name = match get_str(fs, "name") {
                Some(s) => s,
                None => { return None; },
            };
            let f_unit_amount = match get_field(fs, "unit_amount") {
                Some(x) => match decode_money(x) {
                    Some(v) => v,
                    None => { return None; },
                },
                None => { return None; },
            };
            let f_tax = match get_field(fs, "tax") {
                None => None,
                Some(x) => match decode_money(x) {
                    Some(v) => Some(v),
                    None => { return None; },
                },
            };
            let f_quantity = match get_str(fs, "quantity") {
                Some(s) => s,
                None => { return None; },
            };
            let f_description = match get_opt_str(fs, "description") {
                Some(v) => v,
                None => { return None; },
            };
            let f_sku = match get_opt_str(fs, "sku") {
                Some(v) => v,
                None => { return None; },
            };
            let f_category = match get_field(fs, "category") {
                None => None,
                Some(x) => match decode_item_category(x) {
                    Some(v) => Some(v),
                    None => { return None; },
                },
            };
            Some(Item {
                name: f_name,
                unit_amount: f_unit_amount,
                tax: f_tax,
                quantity: f_quantity,
                description: f_description,
                sku: f_sku,
                category: f_category,
            })
        },
        _ => None,
    }
}

#[verifier::rlimit(100)]
proof fn lemma_item_fields_0(v: ItemV)
    ensures
        jv_get(item_jv(v)->Obj_0, "name"@) == Some(Jv::Str(v.name)),
        jv_get(item_jv(v)->Obj_0, "unit_amount"@) == Some(money_jv(v.unit_amount)),
        v.tax is Some ==> jv_get(item_jv(v)->Obj_0, "tax"@) == Some(money_jv(v.tax->Some_0)),
        v.tax is None ==> jv_get(item_jv(v)->Obj_0, "tax"@) is None,
        jv_get(item_jv(v)->Obj_0, "quantity"@) == Some(Jv::Str(v.quantity)),
{
    let fs = item_jv(v)->Obj_0;
    reveal_strlit("name");
    assert("name"@ =~= seq!['n','a','m','e']);
    reveal_strlit("unit_amount");
    assert("unit_amount"@ =~= seq!['u','n','i','t','_','a','m','o','u','n','t']);
    reveal_strlit("tax");
    assert("tax"@ =~= seq!['t','a','x']);
    reveal_strlit("quantity");
    assert("quantity"@ =~= seq!['q','u','a','n','t','i','t','y']);
    reveal_strlit("description");
    assert("description"@ =~= seq!['d','e','s','c','r','i','p','t','i','o','n']);
    reveal_strlit("sku");
    assert("sku"@ =~= seq!['s','k','u']);
    reveal_strlit("category");
    assert("category"@ =~= seq!['c','a','t','e','g','o','r','y']);
    let e0 = entry("name"@, Jv::Str(v.name));
    let e1 = entry("unit_amount"@, money_jv(v.unit_amount));
    let e2 = opt_entry("tax"@, v.tax, |x: MoneyV| money_jv(x));
    let e3 = entry("quantity"@, Jv::Str(v.quantity));
    let e4 = opt_str_entry("description"@, v.description);
    let e5 = opt_str_entry("sku"@, v.sku);
    let e6 = opt_entry("category"@, v.category, |x: ItemCategoryType| item_category_jv(x));
    let l0 = e0;
    let l1 = l0 + e1;
    let l2 = l1 + e2;
    let l3 = l2 + e3;
    let l4 = l3 + e4;
    let l5 = l4 + e5;
    let l6 = l5 + e6;
    let s6 = e6;
    let s5 = e5 + s6;
    let s4 = e4 + s5;
    let s3 = e3 + s4;
    let s2 = e2 + s3;
    let s1 = e1 + s2;
    let s0 = e0 + s1;
    assert(fs == l6);
    lemma_concat_associative(l4, e5, s6);
    lemma_concat_associative(l3, e4, s5);
    lemma_concat_associative(l2, e3, s4);
    lemma_concat_associative(l1, e2, s3);
    lemma_concat_associative(l0, e1, s2);
    assert(fs == s0);
    lemma_jv_get_head(s0, "name"@);
    lemma_jv_get_skip(e0, s1, "unit_amount"@);
    lemma_jv_get_head(s1, "unit_amount"@);
    if v.tax is Some {
        lemma_jv_get_skip(e0, s1, "tax"@);
        lemma_jv_get_skip(e1, s2, "tax"@);
        lemma_jv_get_head(s2, "tax"@);
    } else {
        lemma_jv_get_skip(e0, s1, "tax"@);
        lemma_jv_get_skip(e1, s2, "tax"@);
        lemma_jv_get_skip(e2, s3, "tax"@);
        lemma_jv_get_skip(e3, s4, "tax"@);
        lemma_jv_get_skip(e4, s5, "tax"@);
        lemma_jv_get_skip(e5, s6, "tax"@);
        lemma_jv_get_absent(s6, "tax"@);
    }
    lemma_jv_get_skip(e0, s1, "quantity"@);
    lemma_jv_get_skip(e1, s2, "quantity"@);
    lemma_jv_get_skip(e2, s3, "quantity"@);
    lemma_jv_get_head(s3, "quantity"@);
}

#[verifier::rlimit(100)]
proof fn lemma_item_fields_1(v: ItemV)
    ensures
        v.description is Some ==> jv_get(item_jv(v)->Obj_0, "description"@) == Some(Jv::Str(v.description->Some_0)),
        v.description is None ==> jv_get(item_jv(v)->Obj_0, "description"@) is None,
        v.sku is Some ==> jv_get(item_jv(v)->Obj_0, "sku"@) == Some(Jv::Str(v.sku->Some_0)),
        v.sku is None ==> jv_get(item_jv(v)->Obj_0, "sku"@) is None,
        v.category is Some ==> jv_get(item_jv(v)->Obj_0, "category"@) == Some(item_category_jv(v.category->Some_0)),
        v.category is None ==> jv_get(item_jv(v)->Obj_0, "category"@) is None,
{
    let fs = item_jv(v)->Obj_0;
    reveal_strlit("name");
    assert("name"@ =~= seq!['n','a','m','e']);
    reveal_strlit("unit_amount");
    assert("unit_amount"@ =~= seq!['u','n','i','t','_','a','m','o','u','n','t']);
    reveal_strlit("tax");
    assert("tax"@ =~= seq!['t','a','x']);
    reveal_strlit("quantity");
    assert("quantity"@ =~= seq!['q','u','a','n','t','i','t','y']);
    reveal_strlit("description");
    assert("description"@ =~= seq!['d','e','s','c','r','i','p','t','i','o','n']);
    reveal_strlit("sku");
    assert("sku"@ =~= seq!['s','k','u']);
    reveal_strlit("category");
    assert("category"@ =~= seq!['c','a','t','e','g','o','r','y']);
    let e0 = entry("name"@, Jv::Str(v.name));
    let e1 = entry("unit_amount"@, money_jv(v.unit_amount));
    let e2 = opt_entry("tax"@, v.tax, |x: MoneyV| money_jv(x));
    let e3 = entry("quantity"@, Jv::Str(v.quantity));
    let e4 = opt_str_entry("description"@, v.description);
    let e5 = opt_str_entry("sku"@, v.sku);
    let e6 = opt_entry("category"@, v.category, |x: ItemCategoryType| item_category_jv(x));
    let l0 = e0;
    let l1 = l0 + e1;
    let l2 = l1 + e2;
    let l3 = l2 + e3;
    let l4 = l3 + e4;
    let l5 = l4 + e5;
    let l6 = l5 + e6;
    let s6 = e6;
    let s5 = e5 + s6;
    let s4 = e4 + s5;
    let s3 = e3 + s4;
    let s2 = e2 + s3;
    let s1 = e1 + s2;
    let s0 = e0 + s1;
    assert(fs == l6);
    lemma_concat_associative(l4, e5, s6);
    lemma_concat_associative(l3, e4, s5);
    lemma_concat_associative(l2, e3, s4);
    lemma_concat_associative(l1, e2, s3);
    lemma_concat_associative(l0, e1, s2);
    assert(fs == s0);
    if v.description is Some {
        lemma_jv_get_skip(e0, s1, "description"@);
        lemma_jv_get_skip(e1, s2, "description"@);
        lemma_jv_get_skip(e2, s3, "description"@);
        lemma_jv_get_skip(e3, s4, "description"@);
        lemma_jv_get_head(s4, "description"@);
    } else {
        lemma_jv_get_skip(e0, s1, "description"@);
        lemma_jv_get_skip(e1, s2, "description"@);
        lemma_jv_get_skip(e2, s3, "description"@);
        lemma_jv_get_skip(e3, s4, "description"@);
        lemma_jv_get_skip(e4, s5, "description"@);
        lemma_jv_get_skip(e5, s6, "description"@);
        lemma_jv_get_absent(s6, "description"@);
    }
    if v.sku is Some {
        lemma_jv_get_skip(e0, s1, "sku"@);
        lemma_jv_get_skip(e1, s2, "sku"@);
        lemma_jv_get_skip(e2, s3, "sku"@);
        lemma_jv_get_skip(e3, s4, "sku"@);
        lemma_jv_get_skip(e4, s5, "sku"@);
        lemma_jv_get_head(s5, "sku"@);
    } else {
        lemma_jv_get_skip(e0, s1, "sku"@);
        lemma_jv_get_skip(e1, s2, "sku"@);
        lemma_jv_get_skip(e2, s3, "sku"@);
        lemma_jv_get_skip(e3, s4, "sku"@);
        lemma_jv_get_skip(e4, s5, "sku"@);
        lemma_jv_get_skip(e5, s6, "sku"@);
        lemma_jv_get_absent(s6, "sku"@);
    }
    if v.category is Some {
        lemma_jv_get_skip(e0, s1, "category"@);
        lemma_jv_get_skip(e1, s2, "category"@);
        lemma_jv_get_skip(e2, s3, "category"@);
        lemma_jv_get_skip(e3, s4, "category"@);
        lemma_jv_get_skip(e4, s5, "category"@);
        lemma_jv_get_skip(e5, s6, "category"@);
        lemma_jv_get_head(s6, "category"@);
    } else {
        lemma_jv_get_skip(e0, s1, "category"@);
        lemma_jv_get_skip(e1, s2, "category"@);
        lemma_jv_get_skip(e2, s3, "category"@);
        lemma_jv_get_skip(e3, s4, "category"@);
        lemma_jv_get_skip(e4, s5, "category"@);
        lemma_jv_get_skip(e5, s6, "category"@);
        lemma_jv_get_absent(s6, "category"@);
    }
}

/// A record of this type decodes back to itself after encoding.
#[verifier::rlimit(100)]
pub proof fn lemma_item_round_trip(v: ItemV)
    ensures
        item_of_jv(item_jv(v)) == Some(v),
{
    lemma_item_fields_0(v);
    lemma_item_fields_1(v);
    lemma_money_round_trip(v.unit_amount);
    if v.tax is Some {
        lemma_money_round_trip(v.tax->Some_0);
    }
    if v.category is Some {
        lemma_item_category_tokens(v.category->Some_0, Seq::empty());
    }
}

/// The items of an encoded list of purchased items.
pub open spec fn item_list_jv(items: Seq<ItemV>) -> Seq<Jv> {
    Seq::new(items.len(), |i: int| item_jv(items[i]))
}

/// Whether every item of a JSON list decodes as one of purchased items.
pub open spec fn item_list_of_jv_ok(items: Seq<Jv>) -> bool {
    forall|i: int| 0 <= i < items.len() ==> (#[trigger] item_of_jv(items[i])) is Some
}

/// The items of a decoded list of purchased items: every item must decode.
pub open spec fn item_list_of_jv(items: Seq<Jv>) -> Option<Seq<ItemV>> {
    if item_list_of_jv_ok(items) {
        Some(Seq::new(items.len(), |i: int| item_of_jv(items[i])->Some_0))
    } else {
        None
    }
}

/// A decoded list node of purchased items.
pub open spec fn item_arr_of_jv(j: Jv) -> Option<Seq<ItemV>> {
    match j {
        Jv::Arr(items) => item_list_of_jv(items),
        _ => None,
    }
}

/// A list of purchased items decodes back to the items it was encoded from.
pub proof fn lemma_item_list_round_trip(items: Seq<ItemV>)
    ensures
        item_list_of_jv(item_list_jv(items)) == Some(items),
{
    let js = item_list_jv(items);
    assert forall|i: int| 0 <= i < js.len() implies item_of_jv(#[trigger] js[i]) == Some(
        items[i],
    ) by {
        lemma_item_round_trip(items[i]);
    }
    assert(Seq::new(js.len(), |i: int| item_of_jv(js[i])->Some_0) =~= items);
}

pub fn encode_item_vec(v: &Vec<Item>) -> (j: Json)
    ensures
        j@ == Jv::Arr(item_list_jv(v.deep_view())),
{
    let mut items: Vec<Json> = Vec::new();
    let mut i: usize = 0;
    while i < v.len()
        invariant
            i <= v.len(),
            items@.len() == i as nat,
            forall|k: int| 0 <= k < i ==> (#[trigger] items@[k]@) == item_jv(v.deep_view()[k]),
        decreases v.len() - i,
    {
        items.push(encode_item(&v[i]));
        i += 1;
    }
    let r = Json::Arr(items);
    proof {
        assert(r@->Arr_0.len() == v.deep_view().len());
        assert forall|k: int| 0 <= k < v.deep_view().len() implies r@->Arr_0[k] == item_jv(
            v.deep_view()[k],
        ) by {
            assert(items@[k]@ == item_jv(v.deep_view()[k]));
        }
        assert(r@->Arr_0 =~= item_list_jv(v.deep_view()));
    }
    r
}

pub fn decode_item_vec(items: &Vec<Json>) -> (r: Option<Vec<Item>>)
    ensures
        r matches Some(v) ==> item_list_of_jv(arr_view(items@)) == Some(v.deep_view()),
        r is None ==> item_list_of_jv(arr_view(items@)) is None,
{
    let ghost av = arr_view(items@);
    let mut out: Vec<Item> = Vec::new();
    let mut i: usize = 0;
    while i < items.len()
        invariant
            i <= items.len(),
            out@.len() == i as nat,
            av == arr_view(items@),
            forall|k: int| 0 <= k < i ==> (#[trigger] item_of_jv(av[k])) == Some(
                out.deep_view()[k],
            ),
        decreases items.len() - i,
    {
        match decode_item(&items[i]) {
            Some(x) => { out.push(x); },
            None => {
                proof {
                    assert(item_of_jv(av[i as int]) is None);
                }
                return None;
            },
        }
        i += 1;
    }
    proof {
        assert forall|k: int| 0 <= k < av.len() implies (#[trigger] item_of_jv(av[k])) is Some by {
        }
        assert(Seq::new(av.len(), |k: int| item_of_jv(av[k])->Some_0) =~= out.deep_view());
    }
    Some(out)
}


/// Details about the status of an authorization.
#[derive(Debug, Clone, PartialEq, Eq)]
pub struct AuthorizationStatusDetails {
    pub reason: AuthorizationStatusDetailsReason,
}

/// The shape of a [`AuthorizationStatusDetails`].
pub struct AuthorizationStatusDetailsV {
    pub reason: AuthorizationStatusDetailsReason,
}

impl DeepView for AuthorizationStatusDetails {
    type V = AuthorizationStatusDetailsV;

    open spec fn deep_view(&self) -> AuthorizationStatusDetailsV {
        AuthorizationStatusDetailsV {
            reason: self.reason.deep_view(),
        }
    }
}

pub open spec fn authorization_status_details_jv(v: AuthorizationStatusDetailsV) -> Jv {
    Jv::Obj(
        entry("reason"@, authorization_reason_jv(v.reason))
    )
}

pub open spec fn authorization_status_details_of_jv(j: Jv) -> Option<AuthorizationStatusDetailsV> {
    match j {
        Jv::Obj(fs) => {
            let f_reason = req_field(fs, "reason"@, |x: Jv| authorization_reason_of_jv(x));
            if f_reason is Some {
                Some(AuthorizationStatusDetailsV {
                    reason: f_reason->Some_0,
                })
            } else {
                None
            }
        },
        _ => None,
    }
}

pub fn encode_authorization_status_details(x: &AuthorizationStatusDetails) -> (j: Json)
    ensures
        j@ == authorization_status_details_jv(x.deep_view()),
{
    let mut fs: Vec<(String, Json)> = Vec::new();
    push_field(&mut fs, "reason", encode_authorization_reason(&x.reason));
    let r = Json::Obj(fs);
    proof {
        assert(r@->Obj_0 =~= authorization_status_details_jv(x.deep_view())->Obj_0);
        assert(r@ == authorization_status_details_jv(x.deep_view()));
    }
    r
}

pub fn decode_authorization_status_details(j: &Json) -> (r: Option<AuthorizationStatusDetails>)
    ensures
        r matches Some(x) ==> authorization_status_details_of_jv(j@) == Some(x.deep_view()),
        r is None ==> authorization_status_details_of_jv(j@) is None,
{
    match j {
        Json::Obj(fs) => {
            proof {
                assert(j@->Obj_0 =~= obj_view(fs@));
            }
            let f_reason = match get_field(fs, "reason") {
                Some(x) => match decode_authorization_reason(x) {
                    Some(v) => v,
                    None => { return None; },
                },
                None => { return None; },
            };
            Some(AuthorizationStatusDetails {
                reason: f_reason,
            })
        },
        _ => None,
    }
}

/// A record of this type decodes back to itself after encoding.
#[verifier::rlimit(100)]
pub proof fn lemma_authorization_status_details_round_trip(v: AuthorizationStatusDetailsV)
    ensures
        authorization_status_details_of_jv(authorization_status_details_jv(v)) == Some(v),
{
    let fs = authorization_status_details_jv(v)->Obj_0;
    reveal_strlit("reason");
    assert("reason"@ =~= seq!['r','e','a','s','o','n']);
    lemma_jv_get_found(fs, "reason"@, 0int);
    lemma_authorization_reason_tokens(v.reason, Seq::empty());
}

/// A payment authorization with its status details.
#[derive(Debug, Clone, PartialEq, Eq)]
pub struct AuthorizationWithData {
    pub status: AuthorizationStatus,
    pub status_details: AuthorizationStatusDetails,
}

/// The shape of a [`AuthorizationWithData`].
pub struct AuthorizationWithDataV {
    pub status: AuthorizationStatus,
    pub status_details: AuthorizationStatusDetailsV,
}

impl DeepView for AuthorizationWithData {
    type V = AuthorizationWithDataV;

    open spec fn deep_view(&self) -> AuthorizationWithDataV {
        AuthorizationWithDataV {
            status: self.status.deep_view(),
            status_details: self.status_details.deep_view(),
        }
    }
}

pub open spec fn authorization_jv(v: AuthorizationWithDataV) -> Jv {
    Jv::Obj(
        entry("status"@, authorization_status_jv(v.status))
        + entry("status_details"@, authorization_status_details_jv(v.status_details))
    )
}

pub open spec fn authorization_of_jv(j: Jv) -> Option<AuthorizationWithDataV> {
    match j {
        Jv::Obj(fs) => {
            let f_status = req_field(fs, "status"@, |x: Jv| authorization_status_of_jv(x));
            let f_status_details = req_field(fs, "status_details"@, |x: Jv| authorization_status_details_of_jv(x));
            if f_status is Some && f_status_details is Some {
                Some(AuthorizationWithDataV {
                    status: f_status->Some_0,
                    status_details: f_status_details->Some_0,
                })
            } else {
                None
            }
        },
        _ => None,
    }
}

pub fn encode_authorization(x: &AuthorizationWithData) -> (j: Json)
    ensures
        j@ == authorization_jv(x.deep_view()),
{
    let mut fs: Vec<(String, Json)> = Vec::new();
    push_field(&mut fs, "status", encode_authorization_status(&x.status));
    push_field(&mut fs, "status_details", encode_authorization_status_details(&x.status_details));
    let r = Json::Obj(fs);
    proof {
        assert(r@->Obj_0 =~= authorization_jv(x.deep_view())->Obj_0);
        assert(r@ == authorization_jv(x.deep_view()));
    }
    r
}

pub fn decode_authorization(j: &Json) -> (r: Option<AuthorizationWithData>)
    ensures
        r matches Some(x) ==> authorization_of_jv(j@) == Some(x.deep_view()),
        r is None ==> authorization_of_jv(j@) is None,
{
    match j {
        Json::Obj(fs) => {
            proof {
                assert(j@->Obj_0 =~= obj_view(fs@));
            }
            let f_status = match get_field(fs, "status") {
                Some(x) => match decode_authorization_status(x) {
                    Some(v) => v,
                    None => { return None; },
                },
                None => { return None; },
            };
            let f_status_details = match get_field(fs, "status_details") {
                Some(x) => match decode_authorization_status_details(x) {
                    Some(v) => v,
                    None => { return None; },
                },
                None => { return None; },
            };
            Some(AuthorizationWithData {
                status: f_status,
                status_details: f_status_details,
            })
        },
        _ => None,
    }
}

/// A record of this type decodes back to itself after encoding.
#[verifier::rlimit(100)]
pub proof fn lemma_authorization_round_trip(v: AuthorizationWithDataV)
    ensures
        authorization_of_jv(authorization_jv(v)) == Some(v),
{
    let fs = authorization_jv(v)->Obj_0;
    reveal_strlit("status");
    assert("status"@ =~= seq!['s','t','a','t','u','s']);
    reveal_strlit("status_details");
    assert("status_details"@ =~= seq!['s','t','a','t','u','s','_','d','e','t','a','i','l','s']);
    lemma_jv_get_found(fs, "status"@, 0int);
    lemma_jv_get_found(fs, "status_details"@, 1int);
    lemma_authorization_status_tokens(v.status, Seq::empty());
    lemma_authorization_status_details_round_trip(v.status_details);
}

/// The items of an encoded list of authorized payments.
pub open spec fn authorization_list_jv(items: Seq<AuthorizationWithDataV>) -> Seq<Jv> {
    Seq::new(items.len(), |i: int| authorization_jv(items[i]))
}

/// Whether every item of a JSON list decodes as one of authorized payments.
pub open spec fn authorization_list_of_jv_ok(items: Seq<Jv>) -> bool {
    forall|i: int| 0 <= i < items.len() ==> (#[trigger] authorization_of_jv(items[i])) is Some
}

/// The items of a decoded list of authorized payments: every item must decode.
pub open spec fn authorization_list_of_jv(items: Seq<Jv>) -> Option<Seq<AuthorizationWithDataV>> {
    if authorization_list_of_jv_ok(items) {
        Some(Seq::new(items.len(), |i: int| authorization_of_jv(items[i])->Some_0))
    } else {
        None
    }
}

/// A decoded list node of authorized payments.
pub open spec fn authorization_arr_of_jv(j: Jv) -> Option<Seq<AuthorizationWithDataV>> {
    match j {
        Jv::Arr(items) => authorization_list_of_jv(items),
        _ => None,
    }
}

/// A list of authorized payments decodes back to the items it was encoded from.
pub proof fn lemma_authorization_list_round_trip(items: Seq<AuthorizationWithDataV>)
    ensures
        authorization_list_of_jv(authorization_list_jv(items)) == Some(items),
{
    let js = authorization_list_jv(items);
    assert forall|i: int| 0 <= i < js.len() implies authorization_of_jv(#[trigger] js[i]) == Some(
        items[i],
    ) by {
        lemma_authorization_round_trip(items[i]);
    }
    assert(Seq::new(js.len(), |i: int| authorization_of_jv(js[i])->Some_0) =~= items);
}

pub fn encode_authorization_vec(v: &Vec<AuthorizationWithData>) -> (j: Json)
    ensures
        j@ == Jv::Arr(authorization_list_jv(v.deep_view())),
{
    let mut items: Vec<Json> = Vec::new();
    let mut i: usize = 0;
    while i < v.len()
        invariant
            i <= v.len(),
            items@.len() == i as nat,
            forall|k: int| 0 <= k < i ==> (#[trigger] items@[k]@) == authorization_jv(v.deep_view()[k]),
        decreases v.len() - i,
    {
        items.push(encode_authorization(&v[i]));
        i += 1;
    }
    let r = Json::Arr(items);
    proof {
        assert(r@->Arr_0.len() == v.deep_view().len());
        assert forall|k: int| 0 <= k < v.deep_view().len() implies r@->Arr_0[k] == authorization_jv(
            v.deep_view()[k],
        ) by {
            assert(items@[k]@ == authorization_jv(v.deep_view()[k]));
        }
        assert(r@->Arr_0 =~= authorization_list_jv(v.deep_view()));
    }
    r
}

pub fn decode_authorization_vec(items: &Vec<Json>) -> (r: Option<Vec<AuthorizationWithData>>)
    ensures
        r matches Some(v) ==> authorization_list_of_jv(arr_view(items@)) == Some(v.deep_view()),
        r is None ==> authorization_list_of_jv(arr_view(items@)) is None,
{
    let ghost av = arr_view(items@);
    let mut out: Vec<AuthorizationWithData> = Vec::new();
    let mut i: usize = 0;
    while i < items.len()
        invariant
            i <= items.len(),
            out@.len() == i as nat,
            av == arr_view(items@),
            forall|k: int| 0 <= k < i ==> (#[trigger] authorization_of_jv(av[k])) == Some(
                out.deep_view()[k],
            ),
        decreases items.len() - i,
    {
        match decode_authorization(&items[i]) {
            Some(x) => { out.push(x); },
            None => {
                proof {
                    assert(authorization_of_jv(av[i as int]) is None);
                }
                return None;
            },
        }
        i += 1;
    }
    proof {
        assert forall|k: int| 0 <= k < av.len() implies (#[trigger] authorization_of_jv(av[k])) is Some by {
        }
        assert(Seq::new(av.len(), |k: int| authorization_of_jv(av[k])->Some_0) =~= out.deep_view());
    }
    Some(out)
}


/// Details about the status of a captured payment.
#[derive(Debug, Clone, PartialEq, Eq)]
pub struct CaptureStatusDetails {
    pub reason: CaptureStatusDetailsReason,
}

/// The shape of a [`CaptureStatusDetails`].
pub struct CaptureStatusDetailsV {
    pub reason: CaptureStatusDetailsReason,
}

impl DeepView for CaptureStatusDetails {
    type V = CaptureStatusDetailsV;

    open spec fn deep_view(&self) -> CaptureStatusDetailsV {
        CaptureStatusDetailsV {
            reason: self.reason.deep_view(),
        }
    }
}

pub open spec fn capture_status_details_jv(v: CaptureStatusDetailsV) -> Jv {
    Jv::Obj(
        entry("reason"@, capture_reason_jv(v.reason))
    )
}

pub open spec fn capture_status_details_of_jv(j: Jv) -> Option<CaptureStatusDetailsV> {
    match j {
        Jv::Obj(fs) => {
            let f_reason = req_field(fs, "reason"@, |x: Jv| capture_reason_of_jv(x));
            if f_reason is Some {
                Some(CaptureStatusDetailsV {
                    reason: f_reason->Some_0,
                })
            } else {
                None
            }
        },
        _ => None,
    }
}

pub fn encode_capture_status_details(x: &CaptureStatusDetails) -> (j: Json)
    ensures
        j@ == capture_status_details_jv(x.deep_view()),
{
    let mut fs: Vec<(String, Json)> = Vec::new();
    push_field(&mut fs, "reason", encode_capture_reason(&x.reason));
    let r = Json::Obj(fs);
    proof {
        assert(r@->Obj_0 =~= capture_status_details_jv(x.deep_view())->Obj_0);
        assert(r@ == capture_status_details_jv(x.deep_view()));
    }
    r
}

pub fn decode_capture_status_details(j: &Json) -> (r: Option<CaptureStatusDetails>)
    ensures
        r matches Some(x) ==> capture_status_details_of_jv(j@) == Some(x.deep_view()),
        r is None ==> capture_status_details_of_jv(j@) is None,
{
    match j {
        Json::Obj(fs) => {
            proof {
                assert(j@->Obj_0 =~= obj_view(fs@));
            }
            let f_reason = match get_field(fs, "reason") {
                Some(x) => match decode_capture_reason(x) {
                    Some(v) => v,
                    None => { return None; },
                },
                None => { return None; },
            };
            Some(CaptureStatusDetails {
                reason: f_reason,
            })
        },
        _ => None,
    }
}

/// A record of this type decodes back to itself after encoding.
#[verifier::rlimit(100)]
pub proof fn lemma_capture_status_details_round_trip(v: CaptureStatusDetailsV)
    ensures
        capture_status_details_of_jv(capture_status_details_jv(v)) == Some(v),
{
    let fs = capture_status_details_jv(v)->Obj_0;
    reveal_strlit("reason");
    assert("reason"@ =~= seq!['r','e','a','s','o','n']);
    lemma_jv_get_found(fs, "reason"@, 0int);
    lemma_capture_reason_tokens(v.reason, Seq::empty());
}

/// A captured payment.
#[derive(Debug, Clone, PartialEq, Eq)]
pub struct Capture {
    pub status: CaptureStatus,
    pub status_details: Option<CaptureStatusDetails>,
}

/// The shape of a [`Capture`].
pub struct CaptureV {
    pub status: CaptureStatus,
    pub status_details: Option<CaptureStatusDetailsV>,
}

impl DeepView for Capture {
    type V = CaptureV;

    open spec fn deep_view(&self) -> CaptureV {
        CaptureV {
            status: self.status.deep_view(),
            status_details: self.status_details.deep_view(),
        }
    }
}

pub open spec fn capture_jv(v: CaptureV) -> Jv {
    Jv::Obj(
        entry("status"@, capture_status_jv(v.status))
        + opt_entry("status_details"@, v.status_details, |x: CaptureStatusDetailsV| capture_status_details_jv(x))
    )
}

pub open spec fn capture_of_jv(j: Jv) -> Option<CaptureV> {
    match j {
        Jv::Obj(fs) => {
            let f_status = req_field(fs, "status"@, |x: Jv| capture_status_of_jv(x));
            let f_status_details = opt_field(fs, "status_details"@, |x: Jv| capture_status_details_of_jv(x));
            if f_status is Some && f_status_details is Some {
                Some(CaptureV {
                    status: f_status->Some_0,
                    status_details: f_status_details->Some_0,
                })
            } else {
                None
            }
        },
        _ => None,
    }
}

pub fn encode_capture(x: &Capture) -> (j: Json)
    ensures
        j@ == capture_jv(x.deep_view()),
{
    let mut fs: Vec<(String, Json)> = Vec::new();
    push_field(&mut fs, "status", encode_capture_status(&x.status));
    match &x.status_details {
        Some(v) => { push_field(&mut fs, "status_details", encode_capture_status_details(v)); },
        None => {},
    }
    let r = Json::Obj(fs);
    proof {
        assert(r@->Obj_0 =~= capture_jv(x.deep_view())->Obj_0);
        assert(r@ == capture_jv(x.deep_view()));
    }
    r
}

pub fn decode_capture(j: &Json) -> (r: Option<Capture>)
    ensures
        r matches Some(x) ==> capture_of_jv(j@) == Some(x.deep_view()),
        r is None ==> capture_of_jv(j@) is None,
{
    match j {
        Json::Obj(fs) => {
            proof {
                assert(j@->Obj_0 =~= obj_view(fs@));
            }
            let f_status = match get_field(fs, "status") {
                Some(x) => match decode_capture_status(x) {
                    Some(v) => v,
                    None => { return None; },
                },
                None => { return None; },
            };
            let f_status_details = match get_field(fs, "status_details") {
                None => None,
                Some(x) => match decode_capture_status_details(x) {
                    Some(v) => Some(v),
                    None => { return None; },
                },
            };
            Some(Capture {
                status: f_status,
                status_details: f_status_details,
            })
        },
        _ => None,
    }
}

/// A record of this type decodes back to itself after encoding.
#[verifier::rlimit(100)]
pub proof fn lemma_capture_round_trip(v: CaptureV)
    ensures
        capture_of_jv(capture_jv(v)) == Some(v),
{
    let fs = capture_jv(v)->Obj_0;
    reveal_strlit("status");
    assert("status"@ =~= seq!['s','t','a','t','u','s']);
    reveal_strlit("status_details");
    assert("status_details"@ =~= seq!['s','t','a','t','u','s','_','d','e','t','a','i','l','s']);
    lemma_jv_get_found(fs, "status"@, 0int);
    if v.status_details is Some {
        lemma_jv_get_found(fs, "status_details"@, 1int);
    } else {
        lemma_jv_get_absent(fs, "status_details"@);
    }
    lemma_capture_status_tokens(v.status, Seq::empty());
    if v.status_details is Some {
        lemma_capture_status_details_round_trip(v.status_details->Some_0);
    }
}

/// The items of an encoded list of captured payments.
pub open spec fn capture_list_jv(items: Seq<CaptureV>) -> Seq<Jv> {
    Seq::new(items.len(), |i: int| capture_jv(items[i]))
}

/// Whether every item of a JSON list decodes as one of captured payments.
pub open spec fn capture_list_of_jv_ok(items: Seq<Jv>) -> bool {
    forall|i: int| 0 <= i < items.len() ==> (#[trigger] capture_of_jv(items[i])) is Some
}

/// The items of a decoded list of captured payments: every item must decode.
pub open spec fn capture_list_of_jv(items: Seq<Jv>) -> Option<Seq<CaptureV>> {
    if capture_list_of_jv_ok(items) {
        Some(Seq::new(items.len(), |i: int| capture_of_jv(items[i])->Some_0))
    } else {
        None
    }
}

/// A decoded list node of captured payments.
pub open spec fn capture_arr_of_jv(j: Jv) -> Option<Seq<CaptureV>> {
    match j {
        Jv::Arr(items) => capture_list_of_jv(items),
        _ => None,
    }
}

/// A list of captured payments decodes back to the items it was encoded from.
pub proof fn lemma_capture_list_round_trip(items: Seq<CaptureV>)
    ensures
        capture_list_of_jv(capture_list_jv(items)) == Some(items),
{
    let js = capture_list_jv(items);
    assert forall|i: int| 0 <= i < js.len() implies capture_of_jv(#[trigger] js[i]) == Some(
        items[i],
    ) by {
        lemma_capture_round_trip(items[i]);
    }
    assert(Seq::new(js.len(), |i: int| capture_of_jv(js[i])->Some_0) =~= items);
}

pub fn encode_capture_vec(v: &Vec<Capture>) -> (j: Json)
    ensures
        j@ == Jv::Arr(capture_list_jv(v.deep_view())),
{
    let mut items: Vec<Json> = Vec::new();
    let mut i: usize = 0;
    while i < v.len()
        invariant
            i <= v.len(),
            items@.len() == i as nat,
            forall|k: int| 0 <= k < i ==> (#[trigger] items@[k]@) == capture_jv(v.deep_view()[k]),
        decreases v.len() - i,
    {
        items.push(encode_capture(&v[i]));
        i += 1;
    }
    let r = Json::Arr(items);
    proof {
        assert(r@->Arr_0.len() == v.deep_view().len());
        assert forall|k: int| 0 <= k < v.deep_view().len() implies r@->Arr_0[k] == capture_jv(
            v.deep_view()[k],
        ) by {
            assert(items@[k]@ == capture_jv(v.deep_view()[k]));
        }
        assert(r@->Arr_0 =~= capture_list_jv(v.deep_view()));
    }
    r
}

pub fn decode_capture_vec(items: &Vec<Json>) -> (r: Option<Vec<Capture>>)
    ensures
        r matches Some(v) ==> capture_list_of_jv(arr_view(items@)) == Some(v.deep_view()),
        r is None ==> capture_list_of_jv(arr_view(items@)) is None,
{
    let ghost av = arr_view(items@);
    let mut out: Vec<Capture> = Vec::new();
    let mut i: usize = 0;
    while i < items.len()
        invariant
            i <= items.len(),
            out@.len() == i as nat,
            av == arr_view(items@),
            forall|k: int| 0 <= k < i ==> (#[trigger] capture_of_jv(av[k])) == Some(
                out.deep_view()[k],
            ),
        decreases items.len() - i,
    {
        match decode_capture(&items[i]) {
            Some(x) => { out.push(x); },
            None => {
                proof {
                    assert(capture_of_jv(av[i as int]) is None);
                }
                return None;
            },
        }
        i += 1;
    }
    proof {
        assert forall|k: int| 0 <= k < av.len() implies (#[trigger] capture_of_jv(av[k])) is Some by {
        }
        assert(Seq::new(av.len(), |k: int| capture_of_jv(av[k])->Some_0) =~= out.deep_view());
    }
    Some(out)
}


/// Details about the status of a refund.
#[derive(Debug, Clone, PartialEq, Eq)]
pub struct RefundStatusDetails {
    pub reason: RefundStatusDetailsReason,
}

/// The shape of a [`RefundStatusDetails`].
pub struct RefundStatusDetailsV {
    pub reason: RefundStatusDetailsReason,
}

impl DeepView for RefundStatusDetails {
    type V = RefundStatusDetailsV;

    open spec fn deep_view(&self) -> RefundStatusDetailsV {
        RefundStatusDetailsV {
            reason: self.reason.deep_view(),
        }
    }
}

pub open spec fn refund_status_details_jv(v: RefundStatusDetailsV) -> Jv {
    Jv::Obj(
        entry("reason"@, refund_reason_jv(v.reason))
    )
}

pub open spec fn refund_status_details_of_jv(j: Jv) -> Option<RefundStatusDetailsV> {
    match j {
        Jv::Obj(fs) => {
            let f_reason = req_field(fs, "reason"@, |x: Jv| refund_reason_of_jv(x));
            if f_reason is Some {
                Some(RefundStatusDetailsV {
                    reason: f_reason->Some_0,
                })
            } else {
                None
            }
        },
        _ => None,
    }
}

pub fn encode_refund_status_details(x: &RefundStatusDetails) -> (j: Json)
    ensures
        j@ == refund_status_details_jv(x.deep_view()),
{
    let mut fs: Vec<(String, Json)> = Vec::new();
    push_field(&mut fs, "reason", encode_refund_reason(&x.reason));
    let r = Json::Obj(fs);
    proof {
        assert(r@->Obj_0 =~= refund_status_details_jv(x.deep_view())->Obj_0);
        assert(r@ == refund_status_details_jv(x.deep_view()));
    }
    r
}

pub fn decode_refund_status_details(j: &Json) -> (r: Option<RefundStatusDetails>)
    ensures
        r matches Some(x) ==> refund_status_details_of_jv(j@) == Some(x.deep_view()),
        r is None ==> refund_status_details_of_jv(j@) is None,
{
    match j {
        Json::Obj(fs) => {
            proof {
                assert(j@->Obj_0 =~= obj_view(fs@));
            }
            let f_reason = match get_field(fs, "reason") {
                Some(x) => match decode_refund_reason(x) {
                    Some(v) => v,
                    None => { return None; },
                },
                None => { return None; },
            };
            Some(RefundStatusDetails {
                reason: f_reason,
            })
        },
        _ => None,
    }
}

/// A record of this type decodes back to itself after encoding.
#[verifier::rlimit(100)]
pub proof fn lemma_refund_status_details_round_trip(v: RefundStatusDetailsV)
    ensures
        refund_status_details_of_jv(refund_status_details_jv(v)) == Some(v),
{
    let fs = refund_status_details_jv(v)->Obj_0;
    reveal_strlit("reason");
    assert("reason"@ =~= seq!['r','e','a','s','o','n']);
    lemma_jv_get_found(fs, "reason"@, 0int);
    lemma_refund_reason_tokens(v.reason, Seq::empty());
}

/// A refund of a captured payment.
#[derive(Debug, Clone, PartialEq, Eq)]
pub struct Refund {
    pub status: RefundStatus,
    pub status_details: RefundStatusDetails,
}

/// The shape of a [`Refund`].
pub struct RefundV {
    pub status: RefundStatus,
    pub status_details: RefundStatusDetailsV,
}

impl DeepView for Refund {
    type V = RefundV;

    open spec fn deep_view(&self) -> RefundV {
        RefundV {
            status: self.status.deep_view(),
            status_details: self.status_details.deep_view(),
        }
    }
}

pub open spec fn refund_jv(v: RefundV) -> Jv {
    Jv::Obj(
        entry("status"@, refund_status_jv(v.status))
        + entry("status_details"@, refund_status_details_jv(v.status_details))
    )
}

pub open spec fn refund_of_jv(j: Jv) -> Option<RefundV> {
    match j {
        Jv::Obj(fs) => {
            let f_status = req_field(fs, "status"@, |x: Jv| refund_status_of_jv(x));
            let f_status_details = req_field(fs, "status_details"@, |x: Jv| refund_status_details_of_jv(x));
            if f_status is Some && f_status_details is Some {
                Some(RefundV {
                    status: f_status->Some_0,
                    status_details: f_status_details->Some_0,
                })
            } else {
                None
            }
        },
        _ => None,
    }
}

pub fn encode_refund(x: &Refund) -> (j: Json)
    ensures
        j@ == refund_jv(x.deep_view()),
{
    let mut fs: Vec<(String, Json)> = Vec::new();
    push_field(&mut fs, "status", encode_refund_status(&x.status));
    push_field(&mut fs, "status_details", encode_refund_status_details(&x.status_details));
    let r = Json::Obj(fs);
    proof {
        assert(r@->Obj_0 =~= refund_jv(x.deep_view())->Obj_0);
        assert(r@ == refund_jv(x.deep_view()));
    }
    r
}

pub fn decode_refund(j: &Json) -> (r: Option<Refund>)
    ensures
        r matches Some(x) ==> refund_of_jv(j@) == Some(x.deep_view()),
        r is None ==> refund_of_jv(j@) is None,
{
    match j {
        Json::Obj(fs) => {
            proof {
                assert(j@->Obj_0 =~= obj_view(fs@));
            }
            let f_status = match get_field(fs, "status") {
                Some(x) => match decode_refund_status(x) {
                    Some(v) => v,
                    None => { return None; },
                },
                None => { return None; },
            };
            let f_status_details = match get_field(fs, "status_details") {
                Some(x) => match decode_refund_status_details(x) {
                    Some(v) => v,
                    None => { return None; },
                },
                None => { return None; },
            };
            Some(Refund {
                status: f_status,
                status_details: f_status_details,
            })
        },
        _ => None,
    }
}

/// A record of this type decodes back to itself after encoding.
#[verifier::rlimit(100)]
pub proof fn lemma_refund_round_trip(v: RefundV)
    ensures
        refund_of_jv(refund_jv(v)) == Some(v),
{
    let fs = refund_jv(v)->Obj_0;
    reveal_strlit("status");
    assert("status"@ =~= seq!['s','t','a','t','u','s']);
    reveal_strlit("status_details");
    assert("status_details"@ =~= seq!['s','t','a','t','u','s','_','d','e','t','a','i','l','s']);
    lemma_jv_get_found(fs, "status"@, 0int);
    lemma_jv_get_found(fs, "status_details"@, 1int);
    lemma_refund_status_tokens(v.status, Seq::empty());
    lemma_refund_status_details_round_trip(v.status_details);
}

/// The items of an encoded list of refunds.
pub open spec fn refund_list_jv(items: Seq<RefundV>) -> Seq<Jv> {
    Seq::new(items.len(), |i: int| refund_jv(items[i]))
}

/// Whether every item of a JSON list decodes as one of refunds.
pub open spec fn refund_list_of_jv_ok(items: Seq<Jv>) -> bool {
    forall|i: int| 0 <= i < items.len() ==> (#[trigger] refund_of_jv(items[i])) is Some
}

/// The items of a decoded list of refunds: every item must decode.
pub open spec fn refund_list_of_jv(items: Seq<Jv>) -> Option<Seq<RefundV>> {
    if refund_list_of_jv_ok(items) {
        Some(Seq::new(items.len(), |i: int| refund_of_jv(items[i])->Some_0))
    } else {
        None
    }
}

/// A decoded list node of refunds.
pub open spec fn refund_arr_of_jv(j: Jv) -> Option<Seq<RefundV>> {
    match j {
        Jv::Arr(items) => refund_list_of_jv(items),
        _ => None,
    }
}

/// A list of refunds decodes back to the items it was encoded from.
pub proof fn lemma_refund_list_round_trip(items: Seq<RefundV>)
    ensures
        refund_list_of_jv(refund_list_jv(items)) == Some(items),
{
    let js = refund_list_jv(items);
    assert forall|i: int| 0 <= i < js.len() implies refund_of_jv(#[trigger] js[i]) == Some(
        items[i],
    ) by {
        lemma_refund_round_trip(items[i]);
    }
    assert(Seq::new(js.len(), |i: int| refund_of_jv(js[i])->Some_0) =~= items);
}

pub fn encode_refund_vec(v: &Vec<Refund>) -> (j: Json)
    ensures
        j@ == Jv::Arr(refund_list_jv(v.deep_view())),
{
    let mut items: Vec<Json> = Vec::new();
    let mut i: usize = 0;
    while i < v.len()
        invariant
            i <= v.len(),
            items@.len() == i as nat,
            forall|k: int| 0 <= k < i ==> (#[trigger] items@[k]@) == refund_jv(v.deep_view()[k]),
        decreases v.len() - i,
    {
        items.push(encode_refund(&v[i]));
        i += 1;
    }
    let r = Json::Arr(items);
    proof {
        assert(r@->Arr_0.len() == v.deep_view().len());
        assert forall|k: int| 0 <= k < v.deep_view().len() implies r@->Arr_0[k] == refund_jv(
            v.deep_view()[k],
        ) by {
            assert(items@[k]@ == refund_jv(v.deep_view()[k]));
        }
        assert(r@->Arr_0 =~= refund_list_jv(v.deep_view()));
    }
    r
}

pub fn decode_refund_vec(items: &Vec<Json>) -> (r: Option<Vec<Refund>>)
    ensures
        r matches Some(v) ==> refund_list_of_jv(arr_view(items@)) == Some(v.deep_view()),
        r is None ==> refund_list_of_jv(arr_view(items@)) is None,
{
    let ghost av = arr_view(items@);
    let mut out: Vec<Refund> = Vec::new();
    let mut i: usize = 0;
    while i < items.len()
        invariant
            i <= items.len(),
            out@.len() == i as nat,
            av == arr_view(items@),
            forall|k: int| 0 <= k < i ==> (#[trigger] refund_of_jv(av[k])) == Some(
                out.deep_view()[k],
            ),
        decreases items.len() - i,
    {
        match decode_refund(&items[i]) {
            Some(x) => { out.push(x); },
            None => {
                proof {
                    assert(refund_of_jv(av[i as int]) is None);
                }
                return None;
            },
        }
        i += 1;
    }
    proof {
        assert forall|k: int| 0 <= k < av.len() implies (#[trigger] refund_of_jv(av[k])) is Some by {
        }
        assert(Seq::new(av.len(), |k: int| refund_of_jv(av[k])->Some_0) =~= out.deep_view());
    }
    Some(out)
}


/// The comprehensive history of payments for a purchase unit; each list is empty when the provider reports nothing.
#[derive(Debug, Clone, PartialEq, Eq)]
pub struct PaymentCollection {
    pub authorizations: Vec<AuthorizationWithData>,
    pub captures: Vec<Capture>,
    pub refunds: Vec<Refund>,
}

/// The shape of a [`PaymentCollection`].
pub struct PaymentCollectionV {
    pub authorizations: Seq<AuthorizationWithDataV>,
    pub captures: Seq<CaptureV>,
    pub refunds: Seq<RefundV>,
}

impl DeepView for PaymentCollection {
    type V = PaymentCollectionV;

    open spec fn deep_view(&self) -> PaymentCollectionV {
        PaymentCollectionV {
            authorizations: self.authorizations.deep_view(),
            captures: self.captures.deep_view(),
            refunds: self.refunds.deep_view(),
        }
    }
}

pub open spec fn payment_collection_jv(v: PaymentCollectionV) -> Jv {
    Jv::Obj(
        entry("authorizations"@, Jv::Arr(authorization_list_jv(v.authorizations)))
        + entry("captures"@, Jv::Arr(capture_list_jv(v.captures)))
        + entry("refunds"@, Jv::Arr(refund_list_jv(v.refunds)))
    )
}

pub open spec fn payment_collection_of_jv(j: Jv) -> Option<PaymentCollectionV> {
    match j {
        Jv::Obj(fs) => {
            let f_authorizations = dft_field(fs, "authorizations"@, |x: Jv| authorization_arr_of_jv(x));
            let f_captures = dft_field(fs, "captures"@, |x: Jv| capture_arr_of_jv(x));
            let f_refunds = dft_field(fs, "refunds"@, |x: Jv| refund_arr_of_jv(x));
            if f_authorizations is Some && f_captures is Some && f_refunds is Some {
                Some(PaymentCollectionV {
                    authorizations: f_authorizations->Some_0,
                    captures: f_captures->Some_0,
                    refunds: f_refunds->Some_0,
                })
            } else {
                None
            }
        },
        _ => None,
    }
}

pub fn encode_payment_collection(x: &PaymentCollection) -> (j: Json)
    ensures
        j@ == payment_collection_jv(x.deep_view()),
{
    let mut fs: Vec<(String, Json)> = Vec::new();
    push_field(&mut fs, "authorizations", encode_authorization_vec(&x.authorizations));
    push_field(&mut fs, "captures", encode_capture_vec(&x.captures));
    push_field(&mut fs, "refunds", encode_refund_vec(&x.refunds));
    let r = Json::Obj(fs);
    proof {
        assert(r@->Obj_0 =~= payment_collection_jv(x.deep_view())->Obj_0);
        assert(r@ == payment_collection_jv(x.deep_view()));
    }
    r
}

pub fn decode_payment_collection(j: &Json) -> (r: Option<PaymentCollection>)
    ensures
        r matches Some(x) ==> payment_collection_of_jv(j@) == Some(x.deep_view()),
        r is None ==> payment_collection_of_jv(j@) is None,
{
    match j {
        Json::Obj(fs) => {
            proof {
                assert(j@->Obj_0 =~= obj_view(fs@));
            }
            let f_authorizations: Vec<AuthorizationWithData> = match get_field(fs, "authorizations") {
                None => {
                    let empty: Vec<AuthorizationWithData> = Vec::new();
                    proof { assert(empty.deep_view() =~= Seq::<AuthorizationWithDataV>::empty()); }
                    empty
                },
                Some(x) => match x {
                    Json::Arr(items) => {
                        proof { assert(x@->Arr_0 =~= arr_view(items@)); }
                        match decode_authorization_vec(items) {
                            Some(v) => v,
                            None => { return None; },
                        }
                    },
                    _ => { return None; },
                },
            };
            let f_captures: Vec<Capture> = match get_field(fs, "captures") {
                None => {
                    let empty: Vec<Capture> = Vec::new();
                    proof { assert(empty.deep_view() =~= Seq::<CaptureV>::empty()); }
                    empty
                },
                Some(x) => match x {
                    Json::Arr(items) => {
                        proof { assert(x@->Arr_0 =~= arr_view(items@)); }
                        match decode_capture_vec(items) {
                            Some(v) => v,
                            None => { return None; },
                        }
                    },
                    _ => { return None; },
                },
            };
            let f_refunds: Vec<Refund> = match get_field(fs, "refunds") {
                None => {
                    let empty: Vec<Refund> = Vec::new();
                    proof { assert(empty.deep_view() =~= Seq::<RefundV>::empty()); }
                    empty
                },
                Some(x) => match x {
                    Json::Arr(items) => {
                        proof { assert(x@->Arr_0 =~= arr_view(items@)); }
                        match decode_refund_vec(items) {
                            Some(v) => v,
                            None => { return None; },
                        }
                    },
                    _ => { return None; },
                },
            };
            Some(PaymentCollection {
                authorizations: f_authorizations,
                captures: f_captures,
                refunds: f_refunds,
            })
        },
        _ => None,
    }
}

/// A record of this type decodes back to itself after encoding.
#[verifier::rlimit(100)]
pub proof fn lemma_payment_collection_round_trip(v: PaymentCollectionV)
    ensures
        payment_collection_of_jv(payment_collection_jv(v)) == Some(v),
{
    let fs = payment_collection_jv(v)->Obj_0;
    reveal_strlit("authorizations");
    assert("authorizations"@ =~= seq!['a','u','t','h','o','r','i','z','a','t','i','o','n','s']);
    reveal_strlit("captures");
    assert("captures"@ =~= seq!['c','a','p','t','u','r','e','s']);
    reveal_strlit("refunds");
    assert("refunds"@ =~= seq!['r','e','f','u','n','d','s']);
    lemma_jv_get_found(fs, "authorizations"@, 0int);
    lemma_jv_get_found(fs, "captures"@, 1int);
    lemma_jv_get_found(fs, "refunds"@, 1int + 1int);
    lemma_authorization_list_round_trip(v.authorizations);
    lemma_capture_list_round_trip(v.captures);
    lemma_refund_list_round_trip(v.refunds);
}

/// A full or partial order that the payer intends to purchase from the payee.
#[derive(Debug, Clone, PartialEq, Eq)]
pub struct PurchaseUnit {
    /// The caller-provided external ID, required for multiple purchase units when the order is updated through PATCH.
    pub reference_id: Option<String>,
    pub amount: Amount,
    pub payee: Option<Payee>,
    pub payment_instruction: Option<PaymentInstruction>,
    pub description: Option<String>,
    pub custom_id: Option<String>,
    pub invoice_id: Option<String>,
    pub id: Option<String>,
    pub soft_descriptor: Option<String>,
    pub items: Option<Vec<Item>>,
    pub shipping: Option<ShippingDetail>,
    pub payments: Option<PaymentCollection>,
}

/// The shape of a [`PurchaseUnit`].
pub struct PurchaseUnitV {
    pub reference_id: Option<Seq<char>>,
    pub amount: AmountV,
    pub payee: Option<PayeeV>,
    pub payment_instruction: Option<PaymentInstructionV>,
    pub description: Option<Seq<char>>,
    pub custom_id: Option<Seq<char>>,
    pub invoice_id: Option<Seq<char>>,
    pub id: Option<Seq<char>>,
    pub soft_descriptor: Option<Seq<char>>,
    pub items: Option<Seq<ItemV>>,
    pub shipping: Option<ShippingDetailV>,
    pub payments: Option<PaymentCollectionV>,
}

impl DeepView for PurchaseUnit {
    type V = PurchaseUnitV;

    open spec fn deep_view(&self) -> PurchaseUnitV {
        PurchaseUnitV {
            reference_id: self.reference_id.deep_view(),
            amount: self.amount.deep_view(),
            payee: self.payee.deep_view(),
            payment_instruction: self.payment_instruction.deep_view(),
            description: self.description.deep_view(),
            custom_id: self.custom_id.deep_view(),
            invoice_id: self.invoice_id.deep_view(),
            id: self.id.deep_view(),
            soft_descriptor: self.soft_descriptor.deep_view(),
            items: self.items.deep_view(),
            shipping: self.shipping.deep_view(),
            payments: self.payments.deep_view(),
        }
    }
}

pub open spec fn purchase_unit_jv(v: PurchaseUnitV) -> Jv {
    Jv::Obj(
        opt_str_entry("reference_id"@, v.reference_id)
        + entry("amount"@, amount_jv(v.amount))
        + opt_entry("payee"@, v.payee, |x: PayeeV| payee_jv(x))
        + opt_entry("payment_instruction"@, v.payment_instruction, |x: PaymentInstructionV| payment_instruction_jv(x))
        + opt_str_entry("description"@, v.description)
        + opt_str_entry("custom_id"@, v.custom_id)
        + opt_str_entry("invoice_id"@, v.invoice_id)
        + opt_str_entry("id"@, v.id)
        + opt_str_entry("soft_descriptor"@, v.soft_descriptor)
        + opt_entry("items"@, v.items, |x: Seq<ItemV>| Jv::Arr(item_list_jv(x)))
        + opt_entry("shipping"@, v.shipping, |x: ShippingDetailV| shipping_detail_jv(x))
        + opt_entry("payments"@, v.payments, |x: PaymentCollectionV| payment_collection_jv(x))
    )
}

pub open spec fn purchase_unit_of_jv(j: Jv) -> Option<PurchaseUnitV> {
    match j {
        Jv::Obj(fs) => {
            let f_reference_id = opt_str(fs, "reference_id"@);
            let f_amount = req_field(fs, "amount"@, |x: Jv| amount_of_jv(x));
            let f_payee = opt_field(fs, "payee"@, |x: Jv| payee_of_jv(x));
            let f_payment_instruction = opt_field(fs, "payment_instruction"@, |x: Jv| payment_instruction_of_jv(x));
            let f_description = opt_str(fs, "description"@);
            let f_custom_id = opt_str(fs, "custom_id"@);
            let f_invoice_id = opt_str(fs, "invoice_id"@);
            let f_id = opt_str(fs, "id"@);
            let f_soft_descriptor = opt_str(fs, "soft_descriptor"@);
            let f_items = opt_field(fs, "items"@, |x: Jv| item_arr_of_jv(x));
            let f_shipping = opt_field(fs, "shipping"@, |x: Jv| shipping_detail_of_jv(x));
            let f_payments = opt_field(fs, "payments"@, |x: Jv| payment_collection_of_jv(x));
            if f_reference_id is Some && f_amount is Some && f_payee is Some && f_payment_instruction is Some && f_description is Some && f_custom_id is Some && f_invoice_id is Some && f_id is Some && f_soft_descriptor is Some && f_items is Some && f_shipping is Some && f_payments is Some {
                Some(PurchaseUnitV {
                    reference_id: f_reference_id->Some_0,
                    amount: f_amount->Some_0,
                    payee: f_payee->Some_0,
                    payment_instruction: f_payment_instruction->Some_0,
                    description: f_description->Some_0,
                    custom_id: f_custom_id->Some_0,
                    invoice_id: f_invoice_id->Some_0,
                    id: f_id->Some_0,
                    soft_descriptor: f_soft_descriptor->Some_0,
                    items: f_items->Some_0,
                    shipping: f_shipping->Some_0,
                    payments: f_payments->Some_0,
                })
            } else {
                None
            }
        },
        _ => None,
    }
}

#[verifier::rlimit(100)]
fn encode_purchase_unit_part0(x: &PurchaseUnit) -> (fs: Vec<(String, Json)>)
    ensures
        obj_view(fs@) == opt_str_entry("reference_id"@, x.deep_view().reference_id) + entry("amount"@, amount_jv(x.deep_view().amount)) + opt_entry("payee"@, x.deep_view().payee, |x: PayeeV| payee_jv(x)) + opt_entry("payment_instruction"@, x.deep_view().payment_instruction, |x: PaymentInstructionV| payment_instruction_jv(x)),
{
    let mut fs: Vec<(String, Json)> = Vec::new();
    match &x.reference_id {
        Some(v) => { push_field(&mut fs, "reference_id", Json::Str(v.clone())); },
        None => {},
    }
    push_field(&mut fs, "amount", encode_amount(&x.amount));
    match &x.payee {
        Some(v) => { push_field(&mut fs, "payee", encode_payee(v)); },
        None => {},
    }
    match &x.payment_instruction {
        Some(v) => { push_field(&mut fs, "payment_instruction", encode_payment_instruction(v)); },
        None => {},
    }
    proof { assert(obj_view(fs@) =~= opt_str_entry("reference_id"@, x.deep_view().reference_id) + entry("amount"@, amount_jv(x.deep_view().amount)) + opt_entry("payee"@, x.deep_view().payee, |x: PayeeV| payee_jv(x)) + opt_entry("payment_instruction"@, x.deep_view().payment_instruction, |x: PaymentInstructionV| payment_instruction_jv(x))); }
    fs
}

#[verifier::rlimit(100)]
fn encode_purchase_unit_part1(x: &PurchaseUnit, fs: &mut Vec<(String, Json)>)
    ensures
        obj_view(final(fs)@) == obj_view(old(fs)@) + opt_str_entry("description"@, x.deep_view().description) + opt_str_entry("custom_id"@, x.deep_view().custom_id) + opt_str_entry("invoice_id"@, x.deep_view().invoice_id) + opt_str_entry("id"@, x.deep_view().id),
{
    match &x.description {
        Some(v) => { push_field(fs, "description", Json::Str(v.clone())); },
        None => {},
    }
    match &x.custom_id {
        Some(v) => { push_field(fs, "custom_id", Json::Str(v.clone())); },
        None => {},
    }
    match &x.invoice_id {
        Some(v) => { push_field(fs, "invoice_id", Json::Str(v.clone())); },
        None => {},
    }
    match &x.id {
        Some(v) => { push_field(fs, "id", Json::Str(v.clone())); },
        None => {},
    }
    proof { assert(obj_view(fs@) =~= obj_view(old(fs)@) + opt_str_entry("description"@, x.deep_view().description) + opt_str_entry("custom_id"@, x.deep_view().custom_id) + opt_str_entry("invoice_id"@, x.deep_view().invoice_id) + opt_str_entry("id"@, x.deep_view().id)); }
}

#[verifier::rlimit(100)]
fn encode_purchase_unit_part2(x: &PurchaseUnit, fs: &mut Vec<(String, Json)>)
    ensures
        obj_view(final(fs)@) == obj_view(old(fs)@) + opt_str_entry("soft_descriptor"@, x.deep_view().soft_descriptor) + opt_entry("items"@, x.deep_view().items, |x: Seq<ItemV>| Jv::Arr(item_list_jv(x))) + opt_entry("shipping"@, x.deep_view().shipping, |x: ShippingDetailV| shipping_detail_jv(x)) + opt_entry("payments"@, x.deep_view().payments, |x: PaymentCollectionV| payment_collection_jv(x)),
{
    match &x.soft_descriptor {
        Some(v) => { push_field(fs, "soft_descriptor", Json::Str(v.clone())); },
        None => {},
    }
    match &x.items {
        Some(v) => { push_field(fs, "items", encode_item_vec(v)); },
        None => {},
    }
    match &x.shipping {
        Some(v) => { push_field(fs, "shipping", encode_shipping_detail(v)); },
        None => {},
    }
    match &x.payments {
        Some(v) => { push_field(fs, "payments", encode_payment_collection(v)); },
        None => {},
    }
    proof { assert(obj_view(fs@) =~= obj_view(old(fs)@) + opt_str_entry("soft_descriptor"@, x.deep_view().soft_descriptor) + opt_entry("items"@, x.deep_view().items, |x: Seq<ItemV>| Jv::Arr(item_list_jv(x))) + opt_entry("shipping"@, x.deep_view().shipping, |x: ShippingDetailV| shipping_detail_jv(x)) + opt_entry("payments"@, x.deep_view().payments, |x: PaymentCollectionV| payment_collection_jv(x))); }
}

#[verifier::rlimit(100)]
pub fn encode_purchase_unit(x: &PurchaseUnit) -> (j: Json)
    ensures
        j@ == purchase_unit_jv(x.deep_view()),
{
    let mut fs = encode_purchase_unit_part0(x);
    encode_purchase_unit_part1(x, &mut fs);
    encode_purchase_unit_part2(x, &mut fs);
    let r = Json::Obj(fs);
    proof {
        assert(r@->Obj_0 =~= obj_view(r->Obj_0@));
        assert(r@ == purchase_unit_jv(x.deep_view()));
    }
    r
}

#[verifier::rlimit(100)]
pub fn decode_purchase_unit(j: &Json) -> (r: Option<PurchaseUnit>)
    ensures
        r matches Some(x) ==> purchase_unit_of_jv(j@) == Some(x.deep_view()),
        r is None ==> purchase_unit_of_jv(j@) is None,
{
    match j {
        Json::Obj(fs) => {
            proof {
                assert(j@->Obj_0 =~= obj_view(fs@));
            }
            let f_reference_id = match get_opt_str(fs, "reference_id") {
                Some(v) => v,
                None => { return None; },
            };
            let f_amount = match get_field(fs, "amount") {
                Some(x) => match decode_amount(x) {
                    Some(v) => v,
                    None => { return None; },
                },
                None => { return None; },
            };
            let f_payee = match get_field(fs, "payee") {
                None => None,
                Some(x) => match decode_payee(x) {
                    Some(v) => Some(v),
                    None => { return None; },
                },
            };
            let f_payment_instruction = match get_field(fs, "payment_instruction") {
                None => None,
                Some(x) => match decode_payment_instruction(x) {
                    Some(v) => Some(v),
                    None => { return None; },
                },
            };
            let f_description = match get_opt_str(fs, "description") {
                Some(v) => v,
                None => { return None; },
            };
            let f_custom_id = match get_opt_str(fs, "custom_id") {
                Some(v) => v,
                None => { return None; },
            };
            let f_invoice_id = match get_opt_str(fs, "invoice_id") {
                Some(v) => v,
                None => { return None; },
            };
            let f_id = match get_opt_str(fs, "id") {
                Some(v) => v,
                None => { return None; },
            };
            let f_soft_descriptor = match get_opt_str(fs, "soft_descriptor") {
                Some(v) => v,
                None => { return None; },
            };
            let f_items = match get_field(fs, "items") {
                None => None,
                Some(x) => match x {
                    Json::Arr(items) => {
                        proof { assert(x@->Arr_0 =~= arr_view(items@)); }
                        match decode_item_vec(items) {
                            Some(v) => Some(v),
                            None => { return None; },
                        }
                    },
                    _ => { return None; },
                },
            };
            let f_shipping = match get_field(fs, "shipping") {
                None => None,
                Some(x) => match decode_shipping_detail(x) {
                    Some(v) => Some(v),
                    None => { return None; },
                },
            };
            let f_payments = match get_field(fs, "payments") {
                None => None,
                Some(x) => match decode_payment_collection(x) {
                    Some(v) => Some(v),
                    None => { return None; },
                },
            };
            Some(PurchaseUnit {
                reference_id: f_reference_id,
                amount: f_amount,
                payee: f_payee,
                payment_instruction: f_payment_instruction,
                description: f_description,
                custom_id: f_custom_id,
                invoice_id: f_invoice_id,
                id: f_id,
                soft_descriptor: f_soft_descriptor,
                items: f_items,
                shipping: f_shipping,
                payments: f_payments,
            })
        },
        _ => None,
    }
}

#[verifier::rlimit(100)]
proof fn lemma_purchase_unit_fields_0(v: PurchaseUnitV)
    ensures
        v.reference_id is Some ==> jv_get(purchase_unit_jv(v)->Obj_0, "reference_id"@) == Some(Jv::Str(v.reference_id->Some_0)),
        v.reference_id is None ==> jv_get(purchase_unit_jv(v)->Obj_0, "reference_id"@) is None,
        jv_get(purchase_unit_jv(v)->Obj_0, "amount"@) == Some(amount_jv(v.amount)),
        v.payee is Some ==> jv_get(purchase_unit_jv(v)->Obj_0, "payee"@) == Some(payee_jv(v.payee->Some_0)),
        v.payee is None ==> jv_get(purchase_unit_jv(v)->Obj_0, "payee"@) is None,
        v.payment_instruction is Some ==> jv_get(purchase_unit_jv(v)->Obj_0, "payment_instruction"@) == Some(payment_instruction_jv(v.payment_instruction->Some_0)),
        v.payment_instruction is None ==> jv_get(purchase_unit_jv(v)->Obj_0, "payment_instruction"@) is None,
{
    let fs = purchase_unit_jv(v)->Obj_0;
    reveal_strlit("reference_id");
    assert("reference_id"@ =~= seq!['r','e','f','e','r','e','n','c','e','_','i','d']);
    reveal_strlit("amount");
    assert("amount"@ =~= seq!['a','m','o','u','n','t']);
    reveal_strlit("payee");
    assert("payee"@ =~= seq!['p','a','y','e','e']);
    reveal_strlit("payment_instruction");
    assert("payment_instruction"@ =~= seq!['p','a','y','m','e','n','t','_','i','n','s','t','r','u','c','t','i','o','n']);
    reveal_strlit("description");
    assert("description"@ =~= seq!['d','e','s','c','r','i','p','t','i','o','n']);
    reveal_strlit("custom_id");
    assert("custom_id"@ =~= seq!['c','u','s','t','o','m','_','i','d']);
    reveal_strlit("invoice_id");
    assert("invoice_id"@ =~= seq!['i','n','v','o','i','c','e','_','i','d']);
    reveal_strlit("id");
    assert("id"@ =~= seq!['i','d']);
    reveal_strlit("soft_descriptor");
    assert("soft_descriptor"@ =~= seq!['s','o','f','t','_','d','e','s','c','r','i','p','t','o','r']);
    reveal_strlit("items");
    assert("items"@ =~= seq!['i','t','e','m','s']);
    reveal_strlit("shipping");
    assert("shipping"@ =~= seq!['s','h','i','p','p','i','n','g']);
    reveal_strlit("payments");
    assert("payments"@ =~= seq!['p','a','y','m','e','n','t','s']);
    let e0 = opt_str_entry("reference_id"@, v.reference_id);
    let e1 = entry("amount"@, amount_jv(v.amount));
    let e2 = opt_entry("payee"@, v.payee, |x: PayeeV| payee_jv(x));
    let e3 = opt_entry("payment_instruction"@, v.payment_instruction, |x: PaymentInstructionV| payment_instruction_jv(x));
    let e4 = opt_str_entry("description"@, v.description);
    let e5 = opt_str_entry("custom_id"@, v.custom_id);
    let e6 = opt_str_entry("invoice_id"@, v.invoice_id);
    let e7 = opt_str_entry("id"@, v.id);
    let e8 = opt_str_entry("soft_descriptor"@, v.soft_descriptor);
    let e9 = opt_entry("items"@, v.items, |x: Seq<ItemV>| Jv::Arr(item_list_jv(x)));
    let e10 = opt_entry("shipping"@, v.shipping, |x: ShippingDetailV| shipping_detail_jv(x));
    let e11 = opt_entry("payments"@, v.payments, |x: PaymentCollectionV| payment_collection_jv(x));
    let l0 = e0;
    let l1 = l0 + e1;
    let l2 = l1 + e2;
    let l3 = l2 + e3;
    let l4 = l3 + e4;
    let l5 = l4 + e5;
    let l6 = l5 + e6;
    let l7 = l6 + e7;
    let l8 = l7 + e8;
    let l9 = l8 + e9;
    let l10 = l9 + e10;
    let l11 = l10 + e11;
    let s11 = e11;
    let s10 = e10 + s11;
    let s9 = e9 + s10;
    let s8 = e8 + s9;
    let s7 = e7 + s8;
    let s6 = e6 + s7;
    let s5 = e5 + s6;
    let s4 = e4 + s5;
    let s3 = e3 + s4;
    let s2 = e2 + s3;
    let s1 = e1 + s2;
    let s0 = e0 + s1;
    assert(fs == l11);
    lemma_concat_associative(l9, e10, s11);
    lemma_concat_associative(l8, e9, s10);
    lemma_concat_associative(l7, e8, s9);
    lemma_concat_associative(l6, e7, s8);
    lemma_concat_associative(l5, e6, s7);
    lemma_concat_associative(l4, e5, s6);
    lemma_concat_associative(l3, e4, s5);
    lemma_concat_associative(l2, e3, s4);
    lemma_concat_associative(l1, e2, s3);
    lemma_concat_associative(l0, e1, s2);
    assert(fs == s0);
    if v.reference_id is Some {
        lemma_jv_get_head(s0, "reference_id"@);
    } else {
        lemma_jv_get_skip(e0, s1, "reference_id"@);
        lemma_jv_get_skip(e1, s2, "reference_id"@);
        lemma_jv_get_skip(e2, s3, "reference_id"@);
        lemma_jv_get_skip(e3, s4, "reference_id"@);
        lemma_jv_get_skip(e4, s5, "reference_id"@);
        lemma_jv_get_skip(e5, s6, "reference_id"@);
        lemma_jv_get_skip(e6, s7, "reference_id"@);
        lemma_jv_get_skip(e7, s8, "reference_id"@);
        lemma_jv_get_skip(e8, s9, "reference_id"@);
        lemma_jv_get_skip(e9, s10, "reference_id"@);
        lemma_jv_get_skip(e10, s11, "reference_id"@);
        lemma_jv_get_absent(s11, "reference_id"@);
    }
    lemma_jv_get_skip(e0, s1, "amount"@);
    lemma_jv_get_head(s1, "amount"@);
    if v.payee is Some {
        lemma_jv_get_skip(e0, s1, "payee"@);
        lemma_jv_get_skip(e1, s2, "payee"@);
        lemma_jv_get_head(s2, "payee"@);
    } else {
        lemma_jv_get_skip(e0, s1, "payee"@);
        lemma_jv_get_skip(e1, s2, "payee"@);
        lemma_jv_get_skip(e2, s3, "payee"@);
        lemma_jv_get_skip(e3, s4, "payee"@);
        lemma_jv_get_skip(e4, s5, "payee"@);
        lemma_jv_get_skip(e5, s6, "payee"@);
        lemma_jv_get_skip(e6, s7, "payee"@);
        lemma_jv_get_skip(e7, s8, "payee"@);
        lemma_jv_get_skip(e8, s9, "payee"@);
        lemma_jv_get_skip(e9, s10, "payee"@);
        lemma_jv_get_skip(e10, s11, "payee"@);
        lemma_jv_get_absent(s11, "payee"@);
    }
    if v.payment_instruction is Some {
        lemma_jv_get_skip(e0, s1, "payment_instruction"@);
        lemma_jv_get_skip(e1, s2, "payment_instruction"@);
        lemma_jv_get_skip(e2, s3, "payment_instruction"@);
        lemma_jv_get_head(s3, "payment_instruction"@);
    } else {
        lemma_jv_get_skip(e0, s1, "payment_instruction"@);
        lemma_jv_get_skip(e1, s2, "payment_instruction"@);
        lemma_jv_get_skip(e2, s3, "payment_instruction"@);
        lemma_jv_get_skip(e3, s4, "payment_instruction"@);
        lemma_jv_get_skip(e4, s5, "payment_instruction"@);
        lemma_jv_get_skip(e5, s6, "payment_instruction"@);
        lemma_jv_get_skip(e6, s7, "payment_instruction"@);
        lemma_jv_get_skip(e7, s8, "payment_instruction"@);
        lemma_jv_get_skip(e8, s9, "payment_instruction"@);
        lemma_jv_get_skip(e9, s10, "payment_instruction"@);
        lemma_jv_get_skip(e10, s11, "payment_instruction"@);
        lemma_jv_get_absent(s11, "payment_instruction"@);
    }
}

#[verifier::rlimit(100)]
proof fn lemma_purchase_unit_fields_1(v: PurchaseUnitV)
    ensures
        v.description is Some ==> jv_get(purchase_unit_jv(v)->Obj_0, "description"@) == Some(Jv::Str(v.description->Some_0)),
        v.description is None ==> jv_get(purchase_unit_jv(v)->Obj_0, "description"@) is None,
        v.custom_id is Some ==> jv_get(purchase_unit_jv(v)->Obj_0, "custom_id"@) == Some(Jv::Str(v.custom_id->Some_0)),
        v.custom_id is None ==> jv_get(purchase_unit_jv(v)->Obj_0, "custom_id"@) is None,
        v.invoice_id is Some ==> jv_get(purchase_unit_jv(v)->Obj_0, "invoice_id"@) == Some(Jv::Str(v.invoice_id->Some_0)),
        v.invoice_id is None ==> jv_get(purchase_unit_jv(v)->Obj_0, "invoice_id"@) is None,
        v.id is Some ==> jv_get(purchase_unit_jv(v)->Obj_0, "id"@) == Some(Jv::Str(v.id->Some_0)),
        v.id is None ==> jv_get(purchase_unit_jv(v)->Obj_0, "id"@) is None,
{
    let fs = purchase_unit_jv(v)->Obj_0;
    reveal_strlit("reference_id");
    assert("reference_id"@ =~= seq!['r','e','f','e','r','e','n','c','e','_','i','d']);
    reveal_strlit("amount");
    assert("amount"@ =~= seq!['a','m','o','u','n','t']);
    reveal_strlit("payee");
    assert("payee"@ =~= seq!['p','a','y','e','e']);
    reveal_strlit("payment_instruction");
    assert("payment_instruction"@ =~= seq!['p','a','y','m','e','n','t','_','i','n','s','t','r','u','c','t','i','o','n']);
    reveal_strlit("description");
    assert("description"@ =~= seq!['d','e','s','c','r','i','p','t','i','o','n']);
    reveal_strlit("custom_id");
    assert("custom_id"@ =~= seq!['c','u','s','t','o','m','_','i','d']);
    reveal_strlit("invoice_id");
    assert("invoice_id"@ =~= seq!['i','n','v','o','i','c','e','_','i','d']);
    reveal_strlit("id");
    assert("id"@ =~= seq!['i','d']);
    reveal_strlit("soft_descriptor");
    assert("soft_descriptor"@ =~= seq!['s','o','f','t','_','d','e','s','c','r','i','p','t','o','r']);
    reveal_strlit("items");
    assert("items"@ =~= seq!['i','t','e','m','s']);
    reveal_strlit("shipping");
    assert("shipping"@ =~= seq!['s','h','i','p','p','i','n','g']);
    reveal_strlit("payments");
    assert("payments"@ =~= seq!['p','a','y','m','e','n','t','s']);
    let e0 = opt_str_entry("reference_id"@, v.reference_id);
    let e1 = entry("amount"@, amount_jv(v.amount));
    let e2 = opt_entry("payee"@, v.payee, |x: PayeeV| payee_jv(x));
    let e3 = opt_entry("payment_instruction"@, v.payment_instruction, |x: PaymentInstructionV| payment_instruction_jv(x));
    let e4 = opt_str_entry("description"@, v.description);
    let e5 = opt_str_entry("custom_id"@, v.custom_id);
    let e6 = opt_str_entry("invoice_id"@, v.invoice_id);
    let e7 = opt_str_entry("id"@, v.id);
    let e8 = opt_str_entry("soft_descriptor"@, v.soft_descriptor);
    let e9 = opt_entry("items"@, v.items, |x: Seq<ItemV>| Jv::Arr(item_list_jv(x)));
    let e10 = opt_entry("shipping"@, v.shipping, |x: ShippingDetailV| shipping_detail_jv(x));
    let e11 = opt_entry("payments"@, v.payments, |x: PaymentCollectionV| payment_collection_jv(x));
    let l0 = e0;
    let l1 = l0 + e1;
    let l2 = l1 + e2;
    let l3 = l2 + e3;
    let l4 = l3 + e4;
    let l5 = l4 + e5;
    let l6 = l5 + e6;
    let l7 = l6 + e7;
    let l8 = l7 + e8;
    let l9 = l8 + e9;
    let l10 = l9 + e10;
    let l11 = l10 + e11;
    let s11 = e11;
    let s10 = e10 + s11;
    let s9 = e9 + s10;
    let s8 = e8 + s9;
    let s7 = e7 + s8;
    let s6 = e6 + s7;
    let s5 = e5 + s6;
    let s4 = e4 + s5;
    let s3 = e3 + s4;
    let s2 = e2 + s3;
    let s1 = e1 + s2;
    let s0 = e0 + s1;
    assert(fs == l11);
    lemma_concat_associative(l9, e10, s11);
    lemma_concat_associative(l8, e9, s10);
    lemma_concat_associative(l7, e8, s9);
    lemma_concat_associative(l6, e7, s8);
    lemma_concat_associative(l5, e6, s7);
    lemma_concat_associative(l4, e5, s6);
    lemma_concat_associative(l3, e4, s5);
    lemma_concat_associative(l2, e3, s4);
    lemma_concat_associative(l1, e2, s3);
    lemma_concat_associative(l0, e1, s2);
    assert(fs == s0);
    if v.description is Some {
        lemma_jv_get_skip(e0, s1, "description"@);
        lemma_jv_get_skip(e1, s2, "description"@);
        lemma_jv_get_skip(e2, s3, "description"@);
        lemma_jv_get_skip(e3, s4, "description"@);
        lemma_jv_get_head(s4, "description"@);
    } else {
        lemma_jv_get_skip(e0, s1, "description"@);
        lemma_jv_get_skip(e1, s2, "description"@);
        lemma_jv_get_skip(e2, s3, "description"@);
        lemma_jv_get_skip(e3, s4, "description"@);
        lemma_jv_get_skip(e4, s5, "description"@);
        lemma_jv_get_skip(e5, s6, "description"@);
        lemma_jv_get_skip(e6, s7, "description"@);
        lemma_jv_get_skip(e7, s8, "description"@);
        lemma_jv_get_skip(e8, s9, "description"@);
        lemma_jv_get_skip(e9, s10, "description"@);
        lemma_jv_get_skip(e10, s11, "description"@);
        lemma_jv_get_absent(s11, "description"@);
    }
    if v.custom_id is Some {
        lemma_jv_get_skip(e0, s1, "custom_id"@);
        lemma_jv_get_skip(e1, s2, "custom_id"@);
        lemma_jv_get_skip(e2, s3, "custom_id"@);
        lemma_jv_get_skip(e3, s4, "custom_id"@);
        lemma_jv_get_skip(e4, s5, "custom_id"@);
        lemma_jv_get_head(s5, "custom_id"@);
    } else {
        lemma_jv_get_skip(e0, s1, "custom_id"@);
        lemma_jv_get_skip(e1, s2, "custom_id"@);
        lemma_jv_get_skip(e2, s3, "custom_id"@);
        lemma_jv_get_skip(e3, s4, "custom_id"@);
        lemma_jv_get_skip(e4, s5, "custom_id"@);
        lemma_jv_get_skip(e5, s6, "custom_id"@);
        lemma_jv_get_skip(e6, s7, "custom_id"@);
        lemma_jv_get_skip(e7, s8, "custom_id"@);
        lemma_jv_get_skip(e8, s9, "custom_id"@);
        lemma_jv_get_skip(e9, s10, "custom_id"@);
        lemma_jv_get_skip(e10, s11, "custom_id"@);
        lemma_jv_get_absent(s11, "custom_id"@);
    }
    if v.invoice_id is Some {
        lemma_jv_get_skip(e0, s1, "invoice_id"@);
        lemma_jv_get_skip(e1, s2, "invoice_id"@);
        lemma_jv_get_skip(e2, s3, "invoice_id"@);
        lemma_jv_get_skip(e3, s4, "invoice_id"@);
        lemma_jv_get_skip(e4, s5, "invoice_id"@);
        lemma_jv_get_skip(e5, s6, "invoice_id"@);
        lemma_jv_get_head(s6, "invoice_id"@);
    } else {
        lemma_jv_get_skip(e0, s1, "invoice_id"@);
        lemma_jv_get_skip(e1, s2, "invoice_id"@);
        lemma_jv_get_skip(e2, s3, "invoice_id"@);
        lemma_jv_get_skip(e3, s4, "invoice_id"@);
        lemma_jv_get_skip(e4, s5, "invoice_id"@);
        lemma_jv_get_skip(e5, s6, "invoice_id"@);
        lemma_jv_get_skip(e6, s7, "invoice_id"@);
        lemma_jv_get_skip(e7, s8, "invoice_id"@);
        lemma_jv_get_skip(e8, s9, "invoice_id"@);
        lemma_jv_get_skip(e9, s10, "invoice_id"@);
        lemma_jv_get_skip(e10, s11, "invoice_id"@);
        lemma_jv_get_absent(s11, "invoice_id"@);
    }
    if v.id is Some {
        lemma_jv_get_skip(e0, s1, "id"@);
        lemma_jv_get_skip(e1, s2, "id"@);
        lemma_jv_get_skip(e2, s3, "id"@);
        lemma_jv_get_skip(e3, s4, "id"@);
        lemma_jv_get_skip(e4, s5, "id"@);
        lemma_jv_get_skip(e5, s6, "id"@);
        lemma_jv_get_skip(e6, s7, "id"@);
        lemma_jv_get_head(s7, "id"@);
    } else {
        lemma_jv_get_skip(e0, s1, "id"@);
        lemma_jv_get_skip(e1, s2, "id"@);
        lemma_jv_get_skip(e2, s3, "id"@);
        lemma_jv_get_skip(e3, s4, "id"@);
        lemma_jv_get_skip(e4, s5, "id"@);
        lemma_jv_get_skip(e5, s6, "id"@);
        lemma_jv_get_skip(e6, s7, "id"@);
        lemma_jv_get_skip(e7, s8, "id"@);
        lemma_jv_get_skip(e8, s9, "id"@);
        lemma_jv_get_skip(e9, s10, "id"@);
        lemma_jv_get_skip(e10, s11, "id"@);
        lemma_jv_get_absent(s11, "id"@);
    }
}

#[verifier::rlimit(100)]
proof fn lemma_purchase_unit_fields_2(v: PurchaseUnitV)
    ensures
        v.soft_descriptor is Some ==> jv_get(purchase_unit_jv(v)->Obj_0, "soft_descriptor"@) == Some(Jv::Str(v.soft_descriptor->Some_0)),
        v.soft_descriptor is None ==> jv_get(purchase_unit_jv(v)->Obj_0, "soft_descriptor"@) is None,
        v.items is Some ==> jv_get(purchase_unit_jv(v)->Obj_0, "items"@) == Some(Jv::Arr(item_list_jv(v.items->Some_0))),
        v.items is None ==> jv_get(purchase_unit_jv(v)->Obj_0, "items"@) is None,
        v.shipping is Some ==> jv_get(purchase_unit_jv(v)->Obj_0, "shipping"@) == Some(shipping_detail_jv(v.shipping->Some_0)),
        v.shipping is None ==> jv_get(purchase_unit_jv(v)->Obj_0, "shipping"@) is None,
        v.payments is Some ==> jv_get(purchase_unit_jv(v)->Obj_0, "payments"@) == Some(payment_collection_jv(v.payments->Some_0)),
        v.payments is None ==> jv_get(purchase_unit_jv(v)->Obj_0, "payments"@) is None,
{
    let fs = purchase_unit_jv(v)->Obj_0;
    reveal_strlit("reference_id");
    assert("reference_id"@ =~= seq!['r','e','f','e','r','e','n','c','e','_','i','d']);
    reveal_strlit("amount");
    assert("amount"@ =~= seq!['a','m','o','u','n','t']);
    reveal_strlit("payee");
    assert("payee"@ =~= seq!['p','a','y','e','e']);
    reveal_strlit("payment_instruction");
    assert("payment_instruction"@ =~= seq!['p','a','y','m','e','n','t','_','i','n','s','t','r','u','c','t','i','o','n']);
    reveal_strlit("description");
    assert("description"@ =~= seq!['d','e','s','c','r','i','p','t','i','o','n']);
    reveal_strlit("custom_id");
    assert("custom_id"@ =~= seq!['c','u','s','t','o','m','_','i','d']);
    reveal_strlit("invoice_id");
    assert("invoice_id"@ =~= seq!['i','n','v','o','i','c','e','_','i','d']);
    reveal_strlit("id");
    assert("id"@ =~= seq!['i','d']);
    reveal_strlit("soft_descriptor");
    assert("soft_descriptor"@ =~= seq!['s','o','f','t','_','d','e','s','c','r','i','p','t','o','r']);
    reveal_strlit("items");
    assert("items"@ =~= seq!['i','t','e','m','s']);
    reveal_strlit("shipping");
    assert("shipping"@ =~= seq!['s','h','i','p','p','i','n','g']);
    reveal_strlit("payments");
    assert("payments"@ =~= seq!['p','a','y','m','e','n','t','s']);
    let e0 = opt_str_entry("reference_id"@, v.reference_id);
    let e1 = entry("amount"@, amount_jv(v.amount));
    let e2 = opt_entry("payee"@, v.payee, |x: PayeeV| payee_jv(x));
    let e3 = opt_entry("payment_instruction"@, v.payment_instruction, |x: PaymentInstructionV| payment_instruction_jv(x));
    let e4 = opt_str_entry("description"@, v.description);
    let e5 = opt_str_entry("custom_id"@, v.custom_id);
    let e6 = opt_str_entry("invoice_id"@, v.invoice_id);
    let e7 = opt_str_entry("id"@, v.id);
    let e8 = opt_str_entry("soft_descriptor"@, v.soft_descriptor);
    let e9 = opt_entry("items"@, v.items, |x: Seq<ItemV>| Jv::Arr(item_list_jv(x)));
    let e10 = opt_entry("shipping"@, v.shipping, |x: ShippingDetailV| shipping_detail_jv(x));
    let e11 = opt_entry("payments"@, v.payments, |x: PaymentCollectionV| payment_collection_jv(x));
    let l0 = e0;
    let l1 = l0 + e1;
    let l2 = l1 + e2;
    let l3 = l2 + e3;
    let l4 = l3 + e4;
    let l5 = l4 + e5;
    let l6 = l5 + e6;
    let l7 = l6 + e7;
    let l8 = l7 + e8;
    let l9 = l8 + e9;
    let l10 = l9 + e10;
    let l11 = l10 + e11;
    let s11 = e11;
    let s10 = e10 + s11;
    let s9 = e9 + s10;
    let s8 = e8 + s9;
    let s7 = e7 + s8;
    let s6 = e6 + s7;
    let s5 = e5 + s6;
    let s4 = e4 + s5;
    let s3 = e3 + s4;
    let s2 = e2 + s3;
    let s1 = e1 + s2;
    let s0 = e0 + s1;
    assert(fs == l11);
    lemma_concat_associative(l9, e10, s11);
    lemma_concat_associative(l8, e9, s10);
    lemma_concat_associative(l7, e8, s9);
    lemma_concat_associative(l6, e7, s8);
    lemma_concat_associative(l5, e6, s7);
    lemma_concat_associative(l4, e5, s6);
    lemma_concat_associative(l3, e4, s5);
    lemma_concat_associative(l2, e3, s4);
    lemma_concat_associative(l1, e2, s3);
    lemma_concat_associative(l0, e1, s2);
    assert(fs == s0);
    if v.soft_descriptor is Some {
        lemma_jv_get_skip(e0, s1, "soft_descriptor"@);
        lemma_jv_get_skip(e1, s2, "soft_descriptor"@);
        lemma_jv_get_skip(e2, s3, "soft_descriptor"@);
        lemma_jv_get_skip(e3, s4, "soft_descriptor"@);
        lemma_jv_get_skip(e4, s5, "soft_descriptor"@);
        lemma_jv_get_skip(e5, s6, "soft_descriptor"@);
        lemma_jv_get_skip(e6, s7, "soft_descriptor"@);
        lemma_jv_get_skip(e7, s8, "soft_descriptor"@);
        lemma_jv_get_head(s8, "soft_descriptor"@);
    } else {
        lemma_jv_get_skip(e0, s1, "soft_descriptor"@);
        lemma_jv_get_skip(e1, s2, "soft_descriptor"@);
        lemma_jv_get_skip(e2, s3, "soft_descriptor"@);
        lemma_jv_get_skip(e3, s4, "soft_descriptor"@);
        lemma_jv_get_skip(e4, s5, "soft_descriptor"@);
        lemma_jv_get_skip(e5, s6, "soft_descriptor"@);
        lemma_jv_get_skip(e6, s7, "soft_descriptor"@);
        lemma_jv_get_skip(e7, s8, "soft_descriptor"@);
        lemma_jv_get_skip(e8, s9, "soft_descriptor"@);
        lemma_jv_get_skip(e9, s10, "soft_descriptor"@);
        lemma_jv_get_skip(e10, s11, "soft_descriptor"@);
        lemma_jv_get_absent(s11, "soft_descriptor"@);
    }
    if v.items is Some {
        lemma_jv_get_skip(e0, s1, "items"@);
        lemma_jv_get_skip(e1, s2, "items"@);
        lemma_jv_get_skip(e2, s3, "items"@);
        lemma_jv_get_skip(e3, s4, "items"@);
        lemma_jv_get_skip(e4, s5, "items"@);
        lemma_jv_get_skip(e5, s6, "items"@);
        lemma_jv_get_skip(e6, s7, "items"@);
        lemma_jv_get_skip(e7, s8, "items"@);
        lemma_jv_get_skip(e8, s9, "items"@);
        lemma_jv_get_head(s9, "items"@);
    } else {
        lemma_jv_get_skip(e0, s1, "items"@);
        lemma_jv_get_skip(e1, s2, "items"@);
        lemma_jv_get_skip(e2, s3, "items"@);
        lemma_jv_get_skip(e3, s4, "items"@);
        lemma_jv_get_skip(e4, s5, "items"@);
        lemma_jv_get_skip(e5, s6, "items"@);
        lemma_jv_get_skip(e6, s7, "items"@);
        lemma_jv_get_skip(e7, s8, "items"@);
        lemma_jv_get_skip(e8, s9, "items"@);
        lemma_jv_get_skip(e9, s10, "items"@);
        lemma_jv_get_skip(e10, s11, "items"@);
        lemma_jv_get_absent(s11, "items"@);
    }
    if v.shipping is Some {
        lemma_jv_get_skip(e0, s1, "shipping"@);
        lemma_jv_get_skip(e1, s2, "shipping"@);
        lemma_jv_get_skip(e2, s3, "shipping"@);
        lemma_jv_get_skip(e3, s4, "shipping"@);
        lemma_jv_get_skip(e4, s5, "shipping"@);
        lemma_jv_get_skip(e5, s6, "shipping"@);
        lemma_jv_get_skip(e6, s7, "shipping"@);
        lemma_jv_get_skip(e7, s8, "shipping"@);
        lemma_jv_get_skip(e8, s9, "shipping"@);
        lemma_jv_get_skip(e9, s10, "shipping"@);
        lemma_jv_get_head(s10, "shipping"@);
    } else {
        lemma_jv_get_skip(e0, s1, "shipping"@);
        lemma_jv_get_skip(e1, s2, "shipping"@);
        lemma_jv_get_skip(e2, s3, "shipping"@);
        lemma_jv_get_skip(e3, s4, "shipping"@);
        lemma_jv_get_skip(e4, s5, "shipping"@);
        lemma_jv_get_skip(e5, s6, "shipping"@);
        lemma_jv_get_skip(e6, s7, "shipping"@);
        lemma_jv_get_skip(e7, s8, "shipping"@);
        lemma_jv_get_skip(e8, s9, "shipping"@);
        lemma_jv_get_skip(e9, s10, "shipping"@);
        lemma_jv_get_skip(e10, s11, "shipping"@);
        lemma_jv_get_absent(s11, "shipping"@);
    }
    if v.payments is Some {
        lemma_jv_get_skip(e0, s1, "payments"@);
        lemma_jv_get_skip(e1, s2, "payments"@);
        lemma_jv_get_skip(e2, s3, "payments"@);
        lemma_jv_get_skip(e3, s4, "payments"@);
        lemma_jv_get_skip(e4, s5, "payments"@);
        lemma_jv_get_skip(e5, s6, "payments"@);
        lemma_jv_get_skip(e6, s7, "payments"@);
        lemma_jv_get_skip(e7, s8, "payments"@);
        lemma_jv_get_skip(e8, s9, "payments"@);
        lemma_jv_get_skip(e9, s10, "payments"@);
        lemma_jv_get_skip(e10, s11, "payments"@);
        lemma_jv_get_head(s11, "payments"@);
    } else {
        lemma_jv_get_skip(e0, s1, "payments"@);
        lemma_jv_get_skip(e1, s2, "payments"@);
        lemma_jv_get_skip(e2, s3, "payments"@);
        lemma_jv_get_skip(e3, s4, "payments"@);
        lemma_jv_get_skip(e4, s5, "payments"@);
        lemma_jv_get_skip(e5, s6, "payments"@);
        lemma_jv_get_skip(e6, s7, "payments"@);
        lemma_jv_get_skip(e7, s8, "payments"@);
        lemma_jv_get_skip(e8, s9, "payments"@);
        lemma_jv_get_skip(e9, s10, "payments"@);
        lemma_jv_get_skip(e10, s11, "payments"@);
        lemma_jv_get_absent(s11, "payments"@);
    }
}

/// A record of this type decodes back to itself after encoding.
#[verifier::rlimit(100)]
pub proof fn lemma_purchase_unit_round_trip(v: PurchaseUnitV)
    ensures
        purchase_unit_of_jv(purchase_unit_jv(v)) == Some(v),
{
    lemma_purchase_unit_fields_0(v);
    lemma_purchase_unit_fields_1(v);
    lemma_purchase_unit_fields_2(v);
    lemma_amount_round_trip(v.amount);
    if v.payee is Some {
        lemma_payee_round_trip(v.payee->Some_0);
    }
    if v.payment_instruction is Some {
        lemma_payment_instruction_round_trip(v.payment_instruction->Some_0);
    }
    if v.items is Some {
        lemma_item_list_round_trip(v.items->Some_0);
    }
    if v.shipping is Some {
        lemma_shipping_detail_round_trip(v.shipping->Some_0);
    }
    if v.payments is Some {
        lemma_payment_collection_round_trip(v.payments->Some_0);
    }
}

/// The items of an encoded list of purchase units.
pub open spec fn purchase_unit_list_jv(items: Seq<PurchaseUnitV>) -> Seq<Jv> {
    Seq::new(items.len(), |i: int| purchase_unit_jv(items[i]))
}

/// Whether every item of a JSON list decodes as one of purchase units.
pub open spec fn purchase_unit_list_of_jv_ok(items: Seq<Jv>) -> bool {
    forall|i: int| 0 <= i < items.len() ==> (#[trigger] purchase_unit_of_jv(items[i])) is Some
}

/// The items of a decoded list of purchase units: every item must decode.
pub open spec fn purchase_unit_list_of_jv(items: Seq<Jv>) -> Option<Seq<PurchaseUnitV>> {
    if purchase_unit_list_of_jv_ok(items) {
        Some(Seq::new(items.len(), |i: int| purchase_unit_of_jv(items[i])->Some_0))
    } else {
        None
    }
}

/// A decoded list node of purchase units.
pub open spec fn purchase_unit_arr_of_jv(j: Jv) -> Option<Seq<PurchaseUnitV>> {
    match j {
        Jv::Arr(items) => purchase_unit_list_of_jv(items),
        _ => None,
    }
}

/// A list of purchase units decodes back to the items it was encoded from.
pub proof fn lemma_purchase_unit_list_round_trip(items: Seq<PurchaseUnitV>)
    ensures
        purchase_unit_list_of_jv(purchase_unit_list_jv(items)) == Some(items),
{
    let js = purchase_unit_list_jv(items);
    assert forall|i: int| 0 <= i < js.len() implies purchase_unit_of_jv(#[trigger] js[i]) == Some(
        items[i],
    ) by {
        lemma_purchase_unit_round_trip(items[i]);
    }
    assert(Seq::new(js.len(), |i: int| purchase_unit_of_jv(js[i])->Some_0) =~= items);
}

pub fn encode_purchase_unit_vec(v: &Vec<PurchaseUnit>) -> (j: Json)
    ensures
        j@ == Jv::Arr(purchase_unit_list_jv(v.deep_view())),
{
    let mut items: Vec<Json> = Vec::new();
    let mut i: usize = 0;
    while i < v.len()
        invariant
            i <= v.len(),
            items@.len() == i as nat,
            forall|k: int| 0 <= k < i ==> (#[trigger] items@[k]@) == purchase_unit_jv(v.deep_view()[k]),
        decreases v.len() - i,
    {
        items.push(encode_purchase_unit(&v[i]));
        i += 1;
    }
    let r = Json::Arr(items);
    proof {
        assert(r@->Arr_0.len() == v.deep_view().len());
        assert forall|k: int| 0 <= k < v.deep_view().len() implies r@->Arr_0[k] == purchase_unit_jv(
            v.deep_view()[k],
        ) by {
            assert(items@[k]@ == purchase_unit_jv(v.deep_view()[k]));
        }
        assert(r@->Arr_0 =~= purchase_unit_list_jv(v.deep_view()));
    }
    r
}

pub fn decode_purchase_unit_vec(items: &Vec<Json>) -> (r: Option<Vec<PurchaseUnit>>)
    ensures
        r matches Some(v) ==> purchase_unit_list_of_jv(arr_view(items@)) == Some(v.deep_view()),
        r is None ==> purchase_unit_list_of_jv(arr_view(items@)) is None,
{
    let ghost av = arr_view(items@);
    let mut out: Vec<PurchaseUnit> = Vec::new();
    let mut i: usize = 0;
    while i < items.len()
        invariant
            i <= items.len(),
            out@.len() == i as nat,
            av == arr_view(items@),
            forall|k: int| 0 <= k < i ==> (#[trigger] purchase_unit_of_jv(av[k])) == Some(
                out.deep_view()[k],
            ),
        decreases items.len() - i,
    {
        match decode_purchase_unit(&items[i]) {
            Some(x) => { out.push(x); },
            None => {
                proof {
                    assert(purchase_unit_of_jv(av[i as int]) is None);
                }
                return None;
            },
        }
        i += 1;
    }
    proof {
        assert forall|k: int| 0 <= k < av.len() implies (#[trigger] purchase_unit_of_jv(av[k])) is Some by {
        }
        assert(Seq::new(av.len(), |k: int| purchase_unit_of_jv(av[k])->Some_0) =~= out.deep_view());
    }
    Some(out)
}


/// The customer and merchant payment preferences.
#[derive(Debug, Clone, PartialEq, Eq)]
pub struct PaymentMethod {
    pub payer_selected: Option<String>,
    pub payee_preferred: Option<PayeePreferred>,
}

/// The shape of a [`PaymentMethod`].
pub struct PaymentMethodV {
    pub payer_selected: Option<Seq<char>>,
    pub payee_preferred: Option<PayeePreferred>,
}

impl DeepView for PaymentMethod {
    type V = PaymentMethodV;

    open spec fn deep_view(&self) -> PaymentMethodV {
        PaymentMethodV {
            payer_selected: self.payer_selected.deep_view(),
            payee_preferred: self.payee_preferred.deep_view(),
        }
    }
}

pub open spec fn payment_method_jv(v: PaymentMethodV) -> Jv {
    Jv::Obj(
        opt_str_entry("payer_selected"@, v.payer_selected)
        + opt_entry("payee_preferred"@, v.payee_preferred, |x: PayeePreferred| payee_preferred_jv(x))
    )
}

pub open spec fn payment_method_of_jv(j: Jv) -> Option<PaymentMethodV> {
    match j {
        Jv::Obj(fs) => {
            let f_payer_selected = opt_str(fs, "payer_selected"@);
            let f_payee_preferred = opt_field(fs, "payee_preferred"@, |x: Jv| payee_preferred_of_jv(x));
            if f_payer_selected is Some && f_payee_preferred is Some {
                Some(PaymentMethodV {
                    payer_selected: f_payer_selected->Some_0,
                    payee_preferred: f_payee_preferred->Some_0,
                })
            } else {
                None
            }
        },
        _ => None,
    }
}

pub fn encode_payment_method(x: &PaymentMethod) -> (j: Json)
    ensures
        j@ == payment_method_jv(x.deep_view()),
{
    let mut fs: Vec<(String, Json)> = Vec::new();
    match &x.payer_selected {
        Some(v) => { push_field(&mut fs, "payer_selected", Json::Str(v.clone())); },
        None => {},
    }
    match &x.payee_preferred {
        Some(v) => { push_field(&mut fs, "payee_preferred", encode_payee_preferred(v)); },
        None => {},
    }
    let r = Json::Obj(fs);
    proof {
        assert(r@->Obj_0 =~= payment_method_jv(x.deep_view())->Obj_0);
        assert(r@ == payment_method_jv(x.deep_view()));
    }
    r
}

pub fn decode_payment_method(j: &Json) -> (r: Option<PaymentMethod>)
    ensures
        r matches Some(x) ==> payment_method_of_jv(j@) == Some(x.deep_view()),
        r is None ==> payment_method_of_jv(j@) is None,
{
    match j {
        Json::Obj(fs) => {
            proof {
                assert(j@->Obj_0 =~= obj_view(fs@));
            }
            let f_payer_selected = match get_opt_str(fs, "payer_selected") {
                Some(v) => v,
                None => { return None; },
            };
            let f_payee_preferred = match get_field(fs, "payee_preferred") {
                None => None,
                Some(x) => match decode_payee_preferred(x) {
                    Some(v) => Some(v),
                    None => { return None; },
                },
            };
            Some(PaymentMethod {
                payer_selected: f_payer_selected,
                payee_preferred: f_payee_preferred,
            })
        },
        _ => None,
    }
}

/// A record of this type decodes back to itself after encoding.
#[verifier::rlimit(100)]
pub proof fn lemma_payment_method_round_trip(v: PaymentMethodV)
    ensures
        payment_method_of_jv(payment_method_jv(v)) == Some(v),
{
    let fs = payment_method_jv(v)->Obj_0;
    reveal_strlit("payer_selected");
    assert("payer_selected"@ =~= seq!['p','a','y','e','r','_','s','e','l','e','c','t','e','d']);
    reveal_strlit("payee_preferred");
    assert("payee_preferred"@ =~= seq!['p','a','y','e','e','_','p','r','e','f','e','r','r','e','d']);
    if v.payer_selected is Some {
        lemma_jv_get_found(fs, "payer_selected"@, 0int);
    } else {
        lemma_jv_get_absent(fs, "payer_selected"@);
    }
    if v.payee_preferred is Some {
        lemma_jv_get_found(fs, "payee_preferred"@, (if v.payer_selected is Some { 1int } else { 0int }));
    } else {
        lemma_jv_get_absent(fs, "payee_preferred"@);
    }
    if v.payee_preferred is Some {
        lemma_payee_preferred_tokens(v.payee_preferred->Some_0, Seq::empty());
    }
}

/// Customizes the payer experience during the approval process for the payment.
#[derive(Debug, Clone, PartialEq, Eq)]
pub struct ApplicationContext {
    pub brand_name: Option<String>,
    pub locale: Option<String>,
    pub landing_page: Option<LandingPage>,
    pub shipping_preference: Option<ShippingPreference>,
    pub user_action: Option<UserAction>,
    pub payment_method: Option<PaymentMethod>,
    pub return_url: Option<String>,
    pub cancel_url: Option<String>,
}

/// The shape of a [`ApplicationContext`].
pub struct ApplicationContextV {
    pub brand_name: Option<Seq<char>>,
    pub locale: Option<Seq<char>>,
    pub landing_page: Option<LandingPage>,
    pub shipping_preference: Option<ShippingPreference>,
    pub user_action: Option<UserAction>,
    pub payment_method: Option<PaymentMethodV>,
    pub return_url: Option<Seq<char>>,
    pub cancel_url: Option<Seq<char>>,
}

impl DeepView for ApplicationContext {
    type V = ApplicationContextV;

    open spec fn deep_view(&self) -> ApplicationContextV {
        ApplicationContextV {
            brand_name: self.brand_name.deep_view(),
            locale: self.locale.deep_view(),
            landing_page: self.landing_page.deep_view(),
            shipping_preference: self.shipping_preference.deep_view(),
            user_action: self.user_action.deep_view(),
            payment_method: self.payment_method.deep_view(),
            return_url: self.return_url.deep_view(),
            cancel_url: self.cancel_url.deep_view(),
        }
    }
}

pub open spec fn application_context_jv(v: ApplicationContextV) -> Jv {
    Jv::Obj(
        opt_str_entry("brand_name"@, v.brand_name)
        + opt_str_entry("locale"@, v.locale)
        + opt_entry("landing_page"@, v.landing_page, |x: LandingPage| landing_page_jv(x))
        + opt_entry("shipping_preference"@, v.shipping_preference, |x: ShippingPreference| shipping_preference_jv(x))
        + opt_entry("user_action"@, v.user_action, |x: UserAction| user_action_jv(x))
        + opt_entry("payment_method"@, v.payment_method, |x: PaymentMethodV| payment_method_jv(x))
        + opt_str_entry("return_url"@, v.return_url)
        + opt_str_entry("cancel_url"@, v.cancel_url)
    )
}

pub open spec fn application_context_of_jv(j: Jv) -> Option<ApplicationContextV> {
    match j {
        Jv::Obj(fs) => {
            let f_brand_name = opt_str(fs, "brand_name"@);
            let f_locale = opt_str(fs, "locale"@);
            let f_landing_page = opt_field(fs, "landing_page"@, |x: Jv| landing_page_of_jv(x));
            let f_shipping_preference = opt_field(fs, "shipping_preference"@, |x: Jv| shipping_preference_of_jv(x));
            let f_user_action = opt_field(fs, "user_action"@, |x: Jv| user_action_of_jv(x));
            let f_payment_method = opt_field(fs, "payment_method"@, |x: Jv| payment_method_of_jv(x));
            let f_return_url = opt_str(fs, "return_url"@);
            let f_cancel_url = opt_str(fs, "cancel_url"@);
            if f_brand_name is Some && f_locale is Some && f_landing_page is Some && f_shipping_preference is Some && f_user_action is Some && f_payment_method is Some && f_return_url is Some && f_cancel_url is Some {
                Some(ApplicationContextV {
                    brand_name: f_brand_name->Some_0,
                    locale: f_locale->Some_0,
                    landing_page: f_landing_page->Some_0,
                    shipping_preference: f_shipping_preference->Some_0,
                    user_action: f_user_action->Some_0,
                    payment_method: f_payment_method->Some_0,
                    return_url: f_return_url->Some_0,
                    cancel_url: f_cancel_url->Some_0,
                })
            } else {
                None
            }
        },
        _ => None,
    }
}

#[verifier::rlimit(100)]
fn encode_application_context_part0(x: &ApplicationContext) -> (fs: Vec<(String, Json)>)
    ensures
        obj_view(fs@) == opt_str_entry("brand_name"@, x.deep_view().brand_name) + opt_str_entry("locale"@, x.deep_view().locale) + opt_entry("landing_page"@, x.deep_view().landing_page, |x: LandingPage| landing_page_jv(x)) + opt_entry("shipping_preference"@, x.deep_view().shipping_preference, |x: ShippingPreference| shipping_preference_jv(x)),
{
    let mut fs: Vec<(String, Json)> = Vec::new();
    match &x.brand_name {
        Some(v) => { push_field(&mut fs, "brand_name", Json::Str(v.clone())); },
        None => {},
    }
    match &x.locale {
        Some(v) => { push_field(&mut fs, "locale", Json::Str(v.clone())); },
        None => {},
    }
    match &x.landing_page {
        Some(v) => { push_field(&mut fs, "landing_page", encode_landing_page(v)); },
        None => {},
    }
    match &x.shipping_preference {
        Some(v) => { push_field(&mut fs, "shipping_preference", encode_shipping_preference(v)); },
        None => {},
    }
    proof { assert(obj_view(fs@) =~= opt_str_entry("brand_name"@, x.deep_view().brand_name) + opt_str_entry("locale"@, x.deep_view().locale) + opt_entry("landing_page"@, x.deep_view().landing_page, |x: LandingPage| landing_page_jv(x)) + opt_entry("shipping_preference"@, x.deep_view().shipping_preference, |x: ShippingPreference| shipping_preference_jv(x))); }
    fs
}

#[verifier::rlimit(100)]
fn encode_application_context_part1(x: &ApplicationContext, fs: &mut Vec<(String, Json)>)
    ensures
        obj_view(final(fs)@) == obj_view(old(fs)@) + opt_entry("user_action"@, x.deep_view().user_action, |x: UserAction| user_action_jv(x)) + opt_entry("payment_method"@, x.deep_view().payment_method, |x: PaymentMethodV| payment_method_jv(x)) + opt_str_entry("return_url"@, x.deep_view().return_url) + opt_str_entry("cancel_url"@, x.deep_view().cancel_url),
{
    match &x.user_action {
        Some(v) => { push_field(fs, "user_action", encode_user_action(v)); },
        None => {},
    }
    match &x.payment_method {
        Some(v) => { push_field(fs, "payment_method", encode_payment_method(v)); },
        None => {},
    }
    match &x.return_url {
        Some(v) => { push_field(fs, "return_url", Json::Str(v.clone())); },
        None => {},
    }
    match &x.cancel_url {
        Some(v) => { push_field(fs, "cancel_url", Json::Str(v.clone())); },
        None => {},
    }
    proof { assert(obj_view(fs@) =~= obj_view(old(fs)@) + opt_entry("user_action"@, x.deep_view().user_action, |x: UserAction| user_action_jv(x)) + opt_entry("payment_method"@, x.deep_view().payment_method, |x: PaymentMethodV| payment_method_jv(x)) + opt_str_entry("return_url"@, x.deep_view().return_url) + opt_str_entry("cancel_url"@, x.deep_view().cancel_url)); }
}

#[verifier::rlimit(100)]
pub fn encode_application_context(x: &ApplicationContext) -> (j: Json)
    ensures
        j@ == application_context_jv(x.deep_view()),
{
    let mut fs = encode_application_context_part0(x);
    encode_application_context_part1(x, &mut fs);
    let r = Json::Obj(fs);
    proof {
        assert(r@->Obj_0 =~= obj_view(r->Obj_0@));
        assert(r@ == application_context_jv(x.deep_view()));
    }
    r
}

#[verifier::rlimit(100)]
pub fn decode_application_context(j: &Json) -> (r: Option<ApplicationContext>)
    ensures
        r matches Some(x) ==> application_context_of_jv(j@) == Some(x.deep_view()),
        r is None ==> application_context_of_jv(j@) is None,
{
    match j {
        Json::Obj(fs) => {
            proof {
                assert(j@->Obj_0 =~= obj_view(fs@));
            }
            let f_brand_name = match get_opt_str(fs, "brand_name") {
                Some(v) => v,
                None => { return None; },
            };
            let f_locale = match get_opt_str(fs, "locale") {
                Some(v) => v,
                None => { return None; },
            };
            let f_landing_page = match get_field(fs, "landing_page") {
                None => None,
                Some(x) => match decode_landing_page(x) {
                    Some(v) => Some(v),
                    None => { return None; },
                },
            };
            let f_shipping_preference = match get_field(fs, "shipping_preference") {
                None => None,
                Some(x) => match decode_shipping_preference(x) {
                    Some(v) => Some(v),
                    None => { return None; },
                },
            };
            let f_user_action = match get_field(fs, "user_action") {
                None => None,
                Some(x) => match decode_user_action(x) {
                    Some(v) => Some(v),
                    None => { return None; },
                },
            };
            let f_payment_method = match get_field(fs, "payment_method") {
                None => None,
                Some(x) => match decode_payment_method(x) {
                    Some(v) => Some(v),
                    None => { return None; },
                },
            };
            let f_return_url = match get_opt_str(fs, "return_url") {
                Some(v) => v,
                None => { return None; },
            };
            let f_cancel_url = match get_opt_str(fs, "cancel_url") {
                Some(v) => v,
                None => { return None; },
            };
            Some(ApplicationContext {
                brand_name: f_brand_name,
                locale: f_locale,
                landing_page: f_landing_page,
                shipping_preference: f_shipping_preference,
                user_action: f_user_action,
                payment_method: f_payment_method,
                return_url: f_return_url,
                cancel_url: f_cancel_url,
            })
        },
        _ => None,
    }
}

#[verifier::rlimit(100)]
proof fn lemma_application_context_fields_0(v: ApplicationContextV)
    ensures
        v.brand_name is Some ==> jv_get(application_context_jv(v)->Obj_0, "brand_name"@) == Some(Jv::Str(v.brand_name->Some_0)),
        v.brand_name is None ==> jv_get(application_context_jv(v)->Obj_0, "brand_name"@) is None,
        v.locale is Some ==> jv_get(application_context_jv(v)->Obj_0, "locale"@) == Some(Jv::Str(v.locale->Some_0)),
        v.locale is None ==> jv_get(application_context_jv(v)->Obj_0, "locale"@) is None,
        v.landing_page is Some ==> jv_get(application_context_jv(v)->Obj_0, "landing_page"@) == Some(landing_page_jv(v.landing_page->Some_0)),
        v.landing_page is None ==> jv_get(application_context_jv(v)->Obj_0, "landing_page"@) is None,
        v.shipping_preference is Some ==> jv_get(application_context_jv(v)->Obj_0, "shipping_preference"@) == Some(shipping_preference_jv(v.shipping_preference->Some_0)),
        v.shipping_preference is None ==> jv_get(application_context_jv(v)->Obj_0, "shipping_preference"@) is None,
{
    let fs = application_context_jv(v)->Obj_0;
    reveal_strlit("brand_name");
    assert("brand_name"@ =~= seq!['b','r','a','n','d','_','n','a','m','e']);
    reveal_strlit("locale");
    assert("locale"@ =~= seq!['l','o','c','a','l','e']);
    reveal_strlit("landing_page");
    assert("landing_page"@ =~= seq!['l','a','n','d','i','n','g','_','p','a','g','e']);
    reveal_strlit("shipping_preference");
    assert("shipping_preference"@ =~= seq!['s','h','i','p','p','i','n','g','_','p','r','e','f','e','r','e','n','c','e']);
    reveal_strlit("user_action");
    assert("user_action"@ =~= seq!['u','s','e','r','_','a','c','t','i','o','n']);
    reveal_strlit("payment_method");
    assert("payment_method"@ =~= seq!['p','a','y','m','e','n','t','_','m','e','t','h','o','d']);
    reveal_strlit("return_url");
    assert("return_url"@ =~= seq!['r','e','t','u','r','n','_','u','r','l']);
    reveal_strlit("cancel_url");
    assert("cancel_url"@ =~= seq!['c','a','n','c','e','l','_','u','r','l']);
    let e0 = opt_str_entry("brand_name"@, v.brand_name);
    let e1 = opt_str_entry("locale"@, v.locale);
    let e2 = opt_entry("landing_page"@, v.landing_page, |x: LandingPage| landing_page_jv(x));
    let e3 = opt_entry("shipping_preference"@, v.shipping_preference, |x: ShippingPreference| shipping_preference_jv(x));
    let e4 = opt_entry("user_action"@, v.user_action, |x: UserAction| user_action_jv(x));
    let e5 = opt_entry("payment_method"@, v.payment_method, |x: PaymentMethodV| payment_method_jv(x));
    let e6 = opt_str_entry("return_url"@, v.return_url);
    let e7 = opt_str_entry("cancel_url"@, v.cancel_url);
    let l0 = e0;
    let l1 = l0 + e1;
    let l2 = l1 + e2;
    let l3 = l2 + e3;
    let l4 = l3 + e4;
    let l5 = l4 + e5;
    let l6 = l5 + e6;
    let l7 = l6 + e7;
    let s7 = e7;
    let s6 = e6 + s7;
    let s5 = e5 + s6;
    let s4 = e4 + s5;
    let s3 = e3 + s4;
    let s2 = e2 + s3;
    let s1 = e1 + s2;
    let s0 = e0 + s1;
    assert(fs == l7);
    lemma_concat_associative(l5, e6, s7);
    lemma_concat_associative(l4, e5, s6);
    lemma_concat_associative(l3, e4, s5);
    lemma_concat_associative(l2, e3, s4);
    lemma_concat_associative(l1, e2, s3);
    lemma_concat_associative(l0, e1, s2);
    assert(fs == s0);
    if v.brand_name is Some {
        lemma_jv_get_head(s0, "brand_name"@);
    } else {
        lemma_jv_get_skip(e0, s1, "brand_name"@);
        lemma_jv_get_skip(e1, s2, "brand_name"@);
        lemma_jv_get_skip(e2, s3, "brand_name"@);
        lemma_jv_get_skip(e3, s4, "brand_name"@);
        lemma_jv_get_skip(e4, s5, "brand_name"@);
        lemma_jv_get_skip(e5, s6, "brand_name"@);
        lemma_jv_get_skip(e6, s7, "brand_name"@);
        lemma_jv_get_absent(s7, "brand_name"@);
    }
    if v.locale is Some {
        lemma_jv_get_skip(e0, s1, "locale"@);
        lemma_jv_get_head(s1, "locale"@);
    } else {
        lemma_jv_get_skip(e0, s1, "locale"@);
        lemma_jv_get_skip(e1, s2, "locale"@);
        lemma_jv_get_skip(e2, s3, "locale"@);
        lemma_jv_get_skip(e3, s4, "locale"@);
        lemma_jv_get_skip(e4, s5, "locale"@);
        lemma_jv_get_skip(e5, s6, "locale"@);
        lemma_jv_get_skip(e6, s7, "locale"@);
        lemma_jv_get_absent(s7, "locale"@);
    }
    if v.landing_page is Some {
        lemma_jv_get_skip(e0, s1, "landing_page"@);
        lemma_jv_get_skip(e1, s2, "landing_page"@);
        lemma_jv_get_head(s2, "landing_page"@);
    } else {
        lemma_jv_get_skip(e0, s1, "landing_page"@);
        lemma_jv_get_skip(e1, s2, "landing_page"@);
        lemma_jv_get_skip(e2, s3, "landing_page"@);
        lemma_jv_get_skip(e3, s4, "landing_page"@);
        lemma_jv_get_skip(e4, s5, "landing_page"@);
        lemma_jv_get_skip(e5, s6, "landing_page"@);
        lemma_jv_get_skip(e6, s7, "landing_page"@);
        lemma_jv_get_absent(s7, "landing_page"@);
    }
    if v.shipping_preference is Some {
        lemma_jv_get_skip(e0, s1, "shipping_preference"@);
        lemma_jv_get_skip(e1, s2, "shipping_preference"@);
        lemma_jv_get_skip(e2, s3, "shipping_preference"@);
        lemma_jv_get_head(s3, "shipping_preference"@);
    } else {
        lemma_jv_get_skip(e0, s1, "shipping_preference"@);
        lemma_jv_get_skip(e1, s2, "shipping_preference"@);
        lemma_jv_get_skip(e2, s3, "shipping_preference"@);
        lemma_jv_get_skip(e3, s4, "shipping_preference"@);
        lemma_jv_get_skip(e4, s5, "shipping_preference"@);
        lemma_jv_get_skip(e5, s6, "shipping_preference"@);
        lemma_jv_get_skip(e6, s7, "shipping_preference"@);
        lemma_jv_get_absent(s7, "shipping_preference"@);
    }
}

#[verifier::rlimit(100)]
proof fn lemma_application_context_fields_1(v: ApplicationContextV)
    ensures
        v.user_action is Some ==> jv_get(application_context_jv(v)->Obj_0, "user_action"@) == Some(user_action_jv(v.user_action->Some_0)),
        v.user_action is None ==> jv_get(application_context_jv(v)->Obj_0, "user_action"@) is None,
        v.payment_method is Some ==> jv_get(application_context_jv(v)->Obj_0, "payment_method"@) == Some(payment_method_jv(v.payment_method->Some_0)),
        v.payment_method is None ==> jv_get(application_context_jv(v)->Obj_0, "payment_method"@) is None,
        v.return_url is Some ==> jv_get(application_context_jv(v)->Obj_0, "return_url"@) == Some(Jv::Str(v.return_url->Some_0)),
        v.return_url is None ==> jv_get(application_context_jv(v)->Obj_0, "return_url"@) is None,
        v.cancel_url is Some ==> jv_get(application_context_jv(v)->Obj_0, "cancel_url"@) == Some(Jv::Str(v.cancel_url->Some_0)),
        v.cancel_url is None ==> jv_get(application_context_jv(v)->Obj_0, "cancel_url"@) is None,
{
    let fs = application_context_jv(v)->Obj_0;
    reveal_strlit("brand_name");
    assert("brand_name"@ =~= seq!['b','r','a','n','d','_','n','a','m','e']);
    reveal_strlit("locale");
    assert("locale"@ =~= seq!['l','o','c','a','l','e']);
    reveal_strlit("landing_page");
    assert("landing_page"@ =~= seq!['l','a','n','d','i','n','g','_','p','a','g','e']);
    reveal_strlit("shipping_preference");
    assert("shipping_preference"@ =~= seq!['s','h','i','p','p','i','n','g','_','p','r','e','f','e','r','e','n','c','e']);
    reveal_strlit("user_action");
    assert("user_action"@ =~= seq!['u','s','e','r','_','a','c','t','i','o','n']);
    reveal_strlit("payment_method");
    assert("payment_method"@ =~= seq!['p','a','y','m','e','n','t','_','m','e','t','h','o','d']);
    reveal_strlit("return_url");
    assert("return_url"@ =~= seq!['r','e','t','u','r','n','_','u','r','l']);
    reveal_strlit("cancel_url");
    assert("cancel_url"@ =~= seq!['c','a','n','c','e','l','_','u','r','l']);
    let e0 = opt_str_entry("brand_name"@, v.brand_name);
    let e1 = opt_str_entry("locale"@, v.locale);
    let e2 = opt_entry("landing_page"@, v.landing_page, |x: LandingPage| landing_page_jv(x));
    let e3 = opt_entry("shipping_preference"@, v.shipping_preference, |x: ShippingPreference| shipping_preference_jv(x));
    let e4 = opt_entry("user_action"@, v.user_action, |x: UserAction| user_action_jv(x));
    let e5 = opt_entry("payment_method"@, v.payment_method, |x: PaymentMethodV| payment_method_jv(x));
    let e6 = opt_str_entry("return_url"@, v.return_url);
    let e7 = opt_str_entry("cancel_url"@, v.cancel_url);
    let l0 = e0;
    let l1 = l0 + e1;
    let l2 = l1 + e2;
    let l3 = l2 + e3;
    let l4 = l3 + e4;
    let l5 = l4 + e5;
    let l6 = l5 + e6;
    let l7 = l6 + e7;
    let s7 = e7;
    let s6 = e6 + s7;
    let s5 = e5 + s6;
    let s4 = e4 + s5;
    let s3 = e3 + s4;
    let s2 = e2 + s3;
    let s1 = e1 + s2;
    let s0 = e0 + s1;
    assert(fs == l7);
    lemma_concat_associative(l5, e6, s7);
    lemma_concat_associative(l4, e5, s6);
    lemma_concat_associative(l3, e4, s5);
    lemma_concat_associative(l2, e3, s4);
    lemma_concat_associative(l1, e2, s3);
    lemma_concat_associative(l0, e1, s2);
    assert(fs == s0);
    if v.user_action is Some {
        lemma_jv_get_skip(e0, s1, "user_action"@);
        lemma_jv_get_skip(e1, s2, "user_action"@);
        lemma_jv_get_skip(e2, s3, "user_action"@);
        lemma_jv_get_skip(e3, s4, "user_action"@);
        lemma_jv_get_head(s4, "user_action"@);
    } else {
        lemma_jv_get_skip(e0, s1, "user_action"@);
        lemma_jv_get_skip(e1, s2, "user_action"@);
        lemma_jv_get_skip(e2, s3, "user_action"@);
        lemma_jv_get_skip(e3, s4, "user_action"@);
        lemma_jv_get_skip(e4, s5, "user_action"@);
        lemma_jv_get_skip(e5, s6, "user_action"@);
        lemma_jv_get_skip(e6, s7, "user_action"@);
        lemma_jv_get_absent(s7, "user_action"@);
    }
    if v.payment_method is Some {
        lemma_jv_get_skip(e0, s1, "payment_method"@);
        lemma_jv_get_skip(e1, s2, "payment_method"@);
        lemma_jv_get_skip(e2, s3, "payment_method"@);
        lemma_jv_get_skip(e3, s4, "payment_method"@);
        lemma_jv_get_skip(e4, s5, "payment_method"@);
        lemma_jv_get_head(s5, "payment_method"@);
    } else {
        lemma_jv_get_skip(e0, s1, "payment_method"@);
        lemma_jv_get_skip(e1, s2, "payment_method"@);
        lemma_jv_get_skip(e2, s3, "payment_method"@);
        lemma_jv_get_skip(e3, s4, "payment_method"@);
        lemma_jv_get_skip(e4, s5, "payment_method"@);
        lemma_jv_get_skip(e5, s6, "payment_method"@);
        lemma_jv_get_skip(e6, s7, "payment_method"@);
        lemma_jv_get_absent(s7, "payment_method"@);
    }
    if v.return_url is Some {
        lemma_jv_get_skip(e0, s1, "return_url"@);
        lemma_jv_get_skip(e1, s2, "return_url"@);
        lemma_jv_get_skip(e2, s3, "return_url"@);
        lemma_jv_get_skip(e3, s4, "return_url"@);
        lemma_jv_get_skip(e4, s5, "return_url"@);
        lemma_jv_get_skip(e5, s6, "return_url"@);
        lemma_jv_get_head(s6, "return_url"@);
    } else {
        lemma_jv_get_skip(e0, s1, "return_url"@);
        lemma_jv_get_skip(e1, s2, "return_url"@);
        lemma_jv_get_skip(e2, s3, "return_url"@);
        lemma_jv_get_skip(e3, s4, "return_url"@);
        lemma_jv_get_skip(e4, s5, "return_url"@);
        lemma_jv_get_skip(e5, s6, "return_url"@);
        lemma_jv_get_skip(e6, s7, "return_url"@);
        lemma_jv_get_absent(s7, "return_url"@);
    }
    if v.cancel_url is Some {
        lemma_jv_get_skip(e0, s1, "cancel_url"@);
        lemma_jv_get_skip(e1, s2, "cancel_url"@);
        lemma_jv_get_skip(e2, s3, "cancel_url"@);
        lemma_jv_get_skip(e3, s4, "cancel_url"@);
        lemma_jv_get_skip(e4, s5, "cancel_url"@);
        lemma_jv_get_skip(e5, s6, "cancel_url"@);
        lemma_jv_get_skip(e6, s7, "cancel_url"@);
        lemma_jv_get_head(s7, "cancel_url"@);
    } else {
        lemma_jv_get_skip(e0, s1, "cancel_url"@);
        lemma_jv_get_skip(e1, s2, "cancel_url"@);
        lemma_jv_get_skip(e2, s3, "cancel_url"@);
        lemma_jv_get_skip(e3, s4, "cancel_url"@);
        lemma_jv_get_skip(e4, s5, "cancel_url"@);
        lemma_jv_get_skip(e5, s6, "cancel_url"@);
        lemma_jv_get_skip(e6, s7, "cancel_url"@);
        lemma_jv_get_absent(s7, "cancel_url"@);
    }
}

/// A record of this type decodes back to itself after encoding.
#[verifier::rlimit(100)]
pub proof fn lemma_application_context_round_trip(v: ApplicationContextV)
    ensures
        application_context_of_jv(application_context_jv(v)) == Some(v),
{
    lemma_application_context_fields_0(v);
    lemma_application_context_fields_1(v);
    if v.landing_page is Some {
        lemma_landing_page_tokens(v.landing_page->Some_0, Seq::empty());
    }
    if v.shipping_preference is Some {
        lemma_shipping_preference_tokens(v.shipping_preference->Some_0, Seq::empty());
    }
    if v.user_action is Some {
        lemma_user_action_tokens(v.user_action->Some_0, Seq::empty());
    }
    if v.payment_method is Some {
        lemma_payment_method_round_trip(v.payment_method->Some_0);
    }
}

/// The payload to send when creating an order.
#[derive(Debug, Clone, PartialEq, Eq)]
pub struct OrderPayload {
    pub intent: Intent,
    pub payer: Option<Payer>,
    pub purchase_units: Vec<PurchaseUnit>,
    pub application_context: Option<ApplicationContext>,
}

/// The shape of a [`OrderPayload`].
pub struct OrderPayloadV {
    pub intent: Intent,
    pub payer: Option<PayerV>,
    pub purchase_units: Seq<PurchaseUnitV>,
    pub application_context: Option<ApplicationContextV>,
}

impl DeepView for OrderPayload {
    type V = OrderPayloadV;

    open spec fn deep_view(&self) -> OrderPayloadV {
        OrderPayloadV {
            intent: self.intent.deep_view(),
            payer: self.payer.deep_view(),
            purchase_units: self.purchase_units.deep_view(),
            application_context: self.application_context.deep_view(),
        }
    }
}

pub open spec fn order_payload_jv(v: OrderPayloadV) -> Jv {
    Jv::Obj(
        entry("intent"@, intent_jv(v.intent))
        + opt_entry("payer"@, v.payer, |x: PayerV| payer_jv(x))
        + entry("purchase_units"@, Jv::Arr(purchase_unit_list_jv(v.purchase_units)))
        + opt_entry("application_context"@, v.application_context, |x: ApplicationContextV| application_context_jv(x))
    )
}

pub open spec fn order_payload_of_jv(j: Jv) -> Option<OrderPayloadV> {
    match j {
        Jv::Obj(fs) => {
            let f_intent = req_field(fs, "intent"@, |x: Jv| intent_of_jv(x));
            let f_payer = opt_field(fs, "payer"@, |x: Jv| payer_of_jv(x));
            let f_purchase_units = req_field(fs, "purchase_units"@, |x: Jv| purchase_unit_arr_of_jv(x));
            let f_application_context = opt_field(fs, "application_context"@, |x: Jv| application_context_of_jv(x));
            if f_intent is Some && f_payer is Some && f_purchase_units is Some && f_application_context is Some {
                Some(OrderPayloadV {
                    intent: f_intent->Some_0,
                    payer: f_payer->Some_0,
                    purchase_units: f_purchase_units->Some_0,
                    application_context: f_application_context->Some_0,
                })
            } else {
                None
            }
        },
        _ => None,
    }
}

pub fn encode_order_payload(x: &OrderPayload) -> (j: Json)
    ensures
        j@ == order_payload_jv(x.deep_view()),
{
    let mut fs: Vec<(String, Json)> = Vec::new();
    push_field(&mut fs, "intent", encode_intent(&x.intent));
    match &x.payer {
        Some(v) => { push_field(&mut fs, "payer", encode_payer(v)); },
        None => {},
    }
    push_field(&mut fs, "purchase_units", encode_purchase_unit_vec(&x.purchase_units));
    match &x.application_context {
        Some(v) => { push_field(&mut fs, "application_context", encode_application_context(v)); },
        None => {},
    }
    let r = Json::Obj(fs);
    proof {
        assert(r@->Obj_0 =~= order_payload_jv(x.deep_view())->Obj_0);
        assert(r@ == order_payload_jv(x.deep_view()));
    }
    r
}

pub fn decode_order_payload(j: &Json) -> (r: Option<OrderPayload>)
    ensures
        r matches Some(x) ==> order_payload_of_jv(j@) == Some(x.deep_view()),
        r is None ==> order_payload_of_jv(j@) is None,
{
    match j {
        Json::Obj(fs) => {
            proof {
                assert(j@->Obj_0 =~= obj_view(fs@));
            }
            let f_intent = match get_field(fs, "intent") {
                Some(x) => match decode_intent(x) {
                    Some(v) => v,
                    None => { return None; },
                },
                None => { return None; },
            };
            let f_payer = match get_field(fs, "payer") {
                None => None,
                Some(x) => match decode_payer(x) {
                    Some(v) => Some(v),
                    None => { return None; },
                },
            };
            let f_purchase_units = match get_field(fs, "purchase_units") {
                Some(x) => match x {
                    Json::Arr(items) => {
                        proof { assert(x@->Arr_0 =~= arr_view(items@)); }
                        match decode_purchase_unit_vec(items) {
                            Some(v) => v,
                            None => { return None; },
                        }
                    },
                    _ => { return None; },
                },
                None => { return None; },
            };
            let f_application_context = match get_field(fs, "application_context") {
                None => None,
                Some(x) => match decode_application_context(x) {
                    Some(v) => Some(v),
                    None => { return None; },
                },
            };
            Some(OrderPayload {
                intent: f_intent,
                payer: f_payer,
                purchase_units: f_purchase_units,
                application_context: f_application_context,
            })
        },
        _ => None,
    }
}

/// A record of this type decodes back to itself after encoding.
#[verifier::rlimit(100)]
pub proof fn lemma_order_payload_round_trip(v: OrderPayloadV)
    ensures
        order_payload_of_jv(order_payload_jv(v)) == Some(v),
{
    let fs = order_payload_jv(v)->Obj_0;
    reveal_strlit("intent");
    assert("intent"@ =~= seq!['i','n','t','e','n','t']);
    reveal_strlit("payer");
    assert("payer"@ =~= seq!['p','a','y','e','r']);
    reveal_strlit("purchase_units");
    assert("purchase_units"@ =~= seq!['p','u','r','c','h','a','s','e','_','u','n','i','t','s']);
    reveal_strlit("application_context");
    assert("application_context"@ =~= seq!['a','p','p','l','i','c','a','t','i','o','n','_','c','o','n','t','e','x','t']);
    lemma_jv_get_found(fs, "intent"@, 0int);
    if v.payer is Some {
        lemma_jv_get_found(fs, "payer"@, 1int);
    } else {
        lemma_jv_get_absent(fs, "payer"@);
    }
    lemma_jv_get_found(fs, "purchase_units"@, 1int + (if v.payer is Some { 1int } else { 0int }));
    if v.application_context is Some {
        lemma_jv_get_found(fs, "application_context"@, 1int + (if v.payer is Some { 1int } else { 0int }) + 1int);
    } else {
        lemma_jv_get_absent(fs, "application_context"@);
    }
    lemma_intent_tokens(v.intent, Seq::empty());
    if v.payer is Some {
        lemma_payer_round_trip(v.payer->Some_0);
    }
    lemma_purchase_unit_list_round_trip(v.purchase_units);
    if v.application_context is Some {
        lemma_application_context_round_trip(v.application_context->Some_0);
    }
}

/// The payment card used to fund a payment.
#[derive(Debug, Clone, PartialEq, Eq)]
pub struct CardResponse {
    pub last_digits: String,
    pub brand: CardBrand,
    pub card_type: CardType,
}

/// The shape of a [`CardResponse`].
pub struct CardResponseV {
    pub last_digits: Seq<char>,
    pub brand: CardBrand,
    pub card_type: CardType,
}

impl DeepView for CardResponse {
    type V = CardResponseV;

    open spec fn deep_view(&self) -> CardResponseV {
        CardResponseV {
            last_digits: self.last_digits.deep_view(),
            brand: self.brand.deep_view(),
            card_type: self.card_type.deep_view(),
        }
    }
}

pub open spec fn card_response_jv(v: CardResponseV) -> Jv {
    Jv::Obj(
        entry("last_digits"@, Jv::Str(v.last_digits))
        + entry("brand"@, card_brand_jv(v.brand))
        + entry("type"@, card_type_jv(v.card_type))
    )
}

pub open spec fn card_response_of_jv(j: Jv) -> Option<CardResponseV> {
    match j {
        Jv::Obj(fs) => {
            let f_last_digits = req_str(fs, "last_digits"@);
            let f_brand = req_field(fs, "brand"@, |x: Jv| card_brand_of_jv(x));
            let f_card_type = req_field(fs, "type"@, |x: Jv| card_type_of_jv(x));
            if f_last_digits is Some && f_brand is Some && f_card_type is Some {
                Some(CardResponseV {
                    last_digits: f_last_digits->Some_0,
                    brand: f_brand->Some_0,
                    card_type: f_card_type->Some_0,
                })
            } else {
                None
            }
        },
        _ => None,
    }
}

pub fn encode_card_response(x: &CardResponse) -> (j: Json)
    ensures
        j@ == card_response_jv(x.deep_view()),
{
    let mut fs: Vec<(String, Json)> = Vec::new();
    push_field(&mut fs, "last_digits", Json::Str(x.last_digits.clone()));
    push_field(&mut fs, "brand", encode_card_brand(&x.brand));
    push_field(&mut fs, "type", encode_card_type(&x.card_type));
    let r = Json::Obj(fs);
    proof {
        assert(r@->Obj_0 =~= card_response_jv(x.deep_view())->Obj_0);
        assert(r@ == card_response_jv(x.deep_view()));
    }
    r
}

pub fn decode_card_response(j: &Json) -> (r: Option<CardResponse>)
    ensures
        r matches Some(x) ==> card_response_of_jv(j@) == Some(x.deep_view()),
        r is None ==> card_response_of_jv(j@) is None,
{
    match j {
        Json::Obj(fs) => {
            proof {
                assert(j@->Obj_0 =~= obj_view(fs@));
            }
            let f_last_digits = match get_str(fs, "last_digits") {
                Some(s) => s,
                None => { return None; },
            };
            let f_brand = match get_field(fs, "brand") {
                Some(x) => match decode_card_brand(x) {
                    Some(v) => v,
                    None => { return None; },
                },
                None => { return None; },
            };
            let f_card_type = match get_field(fs, "type") {
                Some(x) => match decode_card_type(x) {
                    Some(v) => v,
                    None => { return None; },
                },
                None => { return None; },
            };
            Some(CardResponse {
                last_digits: f_last_digits,
                brand: f_brand,
                card_type: f_card_type,
            })
        },
        _ => None,
    }
}

/// A record of this type decodes back to itself after encoding.
#[verifier::rlimit(100)]
pub proof fn lemma_card_response_round_trip(v: CardResponseV)
    ensures
        card_response_of_jv(card_response_jv(v)) == Some(v),
{
    let fs = card_response_jv(v)->Obj_0;
    reveal_strlit("last_digits");
    assert("last_digits"@ =~= seq!['l','a','s','t','_','d','i','g','i','t','s']);
    reveal_strlit("brand");
    assert("brand"@ =~= seq!['b','r','a','n','d']);
    reveal_strlit("type");
    assert("type"@ =~= seq!['t','y','p','e']);
    lemma_jv_get_found(fs, "last_digits"@, 0int);
    lemma_jv_get_found(fs, "brand"@, 1int);
    lemma_jv_get_found(fs, "type"@, 1int + 1int);
    lemma_card_brand_tokens(v.brand, Seq::empty());
    lemma_card_type_tokens(v.card_type, Seq::empty());
}

/// The customer's wallet used to fund the transaction.
#[derive(Debug, Clone, PartialEq, Eq)]
pub struct WalletResponse {
    pub apple_pay: CardResponse,
}

/// The shape of a [`WalletResponse`].
pub struct WalletResponseV {
    pub apple_pay: CardResponseV,
}

impl DeepView for WalletResponse {
    type V = WalletResponseV;

    open spec fn deep_view(&self) -> WalletResponseV {
        WalletResponseV {
            apple_pay: self.apple_pay.deep_view(),
        }
    }
}

pub open spec fn wallet_response_jv(v: WalletResponseV) -> Jv {
    Jv::Obj(
        entry("apple_pay"@, card_response_jv(v.apple_pay))
    )
}

pub open spec fn wallet_response_of_jv(j: Jv) -> Option<WalletResponseV> {
    match j {
        Jv::Obj(fs) => {
            let f_apple_pay = req_field(fs, "apple_pay"@, |x: Jv| card_response_of_jv(x));
            if f_apple_pay is Some {
                Some(WalletResponseV {
                    apple_pay: f_apple_pay->Some_0,
                })
            } else {
                None
            }
        },
        _ => None,
    }
}

pub fn encode_wallet_response(x: &WalletResponse) -> (j: Json)
    ensures
        j@ == wallet_response_jv(x.deep_view()),
{
    let mut fs: Vec<(String, Json)> = Vec::new();
    push_field(&mut fs, "apple_pay", encode_card_response(&x.apple_pay));
    let r = Json::Obj(fs);
    proof {
        assert(r@->Obj_0 =~= wallet_response_jv(x.deep_view())->Obj_0);
        assert(r@ == wallet_response_jv(x.deep_view()));
    }
    r
}

pub fn decode_wallet_response(j: &Json) -> (r: Option<WalletResponse>)
    ensures
        r matches Some(x) ==> wallet_response_of_jv(j@) == Some(x.deep_view()),
        r is None ==> wallet_response_of_jv(j@) is None,
{
    match j {
        Json::Obj(fs) => {
            proof {
                assert(j@->Obj_0 =~= obj_view(fs@));
            }
            let f_apple_pay = match get_field(fs, "apple_pay") {
                Some(x) => match decode_card_response(x) {
                    Some(v) => v,
                    None => { return None; },
                },
                None => { return None; },
            };
            Some(WalletResponse {
                apple_pay: f_apple_pay,
            })
        },
        _ => None,
    }
}

/// A record of this type decodes back to itself after encoding.
#[verifier::rlimit(100)]
pub proof fn lemma_wallet_response_round_trip(v: WalletResponseV)
    ensures
        wallet_response_of_jv(wallet_response_jv(v)) == Some(v),
{
    let fs = wallet_response_jv(v)->Obj_0;
    reveal_strlit("apple_pay");
    assert("apple_pay"@ =~= seq!['a','p','p','l','e','_','p','a','y']);
    lemma_jv_get_found(fs, "apple_pay"@, 0int);
    lemma_card_response_round_trip(v.apple_pay);
}

/// The payment source used to fund the payment.
#[derive(Debug, Clone, PartialEq, Eq)]
pub struct PaymentSourceResponse {
    pub card: Option<CardResponse>,
    pub wallet: Option<WalletResponse>,
}

/// The shape of a [`PaymentSourceResponse`].
pub struct PaymentSourceResponseV {
    pub card: Option<CardResponseV>,
    pub wallet: Option<WalletResponseV>,
}

impl DeepView for PaymentSourceResponse {
    type V = PaymentSourceResponseV;

    open spec fn deep_view(&self) -> PaymentSourceResponseV {
        PaymentSourceResponseV {
            card: self.card.deep_view(),
            wallet: self.wallet.deep_view(),
        }
    }
}

pub open spec fn payment_source_jv(v: PaymentSourceResponseV) -> Jv {
    Jv::Obj(
        opt_entry("card"@, v.card, |x: CardResponseV| card_response_jv(x))
        + opt_entry("wallet"@, v.wallet, |x: WalletResponseV| wallet_response_jv(x))
    )
}

pub open spec fn payment_source_of_jv(j: Jv) -> Option<PaymentSourceResponseV> {
    match j {
        Jv::Obj(fs) => {
            let f_card = opt_field(fs, "card"@, |x: Jv| card_response_of_jv(x));
            let f_wallet = opt_field(fs, "wallet"@, |x: Jv| wallet_response_of_jv(x));
            if f_card is Some && f_wallet is Some {
                Some(PaymentSourceResponseV {
                    card: f_card->Some_0,
                    wallet: f_wallet->Some_0,
                })
            } else {
                None
            }
        },
        _ => None,
    }
}

pub fn encode_payment_source(x: &PaymentSourceResponse) -> (j: Json)
    ensures
        j@ == payment_source_jv(x.deep_view()),
{
    let mut fs: Vec<(String, Json)> = Vec::new();
    match &x.card {
        Some(v) => { push_field(&mut fs, "card", encode_card_response(v)); },
        None => {},
    }
    match &x.wallet {
        Some(v) => { push_field(&mut fs, "wallet", encode_wallet_response(v)); },
        None => {},
    }
    let r = Json::Obj(fs);
    proof {
        assert(r@->Obj_0 =~= payment_source_jv(x.deep_view())->Obj_0);
        assert(r@ == payment_source_jv(x.deep_view()));
    }
    r
}

pub fn decode_payment_source(j: &Json) -> (r: Option<PaymentSourceResponse>)
    ensures
        r matches Some(x) ==> payment_source_of_jv(j@) == Some(x.deep_view()),
        r is None ==> payment_source_of_jv(j@) is None,
{
    match j {
        Json::Obj(fs) => {
            proof {
                assert(j@->Obj_0 =~= obj_view(fs@));
            }
            let f_card = match get_field(fs, "card") {
                None => None,
                Some(x) => match decode_card_response(x) {
                    Some(v) => Some(v),
                    None => { return None; },
                },
            };
            let f_wallet = match get_field(fs, "wallet") {
                None => None,
                Some(x) => match decode_wallet_response(x) {
                    Some(v) => Some(v),
                    None => { return None; },
                },
            };
            Some(PaymentSourceResponse {
                card: f_card,
                wallet: f_wallet,
            })
        },
        _ => None,
    }
}

/// A record of this type decodes back to itself after encoding.
#[verifier::rlimit(100)]
pub proof fn lemma_payment_source_round_trip(v: PaymentSourceResponseV)
    ensures
        payment_source_of_jv(payment_source_jv(v)) == Some(v),
{
    let fs = payment_source_jv(v)->Obj_0;
    reveal_strlit("card");
    assert("card"@ =~= seq!['c','a','r','d']);
    reveal_strlit("wallet");
    assert("wallet"@ =~= seq!['w','a','l','l','e','t']);
    if v.card is Some {
        lemma_jv_get_found(fs, "card"@, 0int);
    } else {
        lemma_jv_get_absent(fs, "card"@);
    }
    if v.wallet is Some {
        lemma_jv_get_found(fs, "wallet"@, (if v.card is Some { 1int } else { 0int }));
    } else {
        lemma_jv_get_absent(fs, "wallet"@);
    }
    if v.card is Some {
        lemma_card_response_round_trip(v.card->Some_0);
    }
    if v.wallet is Some {
        lemma_wallet_response_round_trip(v.wallet->Some_0);
    }
}

/// An order: a payment between two or more parties, as the provider reports it.
#[derive(Debug, Clone, PartialEq, Eq)]
pub struct Order {
    /// When the transaction occurred, as an RFC 3339 date-time string.
    pub create_time: Option<String>,
    /// When the transaction was last updated, as an RFC 3339 date-time string.
    pub update_time: Option<String>,
    pub id: String,
    pub payment_source: Option<PaymentSourceResponse>,
    pub intent: Option<Intent>,
    pub payer: Option<Payer>,
    pub purchase_units: Option<Vec<PurchaseUnit>>,
    pub status: OrderStatus,
    pub links: Vec<LinkDescription>,
}

/// The shape of a [`Order`].
pub struct OrderV {
    pub create_time: Option<Seq<char>>,
    pub update_time: Option<Seq<char>>,
    pub id: Seq<char>,
    pub payment_source: Option<PaymentSourceResponseV>,
    pub intent: Option<Intent>,
    pub payer: Option<PayerV>,
    pub purchase_units: Option<Seq<PurchaseUnitV>>,
    pub status: OrderStatus,
    pub links: Seq<LinkDescriptionV>,
}

impl DeepView for Order {
    type V = OrderV;

    open spec fn deep_view(&self) -> OrderV {
        OrderV {
            create_time: self.create_time.deep_view(),
            update_time: self.update_time.deep_view(),
            id: self.id.deep_view(),
            payment_source: self.payment_source.deep_view(),
            intent: self.intent.deep_view(),
            payer: self.payer.deep_view(),
            purchase_units: self.purchase_units.deep_view(),
            status: self.status.deep_view(),
            links: self.links.deep_view(),
        }
    }
}

/// What the provider guarantees of every [`Order`] it reports.
pub open spec fn order_wf(v: OrderV) -> bool {
    (v.create_time matches Some(t) ==> rfc3339_ok(t)) && (v.update_time matches Some(t) ==> rfc3339_ok(t))
}

pub open spec fn order_jv(v: OrderV) -> Jv {
    Jv::Obj(
        opt_str_entry("create_time"@, v.create_time)
        + opt_str_entry("update_time"@, v.update_time)
        + entry("id"@, Jv::Str(v.id))
        + opt_entry("payment_source"@, v.payment_source, |x: PaymentSourceResponseV| payment_source_jv(x))
        + opt_entry("intent"@, v.intent, |x: Intent| intent_jv(x))
        + opt_entry("payer"@, v.payer, |x: PayerV| payer_jv(x))
        + opt_entry("purchase_units"@, v.purchase_units, |x: Seq<PurchaseUnitV>| Jv::Arr(purchase_unit_list_jv(x)))
        + entry("status"@, order_status_jv(v.status))
        + entry("links"@, Jv::Arr(link_list_jv(v.links)))
    )
}

pub open spec fn order_of_jv(j: Jv) -> Option<OrderV> {
    match j {
        Jv::Obj(fs) => {
            let f_create_time = opt_field(fs, "create_time"@, |x: Jv| ts_of_jv(x));
            let f_update_time = opt_field(fs, "update_time"@, |x: Jv| ts_of_jv(x));
            let f_id = req_str(fs, "id"@);
            let f_payment_source = opt_field(fs, "payment_source"@, |x: Jv| payment_source_of_jv(x));
            let f_intent = opt_field(fs, "intent"@, |x: Jv| intent_of_jv(x));
            let f_payer = opt_field(fs, "payer"@, |x: Jv| payer_of_jv(x));
            let f_purchase_units = opt_field(fs, "purchase_units"@, |x: Jv| purchase_unit_arr_of_jv(x));
            let f_status = req_field(fs, "status"@, |x: Jv| order_status_of_jv(x));
            let f_links = req_field(fs, "links"@, |x: Jv| link_arr_of_jv(x));
            if f_create_time is Some && f_update_time is Some && f_id is Some && f_payment_source is Some && f_intent is Some && f_payer is Some && f_purchase_units is Some && f_status is Some && f_links is Some {
                Some(OrderV {
                    create_time: f_create_time->Some_0,
                    update_time: f_update_time->Some_0,
                    id: f_id->Some_0,
                    payment_source: f_payment_source->Some_0,
                    intent: f_intent->Some_0,
                    payer: f_payer->Some_0,
                    purchase_units: f_purchase_units->Some_0,
                    status: f_status->Some_0,
                    links: f_links->Some_0,
                })
            } else {
                None
            }
        },
        _ => None,
    }
}

#[verifier::rlimit(100)]
fn encode_order_part0(x: &Order) -> (fs: Vec<(String, Json)>)
    ensures
        obj_view(fs@) == opt_str_entry("create_time"@, x.deep_view().create_time) + opt_str_entry("update_time"@, x.deep_view().update_time) + entry("id"@, Jv::Str(x.deep_view().id)) + opt_entry("payment_source"@, x.deep_view().payment_source, |x: PaymentSourceResponseV| payment_source_jv(x)),
{
    let mut fs: Vec<(String, Json)> = Vec::new();
    match &x.create_time {
        Some(v) => { push_field(&mut fs, "create_time", Json::Str(v.clone())); },
        None => {},
    }
    match &x.update_time {
        Some(v) => { push_field(&mut fs, "update_time", Json::Str(v.clone())); },
        None => {},
    }
    push_field(&mut fs, "id", Json::Str(x.id.clone()));
    match &x.payment_source {
        Some(v) => { push_field(&mut fs, "payment_source", encode_payment_source(v)); },
        None => {},
    }
    proof { assert(obj_view(fs@) =~= opt_str_entry("create_time"@, x.deep_view().create_time) + opt_str_entry("update_time"@, x.deep_view().update_time) + entry("id"@, Jv::Str(x.deep_view().id)) + opt_entry("payment_source"@, x.deep_view().payment_source, |x: PaymentSourceResponseV| payment_source_jv(x))); }
    fs
}

#[verifier::rlimit(100)]
fn encode_order_part1(x: &Order, fs: &mut Vec<(String, Json)>)
    ensures
        obj_view(final(fs)@) == obj_view(old(fs)@) + opt_entry("intent"@, x.deep_view().intent, |x: Intent| intent_jv(x)) + opt_entry("payer"@, x.deep_view().payer, |x: PayerV| payer_jv(x)) + opt_entry("purchase_units"@, x.deep_view().purchase_units, |x: Seq<PurchaseUnitV>| Jv::Arr(purchase_unit_list_jv(x))) + entry("status"@, order_status_jv(x.deep_view().status)),
{
    match &x.intent {
        Some(v) => { push_field(fs, "intent", encode_intent(v)); },
        None => {},
    }
    match &x.payer {
        Some(v) => { push_field(fs, "payer", encode_payer(v)); },
        None => {},
    }
    match &x.purchase_units {
        Some(v) => { push_field(fs, "purchase_units", encode_purchase_unit_vec(v)); },
        None => {},
    }
    push_field(fs, "status", encode_order_status(&x.status));
    proof { assert(obj_view(fs@) =~= obj_view(old(fs)@) + opt_entry("intent"@, x.deep_view().intent, |x: Intent| intent_jv(x)) + opt_entry("payer"@, x.deep_view().payer, |x: PayerV| payer_jv(x)) + opt_entry("purchase_units"@, x.deep_view().purchase_units, |x: Seq<PurchaseUnitV>| Jv::Arr(purchase_unit_list_jv(x))) + entry("status"@, order_status_jv(x.deep_view().status))); }
}

#[verifier::rlimit(100)]
fn encode_order_part2(x: &Order, fs: &mut Vec<(String, Json)>)
    ensures
        obj_view(final(fs)@) == obj_view(old(fs)@) + entry("links"@, Jv::Arr(link_list_jv(x.deep_view().links))),
{
    push_field(fs, "links", encode_link_vec(&x.links));
    proof { assert(obj_view(fs@) =~= obj_view(old(fs)@) + entry("links"@, Jv::Arr(link_list_jv(x.deep_view().links)))); }
}

#[verifier::rlimit(100)]
pub fn encode_order(x: &Order) -> (j: Json)
    ensures
        j@ == order_jv(x.deep_view()),
{
    let mut fs = encode_order_part0(x);
    encode_order_part1(x, &mut fs);
    encode_order_part2(x, &mut fs);
    let r = Json::Obj(fs);
    proof {
        assert(r@->Obj_0 =~= obj_view(r->Obj_0@));
        assert(r@ == order_jv(x.deep_view()));
    }
    r
}

#[verifier::rlimit(100)]
pub fn decode_order(j: &Json) -> (r: Option<Order>)
    ensures
        r matches Some(x) ==> order_of_jv(j@) == Some(x.deep_view()),
        r is None ==> order_of_jv(j@) is None,
{
    match j {
        Json::Obj(fs) => {
            proof {
                assert(j@->Obj_0 =~= obj_view(fs@));
            }
            let f_create_time = match get_opt_ts(fs, "create_time") {
                Some(v) => v,
                None => { return None; },
            };
            let f_update_time = match get_opt_ts(fs, "update_time") {
                Some(v) => v,
                None => { return None; },
            };
            let f_id = match get_str(fs, "id") {
                Some(s) => s,
                None => { return None; },
            };
            let f_payment_source = match get_field(fs, "payment_source") {
                None => None,
                Some(x) => match decode_payment_source(x) {
                    Some(v) => Some(v),
                    None => { return None; },
                },
            };
            let f_intent = match get_field(fs, "intent") {
                None => None,
                Some(x) => match decode_intent(x) {
                    Some(v) => Some(v),
                    None => { return None; },
                },
            };
            let f_payer = match get_field(fs, "payer") {
                None => None,
                Some(x) => match decode_payer(x) {
                    Some(v) => Some(v),
                    None => { return None; },
                },
            };
            let f_purchase_units = match get_field(fs, "purchase_units") {
                None => None,
                Some(x) => match x {
                    Json::Arr(items) => {
                        proof { assert(x@->Arr_0 =~= arr_view(items@)); }
                        match decode_purchase_unit_vec(items) {
                            Some(v) => Some(v),
                            None => { return None; },
                        }
                    },
                    _ => { return None; },
                },
            };
            let f_status = match get_field(fs, "status") {
                Some(x) => match decode_order_status(x) {
                    Some(v) => v,
                    None => { return None; },
                },
                None => { return None; },
            };
            let f_links = match get_field(fs, "links") {
                Some(x) => match x {
                    Json::Arr(items) => {
                        proof { assert(x@->Arr_0 =~= arr_view(items@)); }
                        match decode_link_vec(items) {
                            Some(v) => v,
                            None => { return None; },
                        }
                    },
                    _ => { return None; },
                },
                None => { return None; },
            };
            Some(Order {
                create_time: f_create_time,
                update_time: f_update_time,
                id: f_id,
                payment_source: f_payment_source,
                intent: f_intent,
                payer: f_payer,
                purchase_units: f_purchase_units,
                status: f_status,
                links: f_links,
            })
        },
        _ => None,
    }
}

#[verifier::rlimit(100)]
proof fn lemma_order_fields_0(v: OrderV)
    ensures
        v.create_time is Some ==> jv_get(order_jv(v)->Obj_0, "create_time"@) == Some(Jv::Str(v.create_time->Some_0)),
        v.create_time is None ==> jv_get(order_jv(v)->Obj_0, "create_time"@) is None,
        v.update_time is Some ==> jv_get(order_jv(v)->Obj_0, "update_time"@) == Some(Jv::Str(v.update_time->Some_0)),
        v.update_time is None ==> jv_get(order_jv(v)->Obj_0, "update_time"@) is None,
        jv_get(order_jv(v)->Obj_0, "id"@) == Some(Jv::Str(v.id)),
        v.payment_source is Some ==> jv_get(order_jv(v)->Obj_0, "payment_source"@) == Some(payment_source_jv(v.payment_source->Some_0)),
        v.payment_source is None ==> jv_get(order_jv(v)->Obj_0, "payment_source"@) is None,
{
    let fs = order_jv(v)->Obj_0;
    reveal_strlit("create_time");
    assert("create_time"@ =~= seq!['c','r','e','a','t','e','_','t','i','m','e']);
    reveal_strlit("update_time");
    assert("update_time"@ =~= seq!['u','p','d','a','t','e','_','t','i','m','e']);
    reveal_strlit("id");
    assert("id"@ =~= seq!['i','d']);
    reveal_strlit("payment_source");
    assert("payment_source"@ =~= seq!['p','a','y','m','e','n','t','_','s','o','u','r','c','e']);
    reveal_strlit("intent");
    assert("intent"@ =~= seq!['i','n','t','e','n','t']);
    reveal_strlit("payer");
    assert("payer"@ =~= seq!['p','a','y','e','r']);
    reveal_strlit("purchase_units");
    assert("purchase_units"@ =~= seq!['p','u','r','c','h','a','s','e','_','u','n','i','t','s']);
    reveal_strlit("status");
    assert("status"@ =~= seq!['s','t','a','t','u','s']);
    reveal_strlit("links");
    assert("links"@ =~= seq!['l','i','n','k','s']);
    let e0 = opt_str_entry("create_time"@, v.create_time);
    let e1 = opt_str_entry("update_time"@, v.update_time);
    let e2 = entry("id"@, Jv::Str(v.id));
    let e3 = opt_entry("payment_source"@, v.payment_source, |x: PaymentSourceResponseV| payment_source_jv(x));
    let e4 = opt_entry("intent"@, v.intent, |x: Intent| intent_jv(x));
    let e5 = opt_entry("payer"@, v.payer, |x: PayerV| payer_jv(x));
    let e6 = opt_entry("purchase_units"@, v.purchase_units, |x: Seq<PurchaseUnitV>| Jv::Arr(purchase_unit_list_jv(x)));
    let e7 = entry("status"@, order_status_jv(v.status));
    let e8 = entry("links"@, Jv::Arr(link_list_jv(v.links)));
    let l0 = e0;
    let l1 = l0 + e1;
    let l2 = l1 + e2;
    let l3 = l2 + e3;
    let l4 = l3 + e4;
    let l5 = l4 + e5;
    let l6 = l5 + e6;
    let l7 = l6 + e7;
    let l8 = l7 + e8;
    let s8 = e8;
    let s7 = e7 + s8;
    let s6 = e6 + s7;
    let s5 = e5 + s6;
    let s4 = e4 + s5;
    let s3 = e3 + s4;
    let s2 = e2 + s3;
    let s1 = e1 + s2;
    let s0 = e0 + s1;
    assert(fs == l8);
    lemma_concat_associative(l6, e7, s8);
    lemma_concat_associative(l5, e6, s7);
    lemma_concat_associative(l4, e5, s6);
    lemma_concat_associative(l3, e4, s5);
    lemma_concat_associative(l2, e3, s4);
    lemma_concat_associative(l1, e2, s3);
    lemma_concat_associative(l0, e1, s2);
    assert(fs == s0);
    if v.create_time is Some {
        lemma_jv_get_head(s0, "create_time"@);
    } else {
        lemma_jv_get_skip(e0, s1, "create_time"@);
        lemma_jv_get_skip(e1, s2, "create_time"@);
        lemma_jv_get_skip(e2, s3, "create_time"@);
        lemma_jv_get_skip(e3, s4, "create_time"@);
        lemma_jv_get_skip(e4, s5, "create_time"@);
        lemma_jv_get_skip(e5, s6, "create_time"@);
        lemma_jv_get_skip(e6, s7, "create_time"@);
        lemma_jv_get_skip(e7, s8, "create_time"@);
        lemma_jv_get_absent(s8, "create_time"@);
    }
    if v.update_time is Some {
        lemma_jv_get_skip(e0, s1, "update_time"@);
        lemma_jv_get_head(s1, "update_time"@);
    } else {
        lemma_jv_get_skip(e0, s1, "update_time"@);
        lemma_jv_get_skip(e1, s2, "update_time"@);
        lemma_jv_get_skip(e2, s3, "update_time"@);
        lemma_jv_get_skip(e3, s4, "update_time"@);
        lemma_jv_get_skip(e4, s5, "update_time"@);
        lemma_jv_get_skip(e5, s6, "update_time"@);
        lemma_jv_get_skip(e6, s7, "update_time"@);
        lemma_jv_get_skip(e7, s8, "update_time"@);
        lemma_jv_get_absent(s8, "update_time"@);
    }
    lemma_jv_get_skip(e0, s1, "id"@);
    lemma_jv_get_skip(e1, s2, "id"@);
    lemma_jv_get_head(s2, "id"@);
    if v.payment_source is Some {
        lemma_jv_get_skip(e0, s1, "payment_source"@);
        lemma_jv_get_skip(e1, s2, "payment_source"@);
        lemma_jv_get_skip(e2, s3, "payment_source"@);
        lemma_jv_get_head(s3, "payment_source"@);
    } else {
        lemma_jv_get_skip(e0, s1, "payment_source"@);
        lemma_jv_get_skip(e1, s2, "payment_source"@);
        lemma_jv_get_skip(e2, s3, "payment_source"@);
        lemma_jv_get_skip(e3, s4, "payment_source"@);
        lemma_jv_get_skip(e4, s5, "payment_source"@);
        lemma_jv_get_skip(e5, s6, "payment_source"@);
        lemma_jv_get_skip(e6, s7, "payment_source"@);
        lemma_jv_get_skip(e7, s8, "payment_source"@);
        lemma_jv_get_absent(s8, "payment_source"@);
    }
}

#[verifier::rlimit(100)]
proof fn lemma_order_fields_1(v: OrderV)
    ensures
        v.intent is Some ==> jv_get(order_jv(v)->Obj_0, "intent"@) == Some(intent_jv(v.intent->Some_0)),
        v.intent is None ==> jv_get(order_jv(v)->Obj_0, "intent"@) is None,
        v.payer is Some ==> jv_get(order_jv(v)->Obj_0, "payer"@) == Some(payer_jv(v.payer->Some_0)),
        v.payer is None ==> jv_get(order_jv(v)->Obj_0, "payer"@) is None,
        v.purchase_units is Some ==> jv_get(order_jv(v)->Obj_0, "purchase_units"@) == Some(Jv::Arr(purchase_unit_list_jv(v.purchase_units->Some_0))),
        v.purchase_units is None ==> jv_get(order_jv(v)->Obj_0, "purchase_units"@) is None,
        jv_get(order_jv(v)->Obj_0, "status"@) == Some(order_status_jv(v.status)),
{
    let fs = order_jv(v)->Obj_0;
    reveal_strlit("create_time");
    assert("create_time"@ =~= seq!['c','r','e','a','t','e','_','t','i','m','e']);
    reveal_strlit("update_time");
    assert("update_time"@ =~= seq!['u','p','d','a','t','e','_','t','i','m','e']);
    reveal_strlit("id");
    assert("id"@ =~= seq!['i','d']);
    reveal_strlit("payment_source");
    assert("payment_source"@ =~= seq!['p','a','y','m','e','n','t','_','s','o','u','r','c','e']);
    reveal_strlit("intent");
    assert("intent"@ =~= seq!['i','n','t','e','n','t']);
    reveal_strlit("payer");
    assert("payer"@ =~= seq!['p','a','y','e','r']);
    reveal_strlit("purchase_units");
    assert("purchase_units"@ =~= seq!['p','u','r','c','h','a','s','e','_','u','n','i','t','s']);
    reveal_strlit("status");
    assert("status"@ =~= seq!['s','t','a','t','u','s']);
    reveal_strlit("links");
    assert("links"@ =~= seq!['l','i','n','k','s']);
    let e0 = opt_str_entry("create_time"@, v.create_time);
    let e1 = opt_str_entry("update_time"@, v.update_time);
    let e2 = entry("id"@, Jv::Str(v.id));
    let e3 = opt_entry("payment_source"@, v.payment_source, |x: PaymentSourceResponseV| payment_source_jv(x));
    let e4 = opt_entry("intent"@, v.intent, |x: Intent| intent_jv(x));
    let e5 = opt_entry("payer"@, v.payer, |x: PayerV| payer_jv(x));
    let e6 = opt_entry("purchase_units"@, v.purchase_units, |x: Seq<PurchaseUnitV>| Jv::Arr(purchase_unit_list_jv(x)));
    let e7 = entry("status"@, order_status_jv(v.status));
    let e8 = entry("links"@, Jv::Arr(link_list_jv(v.links)));
    let l0 = e0;
    let l1 = l0 + e1;
    let l2 = l1 + e2;
    let l3 = l2 + e3;
    let l4 = l3 + e4;
    let l5 = l4 + e5;
    let l6 = l5 + e6;
    let l7 = l6 + e7;
    let l8 = l7 + e8;
    let s8 = e8;
    let s7 = e7 + s8;
    let s6 = e6 + s7;
    let s5 = e5 + s6;
    let s4 = e4 + s5;
    let s3 = e3 + s4;
    let s2 = e2 + s3;
    let s1 = e1 + s2;
    let s0 = e0 + s1;
    assert(fs == l8);
    lemma_concat_associative(l6, e7, s8);
    lemma_concat_associative(l5, e6, s7);
    lemma_concat_associative(l4, e5, s6);
    lemma_concat_associative(l3, e4, s5);
    lemma_concat_associative(l2, e3, s4);
    lemma_concat_associative(l1, e2, s3);
    lemma_concat_associative(l0, e1, s2);
    assert(fs == s0);
    if v.intent is Some {
        lemma_jv_get_skip(e0, s1, "intent"@);
        lemma_jv_get_skip(e1, s2, "intent"@);
        lemma_jv_get_skip(e2, s3, "intent"@);
        lemma_jv_get_skip(e3, s4, "intent"@);
        lemma_jv_get_head(s4, "intent"@);
    } else {
        lemma_jv_get_skip(e0, s1, "intent"@);
        lemma_jv_get_skip(e1, s2, "intent"@);
        lemma_jv_get_skip(e2, s3, "intent"@);
        lemma_jv_get_skip(e3, s4, "intent"@);
        lemma_jv_get_skip(e4, s5, "intent"@);
        lemma_jv_get_skip(e5, s6, "intent"@);
        lemma_jv_get_skip(e6, s7, "intent"@);
        lemma_jv_get_skip(e7, s8, "intent"@);
        lemma_jv_get_absent(s8, "intent"@);
    }
    if v.payer is Some {
        lemma_jv_get_skip(e0, s1, "payer"@);
        lemma_jv_get_skip(e1, s2, "payer"@);
        lemma_jv_get_skip(e2, s3, "payer"@);
        lemma_jv_get_skip(e3, s4, "payer"@);
        lemma_jv_get_skip(e4, s5, "payer"@);
        lemma_jv_get_head(s5, "payer"@);
    } else {
        lemma_jv_get_skip(e0, s1, "payer"@);
        lemma_jv_get_skip(e1, s2, "payer"@);
        lemma_jv_get_skip(e2, s3, "payer"@);
        lemma_jv_get_skip(e3, s4, "payer"@);
        lemma_jv_get_skip(e4, s5, "payer"@);
        lemma_jv_get_skip(e5, s6, "payer"@);
        lemma_jv_get_skip(e6, s7, "payer"@);
        lemma_jv_get_skip(e7, s8, "payer"@);
        lemma_jv_get_absent(s8, "payer"@);
    }
    if v.purchase_units is Some {
        lemma_jv_get_skip(e0, s1, "purchase_units"@);
        lemma_jv_get_skip(e1, s2, "purchase_units"@);
        lemma_jv_get_skip(e2, s3, "purchase_units"@);
        lemma_jv_get_skip(e3, s4, "purchase_units"@);
        lemma_jv_get_skip(e4, s5, "purchase_units"@);
        lemma_jv_get_skip(e5, s6, "purchase_units"@);
        lemma_jv_get_head(s6, "purchase_units"@);
    } else {
        lemma_jv_get_skip(e0, s1, "purchase_units"@);
        lemma_jv_get_skip(e1, s2, "purchase_units"@);
        lemma_jv_get_skip(e2, s3, "purchase_units"@);
        lemma_jv_get_skip(e3, s4, "purchase_units"@);
        lemma_jv_get_skip(e4, s5, "purchase_units"@);
        lemma_jv_get_skip(e5, s6, "purchase_units"@);
        lemma_jv_get_skip(e6, s7, "purchase_units"@);
        lemma_jv_get_skip(e7, s8, "purchase_units"@);
        lemma_jv_get_absent(s8, "purchase_units"@);
    }
    lemma_jv_get_skip(e0, s1, "status"@);
    lemma_jv_get_skip(e1, s2, "status"@);
    lemma_jv_get_skip(e2, s3, "status"@);
    lemma_jv_get_skip(e3, s4, "status"@);
    lemma_jv_get_skip(e4, s5, "status"@);
    lemma_jv_get_skip(e5, s6, "status"@);
    lemma_jv_get_skip(e6, s7, "status"@);
    lemma_jv_get_head(s7, "status"@);
}

#[verifier::rlimit(100)]
proof fn lemma_order_fields_2(v: OrderV)
    ensures
        jv_get(order_jv(v)->Obj_0, "links"@) == Some(Jv::Arr(link_list_jv(v.links))),
{
    let fs = order_jv(v)->Obj_0;
    reveal_strlit("create_time");
    assert("create_time"@ =~= seq!['c','r','e','a','t','e','_','t','i','m','e']);
    reveal_strlit("update_time");
    assert("update_time"@ =~= seq!['u','p','d','a','t','e','_','t','i','m','e']);
    reveal_strlit("id");
    assert("id"@ =~= seq!['i','d']);
    reveal_strlit("payment_source");
    assert("payment_source"@ =~= seq!['p','a','y','m','e','n','t','_','s','o','u','r','c','e']);
    reveal_strlit("intent");
    assert("intent"@ =~= seq!['i','n','t','e','n','t']);
    reveal_strlit("payer");
    assert("payer"@ =~= seq!['p','a','y','e','r']);
    reveal_strlit("purchase_units");
    assert("purchase_units"@ =~= seq!['p','u','r','c','h','a','s','e','_','u','n','i','t','s']);
    reveal_strlit("status");
    assert("status"@ =~= seq!['s','t','a','t','u','s']);
    reveal_strlit("links");
    assert("links"@ =~= seq!['l','i','n','k','s']);
    let e0 = opt_str_entry("create_time"@, v.create_time);
    let e1 = opt_str_entry("update_time"@, v.update_time);
    let e2 = entry("id"@, Jv::Str(v.id));
    let e3 = opt_entry("payment_source"@, v.payment_source, |x: PaymentSourceResponseV| payment_source_jv(x));
    let e4 = opt_entry("intent"@, v.intent, |x: Intent| intent_jv(x));
    let e5 = opt_entry("payer"@, v.payer, |x: PayerV| payer_jv(x));
    let e6 = opt_entry("purchase_units"@, v.purchase_units, |x: Seq<PurchaseUnitV>| Jv::Arr(purchase_unit_list_jv(x)));
    let e7 = entry("status"@, order_status_jv(v.status));
    let e8 = entry("links"@, Jv::Arr(link_list_jv(v.links)));
    let l0 = e0;
    let l1 = l0 + e1;
    let l2 = l1 + e2;
    let l3 = l2 + e3;
    let l4 = l3 + e4;
    let l5 = l4 + e5;
    let l6 = l5 + e6;
    let l7 = l6 + e7;
    let l8 = l7 + e8;
    let s8 = e8;
    let s7 = e7 + s8;
    let s6 = e6 + s7;
    let s5 = e5 + s6;
    let s4 = e4 + s5;
    let s3 = e3 + s4;
    let s2 = e2 + s3;
    let s1 = e1 + s2;
    let s0 = e0 + s1;
    assert(fs == l8);
    lemma_concat_associative(l6, e7, s8);
    lemma_concat_associative(l5, e6, s7);
    lemma_concat_associative(l4, e5, s6);
    lemma_concat_associative(l3, e4, s5);
    lemma_concat_associative(l2, e3, s4);
    lemma_concat_associative(l1, e2, s3);
    lemma_concat_associative(l0, e1, s2);
    assert(fs == s0);
    lemma_jv_get_skip(e0, s1, "links"@);
    lemma_jv_get_skip(e1, s2, "links"@);
    lemma_jv_get_skip(e2, s3, "links"@);
    lemma_jv_get_skip(e3, s4, "links"@);
    lemma_jv_get_skip(e4, s5, "links"@);
    lemma_jv_get_skip(e5, s6, "links"@);
    lemma_jv_get_skip(e6, s7, "links"@);
    lemma_jv_get_skip(e7, s8, "links"@);
    lemma_jv_get_head(s8, "links"@);
}

/// A record of this type decodes back to itself after encoding; well-formedness is what the provider guarantees of the fields.
#[verifier::rlimit(100)]
pub proof fn lemma_order_round_trip(v: OrderV)
    ensures
        order_wf(v) ==> order_of_jv(order_jv(v)) == Some(v),
{
    if order_wf(v) {
        lemma_order_fields_0(v);
        lemma_order_fields_1(v);
        lemma_order_fields_2(v);
        if v.payment_source is Some {
            lemma_payment_source_round_trip(v.payment_source->Some_0);
        }
        if v.intent is Some {
            lemma_intent_tokens(v.intent->Some_0, Seq::empty());
        }
        if v.payer is Some {
            lemma_payer_round_trip(v.payer->Some_0);
        }
        if v.purchase_units is Some {
            lemma_purchase_unit_list_round_trip(v.purchase_units->Some_0);
        }
        lemma_order_status_tokens(v.status, Seq::empty());
        lemma_link_list_round_trip(v.links);
    }
}


impl Default for Intent {
    /// Orders capture immediately unless said otherwise.
    fn default() -> (r: Self)
        ensures
            r == Intent::Capture,
    {
        Intent::Capture
    }
}

impl Default for DisbursementMode {
    /// Funds are released to the merchant immediately unless said otherwise.
    fn default() -> (r: Self)
        ensures
            r == DisbursementMode::Instant,
    {
        DisbursementMode::Instant
    }
}

impl Default for ItemCategoryType {
    /// Items are digital goods unless said otherwise.
    fn default() -> (r: Self)
        ensures
            r == ItemCategoryType::Digital,
    {
        ItemCategoryType::Digital
    }
}

impl Default for LandingPage {
    /// The landing page follows the customer's previous interaction unless
    /// said otherwise.
    fn default() -> (r: Self)
        ensures
            r == LandingPage::NoPreference,
    {
        LandingPage::NoPreference
    }
}

impl Default for ShippingPreference {
    /// The customer-provided shipping address is used unless said otherwise.
    fn default() -> (r: Self)
        ensures
            r == ShippingPreference::GetFromFile,
    {
        ShippingPreference::GetFromFile
    }
}

impl Default for UserAction {
    /// Checkout shows a Continue button unless said otherwise.
    fn default() -> (r: Self)
        ensures
            r == UserAction::Continue,
    {
        UserAction::Continue
    }
}

impl Default for PayeePreferred {
    /// Any type of payment is accepted unless said otherwise.
    fn default() -> (r: Self)
        ensures
            r == PayeePreferred::Unrestricted,
    {
        PayeePreferred::Unrestricted
    }
}

impl Amount {
    /// A new amount of the required currency and value, with no breakdown.
    pub fn new(currency: Currency, value: &str) -> (r: Self)
        ensures
            r.currency_code == currency,
            r.value@ == value@,
            r.breakdown is None,
    {
        Amount { currency_code: currency, value: String::from_str(value), breakdown: None }
    }
}

impl PurchaseUnit {
    /// A new purchase unit of the required amount, with every optional field
    /// absent.
    pub fn new(amount: Amount) -> (r: Self)
        ensures
            r.amount == amount,
            r.reference_id is None,
            r.payee is None,
            r.payment_instruction is None,
            r.description is None,
            r.custom_id is None,
            r.invoice_id is None,
            r.id is None,
            r.soft_descriptor is None,
            r.items is None,
            r.shipping is None,
            r.payments is None,
    {
        PurchaseUnit {
            reference_id: None,
            amount,
            payee: None,
            payment_instruction: None,
            description: None,
            custom_id: None,
            invoice_id: None,
            id: None,
            soft_descriptor: None,
            items: None,
            shipping: None,
            payments: None,
        }
    }
}

impl OrderPayload {
    /// A new order payload with the required intent and purchase units.
    pub fn new(intent: Intent, purchase_units: Vec<PurchaseUnit>) -> (r: Self)
        ensures
            r.intent == intent,
            r.purchase_units == purchase_units,
            r.payer is None,
            r.application_context is None,
    {
        OrderPayload { intent, payer: None, purchase_units, application_context: None }
    }
}

} // verus!
