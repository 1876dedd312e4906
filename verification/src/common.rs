//! Value types shared across the provider's schemas: money, addresses,
//! navigation links, phone types, currency codes.

use vstd::prelude::*;

use crate::codec::{
    entry, get_opt_str, get_str, opt_str, opt_str_entry, push_field, req_field, req_str,
};
use crate::json::{
    arr_view, get_field, jv_get, lemma_jv_get_absent, lemma_jv_get_found, lemma_jv_get_head,
    lemma_jv_get_skip, obj_view, str_eq, Json, Jv,
};

use vstd::seq_lib::lemma_concat_associative;

verus! {

broadcast use vstd::string::group_string_axioms, vstd::std_specs::vec::group_vec_axioms, vstd::seq::group_seq_axioms;


/// A three-character ISO-4217 currency code.
#[derive(Debug, Clone, Copy, PartialEq, Eq)]
pub enum Currency {
    Aud,
    Brl,
    Cad,
    Chf,
    Cny,
    Eur,
    Gbp,
    Jpy,
    Mxn,
    Nzd,
    Pln,
    Sek,
    Usd,
}

impl DeepView for Currency {
    type V = Currency;

    open spec fn deep_view(&self) -> Currency {
        *self
    }
}

/// The token a [`Currency`] travels as.
pub open spec fn currency_token(x: Currency) -> Seq<char> {
    match x {
        Currency::Aud => "AUD"@,
        Currency::Brl => "BRL"@,
        Currency::Cad => "CAD"@,
        Currency::Chf => "CHF"@,
        Currency::Cny => "CNY"@,
        Currency::Eur => "EUR"@,
        Currency::Gbp => "GBP"@,
        Currency::Jpy => "JPY"@,
        Currency::Mxn => "MXN"@,
        Currency::Nzd => "NZD"@,
        Currency::Pln => "PLN"@,
        Currency::Sek => "SEK"@,
        Currency::Usd => "USD"@,
    }
}

/// The [`Currency`] behind a token; tokens outside the table are rejected.
pub open spec fn currency_of_token(t: Seq<char>) -> Option<Currency> {
    if t == "AUD"@ { Some(Currency::Aud) }
    else if t == "BRL"@ { Some(Currency::Brl) }
    else if t == "CAD"@ { Some(Currency::Cad) }
    else if t == "CHF"@ { Some(Currency::Chf) }
    else if t == "CNY"@ { Some(Currency::Cny) }
    else if t == "EUR"@ { Some(Currency::Eur) }
    else if t == "GBP"@ { Some(Currency::Gbp) }
    else if t == "JPY"@ { Some(Currency::Jpy) }
    else if t == "MXN"@ { Some(Currency::Mxn) }
    else if t == "NZD"@ { Some(Currency::Nzd) }
    else if t == "PLN"@ { Some(Currency::Pln) }
    else if t == "SEK"@ { Some(Currency::Sek) }
    else if t == "USD"@ { Some(Currency::Usd) }
    else { None }
}

pub open spec fn currency_jv(x: Currency) -> Jv {
    Jv::Str(currency_token(x))
}

pub open spec fn currency_of_jv(j: Jv) -> Option<Currency> {
    match j {
        Jv::Str(t) => currency_of_token(t),
        _ => None,
    }
}

pub fn encode_currency(x: &Currency) -> (j: Json)
    ensures
        j@ == currency_jv(*x),
{
    let t: &str = match x {
        Currency::Aud => "AUD",
        Currency::Brl => "BRL",
        Currency::Cad => "CAD",
        Currency::Chf => "CHF",
        Currency::Cny => "CNY",
        Currency::Eur => "EUR",
        Currency::Gbp => "GBP",
        Currency::Jpy => "JPY",
        Currency::Mxn => "MXN",
        Currency::Nzd => "NZD",
        Currency::Pln => "PLN",
        Currency::Sek => "SEK",
        Currency::Usd => "USD",
    };
    Json::Str(String::from_str(t))
}

pub fn decode_currency(j: &Json) -> (r: Option<Currency>)
    ensures
        r matches Some(x) ==> currency_of_jv(j@) == Some(x),
        r is None ==> currency_of_jv(j@) is None,
{
    match j {
        Json::Str(s) => {
            let t = s.as_str();
            if str_eq(t, "AUD") { Some(Currency::Aud) }
            else if str_eq(t, "BRL") { Some(Currency::Brl) }
            else if str_eq(t, "CAD") { Some(Currency::Cad) }
            else if str_eq(t, "CHF") { Some(Currency::Chf) }
            else if str_eq(t, "CNY") { Some(Currency::Cny) }
            else if str_eq(t, "EUR") { Some(Currency::Eur) }
            else if str_eq(t, "GBP") { Some(Currency::Gbp) }
            else if str_eq(t, "JPY") { Some(Currency::Jpy) }
            else if str_eq(t, "MXN") { Some(Currency::Mxn) }
            else if str_eq(t, "NZD") { Some(Currency::Nzd) }
            else if str_eq(t, "PLN") { Some(Currency::Pln) }
            else if str_eq(t, "SEK") { Some(Currency::Sek) }
            else if str_eq(t, "USD") { Some(Currency::Usd) }
            else { None }
        },
        _ => None,
    }
}

/// Tokens of [`Currency`]: encoding lands in the table and decodes back;
/// a decoded token is the encoding of what it decoded to.
pub proof fn lemma_currency_tokens(x: Currency, t: Seq<char>)
    ensures
        currency_of_token(currency_token(x)) == Some(x),
        currency_of_token(t) matches Some(y) ==> currency_token(y) == t,
{
    reveal_strlit("AUD");
    assert("AUD"@ =~= seq!['A','U','D']);
    reveal_strlit("BRL");
    assert("BRL"@ =~= seq!['B','R','L']);
    reveal_strlit("CAD");
    assert("CAD"@ =~= seq!['C','A','D']);
    reveal_strlit("CHF");
    assert("CHF"@ =~= seq!['C','H','F']);
    reveal_strlit("CNY");
    assert("CNY"@ =~= seq!['C','N','Y']);
    reveal_strlit("EUR");
    assert("EUR"@ =~= seq!['E','U','R']);
    reveal_strlit("GBP");
    assert("GBP"@ =~= seq!['G','B','P']);
    reveal_strlit("JPY");
    assert("JPY"@ =~= seq!['J','P','Y']);
    reveal_strlit("MXN");
    assert("MXN"@ =~= seq!['M','X','N']);
    reveal_strlit("NZD");
    assert("NZD"@ =~= seq!['N','Z','D']);
    reveal_strlit("PLN");
    assert("PLN"@ =~= seq!['P','L','N']);
    reveal_strlit("SEK");
    assert("SEK"@ =~= seq!['S','E','K']);
    reveal_strlit("USD");
    assert("USD"@ =~= seq!['U','S','D']);
}

/// A phone's type.
#[derive(Debug, Clone, Copy, PartialEq, Eq)]
pub enum PhoneType {
    Fax,
    Home,
    Mobile,
    Other,
    Pager,
}

impl DeepView for PhoneType {
    type V = PhoneType;

    open spec fn deep_view(&self) -> PhoneType {
        *self
    }
}

/// The token a [`PhoneType`] travels as.
pub open spec fn phone_type_token(x: PhoneType) -> Seq<char> {
    match x {
        PhoneType::Fax => "FAX"@,
        PhoneType::Home => "HOME"@,
        PhoneType::Mobile => "MOBILE"@,
        PhoneType::Other => "OTHER"@,
        PhoneType::Pager => "PAGER"@,
    }
}

/// The [`PhoneType`] behind a token; tokens outside the table are rejected.
pub open spec fn phone_type_of_token(t: Seq<char>) -> Option<PhoneType> {
    if t == "FAX"@ { Some(PhoneType::Fax) }
    else if t == "HOME"@ { Some(PhoneType::Home) }
    else if t == "MOBILE"@ { Some(PhoneType::Mobile) }
    else if t == "OTHER"@ { Some(PhoneType::Other) }
    else if t == "PAGER"@ { Some(PhoneType::Pager) }
    else { None }
}

pub open spec fn phone_type_jv(x: PhoneType) -> Jv {
    Jv::Str(phone_type_token(x))
}

pub open spec fn phone_type_of_jv(j: Jv) -> Option<PhoneType> {
    match j {
        Jv::Str(t) => phone_type_of_token(t),
        _ => None,
    }
}

pub fn encode_phone_type(x: &PhoneType) -> (j: Json)
    ensures
        j@ == phone_type_jv(*x),
{
    let t: &str = match x {
        PhoneType::Fax => "FAX",
        PhoneType::Home => "HOME",
        PhoneType::Mobile => "MOBILE",
        PhoneType::Other => "OTHER",
        PhoneType::Pager => "PAGER",
    };
    Json::Str(String::from_str(t))
}

pub fn decode_phone_type(j: &Json) -> (r: Option<PhoneType>)
    ensures
        r matches Some(x) ==> phone_type_of_jv(j@) == Some(x),
        r is None ==> phone_type_of_jv(j@) is None,
{
    match j {
        Json::Str(s) => {
            let t = s.as_str();
            if str_eq(t, "FAX") { Some(PhoneType::Fax) }
            else if str_eq(t, "HOME") { Some(PhoneType::Home) }
            else if str_eq(t, "MOBILE") { Some(PhoneType::Mobile) }
            else if str_eq(t, "OTHER") { Some(PhoneType::Other) }
            else if str_eq(t, "PAGER") { Some(PhoneType::Pager) }
            else { None }
        },
        _ => None,
    }
}

/// Tokens of [`PhoneType`]: encoding lands in the table and decodes back;
/// a decoded token is the encoding of what it decoded to.
pub proof fn lemma_phone_type_tokens(x: PhoneType, t: Seq<char>)
    ensures
        phone_type_of_token(phone_type_token(x)) == Some(x),
        phone_type_of_token(t) matches Some(y) ==> phone_type_token(y) == t,
{
    reveal_strlit("FAX");
    assert("FAX"@ =~= seq!['F','A','X']);
    reveal_strlit("HOME");
    assert("HOME"@ =~= seq!['H','O','M','E']);
    reveal_strlit("MOBILE");
    assert("MOBILE"@ =~= seq!['M','O','B','I','L','E']);
    reveal_strlit("OTHER");
    assert("OTHER"@ =~= seq!['O','T','H','E','R']);
    reveal_strlit("PAGER");
    assert("PAGER"@ =~= seq!['P','A','G','E','R']);
}

/// An amount of money: a currency code and a decimal string, never a floating-point number.
#[derive(Debug, Clone, PartialEq, Eq)]
pub struct Money {
    /// The three-character ISO-4217 currency code.
    pub currency_code: Currency,
    /// The decimal value, with the currency's documented number of digits.
    pub value: String,
}

/// The shape of a [`Money`].
pub struct MoneyV {
    pub currency_code: Currency,
    pub value: Seq<char>,
}

impl DeepView for Money {
    type V = MoneyV;

    open spec fn deep_view(&self) -> MoneyV {
        MoneyV {
            currency_code: self.currency_code.deep_view(),
            value: self.value.deep_view(),
        }
    }
}

pub open spec fn money_jv(v: MoneyV) -> Jv {
    Jv::Obj(
        entry("currency_code"@, currency_jv(v.currency_code))
        + entry("value"@, Jv::Str(v.value))
    )
}

pub open spec fn money_of_jv(j: Jv) -> Option<MoneyV> {
    match j {
        Jv::Obj(fs) => {
            let f_currency_code = req_field(fs, "currency_code"@, |x: Jv| currency_of_jv(x));
            let f_value = req_str(fs, "value"@);
            if f_currency_code is Some && f_value is Some {
                Some(MoneyV {
                    currency_code: f_currency_code->Some_0,
                    value: f_value->Some_0,
                })
            } else {
                None
            }
        },
        _ => None,
    }
}

pub fn encode_money(x: &Money) -> (j: Json)
    ensures
        j@ == money_jv(x.deep_view()),
{
    let mut fs: Vec<(String, Json)> = Vec::new();
    push_field(&mut fs, "currency_code", encode_currency(&x.currency_code));
    push_field(&mut fs, "value", Json::Str(x.value.clone()));
    let r = Json::Obj(fs);
    proof {
        assert(r@->Obj_0 =~= money_jv(x.deep_view())->Obj_0);
        assert(r@ == money_jv(x.deep_view()));
    }
    r
}

pub fn decode_money(j: &Json) -> (r: Option<Money>)
    ensures
        r matches Some(x) ==> money_of_jv(j@) == Some(x.deep_view()),
        r is None ==> money_of_jv(j@) is None,
{
    match j {
        Json::Obj(fs) => {
            proof {
                assert(j@->Obj_0 =~= obj_view(fs@));
            }
            let f_currency_code = match get_field(fs, "currency_code") {
                Some(x) => match decode_currency(x) {
                    Some(v) => v,
                    None => { return None; },
                },
                None => { return None; },
            };
            let f_value = match get_str(fs, "value") {
                Some(s) => s,
                None => { return None; },
            };
            Some(Money {
                currency_code: f_currency_code,
                value: f_value,
            })
        },
        _ => None,
    }
}

/// A record of this type decodes back to itself after encoding.
#[verifier::rlimit(100)]
pub proof fn lemma_money_round_trip(v: MoneyV)
    ensures
        money_of_jv(money_jv(v)) == Some(v),
{
    let fs = money_jv(v)->Obj_0;
    reveal_strlit("currency_code");
    assert("currency_code"@ =~= seq!['c','u','r','r','e','n','c','y','_','c','o','d','e']);
    reveal_strlit("value");
    assert("value"@ =~= seq!['v','a','l','u','e']);
    lemma_jv_get_found(fs, "currency_code"@, 0int);
    lemma_jv_get_found(fs, "value"@, 1int);
    lemma_currency_tokens(v.currency_code, Seq::empty());
}

/// A portable postal address.
#[derive(Debug, Clone, PartialEq, Eq)]
pub struct Address {
    /// The first line of the address, such as number and street.
    pub address_line_1: Option<String>,
    /// The second line of the address, such as suite or apartment number.
    pub address_line_2: Option<String>,
    /// A city, town, or village.
    pub admin_area_2: Option<String>,
    /// The highest-level subdivision, such as a state or province.
    pub admin_area_1: Option<String>,
    /// The postal code.
    pub postal_code: Option<String>,
    /// The two-character ISO 3166-1 country code.
    pub country_code: String,
}

/// The shape of a [`Address`].
pub struct AddressV {
    pub address_line_1: Option<Seq<char>>,
    pub address_line_2: Option<Seq<char>>,
    pub admin_area_2: Option<Seq<char>>,
    pub admin_area_1: Option<Seq<char>>,
    pub postal_code: Option<Seq<char>>,
    pub country_code: Seq<char>,
}

impl DeepView for Address {
    type V = AddressV;

    open spec fn deep_view(&self) -> AddressV {
        AddressV {
            address_line_1: self.address_line_1.deep_view(),
            address_line_2: self.address_line_2.deep_view(),
            admin_area_2: self.admin_area_2.deep_view(),
            admin_area_1: self.admin_area_1.deep_view(),
            postal_code: self.postal_code.deep_view(),
            country_code: self.country_code.deep_view(),
        }
    }
}

pub open spec fn address_jv(v: AddressV) -> Jv {
    Jv::Obj(
        opt_str_entry("address_line_1"@, v.address_line_1)
        + opt_str_entry("address_line_2"@, v.address_line_2)
        + opt_str_entry("admin_area_2"@, v.admin_area_2)
        + opt_str_entry("admin_area_1"@, v.admin_area_1)
        + opt_str_entry("postal_code"@, v.postal_code)
        + entry("country_code"@, Jv::Str(v.country_code))
    )
}

pub open spec fn address_of_jv(j: Jv) -> Option<AddressV> {
    match j {
        Jv::Obj(fs) => {
            let f_address_line_1 = opt_str(fs, "address_line_1"@);
            let f_address_line_2 = opt_str(fs, "address_line_2"@);
            let f_admin_area_2 = opt_str(fs, "admin_area_2"@);
            let f_admin_area_1 = opt_str(fs, "admin_area_1"@);
            let f_postal_code = opt_str(fs, "postal_code"@);
            let f_country_code = req_str(fs, "country_code"@);
            if f_address_line_1 is Some && f_address_line_2 is Some && f_admin_area_2 is Some && f_admin_area_1 is Some && f_postal_code is Some && f_country_code is Some {
                Some(AddressV {
                    address_line_1: f_address_line_1->Some_0,
                    address_line_2: f_address_line_2->Some_0,
                    admin_area_2: f_admin_area_2->Some_0,
                    admin_area_1: f_admin_area_1->Some_0,
                    postal_code: f_postal_code->Some_0,
                    country_code: f_country_code->Some_0,
                })
            } else {
                None
            }
        },
        _ => None,
    }
}

#[verifier::rlimit(100)]
pub fn encode_address(x: &Address) -> (j: Json)
    ensures
        j@ == address_jv(x.deep_view()),
{
    let mut fs: Vec<(String, Json)> = Vec::new();
    match &x.address_line_1 {
        Some(v) => { push_field(&mut fs, "address_line_1", Json::Str(v.clone())); },
        None => {},
    }
    match &x.address_line_2 {
        Some(v) => { push_field(&mut fs, "address_line_2", Json::Str(v.clone())); },
        None => {},
    }
    match &x.admin_area_2 {
        Some(v) => { push_field(&mut fs, "admin_area_2", Json::Str(v.clone())); },
        None => {},
    }
    match &x.admin_area_1 {
        Some(v) => { push_field(&mut fs, "admin_area_1", Json::Str(v.clone())); },
        None => {},
    }
    match &x.postal_code {
        Some(v) => { push_field(&mut fs, "postal_code", Json::Str(v.clone())); },
        None => {},
    }
    push_field(&mut fs, "country_code", Json::Str(x.country_code.clone()));
    let r = Json::Obj(fs);
    proof {
        assert(r@->Obj_0 =~= address_jv(x.deep_view())->Obj_0);
        assert(r@ == address_jv(x.deep_view()));
    }
    r
}

#[verifier::rlimit(100)]
pub fn decode_address(j: &Json) -> (r: Option<Address>)
    ensures
        r matches Some(x) ==> address_of_jv(j@) == Some(x.deep_view()),
        r is None ==> address_of_jv(j@) is None,
{
    match j {
        Json::Obj(fs) => {
            proof {
                assert(j@->Obj_0 =~= obj_view(fs@));
            }
            let f_address_line_1 = match get_opt_str(fs, "address_line_1") {
                Some(v) => v,
                None => { return None; },
            };
            let f_address_line_2 = match get_opt_str(fs, "address_line_2") {
                Some(v) => v,
                None => { return None; },
            };
            let f_admin_area_2 = match get_opt_str(fs, "admin_area_2") {
                Some(v) => v,
                None => { return None; },
            };
            let f_admin_area_1 = match get_opt_str(fs, "admin_area_1") {
                Some(v) => v,
                None => { return None; },
            };
            let f_postal_code = match get_opt_str(fs, "postal_code") {
                Some(v) => v,
                None => { return None; },
            };
            let f_country_code = match get_str(fs, "country_code") {
                Some(s) => s,
                None => { return None; },
            };
            Some(Address {
                address_line_1: f_address_line_1,
                address_line_2: f_address_line_2,
                admin_area_2: f_admin_area_2,
                admin_area_1: f_admin_area_1,
                postal_code: f_postal_code,
                country_code: f_country_code,
            })
        },
        _ => None,
    }
}

#[verifier::rlimit(100)]
proof fn lemma_address_fields_0(v: AddressV)
    ensures
        v.address_line_1 is Some ==> jv_get(address_jv(v)->Obj_0, "address_line_1"@) == Some(Jv::Str(v.address_line_1->Some_0)),
        v.address_line_1 is None ==> jv_get(address_jv(v)->Obj_0, "address_line_1"@) is None,
        v.address_line_2 is Some ==> jv_get(address_jv(v)->Obj_0, "address_line_2"@) == Some(Jv::Str(v.address_line_2->Some_0)),
        v.address_line_2 is None ==> jv_get(address_jv(v)->Obj_0, "address_line_2"@) is None,
        v.admin_area_2 is Some ==> jv_get(address_jv(v)->Obj_0, "admin_area_2"@) == Some(Jv::Str(v.admin_area_2->Some_0)),
        v.admin_area_2 is None ==> jv_get(address_jv(v)->Obj_0, "admin_area_2"@) is None,
        v.admin_area_1 is Some ==> jv_get(address_jv(v)->Obj_0, "admin_area_1"@) == Some(Jv::Str(v.admin_area_1->Some_0)),
        v.admin_area_1 is None ==> jv_get(address_jv(v)->Obj_0, "admin_area_1"@) is None,
{
    let fs = address_jv(v)->Obj_0;
    reveal_strlit("address_line_1");
    assert("address_line_1"@ =~= seq!['a','d','d','r','e','s','s','_','l','i','n','e','_','1']);
    reveal_strlit("address_line_2");
    assert("address_line_2"@ =~= seq!['a','d','d','r','e','s','s','_','l','i','n','e','_','2']);
    reveal_strlit("admin_area_2");
    assert("admin_area_2"@ =~= seq!['a','d','m','i','n','_','a','r','e','a','_','2']);
    reveal_strlit("admin_area_1");
    assert("admin_area_1"@ =~= seq!['a','d','m','i','n','_','a','r','e','a','_','1']);
    reveal_strlit("postal_code");
    assert("postal_code"@ =~= seq!['p','o','s','t','a','l','_','c','o','d','e']);
    reveal_strlit("country_code");
    assert("country_code"@ =~= seq!['c','o','u','n','t','r','y','_','c','o','d','e']);
    let e0 = opt_str_entry("address_line_1"@, v.address_line_1);
    let e1 = opt_str_entry("address_line_2"@, v.address_line_2);
    let e2 = opt_str_entry("admin_area_2"@, v.admin_area_2);
    let e3 = opt_str_entry("admin_area_1"@, v.admin_area_1);
    let e4 = opt_str_entry("postal_code"@, v.postal_code);
    let e5 = entry("country_code"@, Jv::Str(v.country_code));
    let l0 = e0;
    let l1 = l0 + e1;
    let l2 = l1 + e2;
    let l3 = l2 + e3;
    let l4 = l3 + e4;
    let l5 = l4 + e5;
    let s5 = e5;
    let s4 = e4 + s5;
    let s3 = e3 + s4;
    let s2 = e2 + s3;
    let s1 = e1 + s2;
    let s0 = e0 + s1;
    assert(fs == l5);
    lemma_concat_associative(l3, e4, s5);
    lemma_concat_associative(l2, e3, s4);
    lemma_concat_associative(l1, e2, s3);
    lemma_concat_associative(l0, e1, s2);
    assert(fs == s0);
    if v.address_line_1 is Some {
        lemma_jv_get_head(s0, "address_line_1"@);
    } else {
        lemma_jv_get_skip(e0, s1, "address_line_1"@);
        lemma_jv_get_skip(e1, s2, "address_line_1"@);
        lemma_jv_get_skip(e2, s3, "address_line_1"@);
        lemma_jv_get_skip(e3, s4, "address_line_1"@);
        lemma_jv_get_skip(e4, s5, "address_line_1"@);
        lemma_jv_get_absent(s5, "address_line_1"@);
    }
    if v.address_line_2 is Some {
        lemma_jv_get_skip(e0, s1, "address_line_2"@);
        lemma_jv_get_head(s1, "address_line_2"@);
    } else {
        lemma_jv_get_skip(e0, s1, "address_line_2"@);
        lemma_jv_get_skip(e1, s2, "address_line_2"@);
        lemma_jv_get_skip(e2, s3, "address_line_2"@);
        lemma_jv_get_skip(e3, s4, "address_line_2"@);
        lemma_jv_get_skip(e4, s5, "address_line_2"@);
        lemma_jv_get_absent(s5, "address_line_2"@);
    }
    if v.admin_area_2 is Some {
        lemma_jv_get_skip(e0, s1, "admin_area_2"@);
        lemma_jv_get_skip(e1, s2, "admin_area_2"@);
        lemma_jv_get_head(s2, "admin_area_2"@);
    } else {
        lemma_jv_get_skip(e0, s1, "admin_area_2"@);
        lemma_jv_get_skip(e1, s2, "admin_area_2"@);
        lemma_jv_get_skip(e2, s3, "admin_area_2"@);
        lemma_jv_get_skip(e3, s4, "admin_area_2"@);
        lemma_jv_get_skip(e4, s5, "admin_area_2"@);
        lemma_jv_get_absent(s5, "admin_area_2"@);
    }
    if v.admin_area_1 is Some {
        lemma_jv_get_skip(e0, s1, "admin_area_1"@);
        lemma_jv_get_skip(e1, s2, "admin_area_1"@);
        lemma_jv_get_skip(e2, s3, "admin_area_1"@);
        lemma_jv_get_head(s3, "admin_area_1"@);
    } else {
        lemma_jv_get_skip(e0, s1, "admin_area_1"@);
        lemma_jv_get_skip(e1, s2, "admin_area_1"@);
        lemma_jv_get_skip(e2, s3, "admin_area_1"@);
        lemma_jv_get_skip(e3, s4, "admin_area_1"@);
        lemma_jv_get_skip(e4, s5, "admin_area_1"@);
        lemma_jv_get_absent(s5, "admin_area_1"@);
    }
}

#[verifier::rlimit(100)]
proof fn lemma_address_fields_1(v: AddressV)
    ensures
        v.postal_code is Some ==> jv_get(address_jv(v)->Obj_0, "postal_code"@) == Some(Jv::Str(v.postal_code->Some_0)),
        v.postal_code is None ==> jv_get(address_jv(v)->Obj_0, "postal_code"@) is None,
        jv_get(address_jv(v)->Obj_0, "country_code"@) == Some(Jv::Str(v.country_code)),
{
    let fs = address_jv(v)->Obj_0;
    reveal_strlit("address_line_1");
    assert("address_line_1"@ =~= seq!['a','d','d','r','e','s','s','_','l','i','n','e','_','1']);
    reveal_strlit("address_line_2");
    assert("address_line_2"@ =~= seq!['a','d','d','r','e','s','s','_','l','i','n','e','_','2']);
    reveal_strlit("admin_area_2");
    assert("admin_area_2"@ =~= seq!['a','d','m','i','n','_','a','r','e','a','_','2']);
    reveal_strlit("admin_area_1");
    assert("admin_area_1"@ =~= seq!['a','d','m','i','n','_','a','r','e','a','_','1']);
    reveal_strlit("postal_code");
    assert("postal_code"@ =~= seq!['p','o','s','t','a','l','_','c','o','d','e']);
    reveal_strlit("country_code");
    assert("country_code"@ =~= seq!['c','o','u','n','t','r','y','_','c','o','d','e']);
    let e0 = opt_str_entry("address_line_1"@, v.address_line_1);
    let e1 = opt_str_entry("address_line_2"@, v.address_line_2);
    let e2 = opt_str_entry("admin_area_2"@, v.admin_area_2);
    let e3 = opt_str_entry("admin_area_1"@, v.admin_area_1);
    let e4 = opt_str_entry("postal_code"@, v.postal_code);
    let e5 = entry("country_code"@, Jv::Str(v.country_code));
    let l0 = e0;
    let l1 = l0 + e1;
    let l2 = l1 + e2;
    let l3 = l2 + e3;
    let l4 = l3 + e4;
    let l5 = l4 + e5;
    let s5 = e5;
    let s4 = e4 + s5;
    let s3 = e3 + s4;
    let s2 = e2 + s3;
    let s1 = e1 + s2;
    let s0 = e0 + s1;
    assert(fs == l5);
    lemma_concat_associative(l3, e4, s5);
    lemma_concat_associative(l2, e3, s4);
    lemma_concat_associative(l1, e2, s3);
    lemma_concat_associative(l0, e1, s2);
    assert(fs == s0);
    if v.postal_code is Some {
        lemma_jv_get_skip(e0, s1, "postal_code"@);
        lemma_jv_get_skip(e1, s2, "postal_code"@);
        lemma_jv_get_skip(e2, s3, "postal_code"@);
        lemma_jv_get_skip(e3, s4, "postal_code"@);
        lemma_jv_get_head(s4, "postal_code"@);
    } else {
        lemma_jv_get_skip(e0, s1, "postal_code"@);
        lemma_jv_get_skip(e1, s2, "postal_code"@);
        lemma_jv_get_skip(e2, s3, "postal_code"@);
        lemma_jv_get_skip(e3, s4, "postal_code"@);
        lemma_jv_get_skip(e4, s5, "postal_code"@);
        lemma_jv_get_absent(s5, "postal_code"@);
    }
    lemma_jv_get_skip(e0, s1, "country_code"@);
    lemma_jv_get_skip(e1, s2, "country_code"@);
    lemma_jv_get_skip(e2, s3, "country_code"@);
    lemma_jv_get_skip(e3, s4, "country_code"@);
    lemma_jv_get_skip(e4, s5, "country_code"@);
    lemma_jv_get_head(s5, "country_code"@);
}

/// A record of this type decodes back to itself after encoding.
#[verifier::rlimit(100)]
pub proof fn lemma_address_round_trip(v: AddressV)
    ensures
        address_of_jv(address_jv(v)) == Some(v),
{
    lemma_address_fields_0(v);
    lemma_address_fields_1(v);
}

/// A request-related HATEOAS link the provider hands back.
#[derive(Debug, Clone, PartialEq, Eq)]
pub struct LinkDescription {
    /// The complete target URL.
    pub href: String,
    /// The link relation type, such as `approve` or `self`.
    pub rel: String,
    /// The HTTP method required to make the related call.
    pub method: Option<String>,
}

/// The shape of a [`LinkDescription`].
pub struct LinkDescriptionV {
    pub href: Seq<char>,
    pub rel: Seq<char>,
    pub method: Option<Seq<char>>,
}

impl DeepView for LinkDescription {
    type V = LinkDescriptionV;

    open spec fn deep_view(&self) -> LinkDescriptionV {
        LinkDescriptionV {
            href: self.href.deep_view(),
            rel: self.rel.deep_view(),
            method: self.method.deep_view(),
        }
    }
}

pub open spec fn link_jv(v: LinkDescriptionV) -> Jv {
    Jv::Obj(
        entry("href"@, Jv::Str(v.href))
        + entry("rel"@, Jv::Str(v.rel))
        + opt_str_entry("method"@, v.method)
    )
}

pub open spec fn link_of_jv(j: Jv) -> Option<LinkDescriptionV> {
    match j {
        Jv::Obj(fs) => {
            let f_href = req_str(fs, "href"@);
            let f_rel = req_str(fs, "rel"@);
            let f_method = opt_str(fs, "method"@);
            if f_href is Some && f_rel is Some && f_method is Some {
                Some(LinkDescriptionV {
                    href: f_href->Some_0,
                    rel: f_rel->Some_0,
                    method: f_method->Some_0,
                })
            } else {
                None
            }
        },
        _ => None,
    }
}

pub fn encode_link(x: &LinkDescription) -> (j: Json)
    ensures
        j@ == link_jv(x.deep_view()),
{
    let mut fs: Vec<(String, Json)> = Vec::new();
    push_field(&mut fs, "href", Json::Str(x.href.clone()));
    push_field(&mut fs, "rel", Json::Str(x.rel.clone()));
    match &x.method {
        Some(v) => { push_field(&mut fs, "method", Json::Str(v.clone())); },
        None => {},
    }
    let r = Json::Obj(fs);
    proof {
        assert(r@->Obj_0 =~= link_jv(x.deep_view())->Obj_0);
        assert(r@ == link_jv(x.deep_view()));
    }
    r
}

pub fn decode_link(j: &Json) -> (r: Option<LinkDescription>)
    ensures
        r matches Some(x) ==> link_of_jv(j@) == Some(x.deep_view()),
        r is None ==> link_of_jv(j@) is None,
{
    match j {
        Json::Obj(fs) => {
            proof {
                assert(j@->Obj_0 =~= obj_view(fs@));
            }
            let f_href = match get_str(fs, "href") {
                Some(s) => s,
                None => { return None; },
            };
            let f_rel = match get_str(fs, "rel") {
                Some(s) => s,
                None => { return None; },
            };
            let f_method = match get_opt_str(fs, "method") {
                Some(v) => v,
                None => { return None; },
            };
            Some(LinkDescription {
                href: f_href,
                rel: f_rel,
                method: f_method,
            })
        },
        _ => None,
    }
}

/// A record of this type decodes back to itself after encoding.
#[verifier::rlimit(100)]
pub proof fn lemma_link_round_trip(v: LinkDescriptionV)
    ensures
        link_of_jv(link_jv(v)) == Some(v),
{
    let fs = link_jv(v)->Obj_0;
    reveal_strlit("href");
    assert("href"@ =~= seq!['h','r','e','f']);
    reveal_strlit("rel");
    assert("rel"@ =~= seq!['r','e','l']);
    reveal_strlit("method");
    assert("method"@ =~= seq!['m','e','t','h','o','d']);
    lemma_jv_get_found(fs, "href"@, 0int);
    lemma_jv_get_found(fs, "rel"@, 1int);
    if v.method is Some {
        lemma_jv_get_found(fs, "method"@, 1int + 1int);
    } else {
        lemma_jv_get_absent(fs, "method"@);
    }
}

/// The items of an encoded list of navigation links.
pub open spec fn link_list_jv(items: Seq<LinkDescriptionV>) -> Seq<Jv> {
    Seq::new(items.len(), |i: int| link_jv(items[i]))
}

/// Whether every item of a JSON list decodes as one of navigation links.
pub open spec fn link_list_of_jv_ok(items: Seq<Jv>) -> bool {
    forall|i: int| 0 <= i < items.len() ==> (#[trigger] link_of_jv(items[i])) is Some
}

/// The items of a decoded list of navigation links: every item must decode.
pub open spec fn link_list_of_jv(items: Seq<Jv>) -> Option<Seq<LinkDescriptionV>> {
    if link_list_of_jv_ok(items) {
        Some(Seq::new(items.len(), |i: int| link_of_jv(items[i])->Some_0))
    } else {
        None
    }
}

/// A decoded list node of navigation links.
pub open spec fn link_arr_of_jv(j: Jv) -> Option<Seq<LinkDescriptionV>> {
    match j {
        Jv::Arr(items) => link_list_of_jv(items),
        _ => None,
    }
}

/// A list of navigation links decodes back to the items it was encoded from.
pub proof fn lemma_link_list_round_trip(items: Seq<LinkDescriptionV>)
    ensures
        link_list_of_jv(link_list_jv(items)) == Some(items),
{
    let js = link_list_jv(items);
    assert forall|i: int| 0 <= i < js.len() implies link_of_jv(#[trigger] js[i]) == Some(
        items[i],
    ) by {
        lemma_link_round_trip(items[i]);
    }
    assert(Seq::new(js.len(), |i: int| link_of_jv(js[i])->Some_0) =~= items);
}

pub fn encode_link_vec(v: &Vec<LinkDescription>) -> (j: Json)
    ensures
        j@ == Jv::Arr(link_list_jv(v.deep_view())),
{
    let mut items: Vec<Json> = Vec::new();
    let mut i: usize = 0;
    while i < v.len()
        invariant
            i <= v.len(),
            items@.len() == i as nat,
            forall|k: int| 0 <= k < i ==> (#[trigger] items@[k]@) == link_jv(v.deep_view()[k]),
        decreases v.len() - i,
    {
        items.push(encode_link(&v[i]));
        i += 1;
    }
    let r = Json::Arr(items);
    proof {
        assert(r@->Arr_0.len() == v.deep_view().len());
        assert forall|k: int| 0 <= k < v.deep_view().len() implies r@->Arr_0[k] == link_jv(
            v.deep_view()[k],
        ) by {
            assert(items@[k]@ == link_jv(v.deep_view()[k]));
        }
        assert(r@->Arr_0 =~= link_list_jv(v.deep_view()));
    }
    r
}

pub fn decode_link_vec(items: &Vec<Json>) -> (r: Option<Vec<LinkDescription>>)
    ensures
        r matches Some(v) ==> link_list_of_jv(arr_view(items@)) == Some(v.deep_view()),
        r is None ==> link_list_of_jv(arr_view(items@)) is None,
{
    let ghost av = arr_view(items@);
    let mut out: Vec<LinkDescription> = Vec::new();
    let mut i: usize = 0;
    while i < items.len()
        invariant
            i <= items.len(),
            out@.len() == i as nat,
            av == arr_view(items@),
            forall|k: int| 0 <= k < i ==> (#[trigger] link_of_jv(av[k])) == Some(
                out.deep_view()[k],
            ),
        decreases items.len() - i,
    {
        match decode_link(&items[i]) {
            Some(x) => { out.push(x); },
            None => {
                proof {
                    assert(link_of_jv(av[i as int]) is None);
                }
                return None;
            },
        }
        i += 1;
    }
    proof {
        assert forall|k: int| 0 <= k < av.len() implies (#[trigger] link_of_jv(av[k])) is Some by {
        }
        assert(Seq::new(av.len(), |k: int| link_of_jv(av[k])->Some_0) =~= out.deep_view());
    }
    Some(out)
}


} // verus!
