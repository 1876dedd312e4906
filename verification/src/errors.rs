//! The two failure shapes an operation can report: a structured error the
//! provider returned with a non-success status, and a response body that
//! did not match the expected schema.

use vstd::prelude::*;

use crate::codec::{
    entry, get_opt_str, get_str, opt_str, opt_str_entry, push_field, req_str,
};
use crate::json::{
    get_field, jv_get, lemma_jv_get_absent, lemma_jv_get_found, obj_view, str_eq, Json, Jv,
};

verus! {

broadcast use vstd::string::group_string_axioms, vstd::std_specs::vec::group_vec_axioms, vstd::seq::group_seq_axioms;


/// The provider's structured error body, returned with a non-success status.
#[derive(Debug, Clone, PartialEq, Eq)]
pub struct PaypalError {
    pub name: String,
    pub message: String,
    pub debug_id: Option<String>,
    pub information_link: Option<String>,
}

/// The shape of a [`PaypalError`].
pub struct PaypalErrorV {
    pub name: Seq<char>,
    pub message: Seq<char>,
    pub debug_id: Option<Seq<char>>,
    pub information_link: Option<Seq<char>>,
}

impl DeepView for PaypalError {
    type V = PaypalErrorV;

    open spec fn deep_view(&self) -> PaypalErrorV {
        PaypalErrorV {
            name: self.name.deep_view(),
            message: self.message.deep_view(),
            debug_id: self.debug_id.deep_view(),
            information_link: self.information_link.deep_view(),
        }
    }
}

pub open spec fn paypal_error_jv(v: PaypalErrorV) -> Jv {
    Jv::Obj(
        entry("name"@, Jv::Str(v.name))
        + entry("message"@, Jv::Str(v.message))
        + opt_str_entry("debug_id"@, v.debug_id)
        + opt_str_entry("information_link"@, v.information_link)
    )
}

pub open spec fn paypal_error_of_jv(j: Jv) -> Option<PaypalErrorV> {
    match j {
        Jv::Obj(fs) => {
            let f_name = req_str(fs, "name"@);
            let f_message = req_str(fs, "message"@);
            let f_debug_id = opt_str(fs, "debug_id"@);
            let f_information_link = opt_str(fs, "information_link"@);
            if f_name is Some && f_message is Some && f_debug_id is Some && f_information_link is Some {
                Some(PaypalErrorV {
                    name: f_name->Some_0,
                    message: f_message->Some_0,
                    debug_id: f_debug_id->Some_0,
                    information_link: f_information_link->Some_0,
                })
            } else {
                None
            }
        },
        _ => None,
    }
}

pub fn encode_paypal_error(x: &PaypalError) -> (j: Json)
    ensures
        j@ == paypal_error_jv(x.deep_view()),
{
    let mut fs: Vec<(String, Json)> = Vec::new();
    push_field(&mut fs, "name", Json::Str(x.name.clone()));
    push_field(&mut fs, "message", Json::Str(x.message.clone()));
    match &x.debug_id {
        Some(v) => { push_field(&mut fs, "debug_id", Json::Str(v.clone())); },
        None => {},
    }
    match &x.information_link {
        Some(v) => { push_field(&mut fs, "information_link", Json::Str(v.clone())); },
        None => {},
    }
    let r = Json::Obj(fs);
    proof {
        assert(r@->Obj_0 =~= paypal_error_jv(x.deep_view())->Obj_0);
        assert(r@ == paypal_error_jv(x.deep_view()));
    }
    r
}

pub fn decode_paypal_error(j: &Json) -> (r: Option<PaypalError>)
    ensures
        r matches Some(x) ==> paypal_error_of_jv(j@) == Some(x.deep_view()),
        r is None ==> paypal_error_of_jv(j@) is None,
{
    match j {
        Json::Obj(fs) => {
            proof {
                assert(j@->Obj_0 =~= obj_view(fs@));
            }
            let f_name = match get_str(fs, "name") {
                Some(s) => s,
                None => { return None; },
            };
            let f_message = match get_str(fs, "message") {
                Some(s) => s,
                None => { return None; },
            };
            let f_debug_id = match get_opt_str(fs, "debug_id") {
                Some(v) => v,
                None => { return None; },
            };
            let f_information_link = match get_opt_str(fs, "information_link") {
                Some(v) => v,
                None => { return None; },
            };
            Some(PaypalError {
                name: f_name,
                message: f_message,
                debug_id: f_debug_id,
                information_link: f_information_link,
            })
        },
        _ => None,
    }
}

/// A record of this type decodes back to itself after encoding.
#[verifier::rlimit(100)]
pub proof fn lemma_paypal_error_round_trip(v: PaypalErrorV)
    ensures
        paypal_error_of_jv(paypal_error_jv(v)) == Some(v),
{
    let fs = paypal_error_jv(v)->Obj_0;
    reveal_strlit("name");
    assert("name"@ =~= seq!['n','a','m','e']);
    reveal_strlit("message");
    assert("message"@ =~= seq!['m','e','s','s','a','g','e']);
    reveal_strlit("debug_id");
    assert("debug_id"@ =~= seq!['d','e','b','u','g','_','i','d']);
    reveal_strlit("information_link");
    assert("information_link"@ =~= seq!['i','n','f','o','r','m','a','t','i','o','n','_','l','i','n','k']);
    lemma_jv_get_found(fs, "name"@, 0int);
    lemma_jv_get_found(fs, "message"@, 1int);
    if v.debug_id is Some {
        lemma_jv_get_found(fs, "debug_id"@, 1int + 1int);
    } else {
        lemma_jv_get_absent(fs, "debug_id"@);
    }
    if v.information_link is Some {
        lemma_jv_get_found(fs, "information_link"@, 1int + 1int + (if v.debug_id is Some { 1int } else { 0int }));
    } else {
        lemma_jv_get_absent(fs, "information_link"@);
    }
}

/// Why an operation failed, short of the transport itself failing.
#[derive(Debug, Clone, PartialEq, Eq)]
pub enum ResponseError {
    /// The provider answered with a non-success status and a structured
    /// error body.
    ApiError(PaypalError),
    /// The response body did not match the expected schema.
    MalformedResponse,
}

/// The shape of a [`ResponseError`].
pub enum ResponseErrorV {
    ApiError(PaypalErrorV),
    MalformedResponse,
}

impl DeepView for ResponseError {
    type V = ResponseErrorV;

    open spec fn deep_view(&self) -> ResponseErrorV {
        match self {
            ResponseError::ApiError(e) => ResponseErrorV::ApiError(e.deep_view()),
            ResponseError::MalformedResponse => ResponseErrorV::MalformedResponse,
        }
    }
}

} // verus!
