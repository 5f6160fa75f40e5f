//! Validation and normalisation of what the client asks to store.
//!
//! Reads are lenient and writes are strict: nothing reaches the table before
//! every field of the payload has been checked and normalised here.

use vstd::prelude::*;
use crate::error::{ApiError, ApiErrorView, STATUS_BAD_REQUEST};
use crate::models::{opt_view, Customer, CustomerView, DetailsView, NewCustomer, UpdateCustomer, UpdateView};
use crate::text::{ascii_uppercase, is_ascii_alnum, is_alnum_char, to_upper, trim, trimmed};

verus! {

/// The length of a Northwind customer id (`ALFKI`, `ANATR`, ...).
pub const CUSTOMER_ID_LEN: usize = 5;

/// The message of a rejected customer id.
pub const INVALID_ID_MESSAGE: &'static str = "customerId must be exactly 5 alphanumeric ASCII characters (e.g. \"ALFKI\")";

/// Exactly five characters, each an ASCII letter or digit.
pub open spec fn is_valid_id(s: Seq<char>) -> bool {
    &&& s.len() == CUSTOMER_ID_LEN
    &&& forall|i: int| 0 <= i < s.len() ==> is_ascii_alnum(#[trigger] s[i])
}

/// What a raw id normalises to: trimmed, then upper-cased.
pub open spec fn normal_id(raw: Seq<char>) -> Seq<char> {
    ascii_uppercase(trimmed(raw))
}

/// The error of a rejected customer id.
pub open spec fn invalid_id_error() -> ApiErrorView {
    ApiErrorView {
        status: STATUS_BAD_REQUEST,
        code: "invalid_customer_id"@,
        message: INVALID_ID_MESSAGE@,
    }
}

/// Trims, upper-cases and validates a customer id.
pub fn normalize_customer_id(raw: &str) -> (r: Result<String, ApiError>)
    ensures
        match r {
            Ok(id) => is_valid_id(normal_id(raw@)) && id@ == normal_id(raw@),
            Err(e) => !is_valid_id(normal_id(raw@)) && e@ == invalid_id_error(),
        },
{
    let id = to_upper(trim(raw));
    let n = id.as_str().unicode_len();
    let mut valid = n == CUSTOMER_ID_LEN;
    if valid {
        let mut i: usize = 0;
        while i < n
            invariant
                n == id@.len(),
                i <= n,
                valid == (forall|k: int| 0 <= k < i ==> is_ascii_alnum(#[trigger] id@[k])),
            decreases n - i,
        {
            let c = id.as_str().get_char(i);
            valid = valid && is_alnum_char(c);
            i = i + 1;
        }
    }
    if valid {
        Ok(id)
    } else {
        Err(ApiError::bad_request("invalid_customer_id", String::from_str(INVALID_ID_MESSAGE)))
    }
}

/// The message of a required field left empty.
pub open spec fn required_message(field: Seq<char>) -> Seq<char> {
    field + " is required and cannot be empty or whitespace-only"@
}

/// Trims a required text field and rejects it when nothing is left.
pub fn require_non_empty(raw: &str, code: &'static str, field: &str) -> (r: Result<String, ApiError>)
    ensures
        match r {
            Ok(v) => trimmed(raw@).len() > 0 && v@ == trimmed(raw@),
            Err(e) => trimmed(raw@).len() == 0 && e@ == (ApiErrorView {
                status: STATUS_BAD_REQUEST,
                code: code@,
                message: required_message(field@),
            }),
        },
{
    let value = trim(raw);
    if value.unicode_len() == 0 {
        let mut message = String::from_str(field);
        message.append(" is required and cannot be empty or whitespace-only");
        Err(ApiError::bad_request(code, message))
    } else {
        Ok(String::from_str(value))
    }
}

/// What an optional text field is stored as: trimmed, and no value when
/// nothing is left.
pub open spec fn optional_spec(v: Option<Seq<char>>) -> Option<Seq<char>> {
    match v {
        None => None,
        Some(s) => if trimmed(s).len() == 0 {
            None
        } else {
            Some(trimmed(s))
        },
    }
}

/// Trims an optional text field, collapsing "present but empty" into `None`.
pub fn optional_text(value: Option<String>) -> (r: Option<String>)
    ensures
        opt_view(r) == optional_spec(opt_view(value)),
{
    match value {
        None => None,
        Some(s) => {
            let t = trim(s.as_str());
            if t.unicode_len() == 0 {
                None
            } else {
                Some(String::from_str(t))
            }
        },
    }
}


/// The optional details of a payload, each trimmed and emptied to no value.
pub open spec fn clean_details(d: DetailsView) -> DetailsView {
    DetailsView {
        contact_name: optional_spec(d.contact_name),
        contact_title: optional_spec(d.contact_title),
        address: optional_spec(d.address),
        city: optional_spec(d.city),
        region: optional_spec(d.region),
        postal_code: optional_spec(d.postal_code),
        country: optional_spec(d.country),
        phone: optional_spec(d.phone),
        fax: optional_spec(d.fax),
    }
}

/// The error of a missing company name.
pub open spec fn company_error() -> ApiErrorView {
    ApiErrorView {
        status: STATUS_BAD_REQUEST,
        code: "invalid_company_name"@,
        message: required_message("companyName"@),
    }
}

/// Whether the company name of a payload survives trimming.
pub open spec fn has_company_name(name: Seq<char>) -> bool {
    trimmed(name).len() > 0
}

/// The record that a valid creation payload is stored as.
pub open spec fn normalized_new(v: CustomerView) -> CustomerView {
    CustomerView {
        customer_id: normal_id(v.customer_id),
        company_name: trimmed(v.company_name),
        details: clean_details(v.details),
    }
}

/// Whether a creation payload is accepted.
pub open spec fn new_is_valid(v: CustomerView) -> bool {
    is_valid_id(normal_id(v.customer_id)) && has_company_name(v.company_name)
}

/// The error a refused creation payload is answered with: the id is checked
/// first, the company name second.
pub open spec fn new_error(v: CustomerView) -> ApiErrorView {
    if !is_valid_id(normal_id(v.customer_id)) {
        invalid_id_error()
    } else {
        company_error()
    }
}

/// Validates and normalises a creation payload, checking the id first and the
/// company name second, before anything touches the table.
pub fn validate_new_customer(body: NewCustomer) -> (r: Result<Customer, ApiError>)
    ensures
        match r {
            Ok(c) => {
                &&& is_valid_id(normal_id(body@.customer_id))
                &&& has_company_name(body@.company_name)
                &&& c@ == normalized_new(body@)
            },
            Err(e) => if !is_valid_id(normal_id(body@.customer_id)) {
                e@ == invalid_id_error()
            } else {
                !has_company_name(body@.company_name) && e@ == company_error()
            },
        },
{
    let customer_id = match normalize_customer_id(body.customer_id.as_str()) {
        Ok(id) => id,
        Err(e) => return Err(e),
    };
    let company_name = match require_non_empty(
        body.company_name.as_str(),
        "invalid_company_name",
        "companyName",
    ) {
        Ok(name) => name,
        Err(e) => return Err(e),
    };
    Ok(Customer {
        customer_id,
        company_name,
        contact_name: optional_text(body.contact_name),
        contact_title: optional_text(body.contact_title),
        address: optional_text(body.address),
        city: optional_text(body.city),
        region: optional_text(body.region),
        postal_code: optional_text(body.postal_code),
        country: optional_text(body.country),
        phone: optional_text(body.phone),
        fax: optional_text(body.fax),
    })
}

/// The content that a valid update payload is stored as.
pub open spec fn normalized_update(v: UpdateView) -> UpdateView {
    UpdateView { company_name: trimmed(v.company_name), details: clean_details(v.details) }
}

/// Validates and normalises an update payload: the company name is required,
/// every other field is trimmed and emptied to no value.
pub fn validate_update(body: UpdateCustomer) -> (r: Result<UpdateCustomer, ApiError>)
    ensures
        match r {
            Ok(u) => has_company_name(body@.company_name) && u@ == normalized_update(body@),
            Err(e) => !has_company_name(body@.company_name) && e@ == company_error(),
        },
{
    let company_name = match require_non_empty(
        body.company_name.as_str(),
        "invalid_company_name",
        "companyName",
    ) {
        Ok(name) => name,
        Err(e) => return Err(e),
    };
    Ok(UpdateCustomer {
        company_name,
        contact_name: optional_text(body.contact_name),
        contact_title: optional_text(body.contact_title),
        address: optional_text(body.address),
        city: optional_text(body.city),
        region: optional_text(body.region),
        postal_code: optional_text(body.postal_code),
        country: optional_text(body.country),
        phone: optional_text(body.phone),
        fax: optional_text(body.fax),
    })
}


/// Text as it is stored: not empty, no white space at either end.
pub open spec fn is_clean_text(s: Seq<char>) -> bool {
    s.len() > 0 && trimmed(s) == s
}

/// An optional field as it is stored: no value, or clean text.
pub open spec fn is_clean_optional(o: Option<Seq<char>>) -> bool {
    o matches Some(s) ==> is_clean_text(s)
}

/// Optional details as they are stored.
pub open spec fn is_clean_details(d: DetailsView) -> bool {
    &&& is_clean_optional(d.contact_name)
    &&& is_clean_optional(d.contact_title)
    &&& is_clean_optional(d.address)
    &&& is_clean_optional(d.city)
    &&& is_clean_optional(d.region)
    &&& is_clean_optional(d.postal_code)
    &&& is_clean_optional(d.country)
    &&& is_clean_optional(d.phone)
    &&& is_clean_optional(d.fax)
}

/// A customer as the API stores it: a valid upper-case id, a clean company
/// name, clean details.
pub open spec fn is_clean_customer(c: CustomerView) -> bool {
    &&& is_valid_id(c.customer_id)
    &&& ascii_uppercase(c.customer_id) == c.customer_id
    &&& is_clean_text(c.company_name)
    &&& is_clean_details(c.details)
}

} // verus!
