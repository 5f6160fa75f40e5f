//! Properties that hold across the functions of the library.

use vstd::prelude::*;
use crate::cors::{cors_headers, origin_spec};
use crate::requests::{create_on, delete_on, read_on, update_on, Table};
use crate::service::{duplicate_error, has_orders_error, location_spec, not_found_error, CreatedView};
use crate::listing::{
    is_plan_for, is_sort_column, offset_spec, sort_column_spec, sort_direction_spec,
    ListPlan, ListQuery,
};
use crate::models::{opt_view, CustomerView, UpdateView};
use crate::service::{
    column_of_param, customer_of_row, customer_params, update_params_spec, update_sql_spec, ColumnView,
};
use crate::models::CUSTOMER_COLUMNS;
use crate::sql::SqlParam;
use crate::text::{is_ascii_alnum, is_space};
use crate::text::{
    ascii_lowercase, ascii_uppercase, lemma_lowercase_idempotent, lemma_trimmed_idempotent,
    lemma_trimmed_lowercase, lemma_trimmed_uppercase, lemma_uppercase_absorbs, trimmed,
};
use crate::validation::{
    new_is_valid,
    has_company_name, is_clean_customer, is_clean_text, is_valid_id, normal_id, normalized_new,
    normalized_update, optional_spec,
};

verus! {

/// A customer id names the same customer in any ASCII case:
/// `/customers/alfki` and `/customers/ALFKI` are one resource.
pub proof fn law_id_ignores_case(raw: Seq<char>)
    ensures
        normal_id(ascii_lowercase(raw)) == normal_id(raw),
        normal_id(ascii_uppercase(raw)) == normal_id(raw),
{
    lemma_trimmed_lowercase(raw);
    lemma_trimmed_uppercase(raw);
    lemma_uppercase_absorbs(trimmed(raw));
}

/// A normalised id is its own normal form: the id a creation answers with
/// finds the same customer again.
pub proof fn law_id_normal_form(raw: Seq<char>)
    ensures
        normal_id(normal_id(raw)) == normal_id(raw),
        is_valid_id(normal_id(normal_id(raw))) == is_valid_id(normal_id(raw)),
{
    lemma_trimmed_uppercase(trimmed(raw));
    lemma_trimmed_idempotent(raw);
    lemma_uppercase_absorbs(trimmed(raw));
}

/// Cleaning an optional field twice is cleaning it once, and what it leaves
/// is no value or clean text: an empty string is never stored.
pub proof fn law_optional_normal_form(v: Option<Seq<char>>)
    ensures
        optional_spec(optional_spec(v)) == optional_spec(v),
        optional_spec(v) matches Some(s) ==> is_clean_text(s),
{
    if let Some(s) = v {
        lemma_trimmed_idempotent(s);
    }
}

/// Every customer a valid creation payload stores is clean, and validating
/// the stored record again accepts it unchanged.
pub proof fn law_stored_customer_is_clean(v: CustomerView)
    requires
        is_valid_id(normal_id(v.customer_id)),
        has_company_name(v.company_name),
    ensures
        is_clean_customer(normalized_new(v)),
        is_valid_id(normal_id(normalized_new(v).customer_id)),
        has_company_name(normalized_new(v).company_name),
        normalized_new(normalized_new(v)) == normalized_new(v),
{
    let n = normalized_new(v);
    law_id_normal_form(v.customer_id);
    lemma_uppercase_absorbs(trimmed(v.customer_id));
    lemma_trimmed_idempotent(v.company_name);
    law_optional_normal_form(v.details.contact_name);
    law_optional_normal_form(v.details.contact_title);
    law_optional_normal_form(v.details.address);
    law_optional_normal_form(v.details.city);
    law_optional_normal_form(v.details.region);
    law_optional_normal_form(v.details.postal_code);
    law_optional_normal_form(v.details.country);
    law_optional_normal_form(v.details.phone);
    law_optional_normal_form(v.details.fax);
    assert(normalized_new(n).details == n.details);
}

/// Validating a stored update again changes nothing.
pub proof fn law_update_normal_form(u: UpdateView)
    requires
        has_company_name(u.company_name),
    ensures
        has_company_name(normalized_update(u).company_name),
        is_clean_text(normalized_update(u).company_name),
        normalized_update(normalized_update(u)) == normalized_update(u),
{
    let n = normalized_update(u);
    lemma_trimmed_idempotent(u.company_name);
    law_optional_normal_form(u.details.contact_name);
    law_optional_normal_form(u.details.contact_title);
    law_optional_normal_form(u.details.address);
    law_optional_normal_form(u.details.city);
    law_optional_normal_form(u.details.region);
    law_optional_normal_form(u.details.postal_code);
    law_optional_normal_form(u.details.country);
    law_optional_normal_form(u.details.phone);
    law_optional_normal_form(u.details.fax);
    assert(normalized_update(n).details == n.details);
}

/// The row an insert writes reads back as the customer that was inserted:
/// the insert binds the fields in the order in which a row is read.
pub proof fn law_row_round_trip(c: CustomerView)
    ensures
        customer_of_row(customer_params(c).map_values(|p| column_of_param(p))) == Some(c),
{
    let row = customer_params(c).map_values(|p| column_of_param(p));
    assert(row.len() == 11);
    assert(forall|i: int| 2 <= i < 11 ==> (#[trigger] row[i] is Text || row[i] is Null));
}

/// `sortBy` and `sortDir` are matched without regard to ASCII case.
pub proof fn law_sort_ignores_case(s: Seq<char>)
    ensures
        sort_column_spec(Some(ascii_lowercase(s))) == sort_column_spec(Some(s)),
        sort_direction_spec(Some(ascii_lowercase(s))) == sort_direction_spec(Some(s)),
{
    lemma_lowercase_idempotent(s);
}

/// Whatever `sortBy` holds, the listing is sorted by a column of the
/// whitelist.
pub proof fn law_sort_whitelist(requested: Option<Seq<char>>)
    ensures
        is_sort_column(sort_column_spec(requested)),
        sort_direction_spec(requested) == "ASC"@ || sort_direction_spec(requested) == "DESC"@,
{
}

/// Pages tile the listing: the first starts at the first row, and each next
/// page starts where the one before ends.
pub proof fn law_pages_tile(page: u32, page_size: u32)
    requires
        1 <= page < u32::MAX,
    ensures
        offset_spec(1, page_size) == 0,
        offset_spec((page + 1) as u32, page_size) == offset_spec(page, page_size) + page_size,
{
    assert(page * page_size == (page - 1) * page_size + page_size) by (nonlinear_arith);
}

/// The SQL text of a listing depends on the request only through whether it
/// filters and which whitelisted sort it selects: the search text, the page
/// and the page size travel as bound values, never inside the statement.
pub proof fn law_sql_ignores_request_text(p1: ListPlan, q1: ListQuery, p2: ListPlan, q2: ListQuery)
    requires
        is_plan_for(p1, q1),
        is_plan_for(p2, q2),
        (p1.pattern is Some) == (p2.pattern is Some),
        sort_column_spec(opt_view(q1.sort_by)) == sort_column_spec(opt_view(q2.sort_by)),
        sort_direction_spec(opt_view(q1.sort_dir)) == sort_direction_spec(opt_view(q2.sort_dir)),
    ensures
        p1.count_sql@ == p2.count_sql@,
        p1.select_sql@ == p2.select_sql@,
{
}

/// A listing binds exactly as many values as its statements have
/// placeholders: the pattern as `?1` when there is one, then `LIMIT` and
/// `OFFSET`.
pub proof fn law_placeholders_bound(p: ListPlan, q: ListQuery)
    requires
        is_plan_for(p, q),
    ensures
        p.count_params@.len() == (if p.pattern is Some { 1int } else { 0int }),
        p.select_params@.len() == p.count_params@.len() + 2,
{
    assert(p.count_params@.map_values(|x: crate::sql::SqlValue| x@).len() == p.count_params@.len());
    assert(p.select_params@.map_values(|x: crate::sql::SqlValue| x@).len() == p.select_params@.len());
}

/// Every response carries exactly one `Access-Control-Allow-Origin` header,
/// and it names the configured origin.
pub proof fn law_one_allowed_origin(origin: Seq<char>)
    ensures
        cors_headers(origin)[0] == ("Access-Control-Allow-Origin"@, origin),
        forall|i: int|
            0 <= i < cors_headers(origin).len() && (#[trigger] cors_headers(origin)[i]).0
                == "Access-Control-Allow-Origin"@ ==> i == 0,
{
    reveal_strlit("Access-Control-Allow-Origin");
    reveal_strlit("Access-Control-Allow-Methods");
    reveal_strlit("Access-Control-Allow-Headers");
    reveal_strlit("Access-Control-Max-Age");
    let h = cors_headers(origin);
    assert(h[1].0[21] != h[0].0[21]);
    assert(h[2].0[21] != h[0].0[21]);
    assert(h[3].0[15] != h[0].0[15]);
}


/// The allowed origin is never empty, whatever the environment holds.
pub proof fn law_origin_never_empty(value: Option<Seq<char>>)
    ensures
        origin_spec(value).len() > 0,
{
    reveal_strlit("http://localhost:3000");
}

/// Creating the same valid customer twice: the first creation answers `201`
/// with the location and the normalised record and stores that record; the
/// second is refused as a duplicate id and changes nothing.
pub proof fn law_create_twice(t: Table, body: CustomerView)
    requires
        new_is_valid(body),
        !t.contains_key(normal_id(body.customer_id)),
    ensures
        create_on(t, body).0 == Ok::<CreatedView, crate::error::ApiErrorView>(
            CreatedView {
                status: crate::error::STATUS_CREATED,
                location: location_spec(normal_id(body.customer_id)),
                customer: normalized_new(body),
            },
        ),
        create_on(t, body).1 == t.insert(normal_id(body.customer_id), normalized_new(body)),
        create_on(create_on(t, body).1, body).0 == Err::<CreatedView, crate::error::ApiErrorView>(
            duplicate_error(normal_id(body.customer_id)),
        ),
        create_on(create_on(t, body).1, body).1 == create_on(t, body).1,
{
}


/// A replacement is total and a read gives it back: replacing an existing
/// customer answers the stored row, which is the normalised payload under the
/// id of the URL, and a later read of the same id answers that row. Replacing
/// an id that names no customer is 404 and changes nothing.
pub proof fn law_update_then_read(t: Table, raw_id: Seq<char>, body: UpdateView)
    requires
        is_valid_id(normal_id(raw_id)),
        has_company_name(body.company_name),
    ensures
        ({
            let id = normal_id(raw_id);
            let stored = CustomerView {
                customer_id: id,
                company_name: normalized_update(body).company_name,
                details: normalized_update(body).details,
            };
            &&& t.contains_key(id) ==> {
                &&& update_on(t, raw_id, body).0 == Ok::<CustomerView, crate::error::ApiErrorView>(stored)
                &&& update_on(t, raw_id, body).1 == t.insert(id, stored)
                &&& read_on(update_on(t, raw_id, body).1, raw_id) == Ok::<CustomerView, crate::error::ApiErrorView>(stored)
            }
            &&& !t.contains_key(id) ==> {
                &&& update_on(t, raw_id, body).0 == Err::<CustomerView, crate::error::ApiErrorView>(not_found_error(id))
                &&& update_on(t, raw_id, body).1 == t
            }
        }),
{
}

/// A delete of a customer without orders answers 204 and a later read of it
/// is 404; a delete of a customer with orders is 409 `has_orders` and the
/// customer is still there.
pub proof fn law_delete_then_read(t: Table, raw_id: Seq<char>, referenced: Set<Seq<char>>)
    requires
        is_valid_id(normal_id(raw_id)),
        t.contains_key(normal_id(raw_id)),
    ensures
        ({
            let id = normal_id(raw_id);
            &&& !referenced.contains(id) ==> {
                &&& delete_on(t, raw_id, referenced).0 == Ok::<u16, crate::error::ApiErrorView>(crate::error::STATUS_NO_CONTENT)
                &&& read_on(delete_on(t, raw_id, referenced).1, raw_id) == Err::<CustomerView, crate::error::ApiErrorView>(not_found_error(id))
            }
            &&& referenced.contains(id) ==> {
                &&& delete_on(t, raw_id, referenced).0 == Err::<u16, crate::error::ApiErrorView>(has_orders_error(id))
                &&& delete_on(t, raw_id, referenced).1 == t
                &&& read_on(t, raw_id) == Ok::<CustomerView, crate::error::ApiErrorView>(t[id])
            }
        }),
{
}


// ─── What each operation is for, stated from its inputs ───

/// The `ORDER BY` clause a listing asks for: the selected column, descending
/// exactly when `sortDir` is `desc` in any ASCII case.
pub open spec fn order_clause(q: ListQuery) -> Seq<char> {
    " ORDER BY "@ + sort_column_spec(opt_view(q.sort_by)) + " "@ + (if (q.sort_dir matches Some(d)
        && ascii_lowercase(d@) == "desc"@) {
        "DESC"@
    } else {
        "ASC"@
    }) + " LIMIT "@
}

/// Whether `t` occurs in `s`.
pub open spec fn occurs_in(t: Seq<char>, s: Seq<char>) -> bool {
    exists|i: int| 0 <= i && i + t.len() <= s.len() && #[trigger] s.subrange(i, i + t.len()) == t
}

/// The direction of a listing is the one `sortDir` asks for, with or without
/// a company-name filter: the statement orders by the selected column,
/// descending exactly when `sortDir` is `desc` in any ASCII case.
pub proof fn law_listing_order(p: ListPlan, q: ListQuery)
    requires
        is_plan_for(p, q),
    ensures
        occurs_in(order_clause(q), p.select_sql@),
{
    let filtered = p.pattern is Some;
    let a = "SELECT "@ + CUSTOMER_COLUMNS@ + " FROM Customers "@ + crate::listing::where_spec(
        filtered,
    );
    let b = crate::listing::limit_placeholder(filtered) + " OFFSET "@
        + crate::listing::offset_placeholder(filtered);
    let o = order_clause(q);
    let d = if (q.sort_dir matches Some(d) && ascii_lowercase(d@) == "desc"@) {
        "DESC"@
    } else {
        "ASC"@
    };
    assert(sort_direction_spec(opt_view(q.sort_dir)) == d);
    let s = p.select_sql@;
    assert(s =~= a + o + b);
    assert(s.subrange(a.len() as int, (a.len() + o.len()) as int) =~= o);
    assert(0 <= a.len() && a.len() + o.len() <= s.len());
}

/// What an optional field is stored as, given what the payload held: nothing
/// when the payload held nothing or only white space, else the payload's text
/// without white space at either end.
pub open spec fn stored_as(input: Option<Seq<char>>, stored: Option<Seq<char>>) -> bool {
    match input {
        None => stored is None,
        Some(s) => if trimmed(s).len() == 0 {
            stored is None
        } else {
            stored == Some(trimmed(s))
        },
    }
}

/// A created customer keeps every field of the payload: the id trimmed and
/// upper-cased, the company name trimmed, and each optional field trimmed and
/// dropped only when absent or blank.
pub proof fn law_created_fields(v: CustomerView)
    ensures
        normalized_new(v).customer_id == ascii_uppercase(trimmed(v.customer_id)),
        normalized_new(v).company_name == trimmed(v.company_name),
        stored_as(v.details.contact_name, normalized_new(v).details.contact_name),
        stored_as(v.details.contact_title, normalized_new(v).details.contact_title),
        stored_as(v.details.address, normalized_new(v).details.address),
        stored_as(v.details.city, normalized_new(v).details.city),
        stored_as(v.details.region, normalized_new(v).details.region),
        stored_as(v.details.postal_code, normalized_new(v).details.postal_code),
        stored_as(v.details.country, normalized_new(v).details.country),
        stored_as(v.details.phone, normalized_new(v).details.phone),
        stored_as(v.details.fax, normalized_new(v).details.fax),
{
}

/// A replacement keeps every field of the payload in the same way.
pub proof fn law_updated_fields(u: UpdateView)
    ensures
        normalized_update(u).company_name == trimmed(u.company_name),
        stored_as(u.details.contact_name, normalized_update(u).details.contact_name),
        stored_as(u.details.contact_title, normalized_update(u).details.contact_title),
        stored_as(u.details.address, normalized_update(u).details.address),
        stored_as(u.details.city, normalized_update(u).details.city),
        stored_as(u.details.region, normalized_update(u).details.region),
        stored_as(u.details.postal_code, normalized_update(u).details.postal_code),
        stored_as(u.details.country, normalized_update(u).details.country),
        stored_as(u.details.phone, normalized_update(u).details.phone),
        stored_as(u.details.fax, normalized_update(u).details.fax),
{
}

/// A customer id is accepted exactly when, trimmed and upper-cased, it is
/// five characters long and each is an ASCII letter or digit.
pub proof fn law_id_accepted(raw: Seq<char>)
    ensures
        is_valid_id(normal_id(raw)) <==> (normal_id(raw).len() == 5 && forall|i: int|
            0 <= i < 5 ==> #[trigger] is_ascii_alnum(normal_id(raw)[i])),
        is_valid_id(normal_id(raw)) ==> normal_id(raw).len() == 5,
{
}

/// The name of column `k` of a customer row: the table's own column names.
pub open spec fn column_name(k: int) -> Seq<char> {
    if k == 0 {
        "CustomerID"@
    } else if k == 1 {
        "CompanyName"@
    } else if k == 2 {
        "ContactName"@
    } else if k == 3 {
        "ContactTitle"@
    } else if k == 4 {
        "Address"@
    } else if k == 5 {
        "City"@
    } else if k == 6 {
        "Region"@
    } else if k == 7 {
        "PostalCode"@
    } else if k == 8 {
        "Country"@
    } else if k == 9 {
        "Phone"@
    } else {
        "Fax"@
    }
}

/// The column list names the columns in order, separated by `, `.
pub proof fn law_column_list()
    ensures
        CUSTOMER_COLUMNS@ == column_name(0) + ", "@ + column_name(1) + ", "@ + column_name(2)
            + ", "@ + column_name(3) + ", "@ + column_name(4) + ", "@ + column_name(5) + ", "@
            + column_name(6) + ", "@ + column_name(7) + ", "@ + column_name(8) + ", "@
            + column_name(9) + ", "@ + column_name(10),
{
    reveal_strlit("CustomerID, CompanyName, ContactName, ContactTitle, Address, City, Region, PostalCode, Country, Phone, Fax");
    reveal_strlit("CustomerID");
    reveal_strlit("CompanyName");
    reveal_strlit("ContactName");
    reveal_strlit("ContactTitle");
    reveal_strlit("Address");
    reveal_strlit("City");
    reveal_strlit("Region");
    reveal_strlit("PostalCode");
    reveal_strlit("Country");
    reveal_strlit("Phone");
    reveal_strlit("Fax");
    reveal_strlit(", ");
    assert(CUSTOMER_COLUMNS@ =~= column_name(0) + ", "@ + column_name(1) + ", "@ + column_name(2)
        + ", "@ + column_name(3) + ", "@ + column_name(4) + ", "@ + column_name(5) + ", "@
        + column_name(6) + ", "@ + column_name(7) + ", "@ + column_name(8) + ", "@
        + column_name(9) + ", "@ + column_name(10));
}

/// Whether a column read gives the value of an optional field: `NULL` for no
/// value, its text for a value.
pub open spec fn reads_as(col: ColumnView, field: Option<Seq<char>>) -> bool {
    match col {
        ColumnView::Null => field is None,
        ColumnView::Text(s) => field == Some(s),
        ColumnView::Other => false,
    }
}

/// Whether a bound value stores the value of an optional field.
pub open spec fn binds(p: SqlParam, field: Option<Seq<char>>) -> bool {
    match p {
        SqlParam::Null => field is None,
        SqlParam::Text(s) => field == Some(s),
        SqlParam::Integer(_) => false,
    }
}

/// The insert binds each field of a customer at the position of its column in
/// the column list: the id at 0 (`CustomerID`) up to the fax at 10 (`Fax`).
pub proof fn law_insert_binds_by_column(c: CustomerView)
    ensures
        customer_params(c).len() == 11,
        customer_params(c)[0] == SqlParam::Text(c.customer_id),
        customer_params(c)[1] == SqlParam::Text(c.company_name),
        binds(customer_params(c)[2], c.details.contact_name),
        binds(customer_params(c)[3], c.details.contact_title),
        binds(customer_params(c)[4], c.details.address),
        binds(customer_params(c)[5], c.details.city),
        binds(customer_params(c)[6], c.details.region),
        binds(customer_params(c)[7], c.details.postal_code),
        binds(customer_params(c)[8], c.details.country),
        binds(customer_params(c)[9], c.details.phone),
        binds(customer_params(c)[10], c.details.fax),
{
}

/// A row is read field by field from the column of the same name: the id from
/// column 0 (`CustomerID`) up to the fax from column 10 (`Fax`).
pub proof fn law_row_reads_by_column(row: Seq<ColumnView>)
    requires
        customer_of_row(row) is Some,
    ensures
        ({
            let c = customer_of_row(row)->0;
            &&& row[0] == ColumnView::Text(c.customer_id)
            &&& row[1] == ColumnView::Text(c.company_name)
            &&& reads_as(row[2], c.details.contact_name)
            &&& reads_as(row[3], c.details.contact_title)
            &&& reads_as(row[4], c.details.address)
            &&& reads_as(row[5], c.details.city)
            &&& reads_as(row[6], c.details.region)
            &&& reads_as(row[7], c.details.postal_code)
            &&& reads_as(row[8], c.details.country)
            &&& reads_as(row[9], c.details.phone)
            &&& reads_as(row[10], c.details.fax)
        }),
{
    assert(forall|i: int| 2 <= i < 11 ==> (#[trigger] row[i] is Text || row[i] is Null));
    assert(row[2] is Text || row[2] is Null);
    assert(row[3] is Text || row[3] is Null);
    assert(row[4] is Text || row[4] is Null);
    assert(row[5] is Text || row[5] is Null);
    assert(row[6] is Text || row[6] is Null);
    assert(row[7] is Text || row[7] is Null);
    assert(row[8] is Text || row[8] is Null);
    assert(row[9] is Text || row[9] is Null);
    assert(row[10] is Text || row[10] is Null);
}

/// The replacement assigns placeholder `?k` to column `k` of the column list
/// (`CompanyName = ?1` up to `Fax = ?10`) and selects the row by its id as
/// `?11`; the value bound as `?k` is the field of that column.
pub proof fn law_update_binds_by_column(id: Seq<char>, u: UpdateView)
    ensures
        update_sql_spec() == "UPDATE Customers SET "@ + column_name(1) + " = ?1, "@ + column_name(2)
            + " = ?2, "@ + column_name(3) + " = ?3, "@ + column_name(4) + " = ?4, "@ + column_name(
            5,
        ) + " = ?5, "@ + column_name(6) + " = ?6, "@ + column_name(7) + " = ?7, "@ + column_name(8)
            + " = ?8, "@ + column_name(9) + " = ?9, "@ + column_name(10) + " = ?10 WHERE "@
            + column_name(0) + " = ?11"@,
        update_params_spec(id, u).len() == 11,
        update_params_spec(id, u)[0] == SqlParam::Text(u.company_name),
        binds(update_params_spec(id, u)[1], u.details.contact_name),
        binds(update_params_spec(id, u)[2], u.details.contact_title),
        binds(update_params_spec(id, u)[3], u.details.address),
        binds(update_params_spec(id, u)[4], u.details.city),
        binds(update_params_spec(id, u)[5], u.details.region),
        binds(update_params_spec(id, u)[6], u.details.postal_code),
        binds(update_params_spec(id, u)[7], u.details.country),
        binds(update_params_spec(id, u)[8], u.details.phone),
        binds(update_params_spec(id, u)[9], u.details.fax),
        update_params_spec(id, u)[10] == SqlParam::Text(id),
{
    reveal_strlit("UPDATE Customers SET CompanyName = ?1, ContactName = ?2, ContactTitle = ?3, Address = ?4, City = ?5, Region = ?6, PostalCode = ?7, Country = ?8, Phone = ?9, Fax = ?10 WHERE CustomerID = ?11");
    reveal_strlit("UPDATE Customers SET ");
    reveal_strlit("CustomerID");
    reveal_strlit("CompanyName");
    reveal_strlit("ContactName");
    reveal_strlit("ContactTitle");
    reveal_strlit("Address");
    reveal_strlit("City");
    reveal_strlit("Region");
    reveal_strlit("PostalCode");
    reveal_strlit("Country");
    reveal_strlit("Phone");
    reveal_strlit("Fax");
    reveal_strlit(" = ?1, ");
    reveal_strlit(" = ?2, ");
    reveal_strlit(" = ?3, ");
    reveal_strlit(" = ?4, ");
    reveal_strlit(" = ?5, ");
    reveal_strlit(" = ?6, ");
    reveal_strlit(" = ?7, ");
    reveal_strlit(" = ?8, ");
    reveal_strlit(" = ?9, ");
    reveal_strlit(" = ?10 WHERE ");
    reveal_strlit(" = ?11");
    assert(update_sql_spec() =~= "UPDATE Customers SET "@ + column_name(1) + " = ?1, "@
        + column_name(2) + " = ?2, "@ + column_name(3) + " = ?3, "@ + column_name(4) + " = ?4, "@
        + column_name(5) + " = ?5, "@ + column_name(6) + " = ?6, "@ + column_name(7) + " = ?7, "@
        + column_name(8) + " = ?8, "@ + column_name(9) + " = ?9, "@ + column_name(10)
        + " = ?10 WHERE "@ + column_name(0) + " = ?11"@);
}


/// The page, the page size and the rows skipped follow from the query: page
/// at least 1 (1 when absent), page size clamped to 1..=100 (10 when absent),
/// `LIMIT` the page size and `OFFSET` the rows of the pages before; the filter
/// is `%text%` of the trimmed company name, none when it is absent or blank;
/// the pattern, then `LIMIT` and `OFFSET`, are the bound values.
pub proof fn law_listing_paging(p: ListPlan, q: ListQuery)
    requires
        is_plan_for(p, q),
    ensures
        p.page == (match q.page {
            Some(n) => if n == 0 { 1 } else { n },
            None => 1,
        }),
        p.page_size == (match q.page_size {
            Some(n) => if n == 0 { 1 } else if n > 100 { 100 } else { n },
            None => 10,
        }),
        p.limit == p.page_size,
        p.offset == (p.page - 1) * p.page_size,
        opt_view(p.pattern) == (match q.company_name {
            Some(name) => if trimmed(name@).len() == 0 {
                None
            } else {
                Some("%"@ + trimmed(name@) + "%"@)
            },
            None => None,
        }),
        p.select_params@.len() >= 2,
        p.select_params@[p.select_params@.len() - 2]@ == SqlParam::Integer(p.limit),
        p.select_params@[p.select_params@.len() - 1]@ == SqlParam::Integer(p.offset),
        p.pattern matches Some(t) ==> p.count_params@.len() == 1 && p.count_params@[0]@
            == SqlParam::Text(t@) && p.select_params@[0]@ == SqlParam::Text(t@),
        p.pattern is None ==> p.count_params@.len() == 0,
{
    let cv = p.count_params@.map_values(|x: crate::sql::SqlValue| x@);
    let sv = p.select_params@.map_values(|x: crate::sql::SqlValue| x@);
    assert(cv.len() == p.count_params@.len());
    assert(sv.len() == p.select_params@.len());
    assert(sv[sv.len() - 2] == p.select_params@[p.select_params@.len() - 2]@);
    assert(sv[sv.len() - 1] == p.select_params@[p.select_params@.len() - 1]@);
    if p.pattern is Some {
        assert(cv[0] == p.count_params@[0]@);
        assert(sv[0] == p.select_params@[0]@);
    }
}

/// `sortBy` selects the column of the same name, in any ASCII case; anything
/// else sorts by company name.
pub proof fn law_sort_column_named(s: Seq<char>)
    ensures
        ascii_lowercase(s) == "customerid"@ ==> sort_column_spec(Some(s)) == "CustomerID"@,
        ascii_lowercase(s) == "companyname"@ ==> sort_column_spec(Some(s)) == "CompanyName"@,
        ascii_lowercase(s) == "contactname"@ ==> sort_column_spec(Some(s)) == "ContactName"@,
        ascii_lowercase(s) == "contacttitle"@ ==> sort_column_spec(Some(s)) == "ContactTitle"@,
        ascii_lowercase(s) == "city"@ ==> sort_column_spec(Some(s)) == "City"@,
        ascii_lowercase(s) == "country"@ ==> sort_column_spec(Some(s)) == "Country"@,
        !(ascii_lowercase(s) == "customerid"@ || ascii_lowercase(s) == "companyname"@
            || ascii_lowercase(s) == "contactname"@ || ascii_lowercase(s) == "contacttitle"@
            || ascii_lowercase(s) == "city"@ || ascii_lowercase(s) == "country"@)
            ==> sort_column_spec(Some(s)) == "CompanyName"@,
        sort_column_spec(None) == "CompanyName"@,
{
    reveal_strlit("customerid");
    reveal_strlit("companyname");
    reveal_strlit("contactname");
    reveal_strlit("contacttitle");
    reveal_strlit("city");
    reveal_strlit("country");
    assert("companyname"@[1] != "customerid"@[1]);
    assert("contactname"@[1] != "customerid"@[1]);
    assert("contactname"@[3] != "companyname"@[3]);
    assert("customerid"@.len() == 10 && "companyname"@.len() == 11 && "contactname"@.len() == 11);
    assert("contacttitle"@.len() == 12 && "city"@.len() == 4 && "country"@.len() == 7);
}

/// The status and code of each answer a refused request gets, and the id it
/// names where it names one.
pub proof fn law_error_answers(id: Seq<char>)
    ensures
        crate::validation::invalid_id_error().status == 400,
        crate::validation::invalid_id_error().code == "invalid_customer_id"@,
        crate::validation::company_error().status == 400,
        crate::validation::company_error().code == "invalid_company_name"@,
        not_found_error(id).status == 404,
        not_found_error(id).code == "not_found"@,
        not_found_error(id).message == "no customer with id '"@ + id + "'"@,
        duplicate_error(id).status == 409,
        duplicate_error(id).code == "duplicate_id"@,
        duplicate_error(id).message == "a customer with id '"@ + id + "' already exists"@,
        has_orders_error(id).status == 409,
        has_orders_error(id).code == "has_orders"@,
        crate::service::internal_error().status == 500,
        crate::service::internal_error().code == "database_error"@,
{
}

} // verus!
