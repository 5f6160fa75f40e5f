//! The customer endpoints: the statements they run and how each outcome of the
//! database is answered.
//!
//! The database itself is driven by the caller, which runs each statement with
//! its bound values and hands the outcome back as a [`StoreError`] or a row.

use vstd::prelude::*;
use crate::error::{
    ApiError, ApiErrorView, INTERNAL_MESSAGE, STATUS_CONFLICT, STATUS_CREATED, STATUS_INTERNAL, STATUS_NOT_FOUND,
    STATUS_NO_CONTENT, STATUS_UNAVAILABLE,
};
use crate::models::{opt_view, Customer, CustomerView, DetailsView, UpdateCustomer, UpdateView, CUSTOMER_COLUMNS};
use crate::sql::{opt_param, opt_value, params_view, SqlParam, SqlValue};

verus! {

/// Why a statement failed, as far as the answer depends on it.
#[derive(Clone, Copy, Debug, PartialEq, Eq)]
pub enum StoreError {
    /// A constraint of the schema refused the statement: a duplicate primary
    /// key on insert, or a foreign key still pointing at the row on delete.
    ConstraintViolation,
    /// Anything else.
    Other,
}

/// The error every unexpected database failure is answered with.
pub open spec fn internal_error() -> ApiErrorView {
    ApiErrorView { status: STATUS_INTERNAL, code: "database_error"@, message: INTERNAL_MESSAGE@ }
}

/// `prefix`, the id, then `suffix`.
pub open spec fn around(prefix: Seq<char>, id: Seq<char>, suffix: Seq<char>) -> Seq<char> {
    prefix + id + suffix
}

fn around_id(prefix: &str, id: &str, suffix: &str) -> (r: String)
    ensures
        r@ == around(prefix@, id@, suffix@),
{
    let mut r = String::from_str(prefix);
    r.append(id);
    r.append(suffix);
    r
}

/// The answer for an id that names no customer.
pub open spec fn not_found_error(id: Seq<char>) -> ApiErrorView {
    ApiErrorView {
        status: STATUS_NOT_FOUND,
        code: "not_found"@,
        message: around("no customer with id '"@, id, "'"@),
    }
}

/// 404 for an id that names no customer.
pub fn not_found(id: &str) -> (e: ApiError)
    ensures
        e@ == not_found_error(id@),
{
    ApiError::new(STATUS_NOT_FOUND, "not_found", around_id("no customer with id '", id, "'"))
}

// ─── Reading customers ───

/// A column of a row as read: `NULL`, text, or a value of any other type.
#[derive(Clone, Debug, PartialEq, Eq)]
pub enum ColumnValue {
    Null,
    Text(String),
    Other,
}

/// A column as the reader sees it.
pub enum ColumnView {
    Null,
    Text(Seq<char>),
    Other,
}

impl View for ColumnValue {
    type V = ColumnView;

    open spec fn view(&self) -> ColumnView {
        match self {
            ColumnValue::Null => ColumnView::Null,
            ColumnValue::Text(s) => ColumnView::Text(s@),
            ColumnValue::Other => ColumnView::Other,
        }
    }
}

/// The columns of a row, in order.
pub open spec fn row_view(row: Seq<ColumnValue>) -> Seq<ColumnView> {
    row.map_values(|c: ColumnValue| c@)
}

/// A required text column: text only.
pub open spec fn required_column(c: ColumnView) -> Option<Seq<char>> {
    match c {
        ColumnView::Text(s) => Some(s),
        _ => None,
    }
}

/// An optional text column: text or `NULL`.
pub open spec fn optional_column_ok(c: ColumnView) -> bool {
    c is Text || c is Null
}

/// The value of an optional text column that reads.
pub open spec fn optional_column(c: ColumnView) -> Option<Seq<char>> {
    match c {
        ColumnView::Text(s) => Some(s),
        _ => None,
    }
}

/// The column a bound value reads back as: text as text, `NULL` as `NULL`.
pub open spec fn column_of_param(p: SqlParam) -> ColumnView {
    match p {
        SqlParam::Text(s) => ColumnView::Text(s),
        SqlParam::Null => ColumnView::Null,
        SqlParam::Integer(_) => ColumnView::Other,
    }
}

/// The customer that a row of [`CUSTOMER_COLUMNS`] reads as, when every column
/// has a type its field accepts: text for the id and the company name, text or
/// `NULL` for the rest.
pub open spec fn customer_of_row(row: Seq<ColumnView>) -> Option<CustomerView> {
    if row.len() >= 11 && required_column(row[0]) is Some && required_column(row[1]) is Some
        && (forall|i: int| 2 <= i < 11 ==> optional_column_ok(#[trigger] row[i])) {
        Some(
            CustomerView {
                customer_id: required_column(row[0])->0,
                company_name: required_column(row[1])->0,
                details: DetailsView {
                    contact_name: optional_column(row[2]),
                    contact_title: optional_column(row[3]),
                    address: optional_column(row[4]),
                    city: optional_column(row[5]),
                    region: optional_column(row[6]),
                    postal_code: optional_column(row[7]),
                    country: optional_column(row[8]),
                    phone: optional_column(row[9]),
                    fax: optional_column(row[10]),
                },
            },
        )
    } else {
        None
    }
}

fn required_text(c: &ColumnValue) -> (r: Option<String>)
    ensures
        opt_view(r) == required_column(c@),
{
    match c {
        ColumnValue::Text(s) => Some(s.clone()),
        _ => None,
    }
}

fn optional_text_column(c: &ColumnValue) -> (r: Result<Option<String>, StoreError>)
    ensures
        r is Ok <==> optional_column_ok(c@),
        r matches Ok(v) ==> opt_view(v) == optional_column(c@),
{
    match c {
        ColumnValue::Text(s) => Ok(Some(s.clone())),
        ColumnValue::Null => Ok(None),
        ColumnValue::Other => Err(StoreError::Other),
    }
}

impl Customer {
    /// Builds a customer from a row whose columns are [`CUSTOMER_COLUMNS`], read
    /// by position: column 0 is the id, column 10 the fax. A row that is too
    /// short, or a column of a type its field does not accept, is an error.
    pub fn from_row(row: &Vec<ColumnValue>) -> (r: Result<Customer, StoreError>)
        ensures
            match customer_of_row(row_view(row@)) {
                Some(v) => r matches Ok(c) && c@ == v,
                None => r is Err,
            },
    {
        let ghost rv = row_view(row@);
        if row.len() < 11 {
            return Err(StoreError::Other);
        }
        assert(forall|k: int| 0 <= k < 11 ==> #[trigger] rv[k] == row@[k]@);
        let customer_id = match required_text(&row[0]) {
            Some(s) => s,
            None => return Err(StoreError::Other),
        };
        let company_name = match required_text(&row[1]) {
            Some(s) => s,
            None => return Err(StoreError::Other),
        };
        let contact_name = match optional_text_column(&row[2]) {
            Ok(v) => v,
            Err(e) => return Err(e),
        };
        let contact_title = match optional_text_column(&row[3]) {
            Ok(v) => v,
            Err(e) => return Err(e),
        };
        let address = match optional_text_column(&row[4]) {
            Ok(v) => v,
            Err(e) => return Err(e),
        };
        let city = match optional_text_column(&row[5]) {
            Ok(v) => v,
            Err(e) => return Err(e),
        };
        let region = match optional_text_column(&row[6]) {
            Ok(v) => v,
            Err(e) => return Err(e),
        };
        let postal_code = match optional_text_column(&row[7]) {
            Ok(v) => v,
            Err(e) => return Err(e),
        };
        let country = match optional_text_column(&row[8]) {
            Ok(v) => v,
            Err(e) => return Err(e),
        };
        let phone = match optional_text_column(&row[9]) {
            Ok(v) => v,
            Err(e) => return Err(e),
        };
        let fax = match optional_text_column(&row[10]) {
            Ok(v) => v,
            Err(e) => return Err(e),
        };
        Ok(Customer {
            customer_id,
            company_name,
            contact_name,
            contact_title,
            address,
            city,
            region,
            postal_code,
            country,
            phone,
            fax,
        })
    }
}


/// The statement that reads one customer by id, bound as `?1`.
pub open spec fn select_one_sql_spec() -> Seq<char> {
    "SELECT "@ + CUSTOMER_COLUMNS@ + " FROM Customers WHERE CustomerID = ?1"@
}

/// The statement that reads one customer by id.
pub fn select_one_sql() -> (r: String)
    ensures
        r@ == select_one_sql_spec(),
{
    let mut r = String::from_str("SELECT ");
    r.append(CUSTOMER_COLUMNS);
    r.append(" FROM Customers WHERE CustomerID = ?1");
    r
}

/// The answer of a read by id: the customer, 404 when no row has that id, 500
/// when the read failed.
pub open spec fn found_spec(id: Seq<char>, found: Result<Option<CustomerView>, StoreError>) -> Result<CustomerView, ApiErrorView> {
    match found {
        Ok(Some(c)) => Ok(c),
        Ok(None) => Err(not_found_error(id)),
        Err(_) => Err(internal_error()),
    }
}

/// The view of the outcome of a read by id.
pub open spec fn found_view(found: Result<Option<Customer>, StoreError>) -> Result<Option<CustomerView>, StoreError> {
    match found {
        Ok(Some(c)) => Ok(Some(c@)),
        Ok(None) => Ok(None),
        Err(e) => Err(e),
    }
}

/// The view of an answer that carries a customer.
pub open spec fn answer_view(r: Result<Customer, ApiError>) -> Result<CustomerView, ApiErrorView> {
    match r {
        Ok(c) => Ok(c@),
        Err(e) => Err(e@),
    }
}

/// Answers a read of the customer with the (normalised) id `id`.
pub fn found_outcome(id: &str, found: Result<Option<Customer>, StoreError>) -> (r: Result<Customer, ApiError>)
    ensures
        answer_view(r) == found_spec(id@, found_view(found)),
{
    match found {
        Ok(Some(c)) => Ok(c),
        Ok(None) => Err(not_found(id)),
        Err(_) => Err(ApiError::internal()),
    }
}

/// The values bound to a statement that selects one customer by id.
pub fn by_id_params(id: String) -> (r: Vec<SqlValue>)
    ensures
        params_view(r@) == seq![SqlParam::Text(id@)],
{
    let ghost i = id@;
    let mut r: Vec<SqlValue> = Vec::new();
    r.push(SqlValue::Text(id));
    assert(params_view(r@) =~= seq![SqlParam::Text(i)]);
    r
}

// ─── Creating a customer ───

/// The statement that inserts a customer; its eleven values are bound as
/// `?1` to `?11`, in the order of [`CUSTOMER_COLUMNS`].
pub open spec fn insert_sql_spec() -> Seq<char> {
    "INSERT INTO Customers ("@ + CUSTOMER_COLUMNS@
        + ") VALUES (?1, ?2, ?3, ?4, ?5, ?6, ?7, ?8, ?9, ?10, ?11)"@
}

/// The statement that inserts a customer.
pub fn insert_sql() -> (r: String)
    ensures
        r@ == insert_sql_spec(),
{
    let mut r = String::from_str("INSERT INTO Customers (");
    r.append(CUSTOMER_COLUMNS);
    r.append(") VALUES (?1, ?2, ?3, ?4, ?5, ?6, ?7, ?8, ?9, ?10, ?11)");
    r
}

/// The optional details as bound values, in column order.
pub open spec fn details_params(d: DetailsView) -> Seq<SqlParam> {
    seq![
        opt_param(d.contact_name),
        opt_param(d.contact_title),
        opt_param(d.address),
        opt_param(d.city),
        opt_param(d.region),
        opt_param(d.postal_code),
        opt_param(d.country),
        opt_param(d.phone),
        opt_param(d.fax),
    ]
}

/// The values bound to the insert of `c`: every field in column order, an
/// absent detail as `NULL`.
pub open spec fn customer_params(c: CustomerView) -> Seq<SqlParam> {
    seq![SqlParam::Text(c.customer_id), SqlParam::Text(c.company_name)] + details_params(c.details)
}

/// The values bound to the insert of `c`.
pub fn insert_params(c: Customer) -> (r: Vec<SqlValue>)
    ensures
        params_view(r@) == customer_params(c@),
{
    let ghost v = c@;
    let mut r: Vec<SqlValue> = Vec::new();
    r.push(SqlValue::Text(c.customer_id));
    r.push(SqlValue::Text(c.company_name));
    r.push(opt_value(c.contact_name));
    r.push(opt_value(c.contact_title));
    r.push(opt_value(c.address));
    r.push(opt_value(c.city));
    r.push(opt_value(c.region));
    r.push(opt_value(c.postal_code));
    r.push(opt_value(c.country));
    r.push(opt_value(c.phone));
    r.push(opt_value(c.fax));
    assert(params_view(r@) =~= customer_params(v));
    r
}

/// The answer to an insert refused as a duplicate id.
pub open spec fn duplicate_error(id: Seq<char>) -> ApiErrorView {
    ApiErrorView {
        status: STATUS_CONFLICT,
        code: "duplicate_id"@,
        message: around("a customer with id '"@, id, "' already exists"@),
    }
}

/// The answer of an insert: nothing when it succeeded, 409 when a constraint
/// refused it (the id is taken), 500 for any other failure.
pub open spec fn inserted_spec(id: Seq<char>, r: Result<(), StoreError>) -> Result<(), ApiErrorView> {
    match r {
        Ok(()) => Ok(()),
        Err(StoreError::ConstraintViolation) => Err(duplicate_error(id)),
        Err(StoreError::Other) => Err(internal_error()),
    }
}

/// The view of an answer that carries nothing.
pub open spec fn unit_view(r: Result<(), ApiError>) -> Result<(), ApiErrorView> {
    match r {
        Ok(()) => Ok(()),
        Err(e) => Err(e@),
    }
}

/// Answers the insert of the customer with id `id`.
pub fn inserted_outcome(id: &str, r: Result<(), StoreError>) -> (a: Result<(), ApiError>)
    ensures
        unit_view(a) == inserted_spec(id@, r),
{
    match r {
        Ok(()) => Ok(()),
        Err(StoreError::ConstraintViolation) => Err(
            ApiError::new(
                STATUS_CONFLICT,
                "duplicate_id",
                around_id("a customer with id '", id, "' already exists"),
            ),
        ),
        Err(StoreError::Other) => Err(ApiError::internal()),
    }
}

/// A created customer: where it now lives, and the row as it was stored.
#[derive(Debug)]
pub struct Created {
    pub status: u16,
    pub location: String,
    pub customer: Customer,
}

/// Where the customer with id `id` lives.
pub open spec fn location_spec(id: Seq<char>) -> Seq<char> {
    "/customers/"@ + id
}

/// A created customer as the client sees it.
pub struct CreatedView {
    pub status: u16,
    pub location: Seq<char>,
    pub customer: CustomerView,
}

/// The answer of a creation once the insert succeeded, by what reading the row
/// back gave: `201` with the location and the row, 500 when the row cannot be
/// read back or is not there.
pub open spec fn created_spec(id: Seq<char>, reread: Result<Option<CustomerView>, StoreError>) -> Result<CreatedView, ApiErrorView> {
    match reread {
        Ok(Some(c)) => Ok(CreatedView { status: STATUS_CREATED, location: location_spec(id), customer: c }),
        _ => Err(internal_error()),
    }
}

/// The view of a creation answer.
pub open spec fn created_view(r: Result<Created, ApiError>) -> Result<CreatedView, ApiErrorView> {
    match r {
        Ok(made) => Ok(
            CreatedView { status: made.status, location: made.location@, customer: made.customer@ },
        ),
        Err(e) => Err(e@),
    }
}

/// Answers a creation once the insert succeeded.
pub fn created_outcome(id: &str, reread: Result<Option<Customer>, StoreError>) -> (r: Result<Created, ApiError>)
    ensures
        created_view(r) == created_spec(id@, found_view(reread)),
{
    match reread {
        Ok(Some(customer)) => {
            let mut location = String::from_str("/customers/");
            location.append(id);
            Ok(Created { status: STATUS_CREATED, location, customer })
        },
        _ => Err(ApiError::internal()),
    }
}

// ─── Replacing a customer ───

/// The statement that replaces the ten editable columns of a customer; the
/// values are `?1` to `?10` and the id is `?11`.
pub open spec fn update_sql_spec() -> Seq<char> {
    "UPDATE Customers SET CompanyName = ?1, ContactName = ?2, ContactTitle = ?3, Address = ?4, City = ?5, Region = ?6, PostalCode = ?7, Country = ?8, Phone = ?9, Fax = ?10 WHERE CustomerID = ?11"@
}

/// The statement that replaces a customer.
pub fn update_sql() -> (r: String)
    ensures
        r@ == update_sql_spec(),
{
    String::from_str(
        "UPDATE Customers SET CompanyName = ?1, ContactName = ?2, ContactTitle = ?3, Address = ?4, City = ?5, Region = ?6, PostalCode = ?7, Country = ?8, Phone = ?9, Fax = ?10 WHERE CustomerID = ?11",
    )
}

/// The values bound to the replacement of the customer `id` by `u`: an absent
/// field is stored as `NULL`, not kept.
pub open spec fn update_params_spec(id: Seq<char>, u: UpdateView) -> Seq<SqlParam> {
    seq![SqlParam::Text(u.company_name)] + details_params(u.details) + seq![SqlParam::Text(id)]
}

/// The values bound to the replacement of the customer `id` by `u`.
pub fn update_params(id: String, u: UpdateCustomer) -> (r: Vec<SqlValue>)
    ensures
        params_view(r@) == update_params_spec(id@, u@),
{
    let ghost v = u@;
    let ghost i = id@;
    let mut r: Vec<SqlValue> = Vec::new();
    r.push(SqlValue::Text(u.company_name));
    r.push(opt_value(u.contact_name));
    r.push(opt_value(u.contact_title));
    r.push(opt_value(u.address));
    r.push(opt_value(u.city));
    r.push(opt_value(u.region));
    r.push(opt_value(u.postal_code));
    r.push(opt_value(u.country));
    r.push(opt_value(u.phone));
    r.push(opt_value(u.fax));
    r.push(SqlValue::Text(id));
    assert(params_view(r@) =~= update_params_spec(i, v));
    r
}

/// The answer of a replacement by how many rows it changed: none means no
/// customer has the id (404), a failure is 500.
pub open spec fn updated_spec(id: Seq<char>, r: Result<usize, StoreError>) -> Result<(), ApiErrorView> {
    match r {
        Ok(n) => if n == 0 {
            Err(not_found_error(id))
        } else {
            Ok(())
        },
        Err(_) => Err(internal_error()),
    }
}

/// Answers the replacement of the customer `id`, given the rows it changed.
pub fn updated_outcome(id: &str, r: Result<usize, StoreError>) -> (a: Result<(), ApiError>)
    ensures
        unit_view(a) == updated_spec(id@, r),
{
    match r {
        Ok(n) => if n == 0 {
            Err(not_found(id))
        } else {
            Ok(())
        },
        Err(_) => Err(ApiError::internal()),
    }
}

// ─── Deleting a customer ───

/// The statement that deletes a customer by id, bound as `?1`.
pub open spec fn delete_sql_spec() -> Seq<char> {
    "DELETE FROM Customers WHERE CustomerID = ?1"@
}

/// The statement that deletes a customer.
pub fn delete_sql() -> (r: String)
    ensures
        r@ == delete_sql_spec(),
{
    String::from_str("DELETE FROM Customers WHERE CustomerID = ?1")
}

/// The answer to a delete refused because orders still point at the customer.
pub open spec fn has_orders_error(id: Seq<char>) -> ApiErrorView {
    ApiErrorView {
        status: STATUS_CONFLICT,
        code: "has_orders"@,
        message: around(
            "customer '"@,
            id,
            "' cannot be deleted because it has associated orders — delete or reassign them first"@,
        ),
    }
}

/// The answer of a delete: 204 when a row went, 404 when none had the id, 409
/// when a foreign key kept it, 500 for any other failure.
pub open spec fn deleted_spec(id: Seq<char>, r: Result<usize, StoreError>) -> Result<u16, ApiErrorView> {
    match r {
        Ok(n) => if n == 0 {
            Err(not_found_error(id))
        } else {
            Ok(STATUS_NO_CONTENT)
        },
        Err(StoreError::ConstraintViolation) => Err(has_orders_error(id)),
        Err(StoreError::Other) => Err(internal_error()),
    }
}

/// The view of an answer that carries a status.
pub open spec fn status_view(r: Result<u16, ApiError>) -> Result<u16, ApiErrorView> {
    match r {
        Ok(s) => Ok(s),
        Err(e) => Err(e@),
    }
}

/// Answers the delete of the customer `id`, given the rows it removed.
pub fn deleted_outcome(id: &str, r: Result<usize, StoreError>) -> (a: Result<u16, ApiError>)
    ensures
        status_view(a) == deleted_spec(id@, r),
{
    match r {
        Ok(n) => if n == 0 {
            Err(not_found(id))
        } else {
            Ok(STATUS_NO_CONTENT)
        },
        Err(StoreError::ConstraintViolation) => Err(
            ApiError::new(
                STATUS_CONFLICT,
                "has_orders",
                around_id(
                    "customer '",
                    id,
                    "' cannot be deleted because it has associated orders — delete or reassign them first",
                ),
            ),
        ),
        Err(StoreError::Other) => Err(ApiError::internal()),
    }
}

// ─── Health ───

/// The liveness report: `"ok"`, the version of the linked SQLite, and the
/// number of customers.
#[derive(Debug)]
pub struct Health {
    pub status: &'static str,
    pub sqlite: String,
    pub customers: i64,
}

/// The statement that counts the customers.
pub fn count_sql() -> (r: String)
    ensures
        r@ == "SELECT COUNT(*) FROM Customers"@,
{
    String::from_str("SELECT COUNT(*) FROM Customers")
}

/// Answers the liveness probe, given the count query's outcome and the SQLite
/// version: the report when the database answered, 503 when it did not (the
/// service is up, its database is not).
pub fn health_outcome(count: Result<i64, StoreError>, sqlite: &str) -> (r: Result<Health, u16>)
    ensures
        match count {
            Ok(n) => r matches Ok(h) && h.status@ == "ok"@ && h.sqlite@ == sqlite@ && h.customers
                == n,
            Err(_) => r == Err::<Health, u16>(STATUS_UNAVAILABLE),
        },
{
    match count {
        Ok(n) => Ok(Health { status: "ok", sqlite: String::from_str(sqlite), customers: n }),
        Err(_) => Err(STATUS_UNAVAILABLE),
    }
}

} // verus!
