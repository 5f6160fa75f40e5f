//! What each customer request runs, in order.
//!
//! A request is planned before the database is touched: the plan exists only
//! when every part of the request is valid, and it binds only the normalised
//! record. Running the plan's statements, and handing their outcomes to the
//! answers of [`crate::service`], is left to the caller.

use vstd::prelude::*;
use crate::error::{ApiError, ApiErrorView};
use crate::models::{CustomerView, NewCustomer, UpdateCustomer, UpdateView};
use crate::service::{
    by_id_params, created_spec, deleted_spec, found_spec, updated_spec, customer_params, delete_sql, delete_sql_spec, insert_params,
    insert_sql, insert_sql_spec, inserted_spec, select_one_sql, select_one_sql_spec, update_params,
    update_params_spec, update_sql, update_sql_spec, CreatedView, StoreError,
};
use crate::sql::{params_view, SqlParam, SqlValue};
use crate::validation::{
    has_company_name, invalid_id_error, is_valid_id, new_error, new_is_valid, normal_id,
    normalize_customer_id, normalized_new, normalized_update, validate_new_customer,
    validate_update, company_error,
};

verus! {

/// An SQL statement and the values bound to its placeholders.
#[derive(Debug)]
pub struct Statement {
    pub sql: String,
    pub params: Vec<SqlValue>,
}

/// Whether `st` is the statement `sql` with the values `params`.
pub open spec fn is_statement(st: Statement, sql: Seq<char>, params: Seq<SqlParam>) -> bool {
    st.sql@ == sql && params_view(st.params@) == params
}

/// The read of the customer with the normalised id `id`.
pub open spec fn is_read_of(st: Statement, id: Seq<char>) -> bool {
    is_statement(st, select_one_sql_spec(), seq![SqlParam::Text(id)])
}

fn read_of(id: String) -> (st: Statement)
    ensures
        is_read_of(st, id@),
{
    Statement { sql: select_one_sql(), params: by_id_params(id) }
}

/// A creation: the normalised id, the insert of the normalised record, and the
/// read that fetches the stored row back.
#[derive(Debug)]
pub struct CreatePlan {
    pub customer_id: String,
    pub insert: Statement,
    pub reread: Statement,
}

/// Plans `POST /customers`: no statement exists unless the payload is valid,
/// and the insert binds the normalised record, field by field.
pub fn plan_create(body: NewCustomer) -> (r: Result<CreatePlan, ApiError>)
    ensures
        match r {
            Ok(p) => {
                &&& new_is_valid(body@)
                &&& p.customer_id@ == normalized_new(body@).customer_id
                &&& is_statement(p.insert, insert_sql_spec(), customer_params(normalized_new(body@)))
                &&& is_read_of(p.reread, p.customer_id@)
            },
            Err(e) => !new_is_valid(body@) && e@ == new_error(body@),
        },
{
    let customer = match validate_new_customer(body) {
        Ok(c) => c,
        Err(e) => return Err(e),
    };
    let customer_id = customer.customer_id.clone();
    let insert = Statement { sql: insert_sql(), params: insert_params(customer) };
    let reread = read_of(customer_id.clone());
    Ok(CreatePlan { customer_id, insert, reread })
}

/// A request on one customer named in the URL: its normalised id and the
/// statement to run.
#[derive(Debug)]
pub struct ByIdPlan {
    pub customer_id: String,
    pub statement: Statement,
}

/// Plans `GET /customers/<id>`: a malformed id is refused before any read.
pub fn plan_read(raw_id: &str) -> (r: Result<ByIdPlan, ApiError>)
    ensures
        match r {
            Ok(p) => is_valid_id(normal_id(raw_id@)) && p.customer_id@ == normal_id(raw_id@)
                && is_read_of(p.statement, p.customer_id@),
            Err(e) => !is_valid_id(normal_id(raw_id@)) && e@ == invalid_id_error(),
        },
{
    let customer_id = match normalize_customer_id(raw_id) {
        Ok(id) => id,
        Err(e) => return Err(e),
    };
    let statement = read_of(customer_id.clone());
    Ok(ByIdPlan { customer_id, statement })
}

/// Plans `DELETE /customers/<id>`: a malformed id is refused before any
/// statement.
pub fn plan_delete(raw_id: &str) -> (r: Result<ByIdPlan, ApiError>)
    ensures
        match r {
            Ok(p) => is_valid_id(normal_id(raw_id@)) && p.customer_id@ == normal_id(raw_id@)
                && is_statement(p.statement, delete_sql_spec(), seq![SqlParam::Text(p.customer_id@)]),
            Err(e) => !is_valid_id(normal_id(raw_id@)) && e@ == invalid_id_error(),
        },
{
    let customer_id = match normalize_customer_id(raw_id) {
        Ok(id) => id,
        Err(e) => return Err(e),
    };
    let statement = Statement { sql: delete_sql(), params: by_id_params(customer_id.clone()) };
    Ok(ByIdPlan { customer_id, statement })
}

/// A replacement: the normalised id, the update of the normalised content,
/// and the read that fetches the stored row back.
#[derive(Debug)]
pub struct UpdatePlan {
    pub customer_id: String,
    pub update: Statement,
    pub reread: Statement,
}

/// Plans `PUT /customers/<id>`: the id is checked first, the payload second,
/// and no statement exists unless both are valid.
pub fn plan_update(raw_id: &str, body: UpdateCustomer) -> (r: Result<UpdatePlan, ApiError>)
    ensures
        match r {
            Ok(p) => {
                &&& is_valid_id(normal_id(raw_id@))
                &&& has_company_name(body@.company_name)
                &&& p.customer_id@ == normal_id(raw_id@)
                &&& is_statement(
                    p.update,
                    update_sql_spec(),
                    update_params_spec(p.customer_id@, normalized_update(body@)),
                )
                &&& is_read_of(p.reread, p.customer_id@)
            },
            Err(e) => if !is_valid_id(normal_id(raw_id@)) {
                e@ == invalid_id_error()
            } else {
                !has_company_name(body@.company_name) && e@ == company_error()
            },
        },
{
    let customer_id = match normalize_customer_id(raw_id) {
        Ok(id) => id,
        Err(e) => return Err(e),
    };
    let content = match validate_update(body) {
        Ok(u) => u,
        Err(e) => return Err(e),
    };
    let update = Statement { sql: update_sql(), params: update_params(customer_id.clone(), content) };
    let reread = read_of(customer_id.clone());
    Ok(UpdatePlan { customer_id, update, reread })
}

// ─── A model of the table ───

/// The `Customers` table by primary key.
pub type Table = Map<Seq<char>, CustomerView>;

/// What inserting `c` does to the table: a key already present is refused by
/// the primary key constraint, otherwise the row is added.
pub open spec fn table_insert(t: Table, c: CustomerView) -> Result<Table, StoreError> {
    if t.contains_key(c.customer_id) {
        Err(StoreError::ConstraintViolation)
    } else {
        Ok(t.insert(c.customer_id, c))
    }
}

/// What reading the row with key `id` gives.
pub open spec fn table_read(t: Table, id: Seq<char>) -> Result<Option<CustomerView>, StoreError> {
    if t.contains_key(id) {
        Ok(Some(t[id]))
    } else {
        Ok(None)
    }
}

/// The answer of a creation with `body` against the table `t`, and the table
/// after it: validation, then the insert, then the read back, each answered as
/// the functions of [`crate::service`] answer it.
pub open spec fn create_on(t: Table, body: CustomerView) -> (Result<CreatedView, ApiErrorView>, Table) {
    if !new_is_valid(body) {
        (Err(new_error(body)), t)
    } else {
        let c = normalized_new(body);
        match table_insert(t, c) {
            Err(e) => match inserted_spec(c.customer_id, Err(e)) {
                Err(x) => (Err(x), t),
                Ok(_) => (Err(new_error(body)), t),
            },
            Ok(t2) => (created_spec(c.customer_id, table_read(t2, c.customer_id)), t2),
        }
    }
}


/// The answer of a read of `raw_id` against the table.
pub open spec fn read_on(t: Table, raw_id: Seq<char>) -> Result<CustomerView, ApiErrorView> {
    if !is_valid_id(normal_id(raw_id)) {
        Err(invalid_id_error())
    } else {
        found_spec(normal_id(raw_id), table_read(t, normal_id(raw_id)))
    }
}

/// What replacing the editable columns of row `id` with `u` does: the number
/// of rows changed, and the table after it.
pub open spec fn table_update(t: Table, id: Seq<char>, u: UpdateView) -> (usize, Table) {
    if t.contains_key(id) {
        (1, t.insert(id, CustomerView { customer_id: id, company_name: u.company_name, details: u.details }))
    } else {
        (0, t)
    }
}

/// The answer of a replacement of `raw_id` by `body` against the table, and
/// the table after it: the id, then the payload, then the update, then the
/// read back, each answered as the functions of [`crate::service`] answer it.
pub open spec fn update_on(t: Table, raw_id: Seq<char>, body: UpdateView) -> (Result<CustomerView, ApiErrorView>, Table) {
    if !is_valid_id(normal_id(raw_id)) {
        (Err(invalid_id_error()), t)
    } else if !has_company_name(body.company_name) {
        (Err(company_error()), t)
    } else {
        let id = normal_id(raw_id);
        let (n, t2) = table_update(t, id, normalized_update(body));
        match updated_spec(id, Ok(n)) {
            Err(x) => (Err(x), t2),
            Ok(_) => (found_spec(id, table_read(t2, id)), t2),
        }
    }
}

/// What deleting row `id` does when the customers in `referenced` still have
/// orders: such a row is kept by the foreign key, any other row is removed.
/// Answers the number of rows removed, and the table after it.
pub open spec fn table_delete(t: Table, id: Seq<char>, referenced: Set<Seq<char>>) -> (Result<usize, StoreError>, Table) {
    if !t.contains_key(id) {
        (Ok(0), t)
    } else if referenced.contains(id) {
        (Err(StoreError::ConstraintViolation), t)
    } else {
        (Ok(1), t.remove(id))
    }
}

/// The answer of a delete of `raw_id` against the table, and the table after
/// it.
pub open spec fn delete_on(t: Table, raw_id: Seq<char>, referenced: Set<Seq<char>>) -> (Result<u16, ApiErrorView>, Table) {
    if !is_valid_id(normal_id(raw_id)) {
        (Err(invalid_id_error()), t)
    } else {
        let id = normal_id(raw_id);
        let (r, t2) = table_delete(t, id, referenced);
        (deleted_spec(id, r), t2)
    }
}

} // verus!
