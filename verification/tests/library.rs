use northwind::cors::{preflight, Cors};
use northwind::error::{catcher_error, ApiError, INTERNAL_MESSAGE};
use northwind::listing::{paginate, plan_list, sort_column, sort_direction, ListQuery};
use northwind::models::{Customer, NewCustomer, UpdateCustomer};
use northwind::service::{
    by_id_params, count_sql, created_outcome, delete_sql, deleted_outcome, found_outcome,
    insert_params, insert_sql, inserted_outcome, select_one_sql, update_params, update_sql,
    updated_outcome, ColumnValue, StoreError,
};
use northwind::sql::SqlValue;
use northwind::text::{lowercase_eq, to_upper, trim};
use northwind::validation::{
    normalize_customer_id, optional_text, require_non_empty, validate_new_customer,
    validate_update, INVALID_ID_MESSAGE,
};

fn s(x: &str) -> String {
    x.to_string()
}

fn test1_payload() -> NewCustomer {
    NewCustomer {
        customer_id: s("TEST1"),
        company_name: s("Pruebas SL"),
        contact_name: Some(s("Ada Lovelace")),
        contact_title: Some(s("CTO")),
        address: Some(s("Calle Mayor 1")),
        city: Some(s("Madrid")),
        region: None,
        postal_code: Some(s("28013")),
        country: Some(s("Spain")),
        phone: Some(s("+34 900 000 000")),
        fax: None,
    }
}

fn test1() -> Customer {
    validate_new_customer(test1_payload()).unwrap()
}

fn column_of(v: &SqlValue) -> ColumnValue {
    match v {
        SqlValue::Null => ColumnValue::Null,
        SqlValue::Text(t) => ColumnValue::Text(t.clone()),
        SqlValue::Integer(_) => ColumnValue::Other,
    }
}

// ─── text ───

#[test]
fn trim_removes_unicode_white_space_at_both_ends() {
    assert_eq!(trim(" \t\u{3000}abc d\u{a0}\n"), "abc d");
    assert_eq!(trim("   "), "");
    assert_eq!(trim(""), "");
    assert_eq!(trim("x"), "x");
}

#[test]
fn to_upper_changes_ascii_letters_only() {
    assert_eq!(to_upper("alfki"), "ALFKI");
    assert_eq!(to_upper("aLf1é-z"), "ALF1é-Z");
    assert_eq!(to_upper(""), "");
}

#[test]
fn lowercase_eq_ignores_ascii_case() {
    assert!(lowercase_eq("CompanyName", "companyname"));
    assert!(lowercase_eq("CITY", "city"));
    assert!(!lowercase_eq("cities", "city"));
    assert!(!lowercase_eq("citx", "city"));
}

// ─── validation ───

#[test]
fn customer_id_is_trimmed_and_upper_cased() {
    assert_eq!(normalize_customer_id("  alfki ").unwrap(), "ALFKI");
    assert_eq!(normalize_customer_id("Ab1c9").unwrap(), "AB1C9");
}

#[test]
fn bad_customer_ids_are_rejected() {
    for raw in ["AB", "abcdef", "AB-12", "ÑUÑEZ", "", "     "] {
        let e = normalize_customer_id(raw).unwrap_err();
        assert_eq!(e.status(), 400, "{raw:?}");
        assert_eq!(e.code(), "invalid_customer_id");
        assert_eq!(e.message(), INVALID_ID_MESSAGE);
    }
}

#[test]
fn required_fields_are_trimmed_or_rejected() {
    assert_eq!(require_non_empty("  Pruebas SL ", "invalid_company_name", "companyName").unwrap(), "Pruebas SL");
    let e = require_non_empty(" \t ", "invalid_company_name", "companyName").unwrap_err();
    assert_eq!(e.status(), 400);
    assert_eq!(e.code(), "invalid_company_name");
    assert_eq!(e.message(), "companyName is required and cannot be empty or whitespace-only");
}

#[test]
fn optional_text_collapses_blank_to_none() {
    assert_eq!(optional_text(None), None);
    assert_eq!(optional_text(Some(s("   "))), None);
    assert_eq!(optional_text(Some(s(""))), None);
    assert_eq!(optional_text(Some(s(" Berlin "))), Some(s("Berlin")));
}

#[test]
fn creation_payload_is_normalised() {
    let mut p = test1_payload();
    p.customer_id = s(" test1 ");
    p.company_name = s("  Pruebas SL  ");
    p.region = Some(s("  "));
    p.fax = Some(s(" 555 "));
    let c = validate_new_customer(p).unwrap();
    assert_eq!(c.customer_id, "TEST1");
    assert_eq!(c.company_name, "Pruebas SL");
    assert_eq!(c.region, None);
    assert_eq!(c.fax, Some(s("555")));
    assert_eq!(c.city, Some(s("Madrid")));
}

#[test]
fn creation_checks_the_id_before_the_name() {
    let mut p = test1_payload();
    p.customer_id = s("AB");
    p.company_name = s(" ");
    assert_eq!(validate_new_customer(p).unwrap_err().code(), "invalid_customer_id");
    let mut p = test1_payload();
    p.company_name = s(" ");
    let e = validate_new_customer(p).unwrap_err();
    assert_eq!(e.code(), "invalid_company_name");
    assert_eq!(e.status(), 400);
}

#[test]
fn update_payload_is_normalised_or_rejected() {
    let u = UpdateCustomer {
        company_name: s(" Pruebas SL "),
        contact_name: Some(s("")),
        contact_title: None,
        address: None,
        city: Some(s(" Barcelona")),
        region: None,
        postal_code: None,
        country: None,
        phone: None,
        fax: None,
    };
    let v = validate_update(u.clone()).unwrap();
    assert_eq!(v.company_name, "Pruebas SL");
    assert_eq!(v.contact_name, None);
    assert_eq!(v.city, Some(s("Barcelona")));
    let mut bad = u;
    bad.company_name = s("");
    assert_eq!(validate_update(bad).unwrap_err().code(), "invalid_company_name");
}

#[test]
fn stored_customer_validates_to_itself() {
    let c = test1();
    let again = validate_new_customer(NewCustomer {
        customer_id: c.customer_id.clone(),
        company_name: c.company_name.clone(),
        contact_name: c.contact_name.clone(),
        contact_title: c.contact_title.clone(),
        address: c.address.clone(),
        city: c.city.clone(),
        region: c.region.clone(),
        postal_code: c.postal_code.clone(),
        country: c.country.clone(),
        phone: c.phone.clone(),
        fax: c.fax.clone(),
    })
    .unwrap();
    assert_eq!(again, c);
    assert_eq!(normalize_customer_id(&c.customer_id).unwrap(), c.customer_id);
}

// ─── listing ───

#[test]
fn sort_columns_follow_the_whitelist() {
    assert_eq!(sort_column(Some("customerId")), "CustomerID");
    assert_eq!(sort_column(Some("companyname")), "CompanyName");
    assert_eq!(sort_column(Some("CONTACTNAME")), "ContactName");
    assert_eq!(sort_column(Some("contactTitle")), "ContactTitle");
    assert_eq!(sort_column(Some("City")), "City");
    assert_eq!(sort_column(Some("country")), "Country");
    assert_eq!(sort_column(Some("CompanyName; DROP TABLE Customers--")), "CompanyName");
    assert_eq!(sort_column(Some("")), "CompanyName");
    assert_eq!(sort_column(None), "CompanyName");
}

#[test]
fn sort_direction_is_asc_unless_desc() {
    assert_eq!(sort_direction(Some("desc")), "DESC");
    assert_eq!(sort_direction(Some("DeSc")), "DESC");
    assert_eq!(sort_direction(Some("asc")), "ASC");
    assert_eq!(sort_direction(Some("down")), "ASC");
    assert_eq!(sort_direction(None), "ASC");
}

#[test]
fn listing_statement_without_filter() {
    let q = ListQuery {
        page: Some(1),
        page_size: Some(2),
        sort_by: Some(s("customerId")),
        sort_dir: Some(s("asc")),
        ..ListQuery::default()
    };
    let plan = plan_list(&q);
    assert_eq!(plan.pattern, None);
    assert_eq!(plan.count_sql, "SELECT COUNT(*) FROM Customers ");
    assert!(plan.count_params.is_empty());
    assert_eq!(
        plan.select_sql,
        "SELECT CustomerID, CompanyName, ContactName, ContactTitle, Address, City, Region, PostalCode, Country, Phone, Fax FROM Customers  ORDER BY CustomerID ASC LIMIT ?1 OFFSET ?2"
    );
    assert_eq!(plan.select_params, vec![SqlValue::Integer(2), SqlValue::Integer(0)]);
}

#[test]
fn listing_statement_with_filter() {
    let q = ListQuery {
        page: Some(3),
        page_size: Some(20),
        company_name: Some(s("  ana ")),
        sort_by: Some(s("city")),
        sort_dir: Some(s("desc")),
    };
    let plan = plan_list(&q);
    assert_eq!(plan.pattern, Some(s("%ana%")));
    assert_eq!(plan.offset, 40);
    assert_eq!(plan.limit, 20);
    assert_eq!(
        plan.select_sql,
        "SELECT CustomerID, CompanyName, ContactName, ContactTitle, Address, City, Region, PostalCode, Country, Phone, Fax FROM Customers WHERE CompanyName LIKE ?1 ORDER BY City DESC LIMIT ?2 OFFSET ?3"
    );
    assert_eq!(
        plan.select_params,
        vec![SqlValue::Text(s("%ana%")), SqlValue::Integer(20), SqlValue::Integer(40)]
    );
}

#[test]
fn listing_bounds_out_of_range_values() {
    let plan = plan_list(&ListQuery { page: Some(0), page_size: Some(0), ..ListQuery::default() });
    assert_eq!(plan.page, 1);
    assert_eq!(plan.page_size, 1);
    let plan = plan_list(&ListQuery { page: Some(u32::MAX), page_size: Some(100), ..ListQuery::default() });
    assert_eq!(plan.offset, (u32::MAX as i64 - 1) * 100);
    let plan = plan_list(&ListQuery { company_name: Some(s("  ")), ..ListQuery::default() });
    assert_eq!(plan.pattern, None);
}

#[test]
fn pages_follow_one_another() {
    let first = plan_list(&ListQuery { page: Some(1), page_size: Some(7), ..ListQuery::default() });
    let second = plan_list(&ListQuery { page: Some(2), page_size: Some(7), ..ListQuery::default() });
    assert_eq!(first.offset, 0);
    assert_eq!(second.offset, first.offset + first.limit);
}

#[test]
fn sql_text_does_not_carry_the_search_text() {
    let a = plan_list(&ListQuery { company_name: Some(s("alfreds")), page: Some(4), ..ListQuery::default() });
    let b = plan_list(&ListQuery { company_name: Some(s("x' OR 1=1 --")), ..ListQuery::default() });
    assert_eq!(a.select_sql, b.select_sql);
    assert_eq!(a.count_sql, b.count_sql);
}

#[test]
fn paginate_reports_what_was_served() {
    let plan = plan_list(&ListQuery { page: Some(5), page_size: Some(3), ..ListQuery::default() });
    let page = paginate(&plan, vec![test1()], 13);
    assert_eq!((page.page, page.page_size, page.total, page.data.len()), (5, 3, 13, 1));
}

// ─── statements and outcomes ───

#[test]
fn customer_statements() {
    assert_eq!(
        insert_sql(),
        "INSERT INTO Customers (CustomerID, CompanyName, ContactName, ContactTitle, Address, City, Region, PostalCode, Country, Phone, Fax) VALUES (?1, ?2, ?3, ?4, ?5, ?6, ?7, ?8, ?9, ?10, ?11)"
    );
    assert_eq!(
        select_one_sql(),
        "SELECT CustomerID, CompanyName, ContactName, ContactTitle, Address, City, Region, PostalCode, Country, Phone, Fax FROM Customers WHERE CustomerID = ?1"
    );
    assert_eq!(delete_sql(), "DELETE FROM Customers WHERE CustomerID = ?1");
    assert!(update_sql().ends_with("Fax = ?10 WHERE CustomerID = ?11"));
    assert_eq!(count_sql(), "SELECT COUNT(*) FROM Customers");
    assert_eq!(Customer::COLUMNS, northwind::models::CUSTOMER_COLUMNS);
    assert_eq!(by_id_params(s("ALFKI")), vec![SqlValue::Text(s("ALFKI"))]);
}

#[test]
fn insert_binds_fields_in_column_order() {
    let p = insert_params(test1());
    assert_eq!(p.len(), 11);
    assert_eq!(p[0], SqlValue::Text(s("TEST1")));
    assert_eq!(p[1], SqlValue::Text(s("Pruebas SL")));
    assert_eq!(p[2], SqlValue::Text(s("Ada Lovelace")));
    assert_eq!(p[6], SqlValue::Null);
    assert_eq!(p[9], SqlValue::Text(s("+34 900 000 000")));
    assert_eq!(p[10], SqlValue::Null);
}

#[test]
fn update_binds_the_id_last() {
    let u = UpdateCustomer {
        company_name: s("Pruebas SL"),
        contact_name: None,
        contact_title: None,
        address: None,
        city: Some(s("Barcelona")),
        region: None,
        postal_code: None,
        country: None,
        phone: None,
        fax: None,
    };
    let p = update_params(s("TEST1"), u);
    assert_eq!(p.len(), 11);
    assert_eq!(p[0], SqlValue::Text(s("Pruebas SL")));
    assert_eq!(p[4], SqlValue::Text(s("Barcelona")));
    assert_eq!(p[1], SqlValue::Null);
    assert_eq!(p[10], SqlValue::Text(s("TEST1")));
}

#[test]
fn inserted_row_reads_back_as_the_customer() {
    let c = test1();
    let row: Vec<ColumnValue> = insert_params(c.clone()).iter().map(column_of).collect();
    assert_eq!(Customer::from_row(&row).unwrap(), c);
}

#[test]
fn rows_of_the_wrong_shape_are_refused() {
    let row: Vec<ColumnValue> = insert_params(test1()).iter().map(column_of).collect();
    assert_eq!(Customer::from_row(&row[..10].to_vec()), Err(StoreError::Other));
    let mut no_id = row.clone();
    no_id[0] = ColumnValue::Null;
    assert_eq!(Customer::from_row(&no_id), Err(StoreError::Other));
    let mut bad_fax = row;
    bad_fax[10] = ColumnValue::Other;
    assert_eq!(Customer::from_row(&bad_fax), Err(StoreError::Other));
}

#[test]
fn duplicate_insert_is_a_conflict() {
    assert!(inserted_outcome("TEST1", Ok(())).is_ok());
    let e = inserted_outcome("TEST1", Err(StoreError::ConstraintViolation)).unwrap_err();
    assert_eq!(e.status(), 409);
    assert_eq!(e.code(), "duplicate_id");
    assert_eq!(e.message(), "a customer with id 'TEST1' already exists");
    let e = inserted_outcome("TEST1", Err(StoreError::Other)).unwrap_err();
    assert_eq!((e.status(), e.code(), e.message()), (500, "database_error", INTERNAL_MESSAGE));
}

#[test]
fn creation_answers_with_location_and_row() {
    let made = created_outcome("TEST1", Ok(Some(test1()))).unwrap();
    assert_eq!(made.status, 201);
    assert_eq!(made.location, "/customers/TEST1");
    assert_eq!(made.customer, test1());
    assert_eq!(created_outcome("TEST1", Ok(None)).unwrap_err().status(), 500);
    assert_eq!(created_outcome("TEST1", Err(StoreError::Other)).unwrap_err().code(), "database_error");
}

#[test]
fn read_failure_is_internal() {
    assert_eq!(found_outcome("ALFKI", Err(StoreError::Other)).unwrap_err().status(), 500);
}

#[test]
fn update_of_a_missing_customer_is_not_found() {
    assert!(updated_outcome("TEST1", Ok(1)).is_ok());
    let e = updated_outcome("ZZZZZ", Ok(0)).unwrap_err();
    assert_eq!((e.status(), e.code(), e.message()), (404, "not_found", "no customer with id 'ZZZZZ'"));
    assert_eq!(updated_outcome("TEST1", Err(StoreError::Other)).unwrap_err().status(), 500);
}

#[test]
fn delete_outcomes() {
    assert_eq!(deleted_outcome("TEST1", Ok(1)).unwrap(), 204);
    let e = deleted_outcome("ZZZZZ", Ok(0)).unwrap_err();
    assert_eq!((e.status(), e.code()), (404, "not_found"));
    let e = deleted_outcome("ALFKI", Err(StoreError::ConstraintViolation)).unwrap_err();
    assert_eq!(e.status(), 409);
    assert_eq!(e.code(), "has_orders");
    assert_eq!(
        e.message(),
        "customer 'ALFKI' cannot be deleted because it has associated orders — delete or reassign them first"
    );
    assert_eq!(deleted_outcome("ALFKI", Err(StoreError::Other)).unwrap_err().status(), 500);
}

// ─── errors and CORS ───

#[test]
fn api_error_constructors() {
    let e = ApiError::new(418, "teapot", s("short and stout"));
    assert_eq!((e.status(), e.code(), e.message()), (418, "teapot", "short and stout"));
    let e = ApiError::bad_request("bad", s("no"));
    assert_eq!((e.status(), e.code(), e.message()), (400, "bad", "no"));
    let e = ApiError::internal();
    assert_eq!((e.status(), e.code(), e.message()), (500, "database_error", INTERNAL_MESSAGE));
}

#[test]
fn catchers_answer_json_codes() {
    assert_eq!(catcher_error(400).code(), "malformed_json");
    assert_eq!(catcher_error(422).code(), "invalid_body");
    let e = catcher_error(500);
    assert_eq!((e.status(), e.code()), (500, "http_error"));
    assert!(!e.message().is_empty());
}

#[test]
fn cors_headers_name_the_configured_origin() {
    let cors = Cors::from_env(Some(s("https://northwind-fullstack.vercel.app")));
    assert_eq!(cors.origin(), "https://northwind-fullstack.vercel.app");
    let h = cors.headers();
    assert_eq!(
        h,
        vec![
            ("Access-Control-Allow-Origin", s("https://northwind-fullstack.vercel.app")),
            ("Access-Control-Allow-Methods", s("GET, POST, PUT, DELETE, OPTIONS")),
            ("Access-Control-Allow-Headers", s("Content-Type")),
            ("Access-Control-Max-Age", s("86400")),
        ]
    );
    assert_eq!(h.iter().filter(|(n, _)| *n == "Access-Control-Allow-Origin").count(), 1);
}

#[test]
fn preflight_is_no_content() {
    assert_eq!(preflight(), 204);
}

// ─── request plans ───

#[test]
fn empty_origin_falls_back_to_the_default() {
    assert_eq!(Cors::from_env(Some(s(""))).origin(), "http://localhost:3000");
    assert_eq!(Cors::from_env(None).origin(), "http://localhost:3000");
}

#[test]
fn preflight_answer_carries_the_cors_headers() {
    let cors = Cors::from_env(Some(s("https://example.org")));
    let (status, headers) = cors.preflight_answer();
    assert_eq!(status, 204);
    assert_eq!(headers, cors.headers());
    assert_eq!(headers[0], ("Access-Control-Allow-Origin", s("https://example.org")));
}

#[test]
fn create_plan_binds_the_normalised_record() {
    let mut p = test1_payload();
    p.customer_id = s(" test1 ");
    p.city = Some(s("  Madrid "));
    let plan = northwind::requests::plan_create(p).unwrap();
    assert_eq!(plan.customer_id, "TEST1");
    assert_eq!(plan.insert.sql, insert_sql());
    assert_eq!(plan.insert.params, insert_params(test1()));
    assert_eq!(plan.reread.sql, select_one_sql());
    assert_eq!(plan.reread.params, vec![SqlValue::Text(s("TEST1"))]);
}

#[test]
fn invalid_create_produces_no_statement() {
    let mut p = test1_payload();
    p.company_name = s("   ");
    let e = northwind::requests::plan_create(p).unwrap_err();
    assert_eq!((e.status(), e.code()), (400, "invalid_company_name"));
}

#[test]
fn update_plan_checks_id_then_body() {
    let u = UpdateCustomer {
        company_name: s(""),
        contact_name: None,
        contact_title: None,
        address: None,
        city: None,
        region: None,
        postal_code: None,
        country: None,
        phone: None,
        fax: None,
    };
    let e = northwind::requests::plan_update("AB", u.clone()).unwrap_err();
    assert_eq!(e.code(), "invalid_customer_id");
    let e = northwind::requests::plan_update("test1", u.clone()).unwrap_err();
    assert_eq!(e.code(), "invalid_company_name");
    let mut ok = u;
    ok.company_name = s(" Pruebas ");
    let plan = northwind::requests::plan_update("test1", ok.clone()).unwrap();
    assert_eq!(plan.customer_id, "TEST1");
    assert_eq!(plan.update.sql, update_sql());
    ok.company_name = s("Pruebas");
    assert_eq!(plan.update.params, update_params(s("TEST1"), ok));
}

#[test]
fn delete_plan_refuses_bad_ids() {
    assert_eq!(northwind::requests::plan_delete("x").unwrap_err().status(), 400);
    let plan = northwind::requests::plan_delete("alfki").unwrap();
    assert_eq!(plan.statement.sql, delete_sql());
    assert_eq!(plan.statement.params, vec![SqlValue::Text(s("ALFKI"))]);
}

#[test]
fn unavailable_database_is_answered_as_json() {
    let e = catcher_error(503);
    assert_eq!((e.status(), e.code()), (503, "database_unavailable"));
}
