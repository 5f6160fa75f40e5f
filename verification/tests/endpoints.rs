use northwind::cors::Cors;
use northwind::error::catcher_error;
use northwind::listing::{paginate, plan_list, sort_column, ListQuery};
use northwind::models::Customer;
use northwind::requests::plan_read;
use northwind::sql::SqlValue;
use northwind::service::{found_outcome, health_outcome, StoreError};
use northwind::validation::normalize_customer_id;

fn alfki() -> Customer {
    Customer {
        customer_id: "ALFKI".to_string(),
        company_name: "Alfreds Futterkiste".to_string(),
        contact_name: Some("Maria Anders".to_string()),
        contact_title: Some("Sales Representative".to_string()),
        address: Some("Obere Str. 57".to_string()),
        city: Some("Berlin".to_string()),
        region: Some("Western Europe".to_string()),
        postal_code: Some("12209".to_string()),
        country: Some("Germany".to_string()),
        phone: Some("030-0074321".to_string()),
        fax: Some("030-0076545".to_string()),
    }
}

fn rows(n: usize) -> Vec<Customer> {
    (0..n).map(|_| alfki()).collect()
}

#[test]
fn health_reports_the_93_customers() {
    let health = health_outcome(Ok(93), "3.53.2").expect("a counted table is healthy");
    assert_eq!(health.customers, 93, "the Northwind dataset has 93 customers");
    assert_eq!(health.status, "ok");
    assert_eq!(health.sqlite, "3.53.2");
}

#[test]
fn list_defaults_to_ten_per_page() {
    let plan = plan_list(&ListQuery::default());
    assert_eq!(plan.page, 1);
    assert_eq!(plan.page_size, 10);
    assert_eq!(plan.limit, 10, "the default page size is 10");
    assert_eq!(plan.offset, 0);
    assert_eq!(plan.select_params, vec![SqlValue::Integer(10), SqlValue::Integer(0)]);
    assert!(plan.select_sql.ends_with("LIMIT ?1 OFFSET ?2"));
    let body = paginate(&plan, rows(10), 93);
    assert_eq!((body.total, body.page, body.page_size), (93, 1, 10));
}

#[test]
fn page_size_is_honoured() {
    let q = ListQuery { page_size: Some(2), ..ListQuery::default() };
    let plan = plan_list(&q);
    assert_eq!(plan.page_size, 2);
    assert_eq!(plan.limit, 2);
    assert_eq!(plan.select_params, vec![SqlValue::Integer(2), SqlValue::Integer(0)]);
}

#[test]
fn company_name_filters_case_insensitively() {
    let q = ListQuery { company_name: Some("alfreds".to_string()), ..ListQuery::default() };
    let plan = plan_list(&q);
    assert_eq!(plan.pattern.as_deref(), Some("%alfreds%"));
    assert_eq!(plan.count_sql, "SELECT COUNT(*) FROM Customers WHERE CompanyName LIKE ?1");
    assert_eq!(plan.count_params, vec![SqlValue::Text("%alfreds%".to_string())]);
    assert_eq!(
        plan.select_params,
        vec![SqlValue::Text("%alfreds%".to_string()), SqlValue::Integer(10), SqlValue::Integer(0)]
    );
}

#[test]
fn unknown_sort_by_falls_back_to_the_default() {
    assert_eq!(sort_column(Some("NoExiste")), "CompanyName");
    let q = ListQuery { sort_by: Some("NoExiste".to_string()), ..ListQuery::default() };
    let plan = plan_list(&q);
    assert!(plan.select_sql.contains("ORDER BY CompanyName ASC"));
    assert_eq!(plan.count_sql, "SELECT COUNT(*) FROM Customers ");
    assert_eq!(plan.limit, 10);
}

#[test]
fn page_size_is_capped() {
    let q = ListQuery { page_size: Some(999999), ..ListQuery::default() };
    let plan = plan_list(&q);
    assert_eq!(plan.page_size, 100, "pageSize must be capped at 100");
    assert_eq!(plan.limit, 100);
    assert_eq!(plan.select_params, vec![SqlValue::Integer(100), SqlValue::Integer(0)]);
}

#[test]
fn get_by_id_returns_the_customer() {
    let plan = plan_read("ALFKI").expect("ALFKI is a valid id");
    assert_eq!(plan.customer_id, "ALFKI");
    assert_eq!(plan.statement.params, vec![SqlValue::Text("ALFKI".to_string())]);
    let customer = found_outcome(&plan.customer_id, Ok(Some(alfki()))).expect("ALFKI exists");
    assert_eq!(customer.customer_id, "ALFKI");
    assert_eq!(customer.company_name, "Alfreds Futterkiste");
}

#[test]
fn get_by_id_normalises_the_case() {
    let lowercase = plan_read("alfki").expect("alfki is a valid id");
    let uppercase = plan_read("ALFKI").expect("ALFKI is a valid id");
    assert_eq!(lowercase.customer_id, uppercase.customer_id, "/customers/alfki must be the same resource as /customers/ALFKI");
    assert_eq!(lowercase.statement.sql, uppercase.statement.sql);
    assert_eq!(lowercase.statement.params, uppercase.statement.params);
    assert_eq!(lowercase.customer_id, "ALFKI");
    assert_eq!(normalize_customer_id("alfki").unwrap(), "ALFKI");
}

#[test]
fn unknown_id_returns_a_json_404() {
    let id = normalize_customer_id("NOEXI").expect("NOEXI is a valid id");
    let err = found_outcome(&id, Ok(None)).unwrap_err();
    assert_eq!(err.status(), 404);
    assert_eq!(err.code(), "not_found");
    assert!(!err.message().is_empty(), "the error body must carry a human-readable message");
    assert_eq!(err.message(), "no customer with id 'NOEXI'");
}

#[test]
fn unknown_route_is_caught_as_json() {
    let err = catcher_error(404);
    assert_eq!(err.status(), 404);
    assert_eq!(err.code(), "not_found");
    assert!(!err.message().is_empty());
}

#[test]
fn responses_carry_the_cors_header() {
    for env in [None, Some(String::new()), Some("http://localhost:3000".to_string())] {
        let cors = Cors::from_env(env);
        let origin = cors
            .headers()
            .iter()
            .find(|(name, _)| name.eq_ignore_ascii_case("access-control-allow-origin"))
            .map(|(_, value)| value.clone())
            .expect("the CORS policy must set access-control-allow-origin");
        assert!(!origin.is_empty(), "the allowed origin must not be empty");
        assert_eq!(origin, "http://localhost:3000");
    }
}

#[test]
fn health_fails_as_unavailable() {
    assert_eq!(health_outcome(Err(StoreError::Other), "3.53.2").unwrap_err(), 503);
}
