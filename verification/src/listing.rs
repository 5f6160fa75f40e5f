//! `GET /customers`: pagination, company-name filter and sort order.
//!
//! Every parameter is optional and a value that is not understood is ignored:
//! the listing degrades to its defaults instead of failing. The SQL text is
//! built only from literals of this module; what the client sends reaches the
//! database as a bound parameter, or selects one of the literals.

use vstd::prelude::*;
use crate::models::{opt_view, Paginated, CUSTOMER_COLUMNS};
use crate::sql::{params_view, SqlParam, SqlValue};
use crate::text::{ascii_lowercase, lowercase_eq, trim, trimmed};

verus! {

/// The page served when none is asked for.
pub const DEFAULT_PAGE: u32 = 1;

/// The page size served when none is asked for.
pub const DEFAULT_PAGE_SIZE: u32 = 10;

/// The largest page size served, whatever is asked for.
pub const MAX_PAGE_SIZE: u32 = 100;

/// The sort column used when `sortBy` is absent or not in the whitelist.
pub const DEFAULT_SORT_COLUMN: &'static str = "CompanyName";

/// The column that `sortBy` selects: matched without regard to ASCII case
/// against the whitelist, and the default column for anything else.
pub open spec fn sort_column_spec(requested: Option<Seq<char>>) -> Seq<char> {
    match requested {
        None => DEFAULT_SORT_COLUMN@,
        Some(s) => {
            let l = ascii_lowercase(s);
            if l == "customerid"@ {
                "CustomerID"@
            } else if l == "companyname"@ {
                "CompanyName"@
            } else if l == "contactname"@ {
                "ContactName"@
            } else if l == "contacttitle"@ {
                "ContactTitle"@
            } else if l == "city"@ {
                "City"@
            } else if l == "country"@ {
                "Country"@
            } else {
                DEFAULT_SORT_COLUMN@
            }
        },
    }
}

/// The columns a listing can be sorted by.
pub open spec fn is_sort_column(c: Seq<char>) -> bool {
    ||| c == "CustomerID"@
    ||| c == "CompanyName"@
    ||| c == "ContactName"@
    ||| c == "ContactTitle"@
    ||| c == "City"@
    ||| c == "Country"@
}

/// The view of an optional borrowed text.
pub open spec fn opt_str_view(o: Option<&str>) -> Option<Seq<char>> {
    match o {
        Some(s) => Some(s@),
        None => None,
    }
}

/// Maps the client's `sortBy` to a column name of the whitelist.
pub fn sort_column(requested: Option<&str>) -> (r: &'static str)
    ensures
        r@ == sort_column_spec(opt_str_view(requested)),
        is_sort_column(r@),
{
    match requested {
        None => DEFAULT_SORT_COLUMN,
        Some(s) => {
            if lowercase_eq(s, "customerid") {
                "CustomerID"
            } else if lowercase_eq(s, "companyname") {
                "CompanyName"
            } else if lowercase_eq(s, "contactname") {
                "ContactName"
            } else if lowercase_eq(s, "contacttitle") {
                "ContactTitle"
            } else if lowercase_eq(s, "city") {
                "City"
            } else if lowercase_eq(s, "country") {
                "Country"
            } else {
                DEFAULT_SORT_COLUMN
            }
        },
    }
}

/// The direction that `sortDir` selects: descending for `desc` in any ASCII
/// case, ascending for anything else.
pub open spec fn sort_direction_spec(requested: Option<Seq<char>>) -> Seq<char> {
    match requested {
        Some(s) => if ascii_lowercase(s) == "desc"@ {
            "DESC"@
        } else {
            "ASC"@
        },
        None => "ASC"@,
    }
}

/// Maps the client's `sortDir` to `ASC` or `DESC`.
pub fn sort_direction(requested: Option<&str>) -> (r: &'static str)
    ensures
        r@ == sort_direction_spec(opt_str_view(requested)),
        r@ == "ASC"@ || r@ == "DESC"@,
{
    match requested {
        Some(s) => if lowercase_eq(s, "desc") {
            "DESC"
        } else {
            "ASC"
        },
        None => "ASC",
    }
}


/// The query string of `GET /customers`; every field is optional. A field that
/// is present but does not parse is handed over as absent.
#[derive(Clone, Debug, Default)]
pub struct ListQuery {
    pub page: Option<u32>,
    pub page_size: Option<u32>,
    pub company_name: Option<String>,
    pub sort_by: Option<String>,
    pub sort_dir: Option<String>,
}

/// The page served: the one asked for, at least the first.
pub open spec fn page_spec(page: Option<u32>) -> u32 {
    match page {
        Some(p) => if p < 1 {
            1
        } else {
            p
        },
        None => DEFAULT_PAGE,
    }
}

/// The page size served: the one asked for, clamped to `1..=MAX_PAGE_SIZE`.
pub open spec fn page_size_spec(page_size: Option<u32>) -> u32 {
    let s = match page_size {
        Some(s) => s,
        None => DEFAULT_PAGE_SIZE,
    };
    if s < 1 {
        1
    } else if s > MAX_PAGE_SIZE {
        MAX_PAGE_SIZE
    } else {
        s
    }
}

/// The `LIKE` pattern of the company-name filter: none when the filter is
/// absent or blank, else the trimmed text between two `%`.
pub open spec fn pattern_spec(company_name: Option<Seq<char>>) -> Option<Seq<char>> {
    match company_name {
        Some(s) => if trimmed(s).len() == 0 {
            None
        } else {
            Some("%"@ + trimmed(s) + "%"@)
        },
        None => None,
    }
}

/// The number of rows before the first row of `page`.
pub open spec fn offset_spec(page: u32, page_size: u32) -> int {
    (page - 1) * page_size
}

/// The `WHERE` clause: present only when there is a pattern, which it binds
/// as `?1`.
pub open spec fn where_spec(filtered: bool) -> Seq<char> {
    if filtered {
        "WHERE CompanyName LIKE ?1"@
    } else {
        ""@
    }
}

/// The statement that counts the rows of the listing.
pub open spec fn count_sql_spec(filtered: bool) -> Seq<char> {
    "SELECT COUNT(*) FROM Customers "@ + where_spec(filtered)
}

/// The placeholders of `LIMIT` and `OFFSET`: they follow the pattern's `?1`.
pub open spec fn limit_placeholder(filtered: bool) -> Seq<char> {
    if filtered {
        "?2"@
    } else {
        "?1"@
    }
}

/// The placeholder of `OFFSET`.
pub open spec fn offset_placeholder(filtered: bool) -> Seq<char> {
    if filtered {
        "?3"@
    } else {
        "?2"@
    }
}

/// The statement that reads one page of the listing.
pub open spec fn select_sql_spec(filtered: bool, column: Seq<char>, direction: Seq<char>) -> Seq<char> {
    "SELECT "@ + CUSTOMER_COLUMNS@ + " FROM Customers "@ + where_spec(filtered) + " ORDER BY "@
        + column + " "@ + direction + " LIMIT "@ + limit_placeholder(filtered) + " OFFSET "@
        + offset_placeholder(filtered)
}

/// The values bound to the count statement.
pub open spec fn count_params_spec(pattern: Option<Seq<char>>) -> Seq<SqlParam> {
    match pattern {
        Some(p) => seq![SqlParam::Text(p)],
        None => seq![],
    }
}

/// How one listing request is answered: the page, the page size, and the two
/// statements with their bound values, run under one lock so that the total and
/// the page agree.
#[derive(Debug)]
pub struct ListPlan {
    pub page: u32,
    pub page_size: u32,
    pub pattern: Option<String>,
    pub limit: i64,
    pub offset: i64,
    pub count_sql: String,
    pub count_params: Vec<SqlValue>,
    pub select_sql: String,
    pub select_params: Vec<SqlValue>,
}

/// The plan that answers `q`.
pub open spec fn is_plan_for(plan: ListPlan, q: ListQuery) -> bool {
    let page = page_spec(q.page);
    let page_size = page_size_spec(q.page_size);
    let pattern = pattern_spec(opt_view(q.company_name));
    let filtered = pattern is Some;
    let column = sort_column_spec(opt_view(q.sort_by));
    let direction = sort_direction_spec(opt_view(q.sort_dir));
    &&& plan.page == page
    &&& plan.page_size == page_size
    &&& opt_view(plan.pattern) == pattern
    &&& plan.limit == page_size
    &&& plan.offset == offset_spec(page, page_size)
    &&& plan.count_sql@ == count_sql_spec(filtered)
    &&& params_view(plan.count_params@) == count_params_spec(pattern)
    &&& plan.select_sql@ == select_sql_spec(filtered, column, direction)
    &&& params_view(plan.select_params@) == count_params_spec(pattern).push(
        SqlParam::Integer(plan.limit),
    ).push(SqlParam::Integer(plan.offset))
}

/// Normalises the query of a listing and builds its two statements.
pub fn plan_list(q: &ListQuery) -> (plan: ListPlan)
    ensures
        is_plan_for(plan, *q),
        1 <= plan.page,
        1 <= plan.page_size <= MAX_PAGE_SIZE,
        is_sort_column(sort_column_spec(opt_view(q.sort_by))),
{
    let page: u32 = match q.page {
        Some(p) => if p < 1 {
            1
        } else {
            p
        },
        None => DEFAULT_PAGE,
    };
    let requested_size: u32 = match q.page_size {
        Some(s) => s,
        None => DEFAULT_PAGE_SIZE,
    };
    let page_size: u32 = if requested_size < 1 {
        1
    } else if requested_size > MAX_PAGE_SIZE {
        MAX_PAGE_SIZE
    } else {
        requested_size
    };
    let sort_by = match &q.sort_by {
        Some(s) => sort_column(Some(s.as_str())),
        None => sort_column(None),
    };
    let sort_dir = match &q.sort_dir {
        Some(s) => sort_direction(Some(s.as_str())),
        None => sort_direction(None),
    };
    let pattern: Option<String> = match &q.company_name {
        Some(s) => {
            let t = trim(s.as_str());
            if t.unicode_len() == 0 {
                None
            } else {
                let mut p = String::from_str("%");
                p.append(t);
                p.append("%");
                Some(p)
            }
        },
        None => None,
    };
    assert((page - 1) * page_size <= 0xffff_ffff * 100) by (nonlinear_arith)
        requires
            1 <= page,
            page_size <= 100,
    ;
    let offset: i64 = ((page - 1) as i64) * (page_size as i64);
    let limit: i64 = page_size as i64;
    let filtered = pattern.is_some();
    let where_clause: &str = if filtered {
        "WHERE CompanyName LIKE ?1"
    } else {
        ""
    };
    let mut count_sql = String::from_str("SELECT COUNT(*) FROM Customers ");
    count_sql.append(where_clause);
    let (limit_ph, offset_ph): (&str, &str) = if filtered {
        ("?2", "?3")
    } else {
        ("?1", "?2")
    };
    let mut select_sql = String::from_str("SELECT ");
    select_sql.append(CUSTOMER_COLUMNS);
    select_sql.append(" FROM Customers ");
    select_sql.append(where_clause);
    select_sql.append(" ORDER BY ");
    select_sql.append(sort_by);
    select_sql.append(" ");
    select_sql.append(sort_dir);
    select_sql.append(" LIMIT ");
    select_sql.append(limit_ph);
    select_sql.append(" OFFSET ");
    select_sql.append(offset_ph);
    let mut count_params: Vec<SqlValue> = Vec::new();
    let mut select_params: Vec<SqlValue> = Vec::new();
    match &pattern {
        Some(p) => {
            count_params.push(SqlValue::Text(p.clone()));
            select_params.push(SqlValue::Text(p.clone()));
        },
        None => {},
    }
    select_params.push(SqlValue::Integer(limit));
    select_params.push(SqlValue::Integer(offset));
    assert(params_view(count_params@) =~= count_params_spec(opt_view(pattern)));
    assert(params_view(select_params@) =~= count_params_spec(opt_view(pattern)).push(
        SqlParam::Integer(limit),
    ).push(SqlParam::Integer(offset)));
    ListPlan {
        page,
        page_size,
        pattern,
        limit,
        offset,
        count_sql,
        count_params,
        select_sql,
        select_params,
    }
}

/// The answer of a listing: the page read, the total count, and the page and
/// page size that were served.
pub fn paginate<T>(plan: &ListPlan, data: Vec<T>, total: i64) -> (r: Paginated<T>)
    ensures
        r.data@ == data@,
        r.total == total,
        r.page == plan.page,
        r.page_size == plan.page_size,
{
    Paginated { data, total, page: plan.page, page_size: plan.page_size }
}

} // verus!
