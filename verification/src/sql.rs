//! Values bound to the placeholders of an SQL statement.

use vstd::prelude::*;
use crate::models::opt_view;

verus! {

/// A bound value as the statement sees it.
pub enum SqlParam {
    Null,
    Integer(i64),
    Text(Seq<char>),
}

/// A value bound to one placeholder (`?1`, `?2`, ...). `Null` stores SQL `NULL`.
#[derive(Clone, Debug, PartialEq, Eq)]
pub enum SqlValue {
    Null,
    Integer(i64),
    Text(String),
}

impl View for SqlValue {
    type V = SqlParam;

    open spec fn view(&self) -> SqlParam {
        match self {
            SqlValue::Null => SqlParam::Null,
            SqlValue::Integer(n) => SqlParam::Integer(*n),
            SqlValue::Text(s) => SqlParam::Text(s@),
        }
    }
}

/// The views of a list of bound values, in placeholder order.
pub open spec fn params_view(v: Seq<SqlValue>) -> Seq<SqlParam> {
    v.map_values(|x: SqlValue| x@)
}

/// What an optional text is bound as: its text, or `NULL`.
pub open spec fn opt_param(o: Option<Seq<char>>) -> SqlParam {
    match o {
        Some(s) => SqlParam::Text(s),
        None => SqlParam::Null,
    }
}

/// Binds an optional text: `None` becomes `NULL`.
pub fn opt_value(o: Option<String>) -> (r: SqlValue)
    ensures
        r@ == opt_param(opt_view(o)),
{
    match o {
        Some(s) => SqlValue::Text(s),
        None => SqlValue::Null,
    }
}

} // verus!
