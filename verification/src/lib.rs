//! Northwind customer management: the request logic of the customers API.
//!
//! The library holds what the HTTP service decides: how query parameters are
//! normalised, which SQL text is built, how input is validated before it is
//! stored, and which status and error body each outcome is answered with.
//! The database and the HTTP server themselves are driven from `app/`.

pub mod cors;
pub mod error;
pub mod laws;
pub mod listing;
pub mod models;
pub mod requests;
pub mod service;
pub mod sql;
pub mod text;
pub mod validation;
