# northwind

The request logic of a customer-management REST API over the Northwind SQLite
database, written in Verus.

- `src/` is the verified library: text normalisation (`text`), the customer
  models (`models`), API errors and their statuses (`error`), input validation
  (`validation`), the listing query and its SQL (`listing`), bound SQL values
  (`sql`), the statements and answers of the customer endpoints (`service`),
  the plans that validate a request before any statement exists (`requests`),
  the CORS policy (`cors`) and the properties that hold across them (`laws`).
- `app/` is the Rocket server: routes, the `Mutex<Connection>` to SQLite, the
  JSON forms of the models and the CORS fairing. It hands the library plain
  values and answers with what the library decides.
- `tests/` runs the library on concrete values.
